//! Requests to pay and their quotes.

use crate::fee::{fee_reserve, max_amount};
use crate::hex::{encode_32, hex_text};
use crate::payment::{
    IdentifierView, MeltQuoteState, PaymentError, PaymentIdentifier, PaymentQuoteResponse,
    PaymentQuoteView,
};
use crate::units::{conversion_fits, convert_amount, converted, CurrencyUnit, UnitView};
use vstd::prelude::*;

verus! {

/// How the amount of an outgoing payment is chosen by the payer.
#[derive(Debug, Clone, Copy, PartialEq, Eq)]
pub enum MeltOptions {
    /// One part of a payment split over several paths.
    Mpp { amount_msat: u64 },
    /// The amount for a request that names none.
    Amountless { amount_msat: u64 },
}

impl MeltOptions {
    /// The amount that the options name, in thousandths of a satoshi.
    pub open spec fn spec_amount_msat(&self) -> u64 {
        match self {
            MeltOptions::Mpp { amount_msat } => *amount_msat,
            MeltOptions::Amountless { amount_msat } => *amount_msat,
        }
    }

    /// The amount that the options name, in thousandths of a satoshi.
    #[verifier::when_used_as_spec(spec_amount_msat)]
    pub fn amount_msat(&self) -> (amount: u64)
        ensures
            amount == self.spec_amount_msat(),
    {
        match self {
            MeltOptions::Mpp { amount_msat } => *amount_msat,
            MeltOptions::Amountless { amount_msat } => *amount_msat,
        }
    }
}

/// What a BOLT12 offer asks for.
#[derive(Debug, Clone, Copy, PartialEq, Eq)]
pub enum OfferAmount {
    /// An amount in thousandths of a satoshi.
    Bitcoin { amount_msats: u64 },
    /// An amount in some other currency.
    Currency,
}

/// A BOLT11 invoice to pay, with what the bridge reads of it.
#[derive(Debug, Clone, Copy, PartialEq, Eq)]
pub struct Bolt11OutgoingPaymentOptions {
    /// The payment hash of the invoice.
    pub payment_hash: [u8; 32],
    /// The amount that the invoice names, if it names one.
    pub invoice_amount_msat: Option<u64>,
    /// The most that may be spent on fees, in the unit of the request.
    pub max_fee_amount: Option<u64>,
    pub melt_options: Option<MeltOptions>,
}

/// A BOLT12 offer to pay, with what the bridge reads of it.
#[derive(Debug, Clone, Copy, PartialEq, Eq)]
pub struct Bolt12OutgoingPaymentOptions {
    /// The id of the offer.
    pub offer_id: [u8; 32],
    /// The amount that the offer names, if it names one.
    pub offer_amount: Option<OfferAmount>,
    /// The most that may be spent on fees, in the unit of the request.
    pub max_fee_amount: Option<u64>,
    pub melt_options: Option<MeltOptions>,
}

/// A request to pay.
#[derive(Debug, Clone, Copy, PartialEq, Eq)]
pub enum OutgoingPaymentOptions {
    Bolt11(Bolt11OutgoingPaymentOptions),
    Bolt12(Bolt12OutgoingPaymentOptions),
}

/// The identifier under which an outgoing payment is looked up: the payment
/// hash of an invoice, the id of an offer as hexadecimal text.
pub open spec fn outgoing_lookup_id(options: OutgoingPaymentOptions) -> IdentifierView {
    match options {
        OutgoingPaymentOptions::Bolt11(bolt11) => IdentifierView::PaymentHash(
            bolt11.payment_hash@,
        ),
        OutgoingPaymentOptions::Bolt12(bolt12) => IdentifierView::OfferId(
            hex_text(bolt12.offer_id@),
        ),
    }
}

pub(crate) fn lookup_id_of(options: &OutgoingPaymentOptions) -> (id: PaymentIdentifier)
    ensures
        id@ == outgoing_lookup_id(*options),
{
    match options {
        OutgoingPaymentOptions::Bolt11(bolt11) => PaymentIdentifier::PaymentHash(
            bolt11.payment_hash,
        ),
        OutgoingPaymentOptions::Bolt12(bolt12) => PaymentIdentifier::OfferId(
            encode_32(&bolt12.offer_id),
        ),
    }
}

/// The amount to pay in thousandths of a satoshi: the one that the payer
/// chose, else the one that the invoice or offer names.
pub open spec fn outgoing_amount_msat(options: OutgoingPaymentOptions) -> Result<
    u64,
    PaymentError,
> {
    match options {
        OutgoingPaymentOptions::Bolt11(bolt11) => match bolt11.melt_options {
            Some(chosen) => Ok(chosen.spec_amount_msat()),
            None => match bolt11.invoice_amount_msat {
                Some(amount) => Ok(amount),
                None => Err(PaymentError::UnknownInvoiceAmount),
            },
        },
        OutgoingPaymentOptions::Bolt12(bolt12) => match bolt12.melt_options {
            Some(chosen) => Ok(chosen.spec_amount_msat()),
            None => match bolt12.offer_amount {
                Some(OfferAmount::Bitcoin { amount_msats }) => Ok(amount_msats),
                _ => Err(PaymentError::AmountMismatch),
            },
        },
    }
}

/// The amount to pay, in `unit`.
pub open spec fn quote_amount_spec(unit: UnitView, options: OutgoingPaymentOptions) -> Result<
    u64,
    PaymentError,
> {
    match outgoing_amount_msat(options) {
        Err(e) => Err(e),
        Ok(amount_msat) => if conversion_fits(amount_msat, UnitView::Msat, unit) {
            Ok(converted(amount_msat as int, UnitView::Msat, unit) as u64)
        } else {
            Err(PaymentError::AmountConversionFailure)
        },
    }
}

/// The amount that a request to pay is for, in `unit`.
pub fn quote_amount(unit: &CurrencyUnit, options: &OutgoingPaymentOptions) -> (r: Result<
    u64,
    PaymentError,
>)
    ensures
        r == quote_amount_spec(unit@, *options),
{
    let amount_msat = match options {
        OutgoingPaymentOptions::Bolt11(bolt11) => match bolt11.melt_options {
            Some(chosen) => chosen.amount_msat(),
            None => match bolt11.invoice_amount_msat {
                Some(amount) => amount,
                None => return Err(PaymentError::UnknownInvoiceAmount),
            },
        },
        OutgoingPaymentOptions::Bolt12(bolt12) => match bolt12.melt_options {
            Some(chosen) => chosen.amount_msat(),
            None => match bolt12.offer_amount {
                Some(OfferAmount::Bitcoin { amount_msats }) => amount_msats,
                _ => return Err(PaymentError::AmountMismatch),
            },
        },
    };
    match convert_amount(amount_msat, &CurrencyUnit::Msat, unit) {
        Some(amount) => Ok(amount),
        None => Err(PaymentError::AmountConversionFailure),
    }
}

/// The quote for a request to pay: the amount in `unit`, the fee reserve,
/// the identifier for later lookups, and the state `Unpaid`.
pub open spec fn payment_quote_spec(
    unit: UnitView,
    options: OutgoingPaymentOptions,
    min_fee_reserve: u64,
    relative_fee_reserve: u64,
) -> Result<PaymentQuoteView, PaymentError> {
    match quote_amount_spec(unit, options) {
        Err(e) => Err(e),
        Ok(amount) => Ok(
            PaymentQuoteView {
                request_lookup_id: outgoing_lookup_id(options),
                amount,
                fee: max_amount(min_fee_reserve, relative_fee_reserve),
                state: MeltQuoteState::Unpaid,
            },
        ),
    }
}

/// Quotes a request to pay.
///
/// `relative_fee_reserve` is the percentage share of the quoted amount (see
/// [`quote_amount`]), truncated toward zero; the fee is that share or
/// `min_fee_reserve`, whichever is larger.
pub fn get_payment_quote(
    unit: &CurrencyUnit,
    options: &OutgoingPaymentOptions,
    min_fee_reserve: u64,
    relative_fee_reserve: u64,
) -> (r: Result<PaymentQuoteResponse, PaymentError>)
    ensures
        match (r, payment_quote_spec(unit@, *options, min_fee_reserve, relative_fee_reserve)) {
            (Ok(quote), Ok(expected)) => quote@ == expected,
            (Err(e), Err(expected)) => e == expected,
            _ => false,
        },
{
    let amount = match quote_amount(unit, options) {
        Ok(amount) => amount,
        Err(e) => return Err(e),
    };
    let fee = fee_reserve(min_fee_reserve, relative_fee_reserve);
    Ok(
        PaymentQuoteResponse {
            request_lookup_id: lookup_id_of(options),
            amount,
            fee,
            state: MeltQuoteState::Unpaid,
        },
    )
}

} // verus!
