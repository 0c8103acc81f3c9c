//! Requests to be paid: what to ask of the node, and what to answer once
//! the node has issued an invoice or offer.

use crate::clock::unix_time;
use crate::hex::{encode_32, hex_text};
use crate::invoice::{description_fits, new_description};
use crate::payment::{
    CreateIncomingPaymentResponse, CreateIncomingPaymentView, IdentifierView, PaymentError,
    PaymentIdentifier,
};
use crate::text::{text_or, text_or_default};
use crate::units::{conversion_fits, convert_amount, converted, CurrencyUnit, UnitView};
use vstd::prelude::*;

verus! {

/// A request for a BOLT11 invoice.
#[derive(Debug, Clone, PartialEq, Eq)]
pub struct Bolt11IncomingPaymentOptions {
    pub description: Option<String>,
    /// The amount, in the unit of the request.
    pub amount: u64,
    /// When the invoice is to expire, in seconds since the epoch.
    pub unix_expiry: Option<u64>,
}

/// A request for a BOLT12 offer.
#[derive(Debug, Clone, PartialEq, Eq)]
pub struct Bolt12IncomingPaymentOptions {
    pub description: Option<String>,
    /// The amount, in the unit of the request; none for an offer that
    /// leaves the amount to the payer.
    pub amount: Option<u64>,
    /// When the offer is to expire, in seconds since the epoch.
    pub unix_expiry: Option<u64>,
}

/// A request for something to be paid to.
#[derive(Debug, Clone, PartialEq, Eq)]
pub enum IncomingPaymentOptions {
    Bolt11(Bolt11IncomingPaymentOptions),
    Bolt12(Bolt12IncomingPaymentOptions),
}

/// For how long a request is valid where no expiry is asked for, in
/// seconds.
pub const DEFAULT_EXPIRY_SECS: u64 = 36000;

/// What to ask of the node to be paid.
#[allow(inconsistent_fields)]
#[derive(Debug, PartialEq, Eq)]
pub enum IncomingPaymentRequest {
    /// An invoice for `amount_msat` that expires after `expiry_secs`.
    Bolt11 { amount_msat: u64, description: String, expiry_secs: u32, lifetime: u64 },
    /// An offer that expires after `expiry_secs`, for `amount_msat` or for
    /// an amount of the payer's choice.
    Bolt12 { amount_msat: Option<u64>, description: String, expiry_secs: u32, lifetime: u64 },
}

/// The mathematical value of an [`IncomingPaymentRequest`].
#[allow(inconsistent_fields)]
pub enum IncomingRequestView {
    Bolt11 { amount_msat: u64, description: Seq<char>, expiry_secs: u32, lifetime: u64 },
    Bolt12 { amount_msat: Option<u64>, description: Seq<char>, expiry_secs: u32, lifetime: u64 },
}

impl View for IncomingPaymentRequest {
    type V = IncomingRequestView;

    open spec fn view(&self) -> IncomingRequestView {
        match self {
            IncomingPaymentRequest::Bolt11 { amount_msat, description, expiry_secs, lifetime } =>
                IncomingRequestView::Bolt11 {
                    amount_msat: *amount_msat,
                    description: description@,
                    expiry_secs: *expiry_secs,
                    lifetime: *lifetime,
                },
            IncomingPaymentRequest::Bolt12 { amount_msat, description, expiry_secs, lifetime } =>
                IncomingRequestView::Bolt12 {
                    amount_msat: *amount_msat,
                    description: description@,
                    expiry_secs: *expiry_secs,
                    lifetime: *lifetime,
                },
        }
    }
}

/// For how long a request made at `now` is valid, in seconds: until the
/// expiry asked for, which must not lie in the past, or for
/// [`DEFAULT_EXPIRY_SECS`].
pub open spec fn lifetime_spec(unix_expiry: Option<u64>, now: u64) -> Result<u64, PaymentError> {
    match unix_expiry {
        Some(expiry) => if expiry >= now {
            Ok((expiry - now) as u64)
        } else {
            Err(PaymentError::InvalidExpiry)
        },
        None => Ok(DEFAULT_EXPIRY_SECS),
    }
}

/// The lifetime as the node takes it: its lowest 32 bits.
pub open spec fn expiry_secs_of(lifetime: u64) -> u32 {
    (lifetime % 0x1_0000_0000) as u32
}

/// What to ask of the node for a request made at `now`.
///
/// For an invoice: the amount in thousandths of a satoshi, the description
/// (empty where none is given), which must fit an invoice, and the
/// lifetime. For an offer: the lifetime, the amount where one is given,
/// and the description.
pub open spec fn incoming_request_spec(unit: UnitView, options: IncomingPaymentOptions, now: u64)
    -> Result<IncomingRequestView, PaymentError> {
    match options {
        IncomingPaymentOptions::Bolt11(bolt11) => if !conversion_fits(
            bolt11.amount,
            unit,
            UnitView::Msat,
        ) {
            Err(PaymentError::AmountConversionFailure)
        } else {
            match lifetime_spec(bolt11.unix_expiry, now) {
                Err(e) => Err(e),
                Ok(lifetime) => if !description_fits(
                    text_or_default(bolt11.description, Seq::empty()),
                ) {
                    Err(PaymentError::InvalidDescription)
                } else {
                    Ok(
                        IncomingRequestView::Bolt11 {
                            amount_msat: converted(bolt11.amount as int, unit, UnitView::Msat)
                                as u64,
                            description: text_or_default(bolt11.description, Seq::empty()),
                            expiry_secs: expiry_secs_of(lifetime),
                            lifetime,
                        },
                    )
                },
            }
        },
        IncomingPaymentOptions::Bolt12(bolt12) => match lifetime_spec(bolt12.unix_expiry, now) {
            Err(e) => Err(e),
            Ok(lifetime) => match bolt12.amount {
                Some(amount) => if !conversion_fits(amount, unit, UnitView::Msat) {
                    Err(PaymentError::AmountConversionFailure)
                } else {
                    Ok(
                        IncomingRequestView::Bolt12 {
                            amount_msat: Some(
                                converted(amount as int, unit, UnitView::Msat) as u64,
                            ),
                            description: text_or_default(bolt12.description, Seq::empty()),
                            expiry_secs: expiry_secs_of(lifetime),
                            lifetime,
                        },
                    )
                },
                None => Ok(
                    IncomingRequestView::Bolt12 {
                        amount_msat: None,
                        description: text_or_default(bolt12.description, Seq::empty()),
                        expiry_secs: expiry_secs_of(lifetime),
                        lifetime,
                    },
                ),
            },
        },
    }
}

/// Whether `r` is what `expected` describes.
pub open spec fn is_incoming_request(
    r: Result<IncomingPaymentRequest, PaymentError>,
    expected: Result<IncomingRequestView, PaymentError>,
) -> bool {
    match (r, expected) {
        (Ok(request), Ok(view)) => request@ == view,
        (Err(e), Err(f)) => e == f,
        _ => false,
    }
}

fn lifetime_at(unix_expiry: Option<u64>, now: u64) -> (r: Result<u64, PaymentError>)
    ensures
        r == lifetime_spec(unix_expiry, now),
{
    match unix_expiry {
        Some(expiry) => {
            if expiry >= now {
                Ok(expiry - now)
            } else {
                Err(PaymentError::InvalidExpiry)
            }
        },
        None => Ok(DEFAULT_EXPIRY_SECS),
    }
}

fn expiry_secs(lifetime: u64) -> (secs: u32)
    ensures
        secs == expiry_secs_of(lifetime),
{
    (lifetime % 0x1_0000_0000) as u32
}

/// Decides what to ask of the node for a request made at `now`, in seconds
/// since the epoch.
pub fn incoming_payment_request(unit: &CurrencyUnit, options: &IncomingPaymentOptions, now: u64)
    -> (r: Result<IncomingPaymentRequest, PaymentError>)
    ensures
        is_incoming_request(r, incoming_request_spec(unit@, *options, now)),
{
    match options {
        IncomingPaymentOptions::Bolt11(bolt11) => {
            let amount_msat = match convert_amount(bolt11.amount, unit, &CurrencyUnit::Msat) {
                Some(amount_msat) => amount_msat,
                None => return Err(PaymentError::AmountConversionFailure),
            };
            let description = text_or(&bolt11.description, "");
            proof {
                reveal_strlit("");
                assert(description@ =~= text_or_default(bolt11.description, Seq::empty()));
            }
            let lifetime = match lifetime_at(bolt11.unix_expiry, now) {
                Ok(lifetime) => lifetime,
                Err(e) => return Err(e),
            };
            match new_description(description.clone()) {
                Ok(_) => {},
                Err(_) => return Err(PaymentError::InvalidDescription),
            }
            Ok(
                IncomingPaymentRequest::Bolt11 {
                    amount_msat,
                    description,
                    expiry_secs: expiry_secs(lifetime),
                    lifetime,
                },
            )
        },
        IncomingPaymentOptions::Bolt12(bolt12) => {
            let lifetime = match lifetime_at(bolt12.unix_expiry, now) {
                Ok(lifetime) => lifetime,
                Err(e) => return Err(e),
            };
            let amount_msat = match bolt12.amount {
                Some(amount) => match convert_amount(amount, unit, &CurrencyUnit::Msat) {
                    Some(amount_msat) => Some(amount_msat),
                    None => return Err(PaymentError::AmountConversionFailure),
                },
                None => None,
            };
            let description = text_or(&bolt12.description, "");
            proof {
                reveal_strlit("");
                assert(description@ =~= text_or_default(bolt12.description, Seq::empty()));
            }
            Ok(
                IncomingPaymentRequest::Bolt12 {
                    amount_msat,
                    description,
                    expiry_secs: expiry_secs(lifetime),
                    lifetime,
                },
            )
        },
    }
}

/// Decides what to ask of the node for a request made now, by the system
/// clock: the result is that of [`incoming_payment_request`] at the time
/// the clock showed.
pub fn create_incoming_payment_request(unit: &CurrencyUnit, options: &IncomingPaymentOptions) -> (r:
    Result<IncomingPaymentRequest, PaymentError>)
    ensures
        exists|now: u64| is_incoming_request(r, incoming_request_spec(unit@, *options, now)),
{
    let now = unix_time();
    incoming_payment_request(unit, options, now)
}

/// The answer to a request for which the node issued an invoice with the
/// payment hash `id`, or an offer with the id `id`, at `now`: the
/// identifier for later lookups, the invoice or offer as text, and the
/// time at which it expires, which must fit a timestamp.
pub open spec fn incoming_response_spec(
    request: IncomingRequestView,
    id: Seq<u8>,
    text: Seq<char>,
    now: u64,
) -> Result<CreateIncomingPaymentView, PaymentError> {
    let (identifier, lifetime) = match request {
        IncomingRequestView::Bolt11 { lifetime, .. } => (IdentifierView::PaymentHash(id), lifetime),
        IncomingRequestView::Bolt12 { lifetime, .. } => (
            IdentifierView::OfferId(hex_text(id)),
            lifetime,
        ),
    };
    if now + lifetime <= u64::MAX {
        Ok(
            CreateIncomingPaymentView {
                request_lookup_id: identifier,
                request: text,
                expiry: Some((now + lifetime) as u64),
            },
        )
    } else {
        Err(PaymentError::InvalidExpiry)
    }
}

/// Answers a request for which the node issued an invoice or offer.
///
/// `id` is the payment hash of the invoice or the id of the offer, `text`
/// the invoice or offer itself, `now` the time in seconds since the epoch.
pub fn incoming_payment_response(
    request: &IncomingPaymentRequest,
    id: &[u8; 32],
    text: String,
    now: u64,
) -> (r: Result<CreateIncomingPaymentResponse, PaymentError>)
    ensures
        match (r, incoming_response_spec(request@, id@, text@, now)) {
            (Ok(response), Ok(expected)) => response@ == expected,
            (Err(e), Err(expected)) => e == expected,
            _ => false,
        },
{
    let (request_lookup_id, lifetime) = match request {
        IncomingPaymentRequest::Bolt11 { lifetime, .. } => (
            PaymentIdentifier::PaymentHash(*id),
            *lifetime,
        ),
        IncomingPaymentRequest::Bolt12 { lifetime, .. } => (
            PaymentIdentifier::OfferId(encode_32(id)),
            *lifetime,
        ),
    };
    if lifetime > u64::MAX - now {
        return Err(PaymentError::InvalidExpiry);
    }
    Ok(CreateIncomingPaymentResponse { request_lookup_id, request: text, expiry: Some(now + lifetime) })
}

/// Answers a request for which the node issued an invoice or offer, at the
/// time that the system clock shows: the result is that of
/// [`incoming_payment_response`] at that time.
pub fn create_incoming_payment_response(
    request: &IncomingPaymentRequest,
    id: &[u8; 32],
    text: String,
) -> (r: Result<CreateIncomingPaymentResponse, PaymentError>)
    ensures
        exists|now: u64|
            match (r, #[trigger] incoming_response_spec(request@, id@, text@, now)) {
                (Ok(response), Ok(expected)) => response@ == expected,
                (Err(e), Err(expected)) => e == expected,
                _ => false,
            },
{
    let now = unix_time();
    incoming_payment_response(request, id, text, now)
}

} // verus!
