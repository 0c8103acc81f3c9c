//! What the bridge knows of payments: identifiers, the node's records, and
//! the answers given to the mint.

use crate::units::{CurrencyUnit, UnitView};
use vstd::prelude::*;
use vstd::string::StringExecFns;

verus! {

/// The key by which a payment is found again across create, pay and check.
#[derive(Debug, PartialEq, Eq)]
pub enum PaymentIdentifier {
    /// A label.
    Label(String),
    /// The id of a BOLT12 offer.
    OfferId(String),
    /// The payment hash of a BOLT11 invoice.
    PaymentHash([u8; 32]),
    /// The payment hash of a BOLT12 payment.
    Bolt12PaymentHash([u8; 32]),
    /// The node's own id of a payment.
    PaymentId([u8; 32]),
    /// A free-form id.
    CustomId(String),
}

/// The mathematical value of a [`PaymentIdentifier`].
pub enum IdentifierView {
    Label(Seq<char>),
    OfferId(Seq<char>),
    PaymentHash(Seq<u8>),
    Bolt12PaymentHash(Seq<u8>),
    PaymentId(Seq<u8>),
    CustomId(Seq<char>),
}

impl View for PaymentIdentifier {
    type V = IdentifierView;

    open spec fn view(&self) -> IdentifierView {
        match self {
            PaymentIdentifier::Label(text) => IdentifierView::Label(text@),
            PaymentIdentifier::OfferId(text) => IdentifierView::OfferId(text@),
            PaymentIdentifier::PaymentHash(hash) => IdentifierView::PaymentHash(hash@),
            PaymentIdentifier::Bolt12PaymentHash(hash) => IdentifierView::Bolt12PaymentHash(hash@),
            PaymentIdentifier::PaymentId(id) => IdentifierView::PaymentId(id@),
            PaymentIdentifier::CustomId(text) => IdentifierView::CustomId(text@),
        }
    }
}

impl Clone for PaymentIdentifier {
    fn clone(&self) -> (r: Self)
        ensures
            r@ == self@,
    {
        match self {
            PaymentIdentifier::Label(text) => PaymentIdentifier::Label(text.clone()),
            PaymentIdentifier::OfferId(text) => PaymentIdentifier::OfferId(text.clone()),
            PaymentIdentifier::PaymentHash(hash) => PaymentIdentifier::PaymentHash(*hash),
            PaymentIdentifier::Bolt12PaymentHash(hash) => PaymentIdentifier::Bolt12PaymentHash(
                *hash,
            ),
            PaymentIdentifier::PaymentId(id) => PaymentIdentifier::PaymentId(*id),
            PaymentIdentifier::CustomId(text) => PaymentIdentifier::CustomId(text.clone()),
        }
    }
}

/// Which way a payment goes.
#[derive(Debug, Clone, Copy, PartialEq, Eq, Structural)]
pub enum PaymentDirection {
    Inbound,
    Outbound,
}

/// How far a payment has come. `Pending` is the only state that can still
/// change.
#[derive(Debug, Clone, Copy, PartialEq, Eq, Structural)]
pub enum PaymentStatus {
    Pending,
    Succeeded,
    Failed,
}

/// What kind of payment a record is of, with what the bridge reads of it.
#[allow(inconsistent_fields)]
#[derive(Debug, Clone, Copy, PartialEq, Eq)]
pub enum PaymentKind {
    /// A BOLT11 payment.
    Bolt11 { hash: [u8; 32], preimage: Option<[u8; 32]> },
    /// A payment for a BOLT12 offer.
    Bolt12Offer { hash: Option<[u8; 32]>, preimage: Option<[u8; 32]>, offer_id: [u8; 32] },
    /// Any other kind: on-chain, spontaneous, refund, just-in-time channel.
    Other,
}

/// The node's record of one payment.
#[derive(Debug, Clone, Copy, PartialEq, Eq)]
pub struct PaymentDetails {
    /// The node's id of the payment.
    pub id: [u8; 32],
    pub kind: PaymentKind,
    /// The amount transferred, once known.
    pub amount_msat: Option<u64>,
    /// The fees paid, once known.
    pub fee_paid_msat: Option<u64>,
    pub direction: PaymentDirection,
    pub status: PaymentStatus,
}

/// The state of an outgoing payment as the mint sees it.
#[derive(Debug, Clone, Copy, PartialEq, Eq, Structural)]
pub enum MeltQuoteState {
    Unpaid,
    Paid,
    Pending,
    Unknown,
    Failed,
}

/// Notice of one completed incoming payment.
#[derive(Debug, PartialEq, Eq)]
pub struct WaitPaymentResponse {
    pub payment_identifier: PaymentIdentifier,
    /// The amount received, in `unit`.
    pub payment_amount: u64,
    pub unit: CurrencyUnit,
    /// The payment hash, as text.
    pub payment_id: String,
}

/// The mathematical value of a [`WaitPaymentResponse`].
pub struct WaitPaymentView {
    pub payment_identifier: IdentifierView,
    pub payment_amount: u64,
    pub unit: UnitView,
    pub payment_id: Seq<char>,
}

impl View for WaitPaymentResponse {
    type V = WaitPaymentView;

    open spec fn view(&self) -> WaitPaymentView {
        WaitPaymentView {
            payment_identifier: self.payment_identifier@,
            payment_amount: self.payment_amount,
            unit: self.unit@,
            payment_id: self.payment_id@,
        }
    }
}

impl Clone for WaitPaymentResponse {
    fn clone(&self) -> (r: Self)
        ensures
            r@ == self@,
    {
        WaitPaymentResponse {
            payment_identifier: self.payment_identifier.clone(),
            payment_amount: self.payment_amount,
            unit: self.unit.clone(),
            payment_id: self.payment_id.clone(),
        }
    }
}

/// The views of a list of notices.
pub open spec fn wait_views(notices: Seq<WaitPaymentResponse>) -> Seq<WaitPaymentView> {
    notices.map_values(|notice: WaitPaymentResponse| notice@)
}

/// How an outgoing payment stands.
#[derive(Debug, PartialEq, Eq)]
pub struct MakePaymentResponse {
    pub payment_lookup_id: PaymentIdentifier,
    /// The preimage, as text, once the payment is proved.
    pub payment_proof: Option<String>,
    pub status: MeltQuoteState,
    /// The amount spent, in `unit`.
    pub total_spent: u64,
    pub unit: CurrencyUnit,
}

/// The mathematical value of a [`MakePaymentResponse`].
pub struct MakePaymentView {
    pub payment_lookup_id: IdentifierView,
    pub payment_proof: Option<Seq<char>>,
    pub status: MeltQuoteState,
    pub total_spent: u64,
    pub unit: UnitView,
}

impl View for MakePaymentResponse {
    type V = MakePaymentView;

    open spec fn view(&self) -> MakePaymentView {
        MakePaymentView {
            payment_lookup_id: self.payment_lookup_id@,
            payment_proof: match self.payment_proof {
                Some(proof) => Some(proof@),
                None => None,
            },
            status: self.status,
            total_spent: self.total_spent,
            unit: self.unit@,
        }
    }
}

/// What an outgoing payment would cost.
#[derive(Debug, PartialEq, Eq)]
pub struct PaymentQuoteResponse {
    pub request_lookup_id: PaymentIdentifier,
    /// The amount to pay, in the unit asked for.
    pub amount: u64,
    /// The fee to reserve, in the same unit.
    pub fee: u64,
    pub state: MeltQuoteState,
}

/// The mathematical value of a [`PaymentQuoteResponse`].
pub struct PaymentQuoteView {
    pub request_lookup_id: IdentifierView,
    pub amount: u64,
    pub fee: u64,
    pub state: MeltQuoteState,
}

impl View for PaymentQuoteResponse {
    type V = PaymentQuoteView;

    open spec fn view(&self) -> PaymentQuoteView {
        PaymentQuoteView {
            request_lookup_id: self.request_lookup_id@,
            amount: self.amount,
            fee: self.fee,
            state: self.state,
        }
    }
}

/// A new request for an incoming payment.
#[derive(Debug, PartialEq, Eq)]
pub struct CreateIncomingPaymentResponse {
    pub request_lookup_id: PaymentIdentifier,
    /// The invoice or offer, as text.
    pub request: String,
    /// When the request expires, in seconds since the epoch.
    pub expiry: Option<u64>,
}

/// The mathematical value of a [`CreateIncomingPaymentResponse`].
pub struct CreateIncomingPaymentView {
    pub request_lookup_id: IdentifierView,
    pub request: Seq<char>,
    pub expiry: Option<u64>,
}

impl View for CreateIncomingPaymentResponse {
    type V = CreateIncomingPaymentView;

    open spec fn view(&self) -> CreateIncomingPaymentView {
        CreateIncomingPaymentView {
            request_lookup_id: self.request_lookup_id@,
            request: self.request@,
            expiry: self.expiry,
        }
    }
}

/// Why a request of the mint fails.
#[derive(Debug, Clone, PartialEq, Eq)]
pub enum PaymentError {
    /// The node has no record of the payment.
    PaymentNotFound,
    /// The payment goes the other way than the request expects.
    InvalidPaymentDirection,
    /// The payment is of a kind that the bridge cannot interpret.
    UnexpectedPaymentKind,
    /// The request asks for a payment mode that is not supported.
    UnsupportedPaymentOption,
    /// The identifier is of a form that the request cannot be looked up by.
    UnsupportedPaymentIdentifier,
    /// An amount cannot be expressed in the unit asked for.
    AmountConversionFailure,
    /// The fee limit cannot be expressed in thousandths of a satoshi.
    InvalidFeeAmount,
    /// The invoice names no amount and the request gives none.
    UnknownInvoiceAmount,
    /// The offer names no amount in bitcoin and the request gives none.
    AmountMismatch,
    /// The record of an outgoing payment holds no amount.
    AmountSpentUnavailable,
    /// The record of an incoming payment that succeeded holds no amount.
    PaymentAmountUnavailable,
    /// The description is too long for an invoice.
    InvalidDescription,
    /// Host and port do not make up the address of a Lightning node.
    InvalidAddress,
    /// The identifier is not hexadecimal text.
    InvalidHex,
    /// The identifier does not stand for 32 bytes.
    InvalidPaymentIdLength,
    /// The expiry lies in the past or beyond what a timestamp can hold.
    InvalidExpiry,
    /// A failure of the node, in its own words.
    Custom(String),
}

/// A failure of the node, surfaced in the node's own words.
pub fn node_failure(message: String) -> (e: PaymentError)
    ensures
        e matches PaymentError::Custom(text) && text@ == message@,
{
    PaymentError::Custom(message)
}

impl PaymentError {
    /// The error in words.
    pub open spec fn message_text(self) -> Seq<char> {
        match self {
            PaymentError::PaymentNotFound => "Payment not found"@,
            PaymentError::InvalidPaymentDirection => "Invalid payment direction"@,
            PaymentError::UnexpectedPaymentKind => "Unexpected payment kind"@,
            PaymentError::UnsupportedPaymentOption => "Unsupported payment option"@,
            PaymentError::UnsupportedPaymentIdentifier => "Unsupported payment identifier type"@,
            PaymentError::AmountConversionFailure => "Cannot convert units"@,
            PaymentError::InvalidFeeAmount => "Invalid fee amount: Cannot convert units"@,
            PaymentError::UnknownInvoiceAmount => "Unknown invoice amount"@,
            PaymentError::AmountMismatch => "Amount is not what is expected"@,
            PaymentError::AmountSpentUnavailable => "Could not get amount spent"@,
            PaymentError::PaymentAmountUnavailable => "Could not get payment amount"@,
            PaymentError::InvalidDescription => "Invalid description"@,
            PaymentError::InvalidAddress => "Invalid socket address"@,
            PaymentError::InvalidHex => "Hex error"@,
            PaymentError::InvalidPaymentIdLength => "Invalid payment ID length"@,
            PaymentError::InvalidExpiry => "Invalid expiry"@,
            PaymentError::Custom(text) => text@,
        }
    }

    /// The error in words.
    pub fn message(&self) -> (text: String)
        ensures
            text@ == self.message_text(),
    {
        match self {
            PaymentError::PaymentNotFound => String::from_str("Payment not found"),
            PaymentError::InvalidPaymentDirection => String::from_str("Invalid payment direction"),
            PaymentError::UnexpectedPaymentKind => String::from_str("Unexpected payment kind"),
            PaymentError::UnsupportedPaymentOption => String::from_str(
                "Unsupported payment option",
            ),
            PaymentError::UnsupportedPaymentIdentifier => String::from_str(
                "Unsupported payment identifier type",
            ),
            PaymentError::AmountConversionFailure => String::from_str("Cannot convert units"),
            PaymentError::InvalidFeeAmount => String::from_str(
                "Invalid fee amount: Cannot convert units",
            ),
            PaymentError::UnknownInvoiceAmount => String::from_str("Unknown invoice amount"),
            PaymentError::AmountMismatch => String::from_str("Amount is not what is expected"),
            PaymentError::AmountSpentUnavailable => String::from_str("Could not get amount spent"),
            PaymentError::PaymentAmountUnavailable => String::from_str(
                "Could not get payment amount",
            ),
            PaymentError::InvalidDescription => String::from_str("Invalid description"),
            PaymentError::InvalidAddress => String::from_str("Invalid socket address"),
            PaymentError::InvalidHex => String::from_str("Hex error"),
            PaymentError::InvalidPaymentIdLength => String::from_str("Invalid payment ID length"),
            PaymentError::InvalidExpiry => String::from_str("Invalid expiry"),
            PaymentError::Custom(text) => text.clone(),
        }
    }
}

} // verus!
