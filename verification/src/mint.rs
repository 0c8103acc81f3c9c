//! What the bridge answers to the mint: settings, payment requests, quotes,
//! and the state of incoming and outgoing payments.

pub mod incoming;
pub mod outgoing;
pub mod quote;
pub mod settings;
pub mod status;

pub use incoming::{
    create_incoming_payment_request, create_incoming_payment_response, incoming_payment_request,
    incoming_payment_response, incoming_request_spec, incoming_response_spec,
    Bolt11IncomingPaymentOptions, Bolt12IncomingPaymentOptions, IncomingPaymentOptions,
    IncomingPaymentRequest, IncomingRequestView, DEFAULT_EXPIRY_SECS,
};
pub use outgoing::{
    bolt11_send_failure, make_payment, make_payment_spec, payment_instruction,
    payment_instruction_spec, SendInstruction,
};
pub use quote::{
    get_payment_quote, payment_quote_spec, quote_amount, quote_amount_spec,
    Bolt11OutgoingPaymentOptions, Bolt12OutgoingPaymentOptions, MeltOptions, OfferAmount,
    OutgoingPaymentOptions,
};
pub use settings::{get_settings, Bolt11Settings};
pub use status::{
    check_incoming_payment_status, check_outgoing_payment, incoming_status_spec,
    outgoing_status_spec,
};
