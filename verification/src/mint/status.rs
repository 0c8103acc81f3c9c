//! The state of incoming and outgoing payments, looked up in the node's
//! table of payments.

use crate::hex::{
    decode_32, encode_32, hex_bytes, hex_text, is_hex, lemma_hex_round_trip, DecodeError,
};
use crate::mint::outgoing::{outgoing_state, proof_of, proof_text, state_of};
use crate::payment::{
    wait_views, IdentifierView, MakePaymentResponse, MakePaymentView, MeltQuoteState,
    PaymentDetails, PaymentDirection, PaymentError, PaymentIdentifier, PaymentKind,
    PaymentStatus, WaitPaymentResponse, WaitPaymentView,
};
use crate::store::{find_payment, first_match, Lookup, Query};
use crate::units::{CurrencyUnit, UnitView};
use vstd::prelude::*;
use vstd::utf8::encode_utf8;

verus! {

/// The node's id that a text stands for: the text must be the hexadecimal
/// form of 32 bytes.
pub open spec fn payment_id_of(text: Seq<char>) -> Result<Seq<u8>, PaymentError> {
    let bytes = encode_utf8(text);
    if !is_hex(bytes) {
        Err(PaymentError::InvalidHex)
    } else if bytes.len() != 64 {
        Err(PaymentError::InvalidPaymentIdLength)
    } else {
        Ok(hex_bytes(bytes))
    }
}

/// A payment hash is looked up under the id that its own text stands
/// for.
pub proof fn lemma_hash_text_is_its_id(hash: Seq<u8>)
    requires
        hash.len() == 32,
    ensures
        payment_id_of(hex_text(hash)) == Ok::<Seq<u8>, PaymentError>(hash),
{
    lemma_hex_round_trip(hash);
}

fn parse_payment_id(text: &str) -> (r: Result<[u8; 32], PaymentError>)
    ensures
        match (r, payment_id_of(text@)) {
            (Ok(id), Ok(expected)) => id@ == expected,
            (Err(e), Err(expected)) => e == expected,
            _ => false,
        },
{
    match decode_32(text) {
        Ok(id) => Ok(id),
        Err(DecodeError::NotHex) => Err(PaymentError::InvalidHex),
        Err(DecodeError::WrongLength) => Err(PaymentError::InvalidPaymentIdLength),
    }
}

/// The node's id under which an incoming payment is looked up, and its
/// text: a payment hash stands for itself, with its hexadecimal form as
/// text; a free-form id must be the hexadecimal form of 32 bytes; no other
/// form of identifier can be looked up.
pub open spec fn incoming_lookup(identifier: IdentifierView) -> Result<
    (Seq<char>, Seq<u8>),
    PaymentError,
> {
    match identifier {
        IdentifierView::PaymentHash(hash) => Ok((hex_text(hash), hash)),
        IdentifierView::CustomId(text) => match payment_id_of(text) {
            Ok(id) => Ok((text, id)),
            Err(e) => Err(e),
        },
        _ => Err(PaymentError::UnsupportedPaymentIdentifier),
    }
}

/// The amount to report of an incoming payment, in thousandths of a
/// satoshi: the amount that the record holds, whatever the state of the
/// payment. A record without an amount counts as nothing received, unless
/// the payment has succeeded: then the amount is owed and its absence is
/// an error.
pub open spec fn received_msat(details: PaymentDetails) -> Result<u64, PaymentError> {
    match details.amount_msat {
        Some(amount) => Ok(amount),
        None => if details.status == PaymentStatus::Succeeded {
            Err(PaymentError::PaymentAmountUnavailable)
        } else {
            Ok(0)
        },
    }
}

/// The state of the incoming payment that `identifier` stands for, given
/// the node's payments: one notice, in thousandths of a satoshi, for an
/// inbound payment; an error where the identifier cannot be looked up,
/// the node has no such payment, or the payment is outbound.
pub open spec fn incoming_status_spec(identifier: IdentifierView, payments: Seq<PaymentDetails>)
    -> Result<Seq<WaitPaymentView>, PaymentError> {
    match incoming_lookup(identifier) {
        Err(e) => Err(e),
        Ok((text, id)) => match first_match(payments, Query::ById(id)) {
            None => Err(PaymentError::PaymentNotFound),
            Some(details) => if details.direction == PaymentDirection::Outbound {
                Err(PaymentError::InvalidPaymentDirection)
            } else {
                match received_msat(details) {
                    Err(e) => Err(e),
                    Ok(amount) => Ok(
                        seq![
                            WaitPaymentView {
                                payment_identifier: identifier,
                                payment_amount: amount,
                                unit: UnitView::Msat,
                                payment_id: text,
                            },
                        ],
                    ),
                }
            },
        },
    }
}

/// Checks the state of the incoming payment that `identifier` stands for,
/// in `payments`, the node's table of payments.
pub fn check_incoming_payment_status(
    identifier: &PaymentIdentifier,
    payments: &Vec<PaymentDetails>,
) -> (r: Result<Vec<WaitPaymentResponse>, PaymentError>)
    ensures
        match (r, incoming_status_spec(identifier@, payments@)) {
            (Ok(notices), Ok(expected)) => wait_views(notices@) == expected,
            (Err(e), Err(expected)) => e == expected,
            _ => false,
        },
{
    let (payment_id, id) = match identifier {
        PaymentIdentifier::PaymentHash(hash) => (encode_32(hash), *hash),
        PaymentIdentifier::CustomId(text) => match parse_payment_id(text.as_str()) {
            Ok(id) => (text.clone(), id),
            Err(e) => return Err(e),
        },
        _ => return Err(PaymentError::UnsupportedPaymentIdentifier),
    };
    let details = match find_payment(payments, &Lookup::ById(id)) {
        Some(details) => details,
        None => return Err(PaymentError::PaymentNotFound),
    };
    if details.direction == PaymentDirection::Outbound {
        return Err(PaymentError::InvalidPaymentDirection);
    }
    let amount = match details.amount_msat {
        Some(amount) => amount,
        None => {
            if details.status == PaymentStatus::Succeeded {
                return Err(PaymentError::PaymentAmountUnavailable);
            }
            0
        },
    };
    let notice = WaitPaymentResponse {
        payment_identifier: identifier.clone(),
        payment_amount: amount,
        unit: CurrencyUnit::Msat,
        payment_id,
    };
    let mut notices = Vec::new();
    notices.push(notice);
    assert(wait_views(notices@) =~= incoming_status_spec(identifier@, payments@)->Ok_0);
    Ok(notices)
}

/// What an outgoing payment is looked up by: an invoice's payment hash
/// among the BOLT11 payments, a free-form id, as the hexadecimal form of
/// 32 bytes, among the node's ids; nothing for any other identifier.
pub open spec fn outgoing_query(identifier: IdentifierView) -> Result<Option<Query>, PaymentError> {
    match identifier {
        IdentifierView::PaymentHash(hash) => Ok(Some(Query::ByBolt11Hash(hash))),
        IdentifierView::CustomId(text) => match payment_id_of(text) {
            Ok(id) => Ok(Some(Query::ById(id))),
            Err(e) => Err(e),
        },
        _ => Ok(None),
    }
}

/// What is known of the outgoing payment that `identifier` stands for,
/// given the node's payments, in thousandths of a satoshi: state, proof
/// and amount of an outbound BOLT11 payment; the state `Unknown` for an
/// identifier that is not looked up; an error where the id is malformed,
/// the node has no such payment, the payment is inbound, of another kind,
/// or without an amount.
pub open spec fn outgoing_status_spec(identifier: IdentifierView, payments: Seq<PaymentDetails>)
    -> Result<MakePaymentView, PaymentError> {
    match outgoing_query(identifier) {
        Err(e) => Err(e),
        Ok(None) => Ok(
            MakePaymentView {
                payment_lookup_id: identifier,
                payment_proof: None,
                status: MeltQuoteState::Unknown,
                total_spent: 0,
                unit: UnitView::Msat,
            },
        ),
        Ok(Some(query)) => match first_match(payments, query) {
            None => Err(PaymentError::PaymentNotFound),
            Some(details) => if details.direction != PaymentDirection::Outbound {
                Err(PaymentError::InvalidPaymentDirection)
            } else {
                match details.kind {
                    PaymentKind::Bolt11 { preimage, .. } => match details.amount_msat {
                        None => Err(PaymentError::AmountSpentUnavailable),
                        Some(total_spent) => Ok(
                            MakePaymentView {
                                payment_lookup_id: identifier,
                                payment_proof: proof_text(preimage),
                                status: outgoing_state(details.status),
                                total_spent,
                                unit: UnitView::Msat,
                            },
                        ),
                    },
                    _ => Err(PaymentError::UnexpectedPaymentKind),
                }
            },
        },
    }
}

/// Checks the state of the outgoing payment that `identifier` stands for,
/// in `payments`, the node's table of payments.
pub fn check_outgoing_payment(identifier: &PaymentIdentifier, payments: &Vec<PaymentDetails>) -> (r:
    Result<MakePaymentResponse, PaymentError>)
    ensures
        match (r, outgoing_status_spec(identifier@, payments@)) {
            (Ok(response), Ok(expected)) => response@ == expected,
            (Err(e), Err(expected)) => e == expected,
            _ => false,
        },
{
    let lookup = match identifier {
        PaymentIdentifier::PaymentHash(hash) => Lookup::ByBolt11Hash(*hash),
        PaymentIdentifier::CustomId(text) => match parse_payment_id(text.as_str()) {
            Ok(id) => Lookup::ById(id),
            Err(e) => return Err(e),
        },
        _ => {
            return Ok(
                MakePaymentResponse {
                    payment_lookup_id: identifier.clone(),
                    payment_proof: None,
                    status: MeltQuoteState::Unknown,
                    total_spent: 0,
                    unit: CurrencyUnit::Msat,
                },
            );
        },
    };
    let details = match find_payment(payments, &lookup) {
        Some(details) => details,
        None => return Err(PaymentError::PaymentNotFound),
    };
    if details.direction != PaymentDirection::Outbound {
        return Err(PaymentError::InvalidPaymentDirection);
    }
    let status = state_of(details.status);
    let payment_proof = match &details.kind {
        PaymentKind::Bolt11 { preimage, .. } => proof_of(preimage),
        _ => return Err(PaymentError::UnexpectedPaymentKind),
    };
    let total_spent = match details.amount_msat {
        Some(total_spent) => total_spent,
        None => return Err(PaymentError::AmountSpentUnavailable),
    };
    Ok(
        MakePaymentResponse {
            payment_lookup_id: identifier.clone(),
            payment_proof,
            status,
            total_spent,
            unit: CurrencyUnit::Msat,
        },
    )
}

} // verus!
