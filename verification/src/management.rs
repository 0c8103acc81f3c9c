//! What the management interface answers from what the node reports.

use crate::address::{parse_socket_address, socket_address_accepted};
use crate::tally::{count_flags, count_set};
use crate::hex::{encode_32, hex_text};
use crate::invoice::{description_fits, new_description};
use crate::payment::{PaymentError, PaymentKind, PaymentStatus};
use crate::poller::PollOutcome;
use crate::proto::{GetInfoResponse, PaymentResponse, PaymentResponseView};
use crate::text::{decimal, push_decimal, text_or, text_or_default};
use ldk_node::lightning::ln::msgs::SocketAddress;
use vstd::prelude::*;
use vstd::string::StringExecFns;

verus! {

/// For how long an invoice or offer made through the management
/// interface is valid where no expiry is asked for, in seconds.
pub const DEFAULT_INVOICE_EXPIRY_SECS: u32 = 3600;

/// The addresses held in `addresses`, none where it holds nothing.
pub open spec fn addresses_or_none(addresses: Option<Vec<String>>) -> Seq<String> {
    match addresses {
        Some(list) => list@,
        None => Seq::empty(),
    }
}

/// Describes the node: its id, its alias (empty where it has none), its
/// addresses, and how many of its peers are connected and how many of its
/// channels are usable.
///
/// `peers` holds for each peer whether it is connected, `channels` for
/// each channel whether it is usable.
pub fn node_info(
    node_id: String,
    alias: Option<String>,
    listening_addresses: Option<Vec<String>>,
    announcement_addresses: Option<Vec<String>>,
    peers: &Vec<bool>,
    channels: &Vec<bool>,
) -> (info: GetInfoResponse)
    ensures
        info.node_id@ == node_id@,
        info.alias@ == text_or_default(alias, Seq::empty()),
        info.listening_addresses@ == addresses_or_none(listening_addresses),
        info.announcement_addresses@ == addresses_or_none(announcement_addresses),
        info.num_peers == peers.len(),
        info.num_connected_peers == count_set(peers@),
        info.num_active_channels == count_set(channels@),
        info.num_inactive_channels == channels.len() - count_set(channels@),
{
    let alias_text = text_or(&alias, "");
    proof {
        reveal_strlit("");
        assert(alias_text@ =~= text_or_default(alias, Seq::empty()));
    }
    let listening = match listening_addresses {
        Some(list) => list,
        None => Vec::new(),
    };
    let announcement = match announcement_addresses {
        Some(list) => list,
        None => Vec::new(),
    };
    let connected = count_flags(peers);
    let active = count_flags(channels);
    GetInfoResponse {
        node_id,
        alias: alias_text,
        listening_addresses: listening,
        announcement_addresses: announcement,
        num_peers: peers.len() as u64,
        num_connected_peers: connected,
        num_active_channels: active,
        num_inactive_channels: channels.len() as u64 - active,
    }
}

/// The text of a 32-byte value, or the empty text where there is none.
pub open spec fn hex_or_empty(bytes: Option<[u8; 32]>) -> Seq<char> {
    match bytes {
        Some(value) => hex_text(value@),
        None => Seq::empty(),
    }
}

fn text_of(bytes: &Option<[u8; 32]>) -> (text: String)
    ensures
        text@ == hex_or_empty(*bytes),
{
    match bytes {
        Some(value) => encode_32(value),
        None => String::new(),
    }
}

/// A fee, or nothing where none is recorded.
pub open spec fn fee_or_zero(fee: Option<u64>) -> u64 {
    match fee {
        Some(value) => value,
        None => 0,
    }
}

/// The report of a payment that did not succeed.
pub open spec fn failure_view(payment_hash: Seq<char>, reason: Seq<char>) -> PaymentResponseView {
    PaymentResponseView {
        payment_hash,
        payment_preimage: Seq::empty(),
        fee_msats: 0,
        success: false,
        failure_reason: Some(reason),
    }
}

/// The report of an invoice payment once polling has ended: success with
/// the preimage and fee of a BOLT11 record, and with neither for a record
/// of another kind; failure with a reason for a payment that failed or is
/// still pending; an error where the node has no record.
pub open spec fn bolt11_payment_spec(payment_hash: Seq<char>, outcome: PollOutcome) -> Result<
    PaymentResponseView,
    PaymentError,
> {
    match outcome {
        PollOutcome::NotFound => Err(PaymentError::PaymentNotFound),
        PollOutcome::Settled { details } => match details.status {
            PaymentStatus::Failed => Ok(failure_view(payment_hash, "Payment failed"@)),
            PaymentStatus::Pending => Ok(failure_view(payment_hash, "Payment is still pending"@)),
            PaymentStatus::Succeeded => match details.kind {
                PaymentKind::Bolt11 { preimage, .. } => Ok(
                    PaymentResponseView {
                        payment_hash,
                        payment_preimage: hex_or_empty(preimage),
                        fee_msats: fee_or_zero(details.fee_paid_msat),
                        success: true,
                        failure_reason: None,
                    },
                ),
                _ => Ok(
                    PaymentResponseView {
                        payment_hash,
                        payment_preimage: Seq::empty(),
                        fee_msats: 0,
                        success: true,
                        failure_reason: None,
                    },
                ),
            },
        },
    }
}

fn failure(payment_hash: String, reason: &str) -> (response: PaymentResponse)
    ensures
        response@ == failure_view(payment_hash@, reason@),
{
    PaymentResponse {
        payment_hash,
        payment_preimage: String::new(),
        fee_msats: 0,
        success: false,
        failure_reason: Some(String::from_str(reason)),
    }
}

/// Reports an invoice payment, given the payment hash of the invoice as
/// text and how polling ended.
pub fn pay_bolt11_invoice(payment_hash: String, outcome: &PollOutcome) -> (r: Result<
    PaymentResponse,
    PaymentError,
>)
    ensures
        match (r, bolt11_payment_spec(payment_hash@, *outcome)) {
            (Ok(response), Ok(expected)) => response@ == expected,
            (Err(e), Err(expected)) => e == expected,
            _ => false,
        },
{
    let details = match outcome {
        PollOutcome::NotFound => return Err(PaymentError::PaymentNotFound),
        PollOutcome::Settled { details } => *details,
    };
    match details.status {
        PaymentStatus::Failed => Ok(failure(payment_hash, "Payment failed")),
        PaymentStatus::Pending => Ok(failure(payment_hash, "Payment is still pending")),
        PaymentStatus::Succeeded => {
            let (payment_preimage, fee_msats) = match &details.kind {
                PaymentKind::Bolt11 { preimage, .. } => (
                    text_of(preimage),
                    match details.fee_paid_msat {
                        Some(fee) => fee,
                        None => 0,
                    },
                ),
                _ => (String::new(), 0),
            };
            Ok(
                PaymentResponse {
                    payment_hash,
                    payment_preimage,
                    fee_msats,
                    success: true,
                    failure_reason: None,
                },
            )
        },
    }
}

/// The report of an offer payment once polling has ended: success with
/// payment hash, preimage and fee of a BOLT12 record, and with none of
/// them for a record of another kind; failure with a reason, and without
/// a hash, for a payment that failed or is still pending; an error where
/// the node has no record.
pub open spec fn bolt12_payment_spec(outcome: PollOutcome) -> Result<
    PaymentResponseView,
    PaymentError,
> {
    match outcome {
        PollOutcome::NotFound => Err(PaymentError::PaymentNotFound),
        PollOutcome::Settled { details } => match details.status {
            PaymentStatus::Failed => Ok(failure_view(Seq::empty(), "Payment failed"@)),
            PaymentStatus::Pending => Ok(failure_view(Seq::empty(), "Payment is still pending"@)),
            PaymentStatus::Succeeded => match details.kind {
                PaymentKind::Bolt12Offer { hash, preimage, .. } => Ok(
                    PaymentResponseView {
                        payment_hash: hex_or_empty(hash),
                        payment_preimage: hex_or_empty(preimage),
                        fee_msats: fee_or_zero(details.fee_paid_msat),
                        success: true,
                        failure_reason: None,
                    },
                ),
                _ => Ok(
                    PaymentResponseView {
                        payment_hash: Seq::empty(),
                        payment_preimage: Seq::empty(),
                        fee_msats: 0,
                        success: true,
                        failure_reason: None,
                    },
                ),
            },
        },
    }
}

/// Reports an offer payment, given how polling ended.
pub fn pay_bolt12_offer(outcome: &PollOutcome) -> (r: Result<PaymentResponse, PaymentError>)
    ensures
        match (r, bolt12_payment_spec(*outcome)) {
            (Ok(response), Ok(expected)) => response@ == expected,
            (Err(e), Err(expected)) => e == expected,
            _ => false,
        },
{
    let details = match outcome {
        PollOutcome::NotFound => return Err(PaymentError::PaymentNotFound),
        PollOutcome::Settled { details } => *details,
    };
    match details.status {
        PaymentStatus::Failed => Ok(failure(String::new(), "Payment failed")),
        PaymentStatus::Pending => Ok(failure(String::new(), "Payment is still pending")),
        PaymentStatus::Succeeded => {
            let (payment_hash, payment_preimage, fee_msats) = match &details.kind {
                PaymentKind::Bolt12Offer { hash, preimage, .. } => (
                    text_of(hash),
                    text_of(preimage),
                    match details.fee_paid_msat {
                        Some(fee) => fee,
                        None => 0,
                    },
                ),
                _ => (String::new(), String::new(), 0),
            };
            Ok(
                PaymentResponse {
                    payment_hash,
                    payment_preimage,
                    fee_msats,
                    success: true,
                    failure_reason: None,
                },
            )
        },
    }
}

/// For how long an invoice or offer is valid, in seconds: as long as
/// asked for, else [`DEFAULT_INVOICE_EXPIRY_SECS`].
pub fn invoice_expiry_secs(expiry_seconds: Option<u32>) -> (secs: u32)
    ensures
        secs == match expiry_seconds {
            Some(asked) => asked,
            None => DEFAULT_INVOICE_EXPIRY_SECS,
        },
{
    match expiry_seconds {
        Some(asked) => asked,
        None => DEFAULT_INVOICE_EXPIRY_SECS,
    }
}

/// When an invoice or offer made at `now` and valid for `expiry_secs`
/// expires, in seconds since the epoch; fails where that is beyond what a
/// timestamp can hold.
pub fn expiry_time(now: u64, expiry_secs: u32) -> (r: Result<u64, PaymentError>)
    ensures
        r is Ok <==> now + expiry_secs <= u64::MAX,
        r is Ok ==> r->Ok_0 == now + expiry_secs,
        r is Err ==> r->Err_0 == PaymentError::InvalidExpiry,
{
    if expiry_secs as u64 > u64::MAX - now {
        Err(PaymentError::InvalidExpiry)
    } else {
        Ok(now + expiry_secs as u64)
    }
}

/// Checks that a text can be the description of an invoice.
pub fn check_description(text: &str) -> (r: Result<(), PaymentError>)
    ensures
        r is Ok <==> description_fits(text@),
        r is Err ==> r->Err_0 == PaymentError::InvalidDescription,
{
    match new_description(String::from_str(text)) {
        Ok(_) => Ok(()),
        Err(_) => Err(PaymentError::InvalidDescription),
    }
}

/// The text of the address of a peer: host, colon, port.
pub open spec fn peer_address_text(host: Seq<char>, port: u32) -> Seq<char> {
    host + seq![':'] + decimal(port as nat)
}

/// Reads the address of a peer from its host and port.
pub fn peer_address(host: &str, port: u32) -> (r: Result<SocketAddress, PaymentError>)
    ensures
        r is Ok <==> socket_address_accepted(peer_address_text(host@, port)),
        r is Err ==> r->Err_0 == PaymentError::InvalidAddress,
{
    let mut text = String::from_str(host);
    proof {
        reveal_strlit(":");
    }
    text.append(":");
    push_decimal(&mut text, port as u64);
    assert(text@ =~= peer_address_text(host@, port));
    match parse_socket_address(text.as_str()) {
        Ok(address) => Ok(address),
        Err(_) => Err(PaymentError::InvalidAddress),
    }
}

} // verus!
