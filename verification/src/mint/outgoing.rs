//! Making a payment: what to ask of the node, and what to report once
//! polling for the payment has ended.

use crate::hex::{encode_32, hex_text};
use crate::mint::quote::{lookup_id_of, outgoing_lookup_id, MeltOptions, OutgoingPaymentOptions};
use crate::payment::{
    MakePaymentResponse, MakePaymentView, MeltQuoteState, PaymentError, PaymentKind,
    PaymentStatus,
};
use crate::poller::PollOutcome;
use crate::units::{conversion_fits, convert_amount, converted, CurrencyUnit, UnitView};
use vstd::prelude::*;
use vstd::string::StringExecFns;

verus! {

/// What to ask of the node to make a payment.
#[derive(Debug, Clone, Copy, PartialEq, Eq)]
pub enum SendInstruction {
    /// Pay the amount that the invoice or offer names.
    Send {
        /// The most that may be spent on routing fees, in thousandths of a
        /// satoshi; `None` leaves the limit to the node.
        max_fee_msat: Option<u64>,
    },
    /// Pay the amount that the payer chose.
    SendUsingAmount { amount_msat: u64, max_fee_msat: Option<u64> },
}

/// The fee limit of an invoice payment in thousandths of a satoshi.
pub open spec fn fee_limit_msat(unit: UnitView, max_fee_amount: Option<u64>) -> Result<
    Option<u64>,
    PaymentError,
> {
    match max_fee_amount {
        None => Ok(None),
        Some(fee) => if conversion_fits(fee, unit, UnitView::Msat) {
            Ok(Some(converted(fee as int, unit, UnitView::Msat) as u64))
        } else {
            Err(PaymentError::InvalidFeeAmount)
        },
    }
}

/// How the amount to send is chosen: a chosen amount for a request without
/// one, the request's own amount where the payer chose none; a split
/// payment is refused.
pub open spec fn send_choice(melt_options: Option<MeltOptions>, max_fee_msat: Option<u64>)
    -> Result<SendInstruction, PaymentError> {
    match melt_options {
        Some(MeltOptions::Amountless { amount_msat }) => Ok(
            SendInstruction::SendUsingAmount { amount_msat, max_fee_msat },
        ),
        None => Ok(SendInstruction::Send { max_fee_msat }),
        Some(MeltOptions::Mpp { .. }) => Err(PaymentError::UnsupportedPaymentOption),
    }
}

/// What to ask of the node for a request to pay. An invoice is paid under
/// the fee limit of the request, converted from `unit`; an offer is paid
/// without one.
pub open spec fn payment_instruction_spec(unit: UnitView, options: OutgoingPaymentOptions)
    -> Result<SendInstruction, PaymentError> {
    match options {
        OutgoingPaymentOptions::Bolt11(bolt11) => match fee_limit_msat(
            unit,
            bolt11.max_fee_amount,
        ) {
            Err(e) => Err(e),
            Ok(max_fee_msat) => send_choice(bolt11.melt_options, max_fee_msat),
        },
        OutgoingPaymentOptions::Bolt12(bolt12) => send_choice(bolt12.melt_options, None),
    }
}

fn choose_send(melt_options: Option<MeltOptions>, max_fee_msat: Option<u64>) -> (r: Result<
    SendInstruction,
    PaymentError,
>)
    ensures
        r == send_choice(melt_options, max_fee_msat),
{
    match melt_options {
        Some(MeltOptions::Amountless { amount_msat }) => Ok(
            SendInstruction::SendUsingAmount { amount_msat, max_fee_msat },
        ),
        None => Ok(SendInstruction::Send { max_fee_msat }),
        Some(MeltOptions::Mpp { .. }) => Err(PaymentError::UnsupportedPaymentOption),
    }
}

/// Decides what to ask of the node for a request to pay.
pub fn payment_instruction(unit: &CurrencyUnit, options: &OutgoingPaymentOptions) -> (r: Result<
    SendInstruction,
    PaymentError,
>)
    ensures
        r == payment_instruction_spec(unit@, *options),
{
    match options {
        OutgoingPaymentOptions::Bolt11(bolt11) => {
            let max_fee_msat = match bolt11.max_fee_amount {
                None => None,
                Some(fee) => match convert_amount(fee, unit, &CurrencyUnit::Msat) {
                    Some(fee_msat) => Some(fee_msat),
                    None => return Err(PaymentError::InvalidFeeAmount),
                },
            };
            choose_send(bolt11.melt_options, max_fee_msat)
        },
        OutgoingPaymentOptions::Bolt12(bolt12) => choose_send(bolt12.melt_options, None),
    }
}

/// The state of an outgoing payment as the mint sees it.
pub open spec fn outgoing_state(status: PaymentStatus) -> MeltQuoteState {
    match status {
        PaymentStatus::Pending => MeltQuoteState::Pending,
        PaymentStatus::Succeeded => MeltQuoteState::Paid,
        PaymentStatus::Failed => MeltQuoteState::Failed,
    }
}

pub(crate) fn state_of(status: PaymentStatus) -> (state: MeltQuoteState)
    ensures
        state == outgoing_state(status),
{
    match status {
        PaymentStatus::Pending => MeltQuoteState::Pending,
        PaymentStatus::Succeeded => MeltQuoteState::Paid,
        PaymentStatus::Failed => MeltQuoteState::Failed,
    }
}

/// The failure to report where the node refuses to send an invoice
/// payment.
pub open spec fn send_failure_text(instruction: SendInstruction) -> Seq<char> {
    match instruction {
        SendInstruction::Send { .. } => "Could not send bolt11"@,
        SendInstruction::SendUsingAmount { .. } => "Could not send bolt11 without amount"@,
    }
}

/// The failure to report where the node refuses to send an invoice
/// payment.
pub fn bolt11_send_failure(instruction: &SendInstruction) -> (e: PaymentError)
    ensures
        e matches PaymentError::Custom(text) && text@ == send_failure_text(*instruction),
{
    match instruction {
        SendInstruction::Send { .. } => PaymentError::Custom(
            String::from_str("Could not send bolt11"),
        ),
        SendInstruction::SendUsingAmount { .. } => PaymentError::Custom(
            String::from_str("Could not send bolt11 without amount"),
        ),
    }
}

/// The text of a preimage, where there is one.
pub open spec fn proof_text(preimage: Option<[u8; 32]>) -> Option<Seq<char>> {
    match preimage {
        Some(bytes) => Some(hex_text(bytes@)),
        None => None,
    }
}

pub(crate) fn proof_of(preimage: &Option<[u8; 32]>) -> (proof: Option<String>)
    ensures
        match (proof, proof_text(*preimage)) {
            (Some(text), Some(expected)) => text@ == expected,
            (None, None) => true,
            _ => false,
        },
{
    match preimage {
        Some(bytes) => Some(encode_32(bytes)),
        None => None,
    }
}

/// The proof of a payment made for `options`: the preimage in the record,
/// which must be of the kind that was asked for.
pub open spec fn payment_proof_spec(options: OutgoingPaymentOptions, kind: PaymentKind) -> Result<
    Option<Seq<char>>,
    PaymentError,
> {
    match (options, kind) {
        (OutgoingPaymentOptions::Bolt11(_), PaymentKind::Bolt11 { preimage, .. }) => Ok(
            proof_text(preimage),
        ),
        (OutgoingPaymentOptions::Bolt12(_), PaymentKind::Bolt12Offer { preimage, .. }) => Ok(
            proof_text(preimage),
        ),
        _ => Err(PaymentError::UnexpectedPaymentKind),
    }
}

/// What is reported of a payment made for `options` once polling has
/// ended: the state of its record, its proof and what was spent, in
/// `unit`. A payment that failed or is still pending is reported with its
/// state and lookup id, like one that was paid.
pub open spec fn make_payment_spec(
    unit: UnitView,
    options: OutgoingPaymentOptions,
    outcome: PollOutcome,
) -> Result<MakePaymentView, PaymentError> {
    match outcome {
        PollOutcome::NotFound => Err(PaymentError::PaymentNotFound),
        PollOutcome::Settled { details } => match payment_proof_spec(
            options,
            details.kind,
        ) {
            Err(e) => Err(e),
            Ok(payment_proof) => match details.amount_msat {
                None => Err(PaymentError::AmountSpentUnavailable),
                Some(total_msat) => if conversion_fits(total_msat, UnitView::Msat, unit) {
                    Ok(
                        MakePaymentView {
                            payment_lookup_id: outgoing_lookup_id(options),
                            payment_proof,
                            status: outgoing_state(details.status),
                            total_spent: converted(total_msat as int, UnitView::Msat, unit) as u64,
                            unit,
                        },
                    )
                } else {
                    Err(PaymentError::AmountConversionFailure)
                },
            },
        },
    }
}

/// Reports a payment made for `options`, given how polling for it ended.
pub fn make_payment(unit: &CurrencyUnit, options: &OutgoingPaymentOptions, outcome: &PollOutcome)
    -> (r: Result<MakePaymentResponse, PaymentError>)
    ensures
        match (r, make_payment_spec(unit@, *options, *outcome)) {
            (Ok(response), Ok(expected)) => response@ == expected,
            (Err(e), Err(expected)) => e == expected,
            _ => false,
        },
{
    let details = match outcome {
        PollOutcome::NotFound => return Err(PaymentError::PaymentNotFound),
        PollOutcome::Settled { details } => *details,
    };
    let status = state_of(details.status);
    let payment_proof = match (options, &details.kind) {
        (OutgoingPaymentOptions::Bolt11(_), PaymentKind::Bolt11 { preimage, .. }) => proof_of(
            preimage,
        ),
        (OutgoingPaymentOptions::Bolt12(_), PaymentKind::Bolt12Offer { preimage, .. }) => proof_of(
            preimage,
        ),
        _ => return Err(PaymentError::UnexpectedPaymentKind),
    };
    let total_msat = match details.amount_msat {
        Some(total_msat) => total_msat,
        None => return Err(PaymentError::AmountSpentUnavailable),
    };
    let total_spent = match convert_amount(total_msat, &CurrencyUnit::Msat, unit) {
        Some(total_spent) => total_spent,
        None => return Err(PaymentError::AmountConversionFailure),
    };
    Ok(
        MakePaymentResponse {
            payment_lookup_id: lookup_id_of(options),
            payment_proof,
            status,
            total_spent,
            unit: unit.clone(),
        },
    )
}

} // verus!
