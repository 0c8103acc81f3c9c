//! Resolution of an outgoing payment by polling the node's record of it
//! until it settles or a deadline has passed.

use crate::payment::{PaymentDetails, PaymentStatus};
use vstd::prelude::*;

verus! {

/// For how long a pending payment is polled, in milliseconds.
pub const POLL_TIMEOUT_MS: u64 = 10_000;

/// The pause between two polls, in milliseconds.
pub const POLL_INTERVAL_MS: u64 = 100;

/// The timing of a poll.
#[derive(Debug, Clone, Copy, PartialEq, Eq)]
pub struct PollConfig {
    /// A payment found pending later than this after the send is given up
    /// waiting for.
    pub timeout_ms: u64,
    /// The pause before the next poll.
    pub interval_ms: u64,
}

impl Default for PollConfig {
    fn default() -> (config: Self)
        ensures
            config.timeout_ms == POLL_TIMEOUT_MS,
            config.interval_ms == POLL_INTERVAL_MS,
    {
        PollConfig { timeout_ms: POLL_TIMEOUT_MS, interval_ms: POLL_INTERVAL_MS }
    }
}

/// How a poll ends.
#[derive(Debug, Clone, Copy, PartialEq, Eq)]
pub enum PollOutcome {
    /// The node's record of the payment when polling ended: settled, or
    /// still pending after the deadline.
    Settled { details: PaymentDetails },
    /// The node has no record of the payment.
    NotFound,
}

/// What the poller does after one look at the node's record.
#[derive(Debug, Clone, Copy, PartialEq, Eq)]
pub enum PollDecision {
    /// Polling ends.
    Done(PollOutcome),
    /// The payment is pending and the deadline has not passed: pause for
    /// this many milliseconds, then look again.
    Wait { millis: u64 },
}

/// One look at the node's record of a payment.
#[derive(Debug, Clone, Copy, PartialEq, Eq)]
pub struct Observation {
    /// The time since the send, in milliseconds.
    pub elapsed_ms: u64,
    /// The record found, if any.
    pub lookup: Option<PaymentDetails>,
}

/// The decision after a look at the record, `elapsed_ms` after the send:
/// no record ends the poll in failure; a payment that succeeded or failed
/// ends it with that record; a pending one ends it once the deadline has
/// passed and is waited for until then.
pub open spec fn decide(lookup: Option<PaymentDetails>, elapsed_ms: u64, config: PollConfig)
    -> PollDecision {
    match lookup {
        None => PollDecision::Done(PollOutcome::NotFound),
        Some(details) => if details.status == PaymentStatus::Pending && elapsed_ms
            <= config.timeout_ms {
            PollDecision::Wait { millis: config.interval_ms }
        } else {
            PollDecision::Done(PollOutcome::Settled { details })
        },
    }
}

/// The decision after the observation `seen`.
pub open spec fn decide_on(seen: Observation, config: PollConfig) -> PollDecision {
    decide(seen.lookup, seen.elapsed_ms, config)
}

/// Decides what to do after one look at the node's record of a payment.
pub fn poll_payment(lookup: Option<PaymentDetails>, elapsed_ms: u64, config: &PollConfig) -> (d:
    PollDecision)
    ensures
        d == decide(lookup, elapsed_ms, *config),
{
    match lookup {
        None => PollDecision::Done(PollOutcome::NotFound),
        Some(details) => match details.status {
            PaymentStatus::Succeeded => PollDecision::Done(PollOutcome::Settled { details }),
            PaymentStatus::Failed => PollDecision::Done(PollOutcome::Settled { details }),
            PaymentStatus::Pending => {
                if elapsed_ms > config.timeout_ms {
                    PollDecision::Done(PollOutcome::Settled { details })
                } else {
                    PollDecision::Wait { millis: config.interval_ms }
                }
            },
        },
    }
}

/// Runs the poller over the looks in `trace`, in order, and stops at the
/// first that ends the poll. Returns how the poll ended, or `None` where
/// the trace ends before the poll does, and the number of looks taken.
pub fn poll_until_settled(trace: &Vec<Observation>, config: &PollConfig) -> (r: (
    Option<PollOutcome>,
    usize,
))
    ensures
        r.1 <= trace.len(),
        forall|j: int| 0 <= j < r.1 - 1 ==> (#[trigger] decide_on(trace[j], *config)) is Wait,
        match r.0 {
            Some(outcome) => r.1 > 0 && decide_on(trace[r.1 - 1], *config) == PollDecision::Done(
                outcome,
            ),
            None => r.1 == trace.len() && forall|j: int|
                0 <= j < trace.len() ==> (#[trigger] decide_on(trace[j], *config)) is Wait,
        },
        forall|j: int|
            0 <= j < trace.len() && (#[trigger] trace[j]).elapsed_ms > config.timeout_ms ==> r.1
                <= j + 1,
{
    let mut i: usize = 0;
    while i < trace.len()
        invariant
            i <= trace.len(),
            forall|j: int| 0 <= j < i ==> (#[trigger] decide_on(trace[j], *config)) is Wait,
        decreases trace.len() - i,
    {
        let decision = poll_payment(trace[i].lookup, trace[i].elapsed_ms, config);
        i = i + 1;
        match decision {
            PollDecision::Wait { .. } => {},
            PollDecision::Done(outcome) => {
                assert forall|j: int|
                    0 <= j < trace.len() && (#[trigger] trace[j]).elapsed_ms
                        > config.timeout_ms implies i <= j + 1 by {
                    if j < i - 1 {
                        assert(decide_on(trace[j], *config) is Wait);
                    }
                }
                return (Some(outcome), i);
            },
        }
    }
    assert forall|j: int|
        0 <= j < trace.len() && (#[trigger] trace[j]).elapsed_ms > config.timeout_ms implies i <= j
        + 1 by {
        assert(decide_on(trace[j], *config) is Wait);
    }
    (None, i)
}

} // verus!
