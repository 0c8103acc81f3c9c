use cdk_ldk_node::payment::{PaymentDetails, PaymentDirection, PaymentKind, PaymentStatus};
use cdk_ldk_node::poller::{
    poll_payment, poll_until_settled, Observation, PollConfig, PollDecision, PollOutcome,
    POLL_INTERVAL_MS, POLL_TIMEOUT_MS,
};

fn record(status: PaymentStatus) -> PaymentDetails {
    PaymentDetails {
        id: [7; 32],
        kind: PaymentKind::Bolt11 {
            hash: [1; 32],
            preimage: None,
        },
        amount_msat: Some(21_000),
        fee_paid_msat: None,
        direction: PaymentDirection::Outbound,
        status,
    }
}

fn ticks(statuses: &[PaymentStatus], interval_ms: u64) -> Vec<Observation> {
    statuses
        .iter()
        .enumerate()
        .map(|(i, status)| Observation {
            elapsed_ms: i as u64 * interval_ms,
            lookup: Some(record(*status)),
        })
        .collect()
}

#[test]
fn the_standard_timing() {
    let config = PollConfig::default();
    assert_eq!(config.timeout_ms, 10_000);
    assert_eq!(config.interval_ms, 100);
    assert_eq!(POLL_TIMEOUT_MS, 10_000);
    assert_eq!(POLL_INTERVAL_MS, 100);
}

#[test]
fn a_missing_record_ends_the_poll() {
    let config = PollConfig::default();
    assert_eq!(
        poll_payment(None, 0, &config),
        PollDecision::Done(PollOutcome::NotFound)
    );
    assert_eq!(
        poll_payment(None, 20_000, &config),
        PollDecision::Done(PollOutcome::NotFound)
    );
}

#[test]
fn a_settled_payment_ends_the_poll() {
    let config = PollConfig::default();
    for status in [PaymentStatus::Succeeded, PaymentStatus::Failed] {
        assert_eq!(
            poll_payment(Some(record(status)), 0, &config),
            PollDecision::Done(PollOutcome::Settled {
                details: record(status)
            })
        );
    }
}

#[test]
fn a_pending_payment_is_waited_for_until_the_deadline() {
    let config = PollConfig::default();
    let pending = Some(record(PaymentStatus::Pending));
    assert_eq!(
        poll_payment(pending, 0, &config),
        PollDecision::Wait { millis: 100 }
    );
    assert_eq!(
        poll_payment(pending, 10_000, &config),
        PollDecision::Wait { millis: 100 }
    );
    assert_eq!(
        poll_payment(pending, 10_001, &config),
        PollDecision::Done(PollOutcome::Settled {
            details: record(PaymentStatus::Pending)
        })
    );
}

#[test]
fn paid_after_three_hundred_milliseconds() {
    let config = PollConfig::default();
    let trace = ticks(
        &[
            PaymentStatus::Pending,
            PaymentStatus::Pending,
            PaymentStatus::Pending,
            PaymentStatus::Succeeded,
            PaymentStatus::Succeeded,
        ],
        config.interval_ms,
    );
    let (outcome, polls) = poll_until_settled(&trace, &config);
    assert_eq!(
        outcome,
        Some(PollOutcome::Settled {
            details: record(PaymentStatus::Succeeded)
        })
    );
    assert_eq!(polls, 4);
    assert!(trace[polls - 1].elapsed_ms < config.timeout_ms);
}

#[test]
fn pending_for_eleven_seconds() {
    let config = PollConfig::default();
    let trace = ticks(&[PaymentStatus::Pending; 111], config.interval_ms);
    assert_eq!(trace.last().map(|seen| seen.elapsed_ms), Some(11_000));
    let (outcome, polls) = poll_until_settled(&trace, &config);
    assert_eq!(
        outcome,
        Some(PollOutcome::Settled {
            details: record(PaymentStatus::Pending)
        })
    );
    // the first look after the deadline is the last
    assert_eq!(polls, 102);
    assert_eq!(trace[polls - 1].elapsed_ms, 10_100);
}

#[test]
fn failed_at_once() {
    let config = PollConfig::default();
    let trace = ticks(&[PaymentStatus::Failed], config.interval_ms);
    let (outcome, polls) = poll_until_settled(&trace, &config);
    assert_eq!(
        outcome,
        Some(PollOutcome::Settled {
            details: record(PaymentStatus::Failed)
        })
    );
    assert_eq!(polls, 1);
}

#[test]
fn record_disappears() {
    let config = PollConfig::default();
    let mut trace = ticks(&[PaymentStatus::Pending; 3], config.interval_ms);
    trace[2].lookup = None;
    let (outcome, polls) = poll_until_settled(&trace, &config);
    assert_eq!(outcome, Some(PollOutcome::NotFound));
    assert_eq!(polls, 3);
}

#[test]
fn trace_ends_before_the_poll() {
    let config = PollConfig::default();
    let trace = ticks(&[PaymentStatus::Pending; 5], config.interval_ms);
    assert_eq!(poll_until_settled(&trace, &config), (None, 5));
    assert_eq!(poll_until_settled(&Vec::new(), &config), (None, 0));
}

#[test]
fn other_timing() {
    let config = PollConfig {
        timeout_ms: 250,
        interval_ms: 50,
    };
    let trace = ticks(&[PaymentStatus::Pending; 20], config.interval_ms);
    let (outcome, polls) = poll_until_settled(&trace, &config);
    assert_eq!(
        outcome,
        Some(PollOutcome::Settled {
            details: record(PaymentStatus::Pending)
        })
    );
    assert_eq!(polls, 7);
    assert_eq!(
        poll_payment(Some(record(PaymentStatus::Pending)), 10, &config),
        PollDecision::Wait { millis: 50 }
    );
}
