use cdk_ldk_node::lifecycle::{Coordinator, StopPlan};

const NOTHING: StopPlan = StopPlan {
    cancel_events: false,
    cancel_management: false,
    cancel_wait_invoice: false,
    stop_node: false,
};

#[test]
fn a_new_coordinator_is_idle() {
    let coordinator = Coordinator::new();
    assert!(!coordinator.is_wait_invoice_active());
    assert!(!coordinator.is_events_cancelled());
    assert!(!coordinator.is_wait_invoice_cancelled());
    assert!(!coordinator.is_stopped());
}

#[test]
fn the_event_loop_starts_with_the_node() {
    let mut coordinator = Coordinator::new();
    assert!(!coordinator.start(false));
    assert!(coordinator.start(true));
    assert!(!coordinator.is_stopped());
}

#[test]
fn stop_of_a_running_bridge_with_a_wait() {
    let mut coordinator = Coordinator::new();
    coordinator.start(true);
    coordinator.wait_any_incoming_payment();
    assert!(coordinator.is_wait_invoice_active());
    let plan = coordinator.stop();
    assert_eq!(
        plan,
        StopPlan {
            cancel_events: true,
            cancel_management: true,
            cancel_wait_invoice: true,
            stop_node: true,
        }
    );
    assert!(coordinator.is_stopped());
    assert!(coordinator.is_events_cancelled());
    assert!(coordinator.is_wait_invoice_cancelled());
    assert!(!coordinator.is_wait_invoice_active());
}

#[test]
fn stop_without_a_wait_leaves_the_wait_token_alone() {
    let mut coordinator = Coordinator::new();
    coordinator.start(true);
    let plan = coordinator.stop();
    assert_eq!(
        plan,
        StopPlan {
            cancel_events: true,
            cancel_management: true,
            cancel_wait_invoice: false,
            stop_node: true,
        }
    );
    assert!(!coordinator.is_wait_invoice_cancelled());
}

#[test]
fn stop_twice_asks_for_nothing_the_second_time() {
    let mut coordinator = Coordinator::new();
    coordinator.start(true);
    coordinator.wait_any_incoming_payment();
    coordinator.stop();
    assert_eq!(coordinator.stop(), NOTHING);
    assert_eq!(coordinator.stop(), NOTHING);
    assert!(coordinator.is_stopped());
    assert!(!coordinator.is_wait_invoice_active());
}

#[test]
fn stop_of_a_bridge_that_never_started_does_not_stop_the_node() {
    let mut coordinator = Coordinator::new();
    let plan = coordinator.stop();
    assert!(!plan.stop_node);
    assert!(plan.cancel_events);
    assert!(plan.cancel_management);
    assert_eq!(coordinator.stop(), NOTHING);
}

#[test]
fn management_service_is_cancelled_once() {
    let mut coordinator = Coordinator::new();
    coordinator.start(true);
    assert!(coordinator.stop_management_service());
    assert!(!coordinator.stop_management_service());
    let plan = coordinator.stop();
    assert!(!plan.cancel_management);
    assert!(plan.cancel_events);
    assert!(plan.stop_node);
}

#[test]
fn cancel_ends_the_wait_in_one_step() {
    let mut coordinator = Coordinator::new();
    coordinator.start(true);
    coordinator.wait_any_incoming_payment();
    coordinator.cancel_wait_invoice();
    assert!(coordinator.is_wait_invoice_cancelled());
    coordinator.wait_invoice_watched();
    assert!(!coordinator.is_wait_invoice_active());
}

#[test]
fn cancel_without_a_wait() {
    let mut coordinator = Coordinator::new();
    coordinator.cancel_wait_invoice();
    coordinator.wait_invoice_watched();
    assert!(!coordinator.is_wait_invoice_active());
    // a wait opened after the cancellation ends at the next step
    coordinator.wait_any_incoming_payment();
    coordinator.wait_invoice_watched();
    assert!(!coordinator.is_wait_invoice_active());
}

#[test]
fn the_watcher_leaves_a_wait_that_is_not_cancelled() {
    let mut coordinator = Coordinator::new();
    coordinator.wait_any_incoming_payment();
    coordinator.wait_invoice_watched();
    assert!(coordinator.is_wait_invoice_active());
}

#[test]
fn a_wait_opened_after_stop_is_in_progress_until_cancelled() {
    let mut coordinator = Coordinator::new();
    coordinator.start(true);
    coordinator.stop();
    assert!(!coordinator.is_wait_invoice_active());
    coordinator.wait_any_incoming_payment();
    assert!(coordinator.is_wait_invoice_active());
    coordinator.wait_invoice_watched();
    assert!(coordinator.is_wait_invoice_active());
    coordinator.cancel_wait_invoice();
    coordinator.wait_invoice_watched();
    assert!(!coordinator.is_wait_invoice_active());
}

#[test]
fn stop_ends_a_wait_opened_after_an_earlier_stop() {
    let mut coordinator = Coordinator::new();
    coordinator.start(true);
    coordinator.stop();
    coordinator.wait_any_incoming_payment();
    let plan = coordinator.stop();
    assert!(plan.cancel_wait_invoice);
    assert!(!plan.stop_node);
    assert!(!plan.cancel_events);
    assert!(!coordinator.is_wait_invoice_active());
}

#[test]
fn stop_after_cancel_does_not_cancel_again() {
    let mut coordinator = Coordinator::new();
    coordinator.start(true);
    coordinator.wait_any_incoming_payment();
    coordinator.cancel_wait_invoice();
    let plan = coordinator.stop();
    assert!(!plan.cancel_wait_invoice);
    assert!(!coordinator.is_wait_invoice_active());
}
