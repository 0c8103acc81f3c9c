use cdk_ldk_node::broadcast::{Broadcaster, CHANNEL_CAPACITY};
use cdk_ldk_node::payment::{PaymentIdentifier, WaitPaymentResponse};
use cdk_ldk_node::units::CurrencyUnit;

fn notice(n: u64) -> WaitPaymentResponse {
    WaitPaymentResponse {
        payment_identifier: PaymentIdentifier::CustomId(format!("payment-{}", n)),
        payment_amount: n,
        unit: CurrencyUnit::Sat,
        payment_id: format!("{:064x}", n),
    }
}

#[test]
fn capacity_of_the_channel() {
    assert_eq!(CHANNEL_CAPACITY, 8);
}

#[test]
fn every_subscriber_receives_every_notice_in_order() {
    let mut channel = Broadcaster::new();
    let first = channel.subscribe();
    let second = channel.subscribe();
    assert_eq!((first, second), (0, 1));
    assert_eq!(channel.publish(&notice(1)), 2);
    assert_eq!(channel.publish(&notice(2)), 2);
    assert_eq!(channel.publish(&notice(3)), 2);
    for subscriber in [first, second] {
        assert_eq!(channel.receive(subscriber), Some(notice(1)));
        assert_eq!(channel.receive(subscriber), Some(notice(2)));
        assert_eq!(channel.receive(subscriber), Some(notice(3)));
        assert_eq!(channel.receive(subscriber), None);
    }
}

#[test]
fn a_late_subscriber_sees_only_what_comes_after() {
    let mut channel = Broadcaster::new();
    let early = channel.subscribe();
    channel.publish(&notice(1));
    channel.publish(&notice(2));
    let late = channel.subscribe();
    assert_eq!(channel.receive(late), None);
    channel.publish(&notice(3));
    assert_eq!(channel.receive(late), Some(notice(3)));
    assert_eq!(channel.receive(late), None);
    assert_eq!(channel.receive(early), Some(notice(1)));
    assert_eq!(channel.receive(early), Some(notice(2)));
    assert_eq!(channel.receive(early), Some(notice(3)));
}

#[test]
fn publication_to_nobody() {
    let mut channel = Broadcaster::new();
    assert_eq!(channel.publish(&notice(1)), 0);
    let subscriber = channel.subscribe();
    assert_eq!(channel.receive(subscriber), None);
}

#[test]
fn a_slow_subscriber_loses_its_oldest_notices() {
    let mut channel = Broadcaster::new();
    let slow = channel.subscribe();
    let quick = channel.subscribe();
    for n in 1..=11 {
        assert_eq!(channel.publish(&notice(n)), 2);
        assert_eq!(channel.receive(quick), Some(notice(n)));
    }
    for n in 4..=11 {
        assert_eq!(channel.receive(slow), Some(notice(n)));
    }
    assert_eq!(channel.receive(slow), None);
}

#[test]
fn exactly_the_capacity_is_kept() {
    let mut channel = Broadcaster::new();
    let subscriber = channel.subscribe();
    for n in 1..=8 {
        channel.publish(&notice(n));
    }
    assert_eq!(channel.receive(subscriber), Some(notice(1)));
    channel.publish(&notice(9));
    channel.publish(&notice(10));
    // nine were held for it when the tenth came: the second was lost
    for n in 3..=10 {
        assert_eq!(channel.receive(subscriber), Some(notice(n)));
    }
    assert_eq!(channel.receive(subscriber), None);
}

#[test]
fn subscriptions_are_counted() {
    let mut channel = Broadcaster::new();
    assert_eq!(channel.subscription_count(), 0);
    channel.subscribe();
    let second = channel.subscribe();
    channel.unsubscribe(second);
    assert_eq!(channel.subscription_count(), 2);
}

#[test]
fn a_closed_subscription_receives_nothing() {
    let mut channel = Broadcaster::new();
    let closed = channel.subscribe();
    let open = channel.subscribe();
    channel.publish(&notice(1));
    channel.unsubscribe(closed);
    assert!(!channel.is_subscribed(closed));
    assert!(channel.is_subscribed(open));
    assert_eq!(channel.receive(closed), None);
    assert_eq!(channel.publish(&notice(2)), 1);
    assert_eq!(channel.receive(closed), None);
    assert_eq!(channel.receive(open), Some(notice(1)));
    assert_eq!(channel.receive(open), Some(notice(2)));
}

#[test]
fn unknown_subscriptions() {
    let mut channel = Broadcaster::new();
    assert!(!channel.is_subscribed(0));
    assert_eq!(channel.receive(5), None);
    channel.unsubscribe(5);
    assert_eq!(channel.subscribe(), 0);
}
