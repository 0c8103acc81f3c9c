//! Ingestion of the node's events: each payment that the node reports as
//! received is looked up, given its identifier, and published.

use crate::broadcast::{after_arrivals, lemma_room_for_all, Broadcaster};
use crate::hex::{encode_32, hex_text};
use crate::payment::{
    IdentifierView, PaymentDetails, PaymentIdentifier, PaymentKind, WaitPaymentResponse,
    WaitPaymentView,
};
use crate::store::{find_payment, first_match, Lookup, Query};
use crate::units::{CurrencyUnit, UnitView, MSAT_IN_SAT};
use vstd::prelude::*;

verus! {

/// What the node reports.
#[derive(Debug, Clone, Copy, PartialEq, Eq)]
pub enum Event {
    /// A payment has been received.
    PaymentReceived {
        /// The node's id of the payment; missing in events of old nodes.
        payment_id: Option<[u8; 32]>,
        payment_hash: [u8; 32],
        amount_msat: u64,
    },
    /// Anything else.
    Other,
}

/// Why a received payment is not published.
#[derive(Debug, Clone, Copy, PartialEq, Eq)]
pub enum Discard {
    /// The event names no payment id, so the payment cannot be looked up.
    MissingPaymentId,
    /// The node has no record of the payment.
    UnknownPayment,
    /// The payment is for an offer and its record holds no payment hash.
    MissingHash,
    /// The payment is of a kind that the bridge does not handle.
    UnsupportedKind,
}

/// The identifier of a payment and the text of its payment hash: a BOLT11
/// payment is known by its payment hash, a payment for a BOLT12 offer by
/// the id of the offer, as text, and must hold a payment hash; no other
/// kind has an identifier.
pub open spec fn identifier_of(kind: PaymentKind) -> Result<(IdentifierView, Seq<char>), Discard> {
    match kind {
        PaymentKind::Bolt11 { hash, .. } => Ok(
            (IdentifierView::PaymentHash(hash@), hex_text(hash@)),
        ),
        PaymentKind::Bolt12Offer { hash: Some(hash), offer_id, .. } => Ok(
            (IdentifierView::OfferId(hex_text(offer_id@)), hex_text(hash@)),
        ),
        PaymentKind::Bolt12Offer { hash: None, .. } => Err(Discard::MissingHash),
        PaymentKind::Other => Err(Discard::UnsupportedKind),
    }
}

/// Gives a payment its identifier and the text of its payment hash.
pub fn normalize(kind: &PaymentKind) -> (r: Result<(PaymentIdentifier, String), Discard>)
    ensures
        match (r, identifier_of(*kind)) {
            (Ok((identifier, payment_id)), Ok((expected, text))) => identifier@ == expected
                && payment_id@ == text,
            (Err(e), Err(expected)) => e == expected,
            _ => false,
        },
{
    match kind {
        PaymentKind::Bolt11 { hash, .. } => Ok(
            (PaymentIdentifier::PaymentHash(*hash), encode_32(hash)),
        ),
        PaymentKind::Bolt12Offer { hash, offer_id, .. } => match hash {
            Some(hash) => Ok((PaymentIdentifier::OfferId(encode_32(offer_id)), encode_32(hash))),
            None => Err(Discard::MissingHash),
        },
        PaymentKind::Other => Err(Discard::UnsupportedKind),
    }
}

/// The notice for a payment that the node reports as received, given the
/// node's payments: identifier and payment hash of the record found under
/// the payment id, and the amount in whole satoshi.
pub open spec fn notice_for(
    payment_id: Option<[u8; 32]>,
    amount_msat: u64,
    payments: Seq<PaymentDetails>,
) -> Result<WaitPaymentView, Discard> {
    match payment_id {
        None => Err(Discard::MissingPaymentId),
        Some(id) => match first_match(payments, Query::ById(id@)) {
            None => Err(Discard::UnknownPayment),
            Some(details) => match identifier_of(details.kind) {
                Err(e) => Err(e),
                Ok((identifier, text)) => Ok(
                    WaitPaymentView {
                        payment_identifier: identifier,
                        payment_amount: amount_msat / 1000,
                        unit: UnitView::Sat,
                        payment_id: text,
                    },
                ),
            },
        },
    }
}

/// Makes the notice for a payment that the node reports as received, or
/// says why there is none.
pub fn handle_payment_received(
    payment_id: &Option<[u8; 32]>,
    amount_msat: u64,
    payments: &Vec<PaymentDetails>,
) -> (r: Result<WaitPaymentResponse, Discard>)
    ensures
        match (r, notice_for(*payment_id, amount_msat, payments@)) {
            (Ok(notice), Ok(expected)) => notice@ == expected,
            (Err(e), Err(expected)) => e == expected,
            _ => false,
        },
{
    let id = match payment_id {
        Some(id) => *id,
        None => return Err(Discard::MissingPaymentId),
    };
    let amount_sat = amount_msat / MSAT_IN_SAT;
    let details = match find_payment(payments, &Lookup::ById(id)) {
        Some(details) => details,
        None => return Err(Discard::UnknownPayment),
    };
    let (payment_identifier, payment_id) = match normalize(&details.kind) {
        Ok(pair) => pair,
        Err(e) => return Err(e),
    };
    Ok(
        WaitPaymentResponse {
            payment_identifier,
            payment_amount: amount_sat,
            unit: CurrencyUnit::Sat,
            payment_id,
        },
    )
}

/// What the loop waits for: its cancellation or the node's next event,
/// whichever comes first.
#[derive(Debug, Clone, Copy, PartialEq, Eq)]
pub enum Signal {
    Cancelled,
    Event(Event),
}

/// Whether the loop still takes events. `Cancelled` is final.
#[derive(Debug, Clone, Copy, PartialEq, Eq, Structural)]
pub enum LoopState {
    Running,
    Cancelled,
}

/// The state of the loop after a signal: cancellation ends it for good.
pub open spec fn next_state(state: LoopState, signal: Signal) -> LoopState {
    if state == LoopState::Cancelled || signal is Cancelled {
        LoopState::Cancelled
    } else {
        LoopState::Running
    }
}

/// The notice that the loop publishes on a signal: that of a received
/// payment for which there is one, while the loop runs.
pub open spec fn notice_of(state: LoopState, signal: Signal, payments: Seq<PaymentDetails>)
    -> Option<WaitPaymentView> {
    match (state, signal) {
        (
            LoopState::Running,
            Signal::Event(Event::PaymentReceived { payment_id, amount_msat, .. }),
        ) => match notice_for(payment_id, amount_msat, payments) {
            Ok(notice) => Some(notice),
            Err(_) => None,
        },
        _ => None,
    }
}

/// Why the loop publishes nothing on a signal, where the signal reports a
/// received payment while the loop runs.
pub open spec fn discard_of(state: LoopState, signal: Signal, payments: Seq<PaymentDetails>)
    -> Option<Discard> {
    match (state, signal) {
        (
            LoopState::Running,
            Signal::Event(Event::PaymentReceived { payment_id, amount_msat, .. }),
        ) => match notice_for(payment_id, amount_msat, payments) {
            Ok(_) => None,
            Err(reason) => Some(reason),
        },
        _ => None,
    }
}

/// Whether the loop tells the node that the event is handled: always,
/// whatever became of the event, while the loop runs.
pub open spec fn acknowledges(state: LoopState, signal: Signal) -> bool {
    state == LoopState::Running && signal is Event
}

/// The state of the loop after the signals of `signals`, in order.
pub open spec fn state_after(state: LoopState, signals: Seq<Signal>) -> LoopState
    decreases signals.len(),
{
    if signals.len() == 0 {
        state
    } else {
        next_state(state_after(state, signals.drop_last()), signals.last())
    }
}

/// The notices that the loop publishes on the signals of `signals`, in
/// order.
pub open spec fn published(state: LoopState, signals: Seq<Signal>, payments: Seq<PaymentDetails>)
    -> Seq<WaitPaymentView>
    decreases signals.len(),
{
    if signals.len() == 0 {
        Seq::empty()
    } else {
        let before = published(state, signals.drop_last(), payments);
        match notice_of(state_after(state, signals.drop_last()), signals.last(), payments) {
            Some(notice) => before.push(notice),
            None => before,
        }
    }
}

/// How many of the signals of `signals` the loop acknowledges.
pub open spec fn acknowledged(state: LoopState, signals: Seq<Signal>) -> nat
    decreases signals.len(),
{
    if signals.len() == 0 {
        0
    } else {
        acknowledged(state, signals.drop_last()) + if acknowledges(
            state_after(state, signals.drop_last()),
            signals.last(),
        ) {
            1nat
        } else {
            0nat
        }
    }
}

/// Whether `signal` reports a received payment for which there is a
/// notice.
pub open spec fn is_publishable(signal: Signal, payments: Seq<PaymentDetails>) -> bool {
    notice_of(LoopState::Running, signal, payments) is Some
}

/// Every received payment for which there is a notice is published, once
/// and in the order of the events: as many notices as events, the notice
/// at each place that of the event at that place, bearing the identifier
/// of the payment's record. Each event is acknowledged, and the loop keeps
/// running.
pub proof fn lemma_every_received_payment_is_published(
    signals: Seq<Signal>,
    payments: Seq<PaymentDetails>,
)
    requires
        forall|i: int| 0 <= i < signals.len() ==> is_publishable(#[trigger] signals[i], payments),
    ensures
        state_after(LoopState::Running, signals) == LoopState::Running,
        acknowledged(LoopState::Running, signals) == signals.len(),
        published(LoopState::Running, signals, payments).len() == signals.len(),
        forall|i: int|
            0 <= i < signals.len() ==> Some(
                #[trigger] published(LoopState::Running, signals, payments)[i],
            ) == notice_of(LoopState::Running, signals[i], payments),
    decreases signals.len(),
{
    if signals.len() > 0 {
        let front = signals.drop_last();
        assert forall|i: int| 0 <= i < front.len() implies is_publishable(
            #[trigger] front[i],
            payments,
        ) by {
            assert(front[i] == signals[i]);
        }
        lemma_every_received_payment_is_published(front, payments);
        assert(is_publishable(signals[signals.len() - 1], payments));
        let all = published(LoopState::Running, signals, payments);
        assert forall|i: int| 0 <= i < signals.len() implies Some(#[trigger] all[i]) == notice_of(
            LoopState::Running,
            signals[i],
            payments,
        ) by {
            if i < front.len() {
                assert(front[i] == signals[i]);
                assert(all[i] == published(LoopState::Running, front, payments)[i]);
            }
        }
    }
}

/// A subscriber that is attached before received payments are processed,
/// and has room for them, receives the notice of each, once and in the
/// order of the events, after what it held before.
pub proof fn lemma_attached_subscriber_receives_all(
    pending: Seq<WaitPaymentView>,
    capacity: nat,
    signals: Seq<Signal>,
    payments: Seq<PaymentDetails>,
)
    requires
        forall|i: int| 0 <= i < signals.len() ==> is_publishable(#[trigger] signals[i], payments),
        pending.len() + signals.len() <= capacity,
    ensures
        published(LoopState::Running, signals, payments).len() == signals.len(),
        after_arrivals(pending, capacity, published(LoopState::Running, signals, payments))
            == pending + published(LoopState::Running, signals, payments),
        forall|i: int|
            0 <= i < signals.len() ==> Some(
                #[trigger] published(LoopState::Running, signals, payments)[i],
            ) == notice_of(LoopState::Running, signals[i], payments),
{
    lemma_every_received_payment_is_published(signals, payments);
    lemma_room_for_all(pending, capacity, published(LoopState::Running, signals, payments));
}

/// What the runtime owes the node after a signal.
#[derive(Debug, Clone, Copy, PartialEq, Eq)]
pub struct Reaction {
    /// Whether a notice was published.
    pub published: bool,
    /// Why a received payment was not published.
    pub discarded: Option<Discard>,
    /// Whether the node is to be told that the event is handled.
    pub acknowledge: bool,
}

/// The loop that takes the node's events.
#[derive(Debug)]
pub struct EventLoop {
    state: LoopState,
}

impl EventLoop {
    /// The state of the loop.
    pub closed spec fn state(&self) -> LoopState {
        self.state
    }

    /// A loop that runs.
    pub fn new() -> (event_loop: Self)
        ensures
            event_loop.state() == LoopState::Running,
    {
        EventLoop { state: LoopState::Running }
    }

    /// Whether the loop still takes events.
    pub fn is_running(&self) -> (running: bool)
        ensures
            running == (self.state() == LoopState::Running),
    {
        self.state == LoopState::Running
    }

    /// Takes one signal: ends the loop on cancellation; publishes the
    /// notice of a received payment for which there is one; asks for the
    /// acknowledgement of every event taken while the loop runs.
    pub fn step(&mut self, signal: &Signal, payments: &Vec<PaymentDetails>, channel: &mut Broadcaster)
        -> (reaction: Reaction)
        requires
            old(channel).wf(),
        ensures
            final(self).state() == next_state(old(self).state(), *signal),
            reaction.acknowledge == acknowledges(old(self).state(), *signal),
            reaction.discarded == discard_of(old(self).state(), *signal, payments@),
            match notice_of(old(self).state(), *signal, payments@) {
                Some(notice) => reaction.published && old(channel).delivers(final(channel), notice),
                None => !reaction.published && *final(channel) == *old(channel),
            },
    {
        if self.state == LoopState::Cancelled {
            return Reaction { published: false, discarded: None, acknowledge: false };
        }
        match signal {
            Signal::Cancelled => {
                self.state = LoopState::Cancelled;
                Reaction { published: false, discarded: None, acknowledge: false }
            },
            Signal::Event(Event::PaymentReceived { payment_id, amount_msat, .. }) => {
                match handle_payment_received(payment_id, *amount_msat, payments) {
                    Ok(notice) => {
                        channel.publish(&notice);
                        Reaction { published: true, discarded: None, acknowledge: true }
                    },
                    Err(reason) => Reaction {
                        published: false,
                        discarded: Some(reason),
                        acknowledge: true,
                    },
                }
            },
            Signal::Event(Event::Other) => Reaction {
                published: false,
                discarded: None,
                acknowledge: true,
            },
        }
    }

    /// Takes the signals of `signals`, in order, and returns how many of
    /// them are to be acknowledged to the node.
    pub fn run(&mut self, signals: &Vec<Signal>, payments: &Vec<PaymentDetails>, channel: &mut Broadcaster)
        -> (acknowledgements: usize)
        requires
            old(channel).wf(),
        ensures
            final(self).state() == state_after(old(self).state(), signals@),
            acknowledgements == acknowledged(old(self).state(), signals@),
            final(channel).wf(),
            final(channel).log() == old(channel).log() + published(
                old(self).state(),
                signals@,
                payments@,
            ),
            final(channel).capacity() == old(channel).capacity(),
            final(channel).subscriptions() == old(channel).subscriptions(),
            forall|id: int|
                #![trigger final(channel).is_open(id)]
                #![trigger final(channel).joined(id)]
                #![trigger final(channel).pending(id)]
                0 <= id < old(channel).subscriptions() ==> {
                    &&& final(channel).is_open(id) == old(channel).is_open(id)
                    &&& final(channel).joined(id) == old(channel).joined(id)
                    &&& final(channel).pending(id) == if old(channel).is_open(id) {
                        after_arrivals(
                            old(channel).pending(id),
                            old(channel).capacity(),
                            published(old(self).state(), signals@, payments@),
                        )
                    } else {
                        old(channel).pending(id)
                    }
                },
    {
        let ghost start = self.state;
        let mut acknowledgements: usize = 0;
        let mut i: usize = 0;
        proof {
            assert(old(channel).log() + published(start, signals@.take(0), payments@) =~= old(
                channel,
            ).log());
        }
        while i < signals.len()
            invariant
                i <= signals.len(),
                acknowledgements <= i,
                start == old(self).state(),
                self.state() == state_after(start, signals@.take(i as int)),
                acknowledgements == acknowledged(start, signals@.take(i as int)),
                channel.wf(),
                channel.log() == old(channel).log() + published(
                    start,
                    signals@.take(i as int),
                    payments@,
                ),
                channel.capacity() == old(channel).capacity(),
                channel.subscriptions() == old(channel).subscriptions(),
                forall|id: int|
                    #![trigger channel.is_open(id)]
                    #![trigger channel.joined(id)]
                    #![trigger channel.pending(id)]
                    0 <= id < old(channel).subscriptions() ==> {
                        &&& channel.is_open(id) == old(channel).is_open(id)
                        &&& channel.joined(id) == old(channel).joined(id)
                        &&& channel.pending(id) == if old(channel).is_open(id) {
                            after_arrivals(
                                old(channel).pending(id),
                                old(channel).capacity(),
                                published(start, signals@.take(i as int), payments@),
                            )
                        } else {
                            old(channel).pending(id)
                        }
                    },
            decreases signals.len() - i,
        {
            let ghost before = *channel;
            let ghost seen = signals@.take(i as int);
            let ghost next = signals@.take(i + 1);
            proof {
                assert(next.drop_last() =~= seen);
                assert(next.last() == signals@[i as int]);
            }
            let reaction = self.step(&signals[i], payments, channel);
            if reaction.acknowledge {
                acknowledgements = acknowledgements + 1;
            }
            proof {
                let so_far = published(start, seen, payments@);
                match notice_of(state_after(start, seen), signals@[i as int], payments@) {
                    Some(notice) => {
                        assert(published(start, next, payments@) == so_far.push(notice));
                        assert(channel.log() =~= old(channel).log() + so_far.push(notice));
                        assert(so_far.push(notice).drop_last() =~= so_far);
                        assert forall|id: int|
                            #![trigger channel.is_open(id)]
                            #![trigger channel.joined(id)]
                            #![trigger channel.pending(id)]
                            0 <= id < old(channel).subscriptions() implies {
                            &&& channel.is_open(id) == old(channel).is_open(id)
                            &&& channel.joined(id) == old(channel).joined(id)
                            &&& channel.pending(id) == if old(channel).is_open(id) {
                                after_arrivals(
                                    old(channel).pending(id),
                                    old(channel).capacity(),
                                    published(start, next, payments@),
                                )
                            } else {
                                old(channel).pending(id)
                            }
                        } by {
                            assert(before.is_open(id) == old(channel).is_open(id));
                            assert(channel.is_open(id) == before.is_open(id));
                            assert(before.pending(id) == if old(channel).is_open(id) {
                                after_arrivals(
                                    old(channel).pending(id),
                                    old(channel).capacity(),
                                    so_far,
                                )
                            } else {
                                old(channel).pending(id)
                            });
                        }
                    },
                    None => {
                        assert(published(start, next, payments@) == so_far);
                    },
                }
            }
            i = i + 1;
        }
        proof {
            assert(signals@.take(signals.len() as int) =~= signals@);
        }
        acknowledgements
    }
}

} // verus!
