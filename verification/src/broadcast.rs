//! Fan-out of payment notices to subscribers, over a `tokio` broadcast
//! channel.
//!
//! Every subscriber receives, in order, the notices published after it
//! subscribed. A notice published while nobody is subscribed is seen by
//! nobody. A subscriber holds a bounded number of notices that it has not
//! yet received; one that falls behind loses its oldest.

use crate::payment::{WaitPaymentResponse, WaitPaymentView};
use crate::tally::count_set;
use tokio::sync::broadcast::error::TryRecvError;
use tokio::sync::broadcast::{Receiver, Sender};
use vstd::prelude::*;

verus! {

/// How many notices a subscriber can fall behind without losing one.
pub const CHANNEL_CAPACITY: usize = 8;

/// How many subscriptions a channel can take.
pub const MAX_SUBSCRIPTIONS: usize = usize::MAX / 4;

/// The sending half of a broadcast channel.
#[verifier::external_type_specification]
#[verifier::external_body]
#[verifier::reject_recursive_types(T)]
pub struct ExSender<T>(Sender<T>);

/// A receiving half of a broadcast channel.
#[verifier::external_type_specification]
#[verifier::external_body]
#[verifier::reject_recursive_types(T)]
pub struct ExReceiver<T>(Receiver<T>);

/// The values that a receiver has yet to receive and that the channel
/// still holds for it, oldest first.
pub uninterp spec fn unread(receiver: Receiver<WaitPaymentResponse>) -> Seq<WaitPaymentView>;

/// How many values a receiver has lost by falling behind and has not been
/// told of yet.
pub uninterp spec fn missed(receiver: Receiver<WaitPaymentResponse>) -> nat;

/// How many values the channel of a sender holds for each receiver.
pub uninterp spec fn room(sender: Sender<WaitPaymentResponse>) -> nat;

/// How many receivers the channel of a sender has.
pub uninterp spec fn listeners(sender: Sender<WaitPaymentResponse>) -> nat;

/// Whether a receiver belongs to the channel of a sender.
pub uninterp spec fn feeds(
    sender: Sender<WaitPaymentResponse>,
    receiver: Receiver<WaitPaymentResponse>,
) -> bool;

/// Whether a number is a power of two.
pub open spec fn is_power_of_two(n: nat) -> bool
    decreases n,
{
    n == 1 || (n > 1 && n % 2 == 0 && is_power_of_two(n / 2))
}

/// What a subscriber holds after one more notice arrived: the notices it
/// held, without the oldest where it was full, and the new one.
pub open spec fn after_arrival(
    pending: Seq<WaitPaymentView>,
    capacity: nat,
    notice: WaitPaymentView,
) -> Seq<WaitPaymentView> {
    if pending.len() < capacity {
        pending.push(notice)
    } else {
        pending.drop_first().push(notice)
    }
}

/// What a subscriber holds after the notices of `arrived` came in, one
/// after the other.
pub open spec fn after_arrivals(
    pending: Seq<WaitPaymentView>,
    capacity: nat,
    arrived: Seq<WaitPaymentView>,
) -> Seq<WaitPaymentView>
    decreases arrived.len(),
{
    if arrived.len() == 0 {
        pending
    } else {
        after_arrival(
            after_arrivals(pending, capacity, arrived.drop_last()),
            capacity,
            arrived.last(),
        )
    }
}

/// A subscriber with room for all of them holds every notice that came
/// in, after what it held before and in the order of arrival.
pub proof fn lemma_room_for_all(
    pending: Seq<WaitPaymentView>,
    capacity: nat,
    arrived: Seq<WaitPaymentView>,
)
    requires
        pending.len() + arrived.len() <= capacity,
    ensures
        after_arrivals(pending, capacity, arrived) == pending + arrived,
    decreases arrived.len(),
{
    if arrived.len() > 0 {
        lemma_room_for_all(pending, capacity, arrived.drop_last());
        assert(pending + arrived =~= (pending + arrived.drop_last()).push(arrived.last()));
    } else {
        assert(pending + arrived =~= pending);
    }
}

/// What an attempt to receive gave.
enum Received {
    /// The oldest value that was yet to be received.
    Value(WaitPaymentResponse),
    /// Nothing: every value sent so far has been received.
    Empty,
    /// Nothing, and no sender is left.
    Closed,
    /// Nothing but the news that this many values were lost.
    Lagged(u64),
}

/// `tokio::sync::broadcast::channel`: a channel with one receiver that has
/// nothing to receive. The channel holds as many values for each receiver
/// as asked for, where that is a power of two.
#[verifier::external_body]
fn channel(capacity: usize) -> (ends: (Sender<WaitPaymentResponse>, Receiver<WaitPaymentResponse>))
    requires
        0 < capacity <= usize::MAX / 2,
    ensures
        listeners(ends.0) == 1,
        is_power_of_two(capacity as nat) ==> room(ends.0) == capacity,
        feeds(ends.0, ends.1),
        unread(ends.1) == Seq::<WaitPaymentView>::empty(),
        missed(ends.1) == 0,
{
    tokio::sync::broadcast::channel(capacity)
}

/// `Sender::subscribe`: one more receiver of the sender's channel, which
/// has nothing to receive, whatever was sent before.
#[verifier::external_body]
fn subscribe(sender: &mut Sender<WaitPaymentResponse>) -> (receiver: Receiver<WaitPaymentResponse>)
    requires
        listeners(*old(sender)) < MAX_SUBSCRIPTIONS,
    ensures
        listeners(*final(sender)) == listeners(*old(sender)) + 1,
        room(*final(sender)) == room(*old(sender)),
        forall|other: Receiver<WaitPaymentResponse>|
            feeds(*old(sender), other) ==> #[trigger] feeds(*final(sender), other),
        feeds(*final(sender), receiver),
        unread(receiver) == Seq::<WaitPaymentView>::empty(),
        missed(receiver) == 0,
{
    sender.subscribe()
}

/// `Receiver::try_recv`: tells a receiver that fell behind how many values
/// it lost, once; else hands it the oldest value that it has yet to
/// receive; else says that there is none.
#[verifier::external_body]
fn try_recv(receiver: &mut Receiver<WaitPaymentResponse>) -> (r: Received)
    ensures
        forall|sender: Sender<WaitPaymentResponse>|
            feeds(sender, *old(receiver)) ==> #[trigger] feeds(sender, *final(receiver)),
        missed(*final(receiver)) == 0,
        match r {
            Received::Lagged(lost) => {
                &&& missed(*old(receiver)) > 0
                &&& lost == missed(*old(receiver))
                &&& unread(*final(receiver)) == unread(*old(receiver))
            },
            Received::Value(value) => {
                &&& missed(*old(receiver)) == 0
                &&& unread(*old(receiver)).len() > 0
                &&& value@ == unread(*old(receiver))[0]
                &&& unread(*final(receiver)) == unread(*old(receiver)).drop_first()
            },
            _ => {
                &&& missed(*old(receiver)) == 0
                &&& unread(*old(receiver)).len() == 0
                &&& unread(*final(receiver)) == unread(*old(receiver))
            },
        },
{
    match receiver.try_recv() {
        Ok(value) => Received::Value(value),
        Err(TryRecvError::Empty) => Received::Empty,
        Err(TryRecvError::Closed) => Received::Closed,
        Err(TryRecvError::Lagged(lost)) => Received::Lagged(lost),
    }
}

/// A sender and the receivers of its channel: the one that the channel
/// was made with, which is never read, and those of the subscribers.
struct Hub {
    sender: Sender<WaitPaymentResponse>,
    idle: Receiver<WaitPaymentResponse>,
    receivers: Vec<Receiver<WaitPaymentResponse>>,
}

impl Hub {
    /// `Sender::send`: the value arrives at every receiver of the channel.
    /// A receiver for which the channel holds as many values as it has
    /// room for loses the oldest of them. The contract speaks of the
    /// subscribers' receivers; of the idle one it says nothing.
    #[verifier::external_body]
    fn send(&mut self, value: WaitPaymentResponse)
        requires
            forall|i: int|
                0 <= i < old(self).receivers@.len() ==> feeds(
                    old(self).sender,
                    #[trigger] old(self).receivers@[i],
                ),
        ensures
            final(self).sender == old(self).sender,
            final(self).receivers@.len() == old(self).receivers@.len(),
            forall|i: int|
                0 <= i < old(self).receivers@.len() ==> {
                    &&& feeds(final(self).sender, #[trigger] final(self).receivers@[i])
                    &&& unread(final(self).receivers@[i]) == after_arrival(
                        unread(old(self).receivers@[i]),
                        room(old(self).sender),
                        value@,
                    )
                    &&& missed(final(self).receivers@[i]) == missed(old(self).receivers@[i])
                        + if unread(old(self).receivers@[i]).len() < room(old(self).sender) {
                        0nat
                    } else {
                        1nat
                    }
                },
    {
        let _ = self.sender.send(value);
    }
}

/// What the channel knows of one subscription.
struct Subscription {
    open: bool,
    joined: Ghost<nat>,
}

/// The publishing point and its subscribers.
pub struct Broadcaster {
    hub: Hub,
    subscriptions: Vec<Subscription>,
    log: Ghost<Seq<WaitPaymentView>>,
}

impl Broadcaster {
    /// Every notice published so far, oldest first.
    pub closed spec fn log(&self) -> Seq<WaitPaymentView> {
        self.log@
    }

    /// How many notices a subscriber can hold.
    pub closed spec fn capacity(&self) -> nat {
        room(self.hub.sender)
    }

    /// How many subscriptions were opened so far; they are numbered from
    /// zero in the order of opening.
    pub closed spec fn subscriptions(&self) -> nat {
        self.subscriptions@.len()
    }

    /// Whether subscription `id` is open.
    pub closed spec fn is_open(&self, id: int) -> bool {
        0 <= id < self.subscriptions@.len() && self.subscriptions@[id].open
    }

    /// The notices that subscription `id` has yet to receive, oldest
    /// first; none for a subscription that is not open.
    pub closed spec fn pending(&self, id: int) -> Seq<WaitPaymentView> {
        if self.is_open(id) {
            unread(self.hub.receivers@[id])
        } else {
            Seq::empty()
        }
    }

    /// How many notices had been published when subscription `id` opened.
    pub closed spec fn joined(&self, id: int) -> nat {
        self.subscriptions@[id].joined@
    }

    /// The place in the log of the next notice that subscription `id`
    /// receives.
    pub closed spec fn position(&self, id: int) -> nat {
        (self.log@.len() - self.pending(id).len()) as nat
    }

    /// For each subscription, whether it is open.
    pub closed spec fn open_flags(&self) -> Seq<bool> {
        self.subscriptions@.map_values(|s: Subscription| s.open)
    }

    spec fn subscription_wf(&self, i: int) -> bool {
        let receiver = self.hub.receivers@[i];
        &&& feeds(self.hub.sender, receiver)
        &&& self.subscriptions@[i].open ==> {
            &&& unread(receiver).len() <= room(self.hub.sender)
            &&& unread(receiver).len() <= self.log@.len()
            &&& self.subscriptions@[i].joined@ <= self.log@.len() - unread(receiver).len()
            &&& unread(receiver) == self.log@.subrange(
                self.log@.len() - unread(receiver).len(),
                self.log@.len() as int,
            )
            &&& missed(receiver) > 0 ==> unread(receiver).len() == room(self.hub.sender)
        }
    }

    /// The invariant of the channel: it has room for at least one notice,
    /// and what an open subscription has yet to receive is the end of the
    /// log from its position on, which lies at or after the point at which
    /// it joined, and is no more than the capacity.
    pub closed spec fn wf(&self) -> bool {
        &&& room(self.hub.sender) > 0
        &&& self.hub.receivers@.len() == self.subscriptions@.len()
        &&& listeners(self.hub.sender) == self.subscriptions@.len() + 1
        &&& forall|i: int| 0 <= i < self.subscriptions@.len() ==> #[trigger] self.subscription_wf(i)
    }

    /// A subscription has yet to receive only what was published after
    /// it opened: the notices it holds are the end of the log from its
    /// position on, in the order of publication, and its position lies at
    /// or after the length that the log had when it opened.
    pub proof fn lemma_pending_is_end_of_log(&self, id: int)
        requires
            self.wf(),
            self.is_open(id),
        ensures
            self.pending(id).len() <= self.capacity(),
            self.joined(id) <= self.position(id),
            self.position(id) + self.pending(id).len() == self.log().len(),
            self.pending(id) == self.log().subrange(
                self.position(id) as int,
                self.log().len() as int,
            ),
            forall|k: int|
                0 <= k < self.pending(id).len() ==> self.joined(id) <= self.position(id) + k
                    < self.log().len() && #[trigger] self.pending(id)[k] == self.log()[self.position(
                    id,
                ) + k],
    {
        assert(self.subscription_wf(id));
    }

    /// What one publication does to the channel: the notice is added to
    /// the log and arrives at every open subscription; nothing else
    /// changes.
    pub open spec fn delivers(&self, after: &Broadcaster, notice: WaitPaymentView) -> bool {
        &&& after.wf()
        &&& after.log() == self.log().push(notice)
        &&& after.capacity() == self.capacity()
        &&& after.subscriptions() == self.subscriptions()
        &&& forall|id: int|
            #![trigger after.is_open(id)]
            #![trigger after.joined(id)]
            #![trigger after.pending(id)]
            0 <= id < self.subscriptions() ==> {
                &&& after.is_open(id) == self.is_open(id)
                &&& after.joined(id) == self.joined(id)
                &&& after.pending(id) == if self.is_open(id) {
                    after_arrival(self.pending(id), self.capacity(), notice)
                } else {
                    self.pending(id)
                }
            }
    }

    /// A channel without subscribers in which each subscriber can hold
    /// [`CHANNEL_CAPACITY`] notices.
    pub fn new() -> (channel: Self)
        ensures
            channel.wf(),
            channel.capacity() == CHANNEL_CAPACITY,
            channel.subscriptions() == 0,
            channel.log() == Seq::<WaitPaymentView>::empty(),
    {
        proof {
            reveal_with_fuel(is_power_of_two, 5);
            assert(is_power_of_two(CHANNEL_CAPACITY as nat));
        }
        let (sender, idle) = channel(CHANNEL_CAPACITY);
        Broadcaster {
            hub: Hub { sender, idle, receivers: Vec::new() },
            subscriptions: Vec::new(),
            log: Ghost(Seq::empty()),
        }
    }

    /// How many subscriptions were opened so far.
    pub fn subscription_count(&self) -> (count: usize)
        ensures
            count == self.subscriptions(),
    {
        self.subscriptions.len()
    }

    /// Opens a subscription and returns its number. It starts with nothing
    /// to receive, whatever was published before.
    pub fn subscribe(&mut self) -> (id: usize)
        requires
            old(self).wf(),
            old(self).subscriptions() + 1 < MAX_SUBSCRIPTIONS,
        ensures
            final(self).wf(),
            id == old(self).subscriptions(),
            final(self).subscriptions() == old(self).subscriptions() + 1,
            final(self).capacity() == old(self).capacity(),
            final(self).log() == old(self).log(),
            final(self).is_open(id as int),
            final(self).pending(id as int) == Seq::<WaitPaymentView>::empty(),
            final(self).joined(id as int) == old(self).log().len(),
            final(self).position(id as int) == old(self).log().len(),
            forall|other: int|
                0 <= other < old(self).subscriptions() ==> {
                    &&& final(self).is_open(other) == old(self).is_open(other)
                    &&& final(self).pending(other) == old(self).pending(other)
                    &&& final(self).joined(other) == old(self).joined(other)
                    &&& final(self).position(other) == old(self).position(other)
                },
    {
        let id = self.subscriptions.len();
        let ghost joined = self.log@.len();
        let receiver = subscribe(&mut self.hub.sender);
        self.hub.receivers.push(receiver);
        self.subscriptions.push(Subscription { open: true, joined: Ghost(joined) });
        proof {
            assert(unread(receiver) =~= self.log@.subrange(joined as int, joined as int));
            assert forall|i: int| 0 <= i < self.subscriptions@.len() implies #[trigger]
                self.subscription_wf(i) by {
                if i < id {
                    assert(old(self).subscription_wf(i));
                    assert(self.hub.receivers@[i] == old(self).hub.receivers@[i]);
                    assert(self.subscriptions@[i] == old(self).subscriptions@[i]);
                }
            }
            assert forall|other: int| 0 <= other < old(self).subscriptions() implies {
                &&& self.is_open(other) == old(self).is_open(other)
                &&& self.pending(other) == old(self).pending(other)
                &&& self.joined(other) == old(self).joined(other)
                &&& self.position(other) == old(self).position(other)
            } by {
                assert(self.hub.receivers@[other] == old(self).hub.receivers@[other]);
                assert(self.subscriptions@[other] == old(self).subscriptions@[other]);
            }
        }
        id
    }

    /// Whether subscription `id` is open.
    pub fn is_subscribed(&self, id: usize) -> (open: bool)
        ensures
            open == self.is_open(id as int),
    {
        id < self.subscriptions.len() && self.subscriptions[id].open
    }

    fn count_open(&self) -> (count: usize)
        ensures
            count == count_set(self.open_flags()),
    {
        let ghost flags = self.open_flags();
        let mut count: usize = 0;
        let mut i: usize = 0;
        while i < self.subscriptions.len()
            invariant
                i <= self.subscriptions@.len(),
                count <= i,
                flags == self.open_flags(),
                count == count_set(flags.take(i as int)),
            decreases self.subscriptions@.len() - i,
        {
            proof {
                assert(flags.take(i + 1).drop_last() =~= flags.take(i as int));
                assert(flags.take(i + 1).last() == self.subscriptions@[i as int].open);
            }
            if self.subscriptions[i].open {
                count = count + 1;
            }
            i = i + 1;
        }
        proof {
            assert(flags.take(flags.len() as int) =~= flags);
        }
        count
    }

    /// Publishes a notice to every open subscription and returns how many
    /// there are. A subscription that is full loses its oldest notice.
    pub fn publish(&mut self, notice: &WaitPaymentResponse) -> (receivers: usize)
        requires
            old(self).wf(),
        ensures
            old(self).delivers(final(self), notice@),
            receivers == count_set(old(self).open_flags()),
    {
        let receivers = self.count_open();
        let ghost log = self.log@;
        proof {
            assert forall|i: int| 0 <= i < self.hub.receivers@.len() implies feeds(
                self.hub.sender,
                #[trigger] self.hub.receivers@[i],
            ) by {
                assert(self.subscription_wf(i));
            }
        }
        self.hub.send(notice.clone());
        self.log = Ghost(log.push(notice@));
        proof {
            let capacity = room(self.hub.sender);
            let extended = log.push(notice@);
            assert forall|i: int| 0 <= i < self.subscriptions@.len() implies #[trigger]
                self.subscription_wf(i) by {
                assert(old(self).subscription_wf(i));
                let before = unread(old(self).hub.receivers@[i]);
                let after = unread(self.hub.receivers@[i]);
                assert(after == after_arrival(before, capacity, notice@));
                if self.subscriptions@[i].open {
                    assert(after =~= extended.subrange(
                        extended.len() - after.len(),
                        extended.len() as int,
                    ));
                }
            }
            assert forall|id: int|
                #![trigger self.is_open(id)]
                #![trigger self.joined(id)]
                #![trigger self.pending(id)]
                0 <= id < old(self).subscriptions() implies {
                &&& self.is_open(id) == old(self).is_open(id)
                &&& self.joined(id) == old(self).joined(id)
                &&& self.pending(id) == if old(self).is_open(id) {
                    after_arrival(old(self).pending(id), old(self).capacity(), notice@)
                } else {
                    old(self).pending(id)
                }
            } by {
                assert(old(self).subscription_wf(id));
                assert(unread(self.hub.receivers@[id]) == after_arrival(
                    unread(old(self).hub.receivers@[id]),
                    capacity,
                    notice@,
                ));
            }
        }
        receivers
    }

    /// Hands subscription `id` its oldest notice that it has yet to
    /// receive. There is none for a subscription that is not open or has
    /// received everything.
    pub fn receive(&mut self, id: usize) -> (notice: Option<WaitPaymentResponse>)
        requires
            old(self).wf(),
        ensures
            final(self).wf(),
            final(self).log() == old(self).log(),
            final(self).capacity() == old(self).capacity(),
            final(self).subscriptions() == old(self).subscriptions(),
            forall|other: int|
                0 <= other < old(self).subscriptions() ==> {
                    &&& final(self).is_open(other) == old(self).is_open(other)
                    &&& final(self).joined(other) == old(self).joined(other)
                    &&& other != id ==> final(self).pending(other) == old(self).pending(other)
                        && final(self).position(other) == old(self).position(other)
                },
            match notice {
                Some(received) => {
                    &&& old(self).is_open(id as int)
                    &&& old(self).pending(id as int).len() > 0
                    &&& received@ == old(self).pending(id as int)[0]
                    &&& final(self).pending(id as int) == old(self).pending(id as int).drop_first()
                    &&& final(self).position(id as int) == old(self).position(id as int) + 1
                    &&& old(self).joined(id as int) <= old(self).position(id as int)
                        < old(self).log().len()
                    &&& received@ == old(self).log()[old(self).position(id as int) as int]
                },
                None => {
                    &&& old(self).is_open(id as int) ==> old(self).pending(id as int).len() == 0
                    &&& 0 <= id < old(self).subscriptions() ==> final(self).pending(id as int)
                        == old(self).pending(id as int) && final(self).position(id as int) == old(
                        self,
                    ).position(id as int)
                },
            },
    {
        if id >= self.subscriptions.len() || !self.subscriptions[id].open {
            return None;
        }
        proof {
            assert(self.subscription_wf(id as int));
        }
        let ghost held = unread(self.hub.receivers@[id as int]);
        let first = try_recv(&mut self.hub.receivers[id]);
        let notice = match first {
            Received::Value(value) => Some(value),
            Received::Lagged(_) => match try_recv(&mut self.hub.receivers[id]) {
                Received::Value(value) => Some(value),
                _ => None,
            },
            _ => None,
        };
        proof {
            let after = unread(self.hub.receivers@[id as int]);
            assert(notice is Some ==> after =~= held.drop_first());
            assert(notice is None ==> after == held && held.len() == 0);
            assert forall|i: int| 0 <= i < self.subscriptions@.len() implies #[trigger]
                self.subscription_wf(i) by {
                assert(old(self).subscription_wf(i));
                if i != id {
                    assert(self.hub.receivers@[i] == old(self).hub.receivers@[i]);
                } else if notice is Some {
                    assert(after =~= self.log@.subrange(
                        self.log@.len() - after.len(),
                        self.log@.len() as int,
                    ));
                }
            }
            assert forall|other: int| 0 <= other < old(self).subscriptions() implies {
                &&& self.is_open(other) == old(self).is_open(other)
                &&& self.joined(other) == old(self).joined(other)
                &&& other != id ==> self.pending(other) == old(self).pending(other)
                    && self.position(other) == old(self).position(other)
            } by {
                if other != id {
                    assert(self.hub.receivers@[other] == old(self).hub.receivers@[other]);
                }
            }
            if notice is Some {
                assert(held[0] == self.log@[self.log@.len() - held.len()]);
            }
        }
        notice
    }

    /// Closes subscription `id`. What it had yet to receive is dropped.
    pub fn unsubscribe(&mut self, id: usize)
        requires
            old(self).wf(),
        ensures
            final(self).wf(),
            final(self).log() == old(self).log(),
            final(self).capacity() == old(self).capacity(),
            final(self).subscriptions() == old(self).subscriptions(),
            !final(self).is_open(id as int),
            forall|other: int|
                0 <= other < old(self).subscriptions() && other != id ==> {
                    &&& final(self).is_open(other) == old(self).is_open(other)
                    &&& final(self).joined(other) == old(self).joined(other)
                    &&& final(self).pending(other) == old(self).pending(other)
                    &&& final(self).position(other) == old(self).position(other)
                },
    {
        if id < self.subscriptions.len() {
            self.subscriptions[id].open = false;
            proof {
                assert forall|i: int| 0 <= i < self.subscriptions@.len() implies #[trigger]
                    self.subscription_wf(i) by {
                    assert(old(self).subscription_wf(i));
                    if i != id {
                        assert(self.subscriptions@[i] == old(self).subscriptions@[i]);
                    }
                }
                assert forall|other: int|
                    0 <= other < old(self).subscriptions() && other != id implies {
                    &&& self.is_open(other) == old(self).is_open(other)
                    &&& self.joined(other) == old(self).joined(other)
                    &&& self.pending(other) == old(self).pending(other)
                    &&& self.position(other) == old(self).position(other)
                } by {
                    assert(self.subscriptions@[other] == old(self).subscriptions@[other]);
                }
            }
        }
    }
}

} // verus!
