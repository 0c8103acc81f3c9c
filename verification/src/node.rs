//! The bridge between the node and the mint: the lifecycle, the event
//! loop and the channel of notices as one value.

use crate::broadcast::{after_arrivals, Broadcaster, CHANNEL_CAPACITY, MAX_SUBSCRIPTIONS};
use crate::events::{
    acknowledged, acknowledges, discard_of, next_state, notice_of, published, state_after,
    EventLoop, LoopState, Reaction, Signal,
};
use crate::lifecycle::{Coordinator, Lifecycle, StopPlan};
use crate::mint::{get_payment_quote, payment_quote_spec, OutgoingPaymentOptions};
use crate::payment::{
    PaymentDetails, PaymentError, PaymentQuoteResponse, WaitPaymentResponse, WaitPaymentView,
};
use crate::units::CurrencyUnit;
use vstd::prelude::*;

verus! {

/// The bridge.
pub struct CdkLdkNode {
    min_fee_reserve: u64,
    coordinator: Coordinator,
    event_loop: EventLoop,
    channel: Broadcaster,
}

impl CdkLdkNode {
    /// The least fee that is reserved for an outgoing payment.
    pub closed spec fn min_fee_reserve(&self) -> u64 {
        self.min_fee_reserve
    }

    /// The state of the lifecycle.
    pub closed spec fn lifecycle(&self) -> Lifecycle {
        self.coordinator@
    }

    /// The state of the event loop.
    pub closed spec fn loop_state(&self) -> LoopState {
        self.event_loop.state()
    }

    /// The channel of notices.
    pub closed spec fn channel(&self) -> Broadcaster {
        self.channel
    }

    /// The invariant of the bridge: those of its lifecycle and of its
    /// channel, in which every subscriber has room for
    /// [`CHANNEL_CAPACITY`] notices.
    pub open spec fn wf(&self) -> bool {
        &&& self.lifecycle().wf()
        &&& self.channel().wf()
        &&& self.channel().capacity() == CHANNEL_CAPACITY
    }

    /// A bridge that has not started, with an event loop that is ready to
    /// run and a channel without subscribers.
    pub fn new(min_fee_reserve: u64) -> (bridge: Self)
        ensures
            bridge.wf(),
            bridge.min_fee_reserve() == min_fee_reserve,
            bridge.lifecycle() == Lifecycle::created(),
            bridge.loop_state() == LoopState::Running,
            bridge.channel().capacity() == CHANNEL_CAPACITY,
            bridge.channel().subscriptions() == 0,
            bridge.channel().log() == Seq::<WaitPaymentView>::empty(),
    {
        CdkLdkNode {
            min_fee_reserve,
            coordinator: Coordinator::new(),
            event_loop: EventLoop::new(),
            channel: Broadcaster::new(),
        }
    }

    /// Records the start of the node and says whether the event loop is to
    /// be started: it is where the node has started.
    pub fn start(&mut self, node_started: bool) -> (start_event_loop: bool)
        requires
            old(self).wf(),
        ensures
            final(self).wf(),
            final(self).lifecycle() == old(self).lifecycle().started(node_started),
            start_event_loop == node_started,
            final(self).loop_state() == old(self).loop_state(),
            final(self).channel() == old(self).channel(),
            final(self).min_fee_reserve() == old(self).min_fee_reserve(),
    {
        self.coordinator.start(node_started)
    }

    /// Tells the management service to stop. Returns whether its
    /// cancellation is still to be made.
    pub fn stop_management_service(&mut self) -> (cancel: bool)
        requires
            old(self).wf(),
        ensures
            final(self).wf(),
            final(self).lifecycle() == old(self).lifecycle().management_stopped(),
            cancel == !old(self).lifecycle().management_cancelled,
            final(self).loop_state() == old(self).loop_state(),
            final(self).channel() == old(self).channel(),
            final(self).min_fee_reserve() == old(self).min_fee_reserve(),
    {
        self.coordinator.stop_management_service()
    }

    /// Stops the bridge and says what the runtime is to do for it. The
    /// event loop ends when it takes its cancellation.
    pub fn stop(&mut self) -> (plan: StopPlan)
        requires
            old(self).wf(),
        ensures
            final(self).wf(),
            final(self).lifecycle() == old(self).lifecycle().stopped(),
            plan == old(self).lifecycle().stop_plan(),
            final(self).loop_state() == old(self).loop_state(),
            final(self).channel() == old(self).channel(),
            final(self).min_fee_reserve() == old(self).min_fee_reserve(),
    {
        self.coordinator.stop()
    }

    /// Takes one signal of the event loop: ends the loop on cancellation;
    /// publishes the notice of a received payment for which there is one;
    /// asks for the acknowledgement of every event taken while the loop
    /// runs.
    pub fn handle_event(&mut self, signal: &Signal, payments: &Vec<PaymentDetails>) -> (reaction:
        Reaction)
        requires
            old(self).wf(),
        ensures
            final(self).wf(),
            final(self).loop_state() == next_state(old(self).loop_state(), *signal),
            reaction.acknowledge == acknowledges(old(self).loop_state(), *signal),
            reaction.discarded == discard_of(old(self).loop_state(), *signal, payments@),
            match notice_of(old(self).loop_state(), *signal, payments@) {
                Some(notice) => reaction.published && old(self).channel().delivers(
                    &final(self).channel(),
                    notice,
                ),
                None => !reaction.published && final(self).channel() == old(self).channel(),
            },
            final(self).lifecycle() == old(self).lifecycle(),
            final(self).min_fee_reserve() == old(self).min_fee_reserve(),
    {
        self.event_loop.step(signal, payments, &mut self.channel)
    }

    /// Takes the signals of `signals`, in order, and returns how many of
    /// them are to be acknowledged to the node. Every open subscription
    /// receives the notices published, in order of publication.
    pub fn handle_events(&mut self, signals: &Vec<Signal>, payments: &Vec<PaymentDetails>) -> (acknowledgements:
        usize)
        requires
            old(self).wf(),
        ensures
            final(self).wf(),
            final(self).loop_state() == state_after(old(self).loop_state(), signals@),
            acknowledgements == acknowledged(old(self).loop_state(), signals@),
            final(self).channel().log() == old(self).channel().log() + published(
                old(self).loop_state(),
                signals@,
                payments@,
            ),
            final(self).channel().capacity() == old(self).channel().capacity(),
            final(self).channel().subscriptions() == old(self).channel().subscriptions(),
            forall|id: int|
                #![trigger final(self).channel().is_open(id)]
                #![trigger final(self).channel().joined(id)]
                #![trigger final(self).channel().pending(id)]
                0 <= id < old(self).channel().subscriptions() ==> {
                    &&& final(self).channel().is_open(id) == old(self).channel().is_open(id)
                    &&& final(self).channel().joined(id) == old(self).channel().joined(id)
                    &&& final(self).channel().pending(id) == if old(self).channel().is_open(id) {
                        after_arrivals(
                            old(self).channel().pending(id),
                            old(self).channel().capacity(),
                            published(old(self).loop_state(), signals@, payments@),
                        )
                    } else {
                        old(self).channel().pending(id)
                    }
                },
            final(self).lifecycle() == old(self).lifecycle(),
            final(self).min_fee_reserve() == old(self).min_fee_reserve(),
    {
        self.event_loop.run(signals, payments, &mut self.channel)
    }

    /// Opens a wait for incoming payments: a subscription to the channel,
    /// which starts with nothing to receive, whatever was published
    /// before. Returns its number. A wait is in progress from now on.
    pub fn wait_any_incoming_payment(&mut self) -> (id: usize)
        requires
            old(self).wf(),
            old(self).channel().subscriptions() + 1 < MAX_SUBSCRIPTIONS,
        ensures
            final(self).wf(),
            final(self).lifecycle() == old(self).lifecycle().wait_opened(),
            id == old(self).channel().subscriptions(),
            final(self).channel().subscriptions() == old(self).channel().subscriptions() + 1,
            final(self).channel().capacity() == old(self).channel().capacity(),
            final(self).channel().log() == old(self).channel().log(),
            final(self).channel().is_open(id as int),
            final(self).channel().pending(id as int) == Seq::<WaitPaymentView>::empty(),
            final(self).channel().joined(id as int) == old(self).channel().log().len(),
            final(self).channel().position(id as int) == old(self).channel().log().len(),
            forall|other: int|
                0 <= other < old(self).channel().subscriptions() ==> {
                    &&& final(self).channel().is_open(other) == old(self).channel().is_open(other)
                    &&& final(self).channel().pending(other) == old(self).channel().pending(other)
                    &&& final(self).channel().joined(other) == old(self).channel().joined(other)
                    &&& final(self).channel().position(other) == old(self).channel().position(
                        other,
                    )
                },
            final(self).loop_state() == old(self).loop_state(),
            final(self).min_fee_reserve() == old(self).min_fee_reserve(),
    {
        self.coordinator.wait_any_incoming_payment();
        self.channel.subscribe()
    }

    /// Hands subscription `id` its oldest notice that it has yet to
    /// receive, if there is one. Every notice it receives was published
    /// after it was opened.
    pub fn next_incoming_payment(&mut self, id: usize) -> (notice: Option<WaitPaymentResponse>)
        requires
            old(self).wf(),
        ensures
            final(self).wf(),
            final(self).channel().log() == old(self).channel().log(),
            final(self).channel().capacity() == old(self).channel().capacity(),
            final(self).channel().subscriptions() == old(self).channel().subscriptions(),
            forall|other: int|
                0 <= other < old(self).channel().subscriptions() ==> {
                    &&& final(self).channel().is_open(other) == old(self).channel().is_open(other)
                    &&& final(self).channel().joined(other) == old(self).channel().joined(other)
                    &&& other != id ==> final(self).channel().pending(other) == old(self).channel().pending(other) && final(self).channel().position(other) == old(self).channel().position(other)
                },
            match notice {
                Some(received) => {
                    &&& old(self).channel().is_open(id as int)
                    &&& old(self).channel().pending(id as int).len() > 0
                    &&& received@ == old(self).channel().pending(id as int)[0]
                    &&& final(self).channel().pending(id as int) == old(self).channel().pending(
                        id as int,
                    ).drop_first()
                    &&& final(self).channel().position(id as int) == old(self).channel().position(
                        id as int,
                    ) + 1
                    &&& old(self).channel().joined(id as int) <= old(self).channel().position(
                        id as int,
                    ) < old(self).channel().log().len()
                    &&& received@ == old(self).channel().log()[old(self).channel().position(
                        id as int,
                    ) as int]
                },
                None => {
                    &&& old(self).channel().is_open(id as int) ==> old(self).channel().pending(
                        id as int,
                    ).len() == 0
                    &&& 0 <= id < old(self).channel().subscriptions() ==> final(self).channel().pending(id as int) == old(self).channel().pending(id as int)
                        && final(self).channel().position(id as int) == old(self).channel().position(id as int)
                },
            },
            final(self).lifecycle() == old(self).lifecycle(),
            final(self).loop_state() == old(self).loop_state(),
            final(self).min_fee_reserve() == old(self).min_fee_reserve(),
    {
        self.channel.receive(id)
    }

    /// Closes subscription `id`. What it had yet to receive is dropped.
    pub fn close_incoming_payments(&mut self, id: usize)
        requires
            old(self).wf(),
        ensures
            final(self).wf(),
            final(self).channel().log() == old(self).channel().log(),
            final(self).channel().capacity() == old(self).channel().capacity(),
            final(self).channel().subscriptions() == old(self).channel().subscriptions(),
            !final(self).channel().is_open(id as int),
            forall|other: int|
                0 <= other < old(self).channel().subscriptions() && other != id ==> {
                    &&& final(self).channel().is_open(other) == old(self).channel().is_open(other)
                    &&& final(self).channel().joined(other) == old(self).channel().joined(other)
                    &&& final(self).channel().pending(other) == old(self).channel().pending(other)
                    &&& final(self).channel().position(other) == old(self).channel().position(
                        other,
                    )
                },
            final(self).lifecycle() == old(self).lifecycle(),
            final(self).loop_state() == old(self).loop_state(),
            final(self).min_fee_reserve() == old(self).min_fee_reserve(),
    {
        self.channel.unsubscribe(id)
    }

    /// How many waits for incoming payments were opened so far.
    pub fn subscription_count(&self) -> (count: usize)
        ensures
            count == self.channel().subscriptions(),
    {
        self.channel.subscription_count()
    }

    /// Whether a wait for incoming payments is in progress.
    pub fn is_wait_invoice_active(&self) -> (active: bool)
        ensures
            active == self.lifecycle().wait_invoice_active,
    {
        self.coordinator.is_wait_invoice_active()
    }

    /// Cancels the wait for incoming payments. The wait ends when the
    /// watching task runs next (see [`CdkLdkNode::wait_invoice_watched`]).
    pub fn cancel_wait_invoice(&mut self)
        requires
            old(self).wf(),
        ensures
            final(self).wf(),
            final(self).lifecycle() == old(self).lifecycle().wait_cancelled(),
            final(self).loop_state() == old(self).loop_state(),
            final(self).channel() == old(self).channel(),
            final(self).min_fee_reserve() == old(self).min_fee_reserve(),
    {
        self.coordinator.cancel_wait_invoice()
    }

    /// One run of the task that watches the cancellation of the wait for
    /// incoming payments: where the wait is cancelled, none is in progress
    /// any more.
    pub fn wait_invoice_watched(&mut self)
        requires
            old(self).wf(),
        ensures
            final(self).wf(),
            final(self).lifecycle() == old(self).lifecycle().watched(),
            final(self).loop_state() == old(self).loop_state(),
            final(self).channel() == old(self).channel(),
            final(self).min_fee_reserve() == old(self).min_fee_reserve(),
    {
        self.coordinator.wait_invoice_watched()
    }

    /// Whether the event loop still takes events.
    pub fn is_handling_events(&self) -> (running: bool)
        ensures
            running == (self.loop_state() == LoopState::Running),
    {
        self.event_loop.is_running()
    }

    /// Quotes a request to pay, with this bridge's least fee.
    ///
    /// `relative_fee_reserve` is the percentage share of the quoted
    /// amount, truncated toward zero.
    pub fn get_payment_quote(
        &self,
        unit: &CurrencyUnit,
        options: &OutgoingPaymentOptions,
        relative_fee_reserve: u64,
    ) -> (r: Result<PaymentQuoteResponse, PaymentError>)
        ensures
            match (
                r,
                payment_quote_spec(
                    unit@,
                    *options,
                    self.min_fee_reserve(),
                    relative_fee_reserve,
                ),
            ) {
                (Ok(quote), Ok(expected)) => quote@ == expected,
                (Err(e), Err(expected)) => e == expected,
                _ => false,
            },
    {
        get_payment_quote(unit, options, self.min_fee_reserve, relative_fee_reserve)
    }
}

} // verus!
