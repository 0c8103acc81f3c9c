//! Start and stop of the bridge.
//!
//! The coordinator keeps the state of three cancellations, that of the
//! event loop, of the management service and of the wait for incoming
//! payments, together with the flag that says whether such a wait is in
//! progress, and decides what the runtime is to do at each step.

use vstd::prelude::*;

verus! {

/// How far the bridge has come.
#[derive(Debug, Clone, Copy, PartialEq, Eq, Structural)]
pub enum Phase {
    /// Made, and not started yet.
    Created,
    /// Started.
    Running,
    /// Stopped.
    Stopped,
}

/// What the runtime is to do to stop the bridge, in this order. A step is
/// asked for only where it has not been done before.
#[derive(Debug, Clone, Copy, PartialEq, Eq)]
pub struct StopPlan {
    /// Cancel the event loop.
    pub cancel_events: bool,
    /// Cancel the management service.
    pub cancel_management: bool,
    /// Cancel the wait for incoming payments.
    pub cancel_wait_invoice: bool,
    /// Ask the node to stop.
    pub stop_node: bool,
}

/// The state of the bridge's lifecycle, as a mathematical value.
pub struct Lifecycle {
    /// How far the bridge has come.
    pub phase: Phase,
    /// Whether the event loop has been cancelled.
    pub events_cancelled: bool,
    /// Whether the management service has been cancelled.
    pub management_cancelled: bool,
    /// Whether the wait for incoming payments has been cancelled.
    pub wait_invoice_cancelled: bool,
    /// Whether a wait for incoming payments is in progress.
    pub wait_invoice_active: bool,
}

impl Lifecycle {
    /// The invariant: once the bridge has stopped, the event loop and the
    /// management service are cancelled.
    pub open spec fn wf(self) -> bool {
        self.phase == Phase::Stopped ==> self.events_cancelled && self.management_cancelled
    }

    /// The state of a bridge that has not started.
    pub open spec fn created() -> Lifecycle {
        Lifecycle {
            phase: Phase::Created,
            events_cancelled: false,
            management_cancelled: false,
            wait_invoice_cancelled: false,
            wait_invoice_active: false,
        }
    }

    /// The state after a start: running where the node has started, as
    /// before where it has not.
    pub open spec fn started(self, node_started: bool) -> Lifecycle {
        if node_started {
            Lifecycle { phase: Phase::Running, ..self }
        } else {
            self
        }
    }

    /// The state after the management service was told to stop.
    pub open spec fn management_stopped(self) -> Lifecycle {
        Lifecycle { management_cancelled: true, ..self }
    }

    /// The state after a wait for incoming payments was opened: a wait is
    /// in progress, whatever the state before.
    pub open spec fn wait_opened(self) -> Lifecycle {
        Lifecycle { wait_invoice_active: true, ..self }
    }

    /// The state after the wait for incoming payments was cancelled.
    pub open spec fn wait_cancelled(self) -> Lifecycle {
        Lifecycle { wait_invoice_cancelled: true, ..self }
    }

    /// The state after the task that watches the cancellation of the wait
    /// has run: no wait is in progress once the wait is cancelled.
    pub open spec fn watched(self) -> Lifecycle {
        if self.wait_invoice_cancelled {
            Lifecycle { wait_invoice_active: false, ..self }
        } else {
            self
        }
    }

    /// The state after a stop: stopped, the event loop and the management
    /// service cancelled, and the wait cancelled where one was in
    /// progress, so that none is any more.
    pub open spec fn stopped(self) -> Lifecycle {
        Lifecycle {
            phase: Phase::Stopped,
            events_cancelled: true,
            management_cancelled: true,
            wait_invoice_cancelled: self.wait_invoice_cancelled || self.wait_invoice_active,
            wait_invoice_active: false,
        }
    }

    /// What a stop asks of the runtime: to cancel the event loop and the
    /// management service where they are not cancelled yet, to cancel the
    /// wait for incoming payments where one is in progress and not
    /// cancelled yet, and to stop the node where it runs.
    pub open spec fn stop_plan(self) -> StopPlan {
        StopPlan {
            cancel_events: !self.events_cancelled,
            cancel_management: !self.management_cancelled,
            cancel_wait_invoice: self.wait_invoice_active && !self.wait_invoice_cancelled,
            stop_node: self.phase == Phase::Running,
        }
    }

    /// A plan that asks for nothing.
    pub open spec fn nothing_to_do() -> StopPlan {
        StopPlan {
            cancel_events: false,
            cancel_management: false,
            cancel_wait_invoice: false,
            stop_node: false,
        }
    }

    /// Cancelling the wait for incoming payments ends every wait in
    /// progress within one run of the watching task, whatever the state
    /// before and whether or not anything was ever published; and no wait
    /// opened later outlasts the next run of that task.
    pub proof fn lemma_cancel_ends_wait(self)
        ensures
            !self.wait_cancelled().watched().wait_invoice_active,
            !self.wait_cancelled().wait_opened().watched().wait_invoice_active,
            !self.wait_cancelled().watched().wait_opened().watched().wait_invoice_active,
    {
    }

    /// A stop leaves the bridge stopped, with the event loop and the
    /// management service cancelled and no wait in progress, whatever the
    /// state before.
    pub proof fn lemma_stop_leaves_nothing_running(self)
        ensures
            self.stopped().wf(),
            self.stopped().phase == Phase::Stopped,
            self.stopped().events_cancelled,
            self.stopped().management_cancelled,
            !self.stopped().wait_invoice_active,
    {
    }

    /// A second stop changes nothing and asks nothing of the runtime: no
    /// cancellation is repeated and the node is not asked to stop again.
    pub proof fn lemma_stop_is_idempotent(self)
        ensures
            self.stopped().stopped() == self.stopped(),
            self.stopped().stop_plan() == Self::nothing_to_do(),
    {
    }

    /// The flag says whether a wait is live: it is up from the opening of
    /// a wait, on a bridge in any state, and stays up through everything
    /// but a stop or a run of the watching task after the wait's
    /// cancellation.
    pub proof fn lemma_flag_follows_wait(self, node_started: bool)
        ensures
            self.wait_opened().wait_invoice_active,
            self.stopped().wait_opened().wait_invoice_active,
            self.wait_opened().started(node_started).wait_invoice_active,
            self.wait_opened().management_stopped().wait_invoice_active,
            self.wait_opened().wait_cancelled().wait_invoice_active,
            !self.wait_invoice_cancelled ==> self.wait_opened().watched().wait_invoice_active,
            !self.wait_opened().wait_cancelled().watched().wait_invoice_active,
            !self.wait_opened().stopped().wait_invoice_active,
            !Self::created().wait_invoice_active,
    {
    }

    /// Every step keeps the invariant.
    pub proof fn lemma_steps_keep_invariant(self, node_started: bool)
        requires
            self.wf(),
        ensures
            Self::created().wf(),
            self.started(node_started).wf(),
            self.management_stopped().wf(),
            self.wait_opened().wf(),
            self.wait_cancelled().wf(),
            self.watched().wf(),
            self.stopped().wf(),
    {
    }
}

/// The coordinator of the bridge's lifecycle.
#[derive(Debug, Clone, Copy)]
pub struct Coordinator {
    phase: Phase,
    events_cancelled: bool,
    management_cancelled: bool,
    wait_invoice_cancelled: bool,
    wait_invoice_active: bool,
}

impl View for Coordinator {
    type V = Lifecycle;

    closed spec fn view(&self) -> Lifecycle {
        Lifecycle {
            phase: self.phase,
            events_cancelled: self.events_cancelled,
            management_cancelled: self.management_cancelled,
            wait_invoice_cancelled: self.wait_invoice_cancelled,
            wait_invoice_active: self.wait_invoice_active,
        }
    }
}

impl Coordinator {
    /// The coordinator of a bridge that has not started: nothing is
    /// cancelled and no wait is in progress.
    pub fn new() -> (coordinator: Self)
        ensures
            coordinator@ == Lifecycle::created(),
            coordinator@.wf(),
    {
        Coordinator {
            phase: Phase::Created,
            events_cancelled: false,
            management_cancelled: false,
            wait_invoice_cancelled: false,
            wait_invoice_active: false,
        }
    }

    /// Records the start of the node and says whether the event loop is to
    /// be started: it is where the node has started.
    pub fn start(&mut self, node_started: bool) -> (start_event_loop: bool)
        requires
            old(self)@.wf(),
        ensures
            final(self)@ == old(self)@.started(node_started),
            final(self)@.wf(),
            start_event_loop == node_started,
    {
        if node_started {
            self.phase = Phase::Running;
        }
        node_started
    }

    /// Tells the management service to stop. Returns whether its
    /// cancellation is still to be made.
    pub fn stop_management_service(&mut self) -> (cancel: bool)
        requires
            old(self)@.wf(),
        ensures
            final(self)@ == old(self)@.management_stopped(),
            final(self)@.wf(),
            cancel == !old(self)@.management_cancelled,
    {
        let cancel = !self.management_cancelled;
        self.management_cancelled = true;
        cancel
    }

    /// Stops the bridge and says what the runtime is to do for it.
    pub fn stop(&mut self) -> (plan: StopPlan)
        requires
            old(self)@.wf(),
        ensures
            final(self)@ == old(self)@.stopped(),
            final(self)@.wf(),
            plan == old(self)@.stop_plan(),
    {
        let plan = StopPlan {
            cancel_events: !self.events_cancelled,
            cancel_management: !self.management_cancelled,
            cancel_wait_invoice: self.wait_invoice_active && !self.wait_invoice_cancelled,
            stop_node: self.phase == Phase::Running,
        };
        let cancelled = self.wait_invoice_cancelled || self.wait_invoice_active;
        self.wait_invoice_active = false;
        self.wait_invoice_cancelled = cancelled;
        self.events_cancelled = true;
        self.management_cancelled = true;
        self.phase = Phase::Stopped;
        plan
    }

    /// Records that a wait for incoming payments was opened: one is in
    /// progress from now on.
    pub fn wait_any_incoming_payment(&mut self)
        requires
            old(self)@.wf(),
        ensures
            final(self)@ == old(self)@.wait_opened(),
            final(self)@.wf(),
    {
        self.wait_invoice_active = true;
    }

    /// Whether a wait for incoming payments is in progress.
    pub fn is_wait_invoice_active(&self) -> (active: bool)
        ensures
            active == self@.wait_invoice_active,
    {
        self.wait_invoice_active
    }

    /// Cancels the wait for incoming payments. The wait ends when the
    /// watching task runs next (see [`Coordinator::wait_invoice_watched`]).
    pub fn cancel_wait_invoice(&mut self)
        requires
            old(self)@.wf(),
        ensures
            final(self)@ == old(self)@.wait_cancelled(),
            final(self)@.wf(),
    {
        self.wait_invoice_cancelled = true;
    }

    /// One run of the task that watches the cancellation of the wait for
    /// incoming payments: where the wait is cancelled, none is in progress
    /// any more.
    pub fn wait_invoice_watched(&mut self)
        requires
            old(self)@.wf(),
        ensures
            final(self)@ == old(self)@.watched(),
            final(self)@.wf(),
    {
        if self.wait_invoice_cancelled {
            self.wait_invoice_active = false;
        }
    }

    /// Whether the event loop has been cancelled.
    pub fn is_events_cancelled(&self) -> (cancelled: bool)
        ensures
            cancelled == self@.events_cancelled,
    {
        self.events_cancelled
    }

    /// Whether the management service has been cancelled.
    pub fn is_management_cancelled(&self) -> (cancelled: bool)
        ensures
            cancelled == self@.management_cancelled,
    {
        self.management_cancelled
    }

    /// Whether the wait for incoming payments has been cancelled.
    pub fn is_wait_invoice_cancelled(&self) -> (cancelled: bool)
        ensures
            cancelled == self@.wait_invoice_cancelled,
    {
        self.wait_invoice_cancelled
    }

    /// Whether the bridge has stopped.
    pub fn is_stopped(&self) -> (stopped: bool)
        ensures
            stopped == (self@.phase == Phase::Stopped),
    {
        self.phase == Phase::Stopped
    }
}

} // verus!
