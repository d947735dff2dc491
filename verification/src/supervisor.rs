//! The bookkeeping by which a runtime supervises its workers.
//!
//! A runtime launches workers on threads, some of them from a respawnable context.
//! The threads themselves are spawned, observed and joined by the caller; the
//! [`Supervisor`] holds their handles and decides, step by step, what becomes of
//! them: when the runtime stops, which handle is to be joined, which worker is to
//! be respawned and which ones are kept.
//!
//! `H` is the type of a thread handle and `C` the type of a respawnable context.

use crate::error::Error;
use crate::shutdown::{Shutdown, StopSwitch};
use vstd::prelude::*;

verus! {

/// What the supervisor holds of one respawnable worker.
pub enum SlotState<H> {
    /// The worker runs, or ran, on the thread of this handle.
    Live(H),
    /// The worker's thread finished; its handle was handed out to be joined.
    Joining,
    /// The worker panicked; it is to be respawned from its context.
    Respawning,
    /// No thread runs the worker.
    Vacant,
}

/// A respawnable worker: its state and the context it is built from.
pub struct Slot<H, C> {
    /// What the supervisor holds of the worker's thread.
    pub state: SlotState<H>,
    /// The context from which the worker is built, and rebuilt.
    pub context: C,
}

/// The supervisor as a mathematical value.
pub struct SupervisorView<H, C> {
    /// The stop flag shared with the workers (and, for a nested runtime, with its parent).
    pub shutdown: Shutdown,
    /// Whether the stop flag belongs to a parent runtime.
    pub nested: bool,
    /// Whether the supervisor has stopped the flag through its own hold on it (on a
    /// failed launch, or when closing a runtime that owns its flag). The supervisor
    /// stops the flag only through that hold, which records every stop; the flag
    /// itself is an atomic shared with other threads and signal handlers, whose
    /// value is not modelled.
    pub stop_requested: bool,
    /// The handles of the plain workers' threads, in launch order.
    pub threads: Seq<H>,
    /// The respawnable workers, in launch order.
    pub slots: Seq<Slot<H, C>>,
}

/// The state a respawnable worker reaches when its thread is observed: a live
/// worker whose thread finished hands out its handle to be joined.
pub open spec fn state_after_check<H>(state: SlotState<H>, finished: bool) -> SlotState<H> {
    if state is Live && finished {
        SlotState::Joining
    } else {
        state
    }
}

/// The state a respawnable worker reaches once its finished thread was joined:
/// a worker that panicked is to be respawned, any other is left without a thread.
pub open spec fn state_after_join<H>(state: SlotState<H>, panicked: bool) -> SlotState<H> {
    if state is Joining {
        if panicked {
            SlotState::Respawning
        } else {
            SlotState::Vacant
        }
    } else {
        state
    }
}

/// The state a respawnable worker reaches when an attempt to respawn it ends with
/// `outcome`: the new thread's handle, or the error that prevented it.
pub open spec fn state_after_respawn<H>(outcome: Result<H, Error>) -> SlotState<H> {
    match outcome {
        Ok(h) => SlotState::Live(h),
        Err(_) => SlotState::Vacant,
    }
}

/// The respawnable workers that are kept after a health check: all of them but
/// those left without a thread (those that finished without panicking, or whose
/// respawn failed), in their order. A worker that still holds a thread is kept,
/// whether or not that thread has finished since: it is joined by a later check.
pub open spec fn keep_held<H, C>(slots: Seq<Slot<H, C>>) -> Seq<Slot<H, C>>
    decreases slots.len(),
{
    if slots.len() == 0 {
        Seq::empty()
    } else {
        let rest = keep_held(slots.drop_last());
        if slots.last().state is Vacant {
            rest
        } else {
            rest.push(slots.last())
        }
    }
}

/// The handles of the respawnable workers that hold one, in their order.
pub open spec fn live_handles<H, C>(slots: Seq<Slot<H, C>>) -> Seq<H>
    decreases slots.len(),
{
    if slots.len() == 0 {
        Seq::empty()
    } else {
        let rest = live_handles(slots.drop_last());
        match slots.last().state {
            SlotState::Live(h) => rest.push(h),
            _ => rest,
        }
    }
}

impl<H, C> SupervisorView<H, C> {
    /// After a plain worker's launch ends with `outcome`: its handle joins the
    /// threads, or, on an error, the runtime is stopped.
    pub open spec fn launched(self, outcome: Result<H, Error>) -> Self {
        match outcome {
            Ok(h) => SupervisorView { threads: self.threads.push(h), ..self },
            Err(_) => SupervisorView { stop_requested: true, ..self },
        }
    }

    /// After a respawnable worker's launch from `context` ends with `outcome`: the
    /// worker joins the respawnable ones, or, on an error, the runtime is stopped.
    pub open spec fn respawnable_launched(self, context: C, outcome: Result<H, Error>) -> Self {
        match outcome {
            Ok(h) => SupervisorView {
                slots: self.slots.push(Slot { state: SlotState::Live(h), context: context }),
                ..self
            },
            Err(_) => SupervisorView { stop_requested: true, ..self },
        }
    }

    /// The same supervisor with the state of the `i`-th respawnable worker replaced.
    pub open spec fn with_state(self, i: int, state: SlotState<H>) -> Self {
        SupervisorView {
            slots: self.slots.update(i, Slot { state: state, context: self.slots[i].context }),
            ..self
        }
    }

    /// After the `i`-th respawnable worker's thread was observed (`finished`).
    pub open spec fn checked(self, i: int, finished: bool) -> Self {
        self.with_state(i, state_after_check(self.slots[i].state, finished))
    }

    /// After the `i`-th respawnable worker's thread was joined (`panicked`).
    pub open spec fn joined(self, i: int, panicked: bool) -> Self {
        self.with_state(i, state_after_join(self.slots[i].state, panicked))
    }

    /// After an attempt to respawn the `i`-th respawnable worker ended with `outcome`.
    pub open spec fn respawned(self, i: int, outcome: Result<H, Error>) -> Self {
        self.with_state(i, state_after_respawn(outcome))
    }

    /// After the respawnable workers left without a thread were dropped.
    pub open spec fn retained(self) -> Self {
        SupervisorView { slots: keep_held(self.slots), ..self }
    }

    /// After the plain workers' handles were taken out to be joined.
    pub open spec fn threads_taken(self) -> Self {
        SupervisorView { threads: Seq::empty(), ..self }
    }

    /// After the respawnable workers were released, their live handles taken out.
    pub open spec fn slots_released(self) -> Self {
        SupervisorView { slots: Seq::empty(), ..self }
    }

    /// After the runtime was closed: a runtime that owns its stop flag stops it;
    /// a nested one leaves the flag to its parent.
    pub open spec fn closed(self) -> Self {
        if self.nested {
            self
        } else {
            SupervisorView { stop_requested: true, ..self }
        }
    }
}

/// The runtime's bookkeeping: its stop flag, the handles of its workers' threads
/// and the contexts of its respawnable workers.
pub struct Supervisor<H, C> {
    shutdown: StopSwitch,
    nested: bool,
    threads: Vec<H>,
    slots: Vec<Slot<H, C>>,
}

impl<H, C> View for Supervisor<H, C> {
    type V = SupervisorView<H, C>;

    closed spec fn view(&self) -> SupervisorView<H, C> {
        SupervisorView {
            shutdown: self.shutdown.held_flag(),
            nested: self.nested,
            stop_requested: self.shutdown.is_thrown(),
            threads: self.threads@,
            slots: self.slots@,
        }
    }
}

/// Keeps, in order, the slots that are not left without a thread.
fn keep_held_slots<H, C>(all: Vec<Slot<H, C>>) -> (kept: Vec<Slot<H, C>>)
    ensures
        kept@ == keep_held(all@),
{
    let ghost whole = all@;
    let mut rest = all;
    let mut kept: Vec<Slot<H, C>> = Vec::new();
    while rest.len() > 0
        invariant
            rest@.len() <= whole.len(),
            rest@ == whole.take(rest@.len() as int),
            keep_held(whole) == keep_held(rest@) + kept@,
        decreases rest.len(),
    {
        let ghost before = rest@;
        let slot = match rest.pop() {
            Some(s) => s,
            None => {
                return kept;
            },
        };
        assert(before.drop_last() =~= rest@);
        assert(rest@ =~= whole.take(rest@.len() as int));
        let vacant = match &slot.state {
            SlotState::Vacant => true,
            _ => false,
        };
        if vacant {
            assert(keep_held(before) == keep_held(rest@));
        } else {
            let ghost old_kept = kept@;
            kept.insert(0, slot);
            assert(kept@ =~= seq![before.last()] + old_kept);
            assert(keep_held(before) == keep_held(rest@).push(before.last()));
            assert(keep_held(rest@).push(before.last()) + old_kept =~= keep_held(rest@)
                + kept@);
        }
    }
    assert(rest@ =~= Seq::<Slot<H, C>>::empty());
    assert(kept@ =~= keep_held(whole));
    kept
}

/// Takes out, in order, the handles of the slots that hold one.
fn live_slot_handles<H, C>(all: Vec<Slot<H, C>>) -> (handles: Vec<H>)
    ensures
        handles@ == live_handles(all@),
{
    let ghost whole = all@;
    let mut rest = all;
    let mut handles: Vec<H> = Vec::new();
    while rest.len() > 0
        invariant
            rest@.len() <= whole.len(),
            rest@ == whole.take(rest@.len() as int),
            live_handles(whole) == live_handles(rest@) + handles@,
        decreases rest.len(),
    {
        let ghost before = rest@;
        let slot = match rest.pop() {
            Some(s) => s,
            None => {
                return handles;
            },
        };
        assert(before.drop_last() =~= rest@);
        assert(rest@ =~= whole.take(rest@.len() as int));
        match slot.state {
            SlotState::Live(h) => {
                let ghost old_handles = handles@;
                handles.insert(0, h);
                assert(handles@ =~= seq![h] + old_handles);
                assert(live_handles(before) == live_handles(rest@).push(h));
                assert(live_handles(rest@).push(h) + old_handles =~= live_handles(rest@)
                    + handles@);
            },
            _ => {
                assert(live_handles(before) == live_handles(rest@));
            },
        }
    }
    assert(rest@ =~= Seq::<Slot<H, C>>::empty());
    assert(handles@ =~= live_handles(whole));
    handles
}

impl<H, C> Supervisor<H, C> {
    /// Returns the bookkeeping of a new runtime, which owns a fresh stop flag.
    pub fn new() -> (s: Self)
        ensures
            !s@.nested,
            !s@.stop_requested,
            s@.threads == Seq::<H>::empty(),
            s@.slots == Seq::<Slot<H, C>>::empty(),
    {
        Supervisor {
            shutdown: StopSwitch::new(Shutdown::new()),
            nested: false,
            threads: Vec::new(),
            slots: Vec::new(),
        }
    }

    /// Returns the bookkeeping of a runtime whose stopping condition is the stop
    /// flag `shutdown` of a parent runtime.
    pub fn nested(shutdown: Shutdown) -> (s: Self)
        ensures
            s@.nested,
            !s@.stop_requested,
            s@.shutdown == shutdown,
            s@.threads == Seq::<H>::empty(),
            s@.slots == Seq::<Slot<H, C>>::empty(),
    {
        Supervisor {
            shutdown: StopSwitch::new(shutdown),
            nested: true,
            threads: Vec::new(),
            slots: Vec::new(),
        }
    }

    /// Returns the stop flag that the runtime's workers obey.
    pub fn shutdown(&self) -> (s: &Shutdown)
        ensures
            *s == self@.shutdown,
    {
        self.shutdown.flag()
    }

    /// Returns whether the stop flag belongs to a parent runtime.
    pub fn is_nested(&self) -> (b: bool)
        ensures
            b == self@.nested,
    {
        self.nested
    }

    /// Returns whether the supervisor has stopped the flag on its own decision.
    pub fn has_requested_stop(&self) -> (b: bool)
        ensures
            b == self@.stop_requested,
    {
        self.shutdown.thrown()
    }

    /// Records how the launch of a plain worker ended: with the handle of its thread,
    /// which the supervisor keeps, or with an error, on which the runtime is stopped
    /// and the error handed back.
    pub fn record_launch(&mut self, outcome: Result<H, Error>) -> (r: Result<(), Error>)
        ensures
            final(self)@ == old(self)@.launched(outcome),
            match outcome {
                Ok(_) => r is Ok,
                Err(e) => r == Err::<(), Error>(e),
            },
    {
        match outcome {
            Ok(h) => {
                self.threads.push(h);
                Ok(())
            },
            Err(e) => {
                self.shutdown.stop();
                Err(e)
            },
        }
    }

    /// Records how the launch of a respawnable worker built from `context` ended:
    /// with the handle of its thread, kept with the context, or with an error, on
    /// which the runtime is stopped and the error handed back.
    pub fn record_respawnable(&mut self, context: C, outcome: Result<H, Error>) -> (r: Result<
        (),
        Error,
    >)
        ensures
            final(self)@ == old(self)@.respawnable_launched(context, outcome),
            match outcome {
                Ok(_) => r is Ok,
                Err(e) => r == Err::<(), Error>(e),
            },
    {
        match outcome {
            Ok(h) => {
                self.slots.push(Slot { state: SlotState::Live(h), context: context });
                Ok(())
            },
            Err(e) => {
                self.shutdown.stop();
                Err(e)
            },
        }
    }

    /// Returns the number of respawnable workers.
    pub fn slot_count(&self) -> (n: usize)
        ensures
            n == self@.slots.len(),
    {
        self.slots.len()
    }

    /// Returns whether any respawnable worker is left.
    pub fn has_respawnables(&self) -> (b: bool)
        ensures
            b == (self@.slots.len() > 0),
    {
        self.slots.len() > 0
    }

    /// Returns the handle of the `i`-th respawnable worker's thread, if it holds one.
    pub fn handle(&self, i: usize) -> (h: Option<&H>)
        requires
            i < self@.slots.len(),
        ensures
            match self@.slots[i as int].state {
                SlotState::Live(handle) => h == Some(&handle),
                _ => h is None,
            },
    {
        match &self.slots[i].state {
            SlotState::Live(handle) => Some(handle),
            _ => None,
        }
    }

    /// Returns the context of the `i`-th respawnable worker.
    pub fn context(&self, i: usize) -> (c: &C)
        requires
            i < self@.slots.len(),
        ensures
            *c == self@.slots[i as int].context,
    {
        &self.slots[i].context
    }

    /// Records what was observed of the `i`-th respawnable worker's thread: if it
    /// holds a handle and the thread `finished`, the handle is handed back to be
    /// joined; otherwise nothing is to be done.
    pub fn begin_check(&mut self, i: usize, finished: bool) -> (joinable: Option<H>)
        requires
            i < old(self)@.slots.len(),
        ensures
            final(self)@ == old(self)@.checked(i as int, finished),
            match old(self)@.slots[i as int].state {
                SlotState::Live(h) => if finished {
                    joinable == Some(h)
                } else {
                    joinable is None
                },
                _ => joinable is None,
            },
    {
        let live = match &self.slots[i].state {
            SlotState::Live(_) => true,
            _ => false,
        };
        if live && finished {
            let mut state = SlotState::Joining;
            std::mem::swap(&mut self.slots[i].state, &mut state);
            match state {
                SlotState::Live(h) => Some(h),
                _ => None,
            }
        } else {
            proof {
                let s = self.slots@[i as int];
                assert(self.slots@.update(i as int, Slot { state: s.state, context: s.context })
                    =~= self.slots@);
            }
            None
        }
    }

    /// Records how the join of the `i`-th respawnable worker's thread went, and
    /// returns whether the worker is to be respawned: exactly when its thread was
    /// handed out to be joined and `panicked`.
    pub fn record_join(&mut self, i: usize, panicked: bool) -> (respawn: bool)
        requires
            i < old(self)@.slots.len(),
        ensures
            final(self)@ == old(self)@.joined(i as int, panicked),
            respawn == (old(self)@.slots[i as int].state is Joining && panicked),
    {
        let joining = match &self.slots[i].state {
            SlotState::Joining => true,
            _ => false,
        };
        if joining {
            if panicked {
                self.slots[i].state = SlotState::Respawning;
                true
            } else {
                self.slots[i].state = SlotState::Vacant;
                false
            }
        } else {
            proof {
                let s = self.slots@[i as int];
                assert(self.slots@.update(i as int, Slot { state: s.state, context: s.context })
                    =~= self.slots@);
            }
            false
        }
    }

    /// Records how an attempt to respawn the `i`-th respawnable worker ended: with
    /// the handle of its new thread, or with the error that prevented it, which is
    /// handed back.
    pub fn record_respawn(&mut self, i: usize, outcome: Result<H, Error>) -> (r: Result<(), Error>)
        requires
            i < old(self)@.slots.len(),
        ensures
            final(self)@ == old(self)@.respawned(i as int, outcome),
            match outcome {
                Ok(_) => r is Ok,
                Err(e) => r == Err::<(), Error>(e),
            },
    {
        match outcome {
            Ok(h) => {
                self.slots[i].state = SlotState::Live(h);
                Ok(())
            },
            Err(e) => {
                self.slots[i].state = SlotState::Vacant;
                Err(e)
            },
        }
    }

    /// Drops the respawnable workers left without a thread: those that finished
    /// without panicking, and those whose respawn failed. Every worker that still
    /// holds a thread is kept until a later check joins it.
    pub fn retain_held(&mut self)
        ensures
            final(self)@ == old(self)@.retained(),
    {
        let mut all: Vec<Slot<H, C>> = Vec::new();
        std::mem::swap(&mut all, &mut self.slots);
        self.slots = keep_held_slots(all);
    }

    /// Takes out the handles of the plain workers' threads, in launch order, for
    /// them to be joined.
    pub fn take_threads(&mut self) -> (threads: Vec<H>)
        ensures
            threads@ == old(self)@.threads,
            final(self)@ == old(self)@.threads_taken(),
    {
        let mut threads: Vec<H> = Vec::new();
        std::mem::swap(&mut threads, &mut self.threads);
        threads
    }

    /// Releases the respawnable workers and takes out, in order, the handles of
    /// those that hold one, for them to be joined.
    pub fn release_slots(&mut self) -> (handles: Vec<H>)
        ensures
            handles@ == live_handles(old(self)@.slots),
            final(self)@ == old(self)@.slots_released(),
    {
        let mut all: Vec<Slot<H, C>> = Vec::new();
        std::mem::swap(&mut all, &mut self.slots);
        live_slot_handles(all)
    }

    /// Closes the runtime: a runtime that owns its stop flag stops it, a nested one
    /// leaves it to its parent. Returns whether the flag was stopped.
    pub fn close(&mut self) -> (stopped: bool)
        ensures
            final(self)@ == old(self)@.closed(),
            stopped == !old(self)@.nested,
    {
        if !self.nested {
            self.shutdown.stop();
            true
        } else {
            false
        }
    }
}

/// One step of a runtime's bookkeeping, as it appears in the supervisor's contracts.
pub enum SupervisorStep<H, C> {
    /// A plain worker's launch ended with this outcome.
    Launch(Result<H, Error>),
    /// A respawnable worker's launch from this context ended with this outcome.
    LaunchRespawnable(C, Result<H, Error>),
    /// A respawnable worker's thread was observed: whether it finished.
    Check(nat, bool),
    /// A respawnable worker's thread was joined: whether it panicked.
    Join(nat, bool),
    /// An attempt to respawn a respawnable worker ended with this outcome.
    Respawn(nat, Result<H, Error>),
    /// The respawnable workers left without a thread were dropped.
    Retain,
    /// The plain workers' handles were taken out.
    TakeThreads,
    /// The respawnable workers were released.
    ReleaseSlots,
    /// The runtime was closed.
    Close,
}

impl<H, C> SupervisorView<H, C> {
    /// The supervisor after `step`.
    pub open spec fn after(self, step: SupervisorStep<H, C>) -> Self {
        match step {
            SupervisorStep::Launch(outcome) => self.launched(outcome),
            SupervisorStep::LaunchRespawnable(context, outcome) => self.respawnable_launched(
                context,
                outcome,
            ),
            SupervisorStep::Check(i, finished) => self.checked(i as int, finished),
            SupervisorStep::Join(i, panicked) => self.joined(i as int, panicked),
            SupervisorStep::Respawn(i, outcome) => self.respawned(i as int, outcome),
            SupervisorStep::Retain => self.retained(),
            SupervisorStep::TakeThreads => self.threads_taken(),
            SupervisorStep::ReleaseSlots => self.slots_released(),
            SupervisorStep::Close => self.closed(),
        }
    }

    /// The supervisor after the steps, in order.
    pub open spec fn after_all(self, steps: Seq<SupervisorStep<H, C>>) -> Self
        decreases steps.len(),
    {
        if steps.len() == 0 {
            self
        } else {
            self.after(steps[0]).after_all(steps.drop_first())
        }
    }

    /// A health check of the `i`-th respawnable worker: its thread is observed
    /// (`finished`); a handle handed out is joined (`panicked`); a worker to be
    /// respawned is respawned (`outcome`).
    pub open spec fn health_checked(
        self,
        i: int,
        finished: bool,
        panicked: bool,
        outcome: Result<H, Error>,
    ) -> Self {
        let observed = self.checked(i, finished);
        let joined = if observed.slots[i].state is Joining {
            observed.joined(i, panicked)
        } else {
            observed
        };
        if joined.slots[i].state is Respawning {
            joined.respawned(i, outcome)
        } else {
            joined
        }
    }
}

/// Once the supervisor has stopped the runtime, the runtime stays stopped: no step
/// takes the request back.
pub proof fn lemma_stop_request_is_final<H, C>(
    v: SupervisorView<H, C>,
    steps: Seq<SupervisorStep<H, C>>,
)
    requires
        v.stop_requested,
    ensures
        v.after_all(steps).stop_requested,
    decreases steps.len(),
{
    if steps.len() > 0 {
        lemma_stop_request_is_final(v.after(steps[0]), steps.drop_first());
    }
}

/// The stop flag a runtime obeys is never replaced: a nested runtime stays
/// controlled by its parent's flag, and a runtime stays nested or not.
pub proof fn lemma_stop_flag_is_kept<H, C>(v: SupervisorView<H, C>, steps: Seq<SupervisorStep<H, C>>)
    ensures
        v.after_all(steps).shutdown == v.shutdown,
        v.after_all(steps).nested == v.nested,
    decreases steps.len(),
{
    if steps.len() > 0 {
        lemma_stop_flag_is_kept(v.after(steps[0]), steps.drop_first());
    }
}

/// On an error, a launch stops the runtime and leaves its workers as they were.
pub proof fn lemma_failed_launch_stops<H, C>(v: SupervisorView<H, C>, context: C, e: Error)
    ensures
        v.launched(Err(e)).stop_requested,
        v.launched(Err(e)).threads == v.threads,
        v.launched(Err(e)).slots == v.slots,
        v.respawnable_launched(context, Err(e)).stop_requested,
        v.respawnable_launched(context, Err(e)).threads == v.threads,
        v.respawnable_launched(context, Err(e)).slots == v.slots,
{
}

/// A launch that succeeds keeps the runtime's stop status and adds the worker,
/// after the ones already there.
pub proof fn lemma_launch_adds_worker<H, C>(v: SupervisorView<H, C>, context: C, h: H)
    ensures
        v.launched(Ok(h)).stop_requested == v.stop_requested,
        v.launched(Ok(h)).threads == v.threads.push(h),
        v.respawnable_launched(context, Ok(h)).stop_requested == v.stop_requested,
        v.respawnable_launched(context, Ok(h)).slots.len() == v.slots.len() + 1,
        v.respawnable_launched(context, Ok(h)).slots.last().state == SlotState::Live(h),
        v.respawnable_launched(context, Ok(h)).slots.last().context == context,
{
}

/// Closing a runtime that owns its stop flag stops it; closing a nested runtime
/// changes nothing, the flag being its parent's.
pub proof fn lemma_close<H, C>(v: SupervisorView<H, C>)
    ensures
        !v.nested ==> v.closed().stop_requested,
        v.nested ==> v.closed() == v,
        v.closed().threads == v.threads,
        v.closed().slots == v.slots,
{
}

/// A health check respawns the respawnable workers that panicked: a worker whose
/// thread is live and finished is respawned from its context if it panicked (and
/// holds the new thread, unless respawning failed) and is left without a thread if
/// it did not; a worker whose thread is still running, or that holds none, is left
/// as it is. The other workers and every context are untouched.
pub proof fn lemma_health_check_respawns_panicked<H, C>(
    v: SupervisorView<H, C>,
    i: int,
    finished: bool,
    panicked: bool,
    outcome: Result<H, Error>,
)
    requires
        0 <= i < v.slots.len(),
        v.slots[i].state is Live || v.slots[i].state is Vacant,
    ensures
        ({
            let w = v.health_checked(i, finished, panicked, outcome);
            &&& w.slots.len() == v.slots.len()
            &&& w.slots[i].context == v.slots[i].context
            &&& w.slots[i].state == if v.slots[i].state is Live && finished {
                if panicked {
                    match outcome {
                        Ok(h) => SlotState::Live(h),
                        Err(_) => SlotState::Vacant,
                    }
                } else {
                    SlotState::Vacant
                }
            } else {
                v.slots[i].state
            }
            &&& forall|j: int| 0 <= j < v.slots.len() && j != i ==> w.slots[j] == v.slots[j]
            &&& w.threads == v.threads
            &&& w.stop_requested == v.stop_requested
        }),
{
}

/// A thread's handle is handed out to be joined at most once: once handed out, the
/// worker no longer holds it, and observing the worker again hands out nothing.
pub proof fn lemma_thread_joined_once<H, C>(
    v: SupervisorView<H, C>,
    i: int,
    first: bool,
    second: bool,
)
    requires
        0 <= i < v.slots.len(),
        v.slots[i].state is Live,
        first,
    ensures
        v.checked(i, first).slots[i].state is Joining,
        v.checked(i, first).checked(i, second).slots[i].state is Joining,
{
}

/// When a runtime is done waiting (no respawnable worker is left) or is dropped,
/// every handle it held is handed out to be joined and nothing is left.
pub proof fn lemma_wait_leaves_nothing<H, C>(v: SupervisorView<H, C>)
    ensures
        v.threads_taken().threads == Seq::<H>::empty(),
        v.slots.len() == 0 ==> v.threads_taken().slots == Seq::<Slot<H, C>>::empty(),
        v.threads_taken().slots_released().threads == Seq::<H>::empty(),
        v.threads_taken().slots_released().slots == Seq::<Slot<H, C>>::empty(),
        v.threads_taken().slots_released().stop_requested == v.stop_requested,
        v.threads.len() == 0 && v.slots.len() == 0 ==> v.threads_taken() == v,
{
    if v.threads.len() == 0 {
        assert(v.threads =~= Seq::<H>::empty());
    }
}

/// The respawnable workers kept by a health check all hold a thread (or are being
/// joined or respawned), and none is kept twice.
pub proof fn lemma_kept_workers_hold_a_thread<H, C>(slots: Seq<Slot<H, C>>)
    ensures
        keep_held(slots).len() <= slots.len(),
        forall|k: int|
            0 <= k < keep_held(slots).len() ==> !((#[trigger] keep_held(slots)[k]).state is Vacant),
    decreases slots.len(),
{
    if slots.len() > 0 {
        let rest = slots.drop_last();
        lemma_kept_workers_hold_a_thread(rest);
        let kept = keep_held(slots);
        assert forall|k: int| 0 <= k < kept.len() implies !((#[trigger] kept[k]).state is Vacant) by {
            if k < keep_held(rest).len() {
                assert(kept[k] == keep_held(rest)[k]);
            }
        }
    }
}

/// A health check never drops a worker that still holds a thread, even one that
/// finished (or panicked) after it was observed: such a worker is kept, to be
/// joined, and respawned if it panicked, by a later check.
pub proof fn lemma_held_worker_is_kept<H, C>(slots: Seq<Slot<H, C>>, i: int)
    requires
        0 <= i < slots.len(),
        !(slots[i].state is Vacant),
    ensures
        keep_held(slots).contains(slots[i]),
    decreases slots.len(),
{
    let rest = slots.drop_last();
    if i == slots.len() - 1 {
        assert(keep_held(slots).last() == slots[i]);
        assert(keep_held(slots)[keep_held(slots).len() - 1] == slots[i]);
    } else {
        assert(rest[i] == slots[i]);
        lemma_held_worker_is_kept(rest, i);
        let k = choose|k: int| 0 <= k < keep_held(rest).len() && keep_held(rest)[k] == slots[i];
        if !(slots.last().state is Vacant) {
            assert(keep_held(slots)[k] == keep_held(rest)[k]);
        }
    }
}

/// A health check that finds no worker left without a thread keeps them all, in
/// their order.
pub proof fn lemma_held_workers_are_kept<H, C>(slots: Seq<Slot<H, C>>)
    requires
        forall|j: int| 0 <= j < slots.len() ==> !((#[trigger] slots[j]).state is Vacant),
    ensures
        keep_held(slots) == slots,
    decreases slots.len(),
{
    if slots.len() > 0 {
        let rest = slots.drop_last();
        assert forall|j: int| 0 <= j < rest.len() implies !((#[trigger] rest[j]).state is Vacant) by {
            assert(rest[j] == slots[j]);
        }
        lemma_held_workers_are_kept(rest);
        let last = slots.len() - 1;
        assert(!(slots[last].state is Vacant));
        assert(keep_held(slots) =~= slots);
    }
}

/// A health check that finds every worker left without a thread keeps none.
pub proof fn lemma_vacant_workers_are_dropped<H, C>(slots: Seq<Slot<H, C>>)
    requires
        forall|j: int| 0 <= j < slots.len() ==> (#[trigger] slots[j]).state is Vacant,
    ensures
        keep_held(slots) == Seq::<Slot<H, C>>::empty(),
    decreases slots.len(),
{
    if slots.len() > 0 {
        let rest = slots.drop_last();
        assert forall|j: int| 0 <= j < rest.len() implies (#[trigger] rest[j]).state is Vacant by {
            assert(rest[j] == slots[j]);
        }
        lemma_vacant_workers_are_dropped(rest);
        let last = slots.len() - 1;
        assert(slots[last].state is Vacant);
    }
}

/// A worker that panicked is respawned and kept: after a health check in which its
/// finished thread is joined and found panicked, and its respawn succeeds, the
/// worker holds the new thread, with its context, among the kept workers.
pub proof fn lemma_panicked_worker_is_respawned<H, C>(v: SupervisorView<H, C>, i: int, h: H)
    requires
        0 <= i < v.slots.len(),
        v.slots[i].state is Live,
    ensures
        v.health_checked(i, true, true, Ok(h)).retained().slots.contains(
            Slot { state: SlotState::Live(h), context: v.slots[i].context },
        ),
{
    let w = v.health_checked(i, true, true, Ok(h));
    assert(w.slots[i] == Slot { state: SlotState::Live(h), context: v.slots[i].context });
    lemma_held_worker_is_kept(w.slots, i);
}

/// A worker is dropped by a health check only if it finished without panicking,
/// or it panicked and could not be respawned; a worker still running when observed
/// is kept as it is.
pub proof fn lemma_dropped_workers_finished<H, C>(
    v: SupervisorView<H, C>,
    i: int,
    finished: bool,
    panicked: bool,
    outcome: Result<H, Error>,
)
    requires
        0 <= i < v.slots.len(),
        v.slots[i].state is Live,
    ensures
        v.health_checked(i, finished, panicked, outcome).slots[i].state is Vacant ==> finished
            && (!panicked || outcome is Err),
        !finished ==> v.health_checked(i, finished, panicked, outcome).retained().slots.contains(
            v.slots[i],
        ),
{
    let w = v.health_checked(i, finished, panicked, outcome);
    if !finished {
        assert(w.slots[i] == v.slots[i]);
        lemma_held_worker_is_kept(w.slots, i);
    }
}

/// The steps a runtime takes while it waits: health checks, then taking the plain
/// workers' handles to join them.
pub open spec fn is_wait_step<H, C>(step: SupervisorStep<H, C>) -> bool {
    match step {
        SupervisorStep::Check(..) | SupervisorStep::Join(..) | SupervisorStep::Respawn(..)
        | SupervisorStep::Retain | SupervisorStep::TakeThreads => true,
        _ => false,
    }
}

/// Waiting does not change the runtime's stop status, nor its stop flag, nor
/// whether it is nested.
pub proof fn lemma_wait_keeps_stop_status<H, C>(
    v: SupervisorView<H, C>,
    steps: Seq<SupervisorStep<H, C>>,
)
    requires
        forall|k: int| 0 <= k < steps.len() ==> is_wait_step(#[trigger] steps[k]),
    ensures
        v.after_all(steps).stop_requested == v.stop_requested,
        v.after_all(steps).shutdown == v.shutdown,
        v.after_all(steps).nested == v.nested,
    decreases steps.len(),
{
    if steps.len() > 0 {
        let rest = steps.drop_first();
        assert forall|k: int| 0 <= k < rest.len() implies is_wait_step(#[trigger] rest[k]) by {
            assert(rest[k] == steps[k + 1]);
        }
        assert(is_wait_step(steps[0]));
        lemma_wait_keeps_stop_status(v.after(steps[0]), rest);
    }
}

/// What a launch does, whatever its outcome: a plain launch adds the new thread
/// after the plain workers' threads and leaves the respawnable workers as they
/// were; a respawnable launch adds the worker after the respawnable ones and leaves
/// the plain workers' threads as they were; either stops the runtime exactly when it
/// failed; neither replaces the stop flag.
pub proof fn lemma_launch_frames<H, C>(v: SupervisorView<H, C>, context: C, outcome: Result<H, Error>)
    ensures
        v.launched(outcome).slots == v.slots,
        v.launched(outcome).threads == match outcome {
            Ok(h) => v.threads.push(h),
            Err(_) => v.threads,
        },
        v.launched(outcome).stop_requested == (v.stop_requested || outcome is Err),
        v.launched(outcome).shutdown == v.shutdown,
        v.launched(outcome).nested == v.nested,
        v.respawnable_launched(context, outcome).threads == v.threads,
        v.respawnable_launched(context, outcome).slots == match outcome {
            Ok(h) => v.slots.push(Slot { state: SlotState::Live(h), context: context }),
            Err(_) => v.slots,
        },
        v.respawnable_launched(context, outcome).stop_requested == (v.stop_requested
            || outcome is Err),
        v.respawnable_launched(context, outcome).shutdown == v.shutdown,
        v.respawnable_launched(context, outcome).nested == v.nested,
{
}

/// What each step of a health check does to the `i`-th respawnable worker: the
/// observation of a live thread that finished hands its handle out (the worker is
/// being joined) and leaves any other worker as it is; the join of a worker being
/// joined marks it to be respawned if it panicked and leaves it without a thread if
/// not; a respawn gives it the new thread, or no thread if it failed. No step
/// touches another worker, the worker's context, the plain workers' threads, the
/// stop flag or the runtime's stop status.
pub proof fn lemma_health_check_steps<H, C>(
    v: SupervisorView<H, C>,
    i: int,
    finished: bool,
    panicked: bool,
    outcome: Result<H, Error>,
)
    requires
        0 <= i < v.slots.len(),
    ensures
        v.checked(i, finished).slots[i].state == if v.slots[i].state is Live && finished {
            SlotState::Joining
        } else {
            v.slots[i].state
        },
        v.joined(i, panicked).slots[i].state == if v.slots[i].state is Joining {
            if panicked {
                SlotState::Respawning
            } else {
                SlotState::Vacant
            }
        } else {
            v.slots[i].state
        },
        v.respawned(i, outcome).slots[i].state == match outcome {
            Ok(h) => SlotState::Live(h),
            Err(_) => SlotState::Vacant,
        },
        forall|w: SupervisorView<H, C>|
            w == v.checked(i, finished) || w == v.joined(i, panicked) || w == v.respawned(
                i,
                outcome,
            ) ==> {
                &&& w.slots.len() == v.slots.len()
                &&& w.slots[i].context == v.slots[i].context
                &&& (forall|j: int| 0 <= j < v.slots.len() && j != i ==> w.slots[j] == v.slots[j])
                &&& w.threads == v.threads
                &&& w.stop_requested == v.stop_requested
                &&& w.shutdown == v.shutdown
                &&& w.nested == v.nested
            },
{
}

/// What the remaining steps leave alone: dropping the workers without a thread,
/// taking the plain workers' threads and releasing the respawnable workers change
/// neither the stop status nor the stop flag, and each touches only what it takes;
/// closing touches no worker and stops the runtime exactly when it owns its flag.
pub proof fn lemma_other_steps_frame<H, C>(v: SupervisorView<H, C>)
    ensures
        v.retained().threads == v.threads,
        v.retained().stop_requested == v.stop_requested,
        v.retained().shutdown == v.shutdown,
        v.retained().nested == v.nested,
        v.threads_taken().threads.len() == 0,
        v.threads_taken().slots == v.slots,
        v.threads_taken().stop_requested == v.stop_requested,
        v.threads_taken().shutdown == v.shutdown,
        v.threads_taken().nested == v.nested,
        v.slots_released().slots.len() == 0,
        v.slots_released().threads == v.threads,
        v.slots_released().stop_requested == v.stop_requested,
        v.slots_released().shutdown == v.shutdown,
        v.slots_released().nested == v.nested,
        v.closed().threads == v.threads,
        v.closed().slots == v.slots,
        v.closed().stop_requested == (v.stop_requested || !v.nested),
        v.closed().shutdown == v.shutdown,
        v.closed().nested == v.nested,
{
}

/// Only a failed launch and the closing of a runtime that owns its flag stop the
/// runtime: every other step keeps its stop status.
pub proof fn lemma_only_failures_and_close_stop<H, C>(
    v: SupervisorView<H, C>,
    step: SupervisorStep<H, C>,
)
    requires
        !v.stop_requested,
        v.after(step).stop_requested,
    ensures
        match step {
            SupervisorStep::Launch(outcome) => outcome is Err,
            SupervisorStep::LaunchRespawnable(_, outcome) => outcome is Err,
            SupervisorStep::Close => !v.nested,
            _ => false,
        },
{
    match step {
        SupervisorStep::Check(i, finished) => {
            assert(v.checked(i as int, finished).stop_requested == v.stop_requested);
        },
        SupervisorStep::Join(i, panicked) => {
            assert(v.joined(i as int, panicked).stop_requested == v.stop_requested);
        },
        SupervisorStep::Respawn(i, outcome) => {
            assert(v.respawned(i as int, outcome).stop_requested == v.stop_requested);
        },
        _ => {},
    }
}

/// The number of respawnable workers that hold a live thread.
pub open spec fn live_count<H, C>(slots: Seq<Slot<H, C>>) -> nat
    decreases slots.len(),
{
    if slots.len() == 0 {
        0
    } else {
        live_count(slots.drop_last()) + if slots.last().state is Live {
            1nat
        } else {
            0nat
        }
    }
}

/// Releasing the respawnable workers hands out exactly the handles of those that
/// hold a live thread, each once and in their order: one handle per live worker,
/// and the handle of a live worker stands at its rank among the live workers.
pub proof fn lemma_released_handles<H, C>(slots: Seq<Slot<H, C>>)
    ensures
        live_handles(slots).len() == live_count(slots),
        forall|i: int|
            #![trigger slots[i]]
            0 <= i < slots.len() ==> (slots[i].state matches SlotState::Live(h) ==> live_count(
                slots.take(i),
            ) < live_handles(slots).len() && live_handles(slots)[live_count(slots.take(i)) as int]
                == h),
    decreases slots.len(),
{
    if slots.len() > 0 {
        let rest = slots.drop_last();
        lemma_released_handles(rest);
        let last = slots.len() - 1;
        assert(slots.take(last) =~= rest);
        assert forall|i: int|
            #![trigger slots[i]]
            0 <= i < slots.len() implies (slots[i].state matches SlotState::Live(h)
                ==> live_count(slots.take(i)) < live_handles(slots).len() && live_handles(
                slots,
            )[live_count(slots.take(i)) as int] == h) by {
            if i < last {
                assert(slots.take(i) =~= rest.take(i));
                assert(rest[i] == slots[i]);
            }
        }
    }
}

/// The number of respawnable workers that are not left without a thread.
pub open spec fn held_count<H, C>(slots: Seq<Slot<H, C>>) -> nat
    decreases slots.len(),
{
    if slots.len() == 0 {
        0
    } else {
        held_count(slots.drop_last()) + if slots.last().state is Vacant {
            0nat
        } else {
            1nat
        }
    }
}

/// A health check keeps exactly the workers not left without a thread, each once
/// and in their order: one per such worker, and each such worker stands, unchanged,
/// at its rank among them.
pub proof fn lemma_kept_workers_in_order<H, C>(slots: Seq<Slot<H, C>>)
    ensures
        keep_held(slots).len() == held_count(slots),
        forall|i: int|
            #![trigger slots[i]]
            0 <= i < slots.len() && !(slots[i].state is Vacant) ==> held_count(slots.take(i))
                < keep_held(slots).len() && keep_held(slots)[held_count(slots.take(i)) as int]
                == slots[i],
    decreases slots.len(),
{
    if slots.len() > 0 {
        let rest = slots.drop_last();
        lemma_kept_workers_in_order(rest);
        let last = slots.len() - 1;
        assert(slots.take(last) =~= rest);
        assert forall|i: int|
            #![trigger slots[i]]
            0 <= i < slots.len() && !(slots[i].state is Vacant) implies held_count(slots.take(i))
                < keep_held(slots).len() && keep_held(slots)[held_count(slots.take(i)) as int]
                == slots[i] by {
            if i < last {
                assert(slots.take(i) =~= rest.take(i));
                assert(rest[i] == slots[i]);
            }
        }
    }
}

} // verus!
