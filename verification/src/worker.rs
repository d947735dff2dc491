//! The control flow of a worker's main loop.
//!
//! A worker's main loop first calls the worker's start hook once, then, as long as
//! the runtime is running, calls its update hook until that returns
//! [`ControlFlow::Break`]. The loop itself runs on the worker's thread, around code
//! of the library's users; what it does next at each step is decided here.

use vstd::prelude::*;

verus! {

/// Defines the control flow of workers.
#[derive(Debug, Clone, Copy, PartialEq, Eq, Structural)]
pub enum ControlFlow {
    /// Tells the runtime to continue the main worker loop.
    Continue,
    /// Tells the runtime to break the main worker loop.
    Break,
}

/// Where a worker's main loop stands; each stage names what the loop does next.
#[derive(Debug, Clone, Copy, PartialEq, Eq, Structural)]
pub enum LoopStage {
    /// The worker's start hook is to be called.
    Starting,
    /// The runtime's running status is to be read.
    Polling,
    /// The worker's update hook is to be called.
    Updating,
    /// The loop is over.
    Finished,
}

/// What happened at the last step of a worker's main loop.
#[derive(Debug, Clone, Copy, PartialEq, Eq, Structural)]
pub enum LoopEvent {
    /// The start hook returned.
    Started,
    /// The runtime's running status was read; holds whether it was running.
    Polled(bool),
    /// The update hook returned this control flow.
    Updated(ControlFlow),
}

/// The stage a worker's main loop reaches from `stage` when `event` happens.
/// An event that does not answer the stage's step leaves the stage as it is.
pub open spec fn stage_after(stage: LoopStage, event: LoopEvent) -> LoopStage {
    match (stage, event) {
        (LoopStage::Starting, LoopEvent::Started) => LoopStage::Polling,
        (LoopStage::Polling, LoopEvent::Polled(true)) => LoopStage::Updating,
        (LoopStage::Polling, LoopEvent::Polled(false)) => LoopStage::Finished,
        (LoopStage::Updating, LoopEvent::Updated(ControlFlow::Continue)) => LoopStage::Polling,
        (LoopStage::Updating, LoopEvent::Updated(ControlFlow::Break)) => LoopStage::Finished,
        _ => stage,
    }
}

/// The stage a worker's main loop reaches from `stage` through the events, in order.
pub open spec fn stage_after_all(stage: LoopStage, events: Seq<LoopEvent>) -> LoopStage
    decreases events.len(),
{
    if events.len() == 0 {
        stage
    } else {
        stage_after_all(stage_after(stage, events[0]), events.drop_first())
    }
}

impl LoopStage {
    /// The stage a worker's main loop starts in: its start hook is called first.
    pub fn begin() -> (s: Self)
        ensures
            s == LoopStage::Starting,
    {
        LoopStage::Starting
    }

    /// Returns the stage the loop reaches from `self` when `event` happens.
    pub fn advance(self, event: LoopEvent) -> (s: Self)
        ensures
            s == stage_after(self, event),
    {
        match (self, event) {
            (LoopStage::Starting, LoopEvent::Started) => LoopStage::Polling,
            (LoopStage::Polling, LoopEvent::Polled(running)) => {
                if running {
                    LoopStage::Updating
                } else {
                    LoopStage::Finished
                }
            },
            (LoopStage::Updating, LoopEvent::Updated(flow)) => match flow {
                ControlFlow::Continue => LoopStage::Polling,
                ControlFlow::Break => LoopStage::Finished,
            },
            _ => self,
        }
    }

    /// Returns whether the loop is over.
    pub fn is_finished(&self) -> (b: bool)
        ensures
            b == (*self == LoopStage::Finished),
    {
        match self {
            LoopStage::Finished => true,
            _ => false,
        }
    }
}

/// Once a worker's main loop is over, nothing that happens brings it back.
pub proof fn lemma_finished_is_final(events: Seq<LoopEvent>)
    ensures
        stage_after_all(LoopStage::Finished, events) == LoopStage::Finished,
    decreases events.len(),
{
    if events.len() > 0 {
        lemma_finished_is_final(events.drop_first());
    }
}

/// The start hook is called once, at the beginning: once a worker's main loop has
/// left its first stage, it never returns to it.
pub proof fn lemma_start_hook_runs_once(stage: LoopStage, events: Seq<LoopEvent>)
    requires
        stage != LoopStage::Starting,
    ensures
        stage_after_all(stage, events) != LoopStage::Starting,
    decreases events.len(),
{
    if events.len() > 0 {
        lemma_start_hook_runs_once(stage_after(stage, events[0]), events.drop_first());
    }
}

/// When the update hook returns [`ControlFlow::Break`], the loop ends and the update
/// hook is never called again, whatever happens next.
pub proof fn lemma_break_ends_loop(events: Seq<LoopEvent>)
    ensures
        stage_after_all(
            LoopStage::Updating,
            seq![LoopEvent::Updated(ControlFlow::Break)] + events,
        ) == LoopStage::Finished,
{
    let all = seq![LoopEvent::Updated(ControlFlow::Break)] + events;
    assert(all.drop_first() =~= events);
    lemma_finished_is_final(events);
}

/// When the runtime is found stopped, the loop ends and the update hook is never
/// called again, whatever happens next.
pub proof fn lemma_stopped_runtime_ends_loop(events: Seq<LoopEvent>)
    ensures
        stage_after_all(LoopStage::Polling, seq![LoopEvent::Polled(false)] + events)
            == LoopStage::Finished,
{
    let all = seq![LoopEvent::Polled(false)] + events;
    assert(all.drop_first() =~= events);
    lemma_finished_is_final(events);
}

/// The update hook is only called right after the runtime was found running: the
/// loop reaches the update stage only from the polling stage, on a running status.
pub proof fn lemma_update_only_while_running(stage: LoopStage, event: LoopEvent)
    requires
        stage != LoopStage::Updating,
        stage_after(stage, event) == LoopStage::Updating,
    ensures
        stage == LoopStage::Polling,
        event == LoopEvent::Polled(true),
{
}

} // verus!
