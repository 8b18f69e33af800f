//! The retry loop as a state machine.
//!
//! The loop itself runs outside this library: a driver holds the current
//! phase, performs the outside work that the last step asked for, and hands
//! the result back as an event. `retry_step` makes every decision. Each call
//! is one guarded update of the session.

use vstd::prelude::*;
use crate::session::{AttemptCheck, ScuttleState, SessionView, Verdict};

verus! {

/// How long the key is held down between press and release, in milliseconds.
pub const STIMULUS_HOLD_MILLIS: u64 = 100;

/// How long the environment is given to react to a stimulus, in seconds.
pub const SETTLE_SECS: u64 = 90;

/// The pause before the next attempt, in seconds.
pub const RETRY_DELAY_SECS: u64 = 5;

/// The name under which a success is announced to the listener.
pub const SUCCESS_EVENT: &'static str = "scuttle-success";

/// The name under which the exhaustion of the attempts is announced.
pub const MAX_ATTEMPTS_EVENT: &'static str = "scuttle-max-attempts";

/// Where the retry loop stands.
#[derive(Clone, Copy, Debug, PartialEq, Eq, Structural)]
pub enum RetryPhase {
    /// About to make the guarded check that opens an iteration.
    Attempting,
    /// The stimulus has been asked for.
    Acting,
    /// Waiting for the environment to react.
    Settling,
    /// The observer has been asked for the current identifier.
    Observing,
    /// Pausing before the next iteration.
    Retrying,
    /// The target was reached.
    Succeeded,
    /// The attempts were used up.
    Exhausted,
    /// The run was cancelled from outside.
    Cancelled,
}

impl RetryPhase {
    /// Whether the loop has ended.
    pub open spec fn is_terminal(self) -> bool {
        self is Succeeded || self is Exhausted || self is Cancelled
    }

    /// Whether the loop has ended.
    pub fn terminal(&self) -> (b: bool)
        ensures
            b == self.is_terminal(),
    {
        match self {
            RetryPhase::Succeeded | RetryPhase::Exhausted | RetryPhase::Cancelled => true,
            _ => false,
        }
    }
}

/// What the driver reports back to the loop.
#[derive(Debug, PartialEq, Eq)]
pub enum LoopEvent {
    /// The loop has just been spawned.
    Wake,
    /// The stimulus was attempted; `ok` tells whether the press went through.
    Stimulated { ok: bool },
    /// The wait that was asked for is over.
    Elapsed,
    /// The observer answered, with the current identifier or with a failure.
    Observed { reading: Result<String, String> },
}

/// Mathematical model of what the observer answered.
pub open spec fn reading_view(reading: Result<String, String>) -> Result<Seq<char>, Seq<char>> {
    match reading {
        Ok(server) => Ok(server@),
        Err(failure) => Err(failure@),
    }
}

/// Mathematical model of a `LoopEvent`.
pub enum EventView {
    Wake,
    Stimulated { ok: bool },
    Elapsed,
    Observed { reading: Result<Seq<char>, Seq<char>> },
}

impl View for LoopEvent {
    type V = EventView;

    open spec fn view(&self) -> EventView {
        match self {
            LoopEvent::Wake => EventView::Wake,
            LoopEvent::Stimulated { ok } => EventView::Stimulated { ok: *ok },
            LoopEvent::Elapsed => EventView::Elapsed,
            LoopEvent::Observed { reading } => EventView::Observed {
                reading: reading_view(*reading),
            },
        }
    }
}

/// The outside work that a step asks the driver to do next.
#[derive(Debug, PartialEq, Eq)]
pub enum LoopAction {
    /// Press the key, hold it for `hold_millis`, release it; report
    /// `Stimulated`.
    Stimulate { attempt: u32, hold_millis: u64 },
    /// Sleep for `secs` seconds; report `Elapsed`.
    Wait { secs: u64 },
    /// Ask the observer for the current identifier; report `Observed`.
    Observe,
    /// Announce that `server` was reached, then end the task.
    NotifySuccess { server: String },
    /// Announce that the attempts were used up, then end the task.
    NotifyMaxAttempts { attempts: u32 },
    /// End the task without a notification.
    Finish,
    /// The event was not the one this phase waits for: nothing changed.
    Ignore,
}

/// Mathematical model of a `LoopAction`.
pub enum ActionView {
    Stimulate { attempt: u32, hold_millis: u64 },
    Wait { secs: u64 },
    Observe,
    NotifySuccess { server: Seq<char> },
    NotifyMaxAttempts { attempts: u32 },
    Finish,
    Ignore,
}

impl View for LoopAction {
    type V = ActionView;

    open spec fn view(&self) -> ActionView {
        match self {
            LoopAction::Stimulate { attempt, hold_millis } => ActionView::Stimulate {
                attempt: *attempt,
                hold_millis: *hold_millis,
            },
            LoopAction::Wait { secs } => ActionView::Wait { secs: *secs },
            LoopAction::Observe => ActionView::Observe,
            LoopAction::NotifySuccess { server } => ActionView::NotifySuccess { server: server@ },
            LoopAction::NotifyMaxAttempts { attempts } => ActionView::NotifyMaxAttempts {
                attempts: *attempts,
            },
            LoopAction::Finish => ActionView::Finish,
            LoopAction::Ignore => ActionView::Ignore,
        }
    }
}

impl LoopAction {
    /// The name of the notification that this action sends, if it sends one.
    pub fn event_name(&self) -> (name: Option<&'static str>)
        ensures
            self@ is NotifySuccess ==> name == Some(SUCCESS_EVENT),
            self@ is NotifyMaxAttempts ==> name == Some(MAX_ATTEMPTS_EVENT),
            name is Some <==> self@.is_notification(),
    {
        match self {
            LoopAction::NotifySuccess { .. } => Some(SUCCESS_EVENT),
            LoopAction::NotifyMaxAttempts { .. } => Some(MAX_ATTEMPTS_EVENT),
            _ => None,
        }
    }
}

impl ActionView {
    /// Whether the action sends a notification to the listener.
    pub open spec fn is_notification(self) -> bool {
        self is NotifySuccess || self is NotifyMaxAttempts
    }
}

/// The outcome of one step: the session it leaves, the phase the loop is in
/// afterwards, and the work it asks of the driver.
pub struct StepView {
    pub session: SessionView,
    pub phase: RetryPhase,
    pub action: ActionView,
}

/// The step that opens an iteration: the guarded cancellation and exhaustion
/// check, and the stimulus if the attempt may go ahead.
pub open spec fn open_iteration(s: SessionView) -> StepView {
    let session = s.after_attempt_check();
    match s.attempt_check() {
        AttemptCheck::Cancelled => StepView {
            session,
            phase: RetryPhase::Cancelled,
            action: ActionView::Finish,
        },
        AttemptCheck::Exhausted { attempts } => StepView {
            session,
            phase: RetryPhase::Exhausted,
            action: ActionView::NotifyMaxAttempts { attempts },
        },
        AttemptCheck::Proceed { attempt } => StepView {
            session,
            phase: RetryPhase::Acting,
            action: ActionView::Stimulate { attempt, hold_millis: STIMULUS_HOLD_MILLIS },
        },
    }
}

/// The step taken when the observer has answered.
///
/// A failure of the observer counts as no match. An identifier is compared
/// with the live target; a cleared target ends the loop as cancelled.
pub open spec fn decide(s: SessionView, reading: Result<Seq<char>, Seq<char>>) -> StepView {
    match reading {
        Err(_) => StepView {
            session: s,
            phase: RetryPhase::Retrying,
            action: ActionView::Wait { secs: RETRY_DELAY_SECS },
        },
        Ok(server) => match s.verdict(server) {
            Verdict::Matched => StepView {
                session: s.after_observation(server),
                phase: RetryPhase::Succeeded,
                action: ActionView::NotifySuccess { server },
            },
            Verdict::Mismatch => StepView {
                session: s,
                phase: RetryPhase::Retrying,
                action: ActionView::Wait { secs: RETRY_DELAY_SECS },
            },
            Verdict::Cancelled => StepView {
                session: s,
                phase: RetryPhase::Cancelled,
                action: ActionView::Finish,
            },
        },
    }
}

/// Whether `event` is the one that a loop in `phase` waits for.
pub open spec fn awaited(phase: RetryPhase, event: EventView) -> bool {
    match phase {
        RetryPhase::Attempting => event is Wake,
        RetryPhase::Acting => event is Stimulated,
        RetryPhase::Settling => event is Elapsed,
        RetryPhase::Observing => event is Observed,
        RetryPhase::Retrying => event is Elapsed,
        _ => false,
    }
}

/// One step of the retry loop.
///
/// A loop that has ended stays where it is and asks only to finish. An event
/// that the phase does not wait for changes nothing. A failed stimulus and
/// the end of the retry pause both lead straight into the next iteration's
/// opening check, so the check is never skipped.
pub open spec fn step(s: SessionView, phase: RetryPhase, event: EventView) -> StepView {
    if phase.is_terminal() {
        StepView { session: s, phase, action: ActionView::Finish }
    } else if !awaited(phase, event) {
        StepView { session: s, phase, action: ActionView::Ignore }
    } else {
        match phase {
            RetryPhase::Acting => if event->ok {
                StepView {
                    session: s,
                    phase: RetryPhase::Settling,
                    action: ActionView::Wait { secs: SETTLE_SECS },
                }
            } else {
                open_iteration(s)
            },
            RetryPhase::Settling => StepView {
                session: s,
                phase: RetryPhase::Observing,
                action: ActionView::Observe,
            },
            RetryPhase::Observing => decide(s, event->reading),
            _ => open_iteration(s),
        }
    }
}

/// Opens an iteration: makes the guarded check and says what follows from it.
fn begin_iteration(state: &mut ScuttleState) -> (res: (RetryPhase, LoopAction))
    ensures
        final(state)@ == open_iteration(old(state)@).session,
        res.0 == open_iteration(old(state)@).phase,
        res.1@ == open_iteration(old(state)@).action,
        final(state)@.wf(),
{
    match state.begin_attempt() {
        AttemptCheck::Cancelled => (RetryPhase::Cancelled, LoopAction::Finish),
        AttemptCheck::Exhausted { attempts } => (
            RetryPhase::Exhausted,
            LoopAction::NotifyMaxAttempts { attempts },
        ),
        AttemptCheck::Proceed { attempt } => (
            RetryPhase::Acting,
            LoopAction::Stimulate { attempt, hold_millis: STIMULUS_HOLD_MILLIS },
        ),
    }
}

/// Decides what follows from the observer's answer.
fn decide_on(state: &mut ScuttleState, reading: Result<String, String>) -> (res: (
    RetryPhase,
    LoopAction,
))
    ensures
        final(state)@ == decide(old(state)@, reading_view(reading)).session,
        res.0 == decide(old(state)@, reading_view(reading)).phase,
        res.1@ == decide(old(state)@, reading_view(reading)).action,
        final(state)@.wf(),
{
    proof {
        use_type_invariant(&*state);
    }
    match reading {
        Err(_) => (RetryPhase::Retrying, LoopAction::Wait { secs: RETRY_DELAY_SECS }),
        Ok(server) => match state.judge_observation(&server) {
            Verdict::Matched => (RetryPhase::Succeeded, LoopAction::NotifySuccess { server }),
            Verdict::Mismatch => (RetryPhase::Retrying, LoopAction::Wait { secs: RETRY_DELAY_SECS }),
            Verdict::Cancelled => (RetryPhase::Cancelled, LoopAction::Finish),
        },
    }
}

/// Advances the retry loop by one step.
///
/// `phase` is where the loop stands and `event` is what the driver reports.
/// The result is the phase the loop is in afterwards and the work the driver
/// has to do next. The session is read and updated as one guarded operation.
pub fn retry_step(state: &mut ScuttleState, phase: RetryPhase, event: LoopEvent) -> (res: (
    RetryPhase,
    LoopAction,
))
    ensures
        final(state)@ == step(old(state)@, phase, event@).session,
        res.0 == step(old(state)@, phase, event@).phase,
        res.1@ == step(old(state)@, phase, event@).action,
        final(state)@.wf(),
{
    proof {
        use_type_invariant(&*state);
    }
    match phase {
        RetryPhase::Succeeded | RetryPhase::Exhausted | RetryPhase::Cancelled => (
            phase,
            LoopAction::Finish,
        ),
        RetryPhase::Attempting => match event {
            LoopEvent::Wake => begin_iteration(state),
            _ => (phase, LoopAction::Ignore),
        },
        RetryPhase::Acting => match event {
            LoopEvent::Stimulated { ok } => if ok {
                (RetryPhase::Settling, LoopAction::Wait { secs: SETTLE_SECS })
            } else {
                begin_iteration(state)
            },
            _ => (phase, LoopAction::Ignore),
        },
        RetryPhase::Settling => match event {
            LoopEvent::Elapsed => (RetryPhase::Observing, LoopAction::Observe),
            _ => (phase, LoopAction::Ignore),
        },
        RetryPhase::Observing => match event {
            LoopEvent::Observed { reading } => decide_on(state, reading),
            _ => (phase, LoopAction::Ignore),
        },
        RetryPhase::Retrying => match event {
            LoopEvent::Elapsed => begin_iteration(state),
            _ => (phase, LoopAction::Ignore),
        },
    }
}

} // verus!
