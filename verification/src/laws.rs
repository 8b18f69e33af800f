//! What holds of the session and the retry loop over whole runs.
//!
//! The laws are stated over the same models that the contracts of the
//! executable functions use: `SessionView` and its transitions, and `step`.

use vstd::prelude::*;
use crate::retry::{
    awaited, step, ActionView, EventView, RetryPhase, RETRY_DELAY_SECS, SETTLE_SECS,
};
use crate::session::{SessionView, MAX_ATTEMPTS};

verus! {

/// Whether a loop in `phase` that receives `event` goes straight into the
/// opening check of an iteration.
pub open spec fn opens_iteration(phase: RetryPhase, event: EventView) -> bool {
    ||| phase is Attempting && event is Wake
    ||| phase is Acting && event == (EventView::Stimulated { ok: false })
    ||| phase is Retrying && event is Elapsed
}

/// The session and the phase after a loop has received `events` in turn.
pub open spec fn drive(s: SessionView, phase: RetryPhase, events: Seq<EventView>) -> (
    SessionView,
    RetryPhase,
)
    decreases events.len(),
{
    if events.len() == 0 {
        (s, phase)
    } else {
        let first = step(s, phase, events[0]);
        drive(first.session, first.phase, events.skip(1))
    }
}

/// The actions that a loop asks for while it receives `events` in turn.
pub open spec fn trace(s: SessionView, phase: RetryPhase, events: Seq<EventView>) -> Seq<
    ActionView,
>
    decreases events.len(),
{
    if events.len() == 0 {
        Seq::empty()
    } else {
        let first = step(s, phase, events[0]);
        seq![first.action] + trace(first.session, first.phase, events.skip(1))
    }
}

/// Whether every event of `events` is the one the loop waits for when it
/// arrives, as long as the loop has not ended.
pub open spec fn in_turn(s: SessionView, phase: RetryPhase, events: Seq<EventView>) -> bool
    decreases events.len(),
{
    if events.len() == 0 {
        true
    } else {
        let first = step(s, phase, events[0]);
        &&& phase.is_terminal() || awaited(phase, events[0])
        &&& in_turn(first.session, first.phase, events.skip(1))
    }
}

/// How many of `actions` are notifications.
pub open spec fn notifications(actions: Seq<ActionView>) -> nat
    decreases actions.len(),
{
    if actions.len() == 0 {
        0
    } else {
        notifications(actions.skip(1)) + if actions[0].is_notification() {
            1nat
        } else {
            0nat
        }
    }
}

/// How many of `actions` are stimuli, that is, attempts that went ahead.
pub open spec fn stimuli(actions: Seq<ActionView>) -> nat
    decreases actions.len(),
{
    if actions.len() == 0 {
        0
    } else {
        stimuli(actions.skip(1)) + if actions[0] is Stimulate {
            1nat
        } else {
            0nat
        }
    }
}

/// The seconds of waiting that `actions` ask for in all.
pub open spec fn waited(actions: Seq<ActionView>) -> nat
    decreases actions.len(),
{
    if actions.len() == 0 {
        0
    } else {
        waited(actions.skip(1)) + match actions[0] {
            ActionView::Wait { secs } => secs as nat,
            _ => 0nat,
        }
    }
}

/// The most steps a loop in `phase` takes, once its run has been stopped,
/// before it ends: the rest of the iteration it is in.
pub open spec fn steps_left_after_stop(phase: RetryPhase) -> nat {
    match phase {
        RetryPhase::Acting => 4,
        RetryPhase::Settling => 3,
        RetryPhase::Observing => 2,
        RetryPhase::Attempting | RetryPhase::Retrying => 1,
        _ => 0,
    }
}

/// The longest a loop in `phase` still waits, in seconds, once its run has
/// been stopped: the settling time if it has not begun, and one retry pause
/// in case the observer fails.
pub open spec fn wait_left_after_stop(phase: RetryPhase) -> nat {
    match phase {
        RetryPhase::Acting => (SETTLE_SECS + RETRY_DELAY_SECS) as nat,
        RetryPhase::Settling | RetryPhase::Observing => RETRY_DELAY_SECS as nat,
        _ => 0,
    }
}

/// The most steps a loop in `phase` takes on session `s` before it ends, if
/// nobody else touches the session: four for each attempt that is still
/// allowed, and the rest of the iteration it is in.
pub open spec fn steps_left(s: SessionView, phase: RetryPhase) -> nat {
    if s.running {
        (4 * (MAX_ATTEMPTS - s.attempts) + steps_left_after_stop(phase)) as nat
    } else {
        steps_left_after_stop(phase)
    }
}

/// Every step keeps the session invariant, and within a run the attempt
/// count never goes down.
pub proof fn law_step_keeps_invariant(s: SessionView, phase: RetryPhase, event: EventView)
    requires
        s.wf(),
    ensures
        step(s, phase, event).session.wf(),
        step(s, phase, event).session.attempts >= s.attempts,
        step(s, phase, event).session.attempts <= MAX_ATTEMPTS,
{
}

/// Every control operation keeps the session invariant.
pub proof fn law_control_keeps_invariant(s: SessionView, target: Seq<char>)
    requires
        s.wf(),
    ensures
        s.start(target).wf(),
        s.stop().wf(),
        SessionView::idle().wf(),
{
}

/// A start that is accepted leaves the session running, and a second start
/// that follows it is rejected and changes nothing.
pub proof fn law_second_start_is_rejected(s: SessionView, first: Seq<char>, second: Seq<char>)
    requires
        !s.running,
    ensures
        s.start(first).running,
        s.start(first).target == Some(first),
        s.start(first).start(second) == s.start(first),
{
}

/// A loop ends as exhausted exactly when it opens an iteration of an active
/// run whose next attempt would exceed the maximum. The session then keeps
/// its attempt count, and the notification carries it.
pub proof fn law_exhausted_exactly_when_next_attempt_exceeds(
    s: SessionView,
    phase: RetryPhase,
    event: EventView,
)
    requires
        s.wf(),
        !phase.is_terminal(),
    ensures
        step(s, phase, event).phase is Exhausted <==> opens_iteration(phase, event) && s.running
            && s.attempts + 1 > MAX_ATTEMPTS,
        step(s, phase, event).phase is Exhausted ==> {
            &&& s.attempts == MAX_ATTEMPTS
            &&& step(s, phase, event).session == s.ended()
            &&& step(s, phase, event).action == (ActionView::NotifyMaxAttempts {
                attempts: MAX_ATTEMPTS,
            })
        },
{
}

/// When the observer returns the target of an active run, the loop succeeds:
/// the run is ended in that step, the attempt count stays, and the success
/// notification carries the observed identifier.
pub proof fn law_match_succeeds(s: SessionView, observed: Seq<char>)
    requires
        s.wf(),
        s.target == Some(observed),
    ensures
        step(s, RetryPhase::Observing, EventView::Observed { reading: Ok(observed) }).phase
            is Succeeded,
        step(s, RetryPhase::Observing, EventView::Observed { reading: Ok(observed) }).action == (
        ActionView::NotifySuccess { server: observed }),
        step(s, RetryPhase::Observing, EventView::Observed { reading: Ok(observed) }).session
            == s.ended(),
        !s.ended().running,
{
}

/// A loop that has ended stays ended: whatever it receives, it leaves the
/// session alone, makes no attempt and sends no notification.
pub proof fn law_ended_loop_is_silent(s: SessionView, phase: RetryPhase, events: Seq<EventView>)
    requires
        phase.is_terminal(),
    ensures
        drive(s, phase, events) == (s, phase),
        notifications(trace(s, phase, events)) == 0,
        stimuli(trace(s, phase, events)) == 0,
        waited(trace(s, phase, events)) == 0,
    decreases events.len(),
{
    if events.len() > 0 {
        law_ended_loop_is_silent(s, phase, events.skip(1));
        let rest = trace(s, phase, events.skip(1));
        assert(trace(s, phase, events).skip(1) =~= rest);
    }
}

/// Whatever a loop receives, it sends at most one notification, and only
/// when it ends as succeeded or exhausted.
pub proof fn law_at_most_one_notification(
    s: SessionView,
    phase: RetryPhase,
    events: Seq<EventView>,
)
    ensures
        notifications(trace(s, phase, events)) <= 1,
        notifications(trace(s, phase, events)) == 1 ==> !phase.is_terminal() && (drive(
            s,
            phase,
            events,
        ).1 is Succeeded || drive(s, phase, events).1 is Exhausted),
    decreases events.len(),
{
    if events.len() > 0 {
        let first = step(s, phase, events[0]);
        let rest = trace(first.session, first.phase, events.skip(1));
        assert(trace(s, phase, events).skip(1) =~= rest);
        if first.phase.is_terminal() {
            law_ended_loop_is_silent(first.session, first.phase, events.skip(1));
        } else {
            law_at_most_one_notification(first.session, first.phase, events.skip(1));
        }
    }
}

/// After a match nothing more happens: the steps that follow the success
/// make no attempt and send no second notification.
pub proof fn law_nothing_follows_success(
    s: SessionView,
    observed: Seq<char>,
    events: Seq<EventView>,
)
    requires
        s.wf(),
        s.target == Some(observed),
        events.len() > 0,
        events[0] == (EventView::Observed { reading: Ok(observed) }),
    ensures
        drive(s, RetryPhase::Observing, events) == (s.ended(), RetryPhase::Succeeded),
        notifications(trace(s, RetryPhase::Observing, events)) == 1,
        stimuli(trace(s, RetryPhase::Observing, events)) == 0,
        trace(s, RetryPhase::Observing, events)[0] == (ActionView::NotifySuccess {
            server: observed,
        }),
{
    let first = step(s, RetryPhase::Observing, events[0]);
    law_ended_loop_is_silent(first.session, first.phase, events.skip(1));
    let rest = trace(first.session, first.phase, events.skip(1));
    assert(trace(s, RetryPhase::Observing, events).skip(1) =~= rest);
}

/// Once a run has been stopped, an observation never counts as a success:
/// whatever the observer returns, even the target of the stopped run, the
/// loop ends as cancelled, sends nothing and leaves the session alone.
pub proof fn law_no_success_after_stop(
    s: SessionView,
    reading: Seq<char>,
)
    ensures
        step(s.stop(), RetryPhase::Observing, EventView::Observed { reading: Ok(reading) }).phase
            is Cancelled,
        step(s.stop(), RetryPhase::Observing, EventView::Observed { reading: Ok(reading) }).action
            is Finish,
        step(s.stop(), RetryPhase::Observing, EventView::Observed { reading: Ok(reading) }).session
            == s.stop(),
{
}

/// A stopped run is noticed within the iteration the loop is in: while no
/// new run is started, every step leaves the session alone, makes no new
/// attempt and sends no notification, and the loop has ended as cancelled
/// once it has received as many events as that iteration has steps left.
/// Until then it waits for no more than one settling time and one retry
/// pause.
pub proof fn law_stop_is_noticed_within_one_iteration(
    s: SessionView,
    phase: RetryPhase,
    events: Seq<EventView>,
)
    requires
        s.wf(),
        !s.running,
        !phase.is_terminal(),
        in_turn(s, phase, events),
    ensures
        drive(s, phase, events).0 == s,
        notifications(trace(s, phase, events)) == 0,
        stimuli(trace(s, phase, events)) == 0,
        events.len() >= steps_left_after_stop(phase) ==> drive(s, phase, events).1 is Cancelled,
        steps_left_after_stop(phase) <= 4,
        waited(trace(s, phase, events)) <= wait_left_after_stop(phase),
        wait_left_after_stop(phase) <= SETTLE_SECS + RETRY_DELAY_SECS,
    decreases events.len(),
{
    if events.len() > 0 {
        let first = step(s, phase, events[0]);
        let rest = trace(first.session, first.phase, events.skip(1));
        assert(trace(s, phase, events).skip(1) =~= rest);
        assert(first.session == s);
        if first.phase.is_terminal() {
            law_ended_loop_is_silent(first.session, first.phase, events.skip(1));
        } else {
            law_stop_is_noticed_within_one_iteration(s, first.phase, events.skip(1));
        }
    }
}

/// The attempt count is the number of stimuli asked for: while only the
/// loop touches the session, each stimulus is counted once, and nothing else
/// is. So a run never makes more attempts than the maximum.
pub proof fn law_attempts_count_the_stimuli(
    s: SessionView,
    phase: RetryPhase,
    events: Seq<EventView>,
)
    requires
        s.wf(),
    ensures
        drive(s, phase, events).0.attempts == s.attempts + stimuli(trace(s, phase, events)),
        s.attempts + stimuli(trace(s, phase, events)) <= MAX_ATTEMPTS,
        drive(s, phase, events).0.wf(),
    decreases events.len(),
{
    if events.len() > 0 {
        let first = step(s, phase, events[0]);
        let rest = trace(first.session, first.phase, events.skip(1));
        assert(trace(s, phase, events).skip(1) =~= rest);
        law_attempts_count_the_stimuli(first.session, first.phase, events.skip(1));
    }
}

/// Every run ends: a loop that receives its events in turn, on a session
/// that nobody else touches, has ended once it has received `steps_left`
/// events, and that is never more than forty-four.
pub proof fn law_every_run_ends(s: SessionView, phase: RetryPhase, events: Seq<EventView>)
    requires
        s.wf(),
        in_turn(s, phase, events),
        events.len() >= steps_left(s, phase),
    ensures
        drive(s, phase, events).1.is_terminal(),
        steps_left(s, phase) <= 4 * MAX_ATTEMPTS + 4,
    decreases events.len(),
{
    if phase.is_terminal() {
        law_ended_loop_is_silent(s, phase, events);
    } else {
        let first = step(s, phase, events[0]);
        if first.phase.is_terminal() {
            law_ended_loop_is_silent(first.session, first.phase, events.skip(1));
        } else {
            assert(steps_left(first.session, first.phase) < steps_left(s, phase));
            law_every_run_ends(first.session, first.phase, events.skip(1));
        }
    }
}

} // verus!
