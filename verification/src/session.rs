//! The session record and the control operations on it.
//!
//! Every operation here is one atomic update: it takes the session by
//! exclusive reference, which a caller obtains by holding the session's
//! guard, and leaves it in a state that satisfies the session invariant.

use vstd::prelude::*;

verus! {

/// The largest number of attempts a single run may make.
pub const MAX_ATTEMPTS: u32 = 10;

/// The message with which `start_scuttle` rejects a second run.
pub const ALREADY_RUNNING: &'static str = "already_running";

/// What the guarded check at the top of an iteration decided.
#[derive(Clone, Copy, Debug, PartialEq, Eq, Structural)]
pub enum AttemptCheck {
    /// No run is active any more: the loop ends without touching the session.
    Cancelled,
    /// Another attempt would exceed the maximum: the run has been ended.
    Exhausted { attempts: u32 },
    /// The attempt with this number may go ahead.
    Proceed { attempt: u32 },
}

/// How an observed identifier compares with the live target.
#[derive(Clone, Copy, Debug, PartialEq, Eq, Structural)]
pub enum Verdict {
    /// The observed identifier is the target: the run has been ended.
    Matched,
    /// A target is sought and the observed identifier is another one.
    Mismatch,
    /// The target has been cleared: the run is no longer seeking.
    Cancelled,
}

/// Mathematical model of a session.
pub struct SessionView {
    /// Whether a retry loop currently owns the session.
    pub running: bool,
    /// The identifier sought by the current run.
    pub target: Option<Seq<char>>,
    /// Attempts made in the current run.
    pub attempts: nat,
}

impl SessionView {
    /// The session invariant: a target is present exactly while a run is
    /// active, and the attempt count never exceeds the maximum.
    pub open spec fn wf(self) -> bool {
        &&& self.running <==> self.target is Some
        &&& self.attempts <= MAX_ATTEMPTS
    }

    /// The empty session: no run, no target, no attempts.
    pub open spec fn idle() -> SessionView {
        SessionView { running: false, target: None, attempts: 0 }
    }

    /// The session right after a run for `target` has been claimed.
    pub open spec fn claimed(target: Seq<char>) -> SessionView {
        SessionView { running: true, target: Some(target), attempts: 0 }
    }

    /// The session after a start request: unchanged while a run is active,
    /// otherwise claimed for `target`.
    pub open spec fn start(self, target: Seq<char>) -> SessionView {
        if self.running {
            self
        } else {
            SessionView::claimed(target)
        }
    }

    /// The session after a stop request.
    pub open spec fn stop(self) -> SessionView {
        SessionView::idle()
    }

    /// The session after its run has ended by itself: the run flag and the
    /// target are cleared together, the attempt count stays.
    pub open spec fn ended(self) -> SessionView {
        SessionView { running: false, target: None, attempts: self.attempts }
    }

    /// Whether one more attempt would exceed the maximum.
    pub open spec fn exhausted(self) -> bool {
        self.attempts + 1 > MAX_ATTEMPTS
    }

    /// The decision of the check at the top of an iteration.
    pub open spec fn attempt_check(self) -> AttemptCheck {
        if !self.running {
            AttemptCheck::Cancelled
        } else if self.exhausted() {
            AttemptCheck::Exhausted { attempts: self.attempts as u32 }
        } else {
            AttemptCheck::Proceed { attempt: (self.attempts + 1) as u32 }
        }
    }

    /// The session after the check at the top of an iteration: unchanged when
    /// no run is active, ended when the attempts are used up, otherwise with
    /// one more attempt counted.
    pub open spec fn after_attempt_check(self) -> SessionView {
        if !self.running {
            self
        } else if self.exhausted() {
            self.ended()
        } else {
            SessionView { attempts: self.attempts + 1, ..self }
        }
    }

    /// How `observed` compares with the target that is live in this session.
    pub open spec fn verdict(self, observed: Seq<char>) -> Verdict {
        match self.target {
            None => Verdict::Cancelled,
            Some(t) => if t == observed {
                Verdict::Matched
            } else {
                Verdict::Mismatch
            },
        }
    }

    /// The session after `observed` has been compared with the live target:
    /// ended on a match, unchanged otherwise.
    pub open spec fn after_observation(self, observed: Seq<char>) -> SessionView {
        if self.target == Some(observed) {
            self.ended()
        } else {
            self
        }
    }
}

/// The shared record of the current run.
pub struct ScuttleState {
    target_server: Option<String>,
    running: bool,
    attempts: u32,
}

impl View for ScuttleState {
    type V = SessionView;

    closed spec fn view(&self) -> SessionView {
        SessionView {
            running: self.running,
            target: match self.target_server {
                Some(t) => Some(t@),
                None => None,
            },
            attempts: self.attempts as nat,
        }
    }
}

impl ScuttleState {
    /// Every session that exists satisfies the session invariant.
    #[verifier::type_invariant]
    pub open spec fn well_formed(self) -> bool {
        self@.wf()
    }

    /// An empty session.
    pub fn new() -> (state: ScuttleState)
        ensures
            state@ == SessionView::idle(),
    {
        ScuttleState { target_server: None, running: false, attempts: 0 }
    }

    /// Whether a run is active.
    pub fn running(&self) -> (running: bool)
        ensures
            running == self@.running,
    {
        self.running
    }

    /// The attempts made in the current run.
    pub fn attempts(&self) -> (attempts: u32)
        ensures
            attempts == self@.attempts,
            attempts <= MAX_ATTEMPTS,
    {
        proof {
            use_type_invariant(self);
        }
        self.attempts
    }

    /// The identifier that the current run seeks, if a run is active.
    pub fn target_server(&self) -> (target: Option<&String>)
        ensures
            target is Some <==> self@.running,
            target matches Some(t) ==> self@.target == Some(t@),
    {
        proof {
            use_type_invariant(self);
        }
        match &self.target_server {
            Some(t) => Some(t),
            None => None,
        }
    }

    /// The guarded check at the top of an iteration of the retry loop.
    ///
    /// Without an active run it reports a cancellation and changes nothing.
    /// When one more attempt would exceed the maximum it ends the run in the
    /// same update. Otherwise it counts the attempt and hands out its number.
    pub fn begin_attempt(&mut self) -> (check: AttemptCheck)
        ensures
            check == old(self)@.attempt_check(),
            final(self)@ == old(self)@.after_attempt_check(),
            final(self)@.wf(),
    {
        proof {
            use_type_invariant(&*self);
        }
        if !self.running {
            return AttemptCheck::Cancelled;
        }
        let made: u32 = self.attempts;
        if made >= MAX_ATTEMPTS {
            *self = ScuttleState { target_server: None, running: false, attempts: made };
            return AttemptCheck::Exhausted { attempts: made };
        }
        self.attempts = made + 1;
        AttemptCheck::Proceed { attempt: made + 1 }
    }

    /// Compares an observed identifier with the live target, under the guard.
    ///
    /// On a match the run is ended in the same update. A cleared target means
    /// the run was cancelled meanwhile; that is reported as such and is never
    /// taken for a match or a mismatch.
    pub fn judge_observation(&mut self, observed: &String) -> (verdict: Verdict)
        ensures
            verdict == old(self)@.verdict(observed@),
            final(self)@ == old(self)@.after_observation(observed@),
            final(self)@.wf(),
    {
        proof {
            use_type_invariant(&*self);
        }
        let matched: bool = match &self.target_server {
            None => {
                return Verdict::Cancelled;
            },
            Some(target) => *target == *observed,
        };
        if matched {
            let made: u32 = self.attempts;
            *self = ScuttleState { target_server: None, running: false, attempts: made };
            Verdict::Matched
        } else {
            Verdict::Mismatch
        }
    }
}

impl Default for ScuttleState {
    /// An empty session.
    fn default() -> (state: ScuttleState)
        ensures
            state@ == SessionView::idle(),
    {
        ScuttleState::new()
    }
}

/// Claims the session for a run that seeks `target_server`.
///
/// Fails with `already_running`, changing nothing, while a run is active.
/// On success the caller owes the session exactly one retry loop.
pub fn start_scuttle(state: &mut ScuttleState, target_server: String) -> (res: Result<(), String>)
    ensures
        final(state)@ == old(state)@.start(target_server@),
        final(state)@.wf(),
        res is Err <==> old(state)@.running,
        res is Err ==> res->Err_0@ == ALREADY_RUNNING@,
        res is Ok ==> final(state)@.running,
{
    proof {
        use_type_invariant(&*state);
    }
    if state.running {
        return Err(ALREADY_RUNNING.to_owned());
    }
    *state = ScuttleState { target_server: Some(target_server), running: true, attempts: 0 };
    Ok(())
}

/// Cancels the current run, if any, and empties the session.
pub fn stop_scuttle(state: &mut ScuttleState) -> (res: Result<(), String>)
    ensures
        res is Ok,
        final(state)@ == old(state)@.stop(),
        final(state)@.wf(),
{
    *state = ScuttleState { target_server: None, running: false, attempts: 0 };
    Ok(())
}

/// Reads whether a run is active and how many attempts it has made.
pub fn get_scuttle_status(state: &ScuttleState) -> (res: Result<(bool, u32), String>)
    ensures
        res is Ok,
        res->Ok_0.0 == state@.running,
        res->Ok_0.1 == state@.attempts,
        res->Ok_0.1 <= MAX_ATTEMPTS,
{
    proof {
        use_type_invariant(state);
    }
    Ok((state.running, state.attempts))
}

} // verus!
