//! The session together with the loop tasks that share it.
//!
//! A `System` is a model of everything that touches one session: the
//! control surface, which starts, stops and queries, and the loop tasks,
//! one spawned by each accepted start. Each call is one guarded update, so a
//! concurrent execution is a sequence of calls in the order in which they
//! took the guard.

use vstd::prelude::*;
use crate::retry::{step, EventView, RetryPhase};
use crate::session::{SessionView, MAX_ATTEMPTS};

verus! {

/// One guarded call on the shared session.
pub enum Call {
    /// The control surface asks for a run that seeks `target`.
    Start { target: Seq<char> },
    /// The control surface cancels the run.
    Stop,
    /// The control surface reads the status.
    Status,
    /// The loop task with number `task` reports `event`.
    Step { task: nat, event: EventView },
}

/// The session and the phase of every loop task spawned so far.
pub struct System {
    pub session: SessionView,
    pub tasks: Seq<RetryPhase>,
}

impl System {
    /// The system before any call: an empty session and no task.
    pub open spec fn initial() -> System {
        System { session: SessionView::idle(), tasks: Seq::empty() }
    }

    /// Whether the loop task with number `task` exists and has not ended.
    pub open spec fn live(self, task: int) -> bool {
        0 <= task < self.tasks.len() && !self.tasks[task].is_terminal()
    }

    /// Whether every loop task has ended.
    pub open spec fn all_ended(self) -> bool {
        forall|i: int| !self.live(i)
    }

    /// Whether no two loop tasks are live at once.
    pub open spec fn at_most_one_live(self) -> bool {
        forall|i: int, j: int| self.live(i) && self.live(j) ==> i == j
    }

    /// The system after one call. An accepted start spawns one loop task; a
    /// step by a task that was never spawned changes nothing.
    pub open spec fn apply(self, call: Call) -> System {
        match call {
            Call::Start { target } => System {
                session: self.session.start(target),
                tasks: if self.session.running {
                    self.tasks
                } else {
                    self.tasks.push(RetryPhase::Attempting)
                },
            },
            Call::Stop => System { session: self.session.stop(), tasks: self.tasks },
            Call::Status => self,
            Call::Step { task, event } => if task < self.tasks.len() {
                let outcome = step(self.session, self.tasks[task as int], event);
                System {
                    session: outcome.session,
                    tasks: self.tasks.update(task as int, outcome.phase),
                }
            } else {
                self
            },
        }
    }

    /// The system after `calls` in turn.
    pub open spec fn run(self, calls: Seq<Call>) -> System
        decreases calls.len(),
    {
        if calls.len() == 0 {
            self
        } else {
            self.run(calls.drop_last()).apply(calls.last())
        }
    }

    /// Whether `calls` restart only after the previous loop has ended: no
    /// start arrives while the session is idle and a loop task of a stopped
    /// run has not yet noticed the stop.
    pub open spec fn restarts_after_loop_ended(self, calls: Seq<Call>) -> bool
        decreases calls.len(),
    {
        if calls.len() == 0 {
            true
        } else {
            let before = self.run(calls.drop_last());
            &&& self.restarts_after_loop_ended(calls.drop_last())
            &&& calls.last() is Start ==> before.session.running || before.all_ended()
        }
    }
}

/// After any sequence of calls the session invariant holds: a target is
/// present exactly while a run is active, and the attempt count is at most
/// the maximum. While a run is active, one of the loop tasks is live.
pub proof fn law_invariant_after_any_calls(calls: Seq<Call>)
    ensures
        System::initial().run(calls).session.wf(),
        System::initial().run(calls).session.attempts <= MAX_ATTEMPTS,
        System::initial().run(calls).session.running ==> exists|i: int|
            System::initial().run(calls).live(i),
    decreases calls.len(),
{
    if calls.len() > 0 {
        law_invariant_after_any_calls(calls.drop_last());
        let before = System::initial().run(calls.drop_last());
        let after = before.apply(calls.last());
        assert(after == System::initial().run(calls));
        if after.session.running {
            match calls.last() {
                Call::Start { target } => {
                    if before.session.running {
                        let i = choose|i: int| before.live(i);
                        assert(after.live(i));
                    } else {
                        assert(after.live(before.tasks.len() as int));
                    }
                },
                Call::Stop => {},
                Call::Status => {
                    let i = choose|i: int| before.live(i);
                    assert(after.live(i));
                },
                Call::Step { task, event } => {
                    if task < before.tasks.len() {
                        let outcome = step(before.session, before.tasks[task as int], event);
                        assert(before.session.running);
                        let i = choose|i: int| before.live(i);
                        if i == task {
                            assert(!outcome.phase.is_terminal());
                            assert(after.live(i));
                        } else {
                            assert(after.live(i));
                        }
                    } else {
                        let i = choose|i: int| before.live(i);
                        assert(after.live(i));
                    }
                },
            }
        }
    }
}

/// As long as no run is started while the loop of a stopped run is still
/// live, at most one loop task is live at any time, whatever the calls and
/// their order.
///
/// Without that condition the claim fails: a start, a stop and a second
/// start in a row leave the first loop live beside the second.
pub proof fn law_at_most_one_live_loop(calls: Seq<Call>)
    requires
        System::initial().restarts_after_loop_ended(calls),
    ensures
        System::initial().run(calls).at_most_one_live(),
    decreases calls.len(),
{
    if calls.len() > 0 {
        law_at_most_one_live_loop(calls.drop_last());
        let before = System::initial().run(calls.drop_last());
        let after = before.apply(calls.last());
        assert(after == System::initial().run(calls));
        assert forall|i: int, j: int| after.live(i) && after.live(j) implies i == j by {
            match calls.last() {
                Call::Start { target } => {
                    if !before.session.running {
                        assert(!before.live(i));
                        assert(!before.live(j));
                    } else {
                        assert(before.live(i) && before.live(j));
                    }
                },
                Call::Stop => {
                    assert(before.live(i) && before.live(j));
                },
                Call::Status => {
                    assert(before.live(i) && before.live(j));
                },
                Call::Step { task, event } => {
                    assert(before.live(i) && before.live(j));
                },
            }
        }
    }
}

} // verus!
