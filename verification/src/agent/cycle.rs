//! One task chain cycle of the scheduler: start, stepping, ready reports, end
//! and pacing.
use vstd::prelude::*;
use crate::agent::scheduler::{
    is_step_or_ready, ready_before, spec_steps, ActivityState, Emission, Phase, Scheduler,
};
use crate::feo_time::duration::Duration;
use crate::ids::ActivityId;
use crate::signals::Signal;

verus! {

/// A ready report that the log holds before some position is still there
/// after the log has grown.
pub proof fn lemma_ready_before_push(log: Seq<Emission>, e: Emission, a: ActivityId, k: int)
    requires
        ready_before(log, a, k),
    ensures
        ready_before(log.push(e), a, k),
        ready_before(log.push(e), a, k + 1),
{
    let m = choose|m: int| 0 <= m < k && m < log.len() && log[m] == Emission::Ready(a);
    assert(log.push(e)[m] == Emission::Ready(a));
}

/// What was justified in a log stays justified when the log grows by an entry
/// that is itself justified, and what was accounted for stays accounted for.
proof fn lemma_log_grows(before: Scheduler, after: Scheduler, e: Emission)
    requires
        before.wf(),
        after.wf(),
        after.activity_depends == before.activity_depends,
        after.log@ == before.log@.push(e),
        forall|k: int| 0 <= k < before.log@.len() ==> before.step_justified(k),
        before.flags_logged(),
        // the new entry is justified
        forall|i: int|
            0 <= i < before.n() && e == Emission::Step(before.id(i)) ==> before.spec_deps_ready(i),
        // a flag that was raised has its report in the log
        forall|j: int|
            0 <= j < before.n() && after.ready(j) ==> before.ready(j) || e == Emission::Ready(
                before.id(j),
            ),
    ensures
        forall|k: int| 0 <= k < after.log@.len() ==> after.step_justified(k),
        after.flags_logged(),
{
    let old_len = before.log@.len() as int;
    assert forall|k: int| 0 <= k < after.log@.len() implies after.step_justified(k) by {
        assert forall|i: int, j: int|
            #[trigger] after.depends(i, j) && after.log@[k] == Emission::Step(
                after.id(i),
            ) implies ready_before(after.log@, after.id(j), k) by {
            assert(before.depends(i, j));
            if k < old_len {
                assert(before.step_justified(k));
                assert(before.log@[k] == Emission::Step(before.id(i)));
                assert(ready_before(before.log@, before.id(j), k));
                lemma_ready_before_push(before.log@, e, before.id(j), k);
            } else {
                assert(e == Emission::Step(before.id(i)));
                assert(before.spec_deps_ready(i));
                assert(before.ready(j));
                assert(ready_before(before.log@, before.id(j), old_len));
                lemma_ready_before_push(before.log@, e, before.id(j), old_len);
            }
        }
    }
    assert forall|j: int| 0 <= j < after.n() && after.ready(j) implies ready_before(
        after.log@,
        after.id(j),
        after.log@.len() as int,
    ) by {
        if before.ready(j) {
            assert(ready_before(before.log@, before.id(j), old_len));
            lemma_ready_before_push(before.log@, e, before.id(j), old_len);
        } else {
            assert(after.log@[old_len] == Emission::Ready(after.id(j)));
        }
    }
}

/// What was justified and accounted for stays so while the log and the flags
/// stay as they are.
proof fn lemma_log_kept(before: Scheduler, after: Scheduler)
    requires
        before.wf(),
        after.wf(),
        after.activity_depends == before.activity_depends,
        after.log@ == before.log@,
        after.activity_states@ == before.activity_states@,
        forall|k: int| 0 <= k < before.log@.len() ==> before.step_justified(k),
        before.flags_logged(),
    ensures
        forall|k: int| 0 <= k < after.log@.len() ==> after.step_justified(k),
        after.flags_logged(),
        after.spec_is_all_ready() == before.spec_is_all_ready(),
{
    assert forall|k: int| 0 <= k < after.log@.len() implies after.step_justified(k) by {
        assert forall|i: int, j: int|
            #[trigger] after.depends(i, j) && after.log@[k] == Emission::Step(
                after.id(i),
            ) implies ready_before(after.log@, after.id(j), k) by {
            assert(before.depends(i, j));
            assert(before.step_justified(k));
        }
    }
}

impl Scheduler {
    /// The activity that a signal reports ready, if it is one of the
    /// scheduler's.
    pub open spec fn spec_marked(&self, signal: Signal) -> Option<ActivityId> {
        match signal {
            Signal::Ready((id, _)) => if self.activity_depends.spec_contains(id) {
                Some(id)
            } else {
                None
            },
            _ => None,
        }
    }

    /// Whether the `i`-th activity counts as ready once `marked` has been
    /// taken note of.
    pub open spec fn spec_ready_after(&self, i: int, marked: Option<ActivityId>) -> bool {
        self.ready(i) || marked == Some(self.id(i))
    }

    /// Starts a task chain: clears the triggered and the ready flag of every
    /// activity.
    pub fn start_task_chain(&mut self)
        requires
            old(self).wf(),
        ensures
            final(self).inv(),
            final(self).phase == Phase::Stepping,
            final(self).log@ == seq![Emission::TaskChainStart],
            final(self).activity_depends == old(self).activity_depends,
            final(self).cycle_time == old(self).cycle_time,
            forall|i: int| 0 <= i < final(self).n() ==> !final(self).triggered(i) && !final(self).ready(i),
    {
        let n = self.activity_states.len();
        let mut i: usize = 0;
        while i < n
            invariant
                self.wf(),
                n == self.n(),
                i <= n,
                self.activity_depends == old(self).activity_depends,
                self.cycle_time == old(self).cycle_time,
                forall|k: int| 0 <= k < i ==> !self.triggered(k) && !self.ready(k),
            decreases n - i,
        {
            self.activity_states[i] = ActivityState { triggered: false, ready: false };
            i += 1;
        }
        self.phase = Phase::Stepping;
        proof {
            self.log@ = seq![Emission::TaskChainStart];
        }
        assert(self.log_running()) by {
            assert forall|k: int| 0 <= k < self.log@.len() implies self.step_justified(k) by {}
        }
    }

    /// Steps each activity whose dependencies have reported ready: returns, in
    /// the order of the dependency map, the activities that have not been
    /// triggered and depend on nothing that is not ready, and marks them as
    /// triggered. The caller sends a step signal to each of them, in that
    /// order. An activity that depends on nothing is returned by the first
    /// call of every task chain.
    pub fn step_foreach_ready(&mut self) -> (out: Vec<ActivityId>)
        requires
            old(self).inv(),
            old(self).phase == Phase::Stepping,
        ensures
            final(self).inv(),
            final(self).phase == Phase::Stepping,
            final(self).activity_depends == old(self).activity_depends,
            final(self).cycle_time == old(self).cycle_time,
            out@ == old(self).spec_dispatch(old(self).n()),
            final(self).log@ == old(self).log@ + spec_steps(out@),
            forall|i: int|
                0 <= i < old(self).n() ==> (#[trigger] final(self).activity_states@[i]).ready == old(self).ready(i),
            forall|i: int|
                0 <= i < old(self).n() ==> (#[trigger] final(self).activity_states@[i]).triggered == (old(self).triggered(i) || old(self).spec_dispatchable(i)),
    {
        let ghost s0 = *self;
        let n = self.activity_states.len();
        let mut out: Vec<ActivityId> = Vec::new();
        let mut i: usize = 0;
        assert(self.log@ =~= s0.log@ + spec_steps(out@));
        while i < n
            invariant
                s0.wf(),
                self.wf(),
                self.log_running(),
                self.phase == Phase::Stepping,
                self.activity_depends == s0.activity_depends,
                self.cycle_time == s0.cycle_time,
                n == s0.n(),
                i <= n,
                out@ == s0.spec_dispatch(i as int),
                self.log@ == s0.log@ + spec_steps(out@),
                forall|k: int|
                    0 <= k < n ==> (#[trigger] self.activity_states@[k]).ready == s0.ready(k),
                forall|k: int|
                    0 <= k < i ==> (#[trigger] self.activity_states@[k]).triggered == (s0.triggered(k)
                        || s0.spec_dispatchable(k)),
                forall|k: int|
                    i <= k < n ==> (#[trigger] self.activity_states@[k]).triggered == s0.triggered(k),
            decreases n - i,
        {
            let ghost before = *self;
            let ghost prev_out = out@;
            let untriggered = !self.activity_states[i].triggered;
            let deps_ready = self.deps_ready(i);
            proof {
                assert(self.spec_deps_ready(i as int) == s0.spec_deps_ready(i as int)) by {
                    if s0.spec_deps_ready(i as int) {
                        assert forall|j: int| #[trigger] self.depends(i as int, j) implies self.ready(
                            j,
                        ) by {
                            assert(s0.depends(i as int, j));
                        }
                    }
                    if self.spec_deps_ready(i as int) {
                        assert forall|j: int| #[trigger] s0.depends(i as int, j) implies s0.ready(
                            j,
                        ) by {
                            assert(self.depends(i as int, j));
                        }
                    }
                }
            }
            if untriggered && deps_ready {
                let id = self.activity_depends.entries[i].0;
                out.push(id);
                self.activity_states[i].triggered = true;
                proof {
            self.log@ = self.log@.push(Emission::Step(id));
        }
                proof {
                    assert(self.log@ =~= s0.log@ + spec_steps(out@));
                    assert forall|x: int|
                        0 <= x < before.n() && Emission::Step(id) == Emission::Step(
                            before.id(x),
                        ) implies before.spec_deps_ready(x) by {
                        assert(x == i);
                    }
                    lemma_log_grows(before, *self, Emission::Step(id));
                    assert forall|k: int| 1 <= k < self.log@.len() implies is_step_or_ready(
                        #[trigger] self.log@[k],
                    ) by {
                        if k < before.log@.len() {
                            assert(self.log@[k] == before.log@[k]);
                        }
                    }
                }
            }
            i += 1;
        }
        out
    }

    /// Takes note of a signal from a worker or a peer. A ready signal of an
    /// activity of this scheduler sets the activity's ready flag, and the
    /// activity's id is returned: the caller lets the recorders know of the
    /// signal. Any other signal is dropped: nothing changes, and `None` is
    /// returned.
    pub fn wait_next_ready(&mut self, signal: Signal) -> (r: Option<ActivityId>)
        requires
            old(self).inv(),
        ensures
            final(self).inv(),
            final(self).phase == old(self).phase,
            final(self).activity_depends == old(self).activity_depends,
            final(self).cycle_time == old(self).cycle_time,
            forall|i: int|
                0 <= i < old(self).n() ==> (#[trigger] final(self).activity_states@[i]).triggered
                    == old(self).triggered(i),
            r == old(self).spec_marked(signal),
            forall|i: int|
                0 <= i < old(self).n() ==> (#[trigger] final(self).activity_states@[i]).ready
                    == old(self).spec_ready_after(i, r),
            r is None ==> final(self).activity_states@ == old(self).activity_states@,
            final(self).log@ == if r is Some && old(self).phase == Phase::Stepping {
                old(self).log@.push(Emission::Ready(r->Some_0))
            } else {
                old(self).log@
            },
    {
        let id = match signal {
            Signal::Ready((id, _)) => id,
            _ => {
                return None;
            },
        };
        let idx = match self.activity_depends.index_of(id) {
            Some(idx) => idx,
            None => {
                return None;
            },
        };
        let ghost before = *self;
        self.activity_states[idx].ready = true;
        match self.phase {
            Phase::Stepping => {
                proof {
            self.log@ = self.log@.push(Emission::Ready(id));
        }
                proof {
                    lemma_log_grows(before, *self, Emission::Ready(id));
                    assert forall|k: int| 1 <= k < self.log@.len() implies is_step_or_ready(
                        #[trigger] self.log@[k],
                    ) by {
                        if k < before.log@.len() {
                            assert(self.log@[k] == before.log@[k]);
                        }
                    }
                }
            },
            Phase::Flushing => {
                proof {
                    assert(before.ready(idx as int));
                    assert(self.activity_states@ =~= before.activity_states@);
                    lemma_log_kept(before, *self);
                }
            },
            Phase::Startup => {},
        }
        proof {
            assert(old(self).activity_depends.spec_contains(id));
            assert forall|i: int| 0 <= i < old(self).n() implies (#[trigger] self.activity_states@[i]).ready
                == old(self).spec_ready_after(i, Some(id)) by {
                if i != idx && old(self).id(i) == id {
                    assert(old(self).id(idx as int) == id);
                }
            }
        }
        Some(id)
    }

    /// Ends the task chain if every activity has reported ready, and says
    /// whether it did. The caller then lets the recorders know of the end.
    /// While an activity is not ready, nothing changes.
    pub fn finish_task_chain(&mut self) -> (done: bool)
        requires
            old(self).inv(),
            old(self).phase == Phase::Stepping,
        ensures
            final(self).inv(),
            done == old(self).spec_is_all_ready(),
            final(self).activity_depends == old(self).activity_depends,
            final(self).cycle_time == old(self).cycle_time,
            final(self).activity_states@ == old(self).activity_states@,
            done ==> final(self).phase == Phase::Flushing && final(self).log@ == old(self).log@.push(
                Emission::TaskChainEnd,
            ),
            !done ==> final(self).phase == Phase::Stepping && final(self).log@ == old(self).log@,
    {
        if !self.is_all_ready() {
            return false;
        }
        let ghost before = *self;
        self.phase = Phase::Flushing;
        proof {
            self.log@ = self.log@.push(Emission::TaskChainEnd);
        }
        proof {
            lemma_log_grows(before, *self, Emission::TaskChainEnd);
            assert forall|k: int| 1 <= k < self.log@.len() - 1 implies is_step_or_ready(
                #[trigger] self.log@[k],
            ) by {
                assert(self.log@[k] == before.log@[k]);
            }
            assert(self.log@[0] == before.log@[0]);
        }
        true
    }

    /// The time left of the cycle once the task chain, recorder flush
    /// included, has taken `task_chain_duration`: what is missing to the cycle
    /// time. Where the task chain has taken as long as the cycle time or
    /// longer, the cycle has overrun and there is nothing to sleep.
    pub fn time_left(&self, task_chain_duration: Duration) -> (r: Option<Duration>)
        ensures
            task_chain_duration@ < self.cycle_time@ ==> r is Some && r->Some_0@ + task_chain_duration@
                == self.cycle_time@,
            task_chain_duration@ >= self.cycle_time@ ==> r is None,
    {
        let time_left = self.cycle_time.saturating_sub(task_chain_duration);
        if time_left.is_zero() {
            None
        } else {
            Some(time_left)
        }
    }
}

} // verus!
