//! The task chain as the driver of the scheduler sees it: one call at the
//! start of a cycle, one call for each signal that arrives.
use vstd::prelude::*;
use crate::agent::scheduler::{spec_steps, Emission, Phase, Scheduler};
use crate::ids::ActivityId;
use crate::signals::Signal;

verus! {

/// What the scheduler asks for after it has looked at a signal.
pub struct CycleStep {
    /// The activity whose ready signal was taken note of; the signal is to be
    /// passed on to the recorders. `None` where the signal was dropped.
    pub marked: Option<ActivityId>,
    /// The activities to be stepped now, in this order.
    pub steps: Vec<ActivityId>,
    /// Whether the task chain has ended; the end is to be passed on to the
    /// recorders.
    pub finished: bool,
}

impl Scheduler {
    /// Whether the `i`-th activity waits for no activity of the scheduler.
    pub open spec fn spec_is_root(&self, i: int) -> bool {
        forall|j: int| !#[trigger] self.depends(i, j)
    }

    /// The activities among the first `upto` that wait for no activity of the
    /// scheduler, in their order.
    pub open spec fn spec_roots(&self, upto: int) -> Seq<ActivityId>
        decreases upto,
    {
        if upto <= 0 {
            Seq::empty()
        } else if self.spec_is_root(upto - 1) {
            self.spec_roots(upto - 1).push(self.id(upto - 1))
        } else {
            self.spec_roots(upto - 1)
        }
    }

    /// Whether the `i`-th activity is to be stepped once `marked` has been
    /// taken note of.
    pub open spec fn spec_dispatchable_after(&self, i: int, marked: Option<ActivityId>) -> bool {
        !self.triggered(i) && forall|j: int| #[trigger]
            self.depends(i, j) ==> self.spec_ready_after(j, marked)
    }

    /// The activities among the first `upto` that are to be stepped once
    /// `marked` has been taken note of, in their order.
    pub open spec fn spec_dispatch_after(&self, upto: int, marked: Option<ActivityId>) -> Seq<
        ActivityId,
    >
        decreases upto,
    {
        if upto <= 0 {
            Seq::empty()
        } else if self.spec_dispatchable_after(upto - 1, marked) {
            self.spec_dispatch_after(upto - 1, marked).push(self.id(upto - 1))
        } else {
            self.spec_dispatch_after(upto - 1, marked)
        }
    }

    /// Starts a cycle: clears all flags and says which activities are to be
    /// stepped first, the activities that wait for none. A scheduler without
    /// activities ends the task chain at once.
    pub fn begin_cycle(&mut self) -> (r: (Vec<ActivityId>, bool))
        requires
            old(self).wf(),
        ensures
            final(self).inv(),
            final(self).activity_depends == old(self).activity_depends,
            final(self).cycle_time == old(self).cycle_time,
            r.1 == (old(self).n() == 0),
            r.1 ==> r.0@.len() == 0 && final(self).phase == Phase::Flushing && final(self).log@
                == seq![Emission::TaskChainStart, Emission::TaskChainEnd],
            !r.1 ==> r.0@ == old(self).spec_roots(old(self).n()) && final(self).phase
                == Phase::Stepping && final(self).log@ == seq![Emission::TaskChainStart] + spec_steps(
                r.0@,
            ),
            forall|i: int| 0 <= i < old(self).n() ==> !final(self).ready(i),
            !r.1 ==> forall|i: int|
                0 <= i < old(self).n() ==> final(self).triggered(i) == old(self).spec_is_root(i),
    {
        self.start_task_chain();
        if self.finish_task_chain() {
            assert(self.n() == 0) by {
                if self.n() > 0 {
                    assert(!self.ready(0));
                }
            }
            assert(self.log@ =~= seq![Emission::TaskChainStart, Emission::TaskChainEnd]);
            return (Vec::new(), true);
        }
        let ghost cleared = *self;
        let steps = self.step_foreach_ready();
        proof {
            lemma_roots(cleared, *old(self), cleared.n());
            assert forall|i: int| 0 <= i < old(self).n() implies self.triggered(i) == old(self).spec_is_root(i) by {
                lemma_root(cleared, *old(self), i);
            }
        }
        (steps, false)
    }

    /// Looks at a signal that arrived while a task chain is running. The
    /// ready signal of an activity of the scheduler is taken note of; any
    /// other signal is dropped. If every activity is ready then, the task
    /// chain ends; otherwise the activities that have not been triggered and
    /// wait for nothing that is not ready are to be stepped, in the order of
    /// the dependency map.
    pub fn on_signal(&mut self, signal: Signal) -> (r: CycleStep)
        requires
            old(self).inv(),
            old(self).phase == Phase::Stepping,
        ensures
            final(self).inv(),
            final(self).activity_depends == old(self).activity_depends,
            final(self).cycle_time == old(self).cycle_time,
            r.marked == old(self).spec_marked(signal),
            r.finished == (forall|i: int|
                0 <= i < old(self).n() ==> old(self).spec_ready_after(i, r.marked)),
            r.finished ==> r.steps@.len() == 0 && final(self).phase == Phase::Flushing,
            !r.finished ==> r.steps@ == old(self).spec_dispatch_after(old(self).n(), r.marked)
                && final(self).phase == Phase::Stepping,
            final(self).log@ == old(self).log@ + (match r.marked {
                Some(id) => seq![Emission::Ready(id)],
                None => Seq::empty(),
            }) + spec_steps(r.steps@) + (if r.finished {
                seq![Emission::TaskChainEnd]
            } else {
                Seq::empty()
            }),
            forall|i: int|
                0 <= i < old(self).n() ==> final(self).ready(i) == old(self).spec_ready_after(
                    i,
                    r.marked,
                ),
    {
        let marked = self.wait_next_ready(signal);
        let ghost mid = *self;
        proof {
            assert(mid.spec_is_all_ready() == (forall|i: int|
                0 <= i < old(self).n() ==> old(self).spec_ready_after(i, marked))) by {
                if mid.spec_is_all_ready() {
                    assert forall|i: int| 0 <= i < old(self).n() implies old(self).spec_ready_after(i, marked) by {
                        assert(mid.ready(i));
                    }
                }
            }
        }
        if self.finish_task_chain() {
            proof {
                assert(self.log@ =~= old(self).log@ + (match marked {
                    Some(id) => seq![Emission::Ready(id)],
                    None => Seq::empty(),
                }) + spec_steps(Seq::<ActivityId>::empty()) + seq![Emission::TaskChainEnd]);
            }
            return CycleStep { marked, steps: Vec::new(), finished: true };
        }
        let ghost waiting = *self;
        let steps = self.step_foreach_ready();
        proof {
            assert(waiting.activity_states@ == mid.activity_states@);
            lemma_dispatch_after(waiting, *old(self), marked, waiting.n());
            assert(self.log@ =~= old(self).log@ + (match marked {
                Some(id) => seq![Emission::Ready(id)],
                None => Seq::empty(),
            }) + spec_steps(steps@) + Seq::<Emission>::empty());
        }
        CycleStep { marked, steps, finished: false }
    }
}

/// With all flags cleared, an activity is to be stepped exactly if it waits
/// for no activity of the scheduler.
proof fn lemma_root(cleared: Scheduler, s: Scheduler, i: int)
    requires
        cleared.wf(),
        cleared.activity_depends == s.activity_depends,
        0 <= i < cleared.n(),
        forall|k: int| 0 <= k < cleared.n() ==> !cleared.triggered(k) && !cleared.ready(k),
    ensures
        cleared.spec_dispatchable(i) == s.spec_is_root(i),
{
    if s.spec_is_root(i) {
        assert forall|j: int| #[trigger] cleared.depends(i, j) implies cleared.ready(j) by {
            assert(s.depends(i, j));
        }
    }
    if cleared.spec_dispatchable(i) {
        assert forall|j: int| !#[trigger] s.depends(i, j) by {
            if s.depends(i, j) {
                assert(cleared.depends(i, j));
                assert(cleared.ready(j));
            }
        }
    }
}

/// With all flags cleared, the first pass steps the activities that wait for
/// none.
proof fn lemma_roots(cleared: Scheduler, s: Scheduler, upto: int)
    requires
        cleared.wf(),
        cleared.activity_depends == s.activity_depends,
        0 <= upto <= cleared.n(),
        forall|k: int| 0 <= k < cleared.n() ==> !cleared.triggered(k) && !cleared.ready(k),
    ensures
        cleared.spec_dispatch(upto) == s.spec_roots(upto),
    decreases upto,
{
    if upto > 0 {
        lemma_roots(cleared, s, upto - 1);
        lemma_root(cleared, s, upto - 1);
    }
}

/// What a pass steps after a ready signal has been taken note of.
proof fn lemma_dispatch_after(mid: Scheduler, s: Scheduler, marked: Option<ActivityId>, upto: int)
    requires
        mid.wf(),
        s.wf(),
        mid.activity_depends == s.activity_depends,
        0 <= upto <= s.n(),
        forall|k: int| 0 <= k < s.n() ==> mid.triggered(k) == s.triggered(k),
        forall|k: int| 0 <= k < s.n() ==> mid.ready(k) == s.spec_ready_after(k, marked),
    ensures
        mid.spec_dispatch(upto) == s.spec_dispatch_after(upto, marked),
    decreases upto,
{
    if upto > 0 {
        lemma_dispatch_after(mid, s, marked, upto - 1);
        let i = upto - 1;
        if s.spec_dispatchable_after(i, marked) {
            assert forall|j: int| #[trigger] mid.depends(i, j) implies mid.ready(j) by {
                assert(s.depends(i, j));
            }
        }
        if mid.spec_dispatchable(i) {
            assert forall|j: int| #[trigger] s.depends(i, j) implies s.spec_ready_after(
                j,
                marked,
            ) by {
                assert(mid.depends(i, j));
                assert(mid.ready(j));
            }
        }
    }
}

} // verus!
