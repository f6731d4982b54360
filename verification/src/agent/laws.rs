//! What holds of every task chain that the scheduler runs.
use vstd::prelude::*;
use crate::agent::scheduler::{is_step_or_ready, ready_before, Emission, Phase, Scheduler};
use crate::configuration::acyclic::{spec_acyclic, spec_depends, spec_ranked};

verus! {

/// Ready before step: whenever the step of an activity is triggered, each
/// activity of the scheduler that it depends on has reported ready earlier in
/// the same task chain.
pub proof fn lemma_ready_precedes_step(s: Scheduler, k: int, i: int, j: int)
    requires
        s.inv(),
        0 <= k < s.log@.len(),
        s.depends(i, j),
        s.log@[k] == Emission::Step(s.id(i)),
    ensures
        exists|m: int| 0 <= m < k && s.log@[m] == Emission::Ready(s.id(j)),
{
    assert(s.step_justified(k));
    assert(ready_before(s.log@, s.id(j), k));
    let m = choose|m: int| 0 <= m < k && m < s.log@.len() && s.log@[m] == Emission::Ready(s.id(j));
    assert(0 <= m < k && s.log@[m] == Emission::Ready(s.id(j)));
}

/// All ready at the end: where the log of a task chain holds its end, the end
/// is the last entry, every activity counts as ready, and the ready report of
/// every activity stands in the log before the end.
pub proof fn lemma_chain_end_all_ready(s: Scheduler, k: int)
    requires
        s.inv(),
        0 <= k < s.log@.len(),
        s.log@[k] == Emission::TaskChainEnd,
    ensures
        s.phase == Phase::Flushing,
        k == s.log@.len() - 1,
        s.spec_is_all_ready(),
        forall|j: int| 0 <= j < s.n() ==> ready_before(s.log@, #[trigger] s.id(j), k),
{
    if s.phase == Phase::Stepping {
        if k >= 1 {
            assert(is_step_or_ready(s.log@[k]));
        }
    }
    if s.phase == Phase::Flushing {
        if 1 <= k < s.log@.len() - 1 {
            assert(is_step_or_ready(s.log@[k]));
        }
        assert forall|j: int| 0 <= j < s.n() implies ready_before(s.log@, #[trigger] s.id(j), k) by {
            assert(s.ready(j));
            assert(ready_before(s.log@, s.id(j), s.log@.len() as int));
            let m = choose|m: int|
                0 <= m < s.log@.len() && m < s.log@.len() && s.log@[m] == Emission::Ready(s.id(j));
            assert(m != k);
        }
    }
}

/// The order of a task chain: the log of a task chain that has ended starts
/// with the start of the chain, ends with its end, and holds between the two
/// nothing but steps and ready reports. The start stands nowhere but first,
/// the end nowhere but last.
pub proof fn lemma_task_chain_order(s: Scheduler)
    requires
        s.inv(),
        s.phase == Phase::Flushing,
    ensures
        s.log@.len() >= 2,
        s.log@.first() == Emission::TaskChainStart,
        s.log@.last() == Emission::TaskChainEnd,
        forall|k: int| 0 < k < s.log@.len() - 1 ==> is_step_or_ready(#[trigger] s.log@[k]),
        forall|k: int|
            0 <= k < s.log@.len() && #[trigger] s.log@[k] == Emission::TaskChainStart ==> k == 0,
        forall|k: int|
            0 <= k < s.log@.len() && #[trigger] s.log@[k] == Emission::TaskChainEnd ==> k
                == s.log@.len() - 1,
{
    assert forall|k: int|
        0 <= k < s.log@.len() && #[trigger] s.log@[k] == Emission::TaskChainStart implies k
        == 0 by {
        if 1 <= k < s.log@.len() - 1 {
            assert(is_step_or_ready(s.log@[k]));
        }
    }
    assert forall|k: int|
        0 <= k < s.log@.len() && #[trigger] s.log@[k] == Emission::TaskChainEnd implies k
        == s.log@.len() - 1 by {
        if 1 <= k < s.log@.len() - 1 {
            assert(is_step_or_ready(s.log@[k]));
        }
    }
}

/// While a task chain is running its log starts with the start of the chain
/// and holds nothing but steps and ready reports behind it.
pub proof fn lemma_running_order(s: Scheduler)
    requires
        s.inv(),
        s.phase == Phase::Stepping,
    ensures
        s.log@.len() >= 1,
        s.log@.first() == Emission::TaskChainStart,
        forall|k: int| 0 < k < s.log@.len() ==> is_step_or_ready(#[trigger] s.log@[k]),
{
}

/// An activity that waits for nothing is stepped at once: it is among the
/// activities of the first pass of a task chain.
pub proof fn lemma_independent_dispatched(s: Scheduler, i: int, upto: int)
    requires
        s.wf(),
        0 <= i < upto <= s.n(),
        !s.triggered(i),
        s.deps(i).len() == 0,
    ensures
        s.spec_dispatch(upto).contains(s.id(i)),
    decreases upto,
{
    assert(s.spec_deps_ready(i)) by {
        assert forall|j: int| #[trigger] s.depends(i, j) implies s.ready(j) by {
            assert(s.deps(i).contains(s.id(j)));
            let w = choose|w: int| 0 <= w < s.deps(i).len() && s.deps(i)[w] == s.id(j);
        }
    }
    if i == upto - 1 {
        let prev = s.spec_dispatch(upto - 1);
        assert(prev.push(s.id(i))[prev.len() as int] == s.id(i));
    } else {
        lemma_independent_dispatched(s, i, upto - 1);
        let prev = s.spec_dispatch(upto - 1);
        let w = choose|w: int| 0 <= w < prev.len() && prev[w] == s.id(i);
        if s.spec_dispatchable(upto - 1) {
            assert(prev.push(s.id(upto - 1))[w] == s.id(i));
        }
    }
}

/// What a pass dispatches: an activity is among those of a pass exactly if it
/// has not been triggered and all it depends on is ready.
pub proof fn lemma_dispatch_members(s: Scheduler, upto: int, i: int)
    requires
        s.wf(),
        0 <= i < s.n(),
        0 <= upto <= s.n(),
    ensures
        s.spec_dispatch(upto).contains(s.id(i)) <==> (i < upto && s.spec_dispatchable(i)),
    decreases upto,
{
    if upto > 0 {
        lemma_dispatch_members(s, upto - 1, i);
        let prev = s.spec_dispatch(upto - 1);
        if s.spec_dispatchable(upto - 1) {
            let cur = prev.push(s.id(upto - 1));
            if cur.contains(s.id(i)) {
                let w = choose|w: int| 0 <= w < cur.len() && cur[w] == s.id(i);
                if w < prev.len() {
                    assert(prev[w] == s.id(i));
                } else {
                    assert(s.id(upto - 1) == s.id(i));
                    assert(i == upto - 1);
                }
            }
            if prev.contains(s.id(i)) {
                let w = choose|w: int| 0 <= w < prev.len() && prev[w] == s.id(i);
                assert(cur[w] == s.id(i));
            }
            if i == upto - 1 {
                assert(cur[prev.len() as int] == s.id(i));
            }
        }
    }
}

} // verus!

verus! {

/// Below an activity that is not ready stands one that can be stepped, or it
/// can be stepped itself.
proof fn lemma_progress_from(s: Scheduler, rank: spec_fn(int) -> nat, i: int)
    requires
        s.wf(),
        spec_ranked(s.activity_depends, rank),
        0 <= i < s.n(),
        !s.ready(i),
        forall|k: int| 0 <= k < s.n() && s.triggered(k) ==> s.ready(k),
    ensures
        exists|k: int| 0 <= k < s.n() && s.spec_dispatchable(k),
    decreases rank(i),
{
    if s.spec_deps_ready(i) {
        assert(s.spec_dispatchable(i));
    } else {
        let j = choose|j: int| #[trigger] s.depends(i, j) && !s.ready(j);
        assert(spec_depends(s.activity_depends, i, j));
        assert(rank(j) < rank(i));
        lemma_progress_from(s, rank, j);
    }
}

/// No standstill: in a dependency graph without cycles, while an activity is
/// not ready and no triggered activity is still at work, some activity can be
/// stepped. So the scheduler never waits for a ready signal that nobody was
/// asked to send.
pub proof fn lemma_progress(s: Scheduler)
    requires
        s.wf(),
        spec_acyclic(s.activity_depends),
        !s.spec_is_all_ready(),
        forall|k: int| 0 <= k < s.n() && s.triggered(k) ==> s.ready(k),
    ensures
        exists|k: int| 0 <= k < s.n() && s.spec_dispatchable(k),
{
    let rank = choose|rank: spec_fn(int) -> nat| spec_ranked(s.activity_depends, rank);
    let i = choose|i: int| 0 <= i < s.n() && !s.ready(i);
    lemma_progress_from(s, rank, i);
}

} // verus!
