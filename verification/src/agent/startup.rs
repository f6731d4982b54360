//! The startup phase: the order in which the activities are started.
use vstd::prelude::*;
use crate::agent::scheduler::Scheduler;
use crate::ids::ActivityId;

verus! {

/// Whether the ids of a list ascend strictly.
pub open spec fn spec_ascending(ids: Seq<ActivityId>) -> bool {
    forall|a: int, b: int| 0 <= a < b < ids.len() ==> ids[a].0 < ids[b].0
}

/// Whether an id lies above a bound; without a bound every id does.
pub open spec fn spec_above(bound: Option<usize>, v: usize) -> bool {
    bound is None || v > bound->Some_0
}

impl Scheduler {
    /// Finds the smallest activity id above `bound`, or the smallest of all
    /// where there is no bound.
    fn next_id_above(&self, bound: Option<usize>) -> (best: Option<usize>)
        requires
            self.wf(),
        ensures
            best is None ==> (forall|i: int|
                0 <= i < self.n() ==> !spec_above(bound, #[trigger] self.id(i).0)),
            best is Some ==> spec_above(bound, best->Some_0),
            best is Some ==> (exists|i: int| 0 <= i < self.n() && self.id(i).0 == best->Some_0),
            best is Some ==> (forall|i: int|
                0 <= i < self.n() && spec_above(bound, #[trigger] self.id(i).0) ==> best->Some_0
                    <= self.id(i).0),
    {
        let mut best: Option<usize> = None;
        let mut i: usize = 0;
        while i < self.activity_depends.len()
            invariant
                self.wf(),
                i <= self.n(),
                best is None ==> (forall|k: int|
                    0 <= k < i ==> !spec_above(bound, #[trigger] self.id(k).0)),
                best is Some ==> spec_above(bound, best->Some_0),
                best is Some ==> (exists|k: int| 0 <= k < i && self.id(k).0 == best->Some_0),
                best is Some ==> (forall|k: int|
                    0 <= k < i && spec_above(bound, #[trigger] self.id(k).0) ==> best->Some_0
                        <= self.id(k).0),
            decreases self.n() - i,
        {
            let v = self.activity_depends.entries[i].0.0;
            let above = match bound {
                Some(b) => v > b,
                None => true,
            };
            let better = match best {
                Some(b) => v < b,
                None => true,
            };
            if above && better {
                best = Some(v);
                assert(self.id(i as int).0 == v);
            }
            i += 1;
        }
        best
    }

    /// Returns the activities in the order in which they are started: sorted
    /// by id, ascending. Every activity stands in the list, once.
    pub fn startup_order(&self) -> (out: Vec<ActivityId>)
        requires
            self.wf(),
        ensures
            spec_ascending(out@),
            forall|k: int| 0 <= k < out@.len() ==> self.activity_depends.spec_contains(out@[k]),
            forall|i: int| 0 <= i < self.n() ==> out@.contains(#[trigger] self.id(i)),
    {
        let mut out: Vec<ActivityId> = Vec::new();
        let mut bound: Option<usize> = None;
        let mut done = false;
        while !done
            invariant
                self.wf(),
                spec_ascending(out@),
                bound is Some <==> out@.len() > 0,
                bound is Some ==> out@.last().0 == bound->Some_0,
                forall|k: int| 0 <= k < out@.len() ==> self.activity_depends.spec_contains(out@[k]),
                forall|i: int|
                    0 <= i < self.n() && !spec_above(bound, #[trigger] self.id(i).0)
                        ==> out@.contains(self.id(i)),
                done ==> (forall|i: int| 0 <= i < self.n() ==> out@.contains(#[trigger] self.id(i))),
            decreases
                    (if done {
                        0int
                    } else {
                        1int
                    }),
                    (if bound is Some {
                        usize::MAX - bound->Some_0
                    } else {
                        usize::MAX + 1
                    }),
        {
            match self.next_id_above(bound) {
                Some(v) => {
                    let ghost prev = out@;
                    out.push(ActivityId(v));
                    proof {
                        let w = choose|w: int| 0 <= w < self.n() && self.id(w).0 == v;
                        assert(self.id(w) == ActivityId(v));
                        assert(self.activity_depends.entries@[w].0 == ActivityId(v));
                        assert forall|a: int, b: int| 0 <= a < b < out@.len() implies out@[a].0
                            < out@[b].0 by {
                            if b < prev.len() {
                                assert(prev[a].0 < prev[b].0);
                            } else if prev.len() > 0 && a < prev.len() - 1 {
                                assert(prev[a].0 < prev[prev.len() - 1].0);
                            }
                        }
                        assert forall|i: int|
                            0 <= i < self.n() && self.id(i).0 <= v implies out@.contains(
                            self.id(i),
                        ) by {
                            if !spec_above(bound, self.id(i).0) {
                                let m = choose|m: int| 0 <= m < prev.len() && prev[m] == self.id(i);
                                assert(out@[m] == self.id(i));
                            } else {
                                assert(self.id(i).0 == v);
                                assert(out@[prev.len() as int] == self.id(i));
                            }
                        }
                        assert forall|k: int| 0 <= k < out@.len() implies self.activity_depends.spec_contains(
                            out@[k],
                        ) by {
                            if k < prev.len() {
                                assert(out@[k] == prev[k]);
                            }
                        }
                    }
                    bound = Some(v);
                },
                None => {
                    done = true;
                    assert forall|i: int| 0 <= i < self.n() implies out@.contains(
                        #[trigger] self.id(i),
                    ) by {
                        assert(!spec_above(bound, self.id(i).0));
                    }
                },
            }
        }
        out
    }
}

} // verus!
