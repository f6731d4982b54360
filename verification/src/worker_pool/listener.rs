//! The listener side of a worker pool: which activities have reported ready.
use vstd::prelude::*;
use crate::ids::{spec_distinct_activities, ActivityId};
use crate::signals::Signal;

verus! {

/// Keeps, for each activity of a worker pool, whether it has reported ready
/// since the flags were last cleared.
pub struct WorkerPoolListener {
    /// The activities with their ready flags. No activity stands twice.
    pub activities_ready: Vec<(ActivityId, bool)>,
}

/// Whether no activity stands twice in a list.
pub open spec fn spec_distinct_ids(ids: Seq<ActivityId>) -> bool {
    spec_distinct_activities(ids)
}

impl WorkerPoolListener {
    /// The activities, in their order.
    pub open spec fn ids(&self) -> Seq<ActivityId> {
        self.activities_ready@.map_values(|e: (ActivityId, bool)| e.0)
    }

    /// No activity stands twice.
    pub open spec fn wf(&self) -> bool {
        spec_distinct_ids(self.ids())
    }

    /// Whether the activity has a flag.
    pub open spec fn spec_knows(&self, id: ActivityId) -> bool {
        exists|i: int| 0 <= i < self.activities_ready@.len() && self.activities_ready@[i].0 == id
    }

    /// Whether the flag of the activity is set.
    pub open spec fn spec_is_ready(&self, id: ActivityId) -> bool {
        exists|i: int|
            0 <= i < self.activities_ready@.len() && self.activities_ready@[i].0 == id
                && self.activities_ready@[i].1
    }

    /// Whether the flag of every activity of the list that has one is set.
    pub open spec fn spec_is_all_ready(&self, activity_ids: Seq<ActivityId>) -> bool {
        forall|i: int|
            0 <= i < self.activities_ready@.len() && activity_ids.contains(
                self.activities_ready@[i].0,
            ) ==> self.activities_ready@[i].1
    }

    /// The activities whose flag is set, among the first `upto`, in their
    /// order.
    pub open spec fn spec_ready_ids(&self, upto: int) -> Seq<ActivityId>
        decreases upto,
    {
        if upto <= 0 {
            Seq::empty()
        } else if self.activities_ready@[upto - 1].1 {
            self.spec_ready_ids(upto - 1).push(self.activities_ready@[upto - 1].0)
        } else {
            self.spec_ready_ids(upto - 1)
        }
    }

    /// Creates a listener for the given activities, none of which may stand
    /// twice. No flag is set.
    pub fn new(activity_ids: &[ActivityId]) -> (l: WorkerPoolListener)
        requires
            spec_distinct_ids(activity_ids@),
        ensures
            l.wf(),
            l.ids() == activity_ids@,
            forall|i: int| 0 <= i < l.activities_ready@.len() ==> !l.activities_ready@[i].1,
    {
        let mut flags: Vec<(ActivityId, bool)> = Vec::new();
        let mut i: usize = 0;
        while i < activity_ids.len()
            invariant
                i <= activity_ids@.len(),
                flags@.len() == i,
                forall|k: int| 0 <= k < i ==> flags@[k] == (activity_ids@[k], false),
            decreases activity_ids@.len() - i,
        {
            flags.push((activity_ids[i], false));
            i += 1;
        }
        let l = WorkerPoolListener { activities_ready: flags };
        assert(l.ids() =~= activity_ids@);
        l
    }

    /// Finds the flag of an activity.
    pub fn index_of(&self, id: ActivityId) -> (r: Option<usize>)
        ensures
            match r {
                Some(i) => i < self.activities_ready@.len() && self.activities_ready@[i as int].0
                    == id,
                None => !self.spec_knows(id),
            },
    {
        let mut i: usize = 0;
        while i < self.activities_ready.len()
            invariant
                i <= self.activities_ready@.len(),
                forall|k: int| 0 <= k < i ==> self.activities_ready@[k].0 != id,
            decreases self.activities_ready@.len() - i,
        {
            if self.activities_ready[i].0.0 == id.0 {
                return Some(i);
            }
            i += 1;
        }
        None
    }

    /// Looks at a signal from the workers, and says whether it was the ready
    /// signal that was waited for. A ready signal sets the flag of its
    /// activity; an activity that has no flag yet gets one, behind all others.
    /// Any other signal changes nothing, and the wait goes on.
    pub fn wait_next_ready(&mut self, signal: Signal) -> (got: bool)
        requires
            old(self).wf(),
        ensures
            final(self).wf(),
            got == signal is Ready,
            !got ==> final(self).activities_ready@ == old(self).activities_ready@,
            got ==> final(self).spec_is_ready(signal->Ready_0.0),
            got && old(self).spec_knows(signal->Ready_0.0) ==> final(self).ids() == old(self).ids()
                && forall|i: int|
                0 <= i < old(self).activities_ready@.len() ==> final(self).activities_ready@[i].1
                    == (old(self).activities_ready@[i].1 || old(self).activities_ready@[i].0
                    == signal->Ready_0.0),
            got && !old(self).spec_knows(signal->Ready_0.0) ==> final(self).activities_ready@
                == old(self).activities_ready@.push((signal->Ready_0.0, true)),
    {
        let id = match signal {
            Signal::Ready((id, _)) => id,
            _ => {
                return false;
            },
        };
        match self.index_of(id) {
            Some(i) => {
                self.activities_ready[i].1 = true;
                proof {
                    assert(self.ids() =~= old(self).ids());
                    assert(self.activities_ready@[i as int].0 == id && self.activities_ready@[i as int].1);
                    assert forall|k: int| 0 <= k < old(self).activities_ready@.len() implies self.activities_ready@[k].1
                        == (old(self).activities_ready@[k].1 || old(self).activities_ready@[k].0
                        == id) by {
                        if k != i && old(self).activities_ready@[k].0 == id {
                            assert(old(self).ids()[k] == old(self).ids()[i as int]);
                        }
                    }
                }
            },
            None => {
                self.activities_ready.push((id, true));
                proof {
                    let n = old(self).activities_ready@.len() as int;
                    assert(self.activities_ready@[n].0 == id && self.activities_ready@[n].1);
                    assert forall|a: int, b: int|
                        0 <= a < self.ids().len() && 0 <= b < self.ids().len() && a
                            != b implies self.ids()[a] != self.ids()[b] by {
                        if a < n && b < n {
                            assert(old(self).ids()[a] != old(self).ids()[b]);
                        } else if a < n {
                            assert(old(self).activities_ready@[a].0 != id);
                        } else {
                            assert(old(self).activities_ready@[b].0 != id);
                        }
                    }
                }
            },
        }
        true
    }

    /// Clears all ready flags.
    pub fn clear_ready(&mut self)
        ensures
            final(self).ids() == old(self).ids(),
            forall|i: int|
                0 <= i < final(self).activities_ready@.len() ==> !final(self).activities_ready@[i].1,
    {
        let n = self.activities_ready.len();
        let mut i: usize = 0;
        while i < n
            invariant
                n == self.activities_ready@.len(),
                i <= n,
                self.ids() == old(self).ids(),
                forall|k: int| 0 <= k < i ==> !self.activities_ready@[k].1,
            decreases n - i,
        {
            let ghost before = self.ids();
            self.activities_ready[i].1 = false;
            assert(self.ids() =~= before);
            i += 1;
        }
    }

    /// Checks whether the ready flag of every given activity is set.
    /// Activities without a flag are passed over.
    pub fn is_all_ready(&self, activity_ids: &[ActivityId]) -> (b: bool)
        ensures
            b == self.spec_is_all_ready(activity_ids@),
    {
        let mut i: usize = 0;
        while i < self.activities_ready.len()
            invariant
                i <= self.activities_ready@.len(),
                forall|k: int|
                    0 <= k < i && activity_ids@.contains(self.activities_ready@[k].0)
                        ==> self.activities_ready@[k].1,
            decreases self.activities_ready@.len() - i,
        {
            if !self.activities_ready[i].1 && slice_contains(
                activity_ids,
                self.activities_ready[i].0,
            ) {
                return false;
            }
            i += 1;
        }
        true
    }

    /// Returns the ready flags of all activities, in their order.
    pub fn ready_iter(&self) -> (out: Vec<(ActivityId, bool)>)
        ensures
            out@ == self.activities_ready@,
    {
        let mut out: Vec<(ActivityId, bool)> = Vec::new();
        let mut i: usize = 0;
        while i < self.activities_ready.len()
            invariant
                i <= self.activities_ready@.len(),
                out@ == self.activities_ready@.take(i as int),
            decreases self.activities_ready@.len() - i,
        {
            out.push(self.activities_ready[i]);
            i += 1;
            assert(out@ =~= self.activities_ready@.take(i as int));
        }
        assert(self.activities_ready@.take(self.activities_ready@.len() as int)
            =~= self.activities_ready@);
        out
    }

    /// Returns the activities whose ready flag is set, in their order.
    pub fn ready_ids(&self) -> (out: Vec<ActivityId>)
        ensures
            out@ == self.spec_ready_ids(self.activities_ready@.len() as int),
    {
        let mut out: Vec<ActivityId> = Vec::new();
        let mut i: usize = 0;
        while i < self.activities_ready.len()
            invariant
                i <= self.activities_ready@.len(),
                out@ == self.spec_ready_ids(i as int),
            decreases self.activities_ready@.len() - i,
        {
            if self.activities_ready[i].1 {
                out.push(self.activities_ready[i].0);
            }
            i += 1;
        }
        out
    }
}

/// Whether a list holds an activity.
pub fn slice_contains(list: &[ActivityId], id: ActivityId) -> (b: bool)
    ensures
        b == list@.contains(id),
{
    let mut i: usize = 0;
    while i < list.len()
        invariant
            i <= list@.len(),
            forall|k: int| 0 <= k < i ==> list@[k] != id,
        decreases list@.len() - i,
    {
        if list[i].0 == id.0 {
            return true;
        }
        i += 1;
    }
    false
}

} // verus!
