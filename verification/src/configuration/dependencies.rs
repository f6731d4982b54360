//! The dependency graph: for each activity, the activities it waits for.
use vstd::prelude::*;
use crate::ids::ActivityId;

verus! {

/// For each activity the list of activities it depends on, in the order in
/// which the activities were entered. No activity is entered twice.
pub struct ActivityDependencies {
    /// The entries: an activity and what it depends on.
    pub entries: Vec<(ActivityId, Vec<ActivityId>)>,
}

impl ActivityDependencies {
    /// The number of activities entered.
    pub open spec fn spec_len(&self) -> nat {
        self.entries@.len()
    }

    /// The activity of the `i`-th entry.
    pub open spec fn id(&self, i: int) -> ActivityId {
        self.entries@[i].0
    }

    /// What the activity of the `i`-th entry depends on.
    pub open spec fn deps(&self, i: int) -> Seq<ActivityId> {
        self.entries@[i].1@
    }

    /// Whether the activity has an entry.
    pub open spec fn spec_contains(&self, id: ActivityId) -> bool {
        exists|i: int| 0 <= i < self.entries@.len() && self.entries@[i].0 == id
    }

    /// No activity is entered twice.
    pub open spec fn wf(&self) -> bool {
        forall|i: int, j: int|
            0 <= i < self.entries@.len() && 0 <= j < self.entries@.len() && i != j
                ==> self.entries@[i].0 != self.entries@[j].0
    }

    /// No activity depends on itself.
    pub open spec fn spec_no_self_dependency(&self) -> bool {
        forall|i: int| 0 <= i < self.entries@.len() ==> !self.deps(i).contains(self.id(i))
    }

    /// Checks that no activity is entered twice.
    pub fn is_wf(&self) -> (b: bool)
        ensures
            b == self.wf(),
    {
        let mut i: usize = 0;
        while i < self.entries.len()
            invariant
                i <= self.entries@.len(),
                forall|x: int, y: int|
                    0 <= x < i && x < y < self.entries@.len() ==> self.entries@[x].0
                        != self.entries@[y].0,
            decreases self.entries@.len() - i,
        {
            let mut j: usize = i + 1;
            while j < self.entries.len()
                invariant
                    i < self.entries@.len(),
                    i < j <= self.entries@.len(),
                    forall|y: int| i < y < j ==> self.entries@[i as int].0 != self.entries@[y].0,
                decreases self.entries@.len() - j,
            {
                if self.entries[i].0.0 == self.entries[j].0.0 {
                    assert(self.entries@[i as int].0 == self.entries@[j as int].0);
                    return false;
                }
                j += 1;
            }
            i += 1;
        }
        assert forall|x: int, y: int|
            0 <= x < self.entries@.len() && 0 <= y < self.entries@.len() && x
                != y implies self.entries@[x].0 != self.entries@[y].0 by {
            if y < x {
                assert(self.entries@[y].0 != self.entries@[x].0);
            }
        }
        true
    }

    /// An empty graph.
    pub fn new() -> (deps: Self)
        ensures
            deps.entries@.len() == 0,
            deps.wf(),
    {
        ActivityDependencies { entries: Vec::new() }
    }

    /// The number of activities entered.
    pub fn len(&self) -> (n: usize)
        ensures
            n == self.entries@.len(),
    {
        self.entries.len()
    }

    /// Finds the entry of an activity.
    pub fn index_of(&self, id: ActivityId) -> (r: Option<usize>)
        ensures
            match r {
                Some(i) => i < self.entries@.len() && self.entries@[i as int].0 == id,
                None => !self.spec_contains(id),
            },
    {
        let mut i: usize = 0;
        while i < self.entries.len()
            invariant
                i <= self.entries@.len(),
                forall|k: int| 0 <= k < i ==> self.entries@[k].0 != id,
            decreases self.entries@.len() - i,
        {
            if self.entries[i].0.0 == id.0 {
                return Some(i);
            }
            i += 1;
        }
        None
    }

    /// Returns whether the activity has an entry.
    #[verifier::when_used_as_spec(spec_contains)]
    pub fn contains(&self, id: ActivityId) -> (b: bool)
        ensures
            b == self.spec_contains(id),
    {
        self.index_of(id).is_some()
    }

    /// Enters an activity with nothing to wait for, unless it has an entry
    /// already.
    pub fn add_activity(&mut self, activity_id: ActivityId)
        requires
            old(self).wf(),
        ensures
            final(self).wf(),
            final(self).spec_contains(activity_id),
            old(self).spec_contains(activity_id) ==> final(self).entries@ == old(self).entries@,
            !old(self).spec_contains(activity_id) ==> final(self).entries@.len() == old(self).spec_len()
                + 1,
            !old(self).spec_contains(activity_id) ==> final(self).entries@.drop_last() == old(self).entries@,
            !old(self).spec_contains(activity_id) ==> final(self).entries@.last().0 == activity_id,
            !old(self).spec_contains(activity_id) ==> final(self).entries@.last().1@.len() == 0,
    {
        match self.index_of(activity_id) {
            Some(_) => {},
            None => {
                self.entries.push((activity_id, Vec::new()));
                assert(self.entries@.drop_last() =~= old(self).entries@);
                assert(self.entries@[self.entries@.len() - 1].0 == activity_id);
            },
        }
    }

    /// Records that `activity_id` depends on `dependency`. The dependency is
    /// added behind those already listed for the activity, unless it is listed
    /// already; an activity without an entry gets one, behind all others. An
    /// activity cannot depend on itself.
    pub fn add_dependency(&mut self, activity_id: ActivityId, dependency: ActivityId)
        requires
            old(self).wf(),
            activity_id != dependency,
        ensures
            final(self).wf(),
            final(self).spec_after_add(*old(self), activity_id, dependency),
    {
        match self.index_of(activity_id) {
            Some(i) => {
                if !list_contains(&self.entries[i].1, dependency) {
                    self.entries[i].1.push(dependency);
                }
            },
            None => {
                let mut list: Vec<ActivityId> = Vec::new();
                list.push(dependency);
                self.entries.push((activity_id, list));
                assert(self.entries@.drop_last() =~= old(self).entries@);
                assert(self.entries@.last().1@ =~= seq![dependency]);
                assert forall|i: int, j: int|
                    0 <= i < self.entries@.len() && 0 <= j < self.entries@.len() && i
                        != j implies self.entries@[i].0 != self.entries@[j].0 by {
                    if i < old(self).entries@.len() {
                        assert(old(self).entries@[i].0 == self.entries@[i].0);
                    }
                    if j < old(self).entries@.len() {
                        assert(old(self).entries@[j].0 == self.entries@[j].0);
                    }
                }
            },
        }
    }

    /// How the graph stands after `add_dependency` on the graph `before`.
    pub open spec fn spec_after_add(
        &self,
        before: ActivityDependencies,
        activity_id: ActivityId,
        dependency: ActivityId,
    ) -> bool {
        if before.spec_contains(activity_id) {
            &&& self.entries@.len() == before.entries@.len()
            &&& forall|k: int|
                0 <= k < before.entries@.len() ==> self.id(k) == before.id(k) && self.deps(k) == (
                if before.id(k) == activity_id && !before.deps(k).contains(dependency) {
                    before.deps(k).push(dependency)
                } else {
                    before.deps(k)
                })
        } else {
            &&& self.entries@.len() == before.entries@.len() + 1
            &&& self.entries@.drop_last() == before.entries@
            &&& self.entries@.last().0 == activity_id
            &&& self.entries@.last().1@ == seq![dependency]
        }
    }

    /// Records that `activity_id` depends on each of `dependencies`, in their
    /// order.
    pub fn add_dependencies(&mut self, activity_id: ActivityId, dependencies: &Vec<ActivityId>)
        requires
            old(self).wf(),
            !dependencies@.contains(activity_id),
        ensures
            final(self).wf(),
            final(self).spec_after_add_all(*old(self), activity_id, dependencies@),
            final(self).spec_len() >= old(self).spec_len(),
            dependencies@.len() > 0 ==> final(self).spec_contains(activity_id),
            forall|k: int|
                0 <= k < dependencies@.len() ==> final(self).spec_depends_on(
                    activity_id,
                    #[trigger] dependencies@[k],
                ),
    {
        let mut n: usize = 0;
        assert(dependencies@.take(0) =~= Seq::<ActivityId>::empty());
        while n < dependencies.len()
            invariant
                n <= dependencies@.len(),
                self.wf(),
                self.spec_after_add_all(*old(self), activity_id, dependencies@.take(n as int)),
                !dependencies@.contains(activity_id),
                self.spec_len() >= old(self).spec_len(),
                n > 0 ==> self.spec_contains(activity_id),
                forall|k: int|
                    0 <= k < n ==> self.spec_depends_on(activity_id, #[trigger] dependencies@[k]),
            decreases dependencies@.len() - n,
        {
            let ghost prev = *self;
            let d = dependencies[n];
            assert(dependencies@.contains(d));
            self.add_dependency(activity_id, d);
            proof {
                assert(dependencies@.take(n + 1).drop_last() =~= dependencies@.take(n as int));
                assert(dependencies@.take(n + 1).last() == d);
                assert(prev.spec_after_add_all(
                    *old(self),
                    activity_id,
                    dependencies@.take(n + 1).drop_last(),
                ));
                assert(self.spec_after_add(prev, activity_id, dependencies@.take(n + 1).last()));
                lemma_add_all_step(*self, prev, *old(self), activity_id, dependencies@.take(n + 1));
                lemma_add_keeps(*self, prev, activity_id, d);
                assert forall|k: int| 0 <= k < n + 1 implies self.spec_depends_on(
                    activity_id,
                    #[trigger] dependencies@[k],
                ) by {
                    if k < n {
                        assert(prev.spec_depends_on(activity_id, dependencies@[k]));
                    }
                }
            }
            n += 1;
        }
        assert(dependencies@.take(dependencies@.len() as int) =~= dependencies@);
    }

    /// How the graph stands after each of `dependencies` has been added for
    /// `activity_id` to the graph `before`, one after the other.
    pub open spec fn spec_after_add_all(
        &self,
        before: ActivityDependencies,
        activity_id: ActivityId,
        dependencies: Seq<ActivityId>,
    ) -> bool
        decreases dependencies.len(),
    {
        if dependencies.len() == 0 {
            self.entries@ == before.entries@
        } else {
            exists|mid: ActivityDependencies|
                mid.spec_after_add_all(before, activity_id, dependencies.drop_last()) && (
                #[trigger] self.spec_after_add(mid, activity_id, dependencies.last()))
        }
    }

    /// Whether `activity_id` has an entry that lists `dependency`.
    pub open spec fn spec_depends_on(&self, activity_id: ActivityId, dependency: ActivityId) -> bool {
        exists|i: int|
            0 <= i < self.entries@.len() && self.entries@[i].0 == activity_id
                && self.entries@[i].1@.contains(dependency)
    }
}

/// One more dependency added makes one more step of adding them all.
proof fn lemma_add_all_step(
    after: ActivityDependencies,
    mid: ActivityDependencies,
    before: ActivityDependencies,
    activity_id: ActivityId,
    dependencies: Seq<ActivityId>,
)
    requires
        dependencies.len() > 0,
        mid.spec_after_add_all(before, activity_id, dependencies.drop_last()),
        after.spec_after_add(mid, activity_id, dependencies.last()),
    ensures
        after.spec_after_add_all(before, activity_id, dependencies),
{
}

/// After `add_dependency` the activity has an entry that lists the
/// dependency, and whatever was listed before is listed still.
pub proof fn lemma_add_keeps(
    after: ActivityDependencies,
    before: ActivityDependencies,
    activity_id: ActivityId,
    dependency: ActivityId,
)
    requires
        before.wf(),
        after.spec_after_add(before, activity_id, dependency),
    ensures
        after.spec_contains(activity_id),
        after.spec_depends_on(activity_id, dependency),
        after.spec_len() >= before.spec_len(),
        forall|a: ActivityId, d: ActivityId|
            before.spec_depends_on(a, d) ==> after.spec_depends_on(a, d),
        forall|a: ActivityId| before.spec_contains(a) ==> after.spec_contains(a),
{
    if before.spec_contains(activity_id) {
        let i = choose|i: int| 0 <= i < before.entries@.len() && before.entries@[i].0 == activity_id;
        assert(after.id(i) == activity_id);
        assert(after.entries@[i].0 == activity_id);
        if !before.deps(i).contains(dependency) {
            assert(after.deps(i) == before.deps(i).push(dependency));
            assert(after.deps(i)[before.deps(i).len() as int] == dependency);
        }
        assert(after.entries@[i].1@.contains(dependency));
        assert forall|a: ActivityId, d: ActivityId| before.spec_depends_on(a, d) implies after.spec_depends_on(a, d) by {
            let k = choose|k: int|
                0 <= k < before.entries@.len() && before.entries@[k].0 == a
                    && before.entries@[k].1@.contains(d);
            assert(after.id(k) == a);
            let m = choose|m: int| 0 <= m < before.deps(k).len() && before.deps(k)[m] == d;
            assert(after.deps(k)[m] == d);
            assert(after.entries@[k].0 == a && after.entries@[k].1@.contains(d));
        }
        assert forall|a: ActivityId| before.spec_contains(a) implies after.spec_contains(a) by {
            let k = choose|k: int| 0 <= k < before.entries@.len() && before.entries@[k].0 == a;
            assert(after.id(k) == a);
            assert(after.entries@[k].0 == a);
        }
    } else {
        let i = after.entries@.len() - 1;
        assert(after.entries@[i].0 == activity_id);
        assert(after.entries@[i].1@[0] == dependency);
        assert forall|a: ActivityId, d: ActivityId| before.spec_depends_on(a, d) implies after.spec_depends_on(a, d) by {
            let k = choose|k: int|
                0 <= k < before.entries@.len() && before.entries@[k].0 == a
                    && before.entries@[k].1@.contains(d);
            assert(after.entries@.drop_last()[k] == after.entries@[k]);
        }
        assert forall|a: ActivityId| before.spec_contains(a) implies after.spec_contains(a) by {
            let k = choose|k: int| 0 <= k < before.entries@.len() && before.entries@[k].0 == a;
            assert(after.entries@.drop_last()[k] == after.entries@[k]);
        }
    }
}

/// Whether a list holds an activity.
pub fn list_contains(list: &Vec<ActivityId>, id: ActivityId) -> (b: bool)
    ensures
        b == list@.contains(id),
{
    let mut i: usize = 0;
    while i < list.len()
        invariant
            i <= list@.len(),
            forall|k: int| 0 <= k < i ==> list@[k] != id,
        decreases list@.len() - i,
    {
        if list[i].0 == id.0 {
            return true;
        }
        i += 1;
    }
    false
}

} // verus!
