//! The configuration of a worker pool: which worker runs which activities.
use vstd::prelude::*;
use crate::configuration::assignments::WorkerPoolConfigInfo;
use crate::configuration::dependencies::list_contains;
use crate::ids::{ActivityId, WorkerId};
use crate::worker_pool::listener::spec_distinct_ids;
use crate::worker_pool::pool::{spec_route_ids, spec_routes, WorkerPool};

verus! {

/// Whether one of the workers runs the activity.
pub open spec fn spec_contains_activity(
    workers: Seq<(WorkerId, Vec<ActivityId>)>,
    id: ActivityId,
) -> bool {
    exists|w: int| 0 <= w < workers.len() && (#[trigger] workers[w]).1@.contains(id)
}

/// Whether the worker has an entry.
pub open spec fn spec_contains_worker(workers: Seq<(WorkerId, Vec<ActivityId>)>, id: WorkerId) -> bool {
    exists|w: int| 0 <= w < workers.len() && (#[trigger] workers[w]).0 == id
}

/// How the workers stand after the activity has been added to the worker:
/// behind the activities of the worker's first entry, or in a new entry behind
/// all others where the worker has none.
pub open spec fn spec_after_add_activity(
    after: Seq<(WorkerId, Vec<ActivityId>)>,
    before: Seq<(WorkerId, Vec<ActivityId>)>,
    worker_id: WorkerId,
    activity_id: ActivityId,
) -> bool {
    if spec_contains_worker(before, worker_id) {
        &&& after.len() == before.len()
        &&& exists|at: int|
            {
                &&& 0 <= at < before.len()
                &&& (#[trigger] before[at]).0 == worker_id
                &&& forall|k: int| 0 <= k < at ==> (#[trigger] before[k]).0 != worker_id
                &&& after[at].0 == worker_id
                &&& after[at].1@ == before[at].1@.push(activity_id)
                &&& forall|k: int| 0 <= k < before.len() && k != at ==> after[k] == before[k]
            }
    } else {
        &&& after.len() == before.len() + 1
        &&& after.drop_last() == before
        &&& after.last().0 == worker_id
        &&& after.last().1@ == seq![activity_id]
    }
}

/// Looks up whether one of the workers runs the activity.
pub fn contains_activity_in(workers: &Vec<(WorkerId, Vec<ActivityId>)>, id: ActivityId) -> (b: bool)
    ensures
        b == spec_contains_activity(workers@, id),
{
    let mut w: usize = 0;
    while w < workers.len()
        invariant
            w <= workers@.len(),
            forall|k: int| 0 <= k < w ==> !(#[trigger] workers@[k]).1@.contains(id),
        decreases workers@.len() - w,
    {
        if list_contains(&workers[w].1, id) {
            return true;
        }
        w += 1;
    }
    false
}

/// Adds the activity to the worker.
pub fn add_activity_to(
    workers: &mut Vec<(WorkerId, Vec<ActivityId>)>,
    worker_id: WorkerId,
    activity_id: ActivityId,
)
    ensures
        spec_after_add_activity(final(workers)@, old(workers)@, worker_id, activity_id),
{
    let mut w: usize = 0;
    while w < workers.len()
        invariant
            w <= workers@.len(),
            workers@ == old(workers)@,
            forall|k: int| 0 <= k < w ==> (#[trigger] workers@[k]).0 != worker_id,
        decreases workers@.len() - w,
    {
        if workers[w].0.0 == worker_id.0 {
            workers[w].1.push(activity_id);
            proof {
                let at = w as int;
                assert(old(workers)@[at].0 == worker_id);
                assert(spec_contains_worker(old(workers)@, worker_id));
            }
            return ;
        }
        w += 1;
    }
    let mut list: Vec<ActivityId> = Vec::new();
    list.push(activity_id);
    workers.push((worker_id, list));
    proof {
        assert(workers@.drop_last() =~= old(workers)@);
        assert(workers@.last().1@ =~= seq![activity_id]);
    }
}

impl WorkerPoolConfigInfo {
    /// A configuration without workers.
    pub fn new() -> (c: WorkerPoolConfigInfo)
        ensures
            c.workers@.len() == 0,
    {
        WorkerPoolConfigInfo { workers: Vec::new() }
    }

    /// Checks whether the configuration contains an activity with the given
    /// id.
    pub fn contains_activity(&self, activity_id: ActivityId) -> (b: bool)
        ensures
            b == spec_contains_activity(self.workers@, activity_id),
    {
        contains_activity_in(&self.workers, activity_id)
    }

    /// Inserts the given activity for the specified worker. The activity may
    /// not be in the configuration already.
    pub fn add_activity(&mut self, worker_id: WorkerId, activity_id: ActivityId)
        requires
            !spec_contains_activity(old(self).workers@, activity_id),
        ensures
            spec_after_add_activity(final(self).workers@, old(self).workers@, worker_id, activity_id),
    {
        add_activity_to(&mut self.workers, worker_id, activity_id);
    }
}

impl WorkerPoolConfigInfo {
    /// Inserts multiple activities for the specified worker, in their order.
    /// None of them may be in the configuration already, and none may stand
    /// twice among them.
    pub fn add_activities(&mut self, worker_id: WorkerId, activities: &Vec<ActivityId>)
        requires
            spec_distinct_ids(activities@),
            forall|k: int|
                0 <= k < activities@.len() ==> !spec_contains_activity(
                    old(self).workers@,
                    #[trigger] activities@[k],
                ),
        ensures
            spec_after_add_activities(
                final(self).workers@,
                old(self).workers@,
                worker_id,
                activities@,
            ),
            forall|k: int|
                0 <= k < activities@.len() ==> spec_contains_activity(
                    final(self).workers@,
                    #[trigger] activities@[k],
                ),
            forall|id: ActivityId|
                spec_contains_activity(final(self).workers@, id) ==> spec_contains_activity(
                    old(self).workers@,
                    id,
                ) || activities@.contains(id),
            activities@.len() > 0 ==> spec_contains_worker(final(self).workers@, worker_id),
    {
        let mut n: usize = 0;
        assert(activities@.take(0) =~= Seq::<ActivityId>::empty());
        while n < activities.len()
            invariant
                n <= activities@.len(),
                spec_after_add_activities(
                    self.workers@,
                    old(self).workers@,
                    worker_id,
                    activities@.take(n as int),
                ),
                spec_distinct_ids(activities@),
                forall|k: int|
                    n <= k < activities@.len() ==> !spec_contains_activity(
                        self.workers@,
                        #[trigger] activities@[k],
                    ),
                forall|k: int|
                    0 <= k < n ==> spec_contains_activity(self.workers@, #[trigger] activities@[k]),
                forall|id: ActivityId|
                    spec_contains_activity(self.workers@, id) ==> spec_contains_activity(
                        old(self).workers@,
                        id,
                    ) || activities@.contains(id),
                n > 0 ==> spec_contains_worker(self.workers@, worker_id),
            decreases activities@.len() - n,
        {
            let ghost before = self.workers@;
            let id = activities[n];
            self.add_activity(worker_id, id);
            proof {
                assert(activities@.take(n + 1).drop_last() =~= activities@.take(n as int));
                assert(activities@.take(n + 1).last() == id);
                assert(spec_after_add_activities(
                    before,
                    old(self).workers@,
                    worker_id,
                    activities@.take(n + 1).drop_last(),
                ));
                assert(spec_after_add_activity(
                    self.workers@,
                    before,
                    worker_id,
                    activities@.take(n + 1).last(),
                ));
                assert(spec_after_add_activities(
                    self.workers@,
                    old(self).workers@,
                    worker_id,
                    activities@.take(n + 1),
                ));
                lemma_added(self.workers@, before, worker_id, id);
                assert forall|k: int| n + 1 <= k < activities@.len() implies !spec_contains_activity(
                    self.workers@,
                    #[trigger] activities@[k],
                ) by {
                    assert(activities@[k] != id);
                }
                assert forall|k: int| 0 <= k < n + 1 implies spec_contains_activity(
                    self.workers@,
                    #[trigger] activities@[k],
                ) by {
                    if k < n {
                        assert(spec_contains_activity(before, activities@[k]));
                    }
                }
                assert(activities@.contains(id));
            }
            n += 1;
        }
        assert(activities@.take(activities@.len() as int) =~= activities@);
    }
}

/// How the workers stand after each of the activities has been added to the
/// worker, one after the other.
pub open spec fn spec_after_add_activities(
    after: Seq<(WorkerId, Vec<ActivityId>)>,
    before: Seq<(WorkerId, Vec<ActivityId>)>,
    worker_id: WorkerId,
    activities: Seq<ActivityId>,
) -> bool
    decreases activities.len(),
{
    if activities.len() == 0 {
        after == before
    } else {
        exists|mid: Seq<(WorkerId, Vec<ActivityId>)>|
            spec_after_add_activities(mid, before, worker_id, activities.drop_last()) && (
            #[trigger] spec_after_add_activity(after, mid, worker_id, activities.last()))
    }
}

/// After an activity has been added to a worker, the worker has an entry,
/// the activity is in the configuration, and the configuration holds what it
/// held before and the activity, nothing else.
pub proof fn lemma_added(
    after: Seq<(WorkerId, Vec<ActivityId>)>,
    before: Seq<(WorkerId, Vec<ActivityId>)>,
    worker_id: WorkerId,
    activity_id: ActivityId,
)
    requires
        spec_after_add_activity(after, before, worker_id, activity_id),
    ensures
        spec_contains_worker(after, worker_id),
        spec_contains_activity(after, activity_id),
        forall|id: ActivityId|
            spec_contains_activity(after, id) <==> spec_contains_activity(before, id) || id
                == activity_id,
{
    if spec_contains_worker(before, worker_id) {
        let at = choose|at: int|
            {
                &&& 0 <= at < before.len()
                &&& (#[trigger] before[at]).0 == worker_id
                &&& forall|k: int| 0 <= k < at ==> (#[trigger] before[k]).0 != worker_id
                &&& after[at].0 == worker_id
                &&& after[at].1@ == before[at].1@.push(activity_id)
                &&& forall|k: int| 0 <= k < before.len() && k != at ==> after[k] == before[k]
            };
        assert(after[at].0 == worker_id);
        assert(after[at].1@[before[at].1@.len() as int] == activity_id);
        assert(after[at].1@.contains(activity_id));
        assert forall|id: ActivityId| spec_contains_activity(after, id) implies spec_contains_activity(
            before,
            id,
        ) || id == activity_id by {
            let w = choose|w: int| 0 <= w < after.len() && (#[trigger] after[w]).1@.contains(id);
            if w != at {
                assert(before[w].1@.contains(id));
            } else if id != activity_id {
                let m = choose|m: int| 0 <= m < after[at].1@.len() && after[at].1@[m] == id;
                assert(before[at].1@[m] == id);
                assert(before[at].1@.contains(id));
            }
        }
        assert forall|id: ActivityId| spec_contains_activity(before, id) implies spec_contains_activity(
            after,
            id,
        ) by {
            let w = choose|w: int| 0 <= w < before.len() && (#[trigger] before[w]).1@.contains(id);
            if w != at {
                assert(after[w].1@.contains(id));
            } else {
                let m = choose|m: int| 0 <= m < before[at].1@.len() && before[at].1@[m] == id;
                assert(after[at].1@[m] == id);
                assert(after[at].1@.contains(id));
            }
        }
    } else {
        let last = after.len() - 1;
        assert(after[last].0 == worker_id);
        assert(after[last].1@[0] == activity_id);
        assert(after[last].1@.contains(activity_id));
        assert forall|id: ActivityId| spec_contains_activity(after, id) implies spec_contains_activity(
            before,
            id,
        ) || id == activity_id by {
            let w = choose|w: int| 0 <= w < after.len() && (#[trigger] after[w]).1@.contains(id);
            if w < last {
                assert(after.drop_last()[w] == after[w]);
                assert(before[w].1@.contains(id));
            }
        }
        assert forall|id: ActivityId| spec_contains_activity(before, id) implies spec_contains_activity(
            after,
            id,
        ) by {
            let w = choose|w: int| 0 <= w < before.len() && (#[trigger] before[w]).1@.contains(id);
            assert(after.drop_last()[w] == after[w]);
        }
    }
}

/// The configuration of a worker pool to be run by an agent.
pub struct Builder {
    /// The activities of each worker.
    pub assignments: Vec<(WorkerId, Vec<ActivityId>)>,
    /// The stack size of the workers' threads, if it is not the default.
    pub stack_size: Option<usize>,
}

impl Builder {
    /// Creates a builder from the given assignments.
    pub fn new(assignments: Vec<(WorkerId, Vec<ActivityId>)>) -> (b: Builder)
        ensures
            b.assignments@ == assignments@,
            b.stack_size is None,
    {
        Builder { assignments, stack_size: None }
    }

    /// Provides the assignments of the pool.
    pub fn assignments(&mut self, assignments: Vec<(WorkerId, Vec<ActivityId>)>)
        ensures
            final(self).assignments@ == assignments@,
            final(self).stack_size == old(self).stack_size,
    {
        self.assignments = assignments;
    }

    /// Sets the stack size of the workers' threads.
    pub fn stack_size(&mut self, stack_size: usize)
        ensures
            final(self).stack_size == Some(stack_size),
            final(self).assignments@ == old(self).assignments@,
    {
        self.stack_size = Some(stack_size);
    }

    /// Inserts the given activity for the specified worker. The activity may
    /// not be in the configuration already.
    pub fn activity(&mut self, worker_id: WorkerId, activity_id: ActivityId)
        requires
            !spec_contains_activity(old(self).assignments@, activity_id),
        ensures
            final(self).stack_size == old(self).stack_size,
            spec_after_add_activity(
                final(self).assignments@,
                old(self).assignments@,
                worker_id,
                activity_id,
            ),
    {
        add_activity_to(&mut self.assignments, worker_id, activity_id);
    }

    /// Checks whether the configuration contains an activity with the given
    /// id.
    pub fn contains_activity(&self, activity_id: ActivityId) -> (b: bool)
        ensures
            b == spec_contains_activity(self.assignments@, activity_id),
    {
        contains_activity_in(&self.assignments, activity_id)
    }

    /// Checks whether the configuration names no worker.
    pub fn is_assignments_empty(&self) -> (b: bool)
        ensures
            b == (self.assignments@.len() == 0),
    {
        self.assignments.len() == 0
    }

    /// Builds the worker pool, or nothing where the configuration names no
    /// worker. No activity may be assigned twice.
    pub fn build(self) -> (r: Option<WorkerPool>)
        requires
            spec_distinct_ids(spec_route_ids(spec_routes(self.assignments@))),
        ensures
            self.assignments@.len() == 0 <==> r is None,
            r is Some ==> r->Some_0.workpool_trigger.trigger_senders@ == spec_routes(
                self.assignments@,
            ) && r->Some_0.activity_ids@ == spec_route_ids(spec_routes(self.assignments@)),
    {
        if self.assignments.len() == 0 {
            return None;
        }
        Some(WorkerPool::new(&self.assignments))
    }
}

} // verus!
