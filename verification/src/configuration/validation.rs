//! The checks that a deployment has to pass before an agent is built.
use vstd::prelude::*;
use crate::agent::connector::Assignment;
use crate::configuration::assignments::{
    assignments, find_duplicate, spec_assignments, spec_distinct, AgentConfig,
};
use crate::configuration::dependencies::{list_contains, ActivityDependencies};
use crate::ids::{ActivityId, AgentId, WorkerId};

verus! {

/// Why a deployment is rejected.
#[derive(Debug, Clone, Copy, PartialEq, Eq, Structural)]
pub enum ConfigError {
    /// The activity is assigned more than once.
    DuplicateActivity(ActivityId),
    /// The worker of the agent has no activity.
    UnassignedWorker(AgentId, WorkerId),
    /// The activity depends on itself.
    SelfDependency(ActivityId),
    /// The activity stands in the dependency graph, but no worker runs it.
    UnassignedActivity(ActivityId),
}

/// Whether the activity is assigned to a worker.
pub open spec fn spec_assigned(assignments: Seq<Assignment>, id: ActivityId) -> bool {
    exists|i: int| 0 <= i < assignments.len() && assignments[i].activity == id
}

/// Whether the worker `w` of the agent `a` of the deployment has no activity.
pub open spec fn spec_idle_worker(agent_map: Seq<AgentConfig>, a: int, w: int) -> bool {
    0 <= a < agent_map.len() && 0 <= w < agent_map[a].1.workers@.len()
        && agent_map[a].1.workers@[w].1@.len() == 0
}

/// Whether every worker of the deployment has an activity.
pub open spec fn spec_workers_busy(agent_map: Seq<AgentConfig>) -> bool {
    forall|a: int, w: int| !spec_idle_worker(agent_map, a, w)
}

/// Whether every activity of the dependency graph, be it one that waits or
/// one that is waited for, is assigned to a worker.
pub open spec fn spec_all_assigned(deps: ActivityDependencies, assignments: Seq<Assignment>) -> bool {
    &&& forall|i: int| 0 <= i < deps.entries@.len() ==> spec_assigned(assignments, #[trigger] deps.id(i))
    &&& forall|i: int, k: int|
        0 <= i < deps.entries@.len() && 0 <= k < deps.deps(i).len() ==> spec_assigned(
            assignments,
            #[trigger] deps.deps(i)[k],
        )
}

/// Whether a deployment passes all checks.
pub open spec fn spec_valid(agent_map: Seq<AgentConfig>, deps: ActivityDependencies) -> bool {
    &&& spec_distinct(spec_assignments(agent_map))
    &&& spec_workers_busy(agent_map)
    &&& deps.spec_no_self_dependency()
    &&& spec_all_assigned(deps, spec_assignments(agent_map))
}

/// Looks up whether the activity is assigned to a worker.
pub fn is_assigned(assignments: &Vec<Assignment>, id: ActivityId) -> (b: bool)
    ensures
        b == spec_assigned(assignments@, id),
{
    let mut i: usize = 0;
    while i < assignments.len()
        invariant
            i <= assignments@.len(),
            forall|k: int| 0 <= k < i ==> assignments@[k].activity != id,
        decreases assignments@.len() - i,
    {
        if assignments[i].activity.0 == id.0 {
            return true;
        }
        i += 1;
    }
    false
}

/// Finds a worker without activities: the first in the order of the
/// deployment.
pub fn find_idle_worker(agent_map: &Vec<AgentConfig>) -> (r: Option<(AgentId, WorkerId)>)
    ensures
        r is None <==> spec_workers_busy(agent_map@),
        r is Some ==> exists|a: int, w: int|
            spec_idle_worker(agent_map@, a, w) && agent_map@[a].0 == r->Some_0.0
                && agent_map@[a].1.workers@[w].0 == r->Some_0.1,
{
    let mut a: usize = 0;
    while a < agent_map.len()
        invariant
            a <= agent_map@.len(),
            forall|x: int, y: int| 0 <= x < a ==> !spec_idle_worker(agent_map@, x, y),
        decreases agent_map@.len() - a,
    {
        let workers = &agent_map[a].1.workers;
        let mut w: usize = 0;
        while w < workers.len()
            invariant
                a < agent_map@.len(),
                workers@ == agent_map@[a as int].1.workers@,
                w <= workers@.len(),
                forall|y: int| 0 <= y < w ==> !spec_idle_worker(agent_map@, a as int, y),
            decreases workers@.len() - w,
        {
            if workers[w].1.len() == 0 {
                assert(spec_idle_worker(agent_map@, a as int, w as int));
                return Some((agent_map[a].0, workers[w].0));
            }
            w += 1;
        }
        a += 1;
    }
    None
}

/// Finds an activity that depends on itself: the first in the order of the
/// graph.
pub fn find_self_dependency(deps: &ActivityDependencies) -> (r: Option<ActivityId>)
    ensures
        r is None <==> deps.spec_no_self_dependency(),
        r is Some ==> exists|i: int|
            0 <= i < deps.entries@.len() && deps.id(i) == r->Some_0 && deps.deps(i).contains(
                r->Some_0,
            ),
{
    let mut i: usize = 0;
    while i < deps.entries.len()
        invariant
            i <= deps.entries@.len(),
            forall|k: int| 0 <= k < i ==> !deps.deps(k).contains(deps.id(k)),
        decreases deps.entries@.len() - i,
    {
        if list_contains(&deps.entries[i].1, deps.entries[i].0) {
            assert(deps.deps(i as int).contains(deps.id(i as int)));
            return Some(deps.entries[i].0);
        }
        i += 1;
    }
    None
}

/// Finds an activity of the dependency graph that no worker runs: the first
/// in the order of the graph, each activity before those it waits for.
pub fn find_unassigned(deps: &ActivityDependencies, assignments: &Vec<Assignment>) -> (r: Option<
    ActivityId,
>)
    ensures
        r is None <==> spec_all_assigned(*deps, assignments@),
        r is Some ==> !spec_assigned(assignments@, r->Some_0),
{
    let mut i: usize = 0;
    while i < deps.entries.len()
        invariant
            i <= deps.entries@.len(),
            forall|x: int| 0 <= x < i ==> spec_assigned(assignments@, #[trigger] deps.id(x)),
            forall|x: int, k: int|
                0 <= x < i && 0 <= k < deps.deps(x).len() ==> spec_assigned(
                    assignments@,
                    #[trigger] deps.deps(x)[k],
                ),
        decreases deps.entries@.len() - i,
    {
        if !is_assigned(assignments, deps.entries[i].0) {
            assert(!spec_assigned(assignments@, deps.id(i as int)));
            return Some(deps.entries[i].0);
        }
        let list = &deps.entries[i].1;
        let mut k: usize = 0;
        while k < list.len()
            invariant
                i < deps.entries@.len(),
                list@ == deps.deps(i as int),
                k <= list@.len(),
                forall|y: int| 0 <= y < k ==> spec_assigned(assignments@, #[trigger] list@[y]),
            decreases list@.len() - k,
        {
            if !is_assigned(assignments, list[k]) {
                assert(!spec_assigned(assignments@, deps.deps(i as int)[k as int]));
                return Some(list[k]);
            }
            k += 1;
        }
        i += 1;
    }
    None
}

/// Checks a deployment: no activity may be assigned twice, no worker may be
/// without activities, no activity may depend on itself, and every activity
/// of the dependency graph must be assigned to a worker. The checks are made
/// in this order, and the first that fails gives the error.
pub fn validate(agent_map: &Vec<AgentConfig>, deps: &ActivityDependencies) -> (r: Result<
    (),
    ConfigError,
>)
    ensures
        r is Ok <==> spec_valid(agent_map@, *deps),
        r is Err ==> match r->Err_0 {
            ConfigError::DuplicateActivity(_) => !spec_distinct(spec_assignments(agent_map@)),
            ConfigError::UnassignedWorker(_, _) => spec_distinct(spec_assignments(agent_map@))
                && !spec_workers_busy(agent_map@),
            ConfigError::SelfDependency(_) => spec_distinct(spec_assignments(agent_map@))
                && spec_workers_busy(agent_map@) && !deps.spec_no_self_dependency(),
            ConfigError::UnassignedActivity(id) => spec_distinct(spec_assignments(agent_map@))
                && spec_workers_busy(agent_map@) && deps.spec_no_self_dependency()
                && !spec_assigned(spec_assignments(agent_map@), id),
        },
{
    let list = assignments(agent_map);
    if let Some(id) = find_duplicate(&list) {
        return Err(ConfigError::DuplicateActivity(id));
    }
    if let Some((agent, worker)) = find_idle_worker(agent_map) {
        return Err(ConfigError::UnassignedWorker(agent, worker));
    }
    if let Some(id) = find_self_dependency(deps) {
        return Err(ConfigError::SelfDependency(id));
    }
    if let Some(id) = find_unassigned(deps, &list) {
        return Err(ConfigError::UnassignedActivity(id));
    }
    Ok(())
}

} // verus!
