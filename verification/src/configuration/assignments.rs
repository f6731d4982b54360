//! The assignment graph: which worker of which agent runs which activities.
use vstd::prelude::*;
use crate::agent::connector::Assignment;
use crate::ids::{ActivityId, AgentId, WorkerId};

verus! {

/// What the primary agent needs to know of an agent's worker pool: for each
/// worker the activities it runs, in the order in which they were entered.
pub struct WorkerPoolConfigInfo {
    /// The workers, each with its activities.
    pub workers: Vec<(WorkerId, Vec<ActivityId>)>,
}

/// What the primary agent needs to know of an agent: its id and its worker
/// pool.
pub type AgentConfig = (AgentId, WorkerPoolConfigInfo);

/// The assignments of one worker.
pub open spec fn spec_worker_assignments(
    agent: AgentId,
    worker: WorkerId,
    activities: Seq<ActivityId>,
) -> Seq<Assignment> {
    activities.map_values(|a: ActivityId| Assignment { activity: a, agent, worker })
}

/// The assignments of one agent: those of its workers, one worker after the
/// other.
pub open spec fn spec_pool_assignments(
    agent: AgentId,
    workers: Seq<(WorkerId, Vec<ActivityId>)>,
) -> Seq<Assignment>
    decreases workers.len(),
{
    if workers.len() == 0 {
        Seq::empty()
    } else {
        spec_pool_assignments(agent, workers.drop_last()) + spec_worker_assignments(
            agent,
            workers.last().0,
            workers.last().1@,
        )
    }
}

/// The assignments of a deployment: those of its agents, one agent after the
/// other.
pub open spec fn spec_assignments(agent_map: Seq<AgentConfig>) -> Seq<Assignment>
    decreases agent_map.len(),
{
    if agent_map.len() == 0 {
        Seq::empty()
    } else {
        spec_assignments(agent_map.drop_last()) + spec_pool_assignments(
            agent_map.last().0,
            agent_map.last().1.workers@,
        )
    }
}

/// Whether no activity is assigned twice.
pub open spec fn spec_distinct(assignments: Seq<Assignment>) -> bool {
    forall|i: int, j: int|
        0 <= i < assignments.len() && 0 <= j < assignments.len() && i != j
            ==> assignments[i].activity != assignments[j].activity
}

/// The agents of a deployment other than `local`, in their order.
pub open spec fn spec_secondary_agents(agent_map: Seq<AgentConfig>, local: AgentId) -> Seq<AgentId>
    decreases agent_map.len(),
{
    if agent_map.len() == 0 {
        Seq::empty()
    } else if agent_map.last().0 != local {
        spec_secondary_agents(agent_map.drop_last(), local).push(agent_map.last().0)
    } else {
        spec_secondary_agents(agent_map.drop_last(), local)
    }
}

/// Lists the assignments of a deployment, agent by agent and worker by worker.
pub fn assignments(agent_map: &Vec<AgentConfig>) -> (out: Vec<Assignment>)
    ensures
        out@ == spec_assignments(agent_map@),
{
    let mut out: Vec<Assignment> = Vec::new();
    let mut a: usize = 0;
    assert(agent_map@.take(0) =~= Seq::empty());
    while a < agent_map.len()
        invariant
            a <= agent_map@.len(),
            out@ == spec_assignments(agent_map@.take(a as int)),
        decreases agent_map@.len() - a,
    {
        let agent = agent_map[a].0;
        let workers = &agent_map[a].1.workers;
        let ghost base = out@;
        let mut w: usize = 0;
        assert(workers@.take(0) =~= Seq::empty());
        assert(out@ =~= base + spec_pool_assignments(agent, workers@.take(0)));
        while w < workers.len()
            invariant
                w <= workers@.len(),
                out@ == base + spec_pool_assignments(agent, workers@.take(w as int)),
            decreases workers@.len() - w,
        {
            let worker = workers[w].0;
            let activities = &workers[w].1;
            let ghost wbase = out@;
            let mut k: usize = 0;
            assert(out@ =~= wbase + spec_worker_assignments(agent, worker, activities@.take(0)));
            while k < activities.len()
                invariant
                    k <= activities@.len(),
                    out@ == wbase + spec_worker_assignments(agent, worker, activities@.take(k as int)),
                decreases activities@.len() - k,
            {
                out.push(Assignment { activity: activities[k], agent, worker });
                k += 1;
                assert(out@ =~= wbase + spec_worker_assignments(
                    agent,
                    worker,
                    activities@.take(k as int),
                ));
            }
            w += 1;
            proof {
                assert(activities@.take(activities@.len() as int) =~= activities@);
                assert(workers@.take(w as int).drop_last() =~= workers@.take(w - 1));
                assert(workers@.take(w as int).last() == workers@[w - 1]);
                assert(out@ =~= base + spec_pool_assignments(agent, workers@.take(w as int)));
            }
        }
        a += 1;
        proof {
            assert(workers@.take(workers@.len() as int) =~= workers@);
            assert(agent_map@.take(a as int).drop_last() =~= agent_map@.take(a - 1));
            assert(agent_map@.take(a as int).last() == agent_map@[a - 1]);
        }
    }
    assert(agent_map@.take(agent_map@.len() as int) =~= agent_map@);
    out
}

/// Finds an activity that is assigned twice: the first, in the order of the
/// assignments, that stands again further on. There is none exactly if no
/// activity is assigned twice.
pub fn find_duplicate(assignments: &Vec<Assignment>) -> (r: Option<ActivityId>)
    ensures
        r is None <==> spec_distinct(assignments@),
        r is Some ==> exists|i: int, j: int|
            0 <= i < j < assignments@.len() && assignments@[i].activity == r->Some_0
                && assignments@[j].activity == r->Some_0,
{
    let mut i: usize = 0;
    while i < assignments.len()
        invariant
            i <= assignments@.len(),
            forall|x: int, y: int|
                0 <= x < i && x < y < assignments@.len() ==> assignments@[x].activity
                    != assignments@[y].activity,
        decreases assignments@.len() - i,
    {
        let mut j: usize = i + 1;
        while j < assignments.len()
            invariant
                i < assignments@.len(),
                i < j <= assignments@.len(),
                forall|y: int| i < y < j ==> assignments@[i as int].activity != assignments@[y].activity,
            decreases assignments@.len() - j,
        {
            if assignments[i].activity.0 == assignments[j].activity.0 {
                assert(assignments@[i as int].activity == assignments@[j as int].activity);
                return Some(assignments[i].activity);
            }
            j += 1;
        }
        i += 1;
    }
    assert(spec_distinct(assignments@)) by {
        assert forall|x: int, y: int|
            0 <= x < assignments@.len() && 0 <= y < assignments@.len() && x
                != y implies assignments@[x].activity != assignments@[y].activity by {
            if x < y {
            } else {
                assert(assignments@[y].activity != assignments@[x].activity);
            }
        }
    }
    None
}

/// Lists the agents of a deployment other than `local`, in their order.
pub fn secondary_agents(agent_map: &Vec<AgentConfig>, local: AgentId) -> (out: Vec<AgentId>)
    ensures
        out@ == spec_secondary_agents(agent_map@, local),
{
    let mut out: Vec<AgentId> = Vec::new();
    let mut a: usize = 0;
    assert(agent_map@.take(0) =~= Seq::empty());
    while a < agent_map.len()
        invariant
            a <= agent_map@.len(),
            out@ == spec_secondary_agents(agent_map@.take(a as int), local),
        decreases agent_map@.len() - a,
    {
        if agent_map[a].0.0 != local.0 {
            out.push(agent_map[a].0);
        }
        a += 1;
        proof {
            assert(agent_map@.take(a as int).drop_last() =~= agent_map@.take(a - 1));
            assert(agent_map@.take(a as int).last() == agent_map@[a - 1]);
        }
    }
    assert(agent_map@.take(agent_map@.len() as int) =~= agent_map@);
    out
}

} // verus!
