//! The builder of a secondary agent.
use vstd::prelude::*;
use crate::agent::secondary::SecondaryAgent;
use crate::ids::AgentId;
use crate::worker_pool::listener::spec_distinct_ids;
use crate::worker_pool::pool::WorkerPool;

verus! {

/// The configuration of a secondary agent, set piece by piece.
pub struct Builder {
    /// The id of the agent.
    pub id: Option<AgentId>,
    /// The worker pool of the agent.
    pub worker_pool: Option<WorkerPool>,
}

impl Builder {
    /// A builder with nothing set.
    pub fn new() -> (b: Builder)
        ensures
            b.id is None,
            b.worker_pool is None,
    {
        Builder { id: None, worker_pool: None }
    }

    /// Sets the id of the agent to build.
    pub fn id(self, agent_id: AgentId) -> (b: Builder)
        ensures
            b.id == Some(agent_id),
            b.worker_pool == self.worker_pool,
    {
        let mut b = self;
        b.id = Some(agent_id);
        b
    }

    /// Sets the worker pool.
    pub fn worker_pool(self, worker_pool: WorkerPool) -> (b: Builder)
        ensures
            b.worker_pool == Some(worker_pool),
            b.id == self.id,
    {
        let mut b = self;
        b.worker_pool = Some(worker_pool);
        b
    }

    /// Builds the secondary agent. The id and the worker pool must have been
    /// set.
    pub fn build(self) -> (agent: SecondaryAgent)
        requires
            self.id is Some,
            self.worker_pool is Some,
            spec_distinct_ids(self.worker_pool->Some_0.activity_ids@),
        ensures
            agent.agent_id == self.id->Some_0,
            agent.wp_listener.wf(),
            agent.wp_listener.ids() == self.worker_pool->Some_0.activity_ids@,
    {
        let pool = self.worker_pool.unwrap();
        SecondaryAgent::new(self.id.unwrap(), &pool)
    }
}

} // verus!
