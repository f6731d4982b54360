//! The primary agent: the scheduler and the connector of a deployment.
use vstd::prelude::*;
use crate::agent::connector::ActivityConnector;
use crate::agent::scheduler::{Phase, Scheduler};
use crate::configuration::assignments::{
    spec_assignments, spec_distinct, spec_secondary_agents, AgentConfig,
};
use crate::configuration::dependencies::ActivityDependencies;
use crate::feo_time::duration::Duration;
use crate::ids::AgentId;

verus! {

/// What the primary agent is made from.
pub struct PrimaryAgentConfig {
    /// The id of the agent.
    pub agent_id: AgentId,
    /// The target duration of a task chain cycle.
    pub cycle_time: Duration,
    /// The assignment of activities to the agents and their workers.
    pub agent_map: Vec<AgentConfig>,
    /// The recorders that are attached, if any.
    pub recorders: Option<Vec<AgentId>>,
    /// For each activity the activities it depends on.
    pub activity_depends: ActivityDependencies,
}

/// The primary agent.
pub struct PrimaryAgent {
    /// What decides which activity is stepped when.
    pub scheduler: Scheduler,
    /// What decides where each signal goes.
    pub connector: ActivityConnector,
}

impl PrimaryAgentConfig {
    /// The recorders of the configuration; none where none were named.
    pub open spec fn spec_recorders(&self) -> Seq<AgentId> {
        match self.recorders {
            Some(r) => r@,
            None => Seq::empty(),
        }
    }

    /// Whether an agent can be made from the configuration: no activity is
    /// entered twice, neither in the dependency graph nor in the assignments,
    /// and no recorder is named twice.
    pub open spec fn wf(&self) -> bool {
        &&& self.activity_depends.wf()
        &&& spec_distinct(spec_assignments(self.agent_map@))
        &&& self.spec_recorders().no_duplicates()
    }
}

impl PrimaryAgent {
    /// Creates a primary agent from the given configuration. Its scheduler
    /// has triggered nothing yet, and its connector knows the assignment of
    /// every activity.
    pub fn new(config: PrimaryAgentConfig) -> (agent: PrimaryAgent)
        requires
            config.wf(),
        ensures
            agent.scheduler.inv(),
            agent.scheduler.phase == Phase::Startup,
            agent.scheduler.cycle_time == config.cycle_time,
            agent.scheduler.activity_depends == config.activity_depends,
            agent.connector.wf(),
            agent.connector.local_agent_id == config.agent_id,
            agent.connector.activity_map@ == spec_assignments(config.agent_map@),
            agent.connector.recorders@ == config.spec_recorders(),
            agent.connector.secondary_agents@ == spec_secondary_agents(
                config.agent_map@,
                config.agent_id,
            ),
    {
        let recorders = match config.recorders {
            Some(r) => r,
            None => Vec::new(),
        };
        let connector = ActivityConnector::new(&config.agent_map, recorders, config.agent_id);
        let scheduler = Scheduler::new(config.cycle_time, config.activity_depends);
        PrimaryAgent { scheduler, connector }
    }
}

} // verus!
