//! The builder of the primary agent.
use vstd::prelude::*;
use crate::agent::primary::{PrimaryAgent, PrimaryAgentConfig};
use crate::configuration::assignments::AgentConfig;
use crate::configuration::dependencies::ActivityDependencies;
use crate::configuration::validation::{spec_valid, validate, ConfigError};
use crate::feo_time::duration::Duration;
use crate::ids::{distinct_agents, AgentId};

verus! {

/// Why no agent was built.
#[derive(Debug, Clone, Copy, PartialEq, Eq, Structural)]
pub enum BuildError {
    /// The id, the cycle time, the assignments or the dependencies have not
    /// been set.
    Incomplete,
    /// An activity is entered twice in the dependency graph.
    DuplicateDependencies,
    /// A recorder is named twice.
    DuplicateRecorder,
    /// The deployment fails a check.
    Rejected(ConfigError),
}

/// The configuration of the primary agent, set piece by piece.
pub struct Builder {
    /// The id of the agent.
    pub id: Option<AgentId>,
    /// The assignment of activities to the agents and their workers.
    pub agent_map: Option<Vec<AgentConfig>>,
    /// The recorders to expect.
    pub recorders: Option<Vec<AgentId>>,
    /// For each activity the activities it depends on.
    pub activity_deps: Option<ActivityDependencies>,
    /// The target duration of a task chain cycle.
    pub feo_cycle_time: Option<Duration>,
}

impl Builder {
    /// A builder with nothing set.
    pub fn new() -> (b: Builder)
        ensures
            b.id is None,
            b.agent_map is None,
            b.recorders is None,
            b.activity_deps is None,
            b.feo_cycle_time is None,
    {
        Builder { id: None, agent_map: None, recorders: None, activity_deps: None, feo_cycle_time: None }
    }

    /// Sets the agent id.
    pub fn id(self, agent_id: AgentId) -> (b: Builder)
        ensures
            b.id == Some(agent_id),
            b.agent_map == self.agent_map,
            b.recorders == self.recorders,
            b.activity_deps == self.activity_deps,
            b.feo_cycle_time == self.feo_cycle_time,
    {
        let mut b = self;
        b.id = Some(agent_id);
        b
    }

    /// Sets the cycle time.
    pub fn cycle_time(self, feo_cycle_time: Duration) -> (b: Builder)
        ensures
            b.feo_cycle_time == Some(feo_cycle_time),
            b.id == self.id,
            b.agent_map == self.agent_map,
            b.recorders == self.recorders,
            b.activity_deps == self.activity_deps,
    {
        let mut b = self;
        b.feo_cycle_time = Some(feo_cycle_time);
        b
    }

    /// Sets the assignment of activities to the agents and their workers.
    pub fn agent_map(self, agent_map: Vec<AgentConfig>) -> (b: Builder)
        ensures
            b.agent_map == Some(agent_map),
            b.id == self.id,
            b.recorders == self.recorders,
            b.activity_deps == self.activity_deps,
            b.feo_cycle_time == self.feo_cycle_time,
    {
        let mut b = self;
        b.agent_map = Some(agent_map);
        b
    }

    /// Sets the recorders to expect.
    pub fn recorders(self, recorders: Vec<AgentId>) -> (b: Builder)
        ensures
            b.recorders == Some(recorders),
            b.id == self.id,
            b.agent_map == self.agent_map,
            b.activity_deps == self.activity_deps,
            b.feo_cycle_time == self.feo_cycle_time,
    {
        let mut b = self;
        b.recorders = Some(recorders);
        b
    }

    /// Sets the activity dependencies.
    pub fn activity_dependencies(self, activity_deps: ActivityDependencies) -> (b: Builder)
        ensures
            b.activity_deps == Some(activity_deps),
            b.id == self.id,
            b.agent_map == self.agent_map,
            b.recorders == self.recorders,
            b.feo_cycle_time == self.feo_cycle_time,
    {
        let mut b = self;
        b.activity_deps = Some(activity_deps);
        b
    }

    /// Whether everything that an agent cannot be without has been set: its
    /// id, the cycle time, the assignments and the dependencies.
    pub open spec fn spec_is_complete(&self) -> bool {
        self.id is Some && self.feo_cycle_time is Some && self.agent_map is Some
            && self.activity_deps is Some
    }

    /// Returns whether everything that an agent cannot be without has been
    /// set.
    #[verifier::when_used_as_spec(spec_is_complete)]
    pub fn is_complete(&self) -> (b: bool)
        ensures
            b == self.spec_is_complete(),
    {
        self.id.is_some() && self.feo_cycle_time.is_some() && self.agent_map.is_some()
            && self.activity_deps.is_some()
    }

    /// Checks the deployment that has been set.
    pub fn check(&self) -> (r: Result<(), ConfigError>)
        requires
            self.spec_is_complete(),
        ensures
            r is Ok <==> spec_valid(self.agent_map->Some_0@, self.activity_deps->Some_0),
    {
        match (&self.agent_map, &self.activity_deps) {
            (Some(agent_map), Some(deps)) => validate(agent_map, deps),
            _ => Ok(()),
        }
    }

    /// Whether an agent can be built: everything has been set, no activity
    /// is entered twice in the dependency graph, no recorder is named twice,
    /// and the deployment passes the checks.
    pub open spec fn spec_can_build(&self) -> bool {
        &&& self.spec_is_complete()
        &&& self.activity_deps->Some_0.wf()
        &&& self.recorders is Some ==> self.recorders->Some_0@.no_duplicates()
        &&& spec_valid(self.agent_map->Some_0@, self.activity_deps->Some_0)
    }

    /// Builds the primary agent if it can be built, and says why not
    /// otherwise: something has not been set, an activity or a recorder is
    /// entered twice, or the deployment fails a check.
    pub fn try_build(self) -> (r: Result<PrimaryAgent, BuildError>)
        ensures
            r is Ok <==> self.spec_can_build(),
            r is Ok ==> r->Ok_0.scheduler.inv() && r->Ok_0.connector.wf()
                && r->Ok_0.scheduler.cycle_time == self.feo_cycle_time->Some_0
                && r->Ok_0.scheduler.activity_depends == self.activity_deps->Some_0
                && r->Ok_0.connector.local_agent_id == self.id->Some_0,
            r is Err ==> match r->Err_0 {
                BuildError::Incomplete => !self.spec_is_complete(),
                BuildError::DuplicateDependencies => self.spec_is_complete()
                    && !self.activity_deps->Some_0.wf(),
                BuildError::DuplicateRecorder => self.spec_is_complete()
                    && self.activity_deps->Some_0.wf() && self.recorders is Some
                    && !self.recorders->Some_0@.no_duplicates(),
                BuildError::Rejected(_) => self.spec_is_complete() && !spec_valid(
                    self.agent_map->Some_0@,
                    self.activity_deps->Some_0,
                ),
            },
    {
        if !self.is_complete() {
            return Err(BuildError::Incomplete);
        }
        let deps_ok = match &self.activity_deps {
            Some(deps) => deps.is_wf(),
            None => false,
        };
        if !deps_ok {
            return Err(BuildError::DuplicateDependencies);
        }
        let recorders_ok = match &self.recorders {
            Some(r) => distinct_agents(r),
            None => true,
        };
        if !recorders_ok {
            return Err(BuildError::DuplicateRecorder);
        }
        match self.check() {
            Ok(()) => Ok(self.build()),
            Err(e) => Err(BuildError::Rejected(e)),
        }
    }

    /// Builds the primary agent. Everything must have been set, and the
    /// deployment must pass the checks.
    pub fn build(self) -> (agent: PrimaryAgent)
        requires
            self.spec_is_complete(),
            spec_valid(self.agent_map->Some_0@, self.activity_deps->Some_0),
            self.activity_deps->Some_0.wf(),
            self.recorders is Some ==> self.recorders->Some_0@.no_duplicates(),
        ensures
            agent.scheduler.inv(),
            agent.connector.wf(),
            agent.scheduler.cycle_time == self.feo_cycle_time->Some_0,
            agent.scheduler.activity_depends == self.activity_deps->Some_0,
            agent.connector.local_agent_id == self.id->Some_0,
    {
        let config = PrimaryAgentConfig {
            agent_id: self.id.unwrap(),
            cycle_time: self.feo_cycle_time.unwrap(),
            agent_map: self.agent_map.unwrap(),
            recorders: self.recorders,
            activity_depends: self.activity_deps.unwrap(),
        };
        PrimaryAgent::new(config)
    }
}

} // verus!
