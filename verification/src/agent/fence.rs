//! Building the connector, and the recorder fence: after the end of a task
//! chain the scheduler waits until every recorder has reported ready, so that
//! no recording is lost across the boundary of a cycle.
use vstd::prelude::*;
use crate::agent::connector::ActivityConnector;
use crate::configuration::assignments::{
    assignments, secondary_agents, spec_assignments, spec_distinct, spec_secondary_agents, AgentConfig,
};
use crate::ids::{position_of_agent, AgentId};
use crate::signals::Signal;

verus! {

impl ActivityConnector {
    /// Creates the connector of the primary agent `local_agent_id` for the
    /// given deployment and recorders. No activity may be assigned twice. No
    /// recorder has reported ready.
    pub fn new(agent_map: &Vec<AgentConfig>, recorders: Vec<AgentId>, local_agent_id: AgentId) -> (c:
        ActivityConnector)
        requires
            spec_distinct(spec_assignments(agent_map@)),
            recorders@.no_duplicates(),
        ensures
            c.wf(),
            c.local_agent_id == local_agent_id,
            c.activity_map@ == spec_assignments(agent_map@),
            c.recorders@ == recorders@,
            c.secondary_agents@ == spec_secondary_agents(agent_map@, local_agent_id),
            forall|i: int| 0 <= i < c.recorders_ready@.len() ==> !c.recorders_ready@[i],
    {
        let activity_map = assignments(agent_map);
        let secondary_agents = secondary_agents(agent_map, local_agent_id);
        let mut recorders_ready: Vec<bool> = Vec::new();
        let mut i: usize = 0;
        while i < recorders.len()
            invariant
                i <= recorders@.len(),
                recorders_ready@.len() == i,
                forall|k: int| 0 <= k < i ==> !recorders_ready@[k],
            decreases recorders@.len() - i,
        {
            recorders_ready.push(false);
            i += 1;
        }
        ActivityConnector {
            local_agent_id,
            activity_map,
            recorders,
            recorders_ready,
            secondary_agents,
        }
    }

    /// Returns whether all recorders have reported ready. With no recorder
    /// there is nothing to wait for.
    pub fn all_recorders_ready(&self) -> (b: bool)
        ensures
            b == self.spec_recorders_ready(),
    {
        let mut i: usize = 0;
        while i < self.recorders_ready.len()
            invariant
                i <= self.recorders_ready@.len(),
                forall|k: int| 0 <= k < i ==> self.recorders_ready@[k],
            decreases self.recorders_ready@.len() - i,
        {
            if !self.recorders_ready[i] {
                return false;
            }
            i += 1;
        }
        true
    }

    /// Clears the ready flag of every recorder, and says whether there is
    /// anything to wait for: with no recorder the fence is passed at once.
    pub fn clear_recorders_ready(&mut self) -> (wait: bool)
        requires
            old(self).wf(),
        ensures
            final(self).wf(),
            wait == (old(self).recorders@.len() > 0),
            final(self).local_agent_id == old(self).local_agent_id,
            final(self).activity_map == old(self).activity_map,
            final(self).recorders == old(self).recorders,
            final(self).secondary_agents == old(self).secondary_agents,
            forall|i: int| 0 <= i < final(self).recorders_ready@.len() ==> !final(self).recorders_ready@[i],
    {
        let n = self.recorders_ready.len();
        let mut i: usize = 0;
        while i < n
            invariant
                self.wf(),
                n == self.recorders_ready@.len(),
                i <= n,
                self.local_agent_id == old(self).local_agent_id,
                self.activity_map == old(self).activity_map,
                self.recorders == old(self).recorders,
                self.secondary_agents == old(self).secondary_agents,
                forall|k: int| 0 <= k < i ==> !self.recorders_ready@[k],
            decreases n - i,
        {
            self.recorders_ready[i] = false;
            i += 1;
        }
        n > 0
    }

    /// Looks at a signal that arrived while the recorders are waited for, and
    /// says whether the fence is passed. The ready signal of a recorder of
    /// this connector sets the recorder's flag, and the fence is passed once
    /// every flag is set. Any other signal, the ready signal of an unknown
    /// recorder included, is unexpected: it changes nothing, and the wait goes
    /// on.
    pub fn wait_recorders_ready(&mut self, signal: Signal) -> (done: bool)
        requires
            old(self).wf(),
        ensures
            final(self).wf(),
            final(self).local_agent_id == old(self).local_agent_id,
            final(self).activity_map == old(self).activity_map,
            final(self).recorders == old(self).recorders,
            final(self).secondary_agents == old(self).secondary_agents,
            match signal {
                Signal::RecorderReady((id, _)) if old(self).recorders@.contains(id) => {
                    &&& forall|i: int|
                        0 <= i < old(self).recorders@.len() ==> final(self).recorders_ready@[i] == (
                        old(self).recorders_ready@[i] || old(self).recorders@[i] == id)
                    &&& done == final(self).spec_recorders_ready()
                },
                _ => !done && final(self).recorders_ready@ == old(self).recorders_ready@,
            },
    {
        let id = match signal {
            Signal::RecorderReady((id, _)) => id,
            _ => {
                return false;
            },
        };
        let idx = match position_of_agent(&self.recorders, id) {
            Some(idx) => idx,
            None => {
                return false;
            },
        };
        self.recorders_ready[idx] = true;
        proof {
            assert(old(self).recorders@.contains(id));
            assert forall|i: int| 0 <= i < old(self).recorders@.len() implies self.recorders_ready@[i]
                == (old(self).recorders_ready@[i] || old(self).recorders@[i] == id) by {
                if i != idx && old(self).recorders@[i] == id {
                    assert(old(self).recorders@[idx as int] == id);
                }
            }
        }
        self.all_recorders_ready()
    }
}

} // verus!
