//! The connector of the primary agent: where each signal has to go.
//!
//! A trigger goes to the agent that runs the activity: to the local worker
//! pool if that is the primary agent itself, over the trigger stream of the
//! agent otherwise. Every trigger, every ready report and the start and the
//! end of every task chain go to every recorder as well, for the record.
use vstd::pervasive::unreached;
use vstd::prelude::*;
use crate::ids::{ActivityId, AgentId, WorkerId};
use crate::signals::Signal;
use crate::timestamp::{SyncInfo, Timestamp};

verus! {

/// A signal together with the place it has to be handed to.
#[derive(Debug, Clone, Copy, PartialEq, Eq)]
pub enum Delivery {
    /// To the worker pool of the primary agent.
    Local(Signal),
    /// Over the trigger stream of a remote agent; the task chain cannot go on
    /// without it, so a failure to send is fatal.
    Remote((AgentId, Signal)),
    /// Over the trigger stream of a recorder, for the record; a failure to
    /// send is reported, and the task chain goes on.
    Record((AgentId, Signal)),
}

/// Which agent and which worker run an activity.
#[derive(Debug, Clone, Copy, PartialEq, Eq, Structural)]
pub struct Assignment {
    /// The activity.
    pub activity: ActivityId,
    /// The agent that runs it.
    pub agent: AgentId,
    /// The worker of that agent that runs it.
    pub worker: WorkerId,
}

/// The signal sent to each of the agents, in their order.
pub open spec fn spec_broadcast(signal: Signal, agents: Seq<AgentId>) -> Seq<Delivery> {
    agents.map_values(|a: AgentId| Delivery::Remote((a, signal)))
}

/// The signal sent to each of the recorders for the record, in their order.
pub open spec fn spec_mirror(signal: Signal, recorders: Seq<AgentId>) -> Seq<Delivery> {
    recorders.map_values(|a: AgentId| Delivery::Record((a, signal)))
}

/// What a remote agent receives of a run of deliveries, in order.
pub open spec fn spec_stream(deliveries: Seq<Delivery>, agent: AgentId) -> Seq<Signal>
    decreases deliveries.len(),
{
    if deliveries.len() == 0 {
        Seq::empty()
    } else {
        let rest = spec_stream(deliveries.drop_last(), agent);
        match deliveries.last() {
            Delivery::Remote((a, s)) => if a == agent {
                rest.push(s)
            } else {
                rest
            },
            Delivery::Record((a, s)) => if a == agent {
                rest.push(s)
            } else {
                rest
            },
            Delivery::Local(_) => rest,
        }
    }
}

/// Handles the signalling from and to all activities for the primary agent.
pub struct ActivityConnector {
    /// The id of the primary agent.
    pub local_agent_id: AgentId,
    /// For each activity the agent and the worker that run it. No activity
    /// stands twice.
    pub activity_map: Vec<Assignment>,
    /// The recorders. No recorder stands twice.
    pub recorders: Vec<AgentId>,
    /// For each recorder whether it has reported ready since the end of the
    /// task chain.
    pub recorders_ready: Vec<bool>,
    /// The secondary agents: all agents that run activities but the primary.
    pub secondary_agents: Vec<AgentId>,
}

impl ActivityConnector {
    /// Whether the activity is assigned to an agent.
    pub open spec fn spec_knows(&self, id: ActivityId) -> bool {
        exists|i: int| 0 <= i < self.activity_map@.len() && self.activity_map@[i].activity == id
    }

    /// The assignment of an activity that is assigned.
    pub open spec fn spec_assignment(&self, id: ActivityId) -> Assignment {
        let i = choose|i: int|
            0 <= i < self.activity_map@.len() && self.activity_map@[i].activity == id;
        self.activity_map@[i]
    }

    /// No activity is assigned twice, no recorder stands twice, and every
    /// recorder has its flag.
    pub open spec fn wf(&self) -> bool {
        &&& forall|i: int, j: int|
            0 <= i < self.activity_map@.len() && 0 <= j < self.activity_map@.len() && i != j
                ==> self.activity_map@[i].activity != self.activity_map@[j].activity
        &&& self.recorders@.no_duplicates()
        &&& self.recorders_ready@.len() == self.recorders@.len()
    }

    /// Where the trigger of an assigned activity goes.
    pub open spec fn spec_route(&self, signal: Signal) -> Delivery {
        let a = self.spec_assignment(signal.spec_activity_id()->Some_0);
        if a.agent == self.local_agent_id {
            Delivery::Local(signal)
        } else {
            Delivery::Remote((a.agent, signal))
        }
    }

    /// The deliveries of a trigger: to the activity, then to every recorder.
    pub open spec fn spec_trigger(&self, signal: Signal) -> Seq<Delivery> {
        seq![self.spec_route(signal)] + spec_mirror(signal, self.recorders@)
    }

    /// Whether all recorders have reported ready.
    pub open spec fn spec_recorders_ready(&self) -> bool {
        forall|i: int| 0 <= i < self.recorders_ready@.len() ==> self.recorders_ready@[i]
    }

    /// Looks up the agent and the worker that run an activity.
    pub fn assignment_of(&self, id: ActivityId) -> (r: Option<Assignment>)
        requires
            self.wf(),
        ensures
            self.spec_knows(id) ==> r == Some(self.spec_assignment(id)),
            !self.spec_knows(id) ==> r is None,
            r is Some ==> r->Some_0.activity == id,
    {
        let mut i: usize = 0;
        while i < self.activity_map.len()
            invariant
                self.wf(),
                i <= self.activity_map@.len(),
                forall|k: int| 0 <= k < i ==> self.activity_map@[k].activity != id,
            decreases self.activity_map@.len() - i,
        {
            if self.activity_map[i].activity.0 == id.0 {
                proof {
                    assert(self.activity_map@[i as int].activity == id);
                    assert(self.spec_knows(id));
                    let w = choose|w: int|
                        0 <= w < self.activity_map@.len() && self.activity_map@[w].activity == id;
                    assert(self.activity_map@[w].activity == id);
                    assert(w == i);
                }
                return Some(self.activity_map[i]);
            }
            i += 1;
        }
        None
    }

    /// Sends the given signal to each of the given agents, in their order.
    pub fn broadcast(signal: Signal, agents: &Vec<AgentId>) -> (out: Vec<Delivery>)
        ensures
            out@ == spec_broadcast(signal, agents@),
    {
        let mut out: Vec<Delivery> = Vec::new();
        let mut i: usize = 0;
        while i < agents.len()
            invariant
                i <= agents@.len(),
                out@ == spec_broadcast(signal, agents@.take(i as int)),
            decreases agents@.len() - i,
        {
            out.push(Delivery::Remote((agents[i], signal)));
            i += 1;
            assert(out@ =~= spec_broadcast(signal, agents@.take(i as int)));
        }
        assert(agents@.take(agents@.len() as int) =~= agents@);
        out
    }

    /// Transmits the given signal for recording to each of the given
    /// recorders, in their order.
    pub fn record_signal(signal: Signal, recorders: &Vec<AgentId>) -> (out: Vec<Delivery>)
        ensures
            out@ == spec_mirror(signal, recorders@),
    {
        let mut out: Vec<Delivery> = Vec::new();
        let mut i: usize = 0;
        while i < recorders.len()
            invariant
                i <= recorders@.len(),
                out@ == spec_mirror(signal, recorders@.take(i as int)),
            decreases recorders@.len() - i,
        {
            out.push(Delivery::Record((recorders[i], signal)));
            i += 1;
            assert(out@ =~= spec_mirror(signal, recorders@.take(i as int)));
        }
        assert(recorders@.take(recorders@.len() as int) =~= recorders@);
        out
    }

    /// Sends the given trigger to its activity, which may run in a remote
    /// process or in the local worker pool, and then to every recorder.
    pub fn trigger_activity(&self, signal: Signal) -> (out: Vec<Delivery>)
        requires
            self.wf(),
            signal.spec_activity_id() is Some,
            self.spec_knows(signal.spec_activity_id()->Some_0),
        ensures
            out@ == self.spec_trigger(signal),
    {
        let mut out: Vec<Delivery> = Vec::new();
        let id = match signal.activity_id() {
            Some(id) => id,
            None => unreached(),
        };
        let target = match self.assignment_of(id) {
            Some(a) => a,
            None => unreached(),
        };
        if target.agent.0 == self.local_agent_id.0 {
            out.push(Delivery::Local(signal));
        } else {
            out.push(Delivery::Remote((target.agent, signal)));
        }
        let mut mirrored = Self::record_signal(signal, &self.recorders);
        out.append(&mut mirrored);
        assert(out@ =~= self.spec_trigger(signal));
        out
    }

    /// Sends the step signal to the given activity.
    pub fn step_activity(&self, id: &ActivityId, now: Timestamp) -> (out: Vec<Delivery>)
        requires
            self.wf(),
            self.spec_knows(*id),
        ensures
            out@ == self.spec_trigger(Signal::Step((*id, now))),
    {
        self.trigger_activity(Signal::Step((*id, now)))
    }

    /// Sends the startup signal to the given activity.
    pub fn startup_activity(&self, id: &ActivityId, now: Timestamp) -> (out: Vec<Delivery>)
        requires
            self.wf(),
            self.spec_knows(*id),
        ensures
            out@ == self.spec_trigger(Signal::Startup((*id, now))),
    {
        self.trigger_activity(Signal::Startup((*id, now)))
    }

    /// Sends the shutdown signal to the given activity.
    pub fn shutdown_activity(&self, id: &ActivityId, now: Timestamp) -> (out: Vec<Delivery>)
        requires
            self.wf(),
            self.spec_knows(*id),
        ensures
            out@ == self.spec_trigger(Signal::Shutdown((*id, now))),
    {
        self.trigger_activity(Signal::Shutdown((*id, now)))
    }

    /// Lets every recorder know of the start of a task chain.
    pub fn record_task_chain_start(&self, now: Timestamp) -> (out: Vec<Delivery>)
        ensures
            out@ == spec_mirror(Signal::TaskChainStart(now), self.recorders@),
    {
        Self::record_signal(Signal::TaskChainStart(now), &self.recorders)
    }

    /// Lets every recorder know of the end of a task chain.
    pub fn record_task_chain_end(&self, now: Timestamp) -> (out: Vec<Delivery>)
        ensures
            out@ == spec_mirror(Signal::TaskChainEnd(now), self.recorders@),
    {
        Self::record_signal(Signal::TaskChainEnd(now), &self.recorders)
    }

    /// Distributes the startup time: to every secondary agent, then to every
    /// recorder.
    pub fn sync_time(&self, sync_info: SyncInfo) -> (out: Vec<Delivery>)
        ensures
            out@ == spec_broadcast(Signal::StartupSync(sync_info), self.secondary_agents@)
                + spec_broadcast(Signal::StartupSync(sync_info), self.recorders@),
    {
        let mut out = Self::broadcast(Signal::StartupSync(sync_info), &self.secondary_agents);
        let mut second = Self::broadcast(Signal::StartupSync(sync_info), &self.recorders);
        out.append(&mut second);
        out
    }

    /// Looks at a signal that arrived while ready signals are waited for. A
    /// ready signal is passed on to every recorder, and the id of its activity
    /// is returned; any other signal is unexpected and passed on to nobody.
    pub fn wait_next_ready(&self, signal: Signal) -> (r: (Option<ActivityId>, Vec<Delivery>))
        ensures
            match signal {
                Signal::Ready((id, _)) => r.0 == Some(id) && r.1@ == spec_mirror(
                    signal,
                    self.recorders@,
                ),
                _ => r.0 is None && r.1@.len() == 0,
            },
    {
        match signal {
            Signal::Ready((id, _)) => (Some(id), Self::record_signal(signal, &self.recorders)),
            _ => (None, Vec::new()),
        }
    }
}

} // verus!
