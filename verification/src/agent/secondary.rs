//! The secondary agent: it says hello to the primary agent, takes over its
//! time base, hands the primary's triggers to its own workers and reports
//! their ready signals back.
use vstd::prelude::*;
use crate::ids::{ActivityId, AgentId, WorkerId};
use crate::signals::Signal;
use crate::timestamp::{SyncInfo, Timestamp};
use crate::worker_pool::listener::{spec_distinct_ids, WorkerPoolListener};
use crate::worker_pool::pool::{Route, WorkerPool, WorkerPoolTrigger};

verus! {

/// The time, in milliseconds, that a secondary agent waits before it dials
/// the primary agent again after a failed attempt.
pub const CONNECT_RETRY_MILLIS: u64 = 100;

/// A secondary agent.
pub struct SecondaryAgent {
    /// The id of the agent.
    pub agent_id: AgentId,
    /// The listener side of the agent's worker pool.
    pub wp_listener: WorkerPoolListener,
}

/// The hellos by which an agent introduces itself to the primary agent: the
/// first on the connection that will carry triggers to it, the second on the
/// connection that will carry its ready signals.
pub fn connect_to_primary(local_agent_id: AgentId) -> (hellos: (Signal, Signal))
    ensures
        hellos.0 == Signal::HelloTrigger(local_agent_id),
        hellos.1 == Signal::HelloReady(local_agent_id),
{
    (Signal::HelloTrigger(local_agent_id), Signal::HelloReady(local_agent_id))
}

/// Takes the startup time out of the first signal on the trigger stream. Any
/// signal but the startup synchronization is out of place there.
pub fn receive_sync(signal: Signal) -> (r: Option<SyncInfo>)
    ensures
        r == signal.spec_sync_info(),
{
    signal.sync_info()
}

/// In a list of flags of which none is set, no activity counts as ready.
proof fn lemma_none_ready(l: WorkerPoolListener, upto: int)
    requires
        0 <= upto <= l.activities_ready@.len(),
        forall|i: int| 0 <= i < upto ==> !l.activities_ready@[i].1,
    ensures
        l.spec_ready_ids(upto) == Seq::<ActivityId>::empty(),
    decreases upto,
{
    if upto > 0 {
        lemma_none_ready(l, upto - 1);
    }
}

/// In a list of flags of which one is set, the activity of that flag is the
/// one that counts as ready.
proof fn lemma_single_ready(l: WorkerPoolListener, upto: int, at: int)
    requires
        0 <= at < upto <= l.activities_ready@.len(),
        forall|i: int| 0 <= i < upto ==> l.activities_ready@[i].1 == (i == at),
    ensures
        l.spec_ready_ids(upto) == seq![l.activities_ready@[at].0],
    decreases upto,
{
    if upto - 1 == at {
        lemma_none_ready(l, upto - 1);
        assert(Seq::<ActivityId>::empty().push(l.activities_ready@[at].0) =~= seq![
            l.activities_ready@[at].0,
        ]);
    } else {
        lemma_single_ready(l, upto - 1, at);
    }
}

impl SecondaryAgent {
    /// Creates the secondary agent `agent_id` for a worker pool.
    pub fn new(agent_id: AgentId, worker_pool: &WorkerPool) -> (agent: SecondaryAgent)
        requires
            spec_distinct_ids(worker_pool.activity_ids@),
        ensures
            agent.agent_id == agent_id,
            agent.wp_listener.wf(),
            agent.wp_listener.ids() == worker_pool.activity_ids@,
    {
        SecondaryAgent { agent_id, wp_listener: worker_pool.listener() }
    }

    /// Looks at a signal from the agent's workers and says which activities
    /// are to be reported ready to the primary agent: the activity of a ready
    /// signal, and nothing for any other signal. The ready flags are cleared
    /// before the signal is looked at, so that each ready signal is reported
    /// once.
    pub fn on_worker_signal(&mut self, signal: Signal) -> (out: Vec<ActivityId>)
        requires
            old(self).wp_listener.wf(),
        ensures
            final(self).wp_listener.wf(),
            final(self).agent_id == old(self).agent_id,
            match signal {
                Signal::Ready((id, _)) => out@ == seq![id],
                _ => out@.len() == 0,
            },
    {
        self.wp_listener.clear_ready();
        let ghost cleared = self.wp_listener;
        if !self.wp_listener.wait_next_ready(signal) {
            return Vec::new();
        }
        proof {
            let id = signal->Ready_0.0;
            let l = self.wp_listener;
            if cleared.spec_knows(id) {
                let at = choose|i: int|
                    0 <= i < cleared.activities_ready@.len() && cleared.activities_ready@[i].0 == id;
                assert(l.ids().len() == cleared.ids().len());
                assert forall|i: int| 0 <= i < l.activities_ready@.len() implies l.activities_ready@[i].1
                    == (i == at) by {
                    assert(l.ids()[i] == cleared.ids()[i]);
                    if i != at && cleared.activities_ready@[i].0 == id {
                        assert(cleared.ids()[i] == cleared.ids()[at]);
                    }
                }
                assert(l.ids()[at] == cleared.ids()[at]);
                lemma_single_ready(l, l.activities_ready@.len() as int, at);
            } else {
                let at = cleared.activities_ready@.len() as int;
                lemma_single_ready(l, l.activities_ready@.len() as int, at);
            }
        }
        self.wp_listener.ready_ids()
    }

    /// The signal by which the agent reports an activity ready to the primary
    /// agent.
    pub fn send_ready(activity_id: &ActivityId, now: Timestamp) -> (s: Signal)
        ensures
            s == Signal::Ready((*activity_id, now)),
    {
        Signal::Ready((*activity_id, now))
    }
}

/// Forwards a signal from the primary agent to the worker pool: says to which
/// worker's queue it goes. On the trigger stream nothing but triggers for the
/// activities of this agent is in place.
pub fn forward_trigger(trigger: &WorkerPoolTrigger, signal: Signal) -> (w: Option<WorkerId>)
    ensures
        w is Some <==> signal.spec_activity_id() is Some && trigger.spec_knows(
            signal.spec_activity_id()->Some_0,
        ),
        w is Some ==> exists|i: int|
            0 <= i < trigger.trigger_senders@.len() && trigger.trigger_senders@[i] == (Route {
                activity: signal.spec_activity_id()->Some_0,
                worker: w->Some_0,
            }),
{
    match signal.activity_id() {
        Some(id) => trigger.worker_of(id),
        None => None,
    }
}

} // verus!
