//! The connection phase of the primary agent: which hello is accepted.
//!
//! Every secondary agent and every recorder opens two connections and says
//! hello on each: one will carry triggers to it, the other ready signals from
//! it. The primary keeps the first connection of each kind from each expected
//! peer and drops every other one.
use vstd::prelude::*;
use crate::agent::connector::ActivityConnector;
use crate::ids::{contains_agent, AgentId};
use crate::signals::Signal;

verus! {

/// The peers whose connections the primary holds.
pub struct Connections {
    /// The peers whose trigger stream is held. No peer stands twice.
    pub trigger: Vec<AgentId>,
    /// The peers whose ready stream is held. No peer stands twice.
    pub ready: Vec<AgentId>,
}

/// What is to be done with a connection on which a first signal arrived.
#[derive(Debug, Clone, Copy, PartialEq, Eq, Structural)]
pub enum HelloVerdict {
    /// Keep it as the trigger stream of the peer.
    KeepTrigger(AgentId),
    /// Keep it as the ready stream of the peer.
    KeepReady(AgentId),
    /// Drop it: a stream of that kind is held for the peer already.
    Duplicate(AgentId),
    /// Drop it: the peer is not expected.
    Unexpected(AgentId),
    /// Drop it: the signal is no hello.
    NoHello,
}

impl Connections {
    /// No connection is held.
    pub fn new() -> (c: Connections)
        ensures
            c.trigger@.len() == 0,
            c.ready@.len() == 0,
            c.wf(),
    {
        Connections { trigger: Vec::new(), ready: Vec::new() }
    }

    /// No peer stands twice in either list.
    pub open spec fn wf(&self) -> bool {
        self.trigger@.no_duplicates() && self.ready@.no_duplicates()
    }
}

impl ActivityConnector {
    /// Whether the agent is a secondary agent or a recorder of this
    /// deployment.
    pub open spec fn spec_expects(&self, id: AgentId) -> bool {
        self.secondary_agents@.contains(id) || self.recorders@.contains(id)
    }

    /// Whether both streams of every secondary agent and of every recorder
    /// are held.
    pub open spec fn spec_has_all_connections(&self, conns: &Connections) -> bool {
        forall|id: AgentId| #[trigger]
            self.spec_expects(id) ==> conns.trigger@.contains(id) && conns.ready@.contains(id)
    }

    /// The verdict on a first signal, given the connections held so far.
    pub open spec fn spec_verdict(&self, signal: Signal, conns: Connections) -> HelloVerdict {
        match signal {
            Signal::HelloTrigger(id) => if !self.spec_expects(id) {
                HelloVerdict::Unexpected(id)
            } else if conns.trigger@.contains(id) {
                HelloVerdict::Duplicate(id)
            } else {
                HelloVerdict::KeepTrigger(id)
            },
            Signal::HelloReady(id) => if !self.spec_expects(id) {
                HelloVerdict::Unexpected(id)
            } else if conns.ready@.contains(id) {
                HelloVerdict::Duplicate(id)
            } else {
                HelloVerdict::KeepReady(id)
            },
            _ => HelloVerdict::NoHello,
        }
    }

    /// Returns whether the agent is a secondary agent or a recorder of this
    /// deployment.
    #[verifier::when_used_as_spec(spec_expects)]
    pub fn expects(&self, id: AgentId) -> (b: bool)
        ensures
            b == self.spec_expects(id),
    {
        contains_agent(&self.secondary_agents, id) || contains_agent(&self.recorders, id)
    }

    /// Returns whether both streams of every secondary agent and of every
    /// recorder are held, so that the connection phase is over.
    pub fn has_all_connections(&self, conns: &Connections) -> (b: bool)
        ensures
            b == self.spec_has_all_connections(conns),
    {
        let mut i: usize = 0;
        while i < self.secondary_agents.len()
            invariant
                i <= self.secondary_agents@.len(),
                forall|k: int|
                    0 <= k < i ==> conns.trigger@.contains(self.secondary_agents@[k])
                        && conns.ready@.contains(self.secondary_agents@[k]),
            decreases self.secondary_agents@.len() - i,
        {
            let id = self.secondary_agents[i];
            if !contains_agent(&conns.trigger, id) || !contains_agent(&conns.ready, id) {
                assert(self.spec_expects(id));
                return false;
            }
            i += 1;
        }
        let mut j: usize = 0;
        while j < self.recorders.len()
            invariant
                j <= self.recorders@.len(),
                forall|k: int|
                    0 <= k < self.secondary_agents@.len() ==> conns.trigger@.contains(
                        self.secondary_agents@[k],
                    ) && conns.ready@.contains(self.secondary_agents@[k]),
                forall|k: int|
                    0 <= k < j ==> conns.trigger@.contains(self.recorders@[k])
                        && conns.ready@.contains(self.recorders@[k]),
            decreases self.recorders@.len() - j,
        {
            let id = self.recorders[j];
            if !contains_agent(&conns.trigger, id) || !contains_agent(&conns.ready, id) {
                assert(self.spec_expects(id));
                return false;
            }
            j += 1;
        }
        true
    }

    /// Handles the first signal of a new connection as a hello from an agent.
    /// The hello of an expected peer for a stream that is not held yet is
    /// accepted: the peer is entered for that stream, and the caller keeps the
    /// connection. Everything else is dropped and changes nothing: the hello
    /// of a peer that is not expected, a second hello of the same kind from
    /// the same peer, and any signal that is no hello.
    pub fn handle_hello(&self, signal: Signal, conns: &mut Connections) -> (v: HelloVerdict)
        requires
            old(conns).wf(),
        ensures
            final(conns).wf(),
            v == self.spec_verdict(signal, *old(conns)),
            match v {
                HelloVerdict::KeepTrigger(id) => final(conns).trigger@ == old(conns).trigger@.push(id)
                    && final(conns).ready@ == old(conns).ready@,
                HelloVerdict::KeepReady(id) => final(conns).ready@ == old(conns).ready@.push(id)
                    && final(conns).trigger@ == old(conns).trigger@,
                _ => final(conns).trigger@ == old(conns).trigger@ && final(conns).ready@ == old(conns).ready@,
            },
    {
        match signal {
            Signal::HelloTrigger(id) => {
                if !self.expects(id) {
                    HelloVerdict::Unexpected(id)
                } else if contains_agent(&conns.trigger, id) {
                    HelloVerdict::Duplicate(id)
                } else {
                    conns.trigger.push(id);
                    proof {
                        lemma_push_fresh(old(conns).trigger@, id);
                    }
                    HelloVerdict::KeepTrigger(id)
                }
            },
            Signal::HelloReady(id) => {
                if !self.expects(id) {
                    HelloVerdict::Unexpected(id)
                } else if contains_agent(&conns.ready, id) {
                    HelloVerdict::Duplicate(id)
                } else {
                    conns.ready.push(id);
                    proof {
                        lemma_push_fresh(old(conns).ready@, id);
                    }
                    HelloVerdict::KeepReady(id)
                }
            },
            _ => HelloVerdict::NoHello,
        }
    }
}

/// A list without repetition stays so when something new is put behind it.
pub proof fn lemma_push_fresh(list: Seq<AgentId>, id: AgentId)
    requires
        list.no_duplicates(),
        !list.contains(id),
    ensures
        list.push(id).no_duplicates(),
{
    assert forall|i: int, j: int|
        0 <= i < list.push(id).len() && 0 <= j < list.push(id).len() && i != j implies list.push(
        id,
    )[i] != list.push(id)[j] by {
        if i < list.len() && j < list.len() {
        } else if i < list.len() {
            assert(list.contains(list[i]));
        } else {
            assert(list.contains(list[j]));
        }
    }
}

} // verus!
