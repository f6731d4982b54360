//! The vocabulary of control signals.
//!
//! The same ten signals travel between the scheduler and its workers inside a
//! process and, framed as PDUs, between the primary agent and its peers.
use vstd::prelude::*;
use crate::ids::{ActivityId, AgentId};
use crate::timestamp::{SyncInfo, Timestamp};

verus! {

/// A control signal.
#[derive(Debug, Clone, Copy, Hash, PartialEq, Eq)]
pub enum Signal {
    /// Opens the connection on which a peer will send its ready signals.
    HelloReady(AgentId),
    /// Opens the connection on which a peer will receive trigger signals.
    HelloTrigger(AgentId),
    /// Carries the primary's startup instant to a peer.
    StartupSync(SyncInfo),
    /// Marks the start of a task chain for the recorders.
    TaskChainStart(Timestamp),
    /// Marks the end of a task chain for the recorders.
    TaskChainEnd(Timestamp),
    /// Triggers an activity's startup.
    Startup((ActivityId, Timestamp)),
    /// Triggers an activity's shutdown.
    Shutdown((ActivityId, Timestamp)),
    /// Triggers one step of an activity.
    Step((ActivityId, Timestamp)),
    /// Reports that a triggered activity has finished.
    Ready((ActivityId, Timestamp)),
    /// Reports that a recorder has flushed a task chain.
    RecorderReady((AgentId, Timestamp)),
}

impl Signal {
    /// The agent id that a signal carries, if it carries one.
    pub open spec fn spec_agent_id(&self) -> Option<AgentId> {
        match *self {
            Signal::HelloReady(id) => Some(id),
            Signal::HelloTrigger(id) => Some(id),
            Signal::RecorderReady((id, _)) => Some(id),
            _ => None,
        }
    }

    /// The activity id that a signal carries, if it carries one.
    pub open spec fn spec_activity_id(&self) -> Option<ActivityId> {
        match *self {
            Signal::Startup((id, _)) => Some(id),
            Signal::Shutdown((id, _)) => Some(id),
            Signal::Step((id, _)) => Some(id),
            Signal::Ready((id, _)) => Some(id),
            _ => None,
        }
    }

    /// The time stamp that a signal carries, if it carries one.
    pub open spec fn spec_timestamp(&self) -> Option<Timestamp> {
        match *self {
            Signal::TaskChainStart(t) => Some(t),
            Signal::TaskChainEnd(t) => Some(t),
            Signal::Startup((_, t)) => Some(t),
            Signal::Shutdown((_, t)) => Some(t),
            Signal::Step((_, t)) => Some(t),
            Signal::Ready((_, t)) => Some(t),
            Signal::RecorderReady((_, t)) => Some(t),
            _ => None,
        }
    }

    /// The synchronization info that a signal carries, if it carries one.
    pub open spec fn spec_sync_info(&self) -> Option<SyncInfo> {
        match *self {
            Signal::StartupSync(info) => Some(info),
            _ => None,
        }
    }

    /// Returns the wrapped agent id, or `None` for a signal without one.
    #[verifier::when_used_as_spec(spec_agent_id)]
    pub fn agent_id(&self) -> (id: Option<AgentId>)
        ensures
            id == self.spec_agent_id(),
    {
        match self {
            Signal::HelloReady(id) => Some(*id),
            Signal::HelloTrigger(id) => Some(*id),
            Signal::RecorderReady((id, _)) => Some(*id),
            _ => None,
        }
    }

    /// Returns the wrapped activity id, or `None` for a signal without one.
    #[verifier::when_used_as_spec(spec_activity_id)]
    pub fn activity_id(&self) -> (id: Option<ActivityId>)
        ensures
            id == self.spec_activity_id(),
    {
        match self {
            Signal::Startup((id, _)) => Some(*id),
            Signal::Shutdown((id, _)) => Some(*id),
            Signal::Step((id, _)) => Some(*id),
            Signal::Ready((id, _)) => Some(*id),
            _ => None,
        }
    }

    /// Returns the wrapped time stamp, or `None` for a signal without one.
    #[verifier::when_used_as_spec(spec_timestamp)]
    pub fn timestamp(&self) -> (t: Option<Timestamp>)
        ensures
            t == self.spec_timestamp(),
    {
        match self {
            Signal::TaskChainStart(t) => Some(*t),
            Signal::TaskChainEnd(t) => Some(*t),
            Signal::Startup((_, t)) => Some(*t),
            Signal::Shutdown((_, t)) => Some(*t),
            Signal::Step((_, t)) => Some(*t),
            Signal::Ready((_, t)) => Some(*t),
            Signal::RecorderReady((_, t)) => Some(*t),
            _ => None,
        }
    }

    /// Returns the synchronization info, or `None` for a signal without one.
    #[verifier::when_used_as_spec(spec_sync_info)]
    pub fn sync_info(&self) -> (info: Option<SyncInfo>)
        ensures
            info == self.spec_sync_info(),
    {
        match self {
            Signal::StartupSync(info) => Some(*info),
            _ => None,
        }
    }
}

} // verus!
