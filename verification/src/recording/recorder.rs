//! The recorder's side of the protocol: what a recorder does with each signal
//! that the primary agent lets it know of.
use vstd::prelude::*;
use vstd::string::StringSliceAdditionalSpecFns;
use crate::ids::AgentId;
use crate::signals::Signal;
use crate::timestamp::Timestamp;

verus! {

/// The longest topic and the longest type name that a recording holds, in
/// bytes.
pub const TOPIC_TYPENAME_MAX_SIZE: usize = 256;

/// What a recorder does with a signal.
#[derive(Debug, Clone, Copy, PartialEq, Eq, Structural)]
pub struct RecorderAction {
    /// Whether the latest data of the recorded topics are written before the
    /// signal.
    pub record_com_data: bool,
    /// Whether the recording is flushed after the signal, and the primary
    /// agent is told so.
    pub flush_and_report: bool,
}

/// The description of a block of recorded data.
#[derive(Debug, Clone, Copy)]
pub struct DataDescriptionRecord<'s> {
    /// When the data were recorded.
    pub timestamp: Timestamp,
    /// The size of the block that follows the description, in bytes.
    pub data_size: usize,
    /// The name of the data's type.
    pub typename: &'s str,
    /// The topic the data were read from.
    pub topic: &'s str,
}

/// What a recorder does with a signal: before a step and before the end of a
/// task chain it writes the latest data; every signal is written; after the
/// end of a task chain the recording is flushed and reported ready.
pub open spec fn spec_action(signal: Signal) -> RecorderAction {
    RecorderAction {
        record_com_data: signal is Step || signal is TaskChainEnd,
        flush_and_report: signal is TaskChainEnd,
    }
}

/// Says what the recorder does with a signal.
pub fn on_signal(signal: Signal) -> (a: RecorderAction)
    ensures
        a == spec_action(signal),
{
    match signal {
        Signal::Step(_) => RecorderAction { record_com_data: true, flush_and_report: false },
        Signal::TaskChainEnd(_) => RecorderAction { record_com_data: true, flush_and_report: true },
        _ => RecorderAction { record_com_data: false, flush_and_report: false },
    }
}

/// The signal by which a recorder reports that it has flushed a task chain.
pub fn send_recorder_ready(agent_id: AgentId, now: Timestamp) -> (s: Signal)
    ensures
        s == Signal::RecorderReady((agent_id, now)),
{
    Signal::RecorderReady((agent_id, now))
}

impl<'s> DataDescriptionRecord<'s> {
    /// Whether the type name and the topic are within the size that a
    /// recording holds.
    pub open spec fn spec_fits(&self) -> bool {
        self.typename.spec_bytes().len() <= TOPIC_TYPENAME_MAX_SIZE
            && self.topic.spec_bytes().len() <= TOPIC_TYPENAME_MAX_SIZE
    }

    /// Returns whether the type name and the topic are within the size that a
    /// recording holds.
    #[verifier::when_used_as_spec(spec_fits)]
    pub fn fits(&self) -> (b: bool)
        ensures
            b == self.spec_fits(),
    {
        self.typename.as_bytes().len() <= TOPIC_TYPENAME_MAX_SIZE && self.topic.as_bytes().len()
            <= TOPIC_TYPENAME_MAX_SIZE
    }
}

} // verus!
