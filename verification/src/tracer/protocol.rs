//! The trace packet as a traced process sends it.
//!
//! What a span or an event carries beyond its ids is of no concern here: it
//! is passed through as a value of the type `V`.
use vstd::prelude::*;

verus! {

/// The id of a span.
pub type Id = u64;

/// The largest packet that a traced process sends, in bytes.
pub const MAX_PACKET_SIZE: usize = 16384;

/// The process and the thread that a packet comes from.
#[derive(Debug, Clone, Copy, PartialEq, Eq, Structural)]
pub struct Process {
    /// The id of the process.
    pub pid: u32,
    /// The id of the thread.
    pub tid: u32,
}

/// What a traced process reports.
#[verifier::reject_recursive_types(V)]
pub enum TraceData<V> {
    /// A span was created.
    NewSpan { id: Id, attributes: V },
    /// Values were recorded for a span.
    Record { span: Id, values: V },
    /// An event was emitted.
    Event { parent_span: Option<Id>, event: V },
    /// A span was entered.
    Enter { span: Id },
    /// A span was left.
    Exit { span: Id },
}

/// A trace packet.
#[verifier::reject_recursive_types(V)]
pub struct TracePacket<V> {
    /// When the packet was made, in nanoseconds since the Unix epoch.
    pub timestamp: u64,
    /// Where the packet comes from.
    pub process: Process,
    /// What it reports.
    pub data: TraceData<V>,
}

impl<V> TracePacket<V> {
    /// Creates a trace packet.
    pub fn new(timestamp: u64, process: Process, data: TraceData<V>) -> (p: TracePacket<V>)
        ensures
            p.timestamp == timestamp,
            p.process == process,
            p.data == data,
    {
        TracePacket { timestamp, process, data }
    }
}

} // verus!
