//! The trace packet as the collector works with it.
use vstd::prelude::*;
use crate::feo_time::system_time::SystemTime;
use crate::tracer::protocol;

verus! {

/// The id of a process.
pub type ProcessId = u32;

/// The id of a thread.
pub type ThreadId = u32;

/// The id of a span.
pub type Id = u64;

/// A process.
#[derive(Debug, Clone, Hash, PartialEq, Eq)]
pub struct Process {
    /// The id of the process.
    pub id: ProcessId,
    /// The name of the process, where it is known.
    pub name: Option<String>,
}

/// A thread.
#[derive(Debug, Clone, Hash, PartialEq, Eq)]
pub struct Thread {
    /// The id of the thread.
    pub id: ThreadId,
    /// The name of the thread, where it is known.
    pub name: Option<String>,
}

/// What a trace packet tells.
#[verifier::reject_recursive_types(V)]
pub enum TraceData<V> {
    /// A process connected.
    Exec,
    /// A process disconnected.
    Exit,
    /// A span was created.
    NewSpan { id: Id, attributes: V },
    /// Values were recorded for a span.
    Record { id: Id, event: V },
    /// An event was emitted, inside a span or outside any.
    Event { parent_span: Option<Id>, event: V },
    /// A span was entered.
    EnterSpan { id: Id },
    /// A span was left.
    ExitSpan { id: Id },
}

/// What is known of a packet beyond what it tells.
#[derive(Debug, Clone, Copy, PartialEq, Eq, Structural)]
pub struct Metadata {
    /// The size of the packet on the wire, in bytes.
    pub wire_size: Option<u64>,
}

/// A trace packet.
#[verifier::reject_recursive_types(V)]
pub struct TracePacket<V> {
    /// When the packet was made.
    pub timestamp: SystemTime,
    /// The process it comes from.
    pub process: Process,
    /// The thread it comes from, where it comes from one.
    pub thread: Option<Thread>,
    /// What it tells.
    pub data: TraceData<V>,
    /// What else is known of it.
    pub metadata: Metadata,
}

impl Default for Metadata {
    fn default() -> (m: Self)
        ensures
            m.wire_size is None,
    {
        Metadata { wire_size: None }
    }
}

/// What the collector makes of what a traced process reports: values recorded
/// for a span count as an event inside that span; everything else is taken as
/// it is.
pub open spec fn spec_convert_data<V>(data: protocol::TraceData<V>) -> TraceData<V> {
    match data {
        protocol::TraceData::NewSpan { id, attributes } => TraceData::NewSpan { id, attributes },
        protocol::TraceData::Record { span, values } => TraceData::Event {
            parent_span: Some(span),
            event: values,
        },
        protocol::TraceData::Event { parent_span, event } => TraceData::Event { parent_span, event },
        protocol::TraceData::Enter { span } => TraceData::EnterSpan { id: span },
        protocol::TraceData::Exit { span } => TraceData::ExitSpan { id: span },
    }
}

impl<V> TracePacket<V> {
    /// Creates a trace packet.
    pub fn new(
        timestamp: SystemTime,
        process: Process,
        thread: Option<Thread>,
        data: TraceData<V>,
        metadata: Metadata,
    ) -> (p: TracePacket<V>)
        ensures
            p.timestamp == timestamp,
            p.process == process,
            p.thread == thread,
            p.data == data,
            p.metadata == metadata,
    {
        TracePacket { timestamp, process, thread, data, metadata }
    }
}

/// Turns a packet that was read from the wire into a packet of the collector.
/// The time is counted from the Unix epoch; the process and the thread are
/// taken over by their ids, their names unknown; the size on the wire is
/// noted.
pub fn decode_packet<V>(packet: protocol::TracePacket<V>, wire_size: usize) -> (p: TracePacket<V>)
    ensures
        p.timestamp@ == packet.timestamp,
        p.process.id == packet.process.pid,
        p.process.name is None,
        p.thread is Some,
        p.thread->Some_0.id == packet.process.tid,
        p.thread->Some_0.name is None,
        p.data == spec_convert_data(packet.data),
        p.metadata.wire_size == Some(wire_size as u64),
{
    let timestamp = SystemTime { nanos: packet.timestamp as u128 };
    let process = Process { id: packet.process.pid, name: None };
    let thread = Some(Thread { id: packet.process.tid, name: None });
    let data = match packet.data {
        protocol::TraceData::NewSpan { id, attributes } => TraceData::NewSpan { id, attributes },
        protocol::TraceData::Record { span, values } => TraceData::Event {
            parent_span: Some(span),
            event: values,
        },
        protocol::TraceData::Event { parent_span, event } => TraceData::Event { parent_span, event },
        protocol::TraceData::Enter { span } => TraceData::EnterSpan { id: span },
        protocol::TraceData::Exit { span } => TraceData::ExitSpan { id: span },
    };
    let metadata = Metadata { wire_size: Some(wire_size as u64) };
    TracePacket::new(timestamp, process, thread, data, metadata)
}

} // verus!
