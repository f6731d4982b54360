//! What the collector makes of each packet.
use vstd::prelude::*;
use crate::tracer::data::{Process, Thread, TraceData, TracePacket};
use crate::tracer::perfetto::{spec_without, EventType, Packet, Perfetto, Span, Trace, TraceError};

verus! {

impl<V> Perfetto<V> {
    /// The packet that stands for the track of a process.
    pub fn process_descriptor(&self, process: Process) -> (p: Packet<V>)
        ensures
            p == (Packet::<V>::ProcessTrack {
                uuid: self.track_uuid,
                pid: process.id,
                name: process.name,
            }),
    {
        Packet::ProcessTrack { uuid: self.track_uuid, pid: process.id, name: process.name }
    }

    /// The packet that stands for the track of a thread of a process.
    pub fn thread_descriptor(&self, tgid: u32, thread: Thread) -> (p: Packet<V>)
        ensures
            p == (Packet::<V>::ThreadTrack { pid: tgid, tid: thread.id, name: thread.name }),
    {
        Packet::ThreadTrack { pid: tgid, tid: thread.id, name: thread.name }
    }

    /// A span was created: it is opened with the tracks of its process and
    /// its thread. No span of the process with that id may be open.
    pub fn on_new_span(&mut self, process: Process, thread: Thread, id: u64, attributes: V)
        requires
            old(self).wf(),
            !old(self).spec_has(process.id, id),
        ensures
            final(self).wf(),
            old(self).spec_new_span(*final(self), process, thread, id, attributes),
    {
        let pid = process.id;
        let mut trace: Vec<Packet<V>> = Vec::new();
        trace.push(self.process_descriptor(process));
        trace.push(self.thread_descriptor(pid, thread));
        assert(trace@ =~= seq![
            Packet::<V>::ProcessTrack { uuid: self.track_uuid, pid: process.id, name: process.name },
            Packet::<V>::ThreadTrack { pid: process.id, tid: thread.id, name: thread.name },
        ]);
        self.spans.push(Span { pid, id, attributes, trace });
        proof {
            assert(self.spans@.drop_last() =~= old(self).spans@);
            assert forall|i: int, j: int|
                0 <= i < self.spans@.len() && 0 <= j < self.spans@.len() && i != j implies !(
            self.spans@[i].pid == self.spans@[j].pid && self.spans@[i].id
                == self.spans@[j].id) by {
                let n = old(self).spans@.len() as int;
                if i < n && j < n {
                    assert(self.spans@[i] == old(self).spans@[i]);
                    assert(self.spans@[j] == old(self).spans@[j]);
                } else if i < n {
                    assert(self.spans@[i] == old(self).spans@[i]);
                } else {
                    assert(self.spans@[j] == old(self).spans@[j]);
                }
            }
        }
    }

    /// A span was entered. If it is open, the begin of a slice on the track
    /// of the thread is added to it; it must have been entered by a thread.
    /// A span that is not open is passed over.
    pub fn on_enter_span(&mut self, pid: u32, thread: Option<Thread>, id: u64, nanos: u128) -> (r:
        Result<(), TraceError>)
        requires
            old(self).wf(),
        ensures
            final(self).wf(),
            old(self).spec_enter_span(*final(self), r, pid, thread, id, nanos),
    {
        let at = match self.position(pid, id) {
            Some(at) => at,
            None => {
                return Ok(());
            },
        };
        let tid = match thread {
            Some(t) => t.id,
            None => {
                return Err(TraceError::MissingThreadOnEnter);
            },
        };
        let stamp = self.stamp(pid, tid, nanos);
        self.spans[at].trace.push(Packet::Slice { kind: EventType::SliceBegin, stamp });
        Ok(())
    }

    /// A span was left. If it is open, it is closed: the end of a slice on
    /// the track of the thread is added, and its packets are handed on as a
    /// trace. It must have been left by a thread; otherwise it is closed and
    /// nothing is handed on. A span that is not open is passed over.
    pub fn on_exit_span(&mut self, pid: u32, thread: Option<Thread>, id: u64, nanos: u128) -> (r:
        Result<Option<Trace<V>>, TraceError>)
        requires
            old(self).wf(),
        ensures
            final(self).wf(),
            old(self).spec_exit_span(*final(self), r, pid, thread, id, nanos),
    {
        let at = match self.position(pid, id) {
            Some(at) => at,
            None => {
                return Ok(None);
            },
        };
        let span = self.spans.remove(at);
        proof {
            assert(span == old(self).spans@[at as int]);
        }
        let tid = match thread {
            Some(t) => t.id,
            None => {
                return Err(TraceError::MissingThreadOnExit);
            },
        };
        let stamp = self.stamp(pid, tid, nanos);
        let Span { pid: _, id: _, attributes, trace } = span;
        let mut packet = trace;
        packet.push(Packet::Slice { kind: EventType::SliceEnd, stamp });
        Ok(Some(Trace { attributes: Some(attributes), packet }))
    }

    /// An event was emitted. It must come from a thread. Inside an open span
    /// it is added to the span; outside any open span it is handed on at
    /// once, as a trace of its own behind the tracks of its process and its
    /// thread.
    pub fn on_event(
        &mut self,
        process: Process,
        thread: Option<Thread>,
        parent_span: Option<u64>,
        event: V,
        nanos: u128,
    ) -> (r: Result<Option<Trace<V>>, TraceError>)
        requires
            old(self).wf(),
        ensures
            final(self).wf(),
            old(self).spec_event(*final(self), r, process, thread, parent_span, event, nanos),
    {
        let pid = process.id;
        let thread = match thread {
            Some(t) => t,
            None => {
                return Err(TraceError::MissingThreadOnExit);
            },
        };
        let stamp = self.stamp(pid, thread.id, nanos);
        let packet = Packet::Instant { stamp, event };
        let at = match parent_span {
            Some(id) => self.position(pid, id),
            None => None,
        };
        match at {
            Some(at) => {
                self.spans[at].trace.push(packet);
                Ok(None)
            },
            None => {
                let mut list: Vec<Packet<V>> = Vec::new();
                list.push(self.process_descriptor(process));
                list.push(self.thread_descriptor(pid, thread));
                list.push(packet);
                assert(list@ =~= seq![
                    Packet::<V>::ProcessTrack {
                        uuid: self.track_uuid,
                        pid: process.id,
                        name: process.name,
                    },
                    Packet::<V>::ThreadTrack { pid: process.id, tid: thread.id, name: thread.name },
                    packet,
                ]);
                Ok(Some(Trace { attributes: None, packet: list }))
            },
        }
    }

    /// How the book stands after a span was created.
    pub open spec fn spec_new_span(
        &self,
        after: Perfetto<V>,
        process: Process,
        thread: Thread,
        id: u64,
        attributes: V,
    ) -> bool {
        &&& after.track_uuid == self.track_uuid
        &&& after.sequence_id == self.sequence_id
        &&& after.written == self.written
        &&& after.spans@.len() == self.spans@.len() + 1
        &&& after.spans@.drop_last() == self.spans@
        &&& after.spans@.last().pid == process.id
        &&& after.spans@.last().id == id
        &&& after.spans@.last().attributes == attributes
        &&& after.spans@.last().trace@ == seq![
            Packet::<V>::ProcessTrack { uuid: self.track_uuid, pid: process.id, name: process.name },
            Packet::<V>::ThreadTrack { pid: process.id, tid: thread.id, name: thread.name },
        ]
    }

    /// Whether the spans are as before but for one more packet in the span of
    /// the process with the id.
    pub open spec fn spec_pushed(&self, after: Perfetto<V>, pid: u32, id: u64, packet: Packet<V>) -> bool {
        &&& after.spans@.len() == self.spans@.len()
        &&& forall|i: int|
            0 <= i < self.spans@.len() ==> {
                &&& (#[trigger] after.spans@[i]).pid == self.spans@[i].pid
                &&& after.spans@[i].id == self.spans@[i].id
                &&& after.spans@[i].attributes == self.spans@[i].attributes
                &&& after.spans@[i].trace@ == if self.spans@[i].pid == pid && self.spans@[i].id == id {
                    self.spans@[i].trace@.push(packet)
                } else {
                    self.spans@[i].trace@
                }
            }
    }

    /// How the book stands, and what was answered, after a span was entered.
    pub open spec fn spec_enter_span(
        &self,
        after: Perfetto<V>,
        r: Result<(), TraceError>,
        pid: u32,
        thread: Option<Thread>,
        id: u64,
        nanos: u128,
    ) -> bool {
        &&& after.track_uuid == self.track_uuid
        &&& after.sequence_id == self.sequence_id
        &&& after.written == self.written
        &&& if !self.spec_has(pid, id) {
            r is Ok && after.spans@ == self.spans@
        } else if thread is None {
            r == Err::<(), TraceError>(TraceError::MissingThreadOnEnter) && after.spans@ == self.spans@
        } else {
            r is Ok && self.spec_pushed(
                after,
                pid,
                id,
                Packet::Slice {
                    kind: EventType::SliceBegin,
                    stamp: self.spec_stamp(pid, thread->Some_0.id, nanos as nat),
                },
            )
        }
    }

    /// How the book stands, and what was handed on, after a span was left.
    pub open spec fn spec_exit_span(
        &self,
        after: Perfetto<V>,
        r: Result<Option<Trace<V>>, TraceError>,
        pid: u32,
        thread: Option<Thread>,
        id: u64,
        nanos: u128,
    ) -> bool {
        &&& after.track_uuid == self.track_uuid
        &&& after.sequence_id == self.sequence_id
        &&& after.written == self.written
        &&& if !self.spec_has(pid, id) {
            r is Ok && r->Ok_0 is None && after.spans@ == self.spans@
        } else {
            exists|at: int|
                {
                    &&& 0 <= at < self.spans@.len()
                    &&& (#[trigger] self.spans@[at]).pid == pid
                    &&& self.spans@[at].id == id
                    &&& after.spans@ == self.spans@.remove(at)
                    &&& thread is None ==> r == Err::<Option<Trace<V>>, TraceError>(
                        TraceError::MissingThreadOnExit,
                    )
                    &&& thread is Some ==> r is Ok && r->Ok_0 is Some
                        && r->Ok_0->Some_0.attributes == Some(self.spans@[at].attributes)
                        && r->Ok_0->Some_0.packet@ == self.spans@[at].trace@.push(
                        Packet::Slice {
                            kind: EventType::SliceEnd,
                            stamp: self.spec_stamp(pid, thread->Some_0.id, nanos as nat),
                        },
                    )
                }
        }
    }

    /// How the book stands, and what was handed on, after an event.
    pub open spec fn spec_event(
        &self,
        after: Perfetto<V>,
        r: Result<Option<Trace<V>>, TraceError>,
        process: Process,
        thread: Option<Thread>,
        parent_span: Option<u64>,
        event: V,
        nanos: u128,
    ) -> bool {
        &&& after.track_uuid == self.track_uuid
        &&& after.sequence_id == self.sequence_id
        &&& after.written == self.written
        &&& if thread is None {
            r == Err::<Option<Trace<V>>, TraceError>(TraceError::MissingThreadOnExit) && after.spans@
                == self.spans@
        } else if !self.spec_in_span(process.id, parent_span) {
            &&& after.spans@ == self.spans@
            &&& r is Ok && r->Ok_0 is Some
            &&& r->Ok_0->Some_0.attributes is None
            &&& r->Ok_0->Some_0.packet@ == seq![
                Packet::<V>::ProcessTrack {
                    uuid: self.track_uuid,
                    pid: process.id,
                    name: process.name,
                },
                Packet::<V>::ThreadTrack {
                    pid: process.id,
                    tid: thread->Some_0.id,
                    name: thread->Some_0.name,
                },
                Packet::<V>::Instant {
                    stamp: self.spec_stamp(process.id, thread->Some_0.id, nanos as nat),
                    event,
                },
            ]
        } else {
            r is Ok && r->Ok_0 is None && self.spec_pushed(
                after,
                process.id,
                parent_span->Some_0,
                Packet::Instant {
                    stamp: self.spec_stamp(process.id, thread->Some_0.id, nanos as nat),
                    event,
                },
            )
        }
    }

    /// Whether the book can take the packet: a span that is created is not
    /// open already, and it is created by a thread.
    pub open spec fn spec_can_take(&self, message: TracePacket<V>) -> bool {
        message.data is NewSpan ==> message.thread is Some && !self.spec_has(
            message.process.id,
            message.data->NewSpan_id,
        )
    }

    /// How the book stands, and what was handed on, after a packet.
    pub open spec fn spec_on_packet(
        &self,
        after: Perfetto<V>,
        r: Result<Option<Trace<V>>, TraceError>,
        message: TracePacket<V>,
    ) -> bool {
        let pid = message.process.id;
        let nanos = message.timestamp.nanos;
        match message.data {
            TraceData::Exec => r is Ok && r->Ok_0 is None && after == *self,
            TraceData::Exit => {
                &&& r is Ok && r->Ok_0 is None
                &&& after.spans@ == spec_without(self.spans@, pid)
                &&& after.track_uuid == self.track_uuid
                &&& after.sequence_id == self.sequence_id
                &&& after.written == self.written
            },
            TraceData::NewSpan { id, attributes } => r is Ok && r->Ok_0 is None
                && self.spec_new_span(after, message.process, message.thread->Some_0, id, attributes),
            TraceData::EnterSpan { id } => match r {
                Ok(t) => t is None && self.spec_enter_span(
                    after,
                    Ok(()),
                    pid,
                    message.thread,
                    id,
                    nanos,
                ),
                Err(e) => self.spec_enter_span(after, Err(e), pid, message.thread, id, nanos),
            },
            TraceData::ExitSpan { id } => self.spec_exit_span(
                after,
                r,
                pid,
                message.thread,
                id,
                nanos,
            ),
            TraceData::Record { id, event } => self.spec_event(
                after,
                r,
                message.process,
                message.thread,
                Some(id),
                event,
                nanos,
            ),
            TraceData::Event { parent_span, event } => self.spec_event(
                after,
                r,
                message.process,
                message.thread,
                parent_span,
                event,
                nanos,
            ),
        }
    }

    /// Takes a packet. The exit of a process drops its spans; a new span is
    /// opened; entering and leaving a span add the begin and the end of a slice
    /// to it, and leaving it hands its trace on; values recorded for a span
    /// count as an event inside it; an event is added to its span or, outside
    /// any open span, handed on at once.
    pub fn on_packet(&mut self, message: TracePacket<V>) -> (r: Result<Option<Trace<V>>, TraceError>)
        requires
            old(self).wf(),
            old(self).spec_can_take(message),
        ensures
            final(self).wf(),
            old(self).spec_on_packet(*final(self), r, message),
    {
        let TracePacket { timestamp, process, thread, data, metadata: _ } = message;
        let pid = process.id;
        let nanos = timestamp.nanos;
        match data {
            TraceData::Exec => Ok(None),
            TraceData::Exit => {
                self.on_exit(pid);
                Ok(None)
            },
            TraceData::NewSpan { id, attributes } => {
                match thread {
                    Some(thread) => {
                        self.on_new_span(process, thread, id, attributes);
                    },
                    None => {},
                }
                Ok(None)
            },
            TraceData::EnterSpan { id } => match self.on_enter_span(pid, thread, id, nanos) {
                Ok(()) => Ok(None),
                Err(e) => Err(e),
            },
            TraceData::ExitSpan { id } => self.on_exit_span(pid, thread, id, nanos),
            TraceData::Record { id, event } => self.on_event(
                process,
                thread,
                Some(id),
                event,
                nanos,
            ),
            TraceData::Event { parent_span, event } => self.on_event(
                process,
                thread,
                parent_span,
                event,
                nanos,
            ),
        }
    }

    /// Whether the span that an event names as its parent is open.
    pub open spec fn spec_in_span(&self, pid: u32, parent_span: Option<u64>) -> bool {
        parent_span is Some && self.spec_has(pid, parent_span->Some_0)
    }
}

} // verus!
