//! The collector's book of open spans, and the traces it hands on.
//!
//! A span is opened by a process, entered and left by a thread, and may hold
//! events. While a span is open, its packets are collected; when it is left,
//! they are handed on as one trace. An event outside any span is handed on at
//! once. What a span or an event carries is passed through as a value of the
//! type `V`; turning it into names and annotations is left to whoever writes
//! the trace.
use vstd::prelude::*;

verus! {

/// The kinds of event on a thread's track.
#[derive(Debug, Clone, Copy, PartialEq, Eq, Structural)]
pub enum EventType {
    /// A span begins.
    SliceBegin,
    /// A span ends.
    SliceEnd,
    /// An event without duration.
    Instant,
}

/// What stands on every event of a trace.
#[derive(Debug, Clone, Copy, PartialEq, Eq, Structural)]
pub struct Stamp {
    /// The track of the event: the id of its thread.
    pub track_uuid: u64,
    /// The process of the event.
    pub pid: u32,
    /// When the event happened, in nanoseconds since the Unix epoch.
    pub timestamp: u64,
    /// The sequence that the packet belongs to.
    pub sequence_id: u32,
}

/// A packet of a trace.
#[verifier::reject_recursive_types(V)]
pub enum Packet<V> {
    /// The track of a process.
    ProcessTrack { uuid: u64, pid: u32, name: Option<String> },
    /// The track of a thread; its id is the id of the thread.
    ThreadTrack { pid: u32, tid: u32, name: Option<String> },
    /// The begin or the end of the span that the trace belongs to.
    Slice { kind: EventType, stamp: Stamp },
    /// An event, with what it carries.
    Instant { stamp: Stamp, event: V },
}

/// An open span.
#[verifier::reject_recursive_types(V)]
pub struct Span<V> {
    /// The process that opened the span.
    pub pid: u32,
    /// The id of the span within its process.
    pub id: u64,
    /// What the span carries.
    pub attributes: V,
    /// The packets collected so far.
    pub trace: Vec<Packet<V>>,
}

/// A trace that is ready to be written.
#[verifier::reject_recursive_types(V)]
pub struct Trace<V> {
    /// What the span of the trace carries; `None` for an event outside any
    /// span.
    pub attributes: Option<V>,
    /// The packets of the trace, in their order.
    pub packet: Vec<Packet<V>>,
}

/// Why a packet could not be taken.
#[derive(Debug, Clone, Copy, PartialEq, Eq, Structural)]
pub enum TraceError {
    /// A span was entered by no thread.
    MissingThreadOnEnter,
    /// A span was left, or an event emitted, by no thread.
    MissingThreadOnExit,
}

/// The book of open spans.
#[verifier::reject_recursive_types(V)]
pub struct Perfetto<V> {
    /// The open spans. No two have the same process and id.
    pub spans: Vec<Span<V>>,
    /// The track of the processes of this trace.
    pub track_uuid: u64,
    /// The sequence of this trace.
    pub sequence_id: u32,
    /// The number of bytes written so far.
    pub written: u64,
}

/// The spans that are left when a process has gone: those of other processes,
/// in their order.
pub open spec fn spec_without<V>(spans: Seq<Span<V>>, pid: u32) -> Seq<Span<V>>
    decreases spans.len(),
{
    if spans.len() == 0 {
        Seq::empty()
    } else if spans.last().pid != pid {
        spec_without(spans.drop_last(), pid).push(spans.last())
    } else {
        spec_without(spans.drop_last(), pid)
    }
}

/// The time of a packet as a trace tells it: the nanoseconds since the Unix
/// epoch, as far as eight bytes hold them.
pub open spec fn spec_trace_time(nanos: nat) -> u64 {
    (nanos % 0x1_0000_0000_0000_0000) as u64
}

impl<V> Perfetto<V> {
    /// Whether a span of the process with the id is open.
    pub open spec fn spec_has(&self, pid: u32, id: u64) -> bool {
        exists|i: int| 0 <= i < self.spans@.len() && self.spans@[i].pid == pid && self.spans@[i].id == id
    }

    /// No two open spans have the same process and id.
    pub open spec fn wf(&self) -> bool {
        forall|i: int, j: int|
            0 <= i < self.spans@.len() && 0 <= j < self.spans@.len() && i != j ==> !(
            self.spans@[i].pid == self.spans@[j].pid && self.spans@[i].id == self.spans@[j].id)
    }

    /// The stamp of an event of this trace.
    pub open spec fn spec_stamp(&self, pid: u32, tid: u32, nanos: nat) -> Stamp {
        Stamp {
            track_uuid: tid as u64,
            pid,
            timestamp: spec_trace_time(nanos),
            sequence_id: self.sequence_id,
        }
    }

    /// Creates an empty book for a trace with the given track and sequence.
    pub fn new(track_uuid: u64, sequence_id: u32) -> (p: Perfetto<V>)
        ensures
            p.spans@.len() == 0,
            p.track_uuid == track_uuid,
            p.sequence_id == sequence_id,
            p.written == 0,
            p.wf(),
    {
        Perfetto { spans: Vec::new(), track_uuid, sequence_id, written: 0 }
    }

    /// Finds the open span of the process with the id.
    pub fn position(&self, pid: u32, id: u64) -> (r: Option<usize>)
        ensures
            match r {
                Some(i) => i < self.spans@.len() && self.spans@[i as int].pid == pid
                    && self.spans@[i as int].id == id,
                None => !self.spec_has(pid, id),
            },
    {
        let mut i: usize = 0;
        while i < self.spans.len()
            invariant
                i <= self.spans@.len(),
                forall|k: int| 0 <= k < i ==> !(self.spans@[k].pid == pid && self.spans@[k].id == id),
            decreases self.spans@.len() - i,
        {
            if self.spans[i].pid == pid && self.spans[i].id == id {
                return Some(i);
            }
            i += 1;
        }
        None
    }

    /// Makes the stamp of an event.
    pub fn stamp(&self, pid: u32, tid: u32, nanos: u128) -> (s: Stamp)
        ensures
            s == self.spec_stamp(pid, tid, nanos as nat),
    {
        Stamp {
            track_uuid: tid as u64,
            pid,
            timestamp: (nanos % 0x1_0000_0000_0000_0000) as u64,
            sequence_id: self.sequence_id,
        }
    }

    /// Takes note of the bytes of a trace that was written.
    pub fn append(&mut self, len: usize)
        requires
            old(self).written + len <= u64::MAX,
        ensures
            final(self).written == old(self).written + len,
            final(self).spans == old(self).spans,
            final(self).track_uuid == old(self).track_uuid,
            final(self).sequence_id == old(self).sequence_id,
    {
        self.written = self.written + len as u64;
    }

    /// A process has gone: all its spans are dropped.
    pub fn on_exit(&mut self, pid: u32)
        requires
            old(self).wf(),
        ensures
            final(self).wf(),
            final(self).spans@ == spec_without(old(self).spans@, pid),
            final(self).track_uuid == old(self).track_uuid,
            final(self).sequence_id == old(self).sequence_id,
            final(self).written == old(self).written,
    {
        let ghost all = self.spans@;
        let ghost mut k: int = 0;
        let mut i: usize = 0;
        proof {
            assert(all.take(0) =~= Seq::<Span<V>>::empty());
            assert(self.spans@ =~= spec_without(all.take(0), pid) + all.skip(0));
        }
        while i < self.spans.len()
            invariant
                self.wf(),
                0 <= k <= all.len(),
                i == spec_without(all.take(k), pid).len(),
                self.spans@ == spec_without(all.take(k), pid) + all.skip(k),
                self.track_uuid == old(self).track_uuid,
                self.sequence_id == old(self).sequence_id,
                self.written == old(self).written,
            decreases all.len() - k,
        {
            proof {
                assert(self.spans@[i as int] == all[k]);
                assert(all.take(k + 1).drop_last() =~= all.take(k));
                assert(all.take(k + 1).last() == all[k]);
            }
            if self.spans[i].pid == pid {
                let ghost before = self.spans@;
                let _ = self.spans.remove(i);
                proof {
                    assert forall|x: int, y: int|
                        0 <= x < self.spans@.len() && 0 <= y < self.spans@.len() && x != y implies !(
                    self.spans@[x].pid == self.spans@[y].pid && self.spans@[x].id
                        == self.spans@[y].id) by {
                        let x0 = if x < i { x } else { x + 1 };
                        let y0 = if y < i { y } else { y + 1 };
                        assert(self.spans@[x] == before[x0]);
                        assert(self.spans@[y] == before[y0]);
                    }
                    assert(self.spans@ =~= spec_without(all.take(k + 1), pid) + all.skip(k + 1));
                }
            } else {
                i += 1;
                proof {
                    assert(self.spans@ =~= spec_without(all.take(k + 1), pid) + all.skip(k + 1));
                }
            }
            proof {
                k = k + 1;
            }
        }
        proof {
            assert(k == all.len());
            assert(all.take(k) =~= all);
            assert(self.spans@ =~= spec_without(all, pid));
        }
    }
}

} // verus!
