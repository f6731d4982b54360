use feo::feo_time::system_time::SystemTime;
use feo::tracer::data::{decode_packet, Metadata, TraceData};
use feo::tracer::protocol;

#[test]
fn recorded_values_count_as_an_event_of_the_span() {
    let wire = protocol::TracePacket::new(
        1_500,
        protocol::Process { pid: 7, tid: 9 },
        protocol::TraceData::Record { span: 3, values: "values" },
    );
    let packet = decode_packet(wire, 42);
    assert_eq!(packet.timestamp, SystemTime { nanos: 1_500 });
    assert_eq!(packet.process.id, 7);
    assert_eq!(packet.process.name, None);
    assert_eq!(packet.thread.as_ref().unwrap().id, 9);
    assert_eq!(packet.metadata, Metadata { wire_size: Some(42) });
    assert!(matches!(
        packet.data,
        TraceData::Event { parent_span: Some(3), event: "values" }
    ));
}

#[test]
fn spans_keep_their_ids() {
    let process = protocol::Process { pid: 1, tid: 2 };
    let p = decode_packet(
        protocol::TracePacket::new(0, process, protocol::TraceData::<u8>::Enter { span: 5 }),
        1,
    );
    assert!(matches!(p.data, TraceData::EnterSpan { id: 5 }));
    let p = decode_packet(
        protocol::TracePacket::new(0, process, protocol::TraceData::<u8>::Exit { span: 6 }),
        1,
    );
    assert!(matches!(p.data, TraceData::ExitSpan { id: 6 }));
    let p = decode_packet(
        protocol::TracePacket::new(0, process, protocol::TraceData::NewSpan { id: 7, attributes: 1u8 }),
        1,
    );
    assert!(matches!(p.data, TraceData::NewSpan { id: 7, attributes: 1 }));
    let p = decode_packet(
        protocol::TracePacket::new(
            0,
            process,
            protocol::TraceData::Event { parent_span: None, event: 2u8 },
        ),
        1,
    );
    assert!(matches!(p.data, TraceData::Event { parent_span: None, event: 2 }));
    assert_eq!(Metadata::default().wire_size, None);
}

use feo::tracer::data::{Process, Thread, TracePacket};
use feo::tracer::perfetto::{EventType, Packet, Perfetto, Stamp, TraceError};

fn packet(pid: u32, tid: Option<u32>, nanos: u128, data: TraceData<&'static str>) -> TracePacket<&'static str> {
    TracePacket::new(
        SystemTime { nanos },
        Process { id: pid, name: Some("proc".to_string()) },
        tid.map(|id| Thread { id, name: Some("worker".to_string()) }),
        data,
        Metadata::default(),
    )
}

fn stamp(pid: u32, tid: u32, timestamp: u64) -> Stamp {
    Stamp { track_uuid: tid as u64, pid, timestamp, sequence_id: 77 }
}

#[test]
fn span_is_handed_on_when_it_is_left() {
    let mut book: Perfetto<&'static str> = Perfetto::new(1000, 77);
    assert!(book.on_packet(packet(1, None, 0, TraceData::Exec)).unwrap().is_none());
    assert!(book
        .on_packet(packet(1, Some(5), 10, TraceData::NewSpan { id: 3, attributes: "attrs" }))
        .unwrap()
        .is_none());
    assert_eq!(book.spans.len(), 1);
    assert_eq!(book.position(1, 3), Some(0));
    assert_eq!(book.position(2, 3), None);
    assert!(book.on_packet(packet(1, Some(5), 20, TraceData::EnterSpan { id: 3 })).unwrap().is_none());
    assert!(book
        .on_packet(packet(1, Some(5), 30, TraceData::Event { parent_span: Some(3), event: "inside" }))
        .unwrap()
        .is_none());
    assert!(book
        .on_packet(packet(1, Some(6), 35, TraceData::Record { id: 3, event: "recorded" }))
        .unwrap()
        .is_none());
    let trace = book
        .on_packet(packet(1, Some(5), 40, TraceData::ExitSpan { id: 3 }))
        .unwrap()
        .unwrap();
    assert_eq!(trace.attributes, Some("attrs"));
    assert_eq!(trace.packet.len(), 6);
    assert!(matches!(&trace.packet[0], Packet::ProcessTrack { uuid: 1000, pid: 1, name: Some(n) } if n == "proc"));
    assert!(matches!(&trace.packet[1], Packet::ThreadTrack { pid: 1, tid: 5, name: Some(n) } if n == "worker"));
    assert!(matches!(&trace.packet[2], Packet::Slice { kind: EventType::SliceBegin, stamp: s } if *s == stamp(1, 5, 20)));
    assert!(matches!(&trace.packet[3], Packet::Instant { stamp: s, event: "inside" } if *s == stamp(1, 5, 30)));
    assert!(matches!(&trace.packet[4], Packet::Instant { stamp: s, event: "recorded" } if *s == stamp(1, 6, 35)));
    assert!(matches!(&trace.packet[5], Packet::Slice { kind: EventType::SliceEnd, stamp: s } if *s == stamp(1, 5, 40)));
    assert_eq!(book.spans.len(), 0);
    book.append(123);
    book.append(7);
    assert_eq!(book.written, 130);
}

#[test]
fn event_outside_a_span_is_handed_on_at_once() {
    let mut book: Perfetto<&'static str> = Perfetto::new(1000, 77);
    let trace = book
        .on_packet(packet(2, Some(9), 50, TraceData::Event { parent_span: None, event: "alone" }))
        .unwrap()
        .unwrap();
    assert_eq!(trace.attributes, None);
    assert_eq!(trace.packet.len(), 3);
    assert!(matches!(&trace.packet[2], Packet::Instant { stamp: s, event: "alone" } if *s == stamp(2, 9, 50)));
    let trace = book
        .on_packet(packet(2, Some(9), 60, TraceData::Event { parent_span: Some(4), event: "orphan" }))
        .unwrap()
        .unwrap();
    assert_eq!(trace.packet.len(), 3);
    let late = (u64::MAX as u128) + 1 + 5;
    let trace = book
        .on_packet(packet(2, Some(9), late, TraceData::Event { parent_span: None, event: "late" }))
        .unwrap()
        .unwrap();
    assert!(matches!(&trace.packet[2], Packet::Instant { stamp: s, .. } if s.timestamp == 5));
}

#[test]
fn packets_without_a_thread_are_refused() {
    let mut book: Perfetto<&'static str> = Perfetto::new(1, 77);
    book.on_packet(packet(1, Some(5), 0, TraceData::NewSpan { id: 3, attributes: "a" })).unwrap();
    assert_eq!(
        book.on_packet(packet(1, None, 0, TraceData::EnterSpan { id: 3 })).err(),
        Some(TraceError::MissingThreadOnEnter)
    );
    assert_eq!(book.spans[0].trace.len(), 2);
    assert!(book.on_packet(packet(1, None, 0, TraceData::EnterSpan { id: 4 })).unwrap().is_none());
    assert_eq!(
        book.on_packet(packet(1, None, 0, TraceData::Event { parent_span: Some(3), event: "e" })).err(),
        Some(TraceError::MissingThreadOnExit)
    );
    assert!(book.on_packet(packet(1, None, 0, TraceData::ExitSpan { id: 4 })).unwrap().is_none());
    assert_eq!(
        book.on_packet(packet(1, None, 0, TraceData::ExitSpan { id: 3 })).err(),
        Some(TraceError::MissingThreadOnExit)
    );
    assert_eq!(book.spans.len(), 0);
}

#[test]
fn exit_of_a_process_drops_its_spans() {
    let mut book: Perfetto<&'static str> = Perfetto::new(1, 77);
    for (pid, id) in [(1u32, 1u64), (2, 1), (1, 2), (3, 7), (1, 3)] {
        book.on_packet(packet(pid, Some(5), 0, TraceData::NewSpan { id, attributes: "a" })).unwrap();
    }
    assert_eq!(book.spans.len(), 5);
    assert!(book.on_packet(packet(1, None, 0, TraceData::Exit)).unwrap().is_none());
    let left: Vec<(u32, u64)> = book.spans.iter().map(|s| (s.pid, s.id)).collect();
    assert_eq!(left, vec![(2, 1), (3, 7)]);
    assert!(book.on_packet(packet(9, None, 0, TraceData::Exit)).unwrap().is_none());
    assert_eq!(book.spans.len(), 2);
}

use feo::tracer::threads::ThreadCache;

#[test]
fn thread_names_are_asked_for_once() {
    let mut cache = ThreadCache::new(42);
    assert_eq!(cache.pid, 42);
    assert!(!cache.knows(7));
    assert_eq!(cache.get(7), None);
    cache.insert(7, Some("feo-w7".to_string()));
    cache.insert(8, None);
    assert!(cache.knows(7));
    assert!(cache.knows(8));
    assert_eq!(cache.get(7), Some(&Some("feo-w7".to_string())));
    assert_eq!(cache.get(8), Some(&None));
    assert_eq!(cache.get(9), None);
}
