use feo::ids::{ActivityId, AgentId};
use feo::signalling::pdu::SignalPdu;
use feo::signalling::tag::SignalTag;
use feo::signals::Signal;
use feo::timestamp::{SyncInfo, Timestamp};

#[test]
fn step_frame_layout() {
    let signal = Signal::Step((ActivityId(0x0102), Timestamp(0x0a0b0c0d)));
    let pdu = SignalPdu::from(&signal);
    let frame = pdu.to_bytes().unwrap();
    assert_eq!(
        frame,
        vec![6, 0, 16, 0, 0, 0, 0, 0, 0, 1, 2, 0, 0, 0, 0, 0x0a, 0x0b, 0x0c, 0x0d]
    );
}

#[test]
fn all_variants_round_trip() {
    let signals = vec![
        Signal::HelloTrigger(AgentId(7)),
        Signal::HelloReady(AgentId(usize::MAX)),
        Signal::StartupSync(SyncInfo { since_epoch: 1_700_000_000_000_000_000 }),
        Signal::TaskChainStart(Timestamp(0)),
        Signal::TaskChainEnd(Timestamp(u64::MAX)),
        Signal::Startup((ActivityId(1), Timestamp(2))),
        Signal::Step((ActivityId(3), Timestamp(4))),
        Signal::Shutdown((ActivityId(5), Timestamp(6))),
        Signal::Ready((ActivityId(7), Timestamp(8))),
        Signal::RecorderReady((AgentId(9), Timestamp(10))),
    ];
    for (i, signal) in signals.iter().enumerate() {
        let frame = SignalPdu::from(signal).to_bytes().unwrap();
        assert!(frame.len() <= 24);
        assert_eq!(frame[0] as usize, match i { 0 => 0, 1 => 1, 2 => 2, 3 => 3, 4 => 4, 5 => 5, 6 => 6, 7 => 7, 8 => 8, _ => 9 });
        let pdu = SignalPdu::from_bytes(&frame).unwrap();
        assert!(pdu.is_complete());
        assert_eq!(Signal::try_from(&pdu).unwrap(), *signal);
    }
}

#[test]
fn unknown_tag_is_invalid_data() {
    let frame = [10u8, 0, 0];
    let err = SignalPdu::from_bytes(&frame).unwrap_err();
    assert_eq!(err.io_kind(), Some(feo::error::IoErrorKind::InvalidData));
    assert_eq!(err.description(), "invalid SignalPdu tag");
    assert!(SignalTag::try_from(10).is_err());
    assert_eq!(SignalTag::try_from(9).unwrap(), SignalTag::RecorderReady);
}

#[test]
fn oversized_length_is_invalid_data() {
    let mut frame = vec![0u8, 0, 17];
    frame.extend_from_slice(&[0u8; 17]);
    let err = SignalPdu::from_bytes(&frame).unwrap_err();
    assert_eq!(err.io_kind(), Some(feo::error::IoErrorKind::InvalidData));
    assert_eq!(err.description(), "received PDU length exceeds buffer size");
}

#[test]
fn partial_frame_is_an_error() {
    let err = SignalPdu::from_bytes(&[8u8, 0]).unwrap_err();
    assert_eq!(err.io_kind(), Some(feo::error::IoErrorKind::UnexpectedEof));
    let err = SignalPdu::from_bytes(&[8u8, 0, 16, 1, 2, 3]).unwrap_err();
    assert_eq!(err.io_kind(), Some(feo::error::IoErrorKind::UnexpectedEof));
    assert_eq!(err.description(), "failed to read SignalPdu data");
}
