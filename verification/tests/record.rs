use feo::error::IoErrorKind;
use feo::feo_time::system_time::SystemTime;
use feo::logger::level::Level;
use feo::logger::record::{OwnedRecord, Record};

fn now() -> SystemTime {
    SystemTime {
        nanos: std::time::SystemTime::now()
            .duration_since(std::time::UNIX_EPOCH)
            .unwrap()
            .as_nanos(),
    }
}

fn do_it(record: Record) {
    let buf = record.encode();

    let decoded = OwnedRecord::decode(&buf[..]).unwrap();
    assert_eq!(decoded.timestamp, record.timestamp);
    assert_eq!(decoded.level, record.level);
    assert_eq!(decoded.target, record.target);
    assert_eq!(decoded.file.as_deref(), record.file);
    assert_eq!(decoded.line, record.line);
    assert_eq!(decoded.args.as_bytes(), record.args.as_bytes());
}

#[test]
fn encode_decode() {
    // Full
    do_it(Record::new(now(), Level::Info, "target", Some("file"), Some(42), 1, 2, "args"));

    // Empty target
    do_it(Record::new(now(), Level::Info, "", Some("file"), Some(42), 1, 2, "args"));

    // Empty file
    do_it(Record::new(now(), Level::Info, "target", None, Some(42), 1, 2, "args"));

    // Empty line
    do_it(Record::new(now(), Level::Info, "target", Some("file"), None, 1, 2, "args"));

    // Empty args
    do_it(Record::new(now(), Level::Info, "target", Some("file"), Some(42), 1, 2, ""));
}

#[test]
fn record_has_a_fixed_layout() {
    let record = Record::new(
        SystemTime { nanos: 3_000_000_005 },
        Level::Warn,
        "ab",
        None,
        Some(0x0102),
        7,
        8,
        "xyz",
    );
    assert!(record.encodable());
    let bytes = record.encode();
    assert_eq!(
        bytes,
        vec![
            0, 0, 0, 0, 0, 0, 0, 3, // seconds
            0, 0, 0, 5, // nanoseconds
            2, // level
            0, 0, 0, 2, b'a', b'b', // target
            0, 0, 0, 0, // file
            0, 0, 1, 2, // line
            0, 0, 0, 7, // tgid
            0, 0, 0, 8, // tid
            0, 0, 0, 3, b'x', b'y', b'z', // args
        ]
    );
    assert_eq!(record.encoded_len(), bytes.len());
    assert_eq!(record.encoded_len(), 37 + 2 + 3);
    let with_file = Record::new(SystemTime { nanos: 0 }, Level::Trace, "", Some("f.rs"), None, 0, 0, "");
    assert_eq!(with_file.encoded_len(), 41);
    assert_eq!(with_file.encode().len(), 41);
}

#[test]
fn time_beyond_the_wire_format_cannot_be_encoded() {
    let late = Record::new(
        SystemTime { nanos: (u64::MAX as u128 + 1) * 1_000_000_000 },
        Level::Info,
        "",
        None,
        None,
        0,
        0,
        "",
    );
    assert!(!late.encodable());
    let last = Record::new(
        SystemTime { nanos: (u64::MAX as u128) * 1_000_000_000 + 999_999_999 },
        Level::Info,
        "",
        None,
        None,
        0,
        0,
        "",
    );
    assert!(last.encodable());
    let decoded = OwnedRecord::decode(&last.encode()).unwrap();
    assert_eq!(decoded.timestamp, last.timestamp);
}

fn fault(bytes: &[u8]) -> (IoErrorKind, &'static str) {
    let err = OwnedRecord::decode(bytes).unwrap_err();
    (err.io_kind().unwrap(), err.description())
}

#[test]
fn malformed_records_are_rejected() {
    let good = Record::new(SystemTime { nanos: 1 }, Level::Debug, "t", Some("f"), Some(1), 1, 2, "a")
        .encode();
    assert!(OwnedRecord::decode(&good).is_ok());
    for cut in 0..good.len() {
        assert_eq!(
            fault(&good[..cut]),
            (IoErrorKind::UnexpectedEof, "failed to fill whole buffer")
        );
    }
    let mut bad = good.clone();
    bad[12] = 0;
    assert_eq!(fault(&bad), (IoErrorKind::InvalidData, "invalid level"));
    bad[12] = 6;
    assert_eq!(fault(&bad), (IoErrorKind::InvalidData, "invalid level"));
    let mut bad = good.clone();
    bad[17] = 0xff;
    assert_eq!(fault(&bad), (IoErrorKind::InvalidData, "invalid target"));
    let mut bad = good.clone();
    bad[22] = 0xff;
    assert_eq!(fault(&bad), (IoErrorKind::InvalidData, "invalid file"));
    let mut bad = good.clone();
    let last = bad.len() - 1;
    bad[last] = 0xff;
    assert_eq!(fault(&bad), (IoErrorKind::InvalidData, "invalid args"));
    let mut long = good.clone();
    long.extend_from_slice(&[1, 2, 3]);
    assert!(OwnedRecord::decode(&long).is_ok());
}

#[test]
fn unknown_file_and_line_are_decoded_as_none() {
    let record = Record::new(SystemTime { nanos: 0 }, Level::Error, "t", Some(""), Some(0), 1, 2, "a");
    let decoded = OwnedRecord::decode(&record.encode()).unwrap();
    assert_eq!(decoded.file, None);
    assert_eq!(decoded.line, None);
    assert_eq!(decoded.level, Level::Error);
    assert_eq!(decoded.tgid, 1);
    assert_eq!(decoded.tid, 2);
}
