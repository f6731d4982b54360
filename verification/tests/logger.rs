use feo::logger::fmt::{color_of_bytes, color_of_number, num_hex_digits};
use feo::logger::record::{read_u32_be, read_u64_be, read_u8_be, Cursor};

#[test]
fn hex_digits() {
    assert_eq!(num_hex_digits(0), 1);
    assert_eq!(num_hex_digits(1), 1);
    assert_eq!(num_hex_digits(15), 1);
    assert_eq!(num_hex_digits(16), 2);
    assert_eq!(num_hex_digits(255), 2);
    assert_eq!(num_hex_digits(256), 3);
    assert_eq!(num_hex_digits(4095), 3);
}

#[test]
fn read_u32_be_good() {
    let buf = [0x12, 0x34, 0x56, 0x78];
    assert_eq!(read_u32_be(&mut Cursor::new(&buf)).unwrap(), 0x12345678);
}

#[test]
fn read_u32_be_short() {
    let buf = [0x12, 0x34, 0x56];
    assert!(read_u32_be(&mut Cursor::new(&buf)).is_err());
}

#[test]
fn read_u64_be_good() {
    let buf = &mut [0x12, 0x34, 0x56, 0x78, 0x9a, 0xbc, 0xde, 0xf0];
    assert_eq!(
        read_u64_be(&mut Cursor::new(&buf[..])).unwrap(),
        0x123456789abcdef0
    );
}

#[test]
fn read_u64_be_short() {
    let buf = &mut [0x12, 0x34, 0x56, 0x78, 0x9a, 0xbc, 0xde];
    assert!(read_u64_be(&mut Cursor::new(&buf[..])).is_err());
}

#[test]
fn hex_digits_of_the_largest_number() {
    assert_eq!(num_hex_digits(u32::MAX), 8);
    assert_eq!(num_hex_digits(0x1000_0000), 8);
    assert_eq!(num_hex_digits(0x0fff_ffff), 7);
}

#[test]
fn cursor_reads_in_sequence() {
    let buf = [7u8, 0, 0, 0, 9, 1];
    let mut cursor = Cursor::new(&buf);
    assert_eq!(read_u8_be(&mut cursor).unwrap(), 7);
    assert_eq!(read_u32_be(&mut cursor).unwrap(), 9);
    assert_eq!(cursor.pos, 5);
    assert!(read_u32_be(&mut cursor).is_err());
    assert_eq!(cursor.pos, 6);
    assert!(read_u8_be(&mut cursor).is_err());
}

#[test]
fn colours_avoid_the_dark_ones() {
    assert_eq!(color_of_number(0), 2);
    assert_eq!(color_of_number(1), 3);
    assert_eq!(color_of_number(16), 22);
    assert_eq!(color_of_number(55), 59);
    assert_eq!(color_of_number(128), 132);
    assert_eq!(color_of_number(165), 168);
    assert_eq!(color_of_number(207), 208);
    assert_eq!(color_of_number(240), 249);
    assert_eq!(color_of_number(100), 100);
    assert_eq!(color_of_number(256 + 100), 100);
    assert_eq!(color_of_bytes(b""), 42);
    assert_eq!(color_of_bytes(b"a"), 42 ^ b'a');
    assert_eq!(color_of_bytes(b"ab"), 42 ^ b'a' ^ b'b');
}

use feo::feo_time::system_time::SystemTime;
use feo::logger::fmt::{format_at, format_owned, LineParts, Widths};
use feo::logger::level::{Color, Level};
use feo::logger::record::{OwnedRecord, Record};
use feo::text::{decimal, hex, pad_left, pad_right};

#[test]
fn numbers_are_written_in_hex_and_decimal() {
    assert_eq!(hex(0), "0");
    assert_eq!(hex(10), "a");
    assert_eq!(hex(255), "ff");
    assert_eq!(hex(0x1234abcd), "1234abcd");
    assert_eq!(hex(u32::MAX), "ffffffff");
    assert_eq!(decimal(0), "0");
    assert_eq!(decimal(42), "42");
    assert_eq!(decimal(1000), "1000");
    assert_eq!(decimal(u32::MAX as u64), "4294967295");
    assert_eq!(decimal(u64::MAX), "18446744073709551615");
}

#[test]
fn columns_are_filled_with_spaces() {
    assert_eq!(pad_right("ab", 5), "ab   ");
    assert_eq!(pad_right("abcde", 5), "abcde");
    assert_eq!(pad_right("abcdef", 5), "abcdef");
    assert_eq!(pad_left("ab", 5), "   ab");
    assert_eq!(pad_left("abcdef", 5), "abcdef");
    assert_eq!(pad_right("", 0), "");
    assert_eq!(pad_left("äö", 3), " äö");
}

#[test]
fn levels_have_numbers_names_and_colours() {
    let all = [Level::Error, Level::Warn, Level::Info, Level::Debug, Level::Trace];
    let names = ["ERROR", "WARN", "INFO", "DEBUG", "TRACE"];
    for (i, level) in all.iter().enumerate() {
        assert_eq!(level.to_u8() as usize, i + 1);
        assert_eq!(Level::from_u8(i as u8 + 1), Some(*level));
        assert_eq!(level.name(), names[i]);
    }
    assert_eq!(Level::from_u8(0), None);
    assert_eq!(Level::from_u8(6), None);
    assert_eq!(Level::Error.color(), Color::Red);
    assert_eq!(Level::Warn.color(), Color::Yellow);
    assert_eq!(Level::Info.color(), Color::Green);
    assert_eq!(Level::Debug.color(), Color::Color256(243));
    assert_eq!(Level::Trace.color(), Color::White);
}

#[test]
fn line_is_put_together_from_its_parts() {
    let parts = LineParts {
        timestamp: "12:34:56.789",
        target: "target",
        tgid: "a1  ",
        tid: "  b2",
        level: "INFO ",
        location: None,
        message: "hello",
    };
    assert_eq!(parts.assemble(), "12:34:56.789 target (a1     b2): INFO : hello\n");
    let parts = LineParts { location: Some(("main.rs", 17)), level: "TRACE", ..parts };
    assert_eq!(
        parts.assemble(),
        "12:34:56.789 target (a1     b2): TRACE: main.rs:17: hello\n"
    );
}

fn record_at(nanos: u128, level: Level) -> Record<'static> {
    Record::new(
        SystemTime { nanos },
        level,
        "feo::scheduler",
        Some("primary.rs"),
        Some(42),
        0x1f,
        0x2e3,
        "task chain started",
    )
}

#[test]
fn record_is_shown_with_its_time_of_day() {
    let day: u128 = 86_400_000_000_000;
    let nanos = 19_000 * day + ((12 * 3600 + 34 * 60 + 56) as u128) * 1_000_000_000 + 789_123_456;
    let mut widths = Widths::new();
    let line = feo::logger::fmt::format(&record_at(nanos, Level::Info), &mut widths).unwrap();
    assert!(line.starts_with("12:34:56.789 "));
    assert!(line.ends_with(": task chain started\n"));
    assert!(line.contains("feo::scheduler  "));
    assert!(line.contains("1f  "));
    assert!(line.contains(" 2e3"));
    assert!(line.contains("INFO "));
    assert!(!line.contains("primary.rs"));
    assert_eq!(widths, Widths { target: 16, tgid: 4, tid: 4 });

    let line = feo::logger::fmt::format(&record_at(0, Level::Trace), &mut widths).unwrap();
    assert!(line.starts_with("00:00:00.000 "));
    assert!(line.contains("primary.rs"));
    assert!(line.ends_with(":42: task chain started\n"));

    assert_eq!(feo::logger::fmt::format(&record_at(u128::MAX, Level::Info), &mut widths), None);
    assert_eq!(feo::logger::fmt::format(&record_at(i128::MAX as u128, Level::Info), &mut widths), None);
}

#[test]
fn columns_grow_with_the_widest_entry() {
    let mut widths = Widths::new();
    let wide = Record::new(
        SystemTime { nanos: 0 },
        Level::Warn,
        "a::target::of::twenty::six",
        None,
        None,
        0x12345,
        7,
        "m",
    );
    let line = format_at(&wide, "now", &mut widths);
    assert_eq!(widths, Widths { target: 26, tgid: 5, tid: 4 });
    assert!(line.starts_with("now "));
    assert!(line.contains("12345"));
    let narrow = record_at(0, Level::Trace);
    let line = format_at(&narrow, "now", &mut widths);
    assert_eq!(widths, Widths { target: 26, tgid: 5, tid: 4 });
    assert!(line.contains("feo::scheduler            "));
    let unknown = Record::new(SystemTime { nanos: 0 }, Level::Trace, "t", None, None, 1, 1, "m");
    let line = format_at(&unknown, "now", &mut widths);
    assert!(line.contains("file unknown"));
    assert!(line.ends_with(":0: m\n"));
}

#[test]
fn owned_record_is_shown_like_the_borrowed_one() {
    let owned = OwnedRecord {
        timestamp: SystemTime { nanos: 3_600_000_000_000 },
        level: Level::Error,
        target: "target".to_string(),
        file: None,
        line: None,
        tgid: 1,
        tid: 2,
        args: "args".to_string(),
    };
    let mut widths = Widths::new();
    let line = format_owned(&owned, &mut widths).unwrap();
    assert!(line.starts_with("01:00:00.000 "));
    assert!(line.ends_with(": args\n"));
    assert!(line.contains("ERROR"));
}

use feo::logger::filter::{level_from_env, LevelFilter};
use feo::logger::sink::{Console, Logd, Logger};

#[test]
fn level_filter_is_taken_from_the_environment() {
    assert_eq!(level_from_env(None, LevelFilter::Info), LevelFilter::Info);
    assert_eq!(level_from_env(Some("OFF"), LevelFilter::Info), LevelFilter::Off);
    assert_eq!(level_from_env(Some("error"), LevelFilter::Info), LevelFilter::Error);
    assert_eq!(level_from_env(Some("Warn"), LevelFilter::Info), LevelFilter::Warn);
    assert_eq!(level_from_env(Some("INFO"), LevelFilter::Off), LevelFilter::Info);
    assert_eq!(level_from_env(Some("dEbUg"), LevelFilter::Info), LevelFilter::Debug);
    assert_eq!(level_from_env(Some("TRACE"), LevelFilter::Info), LevelFilter::Trace);
    assert_eq!(level_from_env(Some("verbose"), LevelFilter::Warn), LevelFilter::Warn);
    assert_eq!(level_from_env(Some(""), LevelFilter::Warn), LevelFilter::Warn);
    assert_eq!(level_from_env(Some(" info"), LevelFilter::Warn), LevelFilter::Warn);
}

#[test]
fn filter_lets_the_graver_levels_through() {
    assert!(LevelFilter::Info.enabled(Level::Error));
    assert!(LevelFilter::Info.enabled(Level::Info));
    assert!(!LevelFilter::Info.enabled(Level::Debug));
    assert!(!LevelFilter::Off.enabled(Level::Error));
    assert!(LevelFilter::Trace.enabled(Level::Trace));
    assert_eq!(LevelFilter::Debug.to_u8(), 4);
}

#[test]
fn logger_writes_to_the_sinks_it_was_made_with() {
    let record = Record::new(SystemTime { nanos: 0 }, Level::Info, "t", None, None, 1, 2, "m");
    let mut both = Logger::new(true, true);
    let out = both.log(&record);
    assert!(out.line.unwrap().starts_with("00:00:00.000 "));
    assert_eq!(out.packet.unwrap(), record.encode());

    let mut quiet = Logger::new(false, false);
    let out = quiet.log(&record);
    assert_eq!(out.line, None);
    assert_eq!(out.packet, None);
    assert_eq!(quiet, Logger { console: None, logd: None });

    let mut console_only = Logger::new(true, false);
    let out = console_only.log(&record);
    assert!(out.line.is_some());
    assert_eq!(out.packet, None);
    assert_eq!(Console::default().widths, Widths::new());
}

#[test]
fn record_that_is_too_large_is_not_sent() {
    let text = "x".repeat(8192 - 37);
    let fits = Record::new(SystemTime { nanos: 0 }, Level::Info, "", None, None, 1, 2, &text);
    assert_eq!(Logd.write(&fits).unwrap().len(), 8192);
    let long = "x".repeat(8192 - 36);
    let too_long = Record::new(SystemTime { nanos: 0 }, Level::Info, "", None, None, 1, 2, &long);
    let err = Logd.write(&too_long).unwrap_err();
    assert_eq!(err.io_kind(), Some(feo::error::IoErrorKind::InvalidInput));
    assert_eq!(err.description(), "record too large to encode");
    let split = Record::new(SystemTime { nanos: 0 }, Level::Info, &text, Some("f"), None, 1, 2, "");
    assert!(Logd.write(&split).is_err());
    let mut logger = Logger::new(false, true);
    assert_eq!(logger.log(&too_long).packet, None);
}

#[test]
fn level_filters_are_numbered_from_off() {
    assert_eq!(LevelFilter::from_u8(0), Some(LevelFilter::Off));
    assert_eq!(LevelFilter::from_u8(3), Some(LevelFilter::Info));
    assert_eq!(LevelFilter::from_u8(5), Some(LevelFilter::Trace));
    assert_eq!(LevelFilter::from_u8(6), None);
}
