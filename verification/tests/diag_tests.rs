use crust::diag::{diagnostic_bytes, panic_handler, Location, PanicRecord};
use crust::stream::Stream;

fn record(loc: Option<(&str, u32)>, msg: Option<&str>) -> PanicRecord {
    PanicRecord {
        location: loc.map(|(file, line)| Location { file: file.as_bytes().to_vec(), line }),
        message: msg.map(|m| m.as_bytes().to_vec()),
    }
}

#[test]
fn diagnostic_with_location_and_message() {
    let rec = record(Some(("example.src", 42)), Some("bad state"));
    let mut err = Stream::new();
    panic_handler(&rec, &mut err);
    assert_eq!(err.bytes(), &b"example.src:42: panicked: bad state\n".to_vec());
}

#[test]
fn diagnostic_with_neither_part() {
    let rec = record(None, None);
    let mut err = Stream::new();
    panic_handler(&rec, &mut err);
    assert_eq!(err.bytes(), &b"panicked\n".to_vec());
}

#[test]
fn diagnostic_with_location_only() {
    let rec = record(Some(("example.src", 42)), None);
    let mut err = Stream::new();
    panic_handler(&rec, &mut err);
    assert_eq!(err.bytes(), &b"example.src:42: panicked\n".to_vec());
}

#[test]
fn diagnostic_with_message_only() {
    let rec = record(None, Some("bad state"));
    let mut err = Stream::new();
    panic_handler(&rec, &mut err);
    assert_eq!(err.bytes(), &b"panicked: bad state\n".to_vec());
}

#[test]
fn diagnostic_builder_matches_handler_output() {
    let rec = record(Some(("src/lib.rs", 7)), Some("index out of range"));
    let line = diagnostic_bytes(&rec);
    let mut err = Stream::new();
    panic_handler(&rec, &mut err);
    assert_eq!(err.bytes(), &line);
}

#[test]
fn handler_appends_after_earlier_output() {
    let rec = record(None, None);
    let mut err = Stream::new();
    err.write_bytes(&b"warning: low\n".to_vec());
    panic_handler(&rec, &mut err);
    assert_eq!(err.bytes(), &b"warning: low\npanicked\n".to_vec());
}

#[test]
fn failed_error_stream_swallows_the_line() {
    let rec = record(Some(("example.src", 42)), Some("bad state"));
    let mut err = Stream::failed();
    panic_handler(&rec, &mut err);
    assert!(err.bytes().is_empty());
}
