use crust::decimal::u32_decimal;
use crust::stream::Stream;

#[test]
fn decimal_zero_is_one_digit() {
    assert_eq!(u32_decimal(0), vec![48u8]);
}

#[test]
fn decimal_renders_forty_two() {
    assert_eq!(u32_decimal(42), b"42".to_vec());
}

#[test]
fn decimal_renders_largest_value() {
    assert_eq!(u32_decimal(u32::MAX), b"4294967295".to_vec());
}

#[test]
fn decimal_keeps_inner_zero_digits() {
    assert_eq!(u32_decimal(407), b"407".to_vec());
    assert_eq!(u32_decimal(1000), b"1000".to_vec());
}

#[test]
fn write_reads_back_exact_bytes() {
    let mut s = Stream::new();
    let data = b"format output\0with arguments".to_vec();
    let written = s.write_bytes(&data);
    assert_eq!(written, data.len() as i32);
    assert_eq!(s.bytes(), &data);
}

#[test]
fn round_trip_after_prior_writes_returns_the_new_suffix() {
    let mut s = Stream::new();
    let first = b"count: ".to_vec();
    let second = b"12 items".to_vec();
    s.write_bytes(&first);
    let before = s.bytes().len();
    s.write_bytes(&second);
    let all = s.bytes();
    assert_eq!(&all[..before], &first[..]);
    assert_eq!(&all[before..], &second[..]);
}

#[test]
fn write_decimal_appends_the_digits() {
    let mut s = Stream::new();
    s.write_bytes(&b"line ".to_vec());
    let written = s.write_decimal(407);
    assert_eq!(written, 3);
    assert_eq!(s.bytes(), &b"line 407".to_vec());
}

#[test]
fn failed_sink_reports_negative_and_writes_nothing() {
    let mut s = Stream::failed();
    let r = s.write_bytes(&b"lost".to_vec());
    assert_eq!(r, -1);
    assert!(s.bytes().is_empty());
    let r2 = s.write_decimal(7);
    assert_eq!(r2, -1);
    assert!(s.bytes().is_empty());
}

#[test]
fn empty_write_returns_zero() {
    let mut s = Stream::new();
    let r = s.write_bytes(&Vec::new());
    assert_eq!(r, 0);
    assert!(s.bytes().is_empty());
}
