use odrive_rs::commands::ODrive;
use odrive_rs::stream::{MemoryStream, StreamError};
use odrive_rs::text::Token;
use odrive_rs::timer::SteppingTimer;

fn reader(script: &[u8], step_ms: u64) -> ODrive<MemoryStream, SteppingTimer> {
    ODrive::new(MemoryStream::new(script.to_vec()), SteppingTimer::new(step_ms))
}

#[test]
fn read_string_returns_the_trimmed_line() {
    let mut od = reader(b"1.5\n", 100);
    let line = od.read_string().unwrap();
    assert_eq!(line, "1.5");
    let value: f32 = line.parse().unwrap_or_default();
    assert_eq!(value, 1.5);
}

#[test]
fn read_string_trims_surrounding_whitespace() {
    let mut od = reader(b" \t hi there \r\n", 100);
    assert_eq!(od.read_string().unwrap(), "hi there");
}

#[test]
fn read_string_times_out_at_the_deadline() {
    let mut od = reader(b"abc", 250);
    let line = od.read_string().unwrap();
    assert_eq!(line, "abc");
    assert_eq!(od.timer.elapsed_ms, 1000);
}

#[test]
fn read_string_empty_timeout_is_not_an_error() {
    let mut od = reader(b"", 1000);
    assert_eq!(od.read_string().unwrap(), "");
    assert_eq!(od.timer.elapsed_ms, 1000);
}

#[test]
fn read_string_timeout_trims_the_partial_line() {
    let mut od = reader(b" x ", 500);
    assert_eq!(od.read_string().unwrap(), "x");
}

#[test]
fn read_string_reads_line_by_line() {
    let mut od = reader(b"first\nsecond\n", 100);
    assert_eq!(od.read_string().unwrap(), "first");
    assert_eq!(od.read_string().unwrap(), "second");
}

#[test]
fn read_error_is_propagated() {
    let mut od = reader(b"1\n", 100);
    od.io_stream.fail_reads = true;
    od.io_stream.fault_code = 9;
    assert_eq!(od.read_string(), Err(StreamError { code: 9 }));
}

#[test]
fn read_int_parses_plain_values() {
    let mut od = reader(b"42\n-17\n+8\n0\n", 100);
    assert_eq!(od.read_int().unwrap(), 42);
    assert_eq!(od.read_int().unwrap(), -17);
    assert_eq!(od.read_int().unwrap(), 8);
    assert_eq!(od.read_int().unwrap(), 0);
}

#[test]
fn read_int_accepts_the_extreme_values() {
    let mut od = reader(b"2147483647\n-2147483648\n", 100);
    assert_eq!(od.read_int().unwrap(), i32::MAX);
    assert_eq!(od.read_int().unwrap(), i32::MIN);
}

#[test]
fn read_int_overflow_falls_back_to_zero() {
    let mut od = reader(b"2147483648\n-2147483649\n99999999999999999999\n", 100);
    assert_eq!(od.read_int().unwrap(), 0);
    assert_eq!(od.read_int().unwrap(), 0);
    assert_eq!(od.read_int().unwrap(), 0);
}

#[test]
fn read_int_non_numeric_falls_back_to_zero() {
    let mut od = reader(b"ERR\n", 100);
    assert_eq!(od.read_int().unwrap(), 0);
    let as_float: f32 = "ERR".parse().unwrap_or_default();
    assert_eq!(as_float, 0.0);
}

#[test]
fn read_int_rejects_inner_garbage() {
    let mut od = reader(b"4 2\n1.5\n--3\n\n", 100);
    assert_eq!(od.read_int().unwrap(), 0);
    assert_eq!(od.read_int().unwrap(), 0);
    assert_eq!(od.read_int().unwrap(), 0);
    assert_eq!(od.read_int().unwrap(), 0);
}

#[test]
fn token_accepts_printable_text_only() {
    assert!(Token::from_text("1.5").is_some());
    assert!(Token::from_text("encoder.vel_estimate").is_some());
    assert!(Token::from_text("").is_none());
    assert!(Token::from_text("a b").is_none());
    assert!(Token::from_text("1\n").is_none());
}

#[test]
fn token_zero_renders_as_a_single_digit() {
    assert_eq!(Token::zero().as_bytes(), &vec![b'0']);
}
