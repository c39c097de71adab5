use odrive_rs::commands::ODrive;
use odrive_rs::enumerations::{Axis, AxisState};
use odrive_rs::stream::{MemoryStream, StreamError};
use odrive_rs::text::Token;
use odrive_rs::timer::SteppingTimer;

fn client(script: &[u8]) -> ODrive<MemoryStream, SteppingTimer> {
    ODrive::new(MemoryStream::new(script.to_vec()), SteppingTimer::new(100))
}

fn token(text: &str) -> Token {
    Token::from_text(text).expect("not a printable argument")
}

#[test]
fn set_position_p_renders_omitted_feed_forward_as_zero() {
    let mut od = client(b"");
    od.set_position_p(Axis::Zero, &token("1.5"), None, None)
        .unwrap();
    assert_eq!(od.io_stream.written, b"p 0 1.5 0 0\n".to_vec());
}

#[test]
fn set_position_p_renders_given_feed_forward() {
    let mut od = client(b"");
    let vel = token("2");
    let cur = token("3.25");
    od.set_position_p(Axis::One, &token("-1.5"), Some(&vel), Some(&cur))
        .unwrap();
    assert_eq!(od.io_stream.written, b"p 1 -1.5 2 3.25\n".to_vec());
}

#[test]
fn set_position_q_renders_limits() {
    let mut od = client(b"");
    let vel = token("5");
    od.set_position_q(Axis::Zero, &token("-3"), Some(&vel), None)
        .unwrap();
    assert_eq!(od.io_stream.written, b"q 0 -3 5 0\n".to_vec());
}

#[test]
fn set_velocity_renders() {
    let mut od = client(b"");
    od.set_velocity(Axis::One, &token("2.5"), None).unwrap();
    assert_eq!(od.io_stream.written, b"v 1 2.5 0\n".to_vec());
}

#[test]
fn set_current_renders() {
    let mut od = client(b"");
    od.set_current(Axis::Zero, &token("0.5")).unwrap();
    assert_eq!(od.io_stream.written, b"c 0 0.5\n".to_vec());
}

#[test]
fn set_trajectory_renders() {
    let mut od = client(b"");
    od.set_trajectory(Axis::One, &token("10000")).unwrap();
    assert_eq!(od.io_stream.written, b"t 1 10000\n".to_vec());
}

#[test]
fn write_failure_is_propagated() {
    let mut od = client(b"");
    od.io_stream.fail_writes = true;
    od.io_stream.fault_code = 7;
    let r = od.set_current(Axis::Zero, &token("1"));
    assert_eq!(r, Err(StreamError { code: 7 }));
}

#[test]
fn flush_failure_is_propagated() {
    let mut od = client(b"");
    od.io_stream.fail_flush = true;
    od.io_stream.fault_code = 3;
    let r = od.set_trajectory(Axis::Zero, &token("1"));
    assert_eq!(r, Err(StreamError { code: 3 }));
}

#[test]
fn get_velocity_is_one_exchange() {
    let mut od = client(b"3.25\n");
    let line = od.get_velocity(Axis::Zero).unwrap();
    assert_eq!(od.io_stream.written, b"r axis0.encoder.vel_estimate\n".to_vec());
    assert_eq!(line, "3.25");
    let value: f32 = line.parse().unwrap_or_default();
    assert_eq!(value, 3.25);
}

#[test]
fn get_velocity_write_failure_skips_the_read() {
    let mut od = client(b"3.25\n");
    od.io_stream.fail_writes = true;
    od.io_stream.fault_code = 11;
    let r = od.get_velocity(Axis::Zero);
    assert_eq!(r, Err(StreamError { code: 11 }));
    assert_eq!(od.io_stream.delivered, 0);
}

#[test]
fn raw_write_and_read_pass_through() {
    let mut od = client(b"hi");
    od.write(b"raw").unwrap();
    od.flush().unwrap();
    assert_eq!(od.io_stream.written, b"raw".to_vec());
    assert_eq!(od.read().unwrap(), Some(b'h'));
    assert_eq!(od.read().unwrap(), Some(b'i'));
    assert_eq!(od.read().unwrap(), None);
}

#[test]
fn run_state_without_wait_returns_after_one_write() {
    let mut od = client(b"0\n0\n0\n");
    let done = od
        .run_state(Axis::Zero, AxisState::new(8), false)
        .unwrap();
    assert!(done);
    assert_eq!(od.io_stream.written, b"w axis0.requested_state 8\n".to_vec());
    assert_eq!(od.io_stream.delivered, 0);
    assert_eq!(od.timer.slept_ms, 0);
}

#[test]
fn run_state_sees_idle_after_one_poll() {
    let mut od = client(b"1\n");
    let done = od.run_state(Axis::One, AxisState::new(3), true).unwrap();
    assert!(done);
    assert_eq!(od.timer.slept_ms, 100);
    let mut expected = b"w axis1.requested_state 3\n".to_vec();
    expected.extend_from_slice(b"r axis1.current_state\n");
    assert_eq!(od.io_stream.written, expected);
}

#[test]
fn run_state_exhausts_its_poll_budget() {
    let mut script = Vec::new();
    for _ in 0..100 {
        script.extend_from_slice(b"0\n");
    }
    let mut od = client(&script);
    let done = od.run_state(Axis::Zero, AxisState::new(8), true).unwrap();
    assert!(!done);
    assert_eq!(od.timer.slept_ms, 10_000);
    let mut expected = b"w axis0.requested_state 8\n".to_vec();
    for _ in 0..100 {
        expected.extend_from_slice(b"r axis0.current_state\n");
    }
    assert_eq!(od.io_stream.written, expected);
    assert_eq!(od.io_stream.delivered, 200);
}

#[test]
fn run_state_idle_on_the_last_poll_is_still_a_timeout() {
    let mut script = Vec::new();
    for _ in 0..99 {
        script.extend_from_slice(b"0\n");
    }
    script.extend_from_slice(b"1\n");
    let mut od = client(&script);
    let done = od.run_state(Axis::Zero, AxisState::new(8), true).unwrap();
    assert!(!done);
    assert_eq!(od.io_stream.delivered, 200);
}

#[test]
fn run_state_write_failure_is_propagated() {
    let mut od = client(b"");
    od.io_stream.fail_writes = true;
    od.io_stream.fault_code = 5;
    let r = od.run_state(Axis::Zero, AxisState::new(8), true);
    assert_eq!(r, Err(StreamError { code: 5 }));
}
