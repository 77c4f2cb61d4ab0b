use anti_rec::paths::{push_decimal, recording_paths, timestamp_ms};
use anti_rec::session::{Action, Event, Phase, SessionController};

#[test]
fn full_session_lifecycle() {
    let mut c = SessionController::new();
    assert_eq!(c.phase(), Phase::Idle);
    assert!(!c.is_running());
    assert_eq!(c.step(Event::Start), Action::SpawnWorker);
    assert_eq!(c.phase(), Phase::Negotiating);
    assert!(c.is_running());
    assert_eq!(c.step(Event::Negotiated), Action::StartStreams);
    assert_eq!(c.phase(), Phase::Starting);
    assert_eq!(c.step(Event::Poll), Action::Nothing);
    assert_eq!(c.step(Event::StreamsStarted), Action::Nothing);
    assert_eq!(c.phase(), Phase::Streaming);
    assert_eq!(c.step(Event::Poll), Action::Sleep);
    assert_eq!(c.step(Event::Poll), Action::Sleep);
    assert_eq!(c.step(Event::Stop), Action::Nothing);
    assert_eq!(c.phase(), Phase::Streaming);
    assert_eq!(c.step(Event::Poll), Action::PauseStreams);
    assert_eq!(c.phase(), Phase::Draining);
    assert_eq!(c.step(Event::Paused), Action::FinalizeRecordings);
    assert_eq!(c.phase(), Phase::Idle);
    assert!(!c.is_running());
    assert_eq!(c.step(Event::Start), Action::SpawnWorker);
}

#[test]
fn start_while_active_is_rejected() {
    let mut c = SessionController::new();
    c.step(Event::Start);
    assert_eq!(c.step(Event::Start), Action::Reject);
    c.step(Event::Negotiated);
    assert_eq!(c.step(Event::Start), Action::Reject);
    assert_eq!(c.phase(), Phase::Starting);
    c.step(Event::StreamsStarted);
    assert_eq!(c.step(Event::Start), Action::Reject);
    assert_eq!(c.phase(), Phase::Streaming);
    c.step(Event::Stop);
    c.step(Event::Poll);
    assert_eq!(c.step(Event::Start), Action::Reject);
    assert_eq!(c.phase(), Phase::Draining);
}

#[test]
fn failed_negotiation_returns_to_idle() {
    let mut c = SessionController::new();
    c.step(Event::Start);
    assert_eq!(c.step(Event::NegotiationFailed), Action::Abort);
    assert_eq!(c.phase(), Phase::Idle);
    assert!(!c.is_running());
    assert_eq!(c.step(Event::Poll), Action::Nothing);
    assert_eq!(c.step(Event::Paused), Action::Nothing);
}

#[test]
fn stop_during_negotiation_aborts() {
    let mut c = SessionController::new();
    c.step(Event::Start);
    c.step(Event::Stop);
    assert_eq!(c.step(Event::Negotiated), Action::Abort);
    assert_eq!(c.phase(), Phase::Idle);
    assert_eq!(c.step(Event::StreamsStarted), Action::Nothing);
    assert_eq!(c.phase(), Phase::Idle);
}

#[test]
fn failed_stream_start_aborts_without_streaming() {
    let mut c = SessionController::new();
    c.step(Event::Start);
    assert_eq!(c.step(Event::StreamsStarted), Action::Nothing);
    assert_eq!(c.phase(), Phase::Negotiating);
    c.step(Event::Negotiated);
    assert_eq!(c.step(Event::StartFailed), Action::Abort);
    assert_eq!(c.phase(), Phase::Idle);
    assert!(!c.is_running());
    assert_eq!(c.step(Event::Start), Action::SpawnWorker);
}

#[test]
fn stop_while_starting_pauses_at_first_poll() {
    let mut c = SessionController::new();
    c.step(Event::Start);
    c.step(Event::Negotiated);
    c.step(Event::Stop);
    c.step(Event::StreamsStarted);
    assert_eq!(c.phase(), Phase::Streaming);
    assert_eq!(c.step(Event::Poll), Action::PauseStreams);
}

#[test]
fn decimal_formatting() {
    let mut s = String::from("x");
    push_decimal(&mut s, 0);
    push_decimal(&mut s, 7);
    push_decimal(&mut s, 1234567890);
    assert_eq!(s, "x071234567890");
    let mut t = String::new();
    push_decimal(&mut t, u64::MAX);
    assert_eq!(t, u64::MAX.to_string());
}

#[test]
fn timestamp_in_milliseconds() {
    assert_eq!(timestamp_ms(1_700_000_000, 123), Some(1_700_000_000_123));
    assert_eq!(timestamp_ms(0, 999), Some(999));
    assert_eq!(timestamp_ms(u64::MAX / 1000, 615), Some(u64::MAX));
    assert_eq!(timestamp_ms(u64::MAX / 1000, 616), None);
    assert_eq!(timestamp_ms(u64::MAX, 0), None);
}

#[test]
fn recording_paths_from_timestamp() {
    let (ori, new) = recording_paths("/home/u/.local/share", 1700000000123);
    assert_eq!(ori, "/home/u/.local/share/top.linjhs.anti-rec/waves/1700000000123_ori.wav");
    assert_eq!(new, "/home/u/.local/share/top.linjhs.anti-rec/waves/1700000000123_new.wav");
}
