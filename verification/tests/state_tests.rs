use mouse_share::log_buffer::{absorb, LogLine, LogReceiver};
use mouse_share::net::state::{millis_or_zero, now_ms, SharedState};
use std::sync::atomic::Ordering;

#[test]
fn fresh_shared_state() {
    let s = SharedState::new();
    assert!(!s.shutdown.load(Ordering::SeqCst));
    assert!(!s.connected.load(Ordering::SeqCst));
    assert!(!s.mouse_on_peer.load(Ordering::SeqCst));
    assert_eq!(s.last_event_ms.load(Ordering::SeqCst), 0);
    assert_eq!(s.last_heartbeat_ms.load(Ordering::SeqCst), 0);
    assert_eq!(s.started_ms.load(Ordering::SeqCst), 0);
    assert_eq!(s.peer_addr(), None);
    assert_eq!(s.last_error(), None);
}

#[test]
fn default_shared_state_is_fresh() {
    let s = SharedState::default();
    assert!(!s.shutdown.load(Ordering::SeqCst));
    assert!(!s.connected.load(Ordering::SeqCst));
    assert_eq!(s.started_ms.load(Ordering::SeqCst), 0);
    assert_eq!(s.peer_addr(), None);
}

#[test]
fn errors_and_peer_are_recorded() {
    let s = SharedState::new();
    s.set_error("port in use".to_string());
    assert_eq!(s.last_error().as_deref(), Some("port in use"));
    s.clear_error();
    assert_eq!(s.last_error(), None);
    s.set_peer("10.0.0.2:4242");
    assert_eq!(s.peer_addr().as_deref(), Some("10.0.0.2:4242"));
}

#[test]
fn clock_reads_after_2020() {
    assert!(now_ms() > 1_577_836_800_000);
}

#[test]
fn millis_conversion() {
    assert_eq!(millis_or_zero(None), 0);
    assert_eq!(millis_or_zero(Some(1234)), 1234);
    assert_eq!(millis_or_zero(Some((1u128 << 64) + 5)), 5);
}

#[test]
fn drain_collects_waiting_lines_in_order() {
    let (tx, rx) = tokio::sync::mpsc::channel(1000);
    let mut recv = LogReceiver::from_channel(rx);
    for i in 0..3u64 {
        tx.try_send(LogLine { ts_ms: i, level: log::Level::Info, message: format!("line {i}") }).unwrap();
    }
    let mut out = vec![LogLine { ts_ms: 99, level: log::Level::Warn, message: "kept".to_string() }];
    recv.drain(&mut out);
    assert_eq!(out.len(), 4);
    assert_eq!(out[0].message, "kept");
    assert_eq!(out[1].message, "line 0");
    assert_eq!(out[3].ts_ms, 2);
    recv.drain(&mut out);
    assert_eq!(out.len(), 4);
}

#[test]
fn absorb_appends_a_received_line_and_stops_on_none() {
    let mut out = vec![LogLine { ts_ms: 1, level: log::Level::Info, message: "a".to_string() }];
    let more = absorb(&mut out, Some(LogLine { ts_ms: 2, level: log::Level::Error, message: "b".to_string() }));
    assert!(more);
    assert_eq!(out.len(), 2);
    assert_eq!(out[1].message, "b");
    assert_eq!(out[1].level, log::Level::Error);
    assert!(!absorb(&mut out, None));
    assert_eq!(out.len(), 2);
}
