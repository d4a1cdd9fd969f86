use mouse_share::clipboard::{
    applied_hash, frame_header, hash_of, msg_summary, observe_local, ClipboardMessage,
    ClipboardState, FrameProgress, FrameReader, SleepStep, SlicedSleep, MAX_MESSAGE_SIZE,
};
use std::collections::hash_map::DefaultHasher;
use std::hash::{Hash, Hasher};

fn text(s: &str) -> ClipboardMessage {
    ClipboardMessage::Text(s.to_string())
}

fn read_frame(bytes: &[u8], chunk: usize) -> FrameReader {
    let mut r = FrameReader::new();
    let mut at = 0;
    while let FrameProgress::NeedMore = r.progress() {
        let n = r.wanted().min(chunk).min(bytes.len() - at);
        r.push(&bytes[at..at + n]);
        at += n;
    }
    r
}

#[test]
fn header_is_big_endian_length() {
    assert_eq!(frame_header(5), vec![0, 0, 0, 5]);
    assert_eq!(frame_header(0x0102_0304), vec![1, 2, 3, 4]);
    assert_eq!(frame_header(300), vec![0, 0, 1, 44]);
}

#[test]
fn frame_round_trips_in_any_chunking() {
    let payload: Vec<u8> = (0..200u32).map(|i| (i * 7) as u8).collect();
    let mut frame = frame_header(payload.len());
    frame.extend_from_slice(&payload);
    for chunk in [1, 2, 3, 4, 5, 64, 1000] {
        let r = read_frame(&frame, chunk);
        assert!(matches!(r.progress(), FrameProgress::Complete));
        assert_eq!(r.into_payload(), payload);
    }
}

#[test]
fn reader_asks_for_header_then_payload() {
    let mut r = FrameReader::new();
    assert_eq!(r.wanted(), 4);
    r.push(&[0, 0]);
    assert_eq!(r.wanted(), 2);
    r.push(&[0, 3]);
    assert_eq!(r.wanted(), 3);
    r.push(&[9]);
    assert_eq!(r.wanted(), 2);
    r.push(&[8, 7]);
    assert!(matches!(r.progress(), FrameProgress::Complete));
    assert_eq!(r.into_payload(), vec![9, 8, 7]);
}

#[test]
fn empty_payload_is_complete_after_the_header() {
    let r = read_frame(&frame_header(0), 4);
    assert!(matches!(r.progress(), FrameProgress::Complete));
    assert!(r.into_payload().is_empty());
}

#[test]
fn oversized_frames_are_refused() {
    let too_big = MAX_MESSAGE_SIZE + 1;
    let mut r = FrameReader::new();
    r.push(&frame_header(too_big));
    match r.progress() {
        FrameProgress::TooLarge(n) => assert_eq!(n, too_big),
        _ => panic!("expected TooLarge"),
    }
    let mut ok = FrameReader::new();
    ok.push(&frame_header(MAX_MESSAGE_SIZE));
    assert!(matches!(ok.progress(), FrameProgress::NeedMore));
    assert_eq!(MAX_MESSAGE_SIZE, 64 * 1024 * 1024);
}

#[test]
fn equal_texts_hash_alike() {
    assert_eq!(hash_of(&text("hello")), hash_of(&text("hello")));
    assert_ne!(hash_of(&text("hello")), hash_of(&text("hellp")));
    assert_eq!(applied_hash(&text("x")), Some(hash_of(&text("x"))));
}

#[test]
fn hash_is_the_derived_hash_of_the_message() {
    let m = text("clipboard contents");
    let mut h = DefaultHasher::new();
    m.hash(&mut h);
    assert_eq!(hash_of(&m), h.finish());
}

#[test]
fn new_text_is_sent_once() {
    let (last, msg) = observe_local(None, Some("hello".to_string()));
    assert_eq!(last, Some(hash_of(&text("hello"))));
    match msg {
        Some(ClipboardMessage::Text(t)) => assert_eq!(t, "hello"),
        None => panic!("expected a message"),
    }
    let (again, msg) = observe_local(last, Some("hello".to_string()));
    assert_eq!(again, last);
    assert!(msg.is_none());
}

#[test]
fn applied_text_is_not_echoed() {
    let last = applied_hash(&text("from peer"));
    let (after, msg) = observe_local(last, Some("from peer".to_string()));
    assert!(msg.is_none());
    assert_eq!(after, last);
    let (after, msg) = observe_local(last, Some("local edit".to_string()));
    assert!(msg.is_some());
    assert_eq!(after, Some(hash_of(&text("local edit"))));
}

#[test]
fn empty_or_unreadable_clipboard_sends_nothing() {
    let last = Some(42);
    let (a, m) = observe_local(last, Some(String::new()));
    assert_eq!(a, last);
    assert!(m.is_none());
    let (a, m) = observe_local(last, None);
    assert_eq!(a, last);
    assert!(m.is_none());
}

#[test]
fn summary_shows_size_and_preview() {
    assert_eq!(msg_summary(&text("hello")), "Text(5 chars: \"hello\")");
    assert_eq!(
        msg_summary(&text("abcdefghijklmnopqrstuvwxyz")),
        "Text(26 chars: \"abcdefghijklmnopqrst\")"
    );
    assert_eq!(msg_summary(&text("a\"b\n")), "Text(4 chars: \"a\\\"b\\n\")");
    assert_eq!(msg_summary(&text("你好")), "Text(6 chars: \"你好\")");
    assert_eq!(msg_summary(&text("")), "Text(0 chars: \"\")");
}

#[test]
fn state_starts_without_a_hash() {
    let st = ClipboardState::new();
    assert_eq!(*st.last_hash().lock().unwrap(), None);
}

#[test]
fn sliced_sleep_runs_to_the_end() {
    let mut s = SlicedSleep::new(120);
    assert_eq!(s.next(false), SleepStep::Slice);
    assert_eq!(s.next(false), SleepStep::Slice);
    assert_eq!(s.next(false), SleepStep::Slice);
    assert_eq!(s.elapsed_ms, 150);
    assert_eq!(s.next(false), SleepStep::Stop(false));
}

#[test]
fn sliced_sleep_stops_on_shutdown() {
    let mut s = SlicedSleep::new(2000);
    assert_eq!(s.next(false), SleepStep::Slice);
    assert_eq!(s.next(true), SleepStep::Stop(true));
    let mut done = SlicedSleep::new(0);
    assert_eq!(done.next(true), SleepStep::Stop(true));
}

#[test]
fn sliced_sleep_saturates_on_the_longest_total() {
    let mut s = SlicedSleep::new(u64::MAX);
    s.elapsed_ms = u64::MAX - 10;
    assert_eq!(s.next(false), SleepStep::Slice);
    assert_eq!(s.elapsed_ms, u64::MAX);
    assert_eq!(s.next(false), SleepStep::Stop(false));
}
