use mouse_share::net::client::{
    server_silent, warp_wait, Client, ClientAction, ClientFsm, Handshake, HandshakeReply,
    HandshakeVerdict, PeerMessage, HELLO_ATTEMPTS,
};
use mouse_share::protocol::{MouseButton, ScreenInfo};


fn started() -> ClientFsm {
    let (fsm, acts) = ClientFsm::start(0);
    assert_eq!(acts, vec![ClientAction::HideCursor]);
    fsm
}

fn active() -> ClientFsm {
    let mut fsm = started();
    fsm.on_message(PeerMessage::Enter);
    fsm
}

#[test]
fn client_keeps_the_server_address() {
    let c = Client::new("192.168.1.100:4242".to_string());
    assert_eq!(c.server_addr(), "192.168.1.100:4242");
}

#[test]
fn the_cursor_starts_hidden() {
    let fsm = started();
    assert!(!fsm.active);
    assert!(fsm.cursor_hidden);
    assert!(!fsm.have_move);
}

#[test]
fn enter_shows_the_cursor_and_teleports() {
    let mut fsm = started();
    assert_eq!(fsm.on_message(PeerMessage::Enter), vec![ClientAction::PeerOn, ClientAction::SetPosition, ClientAction::ShowCursor, ClientAction::MoveTo]);
    assert!(fsm.active);
    assert!(!fsm.cursor_hidden);
    assert_eq!(fsm.on_message(PeerMessage::Enter), vec![ClientAction::PeerOn, ClientAction::SetPosition, ClientAction::MoveTo]);
}

#[test]
fn leave_hides_the_cursor_once() {
    let mut fsm = active();
    assert_eq!(fsm.on_message(PeerMessage::Leave), vec![ClientAction::PeerOff, ClientAction::HideCursor]);
    assert!(fsm.cursor_hidden);
    assert_eq!(fsm.on_message(PeerMessage::Leave), vec![ClientAction::PeerOff]);
}

#[test]
fn remote_input_is_ignored_while_the_mouse_is_on_the_server() {
    let mut fsm = started();
    for m in [
        PeerMessage::KeyInput,
        PeerMessage::Move,
        PeerMessage::ButtonDown(MouseButton::Left),
        PeerMessage::ButtonUp(MouseButton::Left),
        PeerMessage::Scroll,
    ] {
        assert!(fsm.on_message(m).is_empty());
    }
    assert!(!fsm.have_move);
}

#[test]
fn moves_accumulate_and_clicks_flush_them_first() {
    let mut fsm = active();
    assert_eq!(fsm.on_message(PeerMessage::Move), vec![ClientAction::RecordEvent, ClientAction::Accumulate]);
    assert_eq!(fsm.on_message(PeerMessage::Move), vec![ClientAction::RecordEvent, ClientAction::Accumulate]);
    assert!(fsm.have_move);
    assert_eq!(
        fsm.on_message(PeerMessage::ButtonDown(MouseButton::Right)),
        vec![ClientAction::RecordEvent, ClientAction::FlushMove, ClientAction::ButtonDown(MouseButton::Right)]
    );
    assert!(!fsm.have_move);
    assert_eq!(
        fsm.on_message(PeerMessage::ButtonUp(MouseButton::Right)),
        vec![ClientAction::RecordEvent, ClientAction::ButtonUp(MouseButton::Right)]
    );
    fsm.on_message(PeerMessage::Move);
    assert_eq!(fsm.on_message(PeerMessage::Scroll), vec![ClientAction::RecordEvent, ClientAction::FlushMove, ClientAction::Scroll]);
}

#[test]
fn keys_are_replayed_while_active() {
    let mut fsm = active();
    assert_eq!(fsm.on_message(PeerMessage::KeyInput), vec![ClientAction::SimulateKey, ClientAction::RecordEvent]);
}

#[test]
fn enter_and_leave_flush_pending_moves() {
    let mut fsm = active();
    fsm.on_message(PeerMessage::Move);
    assert_eq!(fsm.on_message(PeerMessage::Enter), vec![ClientAction::FlushMove, ClientAction::PeerOn, ClientAction::SetPosition, ClientAction::MoveTo]);
    fsm.on_message(PeerMessage::Move);
    assert_eq!(fsm.on_message(PeerMessage::Leave), vec![ClientAction::FlushMove, ClientAction::PeerOff, ClientAction::HideCursor]);
}

#[test]
fn heartbeats_are_recorded_in_any_state() {
    let mut fsm = started();
    assert_eq!(fsm.on_message(PeerMessage::Heartbeat), vec![ClientAction::RecordHeartbeat]);
    assert!(fsm.on_message(PeerMessage::Other).is_empty());
}

#[test]
fn drain_end_flushes_once() {
    let mut fsm = active();
    fsm.on_message(PeerMessage::Move);
    assert!(fsm.end_of_drain());
    assert!(!fsm.end_of_drain());
}

#[test]
fn exit_shows_a_hidden_cursor() {
    assert_eq!(started().on_exit(), vec![ClientAction::PeerOff, ClientAction::ShowCursor]);
    assert_eq!(active().on_exit(), vec![ClientAction::PeerOff]);
}

#[test]
fn client_heartbeat_once_a_second() {
    let mut fsm = started();
    assert!(!fsm.heartbeat_due(1_000_000_000));
    assert!(fsm.heartbeat_due(1_000_000_001));
    assert!(!fsm.heartbeat_due(1_000_000_002));
}

#[test]
fn server_silence_needs_a_first_heartbeat_and_five_seconds() {
    assert!(!server_silent(0, 1_000_000));
    assert!(!server_silent(1000, 6000));
    assert!(server_silent(1000, 6001));
    // A clock that went backwards wraps around, as unsigned subtraction does.
    assert!(server_silent(10_000, 9_999));
}

#[test]
fn warps_wait_out_the_rest_of_the_interval() {
    assert_eq!(warp_wait(2_000_000, 8_333_333), 6_333_333);
    assert_eq!(warp_wait(8_333_333, 8_333_333), 0);
    assert_eq!(warp_wait(9_000_000, 8_333_333), 0);
}

#[test]
fn hello_is_tried_ten_times() {
    let mut h = Handshake::new();
    let mut n = 0;
    while h.next_attempt() {
        n += 1;
    }
    assert_eq!(n, HELLO_ATTEMPTS);
    assert_eq!(n, 10);
}

#[test]
fn handshake_replies() {
    let s = ScreenInfo { width: 2056, height: 1329 };
    assert_eq!(Handshake::on_reply(HandshakeReply::Ack(s)), HandshakeVerdict::Connected(s));
    assert_eq!(Handshake::on_reply(HandshakeReply::Other), HandshakeVerdict::KeepWaiting);
    assert_eq!(Handshake::on_reply(HandshakeReply::Nothing), HandshakeVerdict::KeepWaiting);
    assert_eq!(Handshake::on_reply(HandshakeReply::Failed), HandshakeVerdict::Fail);
}
