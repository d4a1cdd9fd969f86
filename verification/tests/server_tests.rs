use mouse_share::config::{Edge, ScreenConfig};
use mouse_share::net::server::{
    ack_screen, on_client_packet, on_hello_wait, CapturedEvent, ClientPacket, ClientPacketAction,
    HelloWait, HelloWaitVerdict, InputKind, release_on_abort, ReturnTracker, Server, ServerAction, ServerFsm, RETURN_ARM_DISTANCE,
};
use mouse_share::protocol::ScreenInfo;


fn config(edge: Edge, w: u32, h: u32) -> ScreenConfig {
    let mut c = ScreenConfig::new(ScreenInfo { width: 1920, height: 1080 }, edge);
    c.client_screen = Some(ScreenInfo { width: w, height: h });
    c
}

fn mv(dx: i64, dy: i64) -> CapturedEvent {
    CapturedEvent { kind: InputKind::Move { dx, dy }, at_edge: false }
}

fn at_edge(kind: InputKind) -> CapturedEvent {
    CapturedEvent { kind, at_edge: true }
}

fn ev(kind: InputKind) -> CapturedEvent {
    CapturedEvent { kind, at_edge: false }
}

fn entered(edge: Edge, w: u32, h: u32) -> ServerFsm {
    let mut fsm = ServerFsm::new(&config(edge, w, h), 0);
    let acts = fsm.plan_batch(&vec![at_edge(InputKind::Move { dx: 0, dy: 0 })], 0);
    assert_eq!(acts, vec![ServerAction::SuppressOn, ServerAction::PeerOn, ServerAction::HideCursor, ServerAction::SendEnter { event: 0 }]);
    fsm
}

#[test]
fn server_accessors_and_clipboard_port() {
    let s = Server::new(4242, Edge::Right);
    assert_eq!(s.port(), 4242);
    assert_eq!(s.edge(), Edge::Right);
    assert_eq!(s.clipboard_port(), 4243);
}

#[test]
fn new_state_is_idle() {
    let fsm = ServerFsm::new(&config(Edge::Right, 2560, 1440), 7);
    assert!(!fsm.forwarding);
    assert!(!fsm.cursor_hidden);
    assert_eq!(fsm.extent, 2560);
    assert_eq!(fsm.last_forward_ns, 7);
    assert_eq!(fsm.last_heartbeat_ns, 7);
    assert_eq!(fsm.tracker, ReturnTracker { entry: 0, pos: 0, armed: false });
    let left = ServerFsm::new(&config(Edge::Left, 2560, 1440), 7);
    assert_eq!(left.tracker, ReturnTracker { entry: 2559, pos: 2559, armed: false });
}

#[test]
fn extent_follows_the_crossing_axis_and_falls_back_to_the_server_screen() {
    let fsm = ServerFsm::new(&config(Edge::Top, 2560, 1440), 0);
    assert_eq!(fsm.extent, 1440);
    let own = ScreenConfig::new(ScreenInfo { width: 1920, height: 1080 }, Edge::Left);
    let fsm = ServerFsm::new(&own, 0);
    assert_eq!(fsm.extent, 1920);
}

#[test]
fn reaching_the_edge_enters_the_client() {
    let mut fsm = ServerFsm::new(&config(Edge::Right, 2560, 1440), 0);
    let acts = fsm.plan_batch(&vec![mv(3, 0), at_edge(InputKind::Move { dx: 5, dy: 0 })], 10);
    assert_eq!(acts, vec![ServerAction::SuppressOn, ServerAction::PeerOn, ServerAction::HideCursor, ServerAction::SendEnter { event: 1 }]);
    assert!(fsm.forwarding);
    assert!(fsm.cursor_hidden);
    assert_eq!(fsm.tracker.entry, 0);
    assert_eq!(fsm.tracker.pos, 0);
    assert!(!fsm.tracker.armed);
    assert_eq!(fsm.last_forward_ns, 10);
}

#[test]
fn entry_position_on_each_edge() {
    assert_eq!(entered(Edge::Right, 2560, 1440).tracker.entry, 0);
    assert_eq!(entered(Edge::Left, 2560, 1440).tracker.entry, 2559);
    assert_eq!(entered(Edge::Bottom, 2560, 1440).tracker.entry, 0);
    assert_eq!(entered(Edge::Top, 2560, 1440).tracker.entry, 1439);
}

#[test]
fn consecutive_moves_are_coalesced() {
    let mut fsm = entered(Edge::Right, 2560, 1440);
    let acts = fsm.plan_batch(&vec![mv(3, 1), mv(4, -2), mv(5, 0)], 1);
    assert_eq!(acts, vec![ServerAction::SendMove { dx: 12, dy: -1 }]);
    assert_eq!(fsm.tracker.pos, 12);
    assert!(!fsm.tracker.armed);
}

#[test]
fn buttons_flush_pending_moves_first() {
    let mut fsm = entered(Edge::Right, 2560, 1440);
    let acts = fsm.plan_batch(&vec![mv(10, 0), ev(InputKind::Button), mv(2, 0), ev(InputKind::Scroll)], 1);
    assert_eq!(
        acts,
        vec![ServerAction::SendMove { dx: 10, dy: 0 }, ServerAction::ForwardMouse { event: 1 }, ServerAction::SendMove { dx: 2, dy: 0 }, ServerAction::ForwardMouse { event: 3 }]
    );
}

#[test]
fn keys_stay_local_while_the_mouse_is_on_the_server() {
    let mut fsm = ServerFsm::new(&config(Edge::Right, 2560, 1440), 0);
    let acts = fsm.plan_batch(&vec![ev(InputKind::Key), ev(InputKind::Key)], 1);
    assert!(acts.is_empty());
    assert!(!fsm.forwarding);
}

#[test]
fn keys_are_forwarded_in_order_while_forwarding() {
    let mut fsm = entered(Edge::Right, 2560, 1440);
    let acts = fsm.plan_batch(&vec![mv(1, 0), ev(InputKind::Key), mv(1, 1)], 3);
    assert_eq!(acts, vec![ServerAction::SendMove { dx: 1, dy: 0 }, ServerAction::ForwardKey { event: 1 }, ServerAction::SendMove { dx: 1, dy: 1 }]);
    assert_eq!(fsm.last_forward_ns, 3);
}

#[test]
fn going_in_and_back_returns_control() {
    let mut fsm = ServerFsm::new(&config(Edge::Right, 2560, 1440), 0);
    let acts = fsm.plan_batch(&vec![at_edge(InputKind::Move { dx: 1, dy: 0 }), mv(25, 0), mv(-25, 0)], 0);
    assert_eq!(
        acts,
        vec![
            ServerAction::SuppressOn,
            ServerAction::PeerOn,
            ServerAction::HideCursor,
            ServerAction::SendEnter { event: 0 },
            ServerAction::SendMove { dx: 25, dy: 0 },
            ServerAction::SuppressOff,
            ServerAction::PeerOff,
            ServerAction::ShowCursor,
            ServerAction::SendLeave { strict: true },
        ]
    );
    assert!(!fsm.forwarding);
    assert!(!fsm.cursor_hidden);
}

#[test]
fn turning_straight_back_after_entry_keeps_forwarding() {
    let mut fsm = ServerFsm::new(&config(Edge::Right, 2560, 1440), 0);
    let acts = fsm.plan_batch(&vec![at_edge(InputKind::Move { dx: 1, dy: 0 }), mv(-30, 0)], 0);
    assert_eq!(acts, vec![ServerAction::SuppressOn, ServerAction::PeerOn, ServerAction::HideCursor, ServerAction::SendEnter { event: 0 }, ServerAction::SendMove { dx: -30, dy: 0 }]);
    assert!(fsm.forwarding);
    assert_eq!(fsm.tracker.pos, 0);
}

#[test]
fn arming_needs_the_full_distance() {
    let mut fsm = entered(Edge::Right, 2560, 1440);
    fsm.plan_batch(&vec![mv(RETURN_ARM_DISTANCE - 1, 0)], 1);
    assert!(!fsm.tracker.armed);
    let acts = fsm.plan_batch(&vec![mv(-100, 0)], 2);
    assert!(fsm.forwarding);
    assert_eq!(acts, vec![ServerAction::SendMove { dx: -100, dy: 0 }]);
    fsm.plan_batch(&vec![mv(RETURN_ARM_DISTANCE, 0)], 3);
    assert!(fsm.tracker.armed);
    let acts = fsm.plan_batch(&vec![mv(-RETURN_ARM_DISTANCE, 0)], 4);
    assert!(!fsm.forwarding);
    assert_eq!(acts.last(), Some(&ServerAction::SendLeave { strict: true }));
}

#[test]
fn the_virtual_cursor_stays_on_the_client_screen() {
    let mut fsm = entered(Edge::Right, 2560, 1440);
    fsm.plan_batch(&vec![mv(5000, 0)], 1);
    assert_eq!(fsm.tracker.pos, 2559);
    assert!(fsm.tracker.armed);
}

#[test]
fn left_edge_returns_at_the_right_side_of_the_client() {
    let mut fsm = entered(Edge::Left, 100, 50);
    assert_eq!(fsm.tracker.pos, 99);
    fsm.plan_batch(&vec![mv(-30, 0)], 1);
    assert_eq!(fsm.tracker.pos, 69);
    assert!(fsm.forwarding);
    let acts = fsm.plan_batch(&vec![mv(29, 0)], 2);
    assert!(fsm.forwarding);
    assert_eq!(acts, vec![ServerAction::SendMove { dx: 29, dy: 0 }]);
    let acts = fsm.plan_batch(&vec![mv(1, 0)], 3);
    assert!(!fsm.forwarding);
    assert_eq!(acts, vec![ServerAction::SuppressOff, ServerAction::PeerOff, ServerAction::ShowCursor, ServerAction::SendLeave { strict: true }]);
}

#[test]
fn bottom_edge_tracks_vertical_movement_only() {
    let mut fsm = entered(Edge::Bottom, 100, 50);
    fsm.plan_batch(&vec![mv(500, 25)], 1);
    assert_eq!(fsm.tracker.pos, 25);
    assert!(fsm.tracker.armed);
    let acts = fsm.plan_batch(&vec![mv(0, -25), ev(InputKind::Button)], 2);
    assert!(!fsm.forwarding);
    assert_eq!(
        acts,
        vec![ServerAction::SuppressOff, ServerAction::PeerOff, ServerAction::ShowCursor, ServerAction::SendLeave { strict: true }]
    );
}

#[test]
fn small_client_screen_still_arms_and_returns() {
    let mut fsm = entered(Edge::Right, 10, 10);
    fsm.plan_batch(&vec![mv(20, 0)], 1);
    assert_eq!(fsm.tracker.pos, 9);
    assert!(fsm.tracker.armed);
    fsm.plan_batch(&vec![mv(-9, 0)], 2);
    assert!(!fsm.forwarding);
}

#[test]
fn coming_back_to_the_entry_column_hands_back() {
    let mut fsm = entered(Edge::Right, 2560, 1440);
    fsm.plan_batch(&vec![mv(30, 0)], 1);
    fsm.plan_batch(&vec![mv(-30, 0)], 2);
    assert!(!fsm.forwarding);
}

#[test]
fn events_after_return_are_not_forwarded() {
    let mut fsm = ServerFsm::new(&config(Edge::Right, 2560, 1440), 0);
    let acts = fsm.plan_batch(
        &vec![at_edge(InputKind::Button), mv(40, 0), mv(-40, 0), mv(5, 0), ev(InputKind::Key)],
        0,
    );
    assert_eq!(acts.len(), 9);
    assert_eq!(acts[8], ServerAction::SendLeave { strict: true });
}

#[test]
fn watchdog_gives_the_mouse_back_after_five_seconds() {
    let mut fsm = entered(Edge::Right, 2560, 1440);
    assert!(fsm.watchdog(5_000_000_000).is_empty());
    assert!(fsm.forwarding);
    assert_eq!(fsm.watchdog(5_000_000_001), vec![ServerAction::SuppressOff, ServerAction::PeerOff, ServerAction::ShowCursor, ServerAction::SendLeave { strict: false }]);
    assert!(!fsm.forwarding);
    assert!(fsm.watchdog(20_000_000_000).is_empty());
}

#[test]
fn watchdog_is_reset_by_forwarded_events() {
    let mut fsm = entered(Edge::Right, 2560, 1440);
    fsm.plan_batch(&vec![mv(1, 0)], 4_000_000_000);
    assert!(fsm.watchdog(9_000_000_000).is_empty());
    assert!(!fsm.watchdog(9_000_000_001).is_empty());
}

#[test]
fn heartbeat_once_a_second() {
    let mut fsm = ServerFsm::new(&config(Edge::Right, 2560, 1440), 0);
    assert!(!fsm.heartbeat_due(1_000_000_000));
    assert!(fsm.heartbeat_due(1_000_000_001));
    assert_eq!(fsm.last_heartbeat_ns, 1_000_000_001);
    assert!(!fsm.heartbeat_due(1_500_000_000));
}

#[test]
fn shutdown_releases_everything() {
    let fsm = entered(Edge::Right, 2560, 1440);
    assert_eq!(fsm.on_shutdown(), vec![ServerAction::SuppressOff, ServerAction::ShowCursor, ServerAction::SendLeave { strict: false }]);
    let idle = ServerFsm::new(&config(Edge::Right, 2560, 1440), 0);
    assert_eq!(idle.on_shutdown(), vec![ServerAction::SuppressOff, ServerAction::SendLeave { strict: false }]);
}

#[test]
fn lost_capture_releases_suppression() {
    let fsm = entered(Edge::Right, 2560, 1440);
    assert_eq!(fsm.on_capture_lost(), vec![ServerAction::SuppressOff, ServerAction::ShowCursor]);
    let idle = ServerFsm::new(&config(Edge::Right, 2560, 1440), 0);
    assert_eq!(idle.on_capture_lost(), vec![ServerAction::SuppressOff]);
}

#[test]
fn reconnecting_client_gets_an_ack() {
    assert_eq!(on_client_packet(ClientPacket::Heartbeat), ClientPacketAction::RecordHeartbeat);
    assert_eq!(on_client_packet(ClientPacket::Hello), ClientPacketAction::Reconnect);
    assert_eq!(on_client_packet(ClientPacket::Other), ClientPacketAction::Ignore);
    assert_eq!(ack_screen(None), ScreenInfo { width: 1920, height: 1080 });
    assert_eq!(ack_screen(Some(ScreenInfo { width: 800, height: 600 })), ScreenInfo { width: 800, height: 600 });
}

#[test]
fn waiting_for_hello() {
    let s = ScreenInfo { width: 1680, height: 1050 };
    assert_eq!(on_hello_wait(HelloWait::Hello(s)), HelloWaitVerdict::Connected(s));
    assert_eq!(on_hello_wait(HelloWait::Other), HelloWaitVerdict::KeepWaiting);
    assert_eq!(on_hello_wait(HelloWait::Nothing), HelloWaitVerdict::KeepWaiting);
    assert_eq!(on_hello_wait(HelloWait::Failed), HelloWaitVerdict::Fail);
}

#[test]
fn a_failed_enter_releases_suppression_and_shows_the_cursor() {
    let acts = vec![ServerAction::SuppressOn, ServerAction::PeerOn, ServerAction::HideCursor, ServerAction::SendEnter { event: 0 }];
    // The Enter (action 3) failed after the three before it were done.
    assert_eq!(release_on_abort(false, &acts, 3), vec![ServerAction::SuppressOff, ServerAction::ShowCursor]);
    // Failing before the cursor was hidden leaves it alone.
    assert_eq!(release_on_abort(false, &acts, 2), vec![ServerAction::SuppressOff]);
    // A failed Leave comes after the cursor was shown again.
    let back = vec![ServerAction::SuppressOff, ServerAction::PeerOff, ServerAction::ShowCursor, ServerAction::SendLeave { strict: true }];
    assert_eq!(release_on_abort(true, &back, 3), vec![ServerAction::SuppressOff]);
    assert_eq!(release_on_abort(true, &back, 0), vec![ServerAction::SuppressOff, ServerAction::ShowCursor]);
}

#[test]
fn enter_and_leave_alternate_over_several_cycles() {
    let mut fsm = entered(Edge::Right, 1000, 800);
    let mut all: Vec<ServerAction> = Vec::new();
    all.extend(fsm.plan_batch(&vec![mv(30, 0)], 1));
    all.extend(fsm.plan_batch(&vec![mv(-40, 0)], 2));
    assert!(!fsm.forwarding);
    all.extend(fsm.plan_batch(&vec![at_edge(InputKind::Move { dx: 5, dy: 0 })], 3));
    assert!(fsm.forwarding);
    all.extend(fsm.watchdog(3 + 6_000_000_000));
    assert!(!fsm.forwarding);
    let links: Vec<bool> = all
        .iter()
        .filter_map(|a| match a {
            ServerAction::SendEnter { .. } => Some(true),
            ServerAction::SendLeave { .. } => Some(false),
            _ => None,
        })
        .collect();
    assert_eq!(links, vec![false, true, false]);
}
