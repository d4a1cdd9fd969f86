use mouse_share::input::macos_capture::{
    is_discrete, map_event, tap_event, tap_passes, MacOsCapture, TapEvent, TapEventKind, TapOutcome,
};
use mouse_share::input::simulate::{
    mac_button, win_button_input, win_key_input, MacButton, MacButtonEvent, KEYEVENTF_EXTENDEDKEY, KEYEVENTF_KEYUP,
    MOUSEEVENTF_ABSOLUTE, MOUSEEVENTF_LEFTDOWN, MOUSEEVENTF_MOVE, MOUSEEVENTF_XUP,
};
use mouse_share::input::win_capture::{
    key_hook, mouse_event, HookedMouse, KeyHookInput, MouseHookInput, MouseHookState, Point,
    WinCapture, WM_KEYDOWN, WM_KEYUP, WM_LBUTTONDOWN, WM_MOUSEHWHEEL, WM_MOUSEMOVE, WM_MOUSEWHEEL,
    WM_SYSKEYDOWN, WM_XBUTTONDOWN,
};
use mouse_share::input::RawMouse;
use mouse_share::protocol::{KeyEvent, MouseButton};
use std::sync::atomic::Ordering;
use std::sync::Arc;

fn tap(kind: TapEventKind) -> TapEvent {
    TapEvent {
        kind,
        keycode: 0,
        flags: 0,
        button_number: 0,
        delta_x: 0,
        delta_y: 0,
        scroll_axis_1: 0,
        scroll_axis_2: 0,
    }
}

fn hook(message: u32, x: i32, y: i32) -> MouseHookInput {
    MouseHookInput { code: 0, message, x, y, mouse_data: 0, flags: 0 }
}

#[test]
fn capture_handles_share_the_suppress_flag() {
    let mac = MacOsCapture::new();
    let h = mac.suppress_handle();
    h.store(true, Ordering::SeqCst);
    assert!(mac.suppress_handle().load(Ordering::SeqCst));
    assert!(Arc::ptr_eq(&h, &mac.suppress_handle()));
    let win = WinCapture::new();
    assert!(!win.suppress_handle().load(Ordering::SeqCst));
}

#[test]
fn tap_moves_use_the_raw_deltas() {
    for k in [
        TapEventKind::MouseMoved,
        TapEventKind::LeftMouseDragged,
        TapEventKind::RightMouseDragged,
        TapEventKind::OtherMouseDragged,
    ] {
        let e = TapEvent { delta_x: -7, delta_y: 3, ..tap(k) };
        assert_eq!(map_event(&e), Some(RawMouse::Move { dx: -7, dy: 3 }));
    }
}

#[test]
fn tap_buttons() {
    assert_eq!(map_event(&tap(TapEventKind::LeftMouseDown)), Some(RawMouse::ButtonDown(MouseButton::Left)));
    assert_eq!(map_event(&tap(TapEventKind::RightMouseUp)), Some(RawMouse::ButtonUp(MouseButton::Right)));
    let middle = TapEvent { button_number: 2, ..tap(TapEventKind::OtherMouseDown) };
    assert_eq!(map_event(&middle), Some(RawMouse::ButtonDown(MouseButton::Middle)));
    let extra = TapEvent { button_number: 4, ..tap(TapEventKind::OtherMouseUp) };
    assert_eq!(map_event(&extra), Some(RawMouse::ButtonUp(MouseButton::Other(4))));
    let wide = TapEvent { button_number: 258, ..tap(TapEventKind::OtherMouseDown) };
    assert_eq!(map_event(&wide), Some(RawMouse::ButtonDown(MouseButton::Other(2))));
}

#[test]
fn tap_scroll_axes() {
    let e = TapEvent { scroll_axis_1: -3, scroll_axis_2: 1, ..tap(TapEventKind::ScrollWheel) };
    assert_eq!(map_event(&e), Some(RawMouse::ScrollLines { dx: 1, dy: -3 }));
}

#[test]
fn tap_keys_and_modifiers() {
    let down = TapEvent { keycode: 0x24, flags: 0x20000, ..tap(TapEventKind::KeyDown) };
    assert_eq!(tap_event(&down), TapOutcome::Key(KeyEvent { keycode: 0x24, down: true, flags: 0x20000 }));
    let up = TapEvent { keycode: 0x24, ..tap(TapEventKind::KeyUp) };
    assert_eq!(tap_event(&up), TapOutcome::Key(KeyEvent { keycode: 0x24, down: false, flags: 0 }));
    let flags = TapEvent { keycode: 56, flags: 0x100, ..tap(TapEventKind::FlagsChanged) };
    assert_eq!(tap_event(&flags), TapOutcome::Key(KeyEvent { keycode: 56, down: true, flags: 0x100 }));
}

#[test]
fn tap_disable_notices_always_pass() {
    let t = tap_event(&tap(TapEventKind::TapDisabledByTimeout));
    assert_eq!(t, TapOutcome::Disabled);
    assert!(tap_passes(&t, true));
    assert_eq!(tap_event(&tap(TapEventKind::TapDisabledByUserInput)), TapOutcome::Disabled);
    let m = tap_event(&tap(TapEventKind::MouseMoved));
    assert!(!tap_passes(&m, true));
    assert!(tap_passes(&m, false));
    assert_eq!(tap_event(&tap(TapEventKind::Other)), TapOutcome::Ignored);
    assert!(!tap_passes(&TapOutcome::Ignored, true));
}

#[test]
fn discrete_tap_events() {
    assert!(is_discrete(TapEventKind::ScrollWheel));
    assert!(is_discrete(TapEventKind::OtherMouseUp));
    assert!(!is_discrete(TapEventKind::MouseMoved));
    assert!(!is_discrete(TapEventKind::KeyDown));
}

#[test]
fn first_hook_event_has_no_movement() {
    let mut st = MouseHookState::new(1920, 1080);
    let v = st.on_event(hook(WM_MOUSEMOVE, 500, 400), false);
    assert_eq!(
        v.captured,
        Some(HookedMouse { event: RawMouse::Move { dx: 0, dy: 0 }, at: Point { x: 500, y: 400 } })
    );
    assert!(!v.swallow);
    let v = st.on_event(hook(WM_MOUSEMOVE, 510, 390), false);
    assert_eq!(v.captured.unwrap().event, RawMouse::Move { dx: 10, dy: -10 });
}

#[test]
fn suppressed_hook_recentres_the_cursor() {
    let mut st = MouseHookState::new(1920, 1080);
    st.on_event(hook(WM_MOUSEMOVE, 1919, 400), false);
    let v = st.on_event(hook(WM_MOUSEMOVE, 1919, 400), true);
    assert!(v.swallow);
    assert_eq!(v.recenter, Some(Point { x: 960, y: 540 }));
    let v = st.on_event(hook(WM_MOUSEMOVE, 975, 530), true);
    assert_eq!(v.captured.unwrap().event, RawMouse::Move { dx: 15, dy: -10 });
}

#[test]
fn injected_and_negative_code_events_pass_untouched() {
    let mut st = MouseHookState::new(1920, 1080);
    st.on_event(hook(WM_MOUSEMOVE, 100, 100), false);
    let injected = MouseHookInput { flags: 1, ..hook(WM_MOUSEMOVE, 960, 540) };
    let v = st.on_event(injected, true);
    assert_eq!(v.captured, None);
    assert!(!v.swallow);
    let neg = MouseHookInput { code: -1, ..hook(WM_MOUSEMOVE, 5, 5) };
    assert!(!st.on_event(neg, true).swallow);
    assert_eq!(st.last_pos, Some(Point { x: 100, y: 100 }));
}

#[test]
fn hook_wheels_and_x_buttons() {
    assert_eq!(mouse_event(WM_MOUSEWHEEL, 0, 0, 0xFF88_0000), Some(RawMouse::ScrollWheel { horizontal: false, delta: -120 }));
    assert_eq!(mouse_event(WM_MOUSEHWHEEL, 0, 0, 0x0078_0000), Some(RawMouse::ScrollWheel { horizontal: true, delta: 120 }));
    assert_eq!(mouse_event(WM_XBUTTONDOWN, 0, 0, 0x0002_0000), Some(RawMouse::ButtonDown(MouseButton::Other(2))));
    assert_eq!(mouse_event(WM_LBUTTONDOWN, 3, 4, 0), Some(RawMouse::ButtonDown(MouseButton::Left)));
    assert_eq!(mouse_event(0x0300, 3, 4, 0), None);
}

#[test]
fn keyboard_hook() {
    let k = |message, flags| KeyHookInput { code: 0, message, vk_code: 0x25, flags };
    assert_eq!(key_hook(k(WM_KEYDOWN, 1), false), (Some(KeyEvent { keycode: 0x25, down: true, flags: 1 }), false));
    assert_eq!(key_hook(k(WM_SYSKEYDOWN, 0), true), (Some(KeyEvent { keycode: 0x25, down: true, flags: 0 }), true));
    assert_eq!(key_hook(k(WM_KEYUP, 0x80), true), (Some(KeyEvent { keycode: 0x25, down: false, flags: 0 }), true));
    assert_eq!(key_hook(k(0x0102, 0), true), (None, true));
    assert_eq!(key_hook(KeyHookInput { code: -1, ..k(WM_KEYDOWN, 0) }, true), (None, false));
}

#[test]
fn windows_button_records() {
    let r = win_button_input(MouseButton::Left, true);
    assert_eq!(r.flags, MOUSEEVENTF_LEFTDOWN | MOUSEEVENTF_MOVE | MOUSEEVENTF_ABSOLUTE);
    assert_eq!(r.data, 0);
    let x = win_button_input(MouseButton::Other(2), false);
    assert_eq!(x.flags, MOUSEEVENTF_XUP | MOUSEEVENTF_MOVE | MOUSEEVENTF_ABSOLUTE);
    assert_eq!(x.data, 2);
    assert_eq!(win_key_input(0x1_0041, true, 0).vk, 0x41);
    assert_eq!(win_key_input(0x41, true, 0).flags, 0);
    assert_eq!(win_key_input(0x41, false, 0).flags, KEYEVENTF_KEYUP);
    // The left arrow (VK_LEFT) is an extended key.
    assert_eq!(win_key_input(0x25, true, 1).flags, KEYEVENTF_EXTENDEDKEY);
    assert_eq!(win_key_input(0x25, false, 1).flags, KEYEVENTF_EXTENDEDKEY | KEYEVENTF_KEYUP);
    assert_eq!(win_key_input(0x25, false, 2).flags, KEYEVENTF_KEYUP);
}

#[test]
fn mac_button_events() {
    assert_eq!(mac_button(MouseButton::Left, true), (MacButtonEvent::LeftDown, MacButton::Left));
    assert_eq!(mac_button(MouseButton::Right, false), (MacButtonEvent::RightUp, MacButton::Right));
    assert_eq!(mac_button(MouseButton::Middle, true), (MacButtonEvent::OtherDown, MacButton::Center));
    assert_eq!(mac_button(MouseButton::Other(5), false), (MacButtonEvent::OtherUp, MacButton::Center));
}
