//! Choosing what to post when replaying buttons and keys on the client.

use crate::protocol::MouseButton;
use vstd::prelude::*;

verus! {

pub const MOUSEEVENTF_MOVE: u32 = 0x0001;
pub const MOUSEEVENTF_LEFTDOWN: u32 = 0x0002;
pub const MOUSEEVENTF_LEFTUP: u32 = 0x0004;
pub const MOUSEEVENTF_RIGHTDOWN: u32 = 0x0008;
pub const MOUSEEVENTF_RIGHTUP: u32 = 0x0010;
pub const MOUSEEVENTF_MIDDLEDOWN: u32 = 0x0020;
pub const MOUSEEVENTF_MIDDLEUP: u32 = 0x0040;
pub const MOUSEEVENTF_XDOWN: u32 = 0x0080;
pub const MOUSEEVENTF_XUP: u32 = 0x0100;
pub const MOUSEEVENTF_WHEEL: u32 = 0x0800;
pub const MOUSEEVENTF_ABSOLUTE: u32 = 0x8000;
pub const KEYEVENTF_EXTENDEDKEY: u32 = 0x0001;
pub const KEYEVENTF_KEYUP: u32 = 0x0002;

/// A Windows `SendInput` mouse record, apart from the position.
#[derive(Clone, Copy, Debug, PartialEq, Eq, Structural)]
pub struct WinMouseInput {
    pub flags: u32,
    pub data: i32,
}

/// A Windows `SendInput` keyboard record.
#[derive(Clone, Copy, Debug, PartialEq, Eq, Structural)]
pub struct WinKeyInput {
    pub vk: u16,
    pub flags: u32,
}

/// The flag and data for pressing or releasing a button on Windows; X
/// buttons carry their number in the data.
pub open spec fn spec_win_button(button: MouseButton, down: bool) -> (u32, i32) {
    match button {
        MouseButton::Left => (if down { MOUSEEVENTF_LEFTDOWN } else { MOUSEEVENTF_LEFTUP }, 0),
        MouseButton::Right => (if down { MOUSEEVENTF_RIGHTDOWN } else { MOUSEEVENTF_RIGHTUP }, 0),
        MouseButton::Middle => (if down { MOUSEEVENTF_MIDDLEDOWN } else { MOUSEEVENTF_MIDDLEUP }, 0),
        MouseButton::Other(n) => (if down { MOUSEEVENTF_XDOWN } else { MOUSEEVENTF_XUP }, n as i32),
    }
}

/// The record that presses or releases a button at the current position:
/// the button's flag together with a move, in absolute coordinates.
pub fn win_button_input(button: MouseButton, down: bool) -> (r: WinMouseInput)
    ensures
        r.flags == spec_win_button(button, down).0 | MOUSEEVENTF_MOVE | MOUSEEVENTF_ABSOLUTE,
        r.data == spec_win_button(button, down).1,
{
    let (flag, data): (u32, i32) = match button {
        MouseButton::Left => (if down { MOUSEEVENTF_LEFTDOWN } else { MOUSEEVENTF_LEFTUP }, 0),
        MouseButton::Right => (if down { MOUSEEVENTF_RIGHTDOWN } else { MOUSEEVENTF_RIGHTUP }, 0),
        MouseButton::Middle => (if down { MOUSEEVENTF_MIDDLEDOWN } else { MOUSEEVENTF_MIDDLEUP }, 0),
        MouseButton::Other(n) => (if down { MOUSEEVENTF_XDOWN } else { MOUSEEVENTF_XUP }, n as i32),
    };
    WinMouseInput { flags: flag | MOUSEEVENTF_MOVE | MOUSEEVENTF_ABSOLUTE, data }
}

/// The record that presses or releases a key; the virtual-key code is the
/// low 16 bits of the keycode. Bit 0 of the captured flags marks an
/// extended key (arrows, right Ctrl/Alt, Insert, Delete, ...), which is
/// posted with KEYEVENTF_EXTENDEDKEY.
pub fn win_key_input(keycode: u32, down: bool, flags: u64) -> (r: WinKeyInput)
    ensures
        r.vk == keycode as u16,
        r.flags == ((if flags & 1 == 1 { KEYEVENTF_EXTENDEDKEY } else { 0 }) | (if down {
            0
        } else {
            KEYEVENTF_KEYUP
        })),
{
    let extended: u32 = if flags & 1 == 1 {
        KEYEVENTF_EXTENDEDKEY
    } else {
        0
    };
    let direction: u32 = if down {
        0
    } else {
        KEYEVENTF_KEYUP
    };
    WinKeyInput { vk: keycode as u16, flags: extended | direction }
}

/// The button a macOS mouse event names.
#[derive(Clone, Copy, Debug, PartialEq, Eq, Structural)]
pub enum MacButton {
    Left,
    Right,
    Center,
}

/// The kind of a macOS mouse-button event.
#[derive(Clone, Copy, Debug, PartialEq, Eq, Structural)]
pub enum MacButtonEvent {
    LeftDown,
    LeftUp,
    RightDown,
    RightUp,
    OtherDown,
    OtherUp,
}

/// The macOS event for pressing or releasing a button: left and right have
/// their own events; middle and extra buttons go as "other" events on the
/// centre button.
pub open spec fn spec_mac_button(button: MouseButton, down: bool) -> (MacButtonEvent, MacButton) {
    match button {
        MouseButton::Left => (if down { MacButtonEvent::LeftDown } else { MacButtonEvent::LeftUp }, MacButton::Left),
        MouseButton::Right => (if down { MacButtonEvent::RightDown } else { MacButtonEvent::RightUp }, MacButton::Right),
        _ => (if down { MacButtonEvent::OtherDown } else { MacButtonEvent::OtherUp }, MacButton::Center),
    }
}

/// See `spec_mac_button`.
pub fn mac_button(button: MouseButton, down: bool) -> (r: (MacButtonEvent, MacButton))
    ensures
        r == spec_mac_button(button, down),
{
    match button {
        MouseButton::Left => (if down { MacButtonEvent::LeftDown } else { MacButtonEvent::LeftUp }, MacButton::Left),
        MouseButton::Right => (if down { MacButtonEvent::RightDown } else { MacButtonEvent::RightUp }, MacButton::Right),
        _ => (if down { MacButtonEvent::OtherDown } else { MacButtonEvent::OtherUp }, MacButton::Center),
    }
}

/// The Windows record names the replayed button and direction: each button
/// has its own press flag (left, right, middle and the extra buttons differ
/// pairwise), its release flag is the next bit up, and only the extra
/// buttons carry data, their number.
pub proof fn law_windows_button_flags_name_button_and_direction()
    ensures
        spec_win_button(MouseButton::Left, true).0 == MOUSEEVENTF_LEFTDOWN,
        spec_win_button(MouseButton::Right, true).0 == MOUSEEVENTF_RIGHTDOWN,
        spec_win_button(MouseButton::Middle, true).0 == MOUSEEVENTF_MIDDLEDOWN,
        forall|n: u8| spec_win_button(MouseButton::Other(n), true).0 == MOUSEEVENTF_XDOWN,
        forall|b: MouseButton|
            spec_win_button(b, false).0 == 2 * spec_win_button(b, true).0,
        forall|b: MouseButton, c: MouseButton, d: bool, e: bool|
            #![trigger spec_win_button(b, d), spec_win_button(c, e)]
            spec_win_button(b, d).0 == spec_win_button(c, e).0 ==> d == e && (b == c || (
            b is Other && c is Other)),
        forall|b: MouseButton, d: bool|
            spec_win_button(b, d).1 == match b {
                MouseButton::Other(n) => n as i32,
                _ => 0,
            },
{
}

/// On macOS the left and right buttons are posted as their own events and
/// every other button as an "other" event, pressed or released as replayed;
/// the press and release events of a button differ.
pub proof fn law_mac_button_events_name_button_and_direction()
    ensures
        forall|d: bool|
            spec_mac_button(MouseButton::Left, d) == (if d {
                MacButtonEvent::LeftDown
            } else {
                MacButtonEvent::LeftUp
            }, MacButton::Left),
        forall|d: bool|
            spec_mac_button(MouseButton::Right, d) == (if d {
                MacButtonEvent::RightDown
            } else {
                MacButtonEvent::RightUp
            }, MacButton::Right),
        forall|b: MouseButton| #![trigger spec_mac_button(b, true)]
            spec_mac_button(b, true).0 != spec_mac_button(b, false).0,
{
}

} // verus!
