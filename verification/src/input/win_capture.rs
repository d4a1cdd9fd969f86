//! Windows capture: the decisions of the low-level mouse and keyboard hooks.
//!
//! The mouse hook reports absolute cursor positions; deltas are the
//! difference from the previous position seen. While input is suppressed
//! the real cursor is put back at the centre of the primary screen after
//! each event, so it never sticks at an edge and the deltas keep flowing.

use crate::input::RawMouse;
use crate::protocol::{KeyEvent, MouseButton};
use std::sync::atomic::AtomicBool;
use std::sync::Arc;
use vstd::prelude::*;

verus! {

pub const WM_MOUSEMOVE: u32 = 0x0200;
pub const WM_LBUTTONDOWN: u32 = 0x0201;
pub const WM_LBUTTONUP: u32 = 0x0202;
pub const WM_RBUTTONDOWN: u32 = 0x0204;
pub const WM_RBUTTONUP: u32 = 0x0205;
pub const WM_MBUTTONDOWN: u32 = 0x0207;
pub const WM_MBUTTONUP: u32 = 0x0208;
pub const WM_MOUSEWHEEL: u32 = 0x020A;
pub const WM_XBUTTONDOWN: u32 = 0x020B;
pub const WM_XBUTTONUP: u32 = 0x020C;
pub const WM_MOUSEHWHEEL: u32 = 0x020E;
pub const WM_KEYDOWN: u32 = 0x0100;
pub const WM_KEYUP: u32 = 0x0101;
pub const WM_SYSKEYDOWN: u32 = 0x0104;
pub const WM_SYSKEYUP: u32 = 0x0105;

/// Mouse-hook flag of events injected by software (our own recentring).
pub const LLMHF_INJECTED: u32 = 0x0000_0001;

/// Keyboard-hook flag of extended keys (arrows, right Ctrl/Alt, ...).
pub const LLKHF_EXTENDED: u32 = 0x0000_0001;

/// Server-side capture through low-level Windows hooks.
pub struct WinCapture {
    suppressing: Arc<AtomicBool>,
}

impl WinCapture {
    pub fn new() -> WinCapture {
        WinCapture { suppressing: Arc::new(AtomicBool::new(false)) }
    }

    /// The shared flag that, while set, makes the hooks swallow input.
    pub closed spec fn spec_suppressing(&self) -> Arc<AtomicBool> {
        self.suppressing
    }

    /// A handle on the shared flag that, while set, makes the hooks
    /// swallow input.
    pub fn suppress_handle(&self) -> (r: Arc<AtomicBool>)
        ensures
            r == self.spec_suppressing(),
    {
        self.suppressing.clone()
    }
}

/// What the mouse hook is called with.
#[derive(Clone, Copy, Debug, PartialEq, Eq, Structural)]
pub struct MouseHookInput {
    /// The hook code; negative codes must be passed on untouched.
    pub code: i32,
    /// The window message.
    pub message: u32,
    /// Cursor position.
    pub x: i32,
    pub y: i32,
    /// Extra data: wheel delta or X button in the high word.
    pub mouse_data: u32,
    pub flags: u32,
}

/// What the keyboard hook is called with.
#[derive(Clone, Copy, Debug, PartialEq, Eq, Structural)]
pub struct KeyHookInput {
    pub code: i32,
    pub message: u32,
    pub vk_code: u32,
    pub flags: u32,
}

/// A cursor position in screen pixels.
#[derive(Clone, Copy, Debug, PartialEq, Eq, Structural)]
pub struct Point {
    pub x: i32,
    pub y: i32,
}

/// A captured mouse event and the cursor position it happened at.
#[derive(Clone, Copy, Debug, PartialEq, Eq, Structural)]
pub struct HookedMouse {
    pub event: RawMouse,
    pub at: Point,
}

/// State kept by the mouse hook between calls.
#[derive(Clone, Copy, Debug, PartialEq, Eq, Structural)]
pub struct MouseHookState {
    /// The last cursor position seen, once there is one.
    pub last_pos: Option<Point>,
    /// Primary screen size, for recentring.
    pub screen_w: i32,
    pub screen_h: i32,
}

/// What the mouse hook does with one call.
#[derive(Clone, Copy, Debug, PartialEq, Eq, Structural)]
pub struct MouseHookVerdict {
    /// The event to capture, with the cursor position.
    pub captured: Option<HookedMouse>,
    /// Put the real cursor here.
    pub recenter: Option<Point>,
    /// Swallow the event instead of passing it on.
    pub swallow: bool,
}

/// The X button number in the high word of the mouse data.
pub open spec fn spec_xbutton(mouse_data: u32) -> u8 {
    ((mouse_data / 0x1_0000) % 0x100) as u8
}

/// The signed wheel rotation in the high word of the mouse data.
pub open spec fn spec_wheel_delta(mouse_data: u32) -> i32 {
    ((mouse_data / 0x1_0000) as u16) as i16 as i32
}

/// The captured event for a message, given the movement since last time.
pub open spec fn spec_mouse_event(message: u32, dx: i64, dy: i64, mouse_data: u32) -> Option<
    RawMouse,
> {
    if message == WM_MOUSEMOVE {
        Some(RawMouse::Move { dx, dy })
    } else if message == WM_LBUTTONDOWN {
        Some(RawMouse::ButtonDown(MouseButton::Left))
    } else if message == WM_LBUTTONUP {
        Some(RawMouse::ButtonUp(MouseButton::Left))
    } else if message == WM_RBUTTONDOWN {
        Some(RawMouse::ButtonDown(MouseButton::Right))
    } else if message == WM_RBUTTONUP {
        Some(RawMouse::ButtonUp(MouseButton::Right))
    } else if message == WM_MBUTTONDOWN {
        Some(RawMouse::ButtonDown(MouseButton::Middle))
    } else if message == WM_MBUTTONUP {
        Some(RawMouse::ButtonUp(MouseButton::Middle))
    } else if message == WM_XBUTTONDOWN {
        Some(RawMouse::ButtonDown(MouseButton::Other(spec_xbutton(mouse_data))))
    } else if message == WM_XBUTTONUP {
        Some(RawMouse::ButtonUp(MouseButton::Other(spec_xbutton(mouse_data))))
    } else if message == WM_MOUSEWHEEL {
        Some(RawMouse::ScrollWheel { horizontal: false, delta: spec_wheel_delta(mouse_data) })
    } else if message == WM_MOUSEHWHEEL {
        Some(RawMouse::ScrollWheel { horizontal: true, delta: spec_wheel_delta(mouse_data) })
    } else {
        None
    }
}

/// The centre of the screen.
pub open spec fn screen_centre(st: MouseHookState) -> Point {
    Point { x: (st.screen_w / 2) as i32, y: (st.screen_h / 2) as i32 }
}

/// One call of the mouse hook: the state after and the verdict.
///
/// Negative codes and injected events are passed on and change nothing.
/// Otherwise the movement is measured from the last position (or is zero
/// for the first event), the position is remembered, the event captured,
/// and, while suppressing, the event is swallowed and, when the screen
/// size is known, the cursor recentred (which becomes the last position).
pub open spec fn spec_mouse_hook(st: MouseHookState, input: MouseHookInput, suppress: bool) -> (
    MouseHookState,
    MouseHookVerdict,
) {
    if input.code < 0 || input.flags % 2 == 1 {
        (st, MouseHookVerdict { captured: None, recenter: None, swallow: false })
    } else {
        let here = Point { x: input.x, y: input.y };
        let last = match st.last_pos {
            Some(p) => p,
            None => here,
        };
        let dx = input.x - last.x;
        let dy = input.y - last.y;
        let captured = match spec_mouse_event(input.message, dx as i64, dy as i64, input.mouse_data) {
            Some(ev) => Some(HookedMouse { event: ev, at: here }),
            None => None,
        };
        if suppress {
            if st.screen_w > 0 && st.screen_h > 0 {
                (
                    MouseHookState { last_pos: Some(screen_centre(st)), ..st },
                    MouseHookVerdict { captured, recenter: Some(screen_centre(st)), swallow: true },
                )
            } else {
                (
                    MouseHookState { last_pos: Some(here), ..st },
                    MouseHookVerdict { captured, recenter: None, swallow: true },
                )
            }
        } else {
            (
                MouseHookState { last_pos: Some(here), ..st },
                MouseHookVerdict { captured, recenter: None, swallow: false },
            )
        }
    }
}

/// One call of the keyboard hook: the key to capture, if any, and whether
/// to swallow the event. Key-down and key-up messages (system ones too) are
/// captured; bit 0 of the captured flags marks an extended key.
pub open spec fn spec_key_hook(input: KeyHookInput, suppress: bool) -> (Option<KeyEvent>, bool) {
    if input.code < 0 {
        (None, false)
    } else {
        let down = input.message == WM_KEYDOWN || input.message == WM_SYSKEYDOWN;
        let up = input.message == WM_KEYUP || input.message == WM_SYSKEYUP;
        let key = if down || up {
            Some(
                KeyEvent {
                    keycode: input.vk_code,
                    down,
                    flags: if input.flags % 2 == 1 {
                        1
                    } else {
                        0
                    },
                },
            )
        } else {
            None
        };
        (key, suppress)
    }
}

proof fn lemma_low_bit(f: u32)
    ensures
        (f & 1u32 != 0) == (f % 2 == 1),
{
    assert((f & 1u32 != 0) == (f % 2 == 1)) by (bit_vector);
}

fn xbutton(mouse_data: u32) -> (b: u8)
    ensures
        b == spec_xbutton(mouse_data),
{
    let b = ((mouse_data >> 16u32) & 0xFFFF) as u8;
    assert(b == ((mouse_data / 0x1_0000) % 0x100) as u8) by (bit_vector)
        requires
            b == ((mouse_data >> 16u32) & 0xFFFF) as u8,
    ;
    b
}

fn wheel_delta(mouse_data: u32) -> (d: i32)
    ensures
        d == spec_wheel_delta(mouse_data),
{
    let d = (mouse_data as i32) >> 16u32;
    assert(d == ((mouse_data / 0x1_0000) as u16) as i16 as i32) by (bit_vector)
        requires
            d == (mouse_data as i32) >> 16u32,
    ;
    d
}

/// See `spec_mouse_event`.
pub fn mouse_event(message: u32, dx: i64, dy: i64, mouse_data: u32) -> (r: Option<RawMouse>)
    ensures
        r == spec_mouse_event(message, dx, dy, mouse_data),
{
    if message == WM_MOUSEMOVE {
        Some(RawMouse::Move { dx, dy })
    } else if message == WM_LBUTTONDOWN {
        Some(RawMouse::ButtonDown(MouseButton::Left))
    } else if message == WM_LBUTTONUP {
        Some(RawMouse::ButtonUp(MouseButton::Left))
    } else if message == WM_RBUTTONDOWN {
        Some(RawMouse::ButtonDown(MouseButton::Right))
    } else if message == WM_RBUTTONUP {
        Some(RawMouse::ButtonUp(MouseButton::Right))
    } else if message == WM_MBUTTONDOWN {
        Some(RawMouse::ButtonDown(MouseButton::Middle))
    } else if message == WM_MBUTTONUP {
        Some(RawMouse::ButtonUp(MouseButton::Middle))
    } else if message == WM_XBUTTONDOWN {
        Some(RawMouse::ButtonDown(MouseButton::Other(xbutton(mouse_data))))
    } else if message == WM_XBUTTONUP {
        Some(RawMouse::ButtonUp(MouseButton::Other(xbutton(mouse_data))))
    } else if message == WM_MOUSEWHEEL {
        Some(RawMouse::ScrollWheel { horizontal: false, delta: wheel_delta(mouse_data) })
    } else if message == WM_MOUSEHWHEEL {
        Some(RawMouse::ScrollWheel { horizontal: true, delta: wheel_delta(mouse_data) })
    } else {
        None
    }
}

impl MouseHookState {
    /// The state before the first event: no position seen yet.
    pub fn new(screen_w: i32, screen_h: i32) -> (r: MouseHookState)
        ensures
            r == (MouseHookState { last_pos: None, screen_w, screen_h }),
    {
        MouseHookState { last_pos: None, screen_w, screen_h }
    }

    /// See `spec_mouse_hook`.
    pub fn on_event(&mut self, input: MouseHookInput, suppress: bool) -> (v: MouseHookVerdict)
        ensures
            (*final(self), v) == spec_mouse_hook(*old(self), input, suppress),
    {
        if input.code < 0 || (input.flags & LLMHF_INJECTED) != 0 {
            proof {
                lemma_low_bit(input.flags);
            }
            return MouseHookVerdict { captured: None, recenter: None, swallow: false };
        }
        proof {
            lemma_low_bit(input.flags);
        }
        let here = Point { x: input.x, y: input.y };
        let last = match self.last_pos {
            Some(p) => p,
            None => here,
        };
        let dx: i64 = input.x as i64 - last.x as i64;
        let dy: i64 = input.y as i64 - last.y as i64;
        let captured = match mouse_event(input.message, dx, dy, input.mouse_data) {
            Some(ev) => Some(HookedMouse { event: ev, at: here }),
            None => None,
        };
        if suppress {
            if self.screen_w > 0 && self.screen_h > 0 {
                let centre = Point { x: self.screen_w / 2, y: self.screen_h / 2 };
                self.last_pos = Some(centre);
                MouseHookVerdict { captured, recenter: Some(centre), swallow: true }
            } else {
                self.last_pos = Some(here);
                MouseHookVerdict { captured, recenter: None, swallow: true }
            }
        } else {
            self.last_pos = Some(here);
            MouseHookVerdict { captured, recenter: None, swallow: false }
        }
    }
}

/// See `spec_key_hook`.
pub fn key_hook(input: KeyHookInput, suppress: bool) -> (r: (Option<KeyEvent>, bool))
    ensures
        r == spec_key_hook(input, suppress),
{
    if input.code < 0 {
        return (None, false);
    }
    let down = input.message == WM_KEYDOWN || input.message == WM_SYSKEYDOWN;
    let up = input.message == WM_KEYUP || input.message == WM_SYSKEYUP;
    let key = if down || up {
        let extended = (input.flags & LLKHF_EXTENDED) != 0;
        proof {
            lemma_low_bit(input.flags);
        }
        let out_flags: u64 = if extended {
            1
        } else {
            0
        };
        Some(KeyEvent { keycode: input.vk_code, down, flags: out_flags })
    } else {
        None
    };
    (key, suppress)
}

/// Recentring keeps deltas honest: while suppressing (with the screen size
/// known), the next event's movement is measured from the screen centre,
/// so a cursor pushed against an edge still reports movement.
pub proof fn law_suppressed_moves_measured_from_centre(
    st: MouseHookState,
    first: MouseHookInput,
    second: MouseHookInput,
)
    requires
        first.code >= 0,
        first.flags % 2 == 0,
        second.code >= 0,
        second.flags % 2 == 0,
        second.message == WM_MOUSEMOVE,
        st.screen_w > 0,
        st.screen_h > 0,
    ensures
        ({
            let (st1, _) = spec_mouse_hook(st, first, true);
            let (_, v) = spec_mouse_hook(st1, second, false);
            v.captured == Some(
                HookedMouse {
                    event: RawMouse::Move {
                        dx: (second.x - st.screen_w / 2) as i64,
                        dy: (second.y - st.screen_h / 2) as i64,
                    },
                    at: Point { x: second.x, y: second.y },
                },
            )
        }),
{
}

/// The first event measures no movement.
pub proof fn law_first_move_is_zero(st: MouseHookState, input: MouseHookInput, suppress: bool)
    requires
        st.last_pos is None,
        input.code >= 0,
        input.flags % 2 == 0,
        input.message == WM_MOUSEMOVE,
    ensures
        spec_mouse_hook(st, input, suppress).1.captured == Some(
            HookedMouse { event: RawMouse::Move { dx: 0, dy: 0 }, at: Point { x: input.x, y: input.y } },
        ),
{
}

/// A button message is captured as that button, pressed or released as the
/// message says, whatever the movement: left, right and middle messages name
/// their own buttons, and the X-button messages name the extra button whose
/// number is in the high word of the mouse data. The mouse hook captures it
/// so, at the cursor position, for every event it does not pass on.
pub proof fn law_button_messages_name_their_button(
    dx: i64,
    dy: i64,
    data: u32,
    st: MouseHookState,
    input: MouseHookInput,
    suppress: bool,
)
    ensures
        spec_mouse_event(WM_LBUTTONDOWN, dx, dy, data) == Some(RawMouse::ButtonDown(MouseButton::Left)),
        spec_mouse_event(WM_LBUTTONUP, dx, dy, data) == Some(RawMouse::ButtonUp(MouseButton::Left)),
        spec_mouse_event(WM_RBUTTONDOWN, dx, dy, data) == Some(RawMouse::ButtonDown(MouseButton::Right)),
        spec_mouse_event(WM_RBUTTONUP, dx, dy, data) == Some(RawMouse::ButtonUp(MouseButton::Right)),
        spec_mouse_event(WM_MBUTTONDOWN, dx, dy, data) == Some(RawMouse::ButtonDown(MouseButton::Middle)),
        spec_mouse_event(WM_MBUTTONUP, dx, dy, data) == Some(RawMouse::ButtonUp(MouseButton::Middle)),
        spec_mouse_event(WM_XBUTTONDOWN, dx, dy, data) == Some(
            RawMouse::ButtonDown(MouseButton::Other(((data / 0x1_0000) % 0x100) as u8)),
        ),
        spec_mouse_event(WM_XBUTTONUP, dx, dy, data) == Some(
            RawMouse::ButtonUp(MouseButton::Other(((data / 0x1_0000) % 0x100) as u8)),
        ),
        spec_mouse_event(WM_MOUSEMOVE, dx, dy, data) == Some(RawMouse::Move { dx, dy }),
        input.code >= 0 && input.flags % 2 == 0 && input.message == WM_RBUTTONDOWN ==> spec_mouse_hook(
            st,
            input,
            suppress,
        ).1.captured == Some(
            HookedMouse {
                event: RawMouse::ButtonDown(MouseButton::Right),
                at: Point { x: input.x, y: input.y },
            },
        ),
        input.code >= 0 && input.flags % 2 == 0 && input.message == WM_RBUTTONUP ==> spec_mouse_hook(
            st,
            input,
            suppress,
        ).1.captured == Some(
            HookedMouse {
                event: RawMouse::ButtonUp(MouseButton::Right),
                at: Point { x: input.x, y: input.y },
            },
        ),
        input.code >= 0 && input.flags % 2 == 0 && input.message == WM_LBUTTONDOWN ==> spec_mouse_hook(
            st,
            input,
            suppress,
        ).1.captured == Some(
            HookedMouse {
                event: RawMouse::ButtonDown(MouseButton::Left),
                at: Point { x: input.x, y: input.y },
            },
        ),
        input.code >= 0 && input.flags % 2 == 0 && input.message == WM_LBUTTONUP ==> spec_mouse_hook(
            st,
            input,
            suppress,
        ).1.captured == Some(
            HookedMouse {
                event: RawMouse::ButtonUp(MouseButton::Left),
                at: Point { x: input.x, y: input.y },
            },
        ),
{
}

} // verus!
