//! macOS capture: mapping event-tap callbacks to captured events.

use crate::input::RawMouse;
use crate::protocol::{KeyEvent, MouseButton};
use std::sync::atomic::AtomicBool;
use std::sync::Arc;
use vstd::prelude::*;

verus! {

/// Server-side capture through a macOS event tap.
pub struct MacOsCapture {
    suppressing: Arc<AtomicBool>,
}

impl MacOsCapture {
    pub fn new() -> MacOsCapture {
        MacOsCapture { suppressing: Arc::new(AtomicBool::new(false)) }
    }

    /// The shared flag that, while set, makes the tap swallow input.
    pub closed spec fn spec_suppressing(&self) -> Arc<AtomicBool> {
        self.suppressing
    }

    /// A handle on the shared flag that, while set, makes the tap swallow
    /// input.
    pub fn suppress_handle(&self) -> (r: Arc<AtomicBool>)
        ensures
            r == self.spec_suppressing(),
    {
        self.suppressing.clone()
    }
}

/// The kinds of event that reach the tap callback.
#[derive(Clone, Copy, Debug, PartialEq, Eq, Structural)]
pub enum TapEventKind {
    MouseMoved,
    LeftMouseDown,
    LeftMouseUp,
    RightMouseDown,
    RightMouseUp,
    OtherMouseDown,
    OtherMouseUp,
    ScrollWheel,
    LeftMouseDragged,
    RightMouseDragged,
    OtherMouseDragged,
    KeyDown,
    KeyUp,
    FlagsChanged,
    /// The system disabled the tap because a callback took too long.
    TapDisabledByTimeout,
    /// The system disabled the tap because of user input.
    TapDisabledByUserInput,
    /// Any other event type.
    Other,
}

/// The fields of a tapped event that the mapping reads.
#[derive(Clone, Copy, Debug, PartialEq, Eq, Structural)]
pub struct TapEvent {
    pub kind: TapEventKind,
    /// The keyboard-event keycode field.
    pub keycode: i64,
    /// The modifier-flag bits.
    pub flags: u64,
    /// The mouse-event button-number field.
    pub button_number: i64,
    /// The mouse-event delta fields (raw device deltas, unaffected by the
    /// cursor being held at a screen edge).
    pub delta_x: i64,
    pub delta_y: i64,
    /// The scroll-wheel fields: axis 1 is vertical, axis 2 horizontal.
    pub scroll_axis_1: i64,
    pub scroll_axis_2: i64,
}

/// What the tap callback makes of an event.
#[derive(Clone, Copy, Debug, PartialEq, Eq, Structural)]
pub enum TapOutcome {
    /// The system disabled the tap; it must be re-enabled.
    Disabled,
    Key(KeyEvent),
    Mouse(RawMouse),
    /// Nothing to capture.
    Ignored,
}

/// The button that an "other" mouse button number denotes.
pub open spec fn spec_other_button(n: i64) -> MouseButton {
    if n == 2 {
        MouseButton::Middle
    } else {
        MouseButton::Other(n as u8)
    }
}

/// The captured mouse event for a tapped event, if it is one.
pub open spec fn spec_map_event(e: TapEvent) -> Option<RawMouse> {
    match e.kind {
        TapEventKind::MouseMoved => Some(RawMouse::Move { dx: e.delta_x, dy: e.delta_y }),
        TapEventKind::LeftMouseDragged => Some(RawMouse::Move { dx: e.delta_x, dy: e.delta_y }),
        TapEventKind::RightMouseDragged => Some(RawMouse::Move { dx: e.delta_x, dy: e.delta_y }),
        TapEventKind::OtherMouseDragged => Some(RawMouse::Move { dx: e.delta_x, dy: e.delta_y }),
        TapEventKind::LeftMouseDown => Some(RawMouse::ButtonDown(MouseButton::Left)),
        TapEventKind::LeftMouseUp => Some(RawMouse::ButtonUp(MouseButton::Left)),
        TapEventKind::RightMouseDown => Some(RawMouse::ButtonDown(MouseButton::Right)),
        TapEventKind::RightMouseUp => Some(RawMouse::ButtonUp(MouseButton::Right)),
        TapEventKind::OtherMouseDown => Some(RawMouse::ButtonDown(spec_other_button(e.button_number))),
        TapEventKind::OtherMouseUp => Some(RawMouse::ButtonUp(spec_other_button(e.button_number))),
        TapEventKind::ScrollWheel => Some(
            RawMouse::ScrollLines { dx: e.scroll_axis_2, dy: e.scroll_axis_1 },
        ),
        _ => None,
    }
}

/// What the tap callback makes of an event: a disabled-tap notice, a key
/// (`FlagsChanged`, the modifier transitions, counts as a key press; the
/// keycode field is truncated to 32 bits), a mouse event, or nothing.
pub open spec fn spec_tap_event(e: TapEvent) -> TapOutcome {
    match e.kind {
        TapEventKind::TapDisabledByTimeout => TapOutcome::Disabled,
        TapEventKind::TapDisabledByUserInput => TapOutcome::Disabled,
        TapEventKind::KeyDown => TapOutcome::Key(
            KeyEvent { keycode: e.keycode as u32, down: true, flags: e.flags },
        ),
        TapEventKind::FlagsChanged => TapOutcome::Key(
            KeyEvent { keycode: e.keycode as u32, down: true, flags: e.flags },
        ),
        TapEventKind::KeyUp => TapOutcome::Key(
            KeyEvent { keycode: e.keycode as u32, down: false, flags: e.flags },
        ),
        _ => match spec_map_event(e) {
            Some(m) => TapOutcome::Mouse(m),
            None => TapOutcome::Ignored,
        },
    }
}

fn other_button(n: i64) -> (b: MouseButton)
    ensures
        b == spec_other_button(n),
{
    if n == 2 {
        MouseButton::Middle
    } else {
        MouseButton::Other(n as u8)
    }
}

/// See `spec_map_event`.
pub fn map_event(e: &TapEvent) -> (r: Option<RawMouse>)
    ensures
        r == spec_map_event(*e),
{
    match e.kind {
        TapEventKind::MouseMoved => Some(RawMouse::Move { dx: e.delta_x, dy: e.delta_y }),
        TapEventKind::LeftMouseDragged => Some(RawMouse::Move { dx: e.delta_x, dy: e.delta_y }),
        TapEventKind::RightMouseDragged => Some(RawMouse::Move { dx: e.delta_x, dy: e.delta_y }),
        TapEventKind::OtherMouseDragged => Some(RawMouse::Move { dx: e.delta_x, dy: e.delta_y }),
        TapEventKind::LeftMouseDown => Some(RawMouse::ButtonDown(MouseButton::Left)),
        TapEventKind::LeftMouseUp => Some(RawMouse::ButtonUp(MouseButton::Left)),
        TapEventKind::RightMouseDown => Some(RawMouse::ButtonDown(MouseButton::Right)),
        TapEventKind::RightMouseUp => Some(RawMouse::ButtonUp(MouseButton::Right)),
        TapEventKind::OtherMouseDown => Some(RawMouse::ButtonDown(other_button(e.button_number))),
        TapEventKind::OtherMouseUp => Some(RawMouse::ButtonUp(other_button(e.button_number))),
        TapEventKind::ScrollWheel => Some(
            RawMouse::ScrollLines { dx: e.scroll_axis_2, dy: e.scroll_axis_1 },
        ),
        _ => None,
    }
}

/// See `spec_tap_event`.
pub fn tap_event(e: &TapEvent) -> (r: TapOutcome)
    ensures
        r == spec_tap_event(*e),
{
    match e.kind {
        TapEventKind::TapDisabledByTimeout => TapOutcome::Disabled,
        TapEventKind::TapDisabledByUserInput => TapOutcome::Disabled,
        TapEventKind::KeyDown => TapOutcome::Key(
            KeyEvent { keycode: e.keycode as u32, down: true, flags: e.flags },
        ),
        TapEventKind::FlagsChanged => TapOutcome::Key(
            KeyEvent { keycode: e.keycode as u32, down: true, flags: e.flags },
        ),
        TapEventKind::KeyUp => TapOutcome::Key(
            KeyEvent { keycode: e.keycode as u32, down: false, flags: e.flags },
        ),
        _ => match map_event(e) {
            Some(m) => TapOutcome::Mouse(m),
            None => TapOutcome::Ignored,
        },
    }
}

/// Whether the tap hands the event on to the system: a disabled-tap notice
/// always passes; anything else passes unless input is being suppressed.
pub fn tap_passes(outcome: &TapOutcome, suppress: bool) -> (pass: bool)
    ensures
        pass == (outcome is Disabled || !suppress),
{
    match outcome {
        TapOutcome::Disabled => true,
        _ => !suppress,
    }
}

/// Whether the event is a click or a scroll (the tap logs which way those
/// go).
pub fn is_discrete(kind: TapEventKind) -> (r: bool)
    ensures
        r == (kind is LeftMouseDown || kind is LeftMouseUp || kind is RightMouseDown
            || kind is RightMouseUp || kind is OtherMouseDown || kind is OtherMouseUp
            || kind is ScrollWheel),
{
    match kind {
        TapEventKind::LeftMouseDown => true,
        TapEventKind::LeftMouseUp => true,
        TapEventKind::RightMouseDown => true,
        TapEventKind::RightMouseUp => true,
        TapEventKind::OtherMouseDown => true,
        TapEventKind::OtherMouseUp => true,
        TapEventKind::ScrollWheel => true,
        _ => false,
    }
}

/// While input is suppressed, nothing but a disabled-tap notice reaches the
/// system; while it is not, everything does.
pub proof fn law_suppression_swallows_everything_captured(e: TapEvent, suppress: bool)
    ensures
        (spec_tap_event(e) is Disabled || !suppress) == (!suppress || e.kind is TapDisabledByTimeout
            || e.kind is TapDisabledByUserInput),
{
}

/// Every mouse event the tap listens to is captured, never ignored: moves
/// and drags with any button held carry the raw device deltas; left and
/// right presses and releases name their button; an "other" button is the
/// middle one when its number is 2 and otherwise the extra button of that
/// number; the scroll wheel carries its horizontal and vertical amounts.
/// Key events and disabled-tap notices are not mouse events.
pub proof fn law_mouse_events_are_captured_as_they_are(e: TapEvent)
    ensures
        (e.kind is MouseMoved || e.kind is LeftMouseDragged || e.kind is RightMouseDragged
            || e.kind is OtherMouseDragged) ==> spec_tap_event(e) == TapOutcome::Mouse(
            RawMouse::Move { dx: e.delta_x, dy: e.delta_y },
        ),
        e.kind is LeftMouseDown ==> spec_tap_event(e) == TapOutcome::Mouse(
            RawMouse::ButtonDown(MouseButton::Left),
        ),
        e.kind is LeftMouseUp ==> spec_tap_event(e) == TapOutcome::Mouse(
            RawMouse::ButtonUp(MouseButton::Left),
        ),
        e.kind is RightMouseDown ==> spec_tap_event(e) == TapOutcome::Mouse(
            RawMouse::ButtonDown(MouseButton::Right),
        ),
        e.kind is RightMouseUp ==> spec_tap_event(e) == TapOutcome::Mouse(
            RawMouse::ButtonUp(MouseButton::Right),
        ),
        e.kind is OtherMouseDown ==> spec_tap_event(e) == TapOutcome::Mouse(
            RawMouse::ButtonDown(
                if e.button_number == 2 {
                    MouseButton::Middle
                } else {
                    MouseButton::Other(e.button_number as u8)
                },
            ),
        ),
        e.kind is OtherMouseUp ==> spec_tap_event(e) == TapOutcome::Mouse(
            RawMouse::ButtonUp(
                if e.button_number == 2 {
                    MouseButton::Middle
                } else {
                    MouseButton::Other(e.button_number as u8)
                },
            ),
        ),
        e.kind is ScrollWheel ==> spec_tap_event(e) == TapOutcome::Mouse(
            RawMouse::ScrollLines { dx: e.scroll_axis_2, dy: e.scroll_axis_1 },
        ),
        spec_tap_event(e) is Mouse <==> spec_map_event(e) is Some,
        spec_tap_event(e) is Ignored <==> e.kind is Other,
{
}

} // verus!
