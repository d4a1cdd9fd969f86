//! Input capture and simulation: the platform-independent part of turning
//! hook and event-tap callbacks into captured events, and of choosing what
//! to post when replaying them.

use crate::protocol::MouseButton;
use vstd::prelude::*;

pub mod macos_capture;
pub mod simulate;
pub mod win_capture;

verus! {

/// A mouse event as captured, before it is put on the wire. Every quantity
/// is the integer the platform reports.
#[derive(Clone, Copy, Debug, PartialEq, Eq, Structural)]
pub enum RawMouse {
    /// Relative movement.
    Move { dx: i64, dy: i64 },
    ButtonDown(MouseButton),
    ButtonUp(MouseButton),
    /// Scroll amounts from the scroll-wheel fields of a macOS event.
    ScrollLines { dx: i64, dy: i64 },
    /// Windows wheel rotation, in 1/120 of a notch, on one axis.
    ScrollWheel { horizontal: bool, delta: i32 },
}

} // verus!
