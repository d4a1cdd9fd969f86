//! Value types carried by the wire protocol.

use vstd::prelude::*;

verus! {

/// A mouse button as captured on the server and simulated on the client.
#[derive(Clone, Copy, Debug, PartialEq, Eq, Structural)]
pub enum MouseButton {
    Left,
    Right,
    Middle,
    Other(u8),
}

/// A keyboard key press or release. Keycodes are platform-native
/// (CGKeyCode on macOS, virtual-key codes on Windows).
#[derive(Clone, Copy, Debug, PartialEq, Eq, Structural)]
pub struct KeyEvent {
    pub keycode: u32,
    pub down: bool,
    /// macOS: modifier-flag bitfield. Windows: bit 0 marks an extended key.
    pub flags: u64,
}

/// Pixel dimensions of a screen.
#[derive(Clone, Copy, Debug, PartialEq, Eq, Structural)]
pub struct ScreenInfo {
    pub width: u32,
    pub height: u32,
}

} // verus!
