//! Shared backend of mouse-share: the wire-level value types, the screen
//! configuration, the server and client decision state machines, the
//! clipboard framing and de-duplication rules, and the input-capture
//! event mapping. Everything here is verified with Verus; the platform
//! and network plumbing that drives it lives in the application crate.

pub mod clipboard;
pub mod config;
pub mod input;
pub mod log_buffer;
pub mod net;
pub mod protocol;
