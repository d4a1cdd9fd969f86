//! State shared between the session backend (server or client loop,
//! clipboard, input capture) and the user interface.
//!
//! The backend threads update the atomics and the locked fields; the UI
//! reads them. Other threads may change any field at any time, so nothing
//! is known here about the values they hold after a call returns.

use std::sync::atomic::{AtomicBool, AtomicU64};
use std::sync::Mutex;
use std::time::{Duration, SystemTime, SystemTimeError};
use vstd::prelude::*;

verus! {

#[verifier::external_type_specification]
#[verifier::external_body]
#[verifier::reject_recursive_types(T)]
pub struct ExMutex<T: ?Sized>(Mutex<T>);

#[verifier::external_type_specification]
#[verifier::external_body]
pub struct ExSystemTime(SystemTime);

#[verifier::external_type_specification]
#[verifier::external_body]
pub struct ExSystemTimeError(SystemTimeError);

/// `Mutex::new`: creates an unlocked mutex holding the value. The contents
/// are not modelled, so nothing is claimed about the result.
pub assume_specification<T>[ Mutex::<T>::new ](t: T) -> Mutex<T>;

/// Stores `value` in the mutex, through `Mutex::lock`; a lock poisoned by a
/// thread that panicked while holding it is taken over all the same
/// (`PoisonError::into_inner`). The library holds these locks only for this
/// store and for `read_locked`, never nested, and the mutexes are private to
/// `SharedState`, so the call does not block for ever. Nothing is claimed
/// about the contents afterwards: other threads may overwrite them at once.
#[verifier::external_body]
fn store_locked(m: &Mutex<Option<String>>, value: Option<String>) {
    match m.lock() {
        Ok(mut g) => *g = value,
        Err(p) => *p.into_inner() = value,
    }
}

/// A copy of the mutex's contents, through `Mutex::lock` (a poisoned lock is
/// taken over as in `store_locked`). Other threads may change the contents
/// at any time, so nothing is claimed about the copy.
#[verifier::external_body]
fn read_locked(m: &Mutex<Option<String>>) -> Option<String> {
    match m.lock() {
        Ok(g) => g.clone(),
        Err(p) => p.into_inner().clone(),
    }
}

/// `SystemTime::now`. The result depends on the clock; nothing is claimed.
#[verifier::external_body]
fn system_now() -> SystemTime {
    SystemTime::now()
}

/// `SystemTime::duration_since(UNIX_EPOCH)`: the time elapsed since the
/// epoch, or an error when the time lies before it. Nothing more is claimed.
#[verifier::external_body]
fn since_unix_epoch(t: &SystemTime) -> Result<Duration, SystemTimeError> {
    t.duration_since(std::time::UNIX_EPOCH)
}

/// `Duration::as_millis`: the whole milliseconds of the duration. Durations
/// are opaque here, so nothing is claimed about the number.
#[verifier::external_body]
fn duration_millis(d: &Duration) -> u128 {
    d.as_millis()
}

/// Observable state of a running server or client session.
pub struct SharedState {
    /// Set by the UI to ask the backend to stop; every backend loop checks
    /// it on each iteration.
    pub shutdown: AtomicBool,
    /// Whether a peer is connected and the session is live.
    pub connected: AtomicBool,
    /// Address of the peer, once known.
    peer_addr: Mutex<Option<String>>,
    /// Whether the cursor has been handed to the other side.
    pub mouse_on_peer: AtomicBool,
    /// Unix milliseconds of the last input event.
    pub last_event_ms: AtomicU64,
    /// Unix milliseconds of the last heartbeat received from the peer.
    pub last_heartbeat_ms: AtomicU64,
    /// Unix milliseconds of when the session started.
    pub started_ms: AtomicU64,
    /// The last non-fatal error, if any.
    last_error: Mutex<Option<String>>,
}

impl SharedState {
    /// Fresh state: not shut down, not connected, no peer, mouse local,
    /// every timestamp zero, no error.
    pub fn new() -> SharedState {
        SharedState {
            shutdown: AtomicBool::new(false),
            connected: AtomicBool::new(false),
            peer_addr: Mutex::new(None),
            mouse_on_peer: AtomicBool::new(false),
            last_event_ms: AtomicU64::new(0),
            last_heartbeat_ms: AtomicU64::new(0),
            started_ms: AtomicU64::new(0),
            last_error: Mutex::new(None),
        }
    }

    /// Records `err` as the last error.
    pub fn set_error<S: Into<String>>(&self, err: S) {
        store_locked(&self.last_error, Some(err.into()));
    }

    /// The last error, if any.
    pub fn last_error(&self) -> Option<String> {
        read_locked(&self.last_error)
    }

    /// Clears the last error.
    pub fn clear_error(&self) {
        store_locked(&self.last_error, None);
    }

    /// Records the address of the peer.
    pub fn set_peer<S: Into<String>>(&self, addr: S) {
        store_locked(&self.peer_addr, Some(addr.into()));
    }

    /// The address of the peer, once known.
    pub fn peer_addr(&self) -> Option<String> {
        read_locked(&self.peer_addr)
    }
}

impl Default for SharedState {
    /// The same as `SharedState::new`.
    fn default() -> SharedState {
        SharedState::new()
    }
}

/// Milliseconds as a `u64`: the low 64 bits of the count, or zero when the
/// clock reads a time before the Unix epoch.
pub fn millis_or_zero(millis: Option<u128>) -> (r: u64)
    ensures
        r == match millis {
            Some(m) => m as u64,
            None => 0,
        },
{
    match millis {
        Some(m) => m as u64,
        None => 0,
    }
}

/// Current time in milliseconds since the Unix epoch (zero if the clock
/// reads an earlier time).
pub fn now_ms() -> u64 {
    let since = since_unix_epoch(&system_now());
    let millis = match since {
        Ok(d) => Some(duration_millis(&d)),
        Err(_) => None,
    };
    millis_or_zero(millis)
}

} // verus!
