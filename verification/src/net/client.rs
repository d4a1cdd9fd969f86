//! The client side: replaying what the server forwards, in order, with all
//! relative moves received in one drain cycle merged into a single cursor
//! move, and with the local cursor hidden exactly while the mouse is on the
//! server.

use crate::protocol::{MouseButton, ScreenInfo};
use vstd::prelude::*;

verus! {

/// Hello is sent at most this many times.
pub const HELLO_ATTEMPTS: u32 = 10;

/// How long (ns) each Hello waits for its acknowledgement.
pub const HELLO_WAIT_NS: u64 = 2_000_000_000;

/// Heartbeats are sent once more than this (ns) has passed.
pub const CLIENT_HEARTBEAT_INTERVAL_NS: u64 = 1_000_000_000;

/// The server counts as gone after this long (ms) without its heartbeat.
pub const SERVER_SILENCE_MS: u64 = 5000;

/// The client half of a session: the server it connects to.
pub struct Client {
    server_addr: String,
}

impl Client {
    pub fn new(server_addr: String) -> (r: Client)
        ensures
            r.spec_server_addr() == server_addr@,
    {
        Client { server_addr }
    }

    pub closed spec fn spec_server_addr(&self) -> Seq<char> {
        self.server_addr@
    }

    /// The address of the server, as given.
    pub fn server_addr(&self) -> (r: &str)
        ensures
            r@ == self.spec_server_addr(),
    {
        self.server_addr.as_str()
    }
}

/// A datagram from the server, as far as the replay decisions go.
#[derive(Clone, Copy, Debug, PartialEq, Eq, Structural)]
pub enum PeerMessage {
    Enter,
    Leave,
    KeyInput,
    Move,
    ButtonDown(MouseButton),
    ButtonUp(MouseButton),
    Scroll,
    Heartbeat,
    /// Any other message, or one that does not decode.
    Other,
}

/// What the client loop must do, in order, for the message at hand.
#[derive(Clone, Copy, Debug, PartialEq, Eq, Structural)]
pub enum ClientAction {
    /// Apply the accumulated relative move to the simulator, then clear it.
    FlushMove,
    PeerOn,
    PeerOff,
    ShowCursor,
    HideCursor,
    /// Record the entry position as the simulated cursor position.
    SetPosition,
    /// Move the simulated cursor to the entry position.
    MoveTo,
    /// Replay the key event.
    SimulateKey,
    /// Record that an input event arrived now.
    RecordEvent,
    /// Add the move's deltas to the accumulated move.
    Accumulate,
    ButtonDown(MouseButton),
    ButtonUp(MouseButton),
    Scroll,
    /// Record that the server's heartbeat arrived now.
    RecordHeartbeat,
}

/// The replay state of the client event loop.
#[derive(Clone, Copy, Debug, PartialEq, Eq, Structural)]
pub struct ClientFsm {
    /// Whether the mouse is on this (client) screen.
    pub active: bool,
    /// Whether this loop has hidden the local cursor.
    pub cursor_hidden: bool,
    /// Whether a relative move has been accumulated and not yet applied.
    pub have_move: bool,
    /// Monotonic time (ns) of the last heartbeat sent.
    pub last_heartbeat_ns: u64,
}

/// The flush that precedes anything that must land after earlier moves.
pub open spec fn flush_first(s: ClientFsm) -> Seq<ClientAction> {
    if s.have_move {
        seq![ClientAction::FlushMove]
    } else {
        seq![]
    }
}

/// What one message from the server does: state after, actions in order.
pub open spec fn spec_on_message(s: ClientFsm, m: PeerMessage) -> (ClientFsm, Seq<ClientAction>) {
    match m {
        PeerMessage::Enter => (
            ClientFsm { active: true, cursor_hidden: false, have_move: false, ..s },
            flush_first(s) + seq![ClientAction::PeerOn, ClientAction::SetPosition] + (
            if s.cursor_hidden {
                seq![ClientAction::ShowCursor]
            } else {
                seq![]
            }) + seq![ClientAction::MoveTo],
        ),
        PeerMessage::Leave => (
            ClientFsm { active: false, cursor_hidden: true, have_move: false, ..s },
            flush_first(s) + seq![ClientAction::PeerOff] + (if s.cursor_hidden {
                seq![]
            } else {
                seq![ClientAction::HideCursor]
            }),
        ),
        PeerMessage::KeyInput => if s.active {
            (s, seq![ClientAction::SimulateKey, ClientAction::RecordEvent])
        } else {
            (s, seq![])
        },
        PeerMessage::Move => if s.active {
            (
                ClientFsm { have_move: true, ..s },
                seq![ClientAction::RecordEvent, ClientAction::Accumulate],
            )
        } else {
            (s, seq![])
        },
        PeerMessage::ButtonDown(b) => if s.active {
            (
                ClientFsm { have_move: false, ..s },
                seq![ClientAction::RecordEvent] + flush_first(s) + seq![
                    ClientAction::ButtonDown(b),
                ],
            )
        } else {
            (s, seq![])
        },
        PeerMessage::ButtonUp(b) => if s.active {
            (
                ClientFsm { have_move: false, ..s },
                seq![ClientAction::RecordEvent] + flush_first(s) + seq![ClientAction::ButtonUp(b)],
            )
        } else {
            (s, seq![])
        },
        PeerMessage::Scroll => if s.active {
            (
                ClientFsm { have_move: false, ..s },
                seq![ClientAction::RecordEvent] + flush_first(s) + seq![ClientAction::Scroll],
            )
        } else {
            (s, seq![])
        },
        PeerMessage::Heartbeat => (s, seq![ClientAction::RecordHeartbeat]),
        PeerMessage::Other => (s, seq![]),
    }
}

/// Well-formedness: the local cursor is hidden exactly while the mouse is
/// on the server, and nothing is accumulated while the mouse is there.
pub open spec fn client_wf(s: ClientFsm) -> bool {
    &&& s.cursor_hidden == !s.active
    &&& s.have_move ==> s.active
}

/// Whether the server has been silent for too long: a heartbeat was once
/// received, and more than SERVER_SILENCE_MS have passed since (the
/// difference taken modulo 2^64, as unsigned subtraction wraps).
pub open spec fn spec_server_silent(last_heartbeat_ms: u64, now_ms: u64) -> bool {
    last_heartbeat_ms > 0 && (if now_ms >= last_heartbeat_ms {
        now_ms - last_heartbeat_ms
    } else {
        now_ms - last_heartbeat_ms + 0x1_0000_0000_0000_0000
    }) > SERVER_SILENCE_MS
}

/// How long to wait before the next cursor warp so that warps happen at
/// most once per `interval` (ns), given the time since the last warp.
pub open spec fn spec_warp_wait(since_ns: u64, interval_ns: u64) -> int {
    if since_ns < interval_ns {
        interval_ns - since_ns
    } else {
        0
    }
}

impl ClientFsm {
    /// The state at the start of the event loop: the mouse is on the
    /// server, so the local cursor is hidden (the returned action).
    pub fn start(now: u64) -> (r: (ClientFsm, Vec<ClientAction>))
        ensures
            r.0 == (ClientFsm {
                active: false,
                cursor_hidden: true,
                have_move: false,
                last_heartbeat_ns: now,
            }),
            r.1@ == seq![ClientAction::HideCursor],
            client_wf(r.0),
    {
        let mut acts: Vec<ClientAction> = Vec::new();
        acts.push(ClientAction::HideCursor);
        proof {
            assert(acts@ =~= seq![ClientAction::HideCursor]);
        }
        (ClientFsm { active: false, cursor_hidden: true, have_move: false, last_heartbeat_ns: now }, acts)
    }

    fn flush_first(&mut self, acts: &mut Vec<ClientAction>)
        ensures
            final(acts)@ == old(acts)@ + flush_first(*old(self)),
            *final(self) == (ClientFsm { have_move: false, ..*old(self) }),
    {
        if self.have_move {
            acts.push(ClientAction::FlushMove);
            self.have_move = false;
        }
        proof {
            assert(final(acts)@ =~= old(acts)@ + flush_first(*old(self)));
        }
    }

    /// The decisions for one message from the server.
    pub fn on_message(&mut self, m: PeerMessage) -> (acts: Vec<ClientAction>)
        ensures
            (*final(self), acts@) == spec_on_message(*old(self), m),
    {
        let mut acts: Vec<ClientAction> = Vec::new();
        match m {
            PeerMessage::Enter => {
                self.flush_first(&mut acts);
                self.active = true;
                acts.push(ClientAction::PeerOn);
                acts.push(ClientAction::SetPosition);
                if self.cursor_hidden {
                    acts.push(ClientAction::ShowCursor);
                    self.cursor_hidden = false;
                }
                acts.push(ClientAction::MoveTo);
            },
            PeerMessage::Leave => {
                self.flush_first(&mut acts);
                self.active = false;
                acts.push(ClientAction::PeerOff);
                if !self.cursor_hidden {
                    acts.push(ClientAction::HideCursor);
                    self.cursor_hidden = true;
                }
            },
            PeerMessage::KeyInput => {
                if self.active {
                    acts.push(ClientAction::SimulateKey);
                    acts.push(ClientAction::RecordEvent);
                }
            },
            PeerMessage::Move => {
                if self.active {
                    acts.push(ClientAction::RecordEvent);
                    acts.push(ClientAction::Accumulate);
                    self.have_move = true;
                }
            },
            PeerMessage::ButtonDown(b) => {
                if self.active {
                    acts.push(ClientAction::RecordEvent);
                    self.flush_first(&mut acts);
                    acts.push(ClientAction::ButtonDown(b));
                }
            },
            PeerMessage::ButtonUp(b) => {
                if self.active {
                    acts.push(ClientAction::RecordEvent);
                    self.flush_first(&mut acts);
                    acts.push(ClientAction::ButtonUp(b));
                }
            },
            PeerMessage::Scroll => {
                if self.active {
                    acts.push(ClientAction::RecordEvent);
                    self.flush_first(&mut acts);
                    acts.push(ClientAction::Scroll);
                }
            },
            PeerMessage::Heartbeat => {
                acts.push(ClientAction::RecordHeartbeat);
            },
            PeerMessage::Other => {},
        }
        proof {
            let (_, a) = spec_on_message(*old(self), m);
            assert(acts@ =~= a);
        }
        acts
    }

    /// End of a drain cycle: whether the accumulated move must be applied
    /// now; it no longer counts as pending afterwards.
    pub fn end_of_drain(&mut self) -> (flush: bool)
        ensures
            flush == old(self).have_move,
            *final(self) == (ClientFsm { have_move: false, ..*old(self) }),
    {
        let flush = self.have_move;
        self.have_move = false;
        flush
    }

    /// Whether a heartbeat is due now; if so, it counts as sent.
    pub fn heartbeat_due(&mut self, now: u64) -> (due: bool)
        ensures
            due == (now - old(self).last_heartbeat_ns > CLIENT_HEARTBEAT_INTERVAL_NS),
            *final(self) == (if due {
                ClientFsm { last_heartbeat_ns: now, ..*old(self) }
            } else {
                *old(self)
            }),
    {
        if now.saturating_sub(self.last_heartbeat_ns) > CLIENT_HEARTBEAT_INTERVAL_NS {
            self.last_heartbeat_ns = now;
            true
        } else {
            false
        }
    }

    /// Teardown: the mouse is reported back and the cursor is shown if this
    /// loop hid it.
    pub fn on_exit(self) -> (acts: Vec<ClientAction>)
        ensures
            acts@ == seq![ClientAction::PeerOff] + (if self.cursor_hidden {
                seq![ClientAction::ShowCursor]
            } else {
                seq![]
            }),
    {
        let mut acts: Vec<ClientAction> = Vec::new();
        acts.push(ClientAction::PeerOff);
        if self.cursor_hidden {
            acts.push(ClientAction::ShowCursor);
        }
        proof {
            assert(acts@ =~= seq![ClientAction::PeerOff] + (if self.cursor_hidden {
                seq![ClientAction::ShowCursor]
            } else {
                seq![]
            }));
        }
        acts
    }
}

/// See `spec_server_silent`.
pub fn server_silent(last_heartbeat_ms: u64, now_ms: u64) -> (r: bool)
    ensures
        r == spec_server_silent(last_heartbeat_ms, now_ms),
{
    let elapsed = now_ms.wrapping_sub(last_heartbeat_ms);
    last_heartbeat_ms > 0 && elapsed > SERVER_SILENCE_MS
}

/// See `spec_warp_wait`.
pub fn warp_wait(since_ns: u64, interval_ns: u64) -> (r: u64)
    ensures
        r == spec_warp_wait(since_ns, interval_ns),
{
    if since_ns < interval_ns {
        interval_ns - since_ns
    } else {
        0
    }
}

/// The steps of the Hello handshake that decide when to give up.
pub struct Handshake {
    /// How many Hellos have been sent.
    pub sent: u32,
}

/// What one receive while waiting for the acknowledgement turned up.
pub enum HandshakeReply {
    /// The server acknowledged, with its screen.
    Ack(ScreenInfo),
    /// A datagram that is not an acknowledgement.
    Other,
    /// Nothing arrived before the socket's read timeout.
    Nothing,
    /// The socket failed.
    Failed,
}

/// What to do after a receive.
#[derive(Clone, Copy, Debug, PartialEq, Eq, Structural)]
pub enum HandshakeVerdict {
    Connected(ScreenInfo),
    KeepWaiting,
    Fail,
}

impl Handshake {
    pub fn new() -> (r: Handshake)
        ensures
            r.sent == 0,
    {
        Handshake { sent: 0 }
    }

    /// Starts the next attempt if any remain (true: send Hello again).
    pub fn next_attempt(&mut self) -> (more: bool)
        ensures
            more == (old(self).sent < HELLO_ATTEMPTS),
            final(self).sent == (if more {
                old(self).sent + 1
            } else {
                old(self).sent as int
            }),
    {
        if self.sent < HELLO_ATTEMPTS {
            self.sent = self.sent + 1;
            true
        } else {
            false
        }
    }

    /// What a receive during the wait means.
    pub fn on_reply(reply: HandshakeReply) -> (v: HandshakeVerdict)
        ensures
            v == (match reply {
                HandshakeReply::Ack(screen) => HandshakeVerdict::Connected(screen),
                HandshakeReply::Other => HandshakeVerdict::KeepWaiting,
                HandshakeReply::Nothing => HandshakeVerdict::KeepWaiting,
                HandshakeReply::Failed => HandshakeVerdict::Fail,
            }),
    {
        match reply {
            HandshakeReply::Ack(screen) => HandshakeVerdict::Connected(screen),
            HandshakeReply::Other => HandshakeVerdict::KeepWaiting,
            HandshakeReply::Nothing => HandshakeVerdict::KeepWaiting,
            HandshakeReply::Failed => HandshakeVerdict::Fail,
        }
    }
}

} // verus!
