//! The server side: deciding when control passes to the client and back,
//! which captured events are forwarded, and how consecutive moves are
//! coalesced into one packet.
//!
//! The server keeps a virtual cursor on the client screen. Only its
//! coordinate along the crossing axis (x for the left/right edges, y for
//! top/bottom) takes part in any decision, and it starts at an integer
//! column or row and moves by the integer deltas that the capture layer
//! reports, so it is tracked here exactly in integers.

use crate::config::{Edge, ScreenConfig};
use crate::protocol::ScreenInfo;
use vstd::prelude::*;

verus! {

/// How far the virtual cursor must travel into the client screen, from the
/// entry point, before the "return to server" check is armed. Without it the
/// entry point and the return threshold would coincide and every event would
/// flip control back.
pub const RETURN_ARM_DISTANCE: i64 = 20;

/// With no forwarded event for longer than this (in nanoseconds), the
/// server releases the mouse.
pub const SUPPRESS_TIMEOUT_NS: u64 = 5_000_000_000;

/// Heartbeats are sent once more than this (in nanoseconds) has passed.
pub const HEARTBEAT_INTERVAL_NS: u64 = 1_000_000_000;

/// The server half of a session: the UDP port it listens on and the edge of
/// its screen that leads to the client.
pub struct Server {
    port: u16,
    edge: Edge,
}

impl Server {
    pub fn new(port: u16, edge: Edge) -> (r: Server)
        ensures
            r.spec_port() == port,
            r.spec_edge() == edge,
    {
        Server { port, edge }
    }

    pub closed spec fn spec_port(&self) -> u16 {
        self.port
    }

    pub closed spec fn spec_edge(&self) -> Edge {
        self.edge
    }

    pub fn port(&self) -> (r: u16)
        ensures
            r == self.spec_port(),
    {
        self.port
    }

    pub fn edge(&self) -> (r: Edge)
        ensures
            r == self.spec_edge(),
    {
        self.edge
    }

    /// The clipboard runs over TCP on the port right after the UDP port.
    pub fn clipboard_port(&self) -> (r: u16)
        requires
            self.spec_port() < u16::MAX,
        ensures
            r == self.spec_port() + 1,
    {
        self.port + 1
    }
}

/// What a captured input event is, as far as the forwarding decisions go.
/// Move deltas are the raw integer deltas reported by the capture layer.
#[derive(Clone, Copy, Debug, PartialEq, Eq, Structural)]
pub enum InputKind {
    Key,
    Move { dx: i64, dy: i64 },
    Button,
    Scroll,
}

/// A captured event together with whether its absolute cursor position lies
/// on the transition edge of the server screen.
#[derive(Clone, Copy, Debug, PartialEq, Eq, Structural)]
pub struct CapturedEvent {
    pub kind: InputKind,
    pub at_edge: bool,
}

/// What the server loop must do, in order. Events are named by their index
/// in the batch that was planned.
#[derive(Clone, Copy, Debug, PartialEq, Eq, Structural)]
pub enum ServerAction {
    /// Start swallowing local input.
    SuppressOn,
    /// Stop swallowing local input.
    SuppressOff,
    /// Report to the UI that the mouse is on the peer.
    PeerOn,
    /// Report to the UI that the mouse is back.
    PeerOff,
    HideCursor,
    ShowCursor,
    /// Send `Enter` at the entry position of this event's cursor position;
    /// a send failure ends the loop.
    SendEnter { event: usize },
    /// Send `Leave`; when `strict`, a send failure ends the loop.
    SendLeave { strict: bool },
    /// Send one coalesced move with these summed deltas.
    SendMove { dx: i128, dy: i128 },
    /// Forward this key event.
    ForwardKey { event: usize },
    /// Forward this button or scroll event.
    ForwardMouse { event: usize },
}

/// The virtual cursor along the crossing axis.
#[derive(Clone, Copy, Debug, PartialEq, Eq, Structural)]
pub struct ReturnTracker {
    /// Where the cursor entered the client screen.
    pub entry: i64,
    /// Current position.
    pub pos: i64,
    /// Whether the return check is armed.
    pub armed: bool,
}

/// Move deltas accumulated since the last packet.
#[derive(Clone, Copy, Debug, PartialEq, Eq, Structural)]
pub struct PendingMove {
    pub dx: i128,
    pub dy: i128,
    pub have: bool,
}

/// The forwarding state of the server event loop.
#[derive(Clone, Copy, Debug, PartialEq, Eq, Structural)]
pub struct ServerFsm {
    pub edge: Edge,
    /// Size of the client screen along the crossing axis.
    pub extent: i64,
    /// Whether input is being forwarded to the client.
    pub forwarding: bool,
    /// Whether this loop has hidden the local cursor.
    pub cursor_hidden: bool,
    pub tracker: ReturnTracker,
    /// Monotonic time (ns) of the last forwarded event.
    pub last_forward_ns: u64,
    /// Monotonic time (ns) of the last heartbeat sent.
    pub last_heartbeat_ns: u64,
}

// ---------------------------------------------------------------------------
// The decisions, as mathematics
// ---------------------------------------------------------------------------

/// Whether the edge is crossed horizontally.
pub open spec fn horizontal(edge: Edge) -> bool {
    edge is Left || edge is Right
}

/// The component of a move along the crossing axis.
pub open spec fn axis_delta(edge: Edge, dx: i64, dy: i64) -> int {
    if horizontal(edge) {
        dx as int
    } else {
        dy as int
    }
}

/// The extent of a screen along the crossing axis.
pub open spec fn axis_extent(edge: Edge, screen: ScreenInfo) -> int {
    if horizontal(edge) {
        screen.width as int
    } else {
        screen.height as int
    }
}

/// Where the cursor lands on the client screen, along the crossing axis:
/// the client is entered from the side facing the server.
pub open spec fn entry_coord(edge: Edge, extent: int) -> int {
    match edge {
        Edge::Right => 0,
        Edge::Bottom => 0,
        Edge::Left => extent - 1,
        Edge::Top => extent - 1,
    }
}

/// How far `pos` lies inside the client screen, measured from the entry.
pub open spec fn moved_inside(edge: Edge, entry: int, pos: int) -> int {
    match edge {
        Edge::Right => pos - entry,
        Edge::Bottom => pos - entry,
        Edge::Left => entry - pos,
        Edge::Top => entry - pos,
    }
}

/// Whether `pos` has reached the side of the client screen that faces the
/// server.
pub open spec fn at_return_edge(edge: Edge, pos: int, extent: int) -> bool {
    match edge {
        Edge::Right => pos <= 0,
        Edge::Bottom => pos <= 0,
        Edge::Left => pos >= extent - 1,
        Edge::Top => pos >= extent - 1,
    }
}

pub open spec fn clamp(v: int, lo: int, hi: int) -> int {
    if v < lo {
        lo
    } else if v > hi {
        hi
    } else {
        v
    }
}

/// The virtual cursor right after entering the client screen.
pub open spec fn spec_entered(edge: Edge, extent: int) -> ReturnTracker {
    ReturnTracker {
        entry: entry_coord(edge, extent) as i64,
        pos: entry_coord(edge, extent) as i64,
        armed: false,
    }
}

/// Moves the virtual cursor by `d`; the flag tells whether control returns
/// to the server. The position is kept on the screen.
pub open spec fn spec_track(edge: Edge, extent: int, t: ReturnTracker, d: int) -> (
    bool,
    ReturnTracker,
) {
    let p = t.pos + d;
    let armed = t.armed || moved_inside(edge, t.entry as int, p) >= RETURN_ARM_DISTANCE;
    let back = armed && at_return_edge(edge, p, extent);
    (back, ReturnTracker { entry: t.entry, pos: clamp(p, 0, extent - 1) as i64, armed })
}

/// Emits the pending coalesced move, if there is one.
pub open spec fn spec_flush(p: PendingMove) -> (PendingMove, Seq<ServerAction>) {
    if p.have {
        (
            PendingMove { dx: 0, dy: 0, have: false },
            seq![ServerAction::SendMove { dx: p.dx, dy: p.dy }],
        )
    } else {
        (p, seq![])
    }
}

pub open spec fn no_pending() -> PendingMove {
    PendingMove { dx: 0, dy: 0, have: false }
}

/// What one captured event does: state after, pending move after, actions.
pub open spec fn spec_step(
    s: ServerFsm,
    p: PendingMove,
    ev: CapturedEvent,
    idx: usize,
    now: u64,
) -> (ServerFsm, PendingMove, Seq<ServerAction>) {
    match ev.kind {
        InputKind::Key => {
            if s.forwarding {
                let (p1, a1) = spec_flush(p);
                (
                    ServerFsm { last_forward_ns: now, ..s },
                    p1,
                    a1.push(ServerAction::ForwardKey { event: idx }),
                )
            } else {
                (s, p, seq![])
            }
        },
        _ => {
            if !s.forwarding && ev.at_edge {
                let hide = if s.cursor_hidden {
                    seq![]
                } else {
                    seq![ServerAction::HideCursor]
                };
                (
                    ServerFsm {
                        forwarding: true,
                        cursor_hidden: true,
                        tracker: spec_entered(s.edge, s.extent as int),
                        last_forward_ns: now,
                        ..s
                    },
                    p,
                    seq![ServerAction::SuppressOn, ServerAction::PeerOn] + hide + seq![
                        ServerAction::SendEnter { event: idx },
                    ],
                )
            } else if s.forwarding {
                let d = match ev.kind {
                    InputKind::Move { dx, dy } => axis_delta(s.edge, dx, dy),
                    _ => 0,
                };
                let (back, t1) = spec_track(s.edge, s.extent as int, s.tracker, d);
                let s1 = ServerFsm { tracker: t1, last_forward_ns: now, ..s };
                if back {
                    let (p1, a1) = spec_flush(p);
                    let show = if s.cursor_hidden {
                        seq![ServerAction::ShowCursor]
                    } else {
                        seq![]
                    };
                    (
                        ServerFsm { forwarding: false, cursor_hidden: false, ..s1 },
                        p1,
                        a1 + seq![ServerAction::SuppressOff, ServerAction::PeerOff] + show
                            + seq![ServerAction::SendLeave { strict: true }],
                    )
                } else {
                    match ev.kind {
                        InputKind::Move { dx, dy } => (
                            s1,
                            PendingMove {
                                dx: (p.dx + dx) as i128,
                                dy: (p.dy + dy) as i128,
                                have: true,
                            },
                            seq![],
                        ),
                        _ => {
                            let (p1, a1) = spec_flush(p);
                            (s1, p1, a1.push(ServerAction::ForwardMouse { event: idx }))
                        },
                    }
                }
            } else {
                (s, p, seq![])
            }
        },
    }
}

/// The first `n` events of a batch, in order.
pub open spec fn spec_plan_prefix(
    s: ServerFsm,
    batch: Seq<CapturedEvent>,
    n: nat,
    now: u64,
) -> (ServerFsm, PendingMove, Seq<ServerAction>)
    decreases n,
{
    if n == 0 {
        (s, no_pending(), seq![])
    } else {
        let (s1, p1, a1) = spec_plan_prefix(s, batch, (n - 1) as nat, now);
        let (s2, p2, a2) = spec_step(s1, p1, batch[n - 1], (n - 1) as usize, now);
        (s2, p2, a1 + a2)
    }
}

/// A whole drain cycle: every event in order, then the trailing flush.
pub open spec fn spec_plan(s: ServerFsm, batch: Seq<CapturedEvent>, now: u64) -> (
    ServerFsm,
    Seq<ServerAction>,
) {
    let (s1, p1, a1) = spec_plan_prefix(s, batch, batch.len(), now);
    let (_, a2) = spec_flush(p1);
    (s1, a1 + a2)
}

/// The watchdog: after too long without a forwarded event, control comes
/// back to the server.
pub open spec fn spec_watchdog(s: ServerFsm, now: u64) -> (ServerFsm, Seq<ServerAction>) {
    if s.forwarding && now - s.last_forward_ns > SUPPRESS_TIMEOUT_NS {
        let show = if s.cursor_hidden {
            seq![ServerAction::ShowCursor]
        } else {
            seq![]
        };
        (
            ServerFsm { forwarding: false, cursor_hidden: false, ..s },
            seq![ServerAction::SuppressOff, ServerAction::PeerOff] + show + seq![
                ServerAction::SendLeave { strict: false },
            ],
        )
    } else {
        (s, seq![])
    }
}

/// Well-formedness of the state.
pub open spec fn wf(s: ServerFsm) -> bool {
    &&& 1 <= s.extent <= u32::MAX
    &&& s.cursor_hidden == s.forwarding
    &&& s.tracker.entry == entry_coord(s.edge, s.extent as int)
    &&& 0 <= s.tracker.pos < s.extent
}

/// Bound on a pending move after at most `n` accumulated events.
pub open spec fn pending_bounded(p: PendingMove, n: int) -> bool {
    &&& -n * 0x8000_0000_0000_0000 <= p.dx <= n * 0x8000_0000_0000_0000
    &&& -n * 0x8000_0000_0000_0000 <= p.dy <= n * 0x8000_0000_0000_0000
}

// ---------------------------------------------------------------------------
// The decisions, as code
// ---------------------------------------------------------------------------

fn flush(p: &mut PendingMove, acts: &mut Vec<ServerAction>)
    ensures
        (*final(p), final(acts)@) == ({
            let (p1, a1) = spec_flush(*old(p));
            (p1, old(acts)@ + a1)
        }),
{
    if p.have {
        acts.push(ServerAction::SendMove { dx: p.dx, dy: p.dy });
        *p = PendingMove { dx: 0, dy: 0, have: false };
    }
    proof {
        let (_, a1) = spec_flush(*old(p));
        assert(final(acts)@ =~= old(acts)@ + a1);
    }
}

fn track(edge: Edge, extent: i64, t: ReturnTracker, d: i64) -> (r: (bool, ReturnTracker))
    requires
        1 <= extent,
    ensures
        r == spec_track(edge, extent as int, t, d as int),
{
    let p: i128 = t.pos as i128 + d as i128;
    let inside: i128 = match edge {
        Edge::Right => p - t.entry as i128,
        Edge::Bottom => p - t.entry as i128,
        Edge::Left => t.entry as i128 - p,
        Edge::Top => t.entry as i128 - p,
    };
    let armed = t.armed || inside >= RETURN_ARM_DISTANCE as i128;
    let at_edge = match edge {
        Edge::Right => p <= 0,
        Edge::Bottom => p <= 0,
        Edge::Left => p >= extent as i128 - 1,
        Edge::Top => p >= extent as i128 - 1,
    };
    let hi: i128 = extent as i128 - 1;
    let c: i128 = if p < 0 {
        0
    } else if p > hi {
        hi
    } else {
        p
    };
    (armed && at_edge, ReturnTracker { entry: t.entry, pos: c as i64, armed })
}

impl ServerFsm {
    /// The state at the start of the event loop: nothing forwarded, cursor
    /// shown. The client screen must have a width and a height of at least
    /// one pixel (the cursor is kept inside it).
    pub fn new(config: &ScreenConfig, now: u64) -> (r: ServerFsm)
        requires
            config.spec_target_screen().width >= 1,
            config.spec_target_screen().height >= 1,
        ensures
            wf(r),
            r.edge == config.edge,
            r.extent == axis_extent(config.edge, config.spec_target_screen()),
            !r.forwarding,
            !r.cursor_hidden,
            r.tracker == spec_entered(config.edge, r.extent as int),
            r.last_forward_ns == now,
            r.last_heartbeat_ns == now,
    {
        let screen = config.target_screen();
        let extent: i64 = match config.edge {
            Edge::Left => screen.width as i64,
            Edge::Right => screen.width as i64,
            Edge::Top => screen.height as i64,
            Edge::Bottom => screen.height as i64,
        };
        let entry: i64 = match config.edge {
            Edge::Right => 0,
            Edge::Bottom => 0,
            Edge::Left => extent - 1,
            Edge::Top => extent - 1,
        };
        ServerFsm {
            edge: config.edge,
            extent,
            forwarding: false,
            cursor_hidden: false,
            tracker: ReturnTracker { entry, pos: entry, armed: false },
            last_forward_ns: now,
            last_heartbeat_ns: now,
        }
    }

    fn step(
        &mut self,
        p: &mut PendingMove,
        ev: CapturedEvent,
        idx: usize,
        now: u64,
        acts: &mut Vec<ServerAction>,
    )
        requires
            wf(*old(self)),
            pending_bounded(*old(p), idx as int),
            idx < 0x8000_0000_0000_0000,
        ensures
            (*final(self), *final(p), final(acts)@) == ({
                let (s1, p1, a1) = spec_step(*old(self), *old(p), ev, idx, now);
                (s1, p1, old(acts)@ + a1)
            }),
    {
        let ghost a0 = acts@;
        match ev.kind {
            InputKind::Key => {
                if self.forwarding {
                    flush(p, acts);
                    self.last_forward_ns = now;
                    acts.push(ServerAction::ForwardKey { event: idx });
                }
            },
            _ => {
                if !self.forwarding && ev.at_edge {
                    self.forwarding = true;
                    acts.push(ServerAction::SuppressOn);
                    acts.push(ServerAction::PeerOn);
                    if !self.cursor_hidden {
                        acts.push(ServerAction::HideCursor);
                        self.cursor_hidden = true;
                    }
                    let entry: i64 = match self.edge {
                        Edge::Right => 0,
                        Edge::Bottom => 0,
                        Edge::Left => self.extent - 1,
                        Edge::Top => self.extent - 1,
                    };
                    self.tracker = ReturnTracker { entry, pos: entry, armed: false };
                    self.last_forward_ns = now;
                    acts.push(ServerAction::SendEnter { event: idx });
                } else if self.forwarding {
                    self.last_forward_ns = now;
                    let d: i64 = match ev.kind {
                        InputKind::Move { dx, dy } => match self.edge {
                            Edge::Left => dx,
                            Edge::Right => dx,
                            Edge::Top => dy,
                            Edge::Bottom => dy,
                        },
                        _ => 0,
                    };
                    let (back, t1) = track(self.edge, self.extent, self.tracker, d);
                    self.tracker = t1;
                    if back {
                        flush(p, acts);
                        self.forwarding = false;
                        acts.push(ServerAction::SuppressOff);
                        acts.push(ServerAction::PeerOff);
                        if self.cursor_hidden {
                            acts.push(ServerAction::ShowCursor);
                            self.cursor_hidden = false;
                        }
                        acts.push(ServerAction::SendLeave { strict: true });
                    } else {
                        match ev.kind {
                            InputKind::Move { dx, dy } => {
                                *p = PendingMove {
                                    dx: p.dx + dx as i128,
                                    dy: p.dy + dy as i128,
                                    have: true,
                                };
                            },
                            _ => {
                                flush(p, acts);
                                acts.push(ServerAction::ForwardMouse { event: idx });
                            },
                        }
                    }
                }
            },
        }
        proof {
            let (s1, p1, a1) = spec_step(*old(self), *old(p), ev, idx, now);
            assert(acts@ =~= a0 + a1);
        }
    }

    /// Plans one drain cycle of the capture channel: every event in order,
    /// then one coalesced move for whatever is still pending.
    pub fn plan_batch(&mut self, batch: &Vec<CapturedEvent>, now: u64) -> (acts: Vec<ServerAction>)
        requires
            wf(*old(self)),
            batch@.len() <= isize::MAX,
        ensures
            (*final(self), acts@) == spec_plan(*old(self), batch@, now),
            wf(*final(self)),
    {
        let mut acts: Vec<ServerAction> = Vec::new();
        let mut p = PendingMove { dx: 0, dy: 0, have: false };
        let mut i: usize = 0;
        while i < batch.len()
            invariant
                0 <= i <= batch@.len() <= isize::MAX,
                wf(*self),
                pending_bounded(p, i as int),
                (*self, p, acts@) == spec_plan_prefix(*old(self), batch@, i as nat, now),
            decreases batch@.len() - i,
        {
            let ghost before = (*self, p, acts@);
            self.step(&mut p, batch[i], i, now, &mut acts);
            proof {
                lemma_step_wf(before.0, before.1, batch@[i as int], i, now);
            }
            i = i + 1;
        }
        flush(&mut p, &mut acts);
        acts
    }

    /// The watchdog check at the top of every loop iteration.
    pub fn watchdog(&mut self, now: u64) -> (acts: Vec<ServerAction>)
        requires
            wf(*old(self)),
        ensures
            (*final(self), acts@) == spec_watchdog(*old(self), now),
            wf(*final(self)),
    {
        let mut acts: Vec<ServerAction> = Vec::new();
        if self.forwarding && now.saturating_sub(self.last_forward_ns) > SUPPRESS_TIMEOUT_NS {
            self.forwarding = false;
            acts.push(ServerAction::SuppressOff);
            acts.push(ServerAction::PeerOff);
            if self.cursor_hidden {
                acts.push(ServerAction::ShowCursor);
                self.cursor_hidden = false;
            }
            acts.push(ServerAction::SendLeave { strict: false });
        }
        proof {
            let (_, a) = spec_watchdog(*old(self), now);
            assert(acts@ =~= a);
        }
        acts
    }

    /// Whether a heartbeat is due now; if so, it counts as sent.
    pub fn heartbeat_due(&mut self, now: u64) -> (due: bool)
        ensures
            due == (now - old(self).last_heartbeat_ns > HEARTBEAT_INTERVAL_NS),
            *final(self) == (if due {
                ServerFsm { last_heartbeat_ns: now, ..*old(self) }
            } else {
                *old(self)
            }),
    {
        if now.saturating_sub(self.last_heartbeat_ns) > HEARTBEAT_INTERVAL_NS {
            self.last_heartbeat_ns = now;
            true
        } else {
            false
        }
    }

    /// What the loop does when the UI asks it to stop: release suppression,
    /// show the cursor if this loop hid it, tell the client to leave.
    pub fn on_shutdown(self) -> (acts: Vec<ServerAction>)
        ensures
            acts@ == seq![ServerAction::SuppressOff] + (if self.cursor_hidden {
                seq![ServerAction::ShowCursor]
            } else {
                seq![]
            }) + seq![ServerAction::SendLeave { strict: false }],
    {
        let mut acts: Vec<ServerAction> = Vec::new();
        acts.push(ServerAction::SuppressOff);
        if self.cursor_hidden {
            acts.push(ServerAction::ShowCursor);
        }
        acts.push(ServerAction::SendLeave { strict: false });
        proof {
            assert(acts@ =~= seq![ServerAction::SuppressOff] + (if self.cursor_hidden {
                seq![ServerAction::ShowCursor]
            } else {
                seq![]
            }) + seq![ServerAction::SendLeave { strict: false }]);
        }
        acts
    }

    /// What the loop does when the capture thread has gone away: release
    /// suppression and show the cursor if this loop hid it.
    pub fn on_capture_lost(self) -> (acts: Vec<ServerAction>)
        ensures
            acts@ == seq![ServerAction::SuppressOff] + (if self.cursor_hidden {
                seq![ServerAction::ShowCursor]
            } else {
                seq![]
            }),
    {
        let mut acts: Vec<ServerAction> = Vec::new();
        acts.push(ServerAction::SuppressOff);
        if self.cursor_hidden {
            acts.push(ServerAction::ShowCursor);
        }
        proof {
            assert(acts@ =~= seq![ServerAction::SuppressOff] + (if self.cursor_hidden {
                seq![ServerAction::ShowCursor]
            } else {
                seq![]
            }));
        }
        acts
    }
}

/// Whether the local cursor is hidden after the actions, starting from
/// `hidden`: the last HideCursor or ShowCursor among them decides.
pub open spec fn hidden_after(hidden: bool, acts: Seq<ServerAction>) -> bool
    decreases acts.len(),
{
    if acts.len() == 0 {
        hidden
    } else {
        match acts.last() {
            ServerAction::HideCursor => true,
            ServerAction::ShowCursor => false,
            _ => hidden_after(hidden, acts.drop_last()),
        }
    }
}

/// What the loop does when it ends because an action failed (a strict send
/// of Enter or Leave) after the actions `done` were carried out, the
/// cursor having been `hidden` before them: suppression is released, and the
/// cursor shown if it is hidden at that point.
pub open spec fn spec_release_on_abort(hidden: bool, done: Seq<ServerAction>) -> Seq<ServerAction> {
    seq![ServerAction::SuppressOff] + (if hidden_after(hidden, done) {
        seq![ServerAction::ShowCursor]
    } else {
        seq![]
    })
}

/// See `spec_release_on_abort`: the first `done` actions of `acts` were
/// carried out.
pub fn release_on_abort(hidden: bool, acts: &Vec<ServerAction>, done: usize) -> (r: Vec<ServerAction>)
    requires
        done <= acts@.len(),
    ensures
        r@ == spec_release_on_abort(hidden, acts@.take(done as int)),
{
    let mut h = hidden;
    let mut i: usize = 0;
    while i < done
        invariant
            i <= done <= acts@.len(),
            h == hidden_after(hidden, acts@.take(i as int)),
        decreases done - i,
    {
        match acts[i] {
            ServerAction::HideCursor => {
                h = true;
            },
            ServerAction::ShowCursor => {
                h = false;
            },
            _ => {},
        }
        proof {
            assert(acts@.take(i + 1).drop_last() =~= acts@.take(i as int));
            assert(acts@.take(i + 1).last() == acts@[i as int]);
        }
        i = i + 1;
    }
    let mut r: Vec<ServerAction> = Vec::new();
    r.push(ServerAction::SuppressOff);
    if h {
        r.push(ServerAction::ShowCursor);
    }
    proof {
        assert(r@ =~= spec_release_on_abort(hidden, acts@.take(done as int)));
    }
    r
}

/// One step keeps the state well formed and the pending move bounded.
pub proof fn lemma_step_wf(s: ServerFsm, p: PendingMove, ev: CapturedEvent, idx: usize, now: u64)
    requires
        wf(s),
        pending_bounded(p, idx as int),
        0 <= idx,
    ensures
        ({
            let (s1, p1, _) = spec_step(s, p, ev, idx, now);
            wf(s1) && pending_bounded(p1, idx as int + 1)
        }),
{
}

/// The screen reported to a client that says Hello again: the server's
/// own, or 1920x1080 when it cannot be read.
pub fn ack_screen(local: Option<ScreenInfo>) -> (r: ScreenInfo)
    ensures
        r == match local {
            Some(s) => s,
            None => ScreenInfo { width: 1920, height: 1080 },
        },
{
    match local {
        Some(s) => s,
        None => ScreenInfo { width: 1920, height: 1080 },
    }
}

/// A datagram from the client during a session.
#[derive(Clone, Copy, Debug, PartialEq, Eq, Structural)]
pub enum ClientPacket {
    Heartbeat,
    Hello,
    /// Anything else, or a datagram that does not decode.
    Other,
}

/// What the server does with a datagram from the client.
#[derive(Clone, Copy, Debug, PartialEq, Eq, Structural)]
pub enum ClientPacketAction {
    /// Record that the client's heartbeat arrived now.
    RecordHeartbeat,
    /// The client restarted: record its address and a heartbeat, and
    /// acknowledge it with the server's screen.
    Reconnect,
    Ignore,
}

pub fn on_client_packet(p: ClientPacket) -> (a: ClientPacketAction)
    ensures
        a == match p {
            ClientPacket::Heartbeat => ClientPacketAction::RecordHeartbeat,
            ClientPacket::Hello => ClientPacketAction::Reconnect,
            ClientPacket::Other => ClientPacketAction::Ignore,
        },
{
    match p {
        ClientPacket::Heartbeat => ClientPacketAction::RecordHeartbeat,
        ClientPacket::Hello => ClientPacketAction::Reconnect,
        ClientPacket::Other => ClientPacketAction::Ignore,
    }
}

/// What one receive turned up while waiting for a client's Hello.
pub enum HelloWait {
    Hello(ScreenInfo),
    /// A datagram that is not a Hello, or does not decode.
    Other,
    /// Nothing arrived before the read timeout.
    Nothing,
    /// The socket failed.
    Failed,
}

/// What the wait does next.
#[derive(Clone, Copy, Debug, PartialEq, Eq, Structural)]
pub enum HelloWaitVerdict {
    Connected(ScreenInfo),
    KeepWaiting,
    Fail,
}

/// The wait for the first Hello: a Hello connects, a socket failure ends
/// the wait with an error, anything else keeps waiting.
pub fn on_hello_wait(w: HelloWait) -> (v: HelloWaitVerdict)
    ensures
        v == match w {
            HelloWait::Hello(s) => HelloWaitVerdict::Connected(s),
            HelloWait::Failed => HelloWaitVerdict::Fail,
            _ => HelloWaitVerdict::KeepWaiting,
        },
{
    match w {
        HelloWait::Hello(s) => HelloWaitVerdict::Connected(s),
        HelloWait::Failed => HelloWaitVerdict::Fail,
        _ => HelloWaitVerdict::KeepWaiting,
    }
}

} // verus!
