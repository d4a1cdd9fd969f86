//! Properties of the server's forwarding state machine that hold across
//! steps and whole drain cycles.

use crate::config::Edge;
use crate::net::server::{
    hidden_after, spec_release_on_abort, HEARTBEAT_INTERVAL_NS, lemma_step_wf, moved_inside, spec_watchdog, SUPPRESS_TIMEOUT_NS, no_pending, pending_bounded, RETURN_ARM_DISTANCE, axis_delta, spec_flush, spec_plan, spec_plan_prefix, spec_step, spec_track, wf, CapturedEvent,
    InputKind, PendingMove, ServerAction, ServerFsm,
};
use vstd::prelude::*;

verus! {

/// Replays an on/off toggle through a list of actions: `None` when the list
/// turns on what is already on or turns off what is already off; otherwise
/// the state after the last action.
pub open spec fn toggle_trace<A>(state: bool, acts: Seq<A>, on: A, off: A) -> Option<bool>
    decreases acts.len(),
{
    if acts.len() == 0 {
        Some(state)
    } else {
        let a = acts[0];
        let next = if a == on {
            if state {
                None
            } else {
                Some(true)
            }
        } else if a == off {
            if state {
                Some(false)
            } else {
                None
            }
        } else {
            Some(state)
        };
        match next {
            None => None,
            Some(st) => toggle_trace(st, acts.drop_first(), on, off),
        }
    }
}

/// Hide/show calls replayed from the state before the actions.
pub open spec fn cursor_trace(hidden: bool, acts: Seq<ServerAction>) -> Option<bool> {
    toggle_trace(hidden, acts, ServerAction::HideCursor, ServerAction::ShowCursor)
}

/// Suppression switches replayed from the state before the actions.
pub open spec fn suppress_trace(on: bool, acts: Seq<ServerAction>) -> Option<bool> {
    toggle_trace(on, acts, ServerAction::SuppressOn, ServerAction::SuppressOff)
}

/// "Mouse is on the peer" reports replayed from the state before the actions.
pub open spec fn peer_trace(on: bool, acts: Seq<ServerAction>) -> Option<bool> {
    toggle_trace(on, acts, ServerAction::PeerOn, ServerAction::PeerOff)
}

/// Sum of the x deltas of the coalesced moves in a list of actions.
pub open spec fn sent_dx(acts: Seq<ServerAction>) -> int
    decreases acts.len(),
{
    if acts.len() == 0 {
        0
    } else {
        let rest = sent_dx(acts.drop_last());
        match acts.last() {
            ServerAction::SendMove { dx, dy } => rest + dx,
            _ => rest,
        }
    }
}

/// Sum of the y deltas of the coalesced moves in a list of actions.
pub open spec fn sent_dy(acts: Seq<ServerAction>) -> int
    decreases acts.len(),
{
    if acts.len() == 0 {
        0
    } else {
        let rest = sent_dy(acts.drop_last());
        match acts.last() {
            ServerAction::SendMove { dx, dy } => rest + dy,
            _ => rest,
        }
    }
}

/// Whether an event is a move that the server passes on to the client
/// (it is forwarding, and the move neither enters nor returns).
pub open spec fn forwards_move(s: ServerFsm, ev: CapturedEvent) -> bool {
    &&& ev.kind is Move
    &&& s.forwarding
    &&& !spec_track(
        s.edge,
        s.extent as int,
        s.tracker,
        axis_delta(s.edge, ev.kind->dx, ev.kind->dy),
    ).0
}

/// Sum of the x deltas of the moves forwarded among the first `n` events.
pub open spec fn forwarded_dx(s: ServerFsm, batch: Seq<CapturedEvent>, n: nat, now: u64) -> int
    decreases n,
{
    if n == 0 {
        0
    } else {
        let (s1, _, _) = spec_plan_prefix(s, batch, (n - 1) as nat, now);
        let ev = batch[n - 1];
        forwarded_dx(s, batch, (n - 1) as nat, now) + if forwards_move(s1, ev) {
            ev.kind->dx as int
        } else {
            0
        }
    }
}

/// Sum of the y deltas of the moves forwarded among the first `n` events.
pub open spec fn forwarded_dy(s: ServerFsm, batch: Seq<CapturedEvent>, n: nat, now: u64) -> int
    decreases n,
{
    if n == 0 {
        0
    } else {
        let (s1, _, _) = spec_plan_prefix(s, batch, (n - 1) as nat, now);
        let ev = batch[n - 1];
        forwarded_dy(s, batch, (n - 1) as nat, now) + if forwards_move(s1, ev) {
            ev.kind->dy as int
        } else {
            0
        }
    }
}

/// A displacement `d` into the client screen, as a move along the crossing
/// axis (positive `d` goes inward, away from the server).
pub open spec fn inward_move(edge: Edge, d: i64) -> InputKind {
    match edge {
        Edge::Right => InputKind::Move { dx: d, dy: 0 },
        Edge::Left => InputKind::Move { dx: (-d) as i64, dy: 0 },
        Edge::Bottom => InputKind::Move { dx: 0, dy: d },
        Edge::Top => InputKind::Move { dx: 0, dy: (-d) as i64 },
    }
}

pub proof fn lemma_toggle_trace_append<A>(st: bool, a: Seq<A>, b: Seq<A>, on: A, off: A)
    ensures
        toggle_trace(st, a + b, on, off) == (match toggle_trace(st, a, on, off) {
            None => None,
            Some(x) => toggle_trace(x, b, on, off),
        }),
    decreases a.len(),
{
    if a.len() == 0 {
        assert(a + b =~= b);
    } else {
        assert((a + b)[0] == a[0]);
        assert((a + b).drop_first() =~= a.drop_first() + b);
        let x = a[0];
        if x == on {
            if !st {
                lemma_toggle_trace_append(true, a.drop_first(), b, on, off);
            }
        } else if x == off {
            if st {
                lemma_toggle_trace_append(false, a.drop_first(), b, on, off);
            }
        } else {
            lemma_toggle_trace_append(st, a.drop_first(), b, on, off);
        }
    }
}

pub proof fn lemma_toggle_trace_one<A>(st: bool, x: A, on: A, off: A)
    ensures
        toggle_trace(st, seq![x], on, off) == (if x == on {
            if st {
                None
            } else {
                Some(true)
            }
        } else if x == off {
            if st {
                Some(false)
            } else {
                None
            }
        } else {
            Some(st)
        }),
{
    reveal_with_fuel(toggle_trace, 2);
    assert(seq![x].drop_first() =~= Seq::<A>::empty());
}

proof fn lemma_toggle_trace_flush(st: bool, p: PendingMove, on: ServerAction, off: ServerAction)
    requires
        !(on is SendMove),
        !(off is SendMove),
    ensures
        toggle_trace(st, spec_flush(p).1, on, off) == Some(st),
{
    if p.have {
        lemma_toggle_trace_one(st, ServerAction::SendMove { dx: p.dx, dy: p.dy }, on, off);
    }
}

/// The pairs of actions that switch something on and off.
pub open spec fn is_toggle_pair(on: ServerAction, off: ServerAction) -> bool {
    ||| on == ServerAction::HideCursor && off == ServerAction::ShowCursor
    ||| on == ServerAction::SuppressOn && off == ServerAction::SuppressOff
    ||| on == ServerAction::PeerOn && off == ServerAction::PeerOff
}

/// One toggle of one step, checked against the forwarding flag before and after.
proof fn lemma_step_toggle(
    s: ServerFsm,
    p: PendingMove,
    ev: CapturedEvent,
    idx: usize,
    now: u64,
    on: ServerAction,
    off: ServerAction,
)
    requires
        wf(s),
        is_toggle_pair(on, off),
    ensures
        ({
            let (s1, _, a) = spec_step(s, p, ev, idx, now);
            toggle_trace(s.forwarding, a, on, off) == Some(s1.forwarding)
        }),
{
    let (s1, p1, a) = spec_step(s, p, ev, idx, now);
    let (f1, fa) = spec_flush(p);
    lemma_toggle_trace_flush(s.forwarding, p, on, off);
    match ev.kind {
        InputKind::Key => {
            if s.forwarding {
                let y = seq![ServerAction::ForwardKey { event: idx }];
                lemma_toggle_trace_append(s.forwarding, fa, y, on, off);
                lemma_toggle_trace_one(s.forwarding, ServerAction::ForwardKey { event: idx }, on, off);
                assert(a =~= fa + y);
            } else {
                assert(a =~= Seq::<ServerAction>::empty());
            }
        },
        _ => {
            if !s.forwarding && ev.at_edge {
                let hide = seq![ServerAction::HideCursor];
                let x1 = seq![ServerAction::SuppressOn];
                let x2 = seq![ServerAction::PeerOn];
                let y = seq![ServerAction::SendEnter { event: idx }];
                assert(a =~= x1 + x2 + hide + y);
                lemma_toggle_trace_append(false, x1 + x2 + hide, y, on, off);
                lemma_toggle_trace_append(false, x1 + x2, hide, on, off);
                lemma_toggle_trace_append(false, x1, x2, on, off);
                lemma_toggle_trace_one(false, ServerAction::SuppressOn, on, off);
                lemma_toggle_trace_one(false, ServerAction::PeerOn, on, off);
                lemma_toggle_trace_one(true, ServerAction::PeerOn, on, off);
                lemma_toggle_trace_one(false, ServerAction::HideCursor, on, off);
                lemma_toggle_trace_one(true, ServerAction::HideCursor, on, off);
                lemma_toggle_trace_one(true, ServerAction::SendEnter { event: idx }, on, off);
            } else if s.forwarding {
                let d = match ev.kind {
                    InputKind::Move { dx, dy } => axis_delta(s.edge, dx, dy),
                    _ => 0,
                };
                let (back, t1) = spec_track(s.edge, s.extent as int, s.tracker, d);
                if back {
                    let x1 = seq![ServerAction::SuppressOff];
                    let x2 = seq![ServerAction::PeerOff];
                    let show = seq![ServerAction::ShowCursor];
                    let y = seq![ServerAction::SendLeave { strict: true }];
                    assert(a =~= fa + x1 + x2 + show + y);
                    lemma_toggle_trace_append(true, fa + x1 + x2 + show, y, on, off);
                    lemma_toggle_trace_append(true, fa + x1 + x2, show, on, off);
                    lemma_toggle_trace_append(true, fa + x1, x2, on, off);
                    lemma_toggle_trace_append(true, fa, x1, on, off);
                    lemma_toggle_trace_one(true, ServerAction::SuppressOff, on, off);
                    lemma_toggle_trace_one(false, ServerAction::PeerOff, on, off);
                    lemma_toggle_trace_one(true, ServerAction::PeerOff, on, off);
                    lemma_toggle_trace_one(false, ServerAction::ShowCursor, on, off);
                    lemma_toggle_trace_one(true, ServerAction::ShowCursor, on, off);
                    lemma_toggle_trace_one(false, ServerAction::SendLeave { strict: true }, on, off);
                } else {
                    match ev.kind {
                        InputKind::Move { dx, dy } => {
                            assert(a =~= Seq::<ServerAction>::empty());
                        },
                        _ => {
                            let y = seq![ServerAction::ForwardMouse { event: idx }];
                            lemma_toggle_trace_append(true, fa, y, on, off);
                            lemma_toggle_trace_one(true, ServerAction::ForwardMouse { event: idx }, on, off);
                            assert(a =~= fa + y);
                        },
                    }
                }
            } else {
                assert(a =~= Seq::<ServerAction>::empty());
            }
        },
    }
}

/// A pending move that holds no delta when it is empty.
pub open spec fn pending_ok(p: PendingMove) -> bool {
    !p.have ==> p.dx == 0 && p.dy == 0
}

proof fn lemma_sent_append(a: Seq<ServerAction>, b: Seq<ServerAction>)
    ensures
        sent_dx(a + b) == sent_dx(a) + sent_dx(b),
        sent_dy(a + b) == sent_dy(a) + sent_dy(b),
    decreases b.len(),
{
    if b.len() == 0 {
        assert(a + b =~= a);
    } else {
        assert((a + b).drop_last() =~= a + b.drop_last());
        assert((a + b).last() == b.last());
        lemma_sent_append(a, b.drop_last());
    }
}

proof fn lemma_sent_one(x: ServerAction)
    ensures
        sent_dx(seq![x]) == (match x {
            ServerAction::SendMove { dx, dy } => dx as int,
            _ => 0,
        }),
        sent_dy(seq![x]) == (match x {
            ServerAction::SendMove { dx, dy } => dy as int,
            _ => 0,
        }),
{
    reveal_with_fuel(sent_dx, 2);
    reveal_with_fuel(sent_dy, 2);
    assert(seq![x].drop_last() =~= Seq::<ServerAction>::empty());
}

proof fn lemma_sent_flush(p: PendingMove)
    requires
        pending_ok(p),
    ensures
        sent_dx(spec_flush(p).1) + spec_flush(p).0.dx == p.dx,
        sent_dy(spec_flush(p).1) + spec_flush(p).0.dy == p.dy,
        pending_ok(spec_flush(p).0),
        !spec_flush(p).0.have,
{
    if p.have {
        lemma_sent_one(ServerAction::SendMove { dx: p.dx, dy: p.dy });
    }
}

/// Motion through one step: what is sent plus what stays pending equals
/// what was pending plus the move forwarded by this event.
proof fn lemma_step_motion(s: ServerFsm, p: PendingMove, ev: CapturedEvent, idx: usize, now: u64)
    requires
        wf(s),
        pending_ok(p),
        pending_bounded(p, idx as int),
        idx < 0x8000_0000_0000_0000,
    ensures
        ({
            let (s1, p1, a) = spec_step(s, p, ev, idx, now);
            &&& pending_ok(p1)
            &&& sent_dx(a) + p1.dx == p.dx + if forwards_move(s, ev) {
                ev.kind->dx as int
            } else {
                0
            }
            &&& sent_dy(a) + p1.dy == p.dy + if forwards_move(s, ev) {
                ev.kind->dy as int
            } else {
                0
            }
        }),
{
    let (s1, p1, a) = spec_step(s, p, ev, idx, now);
    let (f1, fa) = spec_flush(p);
    lemma_sent_flush(p);
    match ev.kind {
        InputKind::Key => {
            if s.forwarding {
                let y = seq![ServerAction::ForwardKey { event: idx }];
                lemma_sent_append(fa, y);
                lemma_sent_one(ServerAction::ForwardKey { event: idx });
                assert(a =~= fa + y);
            } else {
                assert(a =~= Seq::<ServerAction>::empty());
            }
        },
        _ => {
            if !s.forwarding && ev.at_edge {
                let x = seq![ServerAction::SuppressOn, ServerAction::PeerOn, ServerAction::HideCursor, ServerAction::SendEnter { event: idx }];
                assert(a =~= x);
                reveal_with_fuel(sent_dx, 5);
                reveal_with_fuel(sent_dy, 5);
            } else if s.forwarding {
                let d = match ev.kind {
                    InputKind::Move { dx, dy } => axis_delta(s.edge, dx, dy),
                    _ => 0,
                };
                let (back, t1) = spec_track(s.edge, s.extent as int, s.tracker, d);
                if back {
                    let y = seq![ServerAction::SuppressOff, ServerAction::PeerOff, ServerAction::ShowCursor, ServerAction::SendLeave { strict: true }];
                    assert(a =~= fa + y);
                    lemma_sent_append(fa, y);
                    reveal_with_fuel(sent_dx, 5);
                    reveal_with_fuel(sent_dy, 5);
                } else {
                    match ev.kind {
                        InputKind::Move { dx, dy } => {
                            assert(a =~= Seq::<ServerAction>::empty());
                        },
                        _ => {
                            let y = seq![ServerAction::ForwardMouse { event: idx }];
                            lemma_sent_append(fa, y);
                            lemma_sent_one(ServerAction::ForwardMouse { event: idx });
                            assert(a =~= fa + y);
                        },
                    }
                }
            } else {
                assert(a =~= Seq::<ServerAction>::empty());
            }
        },
    }
}

proof fn lemma_plan_prefix(s: ServerFsm, batch: Seq<CapturedEvent>, n: nat, now: u64, on: ServerAction, off: ServerAction)
    requires
        wf(s),
        n <= batch.len(),
        n <= isize::MAX,
        is_toggle_pair(on, off),
    ensures
        ({
            let (s1, p1, a) = spec_plan_prefix(s, batch, n, now);
            &&& wf(s1)
            &&& pending_bounded(p1, n as int)
            &&& pending_ok(p1)
            &&& toggle_trace(s.forwarding, a, on, off) == Some(s1.forwarding)
            &&& sent_dx(a) + p1.dx == forwarded_dx(s, batch, n, now)
            &&& sent_dy(a) + p1.dy == forwarded_dy(s, batch, n, now)
        }),
    decreases n,
{
    if n == 0 {
    } else {
        let m = (n - 1) as nat;
        lemma_plan_prefix(s, batch, m, now, on, off);
        let (s0, p0, a0) = spec_plan_prefix(s, batch, m, now);
        let (s1, p1, a1) = spec_step(s0, p0, batch[m as int], m as usize, now);
        lemma_step_wf(s0, p0, batch[m as int], m as usize, now);
        lemma_step_motion(s0, p0, batch[m as int], m as usize, now);
        lemma_step_toggle(s0, p0, batch[m as int], m as usize, now, on, off);
        lemma_toggle_trace_append(s.forwarding, a0, a1, on, off);
        lemma_sent_append(a0, a1);
    }
}

/// Over a whole drain cycle the local cursor is hidden and shown in turn,
/// never twice in a row, suppression is switched on and off in turn, and
/// so are the "mouse on peer" reports; after the cycle the cursor is
/// hidden, input suppressed and the mouse reported on the peer exactly
/// when the server is forwarding.
pub proof fn law_drain_cycle_keeps_toggles_paired(s: ServerFsm, batch: Seq<CapturedEvent>, now: u64)
    requires
        wf(s),
        batch.len() <= isize::MAX,
    ensures
        ({
            let (s1, a) = spec_plan(s, batch, now);
            &&& wf(s1)
            &&& cursor_trace(s.cursor_hidden, a) == Some(s1.cursor_hidden)
            &&& suppress_trace(s.forwarding, a) == Some(s1.forwarding)
            &&& peer_trace(s.forwarding, a) == Some(s1.forwarding)
            &&& s1.cursor_hidden == s1.forwarding
        }),
{
    let n = batch.len();
    let (s1, p1, a1) = spec_plan_prefix(s, batch, n, now);
    let (_, fa) = spec_flush(p1);
    let pairs = seq![
        (ServerAction::HideCursor, ServerAction::ShowCursor),
        (ServerAction::SuppressOn, ServerAction::SuppressOff),
        (ServerAction::PeerOn, ServerAction::PeerOff),
    ];
    assert forall|j: int| 0 <= j < 3 implies toggle_trace(s.forwarding, a1 + fa, #[trigger] pairs[j].0, pairs[j].1) == Some(s1.forwarding) by {
        lemma_plan_prefix(s, batch, n, now, pairs[j].0, pairs[j].1);
        lemma_toggle_trace_flush(s1.forwarding, p1, pairs[j].0, pairs[j].1);
        lemma_toggle_trace_append(s.forwarding, a1, fa, pairs[j].0, pairs[j].1);
    }
    assert(pairs[0].0 == ServerAction::HideCursor);
    assert(pairs[1].0 == ServerAction::SuppressOn);
    assert(pairs[2].0 == ServerAction::PeerOn);
    assert(toggle_trace(s.forwarding, a1 + fa, pairs[0].0, pairs[0].1) == Some(s1.forwarding));
    assert(toggle_trace(s.forwarding, a1 + fa, pairs[1].0, pairs[1].1) == Some(s1.forwarding));
    assert(toggle_trace(s.forwarding, a1 + fa, pairs[2].0, pairs[2].1) == Some(s1.forwarding));
    lemma_plan_prefix(s, batch, n, now, ServerAction::HideCursor, ServerAction::ShowCursor);
}

/// Coalescing loses no motion: the deltas of the packets sent in a drain
/// cycle add up to the deltas of the moves forwarded in it.
pub proof fn law_coalescing_is_lossless(s: ServerFsm, batch: Seq<CapturedEvent>, now: u64)
    requires
        wf(s),
        batch.len() <= isize::MAX,
    ensures
        sent_dx(spec_plan(s, batch, now).1) == forwarded_dx(s, batch, batch.len(), now),
        sent_dy(spec_plan(s, batch, now).1) == forwarded_dy(s, batch, batch.len(), now),
{
    let n = batch.len();
    let (s1, p1, a1) = spec_plan_prefix(s, batch, n, now);
    lemma_plan_prefix(s, batch, n, now, ServerAction::HideCursor, ServerAction::ShowCursor);
    lemma_sent_flush(p1);
    let (f, fa) = spec_flush(p1);
    lemma_sent_append(a1, fa);
}

/// Keyboard input stays local while the mouse is on the server: a key event
/// changes nothing and sends nothing.
pub proof fn law_keys_stay_local(s: ServerFsm, p: PendingMove, ev: CapturedEvent, idx: usize, now: u64)
    requires
        !s.forwarding,
        ev.kind is Key,
    ensures
        spec_step(s, p, ev, idx, now) == (s, p, Seq::<ServerAction>::empty()),
{
}

/// Until the virtual cursor has gone RETURN_ARM_DISTANCE into the client
/// screen, no mouse event hands control back to the server.
pub proof fn law_no_return_before_arming(s: ServerFsm, p: PendingMove, ev: CapturedEvent, idx: usize, now: u64)
    requires
        wf(s),
        s.forwarding,
        !s.tracker.armed,
        !(ev.kind is Key),
        moved_inside(
            s.edge,
            s.tracker.entry as int,
            s.tracker.pos + match ev.kind {
                InputKind::Move { dx, dy } => axis_delta(s.edge, dx, dy),
                _ => 0,
            },
        ) < RETURN_ARM_DISTANCE,
    ensures
        ({
            let (s1, _, a) = spec_step(s, p, ev, idx, now);
            &&& s1.forwarding
            &&& !s1.tracker.armed
            &&& forall|i: int| 0 <= i < a.len() ==> !(#[trigger] a[i] is SendLeave)
        }),
{
    let (s1, p1, a) = spec_step(s, p, ev, idx, now);
    let (f1, fa) = spec_flush(p);
    match ev.kind {
        InputKind::Move { dx, dy } => {
            assert(a =~= Seq::<ServerAction>::empty());
        },
        _ => {
            assert(a =~= fa.push(ServerAction::ForwardMouse { event: idx }));
        },
    }
}

/// Crossing the edge and turning straight back does not flip control back:
/// the entering event is not replayed, and a move back toward the server
/// right after it leaves the server forwarding.
pub proof fn law_entry_then_back_keeps_forwarding(
    s: ServerFsm,
    enter: InputKind,
    back: i64,
    now: u64,
)
    requires
        wf(s),
        !s.forwarding,
        !(enter is Key),
        0 <= back,
    ensures
        ({
            let batch = seq![
                CapturedEvent { kind: enter, at_edge: true },
                CapturedEvent { kind: inward_move(s.edge, (-back) as i64), at_edge: true },
            ];
            let (s1, a) = spec_plan(s, batch, now);
            &&& s1.forwarding
            &&& forall|i: int| 0 <= i < a.len() ==> !(#[trigger] a[i] is SendLeave)
        }),
{
    let batch = seq![
        CapturedEvent { kind: enter, at_edge: true },
        CapturedEvent { kind: inward_move(s.edge, (-back) as i64), at_edge: true },
    ];
    reveal_with_fuel(spec_plan_prefix, 3);
    let (s1, p1, a1) = spec_step(s, no_pending(), batch[0], 0, now);
    let (s2, p2, a2) = spec_step(s1, p1, batch[1], 1, now);
    assert(spec_plan_prefix(s, batch, 1, now) == (s1, p1, Seq::<ServerAction>::empty() + a1));
    assert(spec_plan_prefix(s, batch, 2, now) == (s2, p2, (Seq::<ServerAction>::empty() + a1) + a2));
    assert(a1 =~= seq![ServerAction::SuppressOn, ServerAction::PeerOn, ServerAction::HideCursor, ServerAction::SendEnter { event: 0 }]);
    assert(a2 =~= Seq::<ServerAction>::empty());
    let (_, fa) = spec_flush(p2);
    let a = (Seq::<ServerAction>::empty() + a1) + a2 + fa;
    assert(a =~= a1 + fa);
    assert forall|i: int| 0 <= i < a.len() implies !(#[trigger] a[i] is SendLeave) by {
        if i >= 4 {
            assert(a[i] == fa[i - 4]);
        }
    }
}

/// Going at least RETURN_ARM_DISTANCE into the client screen and then
/// coming back at least as far hands control back to the server.
pub proof fn law_in_and_back_returns(
    s: ServerFsm,
    enter: InputKind,
    go_in: i64,
    come_back: i64,
    now: u64,
)
    requires
        wf(s),
        !s.forwarding,
        !(enter is Key),
        RETURN_ARM_DISTANCE <= go_in <= come_back,
    ensures
        ({
            let batch = seq![
                CapturedEvent { kind: enter, at_edge: true },
                CapturedEvent { kind: inward_move(s.edge, go_in), at_edge: false },
                CapturedEvent { kind: inward_move(s.edge, (-come_back) as i64), at_edge: false },
            ];
            let (s1, a) = spec_plan(s, batch, now);
            &&& !s1.forwarding
            &&& a.contains(ServerAction::SendLeave { strict: true })
        }),
{
    let batch = seq![
        CapturedEvent { kind: enter, at_edge: true },
        CapturedEvent { kind: inward_move(s.edge, go_in), at_edge: false },
        CapturedEvent { kind: inward_move(s.edge, (-come_back) as i64), at_edge: false },
    ];
    reveal_with_fuel(spec_plan_prefix, 4);
    let (s1, p1, a1) = spec_step(s, no_pending(), batch[0], 0, now);
    let (s2, p2, a2) = spec_step(s1, p1, batch[1], 1, now);
    let (s3, p3, a3) = spec_step(s2, p2, batch[2], 2, now);
    assert(spec_plan_prefix(s, batch, 1, now) == (s1, p1, Seq::<ServerAction>::empty() + a1));
    assert(spec_plan_prefix(s, batch, 2, now) == (s2, p2, (Seq::<ServerAction>::empty() + a1) + a2));
    assert(spec_plan_prefix(s, batch, 3, now) == (s3, p3, ((Seq::<ServerAction>::empty() + a1) + a2) + a3));
    assert(s2.forwarding && s2.tracker.armed);
    assert(!s3.forwarding);
    let (_, fa) = spec_flush(p3);
    let a = ((Seq::<ServerAction>::empty() + a1) + a2) + a3 + fa;
    let (f2, fa2) = spec_flush(p2);
    assert(a3 =~= fa2 + seq![ServerAction::SuppressOff, ServerAction::PeerOff, ServerAction::ShowCursor, ServerAction::SendLeave { strict: true }]);
    let k = a1.len() + a2.len() + a3.len() - 1;
    assert(a[k] == ServerAction::SendLeave { strict: true });
}

/// The watchdog keeps the toggles paired, and after SUPPRESS_TIMEOUT_NS
/// without a forwarded event it always gives the mouse back: suppression
/// off, cursor shown, client told to leave.
pub proof fn law_watchdog_gives_the_mouse_back(s: ServerFsm, now: u64)
    requires
        wf(s),
    ensures
        ({
            let (s1, a) = spec_watchdog(s, now);
            &&& wf(s1)
            &&& cursor_trace(s.cursor_hidden, a) == Some(s1.cursor_hidden)
            &&& suppress_trace(s.forwarding, a) == Some(s1.forwarding)
            &&& peer_trace(s.forwarding, a) == Some(s1.forwarding)
            &&& (s.forwarding && now - s.last_forward_ns > SUPPRESS_TIMEOUT_NS) ==> {
                &&& !s1.forwarding
                &&& a.contains(ServerAction::SendLeave { strict: false })
            }
        }),
{
    let (s1, a) = spec_watchdog(s, now);
    if s.forwarding && now - s.last_forward_ns > SUPPRESS_TIMEOUT_NS {
        let x1 = seq![ServerAction::SuppressOff];
        let x2 = seq![ServerAction::PeerOff];
        let x3 = seq![ServerAction::ShowCursor];
        let y = seq![ServerAction::SendLeave { strict: false }];
        assert(a =~= x1 + x2 + x3 + y);
        assert(a[3] == ServerAction::SendLeave { strict: false });
        let pairs = seq![
            (ServerAction::HideCursor, ServerAction::ShowCursor),
            (ServerAction::SuppressOn, ServerAction::SuppressOff),
            (ServerAction::PeerOn, ServerAction::PeerOff),
        ];
        assert forall|j: int| 0 <= j < 3 implies toggle_trace(true, a, #[trigger] pairs[j].0, pairs[j].1) == Some(false) by {
            let on = pairs[j].0;
            let off = pairs[j].1;
            lemma_toggle_trace_append(true, x1 + x2 + x3, y, on, off);
            lemma_toggle_trace_append(true, x1 + x2, x3, on, off);
            lemma_toggle_trace_append(true, x1, x2, on, off);
            lemma_toggle_trace_one(true, ServerAction::SuppressOff, on, off);
            lemma_toggle_trace_one(true, ServerAction::PeerOff, on, off);
            lemma_toggle_trace_one(false, ServerAction::PeerOff, on, off);
            lemma_toggle_trace_one(true, ServerAction::ShowCursor, on, off);
            lemma_toggle_trace_one(false, ServerAction::ShowCursor, on, off);
            lemma_toggle_trace_one(false, ServerAction::SendLeave { strict: false }, on, off);
        }
        assert(pairs[0].0 == ServerAction::HideCursor);
        assert(pairs[1].0 == ServerAction::SuppressOn);
        assert(pairs[2].0 == ServerAction::PeerOn);
        assert(toggle_trace(true, a, pairs[0].0, pairs[0].1) == Some(false));
        assert(toggle_trace(true, a, pairs[1].0, pairs[1].1) == Some(false));
        assert(toggle_trace(true, a, pairs[2].0, pairs[2].1) == Some(false));
    }
}

// ---------------------------------------------------------------------------
// Enter and Leave over a whole run of the loop
// ---------------------------------------------------------------------------

/// One action's effect on whether the client has been told the mouse is
/// on it: `None` for an Enter sent while it already is, or a Leave while it
/// is not.
pub open spec fn link_one(linked: bool, a: ServerAction) -> Option<bool> {
    match a {
        ServerAction::SendEnter { .. } => if linked {
            None
        } else {
            Some(true)
        },
        ServerAction::SendLeave { .. } => if linked {
            Some(false)
        } else {
            None
        },
        _ => Some(linked),
    }
}

/// Replays the Enter and Leave messages in a list of actions: `None` when
/// two Enters or two Leaves come in a row; otherwise whether the last of
/// them (or, if there is none, `linked`) is an Enter.
pub open spec fn link_trace(linked: bool, acts: Seq<ServerAction>) -> Option<bool>
    decreases acts.len(),
{
    if acts.len() == 0 {
        Some(linked)
    } else {
        match link_trace(linked, acts.drop_last()) {
            None => None,
            Some(x) => link_one(x, acts.last()),
        }
    }
}

proof fn lemma_link_append(st: bool, a: Seq<ServerAction>, b: Seq<ServerAction>)
    ensures
        link_trace(st, a + b) == (match link_trace(st, a) {
            None => None,
            Some(x) => link_trace(x, b),
        }),
    decreases b.len(),
{
    if b.len() == 0 {
        assert(a + b =~= a);
    } else {
        assert((a + b).drop_last() =~= a + b.drop_last());
        assert((a + b).last() == b.last());
        lemma_link_append(st, a, b.drop_last());
    }
}

proof fn lemma_link_flush(st: bool, p: PendingMove)
    ensures
        link_trace(st, spec_flush(p).1) == Some(st),
{
    reveal_with_fuel(link_trace, 2);
}

/// One step, checked against the forwarding flag before and after.
proof fn lemma_step_link(s: ServerFsm, p: PendingMove, ev: CapturedEvent, idx: usize, now: u64)
    requires
        wf(s),
    ensures
        ({
            let (s1, _, a) = spec_step(s, p, ev, idx, now);
            link_trace(s.forwarding, a) == Some(s1.forwarding)
        }),
{
    let (s1, p1, a) = spec_step(s, p, ev, idx, now);
    let (f1, fa) = spec_flush(p);
    lemma_link_flush(s.forwarding, p);
    match ev.kind {
        InputKind::Key => {
            if s.forwarding {
                let y = seq![ServerAction::ForwardKey { event: idx }];
                lemma_link_append(s.forwarding, fa, y);
                reveal_with_fuel(link_trace, 2);
                assert(a =~= fa + y);
            } else {
                assert(a =~= Seq::<ServerAction>::empty());
            }
        },
        _ => {
            if !s.forwarding && ev.at_edge {
                let x = seq![ServerAction::SuppressOn, ServerAction::PeerOn, ServerAction::HideCursor, ServerAction::SendEnter { event: idx }];
                assert(a =~= x);
                reveal_with_fuel(link_trace, 5);
            } else if s.forwarding {
                let d = match ev.kind {
                    InputKind::Move { dx, dy } => axis_delta(s.edge, dx, dy),
                    _ => 0,
                };
                let (back, t1) = spec_track(s.edge, s.extent as int, s.tracker, d);
                if back {
                    let y = seq![ServerAction::SuppressOff, ServerAction::PeerOff, ServerAction::ShowCursor, ServerAction::SendLeave { strict: true }];
                    assert(a =~= fa + y);
                    lemma_link_append(s.forwarding, fa, y);
                    reveal_with_fuel(link_trace, 5);
                } else {
                    match ev.kind {
                        InputKind::Move { dx, dy } => {
                            assert(a =~= Seq::<ServerAction>::empty());
                        },
                        _ => {
                            let y = seq![ServerAction::ForwardMouse { event: idx }];
                            lemma_link_append(s.forwarding, fa, y);
                            reveal_with_fuel(link_trace, 2);
                            assert(a =~= fa + y);
                        },
                    }
                }
            } else {
                assert(a =~= Seq::<ServerAction>::empty());
            }
        },
    }
}

proof fn lemma_plan_prefix_link(s: ServerFsm, batch: Seq<CapturedEvent>, n: nat, now: u64)
    requires
        wf(s),
        n <= batch.len(),
        n <= isize::MAX,
    ensures
        ({
            let (s1, p1, a) = spec_plan_prefix(s, batch, n, now);
            &&& wf(s1)
            &&& pending_bounded(p1, n as int)
            &&& link_trace(s.forwarding, a) == Some(s1.forwarding)
        }),
    decreases n,
{
    if n > 0 {
        let m = (n - 1) as nat;
        lemma_plan_prefix_link(s, batch, m, now);
        let (s0, p0, a0) = spec_plan_prefix(s, batch, m, now);
        let (s1, p1, a1) = spec_step(s0, p0, batch[m as int], m as usize, now);
        lemma_step_wf(s0, p0, batch[m as int], m as usize, now);
        lemma_step_link(s0, p0, batch[m as int], m as usize, now);
        lemma_link_append(s.forwarding, a0, a1);
    }
}

proof fn lemma_plan_link(s: ServerFsm, batch: Seq<CapturedEvent>, now: u64)
    requires
        wf(s),
        batch.len() <= isize::MAX,
    ensures
        link_trace(s.forwarding, spec_plan(s, batch, now).1) == Some(spec_plan(s, batch, now).0.forwarding),
{
    let (s1, p1, a1) = spec_plan_prefix(s, batch, batch.len(), now);
    lemma_plan_prefix_link(s, batch, batch.len(), now);
    lemma_link_flush(s1.forwarding, p1);
    lemma_link_append(s.forwarding, a1, spec_flush(p1).1);
}

proof fn lemma_watchdog_link(s: ServerFsm, now: u64)
    requires
        wf(s),
    ensures
        link_trace(s.forwarding, spec_watchdog(s, now).1) == Some(spec_watchdog(s, now).0.forwarding),
{
    let (s1, a) = spec_watchdog(s, now);
    if s.forwarding && now - s.last_forward_ns > SUPPRESS_TIMEOUT_NS {
        assert(a =~= seq![ServerAction::SuppressOff, ServerAction::PeerOff, ServerAction::ShowCursor, ServerAction::SendLeave { strict: false }]);
        reveal_with_fuel(link_trace, 5);
    }
}

/// One turn of the server loop, as far as the forwarding state goes.
pub enum LoopTurn {
    /// The watchdog check at the top of an iteration.
    Watchdog { now: u64 },
    /// The heartbeat check.
    Heartbeat { now: u64 },
    /// One drain cycle of the capture channel.
    Cycle { batch: Seq<CapturedEvent>, now: u64 },
}

/// What one turn does: the state after and the actions.
pub open spec fn spec_turn(s: ServerFsm, t: LoopTurn) -> (ServerFsm, Seq<ServerAction>) {
    match t {
        LoopTurn::Watchdog { now } => spec_watchdog(s, now),
        LoopTurn::Heartbeat { now } => (
            if now - s.last_heartbeat_ns > HEARTBEAT_INTERVAL_NS {
                ServerFsm { last_heartbeat_ns: now, ..s }
            } else {
                s
            },
            seq![],
        ),
        LoopTurn::Cycle { batch, now } => spec_plan(s, batch, now),
    }
}

/// A run of turns in order: the state after the last and all actions.
pub open spec fn run_turns(s: ServerFsm, turns: Seq<LoopTurn>) -> (ServerFsm, Seq<ServerAction>)
    decreases turns.len(),
{
    if turns.len() == 0 {
        (s, seq![])
    } else {
        let (s1, a1) = run_turns(s, turns.drop_last());
        let (s2, a2) = spec_turn(s1, turns.last());
        (s2, a1 + a2)
    }
}

/// Every drain cycle of the run has a batch that a vector can hold.
pub open spec fn turns_ok(turns: Seq<LoopTurn>) -> bool {
    forall|i: int|
        0 <= i < turns.len() ==> match #[trigger] turns[i] {
            LoopTurn::Cycle { batch, now } => batch.len() <= isize::MAX,
            _ => true,
        }
}

/// Over any run of the loop (drain cycles, watchdog checks and heartbeats,
/// in any order) the client is told Enter and Leave in turn, never twice
/// the same in a row, and suppression, the "mouse on peer" report and the
/// hidden local cursor follow them: after every turn each of them is on
/// exactly when the last of those messages sent was Enter (or, before the
/// first, when the run began forwarding); each is switched on and off in
/// turn, so hide and show calls stay paired.
pub proof fn law_loop_follows_enter_and_leave(s: ServerFsm, turns: Seq<LoopTurn>)
    requires
        wf(s),
        turns_ok(turns),
    ensures
        ({
            let (s1, a) = run_turns(s, turns);
            &&& wf(s1)
            &&& link_trace(s.forwarding, a) == Some(s1.forwarding)
            &&& suppress_trace(s.forwarding, a) == Some(s1.forwarding)
            &&& peer_trace(s.forwarding, a) == Some(s1.forwarding)
            &&& cursor_trace(s.cursor_hidden, a) == Some(s1.forwarding)
            &&& s1.cursor_hidden == s1.forwarding
        }),
    decreases turns.len(),
{
    if turns.len() > 0 {
        let rest = turns.drop_last();
        assert forall|i: int| 0 <= i < rest.len() implies match #[trigger] rest[i] {
            LoopTurn::Cycle { batch, now } => batch.len() <= isize::MAX,
            _ => true,
        } by {
            assert(rest[i] == turns[i]);
        }
        law_loop_follows_enter_and_leave(s, rest);
        let (s1, a1) = run_turns(s, rest);
        let t = turns.last();
        assert(t == turns[turns.len() - 1]);
        let (s2, a2) = spec_turn(s1, t);
        match t {
            LoopTurn::Watchdog { now } => {
                law_watchdog_gives_the_mouse_back(s1, now);
                lemma_watchdog_link(s1, now);
            },
            LoopTurn::Heartbeat { now } => {
                reveal_with_fuel(link_trace, 1);
                reveal_with_fuel(toggle_trace, 1);
            },
            LoopTurn::Cycle { batch, now } => {
                law_drain_cycle_keeps_toggles_paired(s1, batch, now);
                lemma_plan_link(s1, batch, now);
            },
        }
        lemma_link_append(s.forwarding, a1, a2);
        lemma_toggle_trace_append(s.forwarding, a1, a2, ServerAction::SuppressOn, ServerAction::SuppressOff);
        lemma_toggle_trace_append(s.forwarding, a1, a2, ServerAction::PeerOn, ServerAction::PeerOff);
        lemma_toggle_trace_append(s.cursor_hidden, a1, a2, ServerAction::HideCursor, ServerAction::ShowCursor);
    }
}

// ---------------------------------------------------------------------------
// Leaving the loop
// ---------------------------------------------------------------------------

proof fn lemma_hidden_after(h: bool, x: Seq<ServerAction>)
    ensures
        cursor_trace(h, x) is Some ==> hidden_after(h, x) == cursor_trace(h, x)->0,
    decreases x.len(),
{
    if x.len() > 0 {
        let y = x.drop_last();
        lemma_hidden_after(h, y);
        assert(x =~= y + seq![x.last()]);
        lemma_toggle_trace_append(h, y, seq![x.last()], ServerAction::HideCursor, ServerAction::ShowCursor);
        if cursor_trace(h, y) is Some {
            lemma_toggle_trace_one(cursor_trace(h, y)->0, x.last(), ServerAction::HideCursor, ServerAction::ShowCursor);
        }
    }
}

/// Whatever way the loop is left, the local cursor ends shown and hide and
/// show calls paired, and suppression is switched off: on shutdown, when
/// the capture thread has gone, and when a drain cycle breaks off after any
/// number of its actions because a strict send failed.
pub proof fn law_every_exit_releases_the_mouse(s: ServerFsm, batch: Seq<CapturedEvent>, now: u64, done: int)
    requires
        wf(s),
        batch.len() <= isize::MAX,
        0 <= done <= spec_plan(s, batch, now).1.len(),
    ensures
        ({
            let show = if s.cursor_hidden {
                seq![ServerAction::ShowCursor]
            } else {
                seq![]
            };
            let shutdown = seq![ServerAction::SuppressOff] + show + seq![ServerAction::SendLeave { strict: false }];
            let lost = seq![ServerAction::SuppressOff] + show;
            let carried = spec_plan(s, batch, now).1.take(done);
            let release = spec_release_on_abort(s.cursor_hidden, carried);
            &&& cursor_trace(s.cursor_hidden, shutdown) == Some(false)
            &&& cursor_trace(s.cursor_hidden, lost) == Some(false)
            &&& cursor_trace(s.cursor_hidden, carried + release) == Some(false)
            &&& shutdown[0] == ServerAction::SuppressOff
            &&& lost[0] == ServerAction::SuppressOff
            &&& release[0] == ServerAction::SuppressOff
        }),
{
    let h = s.cursor_hidden;
    let hs = ServerAction::HideCursor;
    let sh = ServerAction::ShowCursor;
    lemma_toggle_trace_one(h, ServerAction::SuppressOff, hs, sh);
    lemma_toggle_trace_one(true, sh, hs, sh);
    lemma_toggle_trace_one(false, ServerAction::SendLeave { strict: false }, hs, sh);
    let show = if h {
        seq![sh]
    } else {
        seq![]
    };
    let x1 = seq![ServerAction::SuppressOff];
    lemma_toggle_trace_append(h, x1, show, hs, sh);
    lemma_toggle_trace_append(h, x1 + show, seq![ServerAction::SendLeave { strict: false }], hs, sh);
    if !h {
        assert(x1 + show =~= x1);
    }
    // The broken-off cycle.
    let a = spec_plan(s, batch, now).1;
    law_drain_cycle_keeps_toggles_paired(s, batch, now);
    let carried = a.take(done);
    assert(a =~= carried + a.skip(done));
    lemma_toggle_trace_append(h, carried, a.skip(done), hs, sh);
    lemma_hidden_after(h, carried);
    let hc = hidden_after(h, carried);
    let rshow = if hc {
        seq![sh]
    } else {
        seq![]
    };
    let release = spec_release_on_abort(h, carried);
    assert(release =~= x1 + rshow);
    lemma_toggle_trace_one(hc, ServerAction::SuppressOff, hs, sh);
    lemma_toggle_trace_append(hc, x1, rshow, hs, sh);
    if !hc {
        assert(x1 + rshow =~= x1);
    }
    lemma_toggle_trace_append(h, carried, release, hs, sh);
}

/// Any event the server acts on while forwarding (a key, a move, a click or
/// a scroll), and the event that enters the client, holds off the watchdog:
/// if the server is still forwarding afterwards, no watchdog check within
/// SUPPRESS_TIMEOUT_NS of that event takes the mouse back or does anything.
pub proof fn law_forwarded_events_hold_off_the_watchdog(
    s: ServerFsm,
    p: PendingMove,
    ev: CapturedEvent,
    idx: usize,
    now: u64,
    later: u64,
)
    requires
        wf(s),
        s.forwarding || (!(ev.kind is Key) && ev.at_edge),
        later - now <= SUPPRESS_TIMEOUT_NS,
    ensures
        ({
            let (s1, _, _) = spec_step(s, p, ev, idx, now);
            &&& s1.last_forward_ns == now
            &&& s1.forwarding ==> spec_watchdog(s1, later) == (s1, Seq::<ServerAction>::empty())
        }),
{
}

} // verus!
