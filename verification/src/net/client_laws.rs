//! Properties of the client's replay state machine that hold across steps.

use crate::net::client::{client_wf, spec_on_message, ClientAction, ClientFsm, PeerMessage};
use crate::net::server_laws::{lemma_toggle_trace_append, lemma_toggle_trace_one, toggle_trace};
use vstd::prelude::*;

verus! {

/// Hide/show calls replayed from the state before the actions.
pub open spec fn client_cursor_trace(hidden: bool, acts: Seq<ClientAction>) -> Option<bool> {
    toggle_trace(hidden, acts, ClientAction::HideCursor, ClientAction::ShowCursor)
}

/// Messages that carry remote input.
pub open spec fn is_remote_input(m: PeerMessage) -> bool {
    ||| m is KeyInput
    ||| m is Move
    ||| m is ButtonDown
    ||| m is ButtonUp
    ||| m is Scroll
}

proof fn lemma_trace_no_cursor(st: bool, a: Seq<ClientAction>)
    requires
        forall|i: int|
            0 <= i < a.len() ==> a[i] != ClientAction::HideCursor && a[i] != ClientAction::ShowCursor,
    ensures
        client_cursor_trace(st, a) == Some(st),
    decreases a.len(),
{
    if a.len() > 0 {
        lemma_trace_no_cursor(st, a.drop_first());
    }
}

/// The local cursor is hidden exactly while the mouse is on the server:
/// every message keeps that so, and the cursor is hidden and shown in turn,
/// never twice in a row.
pub proof fn law_cursor_hidden_while_mouse_on_server(s: ClientFsm, m: PeerMessage)
    requires
        client_wf(s),
    ensures
        ({
            let (s1, a) = spec_on_message(s, m);
            &&& client_wf(s1)
            &&& client_cursor_trace(s.cursor_hidden, a) == Some(s1.cursor_hidden)
        }),
{
    let (s1, a) = spec_on_message(s, m);
    let h = ClientAction::HideCursor;
    let sh = ClientAction::ShowCursor;
    match m {
        PeerMessage::Enter => {
            let x = if s.have_move {
                seq![ClientAction::FlushMove]
            } else {
                seq![]
            } + seq![ClientAction::PeerOn, ClientAction::SetPosition];
            let y = if s.cursor_hidden {
                seq![ClientAction::ShowCursor]
            } else {
                seq![]
            };
            let z = seq![ClientAction::MoveTo];
            assert(a =~= x + y + z);
            lemma_trace_no_cursor(s.cursor_hidden, x);
            lemma_trace_no_cursor(false, z);
            lemma_toggle_trace_append(s.cursor_hidden, x + y, z, h, sh);
            lemma_toggle_trace_append(s.cursor_hidden, x, y, h, sh);
            lemma_toggle_trace_one(true, ClientAction::ShowCursor, h, sh);
        },
        PeerMessage::Leave => {
            let x = if s.have_move {
                seq![ClientAction::FlushMove]
            } else {
                seq![]
            } + seq![ClientAction::PeerOff];
            let y = if s.cursor_hidden {
                seq![]
            } else {
                seq![ClientAction::HideCursor]
            };
            assert(a =~= x + y);
            lemma_trace_no_cursor(s.cursor_hidden, x);
            lemma_toggle_trace_append(s.cursor_hidden, x, y, h, sh);
            lemma_toggle_trace_one(false, ClientAction::HideCursor, h, sh);
        },
        _ => {
            lemma_trace_no_cursor(s.cursor_hidden, a);
        },
    }
}

/// While the mouse is on the server, remote input is not replayed: key,
/// move, button and scroll messages change nothing and do nothing.
pub proof fn law_no_remote_input_while_mouse_on_server(s: ClientFsm, m: PeerMessage)
    requires
        !s.active,
        is_remote_input(m),
    ensures
        spec_on_message(s, m) == (s, Seq::<ClientAction>::empty()),
{
}

/// A click or scroll lands where the moves before it put the cursor: the
/// accumulated move is applied right before it, and nothing stays pending.
pub proof fn law_clicks_follow_pending_moves(s: ClientFsm, m: PeerMessage)
    requires
        s.active,
        m is ButtonDown || m is ButtonUp || m is Scroll,
    ensures
        ({
            let (s1, a) = spec_on_message(s, m);
            &&& !s1.have_move
            &&& a.len() >= 2
            &&& s.have_move ==> a[a.len() - 2] == ClientAction::FlushMove
            &&& a.last() == match m {
                PeerMessage::ButtonDown(b) => ClientAction::ButtonDown(b),
                PeerMessage::ButtonUp(b) => ClientAction::ButtonUp(b),
                _ => ClientAction::Scroll,
            }
        }),
{
}

/// An entry teleport is not followed by older relative moves: they are
/// applied before it, and the teleport is the last thing done.
pub proof fn law_enter_flushes_before_teleport(s: ClientFsm)
    ensures
        ({
            let (s1, a) = spec_on_message(s, PeerMessage::Enter);
            &&& s1.active
            &&& !s1.have_move
            &&& a.last() == ClientAction::MoveTo
            &&& s.have_move ==> a[0] == ClientAction::FlushMove
            &&& forall|i: int| 0 < i < a.len() ==> a[i] != ClientAction::FlushMove
        }),
{
}

/// The server's heartbeat is recorded whatever the state of the client (the
/// mouse on either side), changes nothing else, and is the only message that
/// is recorded as a heartbeat.
pub proof fn law_heartbeats_are_always_recorded(s: ClientFsm, m: PeerMessage)
    ensures
        spec_on_message(s, m).1.contains(ClientAction::RecordHeartbeat) <==> m is Heartbeat,
        m is Heartbeat ==> spec_on_message(s, m).0 == s,
{
    let a = spec_on_message(s, m).1;
    let r = ClientAction::RecordHeartbeat;
    if m is Heartbeat {
        assert(a[0] == r);
    } else {
        assert forall|i: int| 0 <= i < a.len() implies a[i] != r by {
            match m {
                PeerMessage::Enter => {
                    if s.have_move {
                        if s.cursor_hidden {
                            assert(a =~= seq![ClientAction::FlushMove, ClientAction::PeerOn, ClientAction::SetPosition, ClientAction::ShowCursor, ClientAction::MoveTo]);
                        } else {
                            assert(a =~= seq![ClientAction::FlushMove, ClientAction::PeerOn, ClientAction::SetPosition, ClientAction::MoveTo]);
                        }
                    } else {
                        if s.cursor_hidden {
                            assert(a =~= seq![ClientAction::PeerOn, ClientAction::SetPosition, ClientAction::ShowCursor, ClientAction::MoveTo]);
                        } else {
                            assert(a =~= seq![ClientAction::PeerOn, ClientAction::SetPosition, ClientAction::MoveTo]);
                        }
                    }
                },
                PeerMessage::Leave => {
                    if s.have_move {
                        if s.cursor_hidden {
                            assert(a =~= seq![ClientAction::FlushMove, ClientAction::PeerOff]);
                        } else {
                            assert(a =~= seq![ClientAction::FlushMove, ClientAction::PeerOff, ClientAction::HideCursor]);
                        }
                    } else {
                        if s.cursor_hidden {
                            assert(a =~= seq![ClientAction::PeerOff]);
                        } else {
                            assert(a =~= seq![ClientAction::PeerOff, ClientAction::HideCursor]);
                        }
                    }
                },
                PeerMessage::ButtonDown(b) => {
                    if s.have_move {
                        assert(a =~= seq![ClientAction::RecordEvent, ClientAction::FlushMove, ClientAction::ButtonDown(b)]);
                    } else {
                        assert(a =~= seq![ClientAction::RecordEvent, ClientAction::ButtonDown(b)]);
                    }
                },
                PeerMessage::ButtonUp(b) => {
                    if s.have_move {
                        assert(a =~= seq![ClientAction::RecordEvent, ClientAction::FlushMove, ClientAction::ButtonUp(b)]);
                    } else {
                        assert(a =~= seq![ClientAction::RecordEvent, ClientAction::ButtonUp(b)]);
                    }
                },
                PeerMessage::Scroll => {
                    if s.have_move {
                        assert(a =~= seq![ClientAction::RecordEvent, ClientAction::FlushMove, ClientAction::Scroll]);
                    } else {
                        assert(a =~= seq![ClientAction::RecordEvent, ClientAction::Scroll]);
                    }
                },
                _ => {},
            }
        }
    }
}

} // verus!
