//! Screen layout: which edge of the server screen leads to the client, and
//! the screens on both sides.

use crate::protocol::ScreenInfo;
use vstd::prelude::*;

verus! {

broadcast use vstd::utf8::encode_utf8_decode_utf8;

/// Which edge of the server screen triggers the transition to the client.
#[derive(Clone, Copy, Debug, PartialEq, Eq, Structural)]
pub enum Edge {
    Left,
    Right,
    Top,
    Bottom,
}

/// The edge that a lowercase name denotes, if any.
pub open spec fn edge_named(name: Seq<char>) -> Option<Edge> {
    if name == "left"@ {
        Some(Edge::Left)
    } else if name == "right"@ {
        Some(Edge::Right)
    } else if name == "top"@ {
        Some(Edge::Top)
    } else if name == "bottom"@ {
        Some(Edge::Bottom)
    } else {
        None
    }
}

/// The message given back for a name that denotes no edge.
pub open spec fn invalid_edge_text(input: Seq<char>) -> Seq<char> {
    "invalid edge: "@ + input + ", expected left/right/top/bottom"@
}

/// The lowercase form that `str::to_lowercase` gives for a string
/// (Unicode's `Lowercase` mapping, as std implements it).
pub uninterp spec fn unicode_lowercase(s: Seq<char>) -> Seq<char>;

/// Calls `str::to_lowercase`. The contract claims only that the result is the
/// lowercase mapping of the argument, a function of the argument alone; the
/// Unicode tables behind it are not stated.
#[verifier::external_body]
fn to_lowercase(s: &str) -> (r: String)
    ensures
        r@ == unicode_lowercase(s@),
{
    s.to_lowercase()
}

/// Byte-wise equality of two slices.
fn bytes_eq(a: &[u8], b: &[u8]) -> (r: bool)
    ensures
        r == (a@ == b@),
{
    if a.len() != b.len() {
        return false;
    }
    let mut i: usize = 0;
    while i < a.len()
        invariant
            a@.len() == b@.len(),
            i <= a@.len(),
            forall|j: int| 0 <= j < i ==> a@[j] == b@[j],
        decreases a@.len() - i,
    {
        if a[i] != b[i] {
            return false;
        }
        i = i + 1;
    }
    assert(a@ =~= b@);
    true
}

/// Equality of two strings, by their characters.
fn str_eq(a: &str, b: &str) -> (r: bool)
    ensures
        r == (a@ == b@),
{
    let eq = bytes_eq(a.as_bytes(), b.as_bytes());
    proof {
        vstd::utf8::encode_utf8_decode_utf8(a@);
        vstd::utf8::encode_utf8_decode_utf8(b@);
    }
    eq
}

/// The edge named by an already-lowercased string.
pub fn edge_from_lowercase(name: &str) -> (r: Option<Edge>)
    ensures
        r == edge_named(name@),
{
    if str_eq(name, "left") {
        Some(Edge::Left)
    } else if str_eq(name, "right") {
        Some(Edge::Right)
    } else if str_eq(name, "top") {
        Some(Edge::Top)
    } else if str_eq(name, "bottom") {
        Some(Edge::Bottom)
    } else {
        None
    }
}

/// The error message for an input that names no edge.
pub fn invalid_edge_message(input: &str) -> (r: String)
    ensures
        r@ == invalid_edge_text(input@),
{
    let mut msg = String::from_str("invalid edge: ");
    msg.append(input);
    msg.append(", expected left/right/top/bottom");
    msg
}

/// Parses an edge name case-insensitively (after Unicode lowercasing):
/// `left`, `right`, `top` or `bottom`; anything else is refused with a
/// message that quotes the input.
pub fn parse_edge(s: &str) -> (r: Result<Edge, String>)
    ensures
        match r {
            Ok(e) => edge_named(unicode_lowercase(s@)) == Some(e),
            Err(msg) => edge_named(unicode_lowercase(s@)) is None && msg@ == invalid_edge_text(s@),
        },
{
    let lower = to_lowercase(s);
    match edge_from_lowercase(lower.as_str()) {
        Some(e) => Ok(e),
        None => Err(invalid_edge_message(s)),
    }
}

impl core::str::FromStr for Edge {
    type Err = String;

    /// See `parse_edge`.
    fn from_str(s: &str) -> (r: Result<Edge, String>)
        ensures
            match r {
                Ok(e) => edge_named(unicode_lowercase(s@)) == Some(e),
                Err(msg) => edge_named(unicode_lowercase(s@)) is None && msg@ == invalid_edge_text(s@),
            },
    {
        parse_edge(s)
    }
}

/// The screens on both sides and the edge that leads from server to client.
pub struct ScreenConfig {
    pub server_screen: ScreenInfo,
    pub client_screen: Option<ScreenInfo>,
    pub edge: Edge,
}

impl ScreenConfig {
    /// A configuration with no client screen known yet.
    pub fn new(server_screen: ScreenInfo, edge: Edge) -> (r: ScreenConfig)
        ensures
            r.server_screen == server_screen,
            r.client_screen is None,
            r.edge == edge,
    {
        ScreenConfig { server_screen, client_screen: None, edge }
    }

    /// The screen the cursor lands on when it crosses the edge: the client's,
    /// or the server's own when the client's is not known.
    pub open spec fn spec_target_screen(&self) -> ScreenInfo {
        match self.client_screen {
            Some(c) => c,
            None => self.server_screen,
        }
    }

    /// See `spec_target_screen`.
    pub fn target_screen(&self) -> (r: ScreenInfo)
        ensures
            r == self.spec_target_screen(),
    {
        match self.client_screen {
            Some(c) => c,
            None => self.server_screen,
        }
    }
}

} // verus!
