//! Clipboard synchronisation rules: the length-prefixed framing used on the
//! TCP channel, the hash-based de-duplication that keeps the two sides from
//! echoing each other's updates, and the sliced sleep that lets a shutdown
//! request interrupt a wait.

use std::collections::hash_map::DefaultHasher;
use std::hash::Hasher;
use std::sync::{Arc, Mutex};
use vstd::prelude::*;
use vstd::std_specs::hash::DefaultHasherAdditionalSpecFns;

verus! {

broadcast use vstd::utf8::encode_utf8_decode_utf8;

/// How often (ms) the local clipboard is polled.
pub const POLL_INTERVAL_MS: u64 = 500;

/// Read/write timeout (ms) on the clipboard connection.
pub const IO_TIMEOUT_MS: u64 = 500;

/// Frames longer than this are refused.
pub const MAX_MESSAGE_SIZE: usize = 67108864;

/// Pause (ms) before reconnecting or after an accept error.
pub const RETRY_DELAY_MS: u64 = 2000;

/// Length (ms) of one slice of an interruptible sleep.
pub const SLEEP_SLICE_MS: u64 = 50;

/// Longest preview (in characters) of a clipboard text in log lines.
pub const PREVIEW_CHARS: usize = 20;

/// What travels over the clipboard channel.
#[derive(Debug, Hash)]
pub enum ClipboardMessage {
    Text(String),
}

/// The text of a message.
pub open spec fn message_text(m: ClipboardMessage) -> Seq<char> {
    match m {
        ClipboardMessage::Text(s) => s@,
    }
}

/// State shared by the sending and receiving halves of one clipboard
/// connection: the hash of the text last sent or applied. Both halves
/// read and update it under the lock together with the clipboard itself.
pub struct ClipboardState {
    last_hash: Mutex<Option<u64>>,
}

impl ClipboardState {
    /// A fresh state with no text seen yet, ready to share between threads.
    pub fn new() -> Arc<ClipboardState> {
        Arc::new(ClipboardState { last_hash: Mutex::new(None) })
    }

    /// The lock around the last hash shared by both halves.
    pub closed spec fn spec_last_hash(&self) -> Mutex<Option<u64>> {
        self.last_hash
    }

    /// The lock around the last hash.
    pub fn last_hash(&self) -> (r: &Mutex<Option<u64>>)
        ensures
            *r == self.spec_last_hash(),
    {
        &self.last_hash
    }
}

// ---------------------------------------------------------------------------
// Hashing and de-duplication
// ---------------------------------------------------------------------------

/// The hash of a text, as `DefaultHasher` computes it for a `str`: the
/// UTF-8 bytes, then the byte 0xff.
pub open spec fn spec_text_hash(text: Seq<char>) -> u64 {
    DefaultHasher::spec_finish(seq![vstd::utf8::encode_utf8(text), seq![0xffu8]])
}

/// Hashes a message's text with `DefaultHasher`, as the derived `Hash` of a
/// one-variant enum holding a `String` does.
pub fn hash_of(msg: &ClipboardMessage) -> (h: u64)
    ensures
        h == spec_text_hash(message_text(*msg)),
{
    match msg {
        ClipboardMessage::Text(s) => {
            let mut hasher = DefaultHasher::new();
            hasher.write(s.as_str().as_bytes());
            let end: [u8; 1] = [0xff];
            hasher.write(end.as_slice());
            proof {
                assert(end@ =~= seq![0xffu8]);
                assert(hasher@ =~= seq![vstd::utf8::encode_utf8(s@), seq![0xffu8]]);
            }
            hasher.finish()
        },
    }
}

/// What polling the local clipboard does: a non-empty text whose hash
/// differs from the last one is sent and its hash remembered; anything
/// else (an empty text, a text already seen, a clipboard that could not be
/// read) sends nothing and leaves the hash alone.
pub open spec fn spec_observe_local(last: Option<u64>, text: Option<String>) -> (
    Option<u64>,
    Option<ClipboardMessage>,
) {
    match text {
        Some(t) => {
            if t@.len() > 0 && last != Some(spec_text_hash(t@)) {
                (Some(spec_text_hash(t@)), Some(ClipboardMessage::Text(t)))
            } else {
                (last, None)
            }
        },
        None => (last, None),
    }
}

/// See `spec_observe_local`. `text` is `None` when the clipboard could not
/// be read as text.
pub fn observe_local(last: Option<u64>, text: Option<String>) -> (r: (
    Option<u64>,
    Option<ClipboardMessage>,
))
    ensures
        r == spec_observe_local(last, text),
{
    match text {
        Some(t) => {
            if t.as_str().is_empty() {
                (last, None)
            } else {
                let msg = ClipboardMessage::Text(t);
                let h = hash_of(&msg);
                let seen = match last {
                    Some(l) => l == h,
                    None => false,
                };
                if !seen {
                    (Some(h), Some(msg))
                } else {
                    (last, None)
                }
            }
        },
        None => (last, None),
    }
}

/// The hash to remember when a text from the peer is applied locally.
pub fn applied_hash(msg: &ClipboardMessage) -> (h: Option<u64>)
    ensures
        h == Some(spec_text_hash(message_text(*msg))),
{
    Some(hash_of(msg))
}

// ---------------------------------------------------------------------------
// Framing: a 4-byte big-endian length, then the payload
// ---------------------------------------------------------------------------

/// The four big-endian bytes of a 32-bit number.
pub open spec fn be_bytes(x: u32) -> Seq<u8> {
    seq![
        (x / 0x100_0000) as u8,
        ((x / 0x1_0000) % 0x100) as u8,
        ((x / 0x100) % 0x100) as u8,
        (x % 0x100) as u8,
    ]
}

/// The number that four big-endian bytes spell.
pub open spec fn be_value(b: Seq<u8>) -> int {
    b[0] * 0x100_0000 + b[1] * 0x1_0000 + b[2] * 0x100 + b[3]
}

/// The header of a payload of `len` bytes: its length truncated to 32 bits,
/// big-endian.
pub open spec fn spec_frame_header(len: int) -> Seq<u8> {
    be_bytes((len % 0x1_0000_0000) as u32)
}

/// A framed payload.
pub open spec fn spec_frame(payload: Seq<u8>) -> Seq<u8> {
    spec_frame_header(payload.len() as int) + payload
}

/// How far a received prefix of a frame has come.
pub enum FrameProgress {
    /// More bytes are needed.
    NeedMore,
    /// The header announces this many bytes, more than MAX_MESSAGE_SIZE.
    TooLarge(usize),
    /// The whole payload has arrived.
    Complete,
}

/// The payload length announced by a received prefix (once the header is in).
pub open spec fn announced(got: Seq<u8>) -> int {
    be_value(got.subrange(0, 4))
}

/// How far the bytes received so far have come.
pub open spec fn spec_progress(got: Seq<u8>) -> FrameProgress {
    if got.len() < 4 {
        FrameProgress::NeedMore
    } else if announced(got) > MAX_MESSAGE_SIZE {
        FrameProgress::TooLarge(announced(got) as usize)
    } else if got.len() < 4 + announced(got) {
        FrameProgress::NeedMore
    } else {
        FrameProgress::Complete
    }
}

/// How many more bytes the current part (header, then payload) needs.
pub open spec fn spec_wanted(got: Seq<u8>) -> int {
    if got.len() < 4 {
        4 - got.len()
    } else {
        4 + announced(got) - got.len()
    }
}

/// The header for a payload of `len` bytes.
pub fn frame_header(len: usize) -> (h: Vec<u8>)
    ensures
        h@ == spec_frame_header(len as int),
{
    let x: u32 = len as u32;
    let mut h: Vec<u8> = Vec::new();
    h.push((x >> 24u32) as u8);
    h.push(((x >> 16u32) & 0xff) as u8);
    h.push(((x >> 8u32) & 0xff) as u8);
    h.push((x & 0xff) as u8);
    proof {
        assert(x == (len as int % 0x1_0000_0000) as u32) by (bit_vector)
            requires
                x == len as u32,
        ;
        assert((x >> 24u32) as u8 == (x / 0x100_0000) as u8) by (bit_vector);
        assert(((x >> 16u32) & 0xff) as u8 == ((x / 0x1_0000) % 0x100) as u8) by (bit_vector);
        assert(((x >> 8u32) & 0xff) as u8 == ((x / 0x100) % 0x100) as u8) by (bit_vector);
        assert((x & 0xff) as u8 == (x % 0x100) as u8) by (bit_vector);
        assert(h@ =~= spec_frame_header(len as int));
    }
    h
}

/// Reassembles one frame from the pieces read off the connection.
pub struct FrameReader {
    got: Vec<u8>,
}

impl FrameReader {
    pub closed spec fn received(&self) -> Seq<u8> {
        self.got@
    }

    /// A reader that has received nothing.
    pub fn new() -> (r: FrameReader)
        ensures
            r.received() == Seq::<u8>::empty(),
    {
        FrameReader { got: Vec::new() }
    }

    /// How far the frame has come.
    pub fn progress(&self) -> (p: FrameProgress)
        requires
            self.received().len() <= 4 + MAX_MESSAGE_SIZE,
        ensures
            p == spec_progress(self.received()),
    {
        if self.got.len() < 4 {
            FrameProgress::NeedMore
        } else {
            let len = self.announced_len();
            if len > MAX_MESSAGE_SIZE {
                FrameProgress::TooLarge(len)
            } else if self.got.len() < 4 + len {
                FrameProgress::NeedMore
            } else {
                FrameProgress::Complete
            }
        }
    }

    fn announced_len(&self) -> (n: usize)
        requires
            self.received().len() >= 4,
        ensures
            n == announced(self.received()),
    {
        let b0 = self.got[0] as u32;
        let b1 = self.got[1] as u32;
        let b2 = self.got[2] as u32;
        let b3 = self.got[3] as u32;
        proof {
            assert(b0 * 0x100_0000 + b1 * 0x1_0000 + b2 * 0x100 + b3 <= u32::MAX) by (nonlinear_arith)
                requires
                    b0 <= 0xff,
                    b1 <= 0xff,
                    b2 <= 0xff,
                    b3 <= 0xff,
            ;
        }
        let v: u32 = b0 * 0x100_0000 + b1 * 0x1_0000 + b2 * 0x100 + b3;
        v as usize
    }

    /// How many more bytes to read for the current part: what is missing of
    /// the header, then what is missing of the payload.
    pub fn wanted(&self) -> (n: usize)
        requires
            spec_progress(self.received()) is NeedMore,
            self.received().len() <= 4 + MAX_MESSAGE_SIZE,
        ensures
            n == spec_wanted(self.received()),
            n > 0,
    {
        if self.got.len() < 4 {
            4 - self.got.len()
        } else {
            4 + self.announced_len() - self.got.len()
        }
    }

    /// Takes the bytes just read (no more than were wanted).
    pub fn push(&mut self, data: &[u8])
        requires
            spec_progress(old(self).received()) is NeedMore,
            old(self).received().len() <= 4 + MAX_MESSAGE_SIZE,
            data@.len() <= spec_wanted(old(self).received()),
        ensures
            final(self).received() == old(self).received() + data@,
            final(self).received().len() <= 4 + MAX_MESSAGE_SIZE,
    {
        let mut i: usize = 0;
        let ghost start = self.got@;
        while i < data.len()
            invariant
                i <= data@.len(),
                self.got@ == start + data@.subrange(0, i as int),
            decreases data@.len() - i,
        {
            self.got.push(data[i]);
            i = i + 1;
            proof {
                assert(data@.subrange(0, i as int) =~= data@.subrange(0, i - 1) + seq![data@[i - 1]]);
            }
        }
        proof {
            assert(data@.subrange(0, data@.len() as int) =~= data@);
            lemma_progress_bound(start, data@);
        }
    }

    /// The payload of a complete frame.
    pub fn into_payload(self) -> (p: Vec<u8>)
        requires
            spec_progress(self.received()) is Complete,
        ensures
            p@ == self.received().subrange(4, 4 + announced(self.received())),
    {
        let len = self.announced_len();
        let mut p: Vec<u8> = Vec::new();
        let mut i: usize = 4;
        while i < 4 + len
            invariant
                4 <= i <= 4 + len,
                4 + len <= self.got@.len(),
                len == announced(self.got@),
                p@ == self.got@.subrange(4, i as int),
            decreases 4 + len - i,
        {
            p.push(self.got[i]);
            i = i + 1;
            proof {
                assert(self.got@.subrange(4, i as int) =~= self.got@.subrange(4, i - 1) + seq![self.got@[i - 1]]);
            }
        }
        p
    }
}

proof fn lemma_progress_bound(got: Seq<u8>, data: Seq<u8>)
    requires
        spec_progress(got) is NeedMore,
        got.len() <= 4 + MAX_MESSAGE_SIZE,
        data.len() <= spec_wanted(got),
    ensures
        (got + data).len() <= 4 + MAX_MESSAGE_SIZE,
{
    if got.len() >= 4 {
        assert(announced(got) <= MAX_MESSAGE_SIZE);
    }
}

// ---------------------------------------------------------------------------
// Interruptible sleep
// ---------------------------------------------------------------------------

/// What to do next while sleeping in slices.
#[derive(Clone, Copy, Debug, PartialEq, Eq, Structural)]
pub enum SleepStep {
    /// Sleep one more slice.
    Slice,
    /// Stop; the flag tells whether shutdown was requested.
    Stop(bool),
}

/// A sleep of `total_ms`, taken SLEEP_SLICE_MS at a time so that a shutdown
/// request cuts it short.
pub struct SlicedSleep {
    pub elapsed_ms: u64,
    pub total_ms: u64,
}

impl SlicedSleep {
    pub fn new(total_ms: u64) -> (r: SlicedSleep)
        ensures
            r.elapsed_ms == 0,
            r.total_ms == total_ms,
    {
        SlicedSleep { elapsed_ms: 0, total_ms }
    }

    /// Decides the next step, given whether shutdown is requested now. The
    /// time slept is counted with saturation, so any total works.
    pub fn next(&mut self, shutdown: bool) -> (step: SleepStep)
        ensures
            step == (if old(self).elapsed_ms < old(self).total_ms {
                if shutdown {
                    SleepStep::Stop(true)
                } else {
                    SleepStep::Slice
                }
            } else {
                SleepStep::Stop(shutdown)
            }),
            final(self).total_ms == old(self).total_ms,
            final(self).elapsed_ms == (if step is Slice {
                if old(self).elapsed_ms + SLEEP_SLICE_MS <= u64::MAX {
                    old(self).elapsed_ms + SLEEP_SLICE_MS
                } else {
                    u64::MAX as int
                }
            } else {
                old(self).elapsed_ms as int
            }),
    {
        if self.elapsed_ms < self.total_ms {
            if shutdown {
                SleepStep::Stop(true)
            } else {
                self.elapsed_ms = self.elapsed_ms.saturating_add(SLEEP_SLICE_MS);
                SleepStep::Slice
            }
        } else {
            SleepStep::Stop(shutdown)
        }
    }
}

// ---------------------------------------------------------------------------
// Log summaries
// ---------------------------------------------------------------------------

/// The decimal digits of a number.
pub open spec fn spec_decimal(n: nat) -> Seq<char>
    decreases n,
{
    if n < 10 {
        seq![digit_char(n)]
    } else {
        spec_decimal(n / 10) + seq![digit_char(n % 10)]
    }
}

pub open spec fn digit_char(d: nat) -> char {
    if d == 0 {
        '0'
    } else if d == 1 {
        '1'
    } else if d == 2 {
        '2'
    } else if d == 3 {
        '3'
    } else if d == 4 {
        '4'
    } else if d == 5 {
        '5'
    } else if d == 6 {
        '6'
    } else if d == 7 {
        '7'
    } else if d == 8 {
        '8'
    } else {
        '9'
    }
}

/// How `{:?}` shows a string: quoted, with escapes.
pub uninterp spec fn debug_quoted(s: Seq<char>) -> Seq<char>;

/// Formats a string with `{:?}` (the `Debug` of `str`). The contract only
/// names the result, a function of the string alone; the escaping rules
/// are not stated.
#[verifier::external_body]
fn debug_string(s: &str) -> (r: String)
    ensures
        r@ == debug_quoted(s@),
{
    format!("{:?}", s)
}

fn digit_str(d: usize) -> (r: &'static str)
    requires
        d < 10,
    ensures
        r@ == seq![digit_char(d as nat)],
{
    if d == 0 {
        proof { reveal_strlit("0"); }
        "0"
    } else if d == 1 {
        proof { reveal_strlit("1"); }
        "1"
    } else if d == 2 {
        proof { reveal_strlit("2"); }
        "2"
    } else if d == 3 {
        proof { reveal_strlit("3"); }
        "3"
    } else if d == 4 {
        proof { reveal_strlit("4"); }
        "4"
    } else if d == 5 {
        proof { reveal_strlit("5"); }
        "5"
    } else if d == 6 {
        proof { reveal_strlit("6"); }
        "6"
    } else if d == 7 {
        proof { reveal_strlit("7"); }
        "7"
    } else if d == 8 {
        proof { reveal_strlit("8"); }
        "8"
    } else {
        proof { reveal_strlit("9"); }
        "9"
    }
}

/// Appends the decimal digits of `n`.
fn append_decimal(out: &mut String, n: usize)
    ensures
        final(out)@ == old(out)@ + spec_decimal(n as nat),
    decreases n,
{
    if n >= 10 {
        append_decimal(out, n / 10);
    }
    out.append(digit_str(n % 10));
    proof {
        if n >= 10 {
            assert(final(out)@ =~= old(out)@ + spec_decimal(n as nat));
        }
    }
}

/// The length in bytes of a text's UTF-8 encoding (the length of a string
/// in memory always fits in `usize`).
pub open spec fn byte_len(t: Seq<char>) -> usize {
    vstd::utf8::encode_utf8(t).len() as usize
}

/// The log line that describes a message: its size in bytes and a quoted
/// preview of its first PREVIEW_CHARS characters.
pub open spec fn spec_summary(m: ClipboardMessage) -> Seq<char> {
    let t = message_text(m);
    let k = if t.len() < PREVIEW_CHARS {
        t.len() as int
    } else {
        PREVIEW_CHARS as int
    };
    "Text("@ + spec_decimal(byte_len(t) as nat) + " chars: "@ + debug_quoted(
        t.subrange(0, k),
    ) + ")"@
}

/// See `spec_summary`.
pub fn msg_summary(msg: &ClipboardMessage) -> (r: String)
    ensures
        r@ == spec_summary(*msg),
{
    match msg {
        ClipboardMessage::Text(s) => {
            let text = s.as_str();
            let chars = text.unicode_len();
            let k = if chars < PREVIEW_CHARS {
                chars
            } else {
                PREVIEW_CHARS
            };
            let preview = text.substring_char(0, k);
            let mut out = String::from_str("Text(");
            append_decimal(&mut out, text.len());
            out.append(" chars: ");
            let quoted = debug_string(preview);
            out.append(quoted.as_str());
            out.append(")");
            assert(preview@ == s@.subrange(0, k as int));
            out
        },
    }
}

// ---------------------------------------------------------------------------
// Laws
// ---------------------------------------------------------------------------

proof fn lemma_be_roundtrip(x: u32)
    ensures
        be_value(be_bytes(x)) == x,
{
    let b = be_bytes(x);
    assert(b[0] == x / 0x100_0000);
    assert(b[1] == (x / 0x1_0000) % 0x100);
    assert(b[2] == (x / 0x100) % 0x100);
    assert(b[3] == x % 0x100);
    assert((x / 0x100_0000) * 0x100_0000 + ((x / 0x1_0000) % 0x100) * 0x1_0000 + ((x / 0x100)
        % 0x100) * 0x100 + x % 0x100 == x) by (nonlinear_arith);
}

/// A framed payload of at most MAX_MESSAGE_SIZE bytes reads back as exactly
/// that payload: every proper prefix of the frame asks for more, never for
/// bytes past the frame's end, and the whole frame is complete with the
/// payload after the header.
pub proof fn law_frame_roundtrip(payload: Seq<u8>)
    requires
        payload.len() <= MAX_MESSAGE_SIZE,
    ensures
        spec_progress(spec_frame(payload)) is Complete,
        announced(spec_frame(payload)) == payload.len(),
        spec_frame(payload).subrange(4, 4 + announced(spec_frame(payload))) == payload,
        forall|k: int|
            0 <= k < spec_frame(payload).len() ==> {
                let got = #[trigger] spec_frame(payload).subrange(0, k);
                &&& spec_progress(got) is NeedMore
                &&& 0 < spec_wanted(got) <= spec_frame(payload).len() - k
            },
{
    let f = spec_frame(payload);
    let x = (payload.len() as int % 0x1_0000_0000) as u32;
    lemma_be_roundtrip(x);
    assert(f.subrange(0, 4) =~= be_bytes(x));
    assert(x == payload.len());
    assert(f.subrange(4, 4 + payload.len() as int) =~= payload);
    assert forall|k: int| 0 <= k < f.len() implies {
        let got = #[trigger] f.subrange(0, k);
        &&& spec_progress(got) is NeedMore
        &&& 0 < spec_wanted(got) <= f.len() - k
    } by {
        let got = f.subrange(0, k);
        if k >= 4 {
            assert(got.subrange(0, 4) =~= f.subrange(0, 4));
        }
    }
}

/// No echo: once a text from the peer has been applied, finding that same
/// text on the local clipboard sends nothing back.
pub proof fn law_applied_text_is_not_echoed(msg: ClipboardMessage, local: String)
    requires
        local@ == message_text(msg),
    ensures
        ({
            let last = Some(spec_text_hash(message_text(msg)));
            spec_observe_local(last, Some(local)) == (last, None::<ClipboardMessage>)
        }),
{
}

/// A text is sent once: after it has been sent, polling the same text again
/// sends nothing.
pub proof fn law_text_is_sent_once(last: Option<u64>, t1: String, t2: String)
    requires
        t1@ == t2@,
        spec_observe_local(last, Some(t1)).1 is Some,
    ensures
        ({
            let after = spec_observe_local(last, Some(t1)).0;
            spec_observe_local(after, Some(t2)) == (after, None::<ClipboardMessage>)
        }),
{
}

/// A new non-empty text is sent, as it is, and its hash is remembered.
pub proof fn law_new_text_is_sent(last: Option<u64>, t: String)
    requires
        t@.len() > 0,
        last != Some(spec_text_hash(t@)),
    ensures
        spec_observe_local(last, Some(t)) == (
            Some(spec_text_hash(t@)),
            Some(ClipboardMessage::Text(t)),
        ),
{
}

} // verus!
