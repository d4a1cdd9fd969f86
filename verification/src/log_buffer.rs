//! Log lines kept for the user interface: the logger pushes them into a
//! bounded channel (dropping lines when it is full) and the UI drains it.

use tokio::sync::mpsc::Receiver;
use vstd::prelude::*;

verus! {

#[verifier::external_type_specification]
#[verifier::external_body]
pub struct ExLevel(log::Level);

#[verifier::external_type_specification]
#[verifier::external_body]
#[verifier::reject_recursive_types(T)]
pub struct ExReceiver<T>(Receiver<T>);

/// Capacity of the channel between the logger and the UI.
pub const LOG_CHANNEL_CAPACITY: usize = 1000;

/// One captured log record.
pub struct LogLine {
    /// Unix milliseconds when the record was captured.
    pub ts_ms: u64,
    pub level: log::Level,
    pub message: String,
}

/// `Receiver::try_recv`, with the error (empty or disconnected) read as
/// "nothing now". Other threads send on the channel at any time, so nothing
/// is claimed about which line comes back or whether one does.
#[verifier::external_body]
fn try_next(rx: &mut Receiver<LogLine>) -> Option<LogLine> {
    rx.try_recv().ok()
}

/// The receiving half, held by the UI; there is exactly one.
pub struct LogReceiver {
    rx: Receiver<LogLine>,
}

impl LogReceiver {
    /// The receiving half of the channel that is drained.
    pub closed spec fn channel(&self) -> Receiver<LogLine> {
        self.rx
    }

    /// Wraps the receiving half of the log channel.
    pub fn from_channel(rx: Receiver<LogLine>) -> (r: LogReceiver)
        ensures
            r.channel() == rx,
    {
        LogReceiver { rx }
    }

    /// Appends every line waiting in the channel to `out`, without blocking:
    /// it stops at the first moment the channel is empty. Lines already in
    /// `out` stay as they were, at the front. Each line received is appended
    /// once, in the order received (see `absorb`); which lines arrive, and
    /// when the channel is found empty, depends on the senders.
    pub fn drain(&mut self, out: &mut Vec<LogLine>)
        ensures
            final(out)@.len() >= old(out)@.len(),
            final(out)@.subrange(0, old(out)@.len() as int) == old(out)@,
    {
        // A vector holds fewer than usize::MAX lines, so this bound never
        // cuts a drain short; it only makes the loop's end evident.
        let mut n: usize = 0;
        while n < usize::MAX
            invariant
                out@.len() >= old(out)@.len(),
                out@.subrange(0, old(out)@.len() as int) == old(out)@,
            decreases usize::MAX - n,
        {
            let ghost before = out@;
            let more = absorb(out, try_next(&mut self.rx));
            proof {
                assert(out@.subrange(0, old(out)@.len() as int) =~= before.subrange(
                    0,
                    old(out)@.len() as int,
                ));
            }
            if !more {
                break ;
            }
            n = n + 1;
        }
    }
}

/// One receive of a drain: a line that came is appended to `out`, and the
/// drain goes on; when none came, `out` is left as it is and the drain
/// stops.
pub fn absorb(out: &mut Vec<LogLine>, next: Option<LogLine>) -> (more: bool)
    ensures
        more == next is Some,
        final(out)@ == match next {
            Some(l) => old(out)@.push(l),
            None => old(out)@,
        },
{
    match next {
        Some(line) => {
            out.push(line);
            true
        },
        None => false,
    }
}

} // verus!
