//! When a blocking call of the decoder is given up, and how its failures read.
use vstd::prelude::*;
use crate::decimal::{digits, push_decimal};
use crate::text::owned;
use crate::time::{Duration, Instant, MAX_NANOS};

verus! {

/// Nanoseconds that opening a file may take.
pub const OPEN_TIMEOUT_NANOS: u128 = 30_000_000_000;

/// Nanoseconds that reading a packet may take.
pub const READ_TIMEOUT_NANOS: u128 = 15_000_000_000;

/// Nanoseconds that a seek may take.
pub const SEEK_TIMEOUT_NANOS: u128 = 15_000_000_000;

/// Why a blocking call is given up.
#[derive(Clone, Copy, Debug, PartialEq, Eq, Structural)]
pub enum AbortReason {
    Cancelled,
    TimedOut,
}

/// The word for a reason.
pub open spec fn reason_text(reason: AbortReason) -> Seq<char> {
    match reason {
        AbortReason::Cancelled => "cancelled"@,
        AbortReason::TimedOut => "timed out"@,
    }
}

impl AbortReason {
    /// The word for the reason.
    pub fn text(self) -> (r: &'static str)
        ensures
            r@ == reason_text(self),
    {
        match self {
            AbortReason::Cancelled => "cancelled",
            AbortReason::TimedOut => "timed out",
        }
    }
}

/// The time by which the current blocking call must be over.
#[derive(Clone, Copy, Debug, PartialEq, Eq, Structural)]
pub struct InterruptState {
    pub deadline: Option<Instant>,
}

impl InterruptState {
    pub fn new() -> (r: Self)
        ensures
            r.deadline is None,
    {
        InterruptState { deadline: None }
    }

    /// Gives the next blocking call a time.
    pub fn arm(&mut self, now: Instant, timeout_nanos: u128)
        requires
            now@ <= MAX_NANOS,
            timeout_nanos <= MAX_NANOS,
        ensures
            final(self).deadline == Some(Instant { nanos: (now@ + timeout_nanos) as u128 }),
    {
        self.deadline = Some(now.plus(Duration { nanos: timeout_nanos }));
    }

    /// Takes the time limit away.
    pub fn disarm(&mut self)
        ensures
            final(self).deadline is None,
    {
        self.deadline = None;
    }

    /// Why a blocking call is given up now, if it is: a cancellation comes first.
    pub open spec fn abort_reason(self, cancelled: bool, now: Instant) -> Option<AbortReason> {
        if cancelled {
            Some(AbortReason::Cancelled)
        } else if self.deadline matches Some(d) && now@ >= d@ {
            Some(AbortReason::TimedOut)
        } else {
            None
        }
    }

    /// Why a blocking call is given up now, if it is.
    pub fn aborted_reason(&self, cancelled: bool, now: Instant) -> (r: Option<AbortReason>)
        ensures
            r == self.abort_reason(cancelled, now),
    {
        if cancelled {
            return Some(AbortReason::Cancelled);
        }
        match self.deadline {
            Some(d) => if now.nanos >= d.nanos {
                Some(AbortReason::TimedOut)
            } else {
                None
            },
            None => None,
        }
    }
}

/// A number with its sign.
pub open spec fn signed_text(n: int) -> Seq<char> {
    if n < 0 {
        seq!['-'] + digits((-n) as nat)
    } else {
        digits(n as nat)
    }
}

/// The words for a failed call.
pub open spec fn failure_text(operation: Seq<char>, message: Seq<char>, status: i32) -> Seq<char> {
    operation + " failed: "@ + message + " ("@ + signed_text(status as int) + ")"@
}

/// Takes up the status of a call: negative ones are failures. `message` is what
/// the decoder says of the status.
pub fn ffmpeg_check(status: i32, operation: &str, message: &str) -> (r: Result<i32, String>)
    ensures
        match r {
            Ok(n) => status >= 0 && n == status,
            Err(text) => status < 0 && text@ == failure_text(operation@, message@, status),
        },
{
    if status >= 0 {
        return Ok(status);
    }
    let mut out = owned(operation);
    out.append(" failed: ");
    out.append(message);
    out.append(" (");
    let ghost before = out@;
    out.push('-');
    push_decimal(&mut out, (-(status as i64)) as u64);
    proof {
        assert(out@ =~= before + signed_text(status as int));
    }
    out.append(")");
    Err(out)
}

/// Takes up the status of a blocking call: a failure that was an interruption
/// says so.
pub fn check_blocking(
    status: i32,
    operation: &str,
    reason: Option<AbortReason>,
    message: &str,
) -> (r: Result<i32, String>)
    ensures
        match r {
            Ok(n) => status >= 0 && n == status,
            Err(text) => status < 0 && text@ == (match reason {
                Some(why) => operation@ + seq![' '] + reason_text(why),
                None => failure_text(operation@, message@, status),
            }),
        },
{
    if status >= 0 {
        return Ok(status);
    }
    match reason {
        Some(why) => {
            let mut out = owned(operation);
            out.push(' ');
            out.append(why.text());
            proof {
                assert(out@ =~= operation@ + seq![' '] + reason_text(why));
            }
            Err(out)
        },
        None => ffmpeg_check(status, operation, message),
    }
}

/// A call that is not cancelled goes on until its time is over, and not beyond.
pub proof fn deadline_bounds_the_call(started: Instant, timeout_nanos: u128, now: Instant)
    requires
        started@ <= MAX_NANOS,
        timeout_nanos <= MAX_NANOS,
    ensures
        ({
            let s = InterruptState {
                deadline: Some(Instant { nanos: (started@ + timeout_nanos) as u128 }),
            };
            s.abort_reason(false, now) is Some <==> now@ - started@ >= timeout_nanos
        }),
{
}

/// A cancellation is the reason whatever the time; without one the reason is the
/// time that is over, and without a time limit there is none.
pub proof fn cancellation_comes_before_the_time(s: InterruptState, now: Instant)
    ensures
        s.abort_reason(true, now) == Some(AbortReason::Cancelled),
        s.deadline is None ==> s.abort_reason(false, now) is None,
        s.deadline matches Some(d) ==> s.abort_reason(false, now) == (if now@ < d@ {
            None::<AbortReason>
        } else {
            Some(AbortReason::TimedOut)
        }),
        reason_text(AbortReason::Cancelled) == "cancelled"@,
        reason_text(AbortReason::TimedOut) == "timed out"@,
{
}

} // verus!
