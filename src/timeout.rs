//! Timeout modes, deadlines and the wait bound handed to a readiness poll.
//!
//! Time is counted in nanoseconds of a monotonic clock whose origin the caller
//! picks; spans are nanoseconds too.
use vstd::prelude::*;

verus! {

/// Nanoseconds in one millisecond.
pub const NANOS_PER_MILLI: u64 = 1000000;

/// Largest wait, in milliseconds, that a readiness poll accepts.
pub const MAX_POLL_MILLIS: i32 = 2147483647;

/// How a socket waits: forever, not at all, or for at most a span.
#[derive(Clone, Copy, Debug, PartialEq, Eq, Structural)]
pub enum TimeoutMode {
    /// Block until the operation completes.
    Blocking,
    /// Never wait: an operation that would block reports the timeout outcome.
    NonBlocking,
    /// Wait at most this many nanoseconds in all.
    Bounded(u64),
}

/// The instant `span` after `start`, saturating at the end of the clock.
pub open spec fn deadline_after(start: u64, span: u64) -> u64 {
    if start + span <= u64::MAX {
        (start + span) as u64
    } else {
        u64::MAX
    }
}

/// Time left before `at`, seen at `now`; `None` once nothing is left.
pub open spec fn time_left(at: u64, now: u64) -> Option<u64> {
    if now < at {
        Some((at - now) as u64)
    } else {
        None
    }
}

/// An absolute instant after which an operation reports a timeout.
pub struct Deadline {
    at: u64,
}

impl View for Deadline {
    type V = u64;

    closed spec fn view(&self) -> u64 {
        self.at
    }
}

impl Deadline {
    /// The deadline `span` nanoseconds after `now`.
    pub fn new(now: u64, span: u64) -> (d: Deadline)
        ensures
            d@ == deadline_after(now, span),
    {
        Deadline { at: now.saturating_add(span) }
    }

    /// The instant itself.
    pub fn at(&self) -> (r: u64)
        ensures
            r == self@,
    {
        self.at
    }

    /// Time left at `now`; `None` when the deadline has been reached, so that a
    /// remaining time of zero already counts as a timeout.
    pub fn time_until(&self, now: u64) -> (r: Option<u64>)
        ensures
            r == time_left(self@, now),
    {
        if now < self.at {
            Some(self.at - now)
        } else {
            None
        }
    }
}

/// The poll timeout, in milliseconds, for a wait bound in nanoseconds: `-1`
/// waits indefinitely; a bound is rounded up to whole milliseconds, so that a
/// poll never gives up before the bound, and capped at `MAX_POLL_MILLIS`.
pub open spec fn poll_millis(wait: Option<u64>) -> int {
    match wait {
        None => -1,
        Some(n) => {
            let ms = (n + NANOS_PER_MILLI - 1) / (NANOS_PER_MILLI as int);
            if ms <= MAX_POLL_MILLIS {
                ms
            } else {
                MAX_POLL_MILLIS as int
            }
        },
    }
}

/// The poll timeout for a wait bound (see `poll_millis`).
pub fn poll_timeout_millis(wait: Option<u64>) -> (r: i32)
    ensures
        r == poll_millis(wait),
        wait.is_none() ==> r == -1,
        wait.is_some() && r < MAX_POLL_MILLIS ==> r * NANOS_PER_MILLI >= wait.unwrap()
            && r * NANOS_PER_MILLI < wait.unwrap() + NANOS_PER_MILLI,
{
    match wait {
        None => -1,
        Some(n) => {
            let whole = n / NANOS_PER_MILLI;
            let ms = if n % NANOS_PER_MILLI == 0 {
                whole
            } else {
                whole + 1
            };
            assert(ms == (n + NANOS_PER_MILLI - 1) / (NANOS_PER_MILLI as int)) by (nonlinear_arith)
                requires
                    whole == n / NANOS_PER_MILLI,
                    ms == if n % NANOS_PER_MILLI == 0 { whole } else { (whole + 1) as u64 },
                    NANOS_PER_MILLI == 1000000,
            ;
            if ms <= MAX_POLL_MILLIS as u64 {
                assert(ms * NANOS_PER_MILLI >= n && ms * NANOS_PER_MILLI < n + NANOS_PER_MILLI)
                    by (nonlinear_arith)
                    requires
                        whole == n / NANOS_PER_MILLI,
                        ms == if n % NANOS_PER_MILLI == 0 { whole } else { (whole + 1) as u64 },
                        NANOS_PER_MILLI == 1000000,
                ;
                ms as i32
            } else {
                MAX_POLL_MILLIS
            }
        },
    }
}

/// The mode for a timeout given as an optional span: none blocks, zero does
/// not wait, anything else bounds the wait.
pub open spec fn mode_of_span(span: Option<u64>) -> TimeoutMode {
    match span {
        None => TimeoutMode::Blocking,
        Some(d) => if d == 0 {
            TimeoutMode::NonBlocking
        } else {
            TimeoutMode::Bounded(d)
        },
    }
}

/// The timeout as a caller reads it back: none when blocking, zero when not
/// waiting, the span when bounded.
pub open spec fn span_of_mode(mode: TimeoutMode) -> Option<u64> {
    match mode {
        TimeoutMode::Blocking => None,
        TimeoutMode::NonBlocking => Some(0),
        TimeoutMode::Bounded(d) => Some(d),
    }
}

/// A mode as a socket holds it: a bounded mode has a span above zero.
pub open spec fn mode_wf(mode: TimeoutMode) -> bool {
    match mode {
        TimeoutMode::Bounded(d) => d > 0,
        _ => true,
    }
}

/// The mode for an optional span (see `mode_of_span`).
pub fn timeout_mode(span: Option<u64>) -> (m: TimeoutMode)
    ensures
        m == mode_of_span(span),
        mode_wf(m),
{
    match span {
        None => TimeoutMode::Blocking,
        Some(d) => if d == 0 {
            TimeoutMode::NonBlocking
        } else {
            TimeoutMode::Bounded(d)
        },
    }
}

/// The span of a mode (see `span_of_mode`).
pub fn timeout_span(mode: TimeoutMode) -> (r: Option<u64>)
    ensures
        r == span_of_mode(mode),
{
    match mode {
        TimeoutMode::Blocking => None,
        TimeoutMode::NonBlocking => Some(0),
        TimeoutMode::Bounded(d) => Some(d),
    }
}

/// The mode for `setblocking`: blocking forever, or not waiting at all.
pub open spec fn mode_for_blocking(block: bool) -> TimeoutMode {
    if block {
        TimeoutMode::Blocking
    } else {
        TimeoutMode::NonBlocking
    }
}

/// Whether the descriptor's own non-blocking flag must be set for a mode:
/// every mode but blocking polls before it acts, so the descriptor itself must
/// never block.
pub open spec fn os_nonblocking(mode: TimeoutMode) -> bool {
    mode != TimeoutMode::Blocking
}

/// The descriptor flag for a mode (see `os_nonblocking`).
pub fn nonblocking_flag(mode: TimeoutMode) -> (r: bool)
    ensures
        r == os_nonblocking(mode),
{
    match mode {
        TimeoutMode::Blocking => false,
        _ => true,
    }
}

} // verus!
