//! Connecting: what follows a first connect attempt, how a pending connect is
//! resolved, and the error number that `connect_ex` reports.
use vstd::prelude::*;
use crate::engine::Outcome;
use crate::timeout::TimeoutMode;

verus! {

/// The operating system's numbers for the errors that decisions here depend on.
#[derive(Clone, Copy, Debug, PartialEq, Eq, Structural)]
pub struct ErrCodes {
    /// A non-blocking connect has begun and not yet finished.
    pub in_progress: i32,
    /// The socket is already connected.
    pub is_connected: i32,
    /// The peer reset the connection.
    pub conn_reset: i32,
    /// The operation would block.
    pub would_block: i32,
    /// The descriptor is not a socket.
    pub not_sock: i32,
    /// The descriptor is not open.
    pub bad_fd: i32,
}

/// How the first connect attempt went.
#[derive(Clone, Copy, Debug, PartialEq, Eq, Structural)]
pub enum ConnectAttempt {
    Connected,
    Interrupted,
    /// Any other failure, with its error number if it has one.
    Failed(Option<i32>),
}

/// What follows.
#[derive(Clone, Copy, Debug, PartialEq, Eq, Structural)]
pub enum ConnectNext {
    /// The socket is connected.
    Done,
    /// Run the cancellation check, then ask `connect_after_check`.
    CheckCancellation,
    /// Wait for the connect to complete: run the engine with `Interest::Connect`
    /// under the socket's mode, each attempt reading the pending error.
    Wait,
    /// Report the connect's error.
    Fail,
}

/// Whether a mode waits for a pending connect: every mode but non-blocking.
pub open spec fn waits_for_connect(mode: TimeoutMode) -> bool {
    mode != TimeoutMode::NonBlocking
}

pub open spec fn connect_next_spec(mode: TimeoutMode, a: ConnectAttempt, codes: ErrCodes) -> ConnectNext {
    match a {
        ConnectAttempt::Connected => ConnectNext::Done,
        ConnectAttempt::Interrupted => ConnectNext::CheckCancellation,
        ConnectAttempt::Failed(code) => if waits_for_connect(mode) && code == Some(codes.in_progress) {
            ConnectNext::Wait
        } else {
            ConnectNext::Fail
        },
    }
}

/// What follows a first connect attempt under `mode`: a connect that is in
/// progress is waited for unless the socket does not wait; an interrupted one
/// runs the cancellation check first.
pub fn connect_next(mode: TimeoutMode, a: ConnectAttempt, codes: &ErrCodes) -> (r: ConnectNext)
    ensures
        r == connect_next_spec(mode, a, *codes),
{
    match a {
        ConnectAttempt::Connected => ConnectNext::Done,
        ConnectAttempt::Interrupted => ConnectNext::CheckCancellation,
        ConnectAttempt::Failed(code) => {
            let waits = match mode {
                TimeoutMode::NonBlocking => false,
                _ => true,
            };
            if waits && code == Some(codes.in_progress) {
                ConnectNext::Wait
            } else {
                ConnectNext::Fail
            }
        },
    }
}

/// What follows an interrupted connect once the cancellation check passed: a
/// socket that waits waits for the connect to complete; one that does not
/// reports the interruption.
pub fn connect_after_check(mode: TimeoutMode) -> (r: ConnectNext)
    ensures
        r == (if waits_for_connect(mode) {
            ConnectNext::Wait
        } else {
            ConnectNext::Fail
        }),
{
    match mode {
        TimeoutMode::NonBlocking => ConnectNext::Fail,
        _ => ConnectNext::Wait,
    }
}

/// Whether the error pending on a socket after it became ready means that the
/// connect succeeded: no error, or "already connected".
pub fn pending_connect_ok(pending: Option<i32>, codes: &ErrCodes) -> (r: bool)
    ensures
        r == (pending is None || pending == Some(codes.is_connected)),
{
    match pending {
        None => true,
        Some(c) => c == codes.is_connected,
    }
}

/// The number that `connect_ex` returns for how the connect ended: zero on
/// success, the would-block number on a timeout, the error's number (or one,
/// if it has none) on failure; `None` when the cancellation check raised, whose
/// error is reported instead.
pub fn connect_ex_code(outcome: Outcome, os_code: Option<i32>, codes: &ErrCodes) -> (r: Option<i32>)
    ensures
        r == (match outcome {
            Outcome::Success => Some(0i32),
            Outcome::TimedOut => Some(codes.would_block),
            Outcome::Failed => Some(
                match os_code {
                    Some(c) => c,
                    None => 1i32,
                },
            ),
            Outcome::Cancelled => None,
        }),
{
    match outcome {
        Outcome::Success => Some(0),
        Outcome::TimedOut => Some(codes.would_block),
        Outcome::Failed => Some(
            match os_code {
                Some(c) => c,
                None => 1,
            },
        ),
        Outcome::Cancelled => None,
    }
}

/// A socket that blocks forever reports a refused connect as the refusal: a
/// first attempt that fails with anything but "in progress" is reported as
/// it stands, and a pending error other than "already connected" is reported
/// as the connect's error (the engine never times out in this mode).
pub proof fn lemma_refusal_reported(code: i32, codes: ErrCodes)
    requires
        code != codes.in_progress,
        code != codes.is_connected,
    ensures
        connect_next_spec(TimeoutMode::Blocking, ConnectAttempt::Failed(Some(code)), codes)
            == ConnectNext::Fail,
        !(Some(code) is None || Some(code) == Some(codes.is_connected)),
{
}

} // verus!
