//! Sending a whole buffer: repeated partial writes under one deadline shared by
//! the whole call, with a cancellation check after every write.
use vstd::prelude::*;
use crate::engine::{Action, Event, Interest, OpState, Outcome, Stage, op_next, op_step, round, round_exec};
use crate::timeout::{Deadline, TimeoutMode, deadline_after};

verus! {

/// Where a `sendall` stands.
#[derive(Clone, Copy, Debug, PartialEq, Eq, Structural)]
pub enum SendPhase {
    /// A write of the unsent rest is under way (see `op`).
    Sending,
    /// A write went through; the cancellation check is pending.
    Checking,
    Finished(Outcome),
}

/// The state of a `sendall`.
#[derive(Clone, Copy, Debug, PartialEq, Eq, Structural)]
pub struct SendAllState {
    /// Bytes in the buffer.
    pub total: usize,
    /// Bytes written so far, from the front of the buffer.
    pub sent: usize,
    pub mode: TimeoutMode,
    /// The deadline of the whole call; present exactly in bounded mode.
    pub deadline: Option<u64>,
    pub phase: SendPhase,
    /// The write under way.
    pub op: OpState,
}

pub open spec fn send_wf(s: SendAllState) -> bool {
    &&& s.sent <= s.total
    &&& s.phase == SendPhase::Sending ==> s.sent < s.total
    &&& s.deadline.is_some() == (s.mode is Bounded)
    &&& s.op.mode == s.mode
    &&& s.op.deadline == s.deadline
    &&& s.op.interest == Interest::Write
}

/// A write of the unsent rest, before its first round.
pub open spec fn write_op(s: SendAllState) -> OpState {
    OpState {
        interest: Interest::Write,
        mode: s.mode,
        deadline: s.deadline,
        stage: Stage::Attempting,
    }
}

/// Start of a round: done once everything is sent; otherwise a new write of
/// the rest, which times out at once if the deadline has been reached.
pub open spec fn send_round(s: SendAllState, now: u64) -> (SendAllState, Action) {
    if s.sent >= s.total {
        (
            SendAllState { phase: SendPhase::Finished(Outcome::Success), ..s },
            Action::Finish(Outcome::Success),
        )
    } else {
        let (op, a) = round(write_op(s), now);
        match a {
            Action::Finish(o) => (
                SendAllState { phase: SendPhase::Finished(o), op, ..s },
                Action::Finish(o),
            ),
            _ => (SendAllState { phase: SendPhase::Sending, op, ..s }, a),
        }
    }
}

/// Bytes that a successful write of `ev` adds, never past the buffer's end.
pub open spec fn written(s: SendAllState, ev: Event) -> usize {
    let n = match ev {
        Event::Done(n) => n,
        _ => 0,
    };
    if n <= s.total - s.sent {
        n
    } else {
        (s.total - s.sent) as usize
    }
}

/// One step of a `sendall`. An event that does not answer the pending action
/// asks for that action again.
pub open spec fn send_next(s: SendAllState, ev: Event, now: u64) -> (SendAllState, Action) {
    match s.phase {
        SendPhase::Sending => {
            let (op, a) = op_next(s.op, ev, now);
            match a {
                Action::Finish(Outcome::Success) => (
                    SendAllState {
                        sent: (s.sent + written(s, ev)) as usize,
                        phase: SendPhase::Checking,
                        op,
                        ..s
                    },
                    Action::CheckCancellation,
                ),
                Action::Finish(o) => (
                    SendAllState { phase: SendPhase::Finished(o), op, ..s },
                    Action::Finish(o),
                ),
                _ => (SendAllState { op, ..s }, a),
            }
        },
        SendPhase::Checking => match ev {
            Event::Proceed => send_round(s, now),
            Event::Cancelled => (
                SendAllState { phase: SendPhase::Finished(Outcome::Cancelled), ..s },
                Action::Finish(Outcome::Cancelled),
            ),
            _ => (s, Action::CheckCancellation),
        },
        SendPhase::Finished(o) => (s, Action::Finish(o)),
    }
}

/// The state of a new `sendall` of `total` bytes started at `now`.
pub open spec fn send_initial(total: usize, mode: TimeoutMode, now: u64) -> SendAllState {
    let deadline = match mode {
        TimeoutMode::Bounded(d) => Some(deadline_after(now, d)),
        _ => None,
    };
    SendAllState {
        total,
        sent: 0,
        mode,
        deadline,
        phase: SendPhase::Checking,
        op: OpState { interest: Interest::Write, mode, deadline, stage: Stage::Attempting },
    }
}

fn send_round_exec(s: SendAllState, now: u64) -> (r: (SendAllState, Action))
    ensures
        r == send_round(s, now),
{
    if s.sent >= s.total {
        (
            SendAllState { phase: SendPhase::Finished(Outcome::Success), ..s },
            Action::Finish(Outcome::Success),
        )
    } else {
        let first = OpState {
            interest: Interest::Write,
            mode: s.mode,
            deadline: s.deadline,
            stage: Stage::Attempting,
        };
        let (op, a) = round_exec(first, now);
        match a {
            Action::Finish(o) => (
                SendAllState { phase: SendPhase::Finished(o), op, ..s },
                Action::Finish(o),
            ),
            _ => (SendAllState { phase: SendPhase::Sending, op, ..s }, a),
        }
    }
}

/// One step of a `sendall` (see `send_next`).
pub fn send_step(s: SendAllState, ev: Event, now: u64) -> (r: (SendAllState, Action))
    requires
        send_wf(s),
    ensures
        r == send_next(s, ev, now),
        send_wf(r.0),
{
    match s.phase {
        SendPhase::Sending => {
            let (op, a) = op_step(s.op, ev, now);
            match a {
                Action::Finish(Outcome::Success) => {
                    let n = match ev {
                        Event::Done(n) => n,
                        _ => 0,
                    };
                    let k = if n <= s.total - s.sent {
                        n
                    } else {
                        s.total - s.sent
                    };
                    (
                        SendAllState {
                            sent: s.sent + k,
                            phase: SendPhase::Checking,
                            op,
                            ..s
                        },
                        Action::CheckCancellation,
                    )
                },
                Action::Finish(o) => (
                    SendAllState { phase: SendPhase::Finished(o), op, ..s },
                    Action::Finish(o),
                ),
                _ => (SendAllState { op, ..s }, a),
            }
        },
        SendPhase::Checking => match ev {
            Event::Proceed => send_round_exec(s, now),
            Event::Cancelled => (
                SendAllState { phase: SendPhase::Finished(Outcome::Cancelled), ..s },
                Action::Finish(Outcome::Cancelled),
            ),
            _ => (s, Action::CheckCancellation),
        },
        SendPhase::Finished(o) => (s, Action::Finish(o)),
    }
}

/// A `sendall` in progress.
pub struct SendAll {
    state: SendAllState,
}

impl View for SendAll {
    type V = SendAllState;

    closed spec fn view(&self) -> SendAllState {
        self.state
    }
}

impl SendAll {
    pub closed spec fn wf(&self) -> bool {
        send_wf(self.state)
    }

    /// Starts sending `total` bytes at `now`; a bounded mode sets one deadline
    /// for the whole call. Returns the first action.
    pub fn start(total: usize, mode: TimeoutMode, now: u64) -> (r: (SendAll, Action))
        ensures
            (r.0@, r.1) == send_round(send_initial(total, mode, now), now),
            r.0.wf(),
    {
        let deadline = match mode {
            TimeoutMode::Bounded(d) => Some(Deadline::new(now, d).at()),
            _ => None,
        };
        let s = SendAllState {
            total,
            sent: 0,
            mode,
            deadline,
            phase: SendPhase::Checking,
            op: OpState { interest: Interest::Write, mode, deadline, stage: Stage::Attempting },
        };
        let (s, a) = send_round_exec(s, now);
        (SendAll { state: s }, a)
    }

    /// Hands the call what happened and returns the next action. After
    /// `Attempt`, the caller writes the bytes from `sent()` to the end.
    pub fn step(&mut self, ev: Event, now: u64) -> (a: Action)
        requires
            old(self).wf(),
        ensures
            (final(self)@, a) == send_next(old(self)@, ev, now),
            final(self).wf(),
    {
        let (s, a) = send_step(self.state, ev, now);
        self.state = s;
        a
    }

    /// Bytes written so far.
    pub fn sent(&self) -> (r: usize)
        ensures
            r == self@.sent,
    {
        self.state.sent
    }
}

/// A `sendall` succeeds only once every byte has been written; each write that
/// moves at least one byte brings it that much closer, so with writes that
/// always move something it finishes after at most `total` of them.
pub proof fn lemma_sendall_progress(s: SendAllState, ev: Event, now: u64)
    requires
        send_wf(s),
    ensures
        send_next(s, ev, now).1 == Action::Finish(Outcome::Success) && s.phase
            != SendPhase::Finished(Outcome::Success) ==> send_next(s, ev, now).0.sent == s.total,
        send_next(s, ev, now).0.sent >= s.sent,
        s.phase == SendPhase::Sending && s.op.stage == Stage::Attempting && (match ev {
            Event::Done(n) => n >= 1,
            _ => false,
        }) ==> send_next(s, ev, now).0.sent > s.sent,
{
}

/// A `sendall` with a deadline fails with a timeout once the deadline has been
/// reached and the peer takes nothing more: a write that would block, or a
/// poll that reports nothing, ends the call.
pub proof fn lemma_sendall_times_out(s: SendAllState, ev: Event, now: u64)
    requires
        send_wf(s),
        s.mode is Bounded,
        now >= s.deadline.unwrap(),
        s.phase == SendPhase::Sending,
        s.op.stage == Stage::Attempting && ev == Event::WouldBlock || s.op.stage == Stage::Polling
            && ev == Event::PollTimedOut,
    ensures
        send_next(s, ev, now).1 == Action::Finish(Outcome::TimedOut),
{
}

} // verus!
