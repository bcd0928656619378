//! The retry engine: turns a non-blocking operation into a blocking, a
//! non-blocking or a deadline-bounded one.
//!
//! The engine is a state machine. The caller starts it, performs each action it
//! returns (poll the descriptor, attempt the operation, run the cancellation
//! check) and hands back what happened as an event, with the clock's reading.
//! It stops at a `Finish` action.
use vstd::prelude::*;
use crate::timeout::{Deadline, TimeoutMode, deadline_after};

verus! {

/// What a readiness poll waits for.
#[derive(Clone, Copy, Debug, PartialEq, Eq, Structural)]
pub enum Interest {
    Read,
    Write,
    /// Completion of a pending connect: writability or an error condition.
    Connect,
}

/// How an operation ended.
#[derive(Clone, Copy, Debug, PartialEq, Eq, Structural)]
pub enum Outcome {
    /// The last attempt succeeded: its result is the operation's result.
    Success,
    /// The deadline passed, or an attempt would block where no wait is allowed.
    TimedOut,
    /// The error of the last poll or attempt is the operation's error.
    Failed,
    /// The cancellation check raised: its error is the operation's error.
    Cancelled,
}

/// What the caller does next.
#[derive(Clone, Copy, Debug, PartialEq, Eq, Structural)]
pub enum Action {
    /// Poll the descriptor for the engine's interest, waiting at most this many
    /// nanoseconds, or indefinitely.
    Poll(Option<u64>),
    /// Attempt the operation once.
    Attempt,
    /// Run the cancellation check.
    CheckCancellation,
    /// Stop.
    Finish(Outcome),
}

/// What happened when the caller performed an action.
#[derive(Clone, Copy, Debug, PartialEq, Eq, Structural)]
pub enum Event {
    /// The poll reported the descriptor ready.
    Ready,
    /// The poll reported nothing within its bound.
    PollTimedOut,
    /// The poll was interrupted by a signal.
    PollInterrupted,
    /// The poll failed with an operating-system error.
    PollFailed,
    /// The attempt succeeded, having moved this many bytes.
    Done(usize),
    /// The attempt was interrupted by a signal.
    Interrupted,
    /// The attempt would have blocked.
    WouldBlock,
    /// The attempt failed with any other error.
    Failed,
    /// The cancellation check passed.
    Proceed,
    /// The cancellation check raised.
    Cancelled,
}

/// Where an operation stands.
#[derive(Clone, Copy, Debug, PartialEq, Eq, Structural)]
pub enum Stage {
    Polling,
    PollCheck,
    Attempting,
    AttemptCheck,
    Finished(Outcome),
}

/// The state of one operation.
#[derive(Clone, Copy, Debug, PartialEq, Eq, Structural)]
pub struct OpState {
    pub interest: Interest,
    pub mode: TimeoutMode,
    /// The instant after which the operation times out; present exactly in
    /// bounded mode.
    pub deadline: Option<u64>,
    pub stage: Stage,
}

/// A state in which the deadline is present exactly in bounded mode.
pub open spec fn op_wf(s: OpState) -> bool {
    s.deadline.is_some() == (s.mode is Bounded)
}

/// Start of a round: poll when there is a deadline or a connect to complete
/// (timing out once the deadline is reached), attempt directly otherwise.
pub open spec fn round(s: OpState, now: u64) -> (OpState, Action) {
    match s.deadline {
        Some(at) => if now < at {
            (OpState { stage: Stage::Polling, ..s }, Action::Poll(Some((at - now) as u64)))
        } else {
            (
                OpState { stage: Stage::Finished(Outcome::TimedOut), ..s },
                Action::Finish(Outcome::TimedOut),
            )
        },
        None => if s.interest == Interest::Connect {
            (OpState { stage: Stage::Polling, ..s }, Action::Poll(None))
        } else {
            (OpState { stage: Stage::Attempting, ..s }, Action::Attempt)
        },
    }
}

/// A finished state and its action.
pub open spec fn finish(s: OpState, o: Outcome) -> (OpState, Action) {
    (OpState { stage: Stage::Finished(o), ..s }, Action::Finish(o))
}

/// One step of the engine. An event that does not answer the pending action
/// leaves the operation where it is and asks for that action again.
pub open spec fn op_next(s: OpState, ev: Event, now: u64) -> (OpState, Action) {
    match s.stage {
        Stage::Polling => match ev {
            Event::Ready => (OpState { stage: Stage::Attempting, ..s }, Action::Attempt),
            Event::PollInterrupted => (
                OpState { stage: Stage::PollCheck, ..s },
                Action::CheckCancellation,
            ),
            Event::PollFailed => finish(s, Outcome::Failed),
            // A poll that reported nothing starts a new round: without a
            // deadline it had no bound and polls again; with one, it times out
            // once the deadline is reached and otherwise polls for what is left.
            _ => round(s, now),
        },
        Stage::PollCheck => match ev {
            Event::Proceed => round(s, now),
            Event::Cancelled => finish(s, Outcome::Cancelled),
            _ => (s, Action::CheckCancellation),
        },
        Stage::Attempting => match ev {
            Event::Done(_) => finish(s, Outcome::Success),
            Event::Interrupted => (
                OpState { stage: Stage::AttemptCheck, ..s },
                Action::CheckCancellation,
            ),
            Event::WouldBlock => match s.mode {
                TimeoutMode::Bounded(_) => round(s, now),
                TimeoutMode::NonBlocking => finish(s, Outcome::TimedOut),
                TimeoutMode::Blocking => finish(s, Outcome::Failed),
            },
            Event::Failed => finish(s, Outcome::Failed),
            _ => (s, Action::Attempt),
        },
        Stage::AttemptCheck => match ev {
            Event::Proceed => (OpState { stage: Stage::Attempting, ..s }, Action::Attempt),
            Event::Cancelled => finish(s, Outcome::Cancelled),
            _ => (s, Action::CheckCancellation),
        },
        Stage::Finished(o) => (s, Action::Finish(o)),
    }
}

/// The state of a new operation, before its first round.
pub open spec fn op_initial(interest: Interest, mode: TimeoutMode, now: u64) -> OpState {
    OpState {
        interest,
        mode,
        deadline: match mode {
            TimeoutMode::Bounded(d) => Some(deadline_after(now, d)),
            _ => None,
        },
        stage: Stage::Attempting,
    }
}

/// Start of a round (see `round`).
pub fn round_exec(s: OpState, now: u64) -> (r: (OpState, Action))
    ensures
        r == round(s, now),
{
    match s.deadline {
        Some(at) => if now < at {
            (OpState { stage: Stage::Polling, ..s }, Action::Poll(Some(at - now)))
        } else {
            finish_exec(s, Outcome::TimedOut)
        },
        None => if s.interest == Interest::Connect {
            (OpState { stage: Stage::Polling, ..s }, Action::Poll(None))
        } else {
            (OpState { stage: Stage::Attempting, ..s }, Action::Attempt)
        },
    }
}

fn finish_exec(s: OpState, o: Outcome) -> (r: (OpState, Action))
    ensures
        r == finish(s, o),
{
    (OpState { stage: Stage::Finished(o), ..s }, Action::Finish(o))
}

/// One step of the engine (see `op_next`).
pub fn op_step(s: OpState, ev: Event, now: u64) -> (r: (OpState, Action))
    ensures
        r == op_next(s, ev, now),
{
    match s.stage {
        Stage::Polling => match ev {
            Event::Ready => (OpState { stage: Stage::Attempting, ..s }, Action::Attempt),
            Event::PollInterrupted => (
                OpState { stage: Stage::PollCheck, ..s },
                Action::CheckCancellation,
            ),
            Event::PollFailed => finish_exec(s, Outcome::Failed),
            _ => round_exec(s, now),
        },
        Stage::PollCheck => match ev {
            Event::Proceed => round_exec(s, now),
            Event::Cancelled => finish_exec(s, Outcome::Cancelled),
            _ => (s, Action::CheckCancellation),
        },
        Stage::Attempting => match ev {
            Event::Done(_) => finish_exec(s, Outcome::Success),
            Event::Interrupted => (
                OpState { stage: Stage::AttemptCheck, ..s },
                Action::CheckCancellation,
            ),
            Event::WouldBlock => match s.mode {
                TimeoutMode::Bounded(_) => round_exec(s, now),
                TimeoutMode::NonBlocking => finish_exec(s, Outcome::TimedOut),
                TimeoutMode::Blocking => finish_exec(s, Outcome::Failed),
            },
            Event::Failed => finish_exec(s, Outcome::Failed),
            _ => (s, Action::Attempt),
        },
        Stage::AttemptCheck => match ev {
            Event::Proceed => (OpState { stage: Stage::Attempting, ..s }, Action::Attempt),
            Event::Cancelled => finish_exec(s, Outcome::Cancelled),
            _ => (s, Action::CheckCancellation),
        },
        Stage::Finished(o) => (s, Action::Finish(o)),
    }
}

/// One socket operation under a timeout mode.
pub struct SockOp {
    state: OpState,
}

impl View for SockOp {
    type V = OpState;

    closed spec fn view(&self) -> OpState {
        self.state
    }
}

impl SockOp {
    /// Starts an operation at `now`: a bounded mode sets its deadline `span`
    /// after `now`. Returns the first action.
    pub fn start(interest: Interest, mode: TimeoutMode, now: u64) -> (r: (SockOp, Action))
        ensures
            (r.0@, r.1) == round(op_initial(interest, mode, now), now),
            op_wf(r.0@),
    {
        let deadline = match mode {
            TimeoutMode::Bounded(d) => Some(Deadline::new(now, d).at()),
            _ => None,
        };
        let s = OpState { interest, mode, deadline, stage: Stage::Attempting };
        let (s, a) = round_exec(s, now);
        (SockOp { state: s }, a)
    }

    /// Hands the engine what happened and returns the next action.
    pub fn step(&mut self, ev: Event, now: u64) -> (a: Action)
        ensures
            (final(self)@, a) == op_next(old(self)@, ev, now),
    {
        let (s, a) = op_step(self.state, ev, now);
        self.state = s;
        a
    }

    /// The operation's state.
    pub fn state(&self) -> (r: OpState)
        ensures
            r == self@,
    {
        self.state
    }
}

/// A bounded operation never times out early: a step that ends it with a
/// timeout sees the clock at or past its start plus its bound, and every poll
/// it asks for waits exactly the time left until then.
pub proof fn lemma_no_early_timeout(start: u64, span: u64, s: OpState, ev: Event, now: u64)
    requires
        s.mode == TimeoutMode::Bounded(span),
        s.deadline == op_initial(s.interest, s.mode, start).deadline,
    ensures
        s.stage != Stage::Finished(Outcome::TimedOut)
            && op_next(s, ev, now).1 == Action::Finish(Outcome::TimedOut)
            ==> now >= deadline_after(start, span),
        round(s, now).1 == Action::Finish(Outcome::TimedOut) ==> now >= deadline_after(start, span),
        forall|w: u64|
            op_next(s, ev, now).1 == Action::Poll(Some(w)) ==> now + w == deadline_after(
                start,
                span,
            ),
        forall|w: u64| round(s, now).1 == Action::Poll(Some(w)) ==> now + w == deadline_after(start, span),
{
}

/// An operation that blocks forever never reports a timeout: an error of the
/// operating system, such as a refused connection, is reported as the
/// operation's error.
pub proof fn lemma_blocking_never_times_out(s: OpState, ev: Event, now: u64)
    requires
        op_wf(s),
        s.mode == TimeoutMode::Blocking,
        s.stage != Stage::Finished(Outcome::TimedOut),
    ensures
        op_next(s, ev, now).1 != Action::Finish(Outcome::TimedOut),
        round(s, now).1 != Action::Finish(Outcome::TimedOut),
        s.stage == Stage::Attempting && ev == Event::Failed ==> op_next(s, ev, now).1
            == Action::Finish(Outcome::Failed),
{
}

/// With a bound of zero an operation times out at once, before any attempt;
/// in non-blocking mode an attempt that would block ends in a timeout, not in
/// a would-block error.
pub proof fn lemma_zero_wait_times_out(interest: Interest, now: u64, s: OpState)
    requires
        s.mode == TimeoutMode::NonBlocking,
        s.stage == Stage::Attempting,
    ensures
        round(op_initial(interest, TimeoutMode::Bounded(0), now), now).1 == Action::Finish(
            Outcome::TimedOut,
        ),
        op_next(s, Event::WouldBlock, now).1 == Action::Finish(Outcome::TimedOut),
{
}

} // verus!
