use pysocket::engine::{Action, Event, Interest, Outcome, SockOp, Stage};
use pysocket::sendall::SendAll;
use pysocket::timeout::{poll_timeout_millis, timeout_mode, timeout_span, Deadline, TimeoutMode};

const MS: u64 = 1_000_000;

#[test]
fn deadline_counts_down_and_saturates() {
    let d = Deadline::new(10, 5);
    assert_eq!(d.at(), 15);
    assert_eq!(d.time_until(14), Some(1));
    assert_eq!(d.time_until(15), None);
    assert_eq!(d.time_until(20), None);
    assert_eq!(Deadline::new(u64::MAX - 1, 5).at(), u64::MAX);
}

#[test]
fn poll_timeout_rounds_up_to_milliseconds() {
    assert_eq!(poll_timeout_millis(None), -1);
    assert_eq!(poll_timeout_millis(Some(0)), 0);
    assert_eq!(poll_timeout_millis(Some(1)), 1);
    assert_eq!(poll_timeout_millis(Some(MS)), 1);
    assert_eq!(poll_timeout_millis(Some(MS + 1)), 2);
    assert_eq!(poll_timeout_millis(Some(2500 * MS)), 2500);
    assert_eq!(poll_timeout_millis(Some(u64::MAX)), i32::MAX);
}

#[test]
fn timeout_mode_of_span() {
    assert_eq!(timeout_mode(None), TimeoutMode::Blocking);
    assert_eq!(timeout_mode(Some(0)), TimeoutMode::NonBlocking);
    assert_eq!(timeout_mode(Some(7)), TimeoutMode::Bounded(7));
    assert_eq!(timeout_span(TimeoutMode::Bounded(7)), Some(7));
    assert_eq!(timeout_span(TimeoutMode::NonBlocking), Some(0));
    assert_eq!(timeout_span(TimeoutMode::Blocking), None);
}

#[test]
fn receive_times_out_at_the_bound_and_not_before() {
    let start = 1000;
    let (mut op, a) = SockOp::start(Interest::Read, TimeoutMode::Bounded(5 * MS), start);
    assert_eq!(a, Action::Poll(Some(5 * MS)));
    // A poll that comes back a nanosecond early polls again for what is left.
    let a = op.step(Event::PollTimedOut, start + 5 * MS - 1);
    assert_eq!(a, Action::Poll(Some(1)));
    let a = op.step(Event::PollTimedOut, start + 5 * MS);
    assert_eq!(a, Action::Finish(Outcome::TimedOut));
    // Finished stays finished.
    assert_eq!(op.step(Event::Ready, start + 6 * MS), Action::Finish(Outcome::TimedOut));
}

#[test]
fn bounded_receive_retries_after_would_block() {
    let (mut op, a) = SockOp::start(Interest::Read, TimeoutMode::Bounded(10 * MS), 0);
    assert_eq!(a, Action::Poll(Some(10 * MS)));
    assert_eq!(op.step(Event::Ready, 2 * MS), Action::Attempt);
    assert_eq!(op.step(Event::WouldBlock, 3 * MS), Action::Poll(Some(7 * MS)));
    assert_eq!(op.step(Event::Ready, 4 * MS), Action::Attempt);
    assert_eq!(op.step(Event::Done(12), 4 * MS), Action::Finish(Outcome::Success));
    assert_eq!(op.state().stage, Stage::Finished(Outcome::Success));
}

#[test]
fn would_block_after_the_deadline_is_a_timeout() {
    let (mut op, _) = SockOp::start(Interest::Write, TimeoutMode::Bounded(MS), 0);
    assert_eq!(op.step(Event::Ready, 10), Action::Attempt);
    assert_eq!(op.step(Event::WouldBlock, MS), Action::Finish(Outcome::TimedOut));
}

#[test]
fn interruptions_run_the_cancellation_check() {
    let (mut op, a) = SockOp::start(Interest::Read, TimeoutMode::Bounded(MS), 0);
    assert_eq!(a, Action::Poll(Some(MS)));
    assert_eq!(op.step(Event::PollInterrupted, 10), Action::CheckCancellation);
    assert_eq!(op.step(Event::Proceed, 20), Action::Poll(Some(MS - 20)));
    assert_eq!(op.step(Event::Ready, 30), Action::Attempt);
    assert_eq!(op.step(Event::Interrupted, 40), Action::CheckCancellation);
    assert_eq!(op.step(Event::Proceed, 50), Action::Attempt);
    assert_eq!(op.step(Event::Interrupted, 60), Action::CheckCancellation);
    assert_eq!(op.step(Event::Cancelled, 70), Action::Finish(Outcome::Cancelled));
}

#[test]
fn interrupted_poll_past_the_deadline_times_out() {
    let (mut op, _) = SockOp::start(Interest::Read, TimeoutMode::Bounded(100), 0);
    assert_eq!(op.step(Event::PollInterrupted, 50), Action::CheckCancellation);
    assert_eq!(op.step(Event::Proceed, 100), Action::Finish(Outcome::TimedOut));
}

#[test]
fn blocking_operation_attempts_directly() {
    let (mut op, a) = SockOp::start(Interest::Read, TimeoutMode::Blocking, 0);
    assert_eq!(a, Action::Attempt);
    assert_eq!(op.step(Event::Done(3), 5), Action::Finish(Outcome::Success));
}

#[test]
fn blocking_connect_refusal_is_an_error_not_a_timeout() {
    let (mut op, a) = SockOp::start(Interest::Connect, TimeoutMode::Blocking, 0);
    assert_eq!(a, Action::Poll(None));
    // An unbounded poll that reports nothing simply polls again.
    assert_eq!(op.step(Event::PollTimedOut, 10), Action::Poll(None));
    assert_eq!(op.step(Event::Ready, 20), Action::Attempt);
    assert_eq!(op.step(Event::Failed, 30), Action::Finish(Outcome::Failed));
}

#[test]
fn blocking_would_block_is_an_error() {
    let (mut op, _) = SockOp::start(Interest::Read, TimeoutMode::Blocking, 0);
    assert_eq!(op.step(Event::WouldBlock, 1), Action::Finish(Outcome::Failed));
}

#[test]
fn poll_failure_is_an_error() {
    let (mut op, _) = SockOp::start(Interest::Read, TimeoutMode::Bounded(MS), 0);
    assert_eq!(op.step(Event::PollFailed, 1), Action::Finish(Outcome::Failed));
}

#[test]
fn nonblocking_accept_without_connection_times_out_at_once() {
    let (mut op, a) = SockOp::start(Interest::Read, TimeoutMode::NonBlocking, 0);
    assert_eq!(a, Action::Attempt);
    assert_eq!(op.step(Event::WouldBlock, 0), Action::Finish(Outcome::TimedOut));
}

#[test]
fn zero_bound_times_out_before_any_attempt() {
    let (op, a) = SockOp::start(Interest::Read, TimeoutMode::Bounded(0), 42);
    assert_eq!(a, Action::Finish(Outcome::TimedOut));
    assert_eq!(op.state().stage, Stage::Finished(Outcome::TimedOut));
}

#[test]
fn unexpected_event_repeats_the_pending_action() {
    let (mut op, _) = SockOp::start(Interest::Read, TimeoutMode::Blocking, 0);
    assert_eq!(op.step(Event::Ready, 1), Action::Attempt);
    assert_eq!(op.step(Event::Interrupted, 2), Action::CheckCancellation);
    assert_eq!(op.step(Event::Done(1), 3), Action::CheckCancellation);
}

#[test]
fn sendall_moves_every_byte_across_partial_writes() {
    let (mut s, a) = SendAll::start(10, TimeoutMode::Blocking, 0);
    assert_eq!(a, Action::Attempt);
    assert_eq!(s.step(Event::Done(4), 1), Action::CheckCancellation);
    assert_eq!(s.sent(), 4);
    assert_eq!(s.step(Event::Proceed, 2), Action::Attempt);
    assert_eq!(s.step(Event::Done(3), 3), Action::CheckCancellation);
    assert_eq!(s.step(Event::Proceed, 4), Action::Attempt);
    assert_eq!(s.step(Event::Done(3), 5), Action::CheckCancellation);
    assert_eq!(s.sent(), 10);
    assert_eq!(s.step(Event::Proceed, 6), Action::Finish(Outcome::Success));
}

#[test]
fn sendall_times_out_when_the_peer_never_drains() {
    let (mut s, a) = SendAll::start(100, TimeoutMode::Bounded(10 * MS), 0);
    assert_eq!(a, Action::Poll(Some(10 * MS)));
    assert_eq!(s.step(Event::Ready, MS), Action::Attempt);
    assert_eq!(s.step(Event::Done(40), MS), Action::CheckCancellation);
    assert_eq!(s.step(Event::Proceed, 2 * MS), Action::Poll(Some(8 * MS)));
    // The deadline is the one of the whole call.
    assert_eq!(s.step(Event::PollTimedOut, 10 * MS), Action::Finish(Outcome::TimedOut));
    assert_eq!(s.sent(), 40);
}

#[test]
fn sendall_past_deadline_between_writes_times_out() {
    let (mut s, _) = SendAll::start(100, TimeoutMode::Bounded(MS), 0);
    assert_eq!(s.step(Event::Ready, 1), Action::Attempt);
    assert_eq!(s.step(Event::Done(1), 2), Action::CheckCancellation);
    assert_eq!(s.step(Event::Proceed, MS), Action::Finish(Outcome::TimedOut));
}

#[test]
fn sendall_of_nothing_succeeds_at_once() {
    let (_, a) = SendAll::start(0, TimeoutMode::Bounded(0), 0);
    assert_eq!(a, Action::Finish(Outcome::Success));
}

#[test]
fn sendall_cancellation_stops_the_call() {
    let (mut s, _) = SendAll::start(5, TimeoutMode::Blocking, 0);
    assert_eq!(s.step(Event::Done(2), 1), Action::CheckCancellation);
    assert_eq!(s.step(Event::Cancelled, 2), Action::Finish(Outcome::Cancelled));
}

#[test]
fn sendall_never_counts_past_the_buffer() {
    let (mut s, _) = SendAll::start(5, TimeoutMode::Blocking, 0);
    assert_eq!(s.step(Event::Done(9), 1), Action::CheckCancellation);
    assert_eq!(s.sent(), 5);
    assert_eq!(s.step(Event::Proceed, 2), Action::Finish(Outcome::Success));
}

#[test]
fn sendall_nonblocking_would_block_times_out() {
    let (mut s, a) = SendAll::start(5, TimeoutMode::NonBlocking, 0);
    assert_eq!(a, Action::Attempt);
    assert_eq!(s.step(Event::WouldBlock, 1), Action::Finish(Outcome::TimedOut));
}
