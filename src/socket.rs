//! The socket handle: the descriptor it owns, its family, type and protocol,
//! and its timeout mode, kept consistent with the descriptor's own blocking
//! flag.
use vstd::prelude::*;
use crate::address::AF_INET;
use crate::connect::ErrCodes;
use crate::timeout::{
    TimeoutMode, mode_for_blocking, mode_of_span, mode_wf, nonblocking_flag, os_nonblocking,
    span_of_mode, timeout_mode, timeout_span,
};

verus! {

/// The descriptor value of a handle that owns none.
pub const INVALID_SOCKET: i32 = -1;

/// Stream sockets.
pub const SOCK_STREAM: i32 = 1;

/// Marks a family, type or protocol that the caller leaves open.
pub const UNSET: i32 = -1;

/// The mathematical value of a handle.
#[derive(Clone, Copy, Debug, PartialEq, Eq, Structural)]
pub struct SocketView {
    pub family: i32,
    pub kind: i32,
    pub proto: i32,
    pub timeout: TimeoutMode,
    /// The owned descriptor, or `INVALID_SOCKET`.
    pub fd: i32,
}

/// A socket handle.
pub struct PySocket {
    kind: i32,
    family: i32,
    proto: i32,
    timeout: TimeoutMode,
    fd: i32,
}

impl View for PySocket {
    type V = SocketView;

    closed spec fn view(&self) -> SocketView {
        SocketView {
            family: self.family,
            kind: self.kind,
            proto: self.proto,
            timeout: self.timeout,
            fd: self.fd,
        }
    }
}

/// A handle's value is sound: a bounded timeout is above zero, and the
/// descriptor is a real one or the invalid marker.
pub open spec fn socket_wf(v: SocketView) -> bool {
    mode_wf(v.timeout) && v.fd >= INVALID_SOCKET
}

/// The handle after `setblocking(block)`.
pub open spec fn with_blocking(v: SocketView, block: bool) -> SocketView {
    SocketView { timeout: mode_for_blocking(block), ..v }
}

/// The handle after `detach`, and the descriptor handed out.
pub open spec fn detach_spec(v: SocketView) -> (SocketView, i32) {
    (SocketView { fd: INVALID_SOCKET, ..v }, v.fd)
}

/// The handle after `close`, and the descriptor to release, if it owned one.
pub open spec fn close_spec(v: SocketView) -> (SocketView, Option<i32>) {
    (
        SocketView { fd: INVALID_SOCKET, ..v },
        if v.fd == INVALID_SOCKET {
            None
        } else {
            Some(v.fd)
        },
    )
}

impl Default for PySocket {
    /// A handle that owns no descriptor, blocking, with family, type and
    /// protocol zero.
    fn default() -> (r: PySocket)
        ensures
            r@ == (SocketView {
                family: 0,
                kind: 0,
                proto: 0,
                timeout: TimeoutMode::Blocking,
                fd: INVALID_SOCKET,
            }),
    {
        PySocket { kind: 0, family: 0, proto: 0, timeout: TimeoutMode::Blocking, fd: INVALID_SOCKET }
    }
}

impl PySocket {
    pub closed spec fn wf(&self) -> bool {
        socket_wf(self@)
    }

    /// Takes ownership of `fd` as a socket of the given family, type and
    /// protocol, under the process-wide default timeout. Returns the descriptor
    /// owned before, which the caller releases if it is valid, and whether the
    /// new descriptor must be switched to non-blocking.
    pub fn init_inner(
        &mut self,
        family: i32,
        kind: i32,
        proto: i32,
        fd: i32,
        default_timeout: TimeoutMode,
    ) -> (r: (i32, bool))
        requires
            fd >= 0,
            mode_wf(default_timeout),
        ensures
            final(self)@ == (SocketView { family, kind, proto, timeout: default_timeout, fd }),
            final(self).wf(),
            r.0 == old(self)@.fd,
            r.1 == os_nonblocking(default_timeout),
    {
        let previous = self.fd;
        self.family = family;
        self.kind = kind;
        self.proto = proto;
        self.fd = fd;
        self.timeout = default_timeout;
        (previous, nonblocking_flag(default_timeout))
    }

    /// The owned descriptor, or `INVALID_SOCKET`.
    pub fn sock(&self) -> (r: i32)
        ensures
            r == self@.fd,
    {
        self.fd
    }

    /// The owned descriptor, or `INVALID_SOCKET`.
    pub fn fileno(&self) -> (r: i32)
        ensures
            r == self@.fd,
    {
        self.fd
    }

    /// Hands the descriptor out without releasing it; the handle owns none
    /// afterwards.
    pub fn detach(&mut self) -> (r: i32)
        ensures
            (final(self)@, r) == detach_spec(old(self)@),
            old(self).wf() ==> final(self).wf(),
    {
        let fd = self.fd;
        self.fd = INVALID_SOCKET;
        fd
    }

    /// Gives up the descriptor for release: `None` when the handle owned none,
    /// so that closing twice does nothing the second time.
    pub fn close(&mut self) -> (r: Option<i32>)
        ensures
            (final(self)@, r) == close_spec(old(self)@),
            old(self).wf() ==> final(self).wf(),
    {
        let fd = self.detach();
        if fd != INVALID_SOCKET {
            Some(fd)
        } else {
            None
        }
    }

    pub fn family(&self) -> (r: i32)
        ensures
            r == self@.family,
    {
        self.family
    }

    pub fn kind(&self) -> (r: i32)
        ensures
            r == self@.kind,
    {
        self.kind
    }

    pub fn proto(&self) -> (r: i32)
        ensures
            r == self@.proto,
    {
        self.proto
    }

    /// The timeout mode, as the engine takes it.
    pub fn timeout(&self) -> (r: TimeoutMode)
        ensures
            r == self@.timeout,
    {
        self.timeout
    }

    /// The bound of a bounded handle; otherwise whether it blocks.
    pub fn get_timeout(&self) -> (r: Result<u64, bool>)
        ensures
            r == (match self@.timeout {
                TimeoutMode::Bounded(d) => Ok(d),
                TimeoutMode::Blocking => Err(true),
                TimeoutMode::NonBlocking => Err(false),
            }),
    {
        match self.timeout {
            TimeoutMode::Bounded(d) => Ok(d),
            TimeoutMode::Blocking => Err(true),
            TimeoutMode::NonBlocking => Err(false),
        }
    }

    /// The timeout in nanoseconds: none when blocking, zero when not waiting.
    pub fn gettimeout(&self) -> (r: Option<u64>)
        ensures
            r == span_of_mode(self@.timeout),
    {
        timeout_span(self.timeout)
    }

    /// Whether operations wait: false only in non-blocking mode.
    pub fn getblocking(&self) -> (r: bool)
        ensures
            r == (self@.timeout != TimeoutMode::NonBlocking),
    {
        match self.timeout {
            TimeoutMode::NonBlocking => false,
            _ => true,
        }
    }

    /// Blocks forever, or not at all. Returns the descriptor's non-blocking
    /// flag for the new mode; the caller sets the flag first and calls this
    /// once it is set, so that mode and flag never disagree.
    pub fn setblocking(&mut self, block: bool) -> (r: bool)
        ensures
            final(self)@ == with_blocking(old(self)@, block),
            old(self).wf() ==> final(self).wf(),
            r == !block,
            r == os_nonblocking(final(self)@.timeout),
    {
        self.timeout = if block {
            TimeoutMode::Blocking
        } else {
            TimeoutMode::NonBlocking
        };
        !block
    }

    /// Sets the timeout: none blocks, zero does not wait, a span bounds each
    /// operation. Returns the descriptor's non-blocking flag for the new mode,
    /// as `setblocking` does.
    pub fn settimeout(&mut self, span: Option<u64>) -> (r: bool)
        ensures
            final(self)@ == (SocketView { timeout: mode_of_span(span), ..old(self)@ }),
            old(self).wf() ==> final(self).wf(),
            r == span.is_some(),
            r == os_nonblocking(final(self)@.timeout),
    {
        self.timeout = timeout_mode(span);
        span.is_some()
    }
}

/// Turning non-blocking mode on and then off again restores blocking forever:
/// the timeout reads back as none, the handle blocks, and the descriptor's
/// flag is back to blocking.
pub proof fn lemma_blocking_restored(v: SocketView)
    ensures
        with_blocking(with_blocking(v, false), true).timeout == TimeoutMode::Blocking,
        span_of_mode(with_blocking(with_blocking(v, false), true).timeout) is None,
        !os_nonblocking(with_blocking(with_blocking(v, false), true).timeout),
        with_blocking(with_blocking(v, false), true) == (SocketView {
            timeout: TimeoutMode::Blocking,
            ..v
        }),
{
}

/// Closing a handle that owns no descriptor does nothing, and detaching twice
/// hands out the invalid marker the second time.
pub proof fn lemma_close_detach_idempotent(v: SocketView)
    ensures
        v.fd == INVALID_SOCKET ==> close_spec(v) == (v, None::<i32>),
        detach_spec(detach_spec(v).0).1 == INVALID_SOCKET,
        close_spec(close_spec(v).0).1 is None,
{
}

/// Family, type and protocol of a new socket: those left open default to
/// IPv4, stream and zero.
pub fn new_socket_params(family: i32, kind: i32, proto: i32) -> (r: (i32, i32, i32))
    ensures
        r.0 == (if family == UNSET { AF_INET } else { family }),
        r.1 == (if kind == UNSET { SOCK_STREAM } else { kind }),
        r.2 == (if proto == UNSET { 0 } else { proto }),
{
    (
        if family == UNSET {
            AF_INET
        } else {
            family
        },
        if kind == UNSET {
            SOCK_STREAM
        } else {
            kind
        },
        if proto == UNSET {
            0
        } else {
            proto
        },
    )
}

/// The family of an adopted descriptor, from the family asked for and the
/// descriptor's local address (its family, or the query's error number).
/// `None` means that adoption fails with the query's error: when the family
/// was left open, or when the descriptor is not an open socket.
pub fn adopted_family(requested: i32, local: Result<i32, Option<i32>>, codes: &ErrCodes) -> (r:
    Option<i32>)
    ensures
        r == (match local {
            Ok(f) => Some(if requested == UNSET { f } else { requested }),
            Err(e) => if requested == UNSET || e == Some(codes.not_sock) || e == Some(codes.bad_fd) {
                None
            } else {
                Some(requested)
            },
        }),
{
    match local {
        Ok(f) => if requested == UNSET {
            Some(f)
        } else {
            Some(requested)
        },
        Err(e) => {
            let fatal = match e {
                Some(c) => c == codes.not_sock || c == codes.bad_fd,
                None => false,
            };
            if requested == UNSET || fatal {
                None
            } else {
                Some(requested)
            }
        },
    }
}

/// A descriptor given by a caller, refused when negative.
pub fn sock_from_raw(fileno: i32) -> (r: Option<i32>)
    ensures
        r == (if fileno < 0 { None } else { Some(fileno) }),
{
    if fileno < 0 {
        None
    } else {
        Some(fileno)
    }
}

/// Whether releasing a descriptor succeeded: no error, or a connection reset,
/// which a close may report and which is harmless.
pub fn close_ok(error: Option<i32>, codes: &ErrCodes) -> (r: bool)
    ensures
        r == (error is None || error == Some(codes.conn_reset)),
{
    match error {
        None => true,
        Some(c) => c == codes.conn_reset,
    }
}

} // verus!
