//! The checks and defaults of the socket operations' arguments.
use vstd::prelude::*;
use crate::engine::Interest;
use crate::num::isize_to_usize;

verus! {

/// Stop receiving.
pub const SHUT_RD: i32 = 0;

/// Stop sending.
pub const SHUT_WR: i32 = 1;

/// Stop both.
pub const SHUT_RDWR: i32 = 2;

/// Backlog of `listen` when none is given.
pub const DEFAULT_BACKLOG: i32 = 128;

/// Largest buffer that `getsockopt` reads an option into.
pub const MAX_OPT_BUFLEN: i32 = 1024;

/// Why an operation's arguments were refused.
#[derive(Clone, Copy, Debug, PartialEq, Eq, Structural)]
pub enum ArgError {
    /// `how` is none of `SHUT_RD`, `SHUT_WR`, `SHUT_RDWR`.
    BadShutdown,
    /// The `getsockopt` buffer length is outside `0..=1024`.
    BuflenRange,
    /// `setsockopt` needs a value or a length, and not both.
    ValueXorLength,
    /// A negative buffer size.
    NegativeSize,
    /// More bytes asked for than the buffer holds.
    SizeTooLarge,
}

/// A direction to shut down.
#[derive(Clone, Copy, Debug, PartialEq, Eq, Structural)]
pub enum ShutdownHow {
    Read,
    Write,
    Both,
}

/// The direction for a `how` number.
pub fn shutdown_how(how: i32) -> (r: Result<ShutdownHow, ArgError>)
    ensures
        r == (if how == SHUT_RD {
            Ok(ShutdownHow::Read)
        } else if how == SHUT_WR {
            Ok(ShutdownHow::Write)
        } else if how == SHUT_RDWR {
            Ok(ShutdownHow::Both)
        } else {
            Err(ArgError::BadShutdown)
        }),
{
    if how == SHUT_RD {
        Ok(ShutdownHow::Read)
    } else if how == SHUT_WR {
        Ok(ShutdownHow::Write)
    } else if how == SHUT_RDWR {
        Ok(ShutdownHow::Both)
    } else {
        Err(ArgError::BadShutdown)
    }
}

/// The backlog for `listen`: `DEFAULT_BACKLOG` when none is given, a negative
/// one raised to zero.
pub fn listen_backlog(backlog: Option<i32>) -> (r: i32)
    ensures
        r == (match backlog {
            None => DEFAULT_BACKLOG,
            Some(b) => if b < 0 { 0 } else { b },
        }),
{
    match backlog {
        None => DEFAULT_BACKLOG,
        Some(b) => if b < 0 {
            0
        } else {
            b
        },
    }
}

/// How `getsockopt` reads an option.
#[derive(Clone, Copy, Debug, PartialEq, Eq, Structural)]
pub enum OptRead {
    /// As one integer.
    Int,
    /// Into a buffer of this many bytes, returned cut to the length read.
    Bytes(usize),
}

/// How `getsockopt` reads an option for a buffer length: an integer when none
/// or zero is given, else a buffer of `1..=1024` bytes.
pub fn getsockopt_plan(buflen: Option<i32>) -> (r: Result<OptRead, ArgError>)
    ensures
        r == (match buflen {
            None => Ok(OptRead::Int),
            Some(n) => if n == 0 {
                Ok(OptRead::Int)
            } else if n < 0 || n > MAX_OPT_BUFLEN {
                Err(ArgError::BuflenRange)
            } else {
                Ok(OptRead::Bytes(n as usize))
            },
        }),
{
    match buflen {
        None => Ok(OptRead::Int),
        Some(n) => if n == 0 {
            Ok(OptRead::Int)
        } else if n < 0 || n > MAX_OPT_BUFLEN {
            Err(ArgError::BuflenRange)
        } else {
            Ok(OptRead::Bytes(n as usize))
        },
    }
}

/// A value for `setsockopt`.
#[derive(Clone, Debug)]
pub enum OptValue {
    Bytes(Vec<u8>),
    Int(i32),
}

/// How `setsockopt` sets an option.
#[derive(Clone, Debug)]
pub enum OptWrite {
    /// From these bytes.
    Bytes(Vec<u8>),
    /// From one integer.
    Int(i32),
    /// With no value and this length.
    Null(u32),
}

/// How `setsockopt` sets an option: from the value, or with no value and the
/// given length; exactly one of the two must be given.
pub fn setsockopt_plan(value: Option<OptValue>, optlen: Option<u32>) -> (r: Result<
    OptWrite,
    ArgError,
>)
    ensures
        match (value, optlen) {
            (Some(OptValue::Bytes(b)), None) => (r matches Ok(OptWrite::Bytes(c)) && c@ == b@),
            (Some(OptValue::Int(i)), None) => (r matches Ok(OptWrite::Int(j)) && j == i),
            (None, Some(n)) => (r matches Ok(OptWrite::Null(m)) && m == n),
            _ => r matches Err(ArgError::ValueXorLength),
        },
{
    match (value, optlen) {
        (Some(OptValue::Bytes(b)), None) => Ok(OptWrite::Bytes(b)),
        (Some(OptValue::Int(i)), None) => Ok(OptWrite::Int(i)),
        (None, Some(n)) => Ok(OptWrite::Null(n)),
        _ => Err(ArgError::ValueXorLength),
    }
}

/// The buffer size for `recvfrom`, refused when negative.
pub fn recvfrom_size(bufsize: isize) -> (r: Result<usize, ArgError>)
    ensures
        r == (if bufsize < 0 {
            Err(ArgError::NegativeSize)
        } else {
            Ok(bufsize as usize)
        }),
{
    match isize_to_usize(bufsize) {
        Some(n) => Ok(n),
        None => Err(ArgError::NegativeSize),
    }
}

/// How many bytes `recvfrom_into` may take into a buffer of `buf_len`: all of
/// it when no count is given; a count must be neither negative nor above the
/// buffer's length.
pub fn recv_into_len(nbytes: Option<isize>, buf_len: usize) -> (r: Result<usize, ArgError>)
    ensures
        r == (match nbytes {
            None => Ok(buf_len),
            Some(n) => if n < 0 {
                Err(ArgError::NegativeSize)
            } else if n > buf_len {
                Err(ArgError::SizeTooLarge)
            } else {
                Ok(n as usize)
            },
        }),
{
    match nbytes {
        None => Ok(buf_len),
        Some(n) => match isize_to_usize(n) {
            None => Err(ArgError::NegativeSize),
            Some(k) => if k > buf_len {
                Err(ArgError::SizeTooLarge)
            } else {
                Ok(k)
            },
        },
    }
}

/// The conditions a readiness poll asks for.
#[derive(Clone, Copy, Debug, PartialEq, Eq, Structural)]
pub struct PollFlags {
    pub readable: bool,
    pub writable: bool,
    pub error: bool,
}

/// The conditions to poll for an interest: a pending connect needs both
/// writability and the error condition, since a failed connect shows only in
/// the latter on some systems.
pub fn poll_flags(interest: Interest) -> (r: PollFlags)
    ensures
        r == (match interest {
            Interest::Read => PollFlags { readable: true, writable: false, error: false },
            Interest::Write => PollFlags { readable: false, writable: true, error: false },
            Interest::Connect => PollFlags { readable: false, writable: true, error: true },
        }),
{
    match interest {
        Interest::Read => PollFlags { readable: true, writable: false, error: false },
        Interest::Write => PollFlags { readable: false, writable: true, error: false },
        Interest::Connect => PollFlags { readable: false, writable: true, error: true },
    }
}

} // verus!
