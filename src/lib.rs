//! A timeout-aware socket layer: the decisions of blocking, non-blocking and
//! deadline-bounded socket I/O, the address codec, and the socket handle's
//! lifecycle, each stated as a contract and proved.
//!
//! The system calls themselves are made by the caller, which runs the state
//! machines of `engine` and hands back what the operating system answered.

pub mod timeout;
pub mod engine;
pub mod sendall;
pub mod address;
mod num;
pub mod target;
pub mod connect;
pub mod socket;
pub mod ops;
