//! Safe, verified core of a thin layer over the Linux process-isolation
//! primitives: CPU affinity masks, process-creation sharing flags, the
//! arithmetic that prepares a clone stack, and the translation of raw
//! syscall results into typed ones. The raw, unsafe syscall invocations
//! themselves live outside this library.

use vstd::prelude::*;

pub mod errno;
pub mod sched;
pub mod unistd;

verus! {

/// Failure of an operation: the OS's error code, passed through verbatim.
#[derive(Clone, Copy, Debug, PartialEq, Eq, Structural)]
pub enum Error {
    Sys(crate::errno::Errno),
}

} // verus!
