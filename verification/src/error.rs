//! Typed runtime errors. A failing step surfaces one of these to the host
//! together with the owning runtime, so the state stays inspectable.

use vstd::prelude::*;

verus! {

/// Which kind of access raised a segmentation fault.
#[derive(Clone, Copy, Debug, PartialEq, Eq, Structural)]
pub enum SegmentationFaultAccessType {
    Read,
    Write,
    Execute,
}

/// The alignment a memory access needed but did not have.
#[derive(Clone, Copy, Debug, PartialEq, Eq, Structural)]
pub enum AlignmentRequirement {
    Half,
    Word,
}

/// Why a syscall number was rejected.
#[derive(Clone, Copy, Debug, PartialEq, Eq, Structural)]
pub enum InvalidSyscallReason {
    Unknown,
    Unimplemented,
}

/// The source of a read that found an uninitialised value.
#[derive(Clone, Copy, Debug, PartialEq, Eq, Structural)]
pub enum Uninitialised {
    Register,
    Hi,
    Lo,
    MemByte,
    MemHalf,
    MemWord,
}

/// A trappable runtime condition.
#[derive(Clone, Copy, Debug, PartialEq, Eq, Structural)]
pub enum Error {
    SegmentationFault { addr: u32, access: SegmentationFaultAccessType },
    UnalignedAccess { addr: u32, alignment_requirement: AlignmentRequirement },
    UnknownInstruction { addr: u32 },
    IntegerOverflow,
    DivisionByZero,
    Uninitialised { value: Uninitialised },
    InvalidSyscall { syscall: i32, reason: InvalidSyscallReason },
}

/// A runtime error as carried through the engine.
#[derive(Clone, Copy, Debug, PartialEq, Eq, Structural)]
pub struct RuntimeError {
    pub error: Error,
}

impl RuntimeError {
    pub fn new(error: Error) -> (r: Self)
        ensures
            r == (RuntimeError { error }),
    {
        RuntimeError { error }
    }
}

/// The error type every fallible engine operation returns.
#[derive(Clone, Copy, Debug, PartialEq, Eq, Structural)]
pub enum RushError {
    Runtime(RuntimeError),
}

pub type RushResult<T> = Result<T, RushError>;

/// Shorthand for wrapping a runtime condition as an engine error.
pub open spec fn rt_err(e: Error) -> RushError {
    RushError::Runtime(RuntimeError { error: e })
}

/// Wraps a runtime condition as an engine error.
pub fn make_err(e: Error) -> (r: RushError)
    ensures
        r == rt_err(e),
{
    RushError::Runtime(RuntimeError::new(e))
}

/// The error raised by a read of an uninitialised value from `src`.
pub open spec fn uninit_err(src: Uninitialised) -> RushError {
    rt_err(Error::Uninitialised { value: src })
}

} // verus!
