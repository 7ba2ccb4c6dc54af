//! Failure modes of the engine, and the closed set of reasons for which a
//! traced process can stop. Underlying operating-system failures are carried
//! as their raw errno value.

use vstd::prelude::*;

verus! {

/// Why a traced process stopped, as reported by the wait primitive.
/// A closed tagged set of reasons in place of the platform's status type.
#[derive(Clone, Copy, Debug, PartialEq, Eq, Structural)]
pub enum StopReason {
    /// Stopped by the delivery of the signal with the given number.
    Stopped(i32),
    /// Exited normally with the given exit code.
    Exited(i32),
    /// Terminated by the signal with the given number.
    Signaled(i32),
    /// Any other change of tracing status.
    Other,
}

/// Everything that can go wrong while controlling a traced process.
#[derive(Clone, Copy, Debug, PartialEq, Eq, Structural)]
pub enum HostError {
    /// Attaching failed: the target is missing or permission was denied.
    /// Carries the errno reported by the tracing facility.
    ProcessAttachFailure(i32),
    /// A tracing primitive (register access, single-step, wait, detach)
    /// failed with the given errno.
    UnderlyingTraceError(i32),
    /// The target stopped for a different reason than the protocol required.
    UnexpectedStopReason(StopReason),
    /// A positioned read or write against the target's memory image failed
    /// with the given errno.
    MemoryIoFailure(i32),
    /// The memory-mapping syscall reported the zero address; carries the
    /// address hint the mapping was requested with.
    MmapBadAddress(u64),
    /// The memory-unmapping syscall returned non-zero; carries the address
    /// of the region whose release failed.
    MunmapFailed(u64),
}

} // verus!
