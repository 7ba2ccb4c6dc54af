//! The traced process and the syscall-injection protocol.
//!
//! [`UProc`] owns the attachment to one target process. Through it the
//! controller reads and writes the target's memory, and forces it to
//! execute one kernel syscall at a time: the protocol saves the two bytes
//! under the instruction pointer, patches in the syscall-trap instruction,
//! substitutes the syscall registers, single-steps, captures the result,
//! and restores both the code bytes and the full original register set.
//!
//! Detachment is an explicit, consuming action ([`UProc::detach`]); a
//! controller that wants detachment on every exit path wraps the value in
//! a guard of its own.

use vstd::prelude::*;

use crate::errors::{HostError, StopReason};
use crate::regs::Registers;
use crate::trace;

verus! {

/// The signal number of the trace trap on this platform.
pub const TRACE_TRAP_SIGNAL: i32 = 5;

/// The two-byte syscall-trap instruction encoding of the host architecture:
/// the first byte, then the second.
pub const SYSCALL_INST_0: u8 = 0x0F;

pub const SYSCALL_INST_1: u8 = 0x05;

/// A byte range `[addr, addr + len)` inside the target's address space,
/// obtained by a successful allocation. Releasing it is an explicit caller
/// action; the engine does not track whether a region was already released.
#[derive(Clone, Copy, Debug, PartialEq, Eq, Structural)]
pub struct UProcMem {
    pub addr: u64,
    pub len: u64,
}

/// The number of the memory-mapping syscall.
pub fn mmap_syscall_number() -> (r: u64)
    ensures
        r == 9u64,
{
    trace::mmap_sysno()
}

/// The number of the memory-unmapping syscall.
pub fn munmap_syscall_number() -> (r: u64)
    ensures
        r == 11u64,
{
    trace::munmap_sysno()
}

/// Accepts exactly the stop reason the injection protocol requires — a stop
/// by the trace-trap signal — and reports any other reason as an error that
/// carries it.
pub fn classify_stop(reason: StopReason) -> (r: Result<(), HostError>)
    ensures
        r is Ok <==> reason == StopReason::Stopped(TRACE_TRAP_SIGNAL),
        r is Err ==> r->Err_0 == HostError::UnexpectedStopReason(reason),
{
    match reason {
        StopReason::Stopped(sig) => {
            if sig == TRACE_TRAP_SIGNAL {
                Ok(())
            } else {
                Err(HostError::UnexpectedStopReason(reason))
            }
        },
        _ => Err(HostError::UnexpectedStopReason(reason)),
    }
}

/// Reads an allocation out of the register set a memory-mapping syscall
/// returned: the return-value register holds the mapped base address, and
/// zero is treated as the failure sentinel. (The conventional kernel
/// calling convention instead signals failure with a small negative value
/// seen as a large unsigned one, and zero is in principle a valid address;
/// the zero check is this engine's deliberate, documented choice.)
pub fn interpret_mmap_return(ret: &Registers, addr_hint: u64, len: u64) -> (r: Result<
    UProcMem,
    HostError,
>)
    ensures
        ret.rax == 0 ==> r is Err && r->Err_0 == HostError::MmapBadAddress(addr_hint),
        ret.rax != 0 ==> r is Ok && r->Ok_0 == (UProcMem { addr: ret.rax, len }),
{
    if ret.rax == 0 {
        Err(HostError::MmapBadAddress(addr_hint))
    } else {
        Ok(UProcMem { addr: ret.rax, len })
    }
}

/// Reads the outcome of a memory-unmapping syscall out of the register set
/// it returned: zero in the return-value register is success, anything else
/// is failure, reported with the address of the region.
pub fn interpret_munmap_return(ret: &Registers, addr: u64) -> (r: Result<(), HostError>)
    ensures
        ret.rax == 0 ==> r is Ok,
        ret.rax != 0 ==> r is Err && r->Err_0 == HostError::MunmapFailed(addr),
{
    if ret.rax != 0 {
        Err(HostError::MunmapFailed(addr))
    } else {
        Ok(())
    }
}

/// One traced target process. Constructed only by a successful
/// [`UProc::attach`]; not copyable, so at most one detachment can ever be
/// attempted through a given value.
pub struct UProc {
    pid: i32,
}

impl UProc {
    /// The identifier of the traced process.
    pub closed spec fn pid_spec(&self) -> i32 {
        self.pid
    }

    /// The sole constructor: begins tracing the given process. Fails with
    /// `ProcessAttachFailure` if the process does not exist or permission
    /// is denied.
    pub fn attach(pid: i32) -> (r: Result<UProc, HostError>)
        ensures
            r is Ok ==> r->Ok_0.pid_spec() == pid,
            r is Err ==> r->Err_0 is ProcessAttachFailure,
    {
        match trace::ptrace_attach(pid) {
            Ok(()) => Ok(UProc { pid }),
            Err(e) => Err(HostError::ProcessAttachFailure(e)),
        }
    }

    pub fn pid(&self) -> (r: i32)
        ensures
            r == self.pid_spec(),
    {
        self.pid
    }

    /// A best-effort positioned read of the target's memory image: returns
    /// the bytes actually read, never more than `len` — callers must check
    /// the returned length.
    pub fn mem_read(&self, addr: u64, len: usize) -> (r: Result<Vec<u8>, HostError>)
        ensures
            r is Ok ==> r->Ok_0@.len() <= len,
            r is Err ==> r->Err_0 is MemoryIoFailure,
    {
        let fd = match trace::open_mem_read(self.pid) {
            Ok(fd) => fd,
            Err(e) => { return Err(HostError::MemoryIoFailure(e)) },
        };
        let res = trace::pread_at(fd, len, addr);
        let _ = trace::close_fd(fd);
        match res {
            Ok(data) => Ok(data),
            Err(e) => Err(HostError::MemoryIoFailure(e)),
        }
    }

    /// A positioned write into the target's memory image, which is opened
    /// with both read and write access. Returns the number of bytes
    /// actually written; a short write is not itself an error.
    pub fn mem_write(&self, addr: u64, data: &[u8]) -> (r: Result<usize, HostError>)
        ensures
            r is Ok ==> r->Ok_0 <= data@.len(),
            r is Err ==> r->Err_0 is MemoryIoFailure,
    {
        let fd = match trace::open_mem_rw(self.pid) {
            Ok(fd) => fd,
            Err(e) => { return Err(HostError::MemoryIoFailure(e)) },
        };
        let res = trace::pwrite_at(fd, data, addr);
        let _ = trace::close_fd(fd);
        match res {
            Ok(n) => Ok(n),
            Err(e) => Err(HostError::MemoryIoFailure(e)),
        }
    }

    /// Blocks until the target's tracing status changes and returns the
    /// reason — after attaching, this is how the controller waits for the
    /// target to come to its first stop.
    pub fn wait(&self) -> (r: Result<StopReason, HostError>)
        ensures
            r is Err ==> r->Err_0 is UnderlyingTraceError,
    {
        match trace::wait_for_stop(self.pid) {
            Ok(reason) => Ok(reason),
            Err(e) => Err(HostError::UnderlyingTraceError(e)),
        }
    }

    /// One single-step: resumes the target for exactly one instruction and
    /// blocks until it stops again. Succeeds only if the stop is a trace
    /// trap; any other stop reason is reported, carried in the error.
    fn sstep(&self) -> (r: Result<(), HostError>)
        ensures
            r is Err ==> (r->Err_0 is UnderlyingTraceError || r->Err_0 is UnexpectedStopReason),
    {
        if let Err(e) = trace::ptrace_step(self.pid) {
            return Err(HostError::UnderlyingTraceError(e));
        }
        match trace::wait_for_stop(self.pid) {
            Err(e) => Err(HostError::UnderlyingTraceError(e)),
            Ok(reason) => classify_stop(reason),
        }
    }

    /// Makes the target execute one syscall and returns the register set
    /// captured immediately after it, whose return-value register holds the
    /// syscall's result. With the target paused: snapshot the registers,
    /// save the two bytes under the instruction pointer, patch in the
    /// syscall-trap instruction, install the snapshot with the syscall
    /// number and arguments substituted, single-step (a trace trap is the
    /// only accepted outcome), capture the result, then write the saved
    /// bytes back and reinstall the entire original snapshot.
    ///
    /// A failure at any step aborts the sequence; an error strictly between
    /// the patch and the restore leaves the target's code bytes or
    /// registers in a transiently modified, non-resumable state.
    pub fn syscall(
        &self,
        nr: u64,
        rdi: u64,
        rsi: u64,
        rdx: u64,
        r10: u64,
        r8: u64,
        r9: u64,
    ) -> (r: Result<Registers, HostError>)
        ensures
            r is Err ==> (r->Err_0 is UnderlyingTraceError || r->Err_0 is MemoryIoFailure
                || r->Err_0 is UnexpectedStopReason),
    {
        let raw = match trace::ptrace_getregs(self.pid) {
            Ok(raw) => raw,
            Err(e) => { return Err(HostError::UnderlyingTraceError(e)) },
        };
        let regs = Registers::from_raw(&raw);
        let ip = regs.rip;

        let saved = self.mem_read(ip, 2)?;
        let trap: Vec<u8> = vec![SYSCALL_INST_0, SYSCALL_INST_1];
        let _ = self.mem_write(ip, trap.as_slice())?;

        let new_regs = regs.with_syscall(nr, rdi, rsi, rdx, r10, r8, r9);
        if let Err(e) = trace::ptrace_setregs(self.pid, new_regs.to_raw()) {
            return Err(HostError::UnderlyingTraceError(e));
        }

        self.sstep()?;
        let result_raw = match trace::ptrace_getregs(self.pid) {
            Ok(raw) => raw,
            Err(e) => { return Err(HostError::UnderlyingTraceError(e)) },
        };

        let _ = self.mem_write(ip, saved.as_slice())?;
        if let Err(e) = trace::ptrace_setregs(self.pid, raw) {
            return Err(HostError::UnderlyingTraceError(e));
        }

        Ok(Registers::from_raw(&result_raw))
    }

    /// Allocates `len` bytes in the target by injecting the memory-mapping
    /// syscall. A region is returned only for a successful mapping, with
    /// a non-zero base address and exactly the requested length.
    pub fn malloc(
        &self,
        addr: u64,
        len: u64,
        prot: u64,
        flags: u64,
        fd: u64,
        offset: u64,
    ) -> (r: Result<UProcMem, HostError>)
        ensures
            r is Ok ==> r->Ok_0.len == len && r->Ok_0.addr != 0,
            r is Err ==> (r->Err_0 is MmapBadAddress || r->Err_0 is UnderlyingTraceError
                || r->Err_0 is MemoryIoFailure || r->Err_0 is UnexpectedStopReason),
    {
        let nr = mmap_syscall_number();
        let ret = self.syscall(nr, addr, len, prot, flags, fd, offset)?;
        interpret_mmap_return(&ret, addr, len)
    }

    /// Releases `[addr, addr + len)` in the target by injecting the
    /// memory-unmapping syscall; a non-zero return is reported as failure.
    pub fn free(&self, addr: u64, len: u64) -> (r: Result<(), HostError>)
        ensures
            r is Err ==> (r->Err_0 is MunmapFailed || r->Err_0 is UnderlyingTraceError
                || r->Err_0 is MemoryIoFailure || r->Err_0 is UnexpectedStopReason),
    {
        let nr = munmap_syscall_number();
        let ret = self.syscall(nr, addr, len, 0, 0, 0, 0)?;
        interpret_munmap_return(&ret, addr)
    }

    /// Ends tracing. Consumes the value, so detachment is attempted exactly
    /// once for each successful attachment; the caller decides what to do
    /// with a failure, which must not be propagated out of a destruction
    /// path.
    pub fn detach(self) -> (r: Result<(), HostError>)
        ensures
            r is Err ==> r->Err_0 is UnderlyingTraceError,
    {
        match trace::ptrace_detach(self.pid) {
            Ok(()) => Ok(()),
            Err(e) => Err(HostError::UnderlyingTraceError(e)),
        }
    }
}

} // verus!
