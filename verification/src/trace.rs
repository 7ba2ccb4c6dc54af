//! The raw tracing and memory primitives, each a thin trusted boundary
//! around one call into the operating-system interface crates. Failures are
//! carried as the raw errno value; the reasons a target stops are converted
//! to the closed [`StopReason`] set.

use vstd::prelude::*;

use crate::errors::StopReason;
use nix::sys::wait::WaitStatus;

verus! {

/// Relies on nix::sys::ptrace::attach: begins tracing the given process;
/// fails (errno) if it does not exist or permission is denied.
#[verifier::external_body]
pub(crate) fn ptrace_attach(pid: i32) -> (r: Result<(), i32>) {
    nix::sys::ptrace::attach(nix::unistd::Pid::from_raw(pid)).map_err(|e| e as i32)
}

/// Relies on nix::sys::ptrace::detach: ends tracing the given process
/// without delivering a signal.
#[verifier::external_body]
pub(crate) fn ptrace_detach(pid: i32) -> (r: Result<(), i32>) {
    nix::sys::ptrace::detach(nix::unistd::Pid::from_raw(pid), None).map_err(|e| e as i32)
}

/// Relies on nix::sys::ptrace::getregs: reads the stopped target's full
/// general-purpose register block in one atomic operation.
#[verifier::external_body]
pub(crate) fn ptrace_getregs(pid: i32) -> (r: Result<nix::libc::user_regs_struct, i32>) {
    nix::sys::ptrace::getregs(nix::unistd::Pid::from_raw(pid)).map_err(|e| e as i32)
}

/// Relies on nix::sys::ptrace::setregs: installs the given register block
/// as the stopped target's full register set in one atomic operation.
#[verifier::external_body]
pub(crate) fn ptrace_setregs(pid: i32, regs: nix::libc::user_regs_struct) -> (r: Result<
    (),
    i32,
>) {
    nix::sys::ptrace::setregs(nix::unistd::Pid::from_raw(pid), regs).map_err(|e| e as i32)
}

/// Relies on nix::sys::ptrace::step: resumes the stopped target for exactly
/// one instruction, delivering no signal.
#[verifier::external_body]
pub(crate) fn ptrace_step(pid: i32) -> (r: Result<(), i32>) {
    nix::sys::ptrace::step(nix::unistd::Pid::from_raw(pid), None).map_err(|e| e as i32)
}

/// Relies on nix::sys::wait::waitpid: blocks until the target's tracing
/// status changes. Each status variant is mapped to its tag in the closed
/// [`StopReason`] set; signals are carried as their number.
#[verifier::external_body]
pub(crate) fn wait_for_stop(pid: i32) -> (r: Result<StopReason, i32>) {
    match nix::sys::wait::waitpid(nix::unistd::Pid::from_raw(pid), None) {
        Err(e) => Err(e as i32),
        Ok(WaitStatus::Stopped(_, sig)) => Ok(StopReason::Stopped(sig as i32)),
        Ok(WaitStatus::Exited(_, code)) => Ok(StopReason::Exited(code)),
        Ok(WaitStatus::Signaled(_, sig, _)) => Ok(StopReason::Signaled(sig as i32)),
        Ok(WaitStatus::PtraceEvent(_, _, _)) => Ok(StopReason::Other),
        Ok(WaitStatus::PtraceSyscall(_)) => Ok(StopReason::Other),
        Ok(WaitStatus::Continued(_)) => Ok(StopReason::Other),
        Ok(WaitStatus::StillAlive) => Ok(StopReason::Other),
    }
}

/// Relies on nix::fcntl::open: opens the target's memory image read-only.
/// Returns the raw file descriptor.
#[verifier::external_body]
pub(crate) fn open_mem_read(pid: i32) -> (r: Result<i32, i32>) {
    let path = format!("/proc/{}/mem", pid as u32);
    nix::fcntl::open(path.as_str(), nix::fcntl::OFlag::O_RDONLY, nix::sys::stat::Mode::empty())
        .map_err(|e| e as i32)
}

/// Relies on nix::fcntl::open: opens the target's memory image with both
/// read and write access. Returns the raw file descriptor.
#[verifier::external_body]
pub(crate) fn open_mem_rw(pid: i32) -> (r: Result<i32, i32>) {
    let path = format!("/proc/{}/mem", pid as u32);
    nix::fcntl::open(path.as_str(), nix::fcntl::OFlag::O_RDWR, nix::sys::stat::Mode::empty())
        .map_err(|e| e as i32)
}

/// Relies on nix::sys::uio::pread: a positioned read of up to `len` bytes at
/// the given offset; a short read returns the bytes actually read, so the
/// result never exceeds the requested length.
#[verifier::external_body]
pub(crate) fn pread_at(fd: i32, len: usize, addr: u64) -> (r: Result<Vec<u8>, i32>)
    ensures
        r is Ok ==> r->Ok_0@.len() <= len,
{
    let mut data = vec![0u8; len];
    match nix::sys::uio::pread(fd, &mut data, addr as i64) {
        Ok(n) => {
            data.truncate(n);
            Ok(data)
        },
        Err(e) => Err(e as i32),
    }
}

/// Relies on nix::sys::uio::pwrite: a positioned write at the given offset;
/// returns the number of bytes actually written, never more than were given.
#[verifier::external_body]
pub(crate) fn pwrite_at(fd: i32, data: &[u8], addr: u64) -> (r: Result<usize, i32>)
    ensures
        r is Ok ==> r->Ok_0 <= data@.len(),
{
    nix::sys::uio::pwrite(fd, data, addr as i64).map_err(|e| e as i32)
}

/// Relies on nix::unistd::close: closes a raw file descriptor.
#[verifier::external_body]
pub(crate) fn close_fd(fd: i32) -> (r: Result<(), i32>) {
    nix::unistd::close(fd).map_err(|e| e as i32)
}

/// Relies on syscalls::Sysno::mmap, whose value on this architecture is 9.
#[verifier::external_body]
pub(crate) fn mmap_sysno() -> (r: u64)
    ensures
        r == 9u64,
{
    syscalls::Sysno::mmap as u64
}

/// Relies on syscalls::Sysno::munmap, whose value on this architecture
/// is 11.
#[verifier::external_body]
pub(crate) fn munmap_sysno() -> (r: u64)
    ensures
        r == 11u64,
{
    syscalls::Sysno::munmap as u64
}

} // verus!
