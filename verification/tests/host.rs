use uproc::bytes::u64_from_le_bytes;
use uproc::errors::{HostError, StopReason};
use uproc::host::{
    classify_stop, interpret_mmap_return, interpret_munmap_return, mmap_syscall_number,
    munmap_syscall_number, UProc, UProcMem, SYSCALL_INST_0, SYSCALL_INST_1, TRACE_TRAP_SIGNAL,
};
use uproc::regs::Registers;

/// A process identifier far above any that exists here.
const ABSENT_PID: i32 = 2_000_000_000;

#[test]
fn attach_to_missing_process_fails() {
    match UProc::attach(ABSENT_PID) {
        Err(HostError::ProcessAttachFailure(_)) => {}
        other => panic!("expected ProcessAttachFailure, got {:?}", other.map(|p| p.pid())),
    }
}

#[test]
fn classify_stop_accepts_only_the_trace_trap() {
    assert_eq!(classify_stop(StopReason::Stopped(TRACE_TRAP_SIGNAL)), Ok(()));
    assert_eq!(
        classify_stop(StopReason::Stopped(11)),
        Err(HostError::UnexpectedStopReason(StopReason::Stopped(11)))
    );
    assert_eq!(
        classify_stop(StopReason::Exited(0)),
        Err(HostError::UnexpectedStopReason(StopReason::Exited(0)))
    );
    assert_eq!(
        classify_stop(StopReason::Signaled(9)),
        Err(HostError::UnexpectedStopReason(StopReason::Signaled(9)))
    );
    assert_eq!(
        classify_stop(StopReason::Other),
        Err(HostError::UnexpectedStopReason(StopReason::Other))
    );
}

#[test]
fn mmap_return_zero_is_the_failure_sentinel() {
    // The kernel convention signals mapping failure with a small negative
    // value seen as a large unsigned one; this engine instead keeps its
    // historical check, treating a zero address as the failure.
    let mut regs = Registers::default();
    regs.rax = 0;
    assert_eq!(
        interpret_mmap_return(&regs, 0x77, 8),
        Err(HostError::MmapBadAddress(0x77))
    );
    regs.rax = 0x7f00_0000_1000;
    assert_eq!(
        interpret_mmap_return(&regs, 0x77, 8),
        Ok(UProcMem { addr: 0x7f00_0000_1000, len: 8 })
    );
}

#[test]
fn munmap_return_nonzero_is_failure() {
    let mut regs = Registers::default();
    regs.rax = 0;
    assert_eq!(interpret_munmap_return(&regs, 0x5000), Ok(()));
    regs.rax = u64::MAX;
    assert_eq!(
        interpret_munmap_return(&regs, 0x5000),
        Err(HostError::MunmapFailed(0x5000))
    );
}

#[test]
fn syscall_numbers_match_the_architecture() {
    assert_eq!(mmap_syscall_number(), 9);
    assert_eq!(munmap_syscall_number(), 11);
}

#[test]
fn trap_instruction_encoding() {
    assert_eq!((SYSCALL_INST_0, SYSCALL_INST_1), (0x0F, 0x05));
}

#[test]
fn with_syscall_substitutes_only_the_syscall_registers() {
    let mut base = Registers::default();
    base.rip = 0x4000_1234;
    base.rsp = 0x7ffc_0000;
    base.rbx = 77;
    base.rax = 1;
    let armed = base.with_syscall(9, 10, 20, 30, 40, 50, 60);
    assert_eq!(armed.rax, 9);
    assert_eq!(armed.rdi, 10);
    assert_eq!(armed.rsi, 20);
    assert_eq!(armed.rdx, 30);
    assert_eq!(armed.r10, 40);
    assert_eq!(armed.r8, 50);
    assert_eq!(armed.r9, 60);
    assert_eq!(armed.rip, 0x4000_1234);
    assert_eq!(armed.rsp, 0x7ffc_0000);
    assert_eq!(armed.rbx, 77);
    assert_eq!(armed.orig_rax, 0);
}

#[test]
fn raw_register_block_round_trip() {
    let mut regs = Registers::default();
    regs.rip = 0xdead_beef;
    regs.rax = 42;
    regs.gs = 7;
    regs.r15 = u64::MAX;
    assert_eq!(Registers::from_raw(&regs.to_raw()), regs);
}

#[test]
fn le_bytes_exact_value() {
    let data = [0x01u8, 0x02, 0x03, 0x04, 0x05, 0x06, 0x07, 0x08];
    assert_eq!(u64_from_le_bytes(&data), 0x0807060504030201);
    let zero = [0u8; 8];
    assert_eq!(u64_from_le_bytes(&zero), 0);
    let time_like = [0x40u8, 0xE2, 0x01, 0x65, 0x00, 0x00, 0x00, 0x00];
    assert_eq!(u64_from_le_bytes(&time_like), 0x65_01E2_40);
}
