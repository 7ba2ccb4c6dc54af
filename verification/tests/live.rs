//! End-to-end exercises against a live victim process: attach, allocate,
//! write and read the target's memory, inject a syscall, release, detach.

use subprocess::{Exec, Job};
use uproc::bytes::u64_from_le_bytes;
use uproc::errors::StopReason;
use uproc::host::UProc;

/// A victim that idles long enough for the whole exercise and is killed at
/// the end.
fn spawn_victim() -> (Job, i32) {
    let job = Exec::cmd("sleep").arg("60").start().expect("spawn the victim process");
    let pid = job.pid() as i32;
    (job, pid)
}

#[test]
fn inject_time_syscall_into_live_target() {
    let (child, pid) = spawn_victim();

    let proc = UProc::attach(pid).expect("attach to the victim");
    let reason = proc.wait().expect("wait for the attach stop");
    assert!(matches!(reason, StopReason::Stopped(_)));

    // Allocate eight bytes, read-write, private and anonymous, with the
    // file-descriptor sentinel and offset zero.
    let region = proc
        .malloc(
            0,
            8,
            (nix::libc::PROT_READ | nix::libc::PROT_WRITE) as u64,
            (nix::libc::MAP_PRIVATE | nix::libc::MAP_ANONYMOUS) as u64,
            u64::MAX,
            0,
        )
        .expect("allocate in the victim");
    assert_ne!(region.addr, 0);
    assert_eq!(region.len, 8);

    // Written bytes read back exactly.
    let payload = [0xDEu8, 0xAD, 0xBE, 0xEF, 0x01, 0x02, 0x03, 0x04];
    let written = proc.mem_write(region.addr, &payload).expect("write the payload");
    assert_eq!(written, 8);
    let back = proc.mem_read(region.addr, 8).expect("read the payload back");
    assert_eq!(back, payload);

    // Inject the "time" syscall with the region as its output buffer: the
    // region then holds a plausible little-endian timestamp, the same value
    // the syscall left in the return-value register.
    let res = proc
        .syscall(syscalls::Sysno::time as u64, region.addr, 0, 0, 0, 0, 0)
        .expect("inject the time syscall");
    let raw = proc.mem_read(region.addr, 8).expect("read the timestamp");
    assert_eq!(raw.len(), 8);
    let stamp = u64_from_le_bytes(&raw);
    assert!(stamp > 1_600_000_000, "timestamp too small: {}", stamp);
    assert!(stamp < 100_000_000_000, "timestamp implausible: {}", stamp);
    assert_eq!(res.rax, stamp);

    // The victim still runs its own code after the injection: a second
    // injection through the same (restored) instruction bytes also works.
    let res2 = proc
        .syscall(syscalls::Sysno::time as u64, region.addr, 0, 0, 0, 0, 0)
        .expect("inject a second time");
    assert!(res2.rax >= stamp);

    // Release the region: reads over it afterwards fail or come back
    // truncated.
    proc.free(region.addr, region.len).expect("release the region");
    match proc.mem_read(region.addr, 8) {
        Ok(bytes) => assert!(bytes.len() < 8, "region still mapped"),
        Err(_) => {}
    }

    proc.detach().expect("detach from the victim");
    child.kill().ok();
    child.wait().ok();
}

#[test]
fn detach_leaves_the_target_running() {
    let (child, pid) = spawn_victim();

    let proc = UProc::attach(pid).expect("attach to the victim");
    proc.wait().expect("wait for the attach stop");
    let snapshot = proc.mem_read(0x1000, 1);
    // Whatever that read returned, the engine must still detach cleanly.
    let _ = snapshot;
    proc.detach().expect("detach from the victim");

    child.kill().ok();
    child.wait().ok();
}
