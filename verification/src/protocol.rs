//! A model of the injection protocol over the target's observable state —
//! its register set and its byte-addressed memory image — and the proofs
//! that an error-free run of the protocol leaves both restored.
//!
//! The executable protocol ([`crate::host::UProc::syscall`]) performs these
//! steps through the tracing primitives; the model mirrors them one for
//! one. The execution step itself is taken as an arbitrary outcome (any
//! post-call register set, any memory image the syscall may have produced),
//! so the restoration lemmas hold whatever the injected syscall did.

use vstd::prelude::*;

use crate::host::{SYSCALL_INST_0, SYSCALL_INST_1};
use crate::regs::{spec_with_syscall, Registers};

verus! {

/// The observable state of the target process.
pub ghost struct TargetState {
    pub regs: Registers,
    pub mem: Map<int, u8>,
}

/// One byte of the target's memory.
pub open spec fn read_byte(s: TargetState, a: int) -> u8 {
    s.mem[a]
}

/// The target's memory with one byte overwritten.
pub open spec fn write_byte(s: TargetState, a: int, b: u8) -> TargetState {
    TargetState { mem: s.mem.insert(a, b), ..s }
}

/// The target's memory with two consecutive bytes overwritten.
pub open spec fn write_two(s: TargetState, a: int, b0: u8, b1: u8) -> TargetState {
    write_byte(write_byte(s, a, b0), a + 1, b1)
}

/// The target with a full register set installed.
pub open spec fn set_registers(s: TargetState, r: Registers) -> TargetState {
    TargetState { regs: r, ..s }
}

/// The single-step through the patched instruction: the target executes the
/// syscall, so its registers become some post-call set and its memory
/// whatever image the syscall left behind. Both are parameters: the model
/// promises nothing about them.
pub open spec fn execute_outcome(s: TargetState, post: Registers, mem2: Map<int, u8>) -> TargetState {
    TargetState { regs: post, mem: mem2 }
}

/// The whole injection protocol, on an error-free run: save the two bytes
/// under the instruction pointer, patch in the syscall-trap instruction,
/// install the snapshot with the syscall registers substituted, execute,
/// write the saved bytes back, and reinstall the entire original snapshot.
pub open spec fn inject(
    s0: TargetState,
    nr: u64,
    rdi: u64,
    rsi: u64,
    rdx: u64,
    r10: u64,
    r8: u64,
    r9: u64,
    post: Registers,
    mem2: Map<int, u8>,
) -> TargetState {
    let ip = s0.regs.rip as int;
    let saved0 = read_byte(s0, ip);
    let saved1 = read_byte(s0, ip + 1);
    let patched = write_two(s0, ip, SYSCALL_INST_0, SYSCALL_INST_1);
    let armed = set_registers(
        patched,
        spec_with_syscall(s0.regs, nr, rdi, rsi, rdx, r10, r8, r9),
    );
    let stepped = execute_outcome(armed, post, mem2);
    let unpatched = write_two(stepped, ip, saved0, saved1);
    set_registers(unpatched, s0.regs)
}

/// Immediately after an error-free injection, and before any further
/// resume, the target's live register set equals the pre-injection
/// snapshot — every register, the instruction pointer included — whatever
/// the injected syscall returned or did to memory.
pub proof fn lemma_injection_restores_registers(
    s0: TargetState,
    nr: u64,
    rdi: u64,
    rsi: u64,
    rdx: u64,
    r10: u64,
    r8: u64,
    r9: u64,
    post: Registers,
    mem2: Map<int, u8>,
)
    ensures
        inject(s0, nr, rdi, rsi, rdx, r10, r8, r9, post, mem2).regs == s0.regs,
{
}

/// After an error-free injection the two bytes at the pre-injection
/// instruction pointer equal the two bytes observed before the patch —
/// the patched instruction makes the round trip — whatever the injected
/// syscall returned or did to memory.
pub proof fn lemma_injection_restores_code(
    s0: TargetState,
    nr: u64,
    rdi: u64,
    rsi: u64,
    rdx: u64,
    r10: u64,
    r8: u64,
    r9: u64,
    post: Registers,
    mem2: Map<int, u8>,
)
    ensures
        read_byte(inject(s0, nr, rdi, rsi, rdx, r10, r8, r9, post, mem2), s0.regs.rip as int)
            == read_byte(s0, s0.regs.rip as int),
        read_byte(inject(s0, nr, rdi, rsi, rdx, r10, r8, r9, post, mem2), s0.regs.rip as int + 1)
            == read_byte(s0, s0.regs.rip as int + 1),
{
}

/// The target's memory with a run of bytes written at consecutive
/// addresses, first byte first.
pub open spec fn write_bytes(mem: Map<int, u8>, a: int, data: Seq<u8>) -> Map<int, u8>
    decreases data.len(),
{
    if data.len() == 0 {
        mem
    } else {
        write_bytes(mem.insert(a, data[0]), a + 1, data.skip(1))
    }
}

/// A run of bytes read from consecutive addresses.
pub open spec fn read_bytes(mem: Map<int, u8>, a: int, n: nat) -> Seq<u8> {
    Seq::new(n, |i: int| mem[a + i])
}

/// Writing leaves every address below the written range untouched.
proof fn lemma_write_bytes_below(mem: Map<int, u8>, a: int, data: Seq<u8>, b: int)
    requires
        b < a,
    ensures
        write_bytes(mem, a, data)[b] == mem[b],
    decreases data.len(),
{
    if data.len() > 0 {
        lemma_write_bytes_below(mem.insert(a, data[0]), a + 1, data.skip(1), b);
    }
}

/// Reading back a run of bytes just written returns exactly those bytes:
/// the memory image round-trips a write, for every address and every
/// starting image.
pub proof fn lemma_write_then_read(mem: Map<int, u8>, a: int, data: Seq<u8>)
    ensures
        read_bytes(write_bytes(mem, a, data), a, data.len()) == data,
    decreases data.len(),
{
    let w = write_bytes(mem, a, data);
    let r = read_bytes(w, a, data.len());
    if data.len() == 0 {
        assert(r =~= data);
    } else {
        lemma_write_bytes_below(mem.insert(a, data[0]), a + 1, data.skip(1), a);
        lemma_write_then_read(mem.insert(a, data[0]), a + 1, data.skip(1));
        let rtail = read_bytes(write_bytes(mem.insert(a, data[0]), a + 1, data.skip(1)), a + 1, (data.len() - 1) as nat);
        assert forall|i: int| 0 <= i < data.len() implies r[i] == data[i] by {
            if i > 0 {
                assert(rtail[i - 1] == data.skip(1)[i - 1]);
            }
        }
        assert(r =~= data);
    }
}

} // verus!
