//! The register model: a snapshot of the target's full general-purpose
//! register set, as a plain value type, together with the substitution that
//! turns a snapshot into the register set for an injected syscall.
//!
//! The syscall calling convention of the host architecture places the
//! syscall number in `rax` and the six arguments in `rdi`, `rsi`, `rdx`,
//! `r10`, `r8` and `r9`; the return value comes back in `rax`.

use vstd::prelude::*;

verus! {

/// The platform's raw register block, declared so that its fields are
/// visible to verification; [`Registers`] mirrors it value for value.
#[verifier::external_type_specification]
pub struct ExUserRegsStruct(nix::libc::user_regs_struct);

/// A complete copy of the target's general-purpose register set at one
/// instant. A value type: copied whole, never partially merged.
#[derive(Clone, Copy, Debug, PartialEq, Eq, Structural, Default)]
pub struct Registers {
    pub r15: u64,
    pub r14: u64,
    pub r13: u64,
    pub r12: u64,
    pub rbp: u64,
    pub rbx: u64,
    pub r11: u64,
    pub r10: u64,
    pub r9: u64,
    pub r8: u64,
    pub rax: u64,
    pub rcx: u64,
    pub rdx: u64,
    pub rsi: u64,
    pub rdi: u64,
    pub orig_rax: u64,
    pub rip: u64,
    pub cs: u64,
    pub eflags: u64,
    pub rsp: u64,
    pub ss: u64,
    pub fs_base: u64,
    pub gs_base: u64,
    pub ds: u64,
    pub es: u64,
    pub fs: u64,
    pub gs: u64,
}

/// The snapshot that a raw register block denotes.
pub open spec fn abs_regs(raw: nix::libc::user_regs_struct) -> Registers {
    Registers {
        r15: raw.r15,
        r14: raw.r14,
        r13: raw.r13,
        r12: raw.r12,
        rbp: raw.rbp,
        rbx: raw.rbx,
        r11: raw.r11,
        r10: raw.r10,
        r9: raw.r9,
        r8: raw.r8,
        rax: raw.rax,
        rcx: raw.rcx,
        rdx: raw.rdx,
        rsi: raw.rsi,
        rdi: raw.rdi,
        orig_rax: raw.orig_rax,
        rip: raw.rip,
        cs: raw.cs,
        eflags: raw.eflags,
        rsp: raw.rsp,
        ss: raw.ss,
        fs_base: raw.fs_base,
        gs_base: raw.gs_base,
        ds: raw.ds,
        es: raw.es,
        fs: raw.fs,
        gs: raw.gs,
    }
}

/// The register set for an injected syscall: the snapshot `r` with the
/// syscall number and the six argument registers substituted, every other
/// register (the instruction pointer included) left untouched.
pub open spec fn spec_with_syscall(
    r: Registers,
    nr: u64,
    rdi: u64,
    rsi: u64,
    rdx: u64,
    r10: u64,
    r8: u64,
    r9: u64,
) -> Registers {
    Registers { rax: nr, rdi, rsi, rdx, r10, r8, r9, ..r }
}

/// The substitution changes exactly the syscall number and the six
/// argument registers; every other register — the instruction pointer
/// included — is preserved, so the patched instruction executes at the
/// address the target was already stopped at.
pub proof fn lemma_with_syscall_substitution(
    r: Registers,
    nr: u64,
    rdi: u64,
    rsi: u64,
    rdx: u64,
    r10: u64,
    r8: u64,
    r9: u64,
)
    ensures
        ({
            let w = spec_with_syscall(r, nr, rdi, rsi, rdx, r10, r8, r9);
            &&& w.rax == nr
            &&& w.rdi == rdi
            &&& w.rsi == rsi
            &&& w.rdx == rdx
            &&& w.r10 == r10
            &&& w.r8 == r8
            &&& w.r9 == r9
            &&& w.rip == r.rip
            &&& w.rsp == r.rsp
            &&& w.rbp == r.rbp
            &&& w.rbx == r.rbx
            &&& w.rcx == r.rcx
            &&& w.r11 == r.r11
            &&& w.r12 == r.r12
            &&& w.r13 == r.r13
            &&& w.r14 == r.r14
            &&& w.r15 == r.r15
            &&& w.orig_rax == r.orig_rax
            &&& w.cs == r.cs
            &&& w.eflags == r.eflags
            &&& w.ss == r.ss
            &&& w.fs_base == r.fs_base
            &&& w.gs_base == r.gs_base
            &&& w.ds == r.ds
            &&& w.es == r.es
            &&& w.fs == r.fs
            &&& w.gs == r.gs
        }),
{
}

impl Registers {
    /// Copies a raw register block into the snapshot type.
    pub fn from_raw(raw: &nix::libc::user_regs_struct) -> (r: Registers)
        ensures
            r == abs_regs(*raw),
    {
        Registers {
            r15: raw.r15,
            r14: raw.r14,
            r13: raw.r13,
            r12: raw.r12,
            rbp: raw.rbp,
            rbx: raw.rbx,
            r11: raw.r11,
            r10: raw.r10,
            r9: raw.r9,
            r8: raw.r8,
            rax: raw.rax,
            rcx: raw.rcx,
            rdx: raw.rdx,
            rsi: raw.rsi,
            rdi: raw.rdi,
            orig_rax: raw.orig_rax,
            rip: raw.rip,
            cs: raw.cs,
            eflags: raw.eflags,
            rsp: raw.rsp,
            ss: raw.ss,
            fs_base: raw.fs_base,
            gs_base: raw.gs_base,
            ds: raw.ds,
            es: raw.es,
            fs: raw.fs,
            gs: raw.gs,
        }
    }

    /// Writes the snapshot back out as a raw register block.
    pub fn to_raw(&self) -> (r: nix::libc::user_regs_struct)
        ensures
            abs_regs(r) == *self,
    {
        nix::libc::user_regs_struct {
            r15: self.r15,
            r14: self.r14,
            r13: self.r13,
            r12: self.r12,
            rbp: self.rbp,
            rbx: self.rbx,
            r11: self.r11,
            r10: self.r10,
            r9: self.r9,
            r8: self.r8,
            rax: self.rax,
            rcx: self.rcx,
            rdx: self.rdx,
            rsi: self.rsi,
            rdi: self.rdi,
            orig_rax: self.orig_rax,
            rip: self.rip,
            cs: self.cs,
            eflags: self.eflags,
            rsp: self.rsp,
            ss: self.ss,
            fs_base: self.fs_base,
            gs_base: self.gs_base,
            ds: self.ds,
            es: self.es,
            fs: self.fs,
            gs: self.gs,
        }
    }

    /// Builds the register set for an injected syscall from this snapshot.
    pub fn with_syscall(
        &self,
        nr: u64,
        rdi: u64,
        rsi: u64,
        rdx: u64,
        r10: u64,
        r8: u64,
        r9: u64,
    ) -> (r: Registers)
        ensures
            r == spec_with_syscall(*self, nr, rdi, rsi, rdx, r10, r8, r9),
    {
        let mut r = *self;
        r.rax = nr;
        r.rdi = rdi;
        r.rsi = rsi;
        r.rdx = rdx;
        r.r10 = r10;
        r.r8 = r8;
        r.r9 = r9;
        r
    }
}

} // verus!
