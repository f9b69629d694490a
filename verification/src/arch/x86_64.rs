use vstd::prelude::*;

verus! {

/// The x86_64 architecture.
pub struct X86_64Arch;

/// RFLAGS of a new x86_64 thread: interrupts enabled.
pub const X86_64_INITIAL_RFLAGS: u64 = 0x202;

/// Saved x86_64 callee-saved registers and flags.
pub struct X86_64Context {
    pub rsp: u64,
    pub rbp: u64,
    pub rbx: u64,
    pub r12: u64,
    pub r13: u64,
    pub r14: u64,
    pub r15: u64,
    pub rflags: u64,
}

impl Default for X86_64Context {
    fn default() -> (c: Self)
        ensures
            c.rsp == 0 && c.rbp == 0 && c.rbx == 0,
            c.r12 == 0 && c.r13 == 0 && c.r14 == 0 && c.r15 == 0,
            c.rflags == X86_64_INITIAL_RFLAGS,
    {
        X86_64Context {
            rsp: 0,
            rbp: 0,
            rbx: 0,
            r12: 0,
            r13: 0,
            r14: 0,
            r15: 0,
            rflags: X86_64_INITIAL_RFLAGS,
        }
    }
}

} // verus!
