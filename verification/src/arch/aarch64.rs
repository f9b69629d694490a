use vstd::prelude::*;

verus! {

/// The AArch64 architecture.
pub struct Aarch64Arch;

/// Processor state of a new AArch64 thread: EL0 with interrupts enabled.
pub const AARCH64_INITIAL_PSTATE: u64 = 0x3c5;

/// Saved AArch64 register state.
pub struct Aarch64Context {
    /// General-purpose registers x0-x30.
    pub x: [u64; 31],
    /// Stack pointer.
    pub sp: u64,
    /// Program counter.
    pub pc: u64,
    /// Processor state.
    pub pstate: u64,
}

impl Default for Aarch64Context {
    fn default() -> (c: Self)
        ensures
            forall|i: int| 0 <= i < 31 ==> c.x[i] == 0,
            c.sp == 0,
            c.pc == 0,
            c.pstate == AARCH64_INITIAL_PSTATE,
    {
        Aarch64Context { x: [0u64; 31], sp: 0, pc: 0, pstate: AARCH64_INITIAL_PSTATE }
    }
}

/// Architecture set-up for AArch64; nothing needs doing yet.
pub fn init() {
}

} // verus!
