use vstd::prelude::*;

verus! {

/// The 64-bit RISC-V architecture.
pub struct Riscv64Arch;

/// Machine status of a new RISC-V thread (machine mode).
pub const RISCV64_INITIAL_MSTATUS: u64 = 0x80;

/// Saved 64-bit RISC-V register state.
pub struct Riscv64Context {
    /// General-purpose registers x1-x31.
    pub x: [u64; 31],
    /// Program counter.
    pub pc: u64,
    /// Machine status register.
    pub mstatus: u64,
}

impl Default for Riscv64Context {
    fn default() -> (c: Self)
        ensures
            forall|i: int| 0 <= i < 31 ==> c.x[i] == 0,
            c.pc == 0,
            c.mstatus == RISCV64_INITIAL_MSTATUS,
    {
        Riscv64Context { x: [0u64; 31], pc: 0, mstatus: RISCV64_INITIAL_MSTATUS }
    }
}

/// Architecture set-up for 64-bit RISC-V; nothing needs doing yet.
pub fn init() {
}

} // verus!
