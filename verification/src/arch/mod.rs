use vstd::prelude::*;

pub mod aarch64;
pub mod detection;
pub mod riscv;
pub mod riscv64;
pub mod x86_64;

verus! {

/// Interrupt control of a CPU architecture, with the type of the register
/// state saved on a context switch.
pub trait Arch {
    /// Register state saved when a thread is switched out.
    type SavedContext;

    /// Lets interrupts (and with them preemption) happen.
    fn enable_interrupts();

    /// Stops interrupts, starting a critical section.
    fn disable_interrupts();

    /// Whether interrupts are enabled.
    fn interrupts_enabled() -> bool;
}

/// Architecture with no hardware behind it, for tests and hosted builds:
/// it saves nothing and reports interrupts as always enabled.
pub struct NoOpArch;

impl Arch for NoOpArch {
    type SavedContext = ();

    fn enable_interrupts() {
    }

    fn disable_interrupts() {
    }

    fn interrupts_enabled() -> (r: bool)
        ensures
            r,
    {
        true
    }
}

/// The architecture used when no hardware architecture is selected.
pub type DefaultArch = NoOpArch;

} // verus!
