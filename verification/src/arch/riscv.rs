use vstd::prelude::*;

verus! {

/// The RISC-V architecture (supervisor mode).
pub struct RiscvArch;

/// Saved RISC-V register state.
pub struct RiscvContext {
    /// General-purpose registers x1-x31.
    pub x: [u64; 31],
    /// Stack pointer.
    pub sp: u64,
    /// Program counter.
    pub pc: u64,
    /// Status register (user mode, interrupts disabled when zero).
    pub status: u64,
}

impl Default for RiscvContext {
    fn default() -> (c: Self)
        ensures
            forall|i: int| 0 <= i < 31 ==> c.x[i] == 0,
            c.sp == 0,
            c.pc == 0,
            c.status == 0,
    {
        RiscvContext { x: [0u64; 31], sp: 0, pc: 0, status: 0 }
    }
}

/// Nanoseconds per second.
pub const NANOS_PER_SEC: u64 = 1_000_000_000;

/// Microseconds per second.
pub const MICROS_PER_SEC: u64 = 1_000_000;

/// Timer ticks to nanoseconds at timer frequency `freq` (0 when the
/// frequency is unknown).
pub fn ticks_to_ns(freq: u64, ticks: u64) -> (ns: u64)
    requires
        ticks * NANOS_PER_SEC <= u64::MAX,
    ensures
        freq == 0 ==> ns == 0,
        freq != 0 ==> ns == (ticks * NANOS_PER_SEC) / (freq as int),
{
    if freq == 0 {
        return 0;
    }
    (ticks * NANOS_PER_SEC) / freq
}

/// Nanoseconds to timer ticks at timer frequency `freq` (0 when the
/// frequency is unknown).
pub fn ns_to_ticks(freq: u64, ns: u64) -> (ticks: u64)
    requires
        ns * freq <= u64::MAX,
    ensures
        freq == 0 ==> ticks == 0,
        freq != 0 ==> ticks == (ns * freq) / (NANOS_PER_SEC as int),
{
    if freq == 0 {
        return 0;
    }
    (ns * freq) / NANOS_PER_SEC
}

/// Timer ticks of a preemption interval of `interval_us` microseconds at
/// frequency `freq`; an unknown (zero) frequency is an error.
pub fn preemption_interval_ticks(freq: u64, interval_us: u32) -> (r: Result<u64, &'static str>)
    requires
        freq * interval_us <= u64::MAX,
    ensures
        freq == 0 <==> r is Err,
        freq != 0 ==> r == Ok::<u64, &'static str>(
            ((freq * interval_us) / (MICROS_PER_SEC as int)) as u64,
        ),
{
    if freq == 0 {
        return Err("Timer frequency not initialized");
    }
    Ok((freq * interval_us as u64) / MICROS_PER_SEC)
}

} // verus!
