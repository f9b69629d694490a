use vstd::prelude::*;

verus! {

/// Counts the memory accesses of code under test while enabled; race
/// tracking proper is not implemented, so no race is ever reported.
pub struct RaceDetector {
    enabled: bool,
    total_accesses: usize,
    races_detected: usize,
    clock: u64,
}

/// Figures reported by a race detector.
#[derive(Debug, Clone, Copy)]
pub struct RaceDetectorStats {
    pub total_accesses: usize,
    pub races_detected: usize,
    pub enabled: bool,
}

/// `n + 1` modulo 2^64.
pub open spec fn wrap_inc_u64(n: u64) -> u64 {
    if n == u64::MAX {
        0
    } else {
        (n + 1) as u64
    }
}

/// `n + 1` modulo the word size.
pub open spec fn wrap_inc_usize(n: usize) -> usize {
    if n == usize::MAX {
        0
    } else {
        (n + 1) as usize
    }
}

impl RaceDetector {
    /// Whether accesses are being counted.
    pub closed spec fn spec_enabled(&self) -> bool {
        self.enabled
    }

    /// Accesses counted (modulo the word size).
    pub closed spec fn spec_accesses(&self) -> usize {
        self.total_accesses
    }

    /// Races reported.
    pub closed spec fn spec_races(&self) -> usize {
        self.races_detected
    }

    /// Logical clock: one tick per recorded event (modulo 2^64).
    pub closed spec fn spec_clock(&self) -> u64 {
        self.clock
    }

    /// A disabled detector with zeroed counters.
    pub fn new() -> (d: Self)
        ensures
            !d.spec_enabled(),
            d.spec_accesses() == 0,
            d.spec_races() == 0,
            d.spec_clock() == 0,
    {
        RaceDetector { enabled: false, total_accesses: 0, races_detected: 0, clock: 0 }
    }

    /// Starts counting.
    pub fn enable(&mut self)
        ensures
            final(self).spec_enabled(),
            final(self).spec_accesses() == old(self).spec_accesses(),
            final(self).spec_races() == old(self).spec_races(),
            final(self).spec_clock() == old(self).spec_clock(),
    {
        self.enabled = true;
    }

    /// Stops counting.
    pub fn disable(&mut self)
        ensures
            !final(self).spec_enabled(),
            final(self).spec_accesses() == old(self).spec_accesses(),
            final(self).spec_races() == old(self).spec_races(),
            final(self).spec_clock() == old(self).spec_clock(),
    {
        self.enabled = false;
    }

    /// Whether counting is on.
    pub fn is_enabled(&self) -> (r: bool)
        ensures
            r == self.spec_enabled(),
    {
        self.enabled
    }

    /// Records a read of `size` bytes at `addr`: while enabled, one more
    /// access and one clock tick.
    pub fn record_read(&mut self, addr: usize, size: usize)
        ensures
            final(self).spec_enabled() == old(self).spec_enabled(),
            final(self).spec_races() == old(self).spec_races(),
            old(self).spec_enabled() ==> final(self).spec_accesses() == wrap_inc_usize(
                old(self).spec_accesses(),
            ) && final(self).spec_clock() == wrap_inc_u64(old(self).spec_clock()),
            !old(self).spec_enabled() ==> *final(self) == *old(self),
    {
        if !self.enabled {
            return;
        }
        self.total_accesses = self.total_accesses.wrapping_add(1);
        self.clock = self.clock.wrapping_add(1);
    }

    /// Records a write of `size` bytes at `addr`: while enabled, one more
    /// access and one clock tick.
    pub fn record_write(&mut self, addr: usize, size: usize)
        ensures
            final(self).spec_enabled() == old(self).spec_enabled(),
            final(self).spec_races() == old(self).spec_races(),
            old(self).spec_enabled() ==> final(self).spec_accesses() == wrap_inc_usize(
                old(self).spec_accesses(),
            ) && final(self).spec_clock() == wrap_inc_u64(old(self).spec_clock()),
            !old(self).spec_enabled() ==> *final(self) == *old(self),
    {
        if !self.enabled {
            return;
        }
        self.total_accesses = self.total_accesses.wrapping_add(1);
        self.clock = self.clock.wrapping_add(1);
    }

    /// Records a fence: while enabled, one clock tick.
    pub(crate) fn record_fence_tick(&mut self)
        ensures
            final(self).spec_enabled() == old(self).spec_enabled(),
            final(self).spec_races() == old(self).spec_races(),
            final(self).spec_accesses() == old(self).spec_accesses(),
            old(self).spec_enabled() ==> final(self).spec_clock() == wrap_inc_u64(
                old(self).spec_clock(),
            ),
            !old(self).spec_enabled() ==> *final(self) == *old(self),
    {
        if !self.enabled {
            return;
        }
        self.clock = self.clock.wrapping_add(1);
    }

    /// The counters and the enabled flag.
    pub fn stats(&self) -> (s: RaceDetectorStats)
        ensures
            s.total_accesses == self.spec_accesses(),
            s.races_detected == self.spec_races(),
            s.enabled == self.spec_enabled(),
    {
        RaceDetectorStats {
            total_accesses: self.total_accesses,
            races_detected: self.races_detected,
            enabled: self.enabled,
        }
    }

    /// Zeroes the counters and the clock.
    pub fn reset(&mut self)
        ensures
            final(self).spec_enabled() == old(self).spec_enabled(),
            final(self).spec_accesses() == 0,
            final(self).spec_races() == 0,
            final(self).spec_clock() == 0,
    {
        self.total_accesses = 0;
        self.races_detected = 0;
        self.clock = 0;
    }
}

} // verus!
