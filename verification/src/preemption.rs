use vstd::prelude::*;
use crate::scheduler::Scheduler;
use crate::sync::{yield_effect, yield_thread};
use crate::thread::ThreadId;

verus! {

/// One million: microseconds per second.
pub const MICROS_PER_SECOND: u64 = 1_000_000;

/// Whether timer-driven preemption is armed. Arming the interval timer and
/// installing its signal handler is done by the caller with the values
/// that `enable` and `disable` return.
pub struct Preemption {
    enabled: bool,
}

impl Preemption {
    /// Whether the timer is armed.
    pub closed spec fn spec_enabled(&self) -> bool {
        self.enabled
    }

    /// Not armed.
    pub fn new() -> (p: Self)
        ensures
            !p.spec_enabled(),
    {
        Preemption { enabled: false }
    }

    /// Whether the timer is armed.
    pub fn is_enabled(&self) -> (r: bool)
        ensures
            r == self.spec_enabled(),
    {
        self.enabled
    }

    /// Arms preemption every `interval_us` microseconds. Returns the timer
    /// period to program, as whole seconds and remaining microseconds.
    pub fn enable(&mut self, interval_us: u64) -> (period: (u64, u64))
        ensures
            final(self).spec_enabled(),
            period.0 == interval_us / MICROS_PER_SECOND,
            period.1 == interval_us % MICROS_PER_SECOND,
            period.0 * MICROS_PER_SECOND + period.1 == interval_us,
    {
        self.enabled = true;
        (interval_us / MICROS_PER_SECOND, interval_us % MICROS_PER_SECOND)
    }

    /// Disarms preemption. Returns whether the timer was armed and must be
    /// stopped.
    pub fn disable(&mut self) -> (was_enabled: bool)
        ensures
            !final(self).spec_enabled(),
            was_enabled == old(self).spec_enabled(),
    {
        let was = self.enabled;
        self.enabled = false;
        was
    }
}

impl Default for Preemption {
    /// Not armed.
    fn default() -> (p: Self)
        ensures
            !p.spec_enabled(),
    {
        Preemption::new()
    }
}

/// What a timer tick decides: the running thread, if any, gives the CPU to
/// the thread the scheduler picks. Returns the context switch to perform.
pub fn timer_handler(scheduler: &mut Scheduler) -> (switch: Option<(ThreadId, ThreadId)>)
    requires
        old(scheduler).wf(),
    ensures
        final(scheduler).wf(),
        old(scheduler).current() is None ==> switch is None && *final(scheduler) == *old(scheduler),
        old(scheduler).current() is Some ==> (
            final(scheduler).table(),
            final(scheduler).queue(),
            final(scheduler).current(),
            switch,
        ) == yield_effect(old(scheduler).table(), old(scheduler).queue(), old(scheduler).current()->0),
{
    yield_thread(scheduler)
}

} // verus!
