use vstd::prelude::*;
use crate::scheduler::Scheduler;
use crate::sync::{yield_effect, yield_thread};
use crate::thread::ThreadId;

verus! {

/// Flag and counter that the timer signal handler sets; the scheduling work
/// itself happens later, at a checkpoint outside the signal context.
pub struct PreemptionState {
    pending: bool,
    count: u64,
}

impl PreemptionState {
    /// No preemption pending, none counted.
    pub fn new() -> (s: Self)
        ensures
            !s.pending(),
            s.count() == 0,
    {
        PreemptionState { pending: false, count: 0 }
    }

    /// Whether a preemption request waits for a checkpoint.
    pub closed spec fn pending(&self) -> bool {
        self.pending
    }

    /// Number of preemption requests received (modulo 2^64).
    pub closed spec fn count(&self) -> u64 {
        self.count
    }
}

/// `n + 1` modulo 2^64.
pub open spec fn next_count(n: u64) -> u64 {
    if n == u64::MAX {
        0
    } else {
        (n + 1) as u64
    }
}

/// The count after `k` more signals, starting from `n`.
pub open spec fn count_after(n: u64, k: nat) -> u64
    decreases k,
{
    if k == 0 {
        n
    } else {
        next_count(count_after(n, (k - 1) as nat))
    }
}

/// Every signal is counted: after `k` signals the preemption count has
/// grown by `k`, modulo 2^64.
pub proof fn law_every_signal_counted(n: u64, k: nat)
    ensures
        count_after(n, k) == (n + k) % 0x1_0000_0000_0000_0000,
    decreases k,
{
    if k > 0 {
        law_every_signal_counted(n, (k - 1) as nat);
    }
}

/// What the timer signal does: mark a preemption pending and count it.
pub fn signal_safe_handler(state: &mut PreemptionState, _sig: i32)
    ensures
        final(state).pending(),
        final(state).count() == next_count(old(state).count()),
{
    state.pending = true;
    state.count = state.count.wrapping_add(1);
}

/// Whether a preemption is pending.
pub fn is_preemption_pending(state: &PreemptionState) -> (r: bool)
    ensures
        r == state.pending(),
{
    state.pending
}

/// Clears the pending flag.
pub fn clear_preemption_pending(state: &mut PreemptionState)
    ensures
        !final(state).pending(),
        final(state).count() == old(state).count(),
{
    state.pending = false;
}

/// Number of preemption requests received.
pub fn get_preemption_count(state: &PreemptionState) -> (r: u64)
    ensures
        r == state.count(),
{
    state.count
}

/// Point where long-running code lets a pending preemption happen: clears the
/// flag and yields. Returns the context switch to perform, if any.
pub fn preemption_checkpoint(state: &mut PreemptionState, scheduler: &mut Scheduler) -> (switch: Option<
    (ThreadId, ThreadId),
>)
    requires
        old(scheduler).wf(),
    ensures
        final(scheduler).wf(),
        !final(state).pending(),
        final(state).count() == old(state).count(),
        !old(state).pending() ==> switch is None && *final(scheduler) == *old(scheduler),
        old(state).pending() && old(scheduler).current() is None ==> switch is None && *final(scheduler) == *old(scheduler),
        old(state).pending() && old(scheduler).current() is Some ==> (
            final(scheduler).table(),
            final(scheduler).queue(),
            final(scheduler).current(),
            switch,
        ) == yield_effect(
            old(scheduler).table(),
            old(scheduler).queue(),
            old(scheduler).current()->0,
        ),
{
    if is_preemption_pending(state) {
        clear_preemption_pending(state);
        return yield_thread(scheduler);
    }
    None
}

} // verus!
