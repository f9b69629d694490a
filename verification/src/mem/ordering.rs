use vstd::prelude::*;
use core::sync::atomic::Ordering;
use crate::mem::race_detector::RaceDetector;

verus! {

/// Whether `ordering` may be used for an atomic load.
pub open spec fn load_ordering_ok(ordering: Ordering) -> bool {
    ordering == Ordering::Relaxed || ordering == Ordering::Acquire || ordering == Ordering::SeqCst
}

/// Whether `ordering` may be used for an atomic store.
pub open spec fn store_ordering_ok(ordering: Ordering) -> bool {
    ordering == Ordering::Relaxed || ordering == Ordering::Release || ordering == Ordering::SeqCst
}

/// Relative strength of a memory ordering: Relaxed 0, Acquire and Release
/// 1, AcqRel 2, SeqCst 3.
pub open spec fn strength(ordering: Ordering) -> u8 {
    match ordering {
        Ordering::Relaxed => 0,
        Ordering::Acquire => 1,
        Ordering::Release => 1,
        Ordering::AcqRel => 2,
        _ => 3,
    }
}

/// Checks memory orderings of atomic operations.
pub struct OrderingValidator;

impl OrderingValidator {
    /// Whether `ordering` suits a load (Relaxed, Acquire or SeqCst).
    pub fn validate_load_ordering(ordering: Ordering) -> (r: bool)
        ensures
            r == load_ordering_ok(ordering),
    {
        match ordering {
            Ordering::Relaxed => true,
            Ordering::Acquire => true,
            Ordering::SeqCst => true,
            _ => false,
        }
    }

    /// Whether `ordering` suits a store (Relaxed, Release or SeqCst).
    pub fn validate_store_ordering(ordering: Ordering) -> (r: bool)
        ensures
            r == store_ordering_ok(ordering),
    {
        match ordering {
            Ordering::Relaxed => true,
            Ordering::Release => true,
            Ordering::SeqCst => true,
            _ => false,
        }
    }

    /// Whether a compare-exchange may use `success` and `failure`: the
    /// failure ordering is no stronger than the success ordering and is
    /// neither Release nor AcqRel.
    pub fn validate_cas_ordering(success: Ordering, failure: Ordering) -> (r: bool)
        ensures
            r == (strength(failure) <= strength(success) && failure != Ordering::Release
                && failure != Ordering::AcqRel),
    {
        let success_strength = Self::ordering_strength(success);
        let failure_strength = Self::ordering_strength(failure);
        let failure_release = match failure {
            Ordering::Release => true,
            Ordering::AcqRel => true,
            _ => false,
        };
        failure_strength <= success_strength && !failure_release
    }

    /// Relative strength of `ordering`.
    fn ordering_strength(ordering: Ordering) -> (r: u8)
        ensures
            r == strength(ordering),
    {
        match ordering {
            Ordering::Relaxed => 0,
            Ordering::Acquire => 1,
            Ordering::Release => 1,
            Ordering::AcqRel => 2,
            _ => 3,
        }
    }
}

impl RaceDetector {
    /// Records a memory fence with ordering `ordering`: one clock tick while
    /// counting is on.
    pub fn record_fence(&mut self, ordering: Ordering)
        ensures
            final(self).spec_enabled() == old(self).spec_enabled(),
            final(self).spec_accesses() == old(self).spec_accesses(),
            final(self).spec_races() == old(self).spec_races(),
            old(self).spec_enabled() ==> final(self).spec_clock()
                == crate::mem::race_detector::wrap_inc_u64(old(self).spec_clock()),
            !old(self).spec_enabled() ==> *final(self) == *old(self),
    {
        self.record_fence_tick();
    }
}

} // verus!
