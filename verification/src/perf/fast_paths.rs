use vstd::prelude::*;
use core::cmp::Ordering;
use crate::perf::{CpuId, PerfCounters};
use crate::observability::metrics::wrap_add;
use crate::scheduler::Scheduler;
use crate::safe_api::yield_now;
use crate::sync::yield_effect;
use crate::thread::{Thread, ThreadId, ThreadState};

verus! {

/// `n - 1` modulo the word size.
pub open spec fn wrap_dec_usize(n: usize) -> usize {
    if n == 0 {
        usize::MAX
    } else {
        (n - 1) as usize
    }
}

/// `n + 1` modulo the word size.
pub open spec fn wrap_inc_usize(n: usize) -> usize {
    if n == usize::MAX {
        0
    } else {
        (n + 1) as usize
    }
}

/// The counters after one fast-path hit.
pub open spec fn after_fast(c: PerfCounters) -> PerfCounters {
    PerfCounters { fast_path_hits: wrap_add(c.fast_path_hits, 1), ..c }
}

/// The counters after one slow-path hit.
pub open spec fn after_slow(c: PerfCounters) -> PerfCounters {
    PerfCounters { slow_path_hits: wrap_add(c.slow_path_hits, 1), ..c }
}

/// The counters after one lock-free operation.
pub open spec fn after_lockfree(c: PerfCounters) -> PerfCounters {
    PerfCounters { lockfree_operations: wrap_add(c.lockfree_operations, 1), ..c }
}

/// Short paths for frequent operations; each counts itself in `counters`.
pub struct FastPaths;

impl FastPaths {
    /// The state of `thread`.
    pub fn quick_state_check(thread: &Thread, counters: &mut PerfCounters) -> (s: ThreadState)
        ensures
            s == thread.state,
            *final(counters) == after_fast(*old(counters)),
    {
        counters.record_fast_path();
        thread.state
    }

    /// Yields the CPU; returns the context switch to perform.
    pub fn fast_yield(scheduler: &mut Scheduler, counters: &mut PerfCounters) -> (switch: Option<(ThreadId, ThreadId)>)
        requires
            old(scheduler).wf(),
        ensures
            final(scheduler).wf(),
            *final(counters) == after_fast(*old(counters)),
            old(scheduler).current() is None ==> switch is None && *final(scheduler) == *old(scheduler),
            old(scheduler).current() is Some ==> (
                final(scheduler).table(),
                final(scheduler).queue(),
                final(scheduler).current(),
                switch,
            ) == yield_effect(old(scheduler).table(), old(scheduler).queue(), old(scheduler).current()->0),
    {
        counters.record_fast_path();
        yield_now(scheduler)
    }

    /// The id of the running thread.
    pub fn fast_current_thread_id(scheduler: &Scheduler, counters: &mut PerfCounters) -> (r: Option<ThreadId>)
        requires
            scheduler.wf(),
        ensures
            r == scheduler.current(),
            *final(counters) == after_fast(*old(counters)),
    {
        counters.record_fast_path();
        scheduler.get_current_thread()
    }

    /// Takes a lock word that is 0 when free: on success it becomes 1 and
    /// the fast path counts, else the slow path counts.
    pub fn fast_mutex_try_lock(mutex_state: &mut usize, counters: &mut PerfCounters) -> (acquired: bool)
        ensures
            acquired == (*old(mutex_state) == 0),
            acquired ==> *final(mutex_state) == 1 && *final(counters) == after_fast(*old(counters)),
            !acquired ==> *final(mutex_state) == *old(mutex_state) && *final(counters) == after_slow(
                *old(counters),
            ),
    {
        if *mutex_state == 0 {
            *mutex_state = 1;
            counters.record_fast_path();
            true
        } else {
            counters.record_slow_path();
            false
        }
    }

    /// Frees a lock word.
    pub fn fast_mutex_unlock(mutex_state: &mut usize, counters: &mut PerfCounters)
        ensures
            *final(mutex_state) == 0,
            *final(counters) == after_fast(*old(counters)),
    {
        counters.record_fast_path();
        *mutex_state = 0;
    }

    /// Adds one to `counter` (wrapping) and returns its previous value.
    pub fn fast_atomic_increment(counter: &mut u64, counters: &mut PerfCounters) -> (previous: u64)
        ensures
            previous == *old(counter),
            *final(counter) == wrap_add(*old(counter), 1),
            *final(counters) == after_lockfree(*old(counters)),
    {
        counters.record_lockfree_operation();
        let previous = *counter;
        *counter = counter.wrapping_add(1);
        previous
    }

    /// Compares the priorities of two threads.
    pub fn fast_priority_compare(thread1: &Thread, thread2: &Thread, counters: &mut PerfCounters) -> (o: Ordering)
        ensures
            (o == Ordering::Less) == (thread1.priority < thread2.priority),
            (o == Ordering::Equal) == (thread1.priority == thread2.priority),
            (o == Ordering::Greater) == (thread1.priority > thread2.priority),
            *final(counters) == after_fast(*old(counters)),
    {
        counters.record_fast_path();
        if thread1.priority < thread2.priority {
            Ordering::Less
        } else if thread1.priority == thread2.priority {
            Ordering::Equal
        } else {
            Ordering::Greater
        }
    }

    /// Whether CPU `cpu_id` is in the affinity mask `affinity`.
    pub fn fast_affinity_check(affinity: u64, cpu_id: CpuId, counters: &mut PerfCounters) -> (r: bool)
        requires
            cpu_id < 64,
        ensures
            r == ((affinity >> cpu_id) & 1 == 1),
            *final(counters) == after_fast(*old(counters)),
    {
        counters.record_fast_path();
        let bit: u64 = 1u64 << cpu_id;
        let r = (affinity & bit) != 0;
        assert(((affinity & (1u64 << cpu_id)) != 0) == ((affinity >> cpu_id) & 1 == 1)) by (bit_vector)
            requires
                cpu_id < 64,
        ;
        r
    }
}

/// A reference count kept beside shared data. The counts wrap around.
pub struct OptimizedArcCounter {
    strong_count: usize,
    weak_count: usize,
}

impl OptimizedArcCounter {
    /// The number of strong references.
    pub closed spec fn strong(&self) -> usize {
        self.strong_count
    }

    /// The number of weak references.
    pub closed spec fn weak(&self) -> usize {
        self.weak_count
    }

    /// A counter for `data` with one strong and one weak reference.
    pub fn new<T>(data: T) -> (c: Self)
        ensures
            c.strong() == 1,
            c.weak() == 1,
    {
        OptimizedArcCounter { strong_count: 1, weak_count: 1 }
    }

    /// Adds a strong reference; false when the count was zero, that is when
    /// the data was being destroyed.
    pub fn fast_clone(&mut self, counters: &mut PerfCounters) -> (alive: bool)
        ensures
            alive == (old(self).strong() != 0),
            final(self).strong() == wrap_inc_usize(old(self).strong()),
            final(self).weak() == old(self).weak(),
            *final(counters) == after_fast(*old(counters)),
    {
        let old_count = self.strong_count;
        self.strong_count = self.strong_count.wrapping_add(1);
        counters.record_fast_path();
        old_count != 0
    }

    /// Drops a strong reference; true when it was the last one.
    pub fn fast_drop(&mut self, counters: &mut PerfCounters) -> (last: bool)
        ensures
            last == (old(self).strong() == 1),
            final(self).strong() == wrap_dec_usize(old(self).strong()),
            final(self).weak() == old(self).weak(),
            *final(counters) == after_fast(*old(counters)),
    {
        let old_count = self.strong_count;
        self.strong_count = self.strong_count.wrapping_sub(1);
        counters.record_fast_path();
        old_count == 1
    }

    /// The number of strong references.
    pub fn fast_count(&self, counters: &mut PerfCounters) -> (n: usize)
        ensures
            n == self.strong(),
            *final(counters) == after_fast(*old(counters)),
    {
        counters.record_fast_path();
        self.strong_count
    }
}

/// A first-in first-out queue of scheduling items.
pub struct LockFreeQueue<T> {
    items: Vec<T>,
}

impl<T> View for LockFreeQueue<T> {
    type V = Seq<T>;

    /// The queued items, oldest first.
    closed spec fn view(&self) -> Seq<T> {
        self.items@
    }
}

impl<T> LockFreeQueue<T> {
    /// An empty queue.
    pub fn new() -> (q: Self)
        ensures
            q@ == Seq::<T>::empty(),
    {
        LockFreeQueue { items: Vec::new() }
    }

    /// Appends `item`; never refused.
    pub fn fast_enqueue(&mut self, item: T, counters: &mut PerfCounters) -> (r: Result<(), T>)
        ensures
            r is Ok,
            final(self)@ == old(self)@.push(item),
            *final(counters) == after_lockfree(*old(counters)),
    {
        counters.record_lockfree_operation();
        self.items.push(item);
        Ok(())
    }

    /// Removes and returns the oldest item; an empty queue counts a fast
    /// path and gives nothing.
    pub fn fast_dequeue(&mut self, counters: &mut PerfCounters) -> (r: Option<T>)
        ensures
            old(self)@.len() == 0 ==> r is None && final(self)@ == old(self)@ && *final(counters)
                == after_fast(*old(counters)),
            old(self)@.len() > 0 ==> r == Some(old(self)@[0]) && final(self)@ == old(self)@.drop_first()
                && *final(counters) == after_lockfree(*old(counters)),
    {
        if self.items.len() == 0 {
            counters.record_fast_path();
            return None;
        }
        let item = self.items.remove(0);
        counters.record_lockfree_operation();
        assert(self.items@ == old(self)@.drop_first());
        Some(item)
    }

    /// The number of queued items.
    pub fn fast_len(&self, counters: &mut PerfCounters) -> (n: usize)
        ensures
            n == self@.len(),
            *final(counters) == after_fast(*old(counters)),
    {
        counters.record_fast_path();
        self.items.len()
    }

    /// Whether nothing is queued.
    pub fn fast_is_empty(&self, counters: &mut PerfCounters) -> (r: bool)
        ensures
            r == (self@.len() == 0),
            *final(counters) == after_fast(*old(counters)),
    {
        counters.record_fast_path();
        self.items.len() == 0
    }
}

/// Lets the CPU rest for one spin iteration.
#[verifier::external_body]
fn cpu_relax() {
    core::hint::spin_loop();
}

/// Reusable waiting patterns.
pub struct CommonPatterns;

impl CommonPatterns {
    /// Tests `condition` up to `max_spins` times, pausing between tests
    /// for 1, 2, 4, ... spin iterations (at most 64). Returns true as soon as
    /// the condition holds (counting a fast path), false when every test
    /// failed (counting a slow path).
    pub fn optimized_spin_wait<F: Fn() -> bool>(condition: F, max_spins: u32, counters: &mut PerfCounters) -> (r: bool)
        requires
            forall|| #[trigger] condition.requires(()),
        ensures
            r ==> max_spins > 0 && condition.ensures((), true) && *final(counters) == after_fast(*old(counters)),
            !r ==> *final(counters) == after_slow(*old(counters)),
            !r && max_spins > 0 ==> condition.ensures((), false),
    {
        let mut spins: u32 = 0;
        let mut backoff: u32 = 1;
        while spins < max_spins
            invariant
                spins <= max_spins,
                1 <= backoff <= 64,
                forall|| #[trigger] condition.requires(()),
                spins > 0 ==> condition.ensures((), false),
                *counters == *old(counters),
            decreases max_spins - spins,
        {
            let holds = condition();
            if holds {
                counters.record_fast_path();
                return true;
            }
            let mut k: u32 = 0;
            while k < backoff
                invariant
                    k <= backoff,
                decreases backoff - k,
            {
                cpu_relax();
                k = k + 1;
            }
            backoff = if backoff * 2 < 64 {
                backoff * 2
            } else {
                64
            };
            spins = spins + 1;
        }
        counters.record_slow_path();
        false
    }

    /// Runs `initializer` once behind the state word `flag` (0 fresh, 1
    /// being initialized, 2 done): a done word is the fast path; a fresh one
    /// is claimed, initialized and marked done; any other word counts a slow
    /// path and reports whether it is done. A word being initialized by
    /// another party would be waited for; nothing else runs here, so that
    /// state is ruled out.
    pub fn fast_double_checked_lock<T, F: FnOnce() -> T>(flag: &mut usize, initializer: F, counters: &mut PerfCounters) -> (r: bool)
        requires
            *old(flag) != 1,
            *old(flag) == 0 ==> initializer.requires(()),
        ensures
            *old(flag) == 2 ==> r && *final(flag) == 2 && *final(counters) == after_fast(*old(counters)),
            *old(flag) == 0 ==> r && *final(flag) == 2 && *final(counters) == after_slow(*old(counters)),
            *old(flag) > 2 ==> !r && *final(flag) == *old(flag) && *final(counters) == after_slow(*old(counters)),
    {
        if *flag == 2 {
            counters.record_fast_path();
            return true;
        }
        if *flag == 0 {
            *flag = 1;
            let _result = initializer();
            *flag = 2;
            counters.record_slow_path();
            true
        } else {
            counters.record_slow_path();
            *flag == 2
        }
    }

    /// Replaces the word `atomic` by `updater` applied to it, trying at most
    /// `max_retries` times: with no concurrent writer the first try
    /// succeeds and counts a lock-free operation; with no try allowed the
    /// word stays and a slow path is counted.
    pub fn bounded_cas_loop<F: Fn(usize) -> usize>(atomic: &mut usize, updater: F, max_retries: u32, counters: &mut PerfCounters) -> (r: Result<usize, usize>)
        requires
            forall|x: usize| #[trigger] updater.requires((x,)),
        ensures
            max_retries == 0 ==> r == Err::<usize, usize>(*old(atomic)) && *final(atomic) == *old(atomic)
                && *final(counters) == after_slow(*old(counters)),
            max_retries > 0 ==> r == Ok::<usize, usize>(*final(atomic)) && updater.ensures((*old(atomic),), *final(atomic))
                && *final(counters) == after_lockfree(*old(counters)),
    {
        let current = *atomic;
        if max_retries > 0 {
            let new_value = updater(current);
            *atomic = new_value;
            counters.record_lockfree_operation();
            return Ok(new_value);
        }
        counters.record_slow_path();
        Err(current)
    }
}

/// Snapshot of the fast-path counters.
#[derive(Debug, Clone, Copy)]
pub struct FastPathMetrics {
    pub fast_path_hits: u64,
    pub slow_path_hits: u64,
    pub lockfree_operations: u64,
    pub contention_events: u64,
}

impl FastPathMetrics {
    /// The counters as they are now; contention is not measured.
    pub fn current(counters: &PerfCounters) -> (m: Self)
        ensures
            m == (FastPathMetrics {
                fast_path_hits: counters.fast_path_hits,
                slow_path_hits: counters.slow_path_hits,
                lockfree_operations: counters.lockfree_operations,
                contention_events: 0,
            }),
    {
        FastPathMetrics {
            fast_path_hits: counters.fast_path_hits,
            slow_path_hits: counters.slow_path_hits,
            lockfree_operations: counters.lockfree_operations,
            contention_events: 0,
        }
    }
}

/// The queue is first in, first out: an enqueue does not change which item
/// a dequeue returns next (unless the queue was empty, when the new item
/// comes next), and the new item leaves after all those queued before it.
pub proof fn law_queue_first_in_first_out<T>(items: Seq<T>, item: T)
    ensures
        items.len() == 0 ==> items.push(item)[0] == item && items.push(item).drop_first() == items,
        items.len() > 0 ==> items.push(item)[0] == items[0] && items.push(item).drop_first()
            == items.drop_first().push(item),
{
    if items.len() > 0 {
        assert(items.push(item).drop_first() =~= items.drop_first().push(item));
    } else {
        assert(items.push(item).drop_first() =~= items);
    }
}

} // verus!
