use vstd::prelude::*;
use crate::perf::{CpuId, PerfConfig, PerfCounters};
use crate::perf::fast_paths::{after_fast, after_slow};
use crate::observability::metrics::wrap_add;
use crate::thread::{Thread, ThreadId};

verus! {

/// Scheduling counters of one CPU; they wrap around.
#[derive(Debug, Clone, Copy)]
pub struct CpuPerfStats {
    pub schedules: u64,
    pub preemptions: u64,
    pub yields: u64,
    pub idle_cycles: u64,
}

/// The number of priority levels counted per CPU; higher priorities count
/// in the last level.
pub const PRIORITY_LEVELS: usize = 11;

/// The counting level of `priority`.
pub open spec fn level_of(priority: u8) -> int {
    if priority > 10 {
        10
    } else {
        priority as int
    }
}

/// `n + d` modulo the word size.
pub open spec fn wrap_add_usize(n: usize, d: usize) -> usize {
    if n + d > usize::MAX {
        (n + d - usize::MAX - 1) as usize
    } else {
        (n + d) as usize
    }
}

/// `n - d` modulo the word size.
pub open spec fn wrap_sub_usize(n: usize, d: usize) -> usize {
    if n >= d {
        (n - d) as usize
    } else {
        (n - d + usize::MAX + 1) as usize
    }
}

/// The scheduling data of one CPU.
#[derive(Debug, Clone, Copy)]
pub struct CacheOptimizedCpuData {
    pub cpu_id: CpuId,
    pub current_thread: Option<ThreadId>,
    pub local_queue_head: usize,
    pub local_queue_tail: usize,
    pub priority_counts: [usize; 11],
    pub perf_stats: CpuPerfStats,
}

/// The length of the local queue of `d`, modulo the word size.
pub open spec fn queue_length(d: CacheOptimizedCpuData) -> usize {
    wrap_sub_usize(d.local_queue_tail, d.local_queue_head)
}

impl CacheOptimizedCpuData {
    /// CPU `cpu_id` with nothing running, an empty queue and zero counts.
    pub fn new(cpu_id: CpuId) -> (d: Self)
        ensures
            d.cpu_id == cpu_id,
            d.current_thread is None,
            d.local_queue_head == 0,
            d.local_queue_tail == 0,
            d.priority_counts@ == Seq::new(11, |i: int| 0usize),
            d.perf_stats == (CpuPerfStats { schedules: 0, preemptions: 0, yields: 0, idle_cycles: 0 }),
    {
        let d = CacheOptimizedCpuData {
            cpu_id,
            current_thread: None,
            local_queue_head: 0,
            local_queue_tail: 0,
            priority_counts: [0usize; 11],
            perf_stats: CpuPerfStats { schedules: 0, preemptions: 0, yields: 0, idle_cycles: 0 },
        };
        assert(d.priority_counts@ == Seq::new(11, |i: int| 0usize));
        d
    }

    /// The thread running on this CPU.
    pub fn get_current_thread(&self) -> (r: Option<ThreadId>)
        ensures
            r == self.current_thread,
    {
        self.current_thread
    }

    /// Makes `thread` the one running on this CPU.
    pub fn set_current_thread(&mut self, thread: Option<ThreadId>)
        ensures
            *final(self) == (CacheOptimizedCpuData { current_thread: thread, ..*old(self) }),
    {
        self.current_thread = thread;
    }

    /// Whether the local queue is empty.
    pub fn is_local_queue_empty(&self) -> (r: bool)
        ensures
            r == (self.local_queue_head == self.local_queue_tail),
    {
        self.local_queue_head == self.local_queue_tail
    }

    /// The length of the local queue.
    pub fn local_queue_length(&self) -> (n: usize)
        ensures
            n == queue_length(*self),
    {
        self.local_queue_tail.wrapping_sub(self.local_queue_head)
    }

    /// Changes the count of threads at the level of `priority` by `delta`,
    /// wrapping around.
    pub fn update_priority_count(&mut self, priority: u8, delta: isize)
        requires
            delta != isize::MIN,
        ensures
            final(self).priority_counts@ == old(self).priority_counts@.update(
                level_of(priority),
                if delta > 0 {
                    wrap_add_usize(old(self).priority_counts@[level_of(priority)], delta as usize)
                } else {
                    wrap_sub_usize(old(self).priority_counts@[level_of(priority)], (-delta) as usize)
                },
            ),
            final(self).cpu_id == old(self).cpu_id,
            final(self).current_thread == old(self).current_thread,
            final(self).local_queue_head == old(self).local_queue_head,
            final(self).local_queue_tail == old(self).local_queue_tail,
            final(self).perf_stats == old(self).perf_stats,
    {
        let idx: usize = if priority > 10 {
            10
        } else {
            priority as usize
        };
        if delta > 0 {
            self.priority_counts[idx] = self.priority_counts[idx].wrapping_add(delta as usize);
        } else {
            self.priority_counts[idx] = self.priority_counts[idx].wrapping_sub((-delta) as usize);
        }
    }

    /// The count of threads at the level of `priority`.
    pub fn get_priority_count(&self, priority: u8) -> (n: usize)
        ensures
            n == self.priority_counts@[level_of(priority)],
    {
        let idx: usize = if priority > 10 {
            10
        } else {
            priority as usize
        };
        self.priority_counts[idx]
    }

    /// Counts a scheduling decision.
    pub fn record_schedule(&mut self)
        ensures
            *final(self) == (CacheOptimizedCpuData {
                perf_stats: CpuPerfStats {
                    schedules: wrap_add(old(self).perf_stats.schedules, 1),
                    ..old(self).perf_stats
                },
                ..*old(self)
            }),
    {
        self.perf_stats.schedules = self.perf_stats.schedules.wrapping_add(1);
    }

    /// Counts a preemption.
    pub fn record_preemption(&mut self)
        ensures
            *final(self) == (CacheOptimizedCpuData {
                perf_stats: CpuPerfStats {
                    preemptions: wrap_add(old(self).perf_stats.preemptions, 1),
                    ..old(self).perf_stats
                },
                ..*old(self)
            }),
    {
        self.perf_stats.preemptions = self.perf_stats.preemptions.wrapping_add(1);
    }

    /// Counts a yield.
    pub fn record_yield(&mut self)
        ensures
            *final(self) == (CacheOptimizedCpuData {
                perf_stats: CpuPerfStats { yields: wrap_add(old(self).perf_stats.yields, 1), ..old(self).perf_stats },
                ..*old(self)
            }),
    {
        self.perf_stats.yields = self.perf_stats.yields.wrapping_add(1);
    }
}

/// Statistics of one CPU.
#[derive(Debug, Clone, Copy)]
pub struct CpuStats {
    pub cpu_id: CpuId,
    pub total_schedules: u64,
    pub total_preemptions: u64,
    pub total_yields: u64,
    pub idle_cycles: u64,
    pub local_queue_length: usize,
    pub thread_counts_by_priority: [usize; 11],
}

/// Statistics summed over all CPUs.
#[derive(Debug, Clone, Copy)]
pub struct SystemSchedulerStats {
    pub total_threads: usize,
    pub active_cpus: usize,
    pub total_schedules: u64,
    pub total_preemptions: u64,
    pub total_yields: u64,
    pub total_queue_length: usize,
}

/// The scheduling decisions summed over `cpus`.
pub open spec fn schedules_sum(cpus: Seq<CacheOptimizedCpuData>) -> nat
    decreases cpus.len(),
{
    if cpus.len() == 0 {
        0
    } else {
        schedules_sum(cpus.drop_last()) + cpus.last().perf_stats.schedules as nat
    }
}

/// The preemptions summed over `cpus`.
pub open spec fn preemptions_sum(cpus: Seq<CacheOptimizedCpuData>) -> nat
    decreases cpus.len(),
{
    if cpus.len() == 0 {
        0
    } else {
        preemptions_sum(cpus.drop_last()) + cpus.last().perf_stats.preemptions as nat
    }
}

/// The yields summed over `cpus`.
pub open spec fn yields_sum(cpus: Seq<CacheOptimizedCpuData>) -> nat
    decreases cpus.len(),
{
    if cpus.len() == 0 {
        0
    } else {
        yields_sum(cpus.drop_last()) + cpus.last().perf_stats.yields as nat
    }
}

/// The local queue lengths summed over `cpus`.
pub open spec fn queue_sum(cpus: Seq<CacheOptimizedCpuData>) -> nat
    decreases cpus.len(),
{
    if cpus.len() == 0 {
        0
    } else {
        queue_sum(cpus.drop_last()) + queue_length(cpus.last()) as nat
    }
}

proof fn lemma_sums_grow(cpus: Seq<CacheOptimizedCpuData>, i: int)
    requires
        0 <= i <= cpus.len(),
    ensures
        schedules_sum(cpus.subrange(0, i)) <= schedules_sum(cpus),
        preemptions_sum(cpus.subrange(0, i)) <= preemptions_sum(cpus),
        yields_sum(cpus.subrange(0, i)) <= yields_sum(cpus),
        queue_sum(cpus.subrange(0, i)) <= queue_sum(cpus),
    decreases cpus.len(),
{
    if cpus.len() > 0 {
        let d = cpus.drop_last();
        if i == cpus.len() {
            assert(cpus.subrange(0, i) == cpus);
        } else {
            assert(cpus.subrange(0, i) == d.subrange(0, i));
            lemma_sums_grow(d, i);
        }
    }
}

/// Per-CPU scheduling data laid out for cache locality. Local queues are
/// tracked by their counters only: no thread is ever picked from them, nor
/// stolen, nor taken from a global queue.
pub struct CacheAwareScheduler {
    cpu_data: Vec<CacheOptimizedCpuData>,
    total_threads: usize,
    active_cpus: usize,
    config: PerfConfig,
}

impl CacheAwareScheduler {
    /// The data of each CPU.
    pub closed spec fn cpus(&self) -> Seq<CacheOptimizedCpuData> {
        self.cpu_data@
    }

    /// The number of CPUs in use.
    pub closed spec fn active(&self) -> usize {
        self.active_cpus
    }

    /// The number of threads.
    pub closed spec fn threads(&self) -> usize {
        self.total_threads
    }

    /// Data for CPUs `0 .. config.cpu_count`, all in use.
    pub fn new(config: PerfConfig) -> (s: Self)
        ensures
            s.cpus().len() == config.cpu_count,
            forall|i: int|
                0 <= i < config.cpu_count ==> (#[trigger] s.cpus()[i]).cpu_id == i as u32
                    && s.cpus()[i].current_thread is None && s.cpus()[i].local_queue_head == 0
                    && s.cpus()[i].local_queue_tail == 0,
            s.active() == config.cpu_count,
            s.threads() == 0,
    {
        let mut cpu_data: Vec<CacheOptimizedCpuData> = Vec::new();
        let mut i: usize = 0;
        while i < config.cpu_count
            invariant
                i <= config.cpu_count,
                cpu_data@.len() == i,
                forall|k: int|
                    0 <= k < i ==> (#[trigger] cpu_data@[k]).cpu_id == k as u32
                        && cpu_data@[k].current_thread is None && cpu_data@[k].local_queue_head == 0
                        && cpu_data@[k].local_queue_tail == 0,
            decreases config.cpu_count - i,
        {
            cpu_data.push(CacheOptimizedCpuData::new(i as CpuId));
            i = i + 1;
        }
        CacheAwareScheduler { cpu_data, total_threads: 0, active_cpus: config.cpu_count, config }
    }

    /// The thread running on CPU `cpu_id` (fast path), or none for an
    /// unknown CPU (slow path).
    pub fn current_thread(&self, cpu_id: CpuId, counters: &mut PerfCounters) -> (r: Option<ThreadId>)
        ensures
            (cpu_id as int) < self.cpus().len() ==> r == self.cpus()[cpu_id as int].current_thread
                && *final(counters) == after_fast(*old(counters)),
            (cpu_id as int) >= self.cpus().len() ==> r is None && *final(counters) == after_slow(
                *old(counters),
            ),
    {
        let idx = cpu_id as usize;
        if idx < self.cpu_data.len() {
            counters.record_fast_path();
            self.cpu_data[idx].current_thread
        } else {
            counters.record_slow_path();
            None
        }
    }

    /// Looks for a busy neighbour of `cpu_id`, nearest first in both
    /// directions, to steal from; stealing takes nothing.
    fn try_work_stealing(&self, cpu_id: usize) -> (r: Option<ThreadId>)
        requires
            cpu_id < self.cpus().len(),
        ensures
            r is None,
    {
        let n = self.cpu_data.len();
        let mut distance: usize = 1;
        while distance < n
            invariant
                1 <= distance <= n,
                n == self.cpu_data@.len(),
                cpu_id < n,
            decreases n - distance,
        {
            let forward = if cpu_id >= n - distance {
                cpu_id - (n - distance)
            } else {
                cpu_id + distance
            };
            let backward = if cpu_id >= distance {
                cpu_id - distance
            } else {
                cpu_id + (n - distance)
            };
            if self.cpu_data[forward].local_queue_length() > 1 {
                if let Some(t) = self.steal_from_cpu(forward) {
                    return Some(t);
                }
            }
            if self.cpu_data[backward].local_queue_length() > 1 {
                if let Some(t) = self.steal_from_cpu(backward) {
                    return Some(t);
                }
            }
            distance = distance + 1;
        }
        None
    }

    /// Takes a thread from the queue of CPU `target`: the queues hold no
    /// threads to take.
    fn steal_from_cpu(&self, target: usize) -> (r: Option<ThreadId>)
        ensures
            r is None,
    {
        None
    }

    /// Picks the next thread for CPU `cpu_id`. A CPU with a non-empty local
    /// queue counts a fast path and a scheduling decision; then every
    /// source comes up empty, which counts a slow path. An unknown CPU
    /// counts a slow path only. No thread is picked.
    pub fn schedule_next(&mut self, cpu_id: CpuId, current: Option<ThreadId>, counters: &mut PerfCounters) -> (r: Option<ThreadId>)
        ensures
            r is None,
            final(self).active() == old(self).active(),
            final(self).threads() == old(self).threads(),
            final(self).cpus().len() == old(self).cpus().len(),
            (cpu_id as int) >= old(self).cpus().len() ==> final(self).cpus() == old(self).cpus()
                && *final(counters) == after_slow(*old(counters)),
            (cpu_id as int) < old(self).cpus().len() && old(self).cpus()[cpu_id as int].local_queue_head
                == old(self).cpus()[cpu_id as int].local_queue_tail ==> final(self).cpus() == old(self).cpus()
                && *final(counters) == after_slow(*old(counters)),
            (cpu_id as int) < old(self).cpus().len() && old(self).cpus()[cpu_id as int].local_queue_head
                != old(self).cpus()[cpu_id as int].local_queue_tail ==> {
                let d = old(self).cpus()[cpu_id as int];
                &&& final(self).cpus() == old(self).cpus().update(
                    cpu_id as int,
                    CacheOptimizedCpuData {
                        perf_stats: CpuPerfStats { schedules: wrap_add(d.perf_stats.schedules, 1), ..d.perf_stats },
                        ..d
                    },
                )
                &&& *final(counters) == after_slow(after_fast(*old(counters)))
            },
    {
        let idx = cpu_id as usize;
        if idx >= self.cpu_data.len() {
            counters.record_slow_path();
            return None;
        }
        if !self.cpu_data[idx].is_local_queue_empty() {
            counters.record_fast_path();
            self.cpu_data[idx].record_schedule();
        }
        let stolen = self.try_work_stealing(idx);
        if let Some(t) = stolen {
            counters.record_fast_path();
            self.cpu_data[idx].set_current_thread(Some(t));
            return Some(t);
        }
        counters.record_slow_path();
        None
    }

    /// Queues `thread` on CPU `cpu_id`: counts it at its priority and
    /// advances the queue's tail. An unknown CPU gives the thread back.
    pub fn add_to_local_queue(&mut self, cpu_id: CpuId, thread: Thread) -> (r: Result<(), Thread>)
        ensures
            (cpu_id as int) >= old(self).cpus().len() ==> r == Err::<(), Thread>(thread) && final(self).cpus()
                == old(self).cpus(),
            (cpu_id as int) < old(self).cpus().len() ==> {
                let d = old(self).cpus()[cpu_id as int];
                &&& r is Ok
                &&& final(self).cpus().len() == old(self).cpus().len()
                &&& forall|i: int|
                    0 <= i < old(self).cpus().len() && i != cpu_id ==> #[trigger] final(self).cpus()[i]
                        == old(self).cpus()[i]
                &&& final(self).cpus()[cpu_id as int].local_queue_tail == wrap_add_usize(d.local_queue_tail, 1)
                &&& final(self).cpus()[cpu_id as int].priority_counts@ == d.priority_counts@.update(
                    level_of(thread.priority),
                    wrap_add_usize(d.priority_counts@[level_of(thread.priority)], 1),
                )
            },
            final(self).active() == old(self).active(),
            final(self).threads() == old(self).threads(),
    {
        let idx = cpu_id as usize;
        if idx < self.cpu_data.len() {
            self.cpu_data[idx].update_priority_count(thread.priority, 1);
            self.cpu_data[idx].local_queue_tail = self.cpu_data[idx].local_queue_tail.wrapping_add(1);
            Ok(())
        } else {
            Err(thread)
        }
    }

    /// Takes `thread` off the count of CPU `cpu_id`; false for an unknown
    /// CPU.
    pub fn remove_from_local_queue(&mut self, cpu_id: CpuId, thread: &Thread) -> (r: bool)
        ensures
            r == ((cpu_id as int) < old(self).cpus().len()),
            !r ==> final(self).cpus() == old(self).cpus(),
            r ==> {
                let d = old(self).cpus()[cpu_id as int];
                &&& final(self).cpus().len() == old(self).cpus().len()
                &&& forall|i: int|
                    0 <= i < old(self).cpus().len() && i != cpu_id ==> #[trigger] final(self).cpus()[i]
                        == old(self).cpus()[i]
                &&& final(self).cpus()[cpu_id as int].local_queue_tail == d.local_queue_tail
                &&& final(self).cpus()[cpu_id as int].priority_counts@ == d.priority_counts@.update(
                    level_of(thread.priority),
                    wrap_sub_usize(d.priority_counts@[level_of(thread.priority)], 1),
                )
            },
            final(self).active() == old(self).active(),
            final(self).threads() == old(self).threads(),
    {
        let idx = cpu_id as usize;
        if idx < self.cpu_data.len() {
            self.cpu_data[idx].update_priority_count(thread.priority, -1);
            true
        } else {
            false
        }
    }

    /// The statistics of CPU `cpu_id`, none for an unknown CPU.
    pub fn get_cpu_stats(&self, cpu_id: CpuId) -> (r: Option<CpuStats>)
        ensures
            (cpu_id as int) >= self.cpus().len() ==> r is None,
            (cpu_id as int) < self.cpus().len() ==> {
                let d = self.cpus()[cpu_id as int];
                r == Some(
                    CpuStats {
                        cpu_id,
                        total_schedules: d.perf_stats.schedules,
                        total_preemptions: d.perf_stats.preemptions,
                        total_yields: d.perf_stats.yields,
                        idle_cycles: d.perf_stats.idle_cycles,
                        local_queue_length: queue_length(d),
                        thread_counts_by_priority: d.priority_counts,
                    },
                )
            },
    {
        let idx = cpu_id as usize;
        if idx < self.cpu_data.len() {
            let d = self.cpu_data[idx];
            Some(
                CpuStats {
                    cpu_id,
                    total_schedules: d.perf_stats.schedules,
                    total_preemptions: d.perf_stats.preemptions,
                    total_yields: d.perf_stats.yields,
                    idle_cycles: d.perf_stats.idle_cycles,
                    local_queue_length: d.local_queue_length(),
                    thread_counts_by_priority: d.priority_counts,
                },
            )
        } else {
            None
        }
    }

    /// The statistics summed over all CPUs.
    pub fn get_system_stats(&self) -> (s: SystemSchedulerStats)
        requires
            schedules_sum(self.cpus()) <= u64::MAX,
            preemptions_sum(self.cpus()) <= u64::MAX,
            yields_sum(self.cpus()) <= u64::MAX,
            queue_sum(self.cpus()) <= usize::MAX,
        ensures
            s.total_threads == self.threads(),
            s.active_cpus == self.active(),
            s.total_schedules == schedules_sum(self.cpus()),
            s.total_preemptions == preemptions_sum(self.cpus()),
            s.total_yields == yields_sum(self.cpus()),
            s.total_queue_length == queue_sum(self.cpus()),
    {
        let ghost cpus = self.cpu_data@;
        let mut schedules: u64 = 0;
        let mut preemptions: u64 = 0;
        let mut yields: u64 = 0;
        let mut queue: usize = 0;
        let mut i: usize = 0;
        while i < self.cpu_data.len()
            invariant
                i <= self.cpu_data@.len(),
                cpus == self.cpu_data@,
                schedules_sum(cpus) <= u64::MAX,
                preemptions_sum(cpus) <= u64::MAX,
                yields_sum(cpus) <= u64::MAX,
                queue_sum(cpus) <= usize::MAX,
                schedules == schedules_sum(cpus.subrange(0, i as int)),
                preemptions == preemptions_sum(cpus.subrange(0, i as int)),
                yields == yields_sum(cpus.subrange(0, i as int)),
                queue == queue_sum(cpus.subrange(0, i as int)),
            decreases self.cpu_data@.len() - i,
        {
            proof {
                assert(cpus.subrange(0, i + 1).drop_last() == cpus.subrange(0, i as int));
                lemma_sums_grow(cpus, i + 1);
            }
            let d = self.cpu_data[i];
            schedules = schedules + d.perf_stats.schedules;
            preemptions = preemptions + d.perf_stats.preemptions;
            yields = yields + d.perf_stats.yields;
            queue = queue + d.local_queue_length();
            i = i + 1;
        }
        proof {
            assert(cpus.subrange(0, cpus.len() as int) == cpus);
        }
        SystemSchedulerStats {
            total_threads: self.total_threads,
            active_cpus: self.active_cpus,
            total_schedules: schedules,
            total_preemptions: preemptions,
            total_yields: yields,
            total_queue_length: queue,
        }
    }
}

} // verus!
