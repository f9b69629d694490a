use vstd::prelude::*;
use std::collections::BTreeMap;
use crate::thread::ThreadId;

verus! {

broadcast use {vstd::std_specs::btree::group_btree_axioms, vstd::laws_cmp::group_laws_cmp};

/// Counters of one thread. Times are nanoseconds on the monotonic clock.
#[derive(Debug, Clone, Copy)]
pub struct ThreadMetrics {
    pub thread_id: ThreadId,
    pub cpu_time_ns: u64,
    pub context_switches: u64,
    pub voluntary_yields: u64,
    pub involuntary_preemptions: u64,
    pub peak_stack_usage: usize,
    pub current_stack_usage: usize,
    pub page_faults: u64,
    pub user_time_ns: u64,
    pub kernel_time_ns: u64,
    pub created_at: u64,
    pub last_active: u64,
    pub priority_changes: u32,
    pub memory_allocations: u64,
    pub memory_deallocations: u64,
    pub total_memory_allocated: u64,
    pub current_memory_usage: u64,
}

/// Fresh counters of thread `thread_id` created at time `now`.
pub open spec fn fresh_metrics(thread_id: ThreadId, now: u64) -> ThreadMetrics {
    ThreadMetrics {
        thread_id,
        cpu_time_ns: 0,
        context_switches: 0,
        voluntary_yields: 0,
        involuntary_preemptions: 0,
        peak_stack_usage: 0,
        current_stack_usage: 0,
        page_faults: 0,
        user_time_ns: 0,
        kernel_time_ns: 0,
        created_at: now,
        last_active: now,
        priority_changes: 0,
        memory_allocations: 0,
        memory_deallocations: 0,
        total_memory_allocated: 0,
        current_memory_usage: 0,
    }
}

/// Adding `d` nanoseconds of CPU time to `m` overflows no counter.
pub open spec fn cpu_time_fits(m: ThreadMetrics, d: u64, user_mode: bool) -> bool {
    &&& m.cpu_time_ns + d <= u64::MAX
    &&& user_mode ==> m.user_time_ns + d <= u64::MAX
    &&& !user_mode ==> m.kernel_time_ns + d <= u64::MAX
}

/// `m` after `d` nanoseconds of CPU time in user or kernel mode, at `now`.
pub open spec fn with_cpu_time(m: ThreadMetrics, d: u64, user_mode: bool, now: u64) -> ThreadMetrics {
    ThreadMetrics {
        cpu_time_ns: (m.cpu_time_ns + d) as u64,
        user_time_ns: if user_mode {
            (m.user_time_ns + d) as u64
        } else {
            m.user_time_ns
        },
        kernel_time_ns: if user_mode {
            m.kernel_time_ns
        } else {
            (m.kernel_time_ns + d) as u64
        },
        last_active: now,
        ..m
    }
}

/// Recording a context switch overflows no counter.
pub open spec fn switch_fits(m: ThreadMetrics, voluntary: bool) -> bool {
    &&& m.context_switches < u64::MAX
    &&& voluntary ==> m.voluntary_yields < u64::MAX
    &&& !voluntary ==> m.involuntary_preemptions < u64::MAX
}

/// `m` after a voluntary or involuntary context switch at `now`.
pub open spec fn with_switch(m: ThreadMetrics, voluntary: bool, now: u64) -> ThreadMetrics {
    ThreadMetrics {
        context_switches: (m.context_switches + 1) as u64,
        voluntary_yields: if voluntary {
            (m.voluntary_yields + 1) as u64
        } else {
            m.voluntary_yields
        },
        involuntary_preemptions: if voluntary {
            m.involuntary_preemptions
        } else {
            (m.involuntary_preemptions + 1) as u64
        },
        last_active: now,
        ..m
    }
}

/// `m` after a stack-usage sample of `usage` bytes.
pub open spec fn with_stack_usage(m: ThreadMetrics, usage: usize) -> ThreadMetrics {
    ThreadMetrics {
        current_stack_usage: usage,
        peak_stack_usage: if usage > m.peak_stack_usage {
            usage
        } else {
            m.peak_stack_usage
        },
        ..m
    }
}

impl ThreadMetrics {
    /// Fresh counters of `thread_id`, created at time `now`.
    pub fn new(thread_id: ThreadId, now: u64) -> (m: Self)
        ensures
            m == fresh_metrics(thread_id, now),
    {
        ThreadMetrics {
            thread_id,
            cpu_time_ns: 0,
            context_switches: 0,
            voluntary_yields: 0,
            involuntary_preemptions: 0,
            peak_stack_usage: 0,
            current_stack_usage: 0,
            page_faults: 0,
            user_time_ns: 0,
            kernel_time_ns: 0,
            created_at: now,
            last_active: now,
            priority_changes: 0,
            memory_allocations: 0,
            memory_deallocations: 0,
            total_memory_allocated: 0,
            current_memory_usage: 0,
        }
    }

    /// Adds `duration_ns` of CPU time, to user or kernel time as
    /// `is_user_mode` says, and marks the thread active at `now`.
    pub fn add_cpu_time(&mut self, duration_ns: u64, is_user_mode: bool, now: u64)
        requires
            cpu_time_fits(*old(self), duration_ns, is_user_mode),
        ensures
            *final(self) == with_cpu_time(*old(self), duration_ns, is_user_mode, now),
    {
        if is_user_mode {
            self.user_time_ns = self.user_time_ns + duration_ns;
        } else {
            self.kernel_time_ns = self.kernel_time_ns + duration_ns;
        }
        self.cpu_time_ns = self.cpu_time_ns + duration_ns;
        self.last_active = now;
    }

    /// Counts a context switch, as a yield when `voluntary` and as a
    /// preemption otherwise, and marks the thread active at `now`.
    pub fn record_context_switch(&mut self, voluntary: bool, now: u64)
        requires
            switch_fits(*old(self), voluntary),
        ensures
            *final(self) == with_switch(*old(self), voluntary, now),
    {
        self.context_switches = self.context_switches + 1;
        if voluntary {
            self.voluntary_yields = self.voluntary_yields + 1;
        } else {
            self.involuntary_preemptions = self.involuntary_preemptions + 1;
        }
        self.last_active = now;
    }

    /// Records the current stack usage and raises the peak to it.
    pub fn update_stack_usage(&mut self, current_usage: usize)
        ensures
            *final(self) == with_stack_usage(*old(self), current_usage),
    {
        self.current_stack_usage = current_usage;
        if current_usage > self.peak_stack_usage {
            self.peak_stack_usage = current_usage;
        }
    }

    /// Counts an allocation of `size` bytes.
    pub fn record_allocation(&mut self, size: u64)
        requires
            old(self).memory_allocations < u64::MAX,
            old(self).total_memory_allocated + size <= u64::MAX,
            old(self).current_memory_usage + size <= u64::MAX,
        ensures
            *final(self) == (ThreadMetrics {
                memory_allocations: (old(self).memory_allocations + 1) as u64,
                total_memory_allocated: (old(self).total_memory_allocated + size) as u64,
                current_memory_usage: (old(self).current_memory_usage + size) as u64,
                ..*old(self)
            }),
    {
        self.memory_allocations = self.memory_allocations + 1;
        self.total_memory_allocated = self.total_memory_allocated + size;
        self.current_memory_usage = self.current_memory_usage + size;
    }

    /// Counts a deallocation of `size` bytes; the current usage drops by
    /// `size` unless that would go below zero.
    pub fn record_deallocation(&mut self, size: u64)
        requires
            old(self).memory_deallocations < u64::MAX,
        ensures
            *final(self) == (ThreadMetrics {
                memory_deallocations: (old(self).memory_deallocations + 1) as u64,
                current_memory_usage: if old(self).current_memory_usage >= size {
                    (old(self).current_memory_usage - size) as u64
                } else {
                    old(self).current_memory_usage
                },
                ..*old(self)
            }),
    {
        self.memory_deallocations = self.memory_deallocations + 1;
        if self.current_memory_usage >= size {
            self.current_memory_usage = self.current_memory_usage - size;
        }
    }
}

/// `n + d` modulo 2^64.
pub open spec fn wrap_add(n: u64, d: u64) -> u64 {
    if n + d > u64::MAX {
        (n + d - u64::MAX - 1) as u64
    } else {
        (n + d) as u64
    }
}

/// `n - 1` modulo 2^64.
pub open spec fn wrap_dec(n: u64) -> u64 {
    if n == 0 {
        u64::MAX
    } else {
        (n - 1) as u64
    }
}

/// System-wide counters; they wrap around on overflow.
#[derive(Debug, Clone, Copy)]
pub struct SystemMetrics {
    pub threads_created: u64,
    pub threads_destroyed: u64,
    pub active_threads: u64,
    pub total_context_switches: u64,
    pub total_cpu_time_ns: u64,
    pub system_uptime_ns: u64,
    pub timer_interrupts: u64,
    pub scheduler_decisions: u64,
    pub load_balance_ops: u64,
    pub pool_allocations: u64,
    pub pool_deallocations: u64,
    pub stack_overflows: u64,
    pub priority_inversions: u64,
    pub deadlocks_detected: u64,
    pub peak_memory_usage: u64,
    pub current_memory_usage: u64,
}

/// The system counters at one time, with the time elapsed since the start;
/// utilization and switch rates are derived from these.
#[derive(Debug, Clone, Copy, PartialEq, Eq, Structural)]
pub struct SystemMetricsSnapshot {
    pub threads_created: u64,
    pub threads_destroyed: u64,
    pub active_threads: u64,
    pub total_context_switches: u64,
    pub total_cpu_time_ns: u64,
    pub uptime_ns: u64,
    pub current_memory_usage: u64,
    pub peak_memory_usage: u64,
}

/// A snapshot of the system counters and the counters of each thread, taken
/// at `timestamp`.
#[derive(Debug, Clone)]
pub struct MetricsReport {
    pub system: SystemMetricsSnapshot,
    pub threads: Vec<ThreadMetrics>,
    pub timestamp: u64,
}

/// All system counters zero.
pub open spec fn zero_system_metrics() -> SystemMetrics {
    SystemMetrics {
        threads_created: 0,
        threads_destroyed: 0,
        active_threads: 0,
        total_context_switches: 0,
        total_cpu_time_ns: 0,
        system_uptime_ns: 0,
        timer_interrupts: 0,
        scheduler_decisions: 0,
        load_balance_ops: 0,
        pool_allocations: 0,
        pool_deallocations: 0,
        stack_overflows: 0,
        priority_inversions: 0,
        deadlocks_detected: 0,
        peak_memory_usage: 0,
        current_memory_usage: 0,
    }
}

impl SystemMetrics {
    /// All counters zero.
    pub fn new() -> (m: Self)
        ensures
            m == zero_system_metrics(),
    {
        SystemMetrics {
            threads_created: 0,
            threads_destroyed: 0,
            active_threads: 0,
            total_context_switches: 0,
            total_cpu_time_ns: 0,
            system_uptime_ns: 0,
            timer_interrupts: 0,
            scheduler_decisions: 0,
            load_balance_ops: 0,
            pool_allocations: 0,
            pool_deallocations: 0,
            stack_overflows: 0,
            priority_inversions: 0,
            deadlocks_detected: 0,
            peak_memory_usage: 0,
            current_memory_usage: 0,
        }
    }

    /// Records the start of collection at time `now`.
    pub fn init(&mut self, now: u64)
        ensures
            *final(self) == (SystemMetrics { system_uptime_ns: now, ..*old(self) }),
    {
        self.system_uptime_ns = now;
    }

    /// Counts a created, now active, thread.
    pub fn record_thread_created(&mut self)
        ensures
            *final(self) == (SystemMetrics {
                threads_created: wrap_add(old(self).threads_created, 1),
                active_threads: wrap_add(old(self).active_threads, 1),
                ..*old(self)
            }),
    {
        self.threads_created = self.threads_created.wrapping_add(1);
        self.active_threads = self.active_threads.wrapping_add(1);
    }

    /// Counts a destroyed thread, no longer active.
    pub fn record_thread_destroyed(&mut self)
        ensures
            *final(self) == (SystemMetrics {
                threads_destroyed: wrap_add(old(self).threads_destroyed, 1),
                active_threads: wrap_dec(old(self).active_threads),
                ..*old(self)
            }),
    {
        self.threads_destroyed = self.threads_destroyed.wrapping_add(1);
        self.active_threads = self.active_threads.wrapping_sub(1);
    }

    /// Counts a context switch.
    pub fn record_context_switch(&mut self)
        ensures
            *final(self) == (SystemMetrics {
                total_context_switches: wrap_add(old(self).total_context_switches, 1),
                ..*old(self)
            }),
    {
        self.total_context_switches = self.total_context_switches.wrapping_add(1);
    }

    /// Adds `duration_ns` of CPU time to the total.
    pub fn add_cpu_time(&mut self, duration_ns: u64)
        ensures
            *final(self) == (SystemMetrics {
                total_cpu_time_ns: wrap_add(old(self).total_cpu_time_ns, duration_ns),
                ..*old(self)
            }),
    {
        self.total_cpu_time_ns = self.total_cpu_time_ns.wrapping_add(duration_ns);
    }

    /// Counts a timer interrupt.
    pub fn record_timer_interrupt(&mut self)
        ensures
            *final(self) == (SystemMetrics {
                timer_interrupts: wrap_add(old(self).timer_interrupts, 1),
                ..*old(self)
            }),
    {
        self.timer_interrupts = self.timer_interrupts.wrapping_add(1);
    }

    /// Counts a scheduler decision.
    pub fn record_scheduler_decision(&mut self)
        ensures
            *final(self) == (SystemMetrics {
                scheduler_decisions: wrap_add(old(self).scheduler_decisions, 1),
                ..*old(self)
            }),
    {
        self.scheduler_decisions = self.scheduler_decisions.wrapping_add(1);
    }

    /// Sets the current memory usage and raises the peak to it.
    pub fn update_memory_usage(&mut self, new_usage: u64)
        ensures
            *final(self) == (SystemMetrics {
                current_memory_usage: new_usage,
                peak_memory_usage: if new_usage > old(self).peak_memory_usage {
                    new_usage
                } else {
                    old(self).peak_memory_usage
                },
                ..*old(self)
            }),
    {
        self.current_memory_usage = new_usage;
        if new_usage > self.peak_memory_usage {
            self.peak_memory_usage = new_usage;
        }
    }
}

/// Aggregates system counters and the counters of each registered thread.
pub struct MetricsCollector {
    system_metrics: SystemMetrics,
    thread_metrics: BTreeMap<ThreadId, ThreadMetrics>,
    enabled: bool,
    collection_interval_ms: u32,
}

impl MetricsCollector {
    /// The system counters.
    pub closed spec fn system(&self) -> SystemMetrics {
        self.system_metrics
    }

    /// The counters of each registered thread.
    pub closed spec fn threads(&self) -> Map<ThreadId, ThreadMetrics> {
        self.thread_metrics@
    }

    /// Whether collection is on.
    pub closed spec fn spec_enabled(&self) -> bool {
        self.enabled
    }

    /// The collection interval, in milliseconds.
    pub closed spec fn interval_ms(&self) -> u32 {
        self.collection_interval_ms
    }

    /// A disabled collector with zero counters, no thread and a one-second
    /// interval.
    pub fn new() -> (c: Self)
        ensures
            c.system() == zero_system_metrics(),
            c.threads() == Map::<ThreadId, ThreadMetrics>::empty(),
            !c.spec_enabled(),
            c.interval_ms() == 1000,
    {
        MetricsCollector {
            system_metrics: SystemMetrics::new(),
            thread_metrics: BTreeMap::new(),
            enabled: false,
            collection_interval_ms: 1000,
        }
    }

    /// Starts collection at time `now` with the given interval.
    pub fn init(&mut self, interval_ms: u32, now: u64) -> (r: Result<(), &'static str>)
        ensures
            r is Ok,
            final(self).spec_enabled(),
            final(self).interval_ms() == interval_ms,
            final(self).system() == (SystemMetrics { system_uptime_ns: now, ..old(self).system() }),
            final(self).threads() == old(self).threads(),
    {
        self.system_metrics.init(now);
        self.collection_interval_ms = interval_ms;
        self.enabled = true;
        Ok(())
    }

    /// Whether collection is on.
    pub fn is_enabled(&self) -> (r: bool)
        ensures
            r == self.spec_enabled(),
    {
        self.enabled
    }

    /// Starts tracking `thread_id` (fresh counters, created at `now`) and
    /// counts it as created; nothing happens while collection is off.
    pub fn register_thread(&mut self, thread_id: ThreadId, now: u64)
        ensures
            final(self).spec_enabled() == old(self).spec_enabled(),
            final(self).interval_ms() == old(self).interval_ms(),
            !old(self).spec_enabled() ==> final(self).threads() == old(self).threads()
                && final(self).system() == old(self).system(),
            old(self).spec_enabled() ==> final(self).threads() == old(self).threads().insert(
                thread_id,
                fresh_metrics(thread_id, now),
            ) && final(self).system() == (SystemMetrics {
                threads_created: wrap_add(old(self).system().threads_created, 1),
                active_threads: wrap_add(old(self).system().active_threads, 1),
                ..old(self).system()
            }),
    {
        if !self.enabled {
            return;
        }
        self.thread_metrics.insert(thread_id, ThreadMetrics::new(thread_id, now));
        self.system_metrics.record_thread_created();
    }

    /// Stops tracking `thread_id` and counts it as destroyed; nothing
    /// happens while collection is off.
    pub fn unregister_thread(&mut self, thread_id: ThreadId)
        ensures
            final(self).spec_enabled() == old(self).spec_enabled(),
            final(self).interval_ms() == old(self).interval_ms(),
            !old(self).spec_enabled() ==> final(self).threads() == old(self).threads()
                && final(self).system() == old(self).system(),
            old(self).spec_enabled() ==> final(self).threads() == old(self).threads().remove(
                thread_id,
            ) && final(self).system() == (SystemMetrics {
                threads_destroyed: wrap_add(old(self).system().threads_destroyed, 1),
                active_threads: wrap_dec(old(self).system().active_threads),
                ..old(self).system()
            }),
    {
        if !self.enabled {
            return;
        }
        self.thread_metrics.remove(&thread_id);
        self.system_metrics.record_thread_destroyed();
    }

    /// Adds `duration_ns` of CPU time to `thread_id`'s counters (when it is
    /// tracked) and to the system total; nothing happens while collection
    /// is off.
    pub fn record_cpu_time(&mut self, thread_id: ThreadId, duration_ns: u64, user_mode: bool, now: u64)
        requires
            old(self).spec_enabled() && old(self).threads().contains_key(thread_id) ==> cpu_time_fits(
                old(self).threads()[thread_id],
                duration_ns,
                user_mode,
            ),
        ensures
            final(self).spec_enabled() == old(self).spec_enabled(),
            final(self).interval_ms() == old(self).interval_ms(),
            !old(self).spec_enabled() ==> final(self).threads() == old(self).threads()
                && final(self).system() == old(self).system(),
            old(self).spec_enabled() ==> final(self).system() == (SystemMetrics {
                total_cpu_time_ns: wrap_add(old(self).system().total_cpu_time_ns, duration_ns),
                ..old(self).system()
            }),
            old(self).spec_enabled() && old(self).threads().contains_key(thread_id) ==> final(self).threads() == old(self).threads().insert(
                thread_id,
                with_cpu_time(old(self).threads()[thread_id], duration_ns, user_mode, now),
            ),
            old(self).spec_enabled() && !old(self).threads().contains_key(thread_id) ==> final(self).threads() == old(self).threads(),
    {
        if !self.enabled {
            return;
        }
        let entry = self.thread_metrics.get(&thread_id);
        if let Some(m) = entry {
            let mut updated = *m;
            updated.add_cpu_time(duration_ns, user_mode, now);
            self.thread_metrics.insert(thread_id, updated);
        }
        self.system_metrics.add_cpu_time(duration_ns);
    }

    /// Counts a context switch of `thread_id` (when it is tracked) and of
    /// the system; nothing happens while collection is off.
    pub fn record_context_switch(&mut self, thread_id: ThreadId, voluntary: bool, now: u64)
        requires
            old(self).spec_enabled() && old(self).threads().contains_key(thread_id) ==> switch_fits(
                old(self).threads()[thread_id],
                voluntary,
            ),
        ensures
            final(self).spec_enabled() == old(self).spec_enabled(),
            final(self).interval_ms() == old(self).interval_ms(),
            !old(self).spec_enabled() ==> final(self).threads() == old(self).threads()
                && final(self).system() == old(self).system(),
            old(self).spec_enabled() ==> final(self).system() == (SystemMetrics {
                total_context_switches: wrap_add(old(self).system().total_context_switches, 1),
                ..old(self).system()
            }),
            old(self).spec_enabled() && old(self).threads().contains_key(thread_id) ==> final(self).threads() == old(self).threads().insert(
                thread_id,
                with_switch(old(self).threads()[thread_id], voluntary, now),
            ),
            old(self).spec_enabled() && !old(self).threads().contains_key(thread_id) ==> final(self).threads() == old(self).threads(),
    {
        if !self.enabled {
            return;
        }
        let entry = self.thread_metrics.get(&thread_id);
        if let Some(m) = entry {
            let mut updated = *m;
            updated.record_context_switch(voluntary, now);
            self.thread_metrics.insert(thread_id, updated);
        }
        self.system_metrics.record_context_switch();
    }

    /// Records a stack-usage sample of `thread_id` (when it is tracked);
    /// nothing happens while collection is off.
    pub fn update_stack_usage(&mut self, thread_id: ThreadId, usage: usize)
        ensures
            final(self).spec_enabled() == old(self).spec_enabled(),
            final(self).interval_ms() == old(self).interval_ms(),
            final(self).system() == old(self).system(),
            old(self).spec_enabled() && old(self).threads().contains_key(thread_id) ==> final(self).threads() == old(self).threads().insert(
                thread_id,
                with_stack_usage(old(self).threads()[thread_id], usage),
            ),
            !(old(self).spec_enabled() && old(self).threads().contains_key(thread_id)) ==> final(self).threads() == old(self).threads(),
    {
        if !self.enabled {
            return;
        }
        let entry = self.thread_metrics.get(&thread_id);
        if let Some(m) = entry {
            let mut updated = *m;
            updated.update_stack_usage(usage);
            self.thread_metrics.insert(thread_id, updated);
        }
    }

    /// The counters of `thread_id`, when it is tracked.
    pub fn get_thread_metrics(&self, thread_id: ThreadId) -> (r: Option<ThreadMetrics>)
        ensures
            self.threads().contains_key(thread_id) ==> r == Some(self.threads()[thread_id]),
            !self.threads().contains_key(thread_id) ==> r is None,
    {
        match self.thread_metrics.get(&thread_id) {
            Some(m) => Some(*m),
            None => None,
        }
    }

    /// The counters of every tracked thread, in increasing order of thread
    /// id.
    pub fn get_all_thread_metrics(&self) -> (r: Vec<ThreadMetrics>)
        ensures
            exists|keys: Seq<ThreadId>|
                {
                    &&& keys.to_set() == self.threads().dom()
                    &&& keys.no_duplicates()
                    &&& forall|i: int, j: int| 0 <= i < j < keys.len() ==> keys[i] < keys[j]
                    &&& r@ == keys.map_values(|k: ThreadId| self.threads()[k])
                },
    {
        let values = self.thread_metrics.values();
        let ghost keys: Seq<ThreadId> = choose|key_seq: Seq<ThreadId>|
            {
                &&& vstd::std_specs::btree::increasing_seq(key_seq)
                &&& key_seq.to_set() == self.thread_metrics@.dom()
                &&& key_seq.no_duplicates()
                &&& vstd::std_specs::iter::IteratorSpec::remaining(&values) == key_seq.map(|i: int, k| &self.thread_metrics@[k])
            };
        let mut r: Vec<ThreadMetrics> = Vec::new();
        for m in it: values
            invariant
                r@.len() == it.index(),
                forall|i: int| 0 <= i < r@.len() ==> r@[i] == *it.seq()[i],
        {
            r.push(*m);
        }
        proof {
            assert(r@ =~= keys.map_values(|k: ThreadId| self.threads()[k]));
            assert(vstd::laws_cmp::obeys_cmp::<usize>());
            assert forall|i: int, j: int| 0 <= i < j < keys.len() implies keys[i] < keys[j] by {
                assert(vstd::std_specs::cmp::OrdSpec::cmp_spec(&keys[i], &keys[j]) is Less);
            }
        }
        r
    }

    /// A report at time `now`: a snapshot of the system counters (with the
    /// uptime up to `now`) and the counters of every tracked thread, in
    /// increasing order of thread id.
    pub fn generate_report(&self, now: u64) -> (r: MetricsReport)
        ensures
            r.system == (SystemMetricsSnapshot {
                threads_created: self.system().threads_created,
                threads_destroyed: self.system().threads_destroyed,
                active_threads: self.system().active_threads,
                total_context_switches: self.system().total_context_switches,
                total_cpu_time_ns: self.system().total_cpu_time_ns,
                uptime_ns: if now > self.system().system_uptime_ns {
                    (now - self.system().system_uptime_ns) as u64
                } else {
                    0
                },
                current_memory_usage: self.system().current_memory_usage,
                peak_memory_usage: self.system().peak_memory_usage,
            }),
            r.timestamp == now,
            exists|keys: Seq<ThreadId>|
                {
                    &&& keys.to_set() == self.threads().dom()
                    &&& keys.no_duplicates()
                    &&& forall|i: int, j: int| 0 <= i < j < keys.len() ==> keys[i] < keys[j]
                    &&& r.threads@ == keys.map_values(|k: ThreadId| self.threads()[k])
                },
    {
        let m = &self.system_metrics;
        let uptime_ns = if now > m.system_uptime_ns {
            now - m.system_uptime_ns
        } else {
            0
        };
        let system = SystemMetricsSnapshot {
            threads_created: m.threads_created,
            threads_destroyed: m.threads_destroyed,
            active_threads: m.active_threads,
            total_context_switches: m.total_context_switches,
            total_cpu_time_ns: m.total_cpu_time_ns,
            uptime_ns,
            current_memory_usage: m.current_memory_usage,
            peak_memory_usage: m.peak_memory_usage,
        };
        MetricsReport { system, threads: self.get_all_thread_metrics(), timestamp: now }
    }

    /// The system counters.
    pub fn get_system_metrics(&self) -> (r: &SystemMetrics)
        ensures
            *r == self.system(),
    {
        &self.system_metrics
    }

    /// Forgets all threads and zeroes the counters, keeping the start time.
    pub fn reset_metrics(&mut self)
        ensures
            final(self).spec_enabled() == old(self).spec_enabled(),
            final(self).interval_ms() == old(self).interval_ms(),
            final(self).threads() == Map::<ThreadId, ThreadMetrics>::empty(),
            final(self).system() == (SystemMetrics {
                threads_created: 0,
                threads_destroyed: 0,
                active_threads: 0,
                total_context_switches: 0,
                total_cpu_time_ns: 0,
                timer_interrupts: 0,
                scheduler_decisions: 0,
                ..old(self).system()
            }),
    {
        self.thread_metrics.clear();
        self.system_metrics.threads_created = 0;
        self.system_metrics.threads_destroyed = 0;
        self.system_metrics.active_threads = 0;
        self.system_metrics.total_context_switches = 0;
        self.system_metrics.total_cpu_time_ns = 0;
        self.system_metrics.timer_interrupts = 0;
        self.system_metrics.scheduler_decisions = 0;
    }

    /// Stops collection.
    pub fn disable(&mut self)
        ensures
            !final(self).spec_enabled(),
            final(self).threads() == old(self).threads(),
            final(self).system() == old(self).system(),
            final(self).interval_ms() == old(self).interval_ms(),
    {
        self.enabled = false;
    }
}

/// Starts `collector` with interval `interval_ms` at time `now`.
pub fn init_metrics_collector(collector: &mut MetricsCollector, interval_ms: u32, now: u64) -> (r: Result<(), &'static str>)
    ensures
        r is Ok,
        final(collector).spec_enabled(),
        final(collector).interval_ms() == interval_ms,
        final(collector).threads() == old(collector).threads(),
        final(collector).system() == (SystemMetrics { system_uptime_ns: now, ..old(collector).system() }),
{
    collector.init(interval_ms, now)
}

/// Stops `collector`.
pub fn cleanup_metrics(collector: &mut MetricsCollector)
    ensures
        !final(collector).spec_enabled(),
        final(collector).threads() == old(collector).threads(),
        final(collector).system() == old(collector).system(),
{
    collector.disable();
}

/// Registering a thread that is not tracked and unregistering it again
/// leaves the tracked threads and the active-thread count as they were,
/// while the created and destroyed counts each grow by one.
pub proof fn law_register_then_unregister(threads: Map<ThreadId, ThreadMetrics>, thread_id: ThreadId, now: u64, active: u64)
    requires
        !threads.contains_key(thread_id),
    ensures
        threads.insert(thread_id, fresh_metrics(thread_id, now)).remove(thread_id) == threads,
        wrap_dec(wrap_add(active, 1)) == active,
{
    assert(threads.insert(thread_id, fresh_metrics(thread_id, now)).remove(thread_id) =~= threads);
}

} // verus!
