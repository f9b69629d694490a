use vstd::prelude::*;
use std::collections::BTreeMap;
use crate::thread::ThreadId;
use crate::observability::metrics::wrap_add;

verus! {

broadcast use {vstd::std_specs::btree::group_btree_axioms, vstd::laws_cmp::group_laws_cmp};

/// Settings of the profiler.
#[derive(Debug, Clone, Copy)]
pub struct ProfilerConfig {
    pub max_samples: usize,
    pub sampling_enabled: bool,
    pub sampling_interval_us: u64,
    pub stack_tracing_enabled: bool,
    pub max_stack_depth: usize,
    pub memory_tracking_enabled: bool,
    pub scheduler_tracking_enabled: bool,
}

impl ProfilerConfig {
    /// The default settings: 10000 samples, sampling every 1000th event,
    /// stacks of depth 32 traced in debug builds only, memory and scheduler
    /// tracking on.
    pub fn default_for(debug_build: bool) -> (c: Self)
        ensures
            c == (ProfilerConfig {
                max_samples: 10000,
                sampling_enabled: true,
                sampling_interval_us: 1000,
                stack_tracing_enabled: debug_build,
                max_stack_depth: 32,
                memory_tracking_enabled: true,
                scheduler_tracking_enabled: true,
            }),
    {
        ProfilerConfig {
            max_samples: 10000,
            sampling_enabled: true,
            sampling_interval_us: 1000,
            stack_tracing_enabled: debug_build,
            max_stack_depth: 32,
            memory_tracking_enabled: true,
            scheduler_tracking_enabled: true,
        }
    }
}

/// Kinds of memory an allocation comes from.
#[derive(Debug, Clone, Copy, PartialEq, Eq, Structural, PartialOrd, Ord)]
pub enum AllocationType {
    Stack,
    Heap,
    StaticData,
    ThreadLocal,
    Other,
}

/// Why a context switch happened.
#[derive(Debug, Clone, Copy, PartialEq, Eq, Structural, PartialOrd, Ord)]
pub enum ContextSwitchReason {
    TimeSliceExpired,
    VoluntaryYield,
    IOBlock,
    SyncBlock,
    ThreadExit,
    PriorityPreemption,
    LoadBalance,
}

/// What a sample observed.
#[derive(Debug, Clone, Copy, PartialEq, Eq, Structural)]
pub enum SampleType {
    CpuSample { instruction_pointer: u64, cpu_time_delta: u64 },
    MemoryAllocation { size: u64, allocation_type: AllocationType },
    MemoryDeallocation { size: u64 },
    ContextSwitch {
        from_thread: ThreadId,
        to_thread: ThreadId,
        switch_latency_ns: u64,
        switch_reason: ContextSwitchReason,
    },
    SchedulerDecision { ready_queue_length: usize, selected_priority: u8, decision_latency_ns: u64 },
    LockContention { lock_address: u64, wait_time_ns: u64, waiter_count: u32 },
}

/// Instruction pointers of a call stack, innermost first.
#[derive(Debug, Clone)]
pub struct CallStack {
    pub frames: Vec<u64>,
    pub total_depth: usize,
}

impl CallStack {
    /// An empty stack.
    pub fn new() -> (c: Self)
        ensures
            c.frames@ == Seq::<u64>::empty(),
            c.total_depth == 0,
    {
        CallStack { frames: Vec::new(), total_depth: 0 }
    }

    /// The stack of the caller, at most `max_depth` frames deep. No stack
    /// walker is available, so the stack comes back empty.
    pub fn capture(max_depth: usize) -> (c: Self)
        ensures
            c.frames@ == Seq::<u64>::empty(),
            c.total_depth == 0,
    {
        CallStack { frames: Vec::new(), total_depth: 0 }
    }
}

/// Time spent in one function.
#[derive(Debug, Clone, Copy)]
pub struct FunctionProfile {
    pub address: u64,
    pub sample_count: u64,
    pub cpu_time_ns: u64,
    pub call_count: u64,
}

/// One profiling sample of a thread at a time (ns).
#[derive(Debug, Clone)]
pub struct ProfileSample {
    pub thread_id: ThreadId,
    pub timestamp: u64,
    pub sample_type: SampleType,
    pub memory_usage: u64,
    pub call_stack: Option<CallStack>,
}

/// What the profiler has counted for one thread.
#[derive(Debug, Clone, Copy)]
pub struct ThreadProfileData {
    pub thread_id: ThreadId,
    pub sample_count: u64,
    pub total_cpu_time: u64,
    pub peak_memory_usage: u64,
    pub context_switches: u64,
}

/// The counts of a thread before its first sample.
pub open spec fn fresh_profile(thread_id: ThreadId) -> ThreadProfileData {
    ThreadProfileData {
        thread_id,
        sample_count: 0,
        total_cpu_time: 0,
        peak_memory_usage: 0,
        context_switches: 0,
    }
}

/// Adding a sample of kind `st` to `d` overflows no counter.
pub open spec fn profile_fits(d: ThreadProfileData, st: SampleType) -> bool {
    &&& d.sample_count < u64::MAX
    &&& (st matches SampleType::CpuSample { cpu_time_delta, .. } ==> d.total_cpu_time
        + cpu_time_delta <= u64::MAX)
    &&& (st is ContextSwitch ==> d.context_switches < u64::MAX)
}

/// `d` after a sample of kind `st` taken at memory usage `mem`.
pub open spec fn profile_after(d: ThreadProfileData, st: SampleType, mem: u64) -> ThreadProfileData {
    ThreadProfileData {
        sample_count: (d.sample_count + 1) as u64,
        total_cpu_time: match st {
            SampleType::CpuSample { cpu_time_delta, .. } => (d.total_cpu_time + cpu_time_delta) as u64,
            _ => d.total_cpu_time,
        },
        context_switches: if st is ContextSwitch {
            (d.context_switches + 1) as u64
        } else {
            d.context_switches
        },
        peak_memory_usage: if mem > d.peak_memory_usage {
            mem
        } else {
            d.peak_memory_usage
        },
        ..d
    }
}

/// `s` cut down to its last `max` entries.
pub open spec fn latest<T>(s: Seq<T>, max: nat) -> Seq<T> {
    if s.len() > max {
        s.subrange(s.len() - max, s.len() as int)
    } else {
        s
    }
}

/// Collects samples and per-thread counts. Of the events offered while
/// sampling is on, only every `sampling_interval_us`-th one is kept.
pub struct ThreadProfiler {
    config: ProfilerConfig,
    samples: Vec<ProfileSample>,
    enabled: bool,
    total_samples: u64,
    start_time: Option<u64>,
    thread_stats: BTreeMap<ThreadId, ThreadProfileData>,
    sample_counter: u64,
}

impl ThreadProfiler {
    /// The settings in force.
    pub closed spec fn config_spec(&self) -> ProfilerConfig {
        self.config
    }

    /// The kept samples, oldest first.
    pub closed spec fn samples_spec(&self) -> Seq<ProfileSample> {
        self.samples@
    }

    /// Whether profiling is on.
    pub closed spec fn spec_enabled(&self) -> bool {
        self.enabled
    }

    /// The number of samples kept so far, modulo 2^64.
    pub closed spec fn total(&self) -> u64 {
        self.total_samples
    }

    /// When profiling started.
    pub closed spec fn started(&self) -> Option<u64> {
        self.start_time
    }

    /// The counts of each sampled thread.
    pub closed spec fn stats(&self) -> Map<ThreadId, ThreadProfileData> {
        self.thread_stats@
    }

    /// The number of events offered while sampling was on, modulo 2^64.
    pub closed spec fn offered(&self) -> u64 {
        self.sample_counter
    }

    /// Whether the next event offered is kept.
    pub open spec fn keeps_next(&self) -> bool {
        &&& self.spec_enabled()
        &&& self.config_spec().sampling_enabled ==> self.offered() % (if self.config_spec().sampling_interval_us
            > 0 {
            self.config_spec().sampling_interval_us
        } else {
            1
        }) == 0
    }

    /// The counts of `thread_id`, fresh ones if it has no sample yet.
    pub open spec fn profile_of(&self, thread_id: ThreadId) -> ThreadProfileData {
        if self.stats().contains_key(thread_id) {
            self.stats()[thread_id]
        } else {
            fresh_profile(thread_id)
        }
    }

    /// A profiler that is off, with settings for a release build and
    /// nothing collected.
    pub fn new() -> (p: Self)
        ensures
            !p.spec_enabled(),
            p.config_spec() == (ProfilerConfig {
                max_samples: 10000,
                sampling_enabled: true,
                sampling_interval_us: 1000,
                stack_tracing_enabled: false,
                max_stack_depth: 32,
                memory_tracking_enabled: true,
                scheduler_tracking_enabled: true,
            }),
            p.samples_spec() == Seq::<ProfileSample>::empty(),
            p.total() == 0,
            p.started() is None,
            p.stats() == Map::<ThreadId, ThreadProfileData>::empty(),
            p.offered() == 0,
    {
        ThreadProfiler {
            config: ProfilerConfig::default_for(false),
            samples: Vec::new(),
            enabled: false,
            total_samples: 0,
            start_time: None,
            thread_stats: BTreeMap::new(),
            sample_counter: 0,
        }
    }

    /// Takes `config`, notes `now` as the start and turns profiling on.
    pub fn init(&mut self, config: ProfilerConfig, now: u64) -> (r: Result<(), &'static str>)
        ensures
            r is Ok,
            final(self).spec_enabled(),
            final(self).config_spec() == config,
            final(self).started() == Some(now),
            final(self).samples_spec() == old(self).samples_spec(),
            final(self).total() == old(self).total(),
            final(self).stats() == old(self).stats(),
            final(self).offered() == old(self).offered(),
    {
        self.config = config;
        self.start_time = Some(now);
        self.enabled = true;
        Ok(())
    }

    /// Whether profiling is on.
    pub fn is_enabled(&self) -> (r: bool)
        ensures
            r == self.spec_enabled(),
    {
        self.enabled
    }

    fn update_thread_stats(&mut self, thread_id: ThreadId, sample_type: SampleType, memory_usage: u64)
        requires
            profile_fits(old(self).profile_of(thread_id), sample_type),
        ensures
            final(self).stats() == old(self).stats().insert(
                thread_id,
                profile_after(old(self).profile_of(thread_id), sample_type, memory_usage),
            ),
            final(self).config_spec() == old(self).config_spec(),
            final(self).samples_spec() == old(self).samples_spec(),
            final(self).spec_enabled() == old(self).spec_enabled(),
            final(self).total() == old(self).total(),
            final(self).started() == old(self).started(),
            final(self).offered() == old(self).offered(),
    {
        let mut d = match self.thread_stats.remove(&thread_id) {
            Some(d) => d,
            None => ThreadProfileData {
                thread_id,
                sample_count: 0,
                total_cpu_time: 0,
                peak_memory_usage: 0,
                context_switches: 0,
            },
        };
        d.sample_count = d.sample_count + 1;
        match sample_type {
            SampleType::CpuSample { cpu_time_delta, .. } => {
                d.total_cpu_time = d.total_cpu_time + cpu_time_delta;
            },
            SampleType::ContextSwitch { .. } => {
                d.context_switches = d.context_switches + 1;
            },
            _ => {},
        }
        if memory_usage > d.peak_memory_usage {
            d.peak_memory_usage = memory_usage;
        }
        self.thread_stats.insert(thread_id, d);
        proof {
            assert(self.stats() == old(self).stats().insert(
                thread_id,
                profile_after(old(self).profile_of(thread_id), sample_type, memory_usage),
            ));
        }
    }

    /// Offers `sample`. While profiling is off nothing happens. While
    /// sampling is on, the event is counted and only every
    /// `sampling_interval_us`-th one (the first included) goes on. A sample
    /// that goes on is kept (the oldest ones beyond `max_samples` are
    /// dropped), added to its thread's counts and counted.
    pub fn record_sample(&mut self, sample: ProfileSample)
        requires
            old(self).keeps_next() ==> profile_fits(
                old(self).profile_of(sample.thread_id),
                sample.sample_type,
            ),
        ensures
            final(self).config_spec() == old(self).config_spec(),
            final(self).spec_enabled() == old(self).spec_enabled(),
            final(self).started() == old(self).started(),
            final(self).offered() == if old(self).spec_enabled() && old(self).config_spec().sampling_enabled {
                wrap_add(old(self).offered(), 1)
            } else {
                old(self).offered()
            },
            !old(self).keeps_next() ==> {
                &&& final(self).samples_spec() == old(self).samples_spec()
                &&& final(self).stats() == old(self).stats()
                &&& final(self).total() == old(self).total()
            },
            old(self).keeps_next() ==> {
                &&& final(self).samples_spec() == latest(
                    old(self).samples_spec().push(sample),
                    old(self).config_spec().max_samples as nat,
                )
                &&& final(self).stats() == old(self).stats().insert(
                    sample.thread_id,
                    profile_after(
                        old(self).profile_of(sample.thread_id),
                        sample.sample_type,
                        sample.memory_usage,
                    ),
                )
                &&& final(self).total() == wrap_add(old(self).total(), 1)
            },
    {
        if !self.enabled {
            return;
        }
        let config = self.config;
        if config.sampling_enabled {
            let counter = self.sample_counter;
            self.sample_counter = self.sample_counter.wrapping_add(1);
            let rate = if config.sampling_interval_us > 0 {
                config.sampling_interval_us
            } else {
                1
            };
            if counter % rate != 0 {
                return;
            }
        }
        let thread_id = sample.thread_id;
        let sample_type = sample.sample_type;
        let memory_usage = sample.memory_usage;
        let mut samples: Vec<ProfileSample> = Vec::new();
        std::mem::swap(&mut samples, &mut self.samples);
        let ghost before = samples@.push(sample);
        samples.push(sample);
        let max = config.max_samples;
        let ghost len0 = samples@.len();
        while samples.len() > max
            invariant
                samples@.len() <= len0,
                len0 == before.len(),
                len0 > max ==> samples@.len() >= max,
                len0 <= max ==> samples@.len() == len0,
                samples@ == before.subrange(len0 - samples@.len(), len0 as int),
            decreases samples@.len(),
        {
            samples.remove(0);
        }
        proof {
            assert(samples@ == latest(before, max as nat));
        }
        self.samples = samples;
        self.update_thread_stats(thread_id, sample_type, memory_usage);
        self.total_samples = self.total_samples.wrapping_add(1);
    }

    /// Offers a CPU sample of `thread_id` at `instruction_pointer` after
    /// `cpu_time_delta` ns of CPU time, taken at `now`.
    pub fn record_cpu_sample(&mut self, thread_id: ThreadId, instruction_pointer: u64, cpu_time_delta: u64, now: u64)
        requires
            old(self).keeps_next() ==> profile_fits(
                old(self).profile_of(thread_id),
                SampleType::CpuSample { instruction_pointer, cpu_time_delta },
            ),
        ensures
            final(self).config_spec() == old(self).config_spec(),
            final(self).spec_enabled() == old(self).spec_enabled(),
            !old(self).keeps_next() ==> final(self).samples_spec() == old(self).samples_spec()
                && final(self).stats() == old(self).stats(),
            old(self).keeps_next() ==> final(self).samples_spec() == latest(
                old(self).samples_spec().push((ProfileSample {
                thread_id,
                timestamp: now,
                sample_type: SampleType::CpuSample { instruction_pointer, cpu_time_delta },
                memory_usage: 0,
                call_stack: None,
            })),
                old(self).config_spec().max_samples as nat,
            ),
            old(self).keeps_next() ==> final(self).stats() == old(self).stats().insert(
                thread_id,
                profile_after(
                    old(self).profile_of(thread_id),
                    SampleType::CpuSample { instruction_pointer, cpu_time_delta },
                    0,
                ),
            ),
    {
        let sample = ProfileSample {
            thread_id,
            timestamp: now,
            sample_type: SampleType::CpuSample { instruction_pointer, cpu_time_delta },
            memory_usage: 0,
            call_stack: None,
        };
        self.record_sample(sample);
    }

    /// Offers an allocation of `size` bytes of kind `allocation_type` by
    /// `thread_id`, taken at `now`.
    pub fn record_allocation(&mut self, thread_id: ThreadId, size: u64, allocation_type: AllocationType, now: u64)
        requires
            old(self).keeps_next() ==> profile_fits(
                old(self).profile_of(thread_id),
                SampleType::MemoryAllocation { size, allocation_type },
            ),
        ensures
            final(self).config_spec() == old(self).config_spec(),
            final(self).spec_enabled() == old(self).spec_enabled(),
            !old(self).keeps_next() ==> final(self).samples_spec() == old(self).samples_spec()
                && final(self).stats() == old(self).stats(),
            old(self).keeps_next() ==> final(self).samples_spec() == latest(
                old(self).samples_spec().push((ProfileSample {
                thread_id,
                timestamp: now,
                sample_type: SampleType::MemoryAllocation { size, allocation_type },
                memory_usage: 0,
                call_stack: None,
            })),
                old(self).config_spec().max_samples as nat,
            ),
            old(self).keeps_next() ==> final(self).stats() == old(self).stats().insert(
                thread_id,
                profile_after(
                    old(self).profile_of(thread_id),
                    SampleType::MemoryAllocation { size, allocation_type },
                    0,
                ),
            ),
    {
        let sample = ProfileSample {
            thread_id,
            timestamp: now,
            sample_type: SampleType::MemoryAllocation { size, allocation_type },
            memory_usage: 0,
            call_stack: None,
        };
        self.record_sample(sample);
    }

    /// Offers a switch from `from_thread` to `to_thread` that took
    /// `switch_latency_ns`, taken at `now`; it counts for `from_thread`.
    pub fn record_context_switch(
        &mut self,
        from_thread: ThreadId,
        to_thread: ThreadId,
        switch_latency_ns: u64,
        reason: ContextSwitchReason,
        now: u64,
    )
        requires
            old(self).keeps_next() ==> profile_fits(
                old(self).profile_of(from_thread),
                SampleType::ContextSwitch {
                    from_thread,
                    to_thread,
                    switch_latency_ns,
                    switch_reason: reason,
                },
            ),
        ensures
            final(self).config_spec() == old(self).config_spec(),
            final(self).spec_enabled() == old(self).spec_enabled(),
            !old(self).keeps_next() ==> final(self).samples_spec() == old(self).samples_spec()
                && final(self).stats() == old(self).stats(),
            old(self).keeps_next() ==> final(self).samples_spec() == latest(
                old(self).samples_spec().push((ProfileSample {
                thread_id: from_thread,
                timestamp: now,
                sample_type: SampleType::ContextSwitch {
                    from_thread,
                    to_thread,
                    switch_latency_ns,
                    switch_reason: reason,
                },
                memory_usage: 0,
                call_stack: None,
            })),
                old(self).config_spec().max_samples as nat,
            ),
            old(self).keeps_next() ==> final(self).stats() == old(self).stats().insert(
                from_thread,
                profile_after(
                    old(self).profile_of(from_thread),
                    SampleType::ContextSwitch {
                        from_thread,
                        to_thread,
                        switch_latency_ns,
                        switch_reason: reason,
                    },
                    0,
                ),
            ),
    {
        let sample = ProfileSample {
            thread_id: from_thread,
            timestamp: now,
            sample_type: SampleType::ContextSwitch {
                from_thread,
                to_thread,
                switch_latency_ns,
                switch_reason: reason,
            },
            memory_usage: 0,
            call_stack: None,
        };
        self.record_sample(sample);
    }

    /// Drops every sample and count and restarts the clock at `now`.
    pub fn clear(&mut self, now: u64)
        ensures
            final(self).samples_spec() == Seq::<ProfileSample>::empty(),
            final(self).stats() == Map::<ThreadId, ThreadProfileData>::empty(),
            final(self).total() == 0,
            final(self).offered() == 0,
            final(self).started() == Some(now),
            final(self).config_spec() == old(self).config_spec(),
            final(self).spec_enabled() == old(self).spec_enabled(),
    {
        self.samples.clear();
        self.thread_stats.clear();
        self.total_samples = 0;
        self.sample_counter = 0;
        self.start_time = Some(now);
    }

    /// The number of samples kept so far and the number held now.
    pub fn get_stats(&self) -> (r: (u64, usize))
        ensures
            r.0 == self.total(),
            r.1 == self.samples_spec().len(),
    {
        (self.total_samples, self.samples.len())
    }

    /// Turns profiling off.
    pub fn disable(&mut self)
        ensures
            !final(self).spec_enabled(),
            final(self).config_spec() == old(self).config_spec(),
            final(self).samples_spec() == old(self).samples_spec(),
            final(self).stats() == old(self).stats(),
            final(self).total() == old(self).total(),
    {
        self.enabled = false;
    }
}

/// Sizes of the allocations of one kind.
#[derive(Debug, Clone, Copy, PartialEq, Eq, Structural)]
pub struct AllocationPattern {
    pub allocation_count: u64,
    pub avg_size: u64,
    pub max_size: u64,
    pub min_size: u64,
}

/// The position of `t` among the allocation kinds.
pub open spec fn allocation_index(t: AllocationType) -> int {
    match t {
        AllocationType::Stack => 0,
        AllocationType::Heap => 1,
        AllocationType::StaticData => 2,
        AllocationType::ThreadLocal => 3,
        AllocationType::Other => 4,
    }
}

fn allocation_slot(t: AllocationType) -> (r: usize)
    ensures
        r == allocation_index(t),
{
    match t {
        AllocationType::Stack => 0,
        AllocationType::Heap => 1,
        AllocationType::StaticData => 2,
        AllocationType::ThreadLocal => 3,
        AllocationType::Other => 4,
    }
}

/// What the samples say about memory. A kind without allocations has no
/// pattern.
#[derive(Debug, Clone, Copy)]
pub struct MemoryProfile {
    pub total_allocations: u64,
    pub total_deallocations: u64,
    pub bytes_allocated: u64,
    pub bytes_deallocated: u64,
    pub allocation_patterns: [Option<AllocationPattern>; 5],
    pub peak_memory_usage: u64,
}

/// The number of allocation samples in `s`.
pub open spec fn alloc_count(s: Seq<ProfileSample>) -> nat
    decreases s.len(),
{
    if s.len() == 0 {
        0
    } else {
        alloc_count(s.drop_last()) + if s.last().sample_type is MemoryAllocation {
            1nat
        } else {
            0nat
        }
    }
}

/// The bytes allocated in `s`.
pub open spec fn alloc_bytes(s: Seq<ProfileSample>) -> nat
    decreases s.len(),
{
    if s.len() == 0 {
        0
    } else {
        alloc_bytes(s.drop_last()) + match s.last().sample_type {
            SampleType::MemoryAllocation { size, .. } => size as nat,
            _ => 0nat,
        }
    }
}

/// The number of deallocation samples in `s`.
pub open spec fn dealloc_count(s: Seq<ProfileSample>) -> nat
    decreases s.len(),
{
    if s.len() == 0 {
        0
    } else {
        dealloc_count(s.drop_last()) + if s.last().sample_type is MemoryDeallocation {
            1nat
        } else {
            0nat
        }
    }
}

/// The bytes freed in `s`.
pub open spec fn dealloc_bytes(s: Seq<ProfileSample>) -> nat
    decreases s.len(),
{
    if s.len() == 0 {
        0
    } else {
        dealloc_bytes(s.drop_last()) + match s.last().sample_type {
            SampleType::MemoryDeallocation { size } => size as nat,
            _ => 0nat,
        }
    }
}

/// The bytes in use after `s`: allocations add, a deallocation subtracts
/// when it does not take the count below zero and is ignored otherwise.
pub open spec fn live_bytes(s: Seq<ProfileSample>) -> nat
    decreases s.len(),
{
    if s.len() == 0 {
        0
    } else {
        let c = live_bytes(s.drop_last());
        match s.last().sample_type {
            SampleType::MemoryAllocation { size, .. } => c + size as nat,
            SampleType::MemoryDeallocation { size } => if c >= size {
                (c - size) as nat
            } else {
                c
            },
            _ => c,
        }
    }
}

/// The most bytes in use right after an allocation of `s` (0 without any).
pub open spec fn peak_bytes(s: Seq<ProfileSample>) -> nat
    decreases s.len(),
{
    if s.len() == 0 {
        0
    } else {
        let p = peak_bytes(s.drop_last());
        if s.last().sample_type is MemoryAllocation && live_bytes(s) > p {
            live_bytes(s)
        } else {
            p
        }
    }
}

/// The bytes allocated in `s` by allocations of kind `t`.
pub open spec fn kind_bytes(s: Seq<ProfileSample>, t: AllocationType) -> nat
    decreases s.len(),
{
    if s.len() == 0 {
        0
    } else {
        kind_bytes(s.drop_last(), t) + match s.last().sample_type {
            SampleType::MemoryAllocation { size, allocation_type } => if allocation_type == t {
                size as nat
            } else {
                0nat
            },
            _ => 0nat,
        }
    }
}

/// The pattern of the allocations of kind `t` in `s`: their number, the
/// average size over them (the bytes of that kind divided by their
/// number), and the largest and smallest of them.
pub open spec fn pattern_of(s: Seq<ProfileSample>, t: AllocationType) -> Option<AllocationPattern>
    decreases s.len(),
{
    if s.len() == 0 {
        None
    } else {
        let p = pattern_of(s.drop_last(), t);
        match s.last().sample_type {
            SampleType::MemoryAllocation { size, allocation_type } => if allocation_type == t {
                let base = match p {
                    Some(q) => q,
                    None => AllocationPattern {
                        allocation_count: 0,
                        avg_size: 0,
                        max_size: 0,
                        min_size: u64::MAX,
                    },
                };
                Some(
                    AllocationPattern {
                        allocation_count: (base.allocation_count + 1) as u64,
                        avg_size: (kind_bytes(s, t) / ((base.allocation_count + 1) as nat)) as u64,
                        max_size: if size > base.max_size {
                            size
                        } else {
                            base.max_size
                        },
                        min_size: if size < base.min_size {
                            size
                        } else {
                            base.min_size
                        },
                    },
                )
            } else {
                p
            },
            _ => p,
        }
    }
}

/// Counts and byte sums of `s` never exceed those of `s` extended, and
/// what is in use never exceeds what was allocated.
proof fn lemma_memory_sums(s: Seq<ProfileSample>, i: int)
    requires
        0 <= i <= s.len(),
    ensures
        alloc_bytes(s.subrange(0, i)) <= alloc_bytes(s),
        dealloc_bytes(s.subrange(0, i)) <= dealloc_bytes(s),
        alloc_count(s.subrange(0, i)) <= alloc_count(s),
        alloc_count(s) <= s.len(),
        dealloc_count(s) <= s.len(),
        live_bytes(s) <= alloc_bytes(s),
        peak_bytes(s) <= alloc_bytes(s),
        forall|t: AllocationType| #[trigger] pattern_of(s, t) is Some ==> pattern_of(s, t)->0.allocation_count
            <= alloc_count(s),
        forall|t: AllocationType| #[trigger] kind_bytes(s, t) <= alloc_bytes(s),
        forall|t: AllocationType| #[trigger] kind_bytes(s.subrange(0, i), t) <= kind_bytes(s, t),
    decreases s.len(),
{
    if s.len() > 0 {
        let d = s.drop_last();
        if i == s.len() {
            assert(s.subrange(0, i) == s);
        } else {
            assert(s.subrange(0, i) == d.subrange(0, i));
        }
        lemma_memory_sums(d, if i == s.len() { d.len() as int } else { i });
        assert forall|t: AllocationType| #[trigger] pattern_of(s, t) is Some implies pattern_of(s, t)->0.allocation_count
            <= alloc_count(s) by {
            if pattern_of(d, t) is Some {
                assert(pattern_of(d, t)->0.allocation_count <= alloc_count(d));
            }
        }
        assert forall|t: AllocationType| #[trigger] kind_bytes(s, t) <= alloc_bytes(s) by {
            assert(kind_bytes(d, t) <= alloc_bytes(d));
        }
        assert forall|t: AllocationType| #[trigger] kind_bytes(s.subrange(0, i), t) <= kind_bytes(s, t) by {
            if i < s.len() {
                assert(kind_bytes(d.subrange(0, i), t) <= kind_bytes(d, t));
            }
        }
    }
}

/// The memory picture that `samples` give.
pub fn analyze_memory_patterns(samples: &[ProfileSample]) -> (m: MemoryProfile)
    requires
        alloc_bytes(samples@) <= u64::MAX,
        dealloc_bytes(samples@) <= u64::MAX,
    ensures
        m.total_allocations == alloc_count(samples@),
        m.total_deallocations == dealloc_count(samples@),
        m.bytes_allocated == alloc_bytes(samples@),
        m.bytes_deallocated == dealloc_bytes(samples@),
        m.peak_memory_usage == peak_bytes(samples@),
        forall|t: AllocationType| #[trigger] m.allocation_patterns@[allocation_index(t)] == pattern_of(samples@, t),
{
    let ghost all = samples@;
    let mut total_allocations: u64 = 0;
    let mut total_deallocations: u64 = 0;
    let mut bytes_allocated: u64 = 0;
    let mut bytes_deallocated: u64 = 0;
    let mut peak: u64 = 0;
    let mut current: u64 = 0;
    let mut patterns: [Option<AllocationPattern>; 5] = [None, None, None, None, None];
    let mut kinds: [u64; 5] = [0, 0, 0, 0, 0];
    proof {
        lemma_memory_sums(all, all.len() as int);
    }
    let mut i: usize = 0;
    while i < samples.len()
        invariant
            i <= samples.len(),
            all == samples@,
            alloc_bytes(all) <= u64::MAX,
            dealloc_bytes(all) <= u64::MAX,
            total_allocations == alloc_count(all.subrange(0, i as int)),
            total_deallocations == dealloc_count(all.subrange(0, i as int)),
            bytes_allocated == alloc_bytes(all.subrange(0, i as int)),
            bytes_deallocated == dealloc_bytes(all.subrange(0, i as int)),
            current == live_bytes(all.subrange(0, i as int)),
            peak == peak_bytes(all.subrange(0, i as int)),
            forall|t: AllocationType| #[trigger] patterns@[allocation_index(t)] == pattern_of(all.subrange(0, i as int), t),
            forall|t: AllocationType| #[trigger] kinds@[allocation_index(t)] == kind_bytes(all.subrange(0, i as int), t),
            forall|t: AllocationType| #[trigger] kind_bytes(all, t) <= u64::MAX,
        decreases samples.len() - i,
    {
        let ghost pre = all.subrange(0, i as int);
        let ghost next = all.subrange(0, i + 1);
        proof {
            assert(next.drop_last() == pre);
            lemma_memory_sums(all, i + 1);
            lemma_memory_sums(pre, 0);
            lemma_memory_sums(next, i as int);
            assert(next.subrange(0, i as int) == pre);
        }
        match samples[i].sample_type {
            SampleType::MemoryAllocation { size, allocation_type } => {
                total_allocations = total_allocations + 1;
                bytes_allocated = bytes_allocated + size;
                current = current + size;
                if current > peak {
                    peak = current;
                }
                let k = allocation_slot(allocation_type);
                proof {
                    assert(kinds@[allocation_index(allocation_type)] + size == kind_bytes(next, allocation_type));
                }
                kinds[k] = kinds[k] + size;
                let base = match patterns[k] {
                    Some(q) => q,
                    None => AllocationPattern {
                        allocation_count: 0,
                        avg_size: 0,
                        max_size: 0,
                        min_size: u64::MAX,
                    },
                };
                let updated = AllocationPattern {
                    allocation_count: base.allocation_count + 1,
                    avg_size: kinds[k] / (base.allocation_count + 1),
                    max_size: if size > base.max_size {
                        size
                    } else {
                        base.max_size
                    },
                    min_size: if size < base.min_size {
                        size
                    } else {
                        base.min_size
                    },
                };
                patterns[k] = Some(updated);
            },
            SampleType::MemoryDeallocation { size } => {
                total_deallocations = total_deallocations + 1;
                bytes_deallocated = bytes_deallocated + size;
                if current >= size {
                    current = current - size;
                }
            },
            _ => {},
        }
        proof {
            assert forall|t: AllocationType| #[trigger] patterns@[allocation_index(t)] == pattern_of(next, t) by {
            }
            assert forall|t: AllocationType| #[trigger] kinds@[allocation_index(t)] == kind_bytes(next, t) by {
            }
        }
        i = i + 1;
    }
    proof {
        assert(all.subrange(0, all.len() as int) == all);
    }
    MemoryProfile {
        total_allocations,
        total_deallocations,
        bytes_allocated,
        bytes_deallocated,
        allocation_patterns: patterns,
        peak_memory_usage: peak,
    }
}

/// The position of `r` among the switch reasons.
pub open spec fn reason_index(r: ContextSwitchReason) -> int {
    match r {
        ContextSwitchReason::TimeSliceExpired => 0,
        ContextSwitchReason::VoluntaryYield => 1,
        ContextSwitchReason::IOBlock => 2,
        ContextSwitchReason::SyncBlock => 3,
        ContextSwitchReason::ThreadExit => 4,
        ContextSwitchReason::PriorityPreemption => 5,
        ContextSwitchReason::LoadBalance => 6,
    }
}

fn reason_slot(r: ContextSwitchReason) -> (k: usize)
    ensures
        k == reason_index(r),
{
    match r {
        ContextSwitchReason::TimeSliceExpired => 0,
        ContextSwitchReason::VoluntaryYield => 1,
        ContextSwitchReason::IOBlock => 2,
        ContextSwitchReason::SyncBlock => 3,
        ContextSwitchReason::ThreadExit => 4,
        ContextSwitchReason::PriorityPreemption => 5,
        ContextSwitchReason::LoadBalance => 6,
    }
}

/// What the samples say about context switches; the latencies are 0 when
/// there was no switch, and a reason never seen counts 0.
#[derive(Debug, Clone, Copy)]
pub struct ContextSwitchProfile {
    pub total_switches: u64,
    pub avg_switch_latency: u64,
    pub max_switch_latency: u64,
    pub min_switch_latency: u64,
    pub switches_by_reason: [u64; 7],
}

/// The number of context-switch samples in `s`.
pub open spec fn switch_count(s: Seq<ProfileSample>) -> nat
    decreases s.len(),
{
    if s.len() == 0 {
        0
    } else {
        switch_count(s.drop_last()) + if s.last().sample_type is ContextSwitch {
            1nat
        } else {
            0nat
        }
    }
}

/// The summed latency of the switches in `s`.
pub open spec fn switch_latency_sum(s: Seq<ProfileSample>) -> nat
    decreases s.len(),
{
    if s.len() == 0 {
        0
    } else {
        switch_latency_sum(s.drop_last()) + match s.last().sample_type {
            SampleType::ContextSwitch { switch_latency_ns, .. } => switch_latency_ns as nat,
            _ => 0nat,
        }
    }
}

/// The largest switch latency in `s`, 0 without any.
pub open spec fn max_switch_latency(s: Seq<ProfileSample>) -> u64
    decreases s.len(),
{
    if s.len() == 0 {
        0
    } else {
        let m = max_switch_latency(s.drop_last());
        match s.last().sample_type {
            SampleType::ContextSwitch { switch_latency_ns, .. } => if switch_latency_ns > m {
                switch_latency_ns
            } else {
                m
            },
            _ => m,
        }
    }
}

/// The smallest switch latency in `s`, `u64::MAX` without any.
pub open spec fn min_switch_latency(s: Seq<ProfileSample>) -> u64
    decreases s.len(),
{
    if s.len() == 0 {
        u64::MAX
    } else {
        let m = min_switch_latency(s.drop_last());
        match s.last().sample_type {
            SampleType::ContextSwitch { switch_latency_ns, .. } => if switch_latency_ns < m {
                switch_latency_ns
            } else {
                m
            },
            _ => m,
        }
    }
}

/// The number of switches in `s` made for reason `r`.
pub open spec fn reason_count(s: Seq<ProfileSample>, r: ContextSwitchReason) -> nat
    decreases s.len(),
{
    if s.len() == 0 {
        0
    } else {
        reason_count(s.drop_last(), r) + match s.last().sample_type {
            SampleType::ContextSwitch { switch_reason, .. } => if switch_reason == r {
                1nat
            } else {
                0nat
            },
            _ => 0nat,
        }
    }
}

proof fn lemma_switch_sums(s: Seq<ProfileSample>, i: int)
    requires
        0 <= i <= s.len(),
    ensures
        switch_latency_sum(s.subrange(0, i)) <= switch_latency_sum(s),
        switch_count(s) <= s.len(),
        forall|r: ContextSwitchReason| #[trigger] reason_count(s, r) <= switch_count(s),
    decreases s.len(),
{
    if s.len() > 0 {
        let d = s.drop_last();
        if i == s.len() {
            assert(s.subrange(0, i) == s);
        } else {
            assert(s.subrange(0, i) == d.subrange(0, i));
        }
        lemma_switch_sums(d, if i == s.len() { d.len() as int } else { i });
        assert forall|r: ContextSwitchReason| #[trigger] reason_count(s, r) <= switch_count(s) by {
            assert(reason_count(d, r) <= switch_count(d));
        }
    }
}

/// What `samples` say about context switches.
pub fn analyze_context_switches(samples: &[ProfileSample]) -> (c: ContextSwitchProfile)
    requires
        switch_latency_sum(samples@) <= u64::MAX,
    ensures
        c.total_switches == switch_count(samples@),
        c.avg_switch_latency == if switch_count(samples@) > 0 {
            switch_latency_sum(samples@) / switch_count(samples@)
        } else {
            0
        },
        c.max_switch_latency == max_switch_latency(samples@),
        c.min_switch_latency == if min_switch_latency(samples@) == u64::MAX {
            0
        } else {
            min_switch_latency(samples@)
        },
        forall|r: ContextSwitchReason| #[trigger] c.switches_by_reason@[reason_index(r)] == reason_count(samples@, r),
{
    let ghost all = samples@;
    let mut total: u64 = 0;
    let mut latency: u64 = 0;
    let mut max: u64 = 0;
    let mut min: u64 = u64::MAX;
    let mut by_reason: [u64; 7] = [0, 0, 0, 0, 0, 0, 0];
    let mut i: usize = 0;
    while i < samples.len()
        invariant
            i <= samples.len(),
            all == samples@,
            switch_latency_sum(all) <= u64::MAX,
            total == switch_count(all.subrange(0, i as int)),
            latency == switch_latency_sum(all.subrange(0, i as int)),
            max == max_switch_latency(all.subrange(0, i as int)),
            min == min_switch_latency(all.subrange(0, i as int)),
            forall|r: ContextSwitchReason| #[trigger] by_reason@[reason_index(r)] == reason_count(all.subrange(0, i as int), r),
        decreases samples.len() - i,
    {
        let ghost pre = all.subrange(0, i as int);
        let ghost next = all.subrange(0, i + 1);
        proof {
            assert(next.drop_last() == pre);
            lemma_switch_sums(all, i + 1);
            lemma_switch_sums(pre, 0);
        }
        match samples[i].sample_type {
            SampleType::ContextSwitch { switch_latency_ns, switch_reason, .. } => {
                total = total + 1;
                latency = latency + switch_latency_ns;
                if switch_latency_ns > max {
                    max = switch_latency_ns;
                }
                if switch_latency_ns < min {
                    min = switch_latency_ns;
                }
                let k = reason_slot(switch_reason);
                proof {
                    assert(by_reason@[k as int] == reason_count(pre, switch_reason));
                }
                by_reason[k] = by_reason[k] + 1;
            },
            _ => {},
        }
        proof {
            assert forall|r: ContextSwitchReason| #[trigger] by_reason@[reason_index(r)] == reason_count(next, r) by {
            }
        }
        i = i + 1;
    }
    proof {
        assert(all.subrange(0, all.len() as int) == all);
    }
    let avg = if total > 0 {
        latency / total
    } else {
        0
    };
    if min == u64::MAX {
        min = 0;
    }
    ContextSwitchProfile {
        total_switches: total,
        avg_switch_latency: avg,
        max_switch_latency: max,
        min_switch_latency: min,
        switches_by_reason: by_reason,
    }
}

/// What the samples say about scheduling decisions; averages are 0 when
/// there was no decision.
#[derive(Debug, Clone, Copy)]
pub struct SchedulerProfile {
    pub total_decisions: u64,
    pub avg_decision_latency: u64,
    pub max_decision_latency: u64,
    pub total_ready_queue_length: u64,
    pub max_ready_queue_length: usize,
}

/// The number of scheduler-decision samples in `s`.
pub open spec fn decision_count(s: Seq<ProfileSample>) -> nat
    decreases s.len(),
{
    if s.len() == 0 {
        0
    } else {
        decision_count(s.drop_last()) + if s.last().sample_type is SchedulerDecision {
            1nat
        } else {
            0nat
        }
    }
}

/// The summed latency of the decisions in `s`.
pub open spec fn decision_latency_sum(s: Seq<ProfileSample>) -> nat
    decreases s.len(),
{
    if s.len() == 0 {
        0
    } else {
        decision_latency_sum(s.drop_last()) + match s.last().sample_type {
            SampleType::SchedulerDecision { decision_latency_ns, .. } => decision_latency_ns as nat,
            _ => 0nat,
        }
    }
}

/// The summed ready-queue length at the decisions in `s`.
pub open spec fn queue_length_sum(s: Seq<ProfileSample>) -> nat
    decreases s.len(),
{
    if s.len() == 0 {
        0
    } else {
        queue_length_sum(s.drop_last()) + match s.last().sample_type {
            SampleType::SchedulerDecision { ready_queue_length, .. } => ready_queue_length as nat,
            _ => 0nat,
        }
    }
}

/// The largest decision latency in `s`, 0 without any.
pub open spec fn max_decision_latency(s: Seq<ProfileSample>) -> u64
    decreases s.len(),
{
    if s.len() == 0 {
        0
    } else {
        let m = max_decision_latency(s.drop_last());
        match s.last().sample_type {
            SampleType::SchedulerDecision { decision_latency_ns, .. } => if decision_latency_ns > m {
                decision_latency_ns
            } else {
                m
            },
            _ => m,
        }
    }
}

/// The longest ready queue at a decision in `s`, 0 without any.
pub open spec fn max_queue_length(s: Seq<ProfileSample>) -> usize
    decreases s.len(),
{
    if s.len() == 0 {
        0
    } else {
        let m = max_queue_length(s.drop_last());
        match s.last().sample_type {
            SampleType::SchedulerDecision { ready_queue_length, .. } => if ready_queue_length > m {
                ready_queue_length
            } else {
                m
            },
            _ => m,
        }
    }
}

proof fn lemma_decision_sums(s: Seq<ProfileSample>, i: int)
    requires
        0 <= i <= s.len(),
    ensures
        decision_latency_sum(s.subrange(0, i)) <= decision_latency_sum(s),
        queue_length_sum(s.subrange(0, i)) <= queue_length_sum(s),
        decision_count(s) <= s.len(),
    decreases s.len(),
{
    if s.len() > 0 {
        let d = s.drop_last();
        if i == s.len() {
            assert(s.subrange(0, i) == s);
        } else {
            assert(s.subrange(0, i) == d.subrange(0, i));
        }
        lemma_decision_sums(d, if i == s.len() { d.len() as int } else { i });
    }
}

/// What `samples` say about scheduling decisions.
pub fn analyze_scheduler_performance(samples: &[ProfileSample]) -> (p: SchedulerProfile)
    requires
        decision_latency_sum(samples@) <= u64::MAX,
        queue_length_sum(samples@) <= u64::MAX,
    ensures
        p.total_decisions == decision_count(samples@),
        p.avg_decision_latency == if decision_count(samples@) > 0 {
            decision_latency_sum(samples@) / decision_count(samples@)
        } else {
            0
        },
        p.max_decision_latency == max_decision_latency(samples@),
        p.total_ready_queue_length == queue_length_sum(samples@),
        p.max_ready_queue_length == max_queue_length(samples@),
{
    let ghost all = samples@;
    let mut total: u64 = 0;
    let mut latency: u64 = 0;
    let mut max_latency: u64 = 0;
    let mut queue_total: u64 = 0;
    let mut max_queue: usize = 0;
    let mut i: usize = 0;
    while i < samples.len()
        invariant
            i <= samples.len(),
            all == samples@,
            decision_latency_sum(all) <= u64::MAX,
            queue_length_sum(all) <= u64::MAX,
            total == decision_count(all.subrange(0, i as int)),
            latency == decision_latency_sum(all.subrange(0, i as int)),
            max_latency == max_decision_latency(all.subrange(0, i as int)),
            queue_total == queue_length_sum(all.subrange(0, i as int)),
            max_queue == max_queue_length(all.subrange(0, i as int)),
        decreases samples.len() - i,
    {
        let ghost pre = all.subrange(0, i as int);
        let ghost next = all.subrange(0, i + 1);
        proof {
            assert(next.drop_last() == pre);
            lemma_decision_sums(all, i + 1);
            lemma_decision_sums(pre, 0);
        }
        match samples[i].sample_type {
            SampleType::SchedulerDecision { ready_queue_length, decision_latency_ns, .. } => {
                total = total + 1;
                latency = latency + decision_latency_ns;
                if decision_latency_ns > max_latency {
                    max_latency = decision_latency_ns;
                }
                queue_total = queue_total + ready_queue_length as u64;
                if ready_queue_length > max_queue {
                    max_queue = ready_queue_length;
                }
            },
            _ => {},
        }
        i = i + 1;
    }
    proof {
        assert(all.subrange(0, all.len() as int) == all);
    }
    let avg = if total > 0 {
        latency / total
    } else {
        0
    };
    SchedulerProfile {
        total_decisions: total,
        avg_decision_latency: avg,
        max_decision_latency: max_latency,
        total_ready_queue_length: queue_total,
        max_ready_queue_length: max_queue,
    }
}

/// The number of hot spots an analysis reports at most.
pub const MAX_HOT_SPOTS: usize = 20;

/// An address where CPU samples were taken, with their number.
#[derive(Debug, Clone, Copy)]
pub struct HotSpot {
    pub address: u64,
    pub sample_count: u64,
}

/// The number of CPU samples of `s` taken at instruction address `a`.
pub open spec fn cpu_count_at(s: Seq<ProfileSample>, a: u64) -> nat
    decreases s.len(),
{
    if s.len() == 0 {
        0
    } else {
        cpu_count_at(s.drop_last(), a) + match s.last().sample_type {
            SampleType::CpuSample { instruction_pointer, .. } => if instruction_pointer == a {
                1nat
            } else {
                0nat
            },
            _ => 0nat,
        }
    }
}

/// Whether hot spot `x` ranks before `y`: more samples, or as many at a
/// lower address.
pub open spec fn ranks_before(x: HotSpot, y: HotSpot) -> bool {
    x.sample_count > y.sample_count || (x.sample_count == y.sample_count && x.address < y.address)
}

proof fn lemma_cpu_count_bound(s: Seq<ProfileSample>, a: u64)
    ensures
        cpu_count_at(s, a) <= s.len(),
    decreases s.len(),
{
    if s.len() > 0 {
        lemma_cpu_count_bound(s.drop_last(), a);
    }
}

/// Counts the CPU samples of each address, in order of first appearance.
fn count_cpu_addresses(samples: &[ProfileSample]) -> (entries: Vec<HotSpot>)
    ensures
        forall|k: int|
            0 <= k < entries@.len() ==> #[trigger] entries@[k].sample_count == cpu_count_at(
                samples@,
                entries@[k].address,
            ) && entries@[k].sample_count > 0,
        forall|k: int, l: int|
            0 <= k < l < entries@.len() ==> #[trigger] entries@[k].address != #[trigger] entries@[l].address,
        forall|a: u64|
            #[trigger] cpu_count_at(samples@, a) > 0 ==> exists|k: int|
                0 <= k < entries@.len() && #[trigger] entries@[k].address == a,
{
    let ghost all = samples@;
    let mut entries: Vec<HotSpot> = Vec::new();
    let mut i: usize = 0;
    while i < samples.len()
        invariant
            i <= samples.len(),
            all == samples@,
            forall|k: int|
                0 <= k < entries@.len() ==> #[trigger] entries@[k].sample_count == cpu_count_at(
                    all.subrange(0, i as int),
                    entries@[k].address,
                ) && entries@[k].sample_count > 0,
            forall|k: int, l: int|
                0 <= k < l < entries@.len() ==> #[trigger] entries@[k].address != #[trigger] entries@[l].address,
            forall|a: u64|
                #[trigger] cpu_count_at(all.subrange(0, i as int), a) > 0 ==> exists|k: int|
                    0 <= k < entries@.len() && #[trigger] entries@[k].address == a,
        decreases samples.len() - i,
    {
        let ghost pre = all.subrange(0, i as int);
        let ghost next = all.subrange(0, i + 1);
        proof {
            assert(next.drop_last() == pre);
        }
        match samples[i].sample_type {
            SampleType::CpuSample { instruction_pointer, .. } => {
                let ip = instruction_pointer;
                let ghost before = entries@;
                let mut j: usize = 0;
                let mut found = false;
                while j < entries.len() && !found
                    invariant
                        j <= entries@.len(),
                        entries@ == before,
                        found ==> j < entries@.len() && entries@[j as int].address == ip,
                        !found ==> forall|jj: int| 0 <= jj < j ==> #[trigger] entries@[jj].address != ip,
                    decreases entries@.len() - j, if found { 0nat } else { 1nat },
                {
                    if entries[j].address == ip {
                        found = true;
                    } else {
                        j = j + 1;
                    }
                }
                if found {
                    proof {
                        lemma_cpu_count_bound(pre, ip);
                    }
                    let c = entries[j].sample_count;
                    entries.set(j, HotSpot { address: ip, sample_count: c + 1 });
                    assert forall|k: int| 0 <= k < entries@.len() implies #[trigger] entries@[k].sample_count
                        == cpu_count_at(next, entries@[k].address) && entries@[k].sample_count > 0 by {
                        if k != j {
                            assert(entries@[k] == before[k]);
                        }
                    }
                    assert forall|a: u64| #[trigger] cpu_count_at(next, a) > 0 implies exists|k: int|
                        0 <= k < entries@.len() && #[trigger] entries@[k].address == a by {
                        if a == ip {
                            assert(entries@[j as int].address == a);
                        } else {
                            assert(cpu_count_at(pre, a) > 0);
                            let k = choose|k: int| 0 <= k < before.len() && #[trigger] before[k].address == a;
                            assert(entries@[k].address == a);
                        }
                    }
                } else {
                    entries.push(HotSpot { address: ip, sample_count: 1 });
                    proof {
                        assert(cpu_count_at(pre, ip) == 0) by {
                            if cpu_count_at(pre, ip) > 0 {
                                let k = choose|k: int| 0 <= k < before.len() && #[trigger] before[k].address == ip;
                                assert(before[k].address != ip);
                            }
                        }
                    }
                    assert forall|k: int| 0 <= k < entries@.len() implies #[trigger] entries@[k].sample_count
                        == cpu_count_at(next, entries@[k].address) && entries@[k].sample_count > 0 by {
                        if k < before.len() {
                            assert(entries@[k] == before[k]);
                        }
                    }
                    assert forall|k: int, l: int| 0 <= k < l < entries@.len() implies #[trigger] entries@[k].address
                        != #[trigger] entries@[l].address by {
                        if l == before.len() {
                            assert(entries@[k] == before[k]);
                        } else {
                            assert(entries@[k] == before[k]);
                            assert(entries@[l] == before[l]);
                        }
                    }
                    assert forall|a: u64| #[trigger] cpu_count_at(next, a) > 0 implies exists|k: int|
                        0 <= k < entries@.len() && #[trigger] entries@[k].address == a by {
                        if a == ip {
                            assert(entries@[before.len() as int].address == a);
                        } else {
                            assert(cpu_count_at(pre, a) > 0);
                            let k = choose|k: int| 0 <= k < before.len() && #[trigger] before[k].address == a;
                            assert(entries@[k].address == a);
                        }
                    }
                }
            },
            _ => {
                assert forall|a: u64| #[trigger] cpu_count_at(next, a) > 0 implies exists|k: int|
                    0 <= k < entries@.len() && #[trigger] entries@[k].address == a by {
                    assert(cpu_count_at(pre, a) > 0);
                }
            },
        }
        i = i + 1;
    }
    proof {
        assert(all.subrange(0, all.len() as int) == all);
    }
    entries
}

/// The addresses where most CPU samples of `samples` were taken, at most
/// `MAX_HOT_SPOTS` of them: by number of samples, most first, and by
/// address among equal numbers. An address left out ranks after all those
/// reported.
pub fn analyze_hot_spots(samples: &[ProfileSample]) -> (r: Vec<HotSpot>)
    ensures
        r@.len() <= MAX_HOT_SPOTS,
        forall|i: int|
            0 <= i < r@.len() ==> #[trigger] r@[i].sample_count == cpu_count_at(samples@, r@[i].address)
                && r@[i].sample_count > 0,
        forall|i: int, j: int| 0 <= i < j < r@.len() ==> ranks_before(#[trigger] r@[i], #[trigger] r@[j]),
        forall|a: u64|
            #[trigger] cpu_count_at(samples@, a) > 0 && (forall|i: int| 0 <= i < r@.len() ==> #[trigger] r@[i].address != a)
                ==> r@.len() == MAX_HOT_SPOTS && forall|i: int|
                0 <= i < r@.len() ==> ranks_before(
                    #[trigger] r@[i],
                    HotSpot { address: a, sample_count: cpu_count_at(samples@, a) as u64 },
                ),
{
    let entries = count_cpu_addresses(samples);
    let n = entries.len();
    let mut taken: Vec<bool> = Vec::new();
    let mut t: usize = 0;
    while t < n
        invariant
            t <= n,
            n == entries@.len(),
            taken@.len() == t,
            forall|k: int| 0 <= k < t ==> !#[trigger] taken@[k],
        decreases n - t,
    {
        taken.push(false);
        t = t + 1;
    }
    let mut result: Vec<HotSpot> = Vec::new();
    let ghost mut picked: Seq<int> = Seq::empty();
    let mut done = false;
    while !done && result.len() < MAX_HOT_SPOTS
        invariant
            n == entries@.len(),
            forall|k: int|
                0 <= k < n ==> #[trigger] entries@[k].sample_count == cpu_count_at(samples@, entries@[k].address)
                    && entries@[k].sample_count > 0,
            forall|a: int, b: int|
                0 <= a < b < n ==> #[trigger] entries@[a].address != #[trigger] entries@[b].address,
            taken@.len() == n,
            result@.len() <= MAX_HOT_SPOTS,
            picked.len() == result@.len(),
            forall|p: int| 0 <= p < picked.len() ==> 0 <= #[trigger] picked[p] < n,
            forall|p: int| 0 <= p < picked.len() ==> #[trigger] result@[p] == entries@[picked[p]],
            forall|p: int| 0 <= p < picked.len() ==> #[trigger] taken@[picked[p]],
            forall|k: int| 0 <= k < n && #[trigger] taken@[k] ==> exists|p: int| 0 <= p < picked.len() && picked[p] == k,
            forall|i: int, j: int| 0 <= i < j < result@.len() ==> ranks_before(#[trigger] result@[i], #[trigger] result@[j]),
            forall|k: int, i: int|
                0 <= k < n && !#[trigger] taken@[k] && 0 <= i < result@.len() ==> ranks_before(#[trigger] result@[i], entries@[k]),
            done ==> forall|k: int| 0 <= k < n ==> #[trigger] taken@[k],
        decreases MAX_HOT_SPOTS - result@.len(), if done { 0nat } else { 1nat },
    {
        let mut best: Option<usize> = None;
        let mut k: usize = 0;
        while k < n
            invariant
                k <= n,
                n == entries@.len(),
                taken@.len() == n,
                best matches Some(b) ==> b < n && b < k && !taken@[b as int],
                best matches Some(b) ==> forall|kk: int|
                    0 <= kk < k && !#[trigger] taken@[kk] && kk != b ==> ranks_before(entries@[b as int], entries@[kk]),
                best is None ==> forall|kk: int| 0 <= kk < k ==> #[trigger] taken@[kk],
                forall|a: int, b: int|
                    0 <= a < b < n ==> #[trigger] entries@[a].address != #[trigger] entries@[b].address,
            decreases n - k,
        {
            if !taken[k] {
                match best {
                    None => {
                        best = Some(k);
                    },
                    Some(b) => {
                        let eb = entries[b];
                        let ek = entries[k];
                        if ek.sample_count > eb.sample_count || (ek.sample_count == eb.sample_count
                            && ek.address < eb.address) {
                            best = Some(k);
                        } else {
                            assert(entries@[b as int].address != entries@[k as int].address);
                        }
                    },
                }
            }
            k = k + 1;
        }
        match best {
            None => {
                done = true;
            },
            Some(b) => {
                let ghost old_taken = taken@;
                let ghost old_result = result@;
                let ghost old_picked = picked;
                let e = entries[b];
                result.push(e);
                taken.set(b, true);
                proof {
                    picked = picked.push(b as int);
                    assert forall|kk: int| 0 <= kk < n && #[trigger] taken@[kk] implies exists|p: int|
                        0 <= p < picked.len() && picked[p] == kk by {
                        if kk == b {
                            assert(picked[picked.len() - 1] == kk);
                        } else {
                            assert(old_taken[kk]);
                            let p = choose|p: int| 0 <= p < old_picked.len() && old_picked[p] == kk;
                            assert(picked[p] == kk);
                        }
                    }
                    assert forall|kk: int, i: int|
                        0 <= kk < n && !#[trigger] taken@[kk] && 0 <= i < result@.len() implies ranks_before(
                        #[trigger] result@[i],
                        entries@[kk],
                    ) by {
                        assert(kk != b);
                        assert(!old_taken[kk]);
                        if i < old_result.len() {
                            assert(result@[i] == old_result[i]);
                        }
                    }
                    assert forall|i: int, j: int| 0 <= i < j < result@.len() implies ranks_before(
                        #[trigger] result@[i],
                        #[trigger] result@[j],
                    ) by {
                        if j < old_result.len() {
                            assert(result@[i] == old_result[i]);
                            assert(result@[j] == old_result[j]);
                        } else {
                            assert(result@[i] == old_result[i]);
                        }
                    }
                }
            },
        }
    }
    proof {
        assert forall|a: u64|
            #[trigger] cpu_count_at(samples@, a) > 0 && (forall|i: int| 0 <= i < result@.len() ==> #[trigger] result@[i].address
                != a) implies result@.len() == MAX_HOT_SPOTS && forall|i: int|
            0 <= i < result@.len() ==> ranks_before(
                #[trigger] result@[i],
                HotSpot { address: a, sample_count: cpu_count_at(samples@, a) as u64 },
            ) by {
            let k = choose|k: int| 0 <= k < entries@.len() && #[trigger] entries@[k].address == a;
            if taken@[k] {
                let p = choose|p: int| 0 <= p < picked.len() && picked[p] == k;
                assert(result@[p].address == a);
            }
            assert(!taken@[k]);
            assert(entries@[k].sample_count == cpu_count_at(samples@, a));
            assert(entries@[k].sample_count == cpu_count_at(samples@, a) as u64);
        }
    }
    result
}

/// Everything an analysis of the profiler's samples finds, over the time
/// from the start of profiling to the analysis.
#[derive(Debug)]
pub struct ProfileData {
    pub total_samples: u64,
    pub thread_samples: BTreeMap<ThreadId, ThreadProfileData>,
    pub hot_spots: Vec<HotSpot>,
    pub memory_patterns: MemoryProfile,
    pub context_switch_analysis: ContextSwitchProfile,
    pub scheduler_metrics: SchedulerProfile,
    pub time_range: (u64, u64),
}

impl ThreadProfiler {
    /// Analyses the samples held at time `now`: the per-thread counts, the
    /// hot spots, the memory, context-switch and scheduler figures, and the
    /// time range from the start of profiling (or `now`, if it never
    /// started) to `now`.
    pub fn analyze_profile(&self, now: u64) -> (d: ProfileData)
        requires
            alloc_bytes(self.samples_spec()) <= u64::MAX,
            dealloc_bytes(self.samples_spec()) <= u64::MAX,
            switch_latency_sum(self.samples_spec()) <= u64::MAX,
            decision_latency_sum(self.samples_spec()) <= u64::MAX,
            queue_length_sum(self.samples_spec()) <= u64::MAX,
        ensures
            d.total_samples == self.total(),
            d.thread_samples@ == self.stats(),
            d.time_range == (
                match self.started() {
                    Some(t) => t,
                    None => now,
                },
                now,
            ),
            d.hot_spots@.len() <= MAX_HOT_SPOTS,
            forall|i: int|
                0 <= i < d.hot_spots@.len() ==> #[trigger] d.hot_spots@[i].sample_count == cpu_count_at(
                    self.samples_spec(),
                    d.hot_spots@[i].address,
                ) && d.hot_spots@[i].sample_count > 0,
            forall|i: int, j: int|
                0 <= i < j < d.hot_spots@.len() ==> ranks_before(#[trigger] d.hot_spots@[i], #[trigger] d.hot_spots@[j]),
            forall|a: u64|
                #[trigger] cpu_count_at(self.samples_spec(), a) > 0 && (forall|i: int|
                    0 <= i < d.hot_spots@.len() ==> #[trigger] d.hot_spots@[i].address != a) ==> d.hot_spots@.len()
                    == MAX_HOT_SPOTS && forall|i: int|
                    0 <= i < d.hot_spots@.len() ==> ranks_before(
                        #[trigger] d.hot_spots@[i],
                        HotSpot { address: a, sample_count: cpu_count_at(self.samples_spec(), a) as u64 },
                    ),
            d.memory_patterns.total_allocations == alloc_count(self.samples_spec()),
            d.memory_patterns.total_deallocations == dealloc_count(self.samples_spec()),
            d.memory_patterns.bytes_allocated == alloc_bytes(self.samples_spec()),
            d.memory_patterns.bytes_deallocated == dealloc_bytes(self.samples_spec()),
            d.memory_patterns.peak_memory_usage == peak_bytes(self.samples_spec()),
            forall|t: AllocationType| #[trigger] d.memory_patterns.allocation_patterns@[allocation_index(t)]
                == pattern_of(self.samples_spec(), t),
            d.context_switch_analysis.total_switches == switch_count(self.samples_spec()),
            d.context_switch_analysis.avg_switch_latency == if switch_count(self.samples_spec()) > 0 {
                switch_latency_sum(self.samples_spec()) / switch_count(self.samples_spec())
            } else {
                0
            },
            d.context_switch_analysis.max_switch_latency == max_switch_latency(self.samples_spec()),
            d.context_switch_analysis.min_switch_latency == if min_switch_latency(self.samples_spec())
                == u64::MAX {
                0
            } else {
                min_switch_latency(self.samples_spec())
            },
            forall|r: ContextSwitchReason| #[trigger] d.context_switch_analysis.switches_by_reason@[reason_index(r)]
                == reason_count(self.samples_spec(), r),
            d.scheduler_metrics.total_decisions == decision_count(self.samples_spec()),
            d.scheduler_metrics.avg_decision_latency == if decision_count(self.samples_spec()) > 0 {
                decision_latency_sum(self.samples_spec()) / decision_count(self.samples_spec())
            } else {
                0
            },
            d.scheduler_metrics.max_decision_latency == max_decision_latency(self.samples_spec()),
            d.scheduler_metrics.total_ready_queue_length == queue_length_sum(self.samples_spec()),
            d.scheduler_metrics.max_ready_queue_length == max_queue_length(self.samples_spec()),
    {
        let start = match self.start_time {
            Some(t) => t,
            None => now,
        };
        let samples = self.samples.as_slice();
        ProfileData {
            total_samples: self.total_samples,
            thread_samples: self.thread_stats.clone(),
            hot_spots: analyze_hot_spots(samples),
            memory_patterns: analyze_memory_patterns(samples),
            context_switch_analysis: analyze_context_switches(samples),
            scheduler_metrics: analyze_scheduler_performance(samples),
            time_range: (start, now),
        }
    }
}

/// Starts `profiler` with `config` at time `now`.
pub fn init_profiler(profiler: &mut ThreadProfiler, config: ProfilerConfig, now: u64) -> (r: Result<(), &'static str>)
    ensures
        r is Ok,
        final(profiler).spec_enabled(),
        final(profiler).config_spec() == config,
        final(profiler).started() == Some(now),
        final(profiler).samples_spec() == old(profiler).samples_spec(),
        final(profiler).stats() == old(profiler).stats(),
{
    profiler.init(config, now)
}

/// Stops `profiler`.
pub fn cleanup_profiler(profiler: &mut ThreadProfiler)
    ensures
        !final(profiler).spec_enabled(),
        final(profiler).samples_spec() == old(profiler).samples_spec(),
{
    profiler.disable();
}

} // verus!
