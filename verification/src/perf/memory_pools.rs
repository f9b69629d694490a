use vstd::prelude::*;
use crate::perf::{CpuId, PerfConfig, PerfCounters};
use crate::perf::fast_paths::{after_fast, after_slow};
use crate::observability::metrics::wrap_add;

verus! {

/// Sizes and watermarks of a per-CPU pool.
#[derive(Debug, Clone, Copy, PartialEq, Eq, Structural)]
pub struct PoolConfig {
    pub initial_pool_size: usize,
    pub max_pool_size: usize,
    pub batch_size: usize,
    pub low_watermark: usize,
    pub high_watermark: usize,
}

/// 64 objects at first, at most 1024, refilled 16 at a time, refilled
/// below 8 and cleaned above 768.
pub open spec fn default_pool_config() -> PoolConfig {
    PoolConfig {
        initial_pool_size: 64,
        max_pool_size: 1024,
        batch_size: 16,
        low_watermark: 8,
        high_watermark: 768,
    }
}

impl Default for PoolConfig {
    /// 64 at first, 1024 at most, batches of 16, watermarks 8 and 768.
    fn default() -> (c: Self)
        ensures
            c == default_pool_config(),
    {
        PoolConfig {
            initial_pool_size: 64,
            max_pool_size: 1024,
            batch_size: 16,
            low_watermark: 8,
            high_watermark: 768,
        }
    }
}

/// Storage for thread objects.
pub struct ThreadObjectSlot {
    pub data: [u8; 256],
}

/// Storage for synchronization objects.
pub struct SyncObjectSlot {
    pub data: [u8; 128],
}

/// Counters of a pool; they wrap around.
#[derive(Debug, Clone, Copy, Default)]
pub struct PoolStats {
    pub total_allocations: u64,
    pub total_deallocations: u64,
    pub cache_hits: u64,
    pub cache_misses: u64,
    pub cross_cpu_allocations: u64,
    pub pool_refills: u64,
    pub memory_reclaimed: u64,
}

/// A pool of free objects handed out last-in first-out.
pub struct LockFreePool<T> {
    free: Vec<T>,
    allocations: u64,
    deallocations: u64,
    contention_events: u64,
}

impl<T> View for LockFreePool<T> {
    type V = Seq<T>;

    /// The free objects, the next one handed out last.
    closed spec fn view(&self) -> Seq<T> {
        self.free@
    }
}

impl<T> LockFreePool<T> {
    /// Allocation requests so far, modulo 2^64.
    pub closed spec fn allocs(&self) -> u64 {
        self.allocations
    }

    /// Objects returned so far, modulo 2^64.
    pub closed spec fn deallocs(&self) -> u64 {
        self.deallocations
    }

    /// Retries caused by contention.
    pub closed spec fn contention(&self) -> u64 {
        self.contention_events
    }

    /// An empty pool with zero counters.
    pub fn new() -> (p: Self)
        ensures
            p@ == Seq::<T>::empty(),
            p.allocs() == 0,
            p.deallocs() == 0,
            p.contention() == 0,
    {
        LockFreePool { free: Vec::new(), allocations: 0, deallocations: 0, contention_events: 0 }
    }

    /// Takes the most recently returned object; an empty pool gives none
    /// and counts a slow path, else a fast path is counted. Every call
    /// counts as an allocation request.
    pub fn allocate(&mut self, counters: &mut PerfCounters) -> (r: Option<T>)
        ensures
            final(self).allocs() == wrap_add(old(self).allocs(), 1),
            final(self).deallocs() == old(self).deallocs(),
            final(self).contention() == old(self).contention(),
            old(self)@.len() == 0 ==> r is None && final(self)@ == old(self)@ && *final(counters)
                == after_slow(*old(counters)),
            old(self)@.len() > 0 ==> r == Some(old(self)@.last()) && final(self)@ == old(self)@.drop_last()
                && *final(counters) == after_fast(*old(counters)),
    {
        self.allocations = self.allocations.wrapping_add(1);
        match self.free.pop() {
            None => {
                counters.record_slow_path();
                None
            },
            Some(item) => {
                counters.record_fast_path();
                Some(item)
            },
        }
    }

    /// Returns `item` to the pool; never refused.
    pub fn deallocate(&mut self, item: T) -> (r: Result<(), T>)
        ensures
            r is Ok,
            final(self)@ == old(self)@.push(item),
            final(self).deallocs() == wrap_add(old(self).deallocs(), 1),
            final(self).allocs() == old(self).allocs(),
            final(self).contention() == old(self).contention(),
    {
        self.deallocations = self.deallocations.wrapping_add(1);
        self.free.push(item);
        Ok(())
    }

    /// The number of free objects.
    pub fn available(&self) -> (n: usize)
        ensures
            n == self@.len(),
    {
        self.free.len()
    }

    /// Allocation requests so far.
    pub fn total_allocations(&self) -> (n: u64)
        ensures
            n == self.allocs(),
    {
        self.allocations
    }

    /// Objects returned so far.
    pub fn total_deallocations(&self) -> (n: u64)
        ensures
            n == self.deallocs(),
    {
        self.deallocations
    }

    /// Retries caused by contention.
    pub fn contention_events(&self) -> (n: u64)
        ensures
            n == self.contention(),
    {
        self.contention_events
    }
}

/// A pool hands out the item returned to it last: a `deallocate` followed by
/// an `allocate` gives back the same item and leaves the pool's contents as
/// they were.
pub proof fn law_pool_last_in_first_out<T>(items: Seq<T>, item: T)
    ensures
        items.push(item).len() > 0,
        items.push(item).last() == item,
        items.push(item).drop_last() == items,
{
    assert(items.push(item).drop_last() =~= items);
}


/// Size classes of thread stacks.
#[derive(Debug, Clone, Copy, PartialEq, Eq, Structural)]
pub enum StackSizeClass {
    Small,
    Medium,
    Large,
    ExtraLarge,
}

/// The pool that keeps stacks of class `c`: 0 for small, 1 for medium and
/// 2 for large ones; extra-large stacks share the large pool.
pub open spec fn class_pool(c: StackSizeClass) -> int {
    match c {
        StackSizeClass::Small => 0,
        StackSizeClass::Medium => 1,
        _ => 2,
    }
}

/// `s` after an allocation request: counted, as a hit when `hit` holds and
/// as a miss otherwise; a miss with a fallback pool attached also counts a
/// cross-CPU request.
pub open spec fn count_request(s: PoolStats, hit: bool, fallback: bool) -> PoolStats {
    let c = count_allocation(s, hit);
    if !hit && fallback {
        PoolStats { cross_cpu_allocations: wrap_add(c.cross_cpu_allocations, 1), ..c }
    } else {
        c
    }
}

/// `s` with one more allocation counted, as a hit when `hit` holds and as
/// a miss otherwise.
pub open spec fn count_allocation(s: PoolStats, hit: bool) -> PoolStats {
    PoolStats {
        total_allocations: wrap_add(s.total_allocations, 1),
        cache_hits: if hit {
            wrap_add(s.cache_hits, 1)
        } else {
            s.cache_hits
        },
        cache_misses: if hit {
            s.cache_misses
        } else {
            wrap_add(s.cache_misses, 1)
        },
        ..s
    }
}

/// The pools of one CPU: stacks by size class, thread and synchronization
/// objects, its counters, and whether the shared fallback pool is attached.
pub struct PerCpuMemoryPool<S> {
    pub cpu_id: CpuId,
    pub small_stack_pool: LockFreePool<S>,
    pub medium_stack_pool: LockFreePool<S>,
    pub large_stack_pool: LockFreePool<S>,
    pub thread_object_pool: LockFreePool<ThreadObjectSlot>,
    pub sync_object_pool: LockFreePool<SyncObjectSlot>,
    pub stats: PoolStats,
    pub fallback_attached: bool,
    pub config: PoolConfig,
}

/// Sizes and counters of one CPU's pools; the ratios follow from the
/// counters.
#[derive(Debug, Clone, Copy)]
pub struct PoolUtilization {
    pub cpu_id: CpuId,
    pub small_pool_size: usize,
    pub medium_pool_size: usize,
    pub large_pool_size: usize,
    pub thread_pool_size: usize,
    pub sync_pool_size: usize,
    pub total_allocations: u64,
    pub total_deallocations: u64,
    pub cache_hits: u64,
    pub cache_misses: u64,
    pub small_pool_allocations: u64,
    pub small_pool_deallocations: u64,
    pub small_pool_contention: u64,
}

impl<S> PerCpuMemoryPool<S> {
    /// The stack pool numbered `i` (see `class_pool`).
    pub open spec fn stack_pool(&self, i: int) -> LockFreePool<S> {
        if i == 0 {
            self.small_stack_pool
        } else if i == 1 {
            self.medium_stack_pool
        } else {
            self.large_stack_pool
        }
    }

    /// The pools of CPU `cpu_id` under `config`, all empty, with zero
    /// counters and no fallback pool attached.
    pub fn new(cpu_id: CpuId, config: PoolConfig) -> (p: Self)
        ensures
            p.cpu_id == cpu_id,
            p.config == config,
            !p.fallback_attached,
            p.stats == (PoolStats {
                total_allocations: 0,
                total_deallocations: 0,
                cache_hits: 0,
                cache_misses: 0,
                cross_cpu_allocations: 0,
                pool_refills: 0,
                memory_reclaimed: 0,
            }),
            forall|i: int| 0 <= i < 3 ==> #[trigger] p.stack_pool(i)@ == Seq::<S>::empty() && p.stack_pool(i).allocs()
                == 0 && p.stack_pool(i).deallocs() == 0 && p.stack_pool(i).contention() == 0,
            p.thread_object_pool@.len() == 0,
            p.sync_object_pool@.len() == 0,
    {
        PerCpuMemoryPool {
            cpu_id,
            small_stack_pool: LockFreePool::new(),
            medium_stack_pool: LockFreePool::new(),
            large_stack_pool: LockFreePool::new(),
            thread_object_pool: LockFreePool::new(),
            sync_object_pool: LockFreePool::new(),
            stats: PoolStats {
                total_allocations: 0,
                total_deallocations: 0,
                cache_hits: 0,
                cache_misses: 0,
                cross_cpu_allocations: 0,
                pool_refills: 0,
                memory_reclaimed: 0,
            },
            fallback_attached: false,
            config,
        }
    }

    /// Takes a stack of class `size_class` from its pool (see
    /// `LockFreePool::allocate`), counting the request and a hit when the
    /// pool had one or a miss when it was empty. A miss is then referred to
    /// the fallback pool when one is attached, counting a cross-CPU request;
    /// the fallback pool hands out nothing this way, so a miss gives none.
    pub fn allocate_stack(&mut self, size_class: StackSizeClass, counters: &mut PerfCounters) -> (r: Option<S>)
        ensures
            ({
                let k = class_pool(size_class);
                let before = old(self).stack_pool(k);
                let after = final(self).stack_pool(k);
                &&& after.allocs() == wrap_add(before.allocs(), 1)
                &&& after.deallocs() == before.deallocs()
                &&& after.contention() == before.contention()
                &&& before@.len() == 0 ==> r is None && after@ == before@ && *final(counters) == after_slow(
                    *old(counters),
                )
                &&& before@.len() > 0 ==> r == Some(before@.last()) && after@ == before@.drop_last()
                    && *final(counters) == after_fast(*old(counters))
                &&& final(self).stats == count_request(old(self).stats, before@.len() > 0, old(self).fallback_attached)
                &&& forall|i: int| 0 <= i < 3 && i != k ==> #[trigger] final(self).stack_pool(i) == old(self).stack_pool(i)
            }),
            final(self).fallback_attached == old(self).fallback_attached,
            final(self).cpu_id == old(self).cpu_id,
            final(self).config == old(self).config,
            final(self).thread_object_pool == old(self).thread_object_pool,
            final(self).sync_object_pool == old(self).sync_object_pool,
    {
        self.stats.total_allocations = self.stats.total_allocations.wrapping_add(1);
        let taken = match size_class {
            StackSizeClass::Small => self.small_stack_pool.allocate(counters),
            StackSizeClass::Medium => self.medium_stack_pool.allocate(counters),
            _ => self.large_stack_pool.allocate(counters),
        };
        match taken {
            Some(stack) => {
                self.stats.cache_hits = self.stats.cache_hits.wrapping_add(1);
                Some(stack)
            },
            None => {
                self.stats.cache_misses = self.stats.cache_misses.wrapping_add(1);
                self.allocate_from_fallback(size_class)
            },
        }
    }

    /// Refers a request to the fallback pool: with one attached, a
    /// cross-CPU request is counted; either way no stack comes back.
    fn allocate_from_fallback(&mut self, size_class: StackSizeClass) -> (r: Option<S>)
        ensures
            r is None,
            old(self).fallback_attached ==> final(self).stats == (PoolStats {
                cross_cpu_allocations: wrap_add(old(self).stats.cross_cpu_allocations, 1),
                ..old(self).stats
            }),
            !old(self).fallback_attached ==> final(self).stats == old(self).stats,
            final(self).fallback_attached == old(self).fallback_attached,
            final(self).cpu_id == old(self).cpu_id,
            final(self).config == old(self).config,
            final(self).small_stack_pool == old(self).small_stack_pool,
            final(self).medium_stack_pool == old(self).medium_stack_pool,
            final(self).large_stack_pool == old(self).large_stack_pool,
            final(self).thread_object_pool == old(self).thread_object_pool,
            final(self).sync_object_pool == old(self).sync_object_pool,
    {
        if self.fallback_attached {
            self.stats.cross_cpu_allocations = self.stats.cross_cpu_allocations.wrapping_add(1);
        }
        None
    }

    /// Returns `stack` to the pool of class `size_class` (see
    /// `LockFreePool::deallocate`), counting the return.
    pub fn deallocate_stack(&mut self, stack: S, size_class: StackSizeClass)
        ensures
            ({
                let k = class_pool(size_class);
                let before = old(self).stack_pool(k);
                let after = final(self).stack_pool(k);
                &&& after@ == before@.push(stack)
                &&& after.deallocs() == wrap_add(before.deallocs(), 1)
                &&& after.allocs() == before.allocs()
                &&& after.contention() == before.contention()
                &&& forall|i: int| 0 <= i < 3 && i != k ==> #[trigger] final(self).stack_pool(i) == old(self).stack_pool(i)
            }),
            final(self).stats == (PoolStats {
                total_deallocations: wrap_add(old(self).stats.total_deallocations, 1),
                ..old(self).stats
            }),
            final(self).fallback_attached == old(self).fallback_attached,
            final(self).cpu_id == old(self).cpu_id,
            final(self).config == old(self).config,
            final(self).thread_object_pool == old(self).thread_object_pool,
            final(self).sync_object_pool == old(self).sync_object_pool,
    {
        self.stats.total_deallocations = self.stats.total_deallocations.wrapping_add(1);
        let refused = match size_class {
            StackSizeClass::Small => self.small_stack_pool.deallocate(stack),
            StackSizeClass::Medium => self.medium_stack_pool.deallocate(stack),
            _ => self.large_stack_pool.deallocate(stack),
        };
        if let Err(s) = refused {
            self.deallocate_to_fallback(s);
        }
    }

    /// Hands `stack` to the shared fallback pool, counting it as reclaimed.
    fn deallocate_to_fallback(&mut self, stack: S)
        ensures
            final(self).stats == (PoolStats {
                memory_reclaimed: wrap_add(old(self).stats.memory_reclaimed, 1),
                ..old(self).stats
            }),
            final(self).fallback_attached == old(self).fallback_attached,
            final(self).cpu_id == old(self).cpu_id,
            final(self).config == old(self).config,
            final(self).small_stack_pool == old(self).small_stack_pool,
            final(self).medium_stack_pool == old(self).medium_stack_pool,
            final(self).large_stack_pool == old(self).large_stack_pool,
            final(self).thread_object_pool == old(self).thread_object_pool,
            final(self).sync_object_pool == old(self).sync_object_pool,
    {
        self.stats.memory_reclaimed = self.stats.memory_reclaimed.wrapping_add(1);
    }

    /// Whether a stack pool holds fewer stacks than the low watermark.
    pub fn needs_refill(&self) -> (r: bool)
        ensures
            r == (self.small_stack_pool@.len() < self.config.low_watermark || self.medium_stack_pool@.len()
                < self.config.low_watermark || self.large_stack_pool@.len() < self.config.low_watermark),
    {
        let small_available = self.small_stack_pool.available();
        let medium_available = self.medium_stack_pool.available();
        let large_available = self.large_stack_pool.available();
        small_available < self.config.low_watermark || medium_available < self.config.low_watermark
            || large_available < self.config.low_watermark
    }

    /// Counts a request to refill the pools.
    pub fn trigger_refill(&mut self)
        ensures
            final(self).stats == (PoolStats {
                pool_refills: wrap_add(old(self).stats.pool_refills, 1),
                ..old(self).stats
            }),
            final(self).fallback_attached == old(self).fallback_attached,
            final(self).cpu_id == old(self).cpu_id,
            final(self).config == old(self).config,
            final(self).small_stack_pool == old(self).small_stack_pool,
            final(self).medium_stack_pool == old(self).medium_stack_pool,
            final(self).large_stack_pool == old(self).large_stack_pool,
            final(self).thread_object_pool == old(self).thread_object_pool,
            final(self).sync_object_pool == old(self).sync_object_pool,
    {
        self.stats.pool_refills = self.stats.pool_refills.wrapping_add(1);
    }

    /// The sizes of the pools and the counters.
    pub fn get_utilization(&self) -> (u: PoolUtilization)
        ensures
            u.cpu_id == self.cpu_id,
            u.small_pool_size == self.small_stack_pool@.len(),
            u.medium_pool_size == self.medium_stack_pool@.len(),
            u.large_pool_size == self.large_stack_pool@.len(),
            u.thread_pool_size == self.thread_object_pool@.len(),
            u.sync_pool_size == self.sync_object_pool@.len(),
            u.total_allocations == self.stats.total_allocations,
            u.total_deallocations == self.stats.total_deallocations,
            u.cache_hits == self.stats.cache_hits,
            u.cache_misses == self.stats.cache_misses,
            u.small_pool_allocations == self.small_stack_pool.allocs(),
            u.small_pool_deallocations == self.small_stack_pool.deallocs(),
            u.small_pool_contention == self.small_stack_pool.contention(),
    {
        PoolUtilization {
            cpu_id: self.cpu_id,
            small_pool_size: self.small_stack_pool.available(),
            medium_pool_size: self.medium_stack_pool.available(),
            large_pool_size: self.large_stack_pool.available(),
            thread_pool_size: self.thread_object_pool.available(),
            sync_pool_size: self.sync_object_pool.available(),
            total_allocations: self.stats.total_allocations,
            total_deallocations: self.stats.total_deallocations,
            cache_hits: self.stats.cache_hits,
            cache_misses: self.stats.cache_misses,
            small_pool_allocations: self.small_stack_pool.total_allocations(),
            small_pool_deallocations: self.small_stack_pool.total_deallocations(),
            small_pool_contention: self.small_stack_pool.contention_events(),
        }
    }
}


/// Counters of the shared fallback pool; they wrap around.
#[derive(Debug, Clone, Copy)]
pub struct GlobalPoolStats {
    pub total_allocations: u64,
    pub total_deallocations: u64,
    pub cross_cpu_requests: u64,
    pub emergency_allocations: u64,
}

/// The shared fallback pool: stacks by size class, taken first in first
/// out (extra-large stacks share the large queue).
pub struct GlobalMemoryPool<S> {
    pub small_stacks: Vec<S>,
    pub medium_stacks: Vec<S>,
    pub large_stacks: Vec<S>,
    pub stats: GlobalPoolStats,
}

impl<S> GlobalMemoryPool<S> {
    /// The queue numbered `i` (see `class_pool`), oldest first.
    pub open spec fn queue(&self, i: int) -> Seq<S> {
        if i == 0 {
            self.small_stacks@
        } else if i == 1 {
            self.medium_stacks@
        } else {
            self.large_stacks@
        }
    }
}

/// Totals over all per-CPU pools; the ratios follow from the counters.
#[derive(Debug, Clone, Copy)]
pub struct SystemMemoryStats {
    pub per_cpu_pools: usize,
    pub total_allocations: u64,
    pub total_deallocations: u64,
    pub cache_hits: u64,
    pub cache_misses: u64,
    pub cross_cpu_allocations: u64,
    pub emergency_allocations: u64,
}

/// Counter `f` of `s`: 0 the allocations, 1 the returns, 2 the hits and
/// 3 the misses.
pub open spec fn stat_field(s: PoolStats, f: int) -> u64 {
    if f == 0 {
        s.total_allocations
    } else if f == 1 {
        s.total_deallocations
    } else if f == 2 {
        s.cache_hits
    } else {
        s.cache_misses
    }
}

/// The sum of counter `f` (see `stat_field`) over `pools`.
pub open spec fn pools_sum<S>(pools: Seq<PerCpuMemoryPool<S>>, f: int) -> nat
    decreases pools.len(),
{
    if pools.len() == 0 {
        0
    } else {
        pools_sum(pools.drop_last(), f) + stat_field(pools.last().stats, f) as nat
    }
}

proof fn lemma_pools_sum_prefix<S>(pools: Seq<PerCpuMemoryPool<S>>, f: int, i: int)
    requires
        0 <= i <= pools.len(),
    ensures
        pools_sum(pools.subrange(0, i), f) <= pools_sum(pools, f),
    decreases pools.len(),
{
    if i < pools.len() {
        lemma_pools_sum_prefix(pools.drop_last(), f, i);
        assert(pools.drop_last().subrange(0, i) == pools.subrange(0, i));
    } else {
        assert(pools.subrange(0, i) == pools);
    }
}

/// The per-CPU pools of every CPU and the shared fallback pool.
pub struct MemoryPoolManager<S> {
    per_cpu_pools: Vec<PerCpuMemoryPool<S>>,
    global_pool: GlobalMemoryPool<S>,
    config: PerfConfig,
}

impl<S> MemoryPoolManager<S> {
    /// The per-CPU pools, by CPU.
    pub closed spec fn pools(&self) -> Seq<PerCpuMemoryPool<S>> {
        self.per_cpu_pools@
    }

    /// The shared fallback pool.
    pub closed spec fn global(&self) -> GlobalMemoryPool<S> {
        self.global_pool
    }

    /// The configuration it was made with.
    pub closed spec fn config_spec(&self) -> PerfConfig {
        self.config
    }

    /// One empty pool set with the default settings per CPU of `config`,
    /// and an empty fallback pool.
    pub fn new(config: PerfConfig) -> (m: Self)
        ensures
            m.config_spec() == config,
            m.pools().len() == config.cpu_count,
            forall|i: int|
                0 <= i < config.cpu_count ==> {
                    let p = #[trigger] m.pools()[i];
                    &&& p.cpu_id == i as CpuId
                    &&& !p.fallback_attached
                    &&& p.config == default_pool_config()
                    &&& p.stats == (PoolStats {
                        total_allocations: 0,
                        total_deallocations: 0,
                        cache_hits: 0,
                        cache_misses: 0,
                        cross_cpu_allocations: 0,
                        pool_refills: 0,
                        memory_reclaimed: 0,
                    })
                    &&& forall|k: int| 0 <= k < 3 ==> #[trigger] p.stack_pool(k)@ == Seq::<S>::empty()
                },
            forall|k: int| 0 <= k < 3 ==> #[trigger] m.global().queue(k) == Seq::<S>::empty(),
            m.global().stats == (GlobalPoolStats {
                total_allocations: 0,
                total_deallocations: 0,
                cross_cpu_requests: 0,
                emergency_allocations: 0,
            }),
    {
        let pool_config = PoolConfig::default();
        let mut per_cpu_pools: Vec<PerCpuMemoryPool<S>> = Vec::new();
        let mut cpu: usize = 0;
        while cpu < config.cpu_count
            invariant
                cpu <= config.cpu_count,
                pool_config == default_pool_config(),
                per_cpu_pools@.len() == cpu,
                forall|i: int|
                    0 <= i < cpu ==> {
                        let p = #[trigger] per_cpu_pools@[i];
                        &&& p.cpu_id == i as CpuId
                        &&& !p.fallback_attached
                        &&& p.config == default_pool_config()
                        &&& p.stats == (PoolStats {
                            total_allocations: 0,
                            total_deallocations: 0,
                            cache_hits: 0,
                            cache_misses: 0,
                            cross_cpu_allocations: 0,
                            pool_refills: 0,
                            memory_reclaimed: 0,
                        })
                        &&& forall|k: int| 0 <= k < 3 ==> #[trigger] p.stack_pool(k)@ == Seq::<S>::empty()
                    },
            decreases config.cpu_count - cpu,
        {
            per_cpu_pools.push(PerCpuMemoryPool::new(cpu as CpuId, pool_config));
            cpu = cpu + 1;
        }
        MemoryPoolManager {
            per_cpu_pools,
            global_pool: GlobalMemoryPool {
                small_stacks: Vec::new(),
                medium_stacks: Vec::new(),
                large_stacks: Vec::new(),
                stats: GlobalPoolStats {
                    total_allocations: 0,
                    total_deallocations: 0,
                    cross_cpu_requests: 0,
                    emergency_allocations: 0,
                },
            },
            config,
        }
    }

    /// The pools of CPU `cpu_id`, if there is such a CPU.
    pub fn get_cpu_pool(&self, cpu_id: CpuId) -> (r: Option<&PerCpuMemoryPool<S>>)
        ensures
            (cpu_id as int) < self.pools().len() ==> r == Some(&self.pools()[cpu_id as int]),
            (cpu_id as int) >= self.pools().len() ==> r is None,
    {
        let k = cpu_id as usize;
        if k < self.per_cpu_pools.len() {
            Some(&self.per_cpu_pools[k])
        } else {
            None
        }
    }

    /// Takes a stack of class `size_class` for CPU `cpu_id`: from that
    /// CPU's pools (see `PerCpuMemoryPool::allocate_stack`), or, for an
    /// unknown CPU, the oldest one in the fallback queue of the class,
    /// counting an emergency allocation.
    pub fn allocate_stack(&mut self, cpu_id: CpuId, size_class: StackSizeClass, counters: &mut PerfCounters) -> (r: Option<S>)
        ensures
            final(self).config_spec() == old(self).config_spec(),
            final(self).pools().len() == old(self).pools().len(),
            (cpu_id as int) < old(self).pools().len() ==> {
                let c = cpu_id as int;
                let k = class_pool(size_class);
                let before = old(self).pools()[c].stack_pool(k);
                let after = final(self).pools()[c].stack_pool(k);
                &&& forall|j: int| 0 <= j < old(self).pools().len() && j != c ==> #[trigger] final(self).pools()[j]
                    == old(self).pools()[j]
                &&& final(self).global() == old(self).global()
                &&& after.allocs() == wrap_add(before.allocs(), 1)
                &&& before@.len() == 0 ==> r is None && after@ == before@ && *final(counters) == after_slow(
                    *old(counters),
                )
                &&& before@.len() > 0 ==> r == Some(before@.last()) && after@ == before@.drop_last()
                    && *final(counters) == after_fast(*old(counters))
                &&& final(self).pools()[c].stats == count_request(
                    old(self).pools()[c].stats,
                    before@.len() > 0,
                    old(self).pools()[c].fallback_attached,
                )
                &&& final(self).pools()[c].fallback_attached == old(self).pools()[c].fallback_attached
                &&& forall|i: int| 0 <= i < 3 && i != k ==> #[trigger] final(self).pools()[c].stack_pool(i)
                    == old(self).pools()[c].stack_pool(i)
            },
            (cpu_id as int) >= old(self).pools().len() ==> {
                let k = class_pool(size_class);
                let q = old(self).global().queue(k);
                &&& final(self).pools() == old(self).pools()
                &&& *final(counters) == *old(counters)
                &&& final(self).global().stats == (GlobalPoolStats {
                    emergency_allocations: wrap_add(old(self).global().stats.emergency_allocations, 1),
                    ..old(self).global().stats
                })
                &&& q.len() == 0 ==> r is None && final(self).global().queue(k) == q
                &&& q.len() > 0 ==> r == Some(q[0]) && final(self).global().queue(k) == q.drop_first()
                &&& forall|i: int| 0 <= i < 3 && i != k ==> #[trigger] final(self).global().queue(i)
                    == old(self).global().queue(i)
            },
    {
        let k = cpu_id as usize;
        if k < self.per_cpu_pools.len() {
            let ghost before = self.per_cpu_pools@;
            let mut pool = self.per_cpu_pools.remove(k);
            let r = pool.allocate_stack(size_class, counters);
            self.per_cpu_pools.insert(k, pool);
            assert forall|j: int| 0 <= j < before.len() && j != k implies #[trigger] self.per_cpu_pools@[j] == before[j] by {
                if j < k {
                } else {
                }
            }
            r
        } else {
            self.allocate_from_global(size_class)
        }
    }

    /// Returns `stack` of class `size_class` for CPU `cpu_id`: to that CPU's
    /// pools (see `PerCpuMemoryPool::deallocate_stack`), or, for an unknown
    /// CPU, to the back of the fallback queue of the class.
    pub fn deallocate_stack(&mut self, cpu_id: CpuId, stack: S, size_class: StackSizeClass)
        ensures
            final(self).config_spec() == old(self).config_spec(),
            final(self).pools().len() == old(self).pools().len(),
            (cpu_id as int) < old(self).pools().len() ==> {
                let c = cpu_id as int;
                let k = class_pool(size_class);
                let before = old(self).pools()[c].stack_pool(k);
                let after = final(self).pools()[c].stack_pool(k);
                &&& forall|j: int| 0 <= j < old(self).pools().len() && j != c ==> #[trigger] final(self).pools()[j]
                    == old(self).pools()[j]
                &&& final(self).global() == old(self).global()
                &&& after@ == before@.push(stack)
                &&& after.deallocs() == wrap_add(before.deallocs(), 1)
                &&& final(self).pools()[c].fallback_attached == old(self).pools()[c].fallback_attached
                &&& final(self).pools()[c].stats == (PoolStats {
                    total_deallocations: wrap_add(old(self).pools()[c].stats.total_deallocations, 1),
                    ..old(self).pools()[c].stats
                })
                &&& forall|i: int| 0 <= i < 3 && i != k ==> #[trigger] final(self).pools()[c].stack_pool(i)
                    == old(self).pools()[c].stack_pool(i)
            },
            (cpu_id as int) >= old(self).pools().len() ==> {
                let k = class_pool(size_class);
                &&& final(self).pools() == old(self).pools()
                &&& final(self).global().stats == old(self).global().stats
                &&& final(self).global().queue(k) == old(self).global().queue(k).push(stack)
                &&& forall|i: int| 0 <= i < 3 && i != k ==> #[trigger] final(self).global().queue(i)
                    == old(self).global().queue(i)
            },
    {
        let k = cpu_id as usize;
        if k < self.per_cpu_pools.len() {
            let ghost before = self.per_cpu_pools@;
            let mut pool = self.per_cpu_pools.remove(k);
            pool.deallocate_stack(stack, size_class);
            self.per_cpu_pools.insert(k, pool);
            assert forall|j: int| 0 <= j < before.len() && j != k implies #[trigger] self.per_cpu_pools@[j] == before[j] by {
                if j < k {
                } else {
                }
            }
        } else {
            self.deallocate_to_global(stack, size_class);
        }
    }

    /// The oldest stack in the fallback queue of `size_class`, counting an
    /// emergency allocation.
    fn allocate_from_global(&mut self, size_class: StackSizeClass) -> (r: Option<S>)
        ensures
            ({
                let k = class_pool(size_class);
                let q = old(self).global().queue(k);
                &&& final(self).pools() == old(self).pools()
                &&& final(self).config_spec() == old(self).config_spec()
                &&& final(self).global().stats == (GlobalPoolStats {
                    emergency_allocations: wrap_add(old(self).global().stats.emergency_allocations, 1),
                    ..old(self).global().stats
                })
                &&& q.len() == 0 ==> r is None && final(self).global().queue(k) == q
                &&& q.len() > 0 ==> r == Some(q[0]) && final(self).global().queue(k) == q.drop_first()
                &&& forall|i: int| 0 <= i < 3 && i != k ==> #[trigger] final(self).global().queue(i)
                    == old(self).global().queue(i)
            }),
    {
        self.global_pool.stats.emergency_allocations = self.global_pool.stats.emergency_allocations.wrapping_add(1);
        match size_class {
            StackSizeClass::Small => if self.global_pool.small_stacks.len() > 0 {
                Some(self.global_pool.small_stacks.remove(0))
            } else {
                None
            },
            StackSizeClass::Medium => if self.global_pool.medium_stacks.len() > 0 {
                Some(self.global_pool.medium_stacks.remove(0))
            } else {
                None
            },
            _ => if self.global_pool.large_stacks.len() > 0 {
                Some(self.global_pool.large_stacks.remove(0))
            } else {
                None
            },
        }
    }

    /// Puts `stack` at the back of the fallback queue of `size_class`.
    fn deallocate_to_global(&mut self, stack: S, size_class: StackSizeClass)
        ensures
            ({
                let k = class_pool(size_class);
                &&& final(self).pools() == old(self).pools()
                &&& final(self).config_spec() == old(self).config_spec()
                &&& final(self).global().stats == old(self).global().stats
                &&& final(self).global().queue(k) == old(self).global().queue(k).push(stack)
                &&& forall|i: int| 0 <= i < 3 && i != k ==> #[trigger] final(self).global().queue(i)
                    == old(self).global().queue(i)
            }),
    {
        match size_class {
            StackSizeClass::Small => self.global_pool.small_stacks.push(stack),
            StackSizeClass::Medium => self.global_pool.medium_stacks.push(stack),
            _ => self.global_pool.large_stacks.push(stack),
        }
    }

    /// Totals over the per-CPU pools, and the fallback pool's counters.
    /// The totals must fit in 64 bits.
    pub fn get_system_stats(&self) -> (s: SystemMemoryStats)
        requires
            pools_sum(self.pools(), 0) <= u64::MAX,
            pools_sum(self.pools(), 1) <= u64::MAX,
            pools_sum(self.pools(), 2) <= u64::MAX,
            pools_sum(self.pools(), 3) <= u64::MAX,
        ensures
            s.per_cpu_pools == self.pools().len(),
            s.total_allocations == pools_sum(self.pools(), 0),
            s.total_deallocations == pools_sum(self.pools(), 1),
            s.cache_hits == pools_sum(self.pools(), 2),
            s.cache_misses == pools_sum(self.pools(), 3),
            s.cross_cpu_allocations == self.global().stats.cross_cpu_requests,
            s.emergency_allocations == self.global().stats.emergency_allocations,
    {
        let ghost all = self.per_cpu_pools@;
        let mut total_allocations: u64 = 0;
        let mut total_deallocations: u64 = 0;
        let mut total_cache_hits: u64 = 0;
        let mut total_cache_misses: u64 = 0;
        let mut i: usize = 0;
        while i < self.per_cpu_pools.len()
            invariant
                i <= all.len(),
                all == self.per_cpu_pools@,
                pools_sum(all, 0) <= u64::MAX,
                pools_sum(all, 1) <= u64::MAX,
                pools_sum(all, 2) <= u64::MAX,
                pools_sum(all, 3) <= u64::MAX,
                total_allocations == pools_sum(all.subrange(0, i as int), 0),
                total_deallocations == pools_sum(all.subrange(0, i as int), 1),
                total_cache_hits == pools_sum(all.subrange(0, i as int), 2),
                total_cache_misses == pools_sum(all.subrange(0, i as int), 3),
            decreases all.len() - i,
        {
            let stats = self.per_cpu_pools[i].stats;
            proof {
                let next = all.subrange(0, i + 1);
                assert(next.drop_last() == all.subrange(0, i as int));
                assert(next.last().stats == stats);
                lemma_pools_sum_prefix(all, 0, i + 1);
                lemma_pools_sum_prefix(all, 1, i + 1);
                lemma_pools_sum_prefix(all, 2, i + 1);
                lemma_pools_sum_prefix(all, 3, i + 1);
                assert(pools_sum(next, 0) == total_allocations + stats.total_allocations);
                assert(pools_sum(next, 1) == total_deallocations + stats.total_deallocations);
                assert(pools_sum(next, 2) == total_cache_hits + stats.cache_hits);
                assert(pools_sum(next, 3) == total_cache_misses + stats.cache_misses);
            }
            total_allocations = total_allocations + stats.total_allocations;
            total_deallocations = total_deallocations + stats.total_deallocations;
            total_cache_hits = total_cache_hits + stats.cache_hits;
            total_cache_misses = total_cache_misses + stats.cache_misses;
            i = i + 1;
        }
        assert(all.subrange(0, all.len() as int) == all);
        SystemMemoryStats {
            per_cpu_pools: self.per_cpu_pools.len(),
            total_allocations,
            total_deallocations,
            cache_hits: total_cache_hits,
            cache_misses: total_cache_misses,
            cross_cpu_allocations: self.global_pool.stats.cross_cpu_requests,
            emergency_allocations: self.global_pool.stats.emergency_allocations,
        }
    }
}


/// The pool manager for `config` with the fallback pool attached to every
/// CPU's pools; otherwise as `MemoryPoolManager::new` makes it.
pub fn init_per_cpu_pools<S>(config: &PerfConfig) -> (m: MemoryPoolManager<S>)
    ensures
        m.config_spec() == *config,
        m.pools().len() == config.cpu_count,
        forall|i: int|
            0 <= i < config.cpu_count ==> {
                let p = #[trigger] m.pools()[i];
                &&& p.cpu_id == i as CpuId
                &&& p.fallback_attached
                &&& p.config == default_pool_config()
                &&& p.stats == (PoolStats {
                    total_allocations: 0,
                    total_deallocations: 0,
                    cache_hits: 0,
                    cache_misses: 0,
                    cross_cpu_allocations: 0,
                    pool_refills: 0,
                    memory_reclaimed: 0,
                })
                &&& forall|k: int| 0 <= k < 3 ==> #[trigger] p.stack_pool(k)@ == Seq::<S>::empty()
            },
        forall|k: int| 0 <= k < 3 ==> #[trigger] m.global().queue(k) == Seq::<S>::empty(),
        m.global().stats == (GlobalPoolStats {
            total_allocations: 0,
            total_deallocations: 0,
            cross_cpu_requests: 0,
            emergency_allocations: 0,
        }),
{
    let mut manager: MemoryPoolManager<S> = MemoryPoolManager::new(*config);
    let n = manager.per_cpu_pools.len();
    let ghost start = manager.per_cpu_pools@;
    let mut i: usize = 0;
    while i < n
        invariant
            i <= n,
            n == start.len(),
            manager.per_cpu_pools@.len() == n,
            manager.config == *config,
            forall|k: int| 0 <= k < 3 ==> #[trigger] manager.global().queue(k) == Seq::<S>::empty(),
            manager.global().stats == (GlobalPoolStats {
                total_allocations: 0,
                total_deallocations: 0,
                cross_cpu_requests: 0,
                emergency_allocations: 0,
            }),
            forall|j: int|
                0 <= j < n ==> {
                    let p = #[trigger] start[j];
                    &&& p.cpu_id == j as CpuId
                    &&& p.config == default_pool_config()
                    &&& p.stats == (PoolStats {
                        total_allocations: 0,
                        total_deallocations: 0,
                        cache_hits: 0,
                        cache_misses: 0,
                        cross_cpu_allocations: 0,
                        pool_refills: 0,
                        memory_reclaimed: 0,
                    })
                    &&& forall|k: int| 0 <= k < 3 ==> #[trigger] p.stack_pool(k)@ == Seq::<S>::empty()
                },
            forall|j: int|
                0 <= j < n ==> (#[trigger] manager.per_cpu_pools@[j]) == (if j < i {
                    PerCpuMemoryPool { fallback_attached: true, ..start[j] }
                } else {
                    start[j]
                }),
        decreases n - i,
    {
        let mut pool = manager.per_cpu_pools.remove(i);
        pool.fallback_attached = true;
        manager.per_cpu_pools.insert(i, pool);
        i = i + 1;
    }
    assert forall|j: int| 0 <= j < n implies #[trigger] manager.pools()[j] == PerCpuMemoryPool {
        fallback_attached: true,
        ..start[j]
    } by {
        assert(manager.per_cpu_pools@[j] == PerCpuMemoryPool { fallback_attached: true, ..start[j] });
    }
    assert forall|j: int, k: int| 0 <= j < n && 0 <= k < 3 implies #[trigger] manager.pools()[j].stack_pool(k)@
        == Seq::<S>::empty() by {
        assert(manager.pools()[j] == PerCpuMemoryPool { fallback_attached: true, ..start[j] });
        assert(start[j].stack_pool(k)@ == Seq::<S>::empty());
    }
    manager
}

} // verus!
