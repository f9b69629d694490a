pub mod cache_aware;
pub mod context_switch_opt;
pub mod cpu_dispatch;
pub mod fast_paths;
pub mod memory_pools;
pub mod numa;

use vstd::prelude::*;
use crate::arch::detection::{CpuArch, CpuFeatures, FeatureCache, detected_features};
use crate::observability::metrics::wrap_add;

verus! {

/// Index of a CPU.
pub type CpuId = u32;

/// Tuning derived from the CPU features.
#[derive(Debug, Clone, Copy)]
pub struct PerfConfig {
    pub cache_line_size: usize,
    pub cpu_count: usize,
    pub numa_nodes: usize,
    pub use_lock_free_paths: bool,
    pub use_simd: bool,
    pub use_cpu_specific: bool,
    pub cpu_features: CpuFeatures,
}

/// The tuning for CPU features `f`: its cache line and core count, one
/// NUMA node, lock-free paths when compare-and-swap exists, SIMD when
/// vector units exist.
pub open spec fn config_for(f: CpuFeatures) -> PerfConfig {
    PerfConfig {
        cache_line_size: f.cache_line_size as usize,
        cpu_count: f.cpu_cores as usize,
        numa_nodes: 1,
        use_lock_free_paths: f.supports_atomic_cas,
        use_simd: f.supports_vector,
        use_cpu_specific: true,
        cpu_features: f,
    }
}

impl PerfConfig {
    /// The tuning for CPU features `f`.
    pub fn from_features(f: CpuFeatures) -> (c: Self)
        ensures
            c == config_for(f),
    {
        PerfConfig {
            cache_line_size: f.cache_line_size as usize,
            cpu_count: f.cpu_cores as usize,
            numa_nodes: 1,
            use_lock_free_paths: f.supports_atomic_cas,
            use_simd: f.supports_vector,
            use_cpu_specific: true,
            cpu_features: f,
        }
    }

    /// The tuning for the features `cache` holds, detecting those of `arch`
    /// when it holds none.
    pub fn detect(cache: &mut FeatureCache, arch: CpuArch) -> (c: Self)
        ensures
            old(cache).cached() matches Some(f) ==> c == config_for(f),
            old(cache).cached() is None ==> c == config_for(detected_features(arch)),
            final(cache).cached() == Some(c.cpu_features),
    {
        let f = cache.detect_cpu_features(arch);
        PerfConfig::from_features(f)
    }
}

/// Detects the tuning and stores it in `slot`.
pub fn init_perf_optimization(slot: &mut Option<PerfConfig>, cache: &mut FeatureCache, arch: CpuArch)
    ensures
        *final(slot) is Some,
        old(cache).cached() is Some ==> (*final(slot))->0 == config_for(old(cache).cached()->0),
        old(cache).cached() is None ==> (*final(slot))->0 == config_for(detected_features(arch)),
        final(cache).cached() == Some((*final(slot))->0.cpu_features),
{
    let config = PerfConfig::detect(cache, arch);
    *slot = Some(config);
}

/// The stored tuning, or the detected one when none is stored.
pub fn get_perf_config(slot: &Option<PerfConfig>, cache: &mut FeatureCache, arch: CpuArch) -> (c: PerfConfig)
    ensures
        slot matches Some(s) ==> c == s && final(cache).cached() == old(cache).cached(),
        slot is None && old(cache).cached() is Some ==> c == config_for(old(cache).cached()->0),
        slot is None && old(cache).cached() is None ==> c == config_for(detected_features(arch)),
{
    match slot {
        Some(c) => *c,
        None => PerfConfig::detect(cache, arch),
    }
}

/// Counters of the optimized paths; they wrap around on overflow.
#[derive(Debug, Clone, Copy)]
pub struct PerfCounters {
    pub fast_path_hits: u64,
    pub slow_path_hits: u64,
    pub cache_bounces: u64,
    pub numa_local_allocations: u64,
    pub numa_remote_allocations: u64,
    pub optimized_context_switches: u64,
    pub simd_operations: u64,
    pub lockfree_operations: u64,
}

/// All counters zero.
pub open spec fn zero_counters() -> PerfCounters {
    PerfCounters {
        fast_path_hits: 0,
        slow_path_hits: 0,
        cache_bounces: 0,
        numa_local_allocations: 0,
        numa_remote_allocations: 0,
        optimized_context_switches: 0,
        simd_operations: 0,
        lockfree_operations: 0,
    }
}

impl Default for PerfCounters {
    /// All counters zero.
    fn default() -> (c: Self)
        ensures
            c == zero_counters(),
    {
        PerfCounters::new()
    }
}

impl PerfCounters {
    /// All counters zero.
    pub fn new() -> (c: Self)
        ensures
            c == zero_counters(),
    {
        PerfCounters {
            fast_path_hits: 0,
            slow_path_hits: 0,
            cache_bounces: 0,
            numa_local_allocations: 0,
            numa_remote_allocations: 0,
            optimized_context_switches: 0,
            simd_operations: 0,
            lockfree_operations: 0,
        }
    }

    /// Counts a fast-path hit.
    pub fn record_fast_path(&mut self)
        ensures
            *final(self) == (PerfCounters { fast_path_hits: wrap_add(old(self).fast_path_hits, 1), ..*old(self) }),
    {
        self.fast_path_hits = self.fast_path_hits.wrapping_add(1);
    }

    /// Counts a slow-path hit.
    pub fn record_slow_path(&mut self)
        ensures
            *final(self) == (PerfCounters { slow_path_hits: wrap_add(old(self).slow_path_hits, 1), ..*old(self) }),
    {
        self.slow_path_hits = self.slow_path_hits.wrapping_add(1);
    }

    /// Counts a cache-line bounce.
    pub fn record_cache_bounce(&mut self)
        ensures
            *final(self) == (PerfCounters { cache_bounces: wrap_add(old(self).cache_bounces, 1), ..*old(self) }),
    {
        self.cache_bounces = self.cache_bounces.wrapping_add(1);
    }

    /// Counts a node-local allocation.
    pub fn record_numa_local(&mut self)
        ensures
            *final(self) == (PerfCounters {
                numa_local_allocations: wrap_add(old(self).numa_local_allocations, 1),
                ..*old(self)
            }),
    {
        self.numa_local_allocations = self.numa_local_allocations.wrapping_add(1);
    }

    /// Counts a remote-node allocation.
    pub fn record_numa_remote(&mut self)
        ensures
            *final(self) == (PerfCounters {
                numa_remote_allocations: wrap_add(old(self).numa_remote_allocations, 1),
                ..*old(self)
            }),
    {
        self.numa_remote_allocations = self.numa_remote_allocations.wrapping_add(1);
    }

    /// Counts an optimized context switch.
    pub fn record_context_switch(&mut self)
        ensures
            *final(self) == (PerfCounters {
                optimized_context_switches: wrap_add(old(self).optimized_context_switches, 1),
                ..*old(self)
            }),
    {
        self.optimized_context_switches = self.optimized_context_switches.wrapping_add(1);
    }

    /// Counts a SIMD operation.
    pub fn record_simd_operation(&mut self)
        ensures
            *final(self) == (PerfCounters { simd_operations: wrap_add(old(self).simd_operations, 1), ..*old(self) }),
    {
        self.simd_operations = self.simd_operations.wrapping_add(1);
    }

    /// Counts a lock-free operation.
    pub fn record_lockfree_operation(&mut self)
        ensures
            *final(self) == (PerfCounters {
                lockfree_operations: wrap_add(old(self).lockfree_operations, 1),
                ..*old(self)
            }),
    {
        self.lockfree_operations = self.lockfree_operations.wrapping_add(1);
    }

    /// Sets every counter to zero.
    pub fn reset(&mut self)
        ensures
            *final(self) == zero_counters(),
    {
        *self = PerfCounters::new();
    }
}

} // verus!
