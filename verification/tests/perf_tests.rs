use core::cmp::Ordering;

use preemptive_threads::arch::detection::{perform_detection, CpuArch};
use preemptive_threads::arch::NoOpArch;
use preemptive_threads::perf::context_switch_opt::{
    ContextSwitchOptimizer, OptimizationConfig, SwitchTimingData,
};
use preemptive_threads::perf::cpu_dispatch::{
    generic_compress_lz4, generic_hash, generic_memchr, generic_memcmp, generic_strlen,
};
use preemptive_threads::perf::fast_paths::{FastPaths, LockFreeQueue, OptimizedArcCounter};
use preemptive_threads::perf::memory_pools::{
    init_per_cpu_pools, LockFreePool, MemoryPoolManager, PerCpuMemoryPool, PoolConfig, StackSizeClass,
};
use preemptive_threads::perf::numa::{
    NumaAwareScheduler, NumaPlacementPolicy, NumaTopology,
};
use preemptive_threads::perf::{PerfConfig, PerfCounters};
use preemptive_threads::thread::Thread;

fn config_with(cpu_count: usize, numa_nodes: usize) -> PerfConfig {
    let f = perform_detection(CpuArch::X86_64);
    let mut c = PerfConfig::from_features(f);
    c.cpu_count = cpu_count;
    c.numa_nodes = numa_nodes;
    c
}

#[test]
fn fnv1a_known_values() {
    assert_eq!(generic_hash(b""), 0xcbf29ce484222325);
    assert_eq!(generic_hash(b"a"), 0xaf63dc4c8601ec8c);
    assert_eq!(generic_hash(b"foobar"), 0x85944171f73967e8);
}

#[test]
fn byte_string_helpers() {
    assert_eq!(generic_strlen(b"hello\0world\0"), 5);
    assert_eq!(generic_strlen(b"\0"), 0);
    assert_eq!(generic_memcmp(b"abcd", b"abcd", 4), 0);
    assert_eq!(generic_memcmp(b"abcd", b"abzd", 4), (b'c' as i32) - (b'z' as i32));
    assert_eq!(generic_memcmp(b"abcd", b"abzd", 2), 0);
    assert_eq!(generic_memchr(b"hello", b'l', 5), Some(2));
    assert_eq!(generic_memchr(b"hello", b'o', 4), None);
    let mut out = vec![0u8; 3];
    assert_eq!(generic_compress_lz4(b"abcdef", &mut out), 3);
    assert_eq!(out, b"abc".to_vec());
    let mut big = vec![9u8; 5];
    assert_eq!(generic_compress_lz4(b"xy", &mut big), 2);
    assert_eq!(big, vec![b'x', b'y', 9, 9, 9]);
}

#[test]
fn pool_hands_back_the_last_item_returned() {
    let mut counters = PerfCounters::new();
    let mut pool: LockFreePool<u32> = LockFreePool::new();
    assert_eq!(pool.allocate(&mut counters), None);
    assert!(pool.deallocate(1).is_ok());
    assert!(pool.deallocate(2).is_ok());
    assert_eq!(pool.available(), 2);
    assert_eq!(pool.allocate(&mut counters), Some(2));
    assert_eq!(pool.allocate(&mut counters), Some(1));
    assert_eq!(pool.total_allocations(), 3);
    assert_eq!(pool.total_deallocations(), 2);
}

#[test]
fn queue_is_first_in_first_out() {
    let mut counters = PerfCounters::new();
    let mut q: LockFreeQueue<u8> = LockFreeQueue::new();
    assert!(q.fast_is_empty(&mut counters));
    assert!(q.fast_enqueue(1, &mut counters).is_ok());
    assert!(q.fast_enqueue(2, &mut counters).is_ok());
    assert_eq!(q.fast_len(&mut counters), 2);
    assert_eq!(q.fast_dequeue(&mut counters), Some(1));
    assert_eq!(q.fast_dequeue(&mut counters), Some(2));
    assert_eq!(q.fast_dequeue(&mut counters), None);
    assert_eq!(counters.lockfree_operations, 4);
}

#[test]
fn fast_path_helpers() {
    let mut counters = PerfCounters::new();
    let mut state: usize = 0;
    assert!(FastPaths::fast_mutex_try_lock(&mut state, &mut counters));
    assert!(!FastPaths::fast_mutex_try_lock(&mut state, &mut counters));
    FastPaths::fast_mutex_unlock(&mut state, &mut counters);
    assert_eq!(state, 0);
    assert_eq!(counters.slow_path_hits, 1);
    assert_eq!(counters.fast_path_hits, 2);
    let mut n: u64 = u64::MAX;
    assert_eq!(FastPaths::fast_atomic_increment(&mut n, &mut counters), u64::MAX);
    assert_eq!(n, 0);
    assert!(FastPaths::fast_affinity_check(0b101, 2, &mut counters));
    assert!(!FastPaths::fast_affinity_check(0b101, 1, &mut counters));
    let a = Thread::new(0, 4096, 3);
    let b = Thread::new(1, 4096, 5);
    assert_eq!(FastPaths::fast_priority_compare(&a, &b, &mut counters), Ordering::Less);
    assert_eq!(FastPaths::fast_priority_compare(&b, &a, &mut counters), Ordering::Greater);
    assert_eq!(FastPaths::fast_priority_compare(&a, &a, &mut counters), Ordering::Equal);
}

#[test]
fn arc_counter_counts_references() {
    let mut counters = PerfCounters::new();
    let mut c = OptimizedArcCounter::new(5u8);
    assert_eq!(c.fast_count(&mut counters), 1);
    assert!(c.fast_clone(&mut counters));
    assert_eq!(c.fast_count(&mut counters), 2);
    assert!(!c.fast_drop(&mut counters));
    assert!(c.fast_drop(&mut counters));
}

#[test]
fn switch_timing_keeps_extremes() {
    let mut t = SwitchTimingData::new();
    t.record_switch_time(500);
    t.record_switch_time(200);
    t.record_switch_time(900);
    assert_eq!(t.total_switches, 0);
    assert_eq!(t.measurement_count, 3);
    assert_eq!(t.total_switch_time_ns, 1600);
    assert_eq!(t.fastest_switch_ns, 200);
    assert_eq!(t.slowest_switch_ns, 900);
}

#[test]
fn benchmark_adopts_settings_only_when_ten_percent_faster() {
    let config = OptimizationConfig {
        enable_timing: true,
        use_optimized_assembly: false,
        enable_stack_prefetch: false,
        minimize_register_saves: false,
        target_switch_time_ns: 1000,
        warmup_switches: 10,
    };
    let mut o = ContextSwitchOptimizer::new(NoOpArch, config);
    // 1200 ns against 1000 ns per switch: 20% faster, adopted.
    let r = o.run_optimization_benchmark(12_000_000, 10_000_000);
    assert_eq!(r.standard_avg_ns, 1200);
    assert_eq!(r.optimized_avg_ns, 1000);
    assert!(r.meets_target);
    assert!(r.recommended_config.use_optimized_assembly);
    o.apply_optimizations(&r);
    assert!(o.get_switch_stats().optimization_enabled);
    // 1050 ns against 1000 ns: only 5% faster, kept as it was.
    let mut o2 = ContextSwitchOptimizer::new(NoOpArch, config);
    let r2 = o2.run_optimization_benchmark(10_500_000, 10_000_000);
    o2.apply_optimizations(&r2);
    assert!(!o2.get_switch_stats().optimization_enabled);
}

#[test]
fn numa_single_node_topology() {
    let t = NumaTopology::single_node(4);
    assert_eq!(t.get_cpu_node(3), 0);
    assert_eq!(t.get_cpu_node(17), 0);
    assert_eq!(t.get_node_cpus(0), &[0, 1, 2, 3]);
    assert!(t.get_node_cpus(1).is_empty());
    assert_eq!(t.get_distance(0, 0), 10);
    assert_eq!(t.get_distance(0, 1), u32::MAX);
    assert_eq!(t.find_closest_node(0, &[]), None);
}

#[test]
fn numa_closest_node_skips_excluded_and_unknown() {
    let t = NumaTopology {
        node_count: 3,
        cpu_to_node: vec![0, 1, 2],
        node_to_cpus: vec![vec![0], vec![1], vec![2]],
        distance_matrix: vec![vec![10, 20, 15], vec![20, 10, 30], vec![15, 30, 10]],
        node_memory_capacity: vec![1, 1, 1],
    };
    assert_eq!(t.find_closest_node(0, &[]), Some(2));
    assert_eq!(t.find_closest_node(0, &[2]), Some(1));
    assert_eq!(t.find_closest_node(0, &[1, 2]), None);
}

#[test]
fn numa_placement_policies() {
    let t = NumaTopology {
        node_count: 3,
        cpu_to_node: vec![0, 1, 2, 2],
        node_to_cpus: vec![vec![0], vec![1], vec![2, 3]],
        distance_matrix: vec![vec![10, 20, 15], vec![20, 10, 30], vec![15, 30, 10]],
        node_memory_capacity: vec![1, 1, 1],
    };
    let mut s = NumaAwareScheduler::new(config_with(4, 3), t);
    assert_eq!(s.find_optimal_placement(7, 3), 2);
    s.set_placement_policy(NumaPlacementPolicy::Interleave);
    assert_eq!(s.find_optimal_placement(7, 3), 1);
    s.set_placement_policy(NumaPlacementPolicy::Spread);
    assert_eq!(s.find_optimal_placement(7, 3), 0);
    s.set_placement_policy(NumaPlacementPolicy::Preferred(1));
    assert_eq!(s.find_optimal_placement(7, 3), 1);
    s.set_placement_policy(NumaPlacementPolicy::Preferred(9));
    assert_eq!(s.find_optimal_placement(7, 0), 0);
    // Idle nodes need no balancing and no migration.
    assert_eq!(s.should_balance_load(), None);
    assert!(s.suggest_migration(0, 2).is_none());
    let stats = s.get_numa_stats();
    assert_eq!(stats.len(), 3);
    assert_eq!(stats[2].node_id, 2);
    assert_eq!(stats[2].load_doubled, 0);
    let e = s.get_numa_efficiency();
    assert_eq!(e.active_nodes, 0);
    assert_eq!(e.max_load_doubled, 0);
    assert_eq!(e.min_load_doubled, Some(0));
}

#[test]
fn per_cpu_pool_routes_size_classes_and_counts() {
    let mut counters = PerfCounters::new();
    let mut pool: PerCpuMemoryPool<u32> = PerCpuMemoryPool::new(2, PoolConfig::default());
    assert!(pool.needs_refill());
    assert_eq!(pool.allocate_stack(StackSizeClass::Small, &mut counters), None);
    pool.deallocate_stack(7, StackSizeClass::Large);
    pool.deallocate_stack(8, StackSizeClass::ExtraLarge);
    assert_eq!(pool.allocate_stack(StackSizeClass::Large, &mut counters), Some(8));
    assert_eq!(pool.allocate_stack(StackSizeClass::ExtraLarge, &mut counters), Some(7));
    assert_eq!(pool.allocate_stack(StackSizeClass::Medium, &mut counters), None);
    pool.trigger_refill();
    let u = pool.get_utilization();
    assert_eq!(u.cpu_id, 2);
    assert_eq!((u.total_allocations, u.total_deallocations), (4, 2));
    assert_eq!((u.cache_hits, u.cache_misses), (2, 2));
    assert_eq!(pool.stats.pool_refills, 1);
    assert_eq!(pool.stats.cross_cpu_allocations, 0);
}

#[test]
fn pool_manager_falls_back_for_unknown_cpus() {
    let mut counters = PerfCounters::new();
    let config = config_with(2, 1);
    let mut m: MemoryPoolManager<u32> = init_per_cpu_pools(&config);
    assert!(m.get_cpu_pool(1).is_some());
    assert!(m.get_cpu_pool(2).is_none());
    assert!(m.get_cpu_pool(0).unwrap().fallback_attached);
    assert_eq!(m.allocate_stack(0, StackSizeClass::Small, &mut counters), None);
    assert_eq!(m.get_cpu_pool(0).unwrap().stats.cross_cpu_allocations, 1);
    m.deallocate_stack(9, 1, StackSizeClass::Small);
    m.deallocate_stack(9, 2, StackSizeClass::Small);
    assert_eq!(m.allocate_stack(9, StackSizeClass::Small, &mut counters), Some(1));
    assert_eq!(m.allocate_stack(9, StackSizeClass::Small, &mut counters), Some(2));
    assert_eq!(m.allocate_stack(9, StackSizeClass::Small, &mut counters), None);
    m.deallocate_stack(1, 5, StackSizeClass::Medium);
    assert_eq!(m.allocate_stack(1, StackSizeClass::Medium, &mut counters), Some(5));
    let s = m.get_system_stats();
    assert_eq!(s.per_cpu_pools, 2);
    assert_eq!((s.total_allocations, s.total_deallocations), (2, 1));
    assert_eq!((s.cache_hits, s.cache_misses), (1, 1));
    assert_eq!(s.emergency_allocations, 3);
}
