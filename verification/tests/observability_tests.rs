use std::collections::BTreeMap;

use preemptive_threads::errors::{ResourceError, ThreadError};
use preemptive_threads::observability::health::{
    calculate_overall_status, record_history, trend_direction, HealthHistoryEntry, HealthIssue,
    HealthMonitor, HealthMonitorConfig, HealthStatus, IssueCategory, IssueSeverity, TrendDirection,
};
use preemptive_threads::observability::metrics::MetricsCollector;
use preemptive_threads::observability::profiler::{
    analyze_context_switches, analyze_hot_spots, analyze_memory_patterns,
    analyze_scheduler_performance, AllocationType, ContextSwitchReason, ProfileSample, SampleType,
    ThreadProfiler, ProfilerConfig,
};
use preemptive_threads::observability::resource_limits::{
    ResourceLimiter, ResourceQuota, ResourceType, ViolationAction,
};

fn issue(severity: IssueSeverity) -> HealthIssue {
    HealthIssue {
        severity,
        category: IssueCategory::Resource,
        description: String::from("test issue"),
        component: String::from("test"),
        detected_at: 0,
        context: BTreeMap::new(),
        remediation: None,
    }
}

fn sample(sample_type: SampleType) -> ProfileSample {
    ProfileSample { thread_id: 1, timestamp: 0, sample_type, memory_usage: 0, call_stack: None }
}

fn cpu(ip: u64) -> ProfileSample {
    sample(SampleType::CpuSample { instruction_pointer: ip, cpu_time_delta: 10 })
}

#[test]
fn health_scores_and_combination() {
    assert_eq!(HealthStatus::Healthy.score(), 100);
    assert_eq!(HealthStatus::Warning.score(), 75);
    assert_eq!(HealthStatus::Critical.score(), 25);
    assert_eq!(HealthStatus::Failed.score(), 0);
    assert_eq!(HealthStatus::Healthy.combine(HealthStatus::Critical), HealthStatus::Critical);
    assert_eq!(HealthStatus::Critical.combine(HealthStatus::Warning), HealthStatus::Critical);
    assert_eq!(HealthStatus::Warning.combine(HealthStatus::Healthy), HealthStatus::Warning);
}

#[test]
fn overall_status_is_the_worst() {
    assert_eq!(calculate_overall_status(&[], &[]), HealthStatus::Healthy);
    let statuses = [HealthStatus::Healthy, HealthStatus::Warning];
    assert_eq!(calculate_overall_status(&statuses, &[]), HealthStatus::Warning);
    let issues = [issue(IssueSeverity::Info), issue(IssueSeverity::Critical)];
    assert_eq!(calculate_overall_status(&statuses, &issues), HealthStatus::Critical);
    let fatal = [issue(IssueSeverity::Fatal)];
    assert_eq!(calculate_overall_status(&[HealthStatus::Healthy], &fatal), HealthStatus::Failed);
}

#[test]
fn health_trend_directions() {
    let entry = |score: u8| HealthHistoryEntry { timestamp: 0, health_score: score, active_issues: 0 };
    assert_eq!(trend_direction(&[], TrendDirection::Unknown), TrendDirection::Unknown);
    assert_eq!(trend_direction(&[entry(100)], TrendDirection::Degrading), TrendDirection::Degrading);
    let five = [entry(100), entry(100), entry(100), entry(100), entry(100)];
    assert_eq!(trend_direction(&five, TrendDirection::Unknown), TrendDirection::Stable);
    let three = [entry(0), entry(100), entry(100)];
    assert_eq!(trend_direction(&three, TrendDirection::Unknown), TrendDirection::Stable);
    let mut up = Vec::new();
    for _ in 0..5 {
        up.push(entry(25));
    }
    for _ in 0..5 {
        up.push(entry(100));
    }
    assert_eq!(trend_direction(&up, TrendDirection::Unknown), TrendDirection::Improving);
    let mut down = Vec::new();
    for _ in 0..5 {
        down.push(entry(100));
    }
    for _ in 0..5 {
        down.push(entry(75));
    }
    assert_eq!(trend_direction(&down, TrendDirection::Unknown), TrendDirection::Degrading);
    let mut flat = Vec::new();
    for _ in 0..5 {
        flat.push(entry(75));
    }
    for _ in 0..5 {
        flat.push(entry(77));
    }
    assert_eq!(trend_direction(&flat, TrendDirection::Unknown), TrendDirection::Stable);
}

#[test]
fn history_keeps_the_latest_entries() {
    let mut history = Vec::new();
    for i in 0..5u64 {
        record_history(&mut history, HealthHistoryEntry { timestamp: i, health_score: 100, active_issues: 0 }, 3);
    }
    assert_eq!(history.len(), 3);
    assert_eq!(history[0].timestamp, 2);
    assert_eq!(history[2].timestamp, 4);
}

#[test]
fn health_monitor_records_checks_only_when_on() {
    let mut monitor = HealthMonitor::new(0);
    assert!(!monitor.is_enabled());
    assert_eq!(monitor.record_check(&[HealthStatus::Failed], Vec::new(), 5), HealthStatus::Healthy);
    assert_eq!(monitor.get_stats(), (0, 0, HealthStatus::Healthy));
    monitor.init(HealthMonitorConfig::default()).unwrap();
    assert!(monitor.is_enabled());
    let status = monitor.record_check(
        &[HealthStatus::Healthy, HealthStatus::Healthy],
        vec![issue(IssueSeverity::Warning)],
        10,
    );
    assert_eq!(status, HealthStatus::Warning);
    assert_eq!(monitor.get_stats(), (1, 2, HealthStatus::Warning));
    monitor.disable();
    assert!(!monitor.is_enabled());
}

#[test]
fn health_monitor_keeps_the_trend() {
    let mut monitor = HealthMonitor::new(0);
    monitor.init(HealthMonitorConfig::default()).unwrap();
    monitor.record_check(&[HealthStatus::Failed], Vec::new(), 1);
    assert_eq!(monitor.get_current_health().trend, TrendDirection::Unknown);
    for k in 2..6u64 {
        monitor.record_check(&[HealthStatus::Failed], Vec::new(), k);
    }
    assert_eq!(monitor.get_current_health().trend, TrendDirection::Stable);
    for k in 6..11u64 {
        monitor.record_check(&[HealthStatus::Healthy], Vec::new(), k);
    }
    let report = monitor.get_current_health();
    assert_eq!(report.trend, TrendDirection::Improving);
    assert_eq!(report.overall_status, HealthStatus::Healthy);
    assert_eq!(report.timestamp, 10);
    assert_eq!(report.history_len, 10);
    assert_eq!(report.components, 1);
}

#[test]
fn hard_quota_refuses_with_the_resource_error() {
    let mut limiter = ResourceLimiter::new();
    limiter.init().unwrap();
    limiter.set_thread_quota(1, ResourceQuota::conservative());
    limiter.register_thread(1, 0);
    assert_eq!(limiter.check_resource_limit(1, ResourceType::Memory, 1_048_576, 5), Ok(()));
    assert_eq!(
        limiter.check_resource_limit(1, ResourceType::Memory, 1_048_577, 6),
        Err(ThreadError::Resource(ResourceError::MaxMemoryUsage))
    );
    assert_eq!(
        limiter.check_resource_limit(1, ResourceType::CpuTime, 10_000_000_001, 7),
        Err(ThreadError::Resource(ResourceError::MaxCpuTime))
    );
    assert_eq!(
        limiter.check_resource_limit(1, ResourceType::FileDescriptors, 11, 8),
        Err(ThreadError::Resource(ResourceError::MaxFileDescriptors))
    );
    assert_eq!(
        limiter.check_resource_limit(1, ResourceType::ChildThreads, 6, 9),
        Err(ThreadError::Resource(ResourceError::MaxThreadsPerProcess))
    );
    assert_eq!(
        limiter.check_resource_limit(1, ResourceType::NetworkConnections, 6, 10),
        Err(ThreadError::Resource(ResourceError::ResourceUnavailable))
    );
    let history = limiter.get_violation_history();
    assert_eq!(history.len(), 5);
    assert_eq!(history[0].resource_type, ResourceType::Memory);
    assert_eq!(history[0].current_usage, 1_048_577);
    assert_eq!(history[0].limit, 1_048_576);
    assert_eq!(history[0].suggested_action, ViolationAction::Terminate);
    assert_eq!(history[0].timestamp, 6);
}

#[test]
fn soft_quota_lets_requests_through_but_records_them() {
    let mut limiter = ResourceLimiter::new();
    limiter.init().unwrap();
    limiter.set_default_quota(ResourceQuota::permissive());
    limiter.register_thread(2, 0);
    assert_eq!(limiter.check_resource_limit(2, ResourceType::FileDescriptors, 1001, 3), Ok(()));
    let history = limiter.get_violation_history();
    assert_eq!(history.len(), 1);
    assert_eq!(history[0].suggested_action, ViolationAction::Warn);
    assert!(!history[0].hard_limit);
    // Unlimited resources never raise a violation.
    assert_eq!(limiter.check_resource_limit(2, ResourceType::Memory, u64::MAX, 4), Ok(()));
    assert_eq!(limiter.get_violation_history().len(), 1);
}

#[test]
fn disabled_limiter_lets_everything_through() {
    let mut limiter = ResourceLimiter::new();
    limiter.set_default_quota(ResourceQuota::conservative());
    assert_eq!(limiter.check_resource_limit(1, ResourceType::Memory, u64::MAX, 0), Ok(()));
    assert_eq!(limiter.get_violation_history().len(), 0);
    assert!(!limiter.is_enabled());
}

#[test]
fn limiter_tracks_memory_totals() {
    let mut limiter = ResourceLimiter::new();
    limiter.init().unwrap();
    limiter.register_thread(1, 0);
    limiter.register_thread(2, 0);
    limiter.update_resource_usage(1, ResourceType::Memory, 4096, 1);
    limiter.update_resource_usage(2, ResourceType::Memory, 1000, 1);
    limiter.update_resource_usage(1, ResourceType::Memory, 96, 2);
    let totals = limiter.get_system_usage();
    assert_eq!(totals.total_threads, 2);
    assert_eq!(totals.total_memory_usage, 1096);
}

#[test]
fn metrics_collector_tracks_threads_in_id_order() {
    let mut c = MetricsCollector::new();
    c.register_thread(9, 0);
    assert!(c.get_all_thread_metrics().is_empty());
    c.init(1000, 50).unwrap();
    c.register_thread(3, 60);
    c.register_thread(1, 70);
    let all = c.get_all_thread_metrics();
    assert_eq!(all.len(), 2);
    assert_eq!(all[0].thread_id, 1);
    assert_eq!(all[1].thread_id, 3);
    assert_eq!(all[1].created_at, 60);
    c.record_cpu_time(3, 500, true, 80);
    assert_eq!(c.get_thread_metrics(3).unwrap().cpu_time_ns, 500);
    let report = c.generate_report(150);
    assert_eq!(report.system.threads_created, 2);
    assert_eq!(report.system.active_threads, 2);
    assert_eq!(report.system.total_cpu_time_ns, 500);
    assert_eq!(report.system.uptime_ns, 100);
    assert_eq!(report.threads.len(), 2);
    c.unregister_thread(3);
    assert_eq!(c.get_system_metrics().active_threads, 1);
    assert_eq!(c.get_system_metrics().threads_destroyed, 1);
    assert!(c.get_thread_metrics(3).is_none());
}

#[test]
fn hot_spots_rank_by_count_then_address() {
    let samples = vec![cpu(5), cpu(5), cpu(3), cpu(3), cpu(7), cpu(5), cpu(9), cpu(2)];
    let spots = analyze_hot_spots(&samples);
    let got: Vec<(u64, u64)> = spots.iter().map(|h| (h.address, h.sample_count)).collect();
    assert_eq!(got, vec![(5, 3), (3, 2), (2, 1), (7, 1), (9, 1)]);
    assert!(analyze_hot_spots(&[]).is_empty());
}

#[test]
fn hot_spots_keep_the_top_twenty() {
    let mut samples = Vec::new();
    for ip in 0..25u64 {
        samples.push(cpu(100 - ip));
    }
    samples.push(cpu(90));
    let spots = analyze_hot_spots(&samples);
    assert_eq!(spots.len(), 20);
    assert_eq!((spots[0].address, spots[0].sample_count), (90, 2));
    assert_eq!(spots[1].address, 76);
    assert_eq!(spots[19].address, 95);
}

#[test]
fn memory_patterns_sum_and_peak() {
    let samples = vec![
        sample(SampleType::MemoryAllocation { size: 100, allocation_type: AllocationType::Heap }),
        sample(SampleType::MemoryAllocation { size: 50, allocation_type: AllocationType::Heap }),
        sample(SampleType::MemoryDeallocation { size: 30 }),
        sample(SampleType::MemoryAllocation { size: 10, allocation_type: AllocationType::Stack }),
    ];
    let m = analyze_memory_patterns(&samples);
    assert_eq!(m.total_allocations, 3);
    assert_eq!(m.total_deallocations, 1);
    assert_eq!(m.bytes_allocated, 160);
    assert_eq!(m.bytes_deallocated, 30);
    assert_eq!(m.peak_memory_usage, 150);
    let heap = m.allocation_patterns[1].unwrap();
    assert_eq!(heap.allocation_count, 2);
    assert_eq!(heap.avg_size, 75);
    assert_eq!(heap.max_size, 100);
    assert_eq!(heap.min_size, 50);
    assert!(m.allocation_patterns[2].is_none());
}

#[test]
fn memory_pattern_average_is_per_kind() {
    let samples = vec![
        sample(SampleType::MemoryAllocation { size: 100, allocation_type: AllocationType::Heap }),
        sample(SampleType::MemoryAllocation { size: 300, allocation_type: AllocationType::Stack }),
    ];
    let m = analyze_memory_patterns(&samples);
    let heap = m.allocation_patterns[1].unwrap();
    let stack = m.allocation_patterns[0].unwrap();
    assert_eq!((heap.allocation_count, heap.avg_size), (1, 100));
    assert_eq!((stack.allocation_count, stack.avg_size), (1, 300));
    assert_eq!(m.peak_memory_usage, 400);
}

#[test]
fn context_switch_and_scheduler_figures() {
    let switch = |lat: u64, reason: ContextSwitchReason| {
        sample(SampleType::ContextSwitch { from_thread: 1, to_thread: 2, switch_latency_ns: lat, switch_reason: reason })
    };
    let samples = vec![
        switch(100, ContextSwitchReason::VoluntaryYield),
        switch(300, ContextSwitchReason::TimeSliceExpired),
        switch(200, ContextSwitchReason::VoluntaryYield),
        sample(SampleType::SchedulerDecision { ready_queue_length: 4, selected_priority: 1, decision_latency_ns: 10 }),
        sample(SampleType::SchedulerDecision { ready_queue_length: 6, selected_priority: 1, decision_latency_ns: 30 }),
    ];
    let c = analyze_context_switches(&samples);
    assert_eq!(c.total_switches, 3);
    assert_eq!(c.avg_switch_latency, 200);
    assert_eq!(c.max_switch_latency, 300);
    assert_eq!(c.min_switch_latency, 100);
    assert_eq!(c.switches_by_reason[1], 2);
    assert_eq!(c.switches_by_reason[0], 1);
    let s = analyze_scheduler_performance(&samples);
    assert_eq!(s.total_decisions, 2);
    assert_eq!(s.avg_decision_latency, 20);
    assert_eq!(s.max_decision_latency, 30);
    assert_eq!(s.total_ready_queue_length, 10);
    assert_eq!(s.max_ready_queue_length, 6);
    let none = analyze_context_switches(&[]);
    assert_eq!(none.min_switch_latency, 0);
    assert_eq!(none.avg_switch_latency, 0);
}

#[test]
fn profiler_keeps_every_sample_at_interval_one() {
    let mut p = ThreadProfiler::new();
    let mut config = ProfilerConfig::default_for(false);
    config.sampling_interval_us = 1;
    p.init(config, 1000).unwrap();
    p.record_cpu_sample(4, 0x400, 25, 1001);
    p.record_cpu_sample(4, 0x400, 25, 1002);
    p.record_allocation(4, 64, AllocationType::Heap, 1003);
    assert_eq!(p.get_stats(), (3, 3));
    let d = p.analyze_profile(2000);
    assert_eq!(d.total_samples, 3);
    assert_eq!(d.time_range, (1000, 2000));
    assert_eq!(d.hot_spots.len(), 1);
    assert_eq!(d.hot_spots[0].sample_count, 2);
    assert_eq!(d.memory_patterns.bytes_allocated, 64);
    assert_eq!(d.thread_samples.get(&4).unwrap().total_cpu_time, 50);
}
