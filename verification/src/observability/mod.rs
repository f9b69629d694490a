pub mod health;
pub mod metrics;
pub mod profiler;
pub mod resource_limits;

use vstd::prelude::*;
use crate::observability::health::{HealthMonitor, HealthMonitorConfig, default_health_config, init_health_monitor, cleanup_health_monitor};
use crate::observability::metrics::{MetricsCollector, SystemMetrics, init_metrics_collector, cleanup_metrics};
use crate::observability::profiler::{ThreadProfiler, ProfilerConfig, init_profiler, cleanup_profiler};
use crate::observability::resource_limits::{ResourceLimiter, init_resource_limiter, cleanup_resource_limiter};

verus! {

/// Which observability subsystems to start, and how.
#[derive(Debug, Clone, Copy)]
pub struct ObservabilityConfig {
    pub enable_metrics: bool,
    pub enable_limits: bool,
    pub enable_profiling: bool,
    pub enable_health: bool,
    pub metrics_interval_ms: u32,
    pub health_check_interval_ms: u32,
    pub max_profile_samples: usize,
}

impl ObservabilityConfig {
    /// The default settings: limits and health always on, metrics and
    /// profiling in debug builds only; metrics every second, health checks
    /// every 5 s, 1000 profiling samples.
    pub fn default_for(debug_build: bool) -> (c: Self)
        ensures
            c == (ObservabilityConfig {
                enable_metrics: debug_build,
                enable_limits: true,
                enable_profiling: debug_build,
                enable_health: true,
                metrics_interval_ms: 1000,
                health_check_interval_ms: 5000,
                max_profile_samples: 1000,
            }),
    {
        ObservabilityConfig {
            enable_metrics: debug_build,
            enable_limits: true,
            enable_profiling: debug_build,
            enable_health: true,
            metrics_interval_ms: 1000,
            health_check_interval_ms: 5000,
            max_profile_samples: 1000,
        }
    }
}

/// The profiler settings that `init_observability` uses: the defaults of
/// a release build with room for `max_samples` samples.
pub open spec fn profiling_config(max_samples: usize) -> ProfilerConfig {
    ProfilerConfig {
        max_samples,
        sampling_enabled: true,
        sampling_interval_us: 1000,
        stack_tracing_enabled: false,
        max_stack_depth: 32,
        memory_tracking_enabled: true,
        scheduler_tracking_enabled: true,
    }
}

/// Starts the subsystems that `config` turns on, at time `now`; the others
/// are left as they are.
pub fn init_observability(
    config: ObservabilityConfig,
    metrics: &mut MetricsCollector,
    limiter: &mut ResourceLimiter,
    profiler: &mut ThreadProfiler,
    monitor: &mut HealthMonitor,
    now: u64,
) -> (r: Result<(), &'static str>)
    requires
        old(monitor).wf(),
    ensures
        r is Ok,
        final(monitor).wf(),
        config.enable_metrics ==> final(metrics).spec_enabled()
            && final(metrics).interval_ms() == config.metrics_interval_ms
            && final(metrics).threads() == old(metrics).threads()
            && final(metrics).system() == (SystemMetrics { system_uptime_ns: now, ..old(metrics).system() }),
        !config.enable_metrics ==> *final(metrics) == *old(metrics),
        config.enable_limits ==> final(limiter).spec_enabled() && final(limiter).same_but_enabled(old(limiter)),
        !config.enable_limits ==> *final(limiter) == *old(limiter),
        config.enable_profiling ==> final(profiler).spec_enabled()
            && final(profiler).config_spec() == profiling_config(config.max_profile_samples)
            && final(profiler).started() == Some(now)
            && final(profiler).samples_spec() == old(profiler).samples_spec()
            && final(profiler).stats() == old(profiler).stats(),
        !config.enable_profiling ==> *final(profiler) == *old(profiler),
        config.enable_health ==> final(monitor).spec_enabled() && final(monitor).config_spec() == (
        HealthMonitorConfig { check_interval_ms: config.health_check_interval_ms, ..default_health_config() }),
        !config.enable_health ==> *final(monitor) == *old(monitor),
{
    if config.enable_metrics {
        init_metrics_collector(metrics, config.metrics_interval_ms, now)?;
    }
    if config.enable_limits {
        init_resource_limiter(limiter)?;
    }
    if config.enable_profiling {
        let pc = ProfilerConfig {
            max_samples: config.max_profile_samples,
            sampling_enabled: true,
            sampling_interval_us: 1000,
            stack_tracing_enabled: false,
            max_stack_depth: 32,
            memory_tracking_enabled: true,
            scheduler_tracking_enabled: true,
        };
        init_profiler(profiler, pc, now)?;
    }
    if config.enable_health {
        init_health_monitor(monitor, config.health_check_interval_ms)?;
    }
    Ok(())
}

/// Stops every subsystem.
pub fn cleanup_observability(
    metrics: &mut MetricsCollector,
    limiter: &mut ResourceLimiter,
    profiler: &mut ThreadProfiler,
    monitor: &mut HealthMonitor,
)
    ensures
        !final(metrics).spec_enabled(),
        !final(limiter).spec_enabled(),
        !final(profiler).spec_enabled(),
        !final(monitor).spec_enabled(),
        final(metrics).threads() == old(metrics).threads(),
        final(limiter).same_but_enabled(old(limiter)),
        final(profiler).samples_spec() == old(profiler).samples_spec(),
        final(monitor).history_spec() == old(monitor).history_spec(),
{
    cleanup_metrics(metrics);
    cleanup_resource_limiter(limiter);
    cleanup_profiler(profiler);
    cleanup_health_monitor(monitor);
}

} // verus!
