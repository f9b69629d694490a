use vstd::prelude::*;
use crate::arch::Arch;
use crate::perf::PerfCounters;
use crate::observability::metrics::wrap_add;

verus! {

/// How context switches are made and measured.
#[derive(Debug, Clone, Copy, PartialEq, Eq, Structural)]
pub struct OptimizationConfig {
    pub enable_timing: bool,
    pub use_optimized_assembly: bool,
    pub enable_stack_prefetch: bool,
    pub minimize_register_saves: bool,
    pub target_switch_time_ns: u32,
    pub warmup_switches: u32,
}

/// Everything on, a 1 µs target, 1000 warm-up switches.
pub open spec fn default_optimization() -> OptimizationConfig {
    OptimizationConfig {
        enable_timing: true,
        use_optimized_assembly: true,
        enable_stack_prefetch: true,
        minimize_register_saves: true,
        target_switch_time_ns: 1000,
        warmup_switches: 1000,
    }
}

impl Default for OptimizationConfig {
    /// Everything on, a 1 µs target, 1000 warm-up switches.
    fn default() -> (c: Self)
        ensures
            c == default_optimization(),
    {
        OptimizationConfig {
            enable_timing: true,
            use_optimized_assembly: true,
            enable_stack_prefetch: true,
            minimize_register_saves: true,
            target_switch_time_ns: 1000,
            warmup_switches: 1000,
        }
    }
}

/// The number of recent switch times kept.
pub const RECENT_TIMES: usize = 64;

/// Measured switch times; the counters wrap around.
#[derive(Debug, Clone, Copy)]
pub struct SwitchTimingData {
    pub total_switches: u64,
    pub total_switch_time_ns: u64,
    pub fastest_switch_ns: u32,
    pub slowest_switch_ns: u32,
    pub measurement_count: u64,
    pub recent_times: [u32; 64],
    pub recent_index: u32,
}

/// `ns` clamped to the range of a `u32`.
pub open spec fn clamp_u32(ns: u64) -> u32 {
    if ns > u32::MAX {
        u32::MAX
    } else {
        ns as u32
    }
}

impl SwitchTimingData {
    /// Nothing measured: the fastest time starts at `u32::MAX`.
    pub fn new() -> (d: Self)
        ensures
            d.total_switches == 0,
            d.total_switch_time_ns == 0,
            d.fastest_switch_ns == u32::MAX,
            d.slowest_switch_ns == 0,
            d.measurement_count == 0,
            d.recent_times@ == Seq::new(64, |i: int| 0u32),
            d.recent_index == 0,
    {
        let d = SwitchTimingData {
            total_switches: 0,
            total_switch_time_ns: 0,
            fastest_switch_ns: u32::MAX,
            slowest_switch_ns: 0,
            measurement_count: 0,
            recent_times: [0u32; 64],
            recent_index: 0,
        };
        assert(d.recent_times@ == Seq::new(64, |i: int| 0u32));
        d
    }

    /// Adds a measured switch of `elapsed_ns`: to the total and the count,
    /// to the fastest and slowest (clamped to a `u32`), and to the ring of
    /// recent times at the next position.
    pub fn record_switch_time(&mut self, elapsed_ns: u64)
        ensures
            final(self).total_switches == old(self).total_switches,
            final(self).total_switch_time_ns == wrap_add(old(self).total_switch_time_ns, elapsed_ns),
            final(self).measurement_count == wrap_add(old(self).measurement_count, 1),
            final(self).fastest_switch_ns == if clamp_u32(elapsed_ns) < old(self).fastest_switch_ns {
                clamp_u32(elapsed_ns)
            } else {
                old(self).fastest_switch_ns
            },
            final(self).slowest_switch_ns == if clamp_u32(elapsed_ns) > old(self).slowest_switch_ns {
                clamp_u32(elapsed_ns)
            } else {
                old(self).slowest_switch_ns
            },
            final(self).recent_times@ == old(self).recent_times@.update(
                (old(self).recent_index % 64) as int,
                clamp_u32(elapsed_ns),
            ),
            final(self).recent_index == old(self).recent_index.wrapping_add(1),
    {
        let elapsed_u32: u32 = if elapsed_ns > 0xffff_ffffu64 {
            u32::MAX
        } else {
            elapsed_ns as u32
        };
        self.total_switch_time_ns = self.total_switch_time_ns.wrapping_add(elapsed_ns);
        self.measurement_count = self.measurement_count.wrapping_add(1);
        if elapsed_u32 < self.fastest_switch_ns {
            self.fastest_switch_ns = elapsed_u32;
        }
        if elapsed_u32 > self.slowest_switch_ns {
            self.slowest_switch_ns = elapsed_u32;
        }
        let index = (self.recent_index % 64) as usize;
        self.recent_index = self.recent_index.wrapping_add(1);
        self.recent_times[index] = elapsed_u32;
    }
}

/// Summary of the measured switches.
#[derive(Debug, Clone, Copy)]
pub struct ContextSwitchStats {
    pub total_switches: u64,
    pub total_switch_time_ns: u64,
    pub average_switch_time_ns: u32,
    pub fastest_switch_ns: u32,
    pub slowest_switch_ns: u32,
    pub measurement_count: u64,
    pub meets_target: bool,
    pub optimization_enabled: bool,
}

/// Average times of the two benchmark runs and the settings they favour.
#[derive(Debug, Clone, Copy)]
pub struct OptimizationResults {
    pub standard_avg_ns: u32,
    pub optimized_avg_ns: u32,
    pub meets_target: bool,
    pub recommended_config: OptimizationConfig,
}

/// The number of switches in each benchmark run.
pub const BENCHMARK_ITERATIONS: u64 = 10000;

/// Whether the optimized switch is more than 10% faster: the ratio of the
/// standard to the optimized average exceeds 1.1.
pub open spec fn improves(r: OptimizationResults) -> bool {
    r.optimized_avg_ns > 0 && 10 * r.standard_avg_ns > 11 * r.optimized_avg_ns
}

/// Makes and measures context switches on architecture `A`. The switches
/// themselves and the clock are run by the caller, which hands over the
/// measured times.
pub struct ContextSwitchOptimizer<A: Arch> {
    arch_optimizations: A,
    switch_times: SwitchTimingData,
    config: OptimizationConfig,
}

impl<A: Arch> ContextSwitchOptimizer<A> {
    /// The settings in force.
    pub closed spec fn config_spec(&self) -> OptimizationConfig {
        self.config
    }

    /// The measurements.
    pub closed spec fn timing(&self) -> SwitchTimingData {
        self.switch_times
    }

    /// An optimizer for `arch` with `config` and nothing measured.
    pub fn new(arch: A, config: OptimizationConfig) -> (o: Self)
        ensures
            o.config_spec() == config,
            o.timing().total_switches == 0,
            o.timing().total_switch_time_ns == 0,
            o.timing().measurement_count == 0,
            o.timing().fastest_switch_ns == u32::MAX,
            o.timing().slowest_switch_ns == 0,
    {
        ContextSwitchOptimizer { arch_optimizations: arch, switch_times: SwitchTimingData::new(), config }
    }

    /// Accounts for one switch, with its duration when timing is on.
    /// Returns whether the caller should time the next switch.
    pub fn record_switch(&mut self, counters: &mut PerfCounters, elapsed_ns: Option<u64>) -> (timing: bool)
        ensures
            timing == old(self).config_spec().enable_timing,
            final(self).config_spec() == old(self).config_spec(),
            final(self).timing().total_switches == wrap_add(old(self).timing().total_switches, 1),
            *final(counters) == (PerfCounters {
                optimized_context_switches: wrap_add(old(counters).optimized_context_switches, 1),
                ..*old(counters)
            }),
            !(old(self).config_spec().enable_timing && elapsed_ns is Some) ==> final(self).timing()
                == (SwitchTimingData {
                total_switches: wrap_add(old(self).timing().total_switches, 1),
                ..old(self).timing()
            }),
            old(self).config_spec().enable_timing && elapsed_ns is Some ==> final(self).timing().measurement_count
                == wrap_add(old(self).timing().measurement_count, 1),
    {
        self.switch_times.total_switches = self.switch_times.total_switches.wrapping_add(1);
        counters.record_context_switch();
        if self.config.enable_timing {
            if let Some(ns) = elapsed_ns {
                self.switch_times.record_switch_time(ns);
            }
        }
        self.config.enable_timing
    }

    /// Summary of the measurements: the average is the total over the
    /// measured count (truncated to a `u32`, 0 when nothing was measured),
    /// and it meets the target when it does not exceed it.
    pub open spec fn stats_of(&self) -> ContextSwitchStats {
        let average: u32 = if self.timing().measurement_count > 0 {
            (self.timing().total_switch_time_ns / self.timing().measurement_count) as u32
        } else {
            0
        };
        ContextSwitchStats {
            total_switches: self.timing().total_switches,
            total_switch_time_ns: self.timing().total_switch_time_ns,
            average_switch_time_ns: average,
            fastest_switch_ns: self.timing().fastest_switch_ns,
            slowest_switch_ns: self.timing().slowest_switch_ns,
            measurement_count: self.timing().measurement_count,
            meets_target: average <= self.config_spec().target_switch_time_ns,
            optimization_enabled: self.config_spec().use_optimized_assembly,
        }
    }

    /// Summary of the measurements.
    pub fn get_switch_stats(&self) -> (s: ContextSwitchStats)
        ensures
            s == self.stats_of(),
    {
        let total_time = self.switch_times.total_switch_time_ns;
        let count = self.switch_times.measurement_count;
        let average: u32 = if count > 0 {
            (total_time / count) as u32
        } else {
            0
        };
        ContextSwitchStats {
            total_switches: self.switch_times.total_switches,
            total_switch_time_ns: total_time,
            average_switch_time_ns: average,
            fastest_switch_ns: self.switch_times.fastest_switch_ns,
            slowest_switch_ns: self.switch_times.slowest_switch_ns,
            measurement_count: count,
            meets_target: average <= self.config.target_switch_time_ns,
            optimization_enabled: self.config.use_optimized_assembly,
        }
    }

    /// The settings the benchmark tries: the current ones with the
    /// optimized sequence and minimal register saves.
    pub open spec fn optimized_settings(&self) -> OptimizationConfig {
        OptimizationConfig {
            use_optimized_assembly: true,
            minimize_register_saves: true,
            ..self.config_spec()
        }
    }

    /// Evaluates a benchmark in which `BENCHMARK_ITERATIONS` standard
    /// switches took `standard_total_ns` and as many optimized ones took
    /// `optimized_total_ns`: the averages (truncated to `u32`), whether the
    /// optimized average meets the target, and the faster settings.
    pub fn run_optimization_benchmark(&self, standard_total_ns: u64, optimized_total_ns: u64) -> (r: OptimizationResults)
        ensures
            r.standard_avg_ns == (standard_total_ns / BENCHMARK_ITERATIONS) as u32,
            r.optimized_avg_ns == (optimized_total_ns / BENCHMARK_ITERATIONS) as u32,
            r.meets_target == (r.optimized_avg_ns <= self.config_spec().target_switch_time_ns),
            r.recommended_config == if r.optimized_avg_ns < r.standard_avg_ns {
                self.optimized_settings()
            } else {
                self.config_spec()
            },
    {
        let optimized_config = OptimizationConfig {
            use_optimized_assembly: true,
            minimize_register_saves: true,
            ..self.config
        };
        let standard_avg_ns = (standard_total_ns / BENCHMARK_ITERATIONS) as u32;
        let optimized_avg_ns = (optimized_total_ns / BENCHMARK_ITERATIONS) as u32;
        OptimizationResults {
            standard_avg_ns,
            optimized_avg_ns,
            meets_target: optimized_avg_ns <= self.config.target_switch_time_ns,
            recommended_config: if optimized_avg_ns < standard_avg_ns {
                optimized_config
            } else {
                self.config
            },
        }
    }

    /// Takes the recommended settings when they improve switches by more
    /// than 10%.
    pub fn apply_optimizations(&mut self, results: &OptimizationResults)
        ensures
            improves(*results) ==> final(self).config_spec() == results.recommended_config,
            !improves(*results) ==> final(self).config_spec() == old(self).config_spec(),
            final(self).timing() == old(self).timing(),
    {
        let standard = results.standard_avg_ns as u64;
        let optimized = results.optimized_avg_ns as u64;
        if optimized > 0 && 10 * standard > 11 * optimized {
            self.config = results.recommended_config;
        }
    }
}

/// An optimizer for the default architecture with the default settings.
pub fn init_context_switch_optimization<A: Arch>(arch: A) -> (o: ContextSwitchOptimizer<A>)
    ensures
        o.config_spec() == default_optimization(),
        o.timing().measurement_count == 0,
{
    ContextSwitchOptimizer::new(arch, OptimizationConfig::default())
}

/// The summary of `optimizer`, when there is one.
pub fn get_context_switch_stats<A: Arch>(optimizer: &Option<ContextSwitchOptimizer<A>>) -> (s: Option<ContextSwitchStats>)
    ensures
        optimizer is None ==> s is None,
        optimizer is Some ==> s == Some(optimizer->0.stats_of()),
{
    match optimizer {
        Some(o) => Some(o.get_switch_stats()),
        None => None,
    }
}

} // verus!
