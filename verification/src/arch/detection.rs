use vstd::prelude::*;
use core::sync::atomic::Ordering;

verus! {

/// CPU architectures the library knows.
#[derive(Debug, Clone, Copy, PartialEq, Eq, Structural)]
pub enum CpuArch {
    X86_64,
    Aarch64,
    RiscV64,
    Unknown,
}

/// Detected CPU capabilities.
#[derive(Debug, Clone, Copy, PartialEq, Eq, Structural)]
pub struct CpuFeatures {
    pub arch: CpuArch,
    pub cache_line_size: u32,
    pub cpu_cores: u32,
    pub supports_fpu: bool,
    pub supports_vector: bool,
    pub supports_atomic_cas: bool,
    pub supports_memory_ordering: bool,
}

/// Cache line size assumed on every architecture, in bytes.
pub const DEFAULT_CACHE_LINE_SIZE: u32 = 64;

/// The features detection reports for `arch`: 64-byte cache lines, one
/// core, an FPU on x86_64 and AArch64, no vector unit, and compare-and-swap
/// and memory-ordering instructions on every known architecture.
pub open spec fn detected_features(arch: CpuArch) -> CpuFeatures {
    CpuFeatures {
        arch,
        cache_line_size: DEFAULT_CACHE_LINE_SIZE,
        cpu_cores: 1,
        supports_fpu: arch == CpuArch::X86_64 || arch == CpuArch::Aarch64,
        supports_vector: false,
        supports_atomic_cas: arch != CpuArch::Unknown,
        supports_memory_ordering: arch != CpuArch::Unknown,
    }
}

/// Feature detection for `arch`.
pub fn perform_detection(arch: CpuArch) -> (f: CpuFeatures)
    ensures
        f == detected_features(arch),
{
    let cache_line_size = detect_cache_line_size(arch);
    let cpu_cores = detect_cpu_cores();
    CpuFeatures {
        arch,
        cache_line_size,
        cpu_cores,
        supports_fpu: detect_fpu_support(arch),
        supports_vector: detect_vector_support(arch),
        supports_atomic_cas: detect_atomic_cas_support(arch),
        supports_memory_ordering: detect_memory_ordering_support(arch),
    }
}

/// Cache line size of `arch`: 64 bytes.
pub fn detect_cache_line_size(arch: CpuArch) -> (r: u32)
    ensures
        r == DEFAULT_CACHE_LINE_SIZE,
{
    match arch {
        CpuArch::X86_64 => DEFAULT_CACHE_LINE_SIZE,
        CpuArch::Aarch64 => detect_arm64_cache_line_size(),
        CpuArch::RiscV64 => detect_riscv_cache_line_size(),
        CpuArch::Unknown => DEFAULT_CACHE_LINE_SIZE,
    }
}

/// Number of CPU cores: one, as no system information is read.
pub fn detect_cpu_cores() -> (r: u32)
    ensures
        r == 1,
{
    1
}

/// Whether `arch` has an FPU (RISC-V's F extension is not assumed).
pub fn detect_fpu_support(arch: CpuArch) -> (r: bool)
    ensures
        r == (arch == CpuArch::X86_64 || arch == CpuArch::Aarch64),
{
    match arch {
        CpuArch::X86_64 => true,
        CpuArch::Aarch64 => true,
        CpuArch::RiscV64 => detect_riscv_f_extension(),
        CpuArch::Unknown => false,
    }
}

/// Whether vector instructions are used: none is assumed.
pub fn detect_vector_support(arch: CpuArch) -> (r: bool)
    ensures
        !r,
{
    match arch {
        CpuArch::X86_64 => false,
        CpuArch::Aarch64 => false,
        CpuArch::RiscV64 => false,
        CpuArch::Unknown => false,
    }
}

/// Whether `arch` has compare-and-swap.
pub fn detect_atomic_cas_support(arch: CpuArch) -> (r: bool)
    ensures
        r == (arch != CpuArch::Unknown),
{
    match arch {
        CpuArch::X86_64 => true,
        CpuArch::Aarch64 => true,
        CpuArch::RiscV64 => true,
        CpuArch::Unknown => false,
    }
}

/// Whether `arch` has memory-ordering (fence) instructions.
pub fn detect_memory_ordering_support(arch: CpuArch) -> (r: bool)
    ensures
        r == (arch != CpuArch::Unknown),
{
    match arch {
        CpuArch::X86_64 => true,
        CpuArch::Aarch64 => true,
        CpuArch::RiscV64 => true,
        CpuArch::Unknown => false,
    }
}

/// AArch64 cache line size.
pub fn detect_arm64_cache_line_size() -> (r: u32)
    ensures
        r == DEFAULT_CACHE_LINE_SIZE,
{
    DEFAULT_CACHE_LINE_SIZE
}

/// RISC-V cache line size.
pub fn detect_riscv_cache_line_size() -> (r: u32)
    ensures
        r == DEFAULT_CACHE_LINE_SIZE,
{
    DEFAULT_CACHE_LINE_SIZE
}

/// Whether the RISC-V F extension is present: not assumed.
pub fn detect_riscv_f_extension() -> (r: bool)
    ensures
        !r,
{
    false
}

/// Memo of the first feature detection.
pub struct FeatureCache {
    features: Option<CpuFeatures>,
}

impl FeatureCache {
    /// The memoized features, if detection ran.
    pub closed spec fn cached(&self) -> Option<CpuFeatures> {
        self.features
    }

    /// A cache before any detection.
    pub fn new() -> (c: Self)
        ensures
            c.cached() is None,
    {
        FeatureCache { features: None }
    }

    /// The features: the memoized ones when detection already ran, else a
    /// fresh detection for `arch`, which is memoized.
    pub fn detect_cpu_features(&mut self, arch: CpuArch) -> (f: CpuFeatures)
        ensures
            old(self).cached() matches Some(c) ==> f == c && final(self).cached() == Some(c),
            old(self).cached() is None ==> f == detected_features(arch) && final(self).cached()
                == Some(f),
    {
        if let Some(features) = self.features {
            return features;
        }
        let features = perform_detection(arch);
        self.features = Some(features);
        features
    }

    /// The memoized features, if detection ran.
    pub fn get_cpu_features(&self) -> (f: Option<CpuFeatures>)
        ensures
            f == self.cached(),
    {
        self.features
    }
}

/// Chooses implementation strategies from the CPU features.
pub struct RuntimeOptimizer {
    features: CpuFeatures,
}

impl RuntimeOptimizer {
    /// The features the choices rest on.
    pub closed spec fn spec_features(&self) -> CpuFeatures {
        self.features
    }

    /// An optimizer for the features `cache` holds or detects for `arch`.
    pub fn new(cache: &mut FeatureCache, arch: CpuArch) -> (o: Self)
        ensures
            old(cache).cached() matches Some(c) ==> o.spec_features() == c,
            old(cache).cached() is None ==> o.spec_features() == detected_features(arch),
            final(cache).cached() == Some(o.spec_features()),
    {
        RuntimeOptimizer { features: cache.detect_cpu_features(arch) }
    }

    /// The detected features.
    pub fn features(&self) -> (f: &CpuFeatures)
        ensures
            *f == self.spec_features(),
    {
        &self.features
    }

    /// Alignment for cache-line padding.
    pub fn optimal_cache_line_size(&self) -> (r: usize)
        ensures
            r == self.spec_features().cache_line_size,
    {
        self.features.cache_line_size as usize
    }

    /// Lock-free algorithms are preferred when compare-and-swap and memory
    /// ordering are both available.
    pub fn prefer_lock_free(&self) -> (r: bool)
        ensures
            r == (self.spec_features().supports_atomic_cas
                && self.spec_features().supports_memory_ordering),
    {
        self.features.supports_atomic_cas && self.features.supports_memory_ordering
    }

    /// The memory fence to issue for a full barrier: on every architecture
    /// of this build, a sequentially consistent fence.
    pub fn optimal_memory_barrier(&self) -> (o: Ordering)
        ensures
            o == Ordering::SeqCst,
    {
        match self.features.arch {
            CpuArch::X86_64 => Ordering::SeqCst,
            CpuArch::Aarch64 => Ordering::SeqCst,
            CpuArch::RiscV64 => Ordering::SeqCst,
            CpuArch::Unknown => Ordering::SeqCst,
        }
    }

    /// One worker per core, and at least one.
    pub fn recommended_worker_threads(&self) -> (r: usize)
        ensures
            r == if self.spec_features().cpu_cores >= 1 {
                self.spec_features().cpu_cores as usize
            } else {
                1
            },
    {
        let cores = self.features.cpu_cores as usize;
        if cores >= 1 {
            cores
        } else {
            1
        }
    }
}

/// The shared optimizer: a copy of the one `slot` holds, or a new one that
/// is stored in `slot`.
pub fn global_optimizer(slot: &mut Option<RuntimeOptimizer>, cache: &mut FeatureCache, arch: CpuArch) -> (o: RuntimeOptimizer)
    ensures
        (*old(slot)) is Some ==> o.spec_features() == (*old(slot))->0.spec_features() && *final(slot) == *old(slot) && *final(cache) == *old(cache),
        (*old(slot)) is None ==> (*final(slot)) is Some && (*final(slot))->0.spec_features()
            == o.spec_features() && (old(cache).cached() is Some ==> o.spec_features()
            == old(cache).cached()->0) && (old(cache).cached() is None ==> o.spec_features()
            == detected_features(arch)),
{
    if let Some(optimizer) = slot {
        return RuntimeOptimizer { features: optimizer.features };
    }
    let optimizer = RuntimeOptimizer::new(cache, arch);
    *slot = Some(RuntimeOptimizer { features: optimizer.features });
    optimizer
}

} // verus!
