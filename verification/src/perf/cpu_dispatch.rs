use vstd::prelude::*;
use crate::arch::detection::{CpuArch, CpuFeatures};
use crate::perf::{PerfConfig, PerfCounters};
use crate::perf::fast_paths::after_lockfree;
use crate::observability::metrics::wrap_add;

verus! {

/// Which implementations serve the byte operations. Every architecture
/// this build knows uses the portable ones, so the table records whether
/// they are installed.
#[derive(Debug, Clone, Copy)]
pub struct CpuDispatchTable {
    pub memcpy_installed: bool,
    pub memset_installed: bool,
    pub hash_installed: bool,
    pub string_functions_installed: bool,
    pub compression_installed: bool,
    pub cpu_features: CpuFeatures,
    pub dispatch_initialized: bool,
    pub simd_operations: u64,
    pub scalar_fallbacks: u64,
}

/// The table before initialization: nothing installed, features of an
/// unknown single-core CPU with 64-byte lines.
pub open spec fn empty_dispatch() -> CpuDispatchTable {
    CpuDispatchTable {
        memcpy_installed: false,
        memset_installed: false,
        hash_installed: false,
        string_functions_installed: false,
        compression_installed: false,
        cpu_features: CpuFeatures {
            arch: CpuArch::Unknown,
            cache_line_size: 64,
            cpu_cores: 1,
            supports_fpu: false,
            supports_vector: false,
            supports_atomic_cas: false,
            supports_memory_ordering: false,
        },
        dispatch_initialized: false,
        simd_operations: 0,
        scalar_fallbacks: 0,
    }
}

impl CpuDispatchTable {
    /// The table before initialization.
    pub fn new() -> (t: Self)
        ensures
            t == empty_dispatch(),
    {
        CpuDispatchTable {
            memcpy_installed: false,
            memset_installed: false,
            hash_installed: false,
            string_functions_installed: false,
            compression_installed: false,
            cpu_features: CpuFeatures {
                arch: CpuArch::Unknown,
                cache_line_size: 64,
                cpu_cores: 1,
                supports_fpu: false,
                supports_vector: false,
                supports_atomic_cas: false,
                supports_memory_ordering: false,
            },
            dispatch_initialized: false,
            simd_operations: 0,
            scalar_fallbacks: 0,
        }
    }
}

/// Installs the implementations for the features of `config`: byte copy
/// and fill, hashing and the string functions always, compression when
/// vector units exist.
pub fn init_cpu_dispatch(table: &mut CpuDispatchTable, config: &PerfConfig)
    ensures
        *final(table) == (CpuDispatchTable {
            memcpy_installed: true,
            memset_installed: true,
            hash_installed: true,
            string_functions_installed: true,
            compression_installed: old(table).compression_installed || config.cpu_features.supports_vector,
            cpu_features: config.cpu_features,
            dispatch_initialized: true,
            ..*old(table)
        }),
{
    let features = config.cpu_features;
    init_memory_functions(table, &features);
    init_hash_functions(table, &features);
    init_string_functions(table, &features);
    if features.supports_vector {
        init_compression_functions(table, &features);
    }
    table.cpu_features = features;
    table.dispatch_initialized = true;
}

/// Installs byte copy and fill for `features`: this build has only the
/// portable ones, for every architecture.
fn init_memory_functions(table: &mut CpuDispatchTable, features: &CpuFeatures)
    ensures
        *final(table) == (CpuDispatchTable { memcpy_installed: true, memset_installed: true, ..*old(table) }),
{
    match features.arch {
        _ => {
            table.memcpy_installed = true;
            table.memset_installed = true;
        },
    }
}

/// Installs the byte hash for `features`: the portable one.
fn init_hash_functions(table: &mut CpuDispatchTable, features: &CpuFeatures)
    ensures
        *final(table) == (CpuDispatchTable { hash_installed: true, ..*old(table) }),
{
    table.hash_installed = true;
}

/// Installs length, comparison and search of bytes.
fn init_string_functions(table: &mut CpuDispatchTable, features: &CpuFeatures)
    ensures
        *final(table) == (CpuDispatchTable { string_functions_installed: true, ..*old(table) }),
{
    table.string_functions_installed = true;
}

/// Installs the block compressor.
fn init_compression_functions(table: &mut CpuDispatchTable, features: &CpuFeatures)
    ensures
        *final(table) == (CpuDispatchTable { compression_installed: true, ..*old(table) }),
{
    table.compression_installed = true;
}

/// The number of optional CPU capabilities in `f`.
pub open spec fn optimization_count(f: CpuFeatures) -> nat {
    (if f.supports_vector { 1nat } else { 0nat }) + (if f.supports_atomic_cas { 1nat } else { 0nat }) + (
    if f.supports_memory_ordering { 1nat } else { 0nat })
}

/// Counts the optional CPU capabilities the dispatch can use.
pub fn count_optimizations(features: &CpuFeatures) -> (n: usize)
    ensures
        n == optimization_count(*features),
{
    let mut count: usize = 0;
    if features.supports_vector {
        count = count + 1;
    }
    if features.supports_atomic_cas {
        count = count + 1;
    }
    if features.supports_memory_ordering {
        count = count + 1;
    }
    count
}

/// The FNV-1a hash of `data`.
pub open spec fn fnv1a(data: Seq<u8>) -> u64
    decreases data.len(),
{
    if data.len() == 0 {
        0xcbf29ce484222325u64
    } else {
        (fnv1a(data.drop_last()) ^ (data.last() as u64)).wrapping_mul(0x100000001b3u64)
    }
}

/// FNV-1a over `data`.
pub fn generic_hash(data: &[u8]) -> (h: u64)
    ensures
        h == fnv1a(data@),
{
    let mut hash: u64 = 0xcbf29ce484222325u64;
    let mut i: usize = 0;
    while i < data.len()
        invariant
            i <= data.len(),
            hash == fnv1a(data@.subrange(0, i as int)),
        decreases data.len() - i,
    {
        assert(data@.subrange(0, i + 1).drop_last() == data@.subrange(0, i as int));
        hash = hash ^ (data[i] as u64);
        hash = hash.wrapping_mul(0x100000001b3);
        i = i + 1;
    }
    assert(data@.subrange(0, data@.len() as int) == data@);
    hash
}

/// The length of the zero-terminated string at the start of `s`.
pub fn generic_strlen(s: &[u8]) -> (n: usize)
    requires
        exists|i: int| 0 <= i < s@.len() && s@[i] == 0,
    ensures
        n < s@.len(),
        s@[n as int] == 0,
        forall|i: int| 0 <= i < n ==> s@[i] != 0,
{
    let mut len: usize = 0;
    while s[len] != 0
        invariant
            len < s@.len(),
            forall|i: int| 0 <= i < len ==> s@[i] != 0,
            exists|i: int| len <= i < s@.len() && s@[i] == 0,
        decreases s@.len() - len,
    {
        len = len + 1;
    }
    len
}

/// `a - b` as a signed number.
fn byte_difference(a: u8, b: u8) -> (d: i32)
    ensures
        d == a - b,
{
    (a as i32) - (b as i32)
}

/// Compares the first `len` bytes of `s1` and `s2`: the difference of the
/// first pair that differs, 0 when none does.
pub fn generic_memcmp(s1: &[u8], s2: &[u8], len: usize) -> (r: i32)
    requires
        len <= s1@.len(),
        len <= s2@.len(),
    ensures
        r == 0 <==> forall|i: int| 0 <= i < len ==> s1@[i] == s2@[i],
        r != 0 ==> exists|k: int|
            0 <= k < len && s1@[k] != s2@[k] && r == s1@[k] - s2@[k] && forall|i: int|
                0 <= i < k ==> s1@[i] == s2@[i],
{
    let mut i: usize = 0;
    while i < len
        invariant
            i <= len,
            len <= s1@.len(),
            len <= s2@.len(),
            forall|j: int| 0 <= j < i ==> s1@[j] == s2@[j],
        decreases len - i,
    {
        let a = s1[i];
        let b = s2[i];
        if a != b {
            return byte_difference(a, b);
        }
        i = i + 1;
    }
    0
}

/// The position of the first `needle` among the first `len` bytes of
/// `haystack`.
pub fn generic_memchr(haystack: &[u8], needle: u8, len: usize) -> (r: Option<usize>)
    requires
        len <= haystack@.len(),
    ensures
        r matches Some(k) ==> k < len && haystack@[k as int] == needle && forall|i: int|
            0 <= i < k ==> haystack@[i] != needle,
        r is None ==> forall|i: int| 0 <= i < len ==> haystack@[i] != needle,
{
    let mut i: usize = 0;
    while i < len
        invariant
            i <= len,
            len <= haystack@.len(),
            forall|j: int| 0 <= j < i ==> haystack@[j] != needle,
        decreases len - i,
    {
        if haystack[i] == needle {
            return Some(i);
        }
        i = i + 1;
    }
    None
}

/// Copies as much of `input` as fits into `output`; returns the number of
/// bytes copied.
pub fn generic_compress_lz4(input: &[u8], output: &mut Vec<u8>) -> (n: usize)
    ensures
        n == if input@.len() < old(output)@.len() {
            input@.len()
        } else {
            old(output)@.len()
        },
        final(output)@ == input@.subrange(0, n as int) + old(output)@.subrange(n as int, old(output)@.len() as int),
{
    let n = if input.len() < output.len() {
        input.len()
    } else {
        output.len()
    };
    let mut i: usize = 0;
    while i < n
        invariant
            i <= n,
            n <= input@.len(),
            n <= old(output)@.len(),
            output@.len() == old(output)@.len(),
            forall|j: int| 0 <= j < i ==> output@[j] == input@[j],
            forall|j: int| i <= j < output@.len() ==> output@[j] == old(output)@[j],
        decreases n - i,
    {
        output.set(i, input[i]);
        i = i + 1;
    }
    assert(output@ == input@.subrange(0, n as int) + old(output)@.subrange(n as int, old(output)@.len() as int));
    n
}

/// Copies the first `len` bytes of `src` over those of `dst`, through the
/// installed implementation (counted as a SIMD operation) or the portable
/// fallback (counted as a lock-free operation).
pub fn optimized_memcpy(table: &CpuDispatchTable, counters: &mut PerfCounters, dst: &mut Vec<u8>, src: &[u8], len: usize)
    requires
        len <= old(dst)@.len(),
        len <= src@.len(),
    ensures
        final(dst)@ == src@.subrange(0, len as int) + old(dst)@.subrange(len as int, old(dst)@.len() as int),
        table.memcpy_installed ==> *final(counters) == (PerfCounters {
            simd_operations: wrap_add(old(counters).simd_operations, 1),
            ..*old(counters)
        }),
        !table.memcpy_installed ==> *final(counters) == after_lockfree(*old(counters)),
{
    if table.memcpy_installed {
        counters.record_simd_operation();
    } else {
        counters.record_lockfree_operation();
    }
    let mut i: usize = 0;
    while i < len
        invariant
            i <= len,
            len <= src@.len(),
            len <= old(dst)@.len(),
            dst@.len() == old(dst)@.len(),
            forall|j: int| 0 <= j < i ==> dst@[j] == src@[j],
            forall|j: int| i <= j < dst@.len() ==> dst@[j] == old(dst)@[j],
        decreases len - i,
    {
        dst.set(i, src[i]);
        i = i + 1;
    }
    assert(dst@ == src@.subrange(0, len as int) + old(dst)@.subrange(len as int, old(dst)@.len() as int));
}

/// Sets the first `len` bytes of `dst` to `val`, counted as
/// `optimized_memcpy` counts.
pub fn optimized_memset(table: &CpuDispatchTable, counters: &mut PerfCounters, dst: &mut Vec<u8>, val: u8, len: usize)
    requires
        len <= old(dst)@.len(),
    ensures
        final(dst)@.len() == old(dst)@.len(),
        forall|j: int| 0 <= j < len ==> final(dst)@[j] == val,
        forall|j: int| len <= j < old(dst)@.len() ==> final(dst)@[j] == old(dst)@[j],
        table.memset_installed ==> *final(counters) == (PerfCounters {
            simd_operations: wrap_add(old(counters).simd_operations, 1),
            ..*old(counters)
        }),
        !table.memset_installed ==> *final(counters) == after_lockfree(*old(counters)),
{
    if table.memset_installed {
        counters.record_simd_operation();
    } else {
        counters.record_lockfree_operation();
    }
    let mut i: usize = 0;
    while i < len
        invariant
            i <= len,
            len <= old(dst)@.len(),
            dst@.len() == old(dst)@.len(),
            forall|j: int| 0 <= j < i ==> dst@[j] == val,
            forall|j: int| i <= j < dst@.len() ==> dst@[j] == old(dst)@[j],
        decreases len - i,
    {
        dst.set(i, val);
        i = i + 1;
    }
}

/// Counters and features of the dispatch.
#[derive(Debug, Clone, Copy)]
pub struct CpuDispatchStats {
    pub simd_operations: u64,
    pub scalar_fallbacks: u64,
    pub dispatch_initialized: bool,
    pub detected_features: CpuFeatures,
}

/// The counters and features of `table`.
pub fn get_dispatch_stats(table: &CpuDispatchTable) -> (s: CpuDispatchStats)
    ensures
        s == (CpuDispatchStats {
            simd_operations: table.simd_operations,
            scalar_fallbacks: table.scalar_fallbacks,
            dispatch_initialized: table.dispatch_initialized,
            detected_features: table.cpu_features,
        }),
{
    CpuDispatchStats {
        simd_operations: table.simd_operations,
        scalar_fallbacks: table.scalar_fallbacks,
        dispatch_initialized: table.dispatch_initialized,
        detected_features: table.cpu_features,
    }
}

} // verus!
