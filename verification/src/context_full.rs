use vstd::prelude::*;

verus! {

/// Size of the FPU/SSE save area, in bytes.
pub const XSAVE_AREA_SIZE: usize = 512;

/// RFLAGS of a new thread: interrupts enabled.
pub const INITIAL_RFLAGS: u64 = 0x202;

/// MXCSR of a new thread: all SSE exceptions masked.
pub const INITIAL_MXCSR: u32 = 0x1F80;

/// Full x86_64 thread context: callee-saved registers, flags, and the
/// FPU/SSE state.
pub struct FullThreadContext {
    pub rsp: u64,
    pub rbp: u64,
    pub rbx: u64,
    pub r12: u64,
    pub r13: u64,
    pub r14: u64,
    pub r15: u64,
    pub rflags: u64,
    pub xsave_area: [u8; 512],
    pub mxcsr: u32,
    pub mxcsr_mask: u32,
}

impl FullThreadContext {
    /// A zeroed context with interrupts enabled and the default SSE control.
    pub fn new() -> (c: Self)
        ensures
            c.rsp == 0 && c.rbp == 0 && c.rbx == 0,
            c.r12 == 0 && c.r13 == 0 && c.r14 == 0 && c.r15 == 0,
            c.rflags == INITIAL_RFLAGS,
            forall|i: int| 0 <= i < XSAVE_AREA_SIZE ==> c.xsave_area[i] == 0,
            c.mxcsr == INITIAL_MXCSR,
            c.mxcsr_mask == 0xFFFF,
    {
        FullThreadContext {
            rsp: 0,
            rbp: 0,
            rbx: 0,
            r12: 0,
            r13: 0,
            r14: 0,
            r15: 0,
            rflags: INITIAL_RFLAGS,
            xsave_area: [0u8; 512],
            mxcsr: INITIAL_MXCSR,
            mxcsr_mask: 0xFFFF,
        }
    }
}

/// Extended-state features of an x86_64 CPU.
#[derive(Debug, Clone, Copy, PartialEq, Eq, Structural)]
pub struct CpuFeatures {
    pub xsave: bool,
    pub avx: bool,
    pub avx2: bool,
    pub avx512f: bool,
    pub fma: bool,
    pub xsave_mask: u64,
}

impl CpuFeatures {
    /// No feature.
    pub fn none() -> (f: Self)
        ensures
            !f.xsave && !f.avx && !f.avx2 && !f.avx512f && !f.fma && f.xsave_mask == 0,
    {
        CpuFeatures { xsave: false, avx: false, avx2: false, avx512f: false, fma: false, xsave_mask: 0 }
    }
}

/// Bit `i` of a CPUID register.
pub open spec fn reg_bit(r: u32, i: u32) -> bool {
    (r & (1u32 << i)) != 0
}

/// The features described by CPUID leaf 1 (`leaf1_ecx`), leaf 7 sub-leaf 0
/// (`leaf7_ebx`) and leaf 0xD sub-leaf 0 (`leaf_d_eax`, `leaf_d_edx`; used
/// only when XSAVE is present): XSAVE is ECX bit 26, AVX bit 28 and FMA bit
/// 12 of leaf 1; AVX2 is EBX bit 5 and AVX-512F bit 16 of leaf 7; the XSAVE
/// mask is EDX:EAX of leaf 0xD.
pub fn check_cpu_features(leaf1_ecx: u32, leaf7_ebx: u32, leaf_d_eax: u32, leaf_d_edx: u32) -> (f: CpuFeatures)
    ensures
        f.xsave == reg_bit(leaf1_ecx, 26),
        f.avx == reg_bit(leaf1_ecx, 28),
        f.fma == reg_bit(leaf1_ecx, 12),
        f.avx2 == reg_bit(leaf7_ebx, 5),
        f.avx512f == reg_bit(leaf7_ebx, 16),
        f.xsave ==> f.xsave_mask == leaf_d_edx as int * 0x1_0000_0000 + leaf_d_eax as int,
        !f.xsave ==> f.xsave_mask == 0,
{
    let mut features = CpuFeatures::none();
    features.xsave = (leaf1_ecx & (1u32 << 26u32)) != 0;
    features.avx = (leaf1_ecx & (1u32 << 28u32)) != 0;
    features.fma = (leaf1_ecx & (1u32 << 12u32)) != 0;
    features.avx2 = (leaf7_ebx & (1u32 << 5u32)) != 0;
    features.avx512f = (leaf7_ebx & (1u32 << 16u32)) != 0;
    if features.xsave {
        let hi = leaf_d_edx as u64;
        let lo = leaf_d_eax as u64;
        let mask = (hi << 32u64) | lo;
        assert(mask == hi * 0x1_0000_0000 + lo) by (bit_vector)
            requires
                hi < 0x1_0000_0000,
                lo < 0x1_0000_0000,
                mask == (hi << 32u64) | lo,
        ;
        features.xsave_mask = mask;
    }
    features
}

} // verus!
