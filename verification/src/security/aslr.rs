use vstd::prelude::*;
use crate::errors::ThreadError;
use crate::security::SecurityConfig;
use crate::security::crypto_rng::{DrawState, SecureRng, draw_next, draw_state, draw_value, stream_u64};
use crate::perf::fast_paths::wrap_inc_usize;
use crate::observability::metrics::wrap_add;

verus! {

/// A memory region: `size` bytes from `start`.
#[derive(Debug, Clone, Copy, PartialEq, Eq, Structural)]
pub struct MemoryRegion {
    pub start: usize,
    pub size: usize,
}

/// Architectures with their own randomization ranges.
#[derive(Debug, Clone, Copy, PartialEq, Eq, Structural)]
pub enum Architecture {
    X86_64,
    Aarch64,
    Riscv64,
    Generic,
}

/// Alignment and range limits of randomization on an architecture.
#[derive(Debug, Clone)]
pub struct ArchConstraints {
    pub arch: Architecture,
    pub min_alignment: usize,
    pub max_randomization: usize,
    pub forbidden_ranges: Vec<MemoryRegion>,
}

impl ArchConstraints {
    /// The constraints of this build: no specific architecture, word
    /// alignment, at most 1 MiB of randomization, no forbidden range.
    pub fn detect() -> (c: Self)
        ensures
            c.arch == Architecture::Generic,
            c.min_alignment == vstd::layout::size_of::<usize>(),
            c.max_randomization == 1048576,
            c.forbidden_ranges@ == Seq::<MemoryRegion>::empty(),
    {
        ArchConstraints {
            arch: Architecture::Generic,
            min_alignment: core::mem::size_of::<usize>(),
            max_randomization: 1048576,
            forbidden_ranges: Vec::new(),
        }
    }
}

/// The page size assumed: 4 KiB.
pub const PAGE_SIZE: usize = 4096;

/// The address space of a process.
#[derive(Debug, Clone)]
pub struct AddressSpaceLayout {
    pub page_size: usize,
    pub address_space_size: usize,
    pub stack_region: MemoryRegion,
    pub heap_region: MemoryRegion,
    pub arch_constraints: ArchConstraints,
}

/// Whether the `size` bytes from `address` lie in region `r`.
pub open spec fn region_fits(r: MemoryRegion, address: int, size: int) -> bool {
    address >= r.start && address + size <= r.start + r.size
}

/// The stack region of a system with `wide` (64-bit) addresses: 1 TiB from
/// 0x7F0000000000, else 1 GiB from the 3 GiB mark.
pub open spec fn stack_region_for(wide: bool) -> MemoryRegion {
    if wide {
        MemoryRegion { start: 0x7F0000000000u64 as usize, size: 0x10000000000u64 as usize }
    } else {
        MemoryRegion { start: 0xC0000000, size: 0x40000000 }
    }
}

/// The heap region of a system with `wide` (64-bit) addresses.
pub open spec fn heap_region_for(wide: bool) -> MemoryRegion {
    if wide {
        MemoryRegion { start: 0x100000000u64 as usize, size: 0x7EF000000000u64 as usize }
    } else {
        MemoryRegion { start: 0x08000000, size: 0xB8000000 }
    }
}

fn detect_stack_region() -> (r: MemoryRegion)
    ensures
        r == stack_region_for(usize::BITS == 64),
{
    if usize::BITS == 64 {
        MemoryRegion { start: 0x7F0000000000u64 as usize, size: 0x10000000000u64 as usize }
    } else {
        MemoryRegion { start: 0xC0000000, size: 0x40000000 }
    }
}

fn detect_heap_region() -> (r: MemoryRegion)
    ensures
        r == heap_region_for(usize::BITS == 64),
{
    if usize::BITS == 64 {
        MemoryRegion { start: 0x100000000u64 as usize, size: 0x7EF000000000u64 as usize }
    } else {
        MemoryRegion { start: 0x08000000, size: 0xB8000000 }
    }
}

fn detect_address_space_size() -> (r: usize)
    ensures
        usize::BITS == 64 ==> r == (0x1_0000_0000_0000u64 as usize),
        usize::BITS != 64 ==> r == 0,
{
    if usize::BITS == 64 {
        0x1_0000_0000_0000u64 as usize
    } else {
        0
    }
}

/// Random bits available for placing memory on `arch`: 28 on x86-64, 32
/// on ARM64, 30 on RISC-V, 20 otherwise; 16 on 32-bit systems.
pub open spec fn entropy_bits(arch: Architecture, wide: bool) -> u32 {
    if wide {
        match arch {
            Architecture::X86_64 => 28,
            Architecture::Aarch64 => 32,
            Architecture::Riscv64 => 30,
            Architecture::Generic => 20,
        }
    } else {
        16
    }
}

/// The page size of the supported systems: 4 KiB.
fn detect_page_size() -> (r: usize)
    ensures
        r == PAGE_SIZE,
{
    PAGE_SIZE
}

impl AddressSpaceLayout {
    /// The layout of this system: 4 KiB pages, the regions of its address
    /// width, the constraints of this build.
    pub fn detect() -> (l: Self)
        ensures
            l.page_size == PAGE_SIZE,
            l.stack_region == stack_region_for(usize::BITS == 64),
            l.heap_region == heap_region_for(usize::BITS == 64),
            l.arch_constraints.arch == Architecture::Generic,
    {
        AddressSpaceLayout {
            page_size: detect_page_size(),
            address_space_size: detect_address_space_size(),
            stack_region: detect_stack_region(),
            heap_region: detect_heap_region(),
            arch_constraints: ArchConstraints::detect(),
        }
    }

    /// Random bits available for placement.
    pub fn available_entropy_bits(&self) -> (b: u32)
        ensures
            b == entropy_bits(self.arch_constraints.arch, usize::BITS == 64),
    {
        if usize::BITS == 64 {
            match self.arch_constraints.arch {
                Architecture::X86_64 => 28,
                Architecture::Aarch64 => 32,
                Architecture::Riscv64 => 30,
                Architecture::Generic => 20,
            }
        } else {
            16
        }
    }

    /// Half the stack region that a stack of `stack_size` leaves free.
    pub fn max_stack_offset(&self, stack_size: usize) -> (r: usize)
        ensures
            r == (if self.stack_region.size > stack_size { self.stack_region.size - stack_size } else { 0 }) / 2,
    {
        self.stack_region.size.saturating_sub(stack_size) / 2
    }

    /// A quarter of the heap region that `heap_size` bytes leave free.
    pub fn max_heap_offset(&self, heap_size: usize) -> (r: usize)
        ensures
            r == (if self.heap_region.size > heap_size { self.heap_region.size - heap_size } else { 0 }) / 4,
    {
        self.heap_region.size.saturating_sub(heap_size) / 4
    }

    /// Whether a stack of `size` bytes at `address` lies in the stack
    /// region.
    pub fn is_valid_stack_address(&self, address: usize, size: usize) -> (r: bool)
        ensures
            r == region_fits(self.stack_region, address as int, size as int),
    {
        let region = self.stack_region;
        address >= region.start && address - region.start <= region.size && size <= region.size - (address
            - region.start)
    }

    /// Whether `size` heap bytes at `address` lie in the heap region.
    pub fn is_valid_heap_address(&self, address: usize, size: usize) -> (r: bool)
        ensures
            r == region_fits(self.heap_region, address as int, size as int),
    {
        let region = self.heap_region;
        address >= region.start && address - region.start <= region.size && size <= region.size - (address
            - region.start)
    }

    /// The address a quarter into the stack region.
    pub fn stack_base_address(&self) -> (a: usize)
        requires
            self.stack_region.start + self.stack_region.size / 4 <= usize::MAX,
        ensures
            a == self.stack_region.start + self.stack_region.size / 4,
    {
        self.stack_region.start + (self.stack_region.size / 4)
    }

    /// The address an eighth into the heap region.
    pub fn heap_base_address(&self) -> (a: usize)
        requires
            self.heap_region.start + self.heap_region.size / 8 <= usize::MAX,
        ensures
            a == self.heap_region.start + self.heap_region.size / 8,
    {
        self.heap_region.start + (self.heap_region.size / 8)
    }
}

/// Where a thread's stack and heap were placed.
#[derive(Debug, Clone, Copy, PartialEq, Eq, Structural)]
pub struct ThreadMemoryLayout {
    pub stack_base: usize,
    pub stack_size: usize,
    pub stack_guard_gap: usize,
    pub heap_base: usize,
    pub heap_size: usize,
    pub heap_guard_gap: usize,
    pub randomization_entropy: u64,
}

/// A stack placed at a randomized address.
#[derive(Debug, Clone, Copy, PartialEq, Eq, Structural)]
pub struct RandomizedStack {
    pub layout: ThreadMemoryLayout,
    pub actual_address: usize,
    pub entropy_used: u32,
}

impl ThreadMemoryLayout {
    /// The stack of this layout, at its base, with 64 bits of entropy.
    pub fn create_randomized_stack(&self) -> (r: Result<RandomizedStack, ThreadError>)
        ensures
            r == Ok::<RandomizedStack, ThreadError>(
                RandomizedStack { layout: *self, actual_address: self.stack_base, entropy_used: 64 },
            ),
    {
        Ok(RandomizedStack { layout: *self, actual_address: self.stack_base, entropy_used: 64 })
    }
}

impl RandomizedStack {
    /// The usable addresses `[start, end)`: from the guard gap above the
    /// address, the stack size less the gap.
    pub fn bounds(&self) -> (r: (usize, usize))
        requires
            self.actual_address + self.layout.stack_guard_gap + self.layout.stack_size <= usize::MAX,
            self.layout.stack_guard_gap <= self.layout.stack_size,
        ensures
            r.0 == self.actual_address + self.layout.stack_guard_gap,
            r.1 == r.0 + self.layout.stack_size - self.layout.stack_guard_gap,
    {
        let start = self.actual_address + self.layout.stack_guard_gap;
        let end = start + self.layout.stack_size - self.layout.stack_guard_gap;
        (start, end)
    }

    /// Whether `address` lies in the usable addresses.
    pub fn contains(&self, address: usize) -> (r: bool)
        requires
            self.actual_address + self.layout.stack_guard_gap + self.layout.stack_size <= usize::MAX,
            self.layout.stack_guard_gap <= self.layout.stack_size,
        ensures
            r == (self.actual_address + self.layout.stack_guard_gap <= address < self.actual_address
                + self.layout.stack_size),
    {
        let (start, end) = self.bounds();
        address >= start && address < end
    }
}

/// Places stacks and heaps at random addresses drawn from a secure
/// generator.
pub struct AslrManager {
    randomizations_applied: usize,
    entropy_consumed: u64,
    address_space_layout: AddressSpaceLayout,
}

/// `r` rounded down to a multiple of `align`.
pub open spec fn align_down(r: int, align: int) -> int {
    (r / align) * align
}

/// The offset drawn from `rng` below `max`: its next number modulo `max`,
/// or 0 when `max` is 0.
pub open spec fn offset_drawn(rng: SecureRng, max: int) -> int {
    if max == 0 {
        0
    } else {
        ((stream_u64(rng.stream().words(), rng.stream().block_counter()) as usize) as int) % max
    }
}

/// Where a stack of `size` bytes goes from `base` with a drawn `offset`:
/// the offset is rounded down to a page and added, wrapping around; outside
/// the stack region that is a memory error.
pub open spec fn stack_placement(l: AddressSpaceLayout, base: usize, size: usize, offset: int) -> Result<usize, ThreadError> {
    let a = base.wrapping_add(align_down(offset, l.page_size as int) as usize);
    if region_fits(l.stack_region, a as int, size as int) {
        Ok(a)
    } else {
        Err(ThreadError::MemoryError)
    }
}

/// Where `size` heap bytes go from `base` with a drawn `offset`: the
/// offset is rounded down to the word alignment and added, wrapping around;
/// outside the heap region that is a memory error.
pub open spec fn heap_placement(l: AddressSpaceLayout, base: usize, size: usize, offset: int) -> Result<usize, ThreadError> {
    let a = base.wrapping_add(align_down(offset, vstd::layout::align_of::<usize>() as int) as usize);
    if region_fits(l.heap_region, a as int, size as int) {
        Ok(a)
    } else {
        Err(ThreadError::MemoryError)
    }
}

/// The offset of draw number `k` from generator state `st` below `max`
/// (0 when `max` is 0, and then nothing is drawn).
pub open spec fn draw_offset(st: DrawState, t: Seq<u64>, k: nat, max: int) -> int {
    if max == 0 {
        0
    } else {
        ((draw_value(st, t, k) as usize) as int) % max
    }
}

/// The stack size of a randomized thread layout: 1 MiB.
pub const LAYOUT_STACK_SIZE: usize = 1048576;

/// The heap size of a randomized thread layout: 64 MiB.
pub const LAYOUT_HEAP_SIZE: usize = 67108864;

/// The number of draws the stack and the heap placement of a thread layout
/// take in `l`: one for each whose maximal offset is not zero.
pub open spec fn placement_draws(l: AddressSpaceLayout) -> nat {
    (if l.max_stack_offset_spec(LAYOUT_STACK_SIZE) > 0 { 1nat } else { 0nat }) + (if l.max_heap_offset_spec(
        LAYOUT_HEAP_SIZE,
    ) > 0 {
        1nat
    } else {
        0nat
    })
}

/// The stack address, stack gap, heap address and heap gap of a thread
/// layout in `l` drawn from a generator in state `st` (keyed or not) with
/// timing samples `t`: the stack from a quarter into its region, the heap
/// from an eighth into its region, then the two gaps; an unkeyed
/// generator fails at its first draw, a placement outside its region
/// fails as a memory error.
pub open spec fn thread_layout_from(l: AddressSpaceLayout, st: DrawState, t: Seq<u64>, keyed: bool) -> Result<
    (usize, usize, usize, usize),
    ThreadError,
> {
    let sb = (l.stack_region.start + l.stack_region.size / 4) as usize;
    let hb = (l.heap_region.start + l.heap_region.size / 8) as usize;
    let smax = l.max_stack_offset_spec(LAYOUT_STACK_SIZE);
    let hmax = l.max_heap_offset_spec(LAYOUT_HEAP_SIZE);
    let k1: nat = if smax > 0 { 1nat } else { 0nat };
    let k2 = placement_draws(l);
    if !keyed && smax > 0 {
        Err(ThreadError::InvalidState)
    } else {
        match stack_placement(l, sb, LAYOUT_STACK_SIZE, draw_offset(st, t, 0, smax)) {
            Err(e) => Err(e),
            Ok(sa) => if !keyed && hmax > 0 {
                Err(ThreadError::InvalidState)
            } else {
                match heap_placement(l, hb, LAYOUT_HEAP_SIZE, draw_offset(st, t, k1, hmax)) {
                    Err(e) => Err(e),
                    Ok(ha) => if !keyed {
                        Err(ThreadError::InvalidState)
                    } else {
                        Ok(
                            (
                                sa,
                                ((draw_offset(st, t, k2, 16) + 1) * l.page_size) as usize,
                                ha,
                                ((draw_offset(st, t, k2 + 1, 16) + 1) * l.page_size) as usize,
                            ),
                        )
                    },
                }
            },
        }
    }
}

impl AslrManager {
    /// The address space it places into.
    pub closed spec fn layout(&self) -> AddressSpaceLayout {
        self.address_space_layout
    }

    /// Randomized placements so far.
    pub closed spec fn applied(&self) -> usize {
        self.randomizations_applied
    }

    /// Random bytes consumed so far.
    pub closed spec fn consumed(&self) -> u64 {
        self.entropy_consumed
    }

    /// Pages are at least one byte and sixteen of them fit in an address.
    pub open spec fn wf(&self) -> bool {
        0 < self.layout().page_size && 16 * self.layout().page_size <= usize::MAX
    }

    /// A manager for the detected layout with zero counters.
    pub fn new() -> (m: Self)
        ensures
            m.wf(),
            m.applied() == 0,
            m.consumed() == 0,
            m.layout().page_size == PAGE_SIZE,
            m.layout().stack_region == stack_region_for(usize::BITS == 64),
            m.layout().heap_region == heap_region_for(usize::BITS == 64),
            m.layout().arch_constraints.arch == Architecture::Generic,
    {
        AslrManager { randomizations_applied: 0, entropy_consumed: 0, address_space_layout: AddressSpaceLayout::detect() }
    }

    /// A random offset below `max_offset` (0 when it is 0): the next random
    /// number of `rng` modulo `max_offset`, which consumes 8 bytes.
    fn generate_random_offset(&mut self, max_offset: usize, rng: &mut SecureRng, timing: &[u64; 32]) -> (r: Result<usize, ThreadError>)
        requires
            old(rng).wf(),
        ensures
            final(rng).wf(),
            final(self).layout() == old(self).layout(),
            final(self).applied() == old(self).applied(),
            final(rng).stream().is_initialized() == old(rng).stream().is_initialized(),
            max_offset == 0 ==> r == Ok::<usize, ThreadError>(0) && final(self).consumed() == old(self).consumed()
                && *final(rng) == *old(rng),
            max_offset > 0 && !old(rng).stream().is_initialized() ==> r == Err::<usize, ThreadError>(
                ThreadError::InvalidState,
            ) && final(self).consumed() == old(self).consumed(),
            max_offset > 0 && !old(rng).stream().is_initialized() ==> *final(rng) == *old(rng),
            max_offset > 0 && old(rng).stream().is_initialized() ==> r == Ok::<usize, ThreadError>(
                ((stream_u64(old(rng).stream().words(), old(rng).stream().block_counter()) as usize)
                    % max_offset) as usize,
            ) && final(self).consumed() == wrap_add(old(self).consumed(), 8) && final(rng).draw_view()
                == draw_next(old(rng).draw_view(), timing@),
    {
        if max_offset == 0 {
            return Ok(0);
        }
        let random_value = rng.next_u64(timing)?;
        self.entropy_consumed = self.entropy_consumed.wrapping_add(8);
        Ok((random_value as usize) % max_offset)
    }

    /// A randomized address for a stack of `stack_size` bytes near
    /// `base_address`: a random page-aligned offset below the maximal stack
    /// offset is added (wrapping around). Without entropy bits the base is
    /// kept; an address outside the stack region is a memory error; a
    /// generator that cannot give numbers is an invalid state.
    pub fn randomize_stack_address(
        &mut self,
        base_address: usize,
        stack_size: usize,
        rng: &mut SecureRng,
        timing: &[u64; 32],
    ) -> (r: Result<usize, ThreadError>)
        requires
            old(self).wf(),
            old(rng).wf(),
        ensures
            final(self).wf(),
            final(rng).wf(),
            final(self).layout() == old(self).layout(),
            final(rng).stream().is_initialized() == old(rng).stream().is_initialized(),
            ({
                let max = old(self).layout().max_stack_offset_spec(stack_size);
                let drawn = offset_drawn(*old(rng), max);
                &&& max > 0 && !old(rng).stream().is_initialized() ==> r == Err::<usize, ThreadError>(
                    ThreadError::InvalidState,
                )
                &&& (max == 0 || old(rng).stream().is_initialized()) ==> r == stack_placement(
                    old(self).layout(),
                    base_address,
                    stack_size,
                    drawn,
                )
                &&& r is Ok ==> final(self).applied() == wrap_inc_usize(old(self).applied())
                &&& r is Err ==> final(self).applied() == old(self).applied()
            }),
            ({
                let max = old(self).layout().max_stack_offset_spec(stack_size);
                &&& (max == 0 || !old(rng).stream().is_initialized()) ==> *final(rng) == *old(rng)
                    && final(self).consumed() == old(self).consumed()
                &&& (max > 0 && old(rng).stream().is_initialized()) ==> final(rng).draw_view() == draw_next(
                    old(rng).draw_view(),
                    timing@,
                ) && final(self).consumed() == wrap_add(old(self).consumed(), 8)
            }),
    {
        let entropy = self.address_space_layout.available_entropy_bits();
        if entropy == 0 {
            return Ok(base_address);
        }
        let max_offset = self.address_space_layout.max_stack_offset(stack_size);
        let random_offset = self.generate_random_offset(max_offset, rng, timing)?;
        let page_size = self.address_space_layout.page_size;
        proof {
            assert((random_offset / page_size) * page_size <= random_offset) by (nonlinear_arith)
                requires
                    page_size > 0,
            ;
        }
        let aligned_offset = (random_offset / page_size) * page_size;
        let randomized = base_address.wrapping_add(aligned_offset);
        if !self.address_space_layout.is_valid_stack_address(randomized, stack_size) {
            return Err(ThreadError::MemoryError);
        }
        self.randomizations_applied = self.randomizations_applied.wrapping_add(1);
        Ok(randomized)
    }

    /// A randomized address for `allocation_size` heap bytes near
    /// `base_address`, offset by a random word-aligned amount below the
    /// maximal heap offset; an address outside the heap region is a memory
    /// error.
    pub fn randomize_heap_address(
        &mut self,
        base_address: usize,
        allocation_size: usize,
        rng: &mut SecureRng,
        timing: &[u64; 32],
    ) -> (r: Result<usize, ThreadError>)
        requires
            old(self).wf(),
            old(rng).wf(),
        ensures
            final(self).wf(),
            final(rng).wf(),
            final(self).layout() == old(self).layout(),
            final(rng).stream().is_initialized() == old(rng).stream().is_initialized(),
            ({
                let max = old(self).layout().max_heap_offset_spec(allocation_size);
                let drawn = offset_drawn(*old(rng), max);
                &&& max > 0 && !old(rng).stream().is_initialized() ==> r == Err::<usize, ThreadError>(
                    ThreadError::InvalidState,
                )
                &&& (max == 0 || old(rng).stream().is_initialized()) ==> r == heap_placement(
                    old(self).layout(),
                    base_address,
                    allocation_size,
                    drawn,
                )
                &&& r is Ok ==> final(self).applied() == wrap_inc_usize(old(self).applied())
                &&& r is Err ==> final(self).applied() == old(self).applied()
            }),
            ({
                let max = old(self).layout().max_heap_offset_spec(allocation_size);
                &&& (max == 0 || !old(rng).stream().is_initialized()) ==> *final(rng) == *old(rng)
                    && final(self).consumed() == old(self).consumed()
                &&& (max > 0 && old(rng).stream().is_initialized()) ==> final(rng).draw_view() == draw_next(
                    old(rng).draw_view(),
                    timing@,
                ) && final(self).consumed() == wrap_add(old(self).consumed(), 8)
            }),
    {
        let max_offset = self.address_space_layout.max_heap_offset(allocation_size);
        let random_offset = self.generate_random_offset(max_offset, rng, timing)?;
        vstd::layout::layout_for_type_is_valid::<usize>();
        let align_size = core::mem::align_of::<usize>();
        proof {
            assert(align_size > 0);
            assert((random_offset / align_size) * align_size <= random_offset) by (nonlinear_arith)
                requires
                    align_size > 0,
            ;
        }
        let aligned_offset = (random_offset / align_size) * align_size;
        let randomized = base_address.wrapping_add(aligned_offset);
        if !self.address_space_layout.is_valid_heap_address(randomized, allocation_size) {
            return Err(ThreadError::MemoryError);
        }
        self.randomizations_applied = self.randomizations_applied.wrapping_add(1);
        Ok(randomized)
    }

    /// A random gap of 1 to 16 pages.
    pub fn generate_guard_gap(&mut self, rng: &mut SecureRng, timing: &[u64; 32]) -> (r: Result<usize, ThreadError>)
        requires
            old(self).wf(),
            old(rng).wf(),
        ensures
            final(self).wf(),
            final(rng).wf(),
            final(self).layout() == old(self).layout(),
            final(self).applied() == old(self).applied(),
            final(rng).stream().is_initialized() == old(rng).stream().is_initialized(),
            !old(rng).stream().is_initialized() ==> r == Err::<usize, ThreadError>(ThreadError::InvalidState),
            old(rng).stream().is_initialized() ==> r == Ok::<usize, ThreadError>(
                ((offset_drawn(*old(rng), 16) + 1) * old(self).layout().page_size) as usize,
            ),
            !old(rng).stream().is_initialized() ==> *final(rng) == *old(rng) && final(self).consumed()
                == old(self).consumed(),
            old(rng).stream().is_initialized() ==> final(rng).draw_view() == draw_next(
                old(rng).draw_view(),
                timing@,
            ) && final(self).consumed() == wrap_add(old(self).consumed(), 8),
    {
        let min_gap = self.address_space_layout.page_size;
        let offset = self.generate_random_offset(16, rng, timing)?;
        let random_pages = offset + 1;
        proof {
            assert(random_pages * min_gap <= 16 * min_gap) by (nonlinear_arith)
                requires
                    random_pages <= 16,
            ;
        }
        Ok(random_pages * min_gap)
    }

    /// A randomized layout: a 1 MiB stack and a 64 MiB heap placed from the
    /// bases of their regions, each followed by a random guard gap.
    #[verifier::rlimit(40)]
    pub fn generate_thread_layout(&mut self, rng: &mut SecureRng, timing: &[u64; 32]) -> (r: Result<ThreadMemoryLayout, ThreadError>)
        requires
            old(self).wf(),
            old(rng).wf(),
            old(self).layout().stack_region.start + old(self).layout().stack_region.size / 4 <= usize::MAX,
            old(self).layout().heap_region.start + old(self).layout().heap_region.size / 8 <= usize::MAX,
        ensures
            final(self).wf(),
            final(rng).wf(),
            final(self).layout() == old(self).layout(),
            ({
                let out = thread_layout_from(
                    old(self).layout(),
                    old(rng).draw_view(),
                    timing@,
                    old(rng).stream().is_initialized(),
                );
                &&& out is Err ==> r == Err::<ThreadMemoryLayout, ThreadError>(out->Err_0)
                &&& out matches Ok(v) ==> r matches Ok(l) && {
                    &&& l.stack_base == v.0
                    &&& l.stack_size == LAYOUT_STACK_SIZE
                    &&& l.stack_guard_gap == v.1
                    &&& l.heap_base == v.2
                    &&& l.heap_size == LAYOUT_HEAP_SIZE
                    &&& l.heap_guard_gap == v.3
                    &&& l.randomization_entropy == final(self).consumed()
                    &&& final(self).consumed() == wrap_add(
                        old(self).consumed(),
                        (8 * (placement_draws(old(self).layout()) + 2)) as u64,
                    )
                    &&& final(self).applied() == wrap_inc_usize(wrap_inc_usize(old(self).applied()))
                    &&& final(rng).draw_view() == draw_state(
                        old(rng).draw_view(),
                        timing@,
                        placement_draws(old(self).layout()) + 2,
                    )
                }
            }),
    {
        let stack_base = self.address_space_layout.stack_base_address();
        let heap_base = self.address_space_layout.heap_base_address();
        let stack_size: usize = LAYOUT_STACK_SIZE;
        let randomized_stack = self.randomize_stack_address(stack_base, stack_size, rng, timing)?;
        let heap_size: usize = LAYOUT_HEAP_SIZE;
        let randomized_heap = self.randomize_heap_address(heap_base, heap_size, rng, timing)?;
        let stack_guard_gap = self.generate_guard_gap(rng, timing)?;
        let heap_guard_gap = self.generate_guard_gap(rng, timing)?;
        Ok(
            ThreadMemoryLayout {
                stack_base: randomized_stack,
                stack_size,
                stack_guard_gap,
                heap_base: randomized_heap,
                heap_size,
                heap_guard_gap,
                randomization_entropy: self.entropy_consumed,
            },
        )
    }

    /// The counters and the available entropy.
    pub fn stats(&self) -> (s: AslrStats)
        ensures
            s == (AslrStats {
                randomizations_applied: self.applied(),
                entropy_consumed: self.consumed(),
                entropy_bits_available: entropy_bits(self.layout().arch_constraints.arch, usize::BITS == 64),
                aslr_enabled: true,
            }),
    {
        AslrStats {
            randomizations_applied: self.randomizations_applied,
            entropy_consumed: self.entropy_consumed,
            entropy_bits_available: self.address_space_layout.available_entropy_bits(),
            aslr_enabled: true,
        }
    }
}

impl AddressSpaceLayout {
    /// Half the stack region left free by `stack_size`.
    pub open spec fn max_stack_offset_spec(&self, stack_size: usize) -> int {
        (if self.stack_region.size > stack_size { self.stack_region.size - stack_size } else { 0 }) / 2
    }

    /// A quarter of the heap region left free by `heap_size`.
    pub open spec fn max_heap_offset_spec(&self, heap_size: usize) -> int {
        (if self.heap_region.size > heap_size { self.heap_region.size - heap_size } else { 0 }) / 4
    }
}

/// Counters of address randomization.
#[derive(Debug, Clone, Copy, PartialEq, Eq, Structural)]
pub struct AslrStats {
    pub randomizations_applied: usize,
    pub entropy_consumed: u64,
    pub entropy_bits_available: u32,
    pub aslr_enabled: bool,
}

/// Starts randomization with a new manager in `slot`.
pub fn init_aslr(slot: &mut Option<AslrManager>, config: SecurityConfig) -> (r: Result<(), ThreadError>)
    ensures
        r is Ok,
        *final(slot) is Some,
        (*final(slot))->0.wf(),
        (*final(slot))->0.applied() == 0,
{
    *slot = Some(AslrManager::new());
    Ok(())
}

/// A randomized thread layout from the manager in `slot`; an invalid state
/// without one.
pub fn create_randomized_layout(slot: &mut Option<AslrManager>, rng: &mut SecureRng, timing: &[u64; 32]) -> (r: Result<ThreadMemoryLayout, ThreadError>)
    requires
        *old(slot) matches Some(m) ==> m.wf() && m.layout().stack_region.start + m.layout().stack_region.size / 4
            <= usize::MAX && m.layout().heap_region.start + m.layout().heap_region.size / 8 <= usize::MAX,
        old(rng).wf(),
    ensures
        final(rng).wf(),
        *old(slot) is None ==> r == Err::<ThreadMemoryLayout, ThreadError>(ThreadError::InvalidState)
            && *final(rng) == *old(rng),
        *old(slot) matches Some(m) ==> {
            let out = thread_layout_from(m.layout(), old(rng).draw_view(), timing@, old(rng).stream().is_initialized());
            &&& out is Err ==> r == Err::<ThreadMemoryLayout, ThreadError>(out->Err_0)
            &&& out matches Ok(v) ==> r matches Ok(l) && l.stack_base == v.0 && l.stack_size == LAYOUT_STACK_SIZE
                && l.stack_guard_gap == v.1 && l.heap_base == v.2 && l.heap_size == LAYOUT_HEAP_SIZE
                && l.heap_guard_gap == v.3 && final(rng).draw_view() == draw_state(
                old(rng).draw_view(),
                timing@,
                placement_draws(m.layout()) + 2,
            ) && (*final(slot))->0.consumed() == wrap_add(
                m.consumed(),
                (8 * (placement_draws(m.layout()) + 2)) as u64,
            ) && (*final(slot))->0.applied() == wrap_inc_usize(wrap_inc_usize(m.applied()))
                && l.randomization_entropy == (*final(slot))->0.consumed()
        },
        *old(slot) is None ==> *final(slot) is None,
        *old(slot) matches Some(m) ==> *final(slot) is Some && (*final(slot))->0.wf() && (*final(slot))->0.layout()
            == m.layout(),
{
    match slot {
        Some(manager) => manager.generate_thread_layout(rng, timing),
        None => Err(ThreadError::InvalidState),
    }
}

/// `base` randomized by the manager in `slot`; kept as it is without one.
pub fn randomize_stack_address(slot: &mut Option<AslrManager>, base: usize, size: usize, rng: &mut SecureRng, timing: &[u64; 32]) -> (r: Result<usize, ThreadError>)
    requires
        *old(slot) matches Some(m) ==> m.wf(),
        old(rng).wf(),
    ensures
        final(rng).wf(),
        *old(slot) is None ==> r == Ok::<usize, ThreadError>(base) && *final(rng) == *old(rng),
        *old(slot) matches Some(m) ==> {
            let max = m.layout().max_stack_offset_spec(size);
            &&& max > 0 && !old(rng).stream().is_initialized() ==> r == Err::<usize, ThreadError>(
                ThreadError::InvalidState,
            ) && *final(rng) == *old(rng)
            &&& max == 0 ==> r == stack_placement(m.layout(), base, size, 0) && *final(rng) == *old(rng)
            &&& max > 0 && old(rng).stream().is_initialized() ==> r == stack_placement(
                m.layout(),
                base,
                size,
                offset_drawn(*old(rng), max),
            ) && final(rng).draw_view() == draw_next(old(rng).draw_view(), timing@)
            &&& r is Ok ==> (*final(slot))->0.applied() == wrap_inc_usize(m.applied())
            &&& r is Err ==> (*final(slot))->0.applied() == m.applied()
        },
        *old(slot) is None ==> *final(slot) is None,
        *old(slot) matches Some(m) ==> *final(slot) is Some && (*final(slot))->0.wf() && (*final(slot))->0.layout()
            == m.layout(),
{
    match slot {
        Some(manager) => manager.randomize_stack_address(base, size, rng, timing),
        None => Ok(base),
    }
}

/// The counters of the manager in `slot`; all zero and off without one.
pub fn get_aslr_stats(slot: &Option<AslrManager>) -> (s: AslrStats)
    ensures
        slot is None ==> s == (AslrStats {
            randomizations_applied: 0,
            entropy_consumed: 0,
            entropy_bits_available: 0,
            aslr_enabled: false,
        }),
        slot matches Some(m) ==> s == (AslrStats {
            randomizations_applied: m.applied(),
            entropy_consumed: m.consumed(),
            entropy_bits_available: entropy_bits(m.layout().arch_constraints.arch, usize::BITS == 64),
            aslr_enabled: true,
        }),
{
    match slot {
        Some(m) => m.stats(),
        None => AslrStats { randomizations_applied: 0, entropy_consumed: 0, entropy_bits_available: 0, aslr_enabled: false },
    }
}

/// A randomized stack always lies inside the stack region, and its shift
/// from the requested base is a whole number of pages no larger than the
/// drawn offset.
pub proof fn law_stack_placement_in_region(l: AddressSpaceLayout, base: usize, size: usize, offset: int)
    requires
        l.page_size > 0,
        offset >= 0,
    ensures
        stack_placement(l, base, size, offset) matches Ok(a) ==> region_fits(l.stack_region, a as int, size as int),
        align_down(offset, l.page_size as int) % (l.page_size as int) == 0,
        0 <= align_down(offset, l.page_size as int) <= offset,
{
    let p = l.page_size as int;
    assert(align_down(offset, p) % p == 0) by {
        vstd::arithmetic::div_mod::lemma_mod_multiples_basic(offset / p, p);
    }
    assert(0 <= align_down(offset, p) <= offset) by {
        vstd::arithmetic::div_mod::lemma_fundamental_div_mod(offset, p);
        vstd::arithmetic::div_mod::lemma_div_pos_is_pos(offset, p);
        vstd::arithmetic::mul::lemma_mul_nonnegative(offset / p, p);
    }
}

} // verus!
