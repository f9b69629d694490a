use vstd::prelude::*;
use crate::errors::ThreadError;
use crate::security::{SecurityConfig, SecurityState, SecurityViolation};
use crate::stack_guard::{byte_of, le_word, lemma_le_word_bytes};
use crate::perf::fast_paths::wrap_inc_usize;
use crate::perf::cache_aware::wrap_add_usize;

verus! {

/// The first word of every canary.
pub const STACK_CANARY_MAGIC: u64 = 0xDEADBEEFCAFEBABE;

/// The size of a canary in bytes: three words.
pub const CANARY_SIZE: usize = 24;

/// The little-endian word of `mem` at byte offset `o`.
pub open spec fn word_at_offset(mem: Seq<u8>, o: int) -> u64 {
    le_word(mem[o], mem[o + 1], mem[o + 2], mem[o + 3], mem[o + 4], mem[o + 5], mem[o + 6], mem[o + 7])
}

/// `mem` with the bytes of `v` written little-endian at offset `o`.
pub open spec fn with_word(mem: Seq<u8>, o: int, v: u64) -> Seq<u8> {
    Seq::new(mem.len(), |i: int| if o <= i < o + 8 { byte_of(v, i - o) } else { mem[i] })
}

fn read_word(mem: &Vec<u8>, o: usize) -> (v: u64)
    requires
        o + 8 <= mem.len(),
    ensures
        v == word_at_offset(mem@, o as int),
{
    (mem[o] as u64) | ((mem[o + 1] as u64) << 8u64) | ((mem[o + 2] as u64) << 16u64) | ((mem[o + 3] as u64)
        << 24u64) | ((mem[o + 4] as u64) << 32u64) | ((mem[o + 5] as u64) << 40u64) | ((mem[o + 6] as u64)
        << 48u64) | ((mem[o + 7] as u64) << 56u64)
}

fn write_word(mem: &mut Vec<u8>, o: usize, v: u64)
    requires
        o + 8 <= old(mem).len(),
    ensures
        final(mem)@ == with_word(old(mem)@, o as int, v),
        word_at_offset(final(mem)@, o as int) == v,
{
    mem.set(o, ((v >> 0u64) & 0xff) as u8);
    mem.set(o + 1, ((v >> 8u64) & 0xff) as u8);
    mem.set(o + 2, ((v >> 16u64) & 0xff) as u8);
    mem.set(o + 3, ((v >> 24u64) & 0xff) as u8);
    mem.set(o + 4, ((v >> 32u64) & 0xff) as u8);
    mem.set(o + 5, ((v >> 40u64) & 0xff) as u8);
    mem.set(o + 6, ((v >> 48u64) & 0xff) as u8);
    mem.set(o + 7, ((v >> 56u64) & 0xff) as u8);
    proof {
        lemma_le_word_bytes(v);
        assert(v >> 0u64 == v) by (bit_vector);
        assert(mem@ == with_word(old(mem)@, o as int, v));
    }
}

/// A marker placed on a stack to detect that it was overwritten.
#[derive(Debug, Clone, Copy, PartialEq, Eq, Structural)]
pub struct StackCanary {
    pub magic: u64,
    pub thread_id: u64,
    pub timestamp: u64,
}

/// Whether a canary with words `magic` and `thread_id` belongs, intact, to
/// thread `tid`.
pub open spec fn canary_ok(magic: u64, thread_id: u64, tid: u64) -> bool {
    magic == STACK_CANARY_MAGIC && thread_id == tid
}

impl StackCanary {
    /// The canary of thread `thread_id`, made at time `now`.
    pub fn new(thread_id: u64, now: u64) -> (c: Self)
        ensures
            c == (StackCanary { magic: STACK_CANARY_MAGIC, thread_id, timestamp: now }),
    {
        StackCanary { magic: STACK_CANARY_MAGIC, thread_id, timestamp: now }
    }

    /// Whether this canary is intact and belongs to `expected_thread_id`.
    pub fn check(&self, expected_thread_id: u64) -> (r: bool)
        ensures
            r == canary_ok(self.magic, self.thread_id, expected_thread_id),
    {
        self.magic == STACK_CANARY_MAGIC && self.thread_id == expected_thread_id
    }

    /// A stack-canary violation when the canary is not intact for
    /// `expected_thread_id`.
    pub fn validate(&self, expected_thread_id: u64) -> (r: Result<(), SecurityViolation>)
        ensures
            r is Ok <==> canary_ok(self.magic, self.thread_id, expected_thread_id),
            r is Err ==> r == Err::<(), SecurityViolation>(SecurityViolation::StackCanaryViolation),
    {
        if !self.check(expected_thread_id) {
            return Err(SecurityViolation::StackCanaryViolation);
        }
        Ok(())
    }
}

/// A stack: its bytes, the lowest at address `bottom`.
pub struct Stack {
    memory: Vec<u8>,
    bottom: usize,
}

impl Stack {
    /// The bytes of the stack, lowest address first.
    pub closed spec fn bytes(&self) -> Seq<u8> {
        self.memory@
    }

    /// The address of the lowest byte.
    pub closed spec fn bottom_spec(&self) -> usize {
        self.bottom
    }

    /// The address just above the highest byte.
    pub open spec fn top_spec(&self) -> int {
        self.bottom_spec() + self.bytes().len()
    }

    /// A stack over `memory` starting at address `bottom`.
    pub fn new(memory: Vec<u8>, bottom: usize) -> (s: Self)
        requires
            bottom + memory@.len() <= usize::MAX,
        ensures
            s.bytes() == memory@,
            s.bottom_spec() == bottom,
    {
        Stack { memory, bottom }
    }

    /// The address of the lowest byte.
    pub fn bottom(&self) -> (a: usize)
        ensures
            a == self.bottom_spec(),
    {
        self.bottom
    }

    /// The address just above the highest byte.
    pub fn top(&self) -> (a: usize)
        requires
            self.top_spec() <= usize::MAX,
        ensures
            a == self.top_spec(),
    {
        self.bottom + self.memory.len()
    }

    /// The size in bytes.
    pub fn size(&self) -> (n: usize)
        ensures
            n == self.bytes().len(),
    {
        self.memory.len()
    }

    /// Writes `value` at byte `offset`.
    pub fn write_byte(&mut self, offset: usize, value: u8)
        requires
            offset < old(self).bytes().len(),
        ensures
            final(self).bytes() == old(self).bytes().update(offset as int, value),
            final(self).bottom_spec() == old(self).bottom_spec(),
    {
        self.memory.set(offset, value);
    }

    /// The byte at `offset`.
    pub fn read_byte(&self, offset: usize) -> (b: u8)
        requires
            offset < self.bytes().len(),
        ensures
            b == self.bytes()[offset as int],
    {
        self.memory[offset]
    }
}

/// Counters of the stack protection; they wrap around.
#[derive(Debug, Clone, Copy, PartialEq, Eq, Structural)]
pub struct StackProtection {
    pub canaries_placed: usize,
    pub violations_detected: usize,
    pub guard_pages_allocated: usize,
}

impl StackProtection {
    /// All counters zero.
    pub fn new() -> (p: Self)
        ensures
            p == (StackProtection { canaries_placed: 0, violations_detected: 0, guard_pages_allocated: 0 }),
    {
        StackProtection { canaries_placed: 0, violations_detected: 0, guard_pages_allocated: 0 }
    }
}

/// `mem` with canary `c` written at offset `o`: magic, thread, time.
pub open spec fn with_canary(mem: Seq<u8>, o: int, c: StackCanary) -> Seq<u8> {
    with_word(with_word(with_word(mem, o, c.magic), o + 8, c.thread_id), o + 16, c.timestamp)
}

/// Whether the canary at offset `o` of `mem` is intact for thread `tid`.
pub open spec fn canary_intact(mem: Seq<u8>, o: int, tid: u64) -> bool {
    canary_ok(word_at_offset(mem, o), word_at_offset(mem, o + 8), tid)
}

/// The offset of the top canary in a stack of `len` bytes: two canaries
/// below the top.
pub open spec fn top_canary_offset(len: nat) -> int {
    len - 2 * CANARY_SIZE
}

fn write_canary(mem: &mut Vec<u8>, o: usize, c: StackCanary)
    requires
        o + CANARY_SIZE <= old(mem).len(),
    ensures
        final(mem)@ == with_canary(old(mem)@, o as int, c),
{
    write_word(mem, o, c.magic);
    write_word(mem, o + 8, c.thread_id);
    write_word(mem, o + 16, c.timestamp);
}

fn canary_intact_at(mem: &Vec<u8>, o: usize, tid: u64) -> (r: bool)
    requires
        o + 16 <= mem.len(),
    ensures
        r == canary_intact(mem@, o as int, tid),
{
    let magic = read_word(mem, o);
    let thread_id = read_word(mem, o + 8);
    magic == STACK_CANARY_MAGIC && thread_id == tid
}

/// A stack watched by canaries at its bottom and near its top.
pub struct ProtectedStack {
    stack: Stack,
    canary_bottom: Option<StackCanary>,
    canary_top: Option<StackCanary>,
    thread_id: u64,
}

impl ProtectedStack {
    /// The stack.
    pub closed spec fn stack_spec(&self) -> &Stack {
        &self.stack
    }

    /// The canary placed at the bottom, if any.
    pub closed spec fn bottom_canary(&self) -> Option<StackCanary> {
        self.canary_bottom
    }

    /// The canary placed near the top, if any.
    pub closed spec fn top_canary(&self) -> Option<StackCanary> {
        self.canary_top
    }

    /// The thread the stack belongs to.
    pub closed spec fn owner(&self) -> u64 {
        self.thread_id
    }

    /// Whether the placed canaries are still intact.
    pub open spec fn canaries_intact(&self) -> bool {
        let mem = self.stack_spec().bytes();
        &&& self.bottom_canary() is Some ==> canary_intact(mem, 0, self.owner())
        &&& self.top_canary() is Some ==> canary_intact(mem, top_canary_offset(mem.len()), self.owner())
    }

    /// Canaries are placed only on stacks that have room for them.
    pub open spec fn wf(&self) -> bool {
        &&& self.bottom_canary() is Some <==> self.top_canary() is Some
        &&& self.bottom_canary() is Some ==> self.stack_spec().bytes().len() >= 2 * CANARY_SIZE
    }

    /// Protects `stack` of thread `thread_id`. With canaries on, the
    /// canary of the thread made at `now` is written at the bottom and two
    /// canary sizes below the top, and counted twice in `protection`.
    pub fn new(stack: Stack, thread_id: u64, config: SecurityConfig, now: u64, protection: &mut StackProtection) -> (r: Result<Self, ThreadError>)
        requires
            config.enable_stack_canaries ==> stack.bytes().len() >= 2 * CANARY_SIZE,
        ensures
            r is Ok,
            r matches Ok(p) && {
                &&& p.wf()
                &&& p.owner() == thread_id
                &&& p.stack_spec().bottom_spec() == stack.bottom_spec()
                &&& !config.enable_stack_canaries ==> {
                    &&& p.bottom_canary() is None
                    &&& p.stack_spec().bytes() == stack.bytes()
                    &&& *final(protection) == *old(protection)
                }
                &&& config.enable_stack_canaries ==> {
                    let c = StackCanary { magic: STACK_CANARY_MAGIC, thread_id, timestamp: now };
                    &&& p.bottom_canary() == Some(c)
                    &&& p.top_canary() == Some(c)
                    &&& p.stack_spec().bytes() == with_canary(
                        with_canary(stack.bytes(), 0, c),
                        top_canary_offset(stack.bytes().len()),
                        c,
                    )
                    &&& *final(protection) == (StackProtection {
                        canaries_placed: wrap_add_usize(old(protection).canaries_placed, 2),
                        ..*old(protection)
                    })
                }
            },
    {
        let mut protected = ProtectedStack { stack, canary_bottom: None, canary_top: None, thread_id };
        if config.enable_stack_canaries {
            protected.place_canaries(now, protection);
        }
        Ok(protected)
    }

    fn place_canaries(&mut self, now: u64, protection: &mut StackProtection)
        requires
            old(self).stack.memory@.len() >= 2 * CANARY_SIZE,
        ensures
            ({
                let c = StackCanary { magic: STACK_CANARY_MAGIC, thread_id: old(self).thread_id, timestamp: now };
                &&& final(self).canary_bottom == Some(c)
                &&& final(self).canary_top == Some(c)
                &&& final(self).stack.memory@ == with_canary(
                    with_canary(old(self).stack.memory@, 0, c),
                    top_canary_offset(old(self).stack.memory@.len()),
                    c,
                )
            }),
            final(self).stack.bottom == old(self).stack.bottom,
            final(self).thread_id == old(self).thread_id,
            *final(protection) == (StackProtection {
                canaries_placed: wrap_add_usize(old(protection).canaries_placed, 2),
                ..*old(protection)
            }),
    {
        let canary = StackCanary::new(self.thread_id, now);
        write_canary(&mut self.stack.memory, 0, canary);
        self.canary_bottom = Some(canary);
        let offset = self.stack.memory.len() - 2 * CANARY_SIZE;
        write_canary(&mut self.stack.memory, offset, canary);
        self.canary_top = Some(canary);
        protection.canaries_placed = protection.canaries_placed.wrapping_add(2);
    }

    /// Whether the placed canaries are intact; a failed check is counted
    /// in `protection`.
    pub fn check_canaries(&self, protection: &mut StackProtection) -> (valid: bool)
        requires
            self.wf(),
        ensures
            valid == self.canaries_intact(),
            valid ==> *final(protection) == *old(protection),
            !valid ==> *final(protection) == (StackProtection {
                violations_detected: wrap_inc_usize(old(protection).violations_detected),
                ..*old(protection)
            }),
    {
        let mut valid = true;
        if self.canary_bottom.is_some() {
            if !canary_intact_at(&self.stack.memory, 0, self.thread_id) {
                valid = false;
            }
        }
        if self.canary_top.is_some() {
            let offset = self.stack.memory.len() - 2 * CANARY_SIZE;
            if !canary_intact_at(&self.stack.memory, offset, self.thread_id) {
                valid = false;
            }
        }
        if !valid {
            protection.violations_detected = protection.violations_detected.wrapping_add(1);
        }
        valid
    }

    /// A stack-canary violation when a placed canary is no longer intact.
    pub fn validate_canaries(&self, protection: &mut StackProtection) -> (r: Result<(), SecurityViolation>)
        requires
            self.wf(),
        ensures
            r is Ok <==> self.canaries_intact(),
            r is Err ==> r == Err::<(), SecurityViolation>(SecurityViolation::StackCanaryViolation),
            r is Ok ==> *final(protection) == *old(protection),
            r is Err ==> *final(protection) == (StackProtection {
                violations_detected: wrap_inc_usize(old(protection).violations_detected),
                ..*old(protection)
            }),
    {
        if !self.check_canaries(protection) {
            return Err(SecurityViolation::StackCanaryViolation);
        }
        Ok(())
    }

    /// The stack.
    pub fn stack(&self) -> (s: &Stack)
        ensures
            s == self.stack_spec(),
    {
        &self.stack
    }

    /// Exclusive access to the stack; writes through it may overwrite the
    /// canaries, which the next check then reports.
    pub fn stack_mut(&mut self) -> (s: &mut Stack)
        ensures
            *s == *old(self).stack_spec(),
            *final(self).stack_spec() == *final(s),
            final(self).bottom_canary() == old(self).bottom_canary(),
            final(self).top_canary() == old(self).top_canary(),
            final(self).owner() == old(self).owner(),
    {
        &mut self.stack
    }

    /// Writes `value` at byte `offset` of the stack.
    pub fn stack_mut_write(&mut self, offset: usize, value: u8)
        requires
            offset < old(self).stack_spec().bytes().len(),
        ensures
            final(self).stack_spec().bytes() == old(self).stack_spec().bytes().update(offset as int, value),
            final(self).stack_spec().bottom_spec() == old(self).stack_spec().bottom_spec(),
            final(self).bottom_canary() == old(self).bottom_canary(),
            final(self).top_canary() == old(self).top_canary(),
            final(self).owner() == old(self).owner(),
    {
        self.stack.write_byte(offset, value);
    }

    /// The addresses between the canaries, `[start, end)`: above the bottom
    /// canary and two canary sizes below the top when canaries are placed,
    /// the whole stack otherwise.
    pub fn usable_range(&self) -> (r: (usize, usize))
        requires
            self.wf(),
            self.stack_spec().top_spec() <= usize::MAX,
        ensures
            r.0 == if self.bottom_canary() is Some {
                self.stack_spec().bottom_spec() + CANARY_SIZE
            } else {
                self.stack_spec().bottom_spec() as int
            },
            r.1 == if self.top_canary() is Some {
                self.stack_spec().top_spec() - 2 * CANARY_SIZE
            } else {
                self.stack_spec().top_spec()
            },
    {
        let start = if self.canary_bottom.is_some() {
            self.stack.bottom() + CANARY_SIZE
        } else {
            self.stack.bottom()
        };
        let end = if self.canary_top.is_some() {
            self.stack.top() - 2 * CANARY_SIZE
        } else {
            self.stack.top()
        };
        (start, end)
    }
}

/// A page below a stack that faults when touched.
#[derive(Debug, Clone, Copy, PartialEq, Eq, Structural)]
pub struct GuardPage {
    pub start_addr: usize,
    pub size: usize,
    pub is_protected: bool,
}

impl GuardPage {
    /// The address of the guard page of a stack starting at `stack_base`:
    /// one page below it.
    pub fn address(stack_base: usize, page_size: usize) -> (a: usize)
        requires
            page_size <= stack_base,
        ensures
            a == stack_base - page_size,
    {
        stack_base - page_size
    }

    /// The guard page one page below `stack_base`, given the result of
    /// making that page inaccessible (0 on success): a failure is a memory
    /// error, a success is counted in `protection`.
    pub fn new(stack_base: usize, page_size: usize, protect_result: i32, protection: &mut StackProtection) -> (r: Result<Self, ThreadError>)
        requires
            page_size <= stack_base,
        ensures
            protect_result != 0 ==> r == Err::<GuardPage, ThreadError>(ThreadError::MemoryError)
                && *final(protection) == *old(protection),
            protect_result == 0 ==> r == Ok::<GuardPage, ThreadError>(
                GuardPage { start_addr: (stack_base - page_size) as usize, size: page_size, is_protected: true },
            ) && *final(protection) == (StackProtection {
                guard_pages_allocated: wrap_inc_usize(old(protection).guard_pages_allocated),
                ..*old(protection)
            }),
    {
        let guard_addr = stack_base - page_size;
        if protect_result != 0 {
            return Err(ThreadError::MemoryError);
        }
        protection.guard_pages_allocated = protection.guard_pages_allocated.wrapping_add(1);
        Ok(GuardPage { start_addr: guard_addr, size: page_size, is_protected: true })
    }

    /// Records the result of making the page accessible again (0 on
    /// success); a page already unprotected needs nothing.
    pub fn unprotect(&mut self, unprotect_result: i32) -> (r: Result<(), ThreadError>)
        ensures
            !old(self).is_protected ==> r is Ok && *final(self) == *old(self),
            old(self).is_protected && unprotect_result != 0 ==> r == Err::<(), ThreadError>(
                ThreadError::MemoryError,
            ) && *final(self) == *old(self),
            old(self).is_protected && unprotect_result == 0 ==> r is Ok && *final(self) == (GuardPage {
                is_protected: false,
                ..*old(self)
            }),
    {
        if self.is_protected {
            if unprotect_result != 0 {
                return Err(ThreadError::MemoryError);
            }
            self.is_protected = false;
        }
        Ok(())
    }
}

/// Counters of the stack protection and whether any of it is on.
#[derive(Debug, Clone, Copy, PartialEq, Eq, Structural)]
pub struct StackProtectionStats {
    pub canaries_placed: usize,
    pub violations_detected: usize,
    pub guard_pages_allocated: usize,
    pub protection_enabled: bool,
}

/// Starts stack protection under `config`. Guard pages need an MMU; the
/// system has one.
pub fn init_stack_protection(config: SecurityConfig) -> (r: Result<(), ThreadError>)
    ensures
        r is Ok,
{
    if config.enable_guard_pages {
        if !is_mmu_available() {
            return Err(ThreadError::UnsupportedOperation);
        }
    }
    Ok(())
}

/// The page size assumed where the system is not asked: 4096 bytes.
pub fn get_page_size() -> (r: usize)
    ensures
        r == 4096,
{
    4096
}

/// Whether pages can be protected: assumed on the supported systems.
pub fn is_mmu_available() -> (r: bool)
    ensures
        r,
{
    true
}

/// The counters of `protection`, protection being on when canaries or
/// guard pages are switched on in `state`.
pub fn get_stack_protection_stats(protection: &StackProtection, state: &SecurityState) -> (s: StackProtectionStats)
    ensures
        s == (StackProtectionStats {
            canaries_placed: protection.canaries_placed,
            violations_detected: protection.violations_detected,
            guard_pages_allocated: protection.guard_pages_allocated,
            protection_enabled: state.stats_spec().features_enabled.canaries
                || state.stats_spec().features_enabled.guard_pages,
        }),
{
    let f = state.get_stats().features_enabled;
    StackProtectionStats {
        canaries_placed: protection.canaries_placed,
        violations_detected: protection.violations_detected,
        guard_pages_allocated: protection.guard_pages_allocated,
        protection_enabled: f.canaries || f.guard_pages,
    }
}

/// Checks the canaries of a protected stack when asked to finish.
pub struct StackCanaryGuard<'a> {
    protected_stack: &'a ProtectedStack,
}

impl<'a> StackCanaryGuard<'a> {
    /// The stack watched.
    pub closed spec fn watched(&self) -> &'a ProtectedStack {
        self.protected_stack
    }

    /// A guard over `protected_stack`.
    pub fn new(protected_stack: &'a ProtectedStack) -> (g: Self)
        ensures
            g.watched() == protected_stack,
    {
        StackCanaryGuard { protected_stack }
    }

    /// Checks the canaries of the watched stack.
    pub fn finish(&self, protection: &mut StackProtection) -> (r: Result<(), SecurityViolation>)
        requires
            self.watched().wf(),
        ensures
            r is Ok <==> self.watched().canaries_intact(),
            r is Err ==> r == Err::<(), SecurityViolation>(SecurityViolation::StackCanaryViolation),
            r is Ok ==> *final(protection) == *old(protection),
            r is Err ==> *final(protection) == (StackProtection {
                violations_detected: wrap_inc_usize(old(protection).violations_detected),
                ..*old(protection)
            }),
    {
        self.protected_stack.validate_canaries(protection)
    }
}

proof fn lemma_word_written(mem: Seq<u8>, o: int, v: u64)
    requires
        0 <= o,
        o + 8 <= mem.len(),
    ensures
        word_at_offset(with_word(mem, o, v), o) == v,
        with_word(mem, o, v).len() == mem.len(),
{
    lemma_le_word_bytes(v);
    let m = with_word(mem, o, v);
    assert(m[o] == byte_of(v, 0));
    assert(m[o + 1] == byte_of(v, 1));
    assert(m[o + 2] == byte_of(v, 2));
    assert(m[o + 3] == byte_of(v, 3));
    assert(m[o + 4] == byte_of(v, 4));
    assert(m[o + 5] == byte_of(v, 5));
    assert(m[o + 6] == byte_of(v, 6));
    assert(m[o + 7] == byte_of(v, 7));
}

proof fn lemma_word_frame(m1: Seq<u8>, m2: Seq<u8>, p: int)
    requires
        0 <= p,
        p + 8 <= m1.len(),
        p + 8 <= m2.len(),
        forall|i: int| p <= i < p + 8 ==> #[trigger] m1[i] == m2[i],
    ensures
        word_at_offset(m1, p) == word_at_offset(m2, p),
{
    assert(m1[p] == m2[p]);
    assert(m1[p + 1] == m2[p + 1]);
    assert(m1[p + 2] == m2[p + 2]);
    assert(m1[p + 3] == m2[p + 3]);
    assert(m1[p + 4] == m2[p + 4]);
    assert(m1[p + 5] == m2[p + 5]);
    assert(m1[p + 6] == m2[p + 6]);
    assert(m1[p + 7] == m2[p + 7]);
}

proof fn lemma_canary_written(mem: Seq<u8>, o: int, c: StackCanary)
    requires
        0 <= o,
        o + CANARY_SIZE <= mem.len(),
    ensures
        with_canary(mem, o, c).len() == mem.len(),
        word_at_offset(with_canary(mem, o, c), o) == c.magic,
        word_at_offset(with_canary(mem, o, c), o + 8) == c.thread_id,
        forall|i: int| 0 <= i < mem.len() && !(o <= i < o + CANARY_SIZE) ==> #[trigger] with_canary(mem, o, c)[i] == mem[i],
{
    let m1 = with_word(mem, o, c.magic);
    let m2 = with_word(m1, o + 8, c.thread_id);
    let m3 = with_word(m2, o + 16, c.timestamp);
    lemma_word_written(mem, o, c.magic);
    lemma_word_written(m1, o + 8, c.thread_id);
    lemma_word_written(m2, o + 16, c.timestamp);
    lemma_word_frame(m2, m3, o);
    lemma_word_frame(m1, m2, o);
    lemma_word_frame(m2, m3, o + 8);
}

/// Canaries placed on a stack of 48 bytes, or of 64 bytes or more, are
/// intact right after placement: the first check of a freshly protected
/// stack passes. (On stacks of 49 to 63 bytes the top canary overwrites
/// part of the two words checked of the bottom one.)
pub proof fn law_placed_canaries_are_intact(mem: Seq<u8>, tid: u64, now: u64)
    requires
        mem.len() == 2 * CANARY_SIZE || mem.len() >= 2 * CANARY_SIZE + 16,
    ensures
        ({
            let c = StackCanary { magic: STACK_CANARY_MAGIC, thread_id: tid, timestamp: now };
            let t = top_canary_offset(mem.len());
            let placed = with_canary(with_canary(mem, 0, c), t, c);
            &&& placed.len() == mem.len()
            &&& canary_intact(placed, 0, tid)
            &&& canary_intact(placed, t, tid)
        }),
{
    let c = StackCanary { magic: STACK_CANARY_MAGIC, thread_id: tid, timestamp: now };
    let t = top_canary_offset(mem.len());
    let m1 = with_canary(mem, 0, c);
    let placed = with_canary(m1, t, c);
    lemma_canary_written(mem, 0, c);
    lemma_canary_written(m1, t, c);
    if t >= 16 {
        lemma_word_frame(m1, placed, 0);
        lemma_word_frame(m1, placed, 8);
    }
}

/// Writes between the canaries (at or above the end of the bottom canary
/// and below the top canary) leave both canaries intact.
pub proof fn law_writes_between_canaries_keep_them(mem: Seq<u8>, tid: u64, i: int, value: u8)
    requires
        mem.len() >= 2 * CANARY_SIZE,
        canary_intact(mem, 0, tid),
        canary_intact(mem, top_canary_offset(mem.len()), tid),
        CANARY_SIZE <= i < top_canary_offset(mem.len()),
    ensures
        canary_intact(mem.update(i, value), 0, tid),
        canary_intact(mem.update(i, value), top_canary_offset(mem.len()), tid),
{
    let m = mem.update(i, value);
    let t = top_canary_offset(mem.len());
    lemma_word_frame(mem, m, 0);
    lemma_word_frame(mem, m, 8);
    lemma_word_frame(mem, m, t);
    lemma_word_frame(mem, m, t + 8);
}

proof fn lemma_le_word_injective(
    b0: u8, b1: u8, b2: u8, b3: u8, b4: u8, b5: u8, b6: u8, b7: u8,
    c0: u8, c1: u8, c2: u8, c3: u8, c4: u8, c5: u8, c6: u8, c7: u8,
)
    requires
        le_word(b0, b1, b2, b3, b4, b5, b6, b7) == le_word(c0, c1, c2, c3, c4, c5, c6, c7),
    ensures
        b0 == c0 && b1 == c1 && b2 == c2 && b3 == c3 && b4 == c4 && b5 == c5 && b6 == c6 && b7 == c7,
{
    assert(le_word(b0, b1, b2, b3, b4, b5, b6, b7) == le_word(c0, c1, c2, c3, c4, c5, c6, c7) ==> (
    b0 == c0 && b1 == c1 && b2 == c2 && b3 == c3 && b4 == c4 && b5 == c5 && b6 == c6 && b7 == c7))
        by (bit_vector);
}

/// Any change to the first two words of an intact canary (its magic or its
/// thread id) makes the canary check fail.
pub proof fn law_overwritten_canary_is_detected(mem: Seq<u8>, o: int, tid: u64, i: int, value: u8)
    requires
        0 <= o,
        o + CANARY_SIZE <= mem.len(),
        canary_intact(mem, o, tid),
        o <= i < o + 16,
        value != mem[i],
    ensures
        !canary_intact(mem.update(i, value), o, tid),
{
    let m = mem.update(i, value);
    if canary_intact(m, o, tid) {
        if i < o + 8 {
            lemma_word_frame(mem, m, o + 8);
            lemma_le_word_injective(
                mem[o], mem[o + 1], mem[o + 2], mem[o + 3], mem[o + 4], mem[o + 5], mem[o + 6], mem[o + 7],
                m[o], m[o + 1], m[o + 2], m[o + 3], m[o + 4], m[o + 5], m[o + 6], m[o + 7],
            );
        } else {
            lemma_le_word_injective(
                mem[o + 8], mem[o + 9], mem[o + 10], mem[o + 11], mem[o + 12], mem[o + 13], mem[o + 14], mem[o + 15],
                m[o + 8], m[o + 9], m[o + 10], m[o + 11], m[o + 12], m[o + 13], m[o + 14], m[o + 15],
            );
        }
        assert(m[i] == mem[i]);
    }
}

} // verus!
