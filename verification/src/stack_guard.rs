use vstd::prelude::*;

verus! {

/// Guard configuration of a protected stack.
#[derive(Clone, Copy)]
pub struct StackGuard {
    /// Bytes of guard area at the bottom of the stack.
    pub guard_size: usize,
    /// Word written over the bottom guard area.
    pub canary_value: u64,
    /// Bytes below the stack pointer that must stay usable.
    pub red_zone: usize,
}

/// Default guard size: one page.
pub const DEFAULT_GUARD_SIZE: usize = 4096;

/// Default canary word.
pub const DEFAULT_CANARY: u64 = 0xDEADBEEFCAFEBABE;

/// Default red zone: the x86_64 ABI's 128 bytes.
pub const DEFAULT_RED_ZONE: usize = 128;

impl Default for StackGuard {
    fn default() -> (g: Self)
        ensures
            g.guard_size == DEFAULT_GUARD_SIZE,
            g.canary_value == DEFAULT_CANARY,
            g.red_zone == DEFAULT_RED_ZONE,
    {
        StackGuard {
            guard_size: DEFAULT_GUARD_SIZE,
            canary_value: DEFAULT_CANARY,
            red_zone: DEFAULT_RED_ZONE,
        }
    }
}

/// Outcome of a stack check.
#[derive(Debug, Clone, Copy)]
pub enum StackStatus {
    Normal { used_bytes: usize, free_bytes: usize },
    NearOverflow { bytes_remaining: usize },
    Overflow { overflow_bytes: usize },
    Corrupted { corrupted_bytes: usize, location: StackCorruption },
}

/// Where a corruption was found.
#[derive(Debug, Clone, Copy)]
pub enum StackCorruption {
    GuardPage,
    StackFrame,
    Unknown,
}

/// Size and usage figures of a protected stack.
#[derive(Debug, Clone, Copy)]
pub struct StackStats {
    pub total_size: usize,
    pub usable_size: usize,
    pub guard_size: usize,
    pub current_usage: usize,
    pub peak_usage: usize,
    pub red_zone_size: usize,
}

/// Byte `k` (0 = least significant) of `v`.
pub open spec fn byte_of(v: u64, k: int) -> u8 {
    ((v >> ((8 * k) as u64)) & 0xffu64) as u8
}

/// The little-endian word of eight bytes.
pub open spec fn le_word(b0: u8, b1: u8, b2: u8, b3: u8, b4: u8, b5: u8, b6: u8, b7: u8) -> u64 {
    (b0 as u64) | ((b1 as u64) << 8u64) | ((b2 as u64) << 16u64) | ((b3 as u64) << 24u64) | ((
    b4 as u64) << 32u64) | ((b5 as u64) << 40u64) | ((b6 as u64) << 48u64) | ((b7 as u64)
        << 56u64)
}

/// The little-endian word stored at word index `i` of `mem`.
pub open spec fn word_at(mem: Seq<u8>, i: int) -> u64 {
    le_word(
        mem[8 * i],
        mem[8 * i + 1],
        mem[8 * i + 2],
        mem[8 * i + 3],
        mem[8 * i + 4],
        mem[8 * i + 5],
        mem[8 * i + 6],
        mem[8 * i + 7],
    )
}

/// Number of the first `n` words of `mem` that differ from `canary`.
pub open spec fn corrupted_words(mem: Seq<u8>, canary: u64, n: int) -> nat
    decreases n,
{
    if n <= 0 {
        0
    } else {
        corrupted_words(mem, canary, n - 1) + if word_at(mem, n - 1) != canary {
            1nat
        } else {
            0nat
        }
    }
}

/// A word's bytes put back together give the word.
pub proof fn lemma_le_word_bytes(v: u64)
    ensures
        le_word(
            byte_of(v, 0),
            byte_of(v, 1),
            byte_of(v, 2),
            byte_of(v, 3),
            byte_of(v, 4),
            byte_of(v, 5),
            byte_of(v, 6),
            byte_of(v, 7),
        ) == v,
{
    assert((((v >> 0u64) & 0xffu64) as u8 as u64) | ((((v >> 8u64) & 0xffu64) as u8 as u64) << 8u64)
        | ((((v >> 16u64) & 0xffu64) as u8 as u64) << 16u64) | ((((v >> 24u64) & 0xffu64) as u8
        as u64) << 24u64) | ((((v >> 32u64) & 0xffu64) as u8 as u64) << 32u64) | ((((v >> 40u64)
        & 0xffu64) as u8 as u64) << 40u64) | ((((v >> 48u64) & 0xffu64) as u8 as u64) << 48u64)
        | ((((v >> 56u64) & 0xffu64) as u8 as u64) << 56u64) == v) by (bit_vector);
}

proof fn lemma_corrupted_words_bound(mem: Seq<u8>, canary: u64, n: int)
    requires
        n >= 0,
    ensures
        corrupted_words(mem, canary, n) <= n,
    decreases n,
{
    if n > 0 {
        lemma_corrupted_words_bound(mem, canary, n - 1);
    }
}

proof fn lemma_corrupted_words_frame(m1: Seq<u8>, m2: Seq<u8>, canary: u64, n: int)
    requires
        n >= 0,
        forall|i: int| 0 <= i < 8 * n ==> m1[i] == m2[i],
    ensures
        corrupted_words(m1, canary, n) == corrupted_words(m2, canary, n),
    decreases n,
{
    if n > 0 {
        lemma_corrupted_words_frame(m1, m2, canary, n - 1);
        assert(word_at(m1, n - 1) == word_at(m2, n - 1));
    }
}

/// A stack region with a canary-filled guard area at its bottom, the
/// usable bytes above it, and a low-water mark of the stack pointer.
pub struct ProtectedStack {
    memory: Vec<u8>,
    base: u64,
    total_size: usize,
    stack_size: usize,
    guard: StackGuard,
    watermark: u64,
}

impl ProtectedStack {
    /// The region's bytes, guards included.
    pub closed spec fn memory(&self) -> Seq<u8> {
        self.memory@
    }

    /// Address of the region's first byte.
    pub closed spec fn base(&self) -> u64 {
        self.base
    }

    /// The guard configuration.
    pub closed spec fn guard(&self) -> StackGuard {
        self.guard
    }

    /// Bytes above the guard area.
    pub closed spec fn usable(&self) -> usize {
        self.stack_size
    }

    /// Lowest stack pointer seen in range (the stack top when none was).
    pub closed spec fn watermark(&self) -> u64 {
        self.watermark
    }

    /// Address of the lowest usable byte.
    pub open spec fn stack_bottom(&self) -> int {
        self.base() + self.guard().guard_size
    }

    /// Address just above the usable bytes: the end of the region.
    pub open spec fn stack_top(&self) -> int {
        self.base() + self.memory().len()
    }

    /// Well-formedness: sizes agree with the region and the watermark lies
    /// within the usable bytes (or at their top).
    pub closed spec fn wf(&self) -> bool {
        &&& self.total_size == self.memory@.len()
        &&& self.guard.guard_size <= self.total_size
        &&& self.stack_size == self.total_size - self.guard.guard_size
        &&& self.base + self.total_size <= u64::MAX
        &&& self.stack_bottom() <= self.watermark <= self.stack_top()
    }

    /// Protects `memory`, whose first byte is at address `base`: fills the
    /// bottom guard area with canary words and sets the watermark to the
    /// stack top. The region must hold the guard area.
    pub fn new(memory: Vec<u8>, base: u64, guard: StackGuard) -> (s: Self)
        requires
            guard.guard_size <= memory@.len(),
            base + memory@.len() <= u64::MAX,
        ensures
            s.wf(),
            s.base() == base,
            s.guard() == guard,
            s.memory().len() == memory@.len(),
            s.usable() == memory@.len() - guard.guard_size,
            s.watermark() == s.stack_top(),
            forall|i: int|
                0 <= i < (guard.guard_size / 8) as int ==> #[trigger] word_at(s.memory(), i)
                    == guard.canary_value,
            forall|i: int|
                8 * (guard.guard_size / 8) <= i < memory@.len() ==> #[trigger] s.memory()[i]
                    == memory@[i],
    {
        let total_size = memory.len();
        let stack_size = total_size - guard.guard_size;
        let mut mem = memory;
        let words = guard.guard_size / 8;
        let mut i: usize = 0;
        let v = guard.canary_value;
        proof {
            lemma_le_word_bytes(v);
        }
        while i < words
            invariant
                words == guard.guard_size / 8,
                i <= words,
                mem@.len() == total_size,
                total_size == memory@.len(),
                guard.guard_size <= total_size,
                forall|j: int| 0 <= j < i ==> #[trigger] word_at(mem@, j) == v,
                forall|j: int| 8 * i <= j < total_size ==> #[trigger] mem@[j] == memory@[j],
            decreases words - i,
        {
            let ghost before = mem@;
            let o = 8 * i;
            mem.set(o, ((v >> 0u64) & 0xff) as u8);
            mem.set(o + 1, ((v >> 8u64) & 0xff) as u8);
            mem.set(o + 2, ((v >> 16u64) & 0xff) as u8);
            mem.set(o + 3, ((v >> 24u64) & 0xff) as u8);
            mem.set(o + 4, ((v >> 32u64) & 0xff) as u8);
            mem.set(o + 5, ((v >> 40u64) & 0xff) as u8);
            mem.set(o + 6, ((v >> 48u64) & 0xff) as u8);
            mem.set(o + 7, ((v >> 56u64) & 0xff) as u8);
            assert(v >> 0u64 == v) by (bit_vector);
            assert forall|j: int| 0 <= j < i implies #[trigger] word_at(mem@, j) == v by {
                assert(word_at(before, j) == v);
                assert(word_at(mem@, j) == word_at(before, j));
            }
            assert(mem@[8 * i] == byte_of(v, 0));
            assert(mem@[8 * i + 1] == byte_of(v, 1));
            assert(mem@[8 * i + 2] == byte_of(v, 2));
            assert(mem@[8 * i + 3] == byte_of(v, 3));
            assert(mem@[8 * i + 4] == byte_of(v, 4));
            assert(mem@[8 * i + 5] == byte_of(v, 5));
            assert(mem@[8 * i + 6] == byte_of(v, 6));
            assert(mem@[8 * i + 7] == byte_of(v, 7));
            proof {
                lemma_le_word_bytes(v);
            }
            assert(le_word(
                byte_of(v, 0),
                byte_of(v, 1),
                byte_of(v, 2),
                byte_of(v, 3),
                byte_of(v, 4),
                byte_of(v, 5),
                byte_of(v, 6),
                byte_of(v, 7),
            ) == v);
            assert(word_at(mem@, i as int) == le_word(
                mem@[8 * i],
                mem@[8 * i + 1],
                mem@[8 * i + 2],
                mem@[8 * i + 3],
                mem@[8 * i + 4],
                mem@[8 * i + 5],
                mem@[8 * i + 6],
                mem@[8 * i + 7],
            ));
            assert(word_at(mem@, i as int) == v);
            i = i + 1;
        }
        let watermark = base + total_size as u64;
        ProtectedStack { memory: mem, base, total_size, stack_size, guard, watermark }
    }

    /// Checks the stack given the current stack pointer `current_sp`:
    /// a canary word of the bottom guard changed means corruption; a stack
    /// pointer below the usable bytes means overflow; otherwise the
    /// watermark is lowered to `current_sp` and the usage it shows is
    /// reported, as near-overflow when it reaches into the red zone.
    pub fn check_overflow(&mut self, current_sp: u64) -> (st: StackStatus)
        requires
            old(self).wf(),
            old(self).guard().red_zone <= old(self).usable(),
        ensures
            final(self).wf(),
            final(self).memory() == old(self).memory(),
            final(self).base() == old(self).base(),
            final(self).guard() == old(self).guard(),
            final(self).usable() == old(self).usable(),
            ({
                let s = *old(self);
                let bad = corrupted_words(
                    s.memory(),
                    s.guard().canary_value,
                    (s.guard().guard_size / 8) as int,
                );
                let wm = if current_sp < s.watermark() {
                    current_sp
                } else {
                    s.watermark()
                };
                let used = s.stack_top() - wm;
                if bad > 0 {
                    &&& st == StackStatus::Corrupted {
                        corrupted_bytes: (bad * 8) as usize,
                        location: StackCorruption::GuardPage,
                    }
                    &&& final(self).watermark() == s.watermark()
                } else if current_sp < s.stack_bottom() {
                    &&& st == StackStatus::Overflow {
                        overflow_bytes: (s.stack_bottom() - current_sp) as usize,
                    }
                    &&& final(self).watermark() == s.watermark()
                } else {
                    &&& final(self).watermark() == wm
                    &&& used > s.usable() - s.guard().red_zone ==> st == StackStatus::NearOverflow {
                        bytes_remaining: (s.usable() - used) as usize,
                    }
                    &&& used <= s.usable() - s.guard().red_zone ==> st == StackStatus::Normal {
                        used_bytes: used as usize,
                        free_bytes: (s.usable() - used) as usize,
                    }
                }
            }),
    {
        let words = self.guard.guard_size / 8;
        let mut corrupted: usize = 0;
        let mut i: usize = 0;
        while i < words
            invariant
                self.wf(),
                *self == *old(self),
                words == self.guard.guard_size / 8,
                i <= words,
                corrupted == corrupted_words(self.memory@, self.guard.canary_value, i as int),
                corrupted <= i,
            decreases words - i,
        {
            let o = 8 * i;
            let w = (self.memory[o] as u64) | ((self.memory[o + 1] as u64) << 8u64) | ((
            self.memory[o + 2] as u64) << 16u64) | ((self.memory[o + 3] as u64) << 24u64) | ((
            self.memory[o + 4] as u64) << 32u64) | ((self.memory[o + 5] as u64) << 40u64) | ((
            self.memory[o + 6] as u64) << 48u64) | ((self.memory[o + 7] as u64) << 56u64);
            assert(w == word_at(self.memory@, i as int));
            if w != self.guard.canary_value {
                corrupted = corrupted + 1;
            }
            i = i + 1;
        }
        if corrupted > 0 {
            return StackStatus::Corrupted {
                corrupted_bytes: corrupted * 8,
                location: StackCorruption::GuardPage,
            };
        }
        let stack_bottom = self.base + self.guard.guard_size as u64;
        if current_sp < stack_bottom {
            return StackStatus::Overflow { overflow_bytes: (stack_bottom - current_sp) as usize };
        }
        if current_sp < self.watermark {
            self.watermark = current_sp;
        }
        let high_water_mark = self.watermark;
        let stack_top = self.base + self.total_size as u64;
        let used = stack_top - high_water_mark;
        if used as usize > self.stack_size - self.guard.red_zone {
            return StackStatus::NearOverflow { bytes_remaining: self.stack_size - used as usize };
        }
        StackStatus::Normal { used_bytes: used as usize, free_bytes: self.stack_size - used as usize }
    }

    /// Size and usage figures, given the current stack pointer (which must
    /// not lie above the stack top).
    pub fn get_stats(&self, current_sp: u64) -> (st: StackStats)
        requires
            self.wf(),
            self.stack_bottom() <= current_sp <= self.stack_top(),
        ensures
            st.total_size == self.memory().len(),
            st.usable_size == self.usable(),
            st.guard_size == self.guard().guard_size,
            st.current_usage == self.stack_top() - current_sp,
            st.peak_usage == self.stack_top() - self.watermark(),
            st.red_zone_size == self.guard().red_zone,
    {
        let stack_top = self.base + self.total_size as u64;
        StackStats {
            total_size: self.total_size,
            usable_size: self.stack_size,
            guard_size: self.guard.guard_size,
            current_usage: (stack_top - current_sp) as usize,
            peak_usage: (stack_top - self.watermark) as usize,
            red_zone_size: self.guard.red_zone,
        }
    }
}

} // verus!
