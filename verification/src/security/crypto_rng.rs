use vstd::prelude::*;
use crate::errors::ThreadError;
use crate::observability::metrics::wrap_add;
use crate::stack_guard::le_word;

verus! {

/// `x` rotated left by `n` bits, for `0 < n < 32`.
pub open spec fn rotl(x: u32, n: u32) -> u32 {
    (x << n) | (x >> ((32 - n) as u32))
}

fn rotate_left(x: u32, n: u32) -> (r: u32)
    requires
        0 < n < 32,
    ensures
        r == rotl(x, n),
{
    (x << n) | (x >> (32 - n))
}

/// The ChaCha quarter round on four words.
pub open spec fn qr_vals(a: u32, b: u32, c: u32, d: u32) -> (u32, u32, u32, u32) {
    let a1 = a.wrapping_add(b);
    let d1 = rotl(d ^ a1, 16);
    let c1 = c.wrapping_add(d1);
    let b1 = rotl(b ^ c1, 12);
    let a2 = a1.wrapping_add(b1);
    let d2 = rotl(d1 ^ a2, 8);
    let c2 = c1.wrapping_add(d2);
    let b2 = rotl(b1 ^ c2, 7);
    (a2, b2, c2, d2)
}

/// The quarter round applied to words `a`, `b`, `c`, `d` of `s`.
pub open spec fn qr(s: Seq<u32>, a: int, b: int, c: int, d: int) -> Seq<u32> {
    let r = qr_vals(s[a], s[b], s[c], s[d]);
    s.update(a, r.0).update(b, r.1).update(c, r.2).update(d, r.3)
}

/// Four column rounds then four diagonal rounds.
pub open spec fn double_round(s: Seq<u32>) -> Seq<u32> {
    let s1 = qr(qr(qr(qr(s, 0, 4, 8, 12), 1, 5, 9, 13), 2, 6, 10, 14), 3, 7, 11, 15);
    qr(qr(qr(qr(s1, 0, 5, 10, 15), 1, 6, 11, 12), 2, 7, 8, 13), 3, 4, 9, 14)
}

/// `n` double rounds applied to `s`.
pub open spec fn rounds(s: Seq<u32>, n: nat) -> Seq<u32>
    decreases n,
{
    if n == 0 {
        s
    } else {
        double_round(rounds(s, (n - 1) as nat))
    }
}

proof fn lemma_rounds_len(s: Seq<u32>, n: nat)
    requires
        s.len() == 16,
    ensures
        rounds(s, n).len() == 16,
    decreases n,
{
    if n > 0 {
        lemma_rounds_len(s, (n - 1) as nat);
    }
}

/// The words of the ChaCha20 block of state `s`: twenty rounds, then the
/// state added word by word.
pub open spec fn block_words(s: Seq<u32>) -> Seq<u32> {
    Seq::new(16, |i: int| rounds(s, 10)[i].wrapping_add(s[i]))
}

/// Byte `k` (0 lowest) of `w`.
pub open spec fn byte_of_u32(w: u32, k: int) -> u8 {
    ((w >> ((8 * k) as u32)) & 0xffu32) as u8
}

/// The 64 bytes of the ChaCha20 block of state `s`, each word
/// little-endian.
pub open spec fn block_bytes(s: Seq<u32>) -> Seq<u8> {
    Seq::new(64, |k: int| byte_of_u32(block_words(s)[k / 4], k % 4))
}

/// The ChaCha quarter round on four words.
pub fn quarter_round(a: &mut u32, b: &mut u32, c: &mut u32, d: &mut u32)
    ensures
        (*final(a), *final(b), *final(c), *final(d)) == qr_vals(*old(a), *old(b), *old(c), *old(d)),
{
    *a = a.wrapping_add(*b);
    *d = *d ^ *a;
    *d = rotate_left(*d, 16);
    *c = c.wrapping_add(*d);
    *b = *b ^ *c;
    *b = rotate_left(*b, 12);
    *a = a.wrapping_add(*b);
    *d = *d ^ *a;
    *d = rotate_left(*d, 8);
    *c = c.wrapping_add(*d);
    *b = *b ^ *c;
    *b = rotate_left(*b, 7);
}

/// The quarter round on words `a`, `b`, `c`, `d` of `state`.
pub fn quarter_round_by_indices(state: &mut [u32; 16], a: usize, b: usize, c: usize, d: usize)
    requires
        a < 16 && b < 16 && c < 16 && d < 16,
        a != b && a != c && a != d && b != c && b != d && c != d,
    ensures
        final(state)@ == qr(old(state)@, a as int, b as int, c as int, d as int),
{
    let mut va = state[a];
    let mut vb = state[b];
    let mut vc = state[c];
    let mut vd = state[d];
    quarter_round(&mut va, &mut vb, &mut vc, &mut vd);
    state[a] = va;
    state[b] = vb;
    state[c] = vc;
    state[d] = vd;
    assert(state@ == qr(old(state)@, a as int, b as int, c as int, d as int));
}

fn double_round_exec(w: &mut [u32; 16])
    ensures
        final(w)@ == double_round(old(w)@),
{
    quarter_round_by_indices(w, 0, 4, 8, 12);
    quarter_round_by_indices(w, 1, 5, 9, 13);
    quarter_round_by_indices(w, 2, 6, 10, 14);
    quarter_round_by_indices(w, 3, 7, 11, 15);
    quarter_round_by_indices(w, 0, 5, 10, 15);
    quarter_round_by_indices(w, 1, 6, 11, 12);
    quarter_round_by_indices(w, 2, 7, 8, 13);
    quarter_round_by_indices(w, 3, 4, 9, 14);
}

/// The ChaCha20 block of `state`.
pub fn chacha20_block(state: &[u32; 16]) -> (output: [u8; 64])
    ensures
        output@ == block_bytes(state@),
{
    let mut working: [u32; 16] = *state;
    let mut round: usize = 0;
    while round < 10
        invariant
            round <= 10,
            working@ == rounds(state@, round as nat),
        decreases 10 - round,
    {
        double_round_exec(&mut working);
        round = round + 1;
    }
    let ghost mixed = rounds(state@, 10);
    proof {
        lemma_rounds_len(state@, 10);
    }
    let mut i: usize = 0;
    while i < 16
        invariant
            i <= 16,
            working@.len() == 16,
            mixed.len() == 16,
            mixed == rounds(state@, 10),
            forall|j: int| 0 <= j < i ==> working@[j] == block_words(state@)[j],
            forall|j: int| i <= j < 16 ==> working@[j] == mixed[j],
        decreases 16 - i,
    {
        working[i] = working[i].wrapping_add(state[i]);
        i = i + 1;
    }
    let mut output: [u8; 64] = [0u8; 64];
    let mut k: usize = 0;
    while k < 16
        invariant
            k <= 16,
            output@.len() == 64,
            forall|j: int| 0 <= j < 16 ==> working@[j] == block_words(state@)[j],
            forall|j: int| 0 <= j < 4 * k ==> output@[j] == block_bytes(state@)[j],
        decreases 16 - k,
    {
        let w = working[k];
        output[4 * k] = (w & 0xff) as u8;
        output[4 * k + 1] = ((w >> 8u32) & 0xff) as u8;
        output[4 * k + 2] = ((w >> 16u32) & 0xff) as u8;
        output[4 * k + 3] = ((w >> 24u32) & 0xff) as u8;
        assert(w >> 0u32 == w) by (bit_vector);
        assert forall|j: int| 0 <= j < 4 * k + 4 implies output@[j] == block_bytes(state@)[j] by {
            if j >= 4 * k {
                assert(j / 4 == k);
            }
        }
        k = k + 1;
    }
    assert(output@ == block_bytes(state@));
    output
}

/// The low 32 bits of `v`.
pub open spec fn low32(v: u64) -> u32 {
    (v & 0xFFFF_FFFFu64) as u32
}

/// Key word `i` (0 to 7) taken from `e`: the low half of an even word, the
/// high half of an odd one.
pub open spec fn key_word(e: u64, i: int) -> u32 {
    (e >> ((32 * (i % 2)) as u64)) as u32
}

/// The state keyed from the entropy pool `e`: the constants, eight key
/// words from the first eight pool words, a zero counter and a nonce from
/// the last two pool words.
pub open spec fn keyed_state(e: Seq<u64>) -> Seq<u32> {
    Seq::new(
        16,
        |i: int|
            if i == 0 {
                0x61707865u32
            } else if i == 1 {
                0x3320646eu32
            } else if i == 2 {
                0x79622d32u32
            } else if i == 3 {
                0x6b206574u32
            } else if 4 <= i < 12 {
                key_word(e[i - 4], i - 4)
            } else if i == 12 || i == 13 {
                0u32
            } else if i == 14 {
                low32(e[30])
            } else {
                low32(e[31])
            },
    )
}

/// `s` with fresh entropy `e` mixed in: key words xor the key words of pool
/// words 8 to 15, nonce words xor the low halves of the last two.
pub open spec fn reseeded_state(s: Seq<u32>, e: Seq<u64>) -> Seq<u32> {
    Seq::new(
        16,
        |i: int|
            if 4 <= i < 12 {
                s[i] ^ key_word(e[i + 4], i - 4)
            } else if i == 14 {
                s[14] ^ low32(e[30])
            } else if i == 15 {
                s[15] ^ low32(e[31])
            } else {
                s[i]
            },
    )
}

/// `s` with its block counter set to `c`.
pub open spec fn with_counter(s: Seq<u32>, c: u64) -> Seq<u32> {
    s.update(12, low32(c)).update(13, (c >> 32u64) as u32)
}

/// `c + k` modulo 2^64.
pub open spec fn counter_plus(c: u64, k: int) -> u64 {
    ((c + k) % 0x1_0000_0000_0000_0000int) as u64
}

/// Byte `j` of the key stream of state `s` from block counter `c`.
pub open spec fn stream_byte(s: Seq<u32>, c: u64, j: int) -> u8 {
    block_bytes(with_counter(s, counter_plus(c, j / 64)))[j % 64]
}

/// The number of blocks that `n` bytes of key stream take.
pub open spec fn blocks_for(n: nat) -> nat {
    ((n + 63) / 64) as nat
}

/// The key stream continues across requests: after a request whose length
/// is a whole number of blocks, the bytes of the next request are those
/// that follow in the stream of the first, so no key-stream byte is handed
/// out twice.
pub proof fn law_stream_continues(s: Seq<u32>, c: u64, n: nat, j: int)
    requires
        s.len() == 16,
        n % 64 == 0,
        0 <= j,
    ensures
        ({
            let c2 = counter_plus(c, blocks_for(n) as int);
            stream_byte(with_counter(s, c2), c2, j) == stream_byte(s, c, n + j)
        }),
{
    let m: int = 0x1_0000_0000_0000_0000int;
    let q: int = n as int / 64;
    assert(n == 64 * q) by {
        vstd::arithmetic::div_mod::lemma_fundamental_div_mod(n as int, 64);
    }
    assert(blocks_for(n) == q) by {
        vstd::arithmetic::div_mod::lemma_div_multiples_vanish_fancy(q, 63, 64);
    }
    let c2 = counter_plus(c, q);
    assert((n + j) / 64 == q + j / 64) by {
        vstd::arithmetic::div_mod::lemma_hoist_over_denominator(j, q, 64);
    }
    assert((n + j) % 64 == j % 64) by {
        vstd::arithmetic::div_mod::lemma_mod_multiples_vanish(q, j, 64);
    }
    assert(counter_plus(c2, j / 64) == counter_plus(c, (n + j) / 64)) by {
        let x: int = c + q;
        let y: int = j / 64;
        vstd::arithmetic::div_mod::lemma_add_mod_noop(x, y, m);
        vstd::arithmetic::div_mod::lemma_add_mod_noop(x % m, y, m);
        vstd::arithmetic::div_mod::lemma_mod_twice(x, m);
    }
    assert(with_counter(with_counter(s, c2), counter_plus(c2, j / 64)) =~= with_counter(
        s,
        counter_plus(c2, j / 64),
    ));
}

/// A ChaCha20 key stream.
pub struct ChaCha20State {
    state: [u32; 16],
    counter: u64,
    initialized: bool,
}

impl ChaCha20State {
    /// The sixteen state words.
    pub closed spec fn words(&self) -> Seq<u32> {
        self.state@
    }

    /// The next block counter.
    pub closed spec fn block_counter(&self) -> u64 {
        self.counter
    }

    /// Whether a key was set.
    pub closed spec fn is_initialized(&self) -> bool {
        self.initialized
    }

    /// The counter words of the state hold the block counter.
    pub open spec fn wf(&self) -> bool {
        self.words().len() == 16 && (self.is_initialized() ==> with_counter(self.words(), self.block_counter())
            == self.words())
    }

    /// No key yet: every state word zero.
    pub fn new() -> (c: Self)
        ensures
            c.wf(),
            !c.is_initialized(),
            c.block_counter() == 0,
            c.words() == Seq::new(16, |i: int| 0u32),
    {
        let c = ChaCha20State { state: [0u32; 16], counter: 0, initialized: false };
        assert(c.words() =~= Seq::new(16, |i: int| 0u32));
        c
    }

    /// Keys the stream from the entropy pool `entropy`, counter zero.
    pub fn initialize(&mut self, entropy: &[u64; 32]) -> (r: Result<(), ThreadError>)
        ensures
            r is Ok,
            final(self).wf(),
            final(self).is_initialized(),
            final(self).block_counter() == 0,
            final(self).words() == keyed_state(entropy@),
    {
        self.state[0] = 0x61707865;
        self.state[1] = 0x3320646e;
        self.state[2] = 0x79622d32;
        self.state[3] = 0x6b206574;
        let mut i: usize = 0;
        while i < 8
            invariant
                i <= 8,
                self.state@.len() == 16,
                self.state@[0] == 0x61707865u32,
                self.state@[1] == 0x3320646eu32,
                self.state@[2] == 0x79622d32u32,
                self.state@[3] == 0x6b206574u32,
                forall|j: int| 4 <= j < 4 + i ==> self.state@[j] == key_word(entropy@[j - 4], j - 4),
            decreases 8 - i,
        {
            let e = entropy[i];
            self.state[4 + i] = (e >> (32 * ((i % 2) as u64))) as u32;
            i = i + 1;
        }
        self.state[12] = 0;
        self.state[13] = 0;
        self.state[14] = (entropy[30] & 0xFFFF_FFFF) as u32;
        self.state[15] = (entropy[31] & 0xFFFF_FFFF) as u32;
        self.counter = 0;
        self.initialized = true;
        assert(self.state@ == keyed_state(entropy@));
        assert(0u64 >> 32u64 == 0u64) by (bit_vector);
        assert(low32(0) == 0) by (bit_vector);
        assert(with_counter(self.state@, 0) == self.state@);
        Ok(())
    }

    /// Mixes fresh entropy into the key and nonce; an unkeyed stream is
    /// keyed instead.
    pub fn reseed(&mut self, entropy: &[u64; 32]) -> (r: Result<(), ThreadError>)
        requires
            old(self).wf(),
        ensures
            r is Ok,
            final(self).wf(),
            final(self).is_initialized(),
            !old(self).is_initialized() ==> final(self).words() == keyed_state(entropy@) && final(self).block_counter() == 0,
            old(self).is_initialized() ==> final(self).words() == reseeded_state(old(self).words(), entropy@)
                && final(self).block_counter() == old(self).block_counter(),
    {
        if !self.initialized {
            return self.initialize(entropy);
        }
        let mut i: usize = 0;
        while i < 8
            invariant
                i <= 8,
                self.state@.len() == 16,
                self.initialized,
                self.counter == old(self).counter,
                forall|j: int| 4 <= j < 4 + i ==> self.state@[j] == old(self).state@[j] ^ key_word(entropy@[j + 4], j - 4),
                forall|j: int| 0 <= j < 16 && !(4 <= j < 4 + i) ==> self.state@[j] == old(self).state@[j],
            decreases 8 - i,
        {
            let e = entropy[i + 8];
            self.state[4 + i] = self.state[4 + i] ^ ((e >> (32 * ((i % 2) as u64))) as u32);
            i = i + 1;
        }
        self.state[14] = self.state[14] ^ ((entropy[30] & 0xFFFF_FFFF) as u32);
        self.state[15] = self.state[15] ^ ((entropy[31] & 0xFFFF_FFFF) as u32);
        assert(self.state@ == reseeded_state(old(self).state@, entropy@));
        assert(with_counter(self.state@, self.counter) == self.state@);
        Ok(())
    }

    /// Overwrites all of `dest` with the next bytes of the key stream, a
    /// block at a time; an unkeyed stream is an invalid state.
    pub fn generate_bytes(&mut self, dest: &mut Vec<u8>) -> (r: Result<(), ThreadError>)
        requires
            old(self).wf(),
        ensures
            final(self).wf(),
            final(self).is_initialized() == old(self).is_initialized(),
            !old(self).is_initialized() ==> r == Err::<(), ThreadError>(ThreadError::InvalidState) && *final(dest)
                == *old(dest) && *final(self) == *old(self),
            old(self).is_initialized() ==> {
                &&& r is Ok
                &&& final(dest)@.len() == old(dest)@.len()
                &&& forall|j: int| 0 <= j < old(dest)@.len() ==> #[trigger] final(dest)@[j] == stream_byte(
                    old(self).words(),
                    old(self).block_counter(),
                    j,
                )
                &&& final(self).block_counter() == counter_plus(
                    old(self).block_counter(),
                    blocks_for(old(dest)@.len() as nat) as int,
                )
                &&& final(self).words() == with_counter(old(self).words(), final(self).block_counter())
            },
    {
        if !self.initialized {
            return Err(ThreadError::InvalidState);
        }
        let ghost s0 = self.state@;
        let ghost c0 = self.counter;
        let n = dest.len();
        let mut pos: usize = 0;
        let ghost mut k: int = 0;
        while pos < n
            invariant
                pos <= n,
                n == dest@.len(),
                n == old(dest)@.len(),
                self.initialized,
                self.state@.len() == 16,
                pos == (if 64 * k < n { 64 * k } else { n as int }),
                pos < n ==> pos == 64 * k,
                0 <= k,
                k == blocks_for(pos as nat),
                self.counter == counter_plus(c0, k),
                self.state@ == with_counter(s0, self.counter),
                s0 == old(self).state@,
                c0 == old(self).counter,
                with_counter(s0, c0) == s0,
                forall|j: int| 0 <= j < pos ==> #[trigger] dest@[j] == stream_byte(s0, c0, j),
            decreases n - pos,
        {
            let block = chacha20_block(&self.state);
            let copy_len: usize = if n - pos < 64 {
                n - pos
            } else {
                64
            };
            let mut t: usize = 0;
            while t < copy_len
                invariant
                    t <= copy_len,
                    copy_len <= 64,
                    pos + copy_len <= n,
                    n == dest@.len(),
                    pos == 64 * k,
                    block@ == block_bytes(self.state@),
                    self.state@ == with_counter(s0, counter_plus(c0, k)),
                    forall|j: int| 0 <= j < pos + t ==> #[trigger] dest@[j] == stream_byte(s0, c0, j),
                decreases copy_len - t,
            {
                proof {
                    assert((pos + t) / 64 == k) by (nonlinear_arith)
                        requires
                            pos == 64 * k,
                            t < 64,
                    ;
                    assert((pos + t) % 64 == t) by (nonlinear_arith)
                        requires
                            pos == 64 * k,
                            t < 64,
                            t >= 0,
                    ;
                }
                dest.set(pos + t, block[t]);
                t = t + 1;
            }
            pos = pos + copy_len;
            self.counter = self.counter.wrapping_add(1);
            self.state[12] = (self.counter & 0xFFFF_FFFF) as u32;
            self.state[13] = (self.counter >> 32) as u32;
            proof {
                k = k + 1;
                assert(self.counter == counter_plus(c0, k));
                assert(self.state@ == with_counter(s0, self.counter));
            }
        }
        proof {
            assert(k == blocks_for(n as nat));
            assert(with_counter(with_counter(s0, self.counter), self.counter) =~= with_counter(s0, self.counter));
        }
        Ok(())
    }

    /// The counter words of the state and whether it is keyed.
    pub fn initialized(&self) -> (r: bool)
        ensures
            r == self.is_initialized(),
    {
        self.initialized
    }
}

/// The bytes generated between reseeds: one MiB.
pub const RESEED_INTERVAL: u64 = 1048576;

/// The pool `pool` after mixing in the timing samples `t`: each word is
/// multiplied by 0x6c078965 and has its sample added, wrapping around.
pub open spec fn mixed_pool(pool: Seq<u64>, t: Seq<u64>) -> Seq<u64> {
    Seq::new(32, |i: int| pool[i].wrapping_mul(0x6c078965u64).wrapping_add(t[i]))
}

/// The little-endian value of the first eight bytes of the key stream of
/// `s` from counter `c`.
pub open spec fn stream_u64(s: Seq<u32>, c: u64) -> u64 {
    le_word(
        stream_byte(s, c, 0),
        stream_byte(s, c, 1),
        stream_byte(s, c, 2),
        stream_byte(s, c, 3),
        stream_byte(s, c, 4),
        stream_byte(s, c, 5),
        stream_byte(s, c, 6),
        stream_byte(s, c, 7),
    )
}

/// The little-endian value of the first four bytes of the key stream of
/// `s` from counter `c`.
pub open spec fn stream_u32(s: Seq<u32>, c: u64) -> u32 {
    (stream_byte(s, c, 0) as u32) | ((stream_byte(s, c, 1) as u32) << 8u32) | ((stream_byte(s, c, 2) as u32)
        << 16u32) | ((stream_byte(s, c, 3) as u32) << 24u32)
}

/// What a keyed generator consists of, as far as its draws go: key-stream
/// words, block counter, entropy pool and count of bytes produced.
pub type DrawState = (Seq<u32>, u64, Seq<u64>, u64);

/// The generator state after one more draw of eight bytes from `st`, with
/// timing samples `timing` (see `SecureRng::fills`).
pub open spec fn draw_next(st: DrawState, timing: Seq<u64>) -> DrawState {
    let c1 = counter_plus(st.1, 1);
    let w1 = with_counter(st.0, c1);
    let g1 = wrap_add(st.3, 8);
    if g1 % RESEED_INTERVAL == 0 {
        (reseeded_state(w1, mixed_pool(st.2, timing)), c1, mixed_pool(st.2, timing), g1)
    } else {
        (w1, c1, st.2, g1)
    }
}

/// The generator state after `k` draws of eight bytes from `st`.
pub open spec fn draw_state(st: DrawState, timing: Seq<u64>, k: nat) -> DrawState
    decreases k,
{
    if k == 0 {
        st
    } else {
        draw_next(draw_state(st, timing, (k - 1) as nat), timing)
    }
}

/// The value of draw number `k` (from 0) from `st`.
pub open spec fn draw_value(st: DrawState, timing: Seq<u64>, k: nat) -> u64 {
    stream_u64(draw_state(st, timing, k).0, draw_state(st, timing, k).1)
}

/// A key-stream generator seeded from an entropy pool. Entropy comes from
/// hardware random sources; this build knows none, so seeding fails and
/// the generator stays unkeyed.
pub struct SecureRng {
    entropy_pool: [u64; 32],
    pool_position: usize,
    bytes_generated: u64,
    entropy_collected: u64,
    state: ChaCha20State,
}

impl SecureRng {
    /// The key stream.
    pub closed spec fn stream(&self) -> ChaCha20State {
        self.state
    }

    /// The entropy pool.
    pub closed spec fn pool(&self) -> Seq<u64> {
        self.entropy_pool@
    }

    /// Bytes produced so far, modulo 2^64.
    pub closed spec fn generated(&self) -> u64 {
        self.bytes_generated
    }

    /// Entropy words collected so far.
    pub closed spec fn collected(&self) -> u64 {
        self.entropy_collected
    }

    /// The generator's state as far as its draws go.
    pub open spec fn draw_view(&self) -> DrawState {
        (self.stream().words(), self.stream().block_counter(), self.pool(), self.generated())
    }

    /// `self` is `old` after `n` key-stream bytes were produced from it
    /// with timing samples `timing`: the counter advances by the blocks
    /// used, the byte count grows by `n`, and when that count reaches a
    /// multiple of `RESEED_INTERVAL` the pool takes in the samples and the
    /// key is reseeded from it.
    pub open spec fn fills(&self, old: &Self, n: nat, timing: Seq<u64>) -> bool {
        let c1 = counter_plus(old.stream().block_counter(), blocks_for(n) as int);
        let w1 = with_counter(old.stream().words(), c1);
        let g1 = wrap_add(old.generated(), n as u64);
        &&& self.generated() == g1
        &&& self.collected() == old.collected()
        &&& self.stream().is_initialized()
        &&& self.stream().block_counter() == c1
        &&& g1 % RESEED_INTERVAL == 0 ==> self.pool() == mixed_pool(old.pool(), timing)
            && self.stream().words() == reseeded_state(w1, mixed_pool(old.pool(), timing))
        &&& g1 % RESEED_INTERVAL != 0 ==> self.pool() == old.pool() && self.stream().words() == w1
    }

    /// The pool has 32 words and the stream is consistent.
    pub open spec fn wf(&self) -> bool {
        self.pool().len() == 32 && self.stream().wf()
    }

    /// An unkeyed generator with an empty pool.
    pub fn new() -> (r: Self)
        ensures
            r.wf(),
            !r.stream().is_initialized(),
            r.generated() == 0,
            r.collected() == 0,
            r.pool() == Seq::new(32, |i: int| 0u64),
    {
        let r = SecureRng {
            entropy_pool: [0u64; 32],
            pool_position: 0,
            bytes_generated: 0,
            entropy_collected: 0,
            state: ChaCha20State::new(),
        };
        assert(r.pool() == Seq::new(32, |i: int| 0u64));
        r
    }

    /// Gathers words from the hardware random sources into the pool; fewer
    /// than eight is not enough. No source exists in this build.
    fn collect_hardware_entropy(&mut self) -> (r: Result<(), ThreadError>)
        ensures
            r == Err::<(), ThreadError>(ThreadError::UnsupportedOperation),
            final(self).stream() == old(self).stream(),
            final(self).pool() == old(self).pool(),
            final(self).generated() == old(self).generated(),
            final(self).collected() == old(self).collected(),
    {
        let entropy_count: u64 = 0;
        self.entropy_collected = self.entropy_collected.wrapping_add(entropy_count);
        if entropy_count < 8 {
            return Err(ThreadError::UnsupportedOperation);
        }
        Ok(())
    }

    /// Seeds the generator from the hardware sources: with none available
    /// this is an unsupported operation and the generator stays as it is.
    pub fn init(&mut self) -> (r: Result<(), ThreadError>)
        ensures
            r == Err::<(), ThreadError>(ThreadError::UnsupportedOperation),
            final(self).stream() == old(self).stream(),
            final(self).pool() == old(self).pool(),
            final(self).generated() == old(self).generated(),
            final(self).collected() == old(self).collected(),
    {
        self.collect_hardware_entropy()?;
        Ok(())
    }

    /// Mixes the timing samples `timing` into the pool and reseeds the key
    /// stream from it.
    pub fn reseed(&mut self, timing: &[u64; 32]) -> (r: Result<(), ThreadError>)
        requires
            old(self).wf(),
        ensures
            r is Ok,
            final(self).wf(),
            final(self).pool() == mixed_pool(old(self).pool(), timing@),
            final(self).stream().is_initialized(),
            !old(self).stream().is_initialized() ==> final(self).stream().words() == keyed_state(
                mixed_pool(old(self).pool(), timing@),
            ) && final(self).stream().block_counter() == 0,
            old(self).stream().is_initialized() ==> final(self).stream().words() == reseeded_state(
                old(self).stream().words(),
                mixed_pool(old(self).pool(), timing@),
            ) && final(self).stream().block_counter() == old(self).stream().block_counter(),
            final(self).generated() == old(self).generated(),
            final(self).collected() == old(self).collected(),
    {
        let mut i: usize = 0;
        while i < 32
            invariant
                i <= 32,
                self.entropy_pool@.len() == 32,
                self.state == old(self).state,
                self.bytes_generated == old(self).bytes_generated,
                self.entropy_collected == old(self).entropy_collected,
                forall|j: int| 0 <= j < i ==> self.entropy_pool@[j] == mixed_pool(old(self).entropy_pool@, timing@)[j],
                forall|j: int| i <= j < 32 ==> self.entropy_pool@[j] == old(self).entropy_pool@[j],
            decreases 32 - i,
        {
            self.entropy_pool[i] = self.entropy_pool[i].wrapping_mul(0x6c078965).wrapping_add(timing[i]);
            i = i + 1;
        }
        assert(self.entropy_pool@ == mixed_pool(old(self).entropy_pool@, timing@));
        let pool = self.entropy_pool;
        self.state.reseed(&pool)
    }

    /// Fills `dest` with key-stream bytes; an unkeyed generator is an
    /// invalid state. Each time the count of bytes produced reaches a
    /// multiple of a MiB, the generator reseeds with `timing`.
    pub fn fill_bytes(&mut self, dest: &mut Vec<u8>, timing: &[u64; 32]) -> (r: Result<(), ThreadError>)
        requires
            old(self).wf(),
        ensures
            final(self).wf(),
            final(self).stream().is_initialized() == old(self).stream().is_initialized(),
            old(dest)@.len() == 0 ==> r is Ok && *final(self) == *old(self) && *final(dest) == *old(dest),
            old(dest)@.len() > 0 && !old(self).stream().is_initialized() ==> r == Err::<(), ThreadError>(
                ThreadError::InvalidState,
            ) && *final(dest) == *old(dest) && *final(self) == *old(self),
            old(dest)@.len() > 0 && old(self).stream().is_initialized() ==> {
                &&& r is Ok
                &&& final(dest)@.len() == old(dest)@.len()
                &&& forall|j: int| 0 <= j < old(dest)@.len() ==> #[trigger] final(dest)@[j] == stream_byte(
                    old(self).stream().words(),
                    old(self).stream().block_counter(),
                    j,
                )
                &&& final(self).fills(old(self), old(dest)@.len(), timing@)
            },
    {
        if dest.len() == 0 {
            return Ok(());
        }
        self.state.generate_bytes(dest)?;
        self.bytes_generated = self.bytes_generated.wrapping_add(dest.len() as u64);
        if self.bytes_generated % RESEED_INTERVAL == 0 {
            self.reseed(timing)?;
        }
        Ok(())
    }

    /// The next eight key-stream bytes as a little-endian number.
    pub fn next_u64(&mut self, timing: &[u64; 32]) -> (r: Result<u64, ThreadError>)
        requires
            old(self).wf(),
        ensures
            final(self).wf(),
            final(self).stream().is_initialized() == old(self).stream().is_initialized(),
            !old(self).stream().is_initialized() ==> r == Err::<u64, ThreadError>(ThreadError::InvalidState),
            old(self).stream().is_initialized() ==> r == Ok::<u64, ThreadError>(
                stream_u64(old(self).stream().words(), old(self).stream().block_counter()),
            ) && final(self).fills(old(self), 8, timing@),
            !old(self).stream().is_initialized() ==> *final(self) == *old(self),
    {
        let mut bytes: Vec<u8> = vec![0u8; 8];
        self.fill_bytes(&mut bytes, timing)?;
        let v = (bytes[0] as u64) | ((bytes[1] as u64) << 8u64) | ((bytes[2] as u64) << 16u64) | ((
        bytes[3] as u64) << 24u64) | ((bytes[4] as u64) << 32u64) | ((bytes[5] as u64) << 40u64) | ((
        bytes[6] as u64) << 48u64) | ((bytes[7] as u64) << 56u64);
        Ok(v)
    }

    /// The next four key-stream bytes as a little-endian number.
    pub fn next_u32(&mut self, timing: &[u64; 32]) -> (r: Result<u32, ThreadError>)
        requires
            old(self).wf(),
        ensures
            final(self).wf(),
            final(self).stream().is_initialized() == old(self).stream().is_initialized(),
            !old(self).stream().is_initialized() ==> r == Err::<u32, ThreadError>(ThreadError::InvalidState),
            old(self).stream().is_initialized() ==> r == Ok::<u32, ThreadError>(
                stream_u32(old(self).stream().words(), old(self).stream().block_counter()),
            ) && final(self).fills(old(self), 4, timing@),
            !old(self).stream().is_initialized() ==> *final(self) == *old(self),
    {
        let mut bytes: Vec<u8> = vec![0u8; 4];
        self.fill_bytes(&mut bytes, timing)?;
        let v = (bytes[0] as u32) | ((bytes[1] as u32) << 8u32) | ((bytes[2] as u32) << 16u32) | ((bytes[3] as u32)
            << 24u32);
        Ok(v)
    }

    /// A value below `max` by rejection sampling: draws until a value falls
    /// below the largest multiple of `max`, then reduces it; 0 when `max` is
    /// 0. Gives up with resource exhaustion only after 2^64 - 1 rejections.
    pub fn gen_range(&mut self, max: u64, timing: &[u64; 32]) -> (r: Result<u64, ThreadError>)
        requires
            old(self).wf(),
        ensures
            final(self).wf(),
            max == 0 ==> r == Ok::<u64, ThreadError>(0) && *final(self) == *old(self),
            max > 0 && !old(self).stream().is_initialized() ==> r == Err::<u64, ThreadError>(
                ThreadError::InvalidState,
            ) && *final(self) == *old(self),
            max > 0 && r is Ok ==> r->Ok_0 < max,
            max > 0 && old(self).stream().is_initialized() ==> {
                let st = old(self).draw_view();
                let limit = u64::MAX - u64::MAX % max;
                &&& final(self).stream().is_initialized()
                &&& final(self).collected() == old(self).collected()
                &&& r matches Ok(v) ==> exists|k: nat|
                    {
                        &&& k < u64::MAX
                        &&& draw_value(st, timing@, k) < limit
                        &&& v == draw_value(st, timing@, k) % max
                        &&& (forall|j: nat| j < k ==> #[trigger] draw_value(st, timing@, j) >= limit)
                        &&& final(self).draw_view() == draw_state(st, timing@, k + 1)
                    }
                &&& r is Err ==> r == Err::<u64, ThreadError>(ThreadError::ResourceExhaustion) && (forall|j: nat|
                    j < u64::MAX ==> #[trigger] draw_value(st, timing@, j) >= limit)
            },
    {
        if max == 0 {
            return Ok(0);
        }
        let limit = u64::MAX - (u64::MAX % max);
        let ghost st = self.draw_view();
        let mut attempts: u64 = 0;
        proof {
            assert(blocks_for(8) == 1);
        }
        while attempts < u64::MAX
            invariant
                self.wf(),
                max > 0,
                limit == u64::MAX - u64::MAX % max,
                blocks_for(8) == 1,
                attempts > 0 ==> self.stream().is_initialized(),
                self.stream().is_initialized() == old(self).stream().is_initialized(),
                attempts == 0 ==> *self == *old(self),
                self.collected() == old(self).collected(),
                st == old(self).draw_view(),
                old(self).stream().is_initialized() ==> self.draw_view() == draw_state(st, timing@, attempts as nat),
                forall|j: nat| j < attempts ==> #[trigger] draw_value(st, timing@, j) >= limit,
            decreases u64::MAX - attempts,
        {
            let ghost before = *self;
            let value = self.next_u64(timing)?;
            proof {
                assert(value == draw_value(st, timing@, attempts as nat));
                assert(self.draw_view() == draw_next(before.draw_view(), timing@));
                assert(self.draw_view() == draw_state(st, timing@, (attempts + 1) as nat));
            }
            if value < limit {
                return Ok(value % max);
            }
            attempts = attempts + 1;
        }
        Err(ThreadError::ResourceExhaustion)
    }

    /// The counters of the generator.
    pub fn stats(&self) -> (s: SecureRngStats)
        ensures
            s == (SecureRngStats {
                bytes_generated: self.generated(),
                entropy_collected: self.collected(),
                initialized: self.stream().is_initialized(),
            }),
    {
        SecureRngStats {
            bytes_generated: self.bytes_generated,
            entropy_collected: self.entropy_collected,
            initialized: self.state.initialized(),
        }
    }
}

/// Counters of the generator.
#[derive(Debug, Clone, Copy, PartialEq, Eq, Structural)]
pub struct SecureRngStats {
    pub bytes_generated: u64,
    pub entropy_collected: u64,
    pub initialized: bool,
}

/// Seeds `rng`; see `SecureRng::init`.
pub fn init_secure_rng(rng: &mut SecureRng) -> (r: Result<(), ThreadError>)
    ensures
        r == Err::<(), ThreadError>(ThreadError::UnsupportedOperation),
        final(rng).stream() == old(rng).stream(),
        final(rng).generated() == old(rng).generated(),
{
    rng.init()?;
    Ok(())
}

/// Fills `dest` from `rng`; see `SecureRng::fill_bytes`.
pub fn secure_random_bytes(rng: &mut SecureRng, dest: &mut Vec<u8>, timing: &[u64; 32]) -> (r: Result<(), ThreadError>)
    requires
        old(rng).wf(),
    ensures
        final(rng).wf(),
        old(dest)@.len() == 0 ==> r is Ok && *final(rng) == *old(rng) && *final(dest) == *old(dest),
        old(dest)@.len() > 0 && !old(rng).stream().is_initialized() ==> r == Err::<(), ThreadError>(
            ThreadError::InvalidState,
        ) && *final(rng) == *old(rng) && *final(dest) == *old(dest),
        old(dest)@.len() > 0 && old(rng).stream().is_initialized() ==> {
            &&& r is Ok
            &&& final(dest)@.len() == old(dest)@.len()
            &&& forall|j: int| 0 <= j < old(dest)@.len() ==> #[trigger] final(dest)@[j] == stream_byte(
                old(rng).stream().words(),
                old(rng).stream().block_counter(),
                j,
            )
            &&& final(rng).fills(old(rng), old(dest)@.len(), timing@)
        },
{
    rng.fill_bytes(dest, timing)
}

/// The next random `u64` of `rng`.
pub fn secure_random_u64(rng: &mut SecureRng, timing: &[u64; 32]) -> (r: Result<u64, ThreadError>)
    requires
        old(rng).wf(),
    ensures
        final(rng).wf(),
        !old(rng).stream().is_initialized() ==> r == Err::<u64, ThreadError>(ThreadError::InvalidState),
        old(rng).stream().is_initialized() ==> r == Ok::<u64, ThreadError>(
            stream_u64(old(rng).stream().words(), old(rng).stream().block_counter()),
        ) && final(rng).fills(old(rng), 8, timing@),
        !old(rng).stream().is_initialized() ==> *final(rng) == *old(rng),
{
    rng.next_u64(timing)
}

/// A random 32-bit number from `rng`; see `SecureRng::next_u32`.
pub fn secure_random_u32(rng: &mut SecureRng, timing: &[u64; 32]) -> (r: Result<u32, ThreadError>)
    requires
        old(rng).wf(),
    ensures
        final(rng).wf(),
        !old(rng).stream().is_initialized() ==> r == Err::<u32, ThreadError>(ThreadError::InvalidState),
        old(rng).stream().is_initialized() ==> r == Ok::<u32, ThreadError>(
            stream_u32(old(rng).stream().words(), old(rng).stream().block_counter()),
        ) && final(rng).fills(old(rng), 4, timing@),
        !old(rng).stream().is_initialized() ==> *final(rng) == *old(rng),
{
    rng.next_u32(timing)
}

/// A random value below `max` from `rng`; see `SecureRng::gen_range`.
pub fn secure_random_range(rng: &mut SecureRng, max: u64, timing: &[u64; 32]) -> (r: Result<u64, ThreadError>)
    requires
        old(rng).wf(),
    ensures
        final(rng).wf(),
        max == 0 ==> r == Ok::<u64, ThreadError>(0) && *final(rng) == *old(rng),
        max > 0 && !old(rng).stream().is_initialized() ==> r == Err::<u64, ThreadError>(ThreadError::InvalidState)
            && *final(rng) == *old(rng),
        max > 0 && r is Ok ==> r->Ok_0 < max,
        max > 0 && old(rng).stream().is_initialized() ==> {
            let st = old(rng).draw_view();
            let limit = u64::MAX - u64::MAX % max;
            &&& r matches Ok(v) ==> exists|k: nat|
                {
                    &&& k < u64::MAX
                    &&& draw_value(st, timing@, k) < limit
                    &&& v == draw_value(st, timing@, k) % max
                    &&& (forall|j: nat| j < k ==> #[trigger] draw_value(st, timing@, j) >= limit)
                    &&& final(rng).draw_view() == draw_state(st, timing@, k + 1)
                }
            &&& r is Err ==> r == Err::<u64, ThreadError>(ThreadError::ResourceExhaustion) && (forall|j: nat|
                j < u64::MAX ==> #[trigger] draw_value(st, timing@, j) >= limit)
        },
{
    rng.gen_range(max, timing)
}

/// The counters of `rng`.
pub fn get_secure_rng_stats(rng: &SecureRng) -> (s: SecureRngStats)
    ensures
        s == (SecureRngStats {
            bytes_generated: rng.generated(),
            entropy_collected: rng.collected(),
            initialized: rng.stream().is_initialized(),
        }),
{
    rng.stats()
}

} // verus!
