use vstd::prelude::*;

verus! {

/// Bit `i` of `b` is set.
pub open spec fn bit_set(b: u32, i: u32) -> bool {
    (b >> i) & 1u32 == 1u32
}

/// Setting bit `l` sets exactly that bit.
pub proof fn lemma_set_bit(b: u32, l: u32, j: u32)
    requires
        l < 32,
        j < 32,
    ensures
        bit_set(b | (1u32 << l), j) <==> (j == l || bit_set(b, j)),
{
    assert(((b | (1u32 << l)) >> j) & 1u32 == 1u32 <==> (j == l || (b >> j) & 1u32 == 1u32))
        by (bit_vector)
        requires
            l < 32,
            j < 32,
    ;
}

/// Clearing bit `l` clears exactly that bit.
pub proof fn lemma_clear_bit(b: u32, l: u32, j: u32)
    requires
        l < 32,
        j < 32,
    ensures
        bit_set(b & !(1u32 << l), j) <==> (j != l && bit_set(b, j)),
{
    assert(((b & !(1u32 << l)) >> j) & 1u32 == 1u32 <==> (j != l && (b >> j) & 1u32 == 1u32))
        by (bit_vector)
        requires
            l < 32,
            j < 32,
    ;
}

/// A value below `2^n` has no bit at or above `n` set, and setting or clearing
/// a bit below `n` keeps it below `2^n`.
pub proof fn lemma_small_bitmap(b: u32, l: u32)
    requires
        b < 256,
        l < 8,
    ensures
        (b | (1u32 << l)) < 256,
        (b & !(1u32 << l)) < 256,
        forall|j: u32| 8 <= j < 32 ==> !bit_set(b, j),
{
    assert((b | (1u32 << l)) < 256) by (bit_vector)
        requires
            b < 256,
            l < 8,
    ;
    assert((b & !(1u32 << l)) < 256) by (bit_vector)
        requires
            b < 256,
    ;
    assert forall|j: u32| 8 <= j < 32 implies !bit_set(b, j) by {
        assert((b >> j) & 1u32 != 1u32) by (bit_vector)
            requires
                b < 256,
                8 <= j < 32,
        ;
    }
}

/// The zero word has no bit set.
pub proof fn lemma_zero_bits(b: u32)
    requires
        b == 0,
    ensures
        forall|j: u32| j < 32 ==> !bit_set(b, j),
{
    assert forall|j: u32| j < 32 implies !bit_set(b, j) by {
        assert((0u32 >> j) & 1u32 != 1u32) by (bit_vector);
    }
}

} // verus!
