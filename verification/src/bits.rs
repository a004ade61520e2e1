//! Single-bit views of the flag words the facade uses.
use vstd::prelude::*;

verus! {

/// Whether bit `i` of `bits` is set.
pub open spec fn bit16(bits: u16, i: u16) -> bool {
    (bits >> i) & 1 == 1
}

/// Two 16-bit words with the same bits are the same word.
pub proof fn lemma_bits16_determine(a: u16, b: u16)
    requires
        forall|i: u16| i < 16 ==> #[trigger] bit16(a, i) == bit16(b, i),
    ensures
        a == b,
{
    assert(bit16(a, 0) == bit16(b, 0));
    assert(bit16(a, 1) == bit16(b, 1));
    assert(bit16(a, 2) == bit16(b, 2));
    assert(bit16(a, 3) == bit16(b, 3));
    assert(bit16(a, 4) == bit16(b, 4));
    assert(bit16(a, 5) == bit16(b, 5));
    assert(bit16(a, 6) == bit16(b, 6));
    assert(bit16(a, 7) == bit16(b, 7));
    assert(bit16(a, 8) == bit16(b, 8));
    assert(bit16(a, 9) == bit16(b, 9));
    assert(bit16(a, 10) == bit16(b, 10));
    assert(bit16(a, 11) == bit16(b, 11));
    assert(bit16(a, 12) == bit16(b, 12));
    assert(bit16(a, 13) == bit16(b, 13));
    assert(bit16(a, 14) == bit16(b, 14));
    assert(bit16(a, 15) == bit16(b, 15));
    assert(a == b) by (bit_vector)
        requires
            ((a >> 0u16) & 1 == 1) == ((b >> 0u16) & 1 == 1),
            ((a >> 1u16) & 1 == 1) == ((b >> 1u16) & 1 == 1),
            ((a >> 2u16) & 1 == 1) == ((b >> 2u16) & 1 == 1),
            ((a >> 3u16) & 1 == 1) == ((b >> 3u16) & 1 == 1),
            ((a >> 4u16) & 1 == 1) == ((b >> 4u16) & 1 == 1),
            ((a >> 5u16) & 1 == 1) == ((b >> 5u16) & 1 == 1),
            ((a >> 6u16) & 1 == 1) == ((b >> 6u16) & 1 == 1),
            ((a >> 7u16) & 1 == 1) == ((b >> 7u16) & 1 == 1),
            ((a >> 8u16) & 1 == 1) == ((b >> 8u16) & 1 == 1),
            ((a >> 9u16) & 1 == 1) == ((b >> 9u16) & 1 == 1),
            ((a >> 10u16) & 1 == 1) == ((b >> 10u16) & 1 == 1),
            ((a >> 11u16) & 1 == 1) == ((b >> 11u16) & 1 == 1),
            ((a >> 12u16) & 1 == 1) == ((b >> 12u16) & 1 == 1),
            ((a >> 13u16) & 1 == 1) == ((b >> 13u16) & 1 == 1),
            ((a >> 14u16) & 1 == 1) == ((b >> 14u16) & 1 == 1),
            ((a >> 15u16) & 1 == 1) == ((b >> 15u16) & 1 == 1),
    ;
}

pub proof fn lemma_bit16_and(a: u16, b: u16, i: u16)
    requires
        i < 16,
    ensures
        bit16(a & b, i) == (bit16(a, i) && bit16(b, i)),
{
    assert((((a & b) >> i) & 1 == 1) == (((a >> i) & 1 == 1) && ((b >> i) & 1 == 1))) by (bit_vector)
        requires
            i < 16,
    ;
}

pub proof fn lemma_bit16_or(a: u16, b: u16, i: u16)
    requires
        i < 16,
    ensures
        bit16(a | b, i) == (bit16(a, i) || bit16(b, i)),
{
    assert((((a | b) >> i) & 1 == 1) == (((a >> i) & 1 == 1) || ((b >> i) & 1 == 1))) by (bit_vector)
        requires
            i < 16,
    ;
}

pub proof fn lemma_bit16_zero(i: u16)
    requires
        i < 16,
    ensures
        !bit16(0, i),
{
    assert(!(((0u16 >> i) & 1) == 1)) by (bit_vector);
}

/// Whether bit `i` of `bits` is set.
pub open spec fn bit32(bits: u32, i: u32) -> bool {
    (bits >> i) & 1 == 1
}

} // verus!
