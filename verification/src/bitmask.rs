//! Facts about single bits of the channel masks.
use vstd::prelude::*;

verus! {

/// Bit `i` of a 32-bit mask.
pub open spec fn bit32(m: u32, i: u32) -> bool {
    (m >> i) & 1u32 == 1u32
}

/// Bit `i` of an 8-bit mask.
pub open spec fn bit8(m: u8, i: u8) -> bool {
    (m >> i) & 1u8 == 1u8
}

pub proof fn lemma_bit32_or(m: u32, i: u32, j: u32)
    requires
        i < 32,
        j < 32,
    ensures
        bit32(m | (1u32 << i), j) == (j == i || bit32(m, j)),
{
    assert(((m | (1u32 << i)) >> j) & 1u32 == 1u32 <==> (j == i || (m >> j) & 1u32 == 1u32))
        by (bit_vector)
        requires i < 32, j < 32;
}

pub proof fn lemma_bit8_or(m: u8, i: u8, j: u8)
    requires
        i < 8,
        j < 8,
    ensures
        bit8(m | (1u8 << i), j) == (j == i || bit8(m, j)),
{
    assert(((m | (1u8 << i)) >> j) & 1u8 == 1u8 <==> (j == i || (m >> j) & 1u8 == 1u8))
        by (bit_vector)
        requires i < 8, j < 8;
}

pub proof fn lemma_bit32_zero(j: u32)
    requires
        j < 32,
    ensures
        !bit32(0u32, j),
{
    assert((0u32 >> j) & 1u32 != 1u32) by (bit_vector);
}

pub proof fn lemma_bit8_zero(j: u8)
    requires
        j < 8,
    ensures
        !bit8(0u8, j),
{
    assert((0u8 >> j) & 1u8 != 1u8) by (bit_vector);
}

/// The low twelve bits of a mask are all clear exactly when none of bits 0..11 is set.
pub proof fn lemma_low12_zero(m: u32)
    ensures
        (m & 0xFFFu32 == 0u32) <==> (forall|j: u32| j < 12 ==> !bit32(m, j)),
{
    assert((m & 0xFFFu32 == 0u32) <==> (
        (m >> 0u32) & 1u32 != 1u32 && (m >> 1u32) & 1u32 != 1u32 && (m >> 2u32) & 1u32 != 1u32
        && (m >> 3u32) & 1u32 != 1u32 && (m >> 4u32) & 1u32 != 1u32 && (m >> 5u32) & 1u32 != 1u32
        && (m >> 6u32) & 1u32 != 1u32 && (m >> 7u32) & 1u32 != 1u32 && (m >> 8u32) & 1u32 != 1u32
        && (m >> 9u32) & 1u32 != 1u32 && (m >> 10u32) & 1u32 != 1u32 && (m >> 11u32) & 1u32 != 1u32
    )) by (bit_vector);
    if m & 0xFFFu32 != 0u32 {
        let j: u32 = if bit32(m, 0) { 0 } else if bit32(m, 1) { 1 } else if bit32(m, 2) { 2 }
            else if bit32(m, 3) { 3 } else if bit32(m, 4) { 4 } else if bit32(m, 5) { 5 }
            else if bit32(m, 6) { 6 } else if bit32(m, 7) { 7 } else if bit32(m, 8) { 8 }
            else if bit32(m, 9) { 9 } else if bit32(m, 10) { 10 } else { 11 };
        assert(bit32(m, j));
    }
}

/// Bits 12..15 of a mask, read as the four SUB bits.
pub proof fn lemma_sub4_zero(m: u32)
    ensures
        ((m >> 12u32) & 0xFu32 == 0u32) <==> (forall|j: u32| 12 <= j < 16 ==> !bit32(m, j)),
{
    assert(((m >> 12u32) & 0xFu32 == 0u32) <==> (
        (m >> 12u32) & 1u32 != 1u32 && (m >> 13u32) & 1u32 != 1u32
        && (m >> 14u32) & 1u32 != 1u32 && (m >> 15u32) & 1u32 != 1u32
    )) by (bit_vector);
    if (m >> 12u32) & 0xFu32 != 0u32 {
        let j: u32 = if bit32(m, 12) { 12 } else if bit32(m, 13) { 13 } else if bit32(m, 14) { 14 } else { 15 };
        assert(bit32(m, j));
    }
}


/// Two 32-bit masks with the same bits are equal.
pub proof fn lemma_bit32_ext(a: u32, b: u32)
    requires
        forall|i: u32| i < 32 ==> bit32(a, i) == bit32(b, i),
    ensures
        a == b,
{
    assert forall|i: u32| i < 32 implies (a >> i) & 1u32 == (b >> i) & 1u32 by {
        assert(bit32(a, i) == bit32(b, i));
        assert((a >> i) & 1u32 == 0u32 || (a >> i) & 1u32 == 1u32) by (bit_vector);
        assert((b >> i) & 1u32 == 0u32 || (b >> i) & 1u32 == 1u32) by (bit_vector);
    }
    assert(((a >> 0u32) & 1u32 == (b >> 0u32) & 1u32)
        && ((a >> 1u32) & 1u32 == (b >> 1u32) & 1u32)
        && ((a >> 2u32) & 1u32 == (b >> 2u32) & 1u32)
        && ((a >> 3u32) & 1u32 == (b >> 3u32) & 1u32)
        && ((a >> 4u32) & 1u32 == (b >> 4u32) & 1u32)
        && ((a >> 5u32) & 1u32 == (b >> 5u32) & 1u32)
        && ((a >> 6u32) & 1u32 == (b >> 6u32) & 1u32)
        && ((a >> 7u32) & 1u32 == (b >> 7u32) & 1u32)
        && ((a >> 8u32) & 1u32 == (b >> 8u32) & 1u32)
        && ((a >> 9u32) & 1u32 == (b >> 9u32) & 1u32)
        && ((a >> 10u32) & 1u32 == (b >> 10u32) & 1u32)
        && ((a >> 11u32) & 1u32 == (b >> 11u32) & 1u32)
        && ((a >> 12u32) & 1u32 == (b >> 12u32) & 1u32)
        && ((a >> 13u32) & 1u32 == (b >> 13u32) & 1u32)
        && ((a >> 14u32) & 1u32 == (b >> 14u32) & 1u32)
        && ((a >> 15u32) & 1u32 == (b >> 15u32) & 1u32)
        && ((a >> 16u32) & 1u32 == (b >> 16u32) & 1u32)
        && ((a >> 17u32) & 1u32 == (b >> 17u32) & 1u32)
        && ((a >> 18u32) & 1u32 == (b >> 18u32) & 1u32)
        && ((a >> 19u32) & 1u32 == (b >> 19u32) & 1u32)
        && ((a >> 20u32) & 1u32 == (b >> 20u32) & 1u32)
        && ((a >> 21u32) & 1u32 == (b >> 21u32) & 1u32)
        && ((a >> 22u32) & 1u32 == (b >> 22u32) & 1u32)
        && ((a >> 23u32) & 1u32 == (b >> 23u32) & 1u32)
        && ((a >> 24u32) & 1u32 == (b >> 24u32) & 1u32)
        && ((a >> 25u32) & 1u32 == (b >> 25u32) & 1u32)
        && ((a >> 26u32) & 1u32 == (b >> 26u32) & 1u32)
        && ((a >> 27u32) & 1u32 == (b >> 27u32) & 1u32)
        && ((a >> 28u32) & 1u32 == (b >> 28u32) & 1u32)
        && ((a >> 29u32) & 1u32 == (b >> 29u32) & 1u32)
        && ((a >> 30u32) & 1u32 == (b >> 30u32) & 1u32)
        && ((a >> 31u32) & 1u32 == (b >> 31u32) & 1u32)) by {
        assert((a >> 0u32) & 1u32 == (b >> 0u32) & 1u32);
        assert((a >> 1u32) & 1u32 == (b >> 1u32) & 1u32);
        assert((a >> 2u32) & 1u32 == (b >> 2u32) & 1u32);
        assert((a >> 3u32) & 1u32 == (b >> 3u32) & 1u32);
        assert((a >> 4u32) & 1u32 == (b >> 4u32) & 1u32);
        assert((a >> 5u32) & 1u32 == (b >> 5u32) & 1u32);
        assert((a >> 6u32) & 1u32 == (b >> 6u32) & 1u32);
        assert((a >> 7u32) & 1u32 == (b >> 7u32) & 1u32);
        assert((a >> 8u32) & 1u32 == (b >> 8u32) & 1u32);
        assert((a >> 9u32) & 1u32 == (b >> 9u32) & 1u32);
        assert((a >> 10u32) & 1u32 == (b >> 10u32) & 1u32);
        assert((a >> 11u32) & 1u32 == (b >> 11u32) & 1u32);
        assert((a >> 12u32) & 1u32 == (b >> 12u32) & 1u32);
        assert((a >> 13u32) & 1u32 == (b >> 13u32) & 1u32);
        assert((a >> 14u32) & 1u32 == (b >> 14u32) & 1u32);
        assert((a >> 15u32) & 1u32 == (b >> 15u32) & 1u32);
        assert((a >> 16u32) & 1u32 == (b >> 16u32) & 1u32);
        assert((a >> 17u32) & 1u32 == (b >> 17u32) & 1u32);
        assert((a >> 18u32) & 1u32 == (b >> 18u32) & 1u32);
        assert((a >> 19u32) & 1u32 == (b >> 19u32) & 1u32);
        assert((a >> 20u32) & 1u32 == (b >> 20u32) & 1u32);
        assert((a >> 21u32) & 1u32 == (b >> 21u32) & 1u32);
        assert((a >> 22u32) & 1u32 == (b >> 22u32) & 1u32);
        assert((a >> 23u32) & 1u32 == (b >> 23u32) & 1u32);
        assert((a >> 24u32) & 1u32 == (b >> 24u32) & 1u32);
        assert((a >> 25u32) & 1u32 == (b >> 25u32) & 1u32);
        assert((a >> 26u32) & 1u32 == (b >> 26u32) & 1u32);
        assert((a >> 27u32) & 1u32 == (b >> 27u32) & 1u32);
        assert((a >> 28u32) & 1u32 == (b >> 28u32) & 1u32);
        assert((a >> 29u32) & 1u32 == (b >> 29u32) & 1u32);
        assert((a >> 30u32) & 1u32 == (b >> 30u32) & 1u32);
        assert((a >> 31u32) & 1u32 == (b >> 31u32) & 1u32);
    }
    assert((((a >> 0u32) & 1u32 == (b >> 0u32) & 1u32)
        && ((a >> 1u32) & 1u32 == (b >> 1u32) & 1u32)
        && ((a >> 2u32) & 1u32 == (b >> 2u32) & 1u32)
        && ((a >> 3u32) & 1u32 == (b >> 3u32) & 1u32)
        && ((a >> 4u32) & 1u32 == (b >> 4u32) & 1u32)
        && ((a >> 5u32) & 1u32 == (b >> 5u32) & 1u32)
        && ((a >> 6u32) & 1u32 == (b >> 6u32) & 1u32)
        && ((a >> 7u32) & 1u32 == (b >> 7u32) & 1u32)
        && ((a >> 8u32) & 1u32 == (b >> 8u32) & 1u32)
        && ((a >> 9u32) & 1u32 == (b >> 9u32) & 1u32)
        && ((a >> 10u32) & 1u32 == (b >> 10u32) & 1u32)
        && ((a >> 11u32) & 1u32 == (b >> 11u32) & 1u32)
        && ((a >> 12u32) & 1u32 == (b >> 12u32) & 1u32)
        && ((a >> 13u32) & 1u32 == (b >> 13u32) & 1u32)
        && ((a >> 14u32) & 1u32 == (b >> 14u32) & 1u32)
        && ((a >> 15u32) & 1u32 == (b >> 15u32) & 1u32)
        && ((a >> 16u32) & 1u32 == (b >> 16u32) & 1u32)
        && ((a >> 17u32) & 1u32 == (b >> 17u32) & 1u32)
        && ((a >> 18u32) & 1u32 == (b >> 18u32) & 1u32)
        && ((a >> 19u32) & 1u32 == (b >> 19u32) & 1u32)
        && ((a >> 20u32) & 1u32 == (b >> 20u32) & 1u32)
        && ((a >> 21u32) & 1u32 == (b >> 21u32) & 1u32)
        && ((a >> 22u32) & 1u32 == (b >> 22u32) & 1u32)
        && ((a >> 23u32) & 1u32 == (b >> 23u32) & 1u32)
        && ((a >> 24u32) & 1u32 == (b >> 24u32) & 1u32)
        && ((a >> 25u32) & 1u32 == (b >> 25u32) & 1u32)
        && ((a >> 26u32) & 1u32 == (b >> 26u32) & 1u32)
        && ((a >> 27u32) & 1u32 == (b >> 27u32) & 1u32)
        && ((a >> 28u32) & 1u32 == (b >> 28u32) & 1u32)
        && ((a >> 29u32) & 1u32 == (b >> 29u32) & 1u32)
        && ((a >> 30u32) & 1u32 == (b >> 30u32) & 1u32)
        && ((a >> 31u32) & 1u32 == (b >> 31u32) & 1u32)) ==> a == b) by (bit_vector);
}

/// Bit `i` of `m & 0xFFFF` is bit `i` of `m` for `i < 16`, and clear above.
pub proof fn lemma_bit32_low16(m: u32, i: u32)
    requires
        i < 32,
    ensures
        bit32(m & 0xFFFFu32, i) == (i < 16 && bit32(m, i)),
{
    assert(((m & 0xFFFFu32) >> i) & 1u32 == 1u32 <==> (i < 16 && (m >> i) & 1u32 == 1u32))
        by (bit_vector)
        requires i < 32;
}

} // verus!
