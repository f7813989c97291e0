//! Bit-level view of the flag words and register values used across the SDK.

use vstd::prelude::*;
use vstd::arithmetic::power2::pow2;

verus! {

/// Bit `index` of `value`, counted from the least significant bit.
pub open spec fn has_bit(value: int, index: nat) -> bool {
    (value / (pow2(index) as int)) % 2 == 1
}

/// Bit 0 of a 32-bit word is set exactly when the word and 1 have a common bit.
pub proof fn lemma_u32_bit0(x: u32)
    ensures
        (x & 1u32 != 0) == has_bit(x as int, 0),
{
    vstd::arithmetic::power2::lemma2_to64();
    assert((x & 1u32 != 0) == (x % 2 == 1)) by (bit_vector);
}

/// Bit 1 of a 32-bit word.
pub proof fn lemma_u32_bit1(x: u32)
    ensures
        (x & 2u32 != 0) == has_bit(x as int, 1),
{
    vstd::arithmetic::power2::lemma2_to64();
    assert((x & 2u32 != 0) == ((x / 2) % 2 == 1)) by (bit_vector);
}

/// Bit 2 of a 32-bit word.
pub proof fn lemma_u32_bit2(x: u32)
    ensures
        (x & 4u32 != 0) == has_bit(x as int, 2),
{
    vstd::arithmetic::power2::lemma2_to64();
    assert((x & 4u32 != 0) == ((x / 4) % 2 == 1)) by (bit_vector);
}

} // verus!

verus! {

/// Merging two flag words by `|` sets exactly the bits set in either word
/// (shown for the three low bits, the ones the SDK's workers use).
pub proof fn lemma_u32_or_low_bits(a: u32, b: u32)
    ensures
        has_bit((a | b) as int, 0) == (has_bit(a as int, 0) || has_bit(b as int, 0)),
        has_bit((a | b) as int, 1) == (has_bit(a as int, 1) || has_bit(b as int, 1)),
        has_bit((a | b) as int, 2) == (has_bit(a as int, 2) || has_bit(b as int, 2)),
{
    lemma_u32_bit0(a);
    lemma_u32_bit0(b);
    lemma_u32_bit0(a | b);
    lemma_u32_bit1(a);
    lemma_u32_bit1(b);
    lemma_u32_bit1(a | b);
    lemma_u32_bit2(a);
    lemma_u32_bit2(b);
    lemma_u32_bit2(a | b);
    assert(((a | b) & 1u32 != 0) == ((a & 1u32 != 0) || (b & 1u32 != 0))) by (bit_vector);
    assert(((a | b) & 2u32 != 0) == ((a & 2u32 != 0) || (b & 2u32 != 0))) by (bit_vector);
    assert(((a | b) & 4u32 != 0) == ((a & 4u32 != 0) || (b & 4u32 != 0))) by (bit_vector);
}

} // verus!
