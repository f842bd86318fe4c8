//! Single bits of bytes and of words, set, cleared and tested through the
//! `BitSet` trait of `bitset_core`.
use vstd::prelude::*;
use bitset_core::BitSet;

verus! {

/// Whether bit `bit` of `byte` is set.
pub open spec fn byte_bit(byte: u8, bit: u8) -> bool {
    (byte >> bit) & 1u8 == 1u8
}

/// Whether bit `bit` of `word` is set.
pub open spec fn word_bit(word: u64, bit: u64) -> bool {
    word & (1u64 << bit) != 0u64
}

/// `BitSet::bit_set` of `bitset_core` on a `u8`, which ors in `1 << bit`;
/// the shift overflows for a bit past the byte.
#[verifier::external_body]
pub(crate) fn byte_set_bit(byte: &mut u8, bit: usize)
    requires
        bit < 8,
    ensures
        *final(byte) == *old(byte) | (1u8 << (bit as u8)),
{
    byte.bit_set(bit);
}

/// `BitSet::bit_reset` of `bitset_core` on a `u8`, which ands in
/// `!(1 << bit)`; the shift overflows for a bit past the byte.
#[verifier::external_body]
pub(crate) fn byte_reset_bit(byte: &mut u8, bit: usize)
    requires
        bit < 8,
    ensures
        *final(byte) == *old(byte) & !(1u8 << (bit as u8)),
{
    byte.bit_reset(bit);
}

/// `BitSet::bit_set` of `bitset_core` on a slice of `u64`, which ors
/// `1 << (bit % 64)` into word `bit / 64`; the index is out of bounds past
/// the last word.
#[verifier::external_body]
pub(crate) fn words_set_bit(words: &mut [u64; 4], bit: usize)
    requires
        bit < 256,
    ensures
        final(words)@ == old(words)@.update(
            (bit / 64) as int,
            old(words)@[(bit / 64) as int] | (1u64 << ((bit % 64) as u64)),
        ),
{
    words.bit_set(bit);
}

/// `BitSet::bit_test` of `bitset_core` on a slice of `u64`: whether word
/// `bit / 64` has bit `bit % 64` set; the index is out of bounds past the
/// last word.
#[verifier::external_body]
pub(crate) fn words_test_bit(words: &[u64; 4], bit: usize) -> (r: bool)
    requires
        bit < 256,
    ensures
        r == word_bit(words@[(bit / 64) as int], (bit % 64) as u64),
{
    words.bit_test(bit)
}

/// Setting a bit of a byte sets that bit and keeps the others.
pub proof fn lemma_byte_set(byte: u8, bit: u8, other: u8)
    requires
        bit < 8,
        other < 8,
    ensures
        byte_bit(byte | (1u8 << bit), bit),
        other != bit ==> byte_bit(byte | (1u8 << bit), other) == byte_bit(byte, other),
{
    assert(((byte | (1u8 << bit)) >> bit) & 1u8 == 1u8) by (bit_vector)
        requires
            bit < 8,
    ;
    assert(other != bit ==> (((byte | (1u8 << bit)) >> other) & 1u8 == 1u8) == ((byte >> other) & 1u8 == 1u8))
        by (bit_vector)
        requires
            bit < 8,
            other < 8,
    ;
}

/// Clearing a bit of a byte clears that bit and keeps the others.
pub proof fn lemma_byte_reset(byte: u8, bit: u8, other: u8)
    requires
        bit < 8,
        other < 8,
    ensures
        !byte_bit(byte & !(1u8 << bit), bit),
        other != bit ==> byte_bit(byte & !(1u8 << bit), other) == byte_bit(byte, other),
{
    assert(((byte & !(1u8 << bit)) >> bit) & 1u8 != 1u8) by (bit_vector)
        requires
            bit < 8,
    ;
    assert(other != bit ==> (((byte & !(1u8 << bit)) >> other) & 1u8 == 1u8) == ((byte >> other) & 1u8 == 1u8))
        by (bit_vector)
        requires
            bit < 8,
            other < 8,
    ;
}

/// Setting a bit of a word sets that bit and keeps the others.
pub proof fn lemma_word_set(word: u64, bit: u64, other: u64)
    requires
        bit < 64,
        other < 64,
    ensures
        word_bit(word | (1u64 << bit), bit),
        other != bit ==> word_bit(word | (1u64 << bit), other) == word_bit(word, other),
{
    assert((word | (1u64 << bit)) & (1u64 << bit) != 0u64) by (bit_vector)
        requires
            bit < 64,
    ;
    assert(other != bit ==> (((word | (1u64 << bit)) & (1u64 << other)) != 0u64) == ((word & (1u64 << other))
        != 0u64)) by (bit_vector)
        requires
            bit < 64,
            other < 64,
    ;
}

/// No bit of zero is set.
pub proof fn lemma_word_zero(bit: u64)
    requires
        bit < 64,
    ensures
        !word_bit(0u64, bit),
{
    assert(0u64 & (1u64 << bit) == 0u64) by (bit_vector);
}

/// Every bit of an all-ones byte is set, and no bit of zero.
pub proof fn lemma_byte_full(bit: u8)
    requires
        bit < 8,
    ensures
        byte_bit(0xffu8, bit),
        !byte_bit(0u8, bit),
{
    assert((0xffu8 >> bit) & 1u8 == 1u8) by (bit_vector)
        requires
            bit < 8,
    ;
    assert((0u8 >> bit) & 1u8 != 1u8) by (bit_vector);
}

} // verus!
