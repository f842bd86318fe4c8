//! Bit-field helpers on 64-bit and 128-bit words: masks of low ones,
//! extraction of a bit range and insertion of a value into a bit range.
use vstd::prelude::*;

verus! {

/// A word whose low `width` bits are ones and whose other bits are zeros;
/// every bit is one once `width` reaches the word size.
pub open spec fn mask_spec(width: u32) -> u64 {
    if width >= 64 {
        0xffff_ffff_ffff_ffffu64
    } else {
        ((1u64 << width) - 1u64) as u64
    }
}

/// The 128-bit counterpart of [`mask_spec`].
pub open spec fn mask128_spec(width: u32) -> u128 {
    if width >= 128 {
        0xffff_ffff_ffff_ffff_ffff_ffff_ffff_ffffu128
    } else {
        ((1u128 << width) - 1u128) as u128
    }
}

/// Bit `i` of `x`.
pub open spec fn bit_of(x: u64, i: u64) -> bool {
    (x >> i) & 1u64 == 1u64
}

/// `length` bits of `value` starting at bit `start`, moved down to bit 0.
pub open spec fn bit_extract_spec(value: u64, start: u64, length: u64) -> u64 {
    (value >> start) & mask_spec(length as u32)
}

/// `target` with bits `start .. start + length` replaced by the low `length`
/// bits of `source`.
pub open spec fn bit_insert_spec(target: u64, source: u64, start: u64, length: u64) -> u64 {
    if start >= 64 {
        0
    } else {
        (target & !(mask_spec(length as u32) << start)) | ((source & mask_spec(length as u32))
            << start)
    }
}

proof fn lemma_shl_below_64_nonzero(n: u32)
    requires
        n < 64,
    ensures
        (1u64 << n) >= 1,
{
    assert(n < 64 ==> (1u64 << n) >= 1u64) by (bit_vector);
}

proof fn lemma_shl_below_128_nonzero(n: u32)
    requires
        n < 128,
    ensures
        (1u128 << n) >= 1,
{
    assert(n < 128 ==> (1u128 << n) >= 1u128) by (bit_vector);
}

/// Returns a word of `width` low ones (all ones from 64 on).
pub fn mask(width: u32) -> (r: u64)
    ensures
        r == mask_spec(width),
{
    if width >= 64 {
        u64::MAX
    } else {
        proof {
            lemma_shl_below_64_nonzero(width);
        }
        (1u64 << width) - 1
    }
}

/// Returns a 128-bit word of `width` low ones (all ones from 128 on).
pub fn mask128(width: u32) -> (r: u128)
    ensures
        r == mask128_spec(width),
{
    if width >= 128 {
        u128::MAX
    } else {
        proof {
            lemma_shl_below_128_nonzero(width);
        }
        (1u128 << width) - 1
    }
}

/// Replaces bits `start .. start + length` of `target` by the low `length`
/// bits of `source`. A start beyond the word is only accepted for a zero
/// source, and yields zero.
pub fn bit_insert(target: u64, source: u64, start: u64, length: u64) -> (r: u64)
    requires
        start >= 64 ==> source == 0,
        length <= u32::MAX,
    ensures
        r == bit_insert_spec(target, source, start, length),
{
    if start >= 64 {
        return 0;
    }
    let length: u32 = length as u32;
    let start_u32: u32 = start as u32;
    let m = mask(length);
    let cleared_target = target & !(m << start_u32);
    let shifted_source = (source & m) << start_u32;
    proof {
        assert(m << start_u32 == m << start) by (bit_vector)
            requires
                start_u32 == start,
                start < 64,
        ;
        assert((source & m) << start_u32 == (source & m) << start) by (bit_vector)
            requires
                start_u32 == start,
                start < 64,
        ;
    }
    cleared_target | shifted_source
}

/// Returns `length` bits of `value` starting at bit `start`.
pub fn bit_extract(value: u64, start: u64, length: u64) -> (r: u64)
    requires
        start < 64,
        length <= u32::MAX,
    ensures
        r == bit_extract_spec(value, start, length),
{
    (value >> start) & mask(length as u32)
}

/// Reading back a range that was just written gives the low `length` bits of
/// what was written.
pub proof fn lemma_extract_of_insert(target: u64, source: u64, start: u64, length: u64)
    requires
        start + length <= 64,
        start < 64,
    ensures
        bit_extract_spec(bit_insert_spec(target, source, start, length), start, length) == source
            & mask_spec(length as u32),
{
    let l = length as u32;
    if length == 64 {
        assert(start == 0);
        assert(mask_spec(l) == 0xffff_ffff_ffff_ffffu64);
        let m = 0xffff_ffff_ffff_ffffu64;
        assert((((target & !(m << start)) | ((source & m) << start)) >> start) & m == source & m)
            by (bit_vector)
            requires
                start == 0,
        ;
    } else {
        assert(l < 64);
        let m = ((1u64 << l) - 1u64) as u64;
        lemma_shl_below_64_nonzero(l);
        assert(mask_spec(l) == m);
        assert((((target & !(m << start)) | ((source & m) << start)) >> start) & m == source & m)
            by (bit_vector)
            requires
                m == ((1u64 << l) - 1u64) as u64,
                (1u64 << l) >= 1u64,
                l < 64,
                start < 64,
                start + l <= 64,
        ;
    }
}

/// Bits outside the written range keep the value they had in the target.
pub proof fn lemma_insert_keeps_other_bits(
    target: u64,
    source: u64,
    start: u64,
    length: u64,
    i: u64,
)
    requires
        start + length <= 64,
        start < 64,
        i < 64,
        i < start || i >= start + length,
    ensures
        bit_of(bit_insert_spec(target, source, start, length), i) == bit_of(target, i),
{
    let l = length as u32;
    if length == 64 {
        assert(start == 0);
        assert(false);
    } else {
        let m = ((1u64 << l) - 1u64) as u64;
        lemma_shl_below_64_nonzero(l);
        assert(mask_spec(l) == m);
        assert(((((target & !(m << start)) | ((source & m) << start)) >> i) & 1u64 == 1u64) == ((
        (target >> i) & 1u64) == 1u64)) by (bit_vector)
            requires
                m == ((1u64 << l) - 1u64) as u64,
                (1u64 << l) >= 1u64,
                l < 64,
                start < 64,
                start + l <= 64,
                i < 64,
                i < start || i >= start + l,
        ;
    }
}

/// A mask of `length` ones placed at `start` is read back as `length` ones.
pub proof fn lemma_extract_of_placed_mask(start: u64, length: u64)
    requires
        start + length <= 64,
        start < 64,
    ensures
        bit_extract_spec(mask_spec(length as u32) << start, start, length) == mask_spec(
            length as u32,
        ),
{
    let l = length as u32;
    if length == 64 {
        let m = 0xffff_ffff_ffff_ffffu64;
        assert(((m << start) >> start) & m == m) by (bit_vector)
            requires
                start == 0,
        ;
    } else {
        let m = ((1u64 << l) - 1u64) as u64;
        lemma_shl_below_64_nonzero(l);
        assert(((m << start) >> start) & m == m) by (bit_vector)
            requires
                m == ((1u64 << l) - 1u64) as u64,
                (1u64 << l) >= 1u64,
                l < 64,
                start + l <= 64,
        ;
    }
}

/// The masks grow with their width.
pub proof fn lemma_mask_monotonic(a: u32, b: u32)
    requires
        a <= b,
    ensures
        mask_spec(a) <= mask_spec(b),
{
    if b >= 64 {
    } else {
        lemma_shl_below_64_nonzero(a);
        lemma_shl_below_64_nonzero(b);
        assert((1u64 << a) <= (1u64 << b)) by (bit_vector)
            requires
                a <= b,
                b < 64,
        ;
    }
}

} // verus!
