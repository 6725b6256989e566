//! 128-bit words as rows of sixteen bytes: shifts, rotations and partial
//! writes, and what each does to the bytes.

use crate::endian::byte_be;
use vstd::prelude::*;

verus! {

/// `x` rotated left by `bits` bits, `bits` taken modulo 128.
pub open spec fn rotl(x: u128, bits: u128) -> u128 {
    if bits % 128 == 0 {
        x
    } else {
        (x << (bits % 128)) | (x >> ((128 - bits % 128) as u128))
    }
}

/// `x` rotated right by `bits` bits, `bits` taken modulo 128.
pub open spec fn rotr(x: u128, bits: u128) -> u128 {
    if bits % 128 == 0 {
        x
    } else {
        (x >> (bits % 128)) | (x << ((128 - bits % 128) as u128))
    }
}

/// The bits that a partial write on the right replaces: `nbits` bits that
/// start `skip_bits` bits below the top of the word.
pub open spec fn right_mask(skip_bits: u128, nbits: u128) -> u128 {
    if skip_bits < 128 {
        ((!0u128) << ((128 - nbits) as u128)) >> skip_bits
    } else {
        0
    }
}

/// `d` with its bits under `right_mask` replaced by the top bits of `src`,
/// moved down by `skip_bits`.
pub open spec fn partial_right(d: u128, src: u128, skip_bits: u128, nbits: u128) -> u128 {
    let mask = right_mask(skip_bits, nbits);
    let moved = if skip_bits < 128 {
        src >> skip_bits
    } else {
        0
    };
    (d & !mask) | (moved & mask)
}

/// The bits that a partial write on the left replaces: all but the lowest
/// `skip_bits` bits.
pub open spec fn left_mask(skip_bits: u128) -> u128 {
    if skip_bits < 128 {
        (!0u128) << skip_bits
    } else {
        0
    }
}

/// `d` with its bits under `left_mask` replaced by the low bits of `src`,
/// moved up by `skip_bits`.
pub open spec fn partial_left(d: u128, src: u128, skip_bits: u128) -> u128 {
    let mask = left_mask(skip_bits);
    let moved = if skip_bits < 128 {
        src << skip_bits
    } else {
        0
    };
    (d & !mask) | (moved & mask)
}

/// Rotates a word left.
pub fn rotate_left(x: u128, bits: u32) -> (r: u128)
    ensures
        r == rotl(x, bits as u128),
{
    let s = bits % 128;
    if s == 0 {
        x
    } else {
        (x << s) | (x >> (128 - s))
    }
}

/// Rotates a word right.
pub fn rotate_right(x: u128, bits: u32) -> (r: u128)
    ensures
        r == rotr(x, bits as u128),
{
    let s = bits % 128;
    if s == 0 {
        x
    } else {
        (x >> s) | (x << (128 - s))
    }
}

/// Merges into `d` the top `nbits` bits of `src`, placed `skip_bits` bits
/// below the top of the word; what would fall off the low end is dropped.
pub fn write_partial_right(d: u128, src: u128, skip_bits: usize, nbits: usize) -> (r: u128)
    requires
        1 <= nbits <= 128,
    ensures
        r == partial_right(d, src, skip_bits as u128, nbits as u128),
{
    let mask = !0u128;
    let mask = mask << (128 - nbits);
    let mask = if skip_bits < 128 {
        mask >> skip_bits
    } else {
        0
    };
    let src = if skip_bits < 128 {
        src >> skip_bits
    } else {
        0
    };
    (d & !mask) | (src & mask)
}

/// Merges into `d` all of `src` but its top `skip_bits` bits, moved up to
/// the top of the word.
pub fn write_partial_left(d: u128, src: u128, skip_bits: usize) -> (r: u128)
    ensures
        r == partial_left(d, src, skip_bits as u128),
{
    let mask = !0u128;
    let mask = if skip_bits < 128 {
        mask << skip_bits
    } else {
        0
    };
    let src = if skip_bits < 128 {
        src << skip_bits
    } else {
        0
    };
    (d & !mask) | (src & mask)
}

/// Shifting left by whole bytes moves every byte up and fills with zero.
pub proof fn lemma_shl_bytes(x: u128, k: u128, i: u128)
    by (bit_vector)
    requires
        k < 16,
        i < 16,
    ensures
        byte_be(x << ((8 * k) as u128), i) == (if i + k < 16 {
            byte_be(x, (i + k) as u128)
        } else {
            0u8
        }),
{
}

/// Rotating left by whole bytes moves every byte up, around the end.
pub proof fn lemma_rotl_bytes(x: u128, k: u128, i: u128)
    by (bit_vector)
    requires
        k < 32,
        i < 16,
    ensures
        byte_be(rotl(x, (8 * k) as u128), i) == byte_be(x, ((i + k) % 16) as u128),
{
}

/// Rotating right by whole bytes moves every byte down, around the end.
pub proof fn lemma_rotr_bytes(x: u128, k: u128, i: u128)
    by (bit_vector)
    requires
        k < 16,
        i < 16,
    ensures
        byte_be(rotr(x, (8 * k) as u128), i) == byte_be(x, ((i + 16 - k) % 16) as u128),
{
}

/// Lane `k` of a word, counted from the top, is made of bytes `2k` and
/// `2k + 1`.
pub proof fn lemma_word_lane(x: u128, k: u128)
    by (bit_vector)
    requires
        k < 8,
    ensures
        (x << ((16 * k) as u128)) >> 112 == byte_be(x, (2 * k) as u128) as u128 * 256 + byte_be(
            x,
            (2 * k + 1) as u128,
        ) as u128,
        (x << ((16 * k) as u128)) >> 112 <= 0xFFFF,
{
}

/// A partial write on the right, in whole bytes: bytes `skip` up to
/// `skip + n` get the first bytes of `src`, the others stay.
pub proof fn lemma_partial_right_bytes(d: u128, src: u128, skip: u128, n: u128, i: u128)
    by (bit_vector)
    requires
        skip < 64,
        1 <= n <= 16,
        i < 16,
    ensures
        byte_be(partial_right(d, src, (8 * skip) as u128, (8 * n) as u128), i) == (if skip <= i
            && i < skip + n {
            byte_be(src, (i - skip) as u128)
        } else {
            byte_be(d, i)
        }),
{
}

/// A partial write on the left, in whole bytes: the first `16 - skip` bytes
/// get the last bytes of `src`, the others stay.
pub proof fn lemma_partial_left_bytes(d: u128, src: u128, skip: u128, i: u128)
    by (bit_vector)
    requires
        skip < 64,
        i < 16,
    ensures
        byte_be(partial_left(d, src, (8 * skip) as u128), i) == (if i + skip < 16 {
            byte_be(src, (i + skip) as u128)
        } else {
            byte_be(d, i)
        }),
{
}

} // verus!
