//! The reciprocal and inverse square root of a 32-bit fixed-point number,
//! looked up in the unit's tables.

use crate::rom::{RCP_ROM, RSQ_ROM};
use vstd::prelude::*;
use vstd::std_specs::bits::{axiom_u32_leading_zeros, u32_leading_zeros};

verus! {

/// The value that a zero argument gives.
pub const DIVISION_BY_ZERO: u32 = 0x7FFF_FFFF;

/// The value that the argument `-32768` gives.
pub const MOST_NEGATIVE: u32 = 0xFFFF_0000;

/// The argument is negative as a two's-complement number.
pub open spec fn is_negative(x: u32) -> bool {
    x >= 0x8000_0000
}

/// The magnitude that is looked up: `x` for a non-negative argument, `-x`
/// for a negative one above `-32768`, and `-x - 1` from `-32768` down.
pub open spec fn magnitude(x: u32) -> u32 {
    if !is_negative(x) {
        x
    } else if x > 0xFFFF_8000 {
        (0x1_0000_0000 - x) as u32
    } else {
        (0xFFFF_FFFF - x) as u32
    }
}

/// The table index for the reciprocal: the nine bits below the leading one
/// of the magnitude.
pub open spec fn rcp_index(data: u32) -> u32 {
    ((data << u32_leading_zeros(data)) >> 22) & 0x1FF
}

/// The table index for the inverse square root: the eight bits below the
/// leading one of the magnitude, then the parity of the number of leading
/// zeros.
pub open spec fn rsq_index(data: u32) -> u32 {
    (((data << u32_leading_zeros(data)) >> 22) & 0x1FE) | (u32_leading_zeros(data) & 1)
}

/// `r` for a non-negative argument, `-r` modulo `2^32` for a negative one.
pub open spec fn signed_as(x: u32, r: u32) -> u32 {
    if is_negative(x) && r != 0 {
        (0x1_0000_0000 - r) as u32
    } else {
        r
    }
}

/// The reciprocal of `x`, a two's-complement number.
pub open spec fn vrcp_spec(x: u32) -> u32 {
    let data = magnitude(x);
    if data == 0 {
        DIVISION_BY_ZERO
    } else if x == 0xFFFF_8000 {
        MOST_NEGATIVE
    } else {
        let shift = u32_leading_zeros(data);
        let entry = RCP_ROM[rcp_index(data) as int];
        signed_as(x, ((0x10000 | entry as u32) << 14) >> ((31 - shift) as u32))
    }
}

/// The inverse square root of `x`, a two's-complement number.
pub open spec fn vrsq_spec(x: u32) -> u32 {
    let data = magnitude(x);
    if data == 0 {
        DIVISION_BY_ZERO
    } else if x == 0xFFFF_8000 {
        MOST_NEGATIVE
    } else {
        let shift = u32_leading_zeros(data);
        let entry = RSQ_ROM[rsq_index(data) as int];
        signed_as(x, ((0x10000 | entry as u32) << 14) >> (((31 - shift) / 2) as u32))
    }
}

/// A lane sign-extended to 32 bits.
pub open spec fn sx32(v: u16) -> u32 {
    if v >= 0x8000 {
        (0xFFFF_0000 + v) as u32
    } else {
        v as u32
    }
}

proof fn lemma_index_bound(n: u32, bit: u32)
    by (bit_vector)
    ensures
        (n >> 22) & 0x1FF < 512,
        ((n >> 22) & 0x1FE) | (bit & 1) < 512,
{
}

fn magnitude_of(x: u32) -> (r: u32)
    ensures
        r == magnitude(x),
{
    if x < 0x8000_0000 {
        x
    } else if x > 0xFFFF_8000 {
        (0xFFFF_FFFF - x) + 1
    } else {
        0xFFFF_FFFF - x
    }
}

fn with_sign(x: u32, r: u32) -> (s: u32)
    ensures
        s == signed_as(x, r),
{
    if x >= 0x8000_0000 && r != 0 {
        (0xFFFF_FFFF - r) + 1
    } else {
        r
    }
}

/// Sign-extends a lane to 32 bits.
pub fn sign_extend(v: u16) -> (r: u32)
    ensures
        r == sx32(v),
{
    if v >= 0x8000 {
        0xFFFF_0000 + v as u32
    } else {
        v as u32
    }
}

/// Computes the reciprocal of `x`.
pub fn vrcp(x: u32) -> (r: u32)
    ensures
        r == vrcp_spec(x),
{
    let data = magnitude_of(x);
    if data == 0 {
        return DIVISION_BY_ZERO;
    }
    if x == 0xFFFF_8000 {
        return MOST_NEGATIVE;
    }
    proof {
        axiom_u32_leading_zeros(data);
    }
    let shift = data.leading_zeros();
    let index = ((data << shift) >> 22) & 0x1FF;
    proof {
        lemma_index_bound(data << shift, shift);
    }
    let entry = RCP_ROM[index as usize];
    with_sign(x, ((0x10000 | entry as u32) << 14) >> (31 - shift))
}

/// Computes the inverse square root of `x`.
pub fn vrsq(x: u32) -> (r: u32)
    ensures
        r == vrsq_spec(x),
{
    let data = magnitude_of(x);
    if data == 0 {
        return DIVISION_BY_ZERO;
    }
    if x == 0xFFFF_8000 {
        return MOST_NEGATIVE;
    }
    proof {
        axiom_u32_leading_zeros(data);
    }
    let shift = data.leading_zeros();
    let index = (((data << shift) >> 22) & 0x1FE) | (shift & 1);
    proof {
        lemma_index_bound(data << shift, shift);
    }
    let entry = RSQ_ROM[index as usize];
    with_sign(x, ((0x10000 | entry as u32) << 14) >> ((31 - shift) / 2))
}

} // verus!
