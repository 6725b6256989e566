//! One lane of the vector unit: the 16-bit operands, the 48-bit accumulator
//! and the five flags that a lane operation reads and leaves behind.

use vstd::prelude::*;

verus! {

/// What a lane holds besides its operands: the three accumulator slices and
/// one flag of each flag register.
#[derive(Clone, Copy)]
pub struct LaneState {
    /// Accumulator bits 0..16.
    pub lo: u16,
    /// Accumulator bits 16..32.
    pub md: u16,
    /// Accumulator bits 32..48.
    pub hi: u16,
    /// The lane's carry flag (VCO low half).
    pub carry: bool,
    /// The lane's not-equal flag (VCO high half).
    pub ne: bool,
    /// The lane's compare flag (VCC low half).
    pub normal: bool,
    /// The lane's clip flag (VCC high half).
    pub clip: bool,
    /// The lane's compare-extension flag (VCE).
    pub vce: bool,
}

/// What a lane operation produces: the lane of the destination register and
/// the lane's new state.
#[derive(Clone, Copy)]
pub struct LaneResult {
    pub vd: u16,
    pub st: LaneState,
}

/// The number of values a 48-bit accumulator can take.
pub const ACC_MODULUS: u64 = 0x1_0000_0000_0000;

/// A 16-bit lane read as a two's-complement number.
#[verifier::inline]
pub open spec fn sx16(v: u16) -> int {
    if v >= 0x8000 {
        v - 0x10000
    } else {
        v as int
    }
}

/// The 16-bit lane that holds `x` modulo `2^16`.
pub open spec fn wrap16(x: int) -> u16 {
    (x % 0x10000) as u16
}

/// `x` clamped to the signed 16-bit range, as a lane.
pub open spec fn clamp_s16(x: int) -> u16 {
    if x > 0x7FFF {
        0x7FFF
    } else if x < -0x8000 {
        0x8000
    } else {
        wrap16(x)
    }
}

/// The accumulator of a lane as an unsigned 48-bit number.
pub open spec fn acc_of(st: LaneState) -> int {
    st.hi as int * 0x1_0000_0000 + st.md as int * 0x10000 + st.lo as int
}

/// The lane state whose accumulator holds `a` modulo `2^48`.
pub open spec fn with_acc(st: LaneState, a: int) -> LaneState {
    let w = a % (ACC_MODULUS as int);
    LaneState {
        lo: (w % 0x10000) as u16,
        md: ((w / 0x10000) % 0x10000) as u16,
        hi: (w / 0x1_0000_0000) as u16,
        ..st
    }
}

/// The upper 32 bits of the accumulator (high and middle slice) read as a
/// two's-complement number: the accumulator divided by `2^16`.
pub open spec fn acc_upper(st: LaneState) -> int {
    sx16(st.hi) * 0x10000 + st.md as int
}

/// The middle slice, unless the accumulator divided by `2^16` leaves the
/// signed 16-bit range: then the nearest bound of that range.
pub open spec fn clamp_signed(st: LaneState) -> u16 {
    if acc_upper(st) > 0x7FFF {
        0x7FFF
    } else if acc_upper(st) < -0x8000 {
        0x8000
    } else {
        st.md
    }
}

/// The middle slice, unless the accumulator is negative (then 0) or its
/// upper part exceeds `0x7FFF` (then `0xFFFF`).
pub open spec fn clamp_unsigned(st: LaneState) -> u16 {
    if acc_upper(st) < 0 {
        0
    } else if acc_upper(st) > 0x7FFF {
        0xFFFF
    } else {
        st.md
    }
}

/// The low slice, unless the accumulator divided by `2^16` leaves the signed
/// 16-bit range: then 0 below it and `0xFFFF` above it.
pub open spec fn clamp_low(st: LaneState) -> u16 {
    if acc_upper(st) < -0x8000 {
        0
    } else if acc_upper(st) > 0x7FFF {
        0xFFFF
    } else {
        st.lo
    }
}

/// Reads a lane as a two's-complement number.
pub fn sx(v: u16) -> (r: i32)
    ensures
        r == sx16(v),
{
    if v >= 0x8000 {
        v as i32 - 0x10000
    } else {
        v as i32
    }
}

/// The lane that holds `x` modulo `2^16`.
pub fn wrap(x: i32) -> (r: u16)
    ensures
        r == wrap16(x as int),
{
    proof {
        vstd::arithmetic::div_mod::lemma_mod_multiples_vanish(0x10000, x as int, 0x10000);
    }
    ((x as i64 + 0x1_0000_0000) % 0x10000) as u16
}

/// Clamps `x` to the signed 16-bit range.
pub fn clamp(x: i32) -> (r: u16)
    ensures
        r == clamp_s16(x as int),
{
    if x > 0x7FFF {
        0x7FFF
    } else if x < -0x8000 {
        0x8000
    } else {
        wrap(x)
    }
}

/// The lane that stands for a flag: all ones when set, zero when clear.
pub fn mask(flag: bool) -> (r: u16)
    ensures
        r == crate::context::mask_lane(flag),
{
    if flag {
        0xFFFF
    } else {
        0
    }
}

/// The upper 32 bits of the accumulator as a two's-complement number.
pub fn upper(st: &LaneState) -> (r: i32)
    ensures
        r == acc_upper(*st),
{
    sx(st.hi) * 0x10000 + st.md as i32
}

/// The signed clamp of the accumulator's middle slice.
pub fn saturate_signed(st: &LaneState) -> (r: u16)
    ensures
        r == clamp_signed(*st),
{
    let u = upper(st);
    if u > 0x7FFF {
        0x7FFF
    } else if u < -0x8000 {
        0x8000
    } else {
        st.md
    }
}

/// The unsigned clamp of the accumulator's middle slice.
pub fn saturate_unsigned(st: &LaneState) -> (r: u16)
    ensures
        r == clamp_unsigned(*st),
{
    let u = upper(st);
    if u < 0 {
        0
    } else if u > 0x7FFF {
        0xFFFF
    } else {
        st.md
    }
}

/// The clamp of the accumulator's low slice.
pub fn saturate_low(st: &LaneState) -> (r: u16)
    ensures
        r == clamp_low(*st),
{
    let u = upper(st);
    if u < -0x8000 {
        0
    } else if u > 0x7FFF {
        0xFFFF
    } else {
        st.lo
    }
}

/// The product of two numbers. Where both fit a lane, signed or unsigned,
/// the product fits 33 bits.
pub fn product(a: i32, b: i32) -> (r: i64)
    ensures
        r == a * b,
        -0x8000 <= a <= 0xFFFF && -0x8000 <= b <= 0xFFFF ==> -0x8000_0000 <= r <= 0xFFFE_0001,
{
    assert(-0x4000_0000_0000_0000 <= a * b <= 0x4000_0000_0000_0000) by (nonlinear_arith)
        requires
            -0x8000_0000 <= a <= 0x7FFF_FFFF,
            -0x8000_0000 <= b <= 0x7FFF_FFFF,
    ;
    assert(-0x8000 <= a <= 0xFFFF && -0x8000 <= b <= 0xFFFF ==> -0x8000_0000 <= a * b
        <= 0xFFFE_0001) by (nonlinear_arith);
    (a as i64) * (b as i64)
}

/// Replaces the accumulator of a lane by `a` modulo `2^48`.
pub fn set_acc(st: &LaneState, a: i64) -> (r: LaneState)
    ensures
        r == with_acc(*st, a as int),
{
    let w: u64 = ((a as i128 + 0x1_0000_0000_0000_0000) % 0x1_0000_0000_0000) as u64;
    proof {
        vstd::arithmetic::div_mod::lemma_mod_multiples_vanish(
            0x10000,
            a as int,
            ACC_MODULUS as int,
        );
    }
    LaneState {
        lo: (w % 0x10000) as u16,
        md: ((w / 0x10000) % 0x10000) as u16,
        hi: (w / 0x1_0000_0000) as u16,
        carry: st.carry,
        ne: st.ne,
        normal: st.normal,
        clip: st.clip,
        vce: st.vce,
    }
}

/// The accumulator of a lane as an unsigned 48-bit number.
pub fn acc(st: &LaneState) -> (r: i64)
    ensures
        r == acc_of(*st),
        0 <= r < 0x1_0000_0000_0000,
{
    st.hi as i64 * 0x1_0000_0000 + st.md as i64 * 0x10000 + st.lo as i64
}

} // verus!
