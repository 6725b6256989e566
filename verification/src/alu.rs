//! The arithmetic, logic, compare and merge kernels: what each of these
//! operations does to one lane.

use crate::lane::{clamp, clamp_s16, sx, sx16, wrap, wrap16, LaneResult, LaneState};
use vstd::prelude::*;

verus! {

/// The number a carry flag adds.
pub open spec fn carry_in(st: LaneState) -> int {
    if st.carry {
        1
    } else {
        0
    }
}

/// `a` where the flag is set, `b` where it is clear.
pub open spec fn select(flag: bool, a: u16, b: u16) -> u16 {
    if flag {
        a
    } else {
        b
    }
}

/// The result of a compare: the selected operand goes to the destination
/// and to the low accumulator slice, the outcome to the compare flag; the
/// clip, carry and not-equal flags are cleared.
pub open spec fn compared(flag: bool, vs: u16, vt: u16, st: LaneState) -> LaneResult {
    let vd = select(flag, vs, vt);
    LaneResult {
        vd,
        st: LaneState { lo: vd, normal: flag, clip: false, carry: false, ne: false, ..st },
    }
}

/// The result of a logic operation: the value goes to the destination and to
/// the low accumulator slice.
pub open spec fn computed(vd: u16, st: LaneState) -> LaneResult {
    LaneResult { vd, st: LaneState { lo: vd, ..st } }
}

/// VADD: the signed sum of the operands and the carry, clamped; the low
/// accumulator slice gets the sum modulo `2^16`; carry and not-equal are
/// cleared.
pub open spec fn vadd_spec(vs: u16, vt: u16, st: LaneState) -> LaneResult {
    LaneResult {
        vd: clamp_s16(sx16(vs) + sx16(vt) + carry_in(st)),
        st: LaneState { lo: wrap16(vs + vt + carry_in(st)), carry: false, ne: false, ..st },
    }
}

/// VSUB: the signed difference of the operands less the carry, clamped; the
/// low accumulator slice gets the difference modulo `2^16`; carry and
/// not-equal are cleared.
pub open spec fn vsub_spec(vs: u16, vt: u16, st: LaneState) -> LaneResult {
    LaneResult {
        vd: clamp_s16(sx16(vs) - sx16(vt) - carry_in(st)),
        st: LaneState { lo: wrap16(vs - vt - carry_in(st)), carry: false, ne: false, ..st },
    }
}

/// VABS: `vt` with the sign of `vs`: negated where `vs` is negative, zero
/// where `vs` is zero, unchanged where `vs` is positive.
pub open spec fn vabs_spec(vs: u16, vt: u16, st: LaneState) -> LaneResult {
    let vd = if sx16(vs) < 0 {
        wrap16(-sx16(vt))
    } else if vs == 0 {
        0
    } else {
        vt
    };
    computed(vd, st)
}

/// VADDC: the sum modulo `2^16`; carry is set where the unsigned sum did not
/// fit, not-equal is cleared.
pub open spec fn vaddc_spec(vs: u16, vt: u16, st: LaneState) -> LaneResult {
    let vd = wrap16(vs + vt);
    LaneResult { vd, st: LaneState { lo: vd, carry: vs + vt > 0xFFFF, ne: false, ..st } }
}

/// VSUBC: the difference modulo `2^16`; carry is set where `vs` is below
/// `vt` as unsigned numbers, not-equal where the operands differ.
pub open spec fn vsubc_spec(vs: u16, vt: u16, st: LaneState) -> LaneResult {
    let vd = wrap16(vs - vt);
    LaneResult { vd, st: LaneState { lo: vd, carry: vs < vt, ne: vs != vt, ..st } }
}

/// VSUBB and VSUCB: the destination is cleared and the low accumulator slice
/// gets the sum modulo `2^16`.
pub open spec fn vsubb_spec(vs: u16, vt: u16, st: LaneState) -> LaneResult {
    LaneResult { vd: 0, st: LaneState { lo: wrap16(vs + vt), ..st } }
}

/// VLT: selects `vs` where it is below `vt`, or equal to it with carry and
/// not-equal both set.
pub open spec fn vlt_spec(vs: u16, vt: u16, st: LaneState) -> LaneResult {
    compared(sx16(vs) < sx16(vt) || (vs == vt && st.carry && st.ne), vs, vt, st)
}

/// VEQ: selects `vs` where the operands are equal and not-equal is clear.
pub open spec fn veq_spec(vs: u16, vt: u16, st: LaneState) -> LaneResult {
    compared(vs == vt && !st.ne, vs, vt, st)
}

/// VNE: selects `vs` where the operands differ, or are equal with
/// not-equal set.
pub open spec fn vne_spec(vs: u16, vt: u16, st: LaneState) -> LaneResult {
    compared(vs != vt || st.ne, vs, vt, st)
}

/// VGE: selects `vs` where it is above `vt`, or equal to it unless carry and
/// not-equal are both set.
pub open spec fn vge_spec(vs: u16, vt: u16, st: LaneState) -> LaneResult {
    compared(sx16(vs) > sx16(vt) || (vs == vt && !(st.carry && st.ne)), vs, vt, st)
}

/// VMRG: selects by the compare flag; carry and not-equal are cleared.
pub open spec fn vmrg_spec(vs: u16, vt: u16, st: LaneState) -> LaneResult {
    let vd = select(st.normal, vs, vt);
    LaneResult { vd, st: LaneState { lo: vd, carry: false, ne: false, ..st } }
}

pub open spec fn vand_spec(vs: u16, vt: u16, st: LaneState) -> LaneResult {
    computed(vs & vt, st)
}

pub open spec fn vnand_spec(vs: u16, vt: u16, st: LaneState) -> LaneResult {
    computed(!(vs & vt), st)
}

pub open spec fn vor_spec(vs: u16, vt: u16, st: LaneState) -> LaneResult {
    computed(vs | vt, st)
}

pub open spec fn vnor_spec(vs: u16, vt: u16, st: LaneState) -> LaneResult {
    computed(!(vs | vt), st)
}

pub open spec fn vxor_spec(vs: u16, vt: u16, st: LaneState) -> LaneResult {
    computed(vs ^ vt, st)
}

pub open spec fn vnxor_spec(vs: u16, vt: u16, st: LaneState) -> LaneResult {
    computed(!(vs ^ vt), st)
}

fn compare_result(flag: bool, vs: u16, vt: u16, st: LaneState) -> (r: LaneResult)
    ensures
        r == compared(flag, vs, vt, st),
{
    let vd = if flag {
        vs
    } else {
        vt
    };
    LaneResult {
        vd,
        st: LaneState {
            lo: vd,
            md: st.md,
            hi: st.hi,
            carry: false,
            ne: false,
            normal: flag,
            clip: false,
            vce: st.vce,
        },
    }
}

fn logic_result(vd: u16, st: LaneState) -> (r: LaneResult)
    ensures
        r == computed(vd, st),
{
    let mut next = st;
    next.lo = vd;
    LaneResult { vd, st: next }
}

pub fn vadd(vs: u16, vt: u16, st: LaneState) -> (r: LaneResult)
    ensures
        r == vadd_spec(vs, vt, st),
{
    let c: i32 = if st.carry {
        1
    } else {
        0
    };
    let mut next = st;
    next.lo = wrap(vs as i32 + vt as i32 + c);
    next.carry = false;
    next.ne = false;
    LaneResult { vd: clamp(sx(vs) + sx(vt) + c), st: next }
}

pub fn vsub(vs: u16, vt: u16, st: LaneState) -> (r: LaneResult)
    ensures
        r == vsub_spec(vs, vt, st),
{
    let c: i32 = if st.carry {
        1
    } else {
        0
    };
    let mut next = st;
    next.lo = wrap(vs as i32 - vt as i32 - c);
    next.carry = false;
    next.ne = false;
    LaneResult { vd: clamp(sx(vs) - sx(vt) - c), st: next }
}

pub fn vabs(vs: u16, vt: u16, st: LaneState) -> (r: LaneResult)
    ensures
        r == vabs_spec(vs, vt, st),
{
    let vd = if sx(vs) < 0 {
        wrap(-sx(vt))
    } else if vs == 0 {
        0
    } else {
        vt
    };
    logic_result(vd, st)
}

pub fn vaddc(vs: u16, vt: u16, st: LaneState) -> (r: LaneResult)
    ensures
        r == vaddc_spec(vs, vt, st),
{
    let sum: i32 = vs as i32 + vt as i32;
    let vd = wrap(sum);
    let mut next = st;
    next.lo = vd;
    next.carry = sum > 0xFFFF;
    next.ne = false;
    LaneResult { vd, st: next }
}

pub fn vsubc(vs: u16, vt: u16, st: LaneState) -> (r: LaneResult)
    ensures
        r == vsubc_spec(vs, vt, st),
{
    let vd = wrap(vs as i32 - vt as i32);
    let mut next = st;
    next.lo = vd;
    next.carry = vs < vt;
    next.ne = vs != vt;
    LaneResult { vd, st: next }
}

pub fn vsubb(vs: u16, vt: u16, st: LaneState) -> (r: LaneResult)
    ensures
        r == vsubb_spec(vs, vt, st),
{
    let mut next = st;
    next.lo = wrap(vs as i32 + vt as i32);
    LaneResult { vd: 0, st: next }
}

pub fn vlt(vs: u16, vt: u16, st: LaneState) -> (r: LaneResult)
    ensures
        r == vlt_spec(vs, vt, st),
{
    compare_result(sx(vs) < sx(vt) || (vs == vt && st.carry && st.ne), vs, vt, st)
}

pub fn veq(vs: u16, vt: u16, st: LaneState) -> (r: LaneResult)
    ensures
        r == veq_spec(vs, vt, st),
{
    compare_result(vs == vt && !st.ne, vs, vt, st)
}

pub fn vne(vs: u16, vt: u16, st: LaneState) -> (r: LaneResult)
    ensures
        r == vne_spec(vs, vt, st),
{
    compare_result(vs != vt || st.ne, vs, vt, st)
}

pub fn vge(vs: u16, vt: u16, st: LaneState) -> (r: LaneResult)
    ensures
        r == vge_spec(vs, vt, st),
{
    compare_result(sx(vs) > sx(vt) || (vs == vt && !(st.carry && st.ne)), vs, vt, st)
}

pub fn vmrg(vs: u16, vt: u16, st: LaneState) -> (r: LaneResult)
    ensures
        r == vmrg_spec(vs, vt, st),
{
    let vd = if st.normal {
        vs
    } else {
        vt
    };
    let mut next = st;
    next.lo = vd;
    next.carry = false;
    next.ne = false;
    LaneResult { vd, st: next }
}

pub fn vand(vs: u16, vt: u16, st: LaneState) -> (r: LaneResult)
    ensures
        r == vand_spec(vs, vt, st),
{
    logic_result(vs & vt, st)
}

pub fn vnand(vs: u16, vt: u16, st: LaneState) -> (r: LaneResult)
    ensures
        r == vnand_spec(vs, vt, st),
{
    logic_result(!(vs & vt), st)
}

pub fn vor(vs: u16, vt: u16, st: LaneState) -> (r: LaneResult)
    ensures
        r == vor_spec(vs, vt, st),
{
    logic_result(vs | vt, st)
}

pub fn vnor(vs: u16, vt: u16, st: LaneState) -> (r: LaneResult)
    ensures
        r == vnor_spec(vs, vt, st),
{
    logic_result(!(vs | vt), st)
}

pub fn vxor(vs: u16, vt: u16, st: LaneState) -> (r: LaneResult)
    ensures
        r == vxor_spec(vs, vt, st),
{
    logic_result(vs ^ vt, st)
}

pub fn vnxor(vs: u16, vt: u16, st: LaneState) -> (r: LaneResult)
    ensures
        r == vnxor_spec(vs, vt, st),
{
    logic_result(!(vs ^ vt), st)
}

/// VADDC followed by VSUBC with the same second operand gives the first
/// operand back.
pub proof fn lemma_vaddc_vsubc(vs: u16, vt: u16, st: LaneState)
    ensures
        vsubc_spec(vaddc_spec(vs, vt, st).vd, vt, vaddc_spec(vs, vt, st).st).vd == vs,
{
}

/// With the not-equal flag clear, VEQ leaves the compare flag set exactly
/// where the operands are equal, and the clip flag clear.
pub proof fn lemma_veq_flags(vs: u16, vt: u16, st: LaneState)
    requires
        !st.ne,
    ensures
        veq_spec(vs, vt, st).st.normal == (vs == vt),
        !veq_spec(vs, vt, st).st.clip,
{
}

} // verus!
