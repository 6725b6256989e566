//! The multiply kernels: what each of the twelve multiply operations does to
//! one lane.

use crate::lane::{
    acc, acc_of, clamp_low, clamp_signed, clamp_unsigned, product, saturate_low, saturate_signed,
    saturate_unsigned, set_acc, sx, sx16, with_acc, LaneResult, LaneState,
};
use vstd::prelude::*;

verus! {

/// VMULF: the accumulator becomes twice the signed product plus the rounding
/// bias `0x8000`; the result is its signed clamp.
#[verifier::inline]
pub open spec fn vmulf_spec(vs: u16, vt: u16, st: LaneState) -> LaneResult {
    let next = with_acc(st, sx16(vs) * sx16(vt) * 2 + 0x8000);
    LaneResult { vd: clamp_signed(next), st: next }
}

/// VMULU: the accumulator of VMULF; the result is its unsigned clamp.
#[verifier::inline]
pub open spec fn vmulu_spec(vs: u16, vt: u16, st: LaneState) -> LaneResult {
    let next = with_acc(st, sx16(vs) * sx16(vt) * 2 + 0x8000);
    LaneResult { vd: clamp_unsigned(next), st: next }
}

/// VMUDL: the accumulator becomes the upper half of the unsigned product.
#[verifier::inline]
pub open spec fn vmudl_spec(vs: u16, vt: u16, st: LaneState) -> LaneResult {
    let next = with_acc(st, (vs as int * vt as int) / 0x10000);
    LaneResult { vd: clamp_low(next), st: next }
}

/// VMUDM: the accumulator becomes signed `vs` times unsigned `vt`.
#[verifier::inline]
pub open spec fn vmudm_spec(vs: u16, vt: u16, st: LaneState) -> LaneResult {
    let next = with_acc(st, sx16(vs) * vt as int);
    LaneResult { vd: clamp_signed(next), st: next }
}

/// VMUDN: the accumulator becomes unsigned `vs` times signed `vt`.
#[verifier::inline]
pub open spec fn vmudn_spec(vs: u16, vt: u16, st: LaneState) -> LaneResult {
    let next = with_acc(st, vs as int * sx16(vt));
    LaneResult { vd: clamp_low(next), st: next }
}

/// VMUDH: the signed product goes to the upper 32 bits of the accumulator,
/// the low slice is cleared.
#[verifier::inline]
pub open spec fn vmudh_spec(vs: u16, vt: u16, st: LaneState) -> LaneResult {
    let next = with_acc(st, sx16(vs) * sx16(vt) * 0x10000);
    LaneResult { vd: clamp_signed(next), st: next }
}

/// VMACF: twice the signed product is added to the accumulator, without
/// rounding bias.
#[verifier::inline]
pub open spec fn vmacf_spec(vs: u16, vt: u16, st: LaneState) -> LaneResult {
    let next = with_acc(st, acc_of(st) + sx16(vs) * sx16(vt) * 2);
    LaneResult { vd: clamp_signed(next), st: next }
}

/// VMACU: the accumulator of VMACF; the result is its unsigned clamp.
#[verifier::inline]
pub open spec fn vmacu_spec(vs: u16, vt: u16, st: LaneState) -> LaneResult {
    let next = with_acc(st, acc_of(st) + sx16(vs) * sx16(vt) * 2);
    LaneResult { vd: clamp_unsigned(next), st: next }
}

/// VMADL: the upper half of the unsigned product is added to the accumulator.
#[verifier::inline]
pub open spec fn vmadl_spec(vs: u16, vt: u16, st: LaneState) -> LaneResult {
    let next = with_acc(st, acc_of(st) + (vs as int * vt as int) / 0x10000);
    LaneResult { vd: clamp_low(next), st: next }
}

/// VMADM: signed `vs` times unsigned `vt` is added to the accumulator.
#[verifier::inline]
pub open spec fn vmadm_spec(vs: u16, vt: u16, st: LaneState) -> LaneResult {
    let next = with_acc(st, acc_of(st) + sx16(vs) * vt as int);
    LaneResult { vd: clamp_signed(next), st: next }
}

/// VMADN: unsigned `vs` times signed `vt` is added to the accumulator.
#[verifier::inline]
pub open spec fn vmadn_spec(vs: u16, vt: u16, st: LaneState) -> LaneResult {
    let next = with_acc(st, acc_of(st) + vs as int * sx16(vt));
    LaneResult { vd: clamp_low(next), st: next }
}

/// VMADH: the signed product is added to the upper 32 bits of the
/// accumulator.
#[verifier::inline]
pub open spec fn vmadh_spec(vs: u16, vt: u16, st: LaneState) -> LaneResult {
    let next = with_acc(st, acc_of(st) + sx16(vs) * sx16(vt) * 0x10000);
    LaneResult { vd: clamp_signed(next), st: next }
}

pub fn vmulf(vs: u16, vt: u16, st: LaneState) -> (r: LaneResult)
    ensures
        r == vmulf_spec(vs, vt, st),
{
    let p = product(sx(vs), sx(vt));
    let next = set_acc(&st, p * 2 + 0x8000);
    LaneResult { vd: saturate_signed(&next), st: next }
}

pub fn vmulu(vs: u16, vt: u16, st: LaneState) -> (r: LaneResult)
    ensures
        r == vmulu_spec(vs, vt, st),
{
    let p = product(sx(vs), sx(vt));
    let next = set_acc(&st, p * 2 + 0x8000);
    LaneResult { vd: saturate_unsigned(&next), st: next }
}

pub fn vmudl(vs: u16, vt: u16, st: LaneState) -> (r: LaneResult)
    ensures
        r == vmudl_spec(vs, vt, st),
{
    let p = product(vs as i32, vt as i32);
    let next = set_acc(&st, ((p as u64) / 0x10000) as i64);
    LaneResult { vd: saturate_low(&next), st: next }
}

pub fn vmudm(vs: u16, vt: u16, st: LaneState) -> (r: LaneResult)
    ensures
        r == vmudm_spec(vs, vt, st),
{
    let p = product(sx(vs), vt as i32);
    let next = set_acc(&st, p);
    LaneResult { vd: saturate_signed(&next), st: next }
}

pub fn vmudn(vs: u16, vt: u16, st: LaneState) -> (r: LaneResult)
    ensures
        r == vmudn_spec(vs, vt, st),
{
    let p = product(vs as i32, sx(vt));
    let next = set_acc(&st, p);
    LaneResult { vd: saturate_low(&next), st: next }
}

pub fn vmudh(vs: u16, vt: u16, st: LaneState) -> (r: LaneResult)
    ensures
        r == vmudh_spec(vs, vt, st),
{
    let p = product(sx(vs), sx(vt));
    let next = set_acc(&st, p * 0x10000);
    LaneResult { vd: saturate_signed(&next), st: next }
}

pub fn vmacf(vs: u16, vt: u16, st: LaneState) -> (r: LaneResult)
    ensures
        r == vmacf_spec(vs, vt, st),
{
    let p = product(sx(vs), sx(vt));
    let next = set_acc(&st, acc(&st) + p * 2);
    LaneResult { vd: saturate_signed(&next), st: next }
}

pub fn vmacu(vs: u16, vt: u16, st: LaneState) -> (r: LaneResult)
    ensures
        r == vmacu_spec(vs, vt, st),
{
    let p = product(sx(vs), sx(vt));
    let next = set_acc(&st, acc(&st) + p * 2);
    LaneResult { vd: saturate_unsigned(&next), st: next }
}

pub fn vmadl(vs: u16, vt: u16, st: LaneState) -> (r: LaneResult)
    ensures
        r == vmadl_spec(vs, vt, st),
{
    let p = product(vs as i32, vt as i32);
    let next = set_acc(&st, acc(&st) + ((p as u64) / 0x10000) as i64);
    LaneResult { vd: saturate_low(&next), st: next }
}

pub fn vmadm(vs: u16, vt: u16, st: LaneState) -> (r: LaneResult)
    ensures
        r == vmadm_spec(vs, vt, st),
{
    let p = product(sx(vs), vt as i32);
    let next = set_acc(&st, acc(&st) + p);
    LaneResult { vd: saturate_signed(&next), st: next }
}

pub fn vmadn(vs: u16, vt: u16, st: LaneState) -> (r: LaneResult)
    ensures
        r == vmadn_spec(vs, vt, st),
{
    let p = product(vs as i32, sx(vt));
    let next = set_acc(&st, acc(&st) + p);
    LaneResult { vd: saturate_low(&next), st: next }
}

pub fn vmadh(vs: u16, vt: u16, st: LaneState) -> (r: LaneResult)
    ensures
        r == vmadh_spec(vs, vt, st),
{
    let p = product(sx(vs), sx(vt));
    let next = set_acc(&st, acc(&st) + p * 0x10000);
    LaneResult { vd: saturate_signed(&next), st: next }
}

} // verus!
