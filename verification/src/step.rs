//! What one opcode does to the state of the unit, lane operations first.

use crate::alu::{
    vabs, vabs_spec, vadd, vadd_spec, vaddc, vaddc_spec, vand, vand_spec, veq, veq_spec, vge,
    vge_spec, vlt, vlt_spec, vmrg, vmrg_spec, vnand, vnand_spec, vne, vne_spec, vnor, vnor_spec,
    vnxor, vnxor_spec, vor, vor_spec, vsub, vsub_spec, vsubb, vsubb_spec, vsubc, vsubc_spec, vxor,
    vxor_spec,
};
use crate::context::{mask_lane, SpCop2Context, VuState};
use crate::lane::{mask, LaneResult, LaneState};
use crate::vclip::{vch, vch_spec, vcl, vcl_spec, vcr, vcr_spec};
use crate::vectorop::{e_of, func_of, rd_of, rs_of, rt_of, vte_bytes, vte_source, Vectorop};
use crate::vmul::{
    vmacf, vmacf_spec, vmacu, vmacu_spec, vmadh, vmadh_spec, vmadl, vmadl_spec, vmadm, vmadm_spec,
    vmadn, vmadn_spec, vmudh, vmudh_spec, vmudl, vmudl_spec, vmudm, vmudm_spec, vmudn, vmudn_spec,
    vmulf, vmulf_spec, vmulu, vmulu_spec,
};
use crate::vrcp::{sign_extend, sx32, vrcp, vrcp_spec, vrsq, vrsq_spec};
use crate::vreg::{bytes_of_lanes, lane_of, lemma_reg_from_lanes, with_lane, VectorReg};
use vstd::prelude::*;

verus! {

/// The function codes of the operations that work lane by lane: the twelve
/// multiplies, the adds and subtracts, the compares, the clips, the merge
/// and the logic operations.
pub open spec fn is_lane_op(func: u32) -> bool {
    ||| func <= 0x01
    ||| 0x04 <= func <= 0x09
    ||| 0x0C <= func <= 0x11
    ||| 0x13 <= func <= 0x15
    ||| func == 0x17
    ||| func == 0x19
    ||| 0x20 <= func <= 0x2D
}

/// What the lane operation with function code `func` does to one lane.
pub open spec fn lane_op_spec(func: u32, vs: u16, vt: u16, st: LaneState) -> LaneResult {
    if func == 0x00 {
        vmulf_spec(vs, vt, st)
    } else if func == 0x01 {
        vmulu_spec(vs, vt, st)
    } else if func == 0x04 {
        vmudl_spec(vs, vt, st)
    } else if func == 0x05 {
        vmudm_spec(vs, vt, st)
    } else if func == 0x06 {
        vmudn_spec(vs, vt, st)
    } else if func == 0x07 {
        vmudh_spec(vs, vt, st)
    } else if func == 0x08 {
        vmacf_spec(vs, vt, st)
    } else if func == 0x09 {
        vmacu_spec(vs, vt, st)
    } else if func == 0x0C {
        vmadl_spec(vs, vt, st)
    } else if func == 0x0D {
        vmadm_spec(vs, vt, st)
    } else if func == 0x0E {
        vmadn_spec(vs, vt, st)
    } else if func == 0x0F {
        vmadh_spec(vs, vt, st)
    } else if func == 0x10 {
        vadd_spec(vs, vt, st)
    } else if func == 0x11 {
        vsub_spec(vs, vt, st)
    } else if func == 0x13 {
        vabs_spec(vs, vt, st)
    } else if func == 0x14 {
        vaddc_spec(vs, vt, st)
    } else if func == 0x15 {
        vsubc_spec(vs, vt, st)
    } else if func == 0x17 || func == 0x19 {
        vsubb_spec(vs, vt, st)
    } else if func == 0x20 {
        vlt_spec(vs, vt, st)
    } else if func == 0x21 {
        veq_spec(vs, vt, st)
    } else if func == 0x22 {
        vne_spec(vs, vt, st)
    } else if func == 0x23 {
        vge_spec(vs, vt, st)
    } else if func == 0x24 {
        vcl_spec(vs, vt, st)
    } else if func == 0x25 {
        vch_spec(vs, vt, st)
    } else if func == 0x26 {
        vcr_spec(vs, vt, st)
    } else if func == 0x27 {
        vmrg_spec(vs, vt, st)
    } else if func == 0x28 {
        vand_spec(vs, vt, st)
    } else if func == 0x29 {
        vnand_spec(vs, vt, st)
    } else if func == 0x2A {
        vor_spec(vs, vt, st)
    } else if func == 0x2B {
        vnor_spec(vs, vt, st)
    } else if func == 0x2C {
        vxor_spec(vs, vt, st)
    } else {
        vnxor_spec(vs, vt, st)
    }
}

/// Runs the lane operation with function code `func` on one lane.
pub fn lane_op(func: u32, vs: u16, vt: u16, st: LaneState) -> (r: LaneResult)
    requires
        is_lane_op(func),
    ensures
        r == lane_op_spec(func, vs, vt, st),
{
    match func {
        0x00 => vmulf(vs, vt, st),
        0x01 => vmulu(vs, vt, st),
        0x04 => vmudl(vs, vt, st),
        0x05 => vmudm(vs, vt, st),
        0x06 => vmudn(vs, vt, st),
        0x07 => vmudh(vs, vt, st),
        0x08 => vmacf(vs, vt, st),
        0x09 => vmacu(vs, vt, st),
        0x0C => vmadl(vs, vt, st),
        0x0D => vmadm(vs, vt, st),
        0x0E => vmadn(vs, vt, st),
        0x0F => vmadh(vs, vt, st),
        0x10 => vadd(vs, vt, st),
        0x11 => vsub(vs, vt, st),
        0x13 => vabs(vs, vt, st),
        0x14 => vaddc(vs, vt, st),
        0x15 => vsubc(vs, vt, st),
        0x17 => vsubb(vs, vt, st),
        0x19 => vsubb(vs, vt, st),
        0x20 => vlt(vs, vt, st),
        0x21 => veq(vs, vt, st),
        0x22 => vne(vs, vt, st),
        0x23 => vge(vs, vt, st),
        0x24 => vcl(vs, vt, st),
        0x25 => vch(vs, vt, st),
        0x26 => vcr(vs, vt, st),
        0x27 => vmrg(vs, vt, st),
        0x28 => vand(vs, vt, st),
        0x29 => vnand(vs, vt, st),
        0x2A => vor(vs, vt, st),
        0x2B => vnor(vs, vt, st),
        0x2C => vxor(vs, vt, st),
        _ => vnxor(vs, vt, st),
    }
}

/// What lane `i` holds besides its operands.
pub open spec fn lane_state(s: VuState, i: int) -> LaneState {
    LaneState {
        lo: lane_of(s.accum[0], i),
        md: lane_of(s.accum[1], i),
        hi: lane_of(s.accum[2], i),
        carry: s.carry[i],
        ne: s.ne[i],
        normal: s.normal[i],
        clip: s.clip[i],
        vce: s.vce[i],
    }
}

/// What the lane operation `op` produces in lane `i`: the first operand is
/// register `rs`, the second is register `rt` rearranged by the element
/// selector.
pub open spec fn lane_result(s: VuState, op: u32, i: int) -> LaneResult {
    lane_op_spec(
        func_of(op),
        lane_of(s.vregs[rs_of(op)], i),
        lane_of(vte_bytes(s.vregs[rt_of(op)], e_of(op)), i),
        lane_state(s, i),
    )
}

/// The state after the lane operation `op`: every lane of the destination,
/// of the accumulator and of the flag registers is what the operation
/// leaves in that lane.
pub open spec fn lanes_step(s: VuState, op: u32) -> VuState {
    VuState {
        vregs: s.vregs.update(
            rd_of(op),
            bytes_of_lanes(Seq::new(8, |i: int| lane_result(s, op, i).vd)),
        ),
        accum: seq![
            bytes_of_lanes(Seq::new(8, |i: int| lane_result(s, op, i).st.lo)),
            bytes_of_lanes(Seq::new(8, |i: int| lane_result(s, op, i).st.md)),
            bytes_of_lanes(Seq::new(8, |i: int| lane_result(s, op, i).st.hi)),
        ],
        carry: Seq::new(8, |i: int| lane_result(s, op, i).st.carry),
        ne: Seq::new(8, |i: int| lane_result(s, op, i).st.ne),
        vce: Seq::new(8, |i: int| lane_result(s, op, i).st.vce),
        normal: Seq::new(8, |i: int| lane_result(s, op, i).st.normal),
        clip: Seq::new(8, |i: int| lane_result(s, op, i).st.clip),
        div_in: s.div_in,
        div_out: s.div_out,
    }
}

/// Sixteen zero bytes.
pub open spec fn zero_bytes() -> Seq<u8> {
    Seq::new(16, |i: int| 0u8)
}

/// The element selectors that VSAR accepts.
pub open spec fn sar_valid(e: int) -> bool {
    e <= 2 || 8 <= e <= 10
}

/// The state after VSAR: the destination is cleared for selectors 0 to 2,
/// and gets the high, middle or low accumulator slice for selectors 8, 9
/// and 10. The accumulator is only read.
pub open spec fn sar_step(s: VuState, op: u32) -> VuState {
    let e = e_of(op);
    VuState {
        vregs: s.vregs.update(
            rd_of(op),
            if e <= 2 {
                zero_bytes()
            } else {
                s.accum[10 - e]
            },
        ),
        ..s
    }
}

/// The lane that an operation on a single lane reads: lane `e mod 8` of
/// register `rt`.
pub open spec fn scalar_source(s: VuState, op: u32) -> u16 {
    lane_of(s.vregs[rt_of(op)], e_of(op) % 8)
}

/// What an operation on a single lane leaves: `val` in lane `rs mod 8` of
/// the destination, and then register `rt`, as it is after that write, in
/// the low accumulator slice.
pub open spec fn scalar_store(s: VuState, op: u32, val: u16) -> VuState {
    let vregs = s.vregs.update(
        rd_of(op),
        with_lane(s.vregs[rd_of(op)], rs_of(op) % 8, val),
    );
    VuState { vregs, accum: s.accum.update(0, vregs[rt_of(op)]), ..s }
}

/// The function codes of the reciprocal unit: VRCP, VRCPL, VRCPH, VRSQ,
/// VRSQL and VRSQH.
pub open spec fn is_divide_op(func: u32) -> bool {
    0x30 <= func <= 0x36 && func != 0x33
}

/// VRCPH and VRSQH, which latch the high half of an argument.
pub open spec fn is_divide_high(func: u32) -> bool {
    func == 0x32 || func == 0x36
}

/// VRCPL and VRSQL, which use up a latched high half.
pub open spec fn is_divide_low(func: u32) -> bool {
    func == 0x31 || func == 0x35
}

/// The argument of a reciprocal or inverse square root: the source lane
/// sign-extended, or, for VRCPL and VRSQL with a high half pending, that
/// high half joined with the source lane.
pub open spec fn divide_argument(s: VuState, op: u32) -> u32 {
    let x = scalar_source(s, op);
    if is_divide_low(func_of(op)) && s.div_in.is_some() {
        (x as u32) | s.div_in.unwrap()
    } else {
        sx32(x)
    }
}

/// The result of a reciprocal (VRCP, VRCPL) or inverse square root (VRSQ,
/// VRSQL).
pub open spec fn divide_result(s: VuState, op: u32) -> u32 {
    if func_of(op) < 0x34 {
        vrcp_spec(divide_argument(s, op))
    } else {
        vrsq_spec(divide_argument(s, op))
    }
}

/// The state after an operation of the reciprocal unit.
///
/// VRCPH and VRSQH write the high half of the last result and latch the
/// source lane as the high half of the next argument. The others write the
/// low half of the new result and keep the whole of it; VRCPL and VRSQL
/// also clear the latch.
pub open spec fn divide_step(s: VuState, op: u32) -> VuState {
    let func = func_of(op);
    if is_divide_high(func) {
        VuState {
            div_in: Some((scalar_source(s, op) as u32 * 0x10000) as u32),
            ..scalar_store(s, op, (s.div_out / 0x10000) as u16)
        }
    } else {
        let res = divide_result(s, op);
        VuState {
            div_out: res,
            div_in: if is_divide_low(func) {
                None
            } else {
                s.div_in
            },
            ..scalar_store(s, op, (res % 0x10000) as u16)
        }
    }
}

/// The state after VMOV: the lane of `rt` that lane `rs mod 8` sees under
/// the element selector goes to that lane of the destination.
pub open spec fn vmov_step(s: VuState, op: u32) -> VuState {
    scalar_store(s, op, lane_of(s.vregs[rt_of(op)], vte_source(e_of(op), rs_of(op) % 8)))
}

impl SpCop2Context {
    /// Runs a lane operation on all eight lanes.
    pub fn lanes(&mut self, op: u32)
        requires
            is_lane_op(func_of(op)),
        ensures
            final(self).wf(),
            final(self)@ == lanes_step(old(self)@, op),
    {
        let vop = Vectorop { op };
        let func = vop.func();
        let rd = vop.rd();
        let vs = self.vregs[vop.rs()];
        let vt = vop.vte(&self.vregs[vop.rt()]);
        let ghost s = self@;
        let mut vd = VectorReg::default();
        let mut lo = VectorReg::default();
        let mut md = VectorReg::default();
        let mut hi = VectorReg::default();
        let mut carry = VectorReg::default();
        let mut ne = VectorReg::default();
        let mut vce = VectorReg::default();
        let mut normal = VectorReg::default();
        let mut clip = VectorReg::default();
        for i in 0..8usize
            invariant
                *self == *old(self),
                s == old(self)@,
                func == func_of(op),
                is_lane_op(func),
                vs@ == s.vregs[rs_of(op)],
                vt@ == vte_bytes(s.vregs[rt_of(op)], e_of(op)),
                vd@.len() == 16,
                lo@.len() == 16,
                md@.len() == 16,
                hi@.len() == 16,
                carry@.len() == 16,
                ne@.len() == 16,
                vce@.len() == 16,
                normal@.len() == 16,
                clip@.len() == 16,
                forall|j: int| 0 <= j < i ==> #[trigger] lane_of(vd@, j) == lane_result(s, op, j).vd,
                forall|j: int|
                    0 <= j < i ==> #[trigger] lane_of(lo@, j) == lane_result(s, op, j).st.lo,
                forall|j: int|
                    0 <= j < i ==> #[trigger] lane_of(md@, j) == lane_result(s, op, j).st.md,
                forall|j: int|
                    0 <= j < i ==> #[trigger] lane_of(hi@, j) == lane_result(s, op, j).st.hi,
                forall|j: int|
                    0 <= j < i ==> #[trigger] lane_of(carry@, j) == mask_lane(
                        lane_result(s, op, j).st.carry,
                    ),
                forall|j: int|
                    0 <= j < i ==> #[trigger] lane_of(ne@, j) == mask_lane(
                        lane_result(s, op, j).st.ne,
                    ),
                forall|j: int|
                    0 <= j < i ==> #[trigger] lane_of(vce@, j) == mask_lane(
                        lane_result(s, op, j).st.vce,
                    ),
                forall|j: int|
                    0 <= j < i ==> #[trigger] lane_of(normal@, j) == mask_lane(
                        lane_result(s, op, j).st.normal,
                    ),
                forall|j: int|
                    0 <= j < i ==> #[trigger] lane_of(clip@, j) == mask_lane(
                        lane_result(s, op, j).st.clip,
                    ),
        {
            let st = LaneState {
                lo: self.accum[0].lane(i),
                md: self.accum[1].lane(i),
                hi: self.accum[2].lane(i),
                carry: self.vco_carry.lane(i) % 2 == 1,
                ne: self.vco_ne.lane(i) % 2 == 1,
                normal: self.vcc_normal.lane(i) % 2 == 1,
                clip: self.vcc_clip.lane(i) % 2 == 1,
                vce: self.vce.lane(i) % 2 == 1,
            };
            assert(st == lane_state(s, i as int));
            let r = lane_op(func, vs.lane(i), vt.lane(i), st);
            assert(r == lane_result(s, op, i as int));
            vd.setlane(i, r.vd);
            lo.setlane(i, r.st.lo);
            md.setlane(i, r.st.md);
            hi.setlane(i, r.st.hi);
            carry.setlane(i, mask(r.st.carry));
            ne.setlane(i, mask(r.st.ne));
            vce.setlane(i, mask(r.st.vce));
            normal.setlane(i, mask(r.st.normal));
            clip.setlane(i, mask(r.st.clip));
        }
        self.vregs[rd] = vd;
        self.accum[0] = lo;
        self.accum[1] = md;
        self.accum[2] = hi;
        self.vco_carry = carry;
        self.vco_ne = ne;
        self.vce = vce;
        self.vcc_normal = normal;
        self.vcc_clip = clip;
        proof {
            let t = lanes_step(s, op);
            lemma_reg_from_lanes(vd@, Seq::new(8, |i: int| lane_result(s, op, i).vd));
            lemma_reg_from_lanes(lo@, Seq::new(8, |i: int| lane_result(s, op, i).st.lo));
            lemma_reg_from_lanes(md@, Seq::new(8, |i: int| lane_result(s, op, i).st.md));
            lemma_reg_from_lanes(hi@, Seq::new(8, |i: int| lane_result(s, op, i).st.hi));
            assert(self@.vregs =~= t.vregs);
            assert(self@.accum =~= t.accum);
            assert(self@.carry =~= t.carry);
            assert(self@.ne =~= t.ne);
            assert(self@.vce =~= t.vce);
            assert(self@.normal =~= t.normal);
            assert(self@.clip =~= t.clip);
        }
    }

    /// Replaces vector register `idx`.
    pub fn set_vreg(&mut self, idx: usize, r: VectorReg)
        requires
            idx < 32,
        ensures
            final(self)@ == (VuState { vregs: old(self)@.vregs.update(idx as int, r@), ..old(self)@ }),
            *final(self) == (SpCop2Context { vregs: final(self).vregs, ..*old(self) }),
            final(self).vregs@ == old(self).vregs@.update(idx as int, r),
            final(self).wf() == old(self).wf(),
    {
        self.vregs[idx] = r;
        assert(self@.vregs =~= old(self)@.vregs.update(idx as int, r@));
        assert(self@.accum =~= old(self)@.accum);
    }

    /// Replaces accumulator slice `idx`.
    pub fn set_accum(&mut self, idx: usize, r: VectorReg)
        requires
            idx < 3,
        ensures
            final(self)@ == (VuState { accum: old(self)@.accum.update(idx as int, r@), ..old(self)@ }),
            *final(self) == (SpCop2Context { accum: final(self).accum, ..*old(self) }),
            final(self).accum@ == old(self).accum@.update(idx as int, r),
            final(self).wf() == old(self).wf(),
    {
        self.accum[idx] = r;
        assert(self@.accum =~= old(self)@.accum.update(idx as int, r@));
        assert(self@.vregs =~= old(self)@.vregs);
    }

    /// VSAR: copies an accumulator slice, or zero, to the destination.
    pub fn sar(&mut self, op: u32)
        requires
            sar_valid(e_of(op)),
        ensures
            final(self)@ == sar_step(old(self)@, op),
            *final(self) == (SpCop2Context { vregs: final(self).vregs, ..*old(self) }),
    {
        let vop = Vectorop { op };
        let e = vop.e();
        let vd = if e <= 2 {
            VectorReg::default()
        } else {
            self.accum[10 - e]
        };
        self.set_vreg(vop.rd(), vd);
    }

    fn scalar_write(&mut self, op: u32, val: u16)
        ensures
            final(self)@ == scalar_store(old(self)@, op, val),
            *final(self) == (SpCop2Context {
                vregs: final(self).vregs,
                accum: final(self).accum,
                ..*old(self)
            }),
    {
        let vop = Vectorop { op };
        let mut vd = self.vregs[vop.rd()];
        vd.setlane(vop.rs() % 8, val);
        self.set_vreg(vop.rd(), vd);
        let vt = self.vregs[vop.rt()];
        self.set_accum(0, vt);
    }

    /// Runs VRCP, VRCPL, VRCPH, VRSQ, VRSQL or VRSQH.
    pub fn divide(&mut self, op: u32)
        requires
            is_divide_op(func_of(op)),
        ensures
            final(self)@ == divide_step(old(self)@, op),
            final(self).same_flags(*old(self)),
    {
        let vop = Vectorop { op };
        let func = vop.func();
        let x = self.vregs[vop.rt()].lane(vop.e() % 8);
        if func == 0x32 || func == 0x36 {
            let high = (self.div_out / 0x10000) as u16;
            self.scalar_write(op, high);
            self.div_in = Some(x as u32 * 0x10000);
        } else {
            let low = func == 0x31 || func == 0x35;
            let arg = match self.div_in {
                Some(d) if low => (x as u32) | d,
                _ => sign_extend(x),
            };
            let res = if func < 0x34 {
                vrcp(arg)
            } else {
                vrsq(arg)
            };
            self.scalar_write(op, (res % 0x10000) as u16);
            self.div_out = res;
            if low {
                self.div_in = None;
            }
        }
    }

    /// Runs VMOV.
    pub fn vmov(&mut self, op: u32)
        ensures
            final(self)@ == vmov_step(old(self)@, op),
            *final(self) == (SpCop2Context {
                vregs: final(self).vregs,
                accum: final(self).accum,
                ..*old(self)
            }),
    {
        let vop = Vectorop { op };
        let lane = vop.rs() % 8;
        let se = vop.source_lane(lane);
        let vt = self.vregs[vop.rt()];
        assert(vt@ == self@.vregs[rt_of(op)]);
        let res = vt.lane(se);
        self.scalar_write(op, res);
    }
}

/// VADDC into a register and then VSUBC of the same second operand from
/// that register give the first operand back, provided the register that
/// holds the sum is not the one that holds the second operand.
pub proof fn lemma_vaddc_then_vsubc(s: VuState, add: u32, sub: u32)
    requires
        s.shaped(),
        func_of(add) == 0x14,
        func_of(sub) == 0x15,
        rs_of(sub) == rd_of(add),
        rt_of(sub) == rt_of(add),
        e_of(sub) == e_of(add),
        rd_of(add) != rt_of(add),
    ensures
        lanes_step(lanes_step(s, add), sub).vregs[rd_of(sub)] == s.vregs[rs_of(add)],
{
    let mid = lanes_step(s, add);
    let end = lanes_step(mid, sub);
    let sum = Seq::new(8, |i: int| lane_result(s, add, i).vd);
    let vt = vte_bytes(s.vregs[rt_of(add)], e_of(add));
    crate::vreg::lemma_lanes_of_built(sum);
    assert(mid.vregs[rd_of(add)] == bytes_of_lanes(sum));
    assert(mid.vregs[rt_of(add)] == s.vregs[rt_of(add)]);
    let back = Seq::new(8, |i: int| lane_result(mid, sub, i).vd);
    assert forall|i: int| 0 <= i < 8 implies back[i] == lane_of(s.vregs[rs_of(add)], i) by {
        assert(crate::vreg::lanes_of(bytes_of_lanes(sum))[i] == sum[i]);
        crate::alu::lemma_vaddc_vsubc(
            lane_of(s.vregs[rs_of(add)], i),
            lane_of(vt, i),
            lane_state(s, i),
        );
    }
    assert(back =~= crate::vreg::lanes_of(s.vregs[rs_of(add)]));
    crate::vreg::lemma_bytes_of_own_lanes(s.vregs[rs_of(add)]);
}

/// After VEQ on a state whose not-equal flags are clear, the compare flag
/// of a lane is set exactly where the operands are equal in that lane, and
/// every clip flag is clear.
pub proof fn lemma_veq_sets_vcc(s: VuState, op: u32, i: int)
    requires
        func_of(op) == 0x21,
        0 <= i < 8,
        !s.ne[i],
    ensures
        lanes_step(s, op).normal[i] == (lane_of(s.vregs[rs_of(op)], i) == lane_of(
            vte_bytes(s.vregs[rt_of(op)], e_of(op)),
            i,
        )),
        !lanes_step(s, op).clip[i],
{
}

/// VRCPH and then VRCPL compute the reciprocal of the 32-bit number whose
/// high half is the lane that VRCPH read and whose low half is the lane
/// that VRCPL read, and leave no high half pending.
pub proof fn lemma_double_precision(s: VuState, high: u32, low: u32)
    requires
        func_of(high) == 0x32,
        func_of(low) == 0x31,
    ensures
        ({
            let mid = divide_step(s, high);
            let end = divide_step(mid, low);
            let x = scalar_source(s, high);
            let y = scalar_source(mid, low);
            &&& end.div_out == vrcp_spec((y as u32) | ((x as u32 * 0x10000) as u32))
            &&& end.div_in.is_none()
        }),
{
}

} // verus!
