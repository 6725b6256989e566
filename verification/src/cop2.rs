//! The coprocessor as the scalar processor sees it: its register window, the
//! dispatch of vector and move opcodes, and the moves between scalar and
//! vector registers.

use crate::context::{bits_of, lemma_bits_of_packed, lemma_mask_bytes, SpCop2Context, VuState};
use crate::endian::{be_u128, bytes_of_u128, lemma_bytes_of_be_u128};
use crate::error::Cop2Error;
use crate::step::{
    divide_step, is_divide_op, is_lane_op, lanes_step, sar_step, sar_valid, vmov_step,
};
use crate::vectorop::{e_of, func_of, is_vector_op, rd_of, rs_of, rt_of, Vectorop};
use vstd::prelude::*;

verus! {

/// The registers of the scalar processor that the coprocessor reads and
/// writes.
#[derive(Clone, Copy, Debug)]
pub struct CpuContext {
    pub regs: [u64; 32],
}

/// The vector coprocessor.
pub struct SpCop2 {
    pub ctx: SpCop2Context,
    pub name: String,
}

impl SpCop2 {
    /// Index of VCO in the register window.
    pub const REG_VCO: usize = 32;

    /// Index of VCC in the register window.
    pub const REG_VCC: usize = 33;

    /// Index of VCE in the register window.
    pub const REG_VCE: usize = 34;

    /// Index of the low accumulator slice in the register window.
    pub const REG_ACCUM_LO: usize = 35;

    /// Index of the middle accumulator slice in the register window.
    pub const REG_ACCUM_MD: usize = 36;

    /// Index of the high accumulator slice in the register window.
    pub const REG_ACCUM_HI: usize = 37;
}

/// A 16-bit number sign-extended to 64 bits.
pub open spec fn sx64(v: int) -> u64 {
    if v >= 0x8000 {
        (0xFFFF_FFFF_FFFF_0000 + v) as u64
    } else {
        v as u64
    }
}

/// What a read of register `idx` of the window gives: a vector register or
/// an accumulator slice as one word, or a flag register as a packed number.
pub open spec fn reg_spec(s: VuState, idx: int) -> u128 {
    if idx < 32 {
        be_u128(s.vregs[idx])
    } else if idx == 32 {
        s.vco() as u128
    } else if idx == 33 {
        s.vcc() as u128
    } else if idx == 34 {
        s.vce_bits() as u128
    } else {
        be_u128(s.accum[idx - 35])
    }
}

/// The state with the carry flags taken from the low byte and the not-equal
/// flags from the high byte of the 16-bit number `v`.
pub open spec fn with_vco(s: VuState, v: int) -> VuState {
    VuState { carry: bits_of(v % 0x100), ne: bits_of(v / 0x100), ..s }
}

/// The state with the compare flags taken from the low byte and the clip
/// flags from the high byte of the 16-bit number `v`.
pub open spec fn with_vcc(s: VuState, v: int) -> VuState {
    VuState { normal: bits_of(v % 0x100), clip: bits_of(v / 0x100), ..s }
}

/// The state with the compare-extension flags taken from the 8-bit number
/// `v`.
pub open spec fn with_vce(s: VuState, v: int) -> VuState {
    VuState { vce: bits_of(v), ..s }
}

/// What a register of the window keeps of a value written to it: a flag
/// register its low 16 or 8 bits, any other register all of it.
pub open spec fn kept(idx: int, val: u128) -> u128 {
    if idx == 32 || idx == 33 {
        val % 0x1_0000
    } else if idx == 34 {
        val % 0x100
    } else {
        val
    }
}

/// The state after a write of `val` to register `idx` of the window.
pub open spec fn set_reg_spec(s: VuState, idx: int, val: u128) -> VuState {
    if idx < 32 {
        VuState { vregs: s.vregs.update(idx, bytes_of_u128(val)), ..s }
    } else if idx == 32 {
        with_vco(s, val as int % 0x1_0000)
    } else if idx == 33 {
        with_vcc(s, val as int % 0x1_0000)
    } else if idx == 34 {
        with_vce(s, val as int % 0x100)
    } else {
        VuState { accum: s.accum.update(idx - 35, bytes_of_u128(val)), ..s }
    }
}

/// The first byte that MFC2 and MTC2 touch: half of the `rd` field.
pub open spec fn move_byte(op: u32) -> int {
    rd_of(op) / 2
}

/// The scalar registers after MFC2: register `rt` gets two bytes of vector
/// register `rs`, the second one taken modulo 16, read as a big-endian
/// number and sign-extended.
pub open spec fn mfc2_regs(s: VuState, regs: Seq<u64>, op: u32) -> Seq<u64> {
    let bytes = s.vregs[rs_of(op)];
    let b = move_byte(op);
    regs.update(rt_of(op), sx64(bytes[b] as int * 0x100 + bytes[(b + 1) % 16] as int))
}

/// The scalar registers after CFC2: register `rt` gets VCO or VCC
/// sign-extended from 16 bits, or VCE.
pub open spec fn cfc2_regs(s: VuState, regs: Seq<u64>, op: u32) -> Seq<u64> {
    let v = if rs_of(op) == 0 {
        sx64(s.vco())
    } else if rs_of(op) == 1 {
        sx64(s.vcc())
    } else {
        s.vce_bits() as u64
    };
    regs.update(rt_of(op), v)
}

/// The state after MTC2: bits 8..16 of scalar register `rt` go to a byte
/// of vector register `rs`, bits 0..8 to the byte after it unless the
/// first byte is the last of the register.
pub open spec fn mtc2_step(s: VuState, regs: Seq<u64>, op: u32) -> VuState {
    let b = move_byte(op);
    let v = regs[rt_of(op)];
    let first = s.vregs[rs_of(op)].update(b, ((v / 0x100) % 0x100) as u8);
    let both = if b != 15 {
        first.update(b + 1, (v % 0x100) as u8)
    } else {
        first
    };
    VuState { vregs: s.vregs.update(rs_of(op), both), ..s }
}

/// The state after CTC2: VCO, VCC or VCE is set from the low bits of scalar
/// register `rt`.
pub open spec fn ctc2_step(s: VuState, regs: Seq<u64>, op: u32) -> VuState {
    let v = regs[rt_of(op)] as int;
    if rs_of(op) == 0 {
        with_vco(s, v % 0x1_0000)
    } else if rs_of(op) == 1 {
        with_vcc(s, v % 0x1_0000)
    } else {
        with_vce(s, v % 0x100)
    }
}

/// The error, if any, with which an opcode is refused.
///
/// Among the vector opcodes (bit 25 set) those are refused whose function
/// code names no operation, and a VSAR whose element selector names no
/// accumulator slice. Among the moves (bit 25 clear) those are refused whose
/// sub-opcode is none of 0 (MFC2), 2 (CFC2), 4 (MTC2) and 6 (CTC2), and a
/// CFC2 or CTC2 whose register field is above 2.
pub open spec fn op_error(op: u32) -> Option<Cop2Error> {
    let func = func_of(op);
    let e = e_of(op) as u32;
    let rs = rs_of(op) as u32;
    if is_vector_op(op) {
        if is_lane_op(func) || is_divide_op(func) || func == 0x33 || func == 0x37 || func == 0x3F {
            None
        } else if func == 0x1D {
            if sar_valid(e as int) {
                None
            } else {
                Some(Cop2Error::InvalidElement(e))
            }
        } else {
            Some(Cop2Error::UnknownFunction(func))
        }
    } else if e == 0 || e == 4 || ((e == 2 || e == 6) && rs <= 2) {
        None
    } else {
        Some(Cop2Error::UnknownMove(e, rs))
    }
}

/// The state of the unit and the scalar registers after an opcode that is
/// not refused.
pub open spec fn vu_step(s: VuState, regs: Seq<u64>, op: u32) -> (VuState, Seq<u64>) {
    let func = func_of(op);
    let e = e_of(op);
    if is_vector_op(op) {
        if is_lane_op(func) {
            (lanes_step(s, op), regs)
        } else if func == 0x1D {
            (sar_step(s, op), regs)
        } else if is_divide_op(func) {
            (divide_step(s, op), regs)
        } else if func == 0x33 {
            (vmov_step(s, op), regs)
        } else {
            (s, regs)
        }
    } else if e == 0 {
        (s, mfc2_regs(s, regs, op))
    } else if e == 2 {
        (s, cfc2_regs(s, regs, op))
    } else if e == 4 {
        (mtc2_step(s, regs, op), regs)
    } else {
        (ctc2_step(s, regs, op), regs)
    }
}

fn sign_extend64(v: u16) -> (r: u64)
    ensures
        r == sx64(v as int),
{
    if v >= 0x8000 {
        0xFFFF_FFFF_FFFF_0000 + v as u64
    } else {
        v as u64
    }
}

fn classify_lane_op(func: u32) -> (r: bool)
    ensures
        r == is_lane_op(func),
{
    func <= 0x01 || (0x04 <= func && func <= 0x09) || (0x0C <= func && func <= 0x11) || (0x13
        <= func && func <= 0x15) || func == 0x17 || func == 0x19 || (0x20 <= func && func <= 0x2D)
}

impl SpCop2Context {
    /// Sets VCO from the low 16 bits of a scalar.
    pub fn write_vco(&mut self, v: u16)
        requires
            old(self).wf(),
        ensures
            final(self).wf(),
            final(self)@ == with_vco(old(self)@, v as int),
    {
        self.set_vco(v);
        proof {
            lemma_mask_bytes(bits_of(v as int % 256));
            lemma_mask_bytes(bits_of(v as int / 256));
            assert(self@.vregs =~= old(self)@.vregs);
            assert(self@.accum =~= old(self)@.accum);
        }
    }

    /// Sets VCC from the low 16 bits of a scalar.
    pub fn write_vcc(&mut self, v: u16)
        requires
            old(self).wf(),
        ensures
            final(self).wf(),
            final(self)@ == with_vcc(old(self)@, v as int),
    {
        self.set_vcc(v);
        proof {
            lemma_mask_bytes(bits_of(v as int % 256));
            lemma_mask_bytes(bits_of(v as int / 256));
            assert(self@.vregs =~= old(self)@.vregs);
            assert(self@.accum =~= old(self)@.accum);
        }
    }

    /// Sets VCE from the low 8 bits of a scalar.
    pub fn write_vce(&mut self, v: u8)
        requires
            old(self).wf(),
        ensures
            final(self).wf(),
            final(self)@ == with_vce(old(self)@, v as int),
    {
        self.set_vce(v);
        proof {
            lemma_mask_bytes(bits_of(v as int));
            assert(self@.vregs =~= old(self)@.vregs);
            assert(self@.accum =~= old(self)@.accum);
        }
    }
}

impl SpCop2 {
    /// A coprocessor at reset.
    pub fn new(name: &str) -> (r: Result<SpCop2, Cop2Error>)
        ensures
            r.is_ok(),
            r.unwrap().name@ == name@,
            r.unwrap().ctx.wf(),
            r.unwrap().ctx.div_in.is_none(),
            r.unwrap().ctx.div_out == 0,
            forall|idx: int| 0 <= idx < 38 ==> #[trigger] reg_spec(r.unwrap().ctx@, idx) == 0,
    {
        let ctx = SpCop2Context::new();
        proof {
            crate::endian::lemma_zero_word();
            crate::context::lemma_pack_zero();
        }
        Ok(SpCop2 { ctx, name: name.to_owned() })
    }

    /// Reads register `idx` of the window: 0 to 31 are the vector registers,
    /// then come VCO, VCC, VCE and the three accumulator slices.
    pub fn reg(&self, idx: usize) -> (r: u128)
        requires
            idx < 38,
        ensures
            r == reg_spec(self.ctx@, idx as int),
    {
        if idx < 32 {
            self.ctx.vregs[idx].u128()
        } else if idx == Self::REG_VCO {
            self.ctx.vco() as u128
        } else if idx == Self::REG_VCC {
            self.ctx.vcc() as u128
        } else if idx == Self::REG_VCE {
            self.ctx.vce() as u128
        } else {
            self.ctx.accum[idx - 35].u128()
        }
    }

    /// Writes register `idx` of the window. A flag register takes the low
    /// bits of `val`.
    pub fn set_reg(&mut self, idx: usize, val: u128)
        requires
            idx < 38,
            old(self).ctx.wf(),
        ensures
            final(self).ctx.wf(),
            final(self).name == old(self).name,
            final(self).ctx@ == set_reg_spec(old(self).ctx@, idx as int, val),
            forall|j: int|
                0 <= j < 38 ==> #[trigger] reg_spec(final(self).ctx@, j) == if j == idx {
                    kept(idx as int, val)
                } else {
                    reg_spec(old(self).ctx@, j)
                },
    {
        if idx < 32 {
            let mut r = self.ctx.vregs[idx];
            r.setu128(val);
            self.ctx.set_vreg(idx, r);
        } else if idx == Self::REG_VCO {
            self.ctx.write_vco((val % 0x1_0000) as u16);
        } else if idx == Self::REG_VCC {
            self.ctx.write_vcc((val % 0x1_0000) as u16);
        } else if idx == Self::REG_VCE {
            self.ctx.write_vce((val % 0x100) as u8);
        } else {
            let mut r = self.ctx.accum[idx - 35];
            r.setu128(val);
            self.ctx.set_accum(idx - 35, r);
        }
        proof {
            crate::context::lemma_view_shaped(old(self).ctx);
            lemma_read_back(old(self).ctx@, idx as int, val);
        }
    }

    fn mfc2(&self, cpu: &mut CpuContext, op: u32)
        ensures
            final(cpu).regs@ == mfc2_regs(self.ctx@, old(cpu).regs@, op),
    {
        let vop = Vectorop { op };
        let b = vop.rd() / 2;
        let vs = &self.ctx.vregs[vop.rs()];
        let val: u16 = vs.byte(b) as u16 * 0x100 + vs.byte((b + 1) % 16) as u16;
        cpu.regs[vop.rt()] = sign_extend64(val);
    }

    fn cfc2(&self, cpu: &mut CpuContext, op: u32)
        requires
            rs_of(op) <= 2,
        ensures
            final(cpu).regs@ == cfc2_regs(self.ctx@, old(cpu).regs@, op),
    {
        let vop = Vectorop { op };
        let rs = vop.rs();
        proof {
            lemma_bits_of_packed(self.ctx@.carry);
            lemma_bits_of_packed(self.ctx@.ne);
            lemma_bits_of_packed(self.ctx@.normal);
            lemma_bits_of_packed(self.ctx@.clip);
        }
        let v = if rs == 0 {
            sign_extend64(self.ctx.vco())
        } else if rs == 1 {
            sign_extend64(self.ctx.vcc())
        } else {
            self.ctx.vce() as u64
        };
        cpu.regs[vop.rt()] = v;
    }

    fn mtc2(&mut self, cpu: &CpuContext, op: u32)
        ensures
            final(self).ctx@ == mtc2_step(old(self).ctx@, cpu.regs@, op),
            final(self).ctx == (SpCop2Context { vregs: final(self).ctx.vregs, ..old(self).ctx }),
            final(self).name == old(self).name,
    {
        let vop = Vectorop { op };
        let b = vop.rd() / 2;
        let v = cpu.regs[vop.rt()];
        let mut vs = self.ctx.vregs[vop.rs()];
        vs.setbyte(b, ((v / 0x100) % 0x100) as u8);
        if b != 15 {
            vs.setbyte(b + 1, (v % 0x100) as u8);
        }
        self.ctx.set_vreg(vop.rs(), vs);
    }

    fn ctc2(&mut self, cpu: &CpuContext, op: u32)
        requires
            rs_of(op) <= 2,
            old(self).ctx.wf(),
        ensures
            final(self).ctx@ == ctc2_step(old(self).ctx@, cpu.regs@, op),
            final(self).ctx.wf(),
            final(self).name == old(self).name,
    {
        let vop = Vectorop { op };
        let rs = vop.rs();
        let v = cpu.regs[vop.rt()];
        if rs == 0 {
            self.ctx.write_vco((v % 0x1_0000) as u16);
        } else if rs == 1 {
            self.ctx.write_vcc((v % 0x1_0000) as u16);
        } else {
            self.ctx.write_vce((v % 0x100) as u8);
        }
    }

    /// Executes one vector or move opcode.
    ///
    /// A refused opcode changes nothing and comes back as the error that
    /// `op_error` names. Any other opcode succeeds and leaves the state and
    /// the scalar registers as `vu_step` says. Either way every lane of
    /// every flag register stays clear or fully set.
    pub fn op(&mut self, cpu: &mut CpuContext, op: u32) -> (r: Result<(), Cop2Error>)
        requires
            old(self).ctx.wf(),
        ensures
            final(self).ctx.wf(),
            final(self).name == old(self).name,
            match op_error(op) {
                Some(err) => r == Err::<(), Cop2Error>(err) && final(self).ctx == old(self).ctx
                    && final(cpu).regs == old(cpu).regs,
                None => r.is_ok() && final(self).ctx@ == vu_step(
                    old(self).ctx@,
                    old(cpu).regs@,
                    op,
                ).0 && final(cpu).regs@ == vu_step(old(self).ctx@, old(cpu).regs@, op).1,
            },
    {
        let vop = Vectorop { op };
        let func = vop.func();
        let e = vop.e();
        let rs = vop.rs();
        if vop.is_vector() {
            if classify_lane_op(func) {
                self.ctx.lanes(op);
            } else if func == 0x1D {
                if e <= 2 || (8 <= e && e <= 10) {
                    self.ctx.sar(op);
                } else {
                    return Err(Cop2Error::InvalidElement(e as u32));
                }
            } else if 0x30 <= func && func <= 0x36 && func != 0x33 {
                self.ctx.divide(op);
            } else if func == 0x33 {
                self.ctx.vmov(op);
            } else if func == 0x37 || func == 0x3F {
            } else {
                return Err(Cop2Error::UnknownFunction(func));
            }
        } else if e == 0 {
            self.mfc2(cpu, op);
        } else if e == 2 && rs <= 2 {
            self.cfc2(cpu, op);
        } else if e == 4 {
            self.mtc2(cpu, op);
        } else if e == 6 && rs <= 2 {
            self.ctc2(cpu, op);
        } else {
            return Err(Cop2Error::UnknownMove(e as u32, rs as u32));
        }
        Ok(())
    }
}

/// Writing back to a register of the window what was read from it leaves
/// the state as it was.
pub proof fn lemma_set_reg_of_reg(s: VuState, idx: int)
    requires
        s.shaped(),
        0 <= idx < 38,
    ensures
        set_reg_spec(s, idx, reg_spec(s, idx)) == s,
{
    if idx < 32 {
        lemma_bytes_of_be_u128(s.vregs[idx]);
        assert(s.vregs.update(idx, s.vregs[idx]) =~= s.vregs);
    } else if idx >= 35 {
        lemma_bytes_of_be_u128(s.accum[idx - 35]);
        assert(s.accum.update(idx - 35, s.accum[idx - 35]) =~= s.accum);
    } else if idx == 32 {
        lemma_packed_pair(s.carry, s.ne);
    } else if idx == 33 {
        lemma_packed_pair(s.normal, s.clip);
    } else {
        lemma_bits_of_packed(s.vce);
    }
}

/// A state in which a register of the window was read and written back is
/// the state before, field for field.
pub proof fn lemma_set_reg_of_reg_exact(pre: SpCop2Context, post: SpCop2Context, idx: int)
    requires
        pre.wf(),
        post.wf(),
        0 <= idx < 38,
        post@ == set_reg_spec(pre@, idx, reg_spec(pre@, idx)),
    ensures
        post == pre,
{
    crate::context::lemma_view_shaped(pre);
    lemma_set_reg_of_reg(pre@, idx);
    crate::context::lemma_view_determines(post, pre);
}

/// After a write to a register of the window a read of that register gives
/// what the register keeps of the value, and a read of any other register
/// what it gave before.
pub proof fn lemma_read_back(s: VuState, idx: int, val: u128)
    requires
        s.shaped(),
        0 <= idx < 38,
    ensures
        forall|j: int|
            0 <= j < 38 ==> #[trigger] reg_spec(set_reg_spec(s, idx, val), j) == if j == idx {
                kept(idx, val)
            } else {
                reg_spec(s, j)
            },
{
    let t = set_reg_spec(s, idx, val);
    crate::endian::lemma_be_u128_of_bytes(val);
    if idx == 32 || idx == 33 {
        lemma_flag_read_back(s, val as int % 0x1_0000);
    } else if idx == 34 {
        lemma_flag_read_back(s, val as int % 0x100);
    }
    assert forall|j: int| 0 <= j < 38 implies #[trigger] reg_spec(t, j) == if j == idx {
        kept(idx, val)
    } else {
        reg_spec(s, j)
    } by {
    }
}

/// What was written to VCO, VCC or VCE is what a read gives back.
pub proof fn lemma_flag_read_back(s: VuState, v: int)
    requires
        0 <= v < 0x1_0000,
    ensures
        with_vco(s, v).vco() == v,
        with_vcc(s, v).vcc() == v,
        v < 0x100 ==> with_vce(s, v).vce_bits() == v,
{
    crate::context::lemma_pack_of_bits(v % 0x100);
    crate::context::lemma_pack_of_bits(v / 0x100);
    if v < 0x100 {
        crate::context::lemma_pack_of_bits(v);
    }
}

/// Two packed bytes joined into 16 bits come apart into the same flags.
proof fn lemma_packed_pair(low: Seq<bool>, high: Seq<bool>)
    requires
        low.len() == 8,
        high.len() == 8,
    ensures
        ({
            let v = crate::context::pack_bits(low) + 256 * crate::context::pack_bits(high);
            &&& 0 <= v < 0x1_0000
            &&& bits_of(v % 0x100) == low
            &&& bits_of(v / 0x100) == high
        }),
{
    lemma_bits_of_packed(low);
    lemma_bits_of_packed(high);
    let l = crate::context::pack_bits(low);
    let h = crate::context::pack_bits(high);
    assert((l + 256 * h) % 0x100 == l);
    assert((l + 256 * h) / 0x100 == h);
}

} // verus!
