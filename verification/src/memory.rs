//! The dispatch of vector loads and stores.

use crate::context::{two_to, SpCop2Context, VuState};
use crate::cop2::{CpuContext, SpCop2};
use crate::error::Cop2Error;
use crate::transfer::{
    address, effective_address, ls_base, ls_element, ls_offset, ls_opcode, ls_vt, mirrored,
    DMEM_LEN,
};
use crate::vload::{
    lfv, lfv_bytes, load_packed, lqv, lqv_bytes, lrv, lrv_bytes, ltv_byte, ltv_lane, ltv_vregs,
    lxv, lxv_bytes, packed_bytes, transposed_lane,
};
use crate::vreg::lane_of;
use crate::vstore::{
    packed_mem, sfv, sfv_mem, shv, shv_mem, sqv, sqv_mem, srv, srv_mem, store_packed, stv, stv_mem,
    stv_word, swv, swv_mem, sxv, sxv_mem,
};
use vstd::prelude::*;

verus! {

/// The error with which a vector load is refused: sub-opcode 10 and those
/// above 11 are not implemented.
pub open spec fn lwc_error(op: u32) -> Option<Cop2Error> {
    let o = ls_opcode(op);
    if o <= 9 || o == 11 {
        None
    } else {
        Some(Cop2Error::UnimplementedTransfer(o))
    }
}

/// The error with which a vector store is refused: the sub-opcodes above
/// 11 are not implemented.
pub open spec fn swc_error(op: u32) -> Option<Cop2Error> {
    let o = ls_opcode(op);
    if o <= 11 {
        None
    } else {
        Some(Cop2Error::UnimplementedTransfer(o))
    }
}

/// The vector registers after a load that is not refused, by sub-opcode:
/// 0 to 3 are LBV, LSV, LLV and LDV, then come LQV, LRV, LPV, LUV, LHV and
/// LFV, and 11 is LTV. The offset counts units of 1, 2, 4 and 8 bytes for
/// the first four, of 8 bytes for LPV and LUV, and of 16 bytes for the
/// others.
pub open spec fn load_vregs(vregs: Seq<Seq<u8>>, regs: Seq<u64>, mem: Seq<u8>, op: u32) -> Seq<
    Seq<u8>,
> {
    let base = ls_base(op, regs);
    let offset = ls_offset(op);
    let vt = ls_vt(op);
    let e = ls_element(op) as int;
    let o = ls_opcode(op);
    if o <= 3 {
        vregs.update(
            vt,
            lxv_bytes(vregs[vt], mem, address(base, offset, two_to(o as int)), e, two_to(o as int)),
        )
    } else if o == 4 {
        vregs.update(vt, lqv_bytes(vregs[vt], mem, address(base, offset, 16), e))
    } else if o == 5 {
        vregs.update(vt, lrv_bytes(vregs[vt], mem, address(base, offset, 16), e))
    } else if o == 6 {
        vregs.update(vt, packed_bytes(mem, address(base, offset, 8), e, 1, 256))
    } else if o == 7 {
        vregs.update(vt, packed_bytes(mem, address(base, offset, 8), e, 1, 128))
    } else if o == 8 {
        vregs.update(vt, packed_bytes(mem, address(base, offset, 16), e, 2, 128))
    } else if o == 9 {
        vregs.update(vt, lfv_bytes(vregs[vt], mem, address(base, offset, 16), e))
    } else {
        ltv_vregs(vregs, mem, address(base, offset, 16), vt, e)
    }
}

/// The scratchpad slice after a load that is not refused: LBV, LSV, LLV
/// and LDV bring the mirror up to date where their bytes straddle the end
/// of the scratchpad; nothing else changes.
pub open spec fn load_mem(mem: Seq<u8>, regs: Seq<u64>, op: u32) -> Seq<u8> {
    let o = ls_opcode(op);
    if o <= 3 && address(ls_base(op, regs), ls_offset(op), two_to(o as int)) + two_to(o as int)
        > 0x1000 {
        mirrored(mem)
    } else {
        mem
    }
}

/// The scratchpad slice after a store that is not refused, by sub-opcode:
/// 0 to 3 are SBV, SSV, SLV and SDV, then come SQV, SRV, SPV, SUV, SHV,
/// SFV, SWV and STV. The offset counts the same units as for the loads.
pub open spec fn store_mem(mem: Seq<u8>, vregs: Seq<Seq<u8>>, regs: Seq<u64>, op: u32) -> Seq<u8> {
    let base = ls_base(op, regs);
    let offset = ls_offset(op);
    let vt = ls_vt(op);
    let e = ls_element(op) as int;
    let o = ls_opcode(op);
    if o <= 3 {
        sxv_mem(mem, vregs[vt], address(base, offset, two_to(o as int)), e, two_to(o as int))
    } else if o == 4 {
        sqv_mem(mem, vregs[vt], address(base, offset, 16), e)
    } else if o == 5 {
        srv_mem(mem, vregs[vt], address(base, offset, 16), e)
    } else if o == 6 {
        packed_mem(mem, vregs[vt], address(base, offset, 8), e, true)
    } else if o == 7 {
        packed_mem(mem, vregs[vt], address(base, offset, 8), e, false)
    } else if o == 8 {
        shv_mem(mem, vregs[vt], address(base, offset, 16), e)
    } else if o == 9 {
        sfv_mem(mem, vregs[vt], address(base, offset, 16), e)
    } else if o == 10 {
        swv_mem(mem, vregs[vt], address(base, offset, 16), e)
    } else {
        stv_mem(mem, vregs, address(base, offset, 16), vt, e)
    }
}

impl SpCop2 {
    /// Executes one vector load on a scratchpad slice of 4 KiB and its
    /// sixteen mirror bytes.
    ///
    /// A refused opcode changes nothing. Any other load succeeds, leaves
    /// the vector registers as `load_vregs` says and the slice as
    /// `load_mem` says, and touches nothing else: the accumulator, the flag
    /// registers and the latches stay as they were, bit for bit.
    pub fn lwc(&mut self, op: u32, cpu: &CpuContext, dmem: &mut [u8]) -> (r: Result<(), Cop2Error>)
        requires
            old(dmem)@.len() == DMEM_LEN,
        ensures
            final(self).ctx == (SpCop2Context { vregs: final(self).ctx.vregs, ..old(self).ctx }),
            final(self).name == old(self).name,
            match lwc_error(op) {
                Some(err) => r == Err::<(), Cop2Error>(err) && final(self).ctx == old(self).ctx
                    && final(dmem)@ == old(dmem)@,
                None => r.is_ok() && final(self).ctx@ == (VuState {
                    vregs: load_vregs(old(self).ctx@.vregs, cpu.regs@, old(dmem)@, op),
                    ..old(self).ctx@
                }) && final(dmem)@ == load_mem(old(dmem)@, cpu.regs@, op),
            },
    {
        let (base, vtidx, opcode, element, offset) = SpCop2::oploadstore(op, cpu);
        let element = element as usize;
        if opcode == 11 {
            self.ctx.ltv(vtidx, element, dmem, base, offset);
            return Ok(());
        }
        if opcode > 9 {
            return Err(Cop2Error::UnimplementedTransfer(opcode));
        }
        let mut vt = self.ctx.vregs[vtidx];
        if opcode <= 3 {
            lxv(&mut vt, element, dmem, base, offset, opcode);
        } else if opcode == 4 {
            lqv(&mut vt, element, dmem, base, offset);
        } else if opcode == 5 {
            lrv(&mut vt, element, dmem, base, offset);
        } else if opcode == 6 {
            load_packed(&mut vt, element, dmem, effective_address(base, offset, 3), 1, 256);
        } else if opcode == 7 {
            load_packed(&mut vt, element, dmem, effective_address(base, offset, 3), 1, 128);
        } else if opcode == 8 {
            load_packed(&mut vt, element, dmem, effective_address(base, offset, 4), 2, 128);
        } else {
            lfv(&mut vt, element, dmem, base, offset);
        }
        self.ctx.set_vreg(vtidx, vt);
        Ok(())
    }

    /// Executes one vector store on a scratchpad slice of 4 KiB and its
    /// sixteen mirror bytes.
    ///
    /// A refused opcode changes nothing. Any other store succeeds and
    /// leaves the slice as `store_mem` says. Addresses wrap at 4 KiB; the
    /// mirror bytes are never written.
    pub fn swc(&self, op: u32, cpu: &CpuContext, dmem: &mut [u8]) -> (r: Result<(), Cop2Error>)
        requires
            old(dmem)@.len() == DMEM_LEN,
        ensures
            match swc_error(op) {
                Some(err) => r == Err::<(), Cop2Error>(err) && final(dmem)@ == old(dmem)@,
                None => r.is_ok() && final(dmem)@ == store_mem(
                    old(dmem)@,
                    self.ctx@.vregs,
                    cpu.regs@,
                    op,
                ),
            },
    {
        let (base, vtidx, opcode, element, offset) = SpCop2::oploadstore(op, cpu);
        let element = element as usize;
        let vt = &self.ctx.vregs[vtidx];
        if opcode <= 3 {
            sxv(dmem, base, offset, vt, element, opcode);
        } else if opcode == 4 {
            sqv(dmem, base, offset, vt, element);
        } else if opcode == 5 {
            srv(dmem, base, offset, vt, element);
        } else if opcode == 6 {
            store_packed(dmem, base, offset, vt, element, true);
        } else if opcode == 7 {
            store_packed(dmem, base, offset, vt, element, false);
        } else if opcode == 8 {
            shv(dmem, base, offset, vt, element);
        } else if opcode == 9 {
            sfv(dmem, base, offset, vt, element);
        } else if opcode == 10 {
            swv(dmem, base, offset, vt, element);
        } else if opcode == 11 {
            stv(dmem, base, offset, &self.ctx.vregs, vtidx, element);
            assert(self.ctx@.vregs =~= Seq::new(32, |r: int| self.ctx.vregs@[r]@));
        } else {
            return Err(Cop2Error::UnimplementedTransfer(opcode));
        }
        Ok(())
    }
}

/// What SBV, SSV, SLV or SDV stored, the load of the same size at the same
/// address and element brings back: the register is as it was.
pub proof fn lemma_store_then_load(mem: Seq<u8>, reg: Seq<u8>, ea: int, element: int, n: int)
    requires
        mem.len() == 0x1010,
        reg.len() == 16,
        0 <= ea < 0x1000,
        0 <= element < 16,
        1 <= n <= 8,
    ensures
        lxv_bytes(reg, sxv_mem(mem, reg, ea, element, n), ea, element, n) == reg,
{
    let after = sxv_mem(mem, reg, ea, element, n);
    assert forall|i: int| 0 <= i < 16 implies lxv_bytes(reg, after, ea, element, n)[i]
        == reg[i] by {
        let p = (i + 16 - element) % 16;
        if p < n {
            let a = (ea + p) % 0x1000;
            crate::vstore::lemma_offset(ea, a, p);
            assert(after[a] == crate::vstore::turned_bytes(reg, element)[p]);
            assert((element + p) % 16 == i);
        }
    }
    assert(lxv_bytes(reg, after, ea, element, n) =~= reg);
}

/// At a 16-byte boundary and with element 0, LQV and SQV undo each other:
/// storing what was loaded leaves the scratchpad as it was, and loading
/// what was stored gives the register back.
pub proof fn lemma_lqv_sqv(mem: Seq<u8>, reg: Seq<u8>, ea: int)
    requires
        mem.len() == 0x1010,
        reg.len() == 16,
        0 <= ea < 0x1000,
        ea % 16 == 0,
    ensures
        sqv_mem(mem, lqv_bytes(reg, mem, ea, 0), ea, 0) == mem,
        lqv_bytes(reg, sqv_mem(mem, reg, ea, 0), ea, 0) == reg,
{
    assert(sqv_mem(mem, lqv_bytes(reg, mem, ea, 0), ea, 0) =~= mem);
    assert(lqv_bytes(reg, sqv_mem(mem, reg, ea, 0), ea, 0) =~= reg);
}

/// At a 16-byte boundary and with element 0, byte `j` of what LTV spreads
/// is the byte at `from + j`.
proof fn lemma_ltv_byte_aligned(mem: Seq<u8>, from: int, j: int)
    requires
        0 <= from < 0x1000,
        from % 16 == 0,
        0 <= j < 16,
    ensures
        ltv_byte(mem, from, 0, j) == mem[from + j],
{
    assert(from % 8 == 0);
    assert((j + 0 + (from % 16 - from % 8)) % 16 == j);
    assert((from + j) % 0x1000 == from + j);
}

/// The register of the block that LTV with element 0 gave lane `k` holds
/// that lane.
proof fn lemma_ltv_lane_loaded(vregs: Seq<Seq<u8>>, mem: Seq<u8>, from: int, vt: int, k: int)
    requires
        vregs.len() == 32,
        forall|r: int| 0 <= r < 32 ==> (#[trigger] vregs[r]).len() == 16,
        0 <= vt < 32,
        0 <= k < 8,
    ensures
        lane_of(ltv_vregs(vregs, mem, from, vt, 0)[vt - vt % 8 + k], k) == ltv_lane(
            mem,
            from,
            0,
            k,
        ),
{
    let vtbase = vt - vt % 8;
    let r = vtbase + k;
    assert(transposed_lane(r, vtbase, 0) == k);
    crate::vreg::lemma_with_lane(vregs[r], k, ltv_lane(mem, from, 0, k));
}

/// Byte `j` of the sixteen bytes that STV with element 0 gathers from what
/// LTV with element 0 spread from a 16-byte boundary is the byte at
/// `from + j`.
proof fn lemma_gathered_byte(vregs: Seq<Seq<u8>>, mem: Seq<u8>, from: int, vt: int, j: int)
    requires
        vregs.len() == 32,
        forall|r: int| 0 <= r < 32 ==> (#[trigger] vregs[r]).len() == 16,
        0 <= vt < 32,
        0 <= from < 0x1000,
        from % 16 == 0,
        0 <= j < 16,
    ensures
        stv_word(ltv_vregs(vregs, mem, from, vt, 0), vt, 0)[j] == mem[from + j],
{
    let loaded = ltv_vregs(vregs, mem, from, vt, 0);
    let k = j / 2;
    let lanes = Seq::new(8, |i: int| lane_of(loaded[vt - vt % 8 + (0int / 2 + i) % 8], i));
    lemma_ltv_lane_loaded(vregs, mem, from, vt, k);
    lemma_ltv_byte_aligned(mem, from, 2 * k);
    lemma_ltv_byte_aligned(mem, from, 2 * k + 1);
    assert((0int / 2 + k) % 8 == k);
    assert(lanes[k] == ltv_lane(mem, from, 0, k));
    let hi = mem[from + 2 * k];
    let lo = mem[from + 2 * k + 1];
    assert(lanes[k] == (hi as int * 256 + lo as int) as u16);
    assert((hi as int * 256 + lo as int) / 256 == hi);
    assert((hi as int * 256 + lo as int) % 256 == lo);
}

/// What LTV with element 0 spread over a block of registers from a
/// 16-byte boundary, STV with element 0 gathers again: stored at an 8-byte
/// boundary, the sixteen bytes are those that were loaded.
pub proof fn lemma_ltv_stv(vregs: Seq<Seq<u8>>, mem: Seq<u8>, from: int, to: int, vt: int, j: int)
    requires
        vregs.len() == 32,
        forall|r: int| 0 <= r < 32 ==> (#[trigger] vregs[r]).len() == 16,
        mem.len() == 0x1010,
        0 <= vt < 32,
        0 <= from < 0x1000,
        from % 16 == 0,
        0 <= to < 0x1000,
        to % 8 == 0,
        0 <= j < 16,
    ensures
        stv_mem(mem, ltv_vregs(vregs, mem, from, vt, 0), to, vt, 0)[(to + j) % 0x1000] == mem[from
            + j],
{
    let word = stv_word(ltv_vregs(vregs, mem, from, vt, 0), vt, 0);
    lemma_gathered_byte(vregs, mem, from, vt, j);
    let turned = crate::vstore::turned_bytes(word, 16 - to % 8);
    assert((16 - to % 8 + j) % 16 == j);
    assert(turned[j] == word[j]);
    crate::vstore::lemma_offset(to, (to + j) % 0x1000, j);
}

} // verus!
