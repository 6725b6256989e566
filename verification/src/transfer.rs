//! The fields of a vector load or store opcode and the address it names in
//! the data scratchpad.

use crate::cop2::{CpuContext, SpCop2};
use vstd::prelude::*;

verus! {

/// The size of the data scratchpad: addresses wrap at this bound.
pub const DMEM_SIZE: usize = 0x1000;

/// The length of the byte slice that holds the scratchpad: its 4 KiB and,
/// after them, sixteen bytes that mirror its beginning.
pub const DMEM_LEN: usize = 0x1010;

/// Bits 21..26 of a load or store opcode: the scalar register that holds
/// the base address.
pub open spec fn ls_base_reg(op: u32) -> int {
    (op as int / 0x20_0000) % 32
}

/// The base address: the low 32 bits of the base register.
pub open spec fn ls_base(op: u32, regs: Seq<u64>) -> u32 {
    (regs[ls_base_reg(op)] % 0x1_0000_0000) as u32
}

/// Bits 16..21: the vector register.
pub open spec fn ls_vt(op: u32) -> int {
    (op as int / 0x1_0000) % 32
}

/// Bits 11..16: which load or store it is.
pub open spec fn ls_opcode(op: u32) -> u32 {
    ((op / 0x800) % 32) as u32
}

/// Bits 7..11: the byte of the register at which the transfer begins.
pub open spec fn ls_element(op: u32) -> u32 {
    ((op / 0x80) % 16) as u32
}

/// Bits 0..7, a signed number, sign-extended to 32 bits.
pub open spec fn ls_offset(op: u32) -> u32 {
    if op % 0x80 >= 0x40 {
        (0xFFFF_FF80 + op % 0x80) as u32
    } else {
        (op % 0x80) as u32
    }
}

/// The scratchpad address of a transfer: base plus offset times the unit
/// of the opcode, modulo the size of the scratchpad.
pub open spec fn address(base: u32, offset: u32, unit: int) -> int {
    (base as int + offset as int * unit) % 0x1000
}

/// The byte of the scratchpad at address `a`, addresses wrapping at 4 KiB.
pub open spec fn dmem_at(mem: Seq<u8>, a: int) -> u8 {
    mem[a % (DMEM_SIZE as int)]
}

/// The slice after the mirror has been brought up to date: its last
/// sixteen bytes repeat the first sixteen.
pub open spec fn mirrored(mem: Seq<u8>) -> Seq<u8> {
    Seq::new(
        mem.len(),
        |a: int|
            if 0x1000 <= a < 0x1010 {
                mem[a - 0x1000]
            } else {
                mem[a]
            },
    )
}

impl SpCop2 {
    /// Takes a load or store opcode apart: base address, vector register,
    /// sub-opcode, element and sign-extended offset.
    pub fn oploadstore(op: u32, ctx: &CpuContext) -> (r: (u32, usize, u32, u32, u32))
        ensures
            r.0 == ls_base(op, ctx.regs@),
            r.1 == ls_vt(op),
            r.1 < 32,
            r.2 == ls_opcode(op),
            r.2 < 32,
            r.3 == ls_element(op),
            r.3 < 16,
            r.4 == ls_offset(op),
    {
        let base = (ctx.regs[((op / 0x20_0000) % 32) as usize] % 0x1_0000_0000) as u32;
        let vt = ((op / 0x1_0000) % 32) as usize;
        let opcode = (op / 0x800) % 32;
        let element = (op / 0x80) % 16;
        let low = op % 0x80;
        let offset = if low >= 0x40 {
            0xFFFF_FF80 + low
        } else {
            low
        };
        (base, vt, opcode, element, offset)
    }
}

/// Computes the scratchpad address of a transfer whose unit is
/// `2^unit_log` bytes.
pub fn effective_address(base: u32, offset: u32, unit_log: u32) -> (ea: usize)
    requires
        unit_log <= 4,
    ensures
        ea == address(base, offset, crate::context::two_to(unit_log as int)),
        ea < 0x1000,
{
    let b: u64 = base as u64;
    let o: u64 = offset as u64;
    let sum: u64 = if unit_log == 0 {
        b + o
    } else if unit_log == 1 {
        b + o * 2
    } else if unit_log == 2 {
        b + o * 4
    } else if unit_log == 3 {
        b + o * 8
    } else {
        b + o * 16
    };
    (sum % 0x1000) as usize
}

} // verus!
