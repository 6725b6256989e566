//! The fields of a vector opcode and the element selector that rearranges
//! the second operand.

use crate::vreg::{bytes_of_lanes, lane_of, VectorReg};
use vstd::prelude::*;

verus! {

/// Bits 0..6 of an opcode: the operation.
pub open spec fn func_of(op: u32) -> u32 {
    op % 64
}

/// Bits 21..25 of an opcode: the element selector.
pub open spec fn e_of(op: u32) -> int {
    (op as int / 0x20_0000) % 16
}

/// Bits 11..16 of an opcode: the index of the first operand.
pub open spec fn rs_of(op: u32) -> int {
    (op as int / 0x800) % 32
}

/// Bits 16..21 of an opcode: the index of the second operand.
pub open spec fn rt_of(op: u32) -> int {
    (op as int / 0x1_0000) % 32
}

/// Bits 6..11 of an opcode: the index of the destination.
pub open spec fn rd_of(op: u32) -> int {
    (op as int / 0x40) % 32
}

/// Bit 25 of an opcode: set for an operation of the vector unit, clear for
/// a move between the scalar and the vector registers.
pub open spec fn is_vector_op(op: u32) -> bool {
    (op as int / 0x200_0000) % 2 == 1
}

/// The lane of the second operand that lane `i` sees under element
/// selector `e`, lanes counted from the most significant.
///
/// Selectors 0 and 1 leave the operand as it is; 2 and 3 repeat the even or
/// the odd lane of each pair; 4 to 7 repeat one lane of each half; 8 to 15
/// repeat the single lane `e - 8`.
pub open spec fn vte_source(e: int, i: int) -> int {
    if e < 2 {
        i
    } else if e < 4 {
        i - i % 2 + (e - 2)
    } else if e < 8 {
        i - i % 4 + (e - 4)
    } else {
        e - 8
    }
}

/// The second operand as the lanes see it under element selector `e`.
pub open spec fn vte_bytes(vt: Seq<u8>, e: int) -> Seq<u8> {
    bytes_of_lanes(Seq::new(8, |i: int| lane_of(vt, vte_source(e, i))))
}

/// A vector opcode, to be taken apart into its fields.
#[derive(Clone, Copy, Debug)]
pub struct Vectorop {
    pub op: u32,
}

impl Vectorop {
    /// The operation.
    pub fn func(&self) -> (r: u32)
        ensures
            r == func_of(self.op),
            r < 64,
    {
        self.op % 64
    }

    /// The element selector.
    pub fn e(&self) -> (r: usize)
        ensures
            r == e_of(self.op),
            r < 16,
    {
        ((self.op / 0x20_0000) % 16) as usize
    }

    /// The index of the first operand.
    pub fn rs(&self) -> (r: usize)
        ensures
            r == rs_of(self.op),
            r < 32,
    {
        ((self.op / 0x800) % 32) as usize
    }

    /// The index of the second operand.
    pub fn rt(&self) -> (r: usize)
        ensures
            r == rt_of(self.op),
            r < 32,
    {
        ((self.op / 0x1_0000) % 32) as usize
    }

    /// The index of the destination.
    pub fn rd(&self) -> (r: usize)
        ensures
            r == rd_of(self.op),
            r < 32,
    {
        ((self.op / 0x40) % 32) as usize
    }

    /// Whether the opcode is an operation of the vector unit.
    pub fn is_vector(&self) -> (r: bool)
        ensures
            r == is_vector_op(self.op),
    {
        (self.op / 0x200_0000) % 2 == 1
    }

    /// The lane that lane `i` of the second operand is taken from.
    pub fn source_lane(&self, i: usize) -> (r: usize)
        requires
            i < 8,
        ensures
            r == vte_source(e_of(self.op), i as int),
            r < 8,
    {
        let e = self.e();
        if e < 2 {
            i
        } else if e < 4 {
            i - i % 2 + (e - 2)
        } else if e < 8 {
            i - i % 4 + (e - 4)
        } else {
            e - 8
        }
    }

    /// The second operand rearranged by the element selector.
    pub fn vte(&self, vt: &VectorReg) -> (r: VectorReg)
        ensures
            r@ == vte_bytes(vt@, e_of(self.op)),
    {
        let mut r = VectorReg::default();
        for i in 0..8usize
            invariant
                r@.len() == 16,
                forall|j: int|
                    0 <= j < i ==> #[trigger] lane_of(r@, j) == lane_of(
                        vt@,
                        vte_source(e_of(self.op), j),
                    ),
        {
            let src = self.source_lane(i);
            r.setlane(i, vt.lane(src));
        }
        proof {
            let lanes = Seq::new(8, |i: int| lane_of(vt@, vte_source(e_of(self.op), i)));
            crate::vreg::lemma_reg_from_lanes(r@, lanes);
        }
        r
    }
}

} // verus!
