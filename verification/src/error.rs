//! The conditions under which the unit refuses an opcode.

use vstd::prelude::*;

verus! {

/// Why an opcode was not executed. The state is left as it was.
#[derive(Clone, Copy, Debug, PartialEq, Eq, Structural)]
pub enum Cop2Error {
    /// A vector opcode whose function code names no operation.
    UnknownFunction(u32),
    /// VSAR with an element selector that names no accumulator slice.
    InvalidElement(u32),
    /// A move opcode that is none of MFC2, CFC2, MTC2 and CTC2, or a CFC2 or
    /// CTC2 that names no control register. Holds the sub-opcode and the
    /// register field.
    UnknownMove(u32, u32),
    /// A vector load or store whose sub-opcode is not implemented.
    UnimplementedTransfer(u32),
}

} // verus!
