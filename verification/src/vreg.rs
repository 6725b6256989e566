//! The 128-bit vector register and its byte, lane and 128-bit word views.

use crate::endian::{
    be_u128, bytes_of_u128, le_read_u128, le_read_u16, le_write_u128, le_write_u16,
};
use vstd::prelude::*;

verus! {

/// Lane `i` of a register given by its sixteen bytes: bytes `2i` and `2i + 1`
/// read as one big-endian number.
pub open spec fn lane_of(bytes: Seq<u8>, i: int) -> u16 {
    (bytes[2 * i] as int * 256 + bytes[2 * i + 1] as int) as u16
}

/// The eight lanes of a register given by its sixteen bytes.
pub open spec fn lanes_of(bytes: Seq<u8>) -> Seq<u16> {
    Seq::new(8, |i: int| lane_of(bytes, i))
}

/// The sixteen bytes of the register whose lanes are `lanes`.
pub open spec fn bytes_of_lanes(lanes: Seq<u16>) -> Seq<u8> {
    Seq::new(
        16,
        |k: int|
            if k % 2 == 0 {
                (lanes[k / 2] / 256) as u8
            } else {
                (lanes[k / 2] % 256) as u8
            },
    )
}

/// The bytes of a register after lane `i` has been replaced by `val`.
pub open spec fn with_lane(bytes: Seq<u8>, i: int, val: u16) -> Seq<u8> {
    bytes.update(2 * i, (val / 256) as u8).update(2 * i + 1, (val % 256) as u8)
}

/// Replacing a lane changes that lane and no other.
pub proof fn lemma_with_lane(bytes: Seq<u8>, i: int, val: u16)
    requires
        bytes.len() == 16,
        0 <= i < 8,
    ensures
        with_lane(bytes, i, val).len() == 16,
        lane_of(with_lane(bytes, i, val), i) == val,
        forall|j: int|
            0 <= j < 8 && j != i ==> #[trigger] lane_of(with_lane(bytes, i, val), j) == lane_of(
                bytes,
                j,
            ),
{
}

/// A register is made of its lanes.
pub proof fn lemma_bytes_of_own_lanes(bytes: Seq<u8>)
    requires
        bytes.len() == 16,
    ensures
        bytes_of_lanes(lanes_of(bytes)) == bytes,
{
    assert forall|k: int| 0 <= k < 16 implies bytes_of_lanes(lanes_of(bytes))[k] == bytes[k] by {
        let i = k / 2;
        assert(lanes_of(bytes)[i] == lane_of(bytes, i));
    }
    assert(bytes_of_lanes(lanes_of(bytes)) =~= bytes);
}

/// Lane `i` of a register built from lanes is lane `i` of those lanes.
pub proof fn lemma_lane_of_built(lanes: Seq<u16>, i: int)
    requires
        lanes.len() == 8,
        0 <= i < 8,
    ensures
        lane_of(bytes_of_lanes(lanes), i) == lanes[i],
{
    let bytes = bytes_of_lanes(lanes);
    assert(bytes[2 * i] == (lanes[i] / 256) as u8);
    assert(bytes[2 * i + 1] == (lanes[i] % 256) as u8);
}

/// A register whose lanes are known is known.
pub proof fn lemma_reg_from_lanes(bytes: Seq<u8>, lanes: Seq<u16>)
    requires
        bytes.len() == 16,
        lanes.len() == 8,
        forall|j: int| 0 <= j < 8 ==> #[trigger] lane_of(bytes, j) == lanes[j],
    ensures
        bytes == bytes_of_lanes(lanes),
{
    assert(lanes_of(bytes) =~= lanes);
    lemma_bytes_of_own_lanes(bytes);
}

/// The lanes of a register built from lanes are those lanes.
pub proof fn lemma_lanes_of_built(lanes: Seq<u16>)
    requires
        lanes.len() == 8,
    ensures
        lanes_of(bytes_of_lanes(lanes)) == lanes,
{
    assert forall|i: int| 0 <= i < 8 implies lanes_of(bytes_of_lanes(lanes))[i] == lanes[i] by {
        assert(bytes_of_lanes(lanes)[2 * i] == (lanes[i] / 256) as u8);
        assert(bytes_of_lanes(lanes)[2 * i + 1] == (lanes[i] % 256) as u8);
    }
    assert(lanes_of(bytes_of_lanes(lanes)) =~= lanes);
}

/// A vector register: sixteen bytes kept in little-endian storage order, so
/// that architectural byte `i` lives in storage byte `15 - i`.
#[derive(Clone, Copy, Debug)]
pub struct VectorReg(pub [u8; 16]);

impl View for VectorReg {
    type V = Seq<u8>;

    /// The sixteen bytes in architectural order: byte 0 is the most
    /// significant byte of lane 0.
    open spec fn view(&self) -> Seq<u8> {
        Seq::new(16, |i: int| self.0@[15 - i])
    }
}

impl Default for VectorReg {
    fn default() -> (r: Self)
        ensures
            r@ == Seq::new(16, |i: int| 0u8),
    {
        let r = VectorReg([0u8; 16]);
        assert(r@ =~= Seq::new(16, |i: int| 0u8));
        r
    }
}

impl VectorReg {
    /// Lane `idx` as a number; lane 0 is the most significant.
    #[verifier::inline]
    pub open spec fn lane_spec(&self, idx: int) -> u16 {
        lane_of(self@, idx)
    }

    /// The register as one 128-bit word, byte 0 the most significant.
    pub open spec fn u128_spec(&self) -> u128 {
        be_u128(self@)
    }

    /// Reads the byte at architectural index `idx`.
    pub fn byte(&self, idx: usize) -> (r: u8)
        requires
            idx < 16,
        ensures
            r == self@[idx as int],
    {
        self.0[15 - idx]
    }

    /// Writes the byte at architectural index `idx`.
    pub fn setbyte(&mut self, idx: usize, val: u8)
        requires
            idx < 16,
        ensures
            final(self)@ == old(self)@.update(idx as int, val),
    {
        self.0[15 - idx] = val;
        assert(self@ =~= old(self)@.update(idx as int, val));
    }

    /// Reads lane `idx`.
    pub fn lane(&self, idx: usize) -> (r: u16)
        requires
            idx < 8,
        ensures
            r == self.lane_spec(idx as int),
    {
        le_read_u16(self.0.as_slice(), (7 - idx) * 2)
    }

    /// Writes lane `idx` and leaves the other lanes alone.
    pub fn setlane(&mut self, idx: usize, val: u16)
        requires
            idx < 8,
        ensures
            final(self)@ == with_lane(old(self)@, idx as int, val),
            final(self).lane_spec(idx as int) == val,
            forall|j: int|
                0 <= j < 8 && j != idx ==> #[trigger] lane_of(final(self)@, j) == lane_of(
                    old(self)@,
                    j,
                ),
    {
        le_write_u16(&mut self.0, (7 - idx) * 2, val);
        assert(self@ =~= with_lane(old(self)@, idx as int, val));
        proof {
            lemma_with_lane(old(self)@, idx as int, val);
        }
    }

    /// Reads the whole register as one 128-bit word.
    pub fn u128(&self) -> (r: u128)
        ensures
            r == self.u128_spec(),
    {
        le_read_u128(self.0.as_slice())
    }

    /// Replaces the whole register by the bytes of a 128-bit word.
    pub fn setu128(&mut self, val: u128)
        ensures
            final(self)@ == bytes_of_u128(val),
            final(self).u128_spec() == val,
    {
        le_write_u128(&mut self.0, val);
        assert(self@ =~= bytes_of_u128(val));
        proof {
            crate::endian::lemma_be_u128_of_bytes(val);
        }
    }
}

} // verus!
