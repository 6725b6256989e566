//! The state of the vector unit: registers, accumulator, flag registers and
//! the latches of the reciprocal unit.

use crate::vreg::{bytes_of_lanes, lane_of, lanes_of, VectorReg};
use vstd::prelude::*;

verus! {

/// `2^i` for the bit positions of a 16-bit register.
pub open spec fn two_to(i: int) -> int {
    if i <= 0 {
        1
    } else if i == 1 {
        2
    } else if i == 2 {
        4
    } else if i == 3 {
        8
    } else if i == 4 {
        16
    } else if i == 5 {
        32
    } else if i == 6 {
        64
    } else if i == 7 {
        128
    } else if i == 8 {
        256
    } else if i == 9 {
        512
    } else if i == 10 {
        1024
    } else if i == 11 {
        2048
    } else if i == 12 {
        4096
    } else if i == 13 {
        8192
    } else if i == 14 {
        16384
    } else {
        32768
    }
}

/// Bit `i` of `v`.
pub open spec fn bit_of(v: int, i: int) -> bool {
    (v / two_to(i)) % 2 == 1
}

/// Bits `0..8` of `v`, bit 0 first.
pub open spec fn bits_of(v: int) -> Seq<bool> {
    Seq::new(8, |i: int| bit_of(v, i))
}

/// The number whose bit `i` is `bits[i]`, for the first `n` bits.
pub open spec fn pack_upto(bits: Seq<bool>, n: int) -> int
    decreases n,
{
    if n <= 0 {
        0
    } else {
        pack_upto(bits, n - 1) + if bits[n - 1] {
            two_to(n - 1)
        } else {
            0
        }
    }
}

/// The 8-bit number whose bit `i` is `bits[i]`.
pub open spec fn pack_bits(bits: Seq<bool>) -> int {
    pack_upto(bits, 8)
}

/// A lane of a flag register is either clear or set in all its bits.
pub open spec fn is_mask(bytes: Seq<u8>) -> bool {
    forall|i: int| 0 <= i < 8 ==> lane_of(bytes, i) == 0 || #[trigger] lane_of(bytes, i) == 0xFFFF
}

/// The flags that a flag register holds, one per lane: a flag is set when
/// bit 0 of its lane is.
pub open spec fn flags_of(bytes: Seq<u8>) -> Seq<bool> {
    Seq::new(8, |i: int| lane_of(bytes, i) % 2 == 1)
}

/// The lane that stands for a flag.
pub open spec fn mask_lane(flag: bool) -> u16 {
    if flag {
        0xFFFF
    } else {
        0
    }
}

/// The bytes of the flag register that holds `flags`.
pub open spec fn mask_bytes(flags: Seq<bool>) -> Seq<u8> {
    bytes_of_lanes(Seq::new(8, |i: int| mask_lane(flags[i])))
}

/// The weight that a set flag has at bit `i`.
pub open spec fn flag_weight(flag: bool, w: u8) -> u8 {
    if flag {
        w
    } else {
        0
    }
}

proof fn lemma_bits_of_sum(b0: bool, b1: bool, b2: bool, b3: bool, b4: bool, b5: bool, b6: bool, b7: bool)
    by (bit_vector)
    ensures
        ({
            let v: u8 = (flag_weight(b0, 1) | flag_weight(b1, 2) | flag_weight(b2, 4) | flag_weight(
                b3,
                8,
            ) | flag_weight(b4, 16) | flag_weight(b5, 32) | flag_weight(b6, 64) | flag_weight(
                b7,
                128,
            ));
            &&& v == flag_weight(b0, 1) + flag_weight(b1, 2) + flag_weight(b2, 4) + flag_weight(
                b3,
                8,
            ) + flag_weight(b4, 16) + flag_weight(b5, 32) + flag_weight(b6, 64) + flag_weight(
                b7,
                128,
            )
            &&& ((v / 1) % 2 == 1) == b0
            &&& ((v / 2) % 2 == 1) == b1
            &&& ((v / 4) % 2 == 1) == b2
            &&& ((v / 8) % 2 == 1) == b3
            &&& ((v / 16) % 2 == 1) == b4
            &&& ((v / 32) % 2 == 1) == b5
            &&& ((v / 64) % 2 == 1) == b6
            &&& ((v / 128) % 2 == 1) == b7
        }),
{
}

proof fn lemma_sum_of_bits(v: u8)
    by (bit_vector)
    ensures
        flag_weight((v / 1) % 2 == 1, 1) + flag_weight((v / 2) % 2 == 1, 2) + flag_weight(
            (v / 4) % 2 == 1,
            4,
        ) + flag_weight((v / 8) % 2 == 1, 8) + flag_weight((v / 16) % 2 == 1, 16) + flag_weight(
            (v / 32) % 2 == 1,
            32,
        ) + flag_weight((v / 64) % 2 == 1, 64) + flag_weight((v / 128) % 2 == 1, 128) == v,
{
}

/// Packing eight flags and splitting the result gives the flags back.
pub proof fn lemma_bits_of_packed(bits: Seq<bool>)
    requires
        bits.len() == 8,
    ensures
        0 <= pack_bits(bits) < 256,
        bits_of(pack_bits(bits)) == bits,
{
    reveal_with_fuel(pack_upto, 9);
    lemma_bits_of_sum(bits[0], bits[1], bits[2], bits[3], bits[4], bits[5], bits[6], bits[7]);
    let v = pack_bits(bits);
    assert(v == flag_weight(bits[0], 1) + flag_weight(bits[1], 2) + flag_weight(bits[2], 4)
        + flag_weight(bits[3], 8) + flag_weight(bits[4], 16) + flag_weight(bits[5], 32)
        + flag_weight(bits[6], 64) + flag_weight(bits[7], 128));
    assert(bits_of(v) =~= bits);
}

/// Splitting an 8-bit number into flags and packing them gives it back.
pub proof fn lemma_pack_of_bits(v: int)
    requires
        0 <= v < 256,
    ensures
        pack_bits(bits_of(v)) == v,
{
    reveal_with_fuel(pack_upto, 9);
    lemma_sum_of_bits(v as u8);
    let b = bits_of(v);
    assert(pack_bits(b) == flag_weight(b[0], 1) + flag_weight(b[1], 2) + flag_weight(b[2], 4)
        + flag_weight(b[3], 8) + flag_weight(b[4], 16) + flag_weight(b[5], 32) + flag_weight(
        b[6],
        64,
    ) + flag_weight(b[7], 128));
}

/// Eight clear flags pack to zero.
pub proof fn lemma_pack_zero()
    ensures
        pack_bits(Seq::new(8, |k: int| false)) == 0,
{
    reveal_with_fuel(pack_upto, 9);
}

/// A flag register built from flags is a mask register holding those flags.
pub proof fn lemma_mask_bytes(flags: Seq<bool>)
    requires
        flags.len() == 8,
    ensures
        mask_bytes(flags).len() == 16,
        is_mask(mask_bytes(flags)),
        flags_of(mask_bytes(flags)) == flags,
{
    let lanes = Seq::new(8, |i: int| mask_lane(flags[i]));
    let bytes = mask_bytes(flags);
    assert forall|i: int| 0 <= i < 8 implies #[trigger] lane_of(bytes, i) == mask_lane(
        flags[i],
    ) by {
        crate::vreg::lemma_lane_of_built(lanes, i);
    }
    assert forall|i: int| 0 <= i < 8 implies flags_of(bytes)[i] == flags[i] by {
        assert(lane_of(bytes, i) == mask_lane(flags[i]));
    }
    assert(flags_of(bytes) =~= flags);
}

/// A mask register is the flag register built from its own flags.
pub proof fn lemma_mask_of_own_flags(bytes: Seq<u8>)
    requires
        bytes.len() == 16,
        is_mask(bytes),
    ensures
        mask_bytes(flags_of(bytes)) == bytes,
{
    let lanes = Seq::new(8, |i: int| mask_lane(flags_of(bytes)[i]));
    assert forall|i: int| 0 <= i < 8 implies #[trigger] lane_of(bytes, i) == lanes[i] by {
        assert(lane_of(bytes, i) == 0 || lane_of(bytes, i) == 0xFFFF);
        assert(flags_of(bytes)[i] == (lane_of(bytes, i) % 2 == 1));
    }
    crate::vreg::lemma_reg_from_lanes(bytes, lanes);
}

/// The state of the unit as plain mathematical data: every register by its
/// sixteen bytes, every flag register by its eight flags.
pub struct VuState {
    /// The 32 vector registers.
    pub vregs: Seq<Seq<u8>>,
    /// The low, middle and high slice of the accumulator.
    pub accum: Seq<Seq<u8>>,
    /// Carry flags, bits 0 to 7 of VCO.
    pub carry: Seq<bool>,
    /// Not-equal flags, bits 8 to 15 of VCO.
    pub ne: Seq<bool>,
    /// Compare-extension flags, VCE.
    pub vce: Seq<bool>,
    /// Compare flags, bits 0 to 7 of VCC.
    pub normal: Seq<bool>,
    /// Clip flags, bits 8 to 15 of VCC.
    pub clip: Seq<bool>,
    /// The pending high half of a double-precision reciprocal argument.
    pub div_in: Option<u32>,
    /// The last reciprocal result.
    pub div_out: u32,
}

impl VuState {
    /// Every register has sixteen bytes and every flag register eight flags.
    pub open spec fn shaped(self) -> bool {
        &&& self.vregs.len() == 32
        &&& forall|r: int| 0 <= r < 32 ==> (#[trigger] self.vregs[r]).len() == 16
        &&& self.accum.len() == 3
        &&& forall|r: int| 0 <= r < 3 ==> (#[trigger] self.accum[r]).len() == 16
        &&& self.carry.len() == 8
        &&& self.ne.len() == 8
        &&& self.vce.len() == 8
        &&& self.normal.len() == 8
        &&& self.clip.len() == 8
    }

    /// VCO as a packed number: carry flags in bits 0..8, not-equal flags in
    /// bits 8..16.
    pub open spec fn vco(self) -> int {
        pack_bits(self.carry) + 256 * pack_bits(self.ne)
    }

    /// VCC as a packed number: compare flags in bits 0..8, clip flags in
    /// bits 8..16.
    pub open spec fn vcc(self) -> int {
        pack_bits(self.normal) + 256 * pack_bits(self.clip)
    }

    /// VCE as a packed number.
    pub open spec fn vce_bits(self) -> int {
        pack_bits(self.vce)
    }
}

/// The registers of the vector unit.
#[derive(Clone, Copy)]
pub struct SpCop2Context {
    pub vregs: [VectorReg; 32],
    pub accum: [VectorReg; 3],
    pub vco_carry: VectorReg,
    pub vco_ne: VectorReg,
    pub vce: VectorReg,
    pub vcc_normal: VectorReg,
    pub vcc_clip: VectorReg,
    pub div_in: Option<u32>,
    pub div_out: u32,
}

impl View for SpCop2Context {
    type V = VuState;

    open spec fn view(&self) -> VuState {
        VuState {
            vregs: Seq::new(32, |r: int| self.vregs@[r]@),
            accum: Seq::new(3, |r: int| self.accum@[r]@),
            carry: flags_of(self.vco_carry@),
            ne: flags_of(self.vco_ne@),
            vce: flags_of(self.vce@),
            normal: flags_of(self.vcc_normal@),
            clip: flags_of(self.vcc_clip@),
            div_in: self.div_in,
            div_out: self.div_out,
        }
    }
}

impl Default for SpCop2Context {
    /// The state at reset.
    fn default() -> (r: Self)
        ensures
            r.wf(),
            r.div_in.is_none(),
            r.div_out == 0,
            forall|i: int| 0 <= i < 32 ==> #[trigger] r@.vregs[i] == Seq::new(16, |k: int| 0u8),
            forall|i: int| 0 <= i < 3 ==> #[trigger] r@.accum[i] == Seq::new(16, |k: int| 0u8),
            r@.carry == Seq::new(8, |k: int| false),
            r@.ne == Seq::new(8, |k: int| false),
            r@.vce == Seq::new(8, |k: int| false),
            r@.normal == Seq::new(8, |k: int| false),
            r@.clip == Seq::new(8, |k: int| false),
    {
        SpCop2Context::new()
    }
}

/// The weight of bit `i`.
fn weight(i: usize) -> (w: u16)
    requires
        i < 16,
    ensures
        w == two_to(i as int),
{
    if i == 0 {
        1
    } else if i == 1 {
        2
    } else if i == 2 {
        4
    } else if i == 3 {
        8
    } else if i == 4 {
        16
    } else if i == 5 {
        32
    } else if i == 6 {
        64
    } else if i == 7 {
        128
    } else if i == 8 {
        256
    } else if i == 9 {
        512
    } else if i == 10 {
        1024
    } else if i == 11 {
        2048
    } else if i == 12 {
        4096
    } else if i == 13 {
        8192
    } else if i == 14 {
        16384
    } else {
        32768
    }
}

/// Packs the flags of a flag register into a number, lane `i` into bit `i`.
fn pack_flags(reg: &VectorReg) -> (r: u8)
    ensures
        r == pack_bits(flags_of(reg@)),
{
    let mut res: u8 = 0;
    for i in 0..8usize
        invariant
            res == pack_upto(flags_of(reg@), i as int),
            res < two_to(i as int),
    {
        if reg.lane(i) % 2 == 1 {
            res = res + (weight(i) as u8);
        }
    }
    res
}

/// Fills a flag register from a number, bit `i` into lane `i`.
fn unpack_flags(reg: &mut VectorReg, v: u8)
    ensures
        final(reg)@ == mask_bytes(bits_of(v as int)),
{
    for i in 0..8usize
        invariant
            reg@.len() == 16,
            forall|j: int|
                0 <= j < i ==> #[trigger] lane_of(reg@, j) == mask_lane(bit_of(v as int, j)),
    {
        let w = weight(i);
        let set = (v as u16 / w) % 2 == 1;
        reg.setlane(
            i,
            if set {
                0xFFFF
            } else {
                0
            },
        );
    }
    proof {
        let lanes = Seq::new(8, |i: int| mask_lane(bits_of(v as int)[i]));
        assert forall|j: int| 0 <= j < 8 implies lanes_of(reg@)[j] == lanes[j] by {
            assert(lane_of(reg@, j) == mask_lane(bit_of(v as int, j)));
        }
        assert(lanes_of(reg@) =~= lanes);
        crate::vreg::lemma_bytes_of_own_lanes(reg@);
    }
}

/// Tells whether every lane of a register is clear or fully set.
pub fn reg_is_mask(reg: &VectorReg) -> (b: bool)
    ensures
        b == is_mask(reg@),
{
    let mut ok = true;
    for i in 0..8usize
        invariant
            ok == (forall|j: int|
                0 <= j < i ==> lane_of(reg@, j) == 0 || #[trigger] lane_of(reg@, j) == 0xFFFF),
    {
        let lane = reg.lane(i);
        if lane != 0 && lane != 0xFFFF {
            ok = false;
        }
    }
    ok
}

impl SpCop2Context {
    /// The flag registers hold nothing but clear and fully set lanes.
    pub open spec fn wf(&self) -> bool {
        &&& is_mask(self.vco_carry@)
        &&& is_mask(self.vco_ne@)
        &&& is_mask(self.vce@)
        &&& is_mask(self.vcc_normal@)
        &&& is_mask(self.vcc_clip@)
    }

    /// The five flag registers are those of `other`, bit for bit.
    pub open spec fn same_flags(&self, other: SpCop2Context) -> bool {
        &&& self.vco_carry == other.vco_carry
        &&& self.vco_ne == other.vco_ne
        &&& self.vce == other.vce
        &&& self.vcc_normal == other.vcc_normal
        &&& self.vcc_clip == other.vcc_clip
    }

    /// The state at reset: every register, flag and latch is zero.
    pub fn new() -> (r: Self)
        ensures
            r.wf(),
            r.div_in.is_none(),
            r.div_out == 0,
            forall|i: int| 0 <= i < 32 ==> #[trigger] r@.vregs[i] == Seq::new(16, |k: int| 0u8),
            forall|i: int| 0 <= i < 3 ==> #[trigger] r@.accum[i] == Seq::new(16, |k: int| 0u8),
            r@.carry == Seq::new(8, |k: int| false),
            r@.ne == Seq::new(8, |k: int| false),
            r@.vce == Seq::new(8, |k: int| false),
            r@.normal == Seq::new(8, |k: int| false),
            r@.clip == Seq::new(8, |k: int| false),
    {
        let z = VectorReg::default();
        let r = SpCop2Context {
            vregs: [z; 32],
            accum: [z; 3],
            vco_carry: z,
            vco_ne: z,
            vce: z,
            vcc_normal: z,
            vcc_clip: z,
            div_in: None,
            div_out: 0,
        };
        proof {
            vstd::array::axiom_spec_array_fill_for_copy_type::<VectorReg, 32>(z);
            vstd::array::axiom_spec_array_fill_for_copy_type::<VectorReg, 3>(z);
        }
        assert(flags_of(z@) =~= Seq::new(8, |k: int| false));
        assert forall|i: int| 0 <= i < 32 implies #[trigger] r@.vregs[i] == Seq::new(
            16,
            |k: int| 0u8,
        ) by {
            assert(r.vregs@[i] == z);
        }
        assert forall|i: int| 0 <= i < 3 implies #[trigger] r@.accum[i] == Seq::new(
            16,
            |k: int| 0u8,
        ) by {
            assert(r.accum@[i] == z);
        }
        r
    }

    /// Tells whether the flag registers hold nothing but clear and fully
    /// set lanes, as every opcode needs and leaves them.
    pub fn flags_are_masks(&self) -> (b: bool)
        ensures
            b == self.wf(),
    {
        reg_is_mask(&self.vco_carry) && reg_is_mask(&self.vco_ne) && reg_is_mask(&self.vce)
            && reg_is_mask(&self.vcc_normal) && reg_is_mask(&self.vcc_clip)
    }

    /// VCE packed into a byte: bit `i` is the flag of lane `i`.
    pub fn vce(&self) -> (r: u8)
        ensures
            r == self@.vce_bits(),
    {
        pack_flags(&self.vce)
    }

    /// Sets the flags of VCE from a packed byte.
    pub fn set_vce(&mut self, vce: u8)
        ensures
            *final(self) == (SpCop2Context { vce: final(self).vce, ..*old(self) }),
            final(self).vce@ == mask_bytes(bits_of(vce as int)),
    {
        unpack_flags(&mut self.vce, vce);
    }

    /// VCC packed into 16 bits: compare flags low, clip flags high.
    pub fn vcc(&self) -> (r: u16)
        ensures
            r == self@.vcc(),
    {
        let lo = pack_flags(&self.vcc_normal);
        let hi = pack_flags(&self.vcc_clip);
        proof {
            lemma_bits_of_packed(flags_of(self.vcc_normal@));
            lemma_bits_of_packed(flags_of(self.vcc_clip@));
        }
        lo as u16 + 256 * (hi as u16)
    }

    /// Sets the flags of VCC from a packed number.
    pub fn set_vcc(&mut self, vcc: u16)
        ensures
            *final(self) == (SpCop2Context {
                vcc_normal: final(self).vcc_normal,
                vcc_clip: final(self).vcc_clip,
                ..*old(self)
            }),
            final(self).vcc_normal@ == mask_bytes(bits_of(vcc as int % 256)),
            final(self).vcc_clip@ == mask_bytes(bits_of(vcc as int / 256)),
    {
        unpack_flags(&mut self.vcc_normal, (vcc % 256) as u8);
        unpack_flags(&mut self.vcc_clip, (vcc / 256) as u8);
    }

    /// VCO packed into 16 bits: carry flags low, not-equal flags high.
    pub fn vco(&self) -> (r: u16)
        ensures
            r == self@.vco(),
    {
        let lo = pack_flags(&self.vco_carry);
        let hi = pack_flags(&self.vco_ne);
        proof {
            lemma_bits_of_packed(flags_of(self.vco_carry@));
            lemma_bits_of_packed(flags_of(self.vco_ne@));
        }
        lo as u16 + 256 * (hi as u16)
    }

    /// Sets the flags of VCO from a packed number.
    pub fn set_vco(&mut self, vco: u16)
        ensures
            *final(self) == (SpCop2Context {
                vco_carry: final(self).vco_carry,
                vco_ne: final(self).vco_ne,
                ..*old(self)
            }),
            final(self).vco_carry@ == mask_bytes(bits_of(vco as int % 256)),
            final(self).vco_ne@ == mask_bytes(bits_of(vco as int / 256)),
    {
        unpack_flags(&mut self.vco_carry, (vco % 256) as u8);
        unpack_flags(&mut self.vco_ne, (vco / 256) as u8);
    }
}

/// The view of a state has 32 registers and 3 accumulator slices of
/// sixteen bytes each, and eight flags for every flag register.
pub proof fn lemma_view_shaped(c: SpCop2Context)
    ensures
        c@.shaped(),
{
}

/// Two registers with the same bytes are the same register.
pub proof fn lemma_reg_determined(a: VectorReg, b: VectorReg)
    requires
        a@ == b@,
    ensures
        a == b,
{
    assert forall|j: int| 0 <= j < 16 implies a.0@[j] == b.0@[j] by {
        assert(a@[15 - j] == a.0@[j]);
        assert(b@[15 - j] == b.0@[j]);
    }
    assert(a.0@ =~= b.0@);
    assert(a.0 == b.0);
}

/// Two mask registers with the same flags are the same register.
pub proof fn lemma_flags_determined(a: VectorReg, b: VectorReg)
    requires
        is_mask(a@),
        is_mask(b@),
        flags_of(a@) == flags_of(b@),
    ensures
        a == b,
{
    lemma_mask_of_own_flags(a@);
    lemma_mask_of_own_flags(b@);
    lemma_reg_determined(a, b);
}

/// The view says all there is to say of a state whose flag registers are
/// masks: two such states with the same view are the same state.
pub proof fn lemma_view_determines(a: SpCop2Context, b: SpCop2Context)
    requires
        a.wf(),
        b.wf(),
        a@ == b@,
    ensures
        a == b,
{
    assert forall|r: int| 0 <= r < 32 implies a.vregs@[r] == b.vregs@[r] by {
        assert(a@.vregs[r] == a.vregs@[r]@);
        assert(b@.vregs[r] == b.vregs@[r]@);
        lemma_reg_determined(a.vregs@[r], b.vregs@[r]);
    }
    assert(a.vregs@ =~= b.vregs@);
    assert(a.vregs == b.vregs);
    assert forall|r: int| 0 <= r < 3 implies a.accum@[r] == b.accum@[r] by {
        assert(a@.accum[r] == a.accum@[r]@);
        assert(b@.accum[r] == b.accum@[r]@);
        lemma_reg_determined(a.accum@[r], b.accum@[r]);
    }
    assert(a.accum@ =~= b.accum@);
    assert(a.accum == b.accum);
    lemma_flags_determined(a.vco_carry, b.vco_carry);
    lemma_flags_determined(a.vco_ne, b.vco_ne);
    lemma_flags_determined(a.vce, b.vce);
    lemma_flags_determined(a.vcc_normal, b.vcc_normal);
    lemma_flags_determined(a.vcc_clip, b.vcc_clip);
}

/// Reading VCO, VCC and VCE and writing each back leaves every flag
/// register as it was.
pub proof fn lemma_flag_write_back(c: SpCop2Context)
    requires
        c.wf(),
    ensures
        mask_bytes(bits_of(c@.vco() % 256)) == c.vco_carry@,
        mask_bytes(bits_of(c@.vco() / 256)) == c.vco_ne@,
        mask_bytes(bits_of(c@.vcc() % 256)) == c.vcc_normal@,
        mask_bytes(bits_of(c@.vcc() / 256)) == c.vcc_clip@,
        mask_bytes(bits_of(c@.vce_bits())) == c.vce@,
{
    lemma_bits_of_packed(c@.carry);
    lemma_bits_of_packed(c@.ne);
    lemma_bits_of_packed(c@.normal);
    lemma_bits_of_packed(c@.clip);
    lemma_bits_of_packed(c@.vce);
    let cl = pack_bits(c@.carry);
    let ch = pack_bits(c@.ne);
    assert((cl + 256 * ch) % 256 == cl);
    assert((cl + 256 * ch) / 256 == ch);
    let nl = pack_bits(c@.normal);
    let nh = pack_bits(c@.clip);
    assert((nl + 256 * nh) % 256 == nl);
    assert((nl + 256 * nh) / 256 == nh);
    lemma_mask_of_own_flags(c.vco_carry@);
    lemma_mask_of_own_flags(c.vco_ne@);
    lemma_mask_of_own_flags(c.vcc_normal@);
    lemma_mask_of_own_flags(c.vcc_clip@);
    lemma_mask_of_own_flags(c.vce@);
}

/// A state whose flag registers were set from what VCO, VCC and VCE read
/// as is the state before, field for field.
pub proof fn lemma_write_back_is_identity(pre: SpCop2Context, post: SpCop2Context)
    requires
        pre.wf(),
        post == (SpCop2Context {
            vco_carry: post.vco_carry,
            vco_ne: post.vco_ne,
            vce: post.vce,
            vcc_normal: post.vcc_normal,
            vcc_clip: post.vcc_clip,
            ..pre
        }),
        post.vco_carry@ == mask_bytes(bits_of(pre@.vco() % 256)),
        post.vco_ne@ == mask_bytes(bits_of(pre@.vco() / 256)),
        post.vcc_normal@ == mask_bytes(bits_of(pre@.vcc() % 256)),
        post.vcc_clip@ == mask_bytes(bits_of(pre@.vcc() / 256)),
        post.vce@ == mask_bytes(bits_of(pre@.vce_bits())),
    ensures
        post == pre,
{
    lemma_flag_write_back(pre);
    lemma_reg_determined(post.vco_carry, pre.vco_carry);
    lemma_reg_determined(post.vco_ne, pre.vco_ne);
    lemma_reg_determined(post.vcc_normal, pre.vcc_normal);
    lemma_reg_determined(post.vcc_clip, pre.vcc_clip);
    lemma_reg_determined(post.vce, pre.vce);
}

} // verus!
