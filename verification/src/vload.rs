//! The vector loads: what each brings from the scratchpad into the vector
//! registers.

use crate::context::two_to;
use crate::endian::{
    be_read_u128, be_read_u16, be_read_u32, be_read_u64, be_u128, byte_be, bytes_of_u128,
    lemma_be_u128_bytes, lemma_join_halves, lemma_top_bytes,
};
use crate::transfer::{address, dmem_at, effective_address, mirrored};
use crate::context::{SpCop2Context, VuState};
use crate::vreg::{bytes_of_lanes, lane_of, lemma_reg_from_lanes, with_lane, VectorReg};
use crate::word::{
    lemma_partial_right_bytes, lemma_rotl_bytes, lemma_rotr_bytes, lemma_shl_bytes,
    lemma_word_lane, rotate_left, rotate_right, write_partial_right,
};
use vstd::prelude::*;

verus! {

/// The register after LBV, LSV, LLV or LDV: `n` bytes from address `ea` go
/// to the bytes from `element` on, going on at byte 0 after byte 15.
pub open spec fn lxv_bytes(old: Seq<u8>, mem: Seq<u8>, ea: int, element: int, n: int) -> Seq<u8> {
    Seq::new(
        16,
        |i: int|
            if (i + 16 - element) % 16 < n {
                dmem_at(mem, ea + (i + 16 - element) % 16)
            } else {
                old[i]
            },
    )
}

/// The register after LQV: the bytes from address `ea` up to the next
/// 16-byte boundary go to the bytes from `element` on; those that would lie
/// beyond byte 15 are not loaded, and every other byte of the register
/// stays as it was.
pub open spec fn lqv_bytes(old: Seq<u8>, mem: Seq<u8>, ea: int, element: int) -> Seq<u8> {
    Seq::new(
        16,
        |i: int|
            if element <= i && i - element < 16 - ea % 16 {
                mem[ea + i - element]
            } else {
                old[i]
            },
    )
}

/// The register after LRV: the bytes from the 16-byte boundary below `ea`
/// up to `ea` go to the end of the register, `element` bytes of them
/// falling off.
pub open spec fn lrv_bytes(old: Seq<u8>, mem: Seq<u8>, ea: int, element: int) -> Seq<u8> {
    let first = 16 - ea % 16 + element;
    Seq::new(
        16,
        |i: int|
            if i >= first {
                mem[ea - ea % 16 + (i - first)]
            } else {
                old[i]
            },
    )
}

/// Brings the mirror after the scratchpad up to date.
pub fn refresh_mirror(dmem: &mut [u8])
    requires
        old(dmem)@.len() == 0x1010,
    ensures
        final(dmem)@ == mirrored(old(dmem)@),
{
    for i in 0..16usize
        invariant
            dmem@.len() == 0x1010,
            old(dmem)@.len() == 0x1010,
            forall|a: int| 0 <= a < 0x1000 + i ==> dmem@[a] == mirrored(old(dmem)@)[a],
            forall|a: int| 0x1000 + i <= a < 0x1010 ==> dmem@[a] == old(dmem)@[a],
    {
        let b = dmem[i];
        dmem[0x1000 + i] = b;
    }
    assert(dmem@ =~= mirrored(old(dmem)@));
}

/// Reads the big-endian number of `2^unit_log` bytes at `ea` and moves it
/// to the top of a word.
fn read_top(dmem: &[u8], ea: usize, unit_log: u32) -> (mem: u128)
    requires
        unit_log <= 3,
        ea + two_to(unit_log as int) <= dmem@.len(),
    ensures
        forall|p: int|
            0 <= p < two_to(unit_log as int) ==> #[trigger] byte_be(mem, p as u128) == dmem@[ea + p],
{
    let ghost n = two_to(unit_log as int);
    let ghost window = dmem@.subrange(ea as int, ea + n);
    let mem: u128 = if unit_log == 0 {
        (dmem[ea] as u128) << 120
    } else if unit_log == 1 {
        (be_read_u16(dmem, ea) as u128) << 112
    } else if unit_log == 2 {
        (be_read_u32(dmem, ea) as u128) << 96
    } else {
        (be_read_u64(dmem, ea) as u128) << 64
    };
    proof {
        assert forall|p: int| 0 <= p < n implies #[trigger] byte_be(mem, p as u128) == dmem@[ea
            + p] by {
            assert(window[p] == dmem@[ea + p]);
            lemma_top_bytes(
                window[0],
                window[1],
                window[2],
                window[3],
                window[4],
                window[5],
                window[6],
                window[7],
                p as u128,
            );
        }
    }
    mem
}

/// Going `e` bytes down and then `e` bytes up, around the end, leads back.
proof fn lemma_down_up(i: int, e: int)
    requires
        0 <= i < 16,
        0 <= e < 16,
    ensures
        0 <= (i + 16 - e) % 16 < 16,
        ((i + 16 - e) % 16 + e) % 16 == i,
{
}

/// Puts the top `n` bytes of `mem` into the register from byte `element`
/// on, going on at byte 0 after byte 15.
fn deposit(reg: &mut VectorReg, mem: u128, element: usize, n: usize)
    requires
        element < 16,
        1 <= n <= 16,
    ensures
        final(reg)@ == Seq::new(
            16,
            |i: int|
                if (i + 16 - element) % 16 < n {
                    byte_be(mem, ((i + 16 - element) % 16) as u128)
                } else {
                    old(reg)@[i]
                },
        ),
{
    let d = reg.u128();
    let turned = rotate_left(d, (8 * element) as u32);
    let merged = write_partial_right(turned, mem, 0, 8 * n);
    reg.setu128(rotate_right(merged, (8 * element) as u32));
    proof {
        lemma_be_u128_bytes(old(reg)@);
        assert forall|i: int| 0 <= i < 16 implies reg@[i] == if (i + 16 - element) % 16 < n {
            byte_be(mem, ((i + 16 - element) % 16) as u128)
        } else {
            old(reg)@[i]
        } by {
            let p = (i + 16 - element) % 16;
            lemma_down_up(i, element as int);
            lemma_rotr_bytes(merged, element as u128, i as u128);
            lemma_partial_right_bytes(turned, mem, 0, n as u128, p as u128);
            if p >= n {
                lemma_rotl_bytes(d, element as u128, p as u128);
                assert(byte_be(d, i as u128) == old(reg)@[i]);
            }
        }
        assert(reg@ =~= Seq::new(
            16,
            |i: int|
                if (i + 16 - element) % 16 < n {
                    byte_be(mem, ((i + 16 - element) % 16) as u128)
                } else {
                    old(reg)@[i]
                },
        ));
    }
}

/// LBV, LSV, LLV and LDV: loads `2^unit_log` bytes, a big-endian number,
/// into the register from byte `element` on. Where the bytes straddle the
/// end of the scratchpad the mirror is brought up to date first.
pub fn lxv(
    reg: &mut VectorReg,
    element: usize,
    dmem: &mut [u8],
    base: u32,
    offset: u32,
    unit_log: u32,
)
    requires
        unit_log <= 3,
        element < 16,
        old(dmem)@.len() == 0x1010,
    ensures
        final(reg)@ == lxv_bytes(
            old(reg)@,
            old(dmem)@,
            address(base, offset, two_to(unit_log as int)),
            element as int,
            two_to(unit_log as int),
        ),
        final(dmem)@ == if address(base, offset, two_to(unit_log as int)) + two_to(unit_log as int)
            > 0x1000 {
            mirrored(old(dmem)@)
        } else {
            old(dmem)@
        },
{
    let ea = effective_address(base, offset, unit_log);
    let n: usize = if unit_log == 0 {
        1
    } else if unit_log == 1 {
        2
    } else if unit_log == 2 {
        4
    } else {
        8
    };
    if ea + n > 0x1000 {
        refresh_mirror(dmem);
    }
    let mem = read_top(dmem, ea, unit_log);
    deposit(reg, mem, element, n);
    proof {
        let expected = lxv_bytes(old(reg)@, old(dmem)@, ea as int, element as int, n as int);
        assert forall|i: int| 0 <= i < 16 implies reg@[i] == expected[i] by {
            let p = (i + 16 - element) % 16;
            if p < n {
                assert(byte_be(mem, p as u128) == dmem@[ea + p]);
                assert(dmem@[ea + p] == dmem_at(old(dmem)@, ea + p));
            }
        }
        assert(reg@ =~= expected);
    }
}

/// LQV: loads the bytes from the address up to the next 16-byte boundary
/// and leaves the rest of the register alone.
pub fn lqv(reg: &mut VectorReg, element: usize, dmem: &[u8], base: u32, offset: u32)
    requires
        element < 16,
        dmem@.len() == 0x1010,
    ensures
        final(reg)@ == lqv_bytes(old(reg)@, dmem@, address(base, offset, 16), element as int),
{
    let ea = effective_address(base, offset, 4);
    let qw_start = ea - ea % 16;
    let ea_idx = ea % 16;
    let count = 16 - ea_idx;
    let quad = be_read_u128(dmem, qw_start);
    let mem = quad << (8 * ea_idx);
    let d = reg.u128();
    reg.setu128(write_partial_right(d, mem, 8 * element, 8 * count));
    proof {
        let expected = lqv_bytes(old(reg)@, dmem@, ea as int, element as int);
        let window = dmem@.subrange(qw_start as int, qw_start + 16);
        lemma_be_u128_bytes(old(reg)@);
        lemma_be_u128_bytes(window);
        assert forall|i: int| 0 <= i < 16 implies reg@[i] == expected[i] by {
            lemma_partial_right_bytes(d, mem, element as u128, count as u128, i as u128);
            if element <= i && i - element < count {
                let k = i - element;
                lemma_shl_bytes(quad, ea_idx as u128, k as u128);
                assert(byte_be(quad, (k + ea_idx) as u128) == window[k + ea_idx]);
            } else {
                assert(byte_be(d, i as u128) == old(reg)@[i]);
            }
        }
        assert(reg@ =~= expected);
    }
}

/// LRV: loads the bytes from the 16-byte boundary below the address up to
/// the address, right-aligned in the register.
pub fn lrv(reg: &mut VectorReg, element: usize, dmem: &[u8], base: u32, offset: u32)
    requires
        element < 16,
        dmem@.len() == 0x1010,
    ensures
        final(reg)@ == lrv_bytes(old(reg)@, dmem@, address(base, offset, 16), element as int),
{
    let ea = effective_address(base, offset, 4);
    let qw_start = ea - ea % 16;
    let ea_idx = ea % 16;
    let mem = be_read_u128(dmem, qw_start);
    let sh = (16 - ea_idx) + element;
    let d = reg.u128();
    reg.setu128(write_partial_right(d, mem, 8 * sh, 128));
    proof {
        let expected = lrv_bytes(old(reg)@, dmem@, ea as int, element as int);
        let window = dmem@.subrange(qw_start as int, qw_start + 16);
        lemma_be_u128_bytes(old(reg)@);
        lemma_be_u128_bytes(window);
        assert forall|i: int| 0 <= i < 16 implies reg@[i] == expected[i] by {
            lemma_partial_right_bytes(d, mem, sh as u128, 16, i as u128);
            if i >= sh {
                assert(byte_be(mem, (i - sh) as u128) == window[i - sh]);
            } else {
                assert(byte_be(d, i as u128) == old(reg)@[i]);
            }
        }
        assert(reg@ =~= expected);
    }
}

/// Where, in the sixteen bytes from the 8-byte boundary below `ea`, lane
/// `k` of a packed load finds its byte: the offset of `ea` in its eight
/// bytes, less `element`, plus `k` strides, modulo 16.
pub open spec fn packed_index(ea: int, element: int, k: int, stride: int) -> int {
    (ea % 8 + 16 - element + stride * k) % 16
}

/// The byte that lane `k` of a packed load brings in.
pub open spec fn packed_byte(mem: Seq<u8>, ea: int, element: int, k: int, stride: int) -> u8 {
    dmem_at(mem, (ea - ea % 8) + packed_index(ea, element, k, stride))
}

/// The register after LPV (stride 1, scale 256), LUV (stride 1, scale 128)
/// or LHV (stride 2, scale 128): every lane holds its byte times the scale.
pub open spec fn packed_bytes(mem: Seq<u8>, ea: int, element: int, stride: int, scale: int) -> Seq<
    u8,
> {
    bytes_of_lanes(
        Seq::new(8, |k: int| (packed_byte(mem, ea, element, k, stride) as int * scale) as u16),
    )
}

/// The lane that LFV computes for lane `k`: its byte times 128. The lanes
/// of the upper half take every fourth byte from the offset of `ea`, those
/// of the lower half from eight bytes further.
pub open spec fn lfv_lane(mem: Seq<u8>, ea: int, element: int, k: int) -> u16 {
    let start = if k < 4 {
        0int
    } else {
        8int
    };
    (dmem_at(mem, (ea - ea % 8) + (ea % 8 + 16 - element + start + 4 * (k % 4)) % 16) as int
        * 128) as u16
}

/// The register after LFV: the eight bytes from `element` on are taken from
/// the computed lanes, the others stay.
pub open spec fn lfv_bytes(old: Seq<u8>, mem: Seq<u8>, ea: int, element: int) -> Seq<u8> {
    let new = bytes_of_lanes(Seq::new(8, |k: int| lfv_lane(mem, ea, element, k)));
    Seq::new(
        16,
        |i: int|
            if element <= i < element + 8 {
                new[i]
            } else {
                old[i]
            },
    )
}

/// Byte `j` of the sixteen bytes that LTV spreads over eight registers: the
/// sixteen bytes from the 8-byte boundary below `ea`, rotated left by
/// `element` bytes and by eight more where `ea` lies in the upper half of
/// its sixteen bytes.
pub open spec fn ltv_byte(mem: Seq<u8>, ea: int, element: int, j: int) -> u8 {
    dmem_at(mem, (ea - ea % 8) + (j + element + (ea % 16 - ea % 8)) % 16)
}

/// Lane `k` of the sixteen bytes that LTV spreads.
pub open spec fn ltv_lane(mem: Seq<u8>, ea: int, element: int, k: int) -> u16 {
    (ltv_byte(mem, ea, element, 2 * k) as int * 256 + ltv_byte(mem, ea, element, 2 * k + 1) as int) as u16
}

/// The lane of register `r` that a transposed transfer touches. Register
/// `r` lies in the block of eight registers that begins at `vtbase`.
pub open spec fn transposed_lane(r: int, vtbase: int, element: int) -> int {
    (r - vtbase + 8 - element / 2) % 8
}

/// The register of a block whose lane `k` a transposed transfer touches is
/// the one at `element / 2 + k` from the start of the block, modulo 8.
pub proof fn lemma_transposed_lane(d: int, first: int, k: int)
    requires
        0 <= d < 8,
        0 <= first < 8,
        0 <= k < 8,
    ensures
        (d + 8 - first) % 8 == k <==> d == (first + k) % 8,
{
}

/// The vector registers after LTV: each register of the block of eight
/// around `vt` gets one lane.
pub open spec fn ltv_vregs(vregs: Seq<Seq<u8>>, mem: Seq<u8>, ea: int, vt: int, element: int) -> Seq<
    Seq<u8>,
> {
    let vtbase = vt - vt % 8;
    Seq::new(
        32,
        |r: int|
            if vtbase <= r < vtbase + 8 {
                let k = transposed_lane(r, vtbase, element);
                with_lane(vregs[r], k, ltv_lane(mem, ea, element, k))
            } else {
                vregs[r]
            },
    )
}

/// LPV, LUV and LHV: loads eight bytes, `stride` apart, one into each lane.
pub fn load_packed(
    reg: &mut VectorReg,
    element: usize,
    dmem: &[u8],
    ea: usize,
    stride: usize,
    scale: u16,
)
    requires
        element < 16,
        ea < 0x1000,
        stride == 1 || stride == 2,
        scale == 128 || scale == 256,
        dmem@.len() == 0x1010,
    ensures
        final(reg)@ == packed_bytes(dmem@, ea as int, element as int, stride as int, scale as int),
{
    let qw_start = ea - ea % 8;
    for k in 0..8usize
        invariant
            reg@.len() == 16,
            element < 16,
            ea < 0x1000,
            qw_start == ea - ea % 8,
            stride == 1 || stride == 2,
            scale == 128 || scale == 256,
            dmem@.len() == 0x1010,
            forall|j: int|
                0 <= j < k ==> #[trigger] lane_of(reg@, j) == (packed_byte(
                    dmem@,
                    ea as int,
                    element as int,
                    j,
                    stride as int,
                ) as int * scale) as u16,
    {
        let step = if stride == 1 {
            k
        } else {
            2 * k
        };
        let ea_idx = (ea % 8 + 16 - element + step) % 16;
        let mem = dmem[(qw_start + ea_idx) % 0x1000] as u16;
        reg.setlane(k, mem * scale);
    }
    proof {
        lemma_reg_from_lanes(
            reg@,
            Seq::new(
                8,
                |k: int|
                    (packed_byte(dmem@, ea as int, element as int, k, stride as int) as int
                        * scale) as u16,
            ),
        );
    }
}

/// LFV: loads every fourth byte into a lane and keeps eight bytes of the
/// result.
pub fn lfv(reg: &mut VectorReg, element: usize, dmem: &[u8], base: u32, offset: u32)
    requires
        element < 16,
        dmem@.len() == 0x1010,
    ensures
        final(reg)@ == lfv_bytes(old(reg)@, dmem@, address(base, offset, 16), element as int),
{
    let ea = effective_address(base, offset, 4);
    let qw_start = ea - ea % 8;
    let mut new = VectorReg::default();
    for k in 0..8usize
        invariant
            new@.len() == 16,
            element < 16,
            ea < 0x1000,
            qw_start == ea - ea % 8,
            dmem@.len() == 0x1010,
            forall|j: int|
                0 <= j < k ==> #[trigger] lane_of(new@, j) == lfv_lane(
                    dmem@,
                    ea as int,
                    element as int,
                    j,
                ),
    {
        let start: usize = if k < 4 {
            0
        } else {
            8
        };
        let ea_idx = (ea % 8 + 16 - element + start + 4 * (k % 4)) % 16;
        let mem = dmem[(qw_start + ea_idx) % 0x1000] as u16;
        new.setlane(k, mem * 128);
    }
    proof {
        lemma_reg_from_lanes(
            new@,
            Seq::new(8, |k: int| lfv_lane(dmem@, ea as int, element as int, k)),
        );
    }
    let end = if element + 8 < 16 {
        element + 8
    } else {
        16
    };
    for i in element..end
        invariant
            reg@.len() == 16,
            new@.len() == 16,
            element <= end <= 16,
            forall|j: int|
                0 <= j < 16 ==> reg@[j] == if element <= j < i {
                    new@[j]
                } else {
                    old(reg)@[j]
                },
    {
        reg.setbyte(i, new.byte(i));
    }
    assert(reg@ =~= lfv_bytes(old(reg)@, dmem@, ea as int, element as int));
}

/// Reads the sixteen bytes from an 8-byte boundary, going on at the start
/// of the scratchpad where they reach its end.
pub fn read_quad(dmem: &[u8], qw_start: usize) -> (r: u128)
    requires
        qw_start < 0x1000,
        qw_start % 8 == 0,
        dmem@.len() == 0x1010,
    ensures
        forall|j: int| 0 <= j < 16 ==> #[trigger] byte_be(r, j as u128) == dmem_at(dmem@, qw_start + j),
{
    if qw_start != 0xFF8 {
        let r = be_read_u128(dmem, qw_start);
        proof {
            let window = dmem@.subrange(qw_start as int, qw_start + 16);
            lemma_be_u128_bytes(window);
            assert forall|j: int| 0 <= j < 16 implies #[trigger] byte_be(r, j as u128) == dmem_at(
                dmem@,
                qw_start + j,
            ) by {
                assert(window[j] == dmem@[qw_start + j]);
            }
        }
        r
    } else {
        let high = be_read_u64(dmem, 0xFF8);
        let low = be_read_u64(dmem, 0);
        let r = ((high as u128) << 64) | (low as u128);
        proof {
            let h = dmem@.subrange(0xFF8, 0x1000);
            let l = dmem@.subrange(0, 8);
            lemma_join_halves(
                h[0],
                h[1],
                h[2],
                h[3],
                h[4],
                h[5],
                h[6],
                h[7],
                l[0],
                l[1],
                l[2],
                l[3],
                l[4],
                l[5],
                l[6],
                l[7],
            );
            let joined = h + l;
            assert(r == be_u128(joined));
            lemma_be_u128_bytes(joined);
            assert forall|j: int| 0 <= j < 16 implies #[trigger] byte_be(r, j as u128) == dmem_at(
                dmem@,
                qw_start + j,
            ) by {
                if j < 8 {
                    assert(joined[j] == h[j]);
                } else {
                    assert(joined[j] == l[j - 8]);
                }
            }
        }
        r
    }
}

impl SpCop2Context {
    /// LTV: loads sixteen bytes and gives each register of a block of
    /// eight one lane of them.
    pub fn ltv(&mut self, vt: usize, element: usize, dmem: &[u8], base: u32, offset: u32)
        requires
            vt < 32,
            element < 16,
            dmem@.len() == 0x1010,
        ensures
            final(self)@ == (VuState {
                vregs: ltv_vregs(
                    old(self)@.vregs,
                    dmem@,
                    address(base, offset, 16),
                    vt as int,
                    element as int,
                ),
                ..old(self)@
            }),
            *final(self) == (SpCop2Context { vregs: final(self).vregs, ..*old(self) }),
    {
        let ea = effective_address(base, offset, 4);
        let qw_start = ea - ea % 8;
        let quad = read_quad(dmem, qw_start);
        let turn = element + (ea % 16 - ea % 8);
        let mem = rotate_left(quad, (8 * turn) as u32);
        let vtbase = vt - vt % 8;
        let first = element / 2;
        proof {
            assert forall|j: int| 0 <= j < 8 implies #[trigger] lane_of(bytes_of_u128(mem), j)
                == ltv_lane(dmem@, ea as int, element as int, j) by {
                lemma_rotl_bytes(quad, turn as u128, (2 * j) as u128);
                lemma_rotl_bytes(quad, turn as u128, (2 * j + 1) as u128);
                assert(byte_be(quad, ((2 * j + turn) % 16) as u128) == dmem_at(
                    dmem@,
                    qw_start + (2 * j + turn) % 16,
                ));
                assert(byte_be(quad, ((2 * j + 1 + turn) % 16) as u128) == dmem_at(
                    dmem@,
                    qw_start + (2 * j + 1 + turn) % 16,
                ));
            }
        }
        for k in 0..8usize
            invariant
                vt < 32,
                element < 16,
                ea < 0x1000,
                vtbase == vt - vt % 8,
                first == element / 2,
                *self == (SpCop2Context { vregs: self.vregs, ..*old(self) }),
                forall|j: int|
                    0 <= j < 8 ==> #[trigger] lane_of(bytes_of_u128(mem), j) == ltv_lane(
                        dmem@,
                        ea as int,
                        element as int,
                        j,
                    ),
                forall|r: int|
                    0 <= r < 32 ==> #[trigger] self@.vregs[r] == if vtbase <= r < vtbase + 8
                        && transposed_lane(r, vtbase as int, element as int) < k {
                        ltv_vregs(old(self)@.vregs, dmem@, ea as int, vt as int, element as int)[r]
                    } else {
                        old(self)@.vregs[r]
                    },
        {
            proof {
                lemma_word_lane(mem, k as u128);
            }
            let lane = ((mem << (16 * k)) >> 112) as u16;
            assert(lane == lane_of(bytes_of_u128(mem), k as int));
            let r = vtbase + (first + k) % 8;
            let mut reg = self.vregs[r];
            let ghost before = self@.vregs;
            reg.setlane(k, lane);
            self.set_vreg(r, reg);
            proof {
                let goal = ltv_vregs(
                    old(self)@.vregs,
                    dmem@,
                    ea as int,
                    vt as int,
                    element as int,
                );
                assert forall|q: int| 0 <= q < 32 implies #[trigger] self@.vregs[q] == if vtbase
                    <= q < vtbase + 8 && transposed_lane(q, vtbase as int, element as int) < k
                    + 1 {
                    goal[q]
                } else {
                    old(self)@.vregs[q]
                } by {
                    if vtbase <= q < vtbase + 8 {
                        lemma_transposed_lane(q - vtbase, first as int, k as int);
                    }
                    if q == r {
                        assert(before[q] == old(self)@.vregs[q]);
                    } else {
                        assert(self@.vregs[q] == before[q]);
                    }
                }
            }
        }
        assert(self@.vregs =~= ltv_vregs(
            old(self)@.vregs,
            dmem@,
            ea as int,
            vt as int,
            element as int,
        ));
    }
}

} // verus!
