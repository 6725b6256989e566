//! The vector stores: what each writes from the vector registers to the
//! scratchpad.

use crate::context::two_to;
use crate::endian::{
    be_read_u128, be_write_u128, byte_be, lemma_be_u128_bytes,
};
use crate::transfer::{address, effective_address};
use crate::vreg::{bytes_of_lanes, lane_of, lemma_reg_from_lanes, VectorReg};
use crate::word::{
    lemma_partial_left_bytes, lemma_partial_right_bytes, lemma_rotl_bytes, lemma_rotr_bytes,
    rotate_left, rotate_right, write_partial_left, write_partial_right,
};
use vstd::prelude::*;

verus! {

/// How far address `a` lies above `start`, addresses wrapping at 4 KiB.
pub open spec fn offset_from(start: int, a: int) -> int {
    (a - start) % 0x1000
}

/// The scratchpad after a store of up to sixteen bytes from address
/// `start` on, addresses wrapping at 4 KiB: byte `k` is written where
/// `picked[k]` holds. The mirror after the scratchpad is left alone.
pub open spec fn stored(mem: Seq<u8>, start: int, bytes: Seq<u8>, picked: Seq<bool>) -> Seq<u8> {
    Seq::new(
        mem.len(),
        |a: int|
            if a < 0x1000 && offset_from(start, a) < 16 && picked[offset_from(start, a)] {
                bytes[offset_from(start, a)]
            } else {
                mem[a]
            },
    )
}

/// The first `n` of sixteen bytes.
pub open spec fn first_n(n: int) -> Seq<bool> {
    Seq::new(16, |k: int| k < n)
}

/// The bytes of a register from byte `element` on, going on at byte 0
/// after byte 15.
pub open spec fn turned_bytes(reg: Seq<u8>, element: int) -> Seq<u8> {
    Seq::new(16, |k: int| reg[(element + k) % 16])
}

/// The scratchpad after SBV, SSV, SLV or SDV: `n` bytes of the register,
/// from byte `element` on, go to address `ea`.
pub open spec fn sxv_mem(mem: Seq<u8>, reg: Seq<u8>, ea: int, element: int, n: int) -> Seq<u8> {
    stored(mem, ea, turned_bytes(reg, element), first_n(n))
}

/// The scratchpad after SQV: the bytes of the register, from byte `element`
/// on, go to address `ea` and up to the next 16-byte boundary.
pub open spec fn sqv_mem(mem: Seq<u8>, reg: Seq<u8>, ea: int, element: int) -> Seq<u8> {
    Seq::new(
        mem.len(),
        |a: int|
            if ea <= a < ea - ea % 16 + 16 {
                reg[(element + a - ea) % 16]
            } else {
                mem[a]
            },
    )
}

/// The scratchpad after SRV: the bytes from the 16-byte boundary below `ea`
/// up to `ea` get the bytes of the register that SQV at the same address
/// leaves out.
pub open spec fn srv_mem(mem: Seq<u8>, reg: Seq<u8>, ea: int, element: int) -> Seq<u8> {
    Seq::new(
        mem.len(),
        |a: int|
            if ea - ea % 16 <= a < ea {
                reg[(element + (a - (ea - ea % 16)) + 16 - ea % 16) % 16]
            } else {
                mem[a]
            },
    )
}

/// Byte `k` of SPV: the upper byte of lane `element + k`; from the ninth
/// lane on, counting around, the lane is doubled first.
pub open spec fn spv_byte(reg: Seq<u8>, element: int, k: int) -> u8 {
    let eidx = (k + element) % 16;
    let lane = lane_of(reg, eidx % 8);
    if eidx < 8 {
        (lane / 256) as u8
    } else {
        (((lane * 2) % 0x1_0000) / 256) as u8
    }
}

/// Byte `k` of SUV: bits 7..15 of lane `element + k`; from the ninth lane
/// on, counting around, bits 8..16.
pub open spec fn suv_byte(reg: Seq<u8>, element: int, k: int) -> u8 {
    let eidx = (k + element) % 16;
    let lane = lane_of(reg, eidx % 8);
    if eidx < 8 {
        ((lane / 128) % 256) as u8
    } else {
        (lane / 256) as u8
    }
}

/// The scratchpad after SPV or SUV: eight bytes go to address `ea`.
pub open spec fn packed_mem(mem: Seq<u8>, reg: Seq<u8>, ea: int, element: int, upper: bool) -> Seq<
    u8,
> {
    stored(
        mem,
        ea,
        Seq::new(
            16,
            |k: int|
                if upper {
                    spv_byte(reg, element, k)
                } else {
                    suv_byte(reg, element, k)
                },
        ),
        first_n(8),
    )
}

/// Bits 7..15 of the 16 bits that begin at byte `at` of a register, going
/// on at byte 0 after byte 15.
pub open spec fn half_byte(reg: Seq<u8>, at: int) -> u8 {
    (((reg[at % 16] as int * 256 + reg[(at + 1) % 16] as int) / 128) % 256) as u8
}

/// The scratchpad after SHV: every second byte of the sixteen from the
/// 8-byte boundary below `ea`, beginning at the offset of `ea`, gets bits
/// 7..15 of a 16-bit piece of the register.
pub open spec fn shv_mem(mem: Seq<u8>, reg: Seq<u8>, ea: int, element: int) -> Seq<u8> {
    stored(
        mem,
        ea - ea % 8,
        Seq::new(16, |j: int| half_byte(reg, element + (j + 16 - ea % 8) % 16)),
        Seq::new(16, |j: int| (j + 16 - ea % 8) % 2 == 0),
    )
}

/// The lane that SFV stores in its `k`-th byte, for the elements for which
/// it stores any; `None` stands for a zero.
pub open spec fn sfv_source(element: int, k: int) -> Option<int> {
    if element == 0 || element == 15 {
        Some(k)
    } else if element == 4 {
        Some((k + 1) % 4)
    } else if element == 8 {
        Some(4 + k)
    } else if element == 11 {
        Some((k + 3) % 4)
    } else if element == 12 {
        Some(4 + (k + 1) % 4)
    } else {
        None
    }
}

/// Byte `k` of SFV: bits 7..15 of the lane that `sfv_source` names, or
/// zero.
pub open spec fn sfv_byte(reg: Seq<u8>, element: int, k: int) -> u8 {
    match sfv_source(element, k) {
        Some(lane) => ((lane_of(reg, lane) / 128) % 256) as u8,
        None => 0u8,
    }
}

/// The scratchpad after SFV: every fourth byte of the sixteen from the
/// 8-byte boundary below `ea`, beginning at the offset of `ea`, is written.
pub open spec fn sfv_mem(mem: Seq<u8>, reg: Seq<u8>, ea: int, element: int) -> Seq<u8> {
    stored(
        mem,
        ea - ea % 8,
        Seq::new(16, |j: int| sfv_byte(reg, element, ((j + 16 - ea % 8) % 16) / 4)),
        Seq::new(16, |j: int| (j + 16 - ea % 8) % 4 == 0),
    )
}

/// The scratchpad after SWV: the register, rotated right by the offset of
/// `ea` in its eight bytes and left by `element` bytes, goes to the 8-byte
/// boundary below `ea`.
pub open spec fn swv_mem(mem: Seq<u8>, reg: Seq<u8>, ea: int, element: int) -> Seq<u8> {
    stored(mem, ea - ea % 8, turned_bytes(reg, element + 16 - ea % 8), first_n(16))
}

/// The sixteen bytes that STV gathers: lane `k` comes from lane `k` of the
/// register at `element / 2 + k`, modulo 8, in the block of eight
/// registers around `vt`.
pub open spec fn stv_word(vregs: Seq<Seq<u8>>, vt: int, element: int) -> Seq<u8> {
    bytes_of_lanes(
        Seq::new(8, |k: int| lane_of(vregs[vt - vt % 8 + (element / 2 + k) % 8], k)),
    )
}

/// The scratchpad after STV: the gathered bytes, rotated right by the
/// offset of `ea` in its eight bytes, go to the 8-byte boundary below `ea`.
pub open spec fn stv_mem(mem: Seq<u8>, vregs: Seq<Seq<u8>>, ea: int, vt: int, element: int) -> Seq<
    u8,
> {
    stored(
        mem,
        ea - ea % 8,
        turned_bytes(stv_word(vregs, vt, element), 16 - ea % 8),
        first_n(16),
    )
}

/// Going `e` bytes up and then `a` bytes down, around the end, is going
/// `e + 16 - a` bytes up.
proof fn lemma_up_down(j: int, e: int, a: int)
    requires
        0 <= j < 16,
        0 <= e < 16,
        0 <= a < 8,
    ensures
        ((j + e) % 16 + 16 - a) % 16 == (e + 16 - a + j) % 16,
{
}

/// An address lies `k` above `start` exactly if it is `start + k` wrapped.
pub proof fn lemma_offset(start: int, a: int, k: int)
    requires
        0 <= start < 0x1000,
        0 <= a < 0x1000,
        0 <= k < 16,
    ensures
        offset_from(start, a) == k <==> a == (start + k) % 0x1000,
{
}

/// Writes those of sixteen bytes that are picked to the scratchpad from
/// `start` on, addresses wrapping at 4 KiB.
pub fn store_picked(dmem: &mut [u8], start: usize, bytes: &[u8; 16], picked: &[bool; 16])
    requires
        start < 0x1000,
        old(dmem)@.len() == 0x1010,
    ensures
        final(dmem)@ == stored(old(dmem)@, start as int, bytes@, picked@),
{
    for k in 0..16usize
        invariant
            start < 0x1000,
            dmem@.len() == 0x1010,
            old(dmem)@.len() == 0x1010,
            forall|a: int|
                0 <= a < 0x1010 ==> #[trigger] dmem@[a] == if a < 0x1000 && offset_from(
                    start as int,
                    a,
                ) < k && picked@[offset_from(start as int, a)] {
                    bytes@[offset_from(start as int, a)]
                } else {
                    old(dmem)@[a]
                },
    {
        let ghost before = dmem@;
        let t = (start + k) % 0x1000;
        if picked[k] {
            dmem[t] = bytes[k];
        }
        proof {
            assert forall|a: int| 0 <= a < 0x1010 implies #[trigger] dmem@[a] == if a < 0x1000
                && offset_from(start as int, a) < k + 1 && picked@[offset_from(start as int, a)] {
                bytes@[offset_from(start as int, a)]
            } else {
                old(dmem)@[a]
            } by {
                if a < 0x1000 {
                    lemma_offset(start as int, a, k as int);
                }
                assert(before[a] == if a < 0x1000 && offset_from(start as int, a) < k
                    && picked@[offset_from(start as int, a)] {
                    bytes@[offset_from(start as int, a)]
                } else {
                    old(dmem)@[a]
                });
            }
        }
    }
    assert(dmem@ =~= stored(old(dmem)@, start as int, bytes@, picked@));
}

/// The sixteen bytes of a word, most significant first.
pub fn word_bytes(v: u128) -> (r: [u8; 16])
    ensures
        forall|j: int| 0 <= j < 16 ==> #[trigger] r@[j] == byte_be(v, j as u128),
{
    let mut buf = [0u8; 16];
    be_write_u128(&mut buf, 0, v);
    buf
}

/// Sixteen flags of which the first `n` are set.
fn pick_first(n: usize) -> (r: [bool; 16])
    requires
        n <= 16,
    ensures
        r@ == first_n(n as int),
{
    let mut picked = [false; 16];
    for k in 0..n
        invariant
            n <= 16,
            forall|j: int| 0 <= j < 16 ==> #[trigger] picked@[j] == (j < k),
    {
        picked[k] = true;
    }
    assert(picked@ =~= first_n(n as int));
    picked
}

/// The bytes of a register from byte `element` on, around the end.
fn turn(reg: &VectorReg, element: usize) -> (r: [u8; 16])
    requires
        element < 32,
    ensures
        r@ == turned_bytes(reg@, element as int),
{
    let word = reg.u128();
    let r = word_bytes(rotate_left(word, (8 * element) as u32));
    proof {
        lemma_be_u128_bytes(reg@);
        assert forall|k: int| 0 <= k < 16 implies r@[k] == turned_bytes(reg@, element as int)[k] by {
            lemma_rotl_bytes(word, element as u128, k as u128);
            assert(byte_be(word, ((k + element) % 16) as u128) == reg@[(k + element) % 16]);
        }
        assert(r@ =~= turned_bytes(reg@, element as int));
    }
    r
}

/// SBV, SSV, SLV and SDV: stores `2^unit_log` bytes of the register, from
/// byte `element` on, as a big-endian number.
pub fn sxv(dmem: &mut [u8], base: u32, offset: u32, reg: &VectorReg, element: usize, unit_log: u32)
    requires
        unit_log <= 3,
        element < 16,
        old(dmem)@.len() == 0x1010,
    ensures
        final(dmem)@ == sxv_mem(
            old(dmem)@,
            reg@,
            address(base, offset, two_to(unit_log as int)),
            element as int,
            two_to(unit_log as int),
        ),
{
    let ea = effective_address(base, offset, unit_log);
    let n: usize = if unit_log == 0 {
        1
    } else if unit_log == 1 {
        2
    } else if unit_log == 2 {
        4
    } else {
        8
    };
    let bytes = turn(reg, element);
    let picked = pick_first(n);
    store_picked(dmem, ea, &bytes, &picked);
}

/// SQV: stores the register from the address up to the next 16-byte
/// boundary.
pub fn sqv(dmem: &mut [u8], base: u32, offset: u32, reg: &VectorReg, element: usize)
    requires
        element < 16,
        old(dmem)@.len() == 0x1010,
    ensures
        final(dmem)@ == sqv_mem(old(dmem)@, reg@, address(base, offset, 16), element as int),
{
    let ea = effective_address(base, offset, 4);
    let qw_start = ea - ea % 16;
    let ea_idx = ea % 16;
    let word = reg.u128();
    let turned = rotate_left(word, (8 * element) as u32);
    let d = be_read_u128(dmem, qw_start);
    let merged = write_partial_right(d, turned, 8 * ea_idx, 128);
    be_write_u128(dmem, qw_start, merged);
    proof {
        let expected = sqv_mem(old(dmem)@, reg@, ea as int, element as int);
        let window = old(dmem)@.subrange(qw_start as int, qw_start + 16);
        lemma_be_u128_bytes(reg@);
        lemma_be_u128_bytes(window);
        assert forall|a: int| 0 <= a < 0x1010 implies dmem@[a] == expected[a] by {
            if qw_start <= a < qw_start + 16 {
                let j = a - qw_start;
                lemma_partial_right_bytes(d, turned, ea_idx as u128, 16, j as u128);
                assert(byte_be(d, j as u128) == window[j]);
                if j >= ea_idx {
                    lemma_rotl_bytes(word, element as u128, (j - ea_idx) as u128);
                    assert(byte_be(word, ((j - ea_idx + element) % 16) as u128) == reg@[(j
                        - ea_idx + element) % 16]);
                }
            }
        }
        assert(dmem@ =~= expected);
    }
}

/// SRV: stores the rest of the register from the 16-byte boundary below
/// the address up to the address.
pub fn srv(dmem: &mut [u8], base: u32, offset: u32, reg: &VectorReg, element: usize)
    requires
        element < 16,
        old(dmem)@.len() == 0x1010,
    ensures
        final(dmem)@ == srv_mem(old(dmem)@, reg@, address(base, offset, 16), element as int),
{
    let ea = effective_address(base, offset, 4);
    let qw_start = ea - ea % 16;
    let ea_idx = ea % 16;
    let word = reg.u128();
    let turned = rotate_left(word, (8 * element) as u32);
    let d = be_read_u128(dmem, qw_start);
    let skip = 16 - ea_idx;
    let merged = write_partial_left(d, turned, 8 * skip);
    be_write_u128(dmem, qw_start, merged);
    proof {
        let expected = srv_mem(old(dmem)@, reg@, ea as int, element as int);
        let window = old(dmem)@.subrange(qw_start as int, qw_start + 16);
        lemma_be_u128_bytes(reg@);
        lemma_be_u128_bytes(window);
        assert forall|a: int| 0 <= a < 0x1010 implies dmem@[a] == expected[a] by {
            if qw_start <= a < qw_start + 16 {
                let j = a - qw_start;
                lemma_partial_left_bytes(d, turned, skip as u128, j as u128);
                assert(byte_be(d, j as u128) == window[j]);
                if j < ea_idx {
                    lemma_rotl_bytes(word, element as u128, (j + skip) as u128);
                    assert(byte_be(word, ((j + skip + element) % 16) as u128) == reg@[(j + skip
                        + element) % 16]);
                }
            }
        }
        assert(dmem@ =~= expected);
    }
}

/// SPV (`upper` set) and SUV (`upper` clear): stores one byte of each of
/// eight lanes.
pub fn store_packed(
    dmem: &mut [u8],
    base: u32,
    offset: u32,
    reg: &VectorReg,
    element: usize,
    upper: bool,
)
    requires
        element < 16,
        old(dmem)@.len() == 0x1010,
    ensures
        final(dmem)@ == packed_mem(old(dmem)@, reg@, address(base, offset, 8), element as int, upper),
{
    let ea = effective_address(base, offset, 3);
    let mut bytes = [0u8; 16];
    for k in 0..8usize
        invariant
            element < 16,
            forall|j: int|
                0 <= j < k ==> #[trigger] bytes@[j] == if upper {
                    spv_byte(reg@, element as int, j)
                } else {
                    suv_byte(reg@, element as int, j)
                },
    {
        let eidx = (k + element) % 16;
        let lane = reg.lane(eidx % 8);
        let b: u16 = if upper {
            if eidx < 8 {
                lane / 256
            } else {
                (((lane as u32) * 2) % 0x1_0000) as u16 / 256
            }
        } else if eidx < 8 {
            (lane / 128) % 256
        } else {
            lane / 256
        };
        bytes[k] = b as u8;
    }
    let picked = pick_first(8);
    store_picked(dmem, ea, &bytes, &picked);
    proof {
        let want = Seq::new(
            16,
            |k: int|
                if upper {
                    spv_byte(reg@, element as int, k)
                } else {
                    suv_byte(reg@, element as int, k)
                },
        );
        assert(stored(old(dmem)@, ea as int, bytes@, picked@) =~= stored(
            old(dmem)@,
            ea as int,
            want,
            first_n(8),
        ));
    }
}

/// SHV: stores bits 7..15 of eight 16-bit pieces of the register into
/// every second byte.
pub fn shv(dmem: &mut [u8], base: u32, offset: u32, reg: &VectorReg, element: usize)
    requires
        element < 16,
        old(dmem)@.len() == 0x1010,
    ensures
        final(dmem)@ == shv_mem(old(dmem)@, reg@, address(base, offset, 16), element as int),
{
    let ea = effective_address(base, offset, 4);
    let qw_start = ea - ea % 8;
    let ea_idx = ea % 8;
    let mut bytes = [0u8; 16];
    let mut picked = [false; 16];
    for j in 0..16usize
        invariant
            element < 16,
            ea_idx < 8,
            forall|i: int|
                0 <= i < j ==> #[trigger] picked@[i] == ((i + 16 - ea_idx) % 2 == 0),
            forall|i: int|
                0 <= i < j ==> #[trigger] bytes@[i] == half_byte(
                    reg@,
                    element + (i + 16 - ea_idx) % 16,
                ),
    {
        let at = element + (j + 16 - ea_idx) % 16;
        let v: u16 = reg.byte(at % 16) as u16 * 256 + reg.byte((at + 1) % 16) as u16;
        bytes[j] = ((v / 128) % 256) as u8;
        picked[j] = (j + 16 - ea_idx) % 2 == 0;
    }
    store_picked(dmem, qw_start, &bytes, &picked);
    proof {
        assert(bytes@ =~= Seq::new(
            16,
            |j: int| half_byte(reg@, element + (j + 16 - ea % 8) % 16),
        ));
        assert(picked@ =~= Seq::new(16, |j: int| (j + 16 - ea % 8) % 2 == 0));
    }
}

/// The lane that SFV stores in its `k`-th byte.
fn sfv_lane(element: usize, k: usize) -> (r: Option<usize>)
    requires
        element < 16,
        k < 4,
    ensures
        match r {
            Some(lane) => lane < 8 && sfv_source(element as int, k as int) == Some(lane as int),
            None => sfv_source(element as int, k as int).is_none(),
        },
{
    if element == 0 || element == 15 {
        Some(k)
    } else if element == 4 {
        Some((k + 1) % 4)
    } else if element == 8 {
        Some(4 + k)
    } else if element == 11 {
        Some((k + 3) % 4)
    } else if element == 12 {
        Some(4 + (k + 1) % 4)
    } else {
        None
    }
}

/// SFV: stores bits 7..15 of four lanes into every fourth byte.
pub fn sfv(dmem: &mut [u8], base: u32, offset: u32, reg: &VectorReg, element: usize)
    requires
        element < 16,
        old(dmem)@.len() == 0x1010,
    ensures
        final(dmem)@ == sfv_mem(old(dmem)@, reg@, address(base, offset, 16), element as int),
{
    let ea = effective_address(base, offset, 4);
    let qw_start = ea - ea % 8;
    let ea_idx = ea % 8;
    let mut bytes = [0u8; 16];
    let mut picked = [false; 16];
    for j in 0..16usize
        invariant
            element < 16,
            ea_idx < 8,
            forall|i: int|
                0 <= i < j ==> #[trigger] picked@[i] == ((i + 16 - ea_idx) % 4 == 0),
            forall|i: int|
                0 <= i < j ==> #[trigger] bytes@[i] == sfv_byte(
                    reg@,
                    element as int,
                    ((i + 16 - ea_idx) % 16) / 4,
                ),
    {
        let k = ((j + 16 - ea_idx) % 16) / 4;
        let v: u16 = match sfv_lane(element, k) {
            Some(lane) => reg.lane(lane),
            None => 0,
        };
        bytes[j] = ((v / 128) % 256) as u8;
        picked[j] = (j + 16 - ea_idx) % 4 == 0;
    }
    store_picked(dmem, qw_start, &bytes, &picked);
    proof {
        assert(bytes@ =~= Seq::new(
            16,
            |j: int| sfv_byte(reg@, element as int, ((j + 16 - ea % 8) % 16) / 4),
        ));
        assert(picked@ =~= Seq::new(16, |j: int| (j + 16 - ea % 8) % 4 == 0));
    }
}

/// SWV: stores the whole register, rotated.
pub fn swv(dmem: &mut [u8], base: u32, offset: u32, reg: &VectorReg, element: usize)
    requires
        element < 16,
        old(dmem)@.len() == 0x1010,
    ensures
        final(dmem)@ == swv_mem(old(dmem)@, reg@, address(base, offset, 16), element as int),
{
    let ea = effective_address(base, offset, 4);
    let qw_start = ea - ea % 8;
    let word = reg.u128();
    let right = rotate_right(word, (8 * (ea % 8)) as u32);
    let both = rotate_left(right, (8 * element) as u32);
    let bytes = word_bytes(both);
    let picked = pick_first(16);
    store_picked(dmem, qw_start, &bytes, &picked);
    proof {
        lemma_be_u128_bytes(reg@);
        let want = turned_bytes(reg@, element + 16 - ea % 8);
        assert forall|j: int| 0 <= j < 16 implies bytes@[j] == want[j] by {
            lemma_rotl_bytes(right, element as u128, j as u128);
            let p = (j + element) % 16;
            lemma_rotr_bytes(word, (ea % 8) as u128, p as u128);
            let q = (p + 16 - ea % 8) % 16;
            lemma_up_down(j, element as int, (ea % 8) as int);
            assert(byte_be(word, q as u128) == reg@[q]);
        }
        assert(bytes@ =~= want);
    }
}

/// STV: gathers one lane from each register of a block of eight and
/// stores the sixteen bytes, rotated.
pub fn stv(
    dmem: &mut [u8],
    base: u32,
    offset: u32,
    vregs: &[VectorReg; 32],
    vt: usize,
    element: usize,
)
    requires
        vt < 32,
        element < 16,
        old(dmem)@.len() == 0x1010,
    ensures
        final(dmem)@ == stv_mem(
            old(dmem)@,
            Seq::new(32, |r: int| vregs@[r]@),
            address(base, offset, 16),
            vt as int,
            element as int,
        ),
{
    let ea = effective_address(base, offset, 4);
    let qw_start = ea - ea % 8;
    let vtbase = vt - vt % 8;
    let first = element / 2;
    let ghost regs = Seq::new(32, |r: int| vregs@[r]@);
    let mut gathered = VectorReg::default();
    for k in 0..8usize
        invariant
            vt < 32,
            vtbase == vt - vt % 8,
            first == element / 2,
            element < 16,
            gathered@.len() == 16,
            regs == Seq::new(32, |r: int| vregs@[r]@),
            forall|j: int|
                0 <= j < k ==> #[trigger] lane_of(gathered@, j) == lane_of(
                    regs[vtbase + (first + j) % 8],
                    j,
                ),
    {
        let r = vregs[vtbase + (first + k) % 8].lane(k);
        gathered.setlane(k, r);
    }
    proof {
        lemma_reg_from_lanes(
            gathered@,
            Seq::new(8, |k: int| lane_of(regs[vt - vt % 8 + (element / 2 + k) % 8], k)),
        );
    }
    let bytes = turn(&gathered, 16 - ea % 8);
    let picked = pick_first(16);
    store_picked(dmem, qw_start, &bytes, &picked);
}

} // verus!
