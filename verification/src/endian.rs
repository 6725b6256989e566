//! Words and the bytes they are made of, and the byte-order conversions the
//! unit relies on.

use byteorder::{BigEndian, ByteOrder, LittleEndian};
use vstd::prelude::*;

verus! {

/// Byte `i` of a 128-bit word, counting from the most significant byte.
pub open spec fn byte_be(v: u128, i: u128) -> u8 {
    ((v >> ((15 - i) * 8) as u128) & 0xFF) as u8
}

/// The 128-bit word whose bytes, most significant first, are `b0` to `b15`.
pub open spec fn pack16(
    b0: u8,
    b1: u8,
    b2: u8,
    b3: u8,
    b4: u8,
    b5: u8,
    b6: u8,
    b7: u8,
    b8: u8,
    b9: u8,
    b10: u8,
    b11: u8,
    b12: u8,
    b13: u8,
    b14: u8,
    b15: u8,
) -> u128 {
    (b0 as u128) << 120 | (b1 as u128) << 112 | (b2 as u128) << 104 | (b3 as u128) << 96
        | (b4 as u128) << 88 | (b5 as u128) << 80 | (b6 as u128) << 72 | (b7 as u128) << 64
        | (b8 as u128) << 56 | (b9 as u128) << 48 | (b10 as u128) << 40 | (b11 as u128) << 32
        | (b12 as u128) << 24 | (b13 as u128) << 16 | (b14 as u128) << 8 | (b15 as u128)
}

/// The 64-bit word whose bytes, most significant first, are `b0` to `b7`.
pub open spec fn pack8(b0: u8, b1: u8, b2: u8, b3: u8, b4: u8, b5: u8, b6: u8, b7: u8) -> u64 {
    (b0 as u64) << 56 | (b1 as u64) << 48 | (b2 as u64) << 40 | (b3 as u64) << 32
        | (b4 as u64) << 24 | (b5 as u64) << 16 | (b6 as u64) << 8 | (b7 as u64)
}

/// The 32-bit word whose bytes, most significant first, are `b0` to `b3`.
pub open spec fn pack4(b0: u8, b1: u8, b2: u8, b3: u8) -> u32 {
    (b0 as u32) << 24 | (b1 as u32) << 16 | (b2 as u32) << 8 | (b3 as u32)
}

/// The 16-bit word with high byte `b0` and low byte `b1`.
pub open spec fn pack2(b0: u8, b1: u8) -> u16 {
    (b0 as u16) << 8 | (b1 as u16)
}

/// The word that the first sixteen bytes of `s` spell in big-endian order.
pub open spec fn be_u128(s: Seq<u8>) -> u128 {
    pack16(
        s[0],
        s[1],
        s[2],
        s[3],
        s[4],
        s[5],
        s[6],
        s[7],
        s[8],
        s[9],
        s[10],
        s[11],
        s[12],
        s[13],
        s[14],
        s[15],
    )
}

/// The word that the first sixteen bytes of `s` spell in little-endian order.
pub open spec fn le_u128(s: Seq<u8>) -> u128 {
    pack16(
        s[15],
        s[14],
        s[13],
        s[12],
        s[11],
        s[10],
        s[9],
        s[8],
        s[7],
        s[6],
        s[5],
        s[4],
        s[3],
        s[2],
        s[1],
        s[0],
    )
}

/// The word that the first eight bytes of `s` spell in big-endian order.
pub open spec fn be_u64(s: Seq<u8>) -> u64 {
    pack8(s[0], s[1], s[2], s[3], s[4], s[5], s[6], s[7])
}

/// The word that the first four bytes of `s` spell in big-endian order.
pub open spec fn be_u32(s: Seq<u8>) -> u32 {
    pack4(s[0], s[1], s[2], s[3])
}

/// The word that the first two bytes of `s` spell in big-endian order.
pub open spec fn be_u16(s: Seq<u8>) -> u16 {
    pack2(s[0], s[1])
}

/// The sixteen bytes of a word, most significant first.
pub open spec fn bytes_of_u128(v: u128) -> Seq<u8> {
    Seq::new(16, |i: int| byte_be(v, i as u128))
}

/// Every byte of a packed word is the byte it was packed from.
pub proof fn lemma_byte_of_pack16(
    b0: u8,
    b1: u8,
    b2: u8,
    b3: u8,
    b4: u8,
    b5: u8,
    b6: u8,
    b7: u8,
    b8: u8,
    b9: u8,
    b10: u8,
    b11: u8,
    b12: u8,
    b13: u8,
    b14: u8,
    b15: u8,
)
    by (bit_vector)
    ensures
        ({
            let v = pack16(b0, b1, b2, b3, b4, b5, b6, b7, b8, b9, b10, b11, b12, b13, b14, b15);
            &&& byte_be(v, 0) == b0
            &&& byte_be(v, 1) == b1
            &&& byte_be(v, 2) == b2
            &&& byte_be(v, 3) == b3
            &&& byte_be(v, 4) == b4
            &&& byte_be(v, 5) == b5
            &&& byte_be(v, 6) == b6
            &&& byte_be(v, 7) == b7
            &&& byte_be(v, 8) == b8
            &&& byte_be(v, 9) == b9
            &&& byte_be(v, 10) == b10
            &&& byte_be(v, 11) == b11
            &&& byte_be(v, 12) == b12
            &&& byte_be(v, 13) == b13
            &&& byte_be(v, 14) == b14
            &&& byte_be(v, 15) == b15
        }),
{
}

/// A word is the packing of its own bytes.
pub proof fn lemma_pack16_of_bytes(v: u128)
    by (bit_vector)
    ensures
        pack16(
            byte_be(v, 0),
            byte_be(v, 1),
            byte_be(v, 2),
            byte_be(v, 3),
            byte_be(v, 4),
            byte_be(v, 5),
            byte_be(v, 6),
            byte_be(v, 7),
            byte_be(v, 8),
            byte_be(v, 9),
            byte_be(v, 10),
            byte_be(v, 11),
            byte_be(v, 12),
            byte_be(v, 13),
            byte_be(v, 14),
            byte_be(v, 15),
        ) == v,
{
}

/// Sixteen zero bytes spell zero.
pub proof fn lemma_zero_word()
    ensures
        be_u128(Seq::new(16, |i: int| 0u8)) == 0,
{
    assert(pack16(0, 0, 0, 0, 0, 0, 0, 0, 0, 0, 0, 0, 0, 0, 0, 0) == 0) by (bit_vector);
}

/// Splitting the word that sixteen bytes spell gives the bytes back.
pub proof fn lemma_bytes_of_be_u128(s: Seq<u8>)
    requires
        s.len() == 16,
    ensures
        bytes_of_u128(be_u128(s)) == s,
{
    lemma_byte_of_pack16(
        s[0],
        s[1],
        s[2],
        s[3],
        s[4],
        s[5],
        s[6],
        s[7],
        s[8],
        s[9],
        s[10],
        s[11],
        s[12],
        s[13],
        s[14],
        s[15],
    );
    assert(bytes_of_u128(be_u128(s)) =~= s);
}

/// Spelling the bytes of a word gives the word back.
pub proof fn lemma_be_u128_of_bytes(v: u128)
    ensures
        be_u128(bytes_of_u128(v)) == v,
{
    lemma_pack16_of_bytes(v);
}

/// Every byte of the word that sixteen bytes spell is one of those bytes.
pub proof fn lemma_be_u128_bytes(s: Seq<u8>)
    requires
        16 <= s.len(),
    ensures
        forall|j: int| 0 <= j < 16 ==> #[trigger] byte_be(be_u128(s), j as u128) == s[j],
{
    lemma_byte_of_pack16(
        s[0],
        s[1],
        s[2],
        s[3],
        s[4],
        s[5],
        s[6],
        s[7],
        s[8],
        s[9],
        s[10],
        s[11],
        s[12],
        s[13],
        s[14],
        s[15],
    );
}

/// A big-endian number of one, two, four or eight bytes, moved to the top
/// of a 128-bit word, has its bytes first and zeros after them.
pub proof fn lemma_top_bytes(
    b0: u8,
    b1: u8,
    b2: u8,
    b3: u8,
    b4: u8,
    b5: u8,
    b6: u8,
    b7: u8,
    i: u128,
)
    by (bit_vector)
    requires
        i < 16,
    ensures
        byte_be((pack8(b0, b1, b2, b3, b4, b5, b6, b7) as u128) << 64, i) == (if i == 0 {
            b0
        } else if i == 1 {
            b1
        } else if i == 2 {
            b2
        } else if i == 3 {
            b3
        } else if i == 4 {
            b4
        } else if i == 5 {
            b5
        } else if i == 6 {
            b6
        } else if i == 7 {
            b7
        } else {
            0u8
        }),
        byte_be((pack4(b0, b1, b2, b3) as u128) << 96, i) == (if i == 0 {
            b0
        } else if i == 1 {
            b1
        } else if i == 2 {
            b2
        } else if i == 3 {
            b3
        } else {
            0u8
        }),
        byte_be((pack2(b0, b1) as u128) << 112, i) == (if i == 0 {
            b0
        } else if i == 1 {
            b1
        } else {
            0u8
        }),
        byte_be((b0 as u128) << 120, i) == (if i == 0 {
            b0
        } else {
            0u8
        }),
{
}

/// Two big-endian halves joined are the big-endian whole.
pub proof fn lemma_join_halves(
    b0: u8,
    b1: u8,
    b2: u8,
    b3: u8,
    b4: u8,
    b5: u8,
    b6: u8,
    b7: u8,
    b8: u8,
    b9: u8,
    b10: u8,
    b11: u8,
    b12: u8,
    b13: u8,
    b14: u8,
    b15: u8,
)
    by (bit_vector)
    ensures
        ((pack8(b0, b1, b2, b3, b4, b5, b6, b7) as u128) << 64) | (pack8(
            b8,
            b9,
            b10,
            b11,
            b12,
            b13,
            b14,
            b15,
        ) as u128) == pack16(b0, b1, b2, b3, b4, b5, b6, b7, b8, b9, b10, b11, b12, b13, b14, b15),
{
}

/// `byteorder::BigEndian::read_u16` on `buf[at..]`: the two bytes from `at`
/// read as one number, the first byte the most significant.
#[verifier::external_body]
pub(crate) fn be_read_u16(buf: &[u8], at: usize) -> (r: u16)
    requires
        at + 2 <= buf@.len(),
    ensures
        r == be_u16(buf@.subrange(at as int, at + 2)),
{
    BigEndian::read_u16(&buf[at..])
}

/// `byteorder::BigEndian::read_u32` on `buf[at..]`: the four bytes from
/// `at` read as one number, the first byte the most significant.
#[verifier::external_body]
pub(crate) fn be_read_u32(buf: &[u8], at: usize) -> (r: u32)
    requires
        at + 4 <= buf@.len(),
    ensures
        r == be_u32(buf@.subrange(at as int, at + 4)),
{
    BigEndian::read_u32(&buf[at..])
}

/// `byteorder::BigEndian::read_u64` on `buf[at..]`: the eight bytes from
/// `at` read as one number, the first byte the most significant.
#[verifier::external_body]
pub(crate) fn be_read_u64(buf: &[u8], at: usize) -> (r: u64)
    requires
        at + 8 <= buf@.len(),
    ensures
        r == be_u64(buf@.subrange(at as int, at + 8)),
{
    BigEndian::read_u64(&buf[at..])
}

/// `byteorder::BigEndian::read_u128` on `buf[at..]`: the sixteen bytes from
/// `at` read as one number, the first byte the most significant.
#[verifier::external_body]
pub(crate) fn be_read_u128(buf: &[u8], at: usize) -> (r: u128)
    requires
        at + 16 <= buf@.len(),
    ensures
        r == be_u128(buf@.subrange(at as int, at + 16)),
{
    BigEndian::read_u128(&buf[at..])
}

/// `byteorder::BigEndian::write_u128` on `buf[at..]`: the sixteen bytes
/// from `at` become the bytes of `n`, most significant first; no other byte
/// changes.
#[verifier::external_body]
pub(crate) fn be_write_u128(buf: &mut [u8], at: usize, n: u128)
    requires
        at + 16 <= old(buf)@.len(),
    ensures
        final(buf)@.len() == old(buf)@.len(),
        forall|i: int|
            0 <= i < old(buf)@.len() ==> final(buf)@[i] == if at <= i < at + 16 {
                byte_be(n, (i - at) as u128)
            } else {
                old(buf)@[i]
            },
{
    BigEndian::write_u128(&mut buf[at..], n)
}

/// `byteorder::LittleEndian::read_u16` on `buf[at..]`: the two bytes at `at`
/// and `at + 1` read as one number, the first byte the less significant.
#[verifier::external_body]
pub(crate) fn le_read_u16(buf: &[u8], at: usize) -> (r: u16)
    requires
        at + 2 <= buf@.len(),
    ensures
        r == buf@[at as int] as int + 256 * (buf@[at + 1] as int),
{
    LittleEndian::read_u16(&buf[at..])
}

/// `byteorder::LittleEndian::write_u16` on `buf[at..]`: the low byte of `n`
/// goes to `at`, the high byte to `at + 1`, and no other byte changes.
#[verifier::external_body]
pub(crate) fn le_write_u16(buf: &mut [u8], at: usize, n: u16)
    requires
        at + 2 <= old(buf)@.len(),
    ensures
        final(buf)@ == old(buf)@.update(at as int, (n % 256) as u8).update(
            at + 1,
            (n / 256) as u8,
        ),
{
    LittleEndian::write_u16(&mut buf[at..], n)
}

/// `byteorder::LittleEndian::read_u128`: the first sixteen bytes of `buf`
/// read as one number, the first byte the least significant.
#[verifier::external_body]
pub(crate) fn le_read_u128(buf: &[u8]) -> (r: u128)
    requires
        16 <= buf@.len(),
    ensures
        r == le_u128(buf@),
{
    LittleEndian::read_u128(buf)
}

/// `byteorder::LittleEndian::write_u128`: the first sixteen bytes of `buf`
/// become the bytes of `n`, least significant first; the rest is untouched.
#[verifier::external_body]
pub(crate) fn le_write_u128(buf: &mut [u8], n: u128)
    requires
        16 <= old(buf)@.len(),
    ensures
        final(buf)@.len() == old(buf)@.len(),
        forall|i: int|
            0 <= i < old(buf)@.len() ==> final(buf)@[i] == if i < 16 {
                byte_be(n, (15 - i) as u128)
            } else {
                old(buf)@[i]
            },
{
    LittleEndian::write_u128(buf, n)
}

} // verus!
