//! Integers as little-endian bytes, the form in which they are persisted.

use vstd::prelude::*;

verus! {

/// The unsigned value of two little-endian bytes.
pub open spec fn le_u16(b: Seq<u8>) -> int {
    b[0] + 0x100 * b[1]
}

/// The unsigned value of four little-endian bytes.
pub open spec fn le_u32(b: Seq<u8>) -> int {
    b[0] + 0x100 * (b[1] + 0x100 * (b[2] + 0x100 * b[3]))
}

/// The unsigned value of eight little-endian bytes.
pub open spec fn le_u64(b: Seq<u8>) -> int {
    b[0] + 0x100 * (b[1] + 0x100 * (b[2] + 0x100 * (b[3] + 0x100 * (b[4] + 0x100 * (b[5] + 0x100 * (
    b[6] + 0x100 * b[7]))))))
}

/// The two's complement value of eight little-endian bytes.
pub open spec fn le_i64(b: Seq<u8>) -> int {
    if b[7] < 0x80 {
        le_u64(b)
    } else {
        le_u64(b) - 0x1_0000_0000_0000_0000
    }
}

/// A `u16` as two bytes.
pub fn u16_to_le_bytes(value: u16) -> (b: [u8; 2])
    ensures
        b@ == seq![(value % 0x100) as u8, (value / 0x100) as u8],
        le_u16(b@) == value,
{
    let b: [u8; 2] = [(value % 0x100) as u8, (value / 0x100) as u8];
    proof {
        assert(b@ =~= seq![(value % 0x100) as u8, (value / 0x100) as u8]);
    }

    b
}

/// The `u16` that two bytes stand for.
pub fn u16_from_le_bytes(low: u8, high: u8) -> (value: u16)
    ensures
        value == le_u16(seq![low, high]),
{
    low as u16 + 0x100 * (high as u16)
}

/// A `u32` as four bytes.
pub fn u32_to_le_bytes(value: u32) -> (b: [u8; 4])
    ensures
        le_u32(b@) == value,
{
    let v1: u32 = value / 0x100;
    let v2: u32 = v1 / 0x100;
    let v3: u32 = v2 / 0x100;

    [(value % 0x100) as u8, (v1 % 0x100) as u8, (v2 % 0x100) as u8, v3 as u8]
}

/// An `i64` as eight bytes.
pub fn i64_to_le_bytes(value: i64) -> (b: [u8; 8])
    ensures
        le_i64(b@) == value,
{
    let u0: u64 = value as u64;
    proof {
        assert(value >= 0 ==> value as u64 == value) by (bit_vector);
        assert(value < 0 ==> value as u64 == value + 0x1_0000_0000_0000_0000) by (bit_vector);
    }
    let u1: u64 = u0 / 0x100;
    let u2: u64 = u1 / 0x100;
    let u3: u64 = u2 / 0x100;
    let u4: u64 = u3 / 0x100;
    let u5: u64 = u4 / 0x100;
    let u6: u64 = u5 / 0x100;
    let u7: u64 = u6 / 0x100;

    [
        (u0 % 0x100) as u8,
        (u1 % 0x100) as u8,
        (u2 % 0x100) as u8,
        (u3 % 0x100) as u8,
        (u4 % 0x100) as u8,
        (u5 % 0x100) as u8,
        (u6 % 0x100) as u8,
        u7 as u8,
    ]
}

/// The `i64` that eight bytes stand for.
pub fn i64_from_le_bytes(b: &[u8; 8]) -> (value: i64)
    ensures
        value == le_i64(b@),
{
    let u6: u64 = b[6] as u64 + 0x100 * (b[7] as u64);
    let u5: u64 = b[5] as u64 + 0x100 * u6;
    let u4: u64 = b[4] as u64 + 0x100 * u5;
    let u3: u64 = b[3] as u64 + 0x100 * u4;
    let u2: u64 = b[2] as u64 + 0x100 * u3;
    let u1: u64 = b[1] as u64 + 0x100 * u2;
    let u0: u64 = b[0] as u64 + 0x100 * u1;
    proof {
        assert(u0 < 0x8000_0000_0000_0000 ==> u0 as i64 == u0) by (bit_vector);
        assert(u0 >= 0x8000_0000_0000_0000 ==> u0 as i64 == u0 - 0x1_0000_0000_0000_0000)
            by (bit_vector);
    }

    u0 as i64
}

/// Eight bytes are determined by the value they stand for.
#[verifier::spinoff_prover]
pub proof fn law_le_i64_injective(a: Seq<u8>, b: Seq<u8>)
    requires
        a.len() == 8,
        b.len() == 8,
        le_i64(a) == le_i64(b),
    ensures
        a == b,
{
    lemma_le_u64_range(a);
    lemma_le_u64_range(b);
    assert(le_u64(a) == le_u64(b));
    let (a6, b6) = (a[6] + 0x100 * a[7], b[6] + 0x100 * b[7]);
    let (a5, b5) = (a[5] + 0x100 * a6, b[5] + 0x100 * b6);
    let (a4, b4) = (a[4] + 0x100 * a5, b[4] + 0x100 * b5);
    let (a3, b3) = (a[3] + 0x100 * a4, b[3] + 0x100 * b4);
    let (a2, b2) = (a[2] + 0x100 * a3, b[2] + 0x100 * b3);
    let (a1, b1) = (a[1] + 0x100 * a2, b[1] + 0x100 * b2);
    lemma_low_byte(a[0], a1, b[0], b1);
    lemma_low_byte(a[1], a2, b[1], b2);
    lemma_low_byte(a[2], a3, b[2], b3);
    lemma_low_byte(a[3], a4, b[3], b4);
    lemma_low_byte(a[4], a5, b[4], b5);
    lemma_low_byte(a[5], a6, b[5], b6);
    lemma_low_byte(a[6], a[7] as int, b[6], b[7] as int);
    assert(a =~= b);
}

/// A number settles its low byte and the rest.
proof fn lemma_low_byte(x: u8, rest_x: int, y: u8, rest_y: int)
    requires
        x + 0x100 * rest_x == y + 0x100 * rest_y,
    ensures
        x == y,
        rest_x == rest_y,
{
}

/// The top bit of the last byte is the top bit of the value.
proof fn lemma_le_u64_range(b: Seq<u8>)
    requires
        b.len() == 8,
    ensures
        0 <= le_u64(b) < 0x1_0000_0000_0000_0000,
        b[7] < 0x80 <==> le_u64(b) < 0x8000_0000_0000_0000,
{
}

/// The low byte comes first: each byte weighs 256 times the one before it, and the top bit of
/// the last one of a signed number is its sign.
pub proof fn law_low_byte_comes_first(b: Seq<u8>)
    ensures
        le_u16(b) == b[0] + 256 * b[1],
        le_u32(b) == b[0] + 256 * b[1] + 65536 * b[2] + 16777216 * b[3],
        le_u64(b) == b[0] + 256 * b[1] + 65536 * b[2] + 16777216 * b[3] + 4294967296 * b[4]
            + 1099511627776 * b[5] + 281474976710656 * b[6] + 72057594037927936 * b[7],
        b[7] < 128 ==> le_i64(b) == le_u64(b) && le_i64(b) >= 0,
        b[7] >= 128 ==> le_i64(b) == le_u64(b) - 256 * 72057594037927936 && le_i64(b) < 0,
{
}

/// Four bytes are determined by the value they stand for.
pub proof fn law_le_u32_injective(a: Seq<u8>, b: Seq<u8>)
    requires
        a.len() == 4,
        b.len() == 4,
        le_u32(a) == le_u32(b),
    ensures
        a == b,
{
    let (a2, b2) = (a[2] + 0x100 * a[3], b[2] + 0x100 * b[3]);
    let (a1, b1) = (a[1] + 0x100 * a2, b[1] + 0x100 * b2);
    lemma_low_byte(a[0], a1, b[0], b1);
    lemma_low_byte(a[1], a2, b[1], b2);
    lemma_low_byte(a[2], a[3] as int, b[2], b[3] as int);
    assert(a =~= b);
}

/// Two bytes are determined by the value they stand for.
pub proof fn law_le_u16_injective(a: Seq<u8>, b: Seq<u8>)
    requires
        a.len() == 2,
        b.len() == 2,
        le_u16(a) == le_u16(b),
    ensures
        a == b,
{
    assert(a =~= b);
}

} // verus!
