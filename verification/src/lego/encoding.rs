//! How numbers stand in a message: single bytes in two's complement, wider
//! fields with the low byte first.
use byteorder::{ByteOrder, LittleEndian};
use num_traits::{FromPrimitive, ToPrimitive};
use vstd::arithmetic::div_mod::{lemma_hoist_over_denominator, lemma_mod_multiples_vanish};
use vstd::prelude::*;

verus! {

/// The lowest byte of a whole number in two's complement.
pub open spec fn low_byte(value: int) -> u8 {
    (value % 256) as u8
}

/// The two bytes of a 16-bit field, the low byte first. A negative value
/// stands in two's complement.
pub open spec fn le_bytes_16(value: int) -> Seq<u8> {
    seq![low_byte(value), low_byte(value / 0x100)]
}

/// The four bytes of a 32-bit field, the low byte first. A negative value
/// stands in two's complement.
pub open spec fn le_bytes_32(value: int) -> Seq<u8> {
    seq![
        low_byte(value),
        low_byte(value / 0x100),
        low_byte(value / 0x1_0000),
        low_byte(value / 0x100_0000),
    ]
}

/// The unsigned number that two bytes hold, the low byte first.
pub open spec fn u16_from_le(b0: u8, b1: u8) -> u16 {
    (b0 + 0x100 * b1) as u16
}

/// The unsigned number that four bytes hold, the low byte first.
pub open spec fn u32_from_le(b0: u8, b1: u8, b2: u8, b3: u8) -> u32 {
    (b0 + 0x100 * b1 + 0x1_0000 * b2 + 0x100_0000 * b3) as u32
}

/// The signed number that four bytes hold in two's complement, the low byte
/// first.
pub open spec fn i32_from_le(b0: u8, b1: u8, b2: u8, b3: u8) -> i32 {
    let unsigned = u32_from_le(b0, b1, b2, b3);
    if unsigned >= 0x8000_0000 {
        (unsigned - 0x1_0000_0000) as i32
    } else {
        unsigned as i32
    }
}

/// A signed byte as it stands in a message.
pub fn i8_to_byte(value: i8) -> (byte: u8)
    ensures
        byte == low_byte(value as int),
{
    if value >= 0 {
        value as u8
    } else {
        (value as i16 + 0x100) as u8
    }
}

/// A signed 16-bit field as it stands in a message.
pub fn i16_to_le_bytes(value: i16) -> (bytes: Vec<u8>)
    ensures
        bytes@ == le_bytes_16(value as int),
{
    let unsigned: u16 = if value >= 0 {
        value as u16
    } else {
        (value as i32 + 0x1_0000) as u16
    };
    let bytes = vec![(unsigned % 0x100) as u8, (unsigned / 0x100) as u8];
    assert(bytes@ =~= le_bytes_16(value as int));
    bytes
}

/// An unsigned 32-bit field as it stands in a message.
pub fn u32_to_le_bytes(value: u32) -> (bytes: Vec<u8>)
    ensures
        bytes@ == le_bytes_32(value as int),
{
    let bytes = vec![
        (value % 0x100) as u8,
        (value / 0x100 % 0x100) as u8,
        (value / 0x1_0000 % 0x100) as u8,
        (value / 0x100_0000) as u8,
    ];
    assert(bytes@ =~= le_bytes_32(value as int));
    bytes
}

/// A signed 32-bit field as it stands in a message.
pub fn i32_to_le_bytes(value: i32) -> (bytes: Vec<u8>)
    ensures
        bytes@ == le_bytes_32(value as int),
{
    let unsigned: u32 = if value >= 0 {
        value as u32
    } else {
        (value as i64 + 0x1_0000_0000) as u32
    };
    proof {
        if value < 0 {
            lemma_le_bytes_32_wrap(value as int);
        }
    }
    u32_to_le_bytes(unsigned)
}

/// Two's complement: a number and the number 2^32 above it have the same
/// four low bytes.
proof fn lemma_le_bytes_32_wrap(value: int)
    ensures
        le_bytes_32(value + 0x1_0000_0000) == le_bytes_32(value),
{
    let above = value + 0x1_0000_0000;
    assert(low_byte(above) == low_byte(value)) by {
        lemma_add_multiple(value, 0x100_0000, 0x100);
    }
    assert(low_byte(above / 0x100) == low_byte(value / 0x100)) by {
        lemma_add_multiple(value, 0x100_0000, 0x100);
        lemma_add_multiple(value / 0x100, 0x1_0000, 0x100);
    }
    assert(low_byte(above / 0x1_0000) == low_byte(value / 0x1_0000)) by {
        lemma_add_multiple(value, 0x1_0000, 0x1_0000);
        lemma_add_multiple(value / 0x1_0000, 0x100, 0x100);
    }
    assert(low_byte(above / 0x100_0000) == low_byte(value / 0x100_0000)) by {
        lemma_add_multiple(value, 0x100, 0x100_0000);
        lemma_add_multiple(value / 0x100_0000, 1, 0x100);
    }
    assert(le_bytes_32(above) =~= le_bytes_32(value));
}

/// Adding a multiple of the divisor moves the quotient by as much and keeps
/// the remainder.
proof fn lemma_add_multiple(value: int, times: int, divisor: int)
    requires
        divisor > 0,
    ensures
        (value + times * divisor) / divisor == value / divisor + times,
        (value + times * divisor) % divisor == value % divisor,
{
    lemma_hoist_over_denominator(value, times, divisor as nat);
    lemma_mod_multiples_vanish(times, value, divisor);
    assert(divisor * times + value == value + times * divisor) by (nonlinear_arith);
}

/// The signed 32-bit number that four bytes of a message hold.
pub fn i32_from_le_bytes(b0: u8, b1: u8, b2: u8, b3: u8) -> (value: i32)
    ensures
        value == i32_from_le(b0, b1, b2, b3),
{
    let unsigned: u32 = b0 as u32 + 0x100 * (b1 as u32) + 0x1_0000 * (b2 as u32) + 0x100_0000 * (
    b3 as u32);
    if unsigned >= 0x8000_0000 {
        (unsigned as i64 - 0x1_0000_0000) as i32
    } else {
        unsigned as i32
    }
}

/// Reading back what was written: the four bytes of a signed 32-bit field
/// hold the value they were made from.
pub proof fn lemma_i32_le_round_trip(value: i32)
    ensures
        le_bytes_32(value as int).len() == 4,
        i32_from_le(
            le_bytes_32(value as int)[0],
            le_bytes_32(value as int)[1],
            le_bytes_32(value as int)[2],
            le_bytes_32(value as int)[3],
        ) == value,
{
}

/// Reading back what was written: the two bytes of an unsigned 16-bit value
/// hold the value they were made from.
pub proof fn lemma_u16_le_round_trip(value: u16)
    ensures
        le_bytes_16(value as int).len() == 2,
        u16_from_le(le_bytes_16(value as int)[0], le_bytes_16(value as int)[1]) == value,
{
}

/// `byteorder::LittleEndian::read_u16`, which reads the first two bytes of
/// `buf` as an unsigned number with the low byte first, and panics on a
/// shorter slice. Trusted: the contract restates the crate's documentation.
#[verifier::external_body]
pub(crate) fn read_u16(buf: &[u8]) -> (value: u16)
    requires
        buf@.len() >= 2,
    ensures
        value == u16_from_le(buf@[0], buf@[1]),
{
    LittleEndian::read_u16(buf)
}

/// `num_traits::ToPrimitive::to_u8` on a `usize`: the same number as a byte
/// where it is at most 255, and `None` above that. Trusted.
#[verifier::external_body]
pub(crate) fn usize_to_u8(n: usize) -> (byte: Option<u8>)
    ensures
        byte == (if n <= 255 {
            Some(n as u8)
        } else {
            None::<u8>
        }),
{
    n.to_u8()
}

/// `num_traits::FromPrimitive::from_u8` for `i32`: every byte is the same
/// number as an `i32`. Trusted.
#[verifier::external_body]
pub(crate) fn i32_from_u8(n: u8) -> (value: Option<i32>)
    ensures
        value == Some(n as i32),
{
    i32::from_u8(n)
}

/// `num_traits::FromPrimitive::from_u16` for `i32`: every 16-bit unsigned
/// number is the same number as an `i32`. Trusted.
#[verifier::external_body]
pub(crate) fn i32_from_u16(n: u16) -> (value: Option<i32>)
    ensures
        value == Some(n as i32),
{
    i32::from_u16(n)
}

} // verus!
