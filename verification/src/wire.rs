//! Little-endian layout of the integers that reports and records are made of.

use binary_serde::recursive_array::RecursiveArray;
use binary_serde::{BinarySerde, Endianness};
use vstd::prelude::*;

verus! {

/// The two bytes of a 16-bit value, low byte first.
pub open spec fn u16_le(value: u16) -> Seq<u8> {
    seq![(value % 256) as u8, (value / 256) as u8]
}

/// The four bytes of a 32-bit value, lowest byte first.
pub open spec fn u32_le(value: u32) -> Seq<u8> {
    seq![
        (value % 256) as u8,
        (value / 256 % 256) as u8,
        (value / 65536 % 256) as u8,
        (value / 16777216) as u8,
    ]
}

/// The bytes of a sequence of 16-bit values, each with its low byte first.
pub open spec fn u16s_le(values: Seq<u16>) -> Seq<u8>
    decreases values.len(),
{
    if values.len() == 0 {
        Seq::empty()
    } else {
        u16s_le(values.drop_last()) + u16_le(values.last())
    }
}

/// Lays 16-bit values out as bytes, each with its low byte first.
pub fn u16s_to_le(values: &Vec<u16>) -> (bytes: Vec<u8>)
    ensures
        bytes@ == u16s_le(values@),
{
    let mut bytes: Vec<u8> = Vec::new();
    let mut i: usize = 0;
    while i < values.len()
        invariant
            i <= values.len(),
            bytes@ == u16s_le(values@.take(i as int)),
        decreases values.len() - i,
    {
        let value = values[i];
        let ghost before = values@.take(i as int);
        let ghost after = values@.take(i + 1);
        assert(after.drop_last() =~= before);
        assert(after.last() == value);
        bytes.push((value % 256) as u8);
        bytes.push((value / 256) as u8);
        assert(bytes@ =~= u16s_le(before) + u16_le(value));
        i = i + 1;
    }
    assert(values@.take(values.len() as int) =~= values@);
    bytes
}

/// A table of bytes as a vector.
pub fn table_to_vec<const N: usize>(table: &[u8; N]) -> (bytes: Vec<u8>)
    ensures
        bytes@ == table@,
{
    let mut bytes: Vec<u8> = Vec::new();
    let mut i: usize = 0;
    while i < N
        invariant
            i <= N,
            N == table@.len(),
            bytes@ == table@.subrange(0, i as int),
        decreases N - i,
    {
        bytes.push(table[i]);
        i = i + 1;
    }
    assert(table@.subrange(0, N as int) =~= table@);
    bytes
}

/// Calls `binary_serialize_to_array` of `binary_serde`'s `BinarySerde` on a
/// `u16`, with `Endianness::Little`.  Trusted: the array it returns holds the
/// value's `to_le_bytes`, that is the low byte and then the high byte.
#[verifier::external_body]
pub(crate) fn serialize_u16(value: u16) -> (bytes: Vec<u8>)
    ensures
        bytes@ == u16_le(value),
{
    value.binary_serialize_to_array(Endianness::Little).as_slice().into()
}

/// Calls `binary_serialize_to_array` of `binary_serde`'s `BinarySerde` on a
/// `u32`, with `Endianness::Little`.  Trusted: the array it returns holds the
/// value's `to_le_bytes`, that is its four bytes from the lowest up.
#[verifier::external_body]
pub(crate) fn serialize_u32(value: u32) -> (bytes: Vec<u8>)
    ensures
        bytes@ == u32_le(value),
{
    value.binary_serialize_to_array(Endianness::Little).as_slice().into()
}

} // verus!
