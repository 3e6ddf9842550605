//! The two decoders this crate leans on: `byteorder` for single integers and
//! `bincode` for values read off a byte slice.
//!
//! Nothing in this file is proved. Each function states what the crate it calls
//! is documented to do, and the rest of the library is verified against those
//! statements.

use crate::bytes::{le_u16, le_u32};
use byteorder::{ByteOrder, LittleEndian};
use serde_big_array::Array;
use vstd::prelude::*;

verus! {

/// The error that `bincode` reports; opaque to the verifier.
#[verifier::external_type_specification]
#[verifier::external_body]
pub struct ExBincodeErrorKind(bincode::ErrorKind);

/// `byteorder::LittleEndian::read_u16`: the integer held little-endian in the
/// first two bytes of `buf`. The call panics on a shorter buffer, which the
/// precondition rules out.
#[verifier::external_body]
pub(crate) fn read_u16(buf: &[u8]) -> (value: u16)
    requires
        buf@.len() >= 2,
    ensures
        value == le_u16(buf@),
{
    LittleEndian::read_u16(buf)
}

/// `byteorder::LittleEndian::read_u32`: the integer held little-endian in the
/// first four bytes of `buf`. The call panics on a shorter buffer, which the
/// precondition rules out.
#[verifier::external_body]
pub(crate) fn read_u32(buf: &[u8]) -> (value: u32)
    requires
        buf@.len() >= 4,
    ensures
        value == le_u32(buf@),
{
    LittleEndian::read_u32(buf)
}

/// `bincode::deserialize::<u8>`: the first byte of `bytes`. Bytes after it are
/// ignored; an empty slice is an error.
#[verifier::external_body]
pub(crate) fn deserialize_u8(bytes: &[u8]) -> (r: Result<u8, bincode::Error>)
    ensures
        r is Ok <==> bytes@.len() >= 1,
        r matches Ok(value) ==> value == bytes@[0],
{
    bincode::deserialize::<u8>(bytes)
}

/// `bincode::deserialize::<u16>`: with the fixed-width little-endian encoding
/// that this entry point of `bincode` uses, the integer held in the first two
/// bytes. Bytes after them are ignored; a shorter slice is an error.
#[verifier::external_body]
pub(crate) fn deserialize_u16(bytes: &[u8]) -> (r: Result<u16, bincode::Error>)
    ensures
        r is Ok <==> bytes@.len() >= 2,
        r matches Ok(value) ==> value == le_u16(bytes@),
{
    bincode::deserialize::<u16>(bytes)
}

/// `bincode::deserialize::<u32>`: with the fixed-width little-endian encoding
/// that this entry point of `bincode` uses, the integer held in the first four
/// bytes. Bytes after them are ignored; a shorter slice is an error.
#[verifier::external_body]
pub(crate) fn deserialize_u32(bytes: &[u8]) -> (r: Result<u32, bincode::Error>)
    ensures
        r is Ok <==> bytes@.len() >= 4,
        r matches Ok(value) ==> value == le_u32(bytes@),
{
    bincode::deserialize::<u32>(bytes)
}

/// `bincode::deserialize::<serde_big_array::Array<u8, N>>`: a fixed array is
/// encoded as its elements in order with no length prefix, so the result holds
/// the first `N` bytes of `bytes`. Bytes after them are ignored; a shorter
/// slice is an error.
#[verifier::external_body]
pub(crate) fn deserialize_array<const N: usize>(bytes: &[u8]) -> (r: Result<
    [u8; N],
    bincode::Error,
>)
    ensures
        r is Ok <==> bytes@.len() >= N,
        r matches Ok(array) ==> array@ == bytes@.subrange(0, N as int),
{
    match bincode::deserialize::<Array<u8, N>>(bytes) {
        Ok(array) => Ok(array.0),
        Err(e) => Err(e),
    }
}

} // verus!
