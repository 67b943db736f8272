//! Reading fixed-width little-endian fields from the front of a byte slice.

use bytes::Buf;
use vstd::prelude::*;

use crate::error::ParseError;

verus! {

/// The byte at offset `i` of `s`.
pub open spec fn u8_at(s: Seq<u8>, i: int) -> u8
    recommends
        0 <= i < s.len(),
{
    s[i]
}

/// The unsigned 16 bit integer stored in little-endian order at offset `i` of `s`.
pub open spec fn u16_at(s: Seq<u8>, i: int) -> u16
    recommends
        0 <= i,
        i + 2 <= s.len(),
{
    (s[i] as int + 0x100 * (s[i + 1] as int)) as u16
}

/// The unsigned 32 bit integer stored in little-endian order at offset `i` of `s`.
pub open spec fn u32_at(s: Seq<u8>, i: int) -> u32
    recommends
        0 <= i,
        i + 4 <= s.len(),
{
    (s[i] as int + 0x100 * (s[i + 1] as int) + 0x1_0000 * (s[i + 2] as int) + 0x100_0000 * (s[i
        + 3] as int)) as u32
}

/// An IEEE 754 single-precision number, held as its bit pattern. The decoder
/// moves such numbers from the wire without calculating with them.
#[derive(Debug, Clone, Copy, PartialEq, Eq, Structural)]
pub struct F32Bits(pub u32);

/// The bit pattern of the single-precision number stored in little-endian
/// order at offset `i` of `s`.
pub open spec fn f32_bits_at(s: Seq<u8>, i: int) -> F32Bits
    recommends
        0 <= i,
        i + 4 <= s.len(),
{
    F32Bits(u32_at(s, i))
}

/// A decode result with the unconsumed bytes taken by their view.
pub open spec fn rest_view<T>(r: Result<(T, &[u8]), ParseError>) -> Result<(T, Seq<u8>), ParseError> {
    match r {
        Ok((value, rest)) => Ok((value, rest@)),
        Err(e) => Err(e),
    }
}

/// A decode result with the decoded value and the unconsumed bytes taken by
/// their views.
pub open spec fn value_rest_view<T: View>(r: Result<(T, &[u8]), ParseError>) -> Result<
    (T::V, Seq<u8>),
    ParseError,
> {
    match r {
        Ok((value, rest)) => Ok((value@, rest@)),
        Err(e) => Err(e),
    }
}

/// What carving a record of `len` bytes off the front of `s` gives: the
/// record's `value` and the bytes behind it, or the report that `s` is too short.
pub open spec fn spec_record<T>(s: Seq<u8>, len: usize, value: T) -> Result<(T, Seq<u8>), ParseError> {
    if s.len() < len {
        Err(ParseError::InsufficientData { needed: len, available: s.len() as usize })
    } else {
        Ok((value, s.skip(len as int)))
    }
}

/// Splits `bytes` into its first `needed` bytes and the rest, or reports how
/// many bytes were needed and how many were there.
pub fn take(bytes: &[u8], needed: usize) -> (r: Result<(&[u8], &[u8]), ParseError>)
    ensures
        match r {
            Ok((head, rest)) => {
                &&& needed <= bytes@.len()
                &&& head@ == bytes@.take(needed as int)
                &&& rest@ == bytes@.skip(needed as int)
            },
            Err(e) => {
                &&& needed > bytes@.len()
                &&& e == (ParseError::InsufficientData { needed, available: bytes@.len() as usize })
            },
        },
{
    if bytes.len() < needed {
        Err(ParseError::InsufficientData { needed, available: bytes.len() })
    } else {
        Ok(bytes.split_at(needed))
    }
}

/// `bytes::Buf::get_u8` on a byte slice: hands back the first byte and the
/// slice advanced past it. The call panics on an empty slice, which the
/// precondition leaves out.
#[verifier::external_body]
pub(crate) fn get_u8(input: &[u8]) -> (r: (u8, &[u8]))
    requires
        input@.len() >= 1,
    ensures
        r.0 == u8_at(input@, 0),
        r.1@ == input@.skip(1),
{
    let mut cursor = input;
    let value = cursor.get_u8();
    (value, cursor)
}

/// `bytes::Buf::get_u16_le` on a byte slice: hands back the first two bytes
/// read as a little-endian integer and the slice advanced past them. The call
/// panics on fewer than two bytes, which the precondition leaves out.
#[verifier::external_body]
pub(crate) fn get_u16_le(input: &[u8]) -> (r: (u16, &[u8]))
    requires
        input@.len() >= 2,
    ensures
        r.0 == u16_at(input@, 0),
        r.1@ == input@.skip(2),
{
    let mut cursor = input;
    let value = cursor.get_u16_le();
    (value, cursor)
}

/// `bytes::Buf::get_u32_le` on a byte slice: hands back the first four bytes
/// read as a little-endian integer and the slice advanced past them. The call
/// panics on fewer than four bytes, which the precondition leaves out.
#[verifier::external_body]
pub(crate) fn get_u32_le(input: &[u8]) -> (r: (u32, &[u8]))
    requires
        input@.len() >= 4,
    ensures
        r.0 == u32_at(input@, 0),
        r.1@ == input@.skip(4),
{
    let mut cursor = input;
    let value = cursor.get_u32_le();
    (value, cursor)
}

/// Reads the bit pattern of a little-endian single-precision number from the
/// front of `input` and hands back the slice advanced past it.
pub(crate) fn get_f32_bits_le(input: &[u8]) -> (r: (F32Bits, &[u8]))
    requires
        input@.len() >= 4,
    ensures
        r.0 == f32_bits_at(input@, 0),
        r.1@ == input@.skip(4),
{
    let (bits, rest) = get_u32_le(input);
    (F32Bits(bits), rest)
}

} // verus!
