//! Reading fixed-width integers off the front of a byte sequence.
//!
//! Each reader takes the bytes still to be read and hands back the value
//! together with the bytes that follow it, so that readers can be chained
//! without a cursor of their own.

use vstd::prelude::*;
use vstd::slice::slice_subrange;
use crate::error::EofDecodeError;

verus! {

/// The 16-bit number whose big-endian bytes are `hi`, then `lo`.
pub open spec fn be_u16(hi: u8, lo: u8) -> u16 {
    (hi as int * 256 + lo as int) as u16
}

/// What reading one byte off the front of `input` gives: the rest of the
/// input and the byte, or `MissingInput` where `input` is empty.
pub open spec fn take_u8(input: Seq<u8>) -> Result<(Seq<u8>, u8), EofDecodeError> {
    if input.len() < 1 {
        Err(EofDecodeError::MissingInput)
    } else {
        Ok((input.skip(1), input[0]))
    }
}

/// What reading a big-endian 16-bit integer off the front of `input` gives:
/// the rest of the input and the integer, or `MissingInput` where `input`
/// holds fewer than two bytes.
pub open spec fn take_u16(input: Seq<u8>) -> Result<(Seq<u8>, u16), EofDecodeError> {
    if input.len() < 2 {
        Err(EofDecodeError::MissingInput)
    } else {
        Ok((input.skip(2), be_u16(input[0], input[1])))
    }
}

/// Takes the first byte of `input`.
///
/// Returns the remaining bytes and the byte taken, or `MissingInput` if
/// `input` is empty.
pub fn consume_u8(input: &[u8]) -> (r: Result<(&[u8], u8), EofDecodeError>)
    ensures
        (match r {
            Ok((rest, value)) => take_u8(input@) == Ok::<_, EofDecodeError>((rest@, value)),
            Err(e) => take_u8(input@) == Err::<(Seq<u8>, u8), _>(e),
        }),
{
    if input.is_empty() {
        return Err(EofDecodeError::MissingInput);
    }
    let rest = slice_subrange(input, 1, input.len());
    Ok((rest, input[0]))
}

/// Takes the first two bytes of `input` as a big-endian integer.
///
/// Returns the remaining bytes and the integer, or `MissingInput` if `input`
/// holds fewer than two bytes.
pub fn consume_u16(input: &[u8]) -> (r: Result<(&[u8], u16), EofDecodeError>)
    ensures
        (match r {
            Ok((rest, value)) => take_u16(input@) == Ok::<_, EofDecodeError>((rest@, value)),
            Err(e) => take_u16(input@) == Err::<(Seq<u8>, u16), _>(e),
        }),
{
    if input.len() < 2 {
        return Err(EofDecodeError::MissingInput);
    }
    let rest = slice_subrange(input, 2, input.len());
    let hi: u16 = input[0] as u16;
    let lo: u16 = input[1] as u16;
    Ok((rest, hi * 256 + lo))
}

} // verus!
