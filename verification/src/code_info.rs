//! The record that describes one code unit: how many stack elements it
//! takes and gives back, and how high its stack may grow.

use vstd::prelude::*;
use crate::codec_lemmas::lemma_decoded_is_encoding;
use crate::decode_helpers::{be_u16, consume_u16, consume_u8};
use crate::error::EofDecodeError;

verus! {

/// The value of `outputs` that marks a code unit which never returns.
pub const EOF_NON_RETURNING_FUNCTION: u8 = 0x80;

/// The largest number of inputs a valid record may declare.
pub const MAX_INPUTS: u8 = 0x7F;

/// The largest value of `outputs` in a valid record: the non-returning marker.
pub const MAX_OUTPUTS: u8 = 0x80;

/// The largest stack height a valid record may declare.
pub const MAX_STACK_SIZE: u16 = 0x03FF;

/// The number of bytes one record takes on the wire.
pub const ENCODED_LEN: usize = 4;

/// Stack information of one code unit.
///
/// The fields are public and a value can hold any bit pattern; whether it is
/// an acceptable record is a separate question, answered by
/// [`CodeInfo::validate`] and stated by [`CodeInfo::is_valid`].
#[derive(Debug, Clone, Copy, Hash, PartialEq, Eq, Structural, PartialOrd, Ord)]
pub struct CodeInfo {
    /// Number of stack elements the code unit consumes: `0x00..=0x7F`.
    pub inputs: u8,
    /// Number of stack elements the code unit returns, `0x00..=0x7F`, or
    /// `0x80` if it never returns.
    pub outputs: u8,
    /// Greatest number of elements the code unit ever has on the stack:
    /// `0x0000..=0x03FF`.
    pub max_stack_size: u16,
}

impl CodeInfo {
    /// Whether the record is acceptable: every field is within its range, and
    /// the inputs, which are on the stack before the code unit runs, do not
    /// exceed the maximum stack height.
    pub open spec fn is_valid(self) -> bool {
        &&& self.inputs <= MAX_INPUTS
        &&& self.outputs <= MAX_OUTPUTS
        &&& self.max_stack_size <= MAX_STACK_SIZE
        &&& self.inputs <= self.max_stack_size
    }

    /// The four bytes of the record on the wire: `inputs`, `outputs`, then
    /// the high and the low byte of `max_stack_size`.
    pub open spec fn encoded(self) -> Seq<u8> {
        seq![
            self.inputs,
            self.outputs,
            (self.max_stack_size / 256) as u8,
            (self.max_stack_size % 256) as u8,
        ]
    }

    /// The record that the first four bytes of `input` spell out, valid or
    /// not.
    pub open spec fn from_wire(input: Seq<u8>) -> CodeInfo
        recommends
            input.len() >= ENCODED_LEN,
    {
        CodeInfo {
            inputs: input[0],
            outputs: input[1],
            max_stack_size: be_u16(input[2], input[3]),
        }
    }

    /// What decoding `input` gives.
    ///
    /// Fewer than four bytes are `MissingInput`. Otherwise the first four
    /// bytes spell out a record; if it is valid the result is that record
    /// with the bytes after it, and if not, `InvalidCodeInfo`.
    pub open spec fn decoded(input: Seq<u8>) -> Result<(CodeInfo, Seq<u8>), EofDecodeError> {
        if input.len() < ENCODED_LEN {
            Err(EofDecodeError::MissingInput)
        } else if Self::from_wire(input).is_valid() {
            Ok((Self::from_wire(input), input.skip(ENCODED_LEN as int)))
        } else {
            Err(EofDecodeError::InvalidCodeInfo)
        }
    }

    /// Makes a record of the given fields, without checking them.
    ///
    /// The result may be invalid: call [`CodeInfo::validate`] before relying
    /// on it.
    pub fn new(inputs: u8, outputs: u8, max_stack_size: u16) -> (info: Self)
        ensures
            info == (CodeInfo { inputs, outputs, max_stack_size }),
    {
        CodeInfo { inputs, outputs, max_stack_size }
    }

    /// Returns `true` if the code unit never returns, that is, if `outputs`
    /// is the non-returning marker.
    pub fn is_non_returning(&self) -> (b: bool)
        ensures
            b <==> self.outputs == EOF_NON_RETURNING_FUNCTION,
    {
        self.outputs == EOF_NON_RETURNING_FUNCTION
    }

    /// The number of outputs less the number of inputs, as a signed number.
    ///
    /// Defined for every record, valid or not: the difference of two bytes
    /// always fits.
    pub fn io_diff(&self) -> (diff: i32)
        ensures
            diff == self.outputs as int - self.inputs as int,
    {
        self.outputs as i32 - self.inputs as i32
    }

    /// Appends the record's four bytes to `buffer`: `inputs`, `outputs`, then
    /// `max_stack_size` with its high byte first.
    ///
    /// Nothing is checked: an invalid record is encoded like any other.
    pub fn encode(&self, buffer: &mut Vec<u8>)
        ensures
            final(buffer)@ == old(buffer)@ + self.encoded(),
            final(buffer)@.len() == old(buffer)@.len() + ENCODED_LEN,
    {
        buffer.push(self.inputs);
        buffer.push(self.outputs);
        buffer.push((self.max_stack_size / 256) as u8);
        buffer.push((self.max_stack_size % 256) as u8);
    }

    /// Decodes one record from the front of `input`.
    ///
    /// On success returns the record, which is valid, and the bytes that
    /// follow it, so that the next record can be decoded from them. Input
    /// shorter than four bytes fails with `MissingInput`; four bytes that
    /// spell out an invalid record fail with `InvalidCodeInfo`.
    pub fn decode(input: &[u8]) -> (r: Result<(CodeInfo, &[u8]), EofDecodeError>)
        ensures
            (match r {
                Ok((info, rest)) => Self::decoded(input@) == Ok::<_, EofDecodeError>((info, rest@)),
                Err(e) => Self::decoded(input@) == Err::<(CodeInfo, Seq<u8>), _>(e),
            }),
            input@.len() < ENCODED_LEN <==> r == Err::<(CodeInfo, &[u8]), _>(
                EofDecodeError::MissingInput,
            ),
            r matches Ok((info, rest)) ==> info.is_valid() && input@ == info.encoded() + rest@,
            r matches Ok((_, rest)) ==> rest@.len() == input@.len() - ENCODED_LEN,
    {
        let (rest, inputs) = consume_u8(input)?;
        let (rest, outputs) = consume_u8(rest)?;
        let (rest, max_stack_size) = consume_u16(rest)?;
        let section = CodeInfo { inputs, outputs, max_stack_size };
        section.validate()?;
        proof {
            assert(rest@ == input@.skip(ENCODED_LEN as int));
            lemma_decoded_is_encoding(input@);
        }
        Ok((section, rest))
    }

    /// Checks that the record is acceptable.
    ///
    /// Returns `Ok` exactly for the valid records, and `InvalidCodeInfo` for
    /// all others, whichever rule they break.
    pub fn validate(&self) -> (r: Result<(), EofDecodeError>)
        ensures
            self.is_valid() <==> r == Ok::<(), EofDecodeError>(()),
            !self.is_valid() <==> r == Err::<(), _>(EofDecodeError::InvalidCodeInfo),
    {
        if self.inputs > MAX_INPUTS || self.outputs > MAX_OUTPUTS || self.max_stack_size
            > MAX_STACK_SIZE {
            return Err(EofDecodeError::InvalidCodeInfo);
        }
        if self.inputs as u16 > self.max_stack_size {
            return Err(EofDecodeError::InvalidCodeInfo);
        }
        Ok(())
    }
}

impl Default for CodeInfo {
    /// The record with every field zero, which is valid.
    fn default() -> (info: Self)
        ensures
            info == (CodeInfo { inputs: 0, outputs: 0, max_stack_size: 0 }),
            info.is_valid(),
    {
        CodeInfo { inputs: 0, outputs: 0, max_stack_size: 0 }
    }
}

} // verus!
