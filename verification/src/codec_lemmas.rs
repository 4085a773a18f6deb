//! What the encoder, the decoder and the validator guarantee together.
//!
//! Every statement here is over [`CodeInfo::encoded`], [`CodeInfo::decoded`]
//! and [`CodeInfo::is_valid`], the functions in which the contracts of
//! `encode`, `decode` and `validate` are written, so each carries over to the
//! executable code as it stands.

use vstd::prelude::*;
use crate::code_info::{CodeInfo, ENCODED_LEN};
use crate::decode_helpers::be_u16;
use crate::error::EofDecodeError;

verus! {

/// An encoding is exactly four bytes in a fixed order: the inputs, the
/// outputs, then the maximum stack height with its high byte first.
pub proof fn lemma_encoded_layout(info: CodeInfo)
    ensures
        info.encoded().len() == ENCODED_LEN,
        info.encoded()[0] == info.inputs,
        info.encoded()[1] == info.outputs,
        info.encoded()[2] as int * 256 + info.encoded()[3] as int == info.max_stack_size,
        be_u16(info.encoded()[2], info.encoded()[3]) == info.max_stack_size,
        CodeInfo::from_wire(info.encoded()) == info,
{
}

/// Two records with the same encoding are the same record, valid or not.
pub proof fn lemma_encoded_injective(a: CodeInfo, b: CodeInfo)
    requires
        a.encoded() == b.encoded(),
    ensures
        a == b,
{
}

/// Round trip: decoding the encoding of a valid record gives that record
/// back and leaves no bytes over.
pub proof fn lemma_decode_encoded(info: CodeInfo)
    requires
        info.is_valid(),
    ensures
        CodeInfo::decoded(info.encoded()) == Ok::<_, EofDecodeError>((info, Seq::<u8>::empty())),
{
    assert(info.encoded().skip(ENCODED_LEN as int) =~= Seq::<u8>::empty());
}

/// Round trip inside a stream: decoding the encoding of a valid record
/// followed by any bytes gives the record back and leaves exactly those
/// bytes.
pub proof fn lemma_decode_encoded_then(info: CodeInfo, tail: Seq<u8>)
    requires
        info.is_valid(),
    ensures
        CodeInfo::decoded(info.encoded() + tail) == Ok::<_, EofDecodeError>((info, tail)),
{
    let input = info.encoded() + tail;
    assert(input.skip(ENCODED_LEN as int) =~= tail);
}

/// The decoder accepts nothing but encodings of valid records: where it
/// succeeds, the record is valid, the input is the record's encoding followed
/// by the bytes handed back, and those are four fewer than the input.
pub proof fn lemma_decoded_is_encoding(input: Seq<u8>)
    ensures
        CodeInfo::decoded(input) matches Ok((info, rest)) ==> info.is_valid(),
        CodeInfo::decoded(input) matches Ok((info, rest)) ==> input == info.encoded() + rest,
        CodeInfo::decoded(input) matches Ok((_, rest)) ==> rest.len() == input.len() - ENCODED_LEN,
{
    if input.len() >= ENCODED_LEN {
        let info = CodeInfo::from_wire(input);
        assert(input =~= info.encoded() + input.skip(ENCODED_LEN as int));
    }
}

/// Truncation: input is reported as missing exactly when it holds fewer than
/// four bytes, whatever they are.
pub proof fn lemma_short_input_is_missing(input: Seq<u8>)
    ensures
        input.len() < ENCODED_LEN <==> CodeInfo::decoded(input) == Err::<(CodeInfo, Seq<u8>), _>(
            EofDecodeError::MissingInput,
        ),
{
}

/// A record is reported as invalid exactly when all four bytes are there and
/// the record they spell out breaks a rule.
pub proof fn lemma_invalid_record(input: Seq<u8>)
    ensures
        CodeInfo::decoded(input) == Err::<(CodeInfo, Seq<u8>), _>(EofDecodeError::InvalidCodeInfo)
            <==> input.len() >= ENCODED_LEN && !CodeInfo::from_wire(input).is_valid(),
{
}

/// Each rule rejects on its own: a record that breaks any one of them is
/// invalid, whatever its other fields hold.
pub proof fn lemma_out_of_range_is_invalid(info: CodeInfo)
    ensures
        info.inputs > 0x7F ==> !info.is_valid(),
        info.outputs > 0x80 ==> !info.is_valid(),
        info.max_stack_size > 0x03FF ==> !info.is_valid(),
        info.inputs > info.max_stack_size ==> !info.is_valid(),
        info.is_valid() <==> info.inputs <= 0x7F && info.outputs <= 0x80 && info.max_stack_size
            <= 0x03FF && info.inputs <= info.max_stack_size,
{
}

/// Sequencing: from the encodings of two valid records, one after the other,
/// the decoder takes the first record and leaves four bytes fewer; from those
/// it takes the second record and leaves nothing.
pub proof fn lemma_decode_two(first: CodeInfo, second: CodeInfo)
    requires
        first.is_valid(),
        second.is_valid(),
    ensures
        CodeInfo::decoded(first.encoded() + second.encoded()) == Ok::<_, EofDecodeError>(
            (first, second.encoded()),
        ),
        second.encoded().len() == (first.encoded() + second.encoded()).len() - ENCODED_LEN,
        CodeInfo::decoded(second.encoded()) == Ok::<_, EofDecodeError>(
            (second, Seq::<u8>::empty()),
        ),
{
    lemma_decode_encoded_then(first, second.encoded());
    lemma_decode_encoded(second);
}

} // verus!
