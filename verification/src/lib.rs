//! Codec for the per-code-unit record of an EOF container's types table.
//!
//! A record is four bytes on the wire: the number of stack inputs, the number
//! of stack outputs (or the non-returning marker), and the maximum stack
//! height as a big-endian 16-bit integer. This crate holds the record type,
//! its encoder, its validating decoder, and proofs that the two agree.

pub mod code_info;
pub mod codec_lemmas;
pub mod decode_helpers;
pub mod error;

pub use code_info::CodeInfo;
pub use error::EofDecodeError;
