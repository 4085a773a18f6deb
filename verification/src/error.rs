//! The ways in which decoding can fail.

use vstd::prelude::*;

verus! {

/// Why a byte sequence could not be decoded.
///
/// The two kinds are disjoint: input that ends early is always reported as
/// [`EofDecodeError::MissingInput`], and a record whose bytes are all present
/// but whose fields break a rule as [`EofDecodeError::InvalidCodeInfo`].
#[derive(Debug, Clone, Copy, PartialEq, Eq, Structural, Hash, PartialOrd, Ord)]
pub enum EofDecodeError {
    /// The input ended before the value being read did.
    MissingInput,
    /// The record's fields are out of range or contradict one another.
    InvalidCodeInfo,
}

} // verus!
