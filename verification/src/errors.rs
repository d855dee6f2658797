//! Input-validation errors. All of them are local and recoverable: the caller
//! may supply corrected input, and no persistent state is touched.

use vstd::prelude::*;

verus! {

/// Rejection of a raw passport dump by the attribute codec.
#[derive(Clone, Copy, Debug, PartialEq, Eq, Structural)]
pub enum CodecError {
    /// A date field held a byte that is not an ASCII digit.
    MalformedDate,
    /// A source slice was too short for the fixed-offset fields.
    TruncatedData,
}

/// Rejection of an accumulator operation.
#[derive(Clone, Copy, Debug, PartialEq, Eq, Structural)]
pub enum AccumulatorError {
    /// The leaf index does not fit under the tree's fixed height.
    IndexOutOfRange,
}

} // verus!
