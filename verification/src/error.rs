//! The failures that this library reports. Each is returned by the call
//! that found it; nothing is logged and nothing is retried.

use vstd::prelude::*;

verus! {

/// Why a script is not a message.
#[derive(Debug, Clone, Copy, PartialEq, Eq, Structural)]
pub enum DecodeError {
    /// No registered tag stands where one is expected: the script is not a
    /// signalling message, or it is corrupt.
    UnrecognizedTag,
    /// A field of `expected` bytes is due and only `got` bytes remain.
    Truncated { expected: usize, got: usize },
    /// Bytes are left over after the last field of a message of fixed shape.
    TrailingBytes,
    /// A vector of two-byte votes ends in the middle of a vote.
    OddLengthVoteVector,
}

/// Why a withdrawal bundle has no blinded identifier.
#[derive(Debug, Clone, Copy, PartialEq, Eq, Structural)]
pub enum CommitmentError {
    /// The new treasury balance and the payouts together exceed the
    /// previous treasury balance, so the fee would be negative.
    ArithmeticUnderflow,
}

} // verus!
