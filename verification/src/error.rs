use vstd::prelude::*;

verus! {

/// The reasons for which an operation of this library refuses its input.
#[derive(Debug, Clone, Copy, PartialEq, Eq, Structural)]
pub enum Error {
    /// An integer operation left the range of its type.
    Overflow,
    /// An integer subtraction would have gone below zero.
    Underflow,
    /// A decimal operation (division by zero or a result out of range) failed.
    DecimalOperation,
    /// A decimal value could not be converted to an integer.
    DecimalConversion,
    /// A percentage outside of [0, 1].
    InvalidPercentage,
    /// A share amount larger than the share supply.
    SharesExceedSupply,
    /// A versioned template or program whose version is not supported.
    UnsupportedVersion,
    /// Too few bytes to hold what was expected.
    NotEnoughBytes,
    /// A byte sequence of the wrong length.
    InvalidLength,
    /// A text that is not in the expected encoding.
    InvalidEncoding,
    /// A stored hash that does not match the content it was stored with.
    HashMismatch,
    /// A transaction group that cannot be formed (empty or too large).
    InvalidGroup,
    /// A transaction fee that could not be estimated.
    FeeEstimation,
    /// A transaction of an unexpected type.
    UnexpectedTransactionType,
    /// A value that has no counterpart in the expected set.
    NotFound,
}

} // verus!
