//! Why an exchange with the native engine is broken off.

use vstd::prelude::*;

verus! {

/// A breach of the contract between the caller, this crate and the native
/// engine. None of them is a condition to recover from: the caller that drives
/// the exchange aborts when it is handed one.
#[derive(Clone, Copy, PartialEq, Eq, Structural, Debug)]
pub enum Violation {
    /// An index was not below the count that the engine had just reported.
    IndexOutOfBounds,
    /// The engine reported a negative count.
    NegativeCount,
    /// A name or a locale tag holds a zero byte, so it has no encoding as a
    /// zero-terminated byte sequence.
    InteriorNul,
    /// A host integer does not fit the engine's 32-bit signed integer.
    ExceedsNativeInt,
    /// The engine returned a null pointer where an object is owed.
    NullObject,
    /// The operation was removed and has no replacement.
    Removed,
    /// The reply is not of the kind that the pending call gives.
    UnexpectedReply,
}

} // verus!
