//! The reasons for which the ledger rejects an operation.

use vstd::prelude::*;

verus! {

/// Why an operation was rejected. Every rejection leaves the records that
/// the operation was given exactly as they were.
#[derive(Clone, Copy, Debug, PartialEq, Eq, Structural)]
pub enum ErrorCode {
    /// The entry fee is below the minimum.
    EntryFeeTooLow,
    /// The account's balance does not cover the amount to spend.
    InsufficientBalance,
    /// The price lies outside the range allowed for the operation.
    InvalidPrice,
    /// The position has already been closed.
    PositionNotActive,
    /// The caller does not own the record it wants to change.
    Unauthorized,
    /// The configuration record already exists.
    AlreadyInitialized,
    /// The owner already has an account.
    AlreadyExists,
    /// A result does not fit the 64-bit range of the ledger's quantities.
    ArithmeticOverflow,
}

} // verus!
