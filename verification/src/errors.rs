//! The closed set of error kinds the contract operations can return.

use vstd::prelude::*;

verus! {

/// Everything that can go wrong in a contract operation.
#[derive(Debug, Clone, Copy, PartialEq, Eq)]
pub enum Error {
    /// Only the owner can perform this action.
    NotOwner,
    /// Only the stealth address owner can withdraw.  Declared for
    /// compatibility; no operation currently returns it.
    NotStealthOwner,
    /// No funds available to withdraw.
    NoFunds,
    /// Invalid fee rate (must be between 50 and 100 basis points).
    InvalidFeeRate,
    /// Username is longer than 64 bytes of UTF-8.
    UsernameTooLong,
    /// Amount must be greater than zero.
    InvalidAmount,
    /// Username is already registered.
    UsernameTaken,
    /// Payment below the fixed registration cost.
    InsufficientPayment,
    /// An outbound token transfer failed.
    TransferFailed,
}

} // verus!
