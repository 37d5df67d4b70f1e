//! The failures of the record store.

use vstd::prelude::*;

verus! {

/// What the reward issuer answered when it refused or failed to pay.
#[derive(Clone, Copy, Debug, PartialEq, Eq, Structural)]
pub struct IssueError {
    /// The issuer's own error code.
    pub code: u32,
}

/// Why an operation was refused. Every failure is final for the operation
/// that raised it and leaves the ledger as it was.
#[derive(Clone, Copy, Debug, PartialEq, Eq, Structural)]
pub enum MyError {
    /// The cell holds no record.
    NotFound,
    /// The cell already holds a live record.
    AlreadyInitialized,
    /// The record was closed before.
    AlreadyClosed,
    /// The caller is not the record's owner, or names a destination that
    /// the record does not allow.
    Unauthorized,
    /// The address does not derive from the record's seeds.
    AddressMismatch,
    /// The cell carries the tombstone.
    Tombstoned,
    /// The cell does not carry the tombstone.
    NotTombstoned,
    /// The cell has no balance to move.
    InsufficientBalance,
    /// A sum or product does not fit in 64 bits.
    ArithmeticOverflow,
    /// The token account is not one of the reward mint.
    InvalidMint,
    /// The reward issuer failed.
    IssueError(IssueError),
}

} // verus!
