//! The stable error kinds surfaced by every operation.
//!
//! Every error is a precondition or policy violation detected before
//! any state is mutated; no operation has a partial effect. Callers can
//! tell "not yet eligible, retry later" (`TimeLockNotExpired`,
//! `InsufficientConfirmations`) from "structurally invalid as-is"
//! (the rest).

use vstd::prelude::*;

verus! {

#[derive(Clone, Copy, PartialEq, Eq, Structural, Debug)]
pub enum ErrorCode {
    /// A wallet must have between 1 and 50 owners.
    InvalidOwnersCount,
    /// The threshold must lie between 1 and the owner count.
    InvalidThreshold,
    /// The acting identity is not in the wallet's owner set.
    NotOwner,
    /// The transaction has already been executed and is immutable.
    TransactionExecuted,
    /// The owner has already confirmed this transaction.
    AlreadyConfirmed,
    /// The owner has not confirmed this transaction.
    NotConfirmed,
    /// The transaction has not gathered the required confirmations.
    InsufficientConfirmations,
    /// The mandatory delay since proposal has not elapsed.
    TimeLockNotExpired,
    /// The wallet already has 50 owners.
    TooManyOwners,
    /// The identity is already in the owner set.
    OwnerAlreadyExists,
    /// The identity is not in the owner set.
    OwnerNotFound,
    /// The last remaining owner cannot be removed.
    CannotRemoveLastOwner,
    /// The wallet is paused.
    WalletPaused,
    /// The amount does not fit within the configured spending limit at
    /// execution time, so the debit may not proceed.
    SpendingLimitExceeded,
}

impl ErrorCode {
    /// A short stable name for the error, for hosts that log or
    /// display it.
    pub fn name(&self) -> (r: &'static str)
        ensures
            r@.len() > 0,
    {
        let r = match self {
            ErrorCode::InvalidOwnersCount => "invalid owners count",
            ErrorCode::InvalidThreshold => "invalid threshold",
            ErrorCode::NotOwner => "not an owner",
            ErrorCode::TransactionExecuted => "transaction already executed",
            ErrorCode::AlreadyConfirmed => "already confirmed",
            ErrorCode::NotConfirmed => "not confirmed",
            ErrorCode::InsufficientConfirmations => "insufficient confirmations",
            ErrorCode::TimeLockNotExpired => "time lock not expired",
            ErrorCode::TooManyOwners => "too many owners",
            ErrorCode::OwnerAlreadyExists => "owner already exists",
            ErrorCode::OwnerNotFound => "owner not found",
            ErrorCode::CannotRemoveLastOwner => "cannot remove last owner",
            ErrorCode::WalletPaused => "wallet is paused",
            ErrorCode::SpendingLimitExceeded => "spending limit exceeded",
        };
        proof {
            reveal_strlit("invalid owners count");
            reveal_strlit("invalid threshold");
            reveal_strlit("not an owner");
            reveal_strlit("transaction already executed");
            reveal_strlit("already confirmed");
            reveal_strlit("not confirmed");
            reveal_strlit("insufficient confirmations");
            reveal_strlit("time lock not expired");
            reveal_strlit("too many owners");
            reveal_strlit("owner already exists");
            reveal_strlit("owner not found");
            reveal_strlit("cannot remove last owner");
            reveal_strlit("wallet is paused");
            reveal_strlit("spending limit exceeded");
        }
        r
    }
}

} // verus!
