//! A multi-party authorization engine for transferring value.
//!
//! A wallet holds a registry of owners, a confirmation threshold, a
//! time-lock duration and a pause flag. Owners propose transactions,
//! confirm or revoke their approval, and execute a transaction once a
//! quorum of confirmations has been gathered and the time lock has
//! elapsed. Per-period spending limits decide at proposal time whether
//! a transaction needs every owner's approval, and at execution time
//! whether the debit may proceed at all.
//!
//! The library is the decision core alone: it works on plain values and
//! leaves the movement of assets, storage of records and the reading of
//! clocks to its host. `execute_transaction` hands back a
//! [`transaction::TransferRequest`] describing the transfer the host
//! must perform; if that transfer fails, the host must discard the
//! updated records rather than persist them, so that execution stays
//! all-or-nothing.

pub mod account;
pub mod errors;
pub mod spending;
pub mod transaction;
pub mod wallet;
