//! The transaction ledger: proposed transfers, their confirmation
//! sets, and the guarded transition to "executed".
//!
//! A transaction moves from proposed to executed and nowhere else.
//! Confirmations are a set of distinct owner identities; the proposer
//! is implicitly included at creation. Execution demands the quorum
//! (the threshold, or every owner when the amount exceeded the
//! spending limit at proposal time), the elapsed time lock, and an
//! execution-time spending reservation — and it happens at most once.
//!
//! Every call takes the wallet afresh, so quorum and membership are
//! always evaluated against the current owner set: an owner removed
//! mid-flight loses authorization on their very next call.
//!
//! Proposing, confirming and executing are distinct calls; a host
//! that wants execution to follow the deciding confirmation
//! immediately uses [`confirm_and_execute_transaction`] instead.

use vstd::prelude::*;

use crate::account::{contains_id, remove_account, remove_id, AccountId};
use crate::account::{lemma_remove_id_properties, lemma_remove_id_push};
use crate::errors::ErrorCode;
use crate::spending::{is_within_spending_limit, update_spending_limit};
use crate::spending::{rolled, spent_after, within_limits, SpendingLimit};
use crate::wallet::Wallet;

verus! {

/// A single proposed transfer and everything decided about it so far.
#[derive(Clone, Debug)]
pub struct Transaction {
    /// The wallet this transaction belongs to.
    pub wallet: AccountId,
    /// Where the value goes.
    pub destination: AccountId,
    /// The amount, in the smallest asset unit.
    pub amount: u64,
    /// Opaque auxiliary payload bytes, carried through untouched.
    pub data: Vec<u8>,
    /// `None` for the native asset, `Some` for a fungible-token type.
    pub token_mint: Option<AccountId>,
    /// Who proposed the transfer.
    pub proposer: AccountId,
    /// Set once by execution, never reset.
    pub is_executed: bool,
    /// The distinct owners that currently confirm the transfer.
    pub confirmations: Vec<AccountId>,
    /// When the transfer was proposed; the time lock counts from here.
    pub created_at: i64,
    /// Whether quorum means every owner rather than the threshold,
    /// decided at proposal time from the spending limit.
    pub requires_all_confirmations: bool,
}

/// The transfer the host's asset-transfer capability must perform
/// after a successful execution. If the capability fails, the host
/// must discard the updated transaction and limit records, so that
/// execution stays all-or-nothing.
#[derive(Clone, Copy, PartialEq, Eq, Structural, Debug)]
pub struct TransferRequest {
    pub destination: AccountId,
    pub amount: u64,
    pub token_mint: Option<AccountId>,
}

impl Transaction {
    /// The ledger invariant: the confirmation set holds no identity
    /// twice, and the creation time is a timestamp.
    pub open spec fn wf(self) -> bool {
        &&& self.confirmations@.no_duplicates()
        &&& self.created_at >= 0
    }
}

/// Everything a confirmation or revocation leaves untouched: the two
/// transactions are the same proposal, differing at most in their
/// confirmation set and execution flag.
pub open spec fn same_proposal(a: Transaction, b: Transaction) -> bool {
    &&& a.wallet == b.wallet
    &&& a.destination == b.destination
    &&& a.amount == b.amount
    &&& a.data@ == b.data@
    &&& a.token_mint == b.token_mint
    &&& a.proposer == b.proposer
    &&& a.created_at == b.created_at
    &&& a.requires_all_confirmations == b.requires_all_confirmations
}

/// The error a `create_transaction` call returns, or `None` when it
/// succeeds: the pause gate first, then membership of the proposer.
pub open spec fn create_check(wallet: Wallet, proposer: AccountId) -> Option<ErrorCode> {
    if wallet.is_paused {
        Some(ErrorCode::WalletPaused)
    } else if !wallet.owners@.contains(proposer) {
        Some(ErrorCode::NotOwner)
    } else {
        None
    }
}

/// Proposes a transfer. The proposer must be a current owner of an
/// unpaused wallet; the new record starts unexecuted, confirmed by the
/// proposer alone, and demands every owner's confirmation exactly when
/// `amount` does not fit within `limit` at proposal time.
pub fn create_transaction(
    wallet: &Wallet,
    wallet_key: AccountId,
    proposer: AccountId,
    destination: AccountId,
    amount: u64,
    data: Vec<u8>,
    token_mint: Option<AccountId>,
    limit: &SpendingLimit,
    now: i64,
) -> (r: Result<Transaction, ErrorCode>)
    requires
        wallet.wf(),
        limit.wf(),
        now >= 0,
    ensures
        (match create_check(*wallet, proposer) {
            Some(e) => r == Err::<Transaction, ErrorCode>(e),
            None => {
                &&& r matches Ok(t)
                &&& t.wallet == wallet_key
                &&& t.destination == destination
                &&& t.amount == amount
                &&& t.data@ == data@
                &&& t.token_mint == token_mint
                &&& t.proposer == proposer
                &&& t.is_executed == false
                &&& t.confirmations@ == seq![proposer]
                &&& t.created_at == now
                &&& t.requires_all_confirmations == !within_limits(*limit, amount, now)
                &&& t.wf()
            },
        }),
{
    if wallet.is_paused {
        return Err(ErrorCode::WalletPaused);
    }
    if !contains_id(&wallet.owners, proposer) {
        return Err(ErrorCode::NotOwner);
    }
    let requires_all = !is_within_spending_limit(limit, amount, now);
    let mut confirmations: Vec<AccountId> = Vec::new();
    confirmations.push(proposer);
    proof {
        assert(confirmations@ =~= seq![proposer]);
    }
    Ok(
        Transaction {
            wallet: wallet_key,
            destination,
            amount,
            data,
            token_mint,
            proposer,
            is_executed: false,
            confirmations,
            created_at: now,
            requires_all_confirmations: requires_all,
        },
    )
}

/// The error a `confirm_transaction` call returns, or `None` when it
/// succeeds: pause, membership, execution state, then duplicate vote.
pub open spec fn confirm_check(wallet: Wallet, txn: Transaction, owner: AccountId) -> Option<
    ErrorCode,
> {
    if wallet.is_paused {
        Some(ErrorCode::WalletPaused)
    } else if !wallet.owners@.contains(owner) {
        Some(ErrorCode::NotOwner)
    } else if txn.is_executed {
        Some(ErrorCode::TransactionExecuted)
    } else if txn.confirmations@.contains(owner) {
        Some(ErrorCode::AlreadyConfirmed)
    } else {
        None
    }
}

/// Adds `owner`'s confirmation to an unexecuted transaction of an
/// unpaused wallet, once per owner, and returns the resulting
/// confirmation count. On any error the transaction is left unchanged.
pub fn confirm_transaction(txn: &mut Transaction, wallet: &Wallet, owner: AccountId) -> (r: Result<
    usize,
    ErrorCode,
>)
    requires
        wallet.wf(),
        old(txn).wf(),
    ensures
        final(txn).wf(),
        (match confirm_check(*wallet, *old(txn), owner) {
            Some(e) => r == Err::<usize, ErrorCode>(e) && *final(txn) == *old(txn),
            None => {
                &&& r matches Ok(n) && n == old(txn).confirmations@.len() + 1
                &&& same_proposal(*old(txn), *final(txn))
                &&& final(txn).is_executed == false
                &&& final(txn).confirmations@ == old(txn).confirmations@.push(owner)
            },
        }),
{
    if wallet.is_paused {
        return Err(ErrorCode::WalletPaused);
    }
    if !contains_id(&wallet.owners, owner) {
        return Err(ErrorCode::NotOwner);
    }
    if txn.is_executed {
        return Err(ErrorCode::TransactionExecuted);
    }
    if contains_id(&txn.confirmations, owner) {
        return Err(ErrorCode::AlreadyConfirmed);
    }
    txn.confirmations.push(owner);
    Ok(txn.confirmations.len())
}

/// The error a `revoke_confirmation` call returns, or `None` when it
/// succeeds: pause, membership, execution state, then a missing vote.
pub open spec fn revoke_check(wallet: Wallet, txn: Transaction, owner: AccountId) -> Option<
    ErrorCode,
> {
    if wallet.is_paused {
        Some(ErrorCode::WalletPaused)
    } else if !wallet.owners@.contains(owner) {
        Some(ErrorCode::NotOwner)
    } else if txn.is_executed {
        Some(ErrorCode::TransactionExecuted)
    } else if !txn.confirmations@.contains(owner) {
        Some(ErrorCode::NotConfirmed)
    } else {
        None
    }
}

/// Withdraws `owner`'s confirmation from an unexecuted transaction of
/// an unpaused wallet. The confirmation count drops by exactly one and
/// every other owner's vote stands. On any error the transaction is
/// left unchanged.
pub fn revoke_confirmation(txn: &mut Transaction, wallet: &Wallet, owner: AccountId) -> (r: Result<
    (),
    ErrorCode,
>)
    requires
        wallet.wf(),
        old(txn).wf(),
    ensures
        final(txn).wf(),
        (match revoke_check(*wallet, *old(txn), owner) {
            Some(e) => r == Err::<(), ErrorCode>(e) && *final(txn) == *old(txn),
            None => {
                &&& r == Ok::<(), ErrorCode>(())
                &&& same_proposal(*old(txn), *final(txn))
                &&& final(txn).is_executed == false
                &&& final(txn).confirmations@ == remove_id(old(txn).confirmations@, owner)
                &&& final(txn).confirmations@.len() == old(txn).confirmations@.len() - 1
                &&& !final(txn).confirmations@.contains(owner)
            },
        }),
{
    if wallet.is_paused {
        return Err(ErrorCode::WalletPaused);
    }
    if !contains_id(&wallet.owners, owner) {
        return Err(ErrorCode::NotOwner);
    }
    if txn.is_executed {
        return Err(ErrorCode::TransactionExecuted);
    }
    if !contains_id(&txn.confirmations, owner) {
        return Err(ErrorCode::NotConfirmed);
    }
    proof {
        lemma_remove_id_properties(txn.confirmations@, owner);
    }
    let kept = remove_account(&txn.confirmations, owner);
    txn.confirmations = kept;
    Ok(())
}

/// How many confirmations execution demands: every owner when the
/// proposal exceeded the spending limit, the wallet's threshold
/// otherwise.
pub open spec fn required_confirmations(wallet: Wallet, txn: Transaction) -> int {
    if txn.requires_all_confirmations {
        wallet.owners@.len() as int
    } else {
        wallet.threshold as int
    }
}

/// The pure quorum predicate: whether the transaction currently has
/// the required number of confirmations.
pub fn can_execute_transaction(wallet: &Wallet, txn: &Transaction) -> (r: bool)
    ensures
        r == (txn.confirmations@.len() >= required_confirmations(*wallet, *txn)),
{
    let required: usize = if txn.requires_all_confirmations {
        wallet.owners.len()
    } else {
        wallet.threshold as usize
    };
    txn.confirmations.len() >= required
}

/// The error an `execute_transaction` call returns, or `None` when it
/// succeeds: pause, membership of the executor, execution state,
/// quorum, time lock, then the spending reservation.
pub open spec fn execute_check(
    wallet: Wallet,
    txn: Transaction,
    limit: SpendingLimit,
    executor: AccountId,
    now: i64,
) -> Option<ErrorCode> {
    if wallet.is_paused {
        Some(ErrorCode::WalletPaused)
    } else if !wallet.owners@.contains(executor) {
        Some(ErrorCode::NotOwner)
    } else if txn.is_executed {
        Some(ErrorCode::TransactionExecuted)
    } else if txn.confirmations@.len() < required_confirmations(wallet, txn) {
        Some(ErrorCode::InsufficientConfirmations)
    } else if (now as int) < txn.created_at + wallet.time_lock_duration {
        Some(ErrorCode::TimeLockNotExpired)
    } else if !within_limits(limit, txn.amount, now) {
        Some(ErrorCode::SpendingLimitExceeded)
    } else {
        None
    }
}

/// Executes a transaction: quorum reached, time lock elapsed, spend
/// reserved — then, and only then, the executed flag is set,
/// irreversibly, and the transfer the host must perform is handed
/// back. All checks precede every mutation: on any error both the
/// transaction and the limit record are left exactly as they were.
pub fn execute_transaction(
    wallet: &Wallet,
    txn: &mut Transaction,
    limit: &mut SpendingLimit,
    executor: AccountId,
    now: i64,
) -> (r: Result<TransferRequest, ErrorCode>)
    requires
        wallet.wf(),
        old(txn).wf(),
        old(limit).wf(),
        now >= 0,
    ensures
        final(txn).wf(),
        final(limit).wf(),
        (match execute_check(*wallet, *old(txn), *old(limit), executor, now) {
            Some(e) => {
                &&& r == Err::<TransferRequest, ErrorCode>(e)
                &&& *final(txn) == *old(txn)
                &&& *final(limit) == *old(limit)
            },
            None => {
                &&& r == Ok::<TransferRequest, ErrorCode>(
                    TransferRequest {
                        destination: old(txn).destination,
                        amount: old(txn).amount,
                        token_mint: old(txn).token_mint,
                    },
                )
                &&& same_proposal(*old(txn), *final(txn))
                &&& final(txn).confirmations@ == old(txn).confirmations@
                &&& final(txn).is_executed == true
                &&& *final(limit) == spent_after(rolled(*old(limit), now), old(txn).amount)
            },
        }),
{
    if wallet.is_paused {
        return Err(ErrorCode::WalletPaused);
    }
    if !contains_id(&wallet.owners, executor) {
        return Err(ErrorCode::NotOwner);
    }
    if txn.is_executed {
        return Err(ErrorCode::TransactionExecuted);
    }
    if !can_execute_transaction(wallet, txn) {
        return Err(ErrorCode::InsufficientConfirmations);
    }
    if now - txn.created_at < wallet.time_lock_duration {
        return Err(ErrorCode::TimeLockNotExpired);
    }
    if !is_within_spending_limit(limit, txn.amount, now) {
        return Err(ErrorCode::SpendingLimitExceeded);
    }
    let reserved = update_spending_limit(limit, txn.amount, now);
    txn.is_executed = true;
    Ok(TransferRequest { destination: txn.destination, amount: txn.amount, token_mint: txn.token_mint })
}

/// The auto-execute-on-confirm policy: confirms and, when the
/// confirmation is the one that completes the quorum while the time
/// lock has elapsed and the amount fits the spending limit, executes
/// in the same breath. Execution happens exactly under those
/// conditions — a confirmation that leaves any of them unmet stands
/// alone, with the transaction still pending and the limit record
/// untouched. Hosts pick the other policy by calling
/// `confirm_transaction` and `execute_transaction` separately; a host
/// without a spending tracker hands a record with both caps zero.
pub fn confirm_and_execute_transaction(
    txn: &mut Transaction,
    wallet: &Wallet,
    limit: &mut SpendingLimit,
    owner: AccountId,
    now: i64,
) -> (r: Result<(usize, Option<TransferRequest>), ErrorCode>)
    requires
        wallet.wf(),
        old(txn).wf(),
        old(limit).wf(),
        now >= 0,
    ensures
        final(txn).wf(),
        final(limit).wf(),
        (match confirm_check(*wallet, *old(txn), owner) {
            Some(e) => {
                &&& r == Err::<(usize, Option<TransferRequest>), ErrorCode>(e)
                &&& *final(txn) == *old(txn)
                &&& *final(limit) == *old(limit)
            },
            None => {
                &&& r matches Ok(p) && p.0 == old(txn).confirmations@.len() + 1
                &&& same_proposal(*old(txn), *final(txn))
                &&& final(txn).confirmations@ == old(txn).confirmations@.push(owner)
                &&& if ({
                    &&& old(txn).confirmations@.len() + 1 >= required_confirmations(
                        *wallet,
                        *old(txn),
                    )
                    &&& now as int >= old(txn).created_at + wallet.time_lock_duration
                    &&& within_limits(*old(limit), old(txn).amount, now)
                }) {
                    &&& final(txn).is_executed == true
                    &&& (r matches Ok(p) && p.1 == Some(
                        TransferRequest {
                            destination: old(txn).destination,
                            amount: old(txn).amount,
                            token_mint: old(txn).token_mint,
                        },
                    ))
                    &&& *final(limit) == spent_after(rolled(*old(limit), now), old(txn).amount)
                } else {
                    &&& final(txn).is_executed == false
                    &&& (r matches Ok(p) && p.1 is None)
                    &&& *final(limit) == *old(limit)
                }
            },
        }),
{
    let count = confirm_transaction(txn, wallet, owner)?;
    match execute_transaction(wallet, txn, limit, owner, now) {
        Ok(req) => Ok((count, Some(req))),
        Err(_) => Ok((count, None)),
    }
}

/// A transaction can pass the execution gate only with the required
/// confirmations gathered and the time lock elapsed: whenever
/// `execute_check` allows execution, the confirmation count reaches
/// `required_confirmations` and `now` is at least the creation time
/// plus the wallet's time-lock duration.
pub proof fn lemma_execute_needs_quorum_and_timelock(
    wallet: Wallet,
    txn: Transaction,
    limit: SpendingLimit,
    executor: AccountId,
    now: i64,
)
    requires
        execute_check(wallet, txn, limit, executor, now) is None,
    ensures
        txn.confirmations@.len() >= required_confirmations(wallet, txn),
        now as int >= txn.created_at + wallet.time_lock_duration,
{
}

/// A confirmation followed immediately by a revocation for the same
/// owner restores the confirmation set to its value before the
/// confirmation, provided the transaction is not yet executed: if the
/// confirmation succeeded on `pre` and left `mid`, then the
/// revocation succeeds on `mid`, and applying its effect leaves a
/// transaction `post` whose confirmation set equals `pre`'s.
pub proof fn lemma_confirm_then_revoke_restores(
    wallet: Wallet,
    pre: Transaction,
    mid: Transaction,
    post: Transaction,
    owner: AccountId,
)
    requires
        confirm_check(wallet, pre, owner) is None,
        same_proposal(pre, mid),
        mid.is_executed == false,
        mid.confirmations@ == pre.confirmations@.push(owner),
        same_proposal(mid, post),
        post.is_executed == false,
        post.confirmations@ == remove_id(mid.confirmations@, owner),
    ensures
        revoke_check(wallet, mid, owner) is None,
        post.confirmations@ == pre.confirmations@,
        same_proposal(pre, post),
{
    assert(mid.confirmations@.contains(owner)) by {
        assert(mid.confirmations@[mid.confirmations@.len() - 1] == owner);
    }
    lemma_remove_id_push(pre.confirmations@, owner);
}

/// Confirming twice is rejected the second time: after a successful
/// confirmation by `owner`, a second confirmation attempt by the same
/// owner on the resulting transaction fails with `AlreadyConfirmed`
/// (and, by the contract of `confirm_transaction`, leaves the
/// transaction unchanged).
pub proof fn lemma_confirm_idempotent(
    wallet: Wallet,
    pre: Transaction,
    mid: Transaction,
    owner: AccountId,
)
    requires
        confirm_check(wallet, pre, owner) is None,
        same_proposal(pre, mid),
        mid.is_executed == false,
        mid.confirmations@ == pre.confirmations@.push(owner),
    ensures
        confirm_check(wallet, mid, owner) == Some(ErrorCode::AlreadyConfirmed),
{
    assert(mid.confirmations@.contains(owner)) by {
        assert(mid.confirmations@[mid.confirmations@.len() - 1] == owner);
    }
}

/// Execution is terminal: once a transaction is executed, no
/// confirmation, revocation or execution attempt against it succeeds,
/// whoever calls and whenever.
pub proof fn lemma_executed_is_terminal(
    wallet: Wallet,
    txn: Transaction,
    limit: SpendingLimit,
    caller: AccountId,
    now: i64,
)
    requires
        txn.is_executed,
    ensures
        confirm_check(wallet, txn, caller) is Some,
        revoke_check(wallet, txn, caller) is Some,
        execute_check(wallet, txn, limit, caller, now) is Some,
{
}

} // verus!
