use multisig_wallet::account::AccountId;
use multisig_wallet::errors::ErrorCode;
use multisig_wallet::spending::{set_spending_limit, SpendingLimit};
use multisig_wallet::transaction::{
    can_execute_transaction, confirm_and_execute_transaction, confirm_transaction,
    create_transaction, execute_transaction, revoke_confirmation, Transaction,
};
use multisig_wallet::wallet::{initialize_wallet, Wallet};

fn id(n: u128) -> AccountId {
    AccountId::new(0, n)
}

fn wallet_abc(threshold: u8, time_lock: i64) -> Wallet {
    initialize_wallet(vec![id(1), id(2), id(3)], threshold, time_lock).unwrap()
}

fn no_limit(now: i64) -> SpendingLimit {
    set_spending_limit(0, 0, now)
}

fn propose(w: &Wallet, lim: &SpendingLimit, amount: u64, now: i64) -> Transaction {
    create_transaction(w, id(100), id(1), id(200), amount, Vec::new(), None, lim, now).unwrap()
}

#[test]
fn create_fills_the_record() {
    let w = wallet_abc(2, 0);
    let lim = no_limit(0);
    let t = create_transaction(
        &w,
        id(100),
        id(1),
        id(200),
        10,
        vec![1, 2, 3],
        Some(id(300)),
        &lim,
        1000,
    )
    .unwrap();
    assert_eq!(t.wallet, id(100));
    assert_eq!(t.destination, id(200));
    assert_eq!(t.amount, 10);
    assert_eq!(t.data, vec![1, 2, 3]);
    assert_eq!(t.token_mint, Some(id(300)));
    assert_eq!(t.proposer, id(1));
    assert!(!t.is_executed);
    assert_eq!(t.confirmations, vec![id(1)]);
    assert_eq!(t.created_at, 1000);
    assert!(!t.requires_all_confirmations);
}

#[test]
fn create_rejects_paused_wallet() {
    let mut w = wallet_abc(2, 0);
    w.pause_wallet(id(1)).unwrap();
    let lim = no_limit(0);
    let r = create_transaction(&w, id(100), id(1), id(200), 10, Vec::new(), None, &lim, 0);
    assert_eq!(r.unwrap_err(), ErrorCode::WalletPaused);
}

#[test]
fn create_rejects_non_owner_proposer() {
    let w = wallet_abc(2, 0);
    let lim = no_limit(0);
    let r = create_transaction(&w, id(100), id(9), id(200), 10, Vec::new(), None, &lim, 0);
    assert_eq!(r.unwrap_err(), ErrorCode::NotOwner);
}

#[test]
fn create_marks_over_limit_proposals() {
    let w = wallet_abc(2, 0);
    let lim = set_spending_limit(100, 0, 0);
    let t = propose(&w, &lim, 150, 0);
    assert!(t.requires_all_confirmations);
    let t2 = propose(&w, &lim, 100, 0);
    assert!(!t2.requires_all_confirmations);
}

#[test]
fn confirm_counts_distinct_owners() {
    let w = wallet_abc(2, 0);
    let lim = no_limit(0);
    let mut t = propose(&w, &lim, 10, 0);
    assert_eq!(confirm_transaction(&mut t, &w, id(2)), Ok(2));
    assert_eq!(t.confirmations, vec![id(1), id(2)]);
}

#[test]
fn confirm_twice_fails_and_changes_nothing() {
    let w = wallet_abc(3, 0);
    let lim = no_limit(0);
    let mut t = propose(&w, &lim, 10, 0);
    assert_eq!(confirm_transaction(&mut t, &w, id(2)), Ok(2));
    let before = t.confirmations.clone();
    assert_eq!(
        confirm_transaction(&mut t, &w, id(2)),
        Err(ErrorCode::AlreadyConfirmed)
    );
    assert_eq!(t.confirmations, before);
    assert!(!t.is_executed);
}

#[test]
fn confirm_rejects_implicit_proposer_vote_again() {
    let w = wallet_abc(2, 0);
    let lim = no_limit(0);
    let mut t = propose(&w, &lim, 10, 0);
    assert_eq!(
        confirm_transaction(&mut t, &w, id(1)),
        Err(ErrorCode::AlreadyConfirmed)
    );
}

#[test]
fn confirm_rejects_non_owner() {
    let w = wallet_abc(2, 0);
    let lim = no_limit(0);
    let mut t = propose(&w, &lim, 10, 0);
    assert_eq!(
        confirm_transaction(&mut t, &w, id(9)),
        Err(ErrorCode::NotOwner)
    );
}

#[test]
fn confirm_rejects_paused_wallet() {
    let mut w = wallet_abc(2, 0);
    let lim = no_limit(0);
    let mut t = propose(&w, &lim, 10, 0);
    w.pause_wallet(id(1)).unwrap();
    assert_eq!(
        confirm_transaction(&mut t, &w, id(2)),
        Err(ErrorCode::WalletPaused)
    );
}

#[test]
fn revoke_after_confirm_restores_confirmations() {
    let w = wallet_abc(3, 0);
    let lim = no_limit(0);
    let mut t = propose(&w, &lim, 10, 0);
    let before = t.confirmations.clone();
    assert_eq!(confirm_transaction(&mut t, &w, id(2)), Ok(2));
    assert_eq!(revoke_confirmation(&mut t, &w, id(2)), Ok(()));
    assert_eq!(t.confirmations, before);
}

#[test]
fn revoke_rejects_missing_confirmation() {
    let w = wallet_abc(2, 0);
    let lim = no_limit(0);
    let mut t = propose(&w, &lim, 10, 0);
    assert_eq!(
        revoke_confirmation(&mut t, &w, id(2)),
        Err(ErrorCode::NotConfirmed)
    );
}

#[test]
fn revoke_rejects_non_owner() {
    let w = wallet_abc(2, 0);
    let lim = no_limit(0);
    let mut t = propose(&w, &lim, 10, 0);
    assert_eq!(
        revoke_confirmation(&mut t, &w, id(9)),
        Err(ErrorCode::NotOwner)
    );
}

#[test]
fn quorum_scenario_executes_once_at_threshold() {
    // Owners {A,B,C}, threshold 2, no time lock. A proposes a transfer
    // of 10; A counts as confirmed; B's confirmation reaches the
    // threshold and execution issues the transfer once.
    let w = wallet_abc(2, 0);
    let mut lim = no_limit(0);
    let mut t = propose(&w, &lim, 10, 0);
    assert!(!can_execute_transaction(&w, &t));
    assert_eq!(confirm_transaction(&mut t, &w, id(2)), Ok(2));
    assert!(can_execute_transaction(&w, &t));
    let req = execute_transaction(&w, &mut t, &mut lim, id(2), 0).unwrap();
    assert_eq!(req.destination, id(200));
    assert_eq!(req.amount, 10);
    assert_eq!(req.token_mint, None);
    assert!(t.is_executed);
}

#[test]
fn executed_transaction_rejects_late_confirmation() {
    let w = wallet_abc(2, 0);
    let mut lim = no_limit(0);
    let mut t = propose(&w, &lim, 10, 0);
    confirm_transaction(&mut t, &w, id(2)).unwrap();
    execute_transaction(&w, &mut t, &mut lim, id(2), 0).unwrap();
    assert_eq!(
        confirm_transaction(&mut t, &w, id(3)),
        Err(ErrorCode::TransactionExecuted)
    );
    assert_eq!(
        revoke_confirmation(&mut t, &w, id(2)),
        Err(ErrorCode::TransactionExecuted)
    );
    assert_eq!(
        execute_transaction(&w, &mut t, &mut lim, id(1), 0).unwrap_err(),
        ErrorCode::TransactionExecuted
    );
}

#[test]
fn execute_rejects_insufficient_confirmations() {
    let w = wallet_abc(2, 0);
    let mut lim = no_limit(0);
    let mut t = propose(&w, &lim, 10, 0);
    assert_eq!(
        execute_transaction(&w, &mut t, &mut lim, id(1), 0).unwrap_err(),
        ErrorCode::InsufficientConfirmations
    );
    assert!(!t.is_executed);
}

#[test]
fn execute_rejects_non_owner_executor() {
    let w = wallet_abc(2, 0);
    let mut lim = no_limit(0);
    let mut t = propose(&w, &lim, 10, 0);
    confirm_transaction(&mut t, &w, id(2)).unwrap();
    assert_eq!(
        execute_transaction(&w, &mut t, &mut lim, id(9), 0).unwrap_err(),
        ErrorCode::NotOwner
    );
}

#[test]
fn execute_rejects_paused_wallet() {
    let mut w = wallet_abc(2, 0);
    let mut lim = no_limit(0);
    let mut t = propose(&w, &lim, 10, 0);
    confirm_transaction(&mut t, &w, id(2)).unwrap();
    w.pause_wallet(id(1)).unwrap();
    assert_eq!(
        execute_transaction(&w, &mut t, &mut lim, id(2), 0).unwrap_err(),
        ErrorCode::WalletPaused
    );
}

#[test]
fn execute_waits_for_the_time_lock() {
    let w = wallet_abc(2, 100);
    let mut lim = no_limit(0);
    let mut t = propose(&w, &lim, 10, 1000);
    confirm_transaction(&mut t, &w, id(2)).unwrap();
    assert_eq!(
        execute_transaction(&w, &mut t, &mut lim, id(2), 1050).unwrap_err(),
        ErrorCode::TimeLockNotExpired
    );
    assert!(!t.is_executed);
    let req = execute_transaction(&w, &mut t, &mut lim, id(2), 1100).unwrap();
    assert_eq!(req.amount, 10);
    assert!(t.is_executed);
}

#[test]
fn over_limit_proposal_needs_every_owner() {
    // Threshold-2 wallet; the amount exceeds the configured daily
    // limit at proposal time, so every owner must confirm before the
    // quorum check passes.
    let w = wallet_abc(2, 0);
    let lim = set_spending_limit(100, 0, 0);
    let mut t = propose(&w, &lim, 150, 0);
    assert!(t.requires_all_confirmations);
    let mut lim_at_exec = lim;
    assert_eq!(confirm_transaction(&mut t, &w, id(2)), Ok(2));
    assert_eq!(
        execute_transaction(&w, &mut t, &mut lim_at_exec, id(2), 0).unwrap_err(),
        ErrorCode::InsufficientConfirmations
    );
    assert_eq!(confirm_transaction(&mut t, &w, id(3)), Ok(3));
    assert!(can_execute_transaction(&w, &t));
    // The execution-time reservation stays authoritative: the amount
    // still exceeds the daily cap, so the debit may not proceed.
    assert_eq!(
        execute_transaction(&w, &mut t, &mut lim_at_exec, id(2), 0).unwrap_err(),
        ErrorCode::SpendingLimitExceeded
    );
    assert!(!t.is_executed);
}

#[test]
fn quorum_recomputes_against_current_owners() {
    // The owner set is re-read fresh on every call: an owner removed
    // mid-flight loses authorization on their very next call, and a
    // grown owner set raises the bar for all-confirmation proposals.
    let mut w = wallet_abc(2, 0);
    let lim = no_limit(0);
    let mut t = propose(&w, &lim, 10, 0);
    w.remove_owner(id(1), id(2)).unwrap();
    assert_eq!(
        confirm_transaction(&mut t, &w, id(2)),
        Err(ErrorCode::NotOwner)
    );
}

#[test]
fn auto_execute_fires_at_quorum() {
    let w = wallet_abc(2, 0);
    let mut lim = no_limit(0);
    let mut t = propose(&w, &lim, 10, 0);
    let (count, req) = confirm_and_execute_transaction(&mut t, &w, &mut lim, id(2), 0).unwrap();
    assert_eq!(count, 2);
    let req = req.expect("quorum reached, so the transfer is issued");
    assert_eq!(req.destination, id(200));
    assert_eq!(req.amount, 10);
    assert!(t.is_executed);
}

#[test]
fn auto_execute_waits_for_quorum_and_time_lock() {
    let w = initialize_wallet(vec![id(1), id(2), id(3)], 3, 100).unwrap();
    let mut lim = no_limit(0);
    let mut t = propose(&w, &lim, 10, 1000);
    // Quorum not yet reached: the confirmation stands alone.
    let (count, req) = confirm_and_execute_transaction(&mut t, &w, &mut lim, id(2), 1100).unwrap();
    assert_eq!((count, req), (2, None));
    assert!(!t.is_executed);
    // Quorum reached but the time lock still runs: still pending.
    let (count, req) = confirm_and_execute_transaction(&mut t, &w, &mut lim, id(3), 1050).unwrap();
    assert_eq!((count, req), (3, None));
    assert!(!t.is_executed);
    // Both now hold.
    let req = execute_transaction(&w, &mut t, &mut lim, id(1), 1100).unwrap();
    assert_eq!(req.amount, 10);
    assert!(t.is_executed);
}

#[test]
fn auto_execute_propagates_confirm_errors() {
    let w = wallet_abc(2, 0);
    let mut lim = no_limit(0);
    let mut t = propose(&w, &lim, 10, 0);
    assert_eq!(
        confirm_and_execute_transaction(&mut t, &w, &mut lim, id(1), 0),
        Err(ErrorCode::AlreadyConfirmed)
    );
    assert_eq!(
        confirm_and_execute_transaction(&mut t, &w, &mut lim, id(9), 0),
        Err(ErrorCode::NotOwner)
    );
    assert!(!t.is_executed);
}
