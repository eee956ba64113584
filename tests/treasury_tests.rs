use sadl_contracts::identity::Identity;
use sadl_contracts::treasury::{
    add_signer, approve_transaction, execute_transaction, initialize, pause, plan_execution,
    propose_transaction, unpause, update_emergency_admin, Treasury, TransferOrder, TreasuryError,
    LARGE_TRANSACTION_THRESHOLD, MAX_DAILY_TRANSACTION_AMOUNT, TRANSACTION_COOLDOWN,
};

fn who(n: u64) -> Identity {
    Identity::new(n, 0, 0, 0)
}

fn three_signers(required: u8) -> Treasury {
    let mut t = initialize(who(1), required, 0).unwrap();
    add_signer(&mut t, who(2)).unwrap();
    add_signer(&mut t, who(3)).unwrap();
    t
}

/// Plans the transfer, pretends the service carried it out, and commits.
fn run_execution(t: &mut Treasury, id: u64, now: i64) -> Result<TransferOrder, TreasuryError> {
    let order = plan_execution(t, id, now)?;
    execute_transaction(t, id, now, true)?;
    Ok(order)
}

#[test]
fn initialize_checks_signer_count() {
    assert_eq!(initialize(who(1), 0, 0).unwrap_err(), TreasuryError::InvalidSignerCount);
    assert_eq!(initialize(who(1), 6, 0).unwrap_err(), TreasuryError::InvalidSignerCount);
    let t = initialize(who(1), 5, 77).unwrap();
    assert_eq!(t.signers, vec![who(1)]);
    assert_eq!(t.required_signers, 5);
    assert_eq!(t.daily_cap, MAX_DAILY_TRANSACTION_AMOUNT);
    assert_eq!(t.daily_window.last_reset, 77);
    assert_eq!(t.daily_window.total, 0);
    assert_eq!(t.breaker.emergency_admin, who(1));
    assert!(t.pending_transactions.is_empty());
}

#[test]
fn signer_set_bounds() {
    let mut t = initialize(who(1), 1, 0).unwrap();
    assert_eq!(add_signer(&mut t, who(1)).unwrap_err(), TreasuryError::SignerAlreadyExists);
    for n in 2..=5u64 {
        add_signer(&mut t, who(n)).unwrap();
    }
    assert_eq!(t.signers.len(), 5);
    assert_eq!(add_signer(&mut t, who(6)).unwrap_err(), TreasuryError::MaxSignersReached);
}

#[test]
fn threshold_of_three_approvals() {
    let mut t = three_signers(3);
    let id = propose_transaction(&mut t, who(1), 500, who(40), "grant".to_string(), 10).unwrap();
    assert_eq!(id, 0);
    approve_transaction(&mut t, who(2), id).unwrap();
    assert_eq!(t.pending_transactions[0].approvals, vec![who(1), who(2)]);
    assert_eq!(plan_execution(&t, id, 20).unwrap_err(), TreasuryError::InsufficientApprovals);
    assert_eq!(
        execute_transaction(&mut t, id, 20, true).unwrap_err(),
        TreasuryError::InsufficientApprovals
    );
    assert!(!t.pending_transactions[0].executed);
    approve_transaction(&mut t, who(3), id).unwrap();
    let order = run_execution(&mut t, id, 30).unwrap();
    assert_eq!(order, TransferOrder { transaction_id: 0, amount: 500, destination: who(40) });
    assert!(t.pending_transactions[0].executed);
    assert_eq!(t.daily_window.total, 500);
    assert_eq!(t.last_transaction_time, 30);
    assert_eq!(run_execution(&mut t, id, 40).unwrap_err(), TreasuryError::AlreadyExecuted);
}

#[test]
fn executed_record_never_planned_again() {
    let mut t = three_signers(1);
    let id = propose_transaction(&mut t, who(1), 10, who(40), String::new(), 0).unwrap();
    run_execution(&mut t, id, 1).unwrap();
    let snapshot_total = t.daily_window.total;
    for now in [1, 2, 100_000] {
        assert_eq!(plan_execution(&t, id, now).unwrap_err(), TreasuryError::AlreadyExecuted);
        assert_eq!(
            execute_transaction(&mut t, id, now, true).unwrap_err(),
            TreasuryError::AlreadyExecuted
        );
    }
    assert_eq!(t.daily_window.total, snapshot_total);
    assert!(t.pending_transactions[0].executed);
}

#[test]
fn daily_cap_rolls_after_a_day() {
    let mut t = three_signers(1);
    t.daily_cap = 1000;
    let a = propose_transaction(&mut t, who(1), 600, who(40), String::new(), 0).unwrap();
    let b = propose_transaction(&mut t, who(2), 600, who(41), String::new(), 0).unwrap();
    run_execution(&mut t, a, 100).unwrap();
    assert_eq!(t.daily_window.total, 600);
    assert_eq!(run_execution(&mut t, b, 200).unwrap_err(), TreasuryError::DailyLimitExceeded);
    assert!(!t.pending_transactions[1].executed);
    assert_eq!(run_execution(&mut t, b, 86_400).unwrap().amount, 600);
    assert!(t.pending_transactions[1].executed);
    assert_eq!(t.daily_window.total, 600);
    assert_eq!(t.daily_window.last_reset, 86_400);
}

#[test]
fn proposal_over_daily_cap_rejected() {
    let mut t = three_signers(1);
    t.daily_cap = 1000;
    let r = propose_transaction(&mut t, who(1), 1001, who(40), String::new(), 0);
    assert_eq!(r.unwrap_err(), TreasuryError::DailyLimitExceeded);
    assert!(propose_transaction(&mut t, who(1), 1000, who(40), String::new(), 0).is_ok());
}

#[test]
fn failed_transfer_changes_nothing() {
    let mut t = three_signers(1);
    let id = propose_transaction(&mut t, who(1), 70, who(40), String::new(), 0).unwrap();
    plan_execution(&t, id, 5).unwrap();
    assert_eq!(execute_transaction(&mut t, id, 5, false).unwrap_err(), TreasuryError::TransferFailed);
    assert!(!t.pending_transactions[0].executed);
    assert_eq!(t.daily_window.total, 0);
    assert_eq!(t.last_transaction_time, 0);
    execute_transaction(&mut t, id, 6, true).unwrap();
    assert!(t.pending_transactions[0].executed);
}

#[test]
fn approval_rejections() {
    let mut t = three_signers(2);
    let id = propose_transaction(&mut t, who(1), 5, who(40), String::new(), 0).unwrap();
    assert_eq!(approve_transaction(&mut t, who(2), 9).unwrap_err(), TreasuryError::TransactionNotFound);
    assert_eq!(approve_transaction(&mut t, who(9), id).unwrap_err(), TreasuryError::UnauthorizedSigner);
    assert_eq!(approve_transaction(&mut t, who(1), id).unwrap_err(), TreasuryError::AlreadyApproved);
    approve_transaction(&mut t, who(2), id).unwrap();
    assert_eq!(approve_transaction(&mut t, who(2), id).unwrap_err(), TreasuryError::AlreadyApproved);
    run_execution(&mut t, id, 1).unwrap();
    assert_eq!(approve_transaction(&mut t, who(3), id).unwrap_err(), TreasuryError::AlreadyExecuted);
    assert_eq!(plan_execution(&t, 9, 1).unwrap_err(), TreasuryError::TransactionNotFound);
}

#[test]
fn proposal_rejections() {
    let mut t = three_signers(1);
    let r = propose_transaction(&mut t, who(9), 5, who(40), String::new(), 0);
    assert_eq!(r.unwrap_err(), TreasuryError::UnauthorizedSigner);
    let big = LARGE_TRANSACTION_THRESHOLD;
    let r = propose_transaction(&mut t, who(1), big, who(40), String::new(), TRANSACTION_COOLDOWN - 1);
    assert_eq!(r.unwrap_err(), TreasuryError::TransactionCooldownActive);
    let t0: i64 = 10_000;
    let id = propose_transaction(&mut t, who(1), big, who(40), String::new(), t0).unwrap();
    run_execution(&mut t, id, t0).unwrap();
    let r = propose_transaction(&mut t, who(1), big, who(40), String::new(), t0 + TRANSACTION_COOLDOWN - 1);
    assert_eq!(r.unwrap_err(), TreasuryError::TransactionCooldownActive);
    assert!(propose_transaction(&mut t, who(1), big - 1, who(40), String::new(), t0 + 1).is_ok());
    let id = propose_transaction(&mut t, who(1), big, who(40), String::new(), t0 + TRANSACTION_COOLDOWN).unwrap();
    assert_eq!(id, 2);
    assert_eq!(t.transaction_count, 3);
}

#[test]
fn treasury_breaker() {
    let mut t = three_signers(1);
    let id = propose_transaction(&mut t, who(1), 5, who(40), String::new(), 0).unwrap();
    assert_eq!(pause(&mut t, who(2)).unwrap_err(), TreasuryError::Unauthorized);
    pause(&mut t, who(1)).unwrap();
    assert_eq!(plan_execution(&t, id, 1).unwrap_err(), TreasuryError::ContractPaused);
    assert_eq!(approve_transaction(&mut t, who(2), 99).unwrap_err(), TreasuryError::ContractPaused);
    assert_eq!(add_signer(&mut t, who(4)).unwrap_err(), TreasuryError::ContractPaused);
    let r = propose_transaction(&mut t, who(9), 5, who(40), String::new(), 0);
    assert_eq!(r.unwrap_err(), TreasuryError::ContractPaused);
    unpause(&mut t, who(1)).unwrap();
    update_emergency_admin(&mut t, who(1), who(3)).unwrap();
    assert_eq!(unpause(&mut t, who(1)).unwrap_err(), TreasuryError::Unauthorized);
    assert_eq!(t.breaker.emergency_admin, who(3));
    run_execution(&mut t, id, 1).unwrap();
}
