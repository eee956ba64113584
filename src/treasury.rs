use vstd::prelude::*;

use crate::circuit_breaker::{BreakerError, CircuitBreaker};
use crate::identity::{contains_identity, Identity};
use crate::rate_limit::{cooldown_elapsed, cooldown_elapsed_spec, DailyWindow};

verus! {

/// Default ceiling on the volume executed per rolling day (1M tokens of 9 decimals).
pub const MAX_DAILY_TRANSACTION_AMOUNT: u64 = 1_000_000 * 1_000_000_000;

/// Seconds between a large transaction and the previous execution.
pub const TRANSACTION_COOLDOWN: i64 = 3600;

/// Amount from which a proposal counts as large (100K tokens of 9 decimals).
pub const LARGE_TRANSACTION_THRESHOLD: u64 = 100_000 * 1_000_000_000;

/// Most signers a treasury may have, and the largest approval threshold.
pub const MAX_SIGNERS: usize = 5;

#[derive(Clone, Debug)]
pub struct Transaction {
    pub id: u64,
    pub amount: u64,
    pub destination: Identity,
    pub description: String,
    pub approvals: Vec<Identity>,
    pub executed: bool,
    pub created_at: i64,
}

/// The treasury engine's aggregate state. Transaction `i` of
/// `pending_transactions` has id `i`.
#[derive(Clone, Debug)]
pub struct Treasury {
    pub signers: Vec<Identity>,
    pub required_signers: u8,
    pub pending_transactions: Vec<Transaction>,
    pub transaction_count: u64,
    pub bump: u8,
    pub breaker: CircuitBreaker,
    /// Volume that executions may move per rolling day.
    pub daily_cap: u64,
    pub daily_window: DailyWindow,
    pub last_transaction_time: i64,
}

/// What an authorized execution hands to the value-transfer service.
#[derive(Clone, Copy, Debug, PartialEq, Eq, Structural)]
pub struct TransferOrder {
    pub transaction_id: u64,
    pub amount: u64,
    pub destination: Identity,
}

#[derive(Clone, Copy, Debug, PartialEq, Eq, Structural)]
pub enum TreasuryError {
    InvalidSignerCount,
    MaxSignersReached,
    SignerAlreadyExists,
    UnauthorizedSigner,
    TransactionNotFound,
    AlreadyExecuted,
    AlreadyApproved,
    InsufficientApprovals,
    ContractPaused,
    DailyLimitExceeded,
    TransactionCooldownActive,
    Unauthorized,
    TransferFailed,
}

impl Treasury {
    pub open spec fn wf(&self) -> bool {
        &&& self.signers@.no_duplicates()
        &&& self.signers@.len() <= MAX_SIGNERS
        &&& 1 <= self.required_signers <= MAX_SIGNERS
        &&& self.transaction_count == self.pending_transactions@.len()
        &&& forall|i: int|
            0 <= i < self.pending_transactions@.len() ==> {
                &&& (#[trigger] self.pending_transactions@[i]).id == i
                &&& self.pending_transactions@[i].approvals@.no_duplicates()
            }
    }

    pub open spec fn has_transaction(&self, id: u64) -> bool {
        id < self.pending_transactions@.len()
    }

    pub open spec fn transaction(&self, id: u64) -> Transaction {
        self.pending_transactions@[id as int]
    }

    /// Whether every record executed in `self` is still executed in `next`.
    pub open spec fn executions_kept(&self, next: Treasury) -> bool {
        &&& self.pending_transactions@.len() <= next.pending_transactions@.len()
        &&& forall|i: int|
            0 <= i < self.pending_transactions@.len() && #[trigger] self.pending_transactions@[i].executed
                ==> next.pending_transactions@[i].executed
    }
}

fn breaker_error(e: BreakerError) -> (r: TreasuryError)
    ensures
        r == (match e {
            BreakerError::Unauthorized => TreasuryError::Unauthorized,
            BreakerError::ContractPaused => TreasuryError::ContractPaused,
        }),
{
    match e {
        BreakerError::Unauthorized => TreasuryError::Unauthorized,
        BreakerError::ContractPaused => TreasuryError::ContractPaused,
    }
}

/// Sets up a treasury with `authority` as its only signer and admin.
pub fn initialize(authority: Identity, required_signers: u8, now: i64) -> (r: Result<
    Treasury,
    TreasuryError,
>)
    ensures
        r is Err <==> !(1 <= required_signers <= MAX_SIGNERS),
        r is Err ==> r == Err::<Treasury, TreasuryError>(TreasuryError::InvalidSignerCount),
        r matches Ok(t) ==> {
            &&& t.wf()
            &&& t.signers@ == seq![authority]
            &&& t.required_signers == required_signers
            &&& t.pending_transactions@.len() == 0
            &&& t.transaction_count == 0
            &&& t.bump == 0
            &&& t.breaker == (CircuitBreaker { paused: false, emergency_admin: authority })
            &&& t.daily_cap == MAX_DAILY_TRANSACTION_AMOUNT
            &&& t.daily_window == (DailyWindow { total: 0, last_reset: now })
            &&& t.last_transaction_time == 0
        },
{
    if !(required_signers > 0 && required_signers as usize <= MAX_SIGNERS) {
        return Err(TreasuryError::InvalidSignerCount);
    }
    let t = Treasury {
        signers: vec![authority],
        required_signers,
        pending_transactions: Vec::new(),
        transaction_count: 0,
        bump: 0,
        breaker: CircuitBreaker::new(authority),
        daily_cap: MAX_DAILY_TRANSACTION_AMOUNT,
        daily_window: DailyWindow { total: 0, last_reset: now },
        last_transaction_time: 0,
    };
    assert(t.signers@ == seq![authority]);
    Ok(t)
}

/// Adds a signer to the set.
pub fn add_signer(treasury: &mut Treasury, new_signer: Identity) -> (r: Result<(), TreasuryError>)
    requires
        old(treasury).wf(),
    ensures
        final(treasury).wf(),
        r == (if old(treasury).breaker.paused {
            Err::<(), TreasuryError>(TreasuryError::ContractPaused)
        } else if old(treasury).signers@.len() >= MAX_SIGNERS {
            Err(TreasuryError::MaxSignersReached)
        } else if old(treasury).signers@.contains(new_signer) {
            Err(TreasuryError::SignerAlreadyExists)
        } else {
            Ok(())
        }),
        r is Err ==> *final(treasury) == *old(treasury),
        r is Ok ==> *final(treasury) == (Treasury {
            signers: final(treasury).signers,
            ..*old(treasury)
        }) && final(treasury).signers@ == old(treasury).signers@.push(new_signer),
{
    if let Err(e) = treasury.breaker.require_unpaused() {
        return Err(breaker_error(e));
    }
    if treasury.signers.len() >= MAX_SIGNERS {
        return Err(TreasuryError::MaxSignersReached);
    }
    if contains_identity(&treasury.signers, new_signer) {
        return Err(TreasuryError::SignerAlreadyExists);
    }
    treasury.signers.push(new_signer);
    Ok(())
}

/// The first check that rejects a proposed transaction, in the order they are made.
pub open spec fn propose_error(treasury: Treasury, proposer: Identity, amount: u64, now: i64) -> Option<
    TreasuryError,
> {
    if treasury.breaker.paused {
        Some(TreasuryError::ContractPaused)
    } else if !treasury.signers@.contains(proposer) {
        Some(TreasuryError::UnauthorizedSigner)
    } else if !treasury.daily_window.admits(now, amount, treasury.daily_cap) {
        Some(TreasuryError::DailyLimitExceeded)
    } else if amount >= LARGE_TRANSACTION_THRESHOLD && !cooldown_elapsed_spec(
        now,
        treasury.last_transaction_time,
        TRANSACTION_COOLDOWN,
    ) {
        Some(TreasuryError::TransactionCooldownActive)
    } else {
        None
    }
}

/// Records a transaction proposed by a signer, who counts as its first
/// approver, and returns its id. The daily window is rolled first; the
/// amount is charged against it only on execution.
pub fn propose_transaction(
    treasury: &mut Treasury,
    proposer: Identity,
    amount: u64,
    destination: Identity,
    description: String,
    now: i64,
) -> (r: Result<u64, TreasuryError>)
    requires
        old(treasury).wf(),
        old(treasury).transaction_count < u64::MAX,
    ensures
        final(treasury).wf(),
        old(treasury).executions_kept(*final(treasury)),
        r is Err <==> propose_error(*old(treasury), proposer, amount, now) is Some,
        match r {
            Err(e) => Some(e) == propose_error(*old(treasury), proposer, amount, now)
                && *final(treasury) == *old(treasury),
            Ok(id) => {
                let tx = final(treasury).transaction(id);
                &&& id == old(treasury).transaction_count
                &&& final(treasury).pending_transactions@.len() == id + 1
                &&& final(treasury).pending_transactions@.drop_last()
                    == old(treasury).pending_transactions@
                &&& tx.id == id
                &&& tx.amount == amount
                &&& tx.destination == destination
                &&& tx.description@ == description@
                &&& tx.approvals@ == seq![proposer]
                &&& !tx.executed
                &&& tx.created_at == now
                &&& final(treasury).transaction_count == id + 1
                &&& final(treasury).daily_window == old(treasury).daily_window.rolled(now)
                &&& final(treasury).signers == old(treasury).signers
                &&& final(treasury).required_signers == old(treasury).required_signers
                &&& final(treasury).bump == old(treasury).bump
                &&& final(treasury).breaker == old(treasury).breaker
                &&& final(treasury).daily_cap == old(treasury).daily_cap
                &&& final(treasury).last_transaction_time == old(treasury).last_transaction_time
            },
        },
{
    if let Err(e) = treasury.breaker.require_unpaused() {
        return Err(breaker_error(e));
    }
    if !contains_identity(&treasury.signers, proposer) {
        return Err(TreasuryError::UnauthorizedSigner);
    }
    if !treasury.daily_window.check_admits(now, amount, treasury.daily_cap) {
        return Err(TreasuryError::DailyLimitExceeded);
    }
    if amount >= LARGE_TRANSACTION_THRESHOLD && !cooldown_elapsed(
        now,
        treasury.last_transaction_time,
        TRANSACTION_COOLDOWN,
    ) {
        return Err(TreasuryError::TransactionCooldownActive);
    }
    treasury.daily_window.roll(now);
    let id = treasury.transaction_count;
    let transaction = Transaction {
        id,
        amount,
        destination,
        description,
        approvals: vec![proposer],
        executed: false,
        created_at: now,
    };
    assert(transaction.approvals@ == seq![proposer]);
    treasury.pending_transactions.push(transaction);
    treasury.transaction_count = treasury.transaction_count + 1;
    assert(treasury.pending_transactions@.drop_last() =~= old(treasury).pending_transactions@);
    Ok(id)
}

/// The first check that rejects an approval, in the order they are made.
pub open spec fn approve_error(treasury: Treasury, signer: Identity, transaction_id: u64) -> Option<
    TreasuryError,
> {
    if treasury.breaker.paused {
        Some(TreasuryError::ContractPaused)
    } else if !treasury.has_transaction(transaction_id) {
        Some(TreasuryError::TransactionNotFound)
    } else if treasury.transaction(transaction_id).executed {
        Some(TreasuryError::AlreadyExecuted)
    } else if !treasury.signers@.contains(signer) {
        Some(TreasuryError::UnauthorizedSigner)
    } else if treasury.transaction(transaction_id).approvals@.contains(signer) {
        Some(TreasuryError::AlreadyApproved)
    } else {
        None
    }
}

/// Adds `signer`'s approval to a pending transaction.
pub fn approve_transaction(treasury: &mut Treasury, signer: Identity, transaction_id: u64) -> (r:
    Result<(), TreasuryError>)
    requires
        old(treasury).wf(),
    ensures
        final(treasury).wf(),
        old(treasury).executions_kept(*final(treasury)),
        r is Err <==> approve_error(*old(treasury), signer, transaction_id) is Some,
        match r {
            Err(e) => Some(e) == approve_error(*old(treasury), signer, transaction_id)
                && *final(treasury) == *old(treasury),
            Ok(_) => {
                let before = old(treasury).transaction(transaction_id);
                &&& final(treasury).pending_transactions@ == old(
                    treasury,
                ).pending_transactions@.update(
                    transaction_id as int,
                    Transaction { approvals: final(treasury).transaction(transaction_id).approvals, ..before },
                )
                &&& final(treasury).transaction(transaction_id).approvals@ == before.approvals@.push(
                    signer,
                )
                &&& *final(treasury) == (Treasury {
                    pending_transactions: final(treasury).pending_transactions,
                    ..*old(treasury)
                })
            },
        },
{
    if let Err(e) = treasury.breaker.require_unpaused() {
        return Err(breaker_error(e));
    }
    if transaction_id >= treasury.pending_transactions.len() as u64 {
        return Err(TreasuryError::TransactionNotFound);
    }
    let i = transaction_id as usize;
    if treasury.pending_transactions[i].executed {
        return Err(TreasuryError::AlreadyExecuted);
    }
    if !contains_identity(&treasury.signers, signer) {
        return Err(TreasuryError::UnauthorizedSigner);
    }
    if contains_identity(&treasury.pending_transactions[i].approvals, signer) {
        return Err(TreasuryError::AlreadyApproved);
    }
    treasury.pending_transactions[i].approvals.push(signer);
    proof {
        let after = treasury.pending_transactions@;
        assert(after =~= old(treasury).pending_transactions@.update(
            i as int,
            Transaction { approvals: after[i as int].approvals, ..old(treasury).pending_transactions@[i as int] },
        ));
        assert forall|k: int| 0 <= k < after.len() implies {
            &&& (#[trigger] after[k]).id == k
            &&& after[k].approvals@.no_duplicates()
        } by {
            if k != i {
                assert(after[k] == old(treasury).pending_transactions@[k]);
            }
        }
    }
    Ok(())
}

/// The first check that rejects an execution, in the order they are made.
pub open spec fn execution_error(treasury: Treasury, transaction_id: u64, now: i64) -> Option<
    TreasuryError,
> {
    if treasury.breaker.paused {
        Some(TreasuryError::ContractPaused)
    } else if !treasury.has_transaction(transaction_id) {
        Some(TreasuryError::TransactionNotFound)
    } else if treasury.transaction(transaction_id).executed {
        Some(TreasuryError::AlreadyExecuted)
    } else if treasury.transaction(transaction_id).approvals@.len() < treasury.required_signers {
        Some(TreasuryError::InsufficientApprovals)
    } else if !treasury.daily_window.admits(
        now,
        treasury.transaction(transaction_id).amount,
        treasury.daily_cap,
    ) {
        Some(TreasuryError::DailyLimitExceeded)
    } else {
        None
    }
}

fn check_execution(treasury: &Treasury, transaction_id: u64, now: i64) -> (r: Result<
    usize,
    TreasuryError,
>)
    requires
        treasury.wf(),
    ensures
        r is Err <==> execution_error(*treasury, transaction_id, now) is Some,
        match r {
            Err(e) => Some(e) == execution_error(*treasury, transaction_id, now),
            Ok(i) => i == transaction_id && treasury.has_transaction(transaction_id),
        },
{
    if let Err(e) = treasury.breaker.require_unpaused() {
        return Err(breaker_error(e));
    }
    if transaction_id >= treasury.pending_transactions.len() as u64 {
        return Err(TreasuryError::TransactionNotFound);
    }
    let i = transaction_id as usize;
    let transaction = &treasury.pending_transactions[i];
    if transaction.executed {
        return Err(TreasuryError::AlreadyExecuted);
    }
    if transaction.approvals.len() < treasury.required_signers as usize {
        return Err(TreasuryError::InsufficientApprovals);
    }
    if !treasury.daily_window.check_admits(now, transaction.amount, treasury.daily_cap) {
        return Err(TreasuryError::DailyLimitExceeded);
    }
    Ok(i)
}

/// Decides whether a transaction may execute at `now` and, if so, what must
/// be transferred. Nothing changes: the transfer is to be made only on `Ok`,
/// and its outcome handed to `execute_transaction`.
pub fn plan_execution(treasury: &Treasury, transaction_id: u64, now: i64) -> (r: Result<
    TransferOrder,
    TreasuryError,
>)
    requires
        treasury.wf(),
    ensures
        r is Err <==> execution_error(*treasury, transaction_id, now) is Some,
        match r {
            Err(e) => Some(e) == execution_error(*treasury, transaction_id, now),
            Ok(order) => order == (TransferOrder {
                transaction_id,
                amount: treasury.transaction(transaction_id).amount,
                destination: treasury.transaction(transaction_id).destination,
            }),
        },
{
    let i = check_execution(treasury, transaction_id, now)?;
    Ok(
        TransferOrder {
            transaction_id,
            amount: treasury.pending_transactions[i].amount,
            destination: treasury.pending_transactions[i].destination,
        },
    )
}

/// Commits an execution once the transfer service has answered:
/// `transferred` says whether the transfer went through. The checks of
/// `plan_execution` are made again; when one fails, or the transfer did
/// not go through, nothing changes. Otherwise the amount is charged to the
/// daily window, the time is recorded, and the transaction is marked
/// executed, for good.
pub fn execute_transaction(
    treasury: &mut Treasury,
    transaction_id: u64,
    now: i64,
    transferred: bool,
) -> (r: Result<(), TreasuryError>)
    requires
        old(treasury).wf(),
    ensures
        final(treasury).wf(),
        old(treasury).executions_kept(*final(treasury)),
        r == (match execution_error(*old(treasury), transaction_id, now) {
            Some(e) => Err(e),
            None => if transferred {
                Ok(())
            } else {
                Err(TreasuryError::TransferFailed)
            },
        }),
        r is Err ==> *final(treasury) == *old(treasury),
        r is Ok ==> {
            let before = old(treasury).transaction(transaction_id);
            &&& final(treasury).pending_transactions@ == old(
                treasury,
            ).pending_transactions@.update(
                transaction_id as int,
                Transaction { executed: true, ..before },
            )
            &&& final(treasury).daily_window == old(treasury).daily_window.committed(
                now,
                before.amount,
            )
            &&& final(treasury).last_transaction_time == now
            &&& *final(treasury) == (Treasury {
                pending_transactions: final(treasury).pending_transactions,
                daily_window: final(treasury).daily_window,
                last_transaction_time: now,
                ..*old(treasury)
            })
        },
{
    let i = check_execution(treasury, transaction_id, now)?;
    if !transferred {
        return Err(TreasuryError::TransferFailed);
    }
    let amount = treasury.pending_transactions[i].amount;
    treasury.daily_window.commit(now, amount);
    treasury.last_transaction_time = now;
    treasury.pending_transactions[i].executed = true;
    proof {
        let after = treasury.pending_transactions@;
        assert(after =~= old(treasury).pending_transactions@.update(
            i as int,
            Transaction { executed: true, ..old(treasury).pending_transactions@[i as int] },
        ));
        assert forall|k: int| 0 <= k < after.len() implies {
            &&& (#[trigger] after[k]).id == k
            &&& after[k].approvals@.no_duplicates()
        } by {
            if k != i {
                assert(after[k] == old(treasury).pending_transactions@[k]);
            }
        }
    }
    Ok(())
}

/// A record that has executed is never executed again: while the treasury
/// runs, every further attempt is rejected as already executed, so no
/// transfer is planned for it.
pub proof fn executed_transaction_not_replayed(treasury: Treasury, transaction_id: u64, now: i64)
    requires
        !treasury.breaker.paused,
        treasury.has_transaction(transaction_id),
        treasury.transaction(transaction_id).executed,
    ensures
        execution_error(treasury, transaction_id, now) == Some(TreasuryError::AlreadyExecuted),
{
}

/// Pauses the engine; only the emergency admin may.
pub fn pause(treasury: &mut Treasury, admin: Identity) -> (r: Result<(), TreasuryError>)
    ensures
        admin == old(treasury).breaker.emergency_admin ==> r == Ok::<(), TreasuryError>(())
            && *final(treasury) == (Treasury {
            breaker: CircuitBreaker { paused: true, ..old(treasury).breaker },
            ..*old(treasury)
        }),
        admin != old(treasury).breaker.emergency_admin ==> r == Err::<(), TreasuryError>(
            TreasuryError::Unauthorized,
        ) && *final(treasury) == *old(treasury),
{
    match treasury.breaker.set_paused(admin, true) {
        Ok(()) => Ok(()),
        Err(e) => Err(breaker_error(e)),
    }
}

/// Lifts the pause; only the emergency admin may.
pub fn unpause(treasury: &mut Treasury, admin: Identity) -> (r: Result<(), TreasuryError>)
    ensures
        admin == old(treasury).breaker.emergency_admin ==> r == Ok::<(), TreasuryError>(())
            && *final(treasury) == (Treasury {
            breaker: CircuitBreaker { paused: false, ..old(treasury).breaker },
            ..*old(treasury)
        }),
        admin != old(treasury).breaker.emergency_admin ==> r == Err::<(), TreasuryError>(
            TreasuryError::Unauthorized,
        ) && *final(treasury) == *old(treasury),
{
    match treasury.breaker.set_paused(admin, false) {
        Ok(()) => Ok(()),
        Err(e) => Err(breaker_error(e)),
    }
}

/// Hands the emergency admin role to `new_admin`; only the current admin may.
pub fn update_emergency_admin(treasury: &mut Treasury, admin: Identity, new_admin: Identity) -> (r:
    Result<(), TreasuryError>)
    ensures
        admin == old(treasury).breaker.emergency_admin ==> r == Ok::<(), TreasuryError>(())
            && *final(treasury) == (Treasury {
            breaker: CircuitBreaker { emergency_admin: new_admin, ..old(treasury).breaker },
            ..*old(treasury)
        }),
        admin != old(treasury).breaker.emergency_admin ==> r == Err::<(), TreasuryError>(
            TreasuryError::Unauthorized,
        ) && *final(treasury) == *old(treasury),
{
    match treasury.breaker.rotate_admin(admin, new_admin) {
        Ok(()) => Ok(()),
        Err(e) => Err(breaker_error(e)),
    }
}

/// A pending transaction cannot execute with fewer approvals than the
/// threshold; with enough approvals and room in the daily window it can.
pub proof fn approval_threshold(treasury: Treasury, transaction_id: u64, now: i64)
    requires
        !treasury.breaker.paused,
        treasury.has_transaction(transaction_id),
        !treasury.transaction(transaction_id).executed,
    ensures
        treasury.transaction(transaction_id).approvals@.len() < treasury.required_signers
            ==> execution_error(treasury, transaction_id, now) == Some(
            TreasuryError::InsufficientApprovals,
        ),
        treasury.transaction(transaction_id).approvals@.len() >= treasury.required_signers
            && treasury.daily_window.admits(
            now,
            treasury.transaction(transaction_id).amount,
            treasury.daily_cap,
        ) ==> execution_error(treasury, transaction_id, now) is None,
{
}

} // verus!
