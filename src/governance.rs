use vstd::prelude::*;

use vstd::utf8::encode_utf8;

use crate::circuit_breaker::{BreakerError, CircuitBreaker};
use crate::identity::{contains_identity, Identity};
use crate::rate_limit::{cooldown_elapsed, cooldown_elapsed_spec};

verus! {

/// Seconds a proposer must wait between two proposals.
pub const PROPOSAL_COOLDOWN: i64 = 86400;

/// Most proposals that may be active (or passed and not yet executed) at once.
pub const MAX_CONCURRENT_PROPOSALS: u32 = 10;

/// Smallest balance that may create a proposal (1000 tokens of 9 decimals).
pub const MIN_VOTING_POWER: u64 = 1000 * 1_000_000_000;

/// Seconds from creation to the voting deadline.
pub const VOTING_PERIOD: i64 = 86400;

/// Seconds after the voting deadline before a passed proposal may execute.
pub const EXECUTION_TIMELOCK: i64 = 43200;

/// Cumulative voting power at which the quorum is reached.
pub const QUORUM_VOTING_POWER: u64 = 20_000_000 * 1_000_000_000;

/// Percentage of decided (yes + no) weight that yes must strictly exceed.
pub const SUPERMAJORITY_PERCENT: u64 = 66;

/// Largest title, in bytes.
pub const MAX_TITLE_LEN: usize = 128;

/// Largest description, in bytes.
pub const MAX_DESCRIPTION_LEN: usize = 1024;

#[derive(Clone, Copy, Debug, PartialEq, Eq, Structural)]
pub struct VoteCount {
    pub yes: u64,
    pub no: u64,
    pub abstain: u64,
}

#[derive(Clone, Copy, Debug, PartialEq, Eq, Structural)]
pub enum ProposalStatus {
    Active,
    Passed,
    Failed,
    Executed,
}

#[derive(Clone, Copy, Debug, PartialEq, Eq, Structural)]
pub enum VoteType {
    Yes,
    No,
    Abstain,
}

#[derive(Clone, Debug)]
pub struct ProposalInput {
    pub id: u64,
    pub title: String,
    pub description: String,
    pub execution_plan: Vec<u8>,
}

#[derive(Clone, Copy, Debug, PartialEq, Eq, Structural)]
pub enum GovernanceError {
    TitleTooLong,
    DescriptionTooLong,
    InsufficientTokens,
    ProposalNotActive,
    VotingEnded,
    NoVotingPower,
    ProposalNotPassed,
    TimelockNotExpired,
    ContractPaused,
    ProposalCooldownActive,
    TooManyActiveProposals,
    AlreadyVoted,
    Unauthorized,
}

/// The governance engine's aggregate state.
#[derive(Clone, Debug)]
pub struct Governance {
    pub breaker: CircuitBreaker,
    pub active_proposal_count: u32,
    /// For each proposer, the time of their latest proposal; one entry per proposer.
    pub last_proposal_times: Vec<(Identity, i64)>,
}

#[derive(Clone, Debug)]
pub struct Proposal {
    pub id: u64,
    pub proposer: Identity,
    pub title: String,
    pub description: String,
    pub execution_plan: Vec<u8>,
    pub votes: VoteCount,
    pub status: ProposalStatus,
    pub created_at: i64,
    pub voting_ends_at: i64,
    pub total_voting_power: u64,
    pub quorum_reached: bool,
    pub voters: Vec<Identity>,
}

/// Length of the UTF-8 encoding of `s`, as `str::len` reports it.
pub open spec fn byte_len(s: Seq<char>) -> usize {
    encode_utf8(s).len() as usize
}

/// The single edges a proposal's status may take in one operation
/// (staying put included).
pub open spec fn status_step(from: ProposalStatus, to: ProposalStatus) -> bool {
    ||| from == to
    ||| from == ProposalStatus::Active && to == ProposalStatus::Passed
    ||| from == ProposalStatus::Active && to == ProposalStatus::Failed
    ||| from == ProposalStatus::Passed && to == ProposalStatus::Executed
}

/// The statuses reachable from `from` along `Active -> {Passed, Failed}`,
/// `Passed -> Executed`.
pub open spec fn status_reachable(from: ProposalStatus, to: ProposalStatus) -> bool {
    ||| status_step(from, to)
    ||| from == ProposalStatus::Active && to == ProposalStatus::Executed
}

/// The active count after one proposal leaves it; it never goes below zero.
pub open spec fn count_after_close(count: u32) -> u32 {
    if count > 0 {
        (count - 1) as u32
    } else {
        0
    }
}

/// Whether the decided weight reaches the supermajority: yes / (yes + no)
/// strictly above the threshold, with no decided weight failing.
pub open spec fn supermajority(votes: VoteCount) -> bool {
    votes.yes + votes.no > 0 && votes.yes * 100 > SUPERMAJORITY_PERCENT * (votes.yes + votes.no)
}

/// The status a proposal is finalized to.
pub open spec fn outcome(votes: VoteCount, quorum_reached: bool) -> ProposalStatus {
    if quorum_reached && supermajority(votes) {
        ProposalStatus::Passed
    } else {
        ProposalStatus::Failed
    }
}

pub open spec fn tally_add(votes: VoteCount, vote_type: VoteType, weight: u64) -> VoteCount {
    match vote_type {
        VoteType::Yes => VoteCount { yes: (votes.yes + weight) as u64, ..votes },
        VoteType::No => VoteCount { no: (votes.no + weight) as u64, ..votes },
        VoteType::Abstain => VoteCount { abstain: (votes.abstain + weight) as u64, ..votes },
    }
}

impl Governance {
    pub open spec fn wf(&self) -> bool {
        forall|i: int, j: int|
            0 <= i < j < self.last_proposal_times@.len() ==> self.last_proposal_times@[i].0
                != self.last_proposal_times@[j].0
    }

    pub open spec fn has_entry(&self, who: Identity) -> bool {
        exists|i: int|
            0 <= i < self.last_proposal_times@.len() && #[trigger] self.last_proposal_times@[i].0
                == who
    }

    /// The time of `who`'s latest proposal, if any.
    pub open spec fn last_proposal_time(&self, who: Identity) -> Option<i64> {
        if self.has_entry(who) {
            Some(
                self.last_proposal_times@[choose|i: int|
                    0 <= i < self.last_proposal_times@.len()
                        && #[trigger] self.last_proposal_times@[i].0 == who].1,
            )
        } else {
            None
        }
    }

    /// A governance with no proposals yet, administered by `emergency_admin`.
    pub fn new(emergency_admin: Identity) -> (r: Governance)
        ensures
            r.wf(),
            r.breaker == (CircuitBreaker { paused: false, emergency_admin }),
            r.active_proposal_count == 0,
            r.last_proposal_times@.len() == 0,
    {
        Governance {
            breaker: CircuitBreaker::new(emergency_admin),
            active_proposal_count: 0,
            last_proposal_times: Vec::new(),
        }
    }

    fn entry_index(&self, who: Identity) -> (r: Option<usize>)
        ensures
            match r {
                Some(i) => i < self.last_proposal_times@.len()
                    && self.last_proposal_times@[i as int].0 == who,
                None => !self.has_entry(who),
            },
    {
        let mut i: usize = 0;
        while i < self.last_proposal_times.len()
            invariant
                i <= self.last_proposal_times@.len(),
                forall|j: int| 0 <= j < i ==> self.last_proposal_times@[j].0 != who,
            decreases self.last_proposal_times@.len() - i,
        {
            if self.last_proposal_times[i].0 == who {
                return Some(i);
            }
            i = i + 1;
        }
        None
    }

    pub fn get_last_proposal_time(&self, who: Identity) -> (r: Option<i64>)
        requires
            self.wf(),
        ensures
            r == self.last_proposal_time(who),
    {
        match self.entry_index(who) {
            Some(i) => {
                proof {
                    self.lemma_time_at(who, i as int);
                }
                Some(self.last_proposal_times[i].1)
            },
            None => None,
        }
    }

    proof fn lemma_time_at(&self, who: Identity, i: int)
        requires
            self.wf(),
            0 <= i < self.last_proposal_times@.len(),
            self.last_proposal_times@[i].0 == who,
        ensures
            self.last_proposal_time(who) == Some(self.last_proposal_times@[i].1),
    {
        assert(self.has_entry(who));
        let j = choose|j: int|
            0 <= j < self.last_proposal_times@.len() && #[trigger] self.last_proposal_times@[j].0
                == who;
        if j < i {
        } else if i < j {
        }
    }

    fn record_proposal_time(&mut self, who: Identity, now: i64)
        requires
            old(self).wf(),
        ensures
            final(self).wf(),
            final(self).breaker == old(self).breaker,
            final(self).active_proposal_count == old(self).active_proposal_count,
            forall|q: Identity|
                #[trigger] final(self).last_proposal_time(q) == if q == who {
                    Some(now)
                } else {
                    old(self).last_proposal_time(q)
                },
    {
        let ghost before = *self;
        match self.entry_index(who) {
            Some(i) => {
                self.last_proposal_times.set(i, (who, now));
                assert forall|q: Identity|
                    #[trigger] self.last_proposal_time(q) == if q == who {
                        Some(now)
                    } else {
                        before.last_proposal_time(q)
                    } by {
                    if q == who {
                        self.lemma_time_at(q, i as int);
                    } else if before.has_entry(q) {
                        let k = choose|k: int|
                            0 <= k < before.last_proposal_times@.len()
                                && #[trigger] before.last_proposal_times@[k].0 == q;
                        before.lemma_time_at(q, k);
                        self.lemma_time_at(q, k);
                    } else {
                        assert(!self.has_entry(q));
                    }
                }
            },
            None => {
                self.last_proposal_times.push((who, now));
                let ghost n = before.last_proposal_times@.len() as int;
                assert forall|q: Identity|
                    #[trigger] self.last_proposal_time(q) == if q == who {
                        Some(now)
                    } else {
                        before.last_proposal_time(q)
                    } by {
                    if q == who {
                        self.lemma_time_at(q, n);
                    } else if before.has_entry(q) {
                        let k = choose|k: int|
                            0 <= k < before.last_proposal_times@.len()
                                && #[trigger] before.last_proposal_times@[k].0 == q;
                        before.lemma_time_at(q, k);
                        self.lemma_time_at(q, k);
                    } else {
                        assert(!self.has_entry(q));
                    }
                }
            },
        }
    }
}

impl Proposal {
    /// Tallies add up to the cumulative power, the quorum flag follows it,
    /// and no identity has voted twice.
    pub open spec fn wf(&self) -> bool {
        &&& self.votes.yes + self.votes.no + self.votes.abstain == self.total_voting_power
        &&& self.quorum_reached == (self.total_voting_power >= QUORUM_VOTING_POWER)
        &&& self.voters@.no_duplicates()
    }

    pub fn has_voted(&self, voter: &Identity) -> (r: bool)
        ensures
            r == self.voters@.contains(*voter),
    {
        contains_identity(&self.voters, *voter)
    }
}

fn breaker_error(e: BreakerError) -> (r: GovernanceError)
    ensures
        r == (match e {
            BreakerError::Unauthorized => GovernanceError::Unauthorized,
            BreakerError::ContractPaused => GovernanceError::ContractPaused,
        }),
{
    match e {
        BreakerError::Unauthorized => GovernanceError::Unauthorized,
        BreakerError::ContractPaused => GovernanceError::ContractPaused,
    }
}

/// The first check that rejects a new proposal, in the order they are made.
pub open spec fn create_error(
    governance: Governance,
    proposer: Identity,
    proposer_balance: u64,
    input: ProposalInput,
    now: i64,
) -> Option<GovernanceError> {
    if governance.breaker.paused {
        Some(GovernanceError::ContractPaused)
    } else if byte_len(input.title@) > MAX_TITLE_LEN {
        Some(GovernanceError::TitleTooLong)
    } else if byte_len(input.description@) > MAX_DESCRIPTION_LEN {
        Some(GovernanceError::DescriptionTooLong)
    } else if proposer_balance < MIN_VOTING_POWER {
        Some(GovernanceError::InsufficientTokens)
    } else if (match governance.last_proposal_time(proposer) {
        Some(t) => !cooldown_elapsed_spec(now, t, PROPOSAL_COOLDOWN),
        None => false,
    }) {
        Some(GovernanceError::ProposalCooldownActive)
    } else if governance.active_proposal_count >= MAX_CONCURRENT_PROPOSALS {
        Some(GovernanceError::TooManyActiveProposals)
    } else {
        None
    }
}

/// The first check that rejects a vote, in the order they are made.
pub open spec fn vote_error(
    governance: Governance,
    proposal: Proposal,
    voter: Identity,
    weight: u64,
    now: i64,
) -> Option<GovernanceError> {
    if governance.breaker.paused {
        Some(GovernanceError::ContractPaused)
    } else if proposal.status != ProposalStatus::Active {
        Some(GovernanceError::ProposalNotActive)
    } else if now > proposal.voting_ends_at {
        Some(GovernanceError::VotingEnded)
    } else if weight == 0 {
        Some(GovernanceError::NoVotingPower)
    } else if proposal.voters@.contains(voter) {
        Some(GovernanceError::AlreadyVoted)
    } else {
        None
    }
}

/// The first check that rejects an execution, in the order they are made.
pub open spec fn execute_error(governance: Governance, proposal: Proposal, now: i64) -> Option<
    GovernanceError,
> {
    if governance.breaker.paused {
        Some(GovernanceError::ContractPaused)
    } else if proposal.status != ProposalStatus::Passed {
        Some(GovernanceError::ProposalNotPassed)
    } else if !cooldown_elapsed_spec(now, proposal.voting_ends_at, EXECUTION_TIMELOCK) {
        Some(GovernanceError::TimelockNotExpired)
    } else {
        None
    }
}

/// The status a proposal is finalized to: failed without quorum or without
/// decided weight, passed when yes strictly exceeds the supermajority share
/// of yes + no. Abstentions count toward the quorum only.
pub fn decide_outcome(votes: &VoteCount, quorum_reached: bool) -> (r: ProposalStatus)
    ensures
        r == outcome(*votes, quorum_reached),
{
    if !quorum_reached {
        return ProposalStatus::Failed;
    }
    let decided: u128 = votes.yes as u128 + votes.no as u128;
    if decided == 0 {
        return ProposalStatus::Failed;
    }
    let percent: u128 = SUPERMAJORITY_PERCENT as u128;
    assert(percent * decided <= 132 * (u64::MAX as u128))
        by (nonlinear_arith)
        requires
            percent == 66,
            decided <= 2 * (u64::MAX as u128),
    ;
    if (votes.yes as u128) * 100 > percent * decided {
        ProposalStatus::Passed
    } else {
        ProposalStatus::Failed
    }
}

/// Moves an active proposal to its outcome.
pub fn finalize_proposal(proposal: &mut Proposal)
    requires
        old(proposal).status == ProposalStatus::Active,
    ensures
        *final(proposal) == (Proposal {
            status: outcome(old(proposal).votes, old(proposal).quorum_reached),
            ..*old(proposal)
        }),
        status_step(old(proposal).status, final(proposal).status),
{
    proposal.status = decide_outcome(&proposal.votes, proposal.quorum_reached);
}

/// Creates a proposal for `proposer`, whose current balance is
/// `proposer_balance`, at time `now`.
pub fn create_proposal(
    governance: &mut Governance,
    proposer: Identity,
    proposer_balance: u64,
    proposal: ProposalInput,
    now: i64,
) -> (r: Result<Proposal, GovernanceError>)
    requires
        old(governance).wf(),
        now <= i64::MAX - VOTING_PERIOD,
    ensures
        final(governance).wf(),
        r is Err <==> create_error(*old(governance), proposer, proposer_balance, proposal, now)
            is Some,
        match r {
            Err(e) => Some(e) == create_error(
                *old(governance),
                proposer,
                proposer_balance,
                proposal,
                now,
            ) && *final(governance) == *old(governance),
            Ok(p) => {
                &&& p.wf()
                &&& p.id == proposal.id
                &&& p.proposer == proposer
                &&& p.title@ == proposal.title@
                &&& p.description@ == proposal.description@
                &&& p.execution_plan@ == proposal.execution_plan@
                &&& p.votes == (VoteCount { yes: 0, no: 0, abstain: 0 })
                &&& p.status == ProposalStatus::Active
                &&& p.created_at == now
                &&& p.voting_ends_at == now + VOTING_PERIOD
                &&& p.total_voting_power == 0
                &&& !p.quorum_reached
                &&& p.voters@.len() == 0
                &&& final(governance).breaker == old(governance).breaker
                &&& final(governance).active_proposal_count == old(
                    governance,
                ).active_proposal_count + 1
                &&& forall|q: Identity|
                    #[trigger] final(governance).last_proposal_time(q) == if q == proposer {
                        Some(now)
                    } else {
                        old(governance).last_proposal_time(q)
                    }
            },
        },
{
    if let Err(e) = governance.breaker.require_unpaused() {
        return Err(breaker_error(e));
    }
    if proposal.title.as_str().len() > MAX_TITLE_LEN {
        return Err(GovernanceError::TitleTooLong);
    }
    if proposal.description.as_str().len() > MAX_DESCRIPTION_LEN {
        return Err(GovernanceError::DescriptionTooLong);
    }
    if proposer_balance < MIN_VOTING_POWER {
        return Err(GovernanceError::InsufficientTokens);
    }
    if let Some(last) = governance.get_last_proposal_time(proposer) {
        if !cooldown_elapsed(now, last, PROPOSAL_COOLDOWN) {
            return Err(GovernanceError::ProposalCooldownActive);
        }
    }
    if governance.active_proposal_count >= MAX_CONCURRENT_PROPOSALS {
        return Err(GovernanceError::TooManyActiveProposals);
    }
    let created = Proposal {
        id: proposal.id,
        proposer,
        title: proposal.title,
        description: proposal.description,
        execution_plan: proposal.execution_plan,
        votes: VoteCount { yes: 0, no: 0, abstain: 0 },
        status: ProposalStatus::Active,
        created_at: now,
        voting_ends_at: now + VOTING_PERIOD,
        total_voting_power: 0,
        quorum_reached: false,
        voters: Vec::new(),
    };
    let ghost g0 = *governance;
    governance.active_proposal_count = governance.active_proposal_count + 1;
    let ghost g1 = *governance;
    governance.record_proposal_time(proposer, now);
    assert forall|q: Identity|
        #[trigger] governance.last_proposal_time(q) == if q == proposer {
            Some(now)
        } else {
            g0.last_proposal_time(q)
        } by {
        assert(g1.last_proposal_times@ == g0.last_proposal_times@);
        assert(g1.has_entry(q) == g0.has_entry(q));
        assert(g1.last_proposal_time(q) == g0.last_proposal_time(q));
    }
    Ok(created)
}

/// The proposal after a vote of `weight` for `vote_type` by `voter` is
/// recorded, before any finalization.
pub open spec fn with_vote(p: Proposal, voter: Identity, weight: u64, vote_type: VoteType) -> (
    Proposal,
    Seq<Identity>,
) {
    let total = (p.total_voting_power + weight) as u64;
    (
        Proposal {
            votes: tally_add(p.votes, vote_type, weight),
            total_voting_power: total,
            quorum_reached: p.quorum_reached || total >= QUORUM_VOTING_POWER,
            ..p
        },
        p.voters@.push(voter),
    )
}

/// Casts a vote of `voter`, whose current balance is `weight`, at time `now`.
/// A vote at or after the deadline finalizes the proposal; a proposal that
/// fails then leaves the active count.
pub fn vote(
    governance: &mut Governance,
    proposal: &mut Proposal,
    voter: Identity,
    weight: u64,
    vote_type: VoteType,
    now: i64,
) -> (r: Result<(), GovernanceError>)
    requires
        old(proposal).wf(),
        old(proposal).total_voting_power + weight <= u64::MAX,
    ensures
        final(proposal).wf(),
        status_step(old(proposal).status, final(proposal).status),
        r is Err <==> vote_error(*old(governance), *old(proposal), voter, weight, now) is Some,
        match r {
            Err(e) => {
                &&& Some(e) == vote_error(*old(governance), *old(proposal), voter, weight, now)
                &&& *final(governance) == *old(governance)
                &&& *final(proposal) == *old(proposal)
            },
            Ok(_) => {
                let (recorded, voters) = with_vote(*old(proposal), voter, weight, vote_type);
                &&& final(proposal).voters@ == voters
                &&& final(proposal).votes == recorded.votes
                &&& final(proposal).total_voting_power == recorded.total_voting_power
                &&& final(proposal).quorum_reached == recorded.quorum_reached
                &&& final(proposal).status == if now >= old(proposal).voting_ends_at {
                    outcome(recorded.votes, recorded.quorum_reached)
                } else {
                    ProposalStatus::Active
                }
                &&& final(proposal).id == old(proposal).id
                &&& final(proposal).proposer == old(proposal).proposer
                &&& final(proposal).title == old(proposal).title
                &&& final(proposal).description == old(proposal).description
                &&& final(proposal).execution_plan == old(proposal).execution_plan
                &&& final(proposal).created_at == old(proposal).created_at
                &&& final(proposal).voting_ends_at == old(proposal).voting_ends_at
                &&& final(governance).breaker == old(governance).breaker
                &&& final(governance).last_proposal_times == old(governance).last_proposal_times
                &&& final(governance).active_proposal_count == if final(proposal).status
                    == ProposalStatus::Failed {
                    count_after_close(old(governance).active_proposal_count)
                } else {
                    old(governance).active_proposal_count
                }
            },
        },
{
    if let Err(e) = governance.breaker.require_unpaused() {
        return Err(breaker_error(e));
    }
    if proposal.status != ProposalStatus::Active {
        return Err(GovernanceError::ProposalNotActive);
    }
    if now > proposal.voting_ends_at {
        return Err(GovernanceError::VotingEnded);
    }
    if weight == 0 {
        return Err(GovernanceError::NoVotingPower);
    }
    if proposal.has_voted(&voter) {
        return Err(GovernanceError::AlreadyVoted);
    }
    match vote_type {
        VoteType::Yes => {
            proposal.votes.yes = proposal.votes.yes + weight;
        },
        VoteType::No => {
            proposal.votes.no = proposal.votes.no + weight;
        },
        VoteType::Abstain => {
            proposal.votes.abstain = proposal.votes.abstain + weight;
        },
    }
    proposal.total_voting_power = proposal.total_voting_power + weight;
    proposal.voters.push(voter);
    if proposal.total_voting_power >= QUORUM_VOTING_POWER {
        proposal.quorum_reached = true;
    }
    if now >= proposal.voting_ends_at {
        finalize_proposal(proposal);
        if proposal.status == ProposalStatus::Failed {
            governance.active_proposal_count = governance.active_proposal_count.saturating_sub(1);
        }
    }
    Ok(())
}

/// Marks a passed proposal executed once the timelock after its deadline
/// has run out. Any identity may execute; the executor is not restricted.
pub fn execute(governance: &mut Governance, proposal: &mut Proposal, executor: Identity, now: i64) -> (r:
    Result<(), GovernanceError>)
    ensures
        status_step(old(proposal).status, final(proposal).status),
        r is Err <==> execute_error(*old(governance), *old(proposal), now) is Some,
        match r {
            Err(e) => {
                &&& Some(e) == execute_error(*old(governance), *old(proposal), now)
                &&& *final(governance) == *old(governance)
                &&& *final(proposal) == *old(proposal)
            },
            Ok(_) => {
                &&& *final(proposal) == (Proposal {
                    status: ProposalStatus::Executed,
                    ..*old(proposal)
                })
                &&& *final(governance) == (Governance {
                    active_proposal_count: count_after_close(
                        old(governance).active_proposal_count,
                    ),
                    ..*old(governance)
                })
            },
        },
{
    if let Err(e) = governance.breaker.require_unpaused() {
        return Err(breaker_error(e));
    }
    if proposal.status != ProposalStatus::Passed {
        return Err(GovernanceError::ProposalNotPassed);
    }
    if !cooldown_elapsed(now, proposal.voting_ends_at, EXECUTION_TIMELOCK) {
        return Err(GovernanceError::TimelockNotExpired);
    }
    proposal.status = ProposalStatus::Executed;
    governance.active_proposal_count = governance.active_proposal_count.saturating_sub(1);
    Ok(())
}

/// Pauses the engine; only the emergency admin may.
pub fn pause(governance: &mut Governance, admin: Identity) -> (r: Result<(), GovernanceError>)
    ensures
        admin == old(governance).breaker.emergency_admin ==> r == Ok::<(), GovernanceError>(())
            && *final(governance) == (Governance {
            breaker: CircuitBreaker { paused: true, ..old(governance).breaker },
            ..*old(governance)
        }),
        admin != old(governance).breaker.emergency_admin ==> r == Err::<(), GovernanceError>(
            GovernanceError::Unauthorized,
        ) && *final(governance) == *old(governance),
{
    match governance.breaker.set_paused(admin, true) {
        Ok(()) => Ok(()),
        Err(e) => Err(breaker_error(e)),
    }
}

/// Lifts the pause; only the emergency admin may.
pub fn unpause(governance: &mut Governance, admin: Identity) -> (r: Result<(), GovernanceError>)
    ensures
        admin == old(governance).breaker.emergency_admin ==> r == Ok::<(), GovernanceError>(())
            && *final(governance) == (Governance {
            breaker: CircuitBreaker { paused: false, ..old(governance).breaker },
            ..*old(governance)
        }),
        admin != old(governance).breaker.emergency_admin ==> r == Err::<(), GovernanceError>(
            GovernanceError::Unauthorized,
        ) && *final(governance) == *old(governance),
{
    match governance.breaker.set_paused(admin, false) {
        Ok(()) => Ok(()),
        Err(e) => Err(breaker_error(e)),
    }
}

/// Hands the emergency admin role to `new_admin`; only the current admin may.
pub fn update_emergency_admin(governance: &mut Governance, admin: Identity, new_admin: Identity) -> (r:
    Result<(), GovernanceError>)
    ensures
        admin == old(governance).breaker.emergency_admin ==> r == Ok::<(), GovernanceError>(())
            && *final(governance) == (Governance {
            breaker: CircuitBreaker { emergency_admin: new_admin, ..old(governance).breaker },
            ..*old(governance)
        }),
        admin != old(governance).breaker.emergency_admin ==> r == Err::<(), GovernanceError>(
            GovernanceError::Unauthorized,
        ) && *final(governance) == *old(governance),
{
    match governance.breaker.rotate_admin(admin, new_admin) {
        Ok(()) => Ok(()),
        Err(e) => Err(breaker_error(e)),
    }
}

/// A proposal's status only moves forward along `Active -> {Passed, Failed}`
/// and `Passed -> Executed`: following one allowed step after a reachable
/// status stays reachable, a status that has left `Active` never returns
/// to it, and `Executed` is terminal.
pub proof fn status_moves_forward(a: ProposalStatus, b: ProposalStatus, c: ProposalStatus)
    requires
        status_reachable(a, b),
        status_step(b, c),
    ensures
        status_reachable(a, c),
        a != ProposalStatus::Active ==> c != ProposalStatus::Active,
        a == ProposalStatus::Executed ==> c == ProposalStatus::Executed,
        c == ProposalStatus::Executed && b != ProposalStatus::Executed ==> b
            == ProposalStatus::Passed,
{
}

/// A voter already recorded on a proposal cannot vote on it again, whatever
/// the choice: the vote is rejected, and once the earlier checks pass it is
/// rejected as a repeated vote.
pub proof fn repeated_vote_rejected(
    governance: Governance,
    proposal: Proposal,
    voter: Identity,
    weight: u64,
    now: i64,
)
    requires
        proposal.voters@.contains(voter),
    ensures
        vote_error(governance, proposal, voter, weight, now) is Some,
        !governance.breaker.paused && proposal.status == ProposalStatus::Active && now
            <= proposal.voting_ends_at && weight > 0 ==> vote_error(
            governance,
            proposal,
            voter,
            weight,
            now,
        ) == Some(GovernanceError::AlreadyVoted),
{
}

/// A proposer whose latest proposal was made at `t0` cannot propose again
/// before `t0 + PROPOSAL_COOLDOWN`, and the cooldown no longer stands in the
/// way from that moment on.
pub proof fn proposer_cooldown_window(
    governance: Governance,
    proposer: Identity,
    proposer_balance: u64,
    input: ProposalInput,
    t0: i64,
    now: i64,
)
    requires
        governance.last_proposal_time(proposer) == Some(t0),
        !governance.breaker.paused,
        byte_len(input.title@) <= MAX_TITLE_LEN,
        byte_len(input.description@) <= MAX_DESCRIPTION_LEN,
        proposer_balance >= MIN_VOTING_POWER,
    ensures
        now < t0 + PROPOSAL_COOLDOWN ==> create_error(
            governance,
            proposer,
            proposer_balance,
            input,
            now,
        ) == Some(GovernanceError::ProposalCooldownActive),
        now >= t0 + PROPOSAL_COOLDOWN ==> create_error(
            governance,
            proposer,
            proposer_balance,
            input,
            now,
        ) == if governance.active_proposal_count >= MAX_CONCURRENT_PROPOSALS {
            Some(GovernanceError::TooManyActiveProposals)
        } else {
            None
        },
{
}

} // verus!
