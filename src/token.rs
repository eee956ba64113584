use vstd::prelude::*;

use crate::circuit_breaker::{BreakerError, CircuitBreaker};
use crate::identity::Identity;
use crate::rate_limit::{cooldown_elapsed, cooldown_elapsed_spec, within_rate_cap};

verus! {

/// Largest supply a token may be created with (1 billion tokens of 9 decimals).
pub const MAX_SUPPLY: u64 = 1_000_000_000 * 1_000_000_000;

/// Most that one distribution may move: 1% of the largest supply.
pub const MAX_DISTRIBUTION_RATE: u64 = MAX_SUPPLY / 100;

/// Seconds between two distributions.
pub const DISTRIBUTION_COOLDOWN: i64 = 3600;

/// Seconds after the start during which the team pool distributes (two years).
pub const TEAM_VESTING_PERIOD: i64 = 63072000;

#[derive(Clone, Copy, Debug, PartialEq, Eq, Structural)]
pub struct Pool {
    pub allocation: u64,
    pub distributed: u64,
    pub start_time: i64,
    pub end_time: Option<i64>,
}

#[derive(Clone, Copy, Debug, PartialEq, Eq, Structural)]
pub struct DistributionPools {
    pub community: Pool,
    pub development: Pool,
    pub treasury: Pool,
    pub agent_incentives: Pool,
    pub team: Pool,
}

#[derive(Clone, Copy, Debug, PartialEq, Eq, Structural)]
pub enum PoolType {
    Community,
    Development,
    Treasury,
    AgentIncentives,
    Team,
}

#[derive(Clone, Copy, Debug, PartialEq, Eq, Structural)]
pub struct TokenConfig {
    pub supply: u64,
    pub decimals: u8,
    pub authority: Identity,
    pub distribution_start: i64,
}

#[derive(Clone, Copy, Debug, PartialEq, Eq, Structural)]
pub struct Token {
    pub supply: u64,
    pub decimals: u8,
    pub authority: Identity,
    pub bump: u8,
    pub total_distributed: u64,
    pub distribution_pools: DistributionPools,
    pub breaker: CircuitBreaker,
    pub last_distribution: i64,
}

#[derive(Clone, Copy, Debug, PartialEq, Eq, Structural)]
pub enum DistributionError {
    ExceedsAllocation,
    DistributionNotStarted,
    DistributionEnded,
    ContractPaused,
    RateLimitExceeded,
    CooldownNotElapsed,
    SupplyCapExceeded,
    Unauthorized,
}

impl Pool {
    pub open spec fn wf(&self) -> bool {
        self.distributed <= self.allocation <= MAX_SUPPLY
    }
}

impl DistributionPools {
    pub open spec fn pool(&self, pool_type: PoolType) -> Pool {
        match pool_type {
            PoolType::Community => self.community,
            PoolType::Development => self.development,
            PoolType::Treasury => self.treasury,
            PoolType::AgentIncentives => self.agent_incentives,
            PoolType::Team => self.team,
        }
    }

    pub open spec fn with_pool(&self, pool_type: PoolType, pool: Pool) -> DistributionPools {
        match pool_type {
            PoolType::Community => DistributionPools { community: pool, ..*self },
            PoolType::Development => DistributionPools { development: pool, ..*self },
            PoolType::Treasury => DistributionPools { treasury: pool, ..*self },
            PoolType::AgentIncentives => DistributionPools { agent_incentives: pool, ..*self },
            PoolType::Team => DistributionPools { team: pool, ..*self },
        }
    }

    pub open spec fn total_distributed(&self) -> int {
        self.community.distributed + self.development.distributed + self.treasury.distributed
            + self.agent_incentives.distributed + self.team.distributed
    }

    pub open spec fn wf(&self) -> bool {
        &&& self.community.wf()
        &&& self.development.wf()
        &&& self.treasury.wf()
        &&& self.agent_incentives.wf()
        &&& self.team.wf()
    }

    pub fn get_pool(&self, pool_type: PoolType) -> (r: &Pool)
        ensures
            *r == self.pool(pool_type),
    {
        match pool_type {
            PoolType::Community => &self.community,
            PoolType::Development => &self.development,
            PoolType::Treasury => &self.treasury,
            PoolType::AgentIncentives => &self.agent_incentives,
            PoolType::Team => &self.team,
        }
    }

    pub fn get_pool_mut(&mut self, pool_type: PoolType) -> (r: &mut Pool)
        ensures
            *r == old(self).pool(pool_type),
            *final(self) == old(self).with_pool(pool_type, *final(r)),
    {
        match pool_type {
            PoolType::Community => &mut self.community,
            PoolType::Development => &mut self.development,
            PoolType::Treasury => &mut self.treasury,
            PoolType::AgentIncentives => &mut self.agent_incentives,
            PoolType::Team => &mut self.team,
        }
    }
}

impl Token {
    /// Pools stay within their allocations and the running total is their sum.
    pub open spec fn wf(&self) -> bool {
        &&& self.distribution_pools.wf()
        &&& self.total_distributed == self.distribution_pools.total_distributed()
    }
}

/// The share `percent` of `supply`, rounded down.
pub open spec fn share(supply: u64, percent: u64) -> u64 {
    (supply * percent / 100) as u64
}

fn compute_share(supply: u64, percent: u64) -> (r: u64)
    requires
        supply <= MAX_SUPPLY,
        percent <= 100,
    ensures
        r == share(supply, percent),
        r <= supply,
{
    assert((supply as int) * (percent as int) <= (supply as int) * 100) by (nonlinear_arith)
        requires
            percent <= 100,
    ;
    let product: u128 = (supply as u128) * (percent as u128);
    (product / 100) as u64
}

fn breaker_error(e: BreakerError) -> (r: DistributionError)
    ensures
        r == (match e {
            BreakerError::Unauthorized => DistributionError::Unauthorized,
            BreakerError::ContractPaused => DistributionError::ContractPaused,
        }),
{
    match e {
        BreakerError::Unauthorized => DistributionError::Unauthorized,
        BreakerError::ContractPaused => DistributionError::ContractPaused,
    }
}

pub open spec fn fresh_pool(allocation: u64, start: i64, end_time: Option<i64>) -> Pool {
    Pool { allocation, distributed: 0, start_time: start, end_time }
}

/// Sets up a token with its supply split into five pools: community 30%,
/// development 25%, treasury 20%, agent incentives 15% and team 10%, the
/// team pool closing two years after the start.
pub fn initialize(config: TokenConfig) -> (r: Result<Token, DistributionError>)
    requires
        config.distribution_start <= i64::MAX - TEAM_VESTING_PERIOD,
    ensures
        r is Err <==> config.supply > MAX_SUPPLY,
        r is Err ==> r == Err::<Token, DistributionError>(DistributionError::SupplyCapExceeded),
        r matches Ok(t) ==> {
            let start = config.distribution_start;
            &&& t.wf()
            &&& t == (Token {
                supply: config.supply,
                decimals: config.decimals,
                authority: config.authority,
                bump: 0,
                total_distributed: 0,
                distribution_pools: DistributionPools {
                    community: fresh_pool(share(config.supply, 30), start, None),
                    development: fresh_pool(share(config.supply, 25), start, None),
                    treasury: fresh_pool(share(config.supply, 20), start, None),
                    agent_incentives: fresh_pool(share(config.supply, 15), start, None),
                    team: fresh_pool(
                        share(config.supply, 10),
                        start,
                        Some((start + TEAM_VESTING_PERIOD) as i64),
                    ),
                },
                breaker: CircuitBreaker { paused: false, emergency_admin: config.authority },
                last_distribution: 0,
            })
        },
{
    if config.supply > MAX_SUPPLY {
        return Err(DistributionError::SupplyCapExceeded);
    }
    let start = config.distribution_start;
    let pools = DistributionPools {
        community: Pool {
            allocation: compute_share(config.supply, 30),
            distributed: 0,
            start_time: start,
            end_time: None,
        },
        development: Pool {
            allocation: compute_share(config.supply, 25),
            distributed: 0,
            start_time: start,
            end_time: None,
        },
        treasury: Pool {
            allocation: compute_share(config.supply, 20),
            distributed: 0,
            start_time: start,
            end_time: None,
        },
        agent_incentives: Pool {
            allocation: compute_share(config.supply, 15),
            distributed: 0,
            start_time: start,
            end_time: None,
        },
        team: Pool {
            allocation: compute_share(config.supply, 10),
            distributed: 0,
            start_time: start,
            end_time: Some(start + TEAM_VESTING_PERIOD),
        },
    };
    Ok(
        Token {
            supply: config.supply,
            decimals: config.decimals,
            authority: config.authority,
            bump: 0,
            total_distributed: 0,
            distribution_pools: pools,
            breaker: CircuitBreaker::new(config.authority),
            last_distribution: 0,
        },
    )
}

/// The first check that rejects a distribution, in the order they are made.
pub open spec fn distribute_error(token: Token, pool_type: PoolType, amount: u64, now: i64) -> Option<
    DistributionError,
> {
    let pool = token.distribution_pools.pool(pool_type);
    if token.breaker.paused {
        Some(DistributionError::ContractPaused)
    } else if !cooldown_elapsed_spec(now, token.last_distribution, DISTRIBUTION_COOLDOWN) {
        Some(DistributionError::CooldownNotElapsed)
    } else if amount > MAX_DISTRIBUTION_RATE {
        Some(DistributionError::RateLimitExceeded)
    } else if amount > pool.allocation - pool.distributed {
        Some(DistributionError::ExceedsAllocation)
    } else if now < pool.start_time {
        Some(DistributionError::DistributionNotStarted)
    } else if (match pool.end_time {
        Some(end) => now > end,
        None => false,
    }) {
        Some(DistributionError::DistributionEnded)
    } else {
        None
    }
}

/// Accounts a distribution of `amount` from one pool at `now`; the tokens
/// themselves are moved by the caller once this succeeds.
pub fn distribute(token: &mut Token, pool_type: PoolType, amount: u64, now: i64) -> (r: Result<
    (),
    DistributionError,
>)
    requires
        old(token).wf(),
    ensures
        final(token).wf(),
        r is Err <==> distribute_error(*old(token), pool_type, amount, now) is Some,
        match r {
            Err(e) => Some(e) == distribute_error(*old(token), pool_type, amount, now)
                && *final(token) == *old(token),
            Ok(_) => {
                let pool = old(token).distribution_pools.pool(pool_type);
                *final(token) == (Token {
                    distribution_pools: old(token).distribution_pools.with_pool(
                        pool_type,
                        Pool { distributed: (pool.distributed + amount) as u64, ..pool },
                    ),
                    total_distributed: (old(token).total_distributed + amount) as u64,
                    last_distribution: now,
                    ..*old(token)
                })
            },
        },
{
    if let Err(e) = token.breaker.require_unpaused() {
        return Err(breaker_error(e));
    }
    if !cooldown_elapsed(now, token.last_distribution, DISTRIBUTION_COOLDOWN) {
        return Err(DistributionError::CooldownNotElapsed);
    }
    if !within_rate_cap(amount, MAX_DISTRIBUTION_RATE) {
        return Err(DistributionError::RateLimitExceeded);
    }
    let pool = *token.distribution_pools.get_pool(pool_type);
    if amount > pool.allocation - pool.distributed {
        return Err(DistributionError::ExceedsAllocation);
    }
    if now < pool.start_time {
        return Err(DistributionError::DistributionNotStarted);
    }
    if let Some(end_time) = pool.end_time {
        if now > end_time {
            return Err(DistributionError::DistributionEnded);
        }
    }
    let slot = token.distribution_pools.get_pool_mut(pool_type);
    slot.distributed = slot.distributed + amount;
    token.total_distributed = token.total_distributed + amount;
    token.last_distribution = now;
    Ok(())
}

/// Decides whether a transfer between holders may go ahead: only while
/// the token is not paused.
pub fn transfer(token: &Token, amount: u64) -> (r: Result<(), DistributionError>)
    ensures
        r == (if token.breaker.paused {
            Err::<(), DistributionError>(DistributionError::ContractPaused)
        } else {
            Ok(())
        }),
{
    match token.breaker.require_unpaused() {
        Ok(()) => Ok(()),
        Err(e) => Err(breaker_error(e)),
    }
}

/// Decides whether an allowance may be granted: only while the token is
/// not paused.
pub fn delegate(token: &Token, amount: u64) -> (r: Result<(), DistributionError>)
    ensures
        r == (if token.breaker.paused {
            Err::<(), DistributionError>(DistributionError::ContractPaused)
        } else {
            Ok(())
        }),
{
    match token.breaker.require_unpaused() {
        Ok(()) => Ok(()),
        Err(e) => Err(breaker_error(e)),
    }
}

/// Pauses the token; only the emergency admin may.
pub fn pause(token: &mut Token, admin: Identity) -> (r: Result<(), DistributionError>)
    ensures
        admin == old(token).breaker.emergency_admin ==> r == Ok::<(), DistributionError>(())
            && *final(token) == (Token {
            breaker: CircuitBreaker { paused: true, ..old(token).breaker },
            ..*old(token)
        }),
        admin != old(token).breaker.emergency_admin ==> r == Err::<(), DistributionError>(
            DistributionError::Unauthorized,
        ) && *final(token) == *old(token),
{
    match token.breaker.set_paused(admin, true) {
        Ok(()) => Ok(()),
        Err(e) => Err(breaker_error(e)),
    }
}

/// Lifts the pause; only the emergency admin may.
pub fn unpause(token: &mut Token, admin: Identity) -> (r: Result<(), DistributionError>)
    ensures
        admin == old(token).breaker.emergency_admin ==> r == Ok::<(), DistributionError>(())
            && *final(token) == (Token {
            breaker: CircuitBreaker { paused: false, ..old(token).breaker },
            ..*old(token)
        }),
        admin != old(token).breaker.emergency_admin ==> r == Err::<(), DistributionError>(
            DistributionError::Unauthorized,
        ) && *final(token) == *old(token),
{
    match token.breaker.set_paused(admin, false) {
        Ok(()) => Ok(()),
        Err(e) => Err(breaker_error(e)),
    }
}

/// Hands the emergency admin role to `new_admin`; only the current admin may.
pub fn update_emergency_admin(token: &mut Token, admin: Identity, new_admin: Identity) -> (r:
    Result<(), DistributionError>)
    ensures
        admin == old(token).breaker.emergency_admin ==> r == Ok::<(), DistributionError>(())
            && *final(token) == (Token {
            breaker: CircuitBreaker { emergency_admin: new_admin, ..old(token).breaker },
            ..*old(token)
        }),
        admin != old(token).breaker.emergency_admin ==> r == Err::<(), DistributionError>(
            DistributionError::Unauthorized,
        ) && *final(token) == *old(token),
{
    match token.breaker.rotate_admin(admin, new_admin) {
        Ok(()) => Ok(()),
        Err(e) => Err(breaker_error(e)),
    }
}

} // verus!
