use sadl_contracts::identity::Identity;
use sadl_contracts::token::{
    delegate, distribute, initialize, pause, transfer, unpause, update_emergency_admin,
    DistributionError, PoolType, Token, TokenConfig, DISTRIBUTION_COOLDOWN, MAX_DISTRIBUTION_RATE,
    MAX_SUPPLY, TEAM_VESTING_PERIOD,
};

fn who(n: u64) -> Identity {
    Identity::new(n, 0, 0, 0)
}

fn token(supply: u64, start: i64) -> Token {
    initialize(TokenConfig { supply, decimals: 9, authority: who(1), distribution_start: start })
        .unwrap()
}

#[test]
fn pools_split_supply() {
    let t = token(1_000, 50);
    let pools = t.distribution_pools;
    assert_eq!(pools.community.allocation, 300);
    assert_eq!(pools.development.allocation, 250);
    assert_eq!(pools.treasury.allocation, 200);
    assert_eq!(pools.agent_incentives.allocation, 150);
    assert_eq!(pools.team.allocation, 100);
    assert_eq!(pools.team.end_time, Some(50 + TEAM_VESTING_PERIOD));
    assert_eq!(pools.community.end_time, None);
    assert_eq!(pools.get_pool(PoolType::Treasury).allocation, 200);
    assert_eq!(t.breaker.emergency_admin, who(1));
}

#[test]
fn pools_at_supply_cap() {
    let t = token(MAX_SUPPLY, 0);
    assert_eq!(t.distribution_pools.community.allocation, MAX_SUPPLY / 100 * 30);
    let r = initialize(TokenConfig { supply: MAX_SUPPLY + 1, decimals: 9, authority: who(1), distribution_start: 0 });
    assert_eq!(r.unwrap_err(), DistributionError::SupplyCapExceeded);
}

#[test]
fn distribution_accounting_and_limits() {
    let mut t = token(1_000, 100);
    distribute(&mut t, PoolType::Community, 100, DISTRIBUTION_COOLDOWN).unwrap();
    assert_eq!(t.distribution_pools.community.distributed, 100);
    assert_eq!(t.total_distributed, 100);
    assert_eq!(t.last_distribution, DISTRIBUTION_COOLDOWN);
    let next = 2 * DISTRIBUTION_COOLDOWN;
    assert_eq!(
        distribute(&mut t, PoolType::Community, 1, next - 1).unwrap_err(),
        DistributionError::CooldownNotElapsed
    );
    assert_eq!(
        distribute(&mut t, PoolType::Community, 201, next).unwrap_err(),
        DistributionError::ExceedsAllocation
    );
    assert_eq!(
        distribute(&mut t, PoolType::Community, MAX_DISTRIBUTION_RATE + 1, next).unwrap_err(),
        DistributionError::RateLimitExceeded
    );
    distribute(&mut t, PoolType::Community, 200, next).unwrap();
    assert_eq!(t.distribution_pools.community.distributed, 300);
    distribute(&mut t, PoolType::Team, 40, 2 * next).unwrap();
    assert_eq!(t.distribution_pools.team.distributed, 40);
    assert_eq!(t.distribution_pools.development.distributed, 0);
    assert_eq!(t.total_distributed, 340);
}

#[test]
fn distribution_window() {
    let start: i64 = 10_000;
    let mut t = token(1_000, start);
    assert_eq!(
        distribute(&mut t, PoolType::Development, 1, start - 1).unwrap_err(),
        DistributionError::DistributionNotStarted
    );
    let end = start + TEAM_VESTING_PERIOD;
    assert_eq!(
        distribute(&mut t, PoolType::Team, 1, end + 1).unwrap_err(),
        DistributionError::DistributionEnded
    );
    distribute(&mut t, PoolType::Team, 1, end).unwrap();
    distribute(&mut t, PoolType::AgentIncentives, 1, end + 1 + DISTRIBUTION_COOLDOWN).unwrap();
    assert_eq!(t.total_distributed, 2);
}

#[test]
fn token_breaker() {
    let mut t = token(1_000, 0);
    assert!(transfer(&t, 5).is_ok());
    assert!(delegate(&t, 5).is_ok());
    assert_eq!(pause(&mut t, who(2)).unwrap_err(), DistributionError::Unauthorized);
    pause(&mut t, who(1)).unwrap();
    assert_eq!(transfer(&t, 5).unwrap_err(), DistributionError::ContractPaused);
    assert_eq!(delegate(&t, 5).unwrap_err(), DistributionError::ContractPaused);
    assert_eq!(
        distribute(&mut t, PoolType::Community, 1, 0).unwrap_err(),
        DistributionError::ContractPaused
    );
    unpause(&mut t, who(1)).unwrap();
    update_emergency_admin(&mut t, who(1), who(5)).unwrap();
    assert_eq!(t.breaker.emergency_admin, who(5));
    assert_eq!(pause(&mut t, who(1)).unwrap_err(), DistributionError::Unauthorized);
    assert!(transfer(&t, 5).is_ok());
}

#[test]
fn pool_selection_by_type() {
    let mut t = token(1_000, 0);
    t.distribution_pools.get_pool_mut(PoolType::AgentIncentives).distributed = 7;
    assert_eq!(t.distribution_pools.agent_incentives.distributed, 7);
    assert_eq!(t.distribution_pools.get_pool(PoolType::AgentIncentives).distributed, 7);
    assert_eq!(t.distribution_pools.get_pool(PoolType::Development).distributed, 0);
    assert_eq!(t.distribution_pools.get_pool(PoolType::Team).allocation, 100);
}
