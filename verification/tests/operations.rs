//! Tests of the operation handlers: pool and account creation, the four
//! transitions, the settlement discipline, and the error paths.

use gent_staking::errors::StakingError;
use gent_staking::instructions::{
    claim_rewards, create_stake_account, emergency_unstake, initialize_pool, settle_rewards,
    stake, unstake,
};
use gent_staking::state::{PoolConfig, Pubkey, RewardVault, StakerInfo, StakingPool};
use gent_staking::MIN_STAKE_AMOUNT;

fn pk(n: u128) -> Pubkey {
    Pubkey { hi: 0, lo: n }
}

fn vault(rate: u64) -> RewardVault {
    RewardVault {
        rewards_per_second: rate,
        last_update_time: 0,
        accumulated_rewards_per_share: 0,
    }
}

fn config() -> PoolConfig {
    PoolConfig {
        early_adopter_period: 1000,
        min_stake_duration: 0,
        max_stake_duration: 365 * 86400,
        rewards_multiplier: 10000,
        treasury_fee: 500,
    }
}

fn pool_at_launch() -> StakingPool {
    let (pool, _) = initialize_pool(pk(1), pk(2), pk(3), &config(), 0).unwrap();
    pool
}

fn pool_past_early_window() -> StakingPool {
    let mut cfg = config();
    cfg.early_adopter_period = -1;
    let (pool, _) = initialize_pool(pk(1), pk(2), pk(3), &cfg, 0).unwrap();
    pool
}

fn fresh_staker(owner: Pubkey) -> StakerInfo {
    create_stake_account(owner, None).0
}

#[test]
fn initialize_pool_sets_every_field() {
    let (pool, event) = initialize_pool(pk(1), pk(2), pk(3), &config(), 50).unwrap();
    assert_eq!(pool.authority, pk(1));
    assert_eq!(pool.treasury, pk(2));
    assert_eq!(pool.emergency_admin, pk(3));
    assert_eq!(pool.total_staked, 0);
    assert_eq!(pool.total_rewards_distributed, 0);
    assert_eq!(pool.launch_timestamp, 50);
    assert_eq!(pool.early_adopter_deadline, 1050);
    assert!(!pool.paused);
    assert_eq!(pool.min_stake_duration, 0);
    assert_eq!(pool.max_stake_duration, 365 * 86400);
    assert_eq!(pool.stake_count, 0);
    assert_eq!(pool.rewards_multiplier, 10000);
    assert_eq!(pool.treasury_fee, 500);
    assert_eq!(event.authority, pk(1));
    assert_eq!(event.treasury, pk(2));
    assert_eq!(event.launch_timestamp, 50);
}

#[test]
fn initialize_pool_refuses_fee_above_scale() {
    let mut cfg = config();
    cfg.treasury_fee = 10001;
    assert_eq!(
        initialize_pool(pk(1), pk(2), pk(3), &cfg, 0),
        Err(StakingError::InvalidTreasuryFee)
    );
}

#[test]
fn initialize_pool_refuses_deadline_past_end_of_time() {
    let mut cfg = config();
    cfg.early_adopter_period = i64::MAX;
    assert_eq!(
        initialize_pool(pk(1), pk(2), pk(3), &cfg, 1),
        Err(StakingError::CalculationOverflow)
    );
}

#[test]
fn create_stake_account_starts_empty() {
    let (staker, event) = create_stake_account(pk(9), Some(pk(10)));
    assert_eq!(staker.owner, pk(9));
    assert_eq!(staker.delegated_authority, Some(pk(10)));
    assert_eq!(staker.amount, 0);
    assert_eq!(staker.start_time, 0);
    assert_eq!(staker.last_reward_time, 0);
    assert_eq!(staker.rewards_claimed, 0);
    assert_eq!(staker.tier, 0);
    assert!(!staker.is_early_adopter);
    assert_eq!(staker.accumulated_rewards, 0);
    assert_eq!(staker.lock_period, 0);
    assert_eq!(staker.unlock_time, 0);
    assert_eq!(staker.boost_factor, 0);
    assert_eq!(staker.staking_points, 0);
    assert_eq!(event.owner, pk(9));
    assert_eq!(event.delegated_authority, Some(pk(10)));
}

#[test]
fn stake_updates_staker_and_pool() {
    let user = pk(9);
    let mut pool = pool_at_launch();
    let mut staker = fresh_staker(user);
    let v = vault(1000);
    let event = stake(&mut pool, &mut staker, &v, user, MIN_STAKE_AMOUNT, 7, 100).unwrap();
    assert_eq!(staker.amount, MIN_STAKE_AMOUNT);
    assert_eq!(staker.start_time, 100);
    assert_eq!(staker.last_reward_time, 100);
    assert_eq!(staker.tier, 0);
    assert!(staker.is_early_adopter);
    assert_eq!(staker.lock_period, 7);
    assert_eq!(staker.unlock_time, 107);
    assert_eq!(pool.total_staked, MIN_STAKE_AMOUNT);
    assert_eq!(pool.stake_count, 1);
    assert_eq!(event.user, user);
    assert_eq!(event.amount, MIN_STAKE_AMOUNT);
    assert_eq!(event.timestamp, 100);
    assert_eq!(event.tier, 0);
    assert_eq!(event.lock_period, 7);
}

#[test]
fn stake_below_minimum_is_refused() {
    let user = pk(9);
    let mut pool = pool_at_launch();
    let mut staker = fresh_staker(user);
    let v = vault(1000);
    assert_eq!(
        stake(&mut pool, &mut staker, &v, user, MIN_STAKE_AMOUNT - 1, 0, 100),
        Err(StakingError::BelowMinimumStake)
    );
    assert_eq!(staker.amount, 0);
    assert_eq!(pool.total_staked, 0);
    assert_eq!(pool.stake_count, 0);
}

#[test]
fn stake_with_short_lock_is_refused() {
    let user = pk(9);
    let mut pool = pool_at_launch();
    pool.min_stake_duration = 86400;
    let mut staker = fresh_staker(user);
    let v = vault(1000);
    assert_eq!(
        stake(&mut pool, &mut staker, &v, user, MIN_STAKE_AMOUNT, 86399, 100),
        Err(StakingError::LockPeriodTooShort)
    );
}

#[test]
fn stake_on_paused_pool_is_refused() {
    let user = pk(9);
    let mut pool = pool_at_launch();
    pool.paused = true;
    let mut staker = fresh_staker(user);
    let v = vault(1000);
    assert_eq!(
        stake(&mut pool, &mut staker, &v, user, MIN_STAKE_AMOUNT, 0, 100),
        Err(StakingError::PoolPaused)
    );
}

#[test]
fn stake_by_other_identity_is_refused() {
    let mut pool = pool_at_launch();
    let mut staker = fresh_staker(pk(9));
    let v = vault(1000);
    assert_eq!(
        stake(&mut pool, &mut staker, &v, pk(8), MIN_STAKE_AMOUNT, 0, 100),
        Err(StakingError::UnauthorizedAccess)
    );
}

#[test]
fn stake_settlement_overflow_leaves_state_unchanged() {
    let user = pk(9);
    let mut pool = pool_at_launch();
    let mut staker = fresh_staker(user);
    let v = vault(1_000_000_000);
    stake(&mut pool, &mut staker, &v, user, MIN_STAKE_AMOUNT, 0, 0).unwrap();
    staker.accumulated_rewards = u64::MAX;
    let before = staker;
    let pool_before = pool;
    assert_eq!(
        stake(&mut pool, &mut staker, &v, user, MIN_STAKE_AMOUNT, 0, 1),
        Err(StakingError::CalculationOverflow)
    );
    assert_eq!(staker, before);
    assert_eq!(pool, pool_before);
}

#[test]
fn stake_recomputes_tier_from_new_total() {
    let user = pk(9);
    let mut pool = pool_at_launch();
    let mut staker = fresh_staker(user);
    let v = vault(0);
    stake(&mut pool, &mut staker, &v, user, 9_000_000_000, 0, 0).unwrap();
    assert_eq!(staker.tier, 0);
    stake(&mut pool, &mut staker, &v, user, 1_000_000_000, 0, 0).unwrap();
    assert_eq!(staker.amount, 10_000_000_000);
    assert_eq!(staker.tier, 1);
    assert_eq!(pool.stake_count, 2);
}

#[test]
fn restake_resets_the_lock_from_now() {
    let user = pk(9);
    let mut pool = pool_at_launch();
    let mut staker = fresh_staker(user);
    let v = vault(0);
    stake(&mut pool, &mut staker, &v, user, MIN_STAKE_AMOUNT, 1000, 0).unwrap();
    assert_eq!(staker.unlock_time, 1000);
    stake(&mut pool, &mut staker, &v, user, MIN_STAKE_AMOUNT, 1000, 500).unwrap();
    assert_eq!(staker.start_time, 500);
    assert_eq!(staker.unlock_time, 1500);
}

#[test]
fn early_adopter_flag_is_recomputed_on_every_stake() {
    let user = pk(9);
    let mut pool = pool_at_launch();
    let mut staker = fresh_staker(user);
    let v = vault(0);
    stake(&mut pool, &mut staker, &v, user, MIN_STAKE_AMOUNT, 0, 1000).unwrap();
    assert!(staker.is_early_adopter);
    // restaking after the deadline loses the flag
    stake(&mut pool, &mut staker, &v, user, MIN_STAKE_AMOUNT, 0, 1001).unwrap();
    assert!(!staker.is_early_adopter);
}

#[test]
fn unstake_returns_principal_and_total() {
    let user = pk(9);
    let mut pool = pool_at_launch();
    let mut staker = fresh_staker(user);
    let v = vault(0);
    stake(&mut pool, &mut staker, &v, user, 300_000_000, 10, 0).unwrap();
    let event = unstake(&mut pool, &mut staker, &v, user, 100_000_000, 10).unwrap();
    assert_eq!(staker.amount, 200_000_000);
    assert_eq!(staker.last_reward_time, 10);
    assert_eq!(pool.total_staked, 200_000_000);
    assert_eq!(event.user, user);
    assert_eq!(event.amount, 100_000_000);
    assert_eq!(event.timestamp, 10);
}

#[test]
fn stake_then_unstake_round_trip_restores_the_pool_total() {
    let user = pk(9);
    let mut pool = pool_at_launch();
    let mut staker = fresh_staker(user);
    let v = vault(1000);
    let total_before = pool.total_staked;
    stake(&mut pool, &mut staker, &v, user, MIN_STAKE_AMOUNT, 50, 0).unwrap();
    unstake(&mut pool, &mut staker, &v, user, MIN_STAKE_AMOUNT, 50).unwrap();
    assert_eq!(pool.total_staked, total_before);
    assert_eq!(staker.amount, 0);
}

#[test]
fn unstake_before_unlock_is_refused_and_mutates_nothing() {
    let user = pk(9);
    let mut pool = pool_at_launch();
    let mut staker = fresh_staker(user);
    let v = vault(1000);
    stake(&mut pool, &mut staker, &v, user, MIN_STAKE_AMOUNT, 1000, 0).unwrap();
    let before = staker;
    let pool_before = pool;
    assert_eq!(
        unstake(&mut pool, &mut staker, &v, user, MIN_STAKE_AMOUNT, 999),
        Err(StakingError::StakeLocked)
    );
    assert_eq!(staker, before);
    assert_eq!(pool, pool_before);
}

#[test]
fn unstake_more_than_staked_is_refused() {
    let user = pk(9);
    let mut pool = pool_at_launch();
    let mut staker = fresh_staker(user);
    let v = vault(0);
    stake(&mut pool, &mut staker, &v, user, MIN_STAKE_AMOUNT, 0, 0).unwrap();
    assert_eq!(
        unstake(&mut pool, &mut staker, &v, user, MIN_STAKE_AMOUNT + 1, 0),
        Err(StakingError::InsufficientStakeBalance)
    );
}

#[test]
fn unstake_by_other_identity_is_refused() {
    let user = pk(9);
    let mut pool = pool_at_launch();
    let mut staker = fresh_staker(user);
    let v = vault(0);
    stake(&mut pool, &mut staker, &v, user, MIN_STAKE_AMOUNT, 0, 0).unwrap();
    assert_eq!(
        unstake(&mut pool, &mut staker, &v, pk(8), MIN_STAKE_AMOUNT, 0),
        Err(StakingError::UnauthorizedAccess)
    );
}

#[test]
fn unstake_keeps_the_stale_tier() {
    let user = pk(9);
    let mut pool = pool_at_launch();
    let mut staker = fresh_staker(user);
    let v = vault(0);
    stake(&mut pool, &mut staker, &v, user, 10_000_000_000, 0, 0).unwrap();
    assert_eq!(staker.tier, 1);
    unstake(&mut pool, &mut staker, &v, user, 9_999_999_999, 0).unwrap();
    assert_eq!(staker.amount, 1);
    // the stored tier is not lowered on withdrawal
    assert_eq!(staker.tier, 1);
}

#[test]
fn unstake_settles_rewards_first() {
    let user = pk(9);
    let mut pool = pool_past_early_window();
    let mut staker = fresh_staker(user);
    let v = vault(1000);
    stake(&mut pool, &mut staker, &v, user, 100_000_000, 0, 0).unwrap();
    unstake(&mut pool, &mut staker, &v, user, 100_000_000, 100).unwrap();
    // rewards for the elapsed 100 s were settled with the pre-withdrawal amount
    assert_eq!(staker.accumulated_rewards, 10_000_000_000_000);
    assert_eq!(staker.amount, 0);
}

#[test]
fn inconsistent_pool_total_fails_unstake() {
    let user = pk(9);
    let mut pool = pool_at_launch();
    let mut staker = fresh_staker(user);
    let v = vault(0);
    stake(&mut pool, &mut staker, &v, user, MIN_STAKE_AMOUNT, 0, 0).unwrap();
    pool.total_staked = MIN_STAKE_AMOUNT - 1;
    assert_eq!(
        unstake(&mut pool, &mut staker, &v, user, MIN_STAKE_AMOUNT, 0),
        Err(StakingError::CalculationOverflow)
    );
}

#[test]
fn settlement_is_idempotent_at_one_instant() {
    let user = pk(9);
    let mut pool = pool_past_early_window();
    let mut staker = fresh_staker(user);
    let v = vault(1000);
    stake(&mut pool, &mut staker, &v, user, 100_000_000, 0, 0).unwrap();
    settle_rewards(&mut staker, &v, 100).unwrap();
    let after_first = staker;
    settle_rewards(&mut staker, &v, 100).unwrap();
    assert_eq!(staker, after_first);
    assert_eq!(staker.accumulated_rewards, 10_000_000_000_000);
    assert_eq!(staker.last_reward_time, 100);
}

#[test]
fn claim_pays_the_documented_split() {
    // treasury fee 500 (5%), 100,000,000 staked at t=0 with no lock, rate
    // 1000, claim at t=100 as bronze, not early adopter:
    // total 10^13, fee 5*10^11, user reward 9.5*10^12
    let user = pk(9);
    let mut pool = pool_past_early_window();
    let mut staker = fresh_staker(user);
    let v = vault(1000);
    stake(&mut pool, &mut staker, &v, user, 100_000_000, 0, 0).unwrap();
    assert!(!staker.is_early_adopter);
    let event = claim_rewards(&pool, &mut staker, &v, user, 100).unwrap();
    assert_eq!(event.amount, 9_500_000_000_000);
    assert_eq!(event.treasury_fee, 500_000_000_000);
    assert_eq!(event.amount + event.treasury_fee, 10_000_000_000_000);
    assert_eq!(event.timestamp, 100);
    assert_eq!(staker.accumulated_rewards, 0);
    assert_eq!(staker.rewards_claimed, 10_000_000_000_000);
    assert_eq!(staker.last_reward_time, 100);
}

#[test]
fn claim_with_zero_fee_pays_everything_to_the_user() {
    let user = pk(9);
    let mut pool = pool_past_early_window();
    pool.treasury_fee = 0;
    let mut staker = fresh_staker(user);
    let v = vault(1000);
    stake(&mut pool, &mut staker, &v, user, 100_000_000, 0, 0).unwrap();
    let event = claim_rewards(&pool, &mut staker, &v, user, 100).unwrap();
    assert_eq!(event.amount, 10_000_000_000_000);
    assert_eq!(event.treasury_fee, 0);
}

#[test]
fn claim_with_nothing_accrued_is_refused() {
    let user = pk(9);
    let mut pool = pool_at_launch();
    let mut staker = fresh_staker(user);
    let v = vault(1000);
    stake(&mut pool, &mut staker, &v, user, MIN_STAKE_AMOUNT, 0, 0).unwrap();
    assert_eq!(
        claim_rewards(&pool, &mut staker, &v, user, 0),
        Err(StakingError::NoRewardsToClaim)
    );
}

#[test]
fn claim_by_other_identity_is_refused() {
    let mut pool = pool_at_launch();
    let mut staker = fresh_staker(pk(9));
    let v = vault(1000);
    stake(&mut pool, &mut staker, &v, pk(9), MIN_STAKE_AMOUNT, 0, 0).unwrap();
    assert_eq!(
        claim_rewards(&pool, &mut staker, &v, pk(8), 100),
        Err(StakingError::UnauthorizedAccess)
    );
}

#[test]
fn claim_fee_computation_overflow_is_refused() {
    let user = pk(9);
    let mut pool = pool_at_launch();
    pool.treasury_fee = 10000;
    let mut staker = fresh_staker(user);
    staker.accumulated_rewards = u64::MAX;
    let v = vault(0);
    let before = staker;
    assert_eq!(
        claim_rewards(&pool, &mut staker, &v, user, 0),
        Err(StakingError::CalculationOverflow)
    );
    assert_eq!(staker, before);
}

#[test]
fn emergency_unstake_discards_rewards() {
    let user = pk(9);
    let mut pool = pool_at_launch();
    let mut staker = fresh_staker(user);
    let v = vault(1000);
    stake(&mut pool, &mut staker, &v, user, 300_000_000, 1_000_000, 0).unwrap();
    staker.accumulated_rewards = 777;
    let event = emergency_unstake(&mut pool, &mut staker, pk(3), 50).unwrap();
    assert_eq!(staker.amount, 0);
    assert_eq!(staker.accumulated_rewards, 0);
    assert_eq!(staker.rewards_claimed, 0);
    assert_eq!(staker.last_reward_time, 50);
    assert_eq!(pool.total_staked, 0);
    assert_eq!(event.user, user);
    assert_eq!(event.amount, 300_000_000);
    assert_eq!(event.timestamp, 50);
}

#[test]
fn emergency_unstake_by_non_admin_is_refused() {
    let user = pk(9);
    let mut pool = pool_at_launch();
    let mut staker = fresh_staker(user);
    let v = vault(0);
    stake(&mut pool, &mut staker, &v, user, 300_000_000, 1_000_000, 0).unwrap();
    let before = staker;
    let pool_before = pool;
    assert_eq!(
        emergency_unstake(&mut pool, &mut staker, pk(4), 50),
        Err(StakingError::UnauthorizedAccess)
    );
    assert_eq!(staker.amount, before.amount);
    assert_eq!(staker, before);
    assert_eq!(pool, pool_before);
}

#[test]
fn emergency_unstake_of_empty_record_is_refused() {
    let mut pool = pool_at_launch();
    let mut staker = fresh_staker(pk(9));
    assert_eq!(
        emergency_unstake(&mut pool, &mut staker, pk(3), 50),
        Err(StakingError::NoStakeToUnstake)
    );
}
