//! The operation handlers: pool creation, staker-record creation, and the
//! four transitions (stake, unstake, claim, emergency unstake) over a
//! staker record and the pool's aggregates.
//!
//! Every handler is a pure transition: it takes the loaded records, the
//! caller's identity, and one timestamp, and either commits every field
//! write after all fallible arithmetic has succeeded, or returns a specific
//! error with every record exactly as it was. A successful transition
//! returns the notification record whose quantities tell the host what to
//! transfer.

use vstd::prelude::*;
use crate::MIN_STAKE_AMOUNT;
use crate::errors::StakingError;
use crate::events::{
    EmergencyUnstakeEvent, PoolInitializedEvent, RewardsClaimedEvent, StakeAccountCreatedEvent,
    StakeEvent, UnstakeEvent,
};
use crate::rewards::{
    calculate_pending_rewards, calculate_tier, elapsed_of, pending_fits, pending_value, tier_of,
};
use crate::state::{PoolConfig, Pubkey, RewardVault, StakerInfo, StakingPool};
use vstd::arithmetic::mul::lemma_mul_inequality;
use vstd::arithmetic::div_mod::{lemma_div_is_ordered, lemma_div_multiples_vanish};

verus! {

/// The reward a staker record has pending at `now` under emission rate
/// `rate`: the pending-reward formula applied to the record's own fields.
pub open spec fn staker_pending(staker: StakerInfo, rate: u64, now: i64) -> int {
    pending_value(
        rate,
        elapsed_of(staker.last_reward_time, now),
        staker.amount,
        staker.tier,
        staker.is_early_adopter,
        staker.lock_period,
    )
}

/// Whether settling `staker` at `now` stays within machine widths: the
/// pending-reward computation fits, and so does adding it to the
/// accumulated balance.
pub open spec fn settle_fits(staker: StakerInfo, rate: u64, now: i64) -> bool {
    &&& pending_fits(
        rate,
        elapsed_of(staker.last_reward_time, now),
        staker.amount,
        staker.tier,
        staker.is_early_adopter,
        staker.lock_period,
    )
    &&& staker.accumulated_rewards + staker_pending(staker, rate, now) <= u64::MAX
}

/// The staker record after settlement at `now`: the pending reward moved
/// into the accumulated balance and the high-water mark advanced to `now`.
/// All other fields keep their values.
pub open spec fn settled(staker: StakerInfo, rate: u64, now: i64) -> StakerInfo {
    StakerInfo {
        accumulated_rewards: (staker.accumulated_rewards + staker_pending(staker, rate, now)) as u64,
        last_reward_time: now,
        ..staker
    }
}

/// Settles the record's accrual up to `now`: adds the pending reward to the
/// accumulated balance and advances the high-water mark, or fails with
/// `CalculationOverflow` and changes nothing.
pub fn settle_rewards(staker: &mut StakerInfo, reward_vault: &RewardVault, now: i64) -> (r:
    Result<(), StakingError>)
    ensures
        ({
            let rate = reward_vault.rewards_per_second;
            if settle_fits(*old(staker), rate, now) {
                r == Ok::<(), StakingError>(()) && *final(staker) == settled(
                    *old(staker),
                    rate,
                    now,
                )
            } else {
                r == Err::<(), StakingError>(StakingError::CalculationOverflow) && *final(staker)
                    == *old(staker)
            }
        }),
{
    let pending: u64 = match calculate_pending_rewards(reward_vault, &*staker, now) {
        Ok(p) => p,
        Err(e) => {
            return Err(e);
        },
    };
    let new_accumulated: u64 = match staker.accumulated_rewards.checked_add(pending) {
        Some(v) => v,
        None => {
            return Err(StakingError::CalculationOverflow);
        },
    };
    staker.accumulated_rewards = new_accumulated;
    staker.last_reward_time = now;
    Ok(())
}

/// Settling is idempotent: a second settlement at the same instant finds
/// zero elapsed time, always fits, and adds nothing.
pub proof fn lemma_settle_idempotent(staker: StakerInfo, rate: u64, now: i64)
    ensures
        settle_fits(settled(staker, rate, now), rate, now),
        settled(settled(staker, rate, now), rate, now) == settled(staker, rate, now),
{
    assert(elapsed_of(now, now) == 0);
}

/// Why `initialize_pool` refuses a configuration, if it does: a treasury
/// fee above the basis-point scale, or an early-adopter deadline past the
/// end of time.
pub open spec fn initialize_error(config: PoolConfig, now: i64) -> Option<StakingError> {
    if config.treasury_fee > 10000 {
        Some(StakingError::InvalidTreasuryFee)
    } else if now + config.early_adopter_period > i64::MAX || now + config.early_adopter_period
        < i64::MIN {
        Some(StakingError::CalculationOverflow)
    } else {
        None
    }
}

/// Creates the pool record at time `now` under the given identities and
/// configuration. Aggregates start at zero, the pool starts unpaused, and
/// the early-adopter deadline is the launch time plus the configured grace
/// period.
pub fn initialize_pool(
    authority: Pubkey,
    treasury: Pubkey,
    emergency_admin: Pubkey,
    config: &PoolConfig,
    now: i64,
) -> (r: Result<(StakingPool, PoolInitializedEvent), StakingError>)
    ensures
        ({
            let err = initialize_error(*config, now);
            match r {
                Ok(pe) => {
                    &&& err is None
                    &&& pe.0 == (StakingPool {
                        authority,
                        treasury,
                        emergency_admin,
                        total_staked: 0,
                        total_rewards_distributed: 0,
                        launch_timestamp: now,
                        early_adopter_deadline: (now + config.early_adopter_period) as i64,
                        paused: false,
                        min_stake_duration: config.min_stake_duration,
                        max_stake_duration: config.max_stake_duration,
                        stake_count: 0,
                        rewards_multiplier: config.rewards_multiplier,
                        treasury_fee: config.treasury_fee,
                    })
                    &&& pe.0.wf()
                    &&& pe.1 == (PoolInitializedEvent { authority, treasury, launch_timestamp: now })
                },
                Err(e) => err == Some(e),
            }
        }),
{
    if config.treasury_fee > 10000 {
        return Err(StakingError::InvalidTreasuryFee);
    }
    let deadline: i64 = match now.checked_add(config.early_adopter_period) {
        Some(d) => d,
        None => {
            return Err(StakingError::CalculationOverflow);
        },
    };
    let pool = StakingPool {
        authority,
        treasury,
        emergency_admin,
        total_staked: 0,
        total_rewards_distributed: 0,
        launch_timestamp: now,
        early_adopter_deadline: deadline,
        paused: false,
        min_stake_duration: config.min_stake_duration,
        max_stake_duration: config.max_stake_duration,
        stake_count: 0,
        rewards_multiplier: config.rewards_multiplier,
        treasury_fee: config.treasury_fee,
    };
    let event = PoolInitializedEvent { authority, treasury, launch_timestamp: now };
    Ok((pool, event))
}

/// Creates an empty staker record bound to `owner`. Creating a second
/// record for the same owner is the host's error to refuse; the ledger
/// itself never overwrites an existing record.
pub fn create_stake_account(owner: Pubkey, delegated_authority: Option<Pubkey>) -> (r: (
    StakerInfo,
    StakeAccountCreatedEvent,
))
    ensures
        r.0 == (StakerInfo {
            owner,
            delegated_authority,
            amount: 0,
            start_time: 0,
            last_reward_time: 0,
            rewards_claimed: 0,
            tier: 0,
            is_early_adopter: false,
            accumulated_rewards: 0,
            lock_period: 0,
            unlock_time: 0,
            boost_factor: 0,
            staking_points: 0,
        }),
        r.1 == (StakeAccountCreatedEvent { owner, delegated_authority }),
{
    let staker = StakerInfo {
        owner,
        delegated_authority,
        amount: 0,
        start_time: 0,
        last_reward_time: 0,
        rewards_claimed: 0,
        tier: 0,
        is_early_adopter: false,
        accumulated_rewards: 0,
        lock_period: 0,
        unlock_time: 0,
        boost_factor: 0,
        staking_points: 0,
    };
    let event = StakeAccountCreatedEvent { owner, delegated_authority };
    (staker, event)
}

/// Why a stake is refused, if it is; the checks run in this order and the
/// first failure wins.
pub open spec fn stake_error(
    pool: StakingPool,
    staker: StakerInfo,
    rate: u64,
    user: Pubkey,
    amount: u64,
    lock_period: i64,
    now: i64,
) -> Option<StakingError> {
    if user != staker.owner {
        Some(StakingError::UnauthorizedAccess)
    } else if amount < MIN_STAKE_AMOUNT {
        Some(StakingError::BelowMinimumStake)
    } else if lock_period < pool.min_stake_duration {
        Some(StakingError::LockPeriodTooShort)
    } else if pool.paused {
        Some(StakingError::PoolPaused)
    } else if !settle_fits(staker, rate, now) {
        Some(StakingError::CalculationOverflow)
    } else if staker.amount + amount > u64::MAX {
        Some(StakingError::CalculationOverflow)
    } else if now + lock_period > i64::MAX || now + lock_period < i64::MIN {
        Some(StakingError::CalculationOverflow)
    } else if pool.total_staked + amount > u64::MAX {
        Some(StakingError::CalculationOverflow)
    } else if pool.stake_count + 1 > u64::MAX {
        Some(StakingError::CalculationOverflow)
    } else {
        None
    }
}

/// The staker record after a successful stake: rewards settled first with
/// the record's pre-stake fields, then the principal raised, the tier
/// recomputed from the new principal, the early-adopter flag recomputed
/// against the pool's deadline, and the lock rewound to start at `now`.
pub open spec fn stake_ok_staker(
    staker: StakerInfo,
    rate: u64,
    amount: u64,
    lock_period: i64,
    now: i64,
    pool: StakingPool,
) -> StakerInfo {
    let s = settled(staker, rate, now);
    StakerInfo {
        amount: (s.amount + amount) as u64,
        start_time: now,
        tier: tier_of((s.amount + amount) as u64),
        is_early_adopter: now <= pool.early_adopter_deadline,
        lock_period: lock_period,
        unlock_time: (now + lock_period) as i64,
        ..s
    }
}

/// The pool after a successful stake: the total raised by the deposit and
/// the stake count by one.
pub open spec fn stake_ok_pool(pool: StakingPool, amount: u64) -> StakingPool {
    StakingPool {
        total_staked: (pool.total_staked + amount) as u64,
        stake_count: (pool.stake_count + 1) as u64,
        ..pool
    }
}

/// Stakes `amount` for `user` with a lock of `lock_period` seconds.
/// On success the host owes a transfer of `amount` from the user to the
/// stake vault. On failure nothing changes.
pub fn stake(
    pool: &mut StakingPool,
    staker: &mut StakerInfo,
    reward_vault: &RewardVault,
    user: Pubkey,
    amount: u64,
    lock_period: i64,
    now: i64,
) -> (r: Result<StakeEvent, StakingError>)
    ensures
        ({
            let rate = reward_vault.rewards_per_second;
            let err = stake_error(*old(pool), *old(staker), rate, user, amount, lock_period, now);
            match r {
                Ok(ev) => {
                    &&& err is None
                    &&& *final(staker) == stake_ok_staker(
                        *old(staker),
                        rate,
                        amount,
                        lock_period,
                        now,
                        *old(pool),
                    )
                    &&& *final(pool) == stake_ok_pool(*old(pool), amount)
                    &&& ev == (StakeEvent {
                        user,
                        amount,
                        timestamp: now,
                        tier: final(staker).tier,
                        lock_period,
                    })
                },
                Err(e) => {
                    &&& err == Some(e)
                    &&& *final(staker) == *old(staker)
                    &&& *final(pool) == *old(pool)
                },
            }
        }),
{
    if !(user == staker.owner) {
        return Err(StakingError::UnauthorizedAccess);
    }
    if amount < MIN_STAKE_AMOUNT {
        return Err(StakingError::BelowMinimumStake);
    }
    if lock_period < pool.min_stake_duration {
        return Err(StakingError::LockPeriodTooShort);
    }
    if pool.paused {
        return Err(StakingError::PoolPaused);
    }
    let pending: u64 = match calculate_pending_rewards(reward_vault, &*staker, now) {
        Ok(p) => p,
        Err(e) => {
            return Err(e);
        },
    };
    let new_accumulated: u64 = match staker.accumulated_rewards.checked_add(pending) {
        Some(v) => v,
        None => {
            return Err(StakingError::CalculationOverflow);
        },
    };
    let new_amount: u64 = match staker.amount.checked_add(amount) {
        Some(v) => v,
        None => {
            return Err(StakingError::CalculationOverflow);
        },
    };
    let new_unlock: i64 = match now.checked_add(lock_period) {
        Some(v) => v,
        None => {
            return Err(StakingError::CalculationOverflow);
        },
    };
    let new_total: u64 = match pool.total_staked.checked_add(amount) {
        Some(v) => v,
        None => {
            return Err(StakingError::CalculationOverflow);
        },
    };
    let new_count: u64 = match pool.stake_count.checked_add(1) {
        Some(v) => v,
        None => {
            return Err(StakingError::CalculationOverflow);
        },
    };
    let new_tier: u8 = calculate_tier(new_amount);
    staker.accumulated_rewards = new_accumulated;
    staker.amount = new_amount;
    staker.start_time = now;
    staker.last_reward_time = now;
    staker.tier = new_tier;
    staker.is_early_adopter = now <= pool.early_adopter_deadline;
    staker.lock_period = lock_period;
    staker.unlock_time = new_unlock;
    pool.total_staked = new_total;
    pool.stake_count = new_count;
    Ok(StakeEvent { user, amount, timestamp: now, tier: new_tier, lock_period })
}

/// Why an unstake is refused, if it is; the checks run in this order and
/// the first failure wins.
pub open spec fn unstake_error(
    pool: StakingPool,
    staker: StakerInfo,
    rate: u64,
    user: Pubkey,
    amount: u64,
    now: i64,
) -> Option<StakingError> {
    if user != staker.owner {
        Some(StakingError::UnauthorizedAccess)
    } else if now < staker.unlock_time {
        Some(StakingError::StakeLocked)
    } else if amount > staker.amount {
        Some(StakingError::InsufficientStakeBalance)
    } else if !settle_fits(staker, rate, now) {
        Some(StakingError::CalculationOverflow)
    } else if pool.total_staked < amount {
        Some(StakingError::CalculationOverflow)
    } else {
        None
    }
}

/// The staker record after a successful unstake: rewards settled with the
/// pre-withdrawal fields, then the principal lowered. Tier, lock, and
/// early-adopter flag keep their stale values.
pub open spec fn unstake_ok_staker(staker: StakerInfo, rate: u64, amount: u64, now: i64)
    -> StakerInfo {
    let s = settled(staker, rate, now);
    StakerInfo { amount: (s.amount - amount) as u64, ..s }
}

/// The pool after a successful unstake: only the total falls; the stake
/// count records deposits, not withdrawals.
pub open spec fn unstake_ok_pool(pool: StakingPool, amount: u64) -> StakingPool {
    StakingPool { total_staked: (pool.total_staked - amount) as u64, ..pool }
}

/// Withdraws `amount` of staked principal for `user` once the lock has
/// elapsed. On success the host owes a transfer of `amount` from the stake
/// vault back to the user. On failure nothing changes.
pub fn unstake(
    pool: &mut StakingPool,
    staker: &mut StakerInfo,
    reward_vault: &RewardVault,
    user: Pubkey,
    amount: u64,
    now: i64,
) -> (r: Result<UnstakeEvent, StakingError>)
    ensures
        ({
            let rate = reward_vault.rewards_per_second;
            let err = unstake_error(*old(pool), *old(staker), rate, user, amount, now);
            match r {
                Ok(ev) => {
                    &&& err is None
                    &&& *final(staker) == unstake_ok_staker(*old(staker), rate, amount, now)
                    &&& *final(pool) == unstake_ok_pool(*old(pool), amount)
                    &&& ev == (UnstakeEvent { user, amount, timestamp: now })
                },
                Err(e) => {
                    &&& err == Some(e)
                    &&& *final(staker) == *old(staker)
                    &&& *final(pool) == *old(pool)
                },
            }
        }),
{
    if !(user == staker.owner) {
        return Err(StakingError::UnauthorizedAccess);
    }
    if now < staker.unlock_time {
        return Err(StakingError::StakeLocked);
    }
    if amount > staker.amount {
        return Err(StakingError::InsufficientStakeBalance);
    }
    let pending: u64 = match calculate_pending_rewards(reward_vault, &*staker, now) {
        Ok(p) => p,
        Err(e) => {
            return Err(e);
        },
    };
    let new_accumulated: u64 = match staker.accumulated_rewards.checked_add(pending) {
        Some(v) => v,
        None => {
            return Err(StakingError::CalculationOverflow);
        },
    };
    let new_total: u64 = match pool.total_staked.checked_sub(amount) {
        Some(v) => v,
        None => {
            return Err(StakingError::CalculationOverflow);
        },
    };
    staker.accumulated_rewards = new_accumulated;
    staker.amount = staker.amount - amount;
    staker.last_reward_time = now;
    pool.total_staked = new_total;
    Ok(UnstakeEvent { user, amount, timestamp: now })
}

/// Why a claim is refused, if it is; the checks run in this order and the
/// first failure wins.
pub open spec fn claim_error(
    pool: StakingPool,
    staker: StakerInfo,
    rate: u64,
    user: Pubkey,
    now: i64,
) -> Option<StakingError> {
    if user != staker.owner {
        Some(StakingError::UnauthorizedAccess)
    } else if !settle_fits(staker, rate, now) {
        Some(StakingError::CalculationOverflow)
    } else {
        let total = settled(staker, rate, now).accumulated_rewards;
        if total == 0 {
            Some(StakingError::NoRewardsToClaim)
        } else if total * pool.treasury_fee > u64::MAX {
            Some(StakingError::CalculationOverflow)
        } else if staker.rewards_claimed + total > u64::MAX {
            Some(StakingError::CalculationOverflow)
        } else {
            None
        }
    }
}

/// The treasury's cut of a claimed total: the floor of the basis-point
/// fraction `treasury_fee / 10000`.
pub open spec fn claim_fee_of(total: u64, treasury_fee: u64) -> u64 {
    (total * treasury_fee / 10000) as u64
}

/// The staker record after a successful claim: the settled balance drained
/// to zero and added to the lifetime claimed total.
pub open spec fn claim_ok_staker(staker: StakerInfo, rate: u64, now: i64) -> StakerInfo {
    let s = settled(staker, rate, now);
    StakerInfo {
        accumulated_rewards: 0,
        rewards_claimed: (staker.rewards_claimed + s.accumulated_rewards) as u64,
        ..s
    }
}

/// Pays out the staker's settled rewards, splitting them exactly between
/// the staker and the treasury: the treasury takes the floored basis-point
/// fee, the staker the rest, and together the two shares equal the settled
/// total. On success the host owes the event's `amount` to the user and
/// its `treasury_fee`, if nonzero, to the treasury, both from the reward
/// vault. On failure nothing changes. The pool record is read for its fee
/// alone and never written.
pub fn claim_rewards(
    pool: &StakingPool,
    staker: &mut StakerInfo,
    reward_vault: &RewardVault,
    user: Pubkey,
    now: i64,
) -> (r: Result<RewardsClaimedEvent, StakingError>)
    requires
        pool.wf(),
    ensures
        ({
            let rate = reward_vault.rewards_per_second;
            let err = claim_error(*pool, *old(staker), rate, user, now);
            let total = settled(*old(staker), rate, now).accumulated_rewards;
            match r {
                Ok(ev) => {
                    &&& err is None
                    &&& *final(staker) == claim_ok_staker(*old(staker), rate, now)
                    &&& ev == (RewardsClaimedEvent {
                        user,
                        amount: (total - claim_fee_of(total, pool.treasury_fee)) as u64,
                        treasury_fee: claim_fee_of(total, pool.treasury_fee),
                        timestamp: now,
                    })
                    &&& ev.amount + ev.treasury_fee == total
                    &&& final(staker).accumulated_rewards == 0
                },
                Err(e) => {
                    &&& err == Some(e)
                    &&& *final(staker) == *old(staker)
                },
            }
        }),
{
    if !(user == staker.owner) {
        return Err(StakingError::UnauthorizedAccess);
    }
    let pending: u64 = match calculate_pending_rewards(reward_vault, &*staker, now) {
        Ok(p) => p,
        Err(e) => {
            return Err(e);
        },
    };
    let total: u64 = match staker.accumulated_rewards.checked_add(pending) {
        Some(v) => v,
        None => {
            return Err(StakingError::CalculationOverflow);
        },
    };
    if total == 0 {
        return Err(StakingError::NoRewardsToClaim);
    }
    let fee_product: u64 = match total.checked_mul(pool.treasury_fee) {
        Some(v) => v,
        None => {
            return Err(StakingError::CalculationOverflow);
        },
    };
    let treasury_fee: u64 = fee_product / 10000;
    proof {
        lemma_mul_inequality(pool.treasury_fee as int, 10000, total as int);
        assert(total * pool.treasury_fee == pool.treasury_fee * total) by (nonlinear_arith);
        lemma_div_is_ordered(total * pool.treasury_fee, total * 10000, 10000);
        lemma_div_multiples_vanish(total as int, 10000);
        assert(total * 10000 == 10000 * total) by (nonlinear_arith);
        assert(treasury_fee <= total);
    }
    let user_reward: u64 = total - treasury_fee;
    let new_claimed: u64 = match staker.rewards_claimed.checked_add(total) {
        Some(v) => v,
        None => {
            return Err(StakingError::CalculationOverflow);
        },
    };
    staker.accumulated_rewards = 0;
    staker.last_reward_time = now;
    staker.rewards_claimed = new_claimed;
    Ok(RewardsClaimedEvent { user, amount: user_reward, treasury_fee, timestamp: now })
}

/// Why an emergency unstake is refused, if it is: the caller must be the
/// pool's emergency administrator and the staker must have principal.
pub open spec fn emergency_unstake_error(
    pool: StakingPool,
    staker: StakerInfo,
    caller: Pubkey,
) -> Option<StakingError> {
    if caller != pool.emergency_admin {
        Some(StakingError::UnauthorizedAccess)
    } else if staker.amount == 0 {
        Some(StakingError::NoStakeToUnstake)
    } else if pool.total_staked < staker.amount {
        Some(StakingError::CalculationOverflow)
    } else {
        None
    }
}

/// The staker record after an emergency unstake: principal and unclaimed
/// rewards both zeroed — the rewards are discarded, not paid, and the
/// lifetime claimed total does not move.
pub open spec fn emergency_ok_staker(staker: StakerInfo, now: i64) -> StakerInfo {
    StakerInfo { amount: 0, accumulated_rewards: 0, last_reward_time: now, ..staker }
}

/// Returns the staker's full principal without settlement, lock check, or
/// reward payout; only the pool's emergency administrator may call it.
/// On success the host owes a transfer of the event's `amount` from the
/// stake vault back to the user. On failure nothing changes.
pub fn emergency_unstake(
    pool: &mut StakingPool,
    staker: &mut StakerInfo,
    caller: Pubkey,
    now: i64,
) -> (r: Result<EmergencyUnstakeEvent, StakingError>)
    ensures
        ({
            let err = emergency_unstake_error(*old(pool), *old(staker), caller);
            match r {
                Ok(ev) => {
                    &&& err is None
                    &&& *final(staker) == emergency_ok_staker(*old(staker), now)
                    &&& *final(pool) == (StakingPool {
                        total_staked: (old(pool).total_staked - old(staker).amount) as u64,
                        ..*old(pool)
                    })
                    &&& ev == (EmergencyUnstakeEvent {
                        user: old(staker).owner,
                        amount: old(staker).amount,
                        timestamp: now,
                    })
                },
                Err(e) => {
                    &&& err == Some(e)
                    &&& *final(staker) == *old(staker)
                    &&& *final(pool) == *old(pool)
                },
            }
        }),
{
    if !(caller == pool.emergency_admin) {
        return Err(StakingError::UnauthorizedAccess);
    }
    let amount: u64 = staker.amount;
    if amount == 0 {
        return Err(StakingError::NoStakeToUnstake);
    }
    let new_total: u64 = match pool.total_staked.checked_sub(amount) {
        Some(v) => v,
        None => {
            return Err(StakingError::CalculationOverflow);
        },
    };
    staker.amount = 0;
    staker.accumulated_rewards = 0;
    staker.last_reward_time = now;
    pool.total_staked = new_total;
    Ok(EmergencyUnstakeEvent { user: staker.owner, amount, timestamp: now })
}

/// Round trip: a stake of `amount` into an empty record, followed at or
/// after the unlock time by an unstake of the same `amount`, is accepted
/// and returns the pool's total to its old value and the record to an
/// empty principal. The one extra premise is that the later settlement's
/// arithmetic fits its machine widths.
pub proof fn lemma_stake_unstake_round_trip(
    pool: StakingPool,
    staker: StakerInfo,
    rate: u64,
    user: Pubkey,
    amount: u64,
    lock_period: i64,
    now: i64,
    later: i64,
)
    requires
        staker.amount == 0,
        stake_error(pool, staker, rate, user, amount, lock_period, now) is None,
        later >= stake_ok_staker(staker, rate, amount, lock_period, now, pool).unlock_time,
        settle_fits(stake_ok_staker(staker, rate, amount, lock_period, now, pool), rate, later),
    ensures
        unstake_error(
            stake_ok_pool(pool, amount),
            stake_ok_staker(staker, rate, amount, lock_period, now, pool),
            rate,
            user,
            amount,
            later,
        ) is None,
        unstake_ok_staker(
            stake_ok_staker(staker, rate, amount, lock_period, now, pool),
            rate,
            amount,
            later,
        ).amount == 0,
        unstake_ok_pool(stake_ok_pool(pool, amount), amount).total_staked == pool.total_staked,
{
}

} // verus!
