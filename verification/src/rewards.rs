//! Reward math: tier classification, the two bonus tables, and the
//! pending-reward formula. Everything here is a pure, deterministic function
//! of its arguments; the operations in `instructions` sequence these against
//! the ledger records.

use vstd::prelude::*;
use vstd::arithmetic::mul::{
    lemma_mul_inequality, lemma_mul_nonnegative, lemma_mul_upper_bound,
};
use vstd::arithmetic::div_mod::{lemma_div_is_ordered, lemma_div_pos_is_pos};
use crate::SECONDS_PER_DAY;
use crate::errors::StakingError;
use crate::state::{RewardVault, StakerInfo};

verus! {

/// Tier index (the `tier` field of a staker record) as a function of the
/// staked amount. Thresholds are in minor units of a six-decimal asset:
/// 10,000 / 50,000 / 100,000 / 500,000 whole tokens. A boundary amount
/// belongs to the higher tier.
pub open spec fn tier_of(amount: u64) -> u8 {
    if amount >= 500_000_000_000 {
        4
    } else if amount >= 100_000_000_000 {
        3
    } else if amount >= 50_000_000_000 {
        2
    } else if amount >= 10_000_000_000 {
        1
    } else {
        0
    }
}

/// Derives the tier index for a staked amount.
pub fn calculate_tier(amount: u64) -> (tier: u8)
    ensures
        tier == tier_of(amount),
{
    if amount >= 500_000_000_000 {
        4
    } else if amount >= 100_000_000_000 {
        3
    } else if amount >= 50_000_000_000 {
        2
    } else if amount >= 10_000_000_000 {
        1
    } else {
        0
    }
}

/// Reward bonus of each tier, in basis points. An index outside the five
/// defined tiers earns no bonus.
pub open spec fn tier_bonus_of(tier: u8) -> u64 {
    if tier == 1 {
        500
    } else if tier == 2 {
        1000
    } else if tier == 3 {
        2000
    } else if tier == 4 {
        3000
    } else {
        0
    }
}

/// Looks up the tier's reward bonus in basis points.
pub fn get_tier_bonus(tier: u8) -> (bonus: u64)
    ensures
        bonus == tier_bonus_of(tier),
{
    match tier {
        1 => 500,
        2 => 1000,
        3 => 2000,
        4 => 3000,
        _ => 0,
    }
}

/// Lock-commitment bonus, in basis points, bucketed by whole days:
/// under 30 days earns nothing, then 30 / 90 / 180 / 365 days step up to
/// 500 / 1000 / 2000 / 3000. Day counts truncate toward zero, so a lock
/// period at or below minus one whole day lands past the last threshold
/// and earns the top bonus; between minus a day and zero it truncates to
/// day zero and earns none.
pub open spec fn lock_bonus_of(lock_period: i64) -> u64 {
    if lock_period <= -SECONDS_PER_DAY {
        3000
    } else if lock_period < 30 * SECONDS_PER_DAY {
        0
    } else if lock_period < 90 * SECONDS_PER_DAY {
        500
    } else if lock_period < 180 * SECONDS_PER_DAY {
        1000
    } else if lock_period < 365 * SECONDS_PER_DAY {
        2000
    } else {
        3000
    }
}

/// Looks up the lock-period bonus in basis points.
pub fn calculate_lock_bonus(lock_period: i64) -> (bonus: u64)
    ensures
        bonus == lock_bonus_of(lock_period),
{
    if lock_period <= -SECONDS_PER_DAY {
        3000
    } else if lock_period < 30 * SECONDS_PER_DAY {
        0
    } else if lock_period < 90 * SECONDS_PER_DAY {
        500
    } else if lock_period < 180 * SECONDS_PER_DAY {
        1000
    } else if lock_period < 365 * SECONDS_PER_DAY {
        2000
    } else {
        3000
    }
}

/// The combined reward multiplier in basis points: a base of 10,000 (100%)
/// plus the tier bonus, a flat 1,000 for early adopters, and the lock bonus.
/// Always between 10,000 and 17,000.
pub open spec fn multiplier_of(tier: u8, is_early_adopter: bool, lock_period: i64) -> int {
    10000 + tier_bonus_of(tier) + (if is_early_adopter {
        1000int
    } else {
        0int
    }) + lock_bonus_of(lock_period)
}

/// Seconds of accrual between the settlement high-water mark and `now`;
/// never negative, and zero whenever `now` is not past the mark.
pub open spec fn elapsed_of(last_reward_time: i64, now: i64) -> int {
    if now <= last_reward_time {
        0
    } else {
        now - last_reward_time
    }
}

/// The pending reward as a mathematical integer: zero with nothing staked
/// or no time elapsed, otherwise
/// `floor(rate * elapsed * amount * multiplier / 10000)`.
pub open spec fn pending_value(
    rate: u64,
    elapsed: int,
    amount: u64,
    tier: u8,
    is_early_adopter: bool,
    lock_period: i64,
) -> int {
    if amount == 0 || elapsed <= 0 {
        0
    } else {
        rate * elapsed * amount * multiplier_of(tier, is_early_adopter, lock_period) / 10000
    }
}

/// Whether the pending-reward computation stays within its machine widths:
/// the base product `rate * elapsed * amount` and its product with the
/// multiplier must fit the 128-bit intermediates, and the final reward must
/// fit 64 bits. Anything wider is a hard arithmetic failure, never a
/// truncation.
pub open spec fn pending_fits(
    rate: u64,
    elapsed: int,
    amount: u64,
    tier: u8,
    is_early_adopter: bool,
    lock_period: i64,
) -> bool {
    amount == 0 || elapsed <= 0 || {
        let base = rate * elapsed * amount;
        &&& base <= u128::MAX
        &&& base * multiplier_of(tier, is_early_adopter, lock_period) <= u128::MAX
        &&& pending_value(rate, elapsed, amount, tier, is_early_adopter, lock_period)
            <= u64::MAX
    }
}

/// Computes the reward accrued by `staker` between its settlement
/// high-water mark and `current_time` at the vault's emission rate.
/// Returns exactly the mathematical pending value, or
/// `CalculationOverflow` precisely when that computation leaves its
/// machine widths.
pub fn calculate_pending_rewards(
    reward_vault: &RewardVault,
    staker: &StakerInfo,
    current_time: i64,
) -> (r: Result<u64, StakingError>)
    ensures
        ({
            let rate = reward_vault.rewards_per_second;
            let elapsed = elapsed_of(staker.last_reward_time, current_time);
            if pending_fits(rate, elapsed, staker.amount, staker.tier, staker.is_early_adopter,
                staker.lock_period) {
                r == Ok::<u64, StakingError>(
                    pending_value(rate, elapsed, staker.amount, staker.tier,
                        staker.is_early_adopter, staker.lock_period) as u64,
                )
            } else {
                r == Err::<u64, StakingError>(StakingError::CalculationOverflow)
            }
        }),
{
    if staker.amount == 0 || current_time <= staker.last_reward_time {
        return Ok(0);
    }
    let ghost elapsed = elapsed_of(staker.last_reward_time, current_time);
    assert(0 < elapsed <= u64::MAX);
    let time_delta: u64 = ((current_time as i128) - (staker.last_reward_time as i128)) as u64;
    assert(time_delta == elapsed);

    let rate: u64 = reward_vault.rewards_per_second;
    proof {
        lemma_mul_upper_bound(rate as int, u64::MAX as int, time_delta as int, u64::MAX as int);
    }
    let rate_times_delta: u128 = (rate as u128) * (time_delta as u128);
    let base: u128 = match rate_times_delta.checked_mul(staker.amount as u128) {
        Some(b) => b,
        None => {
            return Err(StakingError::CalculationOverflow);
        },
    };

    let mut multiplier: u64 = 10000;
    multiplier = multiplier + get_tier_bonus(staker.tier);
    if staker.is_early_adopter {
        multiplier = multiplier + 1000;
    }
    multiplier = multiplier + calculate_lock_bonus(staker.lock_period);
    assert(multiplier == multiplier_of(staker.tier, staker.is_early_adopter, staker.lock_period));

    let wide: u128 = match base.checked_mul(multiplier as u128) {
        Some(w) => w,
        None => {
            return Err(StakingError::CalculationOverflow);
        },
    };
    let reward: u128 = wide / 10000;
    if reward > u64::MAX as u128 {
        return Err(StakingError::CalculationOverflow);
    }
    Ok(reward as u64)
}

/// Holding the rate, amount, and bonus inputs fixed, the pending reward
/// never shrinks as more time elapses.
pub proof fn lemma_pending_monotonic_in_elapsed(
    rate: u64,
    elapsed1: int,
    elapsed2: int,
    amount: u64,
    tier: u8,
    is_early_adopter: bool,
    lock_period: i64,
)
    requires
        0 <= elapsed1 <= elapsed2,
    ensures
        pending_value(rate, elapsed1, amount, tier, is_early_adopter, lock_period)
            <= pending_value(rate, elapsed2, amount, tier, is_early_adopter, lock_period),
{
    let m = multiplier_of(tier, is_early_adopter, lock_period);
    assert(10000 <= m <= 17000);
    if amount == 0 || elapsed2 <= 0 {
    } else if elapsed1 <= 0 {
        lemma_mul_nonnegative(rate as int, elapsed2);
        lemma_mul_nonnegative(rate * elapsed2, amount as int);
        lemma_mul_nonnegative(rate * elapsed2 * amount, m);
        lemma_div_pos_is_pos(rate * elapsed2 * amount * m, 10000);
    } else {
        lemma_mul_inequality(elapsed1, elapsed2, rate as int);
        assert(rate * elapsed1 <= rate * elapsed2);
        lemma_mul_inequality(rate * elapsed1, rate * elapsed2, amount as int);
        assert(rate * elapsed1 * amount <= rate * elapsed2 * amount);
        lemma_mul_inequality(rate * elapsed1 * amount, rate * elapsed2 * amount, m);
        lemma_div_is_ordered(
            rate * elapsed1 * amount * m,
            rate * elapsed2 * amount * m,
            10000,
        );
    }
}

/// Holding the rate, elapsed time, and bonus inputs fixed, the pending
/// reward never shrinks as the staked amount grows.
pub proof fn lemma_pending_monotonic_in_amount(
    rate: u64,
    elapsed: int,
    amount1: u64,
    amount2: u64,
    tier: u8,
    is_early_adopter: bool,
    lock_period: i64,
)
    requires
        amount1 <= amount2,
    ensures
        pending_value(rate, elapsed, amount1, tier, is_early_adopter, lock_period)
            <= pending_value(rate, elapsed, amount2, tier, is_early_adopter, lock_period),
{
    let m = multiplier_of(tier, is_early_adopter, lock_period);
    assert(10000 <= m <= 17000);
    if elapsed <= 0 || amount2 == 0 {
    } else if amount1 == 0 {
        lemma_mul_nonnegative(rate as int, elapsed);
        lemma_mul_nonnegative(rate * elapsed, amount2 as int);
        lemma_mul_nonnegative(rate * elapsed * amount2, m);
        lemma_div_pos_is_pos(rate * elapsed * amount2 * m, 10000);
    } else {
        lemma_mul_nonnegative(rate as int, elapsed);
        lemma_mul_inequality(amount1 as int, amount2 as int, rate * elapsed);
        assert(amount1 * (rate * elapsed) <= amount2 * (rate * elapsed));
        assert(rate * elapsed * amount1 <= rate * elapsed * amount2);
        lemma_mul_inequality(rate * elapsed * amount1, rate * elapsed * amount2, m);
        lemma_div_is_ordered(
            rate * elapsed * amount1 * m,
            rate * elapsed * amount2 * m,
            10000,
        );
    }
}

/// Tier classification is a step function of the amount: the tier index is
/// settled entirely by which of the five threshold buckets the amount falls
/// in, a threshold amount itself landing in the higher bucket.
pub proof fn lemma_tier_thresholds(amount: u64)
    ensures
        tier_of(amount) == 0 <==> amount < 10_000_000_000,
        tier_of(amount) == 1 <==> 10_000_000_000 <= amount < 50_000_000_000,
        tier_of(amount) == 2 <==> 50_000_000_000 <= amount < 100_000_000_000,
        tier_of(amount) == 3 <==> 100_000_000_000 <= amount < 500_000_000_000,
        tier_of(amount) == 4 <==> amount >= 500_000_000_000,
{
}

/// Two amounts in the same threshold bucket classify into the same tier.
pub proof fn lemma_tier_step(amount1: u64, amount2: u64)
    requires
        (amount1 < 10_000_000_000 && amount2 < 10_000_000_000)
            || (10_000_000_000 <= amount1 < 50_000_000_000
                && 10_000_000_000 <= amount2 < 50_000_000_000)
            || (50_000_000_000 <= amount1 < 100_000_000_000
                && 50_000_000_000 <= amount2 < 100_000_000_000)
            || (100_000_000_000 <= amount1 < 500_000_000_000
                && 100_000_000_000 <= amount2 < 500_000_000_000)
            || (amount1 >= 500_000_000_000 && amount2 >= 500_000_000_000),
    ensures
        tier_of(amount1) == tier_of(amount2),
{
}

} // verus!
