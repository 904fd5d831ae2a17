//! The error taxonomy. Every operation fails fast with one of these and
//! leaves all records exactly as they were.

use vstd::prelude::*;

verus! {

/// Why an operation was refused. Each variant is terminal for the invoking
/// operation; nothing is retried internally.
#[derive(Clone, Copy, PartialEq, Eq, Structural, Debug)]
pub enum StakingError {
    /// The stake deposit is below `MIN_STAKE_AMOUNT`.
    BelowMinimumStake,
    /// The requested lock period is shorter than the pool's minimum.
    LockPeriodTooShort,
    /// The pool is paused and takes no new stakes.
    PoolPaused,
    /// A checked arithmetic step overflowed or underflowed.
    CalculationOverflow,
    /// The caller is not the identity the operation demands.
    UnauthorizedAccess,
    /// A token account handed to the host does not belong where it must.
    InvalidTokenAccount,
    /// The stake's lock period has not elapsed yet.
    StakeLocked,
    /// The withdrawal asks for more than is staked.
    InsufficientStakeBalance,
    /// A claim found a zero reward balance.
    NoRewardsToClaim,
    /// An emergency unstake found a zero principal.
    NoStakeToUnstake,
    /// A tier index outside the five defined classes.
    InvalidStakeTier,
    /// A lock-period configuration value out of range.
    InvalidLockPeriod,
    /// A rewards-multiplier configuration value out of range.
    InvalidRewardsMultiplier,
    /// A treasury fee above 10,000 basis points.
    InvalidTreasuryFee,
    /// A reward-rate configuration value out of range.
    InvalidRewardRate,
}

} // verus!
