//! The ledger records: one pool, one reward source, and one record per
//! staker. All fields are plain values; the host maps its own account and
//! identity types onto these before calling an operation.

use vstd::prelude::*;

verus! {

/// A 256-bit identity (an account address), stored as two 128-bit halves.
/// The ledger only ever compares identities for equality.
#[derive(Clone, Copy, PartialEq, Eq, Structural, Debug)]
pub struct Pubkey {
    pub hi: u128,
    pub lo: u128,
}

/// Pool-wide aggregate state and configuration. One instance per pool.
#[derive(Clone, Copy, PartialEq, Eq, Debug)]
pub struct StakingPool {
    /// Identity allowed to change the pool's configuration.
    pub authority: Pubkey,
    /// Identity credited with the treasury's cut of claimed rewards.
    pub treasury: Pubkey,
    /// Sole identity allowed to perform an emergency unstake.
    pub emergency_admin: Pubkey,
    /// Sum of the `amount` fields of all staker records.
    pub total_staked: u64,
    /// Lifetime total of rewards paid out; reserved, no operation writes it.
    pub total_rewards_distributed: u64,
    /// Time the pool was created.
    pub launch_timestamp: i64,
    /// Stakes made at or before this time earn the early-adopter bonus.
    pub early_adopter_deadline: i64,
    /// While set, new stakes are refused.
    pub paused: bool,
    /// Smallest lock period a stake may commit to.
    pub min_stake_duration: i64,
    /// Largest lock period; recorded but not enforced at stake time.
    pub max_stake_duration: i64,
    /// Number of stake deposits made over the pool's lifetime.
    pub stake_count: u64,
    /// Basis-point configuration value; reserved, not read by the reward math.
    pub rewards_multiplier: u64,
    /// Treasury's cut of claimed rewards, in basis points; at most 10,000.
    pub treasury_fee: u64,
}

impl StakingPool {
    /// Configuration invariant: the treasury fee is a valid basis-point
    /// fraction. `initialize_pool` establishes it; no operation changes
    /// the fee.
    pub open spec fn wf(self) -> bool {
        self.treasury_fee <= 10000
    }
}

/// Per-user stake record, created once and mutated only by that user's own
/// operations or the emergency-admin path.
#[derive(Clone, Copy, PartialEq, Eq, Debug)]
pub struct StakerInfo {
    /// Identity the record is bound to.
    pub owner: Pubkey,
    /// Optional secondary identity; reserved, no operation reads it.
    pub delegated_authority: Option<Pubkey>,
    /// Currently staked principal.
    pub amount: u64,
    /// Time of the most recent stake.
    pub start_time: i64,
    /// High-water mark: rewards are settled up to this time.
    pub last_reward_time: i64,
    /// Lifetime total of rewards paid out to this staker.
    pub rewards_claimed: u64,
    /// Tier index derived from the amount at the last stake; not lowered
    /// when principal is withdrawn.
    pub tier: u8,
    /// Whether the most recent stake happened before the pool's
    /// early-adopter deadline.
    pub is_early_adopter: bool,
    /// Settled-but-unclaimed reward balance.
    pub accumulated_rewards: u64,
    /// Lock committed to at the last stake, in seconds.
    pub lock_period: i64,
    /// Absolute time before which the principal cannot be withdrawn.
    pub unlock_time: i64,
    /// Reserved for special-event multipliers; no operation writes it.
    pub boost_factor: u64,
    /// Reserved for a loyalty-points system; no operation writes it.
    pub staking_points: u64,
}

/// The reward source shared by all stakers of a pool.
#[derive(Clone, Copy, PartialEq, Eq, Debug)]
pub struct RewardVault {
    /// Base emission rate the pending-reward formula consumes.
    pub rewards_per_second: u64,
    /// Reserved for a share-based accrual model; not read by the current
    /// reward math.
    pub last_update_time: i64,
    /// Reserved for a share-based accrual model; not read by the current
    /// reward math.
    pub accumulated_rewards_per_share: u128,
}

/// The five reward-bonus classes a staker's `tier` index ranges over, in
/// ascending order of staked amount.
#[derive(Clone, Copy, PartialEq, Eq, Structural, Debug)]
pub enum StakingTier {
    Bronze,
    Silver,
    Gold,
    Platinum,
    Diamond,
}

/// Pool configuration consumed once at creation.
#[derive(Clone, Copy, PartialEq, Eq, Debug)]
pub struct PoolConfig {
    /// Length of the early-adopter window, counted from the launch time.
    pub early_adopter_period: i64,
    /// Smallest lock period a stake may commit to.
    pub min_stake_duration: i64,
    /// Largest lock period; recorded but not enforced at stake time.
    pub max_stake_duration: i64,
    /// Basis-point configuration value; reserved.
    pub rewards_multiplier: u64,
    /// Treasury's cut of claimed rewards, in basis points.
    pub treasury_fee: u64,
}

} // verus!
