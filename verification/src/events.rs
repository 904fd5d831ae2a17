//! Notification records. Each successful operation returns one, carrying its
//! key quantities and timestamp; the host appends them for outside observers.
//! Nothing in the ledger ever reads one back.

use vstd::prelude::*;
use crate::state::Pubkey;

verus! {

/// A pool was created.
#[derive(Clone, Copy, PartialEq, Eq, Debug)]
pub struct PoolInitializedEvent {
    pub authority: Pubkey,
    pub treasury: Pubkey,
    pub launch_timestamp: i64,
}

/// A staker record was created.
#[derive(Clone, Copy, PartialEq, Eq, Debug)]
pub struct StakeAccountCreatedEvent {
    pub owner: Pubkey,
    pub delegated_authority: Option<Pubkey>,
}

/// Principal was staked.
#[derive(Clone, Copy, PartialEq, Eq, Debug)]
pub struct StakeEvent {
    pub user: Pubkey,
    pub amount: u64,
    pub timestamp: i64,
    pub tier: u8,
    pub lock_period: i64,
}

/// Principal was withdrawn.
#[derive(Clone, Copy, PartialEq, Eq, Debug)]
pub struct UnstakeEvent {
    pub user: Pubkey,
    pub amount: u64,
    pub timestamp: i64,
}

/// Rewards were claimed. `amount` is the staker's share after the fee.
#[derive(Clone, Copy, PartialEq, Eq, Debug)]
pub struct RewardsClaimedEvent {
    pub user: Pubkey,
    pub amount: u64,
    pub treasury_fee: u64,
    pub timestamp: i64,
}

/// An administrator returned a staker's full principal, discarding the
/// staker's unclaimed rewards.
#[derive(Clone, Copy, PartialEq, Eq, Debug)]
pub struct EmergencyUnstakeEvent {
    pub user: Pubkey,
    pub amount: u64,
    pub timestamp: i64,
}

/// The pool's configuration was changed by its authority.
#[derive(Clone, Copy, PartialEq, Eq, Debug)]
pub struct StakingPoolConfigUpdatedEvent {
    pub authority: Pubkey,
    pub min_stake_duration: i64,
    pub max_stake_duration: i64,
    pub rewards_multiplier: u64,
    pub treasury_fee: u64,
    pub timestamp: i64,
}

/// The reward source's emission rate was changed.
#[derive(Clone, Copy, PartialEq, Eq, Debug)]
pub struct RewardVaultUpdatedEvent {
    pub authority: Pubkey,
    pub rewards_per_second: u64,
    pub timestamp: i64,
}

} // verus!
