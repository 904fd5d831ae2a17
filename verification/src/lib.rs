//! A token-staking ledger: per-user stake records, pool-wide aggregates, and
//! a deterministic, overflow-checked reward-accrual engine.
//!
//! The crate holds the bookkeeping core alone. Moving the asset itself,
//! reading the clock, and persisting the records are the host's business:
//! every operation here is a pure transition from the loaded records, the
//! caller's identity, and a single timestamp to the next records and the
//! transfer amounts the host must carry out.

use vstd::prelude::*;

pub mod errors;
pub mod events;
pub mod instructions;
pub mod rewards;
pub mod state;

verus! {

/// Smallest deposit a single stake may carry, in minor units of the asset.
pub const MIN_STAKE_AMOUNT: u64 = 100_000_000;

/// Length of a whole day in seconds; lock-period bonuses are bucketed by day.
pub const SECONDS_PER_DAY: i64 = 86400;

} // verus!
