//! What the ledger reports of each completed operation. The host publishes these
//! and carries out the transfer that each of them calls for; the ledger never
//! reads them back.

use vstd::prelude::*;
use crate::identity::Identity;

verus! {

/// A deposit was booked: `amount` is owed by `staker` to the treasury.
#[derive(Clone, Copy, Debug, PartialEq, Eq)]
pub struct StakeDeposited {
    pub staker: Identity,
    pub amount: u64,
    /// The staker's stake after the deposit.
    pub total_staked: u64,
    pub timestamp: i64,
}

/// A withdrawal was booked: `amount` is owed by the treasury to `staker`.
#[derive(Clone, Copy, Debug, PartialEq, Eq)]
pub struct StakeWithdrawn {
    pub staker: Identity,
    pub amount: u64,
    /// The staker's stake after the withdrawal.
    pub remaining_stake: u64,
    pub timestamp: i64,
}

/// Yield was booked into the three pools.
#[derive(Clone, Copy, Debug, PartialEq, Eq)]
pub struct YieldDistributed {
    pub total_yield: u64,
    pub staker_share: u64,
    pub subsidy_share: u64,
    pub reserve_share: u64,
    pub timestamp: i64,
}

/// Yield was paid out: `amount` is owed by the treasury to `staker`.
#[derive(Clone, Copy, Debug, PartialEq, Eq)]
pub struct YieldClaimed {
    pub staker: Identity,
    pub amount: u64,
    pub timestamp: i64,
}

} // verus!
