//! The two kinds of record the ledger keeps: the one [`Vault`] and one
//! [`StakeAccount`] for each staker.

use vstd::prelude::*;
use crate::identity::Identity;

verus! {

/// Least amount a funded record may hold: ten whole units of 10^9 base units.
pub const MINIMUM_STAKE: u64 = 10_000_000_000;

/// The protocol-wide totals. There is one vault; every operation is handed it.
#[derive(Clone, Copy, Debug, PartialEq, Eq)]
pub struct Vault {
    /// Who may distribute yield and pause the vault.
    pub authority: Identity,
    /// Principal currently staked, over all records.
    pub total_staked: u64,
    /// Everything ever booked into the staker pool, claimed or not.
    pub total_yield_distributed: u64,
    /// Everything ever booked into the subsidy pool.
    pub total_subsidy_pool: u64,
    /// Everything ever booked into the reserve.
    pub total_reserve: u64,
    /// Number of records that hold a stake.
    pub staker_count: u32,
    /// When yield was last distributed; zero before the first distribution.
    pub last_yield_distribution: i64,
    /// While set, deposits and withdrawals are refused.
    pub is_paused: bool,
}

/// One staker's balance and history. A record outlives its stake: after a full
/// withdrawal it stays, empty, and a later deposit fills it again.
#[derive(Clone, Copy, Debug, PartialEq, Eq)]
pub struct StakeAccount {
    /// The staker the record belongs to. No operation changes it.
    pub staker: Identity,
    /// Principal currently staked.
    pub amount: u64,
    /// When the record was first funded; `None` until then, and never set again.
    pub deposited_at: Option<i64>,
    /// When the staker last deposited or was last paid yield; zero before.
    pub last_yield_claim: i64,
    /// Yield paid to the staker so far.
    pub total_yield_claimed: u64,
}

impl Vault {
    /// The vault as it is created: nothing staked, nothing distributed, not
    /// paused.
    pub open spec fn genesis(authority: Identity) -> Vault {
        Vault {
            authority,
            total_staked: 0,
            total_yield_distributed: 0,
            total_subsidy_pool: 0,
            total_reserve: 0,
            staker_count: 0,
            last_yield_distribution: 0,
            is_paused: false,
        }
    }
}

impl StakeAccount {
    /// The record of a staker who has never deposited.
    pub open spec fn empty(staker: Identity) -> StakeAccount {
        StakeAccount {
            staker,
            amount: 0,
            deposited_at: None,
            last_yield_claim: 0,
            total_yield_claimed: 0,
        }
    }

    /// The stake is either nothing or at least [`MINIMUM_STAKE`], and a record
    /// that holds a stake knows when it was first funded. New records are like
    /// this and every operation keeps them so.
    pub open spec fn well_formed(self) -> bool {
        &&& self.amount == 0 || self.amount >= MINIMUM_STAKE
        &&& self.amount > 0 ==> self.deposited_at is Some
    }

    /// Opens the record of `staker`, with no stake in it. A host that finds no
    /// record for a depositor starts from this one.
    pub fn new(staker: Identity) -> (record: StakeAccount)
        ensures
            record == StakeAccount::empty(staker),
            record.well_formed(),
    {
        StakeAccount {
            staker,
            amount: 0,
            deposited_at: None,
            last_yield_claim: 0,
            total_yield_claimed: 0,
        }
    }
}

} // verus!
