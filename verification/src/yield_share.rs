//! What a staker may claim from the staker pool.
//!
//! The entitlement is recomputed on every claim from the staker's current share
//! of the vault and from the vault's lifetime staker pool. Earlier claims are not
//! deducted and the pool is not debited, so the amounts claimed over time are not
//! bounded by what was distributed. The rest of the crate reaches this rule only
//! through [`claimable_yield`] and [`claimable_of`], so another scheme can take
//! its place here.

use vstd::prelude::*;
use crate::basis_points::{bps_of, bps_share, BPS_DENOMINATOR};

verus! {

/// A stake's share of the vault in basis points, rounded down.
pub open spec fn share_bps_of(amount: int, total_staked: int) -> int {
    amount * (BPS_DENOMINATOR as int) / total_staked
}

/// The yield a stake of `amount` may claim when the vault holds `total_staked`
/// and `total_yield_distributed` has gone to the staker pool: the pool scaled by
/// the stake's share, both steps rounded down.
pub open spec fn claimable_of(amount: int, total_staked: int, total_yield_distributed: int) -> int {
    bps_of(total_yield_distributed, share_bps_of(amount, total_staked))
}

/// A stake that is part of the vault's total has a share of at most the whole.
pub proof fn lemma_share_bps_bounded(amount: int, total_staked: int)
    requires
        0 <= amount <= total_staked,
        0 < total_staked,
    ensures
        0 <= share_bps_of(amount, total_staked) <= BPS_DENOMINATOR,
{
    assert(0 <= amount * 10000 / total_staked <= 10000) by (nonlinear_arith)
        requires
            0 <= amount <= total_staked,
            0 < total_staked,
    ;
}

/// A stake's share of the vault in basis points, rounded down.
pub fn stake_share_bps(amount: u64, total_staked: u64) -> (bps: u16)
    requires
        0 < total_staked,
        amount <= total_staked,
    ensures
        bps == share_bps_of(amount as int, total_staked as int),
        bps <= BPS_DENOMINATOR,
{
    proof {
        lemma_share_bps_bounded(amount as int, total_staked as int);
    }
    let scaled: u128 = (amount as u128) * (BPS_DENOMINATOR as u128);
    let bps: u128 = scaled / (total_staked as u128);
    bps as u16
}

/// The yield a stake of `amount` may claim; see [`claimable_of`].
pub fn claimable_yield(amount: u64, total_staked: u64, total_yield_distributed: u64) -> (claimable:
    u64)
    requires
        0 < total_staked,
        amount <= total_staked,
    ensures
        claimable == claimable_of(
            amount as int,
            total_staked as int,
            total_yield_distributed as int,
        ),
        claimable <= total_yield_distributed,
{
    let bps = stake_share_bps(amount, total_staked);
    bps_share(total_yield_distributed, bps)
}

} // verus!
