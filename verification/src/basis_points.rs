//! Fixed-point percentages: a part of a value in basis points, where
//! [`BPS_DENOMINATOR`] basis points are the whole.

use vstd::prelude::*;

verus! {

/// Share of distributed yield that goes to the staker pool.
pub const STAKER_YIELD_BPS: u16 = 7000;

/// Share of distributed yield that goes to the subsidy pool.
pub const SUBSIDY_BPS: u16 = 2000;

/// Nominal share of the reserve. The reserve is never computed from it: it takes
/// whatever the other two pools leave, which is at least this share.
pub const RESERVE_BPS: u16 = 1000;

/// Number of basis points in the whole.
pub const BPS_DENOMINATOR: u16 = 10000;

/// `bps` basis points of `value`, rounded down.
pub open spec fn bps_of(value: int, bps: int) -> int {
    value * bps / (BPS_DENOMINATOR as int)
}

/// The three pools' parts of one yield distribution.
#[derive(Clone, Copy, Debug, PartialEq, Eq)]
pub struct YieldSplit {
    pub staker_share: u64,
    pub subsidy_share: u64,
    pub reserve_share: u64,
}

/// How a yield of `total_yield` is divided: the staker and subsidy pools get their
/// basis points rounded down, the reserve gets the rest.
pub open spec fn split_of(total_yield: u64) -> YieldSplit {
    let staker = bps_of(total_yield as int, STAKER_YIELD_BPS as int);
    let subsidy = bps_of(total_yield as int, SUBSIDY_BPS as int);
    YieldSplit {
        staker_share: staker as u64,
        subsidy_share: subsidy as u64,
        reserve_share: (total_yield - staker - subsidy) as u64,
    }
}

/// A part of at most the whole never exceeds the value it is taken from.
pub proof fn lemma_bps_of_bounded(value: int, bps: int)
    requires
        0 <= value,
        0 <= bps <= BPS_DENOMINATOR,
    ensures
        0 <= bps_of(value, bps) <= value,
{
    assert(0 <= value * bps <= value * 10000) by (nonlinear_arith)
        requires
            0 <= value,
            0 <= bps <= 10000,
    ;
}

/// The three shares of a distribution add up to what was distributed, whatever
/// is lost to rounding in the first two, and the reserve gets at least its
/// nominal share.
pub proof fn lemma_split_is_exact(total_yield: u64)
    ensures
        split_of(total_yield).staker_share == bps_of(total_yield as int, STAKER_YIELD_BPS as int),
        split_of(total_yield).subsidy_share == bps_of(total_yield as int, SUBSIDY_BPS as int),
        split_of(total_yield).staker_share + split_of(total_yield).subsidy_share + split_of(
            total_yield,
        ).reserve_share == total_yield,
        split_of(total_yield).reserve_share >= bps_of(total_yield as int, RESERVE_BPS as int),
{
}

/// `bps` basis points of `value`, rounded down. The product is formed in 128 bits,
/// so it is exact for every `value`.
pub fn bps_share(value: u64, bps: u16) -> (part: u64)
    requires
        bps <= BPS_DENOMINATOR,
    ensures
        part == bps_of(value as int, bps as int),
        part <= value,
{
    proof {
        lemma_bps_of_bounded(value as int, bps as int);
        assert(value * bps <= 0xffff_ffff_ffff_ffff * 10000) by (nonlinear_arith)
            requires
                0 <= value <= 0xffff_ffff_ffff_ffff,
                0 <= bps <= 10000,
        ;
    }
    let product: u128 = (value as u128) * (bps as u128);
    let part: u128 = product / (BPS_DENOMINATOR as u128);
    part as u64
}

/// Divides `total_yield` among the three pools. Rounding never loses anything:
/// the shares add up to `total_yield`.
pub fn split_yield(total_yield: u64) -> (split: YieldSplit)
    ensures
        split == split_of(total_yield),
        split.staker_share == bps_of(total_yield as int, STAKER_YIELD_BPS as int),
        split.subsidy_share == bps_of(total_yield as int, SUBSIDY_BPS as int),
        split.staker_share + split.subsidy_share + split.reserve_share == total_yield,
{
    let staker_share = bps_share(total_yield, STAKER_YIELD_BPS);
    let subsidy_share = bps_share(total_yield, SUBSIDY_BPS);
    let reserve_share = total_yield - staker_share - subsidy_share;
    YieldSplit { staker_share, subsidy_share, reserve_share }
}

} // verus!
