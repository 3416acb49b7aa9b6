//! A custodial staking ledger.
//!
//! Stakers deposit a native value unit into a vault, the vault's authority books
//! yield into three pools, and stakers withdraw principal or claim their share of
//! the staker pool. This crate is the accounting core: every operation is a
//! verified state transition over a [`Vault`] and one [`StakeAccount`], and the
//! `ledger` module proves that the vault's totals stay equal to what the records
//! hold. Moving value, storing records, reading the clock and publishing events
//! are left to the host.

pub mod basis_points;
pub mod error;
pub mod events;
pub mod identity;
pub mod ledger;
pub mod operations;
pub mod state;
pub mod yield_share;

pub use basis_points::{
    bps_share, split_yield, YieldSplit, BPS_DENOMINATOR, RESERVE_BPS, STAKER_YIELD_BPS,
    SUBSIDY_BPS,
};
pub use error::PrimisError;
pub use events::{StakeDeposited, StakeWithdrawn, YieldClaimed, YieldDistributed};
pub use identity::Identity;
pub use operations::{
    claim_in_range, claim_yield, deposit, deposit_in_range, distribute_in_range,
    distribute_yield, initialize, set_paused, withdraw, withdraw_in_range,
};
pub use state::{StakeAccount, Vault, MINIMUM_STAKE};
pub use yield_share::{claimable_yield, stake_share_bps};
