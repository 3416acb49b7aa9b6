//! The operations of the ledger. Each one checks its preconditions in a fixed
//! order, refuses with the first that fails and changes nothing, or else books
//! the whole change and reports it as an event.
//!
//! An operation that moves value says so in its event and moves nothing itself.
//! A host that cannot undo a booking runs the operation on copies of its
//! records, makes the transfer, and stores the copies only when the transfer
//! went through.
//!
//! The totals are 64-bit counters, and an operation that is accepted must be able
//! to book its change in them. What that asks of the caller is the operation's
//! `..._fits` predicate. It holds whenever the operation refuses, the
//! `..._in_range` function beside each operation tests it at run time, and the
//! `ledger` module shows how far a vault that agrees with its records meets it
//! by itself.

use vstd::prelude::*;
use crate::basis_points::{split_of, split_yield};
use crate::error::PrimisError;
use crate::events::{StakeDeposited, StakeWithdrawn, YieldClaimed, YieldDistributed};
use crate::identity::Identity;
use crate::state::{StakeAccount, Vault, MINIMUM_STAKE};
use crate::yield_share::{claimable_of, claimable_yield};

verus! {

/// Why a withdrawal of `amount` from `record` is refused, if it is: the vault is
/// paused; else the record holds less than `amount`; else what would be left is
/// positive and under [`MINIMUM_STAKE`]. A withdrawal that empties the record is
/// never refused for what it leaves.
pub open spec fn withdraw_refusal(vault: Vault, record: StakeAccount, amount: u64) -> Option<
    PrimisError,
> {
    if vault.is_paused {
        Some(PrimisError::VaultPaused)
    } else if record.amount < amount {
        Some(PrimisError::InsufficientStake)
    } else if 0 < record.amount - amount < MINIMUM_STAKE {
        Some(PrimisError::BelowMinimumStake)
    } else {
        None
    }
}

/// An accepted withdrawal can be booked: the vault's total covers it, and the
/// count of stakers can be lowered where the record is left empty. Both hold
/// of a vault whose totals agree with its records.
pub open spec fn withdraw_fits(vault: Vault, record: StakeAccount, amount: u64) -> bool {
    withdraw_refusal(vault, record, amount) is None ==> {
        &&& amount <= vault.total_staked
        &&& record.amount == amount ==> vault.staker_count >= 1
    }
}

/// The vault after an accepted withdrawal: the total is lowered by `amount`, and
/// the count of stakers by one where the record is left empty.
pub open spec fn vault_after_withdraw(vault: Vault, record: StakeAccount, amount: u64) -> Vault {
    Vault {
        total_staked: (vault.total_staked - amount) as u64,
        staker_count: if record.amount == amount {
            (vault.staker_count - 1) as u32
        } else {
            vault.staker_count
        },
        ..vault
    }
}

/// The record after an accepted withdrawal.
pub open spec fn record_after_withdraw(record: StakeAccount, amount: u64) -> StakeAccount {
    StakeAccount { amount: (record.amount - amount) as u64, ..record }
}

/// On a vault that is not paused, a withdrawal of all that the record holds is
/// accepted, and one that would leave a positive stake under [`MINIMUM_STAKE`]
/// is refused for that.
pub proof fn lemma_withdrawal_floor(vault: Vault, record: StakeAccount, amount: u64)
    requires
        !vault.is_paused,
        amount <= record.amount,
    ensures
        amount == record.amount ==> withdraw_refusal(vault, record, amount) is None,
        0 < record.amount - amount < MINIMUM_STAKE ==> withdraw_refusal(vault, record, amount)
            == Some(PrimisError::BelowMinimumStake),
        record.amount - amount >= MINIMUM_STAKE ==> withdraw_refusal(vault, record, amount)
            is None,
{
}

/// Tells whether [`withdraw`] may be called with these arguments.
pub fn withdraw_in_range(vault: &Vault, stake_account: &StakeAccount, amount: u64) -> (ok: bool)
    ensures
        ok == withdraw_fits(*vault, *stake_account, amount),
{
    if vault.is_paused || stake_account.amount < amount {
        return true;
    }
    let remaining = stake_account.amount - amount;
    if remaining > 0 && remaining < MINIMUM_STAKE {
        return true;
    }
    amount <= vault.total_staked && (remaining > 0 || vault.staker_count >= 1)
}

/// Takes `amount` out of the staker's record. On success the treasury owes the
/// staker `amount`, as the event says. The vault's total moves with the record's
/// stake. The count of stakers is lowered whenever the record is left empty,
/// also by a withdrawal of nothing from a record that was empty before.
pub fn withdraw(vault: &mut Vault, stake_account: &mut StakeAccount, amount: u64, now: i64) -> (res:
    Result<StakeWithdrawn, PrimisError>)
    requires
        withdraw_fits(*old(vault), *old(stake_account), amount),
    ensures
        match res {
            Ok(event) => {
                &&& withdraw_refusal(*old(vault), *old(stake_account), amount) is None
                &&& *final(vault) == vault_after_withdraw(*old(vault), *old(stake_account), amount)
                &&& *final(stake_account) == record_after_withdraw(*old(stake_account), amount)
                &&& event == (StakeWithdrawn {
                    staker: old(stake_account).staker,
                    amount,
                    remaining_stake: final(stake_account).amount,
                    timestamp: now,
                })
                &&& old(vault).total_staked - final(vault).total_staked
                    == old(stake_account).amount - final(stake_account).amount
                &&& final(stake_account).amount == 0 || final(stake_account).amount
                    >= MINIMUM_STAKE
                &&& old(stake_account).well_formed() ==> final(stake_account).well_formed()
            },
            Err(error) => {
                &&& withdraw_refusal(*old(vault), *old(stake_account), amount) == Some(error)
                &&& *final(vault) == *old(vault)
                &&& *final(stake_account) == *old(stake_account)
            },
        },
{
    if vault.is_paused {
        return Err(PrimisError::VaultPaused);
    }
    if stake_account.amount < amount {
        return Err(PrimisError::InsufficientStake);
    }
    let remaining = stake_account.amount - amount;
    if remaining > 0 && remaining < MINIMUM_STAKE {
        return Err(PrimisError::BelowMinimumStake);
    }
    stake_account.amount = remaining;
    vault.total_staked = vault.total_staked - amount;
    if remaining == 0 {
        vault.staker_count = vault.staker_count - 1;
    }
    Ok(
        StakeWithdrawn {
            staker: stake_account.staker,
            amount,
            remaining_stake: remaining,
            timestamp: now,
        },
    )
}

/// Why a deposit of `amount` into `record` is refused, if it is: the vault is
/// paused; else the record is empty and `amount` is under [`MINIMUM_STAKE`]. An
/// empty record is one that holds nothing, whether or not it ever did.
pub open spec fn deposit_refusal(vault: Vault, record: StakeAccount, amount: u64) -> Option<
    PrimisError,
> {
    if vault.is_paused {
        Some(PrimisError::VaultPaused)
    } else if record.amount == 0 && amount < MINIMUM_STAKE {
        Some(PrimisError::BelowMinimumStake)
    } else {
        None
    }
}

/// An accepted deposit can be booked: neither the vault's total, nor the
/// record's stake, nor the count of stakers leaves its range.
pub open spec fn deposit_fits(vault: Vault, record: StakeAccount, amount: u64) -> bool {
    deposit_refusal(vault, record, amount) is None ==> {
        &&& vault.total_staked + amount <= u64::MAX
        &&& record.amount + amount <= u64::MAX
        &&& record.amount == 0 ==> vault.staker_count < u32::MAX
    }
}

/// The vault after an accepted deposit: the total is raised by `amount`, and the
/// count of stakers by one where the record was empty.
pub open spec fn vault_after_deposit(vault: Vault, record: StakeAccount, amount: u64) -> Vault {
    Vault {
        total_staked: (vault.total_staked + amount) as u64,
        staker_count: if record.amount == 0 {
            (vault.staker_count + 1) as u32
        } else {
            vault.staker_count
        },
        ..vault
    }
}

/// The record after an accepted deposit at time `now`. The time of the first
/// funding is set when an empty record that has none is filled, and kept
/// otherwise.
pub open spec fn record_after_deposit(record: StakeAccount, amount: u64, now: i64) -> StakeAccount {
    StakeAccount {
        amount: (record.amount + amount) as u64,
        deposited_at: if record.amount == 0 && record.deposited_at is None {
            Some(now)
        } else {
            record.deposited_at
        },
        last_yield_claim: now,
        ..record
    }
}

/// On a vault that is not paused, an empty record takes a deposit of
/// [`MINIMUM_STAKE`] or more and refuses every smaller one; a funded record
/// takes every deposit.
pub proof fn lemma_deposit_floor(vault: Vault, record: StakeAccount, amount: u64)
    requires
        !vault.is_paused,
    ensures
        record.amount == 0 && amount >= MINIMUM_STAKE ==> deposit_refusal(vault, record, amount)
            is None,
        record.amount == 0 && amount < MINIMUM_STAKE ==> deposit_refusal(vault, record, amount)
            == Some(PrimisError::BelowMinimumStake),
        record.amount > 0 ==> deposit_refusal(vault, record, amount) is None,
{
}

/// Tells whether [`deposit`] may be called with these arguments.
pub fn deposit_in_range(vault: &Vault, stake_account: &StakeAccount, amount: u64) -> (ok: bool)
    ensures
        ok == deposit_fits(*vault, *stake_account, amount),
{
    if vault.is_paused || (stake_account.amount == 0 && amount < MINIMUM_STAKE) {
        return true;
    }
    let total_fits = amount <= u64::MAX - vault.total_staked;
    let stake_fits = amount <= u64::MAX - stake_account.amount;
    let count_fits = stake_account.amount != 0 || vault.staker_count < u32::MAX;
    total_fits && stake_fits && count_fits
}

/// Adds `amount` to the staker's record at time `now`. On success the staker
/// owes the treasury `amount`, as the event says. The vault's total moves with
/// the record's stake, and the count of stakers is raised where the record was
/// empty. A deposit of nothing into a funded record is accepted and only moves
/// the record's claim time.
pub fn deposit(vault: &mut Vault, stake_account: &mut StakeAccount, amount: u64, now: i64) -> (res:
    Result<StakeDeposited, PrimisError>)
    requires
        deposit_fits(*old(vault), *old(stake_account), amount),
    ensures
        match res {
            Ok(event) => {
                &&& deposit_refusal(*old(vault), *old(stake_account), amount) is None
                &&& *final(vault) == vault_after_deposit(*old(vault), *old(stake_account), amount)
                &&& *final(stake_account) == record_after_deposit(
                    *old(stake_account),
                    amount,
                    now,
                )
                &&& event == (StakeDeposited {
                    staker: old(stake_account).staker,
                    amount,
                    total_staked: final(stake_account).amount,
                    timestamp: now,
                })
                &&& final(vault).total_staked - old(vault).total_staked
                    == final(stake_account).amount - old(stake_account).amount
                &&& old(stake_account).well_formed() ==> final(stake_account).well_formed()
            },
            Err(error) => {
                &&& deposit_refusal(*old(vault), *old(stake_account), amount) == Some(error)
                &&& *final(vault) == *old(vault)
                &&& *final(stake_account) == *old(stake_account)
            },
        },
{
    if vault.is_paused {
        return Err(PrimisError::VaultPaused);
    }
    if stake_account.amount == 0 {
        if amount < MINIMUM_STAKE {
            return Err(PrimisError::BelowMinimumStake);
        }
        vault.staker_count = vault.staker_count + 1;
        if stake_account.deposited_at.is_none() {
            stake_account.deposited_at = Some(now);
        }
    }
    stake_account.amount = stake_account.amount + amount;
    stake_account.last_yield_claim = now;
    vault.total_staked = vault.total_staked + amount;
    Ok(
        StakeDeposited {
            staker: stake_account.staker,
            amount,
            total_staked: stake_account.amount,
            timestamp: now,
        },
    )
}

/// Why a claim on `record` is refused, if it is: the record or the whole vault
/// holds no stake.
pub open spec fn claim_refusal(vault: Vault, record: StakeAccount) -> Option<PrimisError> {
    if record.amount == 0 || vault.total_staked == 0 {
        Some(PrimisError::NoStake)
    } else {
        None
    }
}

/// What an accepted claim on `record` pays.
pub open spec fn claim_amount(vault: Vault, record: StakeAccount) -> int {
    claimable_of(
        record.amount as int,
        vault.total_staked as int,
        vault.total_yield_distributed as int,
    )
}

/// An accepted claim can be booked: the record's stake is part of the vault's
/// total, and the yield paid to the staker so far stays in its range.
pub open spec fn claim_fits(vault: Vault, record: StakeAccount) -> bool {
    claim_refusal(vault, record) is None ==> {
        &&& record.amount <= vault.total_staked
        &&& record.total_yield_claimed + claim_amount(vault, record) <= u64::MAX
    }
}

/// The record after an accepted claim at time `now`. A claim that pays nothing
/// leaves the record as it was.
pub open spec fn record_after_claim(vault: Vault, record: StakeAccount, now: i64) -> StakeAccount {
    if claim_amount(vault, record) > 0 {
        StakeAccount {
            total_yield_claimed: (record.total_yield_claimed + claim_amount(vault, record)) as u64,
            last_yield_claim: now,
            ..record
        }
    } else {
        record
    }
}

/// A claim that pays nothing leaves the record as it was.
pub proof fn lemma_empty_claim_changes_nothing(vault: Vault, record: StakeAccount, now: i64)
    requires
        claim_amount(vault, record) == 0,
    ensures
        record_after_claim(vault, record, now) == record,
{
}

/// Tells whether [`claim_yield`] may be called with these arguments.
pub fn claim_in_range(vault: &Vault, stake_account: &StakeAccount) -> (ok: bool)
    ensures
        ok == claim_fits(*vault, *stake_account),
{
    if stake_account.amount == 0 || vault.total_staked == 0 {
        return true;
    }
    if stake_account.amount > vault.total_staked {
        return false;
    }
    let claimable = claimable_yield(
        stake_account.amount,
        vault.total_staked,
        vault.total_yield_distributed,
    );
    claimable <= u64::MAX - stake_account.total_yield_claimed
}

/// Pays the staker their present entitlement to the staker pool. Where that is
/// positive the treasury owes it to the staker, as the event says. Where it is
/// nothing the claim succeeds with no event, and nothing changes. The vault is
/// only read: a claim does not lower what later claims see.
pub fn claim_yield(vault: &Vault, stake_account: &mut StakeAccount, now: i64) -> (res: Result<
    Option<YieldClaimed>,
    PrimisError,
>)
    requires
        claim_fits(*vault, *old(stake_account)),
    ensures
        match res {
            Ok(paid) => {
                &&& claim_refusal(*vault, *old(stake_account)) is None
                &&& *final(stake_account) == record_after_claim(*vault, *old(stake_account), now)
                &&& paid == if claim_amount(*vault, *old(stake_account)) > 0 {
                    Some(
                        YieldClaimed {
                            staker: old(stake_account).staker,
                            amount: claim_amount(*vault, *old(stake_account)) as u64,
                            timestamp: now,
                        },
                    )
                } else {
                    None
                }
                &&& paid is None ==> *final(stake_account) == *old(stake_account)
                &&& old(stake_account).well_formed() ==> final(stake_account).well_formed()
            },
            Err(error) => {
                &&& claim_refusal(*vault, *old(stake_account)) == Some(error)
                &&& *final(stake_account) == *old(stake_account)
            },
        },
{
    if stake_account.amount == 0 || vault.total_staked == 0 {
        return Err(PrimisError::NoStake);
    }
    let claimable = claimable_yield(
        stake_account.amount,
        vault.total_staked,
        vault.total_yield_distributed,
    );
    if claimable == 0 {
        return Ok(None);
    }
    stake_account.total_yield_claimed = stake_account.total_yield_claimed + claimable;
    stake_account.last_yield_claim = now;
    Ok(Some(YieldClaimed { staker: stake_account.staker, amount: claimable, timestamp: now }))
}

/// An accepted distribution can be booked: each pool stays in its range.
pub open spec fn distribute_fits(vault: Vault, caller: Identity, total_yield: u64) -> bool {
    caller == vault.authority ==> {
        let split = split_of(total_yield);
        &&& vault.total_yield_distributed + split.staker_share <= u64::MAX
        &&& vault.total_subsidy_pool + split.subsidy_share <= u64::MAX
        &&& vault.total_reserve + split.reserve_share <= u64::MAX
    }
}

/// The vault after `total_yield` was distributed at time `now`: each pool is
/// raised by its share.
pub open spec fn vault_after_distribution(vault: Vault, total_yield: u64, now: i64) -> Vault {
    let split = split_of(total_yield);
    Vault {
        total_yield_distributed: (vault.total_yield_distributed + split.staker_share) as u64,
        total_subsidy_pool: (vault.total_subsidy_pool + split.subsidy_share) as u64,
        total_reserve: (vault.total_reserve + split.reserve_share) as u64,
        last_yield_distribution: now,
        ..vault
    }
}

/// Tells whether [`distribute_yield`] may be called with these arguments.
pub fn distribute_in_range(vault: &Vault, caller: Identity, total_yield: u64) -> (ok: bool)
    ensures
        ok == distribute_fits(*vault, caller, total_yield),
{
    if caller != vault.authority {
        return true;
    }
    let split = split_yield(total_yield);
    let staker_pool_fits = split.staker_share <= u64::MAX - vault.total_yield_distributed;
    let subsidy_pool_fits = split.subsidy_share <= u64::MAX - vault.total_subsidy_pool;
    let reserve_fits = split.reserve_share <= u64::MAX - vault.total_reserve;
    staker_pool_fits && subsidy_pool_fits && reserve_fits
}

/// Books `total_yield`, which the treasury has already received, into the three
/// pools. Only the authority may do so; a paused vault takes yield like any
/// other. The shares in the event add up to `total_yield`.
pub fn distribute_yield(vault: &mut Vault, caller: Identity, total_yield: u64, now: i64) -> (res:
    Result<YieldDistributed, PrimisError>)
    requires
        distribute_fits(*old(vault), caller, total_yield),
    ensures
        match res {
            Ok(event) => {
                &&& caller == old(vault).authority
                &&& *final(vault) == vault_after_distribution(*old(vault), total_yield, now)
                &&& event == (YieldDistributed {
                    total_yield,
                    staker_share: split_of(total_yield).staker_share,
                    subsidy_share: split_of(total_yield).subsidy_share,
                    reserve_share: split_of(total_yield).reserve_share,
                    timestamp: now,
                })
                &&& event.staker_share + event.subsidy_share + event.reserve_share == total_yield
            },
            Err(error) => {
                &&& caller != old(vault).authority
                &&& error == PrimisError::Unauthorized
                &&& *final(vault) == *old(vault)
            },
        },
{
    if caller != vault.authority {
        return Err(PrimisError::Unauthorized);
    }
    let split = split_yield(total_yield);
    vault.total_yield_distributed = vault.total_yield_distributed + split.staker_share;
    vault.total_subsidy_pool = vault.total_subsidy_pool + split.subsidy_share;
    vault.total_reserve = vault.total_reserve + split.reserve_share;
    vault.last_yield_distribution = now;
    Ok(
        YieldDistributed {
            total_yield,
            staker_share: split.staker_share,
            subsidy_share: split.subsidy_share,
            reserve_share: split.reserve_share,
            timestamp: now,
        },
    )
}

/// Creates the vault: `authority` is in charge, every total is zero, and the
/// vault is not paused.
pub fn initialize(authority: Identity) -> (vault: Vault)
    ensures
        vault == Vault::genesis(authority),
{
    Vault {
        authority,
        total_staked: 0,
        total_yield_distributed: 0,
        total_subsidy_pool: 0,
        total_reserve: 0,
        staker_count: 0,
        last_yield_distribution: 0,
        is_paused: false,
    }
}

/// Pauses or resumes the vault. Only the authority may do so, and nothing else
/// about the vault changes.
pub fn set_paused(vault: &mut Vault, caller: Identity, paused: bool) -> (res: Result<
    (),
    PrimisError,
>)
    ensures
        match res {
            Ok(_) => {
                &&& caller == old(vault).authority
                &&& *final(vault) == (Vault { is_paused: paused, ..*old(vault) })
            },
            Err(error) => {
                &&& caller != old(vault).authority
                &&& error == PrimisError::Unauthorized
                &&& *final(vault) == *old(vault)
            },
        },
{
    if caller != vault.authority {
        return Err(PrimisError::Unauthorized);
    }
    vault.is_paused = paused;
    Ok(())
}

} // verus!
