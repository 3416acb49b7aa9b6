use primis_staking::{
    claim_in_range, claim_yield, deposit, deposit_in_range, distribute_in_range,
    distribute_yield, initialize, set_paused, withdraw, withdraw_in_range, Identity,
    PrimisError, StakeAccount, StakeDeposited, StakeWithdrawn, Vault, YieldClaimed,
    YieldDistributed, MINIMUM_STAKE,
};

fn id(tag: u8) -> Identity {
    Identity::new([tag; 32])
}

fn authority() -> Identity {
    id(1)
}

fn funded(staker: Identity, amount: u64, vault: &mut Vault) -> StakeAccount {
    let mut record = StakeAccount::new(staker);
    deposit(vault, &mut record, amount, 100).unwrap();
    record
}

#[test]
fn initialize_zeroes_every_counter() {
    let vault = initialize(authority());
    assert_eq!(vault.authority, authority());
    assert_eq!(vault.total_staked, 0);
    assert_eq!(vault.total_yield_distributed, 0);
    assert_eq!(vault.total_subsidy_pool, 0);
    assert_eq!(vault.total_reserve, 0);
    assert_eq!(vault.staker_count, 0);
    assert_eq!(vault.last_yield_distribution, 0);
    assert!(!vault.is_paused);
}

#[test]
fn new_record_is_empty() {
    let record = StakeAccount::new(id(7));
    assert_eq!(record.staker, id(7));
    assert_eq!(record.amount, 0);
    assert_eq!(record.deposited_at, None);
    assert_eq!(record.last_yield_claim, 0);
    assert_eq!(record.total_yield_claimed, 0);
}

#[test]
fn first_deposit_into_a_new_vault() {
    let mut vault = initialize(authority());
    let mut record = StakeAccount::new(id(2));
    let event = deposit(&mut vault, &mut record, 10_000_000_000, 1_700_000_000).unwrap();
    assert_eq!(vault.total_staked, 10_000_000_000);
    assert_eq!(vault.staker_count, 1);
    assert_eq!(record.amount, 10_000_000_000);
    assert_eq!(record.staker, id(2));
    assert_eq!(record.deposited_at, Some(1_700_000_000));
    assert_eq!(record.last_yield_claim, 1_700_000_000);
    assert_eq!(
        event,
        StakeDeposited {
            staker: id(2),
            amount: 10_000_000_000,
            total_staked: 10_000_000_000,
            timestamp: 1_700_000_000,
        }
    );
}

#[test]
fn deposit_of_exactly_the_minimum_opens_a_record() {
    let mut vault = initialize(authority());
    let mut record = StakeAccount::new(id(2));
    assert!(deposit(&mut vault, &mut record, MINIMUM_STAKE, 1).is_ok());
    assert_eq!(record.amount, MINIMUM_STAKE);
}

#[test]
fn deposit_of_one_under_the_minimum_is_refused() {
    let mut vault = initialize(authority());
    let mut record = StakeAccount::new(id(2));
    let before = (vault, record);
    assert_eq!(
        deposit(&mut vault, &mut record, MINIMUM_STAKE - 1, 1),
        Err(PrimisError::BelowMinimumStake)
    );
    assert_eq!((vault, record), before);
}

#[test]
fn deposit_of_nothing_into_an_empty_record_is_refused() {
    let mut vault = initialize(authority());
    let mut record = StakeAccount::new(id(2));
    assert_eq!(deposit(&mut vault, &mut record, 0, 1), Err(PrimisError::BelowMinimumStake));
}

#[test]
fn later_deposits_may_be_small() {
    let mut vault = initialize(authority());
    let mut record = funded(id(2), MINIMUM_STAKE, &mut vault);
    let event = deposit(&mut vault, &mut record, 1, 200).unwrap();
    assert_eq!(record.amount, MINIMUM_STAKE + 1);
    assert_eq!(vault.total_staked, MINIMUM_STAKE + 1);
    assert_eq!(vault.staker_count, 1);
    assert_eq!(record.deposited_at, Some(100));
    assert_eq!(record.last_yield_claim, 200);
    assert_eq!(event.total_staked, MINIMUM_STAKE + 1);
    assert_eq!(event.amount, 1);
}

#[test]
fn deposit_of_nothing_into_a_funded_record_moves_the_claim_time() {
    let mut vault = initialize(authority());
    let mut record = funded(id(2), MINIMUM_STAKE, &mut vault);
    let vault_before = vault;
    deposit(&mut vault, &mut record, 0, 300).unwrap();
    assert_eq!(vault, vault_before);
    assert_eq!(record.amount, MINIMUM_STAKE);
    assert_eq!(record.last_yield_claim, 300);
}

#[test]
fn deposit_into_a_paused_vault_is_refused() {
    let mut vault = initialize(authority());
    let mut record = StakeAccount::new(id(2));
    set_paused(&mut vault, authority(), true).unwrap();
    let before = (vault, record);
    assert_eq!(
        deposit(&mut vault, &mut record, MINIMUM_STAKE, 1),
        Err(PrimisError::VaultPaused)
    );
    assert_eq!((vault, record), before);
}

#[test]
fn pause_is_checked_before_the_minimum() {
    let mut vault = initialize(authority());
    let mut record = StakeAccount::new(id(2));
    set_paused(&mut vault, authority(), true).unwrap();
    assert_eq!(deposit(&mut vault, &mut record, 1, 1), Err(PrimisError::VaultPaused));
}

#[test]
fn first_funding_time_is_set_once() {
    let mut vault = initialize(authority());
    let mut record = funded(id(2), MINIMUM_STAKE, &mut vault);
    withdraw(&mut vault, &mut record, MINIMUM_STAKE, 150).unwrap();
    assert_eq!(record.amount, 0);
    assert_eq!(vault.staker_count, 0);
    deposit(&mut vault, &mut record, MINIMUM_STAKE, 200).unwrap();
    assert_eq!(record.deposited_at, Some(100));
    assert_eq!(record.last_yield_claim, 200);
    assert_eq!(vault.staker_count, 1);
}

#[test]
fn emptied_record_must_meet_the_minimum_again() {
    let mut vault = initialize(authority());
    let mut record = funded(id(2), 2 * MINIMUM_STAKE, &mut vault);
    withdraw(&mut vault, &mut record, 2 * MINIMUM_STAKE, 150).unwrap();
    assert_eq!(
        deposit(&mut vault, &mut record, MINIMUM_STAKE - 1, 200),
        Err(PrimisError::BelowMinimumStake)
    );
}

#[test]
fn withdraw_everything() {
    let mut vault = initialize(authority());
    let mut record = funded(id(2), 3 * MINIMUM_STAKE, &mut vault);
    let event = withdraw(&mut vault, &mut record, 3 * MINIMUM_STAKE, 500).unwrap();
    assert_eq!(record.amount, 0);
    assert_eq!(vault.total_staked, 0);
    assert_eq!(vault.staker_count, 0);
    assert_eq!(
        event,
        StakeWithdrawn {
            staker: id(2),
            amount: 3 * MINIMUM_STAKE,
            remaining_stake: 0,
            timestamp: 500,
        }
    );
}

#[test]
fn withdraw_down_to_zero_from_just_the_minimum() {
    let mut vault = initialize(authority());
    let mut record = funded(id(2), MINIMUM_STAKE, &mut vault);
    assert!(withdraw(&mut vault, &mut record, MINIMUM_STAKE, 500).is_ok());
    assert_eq!(record.amount, 0);
}

#[test]
fn withdraw_leaving_exactly_the_minimum() {
    let mut vault = initialize(authority());
    let mut record = funded(id(2), MINIMUM_STAKE + 5, &mut vault);
    let event = withdraw(&mut vault, &mut record, 5, 500).unwrap();
    assert_eq!(record.amount, MINIMUM_STAKE);
    assert_eq!(vault.total_staked, MINIMUM_STAKE);
    assert_eq!(vault.staker_count, 1);
    assert_eq!(event.remaining_stake, MINIMUM_STAKE);
    assert_eq!(record.last_yield_claim, 100);
}

#[test]
fn withdraw_leaving_one_under_the_minimum_is_refused() {
    let mut vault = initialize(authority());
    let mut record = funded(id(2), MINIMUM_STAKE + 5, &mut vault);
    let before = (vault, record);
    assert_eq!(
        withdraw(&mut vault, &mut record, 6, 500),
        Err(PrimisError::BelowMinimumStake)
    );
    assert_eq!((vault, record), before);
}

#[test]
fn withdraw_leaving_one_unit_is_refused() {
    let mut vault = initialize(authority());
    let mut record = funded(id(2), MINIMUM_STAKE, &mut vault);
    assert_eq!(
        withdraw(&mut vault, &mut record, MINIMUM_STAKE - 1, 500),
        Err(PrimisError::BelowMinimumStake)
    );
}

#[test]
fn withdraw_of_more_than_the_stake_is_refused() {
    let mut vault = initialize(authority());
    let mut record = funded(id(2), MINIMUM_STAKE, &mut vault);
    let before = (vault, record);
    assert_eq!(
        withdraw(&mut vault, &mut record, MINIMUM_STAKE + 1, 500),
        Err(PrimisError::InsufficientStake)
    );
    assert_eq!((vault, record), before);
}

#[test]
fn withdraw_from_a_paused_vault_is_refused() {
    let mut vault = initialize(authority());
    let mut record = funded(id(2), MINIMUM_STAKE, &mut vault);
    set_paused(&mut vault, authority(), true).unwrap();
    let before = (vault, record);
    assert_eq!(
        withdraw(&mut vault, &mut record, MINIMUM_STAKE, 500),
        Err(PrimisError::VaultPaused)
    );
    assert_eq!((vault, record), before);
}

#[test]
fn pause_is_checked_before_the_balance() {
    let mut vault = initialize(authority());
    let mut record = funded(id(2), MINIMUM_STAKE, &mut vault);
    set_paused(&mut vault, authority(), true).unwrap();
    assert_eq!(
        withdraw(&mut vault, &mut record, MINIMUM_STAKE + 1, 500),
        Err(PrimisError::VaultPaused)
    );
}

#[test]
fn resumed_vault_takes_withdrawals_again() {
    let mut vault = initialize(authority());
    let mut record = funded(id(2), MINIMUM_STAKE, &mut vault);
    set_paused(&mut vault, authority(), true).unwrap();
    set_paused(&mut vault, authority(), false).unwrap();
    assert!(withdraw(&mut vault, &mut record, MINIMUM_STAKE, 500).is_ok());
}

#[test]
fn withdraw_of_nothing_from_an_empty_record_lowers_the_count() {
    let mut vault = initialize(authority());
    let _other = funded(id(3), MINIMUM_STAKE, &mut vault);
    let mut record = StakeAccount::new(id(2));
    let event = withdraw(&mut vault, &mut record, 0, 500).unwrap();
    assert_eq!(event.amount, 0);
    assert_eq!(record.amount, 0);
    assert_eq!(vault.total_staked, MINIMUM_STAKE);
    assert_eq!(vault.staker_count, 0);
}

#[test]
fn distribute_one_thousand() {
    let mut vault = initialize(authority());
    let event = distribute_yield(&mut vault, authority(), 1000, 900).unwrap();
    assert_eq!(
        event,
        YieldDistributed {
            total_yield: 1000,
            staker_share: 700,
            subsidy_share: 200,
            reserve_share: 100,
            timestamp: 900,
        }
    );
    assert_eq!(vault.total_yield_distributed, 700);
    assert_eq!(vault.total_subsidy_pool, 200);
    assert_eq!(vault.total_reserve, 100);
    assert_eq!(vault.last_yield_distribution, 900);
    assert_eq!(vault.total_staked, 0);
    assert_eq!(vault.staker_count, 0);
}

#[test]
fn distribute_one_unit() {
    let mut vault = initialize(authority());
    let event = distribute_yield(&mut vault, authority(), 1, 900).unwrap();
    assert_eq!(event.staker_share, 0);
    assert_eq!(event.subsidy_share, 0);
    assert_eq!(event.reserve_share, 1);
    assert_eq!(vault.total_yield_distributed, 0);
    assert_eq!(vault.total_subsidy_pool, 0);
    assert_eq!(vault.total_reserve, 1);
}

#[test]
fn distributions_add_up_in_the_pools() {
    let mut vault = initialize(authority());
    distribute_yield(&mut vault, authority(), 1000, 900).unwrap();
    distribute_yield(&mut vault, authority(), 9999, 950).unwrap();
    assert_eq!(vault.total_yield_distributed, 700 + 6999);
    assert_eq!(vault.total_subsidy_pool, 200 + 1999);
    assert_eq!(vault.total_reserve, 100 + 1001);
    assert_eq!(vault.last_yield_distribution, 950);
    assert_eq!(
        vault.total_yield_distributed + vault.total_subsidy_pool + vault.total_reserve,
        1000 + 9999
    );
}

#[test]
fn distribute_by_a_stranger_is_refused() {
    let mut vault = initialize(authority());
    let before = vault;
    assert_eq!(
        distribute_yield(&mut vault, id(9), 1000, 900),
        Err(PrimisError::Unauthorized)
    );
    assert_eq!(vault, before);
}

#[test]
fn paused_vault_still_takes_yield() {
    let mut vault = initialize(authority());
    set_paused(&mut vault, authority(), true).unwrap();
    assert!(distribute_yield(&mut vault, authority(), 1000, 900).is_ok());
    assert_eq!(vault.total_yield_distributed, 700);
    assert!(vault.is_paused);
}

#[test]
fn two_stakers_claim_their_shares() {
    let mut vault = initialize(authority());
    let mut x = funded(id(2), 10_000_000_000, &mut vault);
    let mut y = funded(id(3), 30_000_000_000, &mut vault);
    vault.total_yield_distributed = 1000;
    assert_eq!(vault.total_staked, 40_000_000_000);
    let paid_x = claim_yield(&vault, &mut x, 700).unwrap();
    let paid_y = claim_yield(&vault, &mut y, 800).unwrap();
    assert_eq!(paid_x, Some(YieldClaimed { staker: id(2), amount: 250, timestamp: 700 }));
    assert_eq!(paid_y, Some(YieldClaimed { staker: id(3), amount: 750, timestamp: 800 }));
    assert_eq!(x.total_yield_claimed, 250);
    assert_eq!(x.last_yield_claim, 700);
    assert_eq!(y.total_yield_claimed, 750);
    assert_eq!(y.last_yield_claim, 800);
    assert_eq!(x.amount, 10_000_000_000);
    assert_eq!(vault.total_yield_distributed, 1000);
}

#[test]
fn claims_do_not_debit_the_pool() {
    let mut vault = initialize(authority());
    let mut x = funded(id(2), 10_000_000_000, &mut vault);
    distribute_yield(&mut vault, authority(), 1000, 600).unwrap();
    let first = claim_yield(&vault, &mut x, 700).unwrap().unwrap();
    let second = claim_yield(&vault, &mut x, 800).unwrap().unwrap();
    assert_eq!(first.amount, 700);
    assert_eq!(second.amount, 700);
    assert_eq!(x.total_yield_claimed, 1400);
    assert_eq!(x.last_yield_claim, 800);
}

#[test]
fn claim_of_nothing_changes_nothing() {
    let mut vault = initialize(authority());
    let mut x = funded(id(2), 10_000_000_000, &mut vault);
    let before = x;
    assert_eq!(claim_yield(&vault, &mut x, 700), Ok(None));
    assert_eq!(x, before);
    assert_eq!(x.last_yield_claim, 100);
}

#[test]
fn claim_that_rounds_to_nothing_changes_nothing() {
    let mut vault = initialize(authority());
    let mut x = funded(id(2), 10_000_000_000, &mut vault);
    let _y = funded(id(3), 30_000_000_000, &mut vault);
    vault.total_yield_distributed = 3;
    let before = x;
    assert_eq!(claim_yield(&vault, &mut x, 700), Ok(None));
    assert_eq!(x, before);
}

#[test]
fn claim_on_an_empty_record_is_refused() {
    let mut vault = initialize(authority());
    let _y = funded(id(3), 30_000_000_000, &mut vault);
    distribute_yield(&mut vault, authority(), 1000, 600).unwrap();
    let mut x = StakeAccount::new(id(2));
    let before = x;
    assert_eq!(claim_yield(&vault, &mut x, 700), Err(PrimisError::NoStake));
    assert_eq!(x, before);
}

#[test]
fn claim_on_an_empty_vault_is_refused() {
    let vault = initialize(authority());
    let mut x = StakeAccount::new(id(2));
    x.amount = MINIMUM_STAKE;
    assert_eq!(claim_yield(&vault, &mut x, 700), Err(PrimisError::NoStake));
}

#[test]
fn paused_vault_still_pays_claims() {
    let mut vault = initialize(authority());
    let mut x = funded(id(2), 10_000_000_000, &mut vault);
    distribute_yield(&mut vault, authority(), 1000, 600).unwrap();
    set_paused(&mut vault, authority(), true).unwrap();
    assert_eq!(claim_yield(&vault, &mut x, 700).unwrap().unwrap().amount, 700);
}

#[test]
fn pause_by_a_stranger_is_refused() {
    let mut vault = initialize(authority());
    assert_eq!(set_paused(&mut vault, id(9), true), Err(PrimisError::Unauthorized));
    assert!(!vault.is_paused);
    assert_eq!(vault, initialize(authority()));
}

#[test]
fn pause_by_the_authority() {
    let mut vault = initialize(authority());
    let mut record = funded(id(2), MINIMUM_STAKE, &mut vault);
    let before = vault;
    assert_eq!(set_paused(&mut vault, authority(), true), Ok(()));
    assert!(vault.is_paused);
    assert_eq!(Vault { is_paused: false, ..vault }, before);
    assert_eq!(set_paused(&mut vault, authority(), false), Ok(()));
    assert_eq!(vault, before);
    assert!(deposit(&mut vault, &mut record, 1, 5).is_ok());
}

#[test]
fn authority_differs_in_one_byte() {
    let mut bytes = [1u8; 32];
    bytes[31] = 2;
    let mut vault = initialize(authority());
    assert_eq!(
        set_paused(&mut vault, Identity::new(bytes), true),
        Err(PrimisError::Unauthorized)
    );
}

#[test]
fn totals_follow_the_records() {
    let mut vault = initialize(authority());
    let mut records = [StakeAccount::new(id(2)), StakeAccount::new(id(3)), StakeAccount::new(id(4))];
    deposit(&mut vault, &mut records[0], 10_000_000_000, 1).unwrap();
    deposit(&mut vault, &mut records[1], 30_000_000_000, 2).unwrap();
    deposit(&mut vault, &mut records[0], 5, 3).unwrap();
    assert!(deposit(&mut vault, &mut records[2], 7, 4).is_err());
    withdraw(&mut vault, &mut records[1], 20_000_000_000, 5).unwrap();
    assert!(withdraw(&mut vault, &mut records[1], 1, 6).is_err());
    distribute_yield(&mut vault, authority(), 123_456, 7).unwrap();
    claim_yield(&vault, &mut records[0], 8).unwrap();
    withdraw(&mut vault, &mut records[0], 10_000_000_005, 9).unwrap();
    deposit(&mut vault, &mut records[2], 11_000_000_000, 10).unwrap();
    let sum: u64 = records.iter().map(|r| r.amount).sum();
    let funded_records = records.iter().filter(|r| r.amount > 0).count();
    assert_eq!(vault.total_staked, sum);
    assert_eq!(vault.total_staked, 21_000_000_000);
    assert_eq!(vault.staker_count as usize, funded_records);
    assert_eq!(vault.staker_count, 2);
}

#[test]
fn in_range_on_a_consistent_ledger() {
    let mut vault = initialize(authority());
    let record = funded(id(2), MINIMUM_STAKE, &mut vault);
    assert!(deposit_in_range(&vault, &record, 5));
    assert!(withdraw_in_range(&vault, &record, MINIMUM_STAKE));
    assert!(claim_in_range(&vault, &record));
    assert!(distribute_in_range(&vault, authority(), u64::MAX));
}

#[test]
fn deposit_out_of_range() {
    let mut vault = initialize(authority());
    let record = funded(id(2), MINIMUM_STAKE, &mut vault);
    assert!(!deposit_in_range(&vault, &record, u64::MAX));
    assert!(deposit_in_range(&vault, &record, u64::MAX - MINIMUM_STAKE));
    vault.staker_count = u32::MAX;
    assert!(!deposit_in_range(&vault, &StakeAccount::new(id(3)), MINIMUM_STAKE));
    assert!(deposit_in_range(&vault, &StakeAccount::new(id(3)), MINIMUM_STAKE - 1));
    vault.is_paused = true;
    assert!(deposit_in_range(&vault, &record, u64::MAX));
}

#[test]
fn withdraw_out_of_range() {
    let mut vault = initialize(authority());
    let record = funded(id(2), MINIMUM_STAKE, &mut vault);
    vault.total_staked = MINIMUM_STAKE - 1;
    assert!(!withdraw_in_range(&vault, &record, MINIMUM_STAKE));
    assert!(withdraw_in_range(&vault, &record, MINIMUM_STAKE + 1));
    vault.total_staked = MINIMUM_STAKE;
    vault.staker_count = 0;
    assert!(!withdraw_in_range(&vault, &record, MINIMUM_STAKE));
    assert!(!withdraw_in_range(&vault, &StakeAccount::new(id(3)), 0));
}

#[test]
fn claim_out_of_range() {
    let mut vault = initialize(authority());
    let mut record = funded(id(2), MINIMUM_STAKE, &mut vault);
    distribute_yield(&mut vault, authority(), 1000, 600).unwrap();
    record.total_yield_claimed = u64::MAX - 699;
    assert!(!claim_in_range(&vault, &record));
    record.total_yield_claimed = u64::MAX - 700;
    assert!(claim_in_range(&vault, &record));
    record.amount = MINIMUM_STAKE + 1;
    assert!(!claim_in_range(&vault, &record));
    assert!(claim_in_range(&vault, &StakeAccount::new(id(3))));
}

#[test]
fn distribute_out_of_range() {
    let mut vault = initialize(authority());
    vault.total_reserve = u64::MAX - 99;
    assert!(!distribute_in_range(&vault, authority(), 1000));
    assert!(distribute_in_range(&vault, id(9), 1000));
    vault.total_reserve = u64::MAX - 100;
    assert!(distribute_in_range(&vault, authority(), 1000));
    vault.total_yield_distributed = u64::MAX - 699;
    assert!(!distribute_in_range(&vault, authority(), 1000));
}
