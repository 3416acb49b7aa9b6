//! The ledger as a whole: the vault together with every stake record that the
//! host keeps for it. No operation sees more than the vault and one record, so
//! what holds between the vault and all of its records is stated and proved
//! here, over histories of calls.

use vstd::prelude::*;
use crate::basis_points::lemma_bps_of_bounded;
use crate::identity::Identity;
use crate::operations::{
    claim_amount, claim_fits, claim_refusal, deposit_fits, deposit_refusal, distribute_fits,
    record_after_claim, record_after_deposit, record_after_withdraw, vault_after_deposit,
    vault_after_distribution, vault_after_withdraw, withdraw_fits, withdraw_refusal,
};
use crate::state::{StakeAccount, Vault};
use crate::yield_share::{lemma_share_bps_bounded, share_bps_of};

verus! {

/// The vault and all of its records, each record in the slot the host gave it.
pub struct Books {
    pub vault: Vault,
    pub records: Seq<StakeAccount>,
}

/// One call that reaches the ledger. A call on a record names the record's slot.
pub enum Call {
    /// The host opens an empty record for a staker who has none.
    Open { staker: Identity },
    /// [`crate::operations::deposit`] on the record in `slot`.
    Deposit { slot: int, amount: u64, now: i64 },
    /// [`crate::operations::withdraw`] on the record in `slot`.
    Withdraw { slot: int, amount: u64, now: i64 },
    /// [`crate::operations::distribute_yield`].
    DistributeYield { caller: Identity, total_yield: u64, now: i64 },
    /// [`crate::operations::claim_yield`] on the record in `slot`.
    ClaimYield { slot: int, now: i64 },
    /// [`crate::operations::set_paused`].
    SetPaused { caller: Identity, paused: bool },
}

/// The sum of the stakes in `records`.
pub open spec fn staked_in(records: Seq<StakeAccount>) -> int
    decreases records.len(),
{
    if records.len() == 0 {
        0
    } else {
        staked_in(records.drop_last()) + records.last().amount
    }
}

/// The number of records in `records` that hold a stake.
pub open spec fn funded_in(records: Seq<StakeAccount>) -> int
    decreases records.len(),
{
    if records.len() == 0 {
        0
    } else {
        funded_in(records.drop_last()) + if records.last().amount > 0 {
            1int
        } else {
            0int
        }
    }
}

impl Books {
    /// The ledger right after [`crate::operations::initialize`]: the new vault and
    /// no records.
    pub open spec fn genesis(authority: Identity) -> Books {
        Books { vault: Vault::genesis(authority), records: Seq::empty() }
    }

    /// The vault's total is the sum of the stakes in the records.
    pub open spec fn total_agrees(self) -> bool {
        self.vault.total_staked == staked_in(self.records)
    }

    /// The vault's count of stakers is the number of records that hold a stake.
    pub open spec fn count_agrees(self) -> bool {
        self.vault.staker_count == funded_in(self.records)
    }

    /// Every record is well formed: it holds nothing or at least the minimum
    /// stake, and knows when it was first funded if it holds a stake.
    pub open spec fn records_well_formed(self) -> bool {
        forall|slot: int|
            0 <= slot < self.records.len() ==> (#[trigger] self.records[slot]).well_formed()
    }

    /// The call names a record that exists and meets what the operation it
    /// stands for requires of its caller.
    pub open spec fn permits(self, call: Call) -> bool {
        match call {
            Call::Open { staker } => true,
            Call::Deposit { slot, amount, now } => {
                &&& 0 <= slot < self.records.len()
                &&& deposit_fits(self.vault, self.records[slot], amount)
            },
            Call::Withdraw { slot, amount, now } => {
                &&& 0 <= slot < self.records.len()
                &&& withdraw_fits(self.vault, self.records[slot], amount)
            },
            Call::DistributeYield { caller, total_yield, now } => distribute_fits(
                self.vault,
                caller,
                total_yield,
            ),
            Call::ClaimYield { slot, now } => {
                &&& 0 <= slot < self.records.len()
                &&& claim_fits(self.vault, self.records[slot])
            },
            Call::SetPaused { caller, paused } => true,
        }
    }

    /// The call is an accepted withdrawal from a record that holds nothing: one
    /// of nothing, on a vault that is not paused. It moves no value and still
    /// lowers the count of stakers.
    pub open spec fn withdraws_from_empty(self, call: Call) -> bool {
        call matches Call::Withdraw { slot, amount, now } && self.records[slot].amount == 0
            && withdraw_refusal(self.vault, self.records[slot], amount) is None
    }

    /// The ledger after the call: as the operation leaves the vault and the
    /// record where it accepts the call, and unchanged where it refuses.
    pub open spec fn after(self, call: Call) -> Books {
        match call {
            Call::Open { staker } => Books {
                records: self.records.push(StakeAccount::empty(staker)),
                ..self
            },
            Call::Deposit { slot, amount, now } => {
                let record = self.records[slot];
                if deposit_refusal(self.vault, record, amount) is None {
                    Books {
                        vault: vault_after_deposit(self.vault, record, amount),
                        records: self.records.update(
                            slot,
                            record_after_deposit(record, amount, now),
                        ),
                    }
                } else {
                    self
                }
            },
            Call::Withdraw { slot, amount, now } => {
                let record = self.records[slot];
                if withdraw_refusal(self.vault, record, amount) is None {
                    Books {
                        vault: vault_after_withdraw(self.vault, record, amount),
                        records: self.records.update(slot, record_after_withdraw(record, amount)),
                    }
                } else {
                    self
                }
            },
            Call::DistributeYield { caller, total_yield, now } => {
                if caller == self.vault.authority {
                    Books { vault: vault_after_distribution(self.vault, total_yield, now), ..self }
                } else {
                    self
                }
            },
            Call::ClaimYield { slot, now } => {
                let record = self.records[slot];
                if claim_refusal(self.vault, record) is None {
                    Books {
                        records: self.records.update(
                            slot,
                            record_after_claim(self.vault, record, now),
                        ),
                        ..self
                    }
                } else {
                    self
                }
            },
            Call::SetPaused { caller, paused } => {
                if caller == self.vault.authority {
                    Books { vault: Vault { is_paused: paused, ..self.vault }, ..self }
                } else {
                    self
                }
            },
        }
    }

    /// The ledger after a history of calls, the first call first.
    pub open spec fn after_all(self, calls: Seq<Call>) -> Books
        decreases calls.len(),
    {
        if calls.len() == 0 {
            self
        } else {
            self.after_all(calls.drop_last()).after(calls.last())
        }
    }

    /// Every call of the history is permitted by the ledger that it meets.
    pub open spec fn permits_all(self, calls: Seq<Call>) -> bool
        decreases calls.len(),
    {
        calls.len() > 0 ==> {
            &&& self.permits_all(calls.drop_last())
            &&& self.after_all(calls.drop_last()).permits(calls.last())
        }
    }

    /// No call of the history is an accepted withdrawal from a record that is
    /// empty when the call meets it.
    pub open spec fn never_withdraws_from_empty(self, calls: Seq<Call>) -> bool
        decreases calls.len(),
    {
        calls.len() > 0 ==> {
            &&& self.never_withdraws_from_empty(calls.drop_last())
            &&& !self.after_all(calls.drop_last()).withdraws_from_empty(calls.last())
        }
    }
}

/// Replacing one record changes the sum of the stakes by the difference between
/// the two.
pub proof fn lemma_staked_in_update(records: Seq<StakeAccount>, slot: int, record: StakeAccount)
    requires
        0 <= slot < records.len(),
    ensures
        staked_in(records.update(slot, record)) == staked_in(records) - records[slot].amount
            + record.amount,
    decreases records.len(),
{
    let updated = records.update(slot, record);
    if slot == records.len() - 1 {
        assert(updated.drop_last() =~= records.drop_last());
    } else {
        assert(updated.drop_last() =~= records.drop_last().update(slot, record));
        lemma_staked_in_update(records.drop_last(), slot, record);
    }
}

/// Replacing one record changes the number of funded records only where the two
/// differ in being funded.
pub proof fn lemma_funded_in_update(records: Seq<StakeAccount>, slot: int, record: StakeAccount)
    requires
        0 <= slot < records.len(),
    ensures
        funded_in(records.update(slot, record)) == funded_in(records) - (if records[slot].amount
            > 0 {
            1int
        } else {
            0int
        }) + (if record.amount > 0 {
            1int
        } else {
            0int
        }),
    decreases records.len(),
{
    let updated = records.update(slot, record);
    if slot == records.len() - 1 {
        assert(updated.drop_last() =~= records.drop_last());
    } else {
        assert(updated.drop_last() =~= records.drop_last().update(slot, record));
        lemma_funded_in_update(records.drop_last(), slot, record);
    }
}

/// No record holds more than all records together, and where one record is
/// funded the number of funded records is at least one.
pub proof fn lemma_record_is_counted(records: Seq<StakeAccount>, slot: int)
    requires
        0 <= slot < records.len(),
    ensures
        records[slot].amount <= staked_in(records),
        records[slot].amount > 0 ==> funded_in(records) >= 1,
        0 <= funded_in(records) <= records.len(),
    decreases records.len(),
{
    lemma_sums_are_natural(records.drop_last());
    if slot < records.len() - 1 {
        lemma_record_is_counted(records.drop_last(), slot);
    }
}

/// Neither sum is negative, and no more records are funded than there are.
pub proof fn lemma_sums_are_natural(records: Seq<StakeAccount>)
    ensures
        0 <= staked_in(records),
        0 <= funded_in(records) <= records.len(),
    decreases records.len(),
{
    if records.len() > 0 {
        lemma_sums_are_natural(records.drop_last());
    }
}

/// A permitted call keeps the vault's total equal to the sum of the stakes.
pub proof fn lemma_call_keeps_total(books: Books, call: Call)
    requires
        books.total_agrees(),
        books.permits(call),
    ensures
        books.after(call).total_agrees(),
{
    match call {
        Call::Open { staker } => {
            let opened = books.records.push(StakeAccount::empty(staker));
            assert(opened.drop_last() =~= books.records);
        },
        Call::Deposit { slot, amount, now } => {
            let record = books.records[slot];
            lemma_record_is_counted(books.records, slot);
            lemma_staked_in_update(books.records, slot, record_after_deposit(record, amount, now));
        },
        Call::Withdraw { slot, amount, now } => {
            let record = books.records[slot];
            lemma_record_is_counted(books.records, slot);
            lemma_staked_in_update(books.records, slot, record_after_withdraw(record, amount));
        },
        Call::DistributeYield { caller, total_yield, now } => {},
        Call::ClaimYield { slot, now } => {
            let record = books.records[slot];
            lemma_staked_in_update(books.records, slot, record_after_claim(books.vault, record, now));
        },
        Call::SetPaused { caller, paused } => {},
    }
}

/// A permitted call keeps the vault's count of stakers equal to the number of
/// funded records, unless it is an accepted withdrawal from an empty record.
pub proof fn lemma_call_keeps_count(books: Books, call: Call)
    requires
        books.count_agrees(),
        books.permits(call),
        !books.withdraws_from_empty(call),
    ensures
        books.after(call).count_agrees(),
{
    match call {
        Call::Open { staker } => {
            let opened = books.records.push(StakeAccount::empty(staker));
            assert(opened.drop_last() =~= books.records);
        },
        Call::Deposit { slot, amount, now } => {
            let record = books.records[slot];
            lemma_record_is_counted(books.records, slot);
            lemma_funded_in_update(books.records, slot, record_after_deposit(record, amount, now));
        },
        Call::Withdraw { slot, amount, now } => {
            let record = books.records[slot];
            lemma_record_is_counted(books.records, slot);
            lemma_funded_in_update(books.records, slot, record_after_withdraw(record, amount));
        },
        Call::DistributeYield { caller, total_yield, now } => {},
        Call::ClaimYield { slot, now } => {
            let record = books.records[slot];
            lemma_funded_in_update(books.records, slot, record_after_claim(books.vault, record, now));
        },
        Call::SetPaused { caller, paused } => {},
    }
}

/// At all times the vault's total is the sum of the stakes of all records: it is
/// so in a new ledger and after every history of permitted calls.
pub proof fn lemma_total_staked_is_sum(authority: Identity, calls: Seq<Call>)
    requires
        Books::genesis(authority).permits_all(calls),
    ensures
        Books::genesis(authority).after_all(calls).total_agrees(),
    decreases calls.len(),
{
    if calls.len() > 0 {
        lemma_total_staked_is_sum(authority, calls.drop_last());
        lemma_call_keeps_total(
            Books::genesis(authority).after_all(calls.drop_last()),
            calls.last(),
        );
    }
}

/// At all times the vault's count of stakers is the number of records that hold
/// a stake: it is so in a new ledger and after every history of permitted calls
/// of which none is an accepted withdrawal from an empty record.
pub proof fn lemma_staker_count_is_funded(authority: Identity, calls: Seq<Call>)
    requires
        Books::genesis(authority).permits_all(calls),
        Books::genesis(authority).never_withdraws_from_empty(calls),
    ensures
        Books::genesis(authority).after_all(calls).count_agrees(),
    decreases calls.len(),
{
    if calls.len() > 0 {
        lemma_staker_count_is_funded(authority, calls.drop_last());
        lemma_call_keeps_count(
            Books::genesis(authority).after_all(calls.drop_last()),
            calls.last(),
        );
    }
}

/// A permitted call leaves every record well formed.
pub proof fn lemma_call_keeps_records_well_formed(books: Books, call: Call)
    requires
        books.records_well_formed(),
        books.permits(call),
    ensures
        books.after(call).records_well_formed(),
{
    let after = books.after(call);
    assert forall|slot: int| 0 <= slot < after.records.len() implies #[trigger] after.records[slot]
        .well_formed() by {
        if slot < books.records.len() {
            assert(books.records[slot].well_formed());
        }
    }
}

/// At all times every record holds nothing or at least the minimum stake: it is
/// so in a new ledger and after every history of permitted calls.
pub proof fn lemma_records_stay_well_formed(authority: Identity, calls: Seq<Call>)
    requires
        Books::genesis(authority).permits_all(calls),
    ensures
        Books::genesis(authority).after_all(calls).records_well_formed(),
    decreases calls.len(),
{
    if calls.len() > 0 {
        lemma_records_stay_well_formed(authority, calls.drop_last());
        lemma_call_keeps_records_well_formed(
            Books::genesis(authority).after_all(calls.drop_last()),
            calls.last(),
        );
    }
}

/// What a call never touches: the authority stays in charge, no record is
/// dropped or handed to another staker, a time of first funding that is set
/// stays as it is, and no pool and no staker's claimed yield gets smaller.
pub proof fn lemma_call_keeps_history(books: Books, call: Call, slot: int)
    requires
        books.permits(call),
        0 <= slot < books.records.len(),
    ensures
        books.after(call).vault.authority == books.vault.authority,
        books.after(call).records.len() >= books.records.len(),
        books.after(call).records[slot].staker == books.records[slot].staker,
        books.records[slot].deposited_at is Some ==> books.after(call).records[slot].deposited_at
            == books.records[slot].deposited_at,
        books.after(call).records[slot].total_yield_claimed
            >= books.records[slot].total_yield_claimed,
        books.after(call).vault.total_yield_distributed >= books.vault.total_yield_distributed,
        books.after(call).vault.total_subsidy_pool >= books.vault.total_subsidy_pool,
        books.after(call).vault.total_reserve >= books.vault.total_reserve,
{
    match call {
        Call::ClaimYield { slot: claimed, now } => {
            let record = books.records[claimed];
            if claim_refusal(books.vault, record) is None {
                lemma_share_bps_bounded(record.amount as int, books.vault.total_staked as int);
                lemma_bps_of_bounded(
                    books.vault.total_yield_distributed as int,
                    share_bps_of(record.amount as int, books.vault.total_staked as int),
                );
            }
        },
        _ => {},
    }
}

/// In a ledger whose totals agree with its records no record holds more than the
/// vault's total, so every withdrawal from a funded record is permitted, and so
/// is every claim that keeps the yield paid to the staker in its range.
pub proof fn lemma_agreement_permits(books: Books, slot: int, amount: u64, now: i64)
    requires
        books.total_agrees(),
        books.count_agrees(),
        0 <= slot < books.records.len(),
    ensures
        books.records[slot].amount <= books.vault.total_staked,
        books.records[slot].amount > 0 ==> books.permits(
            Call::Withdraw { slot, amount, now },
        ),
        books.records[slot].total_yield_claimed + claim_amount(books.vault, books.records[slot])
            <= u64::MAX ==> books.permits(Call::ClaimYield { slot, now }),
{
    lemma_record_is_counted(books.records, slot);
}

} // verus!
