//! Why the ledger refuses an operation.

use vstd::prelude::*;

verus! {

/// The reason an operation was refused. A refused operation changes nothing.
#[derive(Clone, Copy, Debug, PartialEq, Eq, Structural)]
pub enum PrimisError {
    /// A deposit into an empty record, or what a withdrawal would leave behind, is
    /// positive but under the minimum stake.
    BelowMinimumStake,
    /// A withdrawal asks for more than the record holds.
    InsufficientStake,
    /// A claim was made while the record or the whole vault holds no stake.
    NoStake,
    /// A deposit or withdrawal was made while the vault is paused.
    VaultPaused,
    /// An administrative operation was called by someone other than the authority.
    Unauthorized,
}

impl PrimisError {
    /// The text of [`PrimisError::message`].
    pub open spec fn message_of(self) -> Seq<char> {
        match self {
            PrimisError::BelowMinimumStake => "Stake amount is below minimum of 10 SOL"@,
            PrimisError::InsufficientStake => "Insufficient stake balance"@,
            PrimisError::NoStake => "No active stake found"@,
            PrimisError::VaultPaused => "Vault is currently paused"@,
            PrimisError::Unauthorized => "Unauthorized action"@,
        }
    }

    /// A sentence for the caller that says what went wrong.
    pub fn message(&self) -> (text: &'static str)
        ensures
            text@ == self.message_of(),
    {
        match self {
            PrimisError::BelowMinimumStake => "Stake amount is below minimum of 10 SOL",
            PrimisError::InsufficientStake => "Insufficient stake balance",
            PrimisError::NoStake => "No active stake found",
            PrimisError::VaultPaused => "Vault is currently paused",
            PrimisError::Unauthorized => "Unauthorized action",
        }
    }
}

} // verus!
