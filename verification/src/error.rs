//! Why a call can be refused.

use vstd::prelude::*;

verus! {

/// The two domain errors. Neither goes away on a retry with the same inputs.
#[derive(Clone, Copy, Debug, PartialEq, Eq, Structural)]
pub enum TreasuryError {
    /// The caller is not the identity that the action belongs to.
    Unauthorized,
    /// The requested amount is above the caller's cap for one withdrawal.
    ExceedsSpendingLimit,
}

/// Every reason for which a call leaves the state as it was.
#[derive(Clone, Copy, Debug, PartialEq, Eq, Structural)]
pub enum Failure {
    /// A domain rule refused the call.
    Rejected(TreasuryError),
    /// The record was to be created at an address that already holds one.
    AddressInUse,
    /// The host did not carry out the transfer, for instance because the
    /// vault holds too little.
    TransferFailed,
    /// The running total of withdrawals would no longer fit in 64 bits.
    TotalOverflow,
}

impl TreasuryError {
    /// The text shown to the caller for this error.
    pub open spec fn spec_message(self) -> Seq<char> {
        match self {
            TreasuryError::Unauthorized => "You don't have permission to perform this action"@,
            TreasuryError::ExceedsSpendingLimit => "Amount exceeds your spending limit"@,
        }
    }

    /// The text shown to the caller for this error.
    pub fn message(&self) -> (text: &'static str)
        ensures
            text@ == self.spec_message(),
    {
        match self {
            TreasuryError::Unauthorized => "You don't have permission to perform this action",
            TreasuryError::ExceedsSpendingLimit => "Amount exceeds your spending limit",
        }
    }
}

} // verus!
