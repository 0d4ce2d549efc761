//! A custodial treasury with many parties: one administrator onboards users,
//! each with a role and a cap on a single withdrawal, and the users draw funds
//! from a shared vault. The host ledger keeps the accounts, checks the
//! callers' signatures and moves the funds; this crate decides what each call
//! may do and what it leaves behind.

pub mod address;
pub mod error;
pub mod identity;
pub mod instructions;
pub mod laws;
pub mod seeds;
pub mod state;

pub use crate::error::{Failure, TreasuryError};
pub use crate::identity::Identity;
pub use crate::state::{Role, Treasury, UserAccount};
pub use crate::instructions::{
    add_user, initialize, request_transfer, withdraw, AddUser, AuditEntry, Initialize, Transfer,
    TransferOutcome, Withdraw,
};
