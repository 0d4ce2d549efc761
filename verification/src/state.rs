//! The persistent records: one treasury per administrator, one user account
//! per treasury and user.

use crate::identity::Identity;
use vstd::prelude::*;

verus! {

/// The tier of an onboarded user. It is recorded with the user and gates
/// nothing further.
#[derive(Clone, Copy, Debug, PartialEq, Eq, Structural)]
pub enum Role {
    Admin,
    Manager,
    Member,
}

/// The registry record of one administrator.
#[derive(Clone, Copy, Debug, PartialEq, Eq)]
pub struct Treasury {
    /// Who controls the treasury. Set at creation, never changed.
    pub admin: Identity,
    /// The bump seed that completes the derivation of the treasury's address
    /// from `admin`. Set at creation, never changed.
    pub bump: u8,
    /// A counter of onboarded users. No operation changes it: it stays at the
    /// zero it is created with.
    pub total_members: u32,
}

/// The authorization record of one user of one treasury.
#[derive(Clone, Copy, Debug, PartialEq, Eq)]
pub struct UserAccount {
    /// The onboarded identity. Set at creation, never changed.
    pub user: Identity,
    /// The user's tier. Set at creation, never changed.
    pub role: Role,
    /// The most that one withdrawal may move. Set at creation, never changed.
    pub spending_limit: u64,
    /// The sum of all successful withdrawals of this user. It only grows.
    pub total_withdrawn: u64,
}

impl Treasury {
    /// The record that initialization writes.
    pub open spec fn created(admin: Identity, bump: u8) -> Treasury {
        Treasury { admin, bump, total_members: 0 }
    }
}

impl UserAccount {
    /// The record that onboarding writes.
    pub open spec fn created(user: Identity, role: Role, spending_limit: u64) -> UserAccount {
        UserAccount { user, role, spending_limit, total_withdrawn: 0 }
    }

    /// Whether `later` can be a later state of the account `self`: nothing
    /// but the running total differs, and the total has not shrunk.
    pub open spec fn evolves_to(self, later: UserAccount) -> bool {
        &&& later.user == self.user
        &&& later.role == self.role
        &&& later.spending_limit == self.spending_limit
        &&& later.total_withdrawn >= self.total_withdrawn
    }
}

} // verus!
