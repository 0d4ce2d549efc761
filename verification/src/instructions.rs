//! The three calls: creating a treasury, onboarding a user, withdrawing.
//!
//! The host stores the accounts and moves the funds. Each call therefore works
//! on the accounts that the host hands in, as plain values, and leaves in them
//! what the host is to store. Where an account may not exist yet, it is an
//! `Option`: `None` is an address that holds nothing.

use crate::error::{Failure, TreasuryError};
use crate::identity::Identity;
use crate::seeds::{signer_seed_bytes, signer_seeds};
use crate::state::{Role, Treasury, UserAccount};
use vstd::prelude::*;

verus! {

/// The accounts of [`initialize`].
#[derive(Clone, Copy, Debug, PartialEq, Eq)]
pub struct Initialize {
    /// What the address derived from `admin` holds: nothing before the
    /// treasury is created, its record afterwards.
    pub treasury: Option<Treasury>,
    /// The caller, who becomes the administrator.
    pub admin: Identity,
}

/// The accounts of [`add_user`].
#[derive(Clone, Copy, Debug, PartialEq, Eq)]
pub struct AddUser {
    /// The treasury that the user joins.
    pub treasury: Treasury,
    /// What the address derived from the treasury and `new_user` holds:
    /// nothing before the user is onboarded, the user's record afterwards.
    pub user_account: Option<UserAccount>,
    /// The identity to onboard.
    pub new_user: Identity,
    /// The caller.
    pub authority: Identity,
}

/// The accounts of [`withdraw`].
#[derive(Clone, Copy, Debug, PartialEq, Eq)]
pub struct Withdraw {
    /// The treasury whose vault pays.
    pub treasury: Treasury,
    /// The address of that vault.
    pub treasury_vault: Identity,
    /// The record that the withdrawal is booked on.
    pub user_account: UserAccount,
    /// The address that receives the funds.
    pub recipient: Identity,
    /// The caller.
    pub authority: Identity,
}

/// What the host is asked to do for a withdrawal: move `amount` from `from`
/// to `to`, with the treasury signing by `signer_seeds`.
#[derive(Debug, PartialEq, Eq)]
pub struct Transfer {
    pub from: Identity,
    pub to: Identity,
    pub amount: u64,
    pub signer_seeds: Vec<Vec<u8>>,
}

/// A [`Transfer`] as a mathematical value.
pub struct TransferView {
    pub from: Identity,
    pub to: Identity,
    pub amount: u64,
    pub signer_seeds: Seq<Seq<u8>>,
}

impl View for Transfer {
    type V = TransferView;

    open spec fn view(&self) -> TransferView {
        TransferView {
            from: self.from,
            to: self.to,
            amount: self.amount,
            signer_seeds: self.signer_seeds.deep_view(),
        }
    }
}

/// What the host reports of a transfer that it was asked for.
#[derive(Clone, Copy, Debug, PartialEq, Eq, Structural)]
pub enum TransferOutcome {
    /// The funds have moved.
    Completed,
    /// Nothing has moved.
    Failed,
}

/// An entry of the audit log.
#[derive(Clone, Copy, Debug, PartialEq, Eq)]
pub enum AuditEntry {
    /// A user was onboarded with a role.
    UserAdded { user: Identity, role: Role },
    /// A user withdrew an amount.
    Withdrawal { amount: u64, user: Identity },
}

impl Initialize {
    /// The result of [`initialize`] and the accounts that it leaves.
    pub open spec fn step(self, treasury_bump: u8) -> (Result<(), Failure>, Initialize) {
        if self.treasury is Some {
            (Err(Failure::AddressInUse), self)
        } else {
            (
                Ok(()),
                Initialize {
                    treasury: Some(Treasury::created(self.admin, treasury_bump)),
                    admin: self.admin,
                },
            )
        }
    }
}

impl AddUser {
    /// The result of [`add_user`] and the accounts that it leaves.
    pub open spec fn step(self, role: Role, spending_limit: u64) -> (
        Result<AuditEntry, Failure>,
        AddUser,
    ) {
        if self.authority != self.treasury.admin {
            (Err(Failure::Rejected(TreasuryError::Unauthorized)), self)
        } else if self.user_account is Some {
            (Err(Failure::AddressInUse), self)
        } else {
            (
                Ok(AuditEntry::UserAdded { user: self.new_user, role }),
                AddUser {
                    treasury: self.treasury,
                    user_account: Some(UserAccount::created(self.new_user, role, spending_limit)),
                    new_user: self.new_user,
                    authority: self.authority,
                },
            )
        }
    }
}

impl UserAccount {
    /// Why this account refuses `authority` a withdrawal of `amount` before
    /// the host is asked for anything; `None` where it does not refuse.
    pub open spec fn refusal(self, authority: Identity, amount: u64) -> Option<Failure> {
        if authority != self.user {
            Some(Failure::Rejected(TreasuryError::Unauthorized))
        } else if amount > self.spending_limit {
            Some(Failure::Rejected(TreasuryError::ExceedsSpendingLimit))
        } else if self.total_withdrawn + amount > u64::MAX {
            Some(Failure::TotalOverflow)
        } else {
            None
        }
    }

    /// The account after `authority` has asked for `amount` and the host has
    /// answered the transfer with `transfer`.
    pub open spec fn after_withdraw(
        self,
        authority: Identity,
        amount: u64,
        transfer: TransferOutcome,
    ) -> UserAccount {
        if self.refusal(authority, amount) is None && transfer == TransferOutcome::Completed {
            UserAccount {
                user: self.user,
                role: self.role,
                spending_limit: self.spending_limit,
                total_withdrawn: (self.total_withdrawn + amount) as u64,
            }
        } else {
            self
        }
    }
}

impl Withdraw {
    /// The transfer that a withdrawal of `amount` asks the host for.
    pub open spec fn transfer(self, amount: u64) -> TransferView {
        TransferView {
            from: self.treasury_vault,
            to: self.recipient,
            amount,
            signer_seeds: signer_seeds(self.treasury),
        }
    }

    /// The result of [`withdraw`] and the accounts that it leaves.
    pub open spec fn step(self, amount: u64, transfer: TransferOutcome) -> (
        Result<AuditEntry, Failure>,
        Withdraw,
    ) {
        (
            match self.user_account.refusal(self.authority, amount) {
                Some(failure) => Err(failure),
                None => if transfer == TransferOutcome::Completed {
                    Ok(AuditEntry::Withdrawal { amount, user: self.user_account.user })
                } else {
                    Err(Failure::TransferFailed)
                },
            },
            Withdraw {
                treasury: self.treasury,
                treasury_vault: self.treasury_vault,
                user_account: self.user_account.after_withdraw(self.authority, amount, transfer),
                recipient: self.recipient,
                authority: self.authority,
            },
        )
    }
}

/// Creates the treasury of the caller, with the caller as administrator, the
/// given bump seed and no members.
///
/// It fails with `AddressInUse`, and changes nothing, exactly when the
/// treasury's address already holds a record: an administrator has one
/// treasury, and a second initialization never succeeds.
pub fn initialize(ctx: &mut Initialize, treasury_bump: u8) -> (result: Result<(), Failure>)
    ensures
        (result, *final(ctx)) == old(ctx).step(treasury_bump),
        result is Ok <==> old(ctx).treasury is None,
        result is Ok ==> final(ctx).treasury == Some(
            (Treasury { admin: old(ctx).admin, bump: treasury_bump, total_members: 0 }),
        ),
        result is Err ==> result == Err::<(), Failure>(Failure::AddressInUse),
        result is Err ==> *final(ctx) == *old(ctx),
        final(ctx).admin == old(ctx).admin,
{
    if ctx.treasury.is_some() {
        return Err(Failure::AddressInUse);
    }
    ctx.treasury = Some(Treasury { admin: ctx.admin, bump: treasury_bump, total_members: 0 });
    Ok(())
}

/// Onboards `ctx.new_user` with a role and a cap on a single withdrawal, and
/// returns the entry for the audit log.
///
/// Only the administrator of the treasury may do so: any other caller gets
/// `Unauthorized`, whatever the role and the cap. A user who already has an
/// account in this treasury cannot be onboarded again (`AddressInUse`). A
/// failed call changes nothing. The treasury's record, its member counter
/// included, is left as it was in every case.
pub fn add_user(ctx: &mut AddUser, role: Role, spending_limit: u64) -> (result: Result<
    AuditEntry,
    Failure,
>)
    ensures
        (result, *final(ctx)) == old(ctx).step(role, spending_limit),
        old(ctx).authority != old(ctx).treasury.admin ==> result == Err::<AuditEntry, Failure>(
            Failure::Rejected(TreasuryError::Unauthorized),
        ),
        result is Ok <==> old(ctx).authority == old(ctx).treasury.admin
            && old(ctx).user_account is None,
        result is Ok ==> final(ctx).user_account == Some(
            (UserAccount {
                user: old(ctx).new_user,
                role,
                spending_limit,
                total_withdrawn: 0,
            }),
        ),
        result is Err ==> *final(ctx) == *old(ctx),
        final(ctx).treasury == old(ctx).treasury,
        final(ctx).new_user == old(ctx).new_user,
        final(ctx).authority == old(ctx).authority,
{
    if ctx.authority != ctx.treasury.admin {
        return Err(Failure::Rejected(TreasuryError::Unauthorized));
    }
    if ctx.user_account.is_some() {
        return Err(Failure::AddressInUse);
    }
    ctx.user_account = Some(
        UserAccount { user: ctx.new_user, role, spending_limit, total_withdrawn: 0 },
    );
    Ok(AuditEntry::UserAdded { user: ctx.new_user, role })
}

/// Checks a withdrawal of `amount` against the user's record.
fn check_withdrawal(account: &UserAccount, authority: &Identity, amount: u64) -> (refusal: Option<
    Failure,
>)
    ensures
        refusal == account.refusal(*authority, amount),
{
    if *authority != account.user {
        return Some(Failure::Rejected(TreasuryError::Unauthorized));
    }
    if amount > account.spending_limit {
        return Some(Failure::Rejected(TreasuryError::ExceedsSpendingLimit));
    }
    if account.total_withdrawn.checked_add(amount).is_none() {
        return Some(Failure::TotalOverflow);
    }
    None
}

/// The transfer that the host is to carry out for a withdrawal of `amount`:
/// from the treasury's vault to the recipient, signed with the treasury's
/// seeds.
///
/// No transfer is to be made, and the reason is returned, where the caller is
/// not the user of the account (`Unauthorized`), else where `amount` is above
/// the user's cap (`ExceedsSpendingLimit`), else where the user's running
/// total could not take `amount` (`TotalOverflow`).
pub fn request_transfer(ctx: &Withdraw, amount: u64) -> (result: Result<Transfer, Failure>)
    ensures
        match ctx.user_account.refusal(ctx.authority, amount) {
            Some(failure) => result == Err::<Transfer, Failure>(failure),
            None => result is Ok && result->Ok_0@ == ctx.transfer(amount),
        },
        ctx.authority != ctx.user_account.user ==> result == Err::<Transfer, Failure>(
            Failure::Rejected(TreasuryError::Unauthorized),
        ),
{
    match check_withdrawal(&ctx.user_account, &ctx.authority, amount) {
        Some(failure) => Err(failure),
        None => Ok(
            Transfer {
                from: ctx.treasury_vault,
                to: ctx.recipient,
                amount,
                signer_seeds: signer_seed_bytes(&ctx.treasury),
            },
        ),
    }
}

/// Books a withdrawal of `amount` for which the host has answered the
/// transfer of [`request_transfer`] with `transfer`, and returns the entry
/// for the audit log.
///
/// The call succeeds exactly when the caller is the user of the account,
/// `amount` is at most the user's cap for one withdrawal, the running total
/// can take `amount`, and the transfer was completed. It then adds `amount`
/// to the running total and changes nothing else. The cap bounds each
/// withdrawal by itself: the running total is not held against it.
///
/// Otherwise nothing changes, and the first of these is returned:
/// `Unauthorized` for another caller, whatever the amount;
/// `ExceedsSpendingLimit`; `TotalOverflow`; `TransferFailed`.
pub fn withdraw(ctx: &mut Withdraw, amount: u64, transfer: TransferOutcome) -> (result: Result<
    AuditEntry,
    Failure,
>)
    ensures
        (result, *final(ctx)) == old(ctx).step(amount, transfer),
        old(ctx).authority != old(ctx).user_account.user ==> result == Err::<AuditEntry, Failure>(
            Failure::Rejected(TreasuryError::Unauthorized),
        ),
        result is Ok <==> old(ctx).user_account.refusal(old(ctx).authority, amount) is None
            && transfer == TransferOutcome::Completed,
        result is Ok ==> amount <= old(ctx).user_account.spending_limit,
        result is Ok ==> final(ctx).user_account.total_withdrawn
            == old(ctx).user_account.total_withdrawn + amount,
        result is Err ==> *final(ctx) == *old(ctx),
        old(ctx).user_account.evolves_to(final(ctx).user_account),
        final(ctx).treasury == old(ctx).treasury,
        final(ctx).treasury_vault == old(ctx).treasury_vault,
        final(ctx).recipient == old(ctx).recipient,
        final(ctx).authority == old(ctx).authority,
{
    match check_withdrawal(&ctx.user_account, &ctx.authority, amount) {
        Some(failure) => Err(failure),
        None => match transfer {
            TransferOutcome::Failed => Err(Failure::TransferFailed),
            TransferOutcome::Completed => {
                ctx.user_account.total_withdrawn = ctx.user_account.total_withdrawn + amount;
                Ok(AuditEntry::Withdrawal { amount, user: ctx.user_account.user })
            },
        },
    }
}

} // verus!
