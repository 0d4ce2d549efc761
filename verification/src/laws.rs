//! What holds of the calls taken together.

use crate::error::Failure;
use crate::identity::Identity;
use crate::instructions::{Initialize, TransferOutcome};
use crate::state::UserAccount;
use vstd::prelude::*;

verus! {

/// One call of `withdraw` on a user's account, as the account sees it: who
/// called, for how much, and what the host answered.
pub struct Attempt {
    pub authority: Identity,
    pub amount: u64,
    pub transfer: TransferOutcome,
}

/// The account that `account` has become after the calls `attempts`, in order.
pub open spec fn replay(account: UserAccount, attempts: Seq<Attempt>) -> UserAccount
    decreases attempts.len(),
{
    if attempts.len() == 0 {
        account
    } else {
        let last = attempts.last();
        replay(account, attempts.drop_last()).after_withdraw(
            last.authority,
            last.amount,
            last.transfer,
        )
    }
}

/// A second initialization never succeeds. Whatever the accounts of a first
/// call of `initialize` were, a second call on what the first one left, for
/// the same administrator, fails with `AddressInUse` and changes nothing.
pub proof fn lemma_initialize_twice(ctx: Initialize, first_bump: u8, second_bump: u8)
    ensures
        ctx.step(first_bump).1.admin == ctx.admin,
        ctx.step(first_bump).1.step(second_bump) == (
            Err::<(), Failure>(Failure::AddressInUse),
            ctx.step(first_bump).1,
        ),
{
}

/// One call of `withdraw` changes nothing of a user's account but its running
/// total, and the total either stays or grows by exactly the amount.
pub proof fn lemma_withdraw_only_adds(
    account: UserAccount,
    authority: Identity,
    amount: u64,
    transfer: TransferOutcome,
)
    ensures
        account.evolves_to(account.after_withdraw(authority, amount, transfer)),
        account.after_withdraw(authority, amount, transfer) == account || account.after_withdraw(
            authority,
            amount,
            transfer,
        ).total_withdrawn == account.total_withdrawn + amount,
{
}

/// The running total never shrinks over the history of an account: after any
/// calls of `withdraw`, by whichever callers and for whichever amounts, the
/// total is at least what it was at any earlier point of that history, and the
/// user, the role and the cap are what they were.
pub proof fn lemma_total_never_shrinks(account: UserAccount, attempts: Seq<Attempt>, earlier: int)
    requires
        0 <= earlier <= attempts.len(),
    ensures
        replay(account, attempts.take(earlier)).evolves_to(replay(account, attempts)),
    decreases attempts.len(),
{
    if earlier == attempts.len() {
        assert(attempts.take(earlier) =~= attempts);
    } else {
        let last = attempts.last();
        let before = attempts.drop_last();
        assert(before.take(earlier) =~= attempts.take(earlier));
        lemma_total_never_shrinks(account, before, earlier);
        lemma_withdraw_only_adds(
            replay(account, before),
            last.authority,
            last.amount,
            last.transfer,
        );
    }
}

/// The cap bounds each withdrawal by itself. What an account has withdrawn
/// before does not decide whether a request is refused, as long as its total
/// can take the amount.
pub proof fn lemma_cap_is_per_withdrawal(
    account: UserAccount,
    other_total: u64,
    authority: Identity,
    amount: u64,
)
    requires
        account.total_withdrawn + amount <= u64::MAX,
        other_total + amount <= u64::MAX,
    ensures
        account.refusal(authority, amount) == (UserAccount {
            user: account.user,
            role: account.role,
            spending_limit: account.spending_limit,
            total_withdrawn: other_total,
        }).refusal(authority, amount),
{
}

} // verus!
