//! The addresses of this program's accounts. The host derives an address from
//! a list of seeds and the program's own identity; the seeds are those of
//! [`crate::seeds`].

use crate::identity::Identity;
use crate::seeds::{
    treasury_seed_bytes, treasury_seeds, user_seed_bytes, user_seeds, vault_seed_bytes,
    vault_seeds,
};
use anchor_lang::prelude::Pubkey;
use vstd::prelude::*;

verus! {

/// The address that the host derives from `seeds` for the program
/// `program_id`, with the bump seed that completes the derivation; `None`
/// where the host derives none.
pub uninterp spec fn program_address(seeds: Seq<Seq<u8>>, program_id: Seq<u8>) -> Option<
    (Seq<u8>, u8),
>;

/// Whether `found` is what the host derives from `seeds` for `program_id`.
pub open spec fn is_derived(
    found: Option<(Identity, u8)>,
    seeds: Seq<Seq<u8>>,
    program_id: Identity,
) -> bool {
    match found {
        Some((address, bump)) => program_address(seeds, program_id@) == Some((address@, bump)),
        None => program_address(seeds, program_id@) is None,
    }
}

/// The host derives one address from given seeds. Two results of a derivation
/// from the same seeds for the same program are the same: an administrator
/// has one treasury address, a treasury one vault address, and a user one
/// account address in a treasury.
pub proof fn lemma_derived_once(
    first: Option<(Identity, u8)>,
    second: Option<(Identity, u8)>,
    seeds: Seq<Seq<u8>>,
    program_id: Identity,
)
    requires
        is_derived(first, seeds, program_id),
        is_derived(second, seeds, program_id),
    ensures
        first == second,
{
    if let Some((address, _)) = first {
        if let Some((other, _)) = second {
            Identity::lemma_view_injective(address, other);
        }
    }
}

/// Calls `Pubkey::try_find_program_address`. Nothing is proved of it: the
/// contract only names its result, which is a function of the seeds and the
/// program's identity alone. The call hashes the seeds, the program's identity
/// and a bump seed, trying bump seeds from 255 downwards, and gives the first
/// hash that is no point of the curve, with its bump seed; it gives `None`
/// where there are 16 seeds or more, a seed is longer than 32 bytes, or no
/// bump seed from 255 down to 1 does.
#[verifier::external_body]
fn find_program_address(seeds: &Vec<Vec<u8>>, program_id: &Identity) -> (found: Option<
    (Identity, u8),
>)
    ensures
        match found {
            Some((address, bump)) => program_address(seeds.deep_view(), program_id@) == Some(
                (address@, bump),
            ),
            None => program_address(seeds.deep_view(), program_id@) is None,
        },
{
    let slices: Vec<&[u8]> = seeds.iter().map(|seed| seed.as_slice()).collect();
    let program = Pubkey::new_from_array(program_id.bytes);
    Pubkey::try_find_program_address(&slices, &program).map(
        |(address, bump)| (Identity { bytes: address.to_bytes() }, bump),
    )
}

/// The address of the treasury of `admin` under the program `program_id`,
/// with its bump seed.
pub fn treasury_address(admin: &Identity, program_id: &Identity) -> (found: Option<
    (Identity, u8),
>)
    ensures
        is_derived(found, treasury_seeds(*admin), *program_id),
{
    let seeds = treasury_seed_bytes(admin);
    find_program_address(&seeds, program_id)
}

/// The address of the vault of the treasury at the address `treasury`, with
/// its bump seed.
pub fn vault_address(treasury: &Identity, program_id: &Identity) -> (found: Option<
    (Identity, u8),
>)
    ensures
        is_derived(found, vault_seeds(*treasury), *program_id),
{
    let seeds = vault_seed_bytes(treasury);
    find_program_address(&seeds, program_id)
}

/// The address of the account of `user` in the treasury at the address
/// `treasury`, with its bump seed.
pub fn user_account_address(treasury: &Identity, user: &Identity, program_id: &Identity) -> (found:
    Option<(Identity, u8)>)
    ensures
        is_derived(found, user_seeds(*treasury, *user), *program_id),
{
    let seeds = user_seed_bytes(treasury, user);
    find_program_address(&seeds, program_id)
}

} // verus!
