//! The seeds from which the host derives the addresses of this program's
//! accounts. Each list starts with a tag that names the kind of account; the
//! identities that follow make the address unique.

use crate::identity::Identity;
use crate::state::Treasury;
use vstd::prelude::*;

verus! {

/// The tag of a treasury's address: the ASCII bytes of `treasury`.
pub open spec fn treasury_tag() -> Seq<u8> {
    seq![116u8, 114u8, 101u8, 97u8, 115u8, 117u8, 114u8, 121u8]
}

/// The tag of a vault's address: the ASCII bytes of `vault`.
pub open spec fn vault_tag() -> Seq<u8> {
    seq![118u8, 97u8, 117u8, 108u8, 116u8]
}

/// The tag of a user account's address: the ASCII bytes of `user`.
pub open spec fn user_tag() -> Seq<u8> {
    seq![117u8, 115u8, 101u8, 114u8]
}

/// The seeds of the treasury of `admin`.
pub open spec fn treasury_seeds(admin: Identity) -> Seq<Seq<u8>> {
    seq![treasury_tag(), admin@]
}

/// The seeds of the vault of the treasury at the address `treasury`.
pub open spec fn vault_seeds(treasury: Identity) -> Seq<Seq<u8>> {
    seq![vault_tag(), treasury@]
}

/// The seeds of the account of `user` in the treasury at the address
/// `treasury`.
pub open spec fn user_seeds(treasury: Identity, user: Identity) -> Seq<Seq<u8>> {
    seq![user_tag(), treasury@, user@]
}

/// The seeds with which a treasury signs: those of its address, completed by
/// its bump seed.
pub open spec fn signer_seeds(treasury: Treasury) -> Seq<Seq<u8>> {
    seq![treasury_tag(), treasury.admin@, seq![treasury.bump]]
}

/// The seeds of the treasury of `admin`, as bytes.
pub fn treasury_seed_bytes(admin: &Identity) -> (seeds: Vec<Vec<u8>>)
    ensures
        seeds.deep_view() == treasury_seeds(*admin),
{
    let tag: Vec<u8> = vec![116u8, 114u8, 101u8, 97u8, 115u8, 117u8, 114u8, 121u8];
    let seeds: Vec<Vec<u8>> = vec![tag, admin.to_vec()];
    assert(seeds.deep_view() =~~= treasury_seeds(*admin));
    seeds
}

/// The seeds of the vault of the treasury at `treasury`, as bytes.
pub fn vault_seed_bytes(treasury: &Identity) -> (seeds: Vec<Vec<u8>>)
    ensures
        seeds.deep_view() == vault_seeds(*treasury),
{
    let tag: Vec<u8> = vec![118u8, 97u8, 117u8, 108u8, 116u8];
    let seeds: Vec<Vec<u8>> = vec![tag, treasury.to_vec()];
    assert(seeds.deep_view() =~~= vault_seeds(*treasury));
    seeds
}

/// The seeds of the account of `user` in the treasury at `treasury`, as
/// bytes.
pub fn user_seed_bytes(treasury: &Identity, user: &Identity) -> (seeds: Vec<Vec<u8>>)
    ensures
        seeds.deep_view() == user_seeds(*treasury, *user),
{
    let tag: Vec<u8> = vec![117u8, 115u8, 101u8, 114u8];
    let seeds: Vec<Vec<u8>> = vec![tag, treasury.to_vec(), user.to_vec()];
    assert(seeds.deep_view() =~~= user_seeds(*treasury, *user));
    seeds
}

/// The seeds with which `treasury` signs, as bytes.
pub fn signer_seed_bytes(treasury: &Treasury) -> (seeds: Vec<Vec<u8>>)
    ensures
        seeds.deep_view() == signer_seeds(*treasury),
{
    let tag: Vec<u8> = vec![116u8, 114u8, 101u8, 97u8, 115u8, 117u8, 114u8, 121u8];
    let bump: Vec<u8> = vec![treasury.bump];
    let seeds: Vec<Vec<u8>> = vec![tag, treasury.admin.to_vec(), bump];
    assert(seeds.deep_view() =~~= signer_seeds(*treasury));
    seeds
}

} // verus!
