use crate::state::{vault_seed, vault_seed_bytes, Identity};
use anchor_lang::prelude::Pubkey;
use vstd::prelude::*;

verus! {

/// The address derived from the seeds `[seed, [bump]]` and a program, if the
/// derivation yields one that lies off the curve.
pub uninterp spec fn program_address(seed: Seq<u8>, bump: u8, program_id: Seq<u8>) -> Option<Seq<u8>>;

/// The first address found from `[seed, [bump]]` for bumps 255 down to 1,
/// together with that bump.
pub uninterp spec fn canonical_address(seed: Seq<u8>, program_id: Seq<u8>) -> Option<(Seq<u8>, u8)>;

/// An address, if any, as bytes.
pub open spec fn key_view(k: Option<Identity>) -> Option<Seq<u8>> {
    match k {
        Some(a) => Some(a@),
        None => None,
    }
}

/// An address and its bump, if any, with the address as bytes.
pub open spec fn located_view(k: Option<(Identity, u8)>) -> Option<(Seq<u8>, u8)> {
    match k {
        Some((a, b)) => Some((a@, b)),
        None => None,
    }
}

/// Relies on `Pubkey::create_program_address`: a hash of the seeds and the
/// program, rejected when it lies on the curve; a function of its arguments alone.
#[verifier::external_body]
fn create_program_address(seed: &Vec<u8>, bump: u8, program_id: &Identity) -> (r: Option<Identity>)
    ensures
        key_view(r) == program_address(seed@, bump, program_id@),
{
    let bump_seed = [bump];
    let seeds: [&[u8]; 2] = [seed.as_slice(), &bump_seed];
    Pubkey::create_program_address(&seeds, &Pubkey::new_from_array(program_id.bytes))
        .ok()
        .map(|p| Identity { bytes: p.to_bytes() })
}

/// Relies on `Pubkey::try_find_program_address`: a search over the bumps that
/// depends on the seed and the program alone.
#[verifier::external_body]
fn try_find_program_address(seed: &Vec<u8>, program_id: &Identity) -> (r: Option<(Identity, u8)>)
    ensures
        located_view(r) == canonical_address(seed@, program_id@),
{
    Pubkey::try_find_program_address(&[seed.as_slice()], &Pubkey::new_from_array(program_id.bytes))
        .map(|(p, b)| (Identity { bytes: p.to_bytes() }, b))
}

/// The vault record's address for `program_id` under `bump`, if there is one.
pub fn derive_vault_address(program_id: &Identity, bump: u8) -> (r: Option<Identity>)
    ensures
        key_view(r) == program_address(vault_seed(), bump, program_id@),
{
    let seed = vault_seed_bytes();
    create_program_address(&seed, bump, program_id)
}

/// The canonical address of the vault record for `program_id`, with its bump.
pub fn find_vault_address(program_id: &Identity) -> (r: Option<(Identity, u8)>)
    ensures
        located_view(r) == canonical_address(vault_seed(), program_id@),
{
    let seed = vault_seed_bytes();
    try_find_program_address(&seed, program_id)
}

} // verus!
