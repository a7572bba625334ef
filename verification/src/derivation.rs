//! Where a vault lives: its address is derived from a fixed tag and the owner's
//! address, so that anyone can compute it and nobody holds a key for it.

use vstd::prelude::*;
use vstd::slice::slice_to_vec;
use anchor_lang::prelude::Pubkey;
use crate::address::Address;

verus! {

/// The tag that every vault's address is derived from: the word "vault" in
/// ASCII.
pub const VAULT_SEED: [u8; 5] = [0x76, 0x61, 0x75, 0x6c, 0x74];

/// What `Pubkey::try_find_program_address` returns for the given seeds and
/// program: an address that the program controls, with the nonce that was
/// appended to the seeds to reach it, or `None` where it finds no such address.
pub uninterp spec fn program_address(seeds: Seq<Seq<u8>>, program: Seq<u8>) -> Option<(Seq<u8>, u8)>;

/// Calls `Pubkey::try_find_program_address` of `anchor_lang` (which has it from
/// `solana_pubkey`) on the given seeds and program. The contract gives the
/// result the name `program_address`, and says nothing of what it is: only
/// that it depends on the seeds and the program alone.
#[verifier::external_body]
fn find_program_address(seeds: &Vec<Vec<u8>>, program: &[u8; 32]) -> (found: Option<([u8; 32], u8)>)
    ensures
        match found {
            Some((address, bump)) => program_address(seeds.deep_view(), program@) == Some((address@, bump)),
            None => program_address(seeds.deep_view(), program@) is None,
        },
{
    let seeds: Vec<&[u8]> = seeds.iter().map(|seed| seed.as_slice()).collect();
    let found = Pubkey::try_find_program_address(&seeds, &Pubkey::new_from_array(*program));
    found.map(|(address, bump)| (address.to_bytes(), bump))
}

/// The seeds that the address of `owner`'s vault is derived from: the tag, then
/// the owner's address.
pub open spec fn vault_seeds_of(owner: Address) -> Seq<Seq<u8>> {
    seq![VAULT_SEED@, owner@]
}

/// The seeds that show the authority of `owner`'s vault: those its address is
/// derived from, closed by the nonce.
pub open spec fn signer_seeds_of(owner: Address, bump: u8) -> Seq<Seq<u8>> {
    vault_seeds_of(owner).push(seq![bump])
}

/// Where the vault of `owner` lives under `program`: the bytes of its address
/// and the nonce that goes with it.
pub open spec fn vault_address_of(program: Address, owner: Address) -> Option<(Seq<u8>, u8)> {
    program_address(vault_seeds_of(owner), program@)
}

/// Builds the seeds that the address of `owner`'s vault is derived from.
pub fn vault_seeds(owner: &Address) -> (seeds: Vec<Vec<u8>>)
    ensures
        seeds.deep_view() == vault_seeds_of(*owner),
{
    let mut seeds: Vec<Vec<u8>> = Vec::new();
    seeds.push(slice_to_vec(VAULT_SEED.as_slice()));
    seeds.push(slice_to_vec(owner.bytes.as_slice()));
    assert(seeds.deep_view() =~~= vault_seeds_of(*owner));
    seeds
}

/// Builds the seeds that show the authority of `owner`'s vault.
pub fn signer_seeds(owner: &Address, bump: u8) -> (seeds: Vec<Vec<u8>>)
    ensures
        seeds.deep_view() == signer_seeds_of(*owner, bump),
{
    let mut seeds = vault_seeds(owner);
    let mut last: Vec<u8> = Vec::new();
    last.push(bump);
    seeds.push(last);
    assert(seeds.deep_view() =~~= signer_seeds_of(*owner, bump));
    seeds
}

/// Derives the address of `owner`'s vault under `program`, and the nonce that
/// goes with it. There is none where the search for a nonce fails.
pub fn vault_address(program: &Address, owner: &Address) -> (found: Option<(Address, u8)>)
    ensures
        match found {
            Some((address, bump)) => vault_address_of(*program, *owner) == Some((address@, bump)),
            None => vault_address_of(*program, *owner) is None,
        },
{
    let seeds = vault_seeds(owner);
    match find_program_address(&seeds, &program.bytes) {
        Some((bytes, bump)) => Some((Address::new(bytes), bump)),
        None => None,
    }
}

} // verus!
