//! Deterministic (program-derived) account addresses.
//!
//! The metadata and master-edition accounts, and the creator's associated
//! token account, must stand at addresses derived from fixed seed patterns.
//! The derivation itself (a hash search over bump seeds) is done by the host
//! runtime's library; this module names its result and states the seed
//! patterns the handler uses.

use vstd::prelude::*;
use crate::address::Address;
use crate::programs::{spec_associated_token_program_id, spec_token_program_id};

verus! {

/// The address that the host runtime derives from a seed list and a deriving
/// program. A function of its arguments alone.
pub uninterp spec fn derived_address(seeds: Seq<Seq<u8>>, program: Seq<u8>) -> Seq<u8>;

/// Relies on `solana_program::pubkey::Pubkey::find_program_address`: the
/// derived address is a function of the seeds and the deriving program alone.
/// The callee panics when a seed is over 32 bytes or when, counting the bump
/// seed it appends, more than 16 seeds are given; the preconditions rule both
/// out. It also panics in the statistically improbable event that no bump
/// seed yields a valid address; that event is assumed not to occur.
#[verifier::external_body]
fn find_program_address(seeds: &Vec<Vec<u8>>, program: &Address) -> (r: Address)
    requires
        seeds@.len() <= 15,
        forall|i: int| 0 <= i < seeds@.len() ==> (#[trigger] seeds@[i])@.len() <= 32,
    ensures
        r@ == derived_address(seeds.deep_view(), program@),
{
    let refs: Vec<&[u8]> = seeds.iter().map(|s| s.as_slice()).collect();
    let program_key = solana_program::pubkey::Pubkey::new_from_array(program.bytes);
    let (key, _bump) = solana_program::pubkey::Pubkey::find_program_address(&refs, &program_key);
    Address { bytes: key.to_bytes() }
}

/// First seed of both metadata-program derivations: the bytes of "metadata".
pub open spec fn seed_prefix() -> Seq<u8> {
    seq![109u8, 101, 116, 97, 100, 97, 116, 97]
}

/// Last seed of the master-edition derivation: the bytes of "edition".
pub open spec fn seed_edition() -> Seq<u8> {
    seq![101u8, 100, 105, 116, 105, 111, 110]
}

/// Seed pattern of the metadata account: ["metadata", metadata program, mint].
pub open spec fn metadata_seeds(program: Seq<u8>, mint: Seq<u8>) -> Seq<Seq<u8>> {
    seq![seed_prefix(), program, mint]
}

/// Seed pattern of the master edition: ["metadata", metadata program, mint, "edition"].
pub open spec fn edition_seeds(program: Seq<u8>, mint: Seq<u8>) -> Seq<Seq<u8>> {
    seq![seed_prefix(), program, mint, seed_edition()]
}

/// Seed pattern of an associated token account: [owner, token program, mint].
pub open spec fn associated_token_seeds(owner: Seq<u8>, mint: Seq<u8>) -> Seq<Seq<u8>> {
    seq![owner, spec_token_program_id(), mint]
}

/// The required metadata-account address for a mint, derived under the
/// metadata program.
pub open spec fn metadata_account_address(program: Seq<u8>, mint: Seq<u8>) -> Seq<u8> {
    derived_address(metadata_seeds(program, mint), program)
}

/// The required master-edition address for a mint, derived under the
/// metadata program.
pub open spec fn master_edition_address(program: Seq<u8>, mint: Seq<u8>) -> Seq<u8> {
    derived_address(edition_seeds(program, mint), program)
}

/// The canonical associated-token-account address for (owner, mint), derived
/// under the associated-token program.
pub open spec fn associated_token_address(owner: Seq<u8>, mint: Seq<u8>) -> Seq<u8> {
    derived_address(associated_token_seeds(owner, mint), spec_associated_token_program_id())
}

fn seed_prefix_vec() -> (v: Vec<u8>)
    ensures
        v@ == seed_prefix(),
{
    let mut v: Vec<u8> = Vec::new();
    v.push(109);
    v.push(101);
    v.push(116);
    v.push(97);
    v.push(100);
    v.push(97);
    v.push(116);
    v.push(97);
    proof {
        assert(v@ =~= seed_prefix());
    }
    v
}

fn seed_edition_vec() -> (v: Vec<u8>)
    ensures
        v@ == seed_edition(),
{
    let mut v: Vec<u8> = Vec::new();
    v.push(101);
    v.push(100);
    v.push(105);
    v.push(116);
    v.push(105);
    v.push(111);
    v.push(110);
    proof {
        assert(v@ =~= seed_edition());
    }
    v
}

/// The metadata-account address that the caller must supply for `mint`.
pub fn expected_metadata_account(program: &Address, mint: &Address) -> (r: Address)
    ensures
        r@ == metadata_account_address(program@, mint@),
{
    let mut seeds: Vec<Vec<u8>> = Vec::new();
    seeds.push(seed_prefix_vec());
    seeds.push(program.to_vec());
    seeds.push(mint.to_vec());
    proof {
        assert(seeds.deep_view() =~~= metadata_seeds(program@, mint@));
    }
    find_program_address(&seeds, program)
}

/// The master-edition address that the caller must supply for `mint`.
pub fn expected_master_edition(program: &Address, mint: &Address) -> (r: Address)
    ensures
        r@ == master_edition_address(program@, mint@),
{
    let mut seeds: Vec<Vec<u8>> = Vec::new();
    seeds.push(seed_prefix_vec());
    seeds.push(program.to_vec());
    seeds.push(mint.to_vec());
    seeds.push(seed_edition_vec());
    proof {
        assert(seeds.deep_view() =~~= edition_seeds(program@, mint@));
    }
    find_program_address(&seeds, program)
}

/// The canonical associated-token-account address for (owner, mint).
pub fn expected_associated_token_account(owner: &Address, mint: &Address) -> (r: Address)
    ensures
        r@ == associated_token_address(owner@, mint@),
{
    let token_program = crate::programs::token_program_id();
    let ata_program = crate::programs::associated_token_program_id();
    let mut seeds: Vec<Vec<u8>> = Vec::new();
    seeds.push(owner.to_vec());
    seeds.push(token_program.to_vec());
    seeds.push(mint.to_vec());
    proof {
        assert(seeds.deep_view() =~~= associated_token_seeds(owner@, mint@));
    }
    find_program_address(&seeds, &ata_program)
}

} // verus!
