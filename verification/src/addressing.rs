use vstd::prelude::*;

use crate::state::AccountId;

verus! {

/// Namespace tag for the configuration record: the bytes of "config".
pub open spec fn config_seed() -> Seq<u8> {
    seq![99u8, 111u8, 110u8, 102u8, 105u8, 103u8]
}

/// Namespace tag for a model record: the bytes of "model".
pub open spec fn model_seed() -> Seq<u8> {
    seq![109u8, 111u8, 100u8, 101u8, 108u8]
}

/// Namespace tag for a version record: the bytes of "version".
pub open spec fn version_seed() -> Seq<u8> {
    seq![118u8, 101u8, 114u8, 115u8, 105u8, 111u8, 110u8]
}

/// A version number as 4 little-endian bytes.
pub open spec fn u32_le_bytes(v: u32) -> Seq<u8> {
    seq![
        (v & 0xff) as u8,
        ((v >> 8) & 0xff) as u8,
        ((v >> 16) & 0xff) as u8,
        ((v >> 24) & 0xff) as u8,
    ]
}

/// What the SHA-256 hash function returns on the given bytes.
pub uninterp spec fn sha256_of(bytes: Seq<u8>) -> Seq<u8>;

/// What program-derived-address search returns on the given seeds and
/// program id: the derived address and its bump seed, or nothing when the
/// search fails.
pub uninterp spec fn pda_of(seeds: Seq<Seq<u8>>, program_id: Seq<u8>) -> Option<(Seq<u8>, u8)>;

/// The seed list a model record's address is derived from: the namespace
/// tag, the publisher identity, and the SHA-256 hash of the raw name bytes
/// (hashing keeps the key material fixed-width whatever the name length).
pub open spec fn model_address_seeds(publisher: Seq<u8>, name: Seq<u8>) -> Seq<Seq<u8>> {
    seq![model_seed(), publisher, sha256_of(name)]
}

/// The seed list the configuration record's address is derived from.
pub open spec fn config_address_seeds() -> Seq<Seq<u8>> {
    seq![config_seed()]
}

/// The seed list a version record's address is derived from: the namespace
/// tag, the owning model record's address, and the version number as 4
/// little-endian bytes.
pub open spec fn version_address_seeds(model_address: Seq<u8>, version: u32) -> Seq<Seq<u8>> {
    seq![version_seed(), model_address, u32_le_bytes(version)]
}

/// The view of a derivation result: address bytes and bump seed.
pub open spec fn derived_address_view(r: Option<(AccountId, u8)>) -> Option<(Seq<u8>, u8)> {
    match r {
        Some(p) => Some((p.0@, p.1)),
        None => None,
    }
}

/// Relies on anchor_lang::solana_program::hash::hash: the SHA-256 digest
/// of the input, 32 bytes, a function of the input bytes alone.
#[verifier::external_body]
fn sha256(bytes: &Vec<u8>) -> (r: [u8; 32])
    ensures
        r@ == sha256_of(bytes@),
{
    anchor_lang::solana_program::hash::hash(bytes.as_slice()).to_bytes()
}

/// Relies on Pubkey::try_find_program_address: deterministic in the seeds
/// and the program id; returns None in the statistically improbable event
/// that no bump seed yields a valid derived address, and when the seeds
/// break the length limits.
#[verifier::external_body]
fn try_find_pda(seeds: &Vec<Vec<u8>>, program_id: &AccountId) -> (r: Option<(AccountId, u8)>)
    ensures
        derived_address_view(r) == pda_of(seeds@.map_values(|s: Vec<u8>| s@), program_id@),
{
    let pk = anchor_lang::solana_program::pubkey::Pubkey::new_from_array(program_id.bytes);
    let slices: Vec<&[u8]> = seeds.iter().map(|s| s.as_slice()).collect();
    anchor_lang::solana_program::pubkey::Pubkey::try_find_program_address(&slices, &pk)
        .map(|(address, bump)| (AccountId { bytes: address.to_bytes() }, bump))
}

fn config_seed_bytes() -> (v: Vec<u8>)
    ensures
        v@ == config_seed(),
{
    let mut v: Vec<u8> = Vec::new();
    v.push(99);
    v.push(111);
    v.push(110);
    v.push(102);
    v.push(105);
    v.push(103);
    proof {
        assert(v@ =~= config_seed());
    }
    v
}

fn model_seed_bytes() -> (v: Vec<u8>)
    ensures
        v@ == model_seed(),
{
    let mut v: Vec<u8> = Vec::new();
    v.push(109);
    v.push(111);
    v.push(100);
    v.push(101);
    v.push(108);
    proof {
        assert(v@ =~= model_seed());
    }
    v
}

fn version_seed_bytes() -> (v: Vec<u8>)
    ensures
        v@ == version_seed(),
{
    let mut v: Vec<u8> = Vec::new();
    v.push(118);
    v.push(101);
    v.push(114);
    v.push(115);
    v.push(105);
    v.push(111);
    v.push(110);
    proof {
        assert(v@ =~= version_seed());
    }
    v
}

fn bytes32_to_vec(b: &[u8; 32]) -> (v: Vec<u8>)
    ensures
        v@ == b@,
{
    let mut v: Vec<u8> = Vec::new();
    let mut i: usize = 0;
    while i < 32
        invariant
            i <= 32,
            v@ == b@.subrange(0, i as int),
        decreases 32 - i,
    {
        v.push(b[i]);
        i += 1;
    }
    proof {
        assert(v@ =~= b@);
    }
    v
}

fn u32_to_le_vec(value: u32) -> (r: Vec<u8>)
    ensures
        r@ == u32_le_bytes(value),
{
    proof {
        assert((value & 0xff) < 256 && ((value >> 8) & 0xff) < 256 && ((value >> 16) & 0xff)
            < 256 && ((value >> 24) & 0xff) < 256) by (bit_vector);
    }
    let mut r: Vec<u8> = Vec::new();
    r.push((value & 0xff) as u8);
    r.push(((value >> 8) & 0xff) as u8);
    r.push(((value >> 16) & 0xff) as u8);
    r.push(((value >> 24) & 0xff) as u8);
    proof {
        assert(r@ =~= u32_le_bytes(value));
    }
    r
}

/// Storage address and bump seed of the singleton configuration record
/// under the given program id, reproducible by any client.
pub fn derive_config_address(program_id: &AccountId) -> (r: Option<(AccountId, u8)>)
    ensures
        derived_address_view(r) == pda_of(config_address_seeds(), program_id@),
{
    let mut seeds: Vec<Vec<u8>> = Vec::new();
    seeds.push(config_seed_bytes());
    proof {
        assert(seeds@.map_values(|s: Vec<u8>| s@) =~= config_address_seeds());
    }
    try_find_pda(&seeds, program_id)
}

/// Storage address and bump seed of the model record published by
/// `publisher` under `model_name`, reproducible by any client without
/// consulting the registry.
pub fn derive_model_address(
    program_id: &AccountId,
    publisher: &AccountId,
    model_name: &Vec<u8>,
) -> (r: Option<(AccountId, u8)>)
    ensures
        derived_address_view(r) == pda_of(
            model_address_seeds(publisher@, model_name@),
            program_id@,
        ),
{
    let name_hash = sha256(model_name);
    let mut seeds: Vec<Vec<u8>> = Vec::new();
    seeds.push(model_seed_bytes());
    seeds.push(bytes32_to_vec(&publisher.bytes));
    seeds.push(bytes32_to_vec(&name_hash));
    proof {
        assert(seeds@.map_values(|s: Vec<u8>| s@) =~= model_address_seeds(
            publisher@,
            model_name@,
        ));
    }
    try_find_pda(&seeds, program_id)
}

/// Storage address and bump seed of version number `version` of the model
/// record at `model_address`, reproducible by any client.
pub fn derive_version_address(
    program_id: &AccountId,
    model_address: &AccountId,
    version: u32,
) -> (r: Option<(AccountId, u8)>)
    ensures
        derived_address_view(r) == pda_of(
            version_address_seeds(model_address@, version),
            program_id@,
        ),
{
    let mut seeds: Vec<Vec<u8>> = Vec::new();
    seeds.push(version_seed_bytes());
    seeds.push(bytes32_to_vec(&model_address.bytes));
    seeds.push(u32_to_le_vec(version));
    proof {
        assert(seeds@.map_values(|s: Vec<u8>| s@) =~= version_address_seeds(
            model_address@,
            version,
        ));
    }
    try_find_pda(&seeds, program_id)
}

} // verus!
