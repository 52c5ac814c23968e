//! Derived addresses.
//!
//! The engine never holds a secret for a vault or a mint. The storage key of
//! a record, and the authority over a vault or a share mint, is an address
//! derived from a label, the keys it belongs to and the engine's own
//! identity. The same inputs always give the same address.

use vstd::prelude::*;
use vstd::bytes::{spec_u64_to_le_bytes, u64_to_le_bytes};
use anchor_lang::prelude::Pubkey;
use crate::key::Key;

verus! {

/// What `Pubkey::try_find_program_address` returns on the seeds `seeds` for
/// the program `program_id`, both as bytes: the derived address with its bump
/// seed, or `None` where no bump seed gives an address.
pub uninterp spec fn program_address(seeds: Seq<Seq<u8>>, program_id: Seq<u8>) -> Option<
    (Seq<u8>, u8),
>;

/// Calls `anchor_lang::prelude::Pubkey::try_find_program_address`, which
/// searches the bump seeds from 255 downwards for the first one whose SHA-256
/// digest over seeds, bump, program identity and a marker is not a point of
/// the ed25519 curve. The contract claims only that the outcome is a function
/// of the seeds and the program identity, named [`program_address`].
#[verifier::external_body]
fn find_program_address(seeds: &Vec<Vec<u8>>, program_id: &Key) -> (r: Option<(Key, u8)>)
    ensures
        program_address(seeds.deep_view(), program_id@) == (match r {
            Some((address, bump)) => Some((address@, bump)),
            None => None,
        }),
{
    let parts: Vec<&[u8]> = seeds.iter().map(|s| s.as_slice()).collect();
    let program = Pubkey::new_from_array(program_id.bytes);
    let found = Pubkey::try_find_program_address(&parts, &program);
    found.map(|hit| (Key::new(hit.0.to_bytes()), hit.1))
}

/// The identity whose bytes are `bytes`.
pub open spec fn key_of(bytes: Seq<u8>) -> Key {
    Key { bytes: choose|a: [u8; 32]| a@ == bytes }
}

/// The address derived from `seeds` for the engine `program_id`, with its
/// bump seed.
pub open spec fn derived(seeds: Seq<Seq<u8>>, program_id: Key) -> Option<(Key, u8)> {
    match program_address(seeds, program_id@) {
        Some((bytes, bump)) => Some((key_of(bytes), bump)),
        None => None,
    }
}

/// Whether `found` holds the address `key`.
pub open spec fn lies_at(key: Key, found: Option<(Key, u8)>) -> bool {
    match found {
        Some(a) => a.0 == key,
        None => false,
    }
}

/// The label `asset`.
pub open spec fn asset_label() -> Seq<u8> {
    seq![0x61u8, 0x73u8, 0x73u8, 0x65u8, 0x74u8]
}

/// The label `mint_auth`.
pub open spec fn mint_authority_label() -> Seq<u8> {
    seq![0x6du8, 0x69u8, 0x6eu8, 0x74u8, 0x5fu8, 0x61u8, 0x75u8, 0x74u8, 0x68u8]
}

/// The label `vault_usdc`.
pub open spec fn vault_label() -> Seq<u8> {
    seq![0x76u8, 0x61u8, 0x75u8, 0x6cu8, 0x74u8, 0x5fu8, 0x75u8, 0x73u8, 0x64u8, 0x63u8]
}

/// The label `div`.
pub open spec fn dividend_label() -> Seq<u8> {
    seq![0x64u8, 0x69u8, 0x76u8]
}

/// The label `claim`.
pub open spec fn claim_label() -> Seq<u8> {
    seq![0x63u8, 0x6cu8, 0x61u8, 0x69u8, 0x6du8]
}

/// The eight bytes of a timestamp, least significant first.
pub open spec fn timestamp_seed(t: i64) -> Seq<u8> {
    spec_u64_to_le_bytes(t as u64)
}

/// Where the asset of `issuer` over the share mint `asset_mint` is stored.
pub open spec fn asset_address(program_id: Key, issuer: Key, asset_mint: Key) -> Option<
    (Key, u8),
> {
    derived(seq![asset_label(), issuer@, asset_mint@], program_id)
}

/// The authority that may mint shares of `asset_mint`.
pub open spec fn mint_authority_address(program_id: Key, asset_mint: Key) -> Option<(Key, u8)> {
    derived(seq![mint_authority_label(), asset_mint@], program_id)
}

/// The custody vault behind the shares of `asset_mint`.
pub open spec fn vault_address(program_id: Key, asset_mint: Key) -> Option<(Key, u8)> {
    derived(seq![vault_label(), asset_mint@], program_id)
}

/// Where the dividend round opened at `created_at` on `asset_mint` is stored.
pub open spec fn dividend_address(program_id: Key, asset_mint: Key, created_at: i64) -> Option<
    (Key, u8),
> {
    derived(seq![dividend_label(), asset_mint@, timestamp_seed(created_at)], program_id)
}

/// Where the claim of `holder` on the round `dividend` is stored.
pub open spec fn claim_address(program_id: Key, dividend: Key, holder: Key) -> Option<(Key, u8)> {
    derived(seq![claim_label(), dividend@, holder@], program_id)
}

fn derive(seeds: &Vec<Vec<u8>>, program_id: &Key) -> (r: Option<(Key, u8)>)
    ensures
        r == derived(seeds.deep_view(), *program_id),
{
    let r = find_program_address(seeds, program_id);
    proof {
        match r {
            Some((address, bump)) => {
                Key::lemma_view_injective(key_of(address@), address);
            },
            None => {},
        }
    }
    r
}

/// Derives [`asset_address`].
pub fn find_asset_address(program_id: &Key, issuer: &Key, asset_mint: &Key) -> (r: Option<
    (Key, u8),
>)
    ensures
        r == asset_address(*program_id, *issuer, *asset_mint),
{
    let label: Vec<u8> = vec![0x61u8, 0x73u8, 0x73u8, 0x65u8, 0x74u8];
    let seeds: Vec<Vec<u8>> = vec![label, issuer.to_vec(), asset_mint.to_vec()];
    assert(seeds.deep_view() =~~= seq![asset_label(), issuer@, asset_mint@]);
    derive(&seeds, program_id)
}

/// Derives [`mint_authority_address`].
pub fn find_mint_authority(program_id: &Key, asset_mint: &Key) -> (r: Option<(Key, u8)>)
    ensures
        r == mint_authority_address(*program_id, *asset_mint),
{
    let label: Vec<u8> = vec![
        0x6du8,
        0x69u8,
        0x6eu8,
        0x74u8,
        0x5fu8,
        0x61u8,
        0x75u8,
        0x74u8,
        0x68u8,
    ];
    let seeds: Vec<Vec<u8>> = vec![label, asset_mint.to_vec()];
    assert(seeds.deep_view() =~~= seq![mint_authority_label(), asset_mint@]);
    derive(&seeds, program_id)
}

/// Derives [`vault_address`].
pub fn find_vault_address(program_id: &Key, asset_mint: &Key) -> (r: Option<(Key, u8)>)
    ensures
        r == vault_address(*program_id, *asset_mint),
{
    let label: Vec<u8> = vec![
        0x76u8,
        0x61u8,
        0x75u8,
        0x6cu8,
        0x74u8,
        0x5fu8,
        0x75u8,
        0x73u8,
        0x64u8,
        0x63u8,
    ];
    let seeds: Vec<Vec<u8>> = vec![label, asset_mint.to_vec()];
    assert(seeds.deep_view() =~~= seq![vault_label(), asset_mint@]);
    derive(&seeds, program_id)
}

/// Derives [`dividend_address`].
pub fn find_dividend_address(program_id: &Key, asset_mint: &Key, created_at: i64) -> (r: Option<
    (Key, u8),
>)
    ensures
        r == dividend_address(*program_id, *asset_mint, created_at),
{
    let label: Vec<u8> = vec![0x64u8, 0x69u8, 0x76u8];
    let stamp: Vec<u8> = u64_to_le_bytes(#[verifier::truncate] (created_at as u64));
    let seeds: Vec<Vec<u8>> = vec![label, asset_mint.to_vec(), stamp];
    assert(seeds.deep_view() =~~= seq![
        dividend_label(),
        asset_mint@,
        timestamp_seed(created_at),
    ]);
    derive(&seeds, program_id)
}

/// Derives [`claim_address`].
pub fn find_claim_address(program_id: &Key, dividend: &Key, holder: &Key) -> (r: Option<
    (Key, u8),
>)
    ensures
        r == claim_address(*program_id, *dividend, *holder),
{
    let label: Vec<u8> = vec![0x63u8, 0x6cu8, 0x61u8, 0x69u8, 0x6du8];
    let seeds: Vec<Vec<u8>> = vec![label, dividend.to_vec(), holder.to_vec()];
    assert(seeds.deep_view() =~~= seq![claim_label(), dividend@, holder@]);
    derive(&seeds, program_id)
}

} // verus!
