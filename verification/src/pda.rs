use vstd::prelude::*;

use anchor_lang::solana_program::pubkey::Pubkey;

use crate::key::PublicKey;
use crate::state::{ExchangeRecord, GlobalConfig, UserPoints, VaultAuthority};

verus! {

/// The program-derived address, with its bump seed, that the runtime finds
/// for `seeds` under the program `program_id`, or `None` where no bump seed
/// gives an address off the ed25519 curve (or the seeds are too many or too
/// long). It is a hash of the seeds, a bump seed and the program id.
pub uninterp spec fn program_address(seeds: Seq<Seq<u8>>, program_id: Seq<u8>) -> Option<
    (Seq<u8>, u8),
>;

/// What a found address is in terms of `program_address`.
pub open spec fn found_address(
    found: Option<(PublicKey, u8)>,
    seeds: Seq<Seq<u8>>,
    program_id: PublicKey,
) -> bool {
    match found {
        Some((address, bump)) => program_address(seeds, program_id@) == Some((address@, bump)),
        None => program_address(seeds, program_id@) is None,
    }
}

/// Calls `Pubkey::try_find_program_address` of the Solana program library.
/// Trusted: its result is the one named by `program_address` for the seeds
/// and the program id, which is all that is claimed of it.
#[verifier::external_body]
fn try_find_program_address(seeds: &Vec<Vec<u8>>, program_id: &PublicKey) -> (found: Option<
    (PublicKey, u8),
>)
    ensures
        match found {
            Some((address, bump)) => program_address(seeds.deep_view(), program_id@) == Some(
                (address@, bump),
            ),
            None => program_address(seeds.deep_view(), program_id@) is None,
        },
{
    let slices: Vec<&[u8]> = seeds.iter().map(|seed| seed.as_slice()).collect();
    match Pubkey::try_find_program_address(&slices, &Pubkey::new_from_array(program_id.bytes)) {
        Some((address, bump)) => Some((PublicKey { bytes: address.to_bytes() }, bump)),
        None => None,
    }
}

/// The seeds of the configuration account.
pub open spec fn config_seeds_spec() -> Seq<Seq<u8>> {
    seq![GlobalConfig::SEED_PREFIX@]
}

/// The seeds of the points account of `user`.
pub open spec fn user_points_seeds_spec(user: PublicKey) -> Seq<Seq<u8>> {
    seq![UserPoints::SEED_PREFIX@, user@]
}

/// The seeds of the record of exchange number `exchange_id`.
pub open spec fn exchange_record_seeds_spec(exchange_id: u64) -> Seq<Seq<u8>> {
    seq![ExchangeRecord::SEED_PREFIX@, vstd::bytes::spec_u64_to_le_bytes(exchange_id)]
}

/// The seeds of the vault authority of the configuration at `config_address`.
pub open spec fn vault_authority_seeds_spec(config_address: PublicKey) -> Seq<Seq<u8>> {
    seq![VaultAuthority::SEED_PREFIX@, config_address@]
}

/// The seeds with which the program signs for the vault authority: its
/// address seeds followed by the one-byte bump seed.
pub open spec fn vault_signer_seeds_spec(config_address: PublicKey, bump: u8) -> Seq<Seq<u8>> {
    vault_authority_seeds_spec(config_address).push(seq![bump])
}

fn bytes_of<const N: usize>(bytes: &[u8; N]) -> (v: Vec<u8>)
    ensures
        v@ == bytes@,
        v.deep_view() == bytes@,
{
    let v = vstd::slice::slice_to_vec(bytes.as_slice());
    assert(v.deep_view() =~= v@);
    v
}

/// `[GlobalConfig::SEED_PREFIX]`.
pub fn config_seeds() -> (seeds: Vec<Vec<u8>>)
    ensures
        seeds.deep_view() == config_seeds_spec(),
{
    let mut seeds: Vec<Vec<u8>> = Vec::new();
    seeds.push(bytes_of(&GlobalConfig::SEED_PREFIX));
    assert(seeds.deep_view() =~= config_seeds_spec());
    seeds
}

/// `[UserPoints::SEED_PREFIX, user]`.
pub fn user_points_seeds(user: &PublicKey) -> (seeds: Vec<Vec<u8>>)
    ensures
        seeds.deep_view() == user_points_seeds_spec(*user),
{
    let mut seeds: Vec<Vec<u8>> = Vec::new();
    seeds.push(bytes_of(&UserPoints::SEED_PREFIX));
    seeds.push(bytes_of(&user.bytes));
    assert(seeds.deep_view() =~= user_points_seeds_spec(*user));
    seeds
}

/// `[ExchangeRecord::SEED_PREFIX, exchange_id.to_le_bytes()]`.
pub fn exchange_record_seeds(exchange_id: u64) -> (seeds: Vec<Vec<u8>>)
    ensures
        seeds.deep_view() == exchange_record_seeds_spec(exchange_id),
{
    let mut seeds: Vec<Vec<u8>> = Vec::new();
    seeds.push(bytes_of(&ExchangeRecord::SEED_PREFIX));
    let counter_bytes = vstd::bytes::u64_to_le_bytes(exchange_id);
    assert(counter_bytes.deep_view() =~= counter_bytes@);
    seeds.push(counter_bytes);
    assert(seeds.deep_view() =~= exchange_record_seeds_spec(exchange_id));
    seeds
}

/// `[VaultAuthority::SEED_PREFIX, config_address]`.
pub fn vault_authority_seeds(config_address: &PublicKey) -> (seeds: Vec<Vec<u8>>)
    ensures
        seeds.deep_view() == vault_authority_seeds_spec(*config_address),
{
    let mut seeds: Vec<Vec<u8>> = Vec::new();
    seeds.push(bytes_of(&VaultAuthority::SEED_PREFIX));
    seeds.push(bytes_of(&config_address.bytes));
    assert(seeds.deep_view() =~= vault_authority_seeds_spec(*config_address));
    seeds
}

/// `[VaultAuthority::SEED_PREFIX, config_address, [bump]]`.
pub fn vault_signer_seeds(config_address: &PublicKey, bump: u8) -> (seeds: Vec<Vec<u8>>)
    ensures
        seeds.deep_view() == vault_signer_seeds_spec(*config_address, bump),
        seeds@.len() == 3,
        seeds@[0]@ == VaultAuthority::SEED_PREFIX@,
        seeds@[1]@ == config_address@,
        seeds@[2]@ == seq![bump],
{
    let mut seeds = vault_authority_seeds(config_address);
    let ghost prefix = seeds@;
    let mut bump_seed: Vec<u8> = Vec::new();
    bump_seed.push(bump);
    assert(bump_seed.deep_view() =~= seq![bump]);
    seeds.push(bump_seed);
    assert(seeds@ == prefix.push(bump_seed));
    assert(seeds.deep_view() =~= vault_signer_seeds_spec(*config_address, bump));
    seeds
}

/// The address and bump seed of the configuration account of `program_id`.
pub fn find_config_address(program_id: &PublicKey) -> (found: Option<(PublicKey, u8)>)
    ensures
        found_address(found, config_seeds_spec(), *program_id),
{
    try_find_program_address(&config_seeds(), program_id)
}

/// The address and bump seed of the points account of `user`.
pub fn find_user_points_address(program_id: &PublicKey, user: &PublicKey) -> (found: Option<
    (PublicKey, u8),
>)
    ensures
        found_address(found, user_points_seeds_spec(*user), *program_id),
{
    try_find_program_address(&user_points_seeds(user), program_id)
}

/// The address and bump seed of the record of exchange number `exchange_id`.
pub fn find_exchange_record_address(program_id: &PublicKey, exchange_id: u64) -> (found: Option<
    (PublicKey, u8),
>)
    ensures
        found_address(found, exchange_record_seeds_spec(exchange_id), *program_id),
{
    try_find_program_address(&exchange_record_seeds(exchange_id), program_id)
}

/// The address and bump seed of the vault authority of the configuration at
/// `config_address`.
pub fn find_vault_authority_address(program_id: &PublicKey, config_address: &PublicKey) -> (found:
    Option<(PublicKey, u8)>)
    ensures
        found_address(found, vault_authority_seeds_spec(*config_address), *program_id),
{
    try_find_program_address(&vault_authority_seeds(config_address), program_id)
}

} // verus!
