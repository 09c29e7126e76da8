//! Where a registry lives: the address derived from its authority's key under
//! this program's id.

use vstd::prelude::*;
use anchor_lang::prelude::Pubkey;
use anchor_lang::solana_program::pubkey::PubkeyError;
use crate::key::Key;

verus! {

/// The first seed of every registry address: the bytes of `registry`.
pub const REGISTRY_SEED: [u8; 8] = [114, 101, 103, 105, 115, 116, 114, 121];

/// The bytes of the id of this program, which in base 58 reads
/// `DZejfnpxWTyfX6XziQoCHUJgvksMhVPzDRnY9Gj3FTgt`.
pub const PROGRAM_ID: [u8; 32] = [
    186, 169, 127, 50, 113, 158, 158, 95, 166, 78, 58, 135, 217, 166, 146, 195,
    102, 204, 202, 209, 158, 217, 116, 105, 122, 84, 77, 56, 80, 38, 70, 1,
];

/// The error of `Pubkey::create_program_address`, carried through unread.
#[verifier::external_type_specification]
#[verifier::external_body]
pub struct ExPubkeyError(PubkeyError);

/// What `Pubkey::try_find_program_address` returns for `seeds` and
/// `program_id`: the address and the bump seed it settled on, if any.
pub uninterp spec fn found_program_address(seeds: Seq<Seq<u8>>, program_id: Seq<u8>) -> Option<(Seq<u8>, u8)>;

/// What `Pubkey::create_program_address` returns for `seeds` and
/// `program_id`, `None` standing for each of its errors.
pub uninterp spec fn created_program_address(seeds: Seq<Seq<u8>>, program_id: Seq<u8>) -> Option<Seq<u8>>;

/// The seeds of the registry of `authority`.
pub open spec fn registry_seeds(authority: Seq<u8>) -> Seq<Seq<u8>> {
    seq![REGISTRY_SEED@, authority]
}

/// The seeds of the registry of `authority`, closed by a bump seed.
pub open spec fn registry_seeds_with_bump(authority: Seq<u8>, bump: u8) -> Seq<Seq<u8>> {
    seq![REGISTRY_SEED@, authority, seq![bump]]
}

/// The address of the registry of `authority` and its bump seed.
pub open spec fn registry_address(authority: Seq<u8>) -> Option<(Seq<u8>, u8)> {
    found_program_address(registry_seeds(authority), PROGRAM_ID@)
}

/// The address that `authority` and `bump` derive, if they derive one.
pub open spec fn registry_address_with_bump(authority: Seq<u8>, bump: u8) -> Option<Seq<u8>> {
    created_program_address(registry_seeds_with_bump(authority, bump), PROGRAM_ID@)
}

/// A derived address and bump seed, by their bytes.
pub open spec fn derived_view(derived: Option<(Key, u8)>) -> Option<(Seq<u8>, u8)> {
    match derived {
        Some((address, bump)) => Some((address@, bump)),
        None => None,
    }
}

/// An address, by its bytes.
pub open spec fn address_view(address: Option<Key>) -> Option<Seq<u8>> {
    match address {
        Some(address) => Some(address@),
        None => None,
    }
}

/// Calls `Pubkey::try_find_program_address` on the seeds `[tag, owner]`.
///
/// Trusted: the result is the one named by `found_program_address`, and an
/// address that was found is the one that `Pubkey::create_program_address`
/// returns for the same seeds followed by the bump seed that was found.
#[verifier::external_body]
fn try_find_program_address(tag: &[u8], owner: &Key, program_id: &Key) -> (found: Option<(Key, u8)>)
    ensures
        derived_view(found) == found_program_address(seq![tag@, owner@], program_id@),
        found matches Some((address, bump)) ==> created_program_address(
            seq![tag@, owner@, seq![bump]],
            program_id@,
        ) == Some(address@),
{
    let program = Pubkey::new_from_array(program_id.bytes);
    match Pubkey::try_find_program_address(&[tag, &owner.bytes], &program) {
        Some((address, bump)) => Some((Key { bytes: address.to_bytes() }, bump)),
        None => None,
    }
}

/// Calls `Pubkey::create_program_address` on the seeds `[tag, owner, [bump]]`.
///
/// Trusted: the result is `Ok` with the address named by
/// `created_program_address`, or `Err` where that is `None`.
#[verifier::external_body]
fn create_program_address(tag: &[u8], owner: &Key, bump: u8, program_id: &Key) -> (created: Result<Key, PubkeyError>)
    ensures
        created matches Ok(address) ==> created_program_address(
            seq![tag@, owner@, seq![bump]],
            program_id@,
        ) == Some(address@),
        created is Err ==> created_program_address(
            seq![tag@, owner@, seq![bump]],
            program_id@,
        ) is None,
{
    let program = Pubkey::new_from_array(program_id.bytes);
    match Pubkey::create_program_address(&[tag, &owner.bytes, &[bump]], &program) {
        Ok(address) => Ok(Key { bytes: address.to_bytes() }),
        Err(error) => Err(error),
    }
}

/// The id of this program.
pub fn id() -> (program_id: Key)
    ensures
        program_id@ == PROGRAM_ID@,
{
    Key::new(PROGRAM_ID)
}

/// Searches the address of the registry of `authority`, and the bump seed
/// that goes with it. The result depends on `authority` alone.
pub fn find_registry_address(authority: &Key) -> (derived: Option<(Key, u8)>)
    ensures
        derived_view(derived) == registry_address(authority@),
        derived matches Some((address, bump)) ==> registry_address_with_bump(authority@, bump)
            == Some(address@),
{
    let program_id = id();
    let seed = REGISTRY_SEED;
    try_find_program_address(seed.as_slice(), authority, &program_id)
}

/// Derives the address of the registry of `authority` from a bump seed that
/// is already known, without searching. `None` where the two derive none.
pub fn create_registry_address(authority: &Key, bump: u8) -> (address: Option<Key>)
    ensures
        address_view(address) == registry_address_with_bump(authority@, bump),
{
    let program_id = id();
    let seed = REGISTRY_SEED;
    match create_program_address(seed.as_slice(), authority, bump, &program_id) {
        Ok(address) => Some(address),
        Err(_) => None,
    }
}

} // verus!
