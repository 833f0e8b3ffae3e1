//! The authority that the program controls, and the check that a caller
//! supplied it.
//!
//! The authority is a program-derived address.  The runtime derives such an
//! address by hashing a list of seeds, a one-byte bump and the identifier of
//! the program, trying bumps from 255 downwards until the hash is no point of
//! the ed25519 curve.  No private key can exist for such an address: the
//! right to sign for it is the right to run as the program.  This program
//! derives its authority from a single fixed seed, so each deployment has
//! exactly one.

use crate::address::{same_address, Address};
use crate::error::TransferError;
use solana_program::pubkey::Pubkey;
use vstd::prelude::*;

verus! {

/// The fixed seed of the authority: the ASCII bytes of `authority`.
pub const AUTHORITY_SEED: [u8; 9] = [97, 117, 116, 104, 111, 114, 105, 116, 121];

/// The program-derived address and bump that the runtime finds for a list of
/// seeds under a program identifier, or `None` where it finds none.
///
/// This names the result of `Pubkey::try_find_program_address`, a search
/// over SHA-256 hashes and a curve membership test that is not restated here.
/// The result depends on the seeds and on the program identifier only.
pub uninterp spec fn program_address(seeds: Seq<Seq<u8>>, program_id: Seq<u8>) -> Option<
    (Address, u8),
>;

/// `Pubkey::try_find_program_address` for a single seed: the address derived
/// from `seed` under `program_id` and the bump that was found for it.  The
/// call does not panic: where the seed is too long or no bump yields an
/// address off the curve, it returns `None`.
#[verifier::external_body]
fn find_program_address(seed: &[u8], program_id: &Address) -> (found: Option<(Address, u8)>)
    ensures
        found == program_address(seq![seed@], program_id@),
{
    let found = Pubkey::try_find_program_address(&[seed], &Pubkey::new_from_array(*program_id));
    found.map(|(address, bump)| (address.to_bytes(), bump))
}

/// The authority of the program `program_id` and its bump.
pub open spec fn derived_authority(program_id: Seq<u8>) -> Option<(Address, u8)> {
    program_address(seq![AUTHORITY_SEED@], program_id)
}

/// Whether `supplied` is the address in `derived`.
pub open spec fn authorizes(derived: Option<(Address, u8)>, supplied: Address) -> bool {
    derived matches Some((address, _)) && address@ == supplied@
}

/// The outcome of the check: the bump of the derived authority where the
/// caller supplied that authority, `InvalidSeeds` in every other case.
pub open spec fn authority_check(derived: Option<(Address, u8)>, supplied: Address) -> Result<
    u8,
    TransferError,
> {
    match derived {
        Some((address, bump)) => if address@ == supplied@ {
            Ok(bump)
        } else {
            Err(TransferError::InvalidSeeds)
        },
        None => Err(TransferError::InvalidSeeds),
    }
}

/// Derives the authority of the program `program_id`.
///
/// The result is a function of the program identifier: nothing is cached,
/// and every derivation for one program gives the same address and bump.
pub fn derive_authority(program_id: &Address) -> (derived: Option<(Address, u8)>)
    ensures
        derived == derived_authority(program_id@),
{
    find_program_address(AUTHORITY_SEED.as_slice(), program_id)
}

/// Compares the address that the caller supplied with a derived authority.
///
/// Nothing else stands between a caller and the funds.  The check passes exactly
/// when an authority was derived and the supplied address equals it, and then
/// hands out the bump, which is needed to sign for the authority later.
pub fn check_authority(derived: Option<(Address, u8)>, supplied: &Address) -> (res: Result<
    u8,
    TransferError,
>)
    ensures
        res == authority_check(derived, *supplied),
        res is Ok <==> authorizes(derived, *supplied),
{
    match derived {
        Some((address, bump)) => {
            if same_address(&address, supplied) {
                Ok(bump)
            } else {
                Err(TransferError::InvalidSeeds)
            }
        },
        None => Err(TransferError::InvalidSeeds),
    }
}

/// Derives the authority of `program_id` and checks `supplied` against it.
pub fn verify_authority(program_id: &Address, supplied: &Address) -> (res: Result<
    u8,
    TransferError,
>)
    ensures
        res == authority_check(derived_authority(program_id@), *supplied),
{
    let derived = derive_authority(program_id);
    check_authority(derived, supplied)
}

/// Derivation is deterministic: any two results of [`derive_authority`] for
/// the same program identifier are the same address with the same bump.
pub proof fn derivation_is_deterministic(
    program_id: Seq<u8>,
    first: Option<(Address, u8)>,
    second: Option<(Address, u8)>,
)
    requires
        first == derived_authority(program_id),
        second == derived_authority(program_id),
    ensures
        first == second,
{
}

} // verus!
