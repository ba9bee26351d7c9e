use vstd::prelude::*;
use crate::address::Address;
use crate::error::VaultError;

verus! {

/// Longest seed that the derivation accepts.
pub const MAX_SEED_LEN: usize = 32;

/// The canonical derived address and bump of `seed1`, `seed2` under a
/// program's identity: the first bump, from 255 down, whose hash is off the
/// curve; none when no bump is found or a seed is too long.
pub uninterp spec fn program_address_of(program_id: Seq<u8>, seed1: Seq<u8>, seed2: Seq<u8>) -> Option<(Seq<u8>, u8)>;

/// An address and bump with the address as bytes.
pub open spec fn found_view(f: Option<(Address, u8)>) -> Option<(Seq<u8>, u8)> {
    match f {
        Some((a, b)) => Some((a@, b)),
        None => None,
    }
}

/// Relies on solana_program's Pubkey::try_find_program_address: a
/// deterministic search that depends on the seeds and the program id alone.
#[verifier::external_body]
fn find_program_address(program_id: &Address, seed1: &[u8], seed2: &[u8]) -> (r: Option<(Address, u8)>)
    ensures
        found_view(r) == program_address_of(program_id@, seed1@, seed2@),
{
    let program = solana_program::pubkey::Pubkey::new_from_array(program_id.bytes);
    solana_program::pubkey::Pubkey::try_find_program_address(&[seed1, seed2], &program).map(
        |(a, b)| (Address { bytes: a.to_bytes() }, b),
    )
}

/// What deriving the vault address of two seeds gives: an error for a seed
/// that is too long, else the canonical derivation, if there is one.
pub open spec fn derivation_of(program_id: Seq<u8>, seed1: Seq<u8>, seed2: Seq<u8>) -> Result<(Seq<u8>, u8), VaultError> {
    if seed1.len() > MAX_SEED_LEN || seed2.len() > MAX_SEED_LEN {
        Err(VaultError::SeedTooLongError)
    } else {
        match program_address_of(program_id, seed1, seed2) {
            Some(found) => Ok(found),
            None => Err(VaultError::DerivationExhaustedError),
        }
    }
}

/// A derivation outcome with the address as bytes.
pub open spec fn derived_view(r: Result<(Address, u8), VaultError>) -> Result<(Seq<u8>, u8), VaultError> {
    match r {
        Ok((a, b)) => Ok((a@, b)),
        Err(e) => Err(e),
    }
}

/// Derives the canonical address and bump of `seed1`, `seed2` under
/// `program_id`.
pub fn derive_address(program_id: &Address, seed1: &[u8], seed2: &[u8]) -> (r: Result<(Address, u8), VaultError>)
    ensures
        derived_view(r) == derivation_of(program_id@, seed1@, seed2@),
{
    if seed1.len() > MAX_SEED_LEN || seed2.len() > MAX_SEED_LEN {
        return Err(VaultError::SeedTooLongError);
    }
    match find_program_address(program_id, seed1, seed2) {
        Some(found) => Ok(found),
        None => Err(VaultError::DerivationExhaustedError),
    }
}

/// Derivation is deterministic: two derivations of the same seeds under the
/// same program give the same outcome, address and bump alike.
pub proof fn lemma_derivation_deterministic(
    program_id: Seq<u8>,
    seed1: Seq<u8>,
    seed2: Seq<u8>,
    first: Result<(Address, u8), VaultError>,
    second: Result<(Address, u8), VaultError>,
)
    requires
        derived_view(first) == derivation_of(program_id, seed1, seed2),
        derived_view(second) == derivation_of(program_id, seed1, seed2),
    ensures
        derived_view(first) == derived_view(second),
{
}

/// Whether a claimed address and bump are the derived ones.
pub open spec fn claim_matches(derived: (Seq<u8>, u8), claimed_address: Seq<u8>, claimed_bump: u8) -> bool {
    derived.0 == claimed_address && derived.1 == claimed_bump
}

/// Accepts a claimed address and bump only when both equal the derived
/// address and the canonical bump.
pub fn check_claim(derived: &(Address, u8), claimed_address: &Address, claimed_bump: u8) -> (r: Result<(), VaultError>)
    ensures
        claim_matches((derived.0@, derived.1), claimed_address@, claimed_bump) ==> r is Ok,
        !claim_matches((derived.0@, derived.1), claimed_address@, claimed_bump) ==> r == Err::<(), VaultError>(
            VaultError::AddressMismatchError,
        ),
{
    if derived.1 != claimed_bump || !derived.0.same_as(claimed_address) {
        return Err(VaultError::AddressMismatchError);
    }
    Ok(())
}

} // verus!
