//! The derived-authority resolver.
//!
//! The custodial owner of the shared balance is a deterministic address
//! derived by the host runtime from a fixed domain-separation tag
//! (`"revenue_sharing"`) and this module's own identity. The address has no
//! private key; the accompanying bump seed is the proof this module presents
//! when it authorises an action as that address. Both handlers resolve the
//! authority through this one function, so the derivation can never diverge
//! between initialization and withdrawal.

use vstd::prelude::*;

verus! {

/// The address and bump seed that the host runtime's derivation scheme
/// assigns to this module's fixed domain tag and the given 32-byte module
/// identity, or nothing in the statistically improbable event that no bump
/// seed yields a valid off-curve address. The result depends on the module
/// identity alone.
pub uninterp spec fn derived_authority(program_id: Seq<u8>) -> Option<(Seq<u8>, u8)>;

/// Relies on solana_program's `Pubkey::try_find_program_address`, applied to
/// the fixed seed `b"revenue_sharing"` and the module identity: the search
/// over bump seeds is deterministic in its arguments, so its outcome is
/// exactly `derived_authority` of the identity.
#[verifier::external_body]
fn find_derived_authority(program_id: &Vec<u8>) -> (r: Option<(Vec<u8>, u8)>)
    requires
        program_id@.len() == 32,
    ensures
        match r {
            Some(p) => p.0@.len() == 32 && derived_authority(program_id@) == Some((p.0@, p.1)),
            None => derived_authority(program_id@) is None,
        },
{
    let mut key = [0u8; 32];
    key.copy_from_slice(program_id.as_slice());
    let pk = solana_program::pubkey::Pubkey::new_from_array(key);
    solana_program::pubkey::Pubkey::try_find_program_address(
        &["revenue_sharing".as_bytes()],
        &pk,
    ).map(|(addr, bump)| (addr.to_bytes().to_vec(), bump))
}

/// Resolves the derived custodial authority and its proof for the module
/// with the given identity.
pub fn derive_authority(program_id: &Vec<u8>) -> (r: Option<(Vec<u8>, u8)>)
    requires
        program_id@.len() == 32,
    ensures
        match r {
            Some(p) => p.0@.len() == 32 && derived_authority(program_id@) == Some((p.0@, p.1)),
            None => derived_authority(program_id@) is None,
        },
{
    find_derived_authority(program_id)
}

} // verus!
