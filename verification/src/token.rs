//! The module's view of the external token-ledger service.
//!
//! The ledger itself moves value; this module only reads from it. Two reads
//! are trusted: the ledger program's fixed identity, and the balance field
//! of a ledger token account, whose 165-byte layout the ledger's source
//! fixes (amount is the little-endian `u64` at bytes 64..72).

use vstd::bytes::spec_u64_from_le_bytes;
use vstd::prelude::*;

use crate::error::RevenueSharingError;

verus! {

/// The fixed 32-byte identity of the token-ledger program, as spl-token's
/// source declares it (the base58 constant `Tokenkeg...` decoded).
pub open spec fn spec_token_program_id() -> Seq<u8> {
    seq![
        6u8, 221u8, 246u8, 225u8, 215u8, 101u8, 161u8, 147u8, 217u8, 203u8, 225u8, 70u8, 206u8,
        235u8, 121u8, 172u8, 28u8, 180u8, 133u8, 237u8, 95u8, 91u8, 55u8, 145u8, 58u8, 140u8,
        245u8, 133u8, 126u8, 255u8, 0u8, 169u8,
    ]
}

/// Relies on `spl_token::id()`: the constant program identity that
/// spl-token's source declares; its byte form is `spec_token_program_id`.
#[verifier::external_body]
pub fn token_program_id() -> (r: Vec<u8>)
    ensures
        r@ == spec_token_program_id(),
{
    spl_token::id().to_bytes().to_vec()
}

/// Whether a 4-byte optional-field tag of a ledger token account is valid:
/// the little-endian value must be exactly 0 (absent) or 1 (present).
pub open spec fn spec_coption_tag_ok(s: Seq<u8>) -> bool {
    s.len() == 4 && (s[0] == 0 || s[0] == 1) && s[1] == 0 && s[2] == 0 && s[3] == 0
}

/// Structural validity of a ledger token account buffer: exactly 165 bytes,
/// the three optional-field tags valid, and the state byte one of the three
/// defined states.
pub open spec fn spec_token_account_structural(d: Seq<u8>) -> bool {
    &&& d.len() == 165
    &&& spec_coption_tag_ok(d.subrange(72, 76))
    &&& d[108] <= 2
    &&& spec_coption_tag_ok(d.subrange(109, 113))
    &&& spec_coption_tag_ok(d.subrange(129, 133))
}

/// What reading the balance of a ledger token account yields: structural
/// failure, an uninitialized account (state byte 0), or the little-endian
/// `u64` amount at bytes 64..72.
pub open spec fn spec_token_account_amount(d: Seq<u8>) -> Result<u64, RevenueSharingError> {
    if !spec_token_account_structural(d) {
        Err(RevenueSharingError::InvalidAccountData)
    } else if d[108] == 0 {
        Err(RevenueSharingError::UninitializedAccount)
    } else {
        Ok(spec_u64_from_le_bytes(d.subrange(64, 72)))
    }
}

/// Relies on `spl_token::state::Account::unpack`: it rejects a buffer that
/// is not exactly 165 bytes, an invalid optional-field tag or state byte
/// (`InvalidAccountData`), and an uninitialized account
/// (`UninitializedAccount`); otherwise it returns the account, whose
/// `amount` is the little-endian `u64` at bytes 64..72.
#[verifier::external_body]
pub fn token_account_amount(data: &[u8]) -> (r: Result<u64, RevenueSharingError>)
    ensures
        r == spec_token_account_amount(data@),
{
    match <spl_token::state::Account as solana_program::program_pack::Pack>::unpack(data) {
        Ok(acc) => Ok(acc.amount),
        Err(solana_program::program_error::ProgramError::UninitializedAccount) => Err(
            RevenueSharingError::UninitializedAccount,
        ),
        Err(_) => Err(RevenueSharingError::InvalidAccountData),
    }
}

} // verus!
