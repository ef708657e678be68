//! Error taxonomy of the revenue-sharing module.
//!
//! Every fallible step of the module surfaces one of these kinds; no failure
//! is folded into a generic error.

use vstd::prelude::*;

verus! {

/// Everything that can go wrong while decoding instructions or state, or
/// while authorising an initialization or a withdrawal.
#[derive(Debug, Clone, Copy, PartialEq, Eq, Structural)]
pub enum RevenueSharingError {
    /// Malformed or unrecognised instruction bytes.
    InvalidInstruction,
    /// The record's storage does not meet the host's persistence-exemption
    /// threshold.
    NotRentExempt,
    /// A withdrawal was requested above the caller's remaining entitlement.
    WithdrawLimitExceeded,
    /// A required caller did not sign the request.
    MissingRequiredSignature,
    /// The shared balance is not owned by the expected token-ledger service.
    IncorrectProgramId,
    /// The record was already initialized when initialization was attempted.
    AccountAlreadyInitialized,
    /// The caller is not a configured member, or account data fails its
    /// structural decode.
    InvalidAccountData,
    /// A record or token account that must already be initialized is not.
    UninitializedAccount,
    /// Fewer accounts were supplied than the instruction's positions require.
    NotEnoughAccountKeys,
    /// The host could not resolve the derived custodial authority for this
    /// module identity.
    AuthorityUnavailable,
}

} // verus!
