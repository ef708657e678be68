//! The instruction decoder: an opaque byte buffer becomes one of the two
//! typed operations.
//!
//! Wire format: a tag byte, then the operation's payload. Tag 0 carries two
//! little-endian `u16` share weights (4 bytes); tag 1 carries one
//! little-endian `u64` amount (8 bytes). Anything else — an empty buffer, an
//! unknown tag, or too short a payload — is rejected with
//! `InvalidInstruction`.

use vstd::bytes::{spec_u16_from_le_bytes, spec_u64_from_le_bytes, u16_from_le_bytes,
    u64_from_le_bytes};
use vstd::prelude::*;
use vstd::slice::slice_subrange;

use crate::error::RevenueSharingError;

verus! {

/// A decoded operation of the module.
#[derive(Debug, Clone, Copy, PartialEq, Eq, Structural)]
pub enum RevenueSharingInstruction {
    /// One-time initialization of a sharing arrangement with the two
    /// members' share weights.
    InitRevenueSharing { member_1_shares: u16, member_2_shares: u16 },
    /// A member's request to withdraw `amount` from the shared balance.
    Withdraw { amount: u64 },
}

/// The meaning of an instruction buffer: which operation it encodes, if any.
pub open spec fn spec_unpack_instruction(input: Seq<u8>) -> Result<
    RevenueSharingInstruction,
    RevenueSharingError,
> {
    if input.len() == 0 {
        Err(RevenueSharingError::InvalidInstruction)
    } else if input[0] == 0 {
        if input.len() >= 5 {
            Ok(
                RevenueSharingInstruction::InitRevenueSharing {
                    member_1_shares: spec_u16_from_le_bytes(input.subrange(1, 3)),
                    member_2_shares: spec_u16_from_le_bytes(input.subrange(3, 5)),
                },
            )
        } else {
            Err(RevenueSharingError::InvalidInstruction)
        }
    } else if input[0] == 1 {
        if input.len() >= 9 {
            Ok(
                RevenueSharingInstruction::Withdraw {
                    amount: spec_u64_from_le_bytes(input.subrange(1, 9)),
                },
            )
        } else {
            Err(RevenueSharingError::InvalidInstruction)
        }
    } else {
        Err(RevenueSharingError::InvalidInstruction)
    }
}

impl RevenueSharingInstruction {
    /// Decodes an instruction buffer into the operation it encodes, exactly
    /// as `spec_unpack_instruction` fixes it.
    pub fn unpack(input: &[u8]) -> (r: Result<Self, RevenueSharingError>)
        ensures
            r == spec_unpack_instruction(input@),
    {
        if input.len() == 0 {
            return Err(RevenueSharingError::InvalidInstruction);
        }
        let tag = *vstd::slice::slice_index_get(input, 0);
        let rest = slice_subrange(input, 1, input.len());
        match tag {
            0 => {
                let r = Self::unpack_revenue_sharing(rest);
                proof {
                    if input@.len() >= 5 {
                        assert(rest@.subrange(0, 2) =~= input@.subrange(1, 3));
                        assert(rest@.subrange(2, 4) =~= input@.subrange(3, 5));
                    }
                }
                r
            },
            1 => {
                let amount = Self::unpack_amount(rest);
                proof {
                    if input@.len() >= 9 {
                        assert(rest@.subrange(0, 8) =~= input@.subrange(1, 9));
                    }
                }
                match amount {
                    Ok(amount) => Ok(RevenueSharingInstruction::Withdraw { amount }),
                    Err(e) => Err(e),
                }
            },
            _ => Err(RevenueSharingError::InvalidInstruction),
        }
    }

    /// Decodes the initialization payload: two little-endian `u16` share
    /// weights in the first 4 bytes; a shorter payload is rejected.
    pub fn unpack_revenue_sharing(data: &[u8]) -> (r: Result<Self, RevenueSharingError>)
        ensures
            data@.len() >= 4 ==> r == Ok::<Self, RevenueSharingError>(
                RevenueSharingInstruction::InitRevenueSharing {
                    member_1_shares: spec_u16_from_le_bytes(data@.subrange(0, 2)),
                    member_2_shares: spec_u16_from_le_bytes(data@.subrange(2, 4)),
                },
            ),
            data@.len() < 4 ==> r == Err::<Self, RevenueSharingError>(
                RevenueSharingError::InvalidInstruction,
            ),
    {
        if data.len() < 4 {
            return Err(RevenueSharingError::InvalidInstruction);
        }
        let member_1_shares = u16_from_le_bytes(slice_subrange(data, 0, 2));
        let member_2_shares = u16_from_le_bytes(slice_subrange(data, 2, 4));
        Ok(RevenueSharingInstruction::InitRevenueSharing { member_1_shares, member_2_shares })
    }

    /// Decodes the withdrawal payload: one little-endian `u64` amount in the
    /// first 8 bytes; a shorter payload is rejected.
    pub fn unpack_amount(input: &[u8]) -> (r: Result<u64, RevenueSharingError>)
        ensures
            input@.len() >= 8 ==> r == Ok::<u64, RevenueSharingError>(
                spec_u64_from_le_bytes(input@.subrange(0, 8)),
            ),
            input@.len() < 8 ==> r == Err::<u64, RevenueSharingError>(
                RevenueSharingError::InvalidInstruction,
            ),
    {
        if input.len() < 8 {
            return Err(RevenueSharingError::InvalidInstruction);
        }
        Ok(u64_from_le_bytes(slice_subrange(input, 0, 8)))
    }
}

} // verus!
