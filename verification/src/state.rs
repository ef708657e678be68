//! The persistent revenue-sharing record and its fixed-layout binary codec.
//!
//! A record is stored in exactly [`RECORD_LEN`] bytes: one flag byte, two
//! 32-byte member identities, two little-endian `u16` share weights and two
//! little-endian `u64` cumulative-withdrawn counters. The codec validates
//! nothing beyond byte structure; semantic checks belong to the handlers.

use vstd::bytes::{
    spec_u16_from_le_bytes, spec_u16_to_le_bytes, spec_u64_from_le_bytes, spec_u64_to_le_bytes,
    lemma_auto_spec_u16_to_from_le_bytes, lemma_auto_spec_u64_to_from_le_bytes, u16_from_le_bytes,
    u16_to_le_bytes, u64_from_le_bytes, u64_to_le_bytes,
};
use vstd::prelude::*;
use vstd::slice::{slice_subrange, slice_to_vec};

use crate::error::RevenueSharingError;

verus! {

/// Exact byte length of an encoded record:
/// 1 (flag) + 32 + 32 (identities) + 2 + 2 (shares) + 8 + 8 (counters).
pub const RECORD_LEN: usize = 85;

/// Length of a member identity in bytes.
pub const ID_LEN: usize = 32;

/// The revenue-sharing record: initialization flag, the two member
/// identities, their share weights (basis points out of 10000) and the
/// cumulative amount each member has withdrawn so far.
#[derive(Debug)]
pub struct RevenueSharing {
    /// False until initialization runs; never reset afterwards.
    pub is_initialized: bool,
    /// Identity of member 1 (32 bytes).
    pub member_1_pubkey: Vec<u8>,
    /// Identity of member 2 (32 bytes).
    pub member_2_pubkey: Vec<u8>,
    /// Share weight of member 1.
    pub member_1_shares: u16,
    /// Share weight of member 2.
    pub member_2_shares: u16,
    /// Cumulative amount member 1 has withdrawn.
    pub member_1_withdraw: u64,
    /// Cumulative amount member 2 has withdrawn.
    pub member_2_withdraw: u64,
}

/// The mathematical image of a record: the same fields with the identities
/// as byte sequences.
pub struct RecordView {
    pub is_initialized: bool,
    pub member_1_pubkey: Seq<u8>,
    pub member_2_pubkey: Seq<u8>,
    pub member_1_shares: u16,
    pub member_2_shares: u16,
    pub member_1_withdraw: u64,
    pub member_2_withdraw: u64,
}

impl RecordView {
    /// Structural well-formedness: both identities are exactly 32 bytes.
    pub open spec fn wf(self) -> bool {
        self.member_1_pubkey.len() == ID_LEN && self.member_2_pubkey.len() == ID_LEN
    }
}

impl View for RevenueSharing {
    type V = RecordView;

    open spec fn view(&self) -> RecordView {
        RecordView {
            is_initialized: self.is_initialized,
            member_1_pubkey: self.member_1_pubkey@,
            member_2_pubkey: self.member_2_pubkey@,
            member_1_shares: self.member_1_shares,
            member_2_shares: self.member_2_shares,
            member_1_withdraw: self.member_1_withdraw,
            member_2_withdraw: self.member_2_withdraw,
        }
    }
}

/// The encoding of a record: the exact 85-byte image laid out as the
/// persistent format fixes it.
pub open spec fn spec_pack(r: RecordView) -> Seq<u8> {
    seq![if r.is_initialized { 1u8 } else { 0u8 }] + r.member_1_pubkey + r.member_2_pubkey
        + spec_u16_to_le_bytes(r.member_1_shares) + spec_u16_to_le_bytes(r.member_2_shares)
        + spec_u64_to_le_bytes(r.member_1_withdraw) + spec_u64_to_le_bytes(r.member_2_withdraw)
}

/// Unchecked-mode decoding: demands a buffer of exactly 85 bytes but accepts
/// an uninitialized record.
pub open spec fn spec_unpack_unchecked(s: Seq<u8>) -> Result<RecordView, RevenueSharingError> {
    if s.len() != RECORD_LEN {
        Err(RevenueSharingError::InvalidAccountData)
    } else {
        spec_unpack(s)
    }
}

/// Checked-mode decoding: demands a buffer of exactly 85 bytes whose record
/// is already marked initialized.
pub open spec fn spec_unpack_checked(s: Seq<u8>) -> Result<RecordView, RevenueSharingError> {
    match spec_unpack_unchecked(s) {
        Ok(rec) => if rec.is_initialized {
            Ok(rec)
        } else {
            Err(RevenueSharingError::UninitializedAccount)
        },
        Err(e) => Err(e),
    }
}

/// The decoding of a buffer: reads the first 85 bytes, failing if fewer are
/// present or the flag byte is neither 0 nor 1.
pub open spec fn spec_unpack(s: Seq<u8>) -> Result<RecordView, RevenueSharingError> {
    if s.len() < RECORD_LEN {
        Err(RevenueSharingError::InvalidAccountData)
    } else if s[0] != 0 && s[0] != 1 {
        Err(RevenueSharingError::InvalidAccountData)
    } else {
        Ok(
            RecordView {
                is_initialized: s[0] == 1,
                member_1_pubkey: s.subrange(1, 33),
                member_2_pubkey: s.subrange(33, 65),
                member_1_shares: spec_u16_from_le_bytes(s.subrange(65, 67)),
                member_2_shares: spec_u16_from_le_bytes(s.subrange(67, 69)),
                member_1_withdraw: spec_u64_from_le_bytes(s.subrange(69, 77)),
                member_2_withdraw: spec_u64_from_le_bytes(s.subrange(77, 85)),
            },
        )
    }
}

impl RevenueSharing {
    /// Whether the record has been activated by the one-time initialization.
    pub fn is_initialized(&self) -> (r: bool)
        ensures
            r == self@.is_initialized,
    {
        self.is_initialized
    }

    /// Decodes the first 85 bytes of `src` into a record, without demanding
    /// an exact-length buffer.
    pub fn unpack_from_slice(src: &[u8]) -> (r: Result<RevenueSharing, RevenueSharingError>)
        ensures
            match r {
                Ok(rec) => spec_unpack(src@) == Ok::<RecordView, RevenueSharingError>(rec@)
                    && rec@.wf(),
                Err(e) => spec_unpack(src@) == Err::<RecordView, RevenueSharingError>(e),
            },
    {
        if src.len() < RECORD_LEN {
            return Err(RevenueSharingError::InvalidAccountData);
        }
        let flag = *vstd::slice::slice_index_get(src, 0);
        let is_initialized = if flag == 0 {
            false
        } else if flag == 1 {
            true
        } else {
            return Err(RevenueSharingError::InvalidAccountData);
        };
        let member_1_pubkey = slice_to_vec(slice_subrange(src, 1, 33));
        let member_2_pubkey = slice_to_vec(slice_subrange(src, 33, 65));
        let member_1_shares = u16_from_le_bytes(slice_subrange(src, 65, 67));
        let member_2_shares = u16_from_le_bytes(slice_subrange(src, 67, 69));
        let member_1_withdraw = u64_from_le_bytes(slice_subrange(src, 69, 77));
        let member_2_withdraw = u64_from_le_bytes(slice_subrange(src, 77, 85));
        Ok(
            RevenueSharing {
                is_initialized,
                member_1_pubkey,
                member_2_pubkey,
                member_1_shares,
                member_2_shares,
                member_1_withdraw,
                member_2_withdraw,
            },
        )
    }

    /// Decodes a buffer of exactly 85 bytes, accepting an uninitialized
    /// record; any other length fails with `InvalidAccountData`.
    pub fn unpack_unchecked(input: &[u8]) -> (r: Result<RevenueSharing, RevenueSharingError>)
        ensures
            match r {
                Ok(rec) => spec_unpack_unchecked(input@) == Ok::<RecordView, RevenueSharingError>(
                    rec@,
                ) && rec@.wf(),
                Err(e) => spec_unpack_unchecked(input@) == Err::<RecordView, RevenueSharingError>(
                    e,
                ),
            },
    {
        if input.len() != RECORD_LEN {
            return Err(RevenueSharingError::InvalidAccountData);
        }
        Self::unpack_from_slice(input)
    }

    /// Decodes a buffer of exactly 85 bytes and demands that the record is
    /// already marked initialized, failing with `UninitializedAccount`
    /// otherwise.
    pub fn unpack(input: &[u8]) -> (r: Result<RevenueSharing, RevenueSharingError>)
        ensures
            match r {
                Ok(rec) => spec_unpack_checked(input@) == Ok::<RecordView, RevenueSharingError>(
                    rec@,
                ) && rec@.wf() && rec@.is_initialized,
                Err(e) => spec_unpack_checked(input@) == Err::<RecordView, RevenueSharingError>(e),
            },
    {
        match Self::unpack_unchecked(input) {
            Ok(rec) => {
                if rec.is_initialized() {
                    Ok(rec)
                } else {
                    Err(RevenueSharingError::UninitializedAccount)
                }
            },
            Err(e) => Err(e),
        }
    }

    /// Encodes the record into a fresh 85-byte buffer.
    pub fn pack(&self) -> (out: Vec<u8>)
        requires
            self@.wf(),
        ensures
            out@ == spec_pack(self@),
            out@.len() == RECORD_LEN,
    {
        proof {
            lemma_auto_spec_u16_to_from_le_bytes();
            lemma_auto_spec_u64_to_from_le_bytes();
        }
        let mut out: Vec<u8> = Vec::new();
        out.push(if self.is_initialized { 1u8 } else { 0u8 });
        extend_bytes(&mut out, self.member_1_pubkey.as_slice());
        extend_bytes(&mut out, self.member_2_pubkey.as_slice());
        let mut piece = u16_to_le_bytes(self.member_1_shares);
        out.append(&mut piece);
        let mut piece = u16_to_le_bytes(self.member_2_shares);
        out.append(&mut piece);
        let mut piece = u64_to_le_bytes(self.member_1_withdraw);
        out.append(&mut piece);
        let mut piece = u64_to_le_bytes(self.member_2_withdraw);
        out.append(&mut piece);
        out
    }

    /// Writes the encoding over the first 85 bytes of `dst`, leaving any
    /// tail untouched.
    pub fn pack_into_slice(&self, dst: &mut Vec<u8>)
        requires
            self@.wf(),
            old(dst)@.len() >= RECORD_LEN,
        ensures
            final(dst)@.len() == old(dst)@.len(),
            final(dst)@ == spec_pack(self@) + old(dst)@.skip(RECORD_LEN as int),
    {
        let encoded = self.pack();
        let mut i: usize = 0;
        while i < RECORD_LEN
            invariant
                encoded@.len() == RECORD_LEN,
                RECORD_LEN <= dst@.len() == old(dst)@.len(),
                i <= RECORD_LEN,
                forall|k: int| 0 <= k < i ==> dst@[k] == encoded@[k],
                forall|k: int| i <= k < dst@.len() ==> dst@[k] == old(dst)@[k],
            decreases RECORD_LEN - i,
        {
            let b = *vstd::slice::slice_index_get(encoded.as_slice(), i);
            dst.set(i, b);
            i += 1;
        }
        assert(dst@ =~= spec_pack(self@) + old(dst)@.skip(RECORD_LEN as int));
    }
}

/// Law: decoding an encoded record yields the record unchanged, for every
/// well-formed record.
pub proof fn lemma_unpack_pack(r: RecordView)
    requires
        r.wf(),
    ensures
        spec_pack(r).len() == RECORD_LEN,
        spec_unpack(spec_pack(r)) == Ok::<RecordView, RevenueSharingError>(r),
{
    lemma_auto_spec_u16_to_from_le_bytes();
    lemma_auto_spec_u64_to_from_le_bytes();
    let s = spec_pack(r);
    assert(s.subrange(1, 33) =~= r.member_1_pubkey);
    assert(s.subrange(33, 65) =~= r.member_2_pubkey);
    assert(s.subrange(65, 67) =~= spec_u16_to_le_bytes(r.member_1_shares));
    assert(s.subrange(67, 69) =~= spec_u16_to_le_bytes(r.member_2_shares));
    assert(s.subrange(69, 77) =~= spec_u64_to_le_bytes(r.member_1_withdraw));
    assert(s.subrange(77, 85) =~= spec_u64_to_le_bytes(r.member_2_withdraw));
}

/// Law: re-encoding a validly decoded 85-byte buffer yields the buffer
/// unchanged.
pub proof fn lemma_pack_unpack(s: Seq<u8>)
    requires
        s.len() == RECORD_LEN,
        spec_unpack(s) is Ok,
    ensures
        spec_pack(spec_unpack(s).unwrap()) == s,
{
    lemma_auto_spec_u16_to_from_le_bytes();
    lemma_auto_spec_u64_to_from_le_bytes();
    let r = spec_unpack(s).unwrap();
    assert(spec_u16_to_le_bytes(r.member_1_shares) == s.subrange(65, 67));
    assert(spec_u16_to_le_bytes(r.member_2_shares) == s.subrange(67, 69));
    assert(spec_u64_to_le_bytes(r.member_1_withdraw) == s.subrange(69, 77));
    assert(spec_u64_to_le_bytes(r.member_2_withdraw) == s.subrange(77, 85));
    assert(spec_pack(r) =~= s);
}

/// Appends every byte of `src` to `dst`, in order.
fn extend_bytes(dst: &mut Vec<u8>, src: &[u8])
    ensures
        final(dst)@ == old(dst)@ + src@,
{
    let mut i: usize = 0;
    while i < src.len()
        invariant
            i <= src@.len(),
            dst@ == old(dst)@ + src@.take(i as int),
        decreases src@.len() - i,
    {
        dst.push(*vstd::slice::slice_index_get(src, i));
        assert(dst@ =~= old(dst)@ + src@.take(i + 1));
        i += 1;
    }
    assert(dst@ =~= old(dst)@ + src@);
}

} // verus!
