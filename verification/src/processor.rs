//! The instruction dispatcher and the two handlers.
//!
//! Handlers are pure decisions: they take a snapshot of the accounts the
//! caller supplied, in their fixed positional order, and return either the
//! error that aborts the transaction or the effects the runtime adapter must
//! apply — the new record bytes to persist and the ledger action to issue.
//! Nothing is written and no value moves until a handler has returned
//! successfully.

use vstd::prelude::*;
use vstd::slice::{slice_index_get, slice_to_vec};

use crate::authority::{derive_authority, derived_authority};
use crate::error::RevenueSharingError;
use crate::instruction::{spec_unpack_instruction, RevenueSharingInstruction};
use crate::state::{spec_pack, spec_unpack, spec_unpack_checked, spec_unpack_unchecked, RecordView,
    RevenueSharing, ID_LEN};
use crate::token::{spec_token_account_amount, spec_token_program_id, token_account_amount,
    token_program_id};

verus! {

/// The share denominator: weights are basis points out of 10000.
pub const SHARE_DENOMINATOR: u16 = 10000;

/// A snapshot of one positional account reference, as the handlers read it:
/// its address, its owner, whether it signed the request, and its data.
pub struct AccountView {
    /// The account's 32-byte address.
    pub key: Vec<u8>,
    /// The 32-byte address of the program owning the account.
    pub owner: Vec<u8>,
    /// Whether this account signed the current request.
    pub is_signer: bool,
    /// The account's stored data.
    pub data: Vec<u8>,
}

/// The mathematical image of an account snapshot.
pub struct AccountViewV {
    pub key: Seq<u8>,
    pub owner: Seq<u8>,
    pub is_signer: bool,
    pub data: Seq<u8>,
}

impl AccountViewV {
    /// Addresses are exactly 32 bytes.
    pub open spec fn wf(self) -> bool {
        self.key.len() == ID_LEN && self.owner.len() == ID_LEN
    }
}

impl View for AccountView {
    type V = AccountViewV;

    open spec fn view(&self) -> AccountViewV {
        AccountViewV {
            key: self.key@,
            owner: self.owner@,
            is_signer: self.is_signer,
            data: self.data@,
        }
    }
}

/// The images of a whole positional account list.
pub open spec fn spec_accounts(a: Seq<AccountView>) -> Seq<AccountViewV> {
    a.map_values(|x: AccountView| x@)
}

/// Every account of the list is well-formed.
pub open spec fn spec_accounts_wf(a: Seq<AccountViewV>) -> bool {
    forall|i: int| 0 <= i < a.len() ==> #[trigger] a[i].wf()
}

/// Effects of a successful initialization: the 85-byte record to persist,
/// and the derived authority that must become the shared balance's owner.
#[derive(Debug)]
pub struct InitEffects {
    /// Encoded record to write into the state account.
    pub new_state: Vec<u8>,
    /// The derived custodial authority: new owner of the shared balance.
    pub new_owner: Vec<u8>,
}

/// The mathematical image of `InitEffects`.
pub struct InitOutcomeView {
    pub new_state: Seq<u8>,
    pub new_owner: Seq<u8>,
}

impl View for InitEffects {
    type V = InitOutcomeView;

    open spec fn view(&self) -> InitOutcomeView {
        InitOutcomeView { new_state: self.new_state@, new_owner: self.new_owner@ }
    }
}

/// Effects of a successful withdrawal: the updated record to persist after
/// the transfer succeeds, and the transfer's parameters.
#[derive(Debug)]
pub struct WithdrawEffects {
    /// Encoded updated record; persisted only after a successful transfer.
    pub new_state: Vec<u8>,
    /// The amount to transfer from the shared balance to the destination.
    pub amount: u64,
    /// The derived authority that authorises the transfer.
    pub authority: Vec<u8>,
    /// The proof (bump seed) presented alongside the domain tag.
    pub bump_seed: u8,
}

/// The mathematical image of `WithdrawEffects`.
pub struct WithdrawOutcomeView {
    pub new_state: Seq<u8>,
    pub amount: u64,
    pub authority: Seq<u8>,
    pub bump_seed: u8,
}

impl View for WithdrawEffects {
    type V = WithdrawOutcomeView;

    open spec fn view(&self) -> WithdrawOutcomeView {
        WithdrawOutcomeView {
            new_state: self.new_state@,
            amount: self.amount,
            authority: self.authority@,
            bump_seed: self.bump_seed,
        }
    }
}

/// Effects of a dispatched instruction: whichever handler ran.
#[derive(Debug)]
pub enum ProcessEffects {
    Init(InitEffects),
    Withdraw(WithdrawEffects),
}

/// The mathematical image of `ProcessEffects`.
pub enum ProcessOutcomeView {
    Init(InitOutcomeView),
    Withdraw(WithdrawOutcomeView),
}

impl View for ProcessEffects {
    type V = ProcessOutcomeView;

    open spec fn view(&self) -> ProcessOutcomeView {
        match self {
            ProcessEffects::Init(e) => ProcessOutcomeView::Init(e@),
            ProcessEffects::Withdraw(e) => ProcessOutcomeView::Withdraw(e@),
        }
    }
}

/// Maps a handler result to its mathematical image, leaving errors as they
/// are.
pub open spec fn outcome_of<A: View>(r: Result<A, RevenueSharingError>) -> Result<
    A::V,
    RevenueSharingError,
> {
    match r {
        Ok(x) => Ok(x@),
        Err(e) => Err(e),
    }
}

/// The record a successful initialization persists: initialized, the two
/// member identities and weights as supplied, both counters zero.
pub open spec fn spec_init_record(m1: Seq<u8>, m2: Seq<u8>, s1: u16, s2: u16) -> RecordView {
    RecordView {
        is_initialized: true,
        member_1_pubkey: m1,
        member_2_pubkey: m2,
        member_1_shares: s1,
        member_2_shares: s2,
        member_1_withdraw: 0u64,
        member_2_withdraw: 0u64,
    }
}

/// Lifetime inflow of the arrangement: the current shared balance plus
/// everything already paid out. It is never stored; it is reconstructed at
/// every withdrawal.
pub open spec fn spec_total_deposited(balance: u64, rec: RecordView) -> int {
    balance + rec.member_1_withdraw + rec.member_2_withdraw
}

/// A member's gross entitlement: the floored proportional slice of the
/// total ever deposited. Floored, never rounded up.
pub open spec fn spec_gross_entitlement(total: int, shares: u16) -> int {
    total * shares / (SHARE_DENOMINATOR as int)
}

/// What the member may still withdraw: the gross entitlement minus what the
/// member has already withdrawn, and never below zero.
pub open spec fn spec_remaining_entitlement(balance: u64, rec: RecordView, member_1: bool) -> int {
    let total = spec_total_deposited(balance, rec);
    let gross = if member_1 {
        spec_gross_entitlement(total, rec.member_1_shares)
    } else {
        spec_gross_entitlement(total, rec.member_2_shares)
    };
    let withdrawn: int = if member_1 {
        rec.member_1_withdraw as int
    } else {
        rec.member_2_withdraw as int
    };
    if gross >= withdrawn {
        gross - withdrawn
    } else {
        0
    }
}

/// Whether a requested withdrawal passes the entitlement check: the amount
/// fits in the caller's remaining entitlement, and every counter the update
/// touches still fits in 64 bits afterwards.
pub open spec fn spec_withdraw_allowed(
    rec: RecordView,
    is_m1: bool,
    is_m2: bool,
    balance: u64,
    amount: u64,
) -> bool {
    &&& amount <= spec_remaining_entitlement(balance, rec, is_m1)
    &&& (is_m1 ==> rec.member_1_withdraw + amount <= u64::MAX)
    &&& (is_m2 ==> rec.member_2_withdraw + amount <= u64::MAX)
}

/// The record after a successful withdrawal: each matching member's counter
/// grows by the amount; everything else is unchanged.
pub open spec fn spec_apply_withdraw(
    rec: RecordView,
    is_m1: bool,
    is_m2: bool,
    amount: u64,
) -> RecordView {
    RecordView {
        is_initialized: rec.is_initialized,
        member_1_pubkey: rec.member_1_pubkey,
        member_2_pubkey: rec.member_2_pubkey,
        member_1_shares: rec.member_1_shares,
        member_2_shares: rec.member_2_shares,
        member_1_withdraw: if is_m1 {
            (rec.member_1_withdraw + amount) as u64
        } else {
            rec.member_1_withdraw
        },
        member_2_withdraw: if is_m2 {
            (rec.member_2_withdraw + amount) as u64
        } else {
            rec.member_2_withdraw
        },
    }
}

/// The full outcome of an initialization request, in the order the handler
/// decides it: positions 0 (initializer), 1 (shared balance), 2 (record
/// storage), 3 (rent oracle), 5 and 6 (the members).
pub open spec fn spec_process_init(
    a: Seq<AccountViewV>,
    state_rent_exempt: bool,
    member_1_shares: u16,
    member_2_shares: u16,
    program_id: Seq<u8>,
) -> Result<InitOutcomeView, RevenueSharingError> {
    if a.len() < 1 {
        Err(RevenueSharingError::NotEnoughAccountKeys)
    } else if !a[0].is_signer {
        Err(RevenueSharingError::MissingRequiredSignature)
    } else if a.len() < 2 {
        Err(RevenueSharingError::NotEnoughAccountKeys)
    } else if a[1].owner != spec_token_program_id() {
        Err(RevenueSharingError::IncorrectProgramId)
    } else if a.len() < 4 {
        Err(RevenueSharingError::NotEnoughAccountKeys)
    } else if !state_rent_exempt {
        Err(RevenueSharingError::NotRentExempt)
    } else {
        match spec_unpack_unchecked(a[2].data) {
            Err(e) => Err(e),
            Ok(rec) => if rec.is_initialized {
                Err(RevenueSharingError::AccountAlreadyInitialized)
            } else if a.len() < 7 {
                Err(RevenueSharingError::NotEnoughAccountKeys)
            } else {
                match derived_authority(program_id) {
                    None => Err(RevenueSharingError::AuthorityUnavailable),
                    Some(p) => Ok(
                        InitOutcomeView {
                            new_state: spec_pack(
                                spec_init_record(
                                    a[5].key,
                                    a[6].key,
                                    member_1_shares,
                                    member_2_shares,
                                ),
                            ),
                            new_owner: p.0,
                        },
                    ),
                }
            },
        }
    }
}

/// The full outcome of a withdrawal request, in the order the handler
/// decides it: positions 0 (the withdrawing member), 1 (record storage),
/// 2 (shared balance), 3 (destination), 4 (ledger program), 5 (authority).
pub open spec fn spec_process_withdraw(
    a: Seq<AccountViewV>,
    amount: u64,
    program_id: Seq<u8>,
) -> Result<WithdrawOutcomeView, RevenueSharingError> {
    if a.len() < 1 {
        Err(RevenueSharingError::NotEnoughAccountKeys)
    } else if !a[0].is_signer {
        Err(RevenueSharingError::MissingRequiredSignature)
    } else if a.len() < 2 {
        Err(RevenueSharingError::NotEnoughAccountKeys)
    } else {
        match spec_unpack_checked(a[1].data) {
            Err(e) => Err(e),
            Ok(rec) => {
                let is_m1 = a[0].key == rec.member_1_pubkey;
                let is_m2 = a[0].key == rec.member_2_pubkey;
                if !is_m1 && !is_m2 {
                    Err(RevenueSharingError::InvalidAccountData)
                } else if a.len() < 3 {
                    Err(RevenueSharingError::NotEnoughAccountKeys)
                } else {
                    match spec_token_account_amount(a[2].data) {
                        Err(e) => Err(e),
                        Ok(balance) => match derived_authority(program_id) {
                            None => Err(RevenueSharingError::AuthorityUnavailable),
                            Some(p) => if a.len() < 6 {
                                Err(RevenueSharingError::NotEnoughAccountKeys)
                            } else if !spec_withdraw_allowed(rec, is_m1, is_m2, balance, amount) {
                                Err(RevenueSharingError::WithdrawLimitExceeded)
                            } else {
                                Ok(
                                    WithdrawOutcomeView {
                                        new_state: spec_pack(
                                            spec_apply_withdraw(rec, is_m1, is_m2, amount),
                                        ),
                                        amount: amount,
                                        authority: p.0,
                                        bump_seed: p.1,
                                    },
                                )
                            },
                        },
                    }
                }
            },
        }
    }
}

/// The full outcome of a dispatched instruction buffer.
pub open spec fn spec_process(
    program_id: Seq<u8>,
    a: Seq<AccountViewV>,
    state_rent_exempt: bool,
    instruction_data: Seq<u8>,
) -> Result<ProcessOutcomeView, RevenueSharingError> {
    match spec_unpack_instruction(instruction_data) {
        Err(e) => Err(e),
        Ok(RevenueSharingInstruction::InitRevenueSharing { member_1_shares, member_2_shares }) => {
            match spec_process_init(
                a,
                state_rent_exempt,
                member_1_shares,
                member_2_shares,
                program_id,
            ) {
                Ok(o) => Ok(ProcessOutcomeView::Init(o)),
                Err(e) => Err(e),
            }
        },
        Ok(RevenueSharingInstruction::Withdraw { amount }) => {
            match spec_process_withdraw(a, amount, program_id) {
                Ok(o) => Ok(ProcessOutcomeView::Withdraw(o)),
                Err(e) => Err(e),
            }
        },
    }
}

/// Byte-for-byte equality of two buffers.
pub fn bytes_eq(a: &[u8], b: &[u8]) -> (r: bool)
    ensures
        r == (a@ == b@),
{
    if a.len() != b.len() {
        return false;
    }
    let mut i: usize = 0;
    while i < a.len()
        invariant
            i <= a@.len(),
            a@.len() == b@.len(),
            forall|k: int| 0 <= k < i ==> a@[k] == b@[k],
        decreases a@.len() - i,
    {
        if *slice_index_get(a, i) != *slice_index_get(b, i) {
            return false;
        }
        i += 1;
    }
    proof {
        assert(a@ =~= b@);
    }
    true
}

/// Borrows the account at position `i`.
fn account_at(accounts: &Vec<AccountView>, i: usize) -> (r: &AccountView)
    requires
        i < accounts@.len(),
    ensures
        *r == accounts@[i as int],
{
    slice_index_get(accounts.as_slice(), i)
}

/// Computes the caller's remaining entitlement with wide fixed-point
/// arithmetic: multiply before dividing, floor the quotient, never go below
/// zero.
fn remaining_entitlement(balance: u64, rec: &RevenueSharing, member_1: bool) -> (r: u128)
    ensures
        r == spec_remaining_entitlement(balance, rec@, member_1),
{
    let total: u128 = balance as u128 + rec.member_1_withdraw as u128
        + rec.member_2_withdraw as u128;
    let shares: u128 = if member_1 {
        rec.member_1_shares as u128
    } else {
        rec.member_2_shares as u128
    };
    let withdrawn: u128 = if member_1 {
        rec.member_1_withdraw as u128
    } else {
        rec.member_2_withdraw as u128
    };
    proof {
        assert(total * shares < 0x1000000000000000000000000u128) by (nonlinear_arith)
            requires
                total < 0x30000000000000000u128,
                shares < 0x10000u128,
        ;
    }
    let gross: u128 = total * shares / (SHARE_DENOMINATOR as u128);
    if gross >= withdrawn {
        gross - withdrawn
    } else {
        0
    }
}

/// The dispatcher and the two handlers.
pub struct Processor;

impl Processor {
    /// Decodes the instruction buffer and runs the matching handler against
    /// the positional account snapshots, returning the effects the runtime
    /// adapter must apply. `state_rent_exempt` is the host's
    /// storage-reclamation-exemption verdict for the record account.
    pub fn process(
        program_id: &Vec<u8>,
        accounts: &Vec<AccountView>,
        state_rent_exempt: bool,
        instruction_data: &[u8],
    ) -> (r: Result<ProcessEffects, RevenueSharingError>)
        requires
            program_id@.len() == ID_LEN,
            spec_accounts_wf(spec_accounts(accounts@)),
        ensures
            outcome_of(r) == spec_process(
                program_id@,
                spec_accounts(accounts@),
                state_rent_exempt,
                instruction_data@,
            ),
    {
        match RevenueSharingInstruction::unpack(instruction_data) {
            Err(e) => Err(e),
            Ok(RevenueSharingInstruction::InitRevenueSharing { member_1_shares, member_2_shares }) => {
                match Self::process_init_revenue_sharing(
                    accounts,
                    state_rent_exempt,
                    member_1_shares,
                    member_2_shares,
                    program_id,
                ) {
                    Ok(o) => Ok(ProcessEffects::Init(o)),
                    Err(e) => Err(e),
                }
            },
            Ok(RevenueSharingInstruction::Withdraw { amount }) => {
                match Self::process_withdraw(accounts, amount, program_id) {
                    Ok(o) => Ok(ProcessEffects::Withdraw(o)),
                    Err(e) => Err(e),
                }
            },
        }
    }

    /// The one-time initialization decision: verifies the signer, the
    /// shared balance's owner, the storage exemption and that the record is
    /// not yet initialized, then produces the populated record and names the
    /// derived authority as the balance's new owner.
    pub fn process_init_revenue_sharing(
        accounts: &Vec<AccountView>,
        state_rent_exempt: bool,
        member_1_shares: u16,
        member_2_shares: u16,
        program_id: &Vec<u8>,
    ) -> (r: Result<InitEffects, RevenueSharingError>)
        requires
            program_id@.len() == ID_LEN,
            spec_accounts_wf(spec_accounts(accounts@)),
        ensures
            outcome_of(r) == spec_process_init(
                spec_accounts(accounts@),
                state_rent_exempt,
                member_1_shares,
                member_2_shares,
                program_id@,
            ),
    {
        if accounts.len() < 1 {
            return Err(RevenueSharingError::NotEnoughAccountKeys);
        }
        let init_acct = account_at(accounts, 0);
        if !init_acct.is_signer {
            return Err(RevenueSharingError::MissingRequiredSignature);
        }
        if accounts.len() < 2 {
            return Err(RevenueSharingError::NotEnoughAccountKeys);
        }
        let shared_acct = account_at(accounts, 1);
        let ledger_id = token_program_id();
        if !bytes_eq(shared_acct.owner.as_slice(), ledger_id.as_slice()) {
            return Err(RevenueSharingError::IncorrectProgramId);
        }
        if accounts.len() < 4 {
            return Err(RevenueSharingError::NotEnoughAccountKeys);
        }
        if !state_rent_exempt {
            return Err(RevenueSharingError::NotRentExempt);
        }
        let state_acct = account_at(accounts, 2);
        let state_rec = match RevenueSharing::unpack_unchecked(state_acct.data.as_slice()) {
            Ok(rec) => rec,
            Err(e) => {
                return Err(e);
            },
        };
        if state_rec.is_initialized() {
            return Err(RevenueSharingError::AccountAlreadyInitialized);
        }
        if accounts.len() < 7 {
            return Err(RevenueSharingError::NotEnoughAccountKeys);
        }
        let member_1_acct = account_at(accounts, 5);
        let member_2_acct = account_at(accounts, 6);
        match derive_authority(program_id) {
            None => Err(RevenueSharingError::AuthorityUnavailable),
            Some((pda, _bump_seed)) => {
                let new_rec = RevenueSharing {
                    is_initialized: true,
                    member_1_pubkey: slice_to_vec(member_1_acct.key.as_slice()),
                    member_2_pubkey: slice_to_vec(member_2_acct.key.as_slice()),
                    member_1_shares,
                    member_2_shares,
                    member_1_withdraw: 0u64,
                    member_2_withdraw: 0u64,
                };
                proof {
                    // the member accounts are well-formed, so the new record is
                    assert(spec_accounts(accounts@)[5].wf());
                    assert(spec_accounts(accounts@)[6].wf());
                }
                let new_state = new_rec.pack();
                Ok(InitEffects { new_state, new_owner: pda })
            },
        }
    }

    /// The withdrawal decision: verifies the signer, decodes the initialized
    /// record, identifies the caller as a member, reconstructs the total
    /// ever deposited from the shared balance, enforces the entitlement
    /// limit, and produces the transfer parameters with the updated record.
    pub fn process_withdraw(
        accounts: &Vec<AccountView>,
        amount: u64,
        program_id: &Vec<u8>,
    ) -> (r: Result<WithdrawEffects, RevenueSharingError>)
        requires
            program_id@.len() == ID_LEN,
        ensures
            outcome_of(r) == spec_process_withdraw(
                spec_accounts(accounts@),
                amount,
                program_id@,
            ),
    {
        if accounts.len() < 1 {
            return Err(RevenueSharingError::NotEnoughAccountKeys);
        }
        let caller_acct = account_at(accounts, 0);
        if !caller_acct.is_signer {
            return Err(RevenueSharingError::MissingRequiredSignature);
        }
        if accounts.len() < 2 {
            return Err(RevenueSharingError::NotEnoughAccountKeys);
        }
        let state_acct = account_at(accounts, 1);
        let state_rec = match RevenueSharing::unpack(state_acct.data.as_slice()) {
            Ok(rec) => rec,
            Err(e) => {
                return Err(e);
            },
        };
        let is_member1 = bytes_eq(
            caller_acct.key.as_slice(),
            state_rec.member_1_pubkey.as_slice(),
        );
        let is_member2 = bytes_eq(
            caller_acct.key.as_slice(),
            state_rec.member_2_pubkey.as_slice(),
        );
        if !is_member1 && !is_member2 {
            return Err(RevenueSharingError::InvalidAccountData);
        }
        if accounts.len() < 3 {
            return Err(RevenueSharingError::NotEnoughAccountKeys);
        }
        let shared_acct = account_at(accounts, 2);
        let balance = match token_account_amount(shared_acct.data.as_slice()) {
            Ok(balance) => balance,
            Err(e) => {
                return Err(e);
            },
        };
        match derive_authority(program_id) {
            None => Err(RevenueSharingError::AuthorityUnavailable),
            Some((pda, bump_seed)) => {
                if accounts.len() < 6 {
                    return Err(RevenueSharingError::NotEnoughAccountKeys);
                }
                let remaining = remaining_entitlement(balance, &state_rec, is_member1);
                let fits_1 = !is_member1 || amount <= u64::MAX - state_rec.member_1_withdraw;
                let fits_2 = !is_member2 || amount <= u64::MAX - state_rec.member_2_withdraw;
                if (amount as u128) > remaining || !fits_1 || !fits_2 {
                    return Err(RevenueSharingError::WithdrawLimitExceeded);
                }
                let new_rec = RevenueSharing {
                    is_initialized: state_rec.is_initialized,
                    member_1_pubkey: state_rec.member_1_pubkey,
                    member_2_pubkey: state_rec.member_2_pubkey,
                    member_1_shares: state_rec.member_1_shares,
                    member_2_shares: state_rec.member_2_shares,
                    member_1_withdraw: if is_member1 {
                        state_rec.member_1_withdraw + amount
                    } else {
                        state_rec.member_1_withdraw
                    },
                    member_2_withdraw: if is_member2 {
                        state_rec.member_2_withdraw + amount
                    } else {
                        state_rec.member_2_withdraw
                    },
                };
                let new_state = new_rec.pack();
                Ok(WithdrawEffects { new_state, amount, authority: pda, bump_seed })
            },
        }
    }
}

/// Both members' cumulative withdrawals are within their floored
/// proportional entitlement of the total ever deposited.
pub open spec fn spec_entitlement_bounds(balance: u64, rec: RecordView) -> bool {
    let total = spec_total_deposited(balance, rec);
    &&& rec.member_1_withdraw <= spec_gross_entitlement(total, rec.member_1_shares)
    &&& rec.member_2_withdraw <= spec_gross_entitlement(total, rec.member_2_shares)
}

/// Law: every valid initialization yields a record that decodes back as
/// initialized, carrying exactly the supplied member identities and share
/// weights with both counters zero, and names the derived authority as the
/// shared balance's new owner. A failed initialization yields no effects at
/// all, so it leaves the record untouched.
pub proof fn lemma_init_establishes_record(
    a: Seq<AccountViewV>,
    state_rent_exempt: bool,
    member_1_shares: u16,
    member_2_shares: u16,
    program_id: Seq<u8>,
)
    requires
        spec_accounts_wf(a),
        spec_process_init(a, state_rent_exempt, member_1_shares, member_2_shares, program_id)
            is Ok,
    ensures
        ({
            let o = spec_process_init(
                a,
                state_rent_exempt,
                member_1_shares,
                member_2_shares,
                program_id,
            ).unwrap();
            &&& spec_unpack(o.new_state) == Ok::<RecordView, RevenueSharingError>(
                spec_init_record(a[5].key, a[6].key, member_1_shares, member_2_shares),
            )
            &&& spec_unpack(o.new_state).unwrap().is_initialized
            &&& spec_unpack(o.new_state).unwrap().member_1_withdraw == 0
            &&& spec_unpack(o.new_state).unwrap().member_2_withdraw == 0
            &&& derived_authority(program_id) is Some
            &&& o.new_owner == derived_authority(program_id).unwrap().0
        }),
{
    let rec = spec_init_record(a[5].key, a[6].key, member_1_shares, member_2_shares);
    assert(a[5].wf() && a[6].wf());
    crate::state::lemma_unpack_pack(rec);
}

/// Law: initialization against a record that is already initialized fails
/// with `AccountAlreadyInitialized`, whatever the rest of the request looks
/// like, provided the earlier checks pass. The failure carries no effects,
/// so the record stays as it was.
pub proof fn lemma_reinit_fails(
    a: Seq<AccountViewV>,
    state_rent_exempt: bool,
    member_1_shares: u16,
    member_2_shares: u16,
    program_id: Seq<u8>,
)
    requires
        a.len() >= 4,
        a[0].is_signer,
        a[1].owner == spec_token_program_id(),
        state_rent_exempt,
        spec_unpack_unchecked(a[2].data) is Ok,
        spec_unpack_unchecked(a[2].data).unwrap().is_initialized,
    ensures
        spec_process_init(a, state_rent_exempt, member_1_shares, member_2_shares, program_id)
            == Err::<InitOutcomeView, RevenueSharingError>(
            RevenueSharingError::AccountAlreadyInitialized,
        ),
{
}

/// Law: a successful withdrawal step is exact bookkeeping. The withdrawing
/// member's counter grows by precisely the approved amount, the total ever
/// deposited reconstructed after the transfer is unchanged, and both
/// members' counters remain within their floored proportional entitlements.
/// The two member identities are assumed distinct, as a withdrawal request
/// matches exactly one of them.
pub proof fn lemma_withdraw_step(
    rec: RecordView,
    is_m1: bool,
    is_m2: bool,
    balance: u64,
    amount: u64,
)
    requires
        is_m1 || is_m2,
        !(is_m1 && is_m2),
        spec_withdraw_allowed(rec, is_m1, is_m2, balance, amount),
        amount <= balance,
        spec_entitlement_bounds(balance, rec),
    ensures
        ({
            let new_rec = spec_apply_withdraw(rec, is_m1, is_m2, amount);
            let new_balance = (balance - amount) as u64;
            &&& is_m1 ==> new_rec.member_1_withdraw == rec.member_1_withdraw + amount
            &&& is_m2 ==> new_rec.member_2_withdraw == rec.member_2_withdraw + amount
            &&& !is_m1 ==> new_rec.member_1_withdraw == rec.member_1_withdraw
            &&& !is_m2 ==> new_rec.member_2_withdraw == rec.member_2_withdraw
            &&& spec_total_deposited(new_balance, new_rec) == spec_total_deposited(balance, rec)
            &&& spec_entitlement_bounds(new_balance, new_rec)
        }),
{
}

/// Runs a history of withdrawal requests against a record and a shared
/// balance. Each step names the withdrawing member (`true` for member 1)
/// and an amount; the run stops as nothing if any step fails the
/// entitlement check or asks for more than the balance holds.
pub open spec fn spec_run_withdrawals(
    balance: u64,
    rec: RecordView,
    steps: Seq<(bool, u64)>,
) -> Option<(u64, RecordView)>
    decreases steps.len(),
{
    if steps.len() == 0 {
        Some((balance, rec))
    } else {
        let m1 = steps[0].0;
        let amount = steps[0].1;
        if spec_withdraw_allowed(rec, m1, !m1, balance, amount) && amount <= balance {
            spec_run_withdrawals(
                (balance - amount) as u64,
                spec_apply_withdraw(rec, m1, !m1, amount),
                steps.skip(1),
            )
        } else {
            None
        }
    }
}

/// The sum of the amounts a history grants to one member.
pub open spec fn spec_member_sum(steps: Seq<(bool, u64)>, member_1: bool) -> int
    decreases steps.len(),
{
    if steps.len() == 0 {
        0
    } else {
        (if steps[0].0 == member_1 {
            steps[0].1 as int
        } else {
            0
        }) + spec_member_sum(steps.skip(1), member_1)
    }
}

/// Law: over every sequence of successful withdrawals, each member's
/// counter ends at its start plus exactly the sum of that member's approved
/// amounts; the reconstructed total ever deposited never changes; and after
/// every step both counters stay within their floored proportional
/// entitlements.
pub proof fn lemma_withdraw_sequence(balance: u64, rec: RecordView, steps: Seq<(bool, u64)>)
    requires
        spec_entitlement_bounds(balance, rec),
        spec_run_withdrawals(balance, rec, steps) is Some,
    ensures
        ({
            let end = spec_run_withdrawals(balance, rec, steps).unwrap();
            &&& end.1.member_1_withdraw == rec.member_1_withdraw + spec_member_sum(steps, true)
            &&& end.1.member_2_withdraw == rec.member_2_withdraw + spec_member_sum(steps, false)
            &&& spec_total_deposited(end.0, end.1) == spec_total_deposited(balance, rec)
            &&& spec_entitlement_bounds(end.0, end.1)
        }),
    decreases steps.len(),
{
    if steps.len() != 0 {
        let m1 = steps[0].0;
        let amount = steps[0].1;
        lemma_withdraw_step(rec, m1, !m1, balance, amount);
        lemma_withdraw_sequence(
            (balance - amount) as u64,
            spec_apply_withdraw(rec, m1, !m1, amount),
            steps.skip(1),
        );
    }
}

/// Law: the entitlement check is tight. A request for exactly the remaining
/// entitlement is allowed; a request for one unit more is not, so the
/// handler answers it with `WithdrawLimitExceeded` and produces no effects,
/// leaving the record unchanged.
pub proof fn lemma_entitlement_boundary(
    rec: RecordView,
    is_m1: bool,
    is_m2: bool,
    balance: u64,
    ent: int,
)
    requires
        ent == spec_remaining_entitlement(balance, rec, is_m1),
        ent + 1 <= u64::MAX,
        is_m1 ==> rec.member_1_withdraw + ent <= u64::MAX,
        is_m2 ==> rec.member_2_withdraw + ent <= u64::MAX,
    ensures
        spec_withdraw_allowed(rec, is_m1, is_m2, balance, ent as u64),
        !spec_withdraw_allowed(rec, is_m1, is_m2, balance, (ent + 1) as u64),
{
}

/// Law: a withdrawal requested by an identity that is neither configured
/// member fails with `InvalidAccountData`; no transfer parameters are
/// produced, so no value moves.
pub proof fn lemma_non_member_rejected(a: Seq<AccountViewV>, amount: u64, program_id: Seq<u8>)
    requires
        a.len() >= 2,
        a[0].is_signer,
        spec_unpack_checked(a[1].data) is Ok,
        a[0].key != spec_unpack_checked(a[1].data).unwrap().member_1_pubkey,
        a[0].key != spec_unpack_checked(a[1].data).unwrap().member_2_pubkey,
    ensures
        spec_process_withdraw(a, amount, program_id) == Err::<
            WithdrawOutcomeView,
            RevenueSharingError,
        >(RevenueSharingError::InvalidAccountData),
{
}

} // verus!
