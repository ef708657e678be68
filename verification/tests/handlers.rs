use revenue_sharing::error::RevenueSharingError;
use revenue_sharing::processor::{AccountView, ProcessEffects, Processor};
use revenue_sharing::state::RevenueSharing;

use solana_program::pubkey::Pubkey;

fn account(key: &[u8; 32], owner: &[u8; 32], is_signer: bool, data: Vec<u8>) -> AccountView {
    AccountView {
        key: key.to_vec(),
        owner: owner.to_vec(),
        is_signer,
        data,
    }
}

fn token_account_data(amount: u64) -> Vec<u8> {
    let mut data = vec![0u8; 165];
    data[64..72].copy_from_slice(&amount.to_le_bytes());
    data[108] = 1; // initialized
    data
}

fn state_data(m1: &[u8; 32], m2: &[u8; 32], s1: u16, s2: u16, w1: u64, w2: u64) -> Vec<u8> {
    RevenueSharing {
        is_initialized: true,
        member_1_pubkey: m1.to_vec(),
        member_2_pubkey: m2.to_vec(),
        member_1_shares: s1,
        member_2_shares: s2,
        member_1_withdraw: w1,
        member_2_withdraw: w2,
    }
    .pack()
}

const PROGRAM: [u8; 32] = [11u8; 32];
const INITIALIZER: [u8; 32] = [1u8; 32];
const MEMBER_1: [u8; 32] = [2u8; 32];
const MEMBER_2: [u8; 32] = [3u8; 32];
const OUTSIDER: [u8; 32] = [4u8; 32];
const DUMMY: [u8; 32] = [0u8; 32];

fn ledger_id() -> [u8; 32] {
    spl_token::id().to_bytes()
}

fn init_accounts(signer: bool, shared_owner: [u8; 32], state: Vec<u8>) -> Vec<AccountView> {
    vec![
        account(&INITIALIZER, &DUMMY, signer, Vec::new()),
        account(&DUMMY, &shared_owner, false, token_account_data(0)),
        account(&DUMMY, &DUMMY, false, state),
        account(&DUMMY, &DUMMY, false, Vec::new()),
        account(&ledger_id(), &DUMMY, false, Vec::new()),
        account(&MEMBER_1, &DUMMY, false, Vec::new()),
        account(&MEMBER_2, &DUMMY, false, Vec::new()),
    ]
}

fn withdraw_accounts(caller: [u8; 32], signer: bool, state: Vec<u8>, shared: Vec<u8>) -> Vec<AccountView> {
    vec![
        account(&caller, &DUMMY, signer, Vec::new()),
        account(&DUMMY, &DUMMY, false, state),
        account(&DUMMY, &ledger_id(), false, shared),
        account(&OUTSIDER, &DUMMY, false, Vec::new()),
        account(&ledger_id(), &DUMMY, false, Vec::new()),
        account(&DUMMY, &DUMMY, false, Vec::new()),
    ]
}

fn expected_authority() -> ([u8; 32], u8) {
    let (pda, bump) =
        Pubkey::find_program_address(&[b"revenue_sharing"], &Pubkey::new_from_array(PROGRAM));
    (pda.to_bytes(), bump)
}

#[test]
fn initialize_populates_the_record_and_names_the_authority() {
    let accounts = init_accounts(true, ledger_id(), vec![0u8; 85]);
    let effects = Processor::process_init_revenue_sharing(
        &accounts,
        true,
        6000,
        4000,
        &PROGRAM.to_vec(),
    )
    .unwrap();
    let rec = RevenueSharing::unpack(&effects.new_state).unwrap();
    assert!(rec.is_initialized());
    assert_eq!(rec.member_1_pubkey, MEMBER_1.to_vec());
    assert_eq!(rec.member_2_pubkey, MEMBER_2.to_vec());
    assert_eq!(rec.member_1_shares, 6000);
    assert_eq!(rec.member_2_shares, 4000);
    assert_eq!(rec.member_1_withdraw, 0);
    assert_eq!(rec.member_2_withdraw, 0);
    let (pda, _) = expected_authority();
    assert_eq!(effects.new_owner, pda.to_vec());
}

#[test]
fn initialize_demands_a_signer() {
    let accounts = init_accounts(false, ledger_id(), vec![0u8; 85]);
    let err = Processor::process_init_revenue_sharing(&accounts, true, 1, 1, &PROGRAM.to_vec())
        .unwrap_err();
    assert_eq!(err, RevenueSharingError::MissingRequiredSignature);
}

#[test]
fn initialize_demands_ledger_owned_shared_account() {
    let accounts = init_accounts(true, OUTSIDER, vec![0u8; 85]);
    let err = Processor::process_init_revenue_sharing(&accounts, true, 1, 1, &PROGRAM.to_vec())
        .unwrap_err();
    assert_eq!(err, RevenueSharingError::IncorrectProgramId);
}

#[test]
fn initialize_demands_rent_exempt_storage() {
    let accounts = init_accounts(true, ledger_id(), vec![0u8; 85]);
    let err = Processor::process_init_revenue_sharing(&accounts, false, 1, 1, &PROGRAM.to_vec())
        .unwrap_err();
    assert_eq!(err, RevenueSharingError::NotRentExempt);
}

#[test]
fn initialize_refuses_an_initialized_record() {
    let state = state_data(&MEMBER_1, &MEMBER_2, 6000, 4000, 0, 0);
    let accounts = init_accounts(true, ledger_id(), state.clone());
    let err = Processor::process_init_revenue_sharing(&accounts, true, 1, 1, &PROGRAM.to_vec())
        .unwrap_err();
    assert_eq!(err, RevenueSharingError::AccountAlreadyInitialized);
    // the record bytes were never touched
    let rec = RevenueSharing::unpack(&state).unwrap();
    assert_eq!(rec.member_1_shares, 6000);
}

#[test]
fn initialize_demands_enough_accounts() {
    let mut accounts = init_accounts(true, ledger_id(), vec![0u8; 85]);
    accounts.truncate(5);
    let err = Processor::process_init_revenue_sharing(&accounts, true, 1, 1, &PROGRAM.to_vec())
        .unwrap_err();
    assert_eq!(err, RevenueSharingError::NotEnoughAccountKeys);
    let err = Processor::process_init_revenue_sharing(&Vec::new(), true, 1, 1, &PROGRAM.to_vec())
        .unwrap_err();
    assert_eq!(err, RevenueSharingError::NotEnoughAccountKeys);
}

#[test]
fn initialize_rejects_malformed_state_buffer() {
    let accounts = init_accounts(true, ledger_id(), vec![0u8; 84]);
    let err = Processor::process_init_revenue_sharing(&accounts, true, 1, 1, &PROGRAM.to_vec())
        .unwrap_err();
    assert_eq!(err, RevenueSharingError::InvalidAccountData);
}

#[test]
fn withdraw_pays_the_exact_entitlement() {
    // shares 60%/40%, balance 1000, nothing withdrawn: member 1 may take 600
    let state = state_data(&MEMBER_1, &MEMBER_2, 6000, 4000, 0, 0);
    let accounts = withdraw_accounts(MEMBER_1, true, state, token_account_data(1000));
    let effects =
        Processor::process_withdraw(&accounts, 600, &PROGRAM.to_vec()).unwrap();
    assert_eq!(effects.amount, 600);
    let (pda, bump) = expected_authority();
    assert_eq!(effects.authority, pda.to_vec());
    assert_eq!(effects.bump_seed, bump);
    let rec = RevenueSharing::unpack(&effects.new_state).unwrap();
    assert_eq!(rec.member_1_withdraw, 600);
    assert_eq!(rec.member_2_withdraw, 0);
}

#[test]
fn withdraw_rejects_one_unit_above_the_entitlement() {
    let state = state_data(&MEMBER_1, &MEMBER_2, 6000, 4000, 0, 0);
    let accounts = withdraw_accounts(MEMBER_1, true, state, token_account_data(1000));
    let err = Processor::process_withdraw(&accounts, 601, &PROGRAM.to_vec()).unwrap_err();
    assert_eq!(err, RevenueSharingError::WithdrawLimitExceeded);
}

#[test]
fn withdraw_entitlement_is_exhausted_after_full_payout() {
    // member 1 already took the full 600; balance is down to 400, yet the
    // reconstructed total still says 1000 and the entitlement is spent
    let state = state_data(&MEMBER_1, &MEMBER_2, 6000, 4000, 600, 0);
    let accounts = withdraw_accounts(MEMBER_1, true, state, token_account_data(400));
    let err = Processor::process_withdraw(&accounts, 1, &PROGRAM.to_vec()).unwrap_err();
    assert_eq!(err, RevenueSharingError::WithdrawLimitExceeded);
    // member 2's 40% of the same total is still intact
    let state = state_data(&MEMBER_1, &MEMBER_2, 6000, 4000, 600, 0);
    let accounts = withdraw_accounts(MEMBER_2, true, state, token_account_data(400));
    let effects = Processor::process_withdraw(&accounts, 400, &PROGRAM.to_vec()).unwrap();
    let rec = RevenueSharing::unpack(&effects.new_state).unwrap();
    assert_eq!(rec.member_2_withdraw, 400);
}

#[test]
fn withdraw_floors_the_entitlement() {
    // 1 basis point of 9999 is 0.9999: floored to 0
    let state = state_data(&MEMBER_1, &MEMBER_2, 1, 9999, 0, 0);
    let accounts = withdraw_accounts(MEMBER_1, true, state, token_account_data(9999));
    let err = Processor::process_withdraw(&accounts, 1, &PROGRAM.to_vec()).unwrap_err();
    assert_eq!(err, RevenueSharingError::WithdrawLimitExceeded);
}

#[test]
fn withdraw_rejects_a_non_member() {
    let state = state_data(&MEMBER_1, &MEMBER_2, 6000, 4000, 0, 0);
    let accounts = withdraw_accounts(OUTSIDER, true, state, token_account_data(1000));
    let err = Processor::process_withdraw(&accounts, 1, &PROGRAM.to_vec()).unwrap_err();
    assert_eq!(err, RevenueSharingError::InvalidAccountData);
}

#[test]
fn withdraw_demands_a_signer() {
    let state = state_data(&MEMBER_1, &MEMBER_2, 6000, 4000, 0, 0);
    let accounts = withdraw_accounts(MEMBER_1, false, state, token_account_data(1000));
    let err = Processor::process_withdraw(&accounts, 1, &PROGRAM.to_vec()).unwrap_err();
    assert_eq!(err, RevenueSharingError::MissingRequiredSignature);
}

#[test]
fn withdraw_demands_an_initialized_record() {
    let accounts = withdraw_accounts(MEMBER_1, true, vec![0u8; 85], token_account_data(1000));
    let err = Processor::process_withdraw(&accounts, 1, &PROGRAM.to_vec()).unwrap_err();
    assert_eq!(err, RevenueSharingError::UninitializedAccount);
}

#[test]
fn withdraw_demands_a_valid_shared_account() {
    let state = state_data(&MEMBER_1, &MEMBER_2, 6000, 4000, 0, 0);
    let accounts = withdraw_accounts(MEMBER_1, true, state, vec![0u8; 10]);
    let err = Processor::process_withdraw(&accounts, 1, &PROGRAM.to_vec()).unwrap_err();
    assert_eq!(err, RevenueSharingError::InvalidAccountData);
}

#[test]
fn withdraw_demands_enough_accounts() {
    let state = state_data(&MEMBER_1, &MEMBER_2, 6000, 4000, 0, 0);
    let mut accounts = withdraw_accounts(MEMBER_1, true, state, token_account_data(1000));
    accounts.truncate(4);
    let err = Processor::process_withdraw(&accounts, 1, &PROGRAM.to_vec()).unwrap_err();
    assert_eq!(err, RevenueSharingError::NotEnoughAccountKeys);
}

#[test]
fn withdraw_counters_accumulate_over_a_history() {
    // member 1 takes 300 twice, member 2 takes 400, out of a 1000 pool
    let state = state_data(&MEMBER_1, &MEMBER_2, 6000, 4000, 0, 0);
    let accounts = withdraw_accounts(MEMBER_1, true, state, token_account_data(1000));
    let first = Processor::process_withdraw(&accounts, 300, &PROGRAM.to_vec()).unwrap();

    let accounts = withdraw_accounts(MEMBER_1, true, first.new_state, token_account_data(700));
    let second = Processor::process_withdraw(&accounts, 300, &PROGRAM.to_vec()).unwrap();

    let accounts = withdraw_accounts(MEMBER_2, true, second.new_state, token_account_data(400));
    let third = Processor::process_withdraw(&accounts, 400, &PROGRAM.to_vec()).unwrap();

    let rec = RevenueSharing::unpack(&third.new_state).unwrap();
    assert_eq!(rec.member_1_withdraw, 600);
    assert_eq!(rec.member_2_withdraw, 400);

    // the pool is spent: nobody may take anything more
    let accounts = withdraw_accounts(MEMBER_1, true, third.new_state.clone(), token_account_data(0));
    let err = Processor::process_withdraw(&accounts, 1, &PROGRAM.to_vec()).unwrap_err();
    assert_eq!(err, RevenueSharingError::WithdrawLimitExceeded);
    let accounts = withdraw_accounts(MEMBER_2, true, third.new_state, token_account_data(0));
    let err = Processor::process_withdraw(&accounts, 1, &PROGRAM.to_vec()).unwrap_err();
    assert_eq!(err, RevenueSharingError::WithdrawLimitExceeded);
}

#[test]
fn withdraw_updates_both_counters_when_one_identity_holds_both_slots() {
    // a degenerate record listing the same identity twice: the caller
    // matches both slots, so both counters move, as they always have
    let state = state_data(&MEMBER_1, &MEMBER_1, 5000, 5000, 0, 0);
    let accounts = withdraw_accounts(MEMBER_1, true, state, token_account_data(1000));
    let effects = Processor::process_withdraw(&accounts, 500, &PROGRAM.to_vec()).unwrap();
    let rec = RevenueSharing::unpack(&effects.new_state).unwrap();
    assert_eq!(rec.member_1_withdraw, 500);
    assert_eq!(rec.member_2_withdraw, 500);
}

#[test]
fn process_dispatches_initialize() {
    let accounts = init_accounts(true, ledger_id(), vec![0u8; 85]);
    let mut data = vec![0u8];
    data.extend_from_slice(&6000u16.to_le_bytes());
    data.extend_from_slice(&4000u16.to_le_bytes());
    let effects = Processor::process(&PROGRAM.to_vec(), &accounts, true, &data).unwrap();
    match effects {
        ProcessEffects::Init(init) => {
            let rec = RevenueSharing::unpack(&init.new_state).unwrap();
            assert_eq!(rec.member_1_shares, 6000);
        }
        ProcessEffects::Withdraw(_) => panic!("initialize dispatched to the withdraw handler"),
    }
}

#[test]
fn process_dispatches_withdraw() {
    let state = state_data(&MEMBER_1, &MEMBER_2, 6000, 4000, 0, 0);
    let accounts = withdraw_accounts(MEMBER_1, true, state, token_account_data(1000));
    let mut data = vec![1u8];
    data.extend_from_slice(&500u64.to_le_bytes());
    let effects = Processor::process(&PROGRAM.to_vec(), &accounts, false, &data).unwrap();
    match effects {
        ProcessEffects::Withdraw(w) => assert_eq!(w.amount, 500),
        ProcessEffects::Init(_) => panic!("withdraw dispatched to the initialize handler"),
    }
}

#[test]
fn process_rejects_garbage_instructions() {
    let accounts = init_accounts(true, ledger_id(), vec![0u8; 85]);
    let err = Processor::process(&PROGRAM.to_vec(), &accounts, true, &[7u8]).unwrap_err();
    assert_eq!(err, RevenueSharingError::InvalidInstruction);
    let err = Processor::process(&PROGRAM.to_vec(), &accounts, true, &[]).unwrap_err();
    assert_eq!(err, RevenueSharingError::InvalidInstruction);
}
