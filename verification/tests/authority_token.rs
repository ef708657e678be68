use revenue_sharing::authority::derive_authority;
use revenue_sharing::error::RevenueSharingError;
use revenue_sharing::token::{token_account_amount, token_program_id};

use solana_program::program_option::COption;
use solana_program::program_pack::Pack;
use solana_program::pubkey::Pubkey;
use spl_token::state::{Account, AccountState};

#[test]
fn derive_authority_matches_the_host_derivation() {
    let program_key = Pubkey::new_unique();
    let program_id: Vec<u8> = program_key.to_bytes().to_vec();
    let (pda, bump) = derive_authority(&program_id).unwrap();
    let (expected, expected_bump) =
        Pubkey::find_program_address(&[b"revenue_sharing"], &program_key);
    assert_eq!(pda, expected.to_bytes().to_vec());
    assert_eq!(bump, expected_bump);
    assert_eq!(pda.len(), 32);
    assert_ne!(pda, program_id);
}

#[test]
fn token_program_id_matches_the_ledger_constant() {
    assert_eq!(token_program_id(), spl_token::id().to_bytes().to_vec());
}

fn packed_token_account(amount: u64) -> Vec<u8> {
    let account = Account {
        mint: Pubkey::new_unique(),
        owner: Pubkey::new_unique(),
        amount,
        delegate: COption::None,
        state: AccountState::Initialized,
        is_native: COption::None,
        delegated_amount: 0,
        close_authority: COption::None,
    };
    let mut data = vec![0u8; Account::LEN];
    Account::pack(account, &mut data).unwrap();
    data
}

#[test]
fn token_account_amount_reads_the_balance() {
    let data = packed_token_account(1_000_000_007);
    assert_eq!(token_account_amount(&data).unwrap(), 1_000_000_007);
}

#[test]
fn token_account_amount_rejects_wrong_length() {
    let data = vec![0u8; 164];
    assert_eq!(
        token_account_amount(&data).unwrap_err(),
        RevenueSharingError::InvalidAccountData
    );
}

#[test]
fn token_account_amount_rejects_uninitialized_account() {
    let data = vec![0u8; 165];
    assert_eq!(
        token_account_amount(&data).unwrap_err(),
        RevenueSharingError::UninitializedAccount
    );
}

#[test]
fn token_account_amount_rejects_bad_option_tag() {
    let mut data = packed_token_account(5);
    data[73] = 7; // corrupt the delegate option tag
    assert_eq!(
        token_account_amount(&data).unwrap_err(),
        RevenueSharingError::InvalidAccountData
    );
}
