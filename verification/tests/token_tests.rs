//! Tests of the token account and mint validators, with payloads packed by
//! the real token ledger crate.

use anker::account::AccountSnapshot;
use anker::address::Address;
use anker::error::ValidationError;
use anker::state::Anker;
use anker::token::{check_token_account, TOKEN_ACCOUNT_LEN};

use solana_program::program_option::COption;
use solana_program::program_pack::Pack;
use solana_program::pubkey::Pubkey;
use spl_token::state::{Account as TokenAccount, AccountState};

fn addr(fill: u8) -> Address {
    Address::new([fill; 32])
}

fn token_program_address() -> Address {
    Address::new(spl_token::id().to_bytes())
}

/// A well-formed token account payload holding `amount` of `mint`.
fn packed_token_account(mint: &Address, amount: u64) -> Vec<u8> {
    let account = TokenAccount {
        mint: Pubkey::new_from_array(mint.bytes),
        owner: Pubkey::new_from_array([9u8; 32]),
        amount,
        delegate: COption::None,
        state: AccountState::Initialized,
        is_native: COption::None,
        delegated_amount: 0,
        close_authority: COption::None,
    };
    let mut data = vec![0u8; TOKEN_ACCOUNT_LEN];
    TokenAccount::pack(account, &mut data).unwrap();
    data
}

#[test]
fn test_token_account_len_matches_ledger() {
    assert_eq!(TOKEN_ACCOUNT_LEN, TokenAccount::LEN);
}

#[test]
fn test_token_account_layout_offsets() {
    let mint = addr(5);
    let amount: u64 = 0x0102030405060708;
    let data = packed_token_account(&mint, amount);
    assert_eq!(&data[0..32], &mint.bytes);
    assert_eq!(&data[64..72], &amount.to_le_bytes());
}

#[test]
fn test_check_token_account_accepts_valid_account() {
    let mint = addr(5);
    let snapshot = AccountSnapshot {
        address: addr(1),
        owner: token_program_address(),
        data: packed_token_account(&mint, 100),
    };
    assert!(check_token_account(&token_program_address(), &mint, &snapshot).is_ok());
}

#[test]
fn test_check_token_account_rejects_foreign_owner() {
    let mint = addr(5);
    let snapshot = AccountSnapshot {
        address: addr(1),
        owner: addr(66),
        data: packed_token_account(&mint, 100),
    };
    assert!(matches!(
        check_token_account(&token_program_address(), &mint, &snapshot),
        Err(ValidationError::InvalidAccountOwner)
    ));
}

#[test]
fn test_check_token_account_rejects_truncated_payload() {
    let mint = addr(5);
    let mut data = packed_token_account(&mint, 100);
    data.truncate(40);
    let snapshot =
        AccountSnapshot { address: addr(1), owner: token_program_address(), data };
    assert!(matches!(
        check_token_account(&token_program_address(), &mint, &snapshot),
        Err(ValidationError::InvalidAccountFormat)
    ));
}

#[test]
fn test_check_token_account_rejects_garbage_payload() {
    let mint = addr(5);
    let mut data = packed_token_account(&mint, 100);
    // A state byte outside the account-state range breaks the parse.
    data[108] = 9;
    let snapshot =
        AccountSnapshot { address: addr(1), owner: token_program_address(), data };
    assert!(matches!(
        check_token_account(&token_program_address(), &mint, &snapshot),
        Err(ValidationError::InvalidAccountFormat)
    ));
}

#[test]
fn test_check_token_account_rejects_mismatched_mint() {
    let mint = addr(5);
    let snapshot = AccountSnapshot {
        address: addr(1),
        owner: token_program_address(),
        data: packed_token_account(&mint, 100),
    };
    // A single differing byte in the expected mint must be caught.
    let mut other_mint = mint;
    other_mint.bytes[31] ^= 0x01;
    assert!(matches!(
        check_token_account(&token_program_address(), &other_mint, &snapshot),
        Err(ValidationError::InvalidMint)
    ));
}

#[test]
fn test_check_is_b_sol_account() {
    let mut record = Anker::default();
    record.b_sol_mint = addr(7);
    let good = AccountSnapshot {
        address: addr(1),
        owner: token_program_address(),
        data: packed_token_account(&record.b_sol_mint, 3),
    };
    assert!(record.check_is_b_sol_account(&good).is_ok());
    let wrong_mint = AccountSnapshot {
        address: addr(1),
        owner: token_program_address(),
        data: packed_token_account(&addr(8), 3),
    };
    assert!(matches!(
        record.check_is_b_sol_account(&wrong_mint),
        Err(ValidationError::InvalidMint)
    ));
}

#[test]
fn test_check_is_st_sol_account() {
    let record = Anker::default();
    let st_sol_mint = addr(12);
    let good = AccountSnapshot {
        address: addr(1),
        owner: token_program_address(),
        data: packed_token_account(&st_sol_mint, 3),
    };
    assert!(record.check_is_st_sol_account(&st_sol_mint, &good).is_ok());
    assert!(matches!(
        record.check_is_st_sol_account(&addr(13), &good),
        Err(ValidationError::InvalidMint)
    ));
}

#[test]
fn test_check_mint() {
    let mut record = Anker::default();
    record.b_sol_mint = addr(21);
    let good = AccountSnapshot {
        address: record.b_sol_mint,
        owner: token_program_address(),
        data: vec![],
    };
    assert!(record.check_mint(&good).is_ok());
    let foreign_owner = AccountSnapshot {
        address: record.b_sol_mint,
        owner: addr(99),
        data: vec![],
    };
    assert!(matches!(
        record.check_mint(&foreign_owner),
        Err(ValidationError::InvalidAccountOwner)
    ));
    let wrong_address = AccountSnapshot {
        address: addr(22),
        owner: token_program_address(),
        data: vec![],
    };
    assert!(matches!(
        record.check_mint(&wrong_address),
        Err(ValidationError::InvalidMint)
    ));
}
