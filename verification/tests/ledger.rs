use rwa_engine::key::Key;
use rwa_engine::ledger::{LedgerError, Mint, TokenAccount, TokenLedger};
use rwa_engine::table::Table;

fn k(n: u8) -> Key {
    Key::filled(n)
}

/// A ledger with the mint 1 (authority 9) and the accounts 10 (owner 20) and
/// 11 (owner 21) of it.
fn two_accounts() -> TokenLedger {
    let mut l = TokenLedger::new();
    assert_eq!(l.create_mint(k(1), k(9), 6), Ok(()));
    assert_eq!(l.create_account(k(10), k(1), k(20)), Ok(()));
    assert_eq!(l.create_account(k(11), k(1), k(21)), Ok(()));
    l
}

#[test]
fn key_equality_is_by_bytes() {
    let mut bytes = [0u8; 32];
    bytes[31] = 1;
    assert_eq!(Key::new(bytes), Key::new(bytes));
    assert_ne!(Key::new(bytes), Key::new([0u8; 32]));
    assert_eq!(Key::filled(3), Key::new([3u8; 32]));
    assert_eq!(Key::new(bytes).to_vec().len(), 32);
    assert_eq!(Key::new(bytes).to_vec()[31], 1);
    bytes[0] = 200;
    assert_eq!(Key::new(bytes).first_byte(), 200);
}

#[test]
fn table_put_get_replace() {
    let mut t: Table<u64> = Table::new();
    assert_eq!(t.len(), 0);
    assert_eq!(t.get(&k(1)), None);
    t.put(k(1), 5);
    t.put(k(2), 6);
    assert_eq!(t.len(), 2);
    assert_eq!(t.get(&k(1)), Some(5));
    assert_eq!(t.get(&k(2)), Some(6));
    t.put(k(1), 7);
    assert_eq!(t.len(), 2);
    assert_eq!(t.get(&k(1)), Some(7));
    assert!(t.contains(&k(2)));
    assert!(!t.contains(&k(3)));
    let copy = t.snapshot();
    t.put(k(3), 8);
    assert_eq!(copy.len(), 2);
    assert_eq!(copy.get(&k(3)), None);
    assert_eq!(t.get(&k(3)), Some(8));
}

#[test]
fn new_ledger_is_empty() {
    let l = TokenLedger::new();
    assert_eq!(l.mint(&k(1)), None);
    assert_eq!(l.account(&k(1)), None);
    assert_eq!(l.balance(&k(1)), 0);
}

#[test]
fn create_mint_and_account() {
    let l = two_accounts();
    assert_eq!(l.mint(&k(1)), Some(Mint { authority: k(9), decimals: 6 }));
    assert_eq!(l.account(&k(10)), Some(TokenAccount { mint: k(1), owner: k(20), amount: 0 }));
    assert!(l.is_account_of(&k(10), &k(1), &k(20)));
    assert!(!l.is_account_of(&k(10), &k(1), &k(21)));
    assert!(!l.is_account_of(&k(10), &k(2), &k(20)));
    assert!(!l.is_account_of(&k(12), &k(1), &k(20)));
}

#[test]
fn create_refuses_a_key_in_use() {
    let mut l = two_accounts();
    assert_eq!(l.create_mint(k(1), k(8), 0), Err(LedgerError::AccountInUse));
    assert_eq!(l.create_mint(k(10), k(8), 0), Err(LedgerError::AccountInUse));
    assert_eq!(l.create_account(k(10), k(1), k(22)), Err(LedgerError::AccountInUse));
    assert_eq!(l.create_account(k(1), k(1), k(22)), Err(LedgerError::AccountInUse));
    assert_eq!(l.mint(&k(1)), Some(Mint { authority: k(9), decimals: 6 }));
    assert_eq!(l.account(&k(10)), Some(TokenAccount { mint: k(1), owner: k(20), amount: 0 }));
}

#[test]
fn create_account_needs_a_mint() {
    let mut l = two_accounts();
    assert_eq!(l.create_account(k(12), k(2), k(20)), Err(LedgerError::UnknownMint));
    assert_eq!(l.account(&k(12)), None);
}

#[test]
fn mint_to_credits_the_account() {
    let mut l = two_accounts();
    assert_eq!(l.mint_to(&k(1), &k(10), 500, &k(9)), Ok(()));
    assert_eq!(l.balance(&k(10)), 500);
    assert_eq!(l.balance(&k(11)), 0);
    assert_eq!(l.mint_to(&k(1), &k(10), 1, &k(9)), Ok(()));
    assert_eq!(l.balance(&k(10)), 501);
}

#[test]
fn mint_to_failures() {
    let mut l = two_accounts();
    assert_eq!(l.create_mint(k(2), k(9), 0), Ok(()));
    assert_eq!(l.mint_to(&k(3), &k(10), 1, &k(9)), Err(LedgerError::UnknownMint));
    assert_eq!(l.mint_to(&k(1), &k(12), 1, &k(9)), Err(LedgerError::UnknownAccount));
    assert_eq!(l.mint_to(&k(2), &k(10), 1, &k(9)), Err(LedgerError::MintMismatch));
    assert_eq!(l.mint_to(&k(1), &k(10), 1, &k(20)), Err(LedgerError::AuthorityMismatch));
    assert_eq!(l.mint_to(&k(1), &k(10), u64::MAX, &k(9)), Ok(()));
    assert_eq!(l.mint_to(&k(1), &k(10), 1, &k(9)), Err(LedgerError::Overflow));
    assert_eq!(l.balance(&k(10)), u64::MAX);
}

#[test]
fn transfer_moves_the_amount() {
    let mut l = two_accounts();
    assert_eq!(l.mint_to(&k(1), &k(10), 500, &k(9)), Ok(()));
    assert_eq!(l.transfer(&k(1), &k(10), &k(11), 200, &k(20)), Ok(()));
    assert_eq!(l.balance(&k(10)), 300);
    assert_eq!(l.balance(&k(11)), 200);
    assert_eq!(l.transfer(&k(1), &k(10), &k(11), 0, &k(20)), Ok(()));
    assert_eq!(l.balance(&k(10)), 300);
    assert_eq!(l.transfer(&k(1), &k(10), &k(11), 300, &k(20)), Ok(()));
    assert_eq!(l.balance(&k(10)), 0);
    assert_eq!(l.balance(&k(11)), 500);
}

#[test]
fn transfer_to_itself_changes_nothing() {
    let mut l = two_accounts();
    assert_eq!(l.mint_to(&k(1), &k(10), u64::MAX, &k(9)), Ok(()));
    assert_eq!(l.transfer(&k(1), &k(10), &k(10), 7, &k(20)), Ok(()));
    assert_eq!(l.balance(&k(10)), u64::MAX);
}

#[test]
fn transfer_failures() {
    let mut l = two_accounts();
    assert_eq!(l.create_mint(k(2), k(9), 0), Ok(()));
    assert_eq!(l.create_account(k(12), k(2), k(20)), Ok(()));
    assert_eq!(l.mint_to(&k(1), &k(10), 500, &k(9)), Ok(()));
    assert_eq!(l.mint_to(&k(1), &k(11), u64::MAX, &k(9)), Ok(()));
    assert_eq!(l.transfer(&k(1), &k(13), &k(11), 1, &k(20)), Err(LedgerError::UnknownAccount));
    assert_eq!(l.transfer(&k(1), &k(10), &k(13), 1, &k(20)), Err(LedgerError::UnknownAccount));
    assert_eq!(l.transfer(&k(1), &k(10), &k(12), 1, &k(20)), Err(LedgerError::MintMismatch));
    assert_eq!(l.transfer(&k(1), &k(12), &k(10), 0, &k(20)), Err(LedgerError::MintMismatch));
    assert_eq!(l.transfer(&k(2), &k(10), &k(11), 1, &k(20)), Err(LedgerError::MintMismatch));
    assert_eq!(l.transfer(&k(1), &k(10), &k(11), 1, &k(21)), Err(LedgerError::OwnerMismatch));
    assert_eq!(l.transfer(&k(1), &k(10), &k(11), 501, &k(20)), Err(LedgerError::InsufficientFunds));
    assert_eq!(l.transfer(&k(1), &k(10), &k(11), 1, &k(20)), Err(LedgerError::Overflow));
    assert_eq!(l.balance(&k(10)), 500);
    assert_eq!(l.balance(&k(11)), u64::MAX);
}

#[test]
fn burn_debits_the_account() {
    let mut l = two_accounts();
    assert_eq!(l.mint_to(&k(1), &k(10), 500, &k(9)), Ok(()));
    assert_eq!(l.burn(&k(1), &k(10), 120, &k(20)), Ok(()));
    assert_eq!(l.balance(&k(10)), 380);
    assert_eq!(l.burn(&k(1), &k(10), 380, &k(20)), Ok(()));
    assert_eq!(l.balance(&k(10)), 0);
}

#[test]
fn burn_failures() {
    let mut l = two_accounts();
    assert_eq!(l.create_mint(k(2), k(9), 0), Ok(()));
    assert_eq!(l.mint_to(&k(1), &k(10), 500, &k(9)), Ok(()));
    assert_eq!(l.burn(&k(3), &k(10), 1, &k(20)), Err(LedgerError::UnknownMint));
    assert_eq!(l.burn(&k(1), &k(12), 1, &k(20)), Err(LedgerError::UnknownAccount));
    assert_eq!(l.burn(&k(2), &k(10), 1, &k(20)), Err(LedgerError::MintMismatch));
    assert_eq!(l.burn(&k(1), &k(10), 1, &k(21)), Err(LedgerError::OwnerMismatch));
    assert_eq!(l.burn(&k(1), &k(10), 501, &k(20)), Err(LedgerError::InsufficientFunds));
    assert_eq!(l.balance(&k(10)), 500);
}

#[test]
fn snapshot_is_independent() {
    let mut l = two_accounts();
    assert_eq!(l.mint_to(&k(1), &k(10), 500, &k(9)), Ok(()));
    let copy = l.snapshot();
    assert_eq!(l.transfer(&k(1), &k(10), &k(11), 200, &k(20)), Ok(()));
    assert_eq!(copy.balance(&k(10)), 500);
    assert_eq!(copy.balance(&k(11)), 0);
    assert_eq!(copy.mint(&k(1)), Some(Mint { authority: k(9), decimals: 6 }));
}
