use zec_dark_perps::error::ErrorCode;
use zec_dark_perps::margin::{deposit_collateral, initialize_margin_account, withdraw_collateral};
use zec_dark_perps::custody::CustodyAction;
use zec_dark_perps::lifecycle::Registry;
use zec_dark_perps::state::Ledger;

fn key(b: u8) -> [u8; 32] {
    [b; 32]
}

#[test]
fn new_account_holds_encrypted_zeros() {
    let mut l = Ledger::new();
    assert_eq!(initialize_margin_account(&mut l, key(1), 7), Ok(()));
    let a = l.read(&key(1)).unwrap();
    assert_eq!(a.owner, key(1));
    assert_eq!(a.encrypted_collateral, [0u8; 32]);
    assert_eq!(a.encrypted_debt, [0u8; 32]);
    assert_eq!(a.nonce, 0);
    assert!(!a.is_liquidatable);
    assert_eq!(a.bump, 7);
    assert!(l.read(&key(2)).is_none());
}

#[test]
fn second_account_for_same_owner_already_exists() {
    let mut l = Ledger::new();
    initialize_margin_account(&mut l, key(1), 7).unwrap();
    assert_eq!(initialize_margin_account(&mut l, key(1), 8), Err(ErrorCode::AlreadyExists));
    assert_eq!(l.read(&key(1)).unwrap().bump, 7);
    assert_eq!(l.accounts.len(), 1);
}

#[test]
fn balance_update_moves_nonce_with_ciphertexts() {
    let mut l = Ledger::new();
    l.create(key(1), 0).unwrap();
    assert_eq!(l.apply_balance_update(&key(1), Some(key(40)), None, 9), Ok(()));
    let a = l.read(&key(1)).unwrap();
    assert_eq!((a.encrypted_collateral, a.encrypted_debt, a.nonce), (key(40), [0u8; 32], 9));
    // Debt is written with the nonce it was produced under.
    assert_eq!(l.apply_balance_update(&key(1), Some(key(41)), Some(key(42)), 10), Ok(()));
    let a = l.read(&key(1)).unwrap();
    assert_eq!((a.encrypted_collateral, a.encrypted_debt, a.nonce), (key(41), key(42), 10));
}

#[test]
fn balance_update_refuses_stale_ciphertext() {
    let mut l = Ledger::new();
    l.create(key(1), 0).unwrap();
    l.apply_balance_update(&key(1), Some(key(41)), Some(key(42)), 10).unwrap();
    // A new nonce for the collateral alone would leave the debt under nonce 10.
    assert_eq!(l.apply_balance_update(&key(1), Some(key(43)), None, 11), Err(ErrorCode::InvalidArguments));
    let a = l.read(&key(1)).unwrap();
    assert_eq!((a.encrypted_collateral, a.encrypted_debt, a.nonce), (key(41), key(42), 10));
    // The same nonce is fine.
    assert_eq!(l.apply_balance_update(&key(1), Some(key(43)), None, 10), Ok(()));
    assert_eq!(l.apply_balance_update(&key(2), Some(key(43)), None, 10), Err(ErrorCode::AccountNotFound));
}

#[test]
fn pair_update_is_all_or_nothing() {
    let mut l = Ledger::new();
    l.create(key(1), 0).unwrap();
    l.create(key(2), 0).unwrap();
    l.apply_balance_update(&key(2), Some(key(50)), Some(key(51)), 3).unwrap();
    // The seller's debt would go stale: neither account changes.
    assert_eq!(l.apply_pair_update(&key(1), &key(2), key(60), key(61), 4), Err(ErrorCode::InvalidArguments));
    assert_eq!(l.read(&key(1)).unwrap().encrypted_collateral, [0u8; 32]);
    assert_eq!(l.read(&key(2)).unwrap().encrypted_collateral, key(50));
    assert_eq!(l.apply_pair_update(&key(1), &key(1), key(60), key(61), 4), Err(ErrorCode::InvalidArguments));
    assert_eq!(l.apply_pair_update(&key(1), &key(9), key(60), key(61), 4), Err(ErrorCode::AccountNotFound));
    assert_eq!(l.apply_pair_update(&key(1), &key(2), key(60), key(61), 3), Ok(()));
    assert_eq!(l.read(&key(1)).unwrap().encrypted_collateral, key(60));
    assert_eq!(l.read(&key(2)).unwrap().encrypted_collateral, key(61));
}

#[test]
fn reset_zeroes_account() {
    let mut l = Ledger::new();
    l.create(key(1), 3).unwrap();
    l.apply_balance_update(&key(1), Some(key(41)), Some(key(42)), 10).unwrap();
    l.set_liquidatable(&key(1), true).unwrap();
    assert!(l.read(&key(1)).unwrap().is_liquidatable);
    assert_eq!(l.reset(&key(1)), Ok(()));
    let a = l.read(&key(1)).unwrap();
    assert_eq!((a.encrypted_collateral, a.encrypted_debt, a.nonce, a.is_liquidatable, a.bump), ([0u8; 32], [0u8; 32], 0, false, 3));
    assert_eq!(l.reset(&key(2)), Err(ErrorCode::AccountNotFound));
    assert_eq!(l.set_liquidatable(&key(2), true), Err(ErrorCode::AccountNotFound));
}

#[test]
fn collateral_moves_into_and_out_of_escrow() {
    let mut l = Ledger::new();
    let reg = Registry::new(key(200));
    l.create(key(1), 0).unwrap();
    assert_eq!(deposit_collateral(&l, &key(1), 0), Err(ErrorCode::InvalidAmount));
    assert_eq!(deposit_collateral(&l, &key(2), 5), Err(ErrorCode::AccountNotFound));
    assert_eq!(deposit_collateral(&l, &key(1), 5), Ok(CustodyAction::DepositToVault { owner: key(1), amount: 5 }));
    assert_eq!(withdraw_collateral(&l, &reg, &key(1), 0, 10), Err(ErrorCode::InvalidAmount));
    assert_eq!(withdraw_collateral(&l, &reg, &key(1), 11, 10), Err(ErrorCode::InsufficientCollateral));
    assert_eq!(withdraw_collateral(&l, &reg, &key(1), 10, 10), Ok(CustodyAction::WithdrawFromVault { owner: key(1), amount: 10 }));
    l.set_liquidatable(&key(1), true).unwrap();
    assert_eq!(withdraw_collateral(&l, &reg, &key(1), 1, 10), Err(ErrorCode::InsufficientCollateral));
}
