use zec_dark_perps::custody::CustodyAction;
use zec_dark_perps::envelope::{Argument, ComputationOutputs, EncryptedOutput};
use zec_dark_perps::error::ErrorCode;
use zec_dark_perps::lifecycle::{CallbackEffect, ComputationKind, Registry};
use zec_dark_perps::liquidation::liquidate;
use zec_dark_perps::requests::{
    deposit_collateral_callback, health_check_callback, init_deposit_comp_def, init_health_check_comp_def,
    init_settle_comp_def, init_submit_order_comp_def, init_withdraw_comp_def, queue_deposit, queue_health_check,
    queue_settle_trade, queue_withdraw, settle_trade_callback, submit_order, submit_order_callback,
    withdraw_collateral_callback,
};
use zec_dark_perps::state::Ledger;
use zec_dark_perps::trading::settle_trade;

const CLUSTER: [u8; 32] = [200u8; 32];

fn key(b: u8) -> [u8; 32] {
    [b; 32]
}

fn offset(name: &str) -> u32 {
    arcium_anchor::comp_def_offset(name)
}

fn setup() -> (Ledger, Registry) {
    let mut reg = Registry::new(CLUSTER);
    init_deposit_comp_def(&mut reg).unwrap();
    init_withdraw_comp_def(&mut reg).unwrap();
    init_settle_comp_def(&mut reg).unwrap();
    init_health_check_comp_def(&mut reg).unwrap();
    init_submit_order_comp_def(&mut reg).unwrap();
    let mut l = Ledger::new();
    l.create(key(1), 0).unwrap();
    l.create(key(2), 0).unwrap();
    (l, reg)
}

fn success(cts: Vec<[u8; 32]>, nonce: u128) -> ComputationOutputs {
    ComputationOutputs::Success(EncryptedOutput { ciphertexts: cts, nonce })
}

fn flag(b: u8) -> [u8; 32] {
    let mut c = [0u8; 32];
    c[0] = b;
    c
}

#[test]
fn definition_offsets_come_from_circuit_names() {
    let mut reg = Registry::new(CLUSTER);
    let d = init_deposit_comp_def(&mut reg).unwrap();
    assert_eq!(d, offset("deposit_collateral"));
    assert_eq!(init_withdraw_comp_def(&mut reg).unwrap(), offset("withdraw_collateral"));
    assert_eq!(init_settle_comp_def(&mut reg).unwrap(), offset("settle_trade"));
    assert_eq!(init_health_check_comp_def(&mut reg).unwrap(), offset("check_health"));
    assert_eq!(init_submit_order_comp_def(&mut reg).unwrap(), offset("submit_order"));
    assert_ne!(d, offset("withdraw_collateral"));
    assert_eq!(init_deposit_comp_def(&mut reg), Err(ErrorCode::AlreadyExists));
    assert_eq!(reg.definitions.len(), 5);
}

#[test]
fn queue_needs_registered_definition() {
    let mut reg = Registry::new(CLUSTER);
    let mut l = Ledger::new();
    l.create(key(1), 0).unwrap();
    assert_eq!(queue_deposit(&l, &mut reg, 1, &key(1), 10, 0), Err(ErrorCode::ClusterNotSet));
    assert!(reg.pending.is_empty());
}

#[test]
fn deposit_request_carries_current_nonce_and_ciphertext() {
    let (mut l, mut reg) = setup();
    l.apply_balance_update(&key(1), Some(key(30)), None, 44).unwrap();
    let args = queue_deposit(&l, &mut reg, 1, &key(1), 10, 5).unwrap();
    assert_eq!(
        args,
        vec![Argument::PlaintextU128(44), Argument::EncryptedU64(key(30)), Argument::PlaintextU64(10)]
    );
    assert_eq!(reg.pending.len(), 1);
    assert_eq!(reg.pending[0].id, 1);
    assert_eq!(reg.pending[0].kind, ComputationKind::Deposit);
    assert_eq!(reg.pending[0].issued_at, 5);
    assert_eq!(queue_deposit(&l, &mut reg, 2, &key(9), 10, 5), Err(ErrorCode::AccountNotFound));
}

#[test]
fn duplicate_request_id_is_refused() {
    let (l, mut reg) = setup();
    queue_deposit(&l, &mut reg, 1, &key(1), 10, 0).unwrap();
    assert_eq!(queue_deposit(&l, &mut reg, 1, &key(2), 10, 0), Err(ErrorCode::DuplicateRequest));
    assert_eq!(reg.pending.len(), 1);
}

#[test]
fn second_request_on_busy_account_is_refused() {
    let (l, mut reg) = setup();
    queue_deposit(&l, &mut reg, 1, &key(1), 10, 0).unwrap();
    assert_eq!(queue_withdraw(&l, &mut reg, 2, &key(1), 5, 0), Err(ErrorCode::AccountBusy));
    assert_eq!(queue_settle_trade(&l, &mut reg, 3, &key(2), &key(1), 5, 0), Err(ErrorCode::AccountBusy));
    // Orders read no balance and may run alongside.
    assert!(submit_order(&mut reg, 4, &key(1), key(5), key(6), key(7), key(8), 3, 0).is_ok());
    assert!(queue_withdraw(&l, &mut reg, 5, &key(2), 5, 0).is_ok());
}

#[test]
fn argument_shape_must_match_kind() {
    let (_, mut reg) = setup();
    let args = vec![Argument::PlaintextU128(0), Argument::PlaintextU64(10)];
    assert_eq!(reg.queue(1, ComputationKind::Deposit, &args, key(1), None, 0), Err(ErrorCode::InvalidArguments));
    let swapped = vec![Argument::EncryptedU64(key(3)), Argument::PlaintextU128(0), Argument::PlaintextU64(10)];
    assert_eq!(reg.queue(1, ComputationKind::Deposit, &swapped, key(1), None, 0), Err(ErrorCode::InvalidArguments));
    let right = vec![Argument::PlaintextU128(0), Argument::EncryptedU64(key(3)), Argument::PlaintextU64(10)];
    assert_eq!(reg.queue(1, ComputationKind::Deposit, &right, key(1), Some(key(2)), 0), Err(ErrorCode::InvalidArguments));
    assert_eq!(reg.queue(1, ComputationKind::Deposit, &right, key(1), None, 0), Ok(()));
}

#[test]
fn deposit_callback_applies_new_ciphertext_under_new_nonce() {
    let (mut l, mut reg) = setup();
    queue_deposit(&l, &mut reg, 1, &key(1), 10, 0).unwrap();
    let out = success(vec![key(31), flag(1)], 77);
    let effect = deposit_collateral_callback(&mut reg, &mut l, &CLUSTER, offset("deposit_collateral"), 1, &out, 9).unwrap();
    match effect {
        CallbackEffect::Deposited(e) => {
            assert_eq!((e.owner, e.nonce, e.new_balance, e.success, e.timestamp), (key(1), 77, key(31), 1, 9));
        }
        _ => panic!("wrong effect"),
    }
    let a = l.read(&key(1)).unwrap();
    assert_eq!((a.encrypted_collateral, a.nonce), (key(31), 77));
    assert!(reg.pending.is_empty());
}

#[test]
fn overflowing_deposit_result_is_still_applied() {
    // The cluster reports failure and re-encrypts the unchanged balance under a fresh nonce.
    let (mut l, mut reg) = setup();
    l.apply_balance_update(&key(1), Some(key(30)), None, 5).unwrap();
    queue_deposit(&l, &mut reg, 1, &key(1), u64::MAX, 0).unwrap();
    let out = success(vec![key(32), flag(0)], 6);
    let effect = deposit_collateral_callback(&mut reg, &mut l, &CLUSTER, offset("deposit_collateral"), 1, &out, 0).unwrap();
    assert!(matches!(effect, CallbackEffect::Deposited(e) if e.success == 0));
    let a = l.read(&key(1)).unwrap();
    assert_eq!((a.encrypted_collateral, a.nonce), (key(32), 6));
}

#[test]
fn second_callback_for_same_request_is_rejected() {
    let (mut l, mut reg) = setup();
    queue_withdraw(&l, &mut reg, 1, &key(1), 10, 0).unwrap();
    let off = offset("withdraw_collateral");
    withdraw_collateral_callback(&mut reg, &mut l, &CLUSTER, off, 1, &success(vec![key(31), flag(1)], 7), 0).unwrap();
    let before = l.read(&key(1)).unwrap();
    let again = withdraw_collateral_callback(&mut reg, &mut l, &CLUSTER, off, 1, &success(vec![key(35), flag(1)], 8), 0);
    assert_eq!(again, Err(ErrorCode::UnknownOrAlreadyTerminal));
    let aborted = withdraw_collateral_callback(&mut reg, &mut l, &CLUSTER, off, 1, &ComputationOutputs::Aborted, 0);
    assert_eq!(aborted, Err(ErrorCode::UnknownOrAlreadyTerminal));
    let after = l.read(&key(1)).unwrap();
    assert_eq!((after.encrypted_collateral, after.nonce), (before.encrypted_collateral, before.nonce));
}

#[test]
fn aborted_request_is_terminal_and_changes_nothing() {
    let (mut l, mut reg) = setup();
    queue_deposit(&l, &mut reg, 1, &key(1), 10, 0).unwrap();
    let off = offset("deposit_collateral");
    assert_eq!(
        deposit_collateral_callback(&mut reg, &mut l, &CLUSTER, off, 1, &ComputationOutputs::Aborted, 0),
        Err(ErrorCode::AbortedComputation)
    );
    assert!(reg.pending.is_empty());
    assert_eq!(
        deposit_collateral_callback(&mut reg, &mut l, &CLUSTER, off, 1, &success(vec![key(31), flag(1)], 7), 0),
        Err(ErrorCode::UnknownOrAlreadyTerminal)
    );
    assert_eq!(l.read(&key(1)).unwrap().encrypted_collateral, [0u8; 32]);
    // The account is free for a fresh request.
    assert!(queue_deposit(&l, &mut reg, 2, &key(1), 10, 0).is_ok());
}

#[test]
fn aborted_settlement_leaves_both_accounts() {
    let (mut l, mut reg) = setup();
    l.apply_balance_update(&key(1), Some(key(21)), None, 3).unwrap();
    l.apply_balance_update(&key(2), Some(key(22)), None, 4).unwrap();
    let (fact, args) = settle_trade(&l, &mut reg, 10, &key(1), &key(2), 50_000_000, 1_500_000, 100).unwrap();
    assert_eq!(fact.trade_value, 75_000_000);
    assert_eq!(
        args,
        vec![
            Argument::PlaintextU128(3),
            Argument::EncryptedU64(key(21)),
            Argument::PlaintextU128(4),
            Argument::EncryptedU64(key(22)),
            Argument::PlaintextU64(75_000_000)
        ]
    );
    let r = settle_trade_callback(&mut reg, &mut l, &CLUSTER, offset("settle_trade"), 10, &ComputationOutputs::Aborted, 0);
    assert_eq!(r, Err(ErrorCode::AbortedComputation));
    let b = l.read(&key(1)).unwrap();
    let s = l.read(&key(2)).unwrap();
    assert_eq!((b.encrypted_collateral, b.encrypted_debt, b.nonce), (key(21), [0u8; 32], 3));
    assert_eq!((s.encrypted_collateral, s.encrypted_debt, s.nonce), (key(22), [0u8; 32], 4));
}

#[test]
fn settlement_updates_both_accounts() {
    let (mut l, mut reg) = setup();
    queue_settle_trade(&l, &mut reg, 10, &key(1), &key(2), 75, 0).unwrap();
    let out = success(vec![key(41), key(42), flag(1)], 12);
    let effect = settle_trade_callback(&mut reg, &mut l, &CLUSTER, offset("settle_trade"), 10, &out, 0).unwrap();
    assert!(matches!(effect, CallbackEffect::TradeSettled(e) if e.buyer == key(1) && e.seller == key(2) && e.success == 1));
    let b = l.read(&key(1)).unwrap();
    let s = l.read(&key(2)).unwrap();
    assert_eq!((b.encrypted_collateral, b.nonce), (key(41), 12));
    assert_eq!((s.encrypted_collateral, s.nonce), (key(42), 12));
}

#[test]
fn settlement_requests_are_checked() {
    let (mut l, mut reg) = setup();
    assert_eq!(settle_trade(&l, &mut reg, 10, &key(1), &key(2), 0, 5, 0).err(), Some(ErrorCode::InvalidAmount));
    assert_eq!(settle_trade(&l, &mut reg, 10, &key(1), &key(2), 5, 0, 0).err(), Some(ErrorCode::InvalidAmount));
    assert_eq!(settle_trade(&l, &mut reg, 10, &key(1), &key(2), u64::MAX, u64::MAX, 0).err(), Some(ErrorCode::MathOverflow));
    assert_eq!(queue_settle_trade(&l, &mut reg, 10, &key(1), &key(1), 5, 0), Err(ErrorCode::InvalidArguments));
    assert_eq!(queue_settle_trade(&l, &mut reg, 10, &key(1), &key(3), 5, 0), Err(ErrorCode::AccountNotFound));
    assert!(reg.pending.is_empty());
    // Accounts with different nonces settle, each ciphertext with its own nonce.
    l.apply_balance_update(&key(2), Some(key(22)), None, 3).unwrap();
    let args = queue_settle_trade(&l, &mut reg, 10, &key(1), &key(2), 5, 0).unwrap();
    assert_eq!(args[0], Argument::PlaintextU128(0));
    assert_eq!(args[2], Argument::PlaintextU128(3));
    assert_eq!(args[3], Argument::EncryptedU64(key(22)));
}

#[test]
fn callback_must_come_from_cluster_and_definition() {
    let (mut l, mut reg) = setup();
    queue_deposit(&l, &mut reg, 1, &key(1), 10, 0).unwrap();
    let out = success(vec![key(31), flag(1)], 7);
    let off = offset("deposit_collateral");
    assert_eq!(deposit_collateral_callback(&mut reg, &mut l, &key(66), off, 1, &out, 0), Err(ErrorCode::UnauthorizedCallback));
    assert_eq!(
        deposit_collateral_callback(&mut reg, &mut l, &CLUSTER, offset("withdraw_collateral"), 1, &out, 0),
        Err(ErrorCode::UnauthorizedCallback)
    );
    // A callback of another kind does not match the pending deposit.
    assert_eq!(
        withdraw_collateral_callback(&mut reg, &mut l, &CLUSTER, offset("withdraw_collateral"), 1, &out, 0),
        Err(ErrorCode::UnknownOrAlreadyTerminal)
    );
    // A result of the wrong shape is refused and the request stays pending.
    assert_eq!(
        deposit_collateral_callback(&mut reg, &mut l, &CLUSTER, off, 1, &success(vec![key(31)], 7), 0),
        Err(ErrorCode::InvalidArguments)
    );
    assert_eq!(reg.pending.len(), 1);
    assert_eq!(l.read(&key(1)).unwrap().nonce, 0);
    assert!(deposit_collateral_callback(&mut reg, &mut l, &CLUSTER, off, 1, &out, 0).is_ok());
}

#[test]
fn health_check_flags_then_liquidation_seizes_vault() {
    let (mut l, mut reg) = setup();
    l.apply_balance_update(&key(1), Some(key(21)), None, 3).unwrap();
    // Not flagged: healthy, nothing moves.
    assert_eq!(liquidate(&mut l, &reg, &key(1), &key(9), 500, 0).err(), Some(ErrorCode::HealthyPosition));
    let args = queue_health_check(&l, &mut reg, 20, &key(1), 50_000_000, 0).unwrap();
    assert_eq!(
        args,
        vec![
            Argument::PlaintextU128(3),
            Argument::EncryptedU64(key(21)),
            Argument::EncryptedU64([0u8; 32]),
            Argument::PlaintextU64(50_000_000)
        ]
    );
    let effect = health_check_callback(&mut reg, &mut l, &CLUSTER, offset("check_health"), 20, &success(vec![flag(1)], 5), 0).unwrap();
    assert!(matches!(effect, CallbackEffect::HealthChecked(h) if h.is_liquidatable && h.applied));
    assert!(l.read(&key(1)).unwrap().is_liquidatable);
    assert_eq!(liquidate(&mut l, &reg, &key(1), &key(9), 0, 0).err(), Some(ErrorCode::InvalidAmount));
    let (fact, action) = liquidate(&mut l, &reg, &key(1), &key(9), 500, 77).unwrap();
    assert_eq!(fact.collateral_seized, 500);
    assert_eq!(fact.liquidator, key(9));
    assert_eq!(fact.margin_account_owner, key(1));
    assert_eq!(action, CustodyAction::SeizeVault { owner: key(1), liquidator: key(9), amount: 500 });
    let a = l.read(&key(1)).unwrap();
    assert_eq!((a.encrypted_collateral, a.encrypted_debt, a.nonce, a.is_liquidatable), ([0u8; 32], [0u8; 32], 0, false));
    assert_eq!(liquidate(&mut l, &reg, &key(1), &key(9), 500, 78).err(), Some(ErrorCode::HealthyPosition));
    assert_eq!(liquidate(&mut l, &reg, &key(7), &key(9), 500, 78).err(), Some(ErrorCode::AccountNotFound));
}

#[test]
fn healthy_result_clears_flag_and_zero_account_is_left_alone() {
    let (mut l, mut reg) = setup();
    l.apply_balance_update(&key(1), Some(key(21)), None, 3).unwrap();
    l.set_liquidatable(&key(1), true).unwrap();
    queue_health_check(&l, &mut reg, 20, &key(1), 7, 0).unwrap();
    health_check_callback(&mut reg, &mut l, &CLUSTER, offset("check_health"), 20, &success(vec![flag(0)], 5), 0).unwrap();
    assert!(!l.read(&key(1)).unwrap().is_liquidatable);
    // Account 2 holds encrypted zeros: the result is not written.
    queue_health_check(&l, &mut reg, 21, &key(2), 7, 0).unwrap();
    let effect = health_check_callback(&mut reg, &mut l, &CLUSTER, offset("check_health"), 21, &success(vec![flag(1)], 5), 0).unwrap();
    assert!(matches!(effect, CallbackEffect::HealthChecked(h) if h.is_liquidatable && !h.applied));
    assert!(!l.read(&key(2)).unwrap().is_liquidatable);
}

#[test]
fn pending_health_check_does_not_hold_back_liquidation() {
    let (mut l, mut reg) = setup();
    l.apply_balance_update(&key(1), Some(key(21)), None, 3).unwrap();
    l.set_liquidatable(&key(1), true).unwrap();
    queue_health_check(&l, &mut reg, 20, &key(1), 7, 0).unwrap();
    assert_eq!(liquidate(&mut l, &reg, &key(1), &key(9), 0, 0).err(), Some(ErrorCode::InvalidAmount));
    assert!(l.read(&key(1)).unwrap().is_liquidatable);
    let (fact, _) = liquidate(&mut l, &reg, &key(1), &key(9), 500, 0).unwrap();
    assert_eq!(fact.collateral_seized, 500);
    // The late result finds the account reset and is not written.
    let effect = health_check_callback(&mut reg, &mut l, &CLUSTER, offset("check_health"), 20, &success(vec![flag(1)], 5), 0).unwrap();
    assert!(matches!(effect, CallbackEffect::HealthChecked(h) if !h.applied));
    assert!(!l.read(&key(1)).unwrap().is_liquidatable);
}

#[test]
fn pending_balance_change_holds_back_liquidation() {
    let (mut l, mut reg) = setup();
    l.apply_balance_update(&key(1), Some(key(21)), None, 3).unwrap();
    l.set_liquidatable(&key(1), true).unwrap();
    queue_withdraw(&l, &mut reg, 20, &key(1), 5, 0).unwrap();
    assert_eq!(liquidate(&mut l, &reg, &key(1), &key(9), 0, 0).err(), Some(ErrorCode::InvalidAmount));
    assert_eq!(liquidate(&mut l, &reg, &key(1), &key(9), 500, 0).err(), Some(ErrorCode::AccountBusy));
    assert!(l.read(&key(1)).unwrap().is_liquidatable);
}

#[test]
fn forged_redelivery_is_unknown_or_terminal() {
    let (mut l, mut reg) = setup();
    queue_deposit(&l, &mut reg, 1, &key(1), 10, 0).unwrap();
    let off = offset("deposit_collateral");
    deposit_collateral_callback(&mut reg, &mut l, &CLUSTER, off, 1, &success(vec![key(31), flag(1)], 7), 0).unwrap();
    let again = deposit_collateral_callback(&mut reg, &mut l, &key(66), 0, 1, &success(vec![key(35), flag(1)], 8), 0);
    assert_eq!(again, Err(ErrorCode::UnknownOrAlreadyTerminal));
    let a = l.read(&key(1)).unwrap();
    assert_eq!((a.encrypted_collateral, a.nonce), (key(31), 7));
}

#[test]
fn order_submission_confirms_without_ledger_change() {
    let (mut l, mut reg) = setup();
    let args = submit_order(&mut reg, 30, &key(1), key(5), key(6), key(7), key(8), 3, 0).unwrap();
    assert_eq!(
        args,
        vec![
            Argument::ArcisPubkey(key(8)),
            Argument::PlaintextU128(3),
            Argument::EncryptedU64(key(5)),
            Argument::EncryptedU64(key(6)),
            Argument::EncryptedU8(key(7))
        ]
    );
    let effect = submit_order_callback(&mut reg, &mut l, &CLUSTER, offset("submit_order"), 30, &success(vec![key(50)], 4), 8).unwrap();
    assert!(matches!(effect, CallbackEffect::OrderSubmitted(o) if o.encrypted_data == key(50) && o.nonce == 4 && o.owner == key(1)));
    assert_eq!(l.read(&key(1)).unwrap().nonce, 0);
    assert!(reg.pending.is_empty());
}
