//! The functions the confidential-computation cluster evaluates, stated on the
//! plaintext values behind the ciphertexts. The cluster decrypts its inputs,
//! runs one of these, and encrypts the result again under a fresh nonce.
use vstd::prelude::*;

verus! {

/// Collateral must be worth at least this many percent of the debt.
pub const LIQUIDATION_THRESHOLD: u64 = 150;

/// The largest balance an account can hold.
pub open spec fn max_balance() -> nat {
    u64::MAX as nat
}

/// The collateral after a deposit: unchanged with `success == 0` where the sum
/// would pass the largest balance, the sum with `success == 1` otherwise.
pub open spec fn deposit_outcome(current: nat, amount: nat) -> (nat, u8) {
    if current + amount > max_balance() {
        (current, 0u8)
    } else {
        (current + amount, 1u8)
    }
}

/// The collateral after a withdrawal: unchanged with `success == 0` where it
/// holds less than asked for, the difference with `success == 1` otherwise.
pub open spec fn withdraw_outcome(current: nat, amount: nat) -> (nat, u8) {
    if amount > current {
        (current, 0u8)
    } else {
        ((current - amount) as nat, 1u8)
    }
}

/// Whether a position with this collateral and debt may be liquidated: it has
/// debt, and either no collateral or a debt-to-collateral ratio above the threshold.
pub open spec fn is_liquidatable_position(collateral: nat, debt: nat) -> bool {
    debt > 0 && (collateral == 0 || (debt * 100) / collateral > LIQUIDATION_THRESHOLD as nat)
}

pub struct DepositInput {
    pub current_collateral: u64,
    pub deposit_amount: u64,
}

pub struct DepositResult {
    pub new_collateral: u64,
    pub success: u8,
}

/// Adds a deposit to the collateral, refusing (and keeping the balance) on overflow.
pub fn deposit_collateral(input: DepositInput) -> (r: DepositResult)
    ensures
        (r.new_collateral as nat, r.success) == deposit_outcome(
            input.current_collateral as nat,
            input.deposit_amount as nat,
        ),
{
    if input.current_collateral > u64::MAX - input.deposit_amount {
        DepositResult { new_collateral: input.current_collateral, success: 0 }
    } else {
        DepositResult { new_collateral: input.current_collateral + input.deposit_amount, success: 1 }
    }
}

pub struct WithdrawInput {
    pub current_collateral: u64,
    pub withdraw_amount: u64,
}

pub struct WithdrawResult {
    pub new_collateral: u64,
    pub success: u8,
}

/// Takes a withdrawal from the collateral, refusing (and keeping the balance)
/// where the balance is too small.
pub fn withdraw_collateral(input: WithdrawInput) -> (r: WithdrawResult)
    ensures
        (r.new_collateral as nat, r.success) == withdraw_outcome(
            input.current_collateral as nat,
            input.withdraw_amount as nat,
        ),
{
    if input.withdraw_amount > input.current_collateral {
        WithdrawResult { new_collateral: input.current_collateral, success: 0 }
    } else {
        WithdrawResult {
            new_collateral: input.current_collateral - input.withdraw_amount,
            success: 1,
        }
    }
}

pub struct TradeBalances {
    pub buyer_collateral: u64,
    pub seller_collateral: u64,
}

pub struct TradeResult {
    pub new_buyer_collateral: u64,
    pub new_seller_collateral: u64,
    pub success: u8,
}

/// Moves the trade value from the buyer's collateral to the seller's, or
/// changes neither where the buyer holds too little or the seller would overflow.
pub fn settle_trade(balances: TradeBalances, trade_value: u64) -> (r: TradeResult)
    ensures
        ({
            let b = balances.buyer_collateral as nat;
            let s = balances.seller_collateral as nat;
            let v = trade_value as nat;
            if v > b || s + v > max_balance() {
                r.new_buyer_collateral == b && r.new_seller_collateral == s && r.success == 0
            } else {
                r.new_buyer_collateral == b - v && r.new_seller_collateral == s + v && r.success
                    == 1
            }
        }),
{
    if trade_value > balances.buyer_collateral {
        TradeResult {
            new_buyer_collateral: balances.buyer_collateral,
            new_seller_collateral: balances.seller_collateral,
            success: 0,
        }
    } else if balances.seller_collateral > u64::MAX - trade_value {
        TradeResult {
            new_buyer_collateral: balances.buyer_collateral,
            new_seller_collateral: balances.seller_collateral,
            success: 0,
        }
    } else {
        TradeResult {
            new_buyer_collateral: balances.buyer_collateral - trade_value,
            new_seller_collateral: balances.seller_collateral + trade_value,
            success: 1,
        }
    }
}

pub struct HealthCheckInput {
    pub collateral: u64,
    pub debt: u64,
    /// Oracle price; the collateral is taken to be in the debt's unit already.
    pub price: u64,
}

/// Whether the position is liquidatable. The ratio is computed at double width
/// and compared there, so no debt is large enough to wrap it back under the threshold.
pub fn check_health(input: HealthCheckInput) -> (r: bool)
    ensures
        r == is_liquidatable_position(input.collateral as nat, input.debt as nat),
{
    if input.debt == 0 {
        false
    } else if input.collateral == 0 {
        true
    } else {
        let debt_scaled: u128 = input.debt as u128 * 100u128;
        let ltv: u128 = debt_scaled / input.collateral as u128;
        ltv > LIQUIDATION_THRESHOLD as u128
    }
}

pub struct OrderInput {
    /// Order size in the asset's smallest unit.
    pub size: u64,
    /// Price in the quote's smallest unit.
    pub price: u64,
    /// 1 for a buy, 0 for a sell.
    pub side: u8,
}

/// Confirms an order by handing it back, to be encrypted for its owner again.
pub fn submit_order(order: OrderInput) -> (r: OrderInput)
    ensures
        r == order,
{
    order
}

} // verus!
