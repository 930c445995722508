use zec_dark_perps::error::ErrorCode;
use zec_dark_perps::trading::trade_value;

#[test]
fn trade_value_of_fifty_dollars_times_one_and_a_half() {
    assert_eq!(trade_value(50_000_000, 1_500_000), Ok(75_000_000));
}

#[test]
fn trade_value_zero_price_or_size_is_invalid() {
    assert_eq!(trade_value(0, 1_500_000), Err(ErrorCode::InvalidAmount));
    assert_eq!(trade_value(50_000_000, 0), Err(ErrorCode::InvalidAmount));
    assert_eq!(trade_value(0, 0), Err(ErrorCode::InvalidAmount));
}

#[test]
fn trade_value_rounds_down() {
    assert_eq!(trade_value(1, 999_999), Ok(0));
    assert_eq!(trade_value(3, 1_000_001), Ok(3));
}

#[test]
fn trade_value_too_large_overflows() {
    assert_eq!(trade_value(u64::MAX, u64::MAX), Err(ErrorCode::MathOverflow));
    assert_eq!(trade_value(u64::MAX, 1_000_000), Ok(u64::MAX));
    assert_eq!(trade_value(u64::MAX, 1_000_001), Err(ErrorCode::MathOverflow));
}
