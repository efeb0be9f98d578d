use gpu_vault::errors::VaultError;
use gpu_vault::math::{checked_bps_mul, checked_ltv_bps};

// ------------------------------------------------------------------
// checked_bps_mul
// ------------------------------------------------------------------
#[test]
fn bps_mul_happy_path() {
    // 1_000_000 * 7000 / 10000 = 700_000
    assert_eq!(checked_bps_mul(1_000_000, 7000).unwrap(), 700_000);
}

#[test]
fn bps_mul_full_percent() {
    assert_eq!(checked_bps_mul(1_000_000, 10_000).unwrap(), 1_000_000);
}

#[test]
fn bps_mul_zero_value() {
    assert_eq!(checked_bps_mul(0, 7000).unwrap(), 0);
}

#[test]
fn bps_mul_zero_bps() {
    assert_eq!(checked_bps_mul(1_000_000, 0).unwrap(), 0);
}

#[test]
fn bps_mul_tiny_fraction() {
    // 1 * 1 / 10000 = 0 (integer truncation)
    assert_eq!(checked_bps_mul(1, 1).unwrap(), 0);
}

#[test]
fn bps_mul_fee_calculation() {
    // 500_000 * 10 / 10000 = 500
    assert_eq!(checked_bps_mul(500_000, 10).unwrap(), 500);
}

#[test]
fn bps_mul_max_u64() {
    // u64::MAX * 1 / 10000 should not overflow (uses u128 internally)
    let result = checked_bps_mul(u64::MAX, 1).unwrap();
    assert_eq!(result, u64::MAX / 10_000);
}

#[test]
fn bps_mul_overflow_protection() {
    // u64::MAX * 10000 would overflow u64, but u128 handles it
    let result = checked_bps_mul(u64::MAX, 10_000).unwrap();
    assert_eq!(result, u64::MAX);
}

#[test]
fn bps_mul_quotient_beyond_u64_is_refused() {
    // u64::MAX * 20000 / 10000 = 2 * u64::MAX does not fit in u64
    assert_eq!(checked_bps_mul(u64::MAX, 20_000), Err(VaultError::MathOverflow));
    // just above the limit: (u64::MAX / 2 + 1) * 2 = 2^64
    assert_eq!(checked_bps_mul(u64::MAX / 2 + 1, 20_000), Err(VaultError::MathOverflow));
    assert_eq!(checked_bps_mul(u64::MAX / 2, 20_000), Ok(u64::MAX - 1));
}

// ------------------------------------------------------------------
// checked_ltv_bps
// ------------------------------------------------------------------
#[test]
fn ltv_happy_path() {
    // 700_000 / 1_000_000 * 10000 = 7000 bps (70%)
    assert_eq!(checked_ltv_bps(700_000, 1_000_000).unwrap(), 7000);
}

#[test]
fn ltv_exactly_100_percent() {
    assert_eq!(checked_ltv_bps(1_000_000, 1_000_000).unwrap(), 10_000);
}

#[test]
fn ltv_zero_borrowed() {
    assert_eq!(checked_ltv_bps(0, 1_000_000).unwrap(), 0);
}

#[test]
fn ltv_zero_valuation_fails() {
    let err = checked_ltv_bps(100, 0).unwrap_err();
    assert!(matches!(err, VaultError::ZeroValuation) && err.name() == "ZeroValuation");
}

#[test]
fn ltv_very_small_valuation() {
    // 6 / 1 * 10000 = 60_000 bps (way over 100%, but fits in u16)
    assert_eq!(checked_ltv_bps(6, 1).unwrap(), 60_000);
}

#[test]
fn ltv_max_u64_values() {
    // u64::MAX / u64::MAX * 10000 = 10000
    assert_eq!(checked_ltv_bps(u64::MAX, u64::MAX).unwrap(), 10_000);
}

#[test]
fn ltv_fractional_rounding() {
    // 1 / 3 * 10000 = 3333.33... → 3333
    assert_eq!(checked_ltv_bps(1, 3).unwrap(), 3333);
}

#[test]
fn ltv_beyond_u16_is_refused() {
    // 7 / 1 * 10000 = 70_000 bps does not fit in u16
    assert_eq!(checked_ltv_bps(7, 1), Err(VaultError::MathOverflow));
    // 65_535 is the largest ratio that fits
    assert_eq!(checked_ltv_bps(65_535, 10_000), Ok(65_535));
    assert_eq!(checked_ltv_bps(65_536, 10_000), Err(VaultError::MathOverflow));
}

#[test]
fn error_codes_and_messages() {
    assert_eq!(VaultError::LtvTooHigh.code(), 6000);
    assert_eq!(VaultError::MathOverflow.code(), 6004);
    assert_eq!(VaultError::ZeroValuation.code(), 6011);
    assert_eq!(VaultError::Paused.code(), 6021);
    assert_eq!(VaultError::Paused.name(), "Paused");
    assert_eq!(VaultError::LtvTooHigh.msg(), "LTV exceeds maximum 8000 bps (80%)");
    assert_eq!(VaultError::RepayTooMuch.msg(), "Repay amount exceeds debt");
}
