//! Basis-point arithmetic used for LTV ceilings and protocol fees.
use vstd::prelude::*;
use crate::errors::VaultError;

verus! {

/// `value * bps / 10_000`, rounded down.
pub open spec fn bps_of(value: int, bps: int) -> int {
    (value * bps) / 10_000
}

/// `borrowed * 10_000 / valuation`, rounded down: a loan-to-value ratio in basis points.
pub open spec fn ltv_of(borrowed: int, valuation: int) -> int {
    (borrowed * 10_000) / valuation
}

/// What `checked_bps_mul` returns on `value` and `bps`.
pub open spec fn spec_checked_bps_mul(value: u64, bps: u16) -> Result<u64, VaultError> {
    if bps_of(value as int, bps as int) <= u64::MAX {
        Ok(bps_of(value as int, bps as int) as u64)
    } else {
        Err(VaultError::MathOverflow)
    }
}

/// What `checked_ltv_bps` returns on `borrowed` and `valuation`.
pub open spec fn spec_checked_ltv_bps(borrowed: u64, valuation: u64) -> Result<u16, VaultError> {
    if valuation == 0 {
        Err(VaultError::ZeroValuation)
    } else if ltv_of(borrowed as int, valuation as int) <= u16::MAX {
        Ok(ltv_of(borrowed as int, valuation as int) as u16)
    } else {
        Err(VaultError::MathOverflow)
    }
}

/// Compute `value * bps / 10_000` with overflow protection.
///
/// Used for LTV ceilings and protocol fee calculations. The product is
/// formed in 128 bits; a quotient that does not fit in `u64` (possible only
/// when `bps > 10_000`) is refused with `MathOverflow`.
pub fn checked_bps_mul(value: u64, bps: u16) -> (r: Result<u64, VaultError>)
    ensures
        r == spec_checked_bps_mul(value, bps),
{
    let wide: u128 = value as u128;
    assert(wide * (bps as u128) <= 0xffff_ffff_ffff_ffffu128 * 0xffffu128) by (nonlinear_arith)
        requires
            wide <= 0xffff_ffff_ffff_ffffu128,
            bps <= 0xffffu16,
    ;
    let product: u128 = wide * (bps as u128);
    let q: u128 = product / 10_000;
    if q > u64::MAX as u128 {
        Err(VaultError::MathOverflow)
    } else {
        Ok(q as u64)
    }
}

/// Compute LTV in basis points: `borrowed * 10_000 / valuation`.
///
/// Returns `Err(ZeroValuation)` when `valuation` is zero, and
/// `Err(MathOverflow)` when the ratio does not fit in `u16`.
pub fn checked_ltv_bps(borrowed: u64, valuation: u64) -> (r: Result<u16, VaultError>)
    ensures
        r == spec_checked_ltv_bps(borrowed, valuation),
{
    if valuation == 0 {
        return Err(VaultError::ZeroValuation);
    }
    let wide: u128 = borrowed as u128;
    assert(wide * 10_000u128 <= 0xffff_ffff_ffff_ffffu128 * 10_000u128) by (nonlinear_arith)
        requires
            wide <= 0xffff_ffff_ffff_ffffu128,
    ;
    let product: u128 = wide * 10_000;
    let q: u128 = product / (valuation as u128);
    if q > u16::MAX as u128 {
        Err(VaultError::MathOverflow)
    } else {
        Ok(q as u16)
    }
}

/// A loan no larger than `max_ltv` basis points of the valuation has an LTV of
/// at most `max_ltv` basis points.
pub proof fn lemma_within_ceiling_ltv_bounded(borrowed: int, valuation: int, max_ltv: int)
    requires
        valuation > 0,
        0 <= borrowed,
        0 <= max_ltv,
        borrowed <= bps_of(valuation, max_ltv),
    ensures
        ltv_of(borrowed, valuation) <= max_ltv,
{
    assert(borrowed * 10_000 <= valuation * max_ltv) by (nonlinear_arith)
        requires
            borrowed <= (valuation * max_ltv) / 10_000,
            0 <= borrowed,
            valuation > 0,
            max_ltv >= 0,
    ;
    assert((borrowed * 10_000) / valuation <= max_ltv) by (nonlinear_arith)
        requires
            borrowed * 10_000 <= valuation * max_ltv,
            valuation > 0,
            borrowed >= 0,
    ;
}

/// A loan no larger than `max_ltv` basis points of the valuation, scaled by
/// 10_000, is at most `max_ltv` times the valuation.
pub proof fn lemma_within_ceiling_scaled(borrowed: int, valuation: int, max_ltv: int)
    requires
        0 <= valuation,
        0 <= borrowed,
        0 <= max_ltv,
        borrowed <= bps_of(valuation, max_ltv),
    ensures
        borrowed * 10_000 <= max_ltv * valuation,
{
    assert(borrowed * 10_000 <= max_ltv * valuation) by (nonlinear_arith)
        requires
            borrowed <= (valuation * max_ltv) / 10_000,
            0 <= borrowed,
            valuation >= 0,
            max_ltv >= 0,
    ;
}

/// At most 10_000 basis points of a value is at most the value itself.
pub proof fn lemma_bps_of_at_most_whole(value: int, bps: int)
    requires
        0 <= value,
        0 <= bps <= 10_000,
    ensures
        0 <= bps_of(value, bps) <= value,
{
    assert(0 <= value * bps <= value * 10_000) by (nonlinear_arith)
        requires
            0 <= value,
            0 <= bps <= 10_000,
    ;
    vstd::arithmetic::div_mod::lemma_div_is_ordered(value * bps, value * 10_000, 10_000);
    vstd::arithmetic::div_mod::lemma_div_pos_is_pos(value * bps, 10_000);
    assert((value * 10_000) / 10_000 == value) by (nonlinear_arith);
}

/// Taking all 10_000 basis points of a value gives the value back.
pub proof fn law_full_bps_is_identity(value: u64)
    ensures
        spec_checked_bps_mul(value, 10_000) == Ok::<u64, VaultError>(value),
{
    assert((value as int * 10_000) / 10_000 == value) by (nonlinear_arith);
}

/// At most 10_000 basis points of a value never fails and never exceeds the value.
pub proof fn law_bps_within_whole(value: u64, bps: u16)
    requires
        bps <= 10_000,
    ensures
        spec_checked_bps_mul(value, bps) is Ok,
        spec_checked_bps_mul(value, bps)->Ok_0 <= value,
{
    lemma_bps_of_at_most_whole(value as int, bps as int);
}

/// A loan within a ceiling of at most 10_000 basis points has an LTV that
/// `checked_ltv_bps` computes without error, and it is at most the ceiling.
pub proof fn law_ltv_within_ceiling(borrowed: u64, valuation: u64, max_ltv: u16)
    requires
        valuation > 0,
        max_ltv <= 10_000,
        borrowed <= bps_of(valuation as int, max_ltv as int),
    ensures
        spec_checked_ltv_bps(borrowed, valuation) is Ok,
        spec_checked_ltv_bps(borrowed, valuation)->Ok_0 <= max_ltv,
{
    lemma_within_ceiling_ltv_bounded(borrowed as int, valuation as int, max_ltv as int);
}

} // verus!
