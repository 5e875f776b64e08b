//! Prices, fees and billed time of a rental.
//!
//! A rental amount is the base rate plus the hourly rate times the hours,
//! without fee or collateral. Fees are percentages: a fee of `f` percent
//! turns an amount `a` into `a * (100 + f) / 100`, and the fee's part of an
//! amount `a` is `a * f / 100`, both rounded down. Time is billed in whole
//! hours, rounded up.

use vstd::prelude::*;

verus! {

/// Seconds in one billed hour.
pub const SECONDS_IN_HOUR: i64 = 3600;

/// `amount` with a fee of `fee` percent added, rounded down.
pub open spec fn with_fee(amount: int, fee: int) -> int {
    amount * (100 + fee) / 100
}

/// The part of `amount` that a fee of `fee` percent takes, rounded down.
pub open spec fn fee_part(amount: int, fee: int) -> int {
    amount * fee / 100
}

/// Integer division that rounds toward zero, as machine division of signed
/// integers does.
pub open spec fn div_toward_zero(a: int, b: int) -> int {
    if a >= 0 {
        a / b
    } else {
        -((-a) / b)
    }
}

/// The rental amount of `hours` hours: the base rate plus the hours at the
/// hourly rate, without fee or collateral.
pub open spec fn rental_amount_of(base_rate: int, rate: int, hours: int) -> int {
    base_rate + hours * rate
}

/// The price of one hour with the fee: defined when `rate * (100 + fee)`
/// fits in a `u64`.
pub open spec fn hourly_rate_with_fee(rate: u64, fee: u8) -> Option<u64> {
    if rate * (100 + fee) <= u64::MAX {
        Some(with_fee(rate as int, fee as int) as u64)
    } else {
        None
    }
}

/// The hours billed for a rental that started at `start` and ends at `now`:
/// the elapsed seconds rounded up to whole hours (toward zero for a clock
/// that went back), kept in 16 bits. Undefined (`None`) when the elapsed
/// seconds, or the elapsed seconds plus one hour, leave the `i64` range.
pub open spec fn billed_hours(start: i64, now: i64) -> Option<u16> {
    let secs = now - start;
    if i64::MIN <= secs && secs + SECONDS_IN_HOUR <= i64::MAX {
        Some(div_toward_zero(secs + SECONDS_IN_HOUR - 1, SECONDS_IN_HOUR as int) as u16)
    } else {
        None
    }
}

/// Billed hours minus paid hours, both taken as 16-bit signed values:
/// positive for hours ridden past the paid period, negative for unused paid
/// hours. Undefined when the difference leaves the `i16` range.
pub open spec fn usage_difference(billed: u16, paid: u16) -> Option<i16> {
    let d = (billed as i16) - (paid as i16);
    if i16::MIN <= d <= i16::MAX {
        Some(d as i16)
    } else {
        None
    }
}

/// `rental_amount_of` as a `u64`, when it fits in one.
pub open spec fn rental_amount_u64(base_rate: u64, rate: u64, hours: u16) -> Option<u64> {
    let amount = rental_amount_of(base_rate as int, rate as int, hours as int);
    if amount <= u64::MAX {
        Some(amount as u64)
    } else {
        None
    }
}

/// `with_fee` as a `u64`, when it fits in one.
pub open spec fn with_fee_u64(amount: u64, fee: u8) -> Option<u64> {
    let w = with_fee(amount as int, fee as int);
    if w <= u64::MAX {
        Some(w as u64)
    } else {
        None
    }
}

/// Computes the rental amount of `hours` hours at `rate` on top of
/// `base_rate`, or `None` when it does not fit in a `u64`.
pub fn compute_rental_amount(base_rate: u64, rate: u64, hours: u16) -> (r: Option<u64>)
    ensures
        r == rental_amount_u64(base_rate, rate, hours),
{
    let h: u128 = hours as u128;
    let rt: u128 = rate as u128;
    assert(h * rt <= 0xffffu128 * 0xffff_ffff_ffff_ffffu128) by (nonlinear_arith)
        requires
            h <= 0xffff,
            rt <= 0xffff_ffff_ffff_ffff,
    ;
    let amount: u128 = base_rate as u128 + h * rt;
    if amount <= u64::MAX as u128 {
        Some(amount as u64)
    } else {
        None
    }
}

/// Computes `amount` with a fee of `fee` percent, or `None` when it does
/// not fit in a `u64`.
pub fn compute_with_fee(amount: u64, fee: u8) -> (r: Option<u64>)
    ensures
        r == with_fee_u64(amount, fee),
{
    let w: u128 = with_fee_u128(amount, fee);
    if w <= u64::MAX as u128 {
        Some(w as u64)
    } else {
        None
    }
}

/// Computes `amount` with a fee of `fee` percent, in 128 bits.
pub fn with_fee_u128(amount: u64, fee: u8) -> (r: u128)
    ensures
        r == with_fee(amount as int, fee as int),
{
    let a: u128 = amount as u128;
    let m: u128 = 100u128 + fee as u128;
    assert(a * m <= 0xffff_ffff_ffff_ffffu128 * 355) by (nonlinear_arith)
        requires
            a <= 0xffff_ffff_ffff_ffff,
            m <= 355,
    ;
    a * m / 100
}

/// `with_fee` never decreases when the amount grows.
pub proof fn lemma_with_fee_monotone(a: int, b: int, fee: int)
    requires
        0 <= a <= b,
        fee >= 0,
    ensures
        with_fee(a, fee) <= with_fee(b, fee),
{
    assert(a * (100 + fee) <= b * (100 + fee)) by (nonlinear_arith)
        requires
            0 <= a <= b,
            fee >= 0,
    ;
    assert(a * (100 + fee) / 100 <= b * (100 + fee) / 100) by (nonlinear_arith)
        requires
            a * (100 + fee) <= b * (100 + fee),
    ;
}

/// Computes the price of one hour with the fee, or `None` when
/// `rate * (100 + fee)` does not fit in a `u64`.
pub fn compute_hourly_rate_with_fee(rate: u64, fee: u8) -> (r: Option<u64>)
    ensures
        r == hourly_rate_with_fee(rate, fee),
{
    match rate.checked_mul(100u64 + fee as u64) {
        Some(m) => Some(m / 100),
        None => None,
    }
}

/// Computes the fee's part of `amount`.
pub fn compute_fee_part(amount: u64, fee: u8) -> (r: u128)
    ensures
        r == fee_part(amount as int, fee as int),
{
    let a: u128 = amount as u128;
    let f: u128 = fee as u128;
    assert(a * f <= 0xffff_ffff_ffff_ffffu128 * 255) by (nonlinear_arith)
        requires
            a <= 0xffff_ffff_ffff_ffff,
            f <= 255,
    ;
    a * f / 100
}

/// Computes the hours billed between `start` and `now`.
pub fn compute_billed_hours(start: i64, now: i64) -> (r: Option<u16>)
    ensures
        r == billed_hours(start, now),
{
    let secs: i128 = now as i128 - start as i128;
    if secs < i64::MIN as i128 || secs > (i64::MAX - SECONDS_IN_HOUR) as i128 {
        return None;
    }
    let n: i128 = secs + (SECONDS_IN_HOUR - 1) as i128;
    let q: i128 = if n >= 0 {
        (n as u128 / 3600u128) as i128
    } else {
        let neg: u128 = (0i128 - n) as u128;
        0i128 - (neg / 3600u128) as i128
    };
    Some(q as u16)
}

/// Computes billed hours minus paid hours as 16-bit signed values.
pub fn compute_usage_difference(billed: u16, paid: u16) -> (r: Option<i16>)
    ensures
        r == usage_difference(billed, paid),
{
    let d: i32 = billed as i16 as i32 - paid as i16 as i32;
    if d < i16::MIN as i32 || d > i16::MAX as i32 {
        None
    } else {
        Some(d as i16)
    }
}

} // verus!
