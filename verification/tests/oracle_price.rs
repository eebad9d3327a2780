use core::cmp::Ordering;
use hakata_perpetuals::error::PerpetualsError;
use hakata_perpetuals::math::{
    checked_add, checked_decimal_div, checked_decimal_mul, checked_div, checked_mul,
    checked_pow10, checked_sub,
};
use hakata_perpetuals::oracle_price::OraclePrice;

#[test]
fn test_checked_helpers() {
    assert_eq!(checked_add(2, 3), Ok(5));
    assert_eq!(checked_add(u64::MAX, 1), Err(PerpetualsError::MathOverflow));
    assert_eq!(checked_sub(5, 3), Ok(2));
    assert_eq!(checked_sub(3, 5), Err(PerpetualsError::MathOverflow));
    assert_eq!(checked_mul(6, 7), Ok(42));
    assert_eq!(checked_mul(u64::MAX, 2), Err(PerpetualsError::MathOverflow));
    assert_eq!(checked_div(42, 6), Ok(7));
    assert_eq!(checked_div(42, 0), Err(PerpetualsError::MathOverflow));
}

#[test]
fn test_checked_pow10() {
    assert_eq!(checked_pow10(0), Ok(1));
    assert_eq!(checked_pow10(6), Ok(1_000_000));
    assert_eq!(checked_pow10(19), Ok(10_000_000_000_000_000_000));
    assert_eq!(checked_pow10(20), Err(PerpetualsError::MathOverflow));
}

#[test]
fn test_decimal_mul_exact_values() {
    // 3 tokens with 9 decimals at 2 quote units per token, to 6 decimals
    assert_eq!(
        checked_decimal_mul(3_000_000_000, -9, 2_000_000, -6, -6),
        Ok(6_000_000)
    );
    // A positive power: 5 * 3 * 10^2
    assert_eq!(checked_decimal_mul(5, 1, 3, 1, 0), Ok(1500));
    // Truncation on a negative power: 123 * 4 / 10^2
    assert_eq!(checked_decimal_mul(123, -1, 4, -1, 0), Ok(4));
    // Overflow
    assert_eq!(
        checked_decimal_mul(u64::MAX, 0, u64::MAX, 0, 0),
        Err(PerpetualsError::MathOverflow)
    );
    // Zero shortcut even where a huge power would otherwise overflow
    assert_eq!(checked_decimal_mul(0, 1000, 5, 1000, 0), Ok(0));
}

#[test]
fn test_decimal_div_exact_values() {
    // 6 quote units at 2 per token, back to 9 token decimals
    assert_eq!(
        checked_decimal_div(6_000_000, -6, 2_000_000, -6, -9),
        Ok(3_000_000_000)
    );
    // Truncation: 10 / 3 at equal exponents
    assert_eq!(checked_decimal_div(10, 0, 3, 0, 0), Ok(3));
    // Division by zero mantissa
    assert_eq!(
        checked_decimal_div(1, 0, 0, 0, 0),
        Err(PerpetualsError::MathOverflow)
    );
    // Zero dividend
    assert_eq!(checked_decimal_div(0, 0, 7, 0, 0), Ok(0));
}

#[test]
fn test_new_and_new_from_token() {
    let p = OraclePrice::new(123, -8);
    assert_eq!(p.price, 123);
    assert_eq!(p.exponent, -8);
    let q = OraclePrice::new_from_token((500, 6));
    assert_eq!(q.price, 500);
    assert_eq!(q.exponent, -6);
}

#[test]
fn test_checked_cmp_across_exponents() {
    // 1.5 < 2.0 even though the raw mantissas order the other way
    let a = OraclePrice::new(15, -1);
    let b = OraclePrice::new(2, 0);
    assert_eq!(a.checked_cmp(&b), Ok(Ordering::Less));
    assert_eq!(b.checked_cmp(&a), Ok(Ordering::Greater));
    // 1.5 == 1.50
    let c = OraclePrice::new(150, -2);
    assert_eq!(a.checked_cmp(&c), Ok(Ordering::Equal));
    // Equal exponents compare mantissas directly
    assert_eq!(
        OraclePrice::new(7, -3).checked_cmp(&OraclePrice::new(9, -3)),
        Ok(Ordering::Less)
    );
    // Rescaling a nonzero mantissa across 30 decades overflows: the
    // comparison fails rather than saturates
    let big = OraclePrice::new(1, 30);
    let small = OraclePrice::new(5, 0);
    assert_eq!(
        big.checked_cmp(&small),
        Err(PerpetualsError::MathOverflow)
    );
    // ... but a zero mantissa rescales to zero and still compares
    let zero_high = OraclePrice::new(0, 30);
    assert_eq!(zero_high.checked_cmp(&small), Ok(Ordering::Less));
}

#[test]
fn test_compare_exponent_invariance_scenario() {
    // Rescaling both operands' exponents down by two - an exact
    // transformation - leaves the comparison unchanged.
    let a = OraclePrice::new(15, -1);
    let b = OraclePrice::new(2, 0);
    let a2 = a.scale_to_exponent(-3).unwrap();
    let b2 = b.scale_to_exponent(-2).unwrap();
    assert_eq!(a2, OraclePrice::new(1500, -3));
    assert_eq!(b2, OraclePrice::new(200, -2));
    assert_eq!(a.checked_cmp(&b), a2.checked_cmp(&b2));
}

#[test]
fn test_asset_amount_round_trip() {
    // 2.0 quote units per token, nine token decimals: exact round trip.
    let p = OraclePrice::new(2_000_000, -6);
    let quote = p.get_asset_amount_usd(3_000_000_000, 9).unwrap();
    assert_eq!(quote, 6_000_000);
    let back = p.get_token_amount(quote, 9).unwrap();
    assert_eq!(back, 3_000_000_000);
}

#[test]
fn test_round_trip_one_unit_truncation() {
    // 1.5 quote units per token, six token decimals: one smallest token
    // unit quotes to one quote unit, and comes back as zero - exactly
    // one unit lost to truncation, never more.
    let p = OraclePrice::new(1_500_000, -6);
    let quote = p.get_asset_amount_usd(1, 6).unwrap();
    assert_eq!(quote, 1);
    let back = p.get_token_amount(quote, 6).unwrap();
    assert_eq!(back, 0);
}

#[test]
fn test_zero_shortcut() {
    let p = OraclePrice::new(2_000_000, -6);
    assert_eq!(p.get_asset_amount_usd(0, 9), Ok(0));
    assert_eq!(p.get_token_amount(0, 9), Ok(0));
    let zero_price = OraclePrice::new(0, -6);
    assert_eq!(zero_price.get_asset_amount_usd(123, 9), Ok(0));
    assert_eq!(zero_price.get_token_amount(123, 9), Ok(0));
}

#[test]
fn test_normalize() {
    // Two divisions by ten bring the mantissa under the ceiling.
    let p = OraclePrice::new(2_684_354_560, -10);
    let n = p.normalize().unwrap();
    assert_eq!(n.price, 26_843_545);
    assert_eq!(n.exponent, -8);
    // Already under the ceiling: unchanged.
    let q = OraclePrice::new(268_435_455, -8);
    let m = q.normalize().unwrap();
    assert_eq!(m.price, 268_435_455);
    assert_eq!(m.exponent, -8);
}

#[test]
fn test_checked_mul_prices() {
    let a = OraclePrice::new(2, 1);
    let b = OraclePrice::new(3, 2);
    let r = a.checked_mul(&b).unwrap();
    assert_eq!(r.price, 6);
    assert_eq!(r.exponent, 3);
    let big = OraclePrice::new(u64::MAX, 0);
    assert_eq!(
        big.checked_mul(&OraclePrice::new(2, 0)),
        Err(PerpetualsError::MathOverflow)
    );
}

#[test]
fn test_checked_div_prices() {
    // 6.0 / 2.0 == 3.0, carried at the fixed scale exponent.
    let a = OraclePrice::new(6_000_000, -6);
    let b = OraclePrice::new(2_000_000, -6);
    let r = a.checked_div(&b).unwrap();
    assert_eq!(r.price, 3_000_000_000);
    assert_eq!(r.exponent, -9);
    // Division by a zero price fails.
    let zero = OraclePrice::new(0, -6);
    assert_eq!(a.checked_div(&zero), Err(PerpetualsError::MathOverflow));
}

#[test]
fn test_scale_to_exponent() {
    let p = OraclePrice::new(123_456, -3);
    // Raising the exponent truncates.
    let up = p.scale_to_exponent(-1).unwrap();
    assert_eq!(up.price, 1_234);
    assert_eq!(up.exponent, -1);
    // Lowering it multiplies exactly.
    let down = p.scale_to_exponent(-5).unwrap();
    assert_eq!(down.price, 12_345_600);
    assert_eq!(down.exponent, -5);
    // Same exponent: unchanged.
    let same = p.scale_to_exponent(-3).unwrap();
    assert_eq!(same.price, 123_456);
    // A shift past the 64-bit range fails.
    assert_eq!(
        p.scale_to_exponent(-30),
        Err(PerpetualsError::MathOverflow)
    );
}

#[test]
fn test_get_min_price_plain() {
    let a = OraclePrice::new(15, -1);
    let b = OraclePrice::new(2, 0);
    // Unpegged: the smaller value, whatever its exponent.
    let r = a.get_min_price(&b, false).unwrap();
    assert_eq!(r, a);
    let r = b.get_min_price(&a, false).unwrap();
    assert_eq!(r, a);
}

#[test]
fn test_get_min_price_stable_clamp() {
    // A pegged asset's minimum above 1.0 is clamped to exactly 1.0.
    let a = OraclePrice::new(1_500_000, -6);
    let b = OraclePrice::new(2_000_000, -6);
    let r = a.get_min_price(&b, true).unwrap();
    assert_eq!(r, OraclePrice::new(1_000_000, -6));
    // Below 1.0 it is returned unchanged.
    let c = OraclePrice::new(900_000, -6);
    let r = c.get_min_price(&b, true).unwrap();
    assert_eq!(r, c);
    // A degenerate reading with a positive exponent and nonzero
    // mantissa becomes the pinned one-unit sentinel.
    let d = OraclePrice::new(5, 2);
    let e = OraclePrice::new(7, 2);
    let r = d.get_min_price(&e, true).unwrap();
    assert_eq!(r, OraclePrice::new(1_000_000, -6));
    // A zero mantissa with a positive exponent stays as it is.
    let z = OraclePrice::new(0, 2);
    let r = z.get_min_price(&e, true).unwrap();
    assert_eq!(r, z);
}
