//! Shared checked-arithmetic helpers.
//!
//! Every operation here either returns the exact mathematical result or
//! fails with [`PerpetualsError::MathOverflow`]; nothing wraps or
//! saturates. The decimal-aware product and quotient are the work-horses
//! of the price arithmetic: they combine two `(mantissa, exponent)`
//! quantities and bring the result to a caller-chosen exponent.

use vstd::prelude::*;
use vstd::arithmetic::power::{pow, lemma_pow_adds, lemma_pow_increases, lemma_pow_positive};
use crate::error::PerpetualsError;

verus! {

/// Ten raised to the power `e`, as a mathematical integer.
pub open spec fn pow10(e: nat) -> int
    decreases e,
{
    if e == 0 {
        1
    } else {
        10 * pow10((e - 1) as nat)
    }
}

/// `pow10` agrees with the general power function of the standard library.
proof fn lemma_pow10_eq_pow(e: nat)
    ensures
        pow10(e) == pow(10, e),
    decreases e,
{
    reveal(pow);
    if e > 0 {
        lemma_pow10_eq_pow((e - 1) as nat);
    }
}

/// A power of ten is at least one.
pub proof fn lemma_pow10_pos(e: nat)
    ensures
        pow10(e) >= 1,
{
    lemma_pow10_eq_pow(e);
    lemma_pow_positive(10, e);
}

/// Powers of ten do not decrease as the exponent grows.
pub proof fn lemma_pow10_increases(e1: nat, e2: nat)
    requires
        e1 <= e2,
    ensures
        pow10(e1) <= pow10(e2),
{
    lemma_pow10_eq_pow(e1);
    lemma_pow10_eq_pow(e2);
    lemma_pow_increases(10, e1, e2);
}

/// Splitting an exponent splits the power into a product.
pub proof fn lemma_pow10_adds(e1: nat, e2: nat)
    ensures
        pow10(e1 + e2) == pow10(e1) * pow10(e2),
{
    lemma_pow10_eq_pow(e1);
    lemma_pow10_eq_pow(e2);
    lemma_pow10_eq_pow(e1 + e2);
    lemma_pow_adds(10, e1, e2);
}

/// Concrete powers of ten at the bounds that matter for 64-bit and
/// 128-bit arithmetic.
pub proof fn lemma_pow10_values()
    ensures
        pow10(0) == 1,
        pow10(6) == 1_000_000,
        pow10(9) == 1_000_000_000,
        pow10(19) == 10_000_000_000_000_000_000,
        pow10(20) == 100_000_000_000_000_000_000,
        pow10(38) == 100_000_000_000_000_000_000_000_000_000_000_000_000,
        pow10(39) == 1_000_000_000_000_000_000_000_000_000_000_000_000_000,
{
    reveal_with_fuel(pow10, 40);
}

/// Checked addition of two unsigned 64-bit integers.
pub fn checked_add(a: u64, b: u64) -> (r: Result<u64, PerpetualsError>)
    ensures
        a + b <= u64::MAX ==> r == Ok::<u64, PerpetualsError>((a + b) as u64),
        a + b > u64::MAX ==> r == Err::<u64, PerpetualsError>(PerpetualsError::MathOverflow),
{
    if a <= u64::MAX - b {
        Ok(a + b)
    } else {
        Err(PerpetualsError::MathOverflow)
    }
}

/// Checked subtraction of two unsigned 64-bit integers.
pub fn checked_sub(a: u64, b: u64) -> (r: Result<u64, PerpetualsError>)
    ensures
        b <= a ==> r == Ok::<u64, PerpetualsError>((a - b) as u64),
        b > a ==> r == Err::<u64, PerpetualsError>(PerpetualsError::MathOverflow),
{
    if b <= a {
        Ok(a - b)
    } else {
        Err(PerpetualsError::MathOverflow)
    }
}

/// Checked multiplication of two unsigned 64-bit integers.
pub fn checked_mul(a: u64, b: u64) -> (r: Result<u64, PerpetualsError>)
    ensures
        a * b <= u64::MAX ==> r == Ok::<u64, PerpetualsError>((a * b) as u64),
        a * b > u64::MAX ==> r == Err::<u64, PerpetualsError>(PerpetualsError::MathOverflow),
{
    match a.checked_mul(b) {
        Some(p) => Ok(p),
        None => Err(PerpetualsError::MathOverflow),
    }
}

/// Checked division of two unsigned 64-bit integers; fails on a zero divisor.
pub fn checked_div(a: u64, b: u64) -> (r: Result<u64, PerpetualsError>)
    ensures
        b != 0 ==> r == Ok::<u64, PerpetualsError>((a as int / b as int) as u64),
        b == 0 ==> r == Err::<u64, PerpetualsError>(PerpetualsError::MathOverflow),
{
    if b != 0 {
        Ok(a / b)
    } else {
        Err(PerpetualsError::MathOverflow)
    }
}

/// Checked addition of two signed 32-bit integers.
pub fn checked_add_i32(a: i32, b: i32) -> (r: Result<i32, PerpetualsError>)
    ensures
        i32::MIN <= a + b <= i32::MAX ==> r == Ok::<i32, PerpetualsError>((a + b) as i32),
        !(i32::MIN <= a + b <= i32::MAX) ==> r == Err::<i32, PerpetualsError>(
            PerpetualsError::MathOverflow,
        ),
{
    match a.checked_add(b) {
        Some(s) => Ok(s),
        None => Err(PerpetualsError::MathOverflow),
    }
}

/// Checked subtraction of two signed 32-bit integers.
pub fn checked_sub_i32(a: i32, b: i32) -> (r: Result<i32, PerpetualsError>)
    ensures
        i32::MIN <= a - b <= i32::MAX ==> r == Ok::<i32, PerpetualsError>((a - b) as i32),
        !(i32::MIN <= a - b <= i32::MAX) ==> r == Err::<i32, PerpetualsError>(
            PerpetualsError::MathOverflow,
        ),
{
    match a.checked_sub(b) {
        Some(s) => Ok(s),
        None => Err(PerpetualsError::MathOverflow),
    }
}

/// Ten to the power `e` as a `u64`; fails exactly when the power does
/// not fit in 64 bits.
pub fn checked_pow10(e: u32) -> (r: Result<u64, PerpetualsError>)
    ensures
        pow10(e as nat) <= u64::MAX ==> r == Ok::<u64, PerpetualsError>(pow10(e as nat) as u64),
        pow10(e as nat) > u64::MAX ==> r == Err::<u64, PerpetualsError>(
            PerpetualsError::MathOverflow,
        ),
{
    proof {
        lemma_pow10_values();
    }
    if e > 19 {
        proof {
            lemma_pow10_increases(20, e as nat);
        }
        return Err(PerpetualsError::MathOverflow);
    }
    let mut acc: u64 = 1;
    let mut i: u32 = 0;
    while i < e
        invariant
            i <= e <= 19,
            acc == pow10(i as nat),
        decreases e - i,
    {
        proof {
            lemma_pow10_increases(i as nat + 1, 19);
            lemma_pow10_values();
        }
        acc = acc * 10;
        i = i + 1;
    }
    proof {
        lemma_pow10_increases(e as nat, 19);
    }
    Ok(acc)
}

/// Exact value of a decimal-aware product brought to a target exponent:
/// the integer part of `(c1 * 10^e1) * (c2 * 10^e2) / 10^target`.
pub open spec fn decimal_mul_value(c1: u64, e1: int, c2: u64, e2: int, target: int) -> int {
    let p = e1 + e2 - target;
    if p >= 0 {
        c1 * c2 * pow10(p as nat)
    } else {
        (c1 * c2) / pow10((-p) as nat)
    }
}

/// Multiplies two decimal quantities `c1 * 10^e1` and `c2 * 10^e2` and
/// returns the integer part of the product expressed at exponent
/// `target`. Returns zero at once when either mantissa is zero; fails
/// exactly when the result does not fit in 64 bits.
pub fn checked_decimal_mul(c1: u64, e1: i32, c2: u64, e2: i32, target: i32) -> (r: Result<
    u64,
    PerpetualsError,
>)
    ensures
        c1 == 0 || c2 == 0 ==> r == Ok::<u64, PerpetualsError>(0u64),
        ({
            let v = decimal_mul_value(c1, e1 as int, c2, e2 as int, target as int);
            &&& v <= u64::MAX ==> r == Ok::<u64, PerpetualsError>(v as u64)
            &&& v > u64::MAX ==> r == Err::<u64, PerpetualsError>(PerpetualsError::MathOverflow)
        }),
{
    let ghost v = decimal_mul_value(c1, e1 as int, c2, e2 as int, target as int);
    let ghost p_spec = e1 as int + e2 as int - target as int;
    if c1 == 0 || c2 == 0 {
        proof {
            assert(c1 as int * c2 as int == 0) by (nonlinear_arith)
                requires
                    c1 == 0 || c2 == 0,
            ;
            if p_spec < 0 {
                lemma_pow10_pos((-p_spec) as nat);
                vstd::arithmetic::div_mod::lemma_basic_div(0, pow10((-p_spec) as nat));
            }
        }
        return Ok(0);
    }
    let p: i64 = e1 as i64 + e2 as i64 - (target as i64);
    proof {
        assert(c1 as int * c2 as int <= u128::MAX) by (nonlinear_arith)
            requires
                c1 <= u64::MAX,
                c2 <= u64::MAX,
        ;
        assert(c1 as int * c2 as int >= 1) by (nonlinear_arith)
            requires
                c1 >= 1,
                c2 >= 1,
        ;
    }
    let m: u128 = (c1 as u128) * (c2 as u128);
    if p >= 0 {
        if p > 38 {
            proof {
                lemma_pow10_values();
                lemma_pow10_increases(39, p as nat);
                assert(v == m * pow10(p as nat));
                assert(m * pow10(p as nat) >= 1 * pow10(p as nat)) by (nonlinear_arith)
                    requires
                        m >= 1,
                        pow10(p as nat) >= 0,
                ;
            }
            return Err(PerpetualsError::MathOverflow);
        }
        let f: u128 = pow10_u128(p as u32);
        proof {
            lemma_pow10_pos(p as nat);
        }
        match m.checked_mul(f) {
            Some(prod) => {
                if prod <= u64::MAX as u128 {
                    Ok(prod as u64)
                } else {
                    Err(PerpetualsError::MathOverflow)
                }
            },
            None => {
                proof {
                    assert(v == m * pow10(p as nat));
                }
                Err(PerpetualsError::MathOverflow)
            },
        }
    } else {
        let q: i64 = -p;
        if q > 38 {
            proof {
                lemma_pow10_values();
                lemma_pow10_increases(39, q as nat);
                assert(m < pow10(39)) by {
                    assert(c1 as int * c2 as int <= u64::MAX * u64::MAX) by (nonlinear_arith)
                        requires
                            c1 <= u64::MAX,
                            c2 <= u64::MAX,
                    ;
                }
                vstd::arithmetic::div_mod::lemma_basic_div(m as int, pow10(q as nat));
            }
            return Ok(0);
        }
        let d: u128 = pow10_u128(q as u32);
        proof {
            lemma_pow10_pos(q as nat);
        }
        let quot: u128 = m / d;
        if quot <= u64::MAX as u128 {
            Ok(quot as u64)
        } else {
            Err(PerpetualsError::MathOverflow)
        }
    }
}

/// Exact value of a decimal-aware quotient brought to a target exponent:
/// the integer part of `(c1 * 10^e1) / (c2 * 10^e2) / 10^target`.
pub open spec fn decimal_div_value(c1: u64, e1: int, c2: u64, e2: int, target: int) -> int {
    let p = e1 - e2 - target;
    if p >= 0 {
        (c1 * pow10(p as nat)) / (c2 as int)
    } else {
        (c1 as int) / (c2 * pow10((-p) as nat))
    }
}

/// Divides the decimal quantity `c1 * 10^e1` by `c2 * 10^e2` and returns
/// the integer part of the quotient expressed at exponent `target`.
/// Fails on a zero divisor; returns zero at once when the dividend
/// mantissa is zero; otherwise fails exactly when the result does not
/// fit in 64 bits.
pub fn checked_decimal_div(c1: u64, e1: i32, c2: u64, e2: i32, target: i32) -> (r: Result<
    u64,
    PerpetualsError,
>)
    ensures
        c2 == 0 ==> r == Err::<u64, PerpetualsError>(PerpetualsError::MathOverflow),
        c2 != 0 && c1 == 0 ==> r == Ok::<u64, PerpetualsError>(0u64),
        c2 != 0 ==> ({
            let v = decimal_div_value(c1, e1 as int, c2, e2 as int, target as int);
            &&& v <= u64::MAX ==> r == Ok::<u64, PerpetualsError>(v as u64)
            &&& v > u64::MAX ==> r == Err::<u64, PerpetualsError>(PerpetualsError::MathOverflow)
        }),
{
    if c2 == 0 {
        return Err(PerpetualsError::MathOverflow);
    }
    let ghost v = decimal_div_value(c1, e1 as int, c2, e2 as int, target as int);
    let ghost p_spec = e1 as int - e2 as int - target as int;
    if c1 == 0 {
        proof {
            if p_spec >= 0 {
                assert(c1 as int * pow10(p_spec as nat) == 0) by (nonlinear_arith)
                    requires
                        c1 == 0,
                ;
                vstd::arithmetic::div_mod::lemma_basic_div(0, c2 as int);
            } else {
                lemma_pow10_pos((-p_spec) as nat);
                assert(c2 as int * pow10((-p_spec) as nat) >= 1) by (nonlinear_arith)
                    requires
                        c2 >= 1,
                        pow10((-p_spec) as nat) >= 1,
                ;
                vstd::arithmetic::div_mod::lemma_basic_div(0, c2 as int * pow10((-p_spec) as nat));
            }
        }
        return Ok(0);
    }
    let p: i64 = e1 as i64 - e2 as i64 - (target as i64);
    if p >= 0 {
        if p > 38 {
            // The scaled dividend is at least 10^39, which exceeds
            // (u64::MAX + 1) * c2, so the quotient exceeds u64::MAX.
            proof {
                lemma_pow10_values();
                lemma_pow10_increases(39, p as nat);
                assert(c1 as int * pow10(p as nat) >= pow10(39)) by (nonlinear_arith)
                    requires
                        c1 >= 1,
                        pow10(p as nat) >= pow10(39) >= 0,
                ;
                assert((u64::MAX + 1) * c2 < pow10(39)) by (nonlinear_arith)
                    requires
                        c2 <= u64::MAX,
                        pow10(39) == 1_000_000_000_000_000_000_000_000_000_000_000_000_000,
                ;
                assert(((u64::MAX + 1) * c2) / (c2 as int) <= v) by {
                    vstd::arithmetic::div_mod::lemma_div_is_ordered(
                        (u64::MAX + 1) * c2,
                        c1 as int * pow10(p as nat),
                        c2 as int,
                    );
                }
                vstd::arithmetic::div_mod::lemma_div_by_multiple(u64::MAX as int + 1, c2 as int);
            }
            return Err(PerpetualsError::MathOverflow);
        }
        let f: u128 = pow10_u128(p as u32);
        proof {
            lemma_pow10_pos(p as nat);
            lemma_pow10_values();
            lemma_pow10_increases(p as nat, 38);
        }
        match (c1 as u128).checked_mul(f) {
            Some(n) => {
                let quot: u128 = n / (c2 as u128);
                if quot <= u64::MAX as u128 {
                    Ok(quot as u64)
                } else {
                    Err(PerpetualsError::MathOverflow)
                }
            },
            None => {
                // The true scaled dividend exceeds u128::MAX, so the
                // quotient exceeds (u128::MAX + 1) / c2 > u64::MAX.
                proof {
                    let n_true = c1 as int * pow10(p as nat);
                    assert((u64::MAX + 1) * c2 <= u128::MAX) by (nonlinear_arith)
                        requires
                            c2 <= u64::MAX,
                    ;
                    assert(((u64::MAX + 1) * c2) / (c2 as int) <= v) by {
                        vstd::arithmetic::div_mod::lemma_div_is_ordered(
                            (u64::MAX + 1) * c2,
                            n_true,
                            c2 as int,
                        );
                    }
                    vstd::arithmetic::div_mod::lemma_div_by_multiple(
                        u64::MAX as int + 1,
                        c2 as int,
                    );
                }
                Err(PerpetualsError::MathOverflow)
            },
        }
    } else {
        let q: i64 = -p;
        if q > 38 {
            // The scaled divisor is at least 10^39 > c1, so the quotient
            // is zero.
            proof {
                lemma_pow10_values();
                lemma_pow10_increases(39, q as nat);
                assert(c2 as int * pow10(q as nat) >= pow10(39)) by (nonlinear_arith)
                    requires
                        c2 >= 1,
                        pow10(q as nat) >= pow10(39) >= 0,
                ;
                vstd::arithmetic::div_mod::lemma_basic_div(
                    c1 as int,
                    c2 as int * pow10(q as nat),
                );
            }
            return Ok(0);
        }
        let g: u128 = pow10_u128(q as u32);
        proof {
            lemma_pow10_pos(q as nat);
        }
        match (c2 as u128).checked_mul(g) {
            Some(d) => {
                proof {
                    assert(c2 as int * pow10(q as nat) >= 1) by (nonlinear_arith)
                        requires
                            c2 >= 1,
                            pow10(q as nat) >= 1,
                    ;
                }
                let quot: u128 = (c1 as u128) / d;
                proof {
                    vstd::arithmetic::div_mod::lemma_div_nonincreasing(c1 as int, d as int);
                    vstd::arithmetic::div_mod::lemma_div_pos_is_pos(c1 as int, d as int);
                }
                Ok(quot as u64)
            },
            None => {
                // The true scaled divisor exceeds u128::MAX > c1, so the
                // quotient is zero.
                proof {
                    vstd::arithmetic::div_mod::lemma_basic_div(
                        c1 as int,
                        c2 as int * pow10(q as nat),
                    );
                }
                Ok(0)
            },
        }
    }
}

/// Ten to the power `e` as a `u128`, for exponents the caller has
/// already bounded.
fn pow10_u128(e: u32) -> (r: u128)
    requires
        e <= 38,
    ensures
        r == pow10(e as nat),
{
    let mut acc: u128 = 1;
    let mut i: u32 = 0;
    while i < e
        invariant
            i <= e <= 38,
            acc == pow10(i as nat),
        decreases e - i,
    {
        proof {
            lemma_pow10_increases(i as nat + 1, 38);
            lemma_pow10_values();
        }
        acc = acc * 10;
        i = i + 1;
    }
    acc
}

} // verus!
