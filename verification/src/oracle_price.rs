//! Fixed-point oracle prices: an integer mantissa times a power of ten.
//!
//! A price is `price * 10^exponent`. Prices arriving from different
//! sources carry different exponents, so every operation that combines
//! two prices first brings them to a common scale; nothing here ever
//! compares or combines raw mantissas at mismatched exponents. All
//! arithmetic is checked: a result that cannot be represented is a
//! [`PerpetualsError::MathOverflow`], never a wrapped or saturated value.

use vstd::prelude::*;
use core::cmp::Ordering;
use crate::constants::{ORACLE_EXPONENT_SCALE, ORACLE_MAX_PRICE, ORACLE_PRICE_SCALE, USD_DECIMALS};
use crate::error::PerpetualsError;
use crate::math;
use crate::math::{
    decimal_div_value, decimal_mul_value, lemma_pow10_adds, lemma_pow10_increases,
    lemma_pow10_pos, lemma_pow10_values, pow10,
};

verus! {

/// A price value: `price * 10^exponent`.
///
/// Equality derived here is structural (same mantissa and exponent);
/// equality of represented values across different exponents is
/// [`value_eq`].
#[derive(Clone, Copy, Debug, PartialEq, Eq, Structural)]
pub struct OraclePrice {
    pub price: u64,
    pub exponent: i32,
}

/// The smaller of the two exponents: the scale at which both mantissas
/// can be written exactly as integers.
pub open spec fn common_exponent(a: OraclePrice, b: OraclePrice) -> int {
    if a.exponent <= b.exponent {
        a.exponent as int
    } else {
        b.exponent as int
    }
}

/// The mantissa of `p` re-expressed at an exponent `m` no larger than
/// its own; exact, since lowering the exponent multiplies the mantissa.
pub open spec fn mantissa_at(p: OraclePrice, m: int) -> int
    recommends
        m <= p.exponent,
{
    p.price * pow10((p.exponent - m) as nat)
}

/// Strict order on represented values.
pub open spec fn value_lt(a: OraclePrice, b: OraclePrice) -> bool {
    mantissa_at(a, common_exponent(a, b)) < mantissa_at(b, common_exponent(a, b))
}

/// Equality of represented values; the mantissa/exponent pairs may differ.
pub open spec fn value_eq(a: OraclePrice, b: OraclePrice) -> bool {
    mantissa_at(a, common_exponent(a, b)) == mantissa_at(b, common_exponent(a, b))
}

/// Order of represented values, as an `Ordering`.
pub open spec fn value_cmp(a: OraclePrice, b: OraclePrice) -> Ordering {
    if value_lt(a, b) {
        Ordering::Less
    } else if value_eq(a, b) {
        Ordering::Equal
    } else {
        Ordering::Greater
    }
}

/// Whether bringing the two prices to their common exponent pushes a
/// mantissa past 64 bits; the comparison must fail then rather than
/// saturate.
pub open spec fn cmp_overflows(a: OraclePrice, b: OraclePrice) -> bool {
    mantissa_at(a, common_exponent(a, b)) > u64::MAX || mantissa_at(
        b,
        common_exponent(a, b),
    ) > u64::MAX
}

/// `p` represents at most exactly 1.0 in its own exponent.
pub open spec fn value_at_most_one(p: OraclePrice) -> bool {
    if p.exponent <= 0 {
        p.price <= pow10((-p.exponent) as nat)
    } else {
        p.price == 0
    }
}

/// Number of divisions by ten needed to bring a mantissa under the
/// normalization ceiling [`ORACLE_MAX_PRICE`].
pub open spec fn normalize_steps(p: int) -> nat
    recommends
        p >= 0,
    decreases p,
{
    if p <= ORACLE_MAX_PRICE {
        0
    } else {
        1 + normalize_steps(p / 10)
    }
}

/// Mantissa of `p` after normalization.
pub open spec fn norm_price(p: OraclePrice) -> int {
    p.price as int / pow10(normalize_steps(p.price as int))
}

/// Exponent of `p` after normalization; may exceed the i32 range, in
/// which case normalizing fails.
pub open spec fn norm_exponent(p: OraclePrice) -> int {
    p.exponent + normalize_steps(p.price as int)
}

/// Dividing by ten `normalize_steps` times indeed lands under the ceiling.
pub proof fn lemma_normalized_under_ceiling(p: int)
    requires
        p >= 0,
    ensures
        p / pow10(normalize_steps(p)) <= ORACLE_MAX_PRICE,
    decreases p,
{
    if p <= ORACLE_MAX_PRICE {
        assert(pow10(0) == 1);
    } else {
        let k = normalize_steps(p / 10);
        lemma_normalized_under_ceiling(p / 10);
        lemma_pow10_pos(k);
        vstd::arithmetic::div_mod::lemma_div_denominator(p, 10, pow10(k));
        assert(10 * pow10(k) == pow10(k + 1));
    }
}

/// Multiplies a mantissa by ten to the `delta` when the product still
/// fits in 64 bits; fails otherwise.
fn scale_mantissa_up(m: u64, delta: u64) -> (r: Result<u64, PerpetualsError>)
    ensures
        m * pow10(delta as nat) <= u64::MAX ==> r == Ok::<u64, PerpetualsError>(
            (m * pow10(delta as nat)) as u64,
        ),
        m * pow10(delta as nat) > u64::MAX ==> r == Err::<u64, PerpetualsError>(
            PerpetualsError::MathOverflow,
        ),
{
    if m == 0 {
        proof {
            lemma_pow10_pos(delta as nat);
            assert(m * pow10(delta as nat) == 0) by (nonlinear_arith)
                requires
                    m == 0,
            ;
        }
        return Ok(0);
    }
    if delta > 19 {
        proof {
            lemma_pow10_values();
            lemma_pow10_increases(20, delta as nat);
            assert(m * pow10(delta as nat) >= 1 * pow10(delta as nat)) by (nonlinear_arith)
                requires
                    m >= 1,
                    pow10(delta as nat) >= 0,
            ;
        }
        return Err(PerpetualsError::MathOverflow);
    }
    proof {
        lemma_pow10_values();
        lemma_pow10_increases(delta as nat, 19);
        lemma_pow10_pos(delta as nat);
    }
    let f = match math::checked_pow10(delta as u32) {
        Ok(f) => f,
        Err(e) => {
            return Err(e);
        },
    };
    proof {
        assert(f == pow10(delta as nat));
    }
    math::checked_mul(m, f)
}

impl OraclePrice {
    /// Builds a price from a raw mantissa/exponent pair.
    pub fn new(price: u64, exponent: i32) -> (r: Self)
        ensures
            r == (OraclePrice { price, exponent }),
    {
        Self { price, exponent }
    }

    /// Builds a price from a token amount and its decimal count: the
    /// amount becomes the mantissa and the decimals the negated exponent.
    pub fn new_from_token(amount_and_decimals: (u64, u8)) -> (r: Self)
        ensures
            r.price == amount_and_decimals.0,
            r.exponent == -(amount_and_decimals.1 as int),
    {
        Self { price: amount_and_decimals.0, exponent: -(amount_and_decimals.1 as i32) }
    }

    /// Compares two prices by represented value. The mantissa of the
    /// operand with the larger exponent is brought down to the common
    /// exponent by an exact multiplication; if that multiplication
    /// overflows 64 bits the comparison fails rather than saturates.
    pub fn checked_cmp(&self, other: &OraclePrice) -> (r: Result<Ordering, PerpetualsError>)
        ensures
            !cmp_overflows(*self, *other) ==> r == Ok::<Ordering, PerpetualsError>(
                value_cmp(*self, *other),
            ),
            cmp_overflows(*self, *other) ==> r == Err::<Ordering, PerpetualsError>(
                PerpetualsError::MathOverflow,
            ),
    {
        let ghost m = common_exponent(*self, *other);
        proof {
            assert(pow10(0) == 1);
            vstd::arithmetic::mul::lemma_mul_basics(self.price as int);
            vstd::arithmetic::mul::lemma_mul_basics(other.price as int);
            if self.exponent <= other.exponent {
                assert(mantissa_at(*self, m) == self.price);
            } else {
                assert(mantissa_at(*other, m) == other.price);
            }
        }
        if self.exponent == other.exponent {
            if self.price < other.price {
                Ok(Ordering::Less)
            } else if self.price == other.price {
                Ok(Ordering::Equal)
            } else {
                Ok(Ordering::Greater)
            }
        } else if self.exponent < other.exponent {
            let delta = (other.exponent as i64) - (self.exponent as i64);
            proof {
                assert(delta as u64 as nat == (other.exponent - m) as nat);
            }
            let scaled = match scale_mantissa_up(other.price, delta as u64) {
                Ok(s) => s,
                Err(e) => {
                    return Err(e);
                },
            };
            proof {
                lemma_pow10_pos((other.exponent - m) as nat);
                vstd::arithmetic::mul::lemma_mul_nonnegative(
                    other.price as int,
                    pow10((other.exponent - m) as nat),
                );
                assert(scaled == mantissa_at(*other, m));
            }
            if self.price < scaled {
                Ok(Ordering::Less)
            } else if self.price == scaled {
                Ok(Ordering::Equal)
            } else {
                Ok(Ordering::Greater)
            }
        } else {
            let delta = (self.exponent as i64) - (other.exponent as i64);
            proof {
                assert(delta as u64 as nat == (self.exponent - m) as nat);
            }
            let scaled = match scale_mantissa_up(self.price, delta as u64) {
                Ok(s) => s,
                Err(e) => {
                    return Err(e);
                },
            };
            proof {
                lemma_pow10_pos((self.exponent - m) as nat);
                vstd::arithmetic::mul::lemma_mul_nonnegative(
                    self.price as int,
                    pow10((self.exponent - m) as nat),
                );
                assert(scaled == mantissa_at(*self, m));
            }
            if scaled < other.price {
                Ok(Ordering::Less)
            } else if scaled == other.price {
                Ok(Ordering::Equal)
            } else {
                Ok(Ordering::Greater)
            }
        }
    }

    /// Converts a token amount with the given decimal count into a
    /// quote amount carrying [`USD_DECIMALS`] implied decimals, using
    /// this price. Returns zero at once when either the amount or the
    /// price mantissa is zero.
    pub fn get_asset_amount_usd(&self, token_amount: u64, token_decimals: u8) -> (r: Result<
        u64,
        PerpetualsError,
    >)
        ensures
            token_amount == 0 || self.price == 0 ==> r == Ok::<u64, PerpetualsError>(0u64),
            token_amount != 0 && self.price != 0 ==> ({
                let v = decimal_mul_value(
                    token_amount,
                    -(token_decimals as int),
                    self.price,
                    self.exponent as int,
                    -(USD_DECIMALS as int),
                );
                &&& v <= u64::MAX ==> r == Ok::<u64, PerpetualsError>(v as u64)
                &&& v > u64::MAX ==> r == Err::<u64, PerpetualsError>(PerpetualsError::MathOverflow)
            }),
    {
        if token_amount == 0 || self.price == 0 {
            return Ok(0);
        }
        math::checked_decimal_mul(
            token_amount,
            -(token_decimals as i32),
            self.price,
            self.exponent,
            -(USD_DECIMALS as i32),
        )
    }

    /// Converts a quote amount carrying [`USD_DECIMALS`] implied decimals
    /// into a token amount with the given decimal count, using this
    /// price. Returns zero at once when either the amount or the price
    /// mantissa is zero.
    pub fn get_token_amount(&self, asset_amount_usd: u64, token_decimals: u8) -> (r: Result<
        u64,
        PerpetualsError,
    >)
        ensures
            asset_amount_usd == 0 || self.price == 0 ==> r == Ok::<u64, PerpetualsError>(0u64),
            asset_amount_usd != 0 && self.price != 0 ==> ({
                let v = decimal_div_value(
                    asset_amount_usd,
                    -(USD_DECIMALS as int),
                    self.price,
                    self.exponent as int,
                    -(token_decimals as int),
                );
                &&& v <= u64::MAX ==> r == Ok::<u64, PerpetualsError>(v as u64)
                &&& v > u64::MAX ==> r == Err::<u64, PerpetualsError>(PerpetualsError::MathOverflow)
            }),
    {
        if asset_amount_usd == 0 || self.price == 0 {
            return Ok(0);
        }
        math::checked_decimal_div(
            asset_amount_usd,
            -(USD_DECIMALS as i32),
            self.price,
            self.exponent,
            -(token_decimals as i32),
        )
    }

    /// Multiplies two prices: mantissas multiply and exponents add.
    /// The caller is responsible for normalizing afterwards if the
    /// product may exceed the mantissa ceiling.
    pub fn checked_mul(&self, other: &OraclePrice) -> (r: Result<OraclePrice, PerpetualsError>)
        ensures
            ({
                let pprod = self.price * other.price;
                let esum = self.exponent + other.exponent;
                &&& pprod <= u64::MAX && i32::MIN <= esum <= i32::MAX ==> r == Ok::<
                    OraclePrice,
                    PerpetualsError,
                >((OraclePrice { price: pprod as u64, exponent: esum as i32 }))
                &&& !(pprod <= u64::MAX && i32::MIN <= esum <= i32::MAX) ==> r == Err::<
                    OraclePrice,
                    PerpetualsError,
                >(PerpetualsError::MathOverflow)
            }),
    {
        let price = match math::checked_mul(self.price, other.price) {
            Ok(p) => p,
            Err(e) => {
                return Err(e);
            },
        };
        let exponent = match math::checked_add_i32(self.exponent, other.exponent) {
            Ok(s) => s,
            Err(e) => {
                return Err(e);
            },
        };
        Ok(OraclePrice { price, exponent })
    }

    /// Rescales the price so that the mantissa is at most
    /// [`ORACLE_MAX_PRICE`], dividing by ten and raising the exponent as
    /// often as needed; the exponent only ever grows. Fails when the
    /// raised exponent no longer fits in 32 bits.
    pub fn normalize(&self) -> (r: Result<OraclePrice, PerpetualsError>)
        ensures
            norm_exponent(*self) <= i32::MAX ==> r == Ok::<OraclePrice, PerpetualsError>(
                (OraclePrice {
                    price: norm_price(*self) as u64,
                    exponent: norm_exponent(*self) as i32,
                }),
            ),
            norm_exponent(*self) > i32::MAX ==> r == Err::<OraclePrice, PerpetualsError>(
                PerpetualsError::MathOverflow,
            ),
    {
        let mut p: u64 = self.price;
        let mut e: i32 = self.exponent;
        proof {
            assert(pow10(0) == 1);
        }
        while p > ORACLE_MAX_PRICE
            invariant
                e >= self.exponent,
                p == self.price as int / pow10((e - self.exponent) as nat),
                normalize_steps(self.price as int) == (e - self.exponent)
                    + normalize_steps(p as int),
            decreases p,
        {
            if e == i32::MAX {
                proof {
                    assert(normalize_steps(p as int) >= 1);
                }
                return Err(PerpetualsError::MathOverflow);
            }
            proof {
                let done = (e - self.exponent) as nat;
                lemma_pow10_pos(done);
                vstd::arithmetic::div_mod::lemma_div_denominator(
                    self.price as int,
                    pow10(done),
                    10,
                );
                assert(pow10(done) * 10 == pow10(done + 1)) by {
                    lemma_pow10_adds(done, 1);
                    assert(pow10(1) == 10) by {
                        reveal_with_fuel(pow10, 2);
                    }
                }
            }
            p = p / 10;
            e = e + 1;
        }
        Ok(OraclePrice { price: p, exponent: e })
    }

    /// Divides this price by `other`: both operands are normalized
    /// first, the dividend mantissa is scaled by [`ORACLE_PRICE_SCALE`]
    /// to preserve precision through the integer division, and the
    /// scale's exponent is folded into the result exponent. Fails on a
    /// zero divisor and on any intermediate overflow.
    pub fn checked_div(&self, other: &OraclePrice) -> (r: Result<OraclePrice, PerpetualsError>)
        ensures
            ({
                let np1 = norm_price(*self);
                let ne1 = norm_exponent(*self);
                let np2 = norm_price(*other);
                let ne2 = norm_exponent(*other);
                let ok = ne1 <= i32::MAX && ne2 <= i32::MAX && np2 != 0 && i32::MIN <= ne1
                    + ORACLE_EXPONENT_SCALE <= i32::MAX && i32::MIN <= ne1 + ORACLE_EXPONENT_SCALE
                    - ne2 <= i32::MAX;
                &&& ok ==> r == Ok::<OraclePrice, PerpetualsError>(
                    (OraclePrice {
                        price: ((np1 * ORACLE_PRICE_SCALE) / np2) as u64,
                        exponent: (ne1 + ORACLE_EXPONENT_SCALE - ne2) as i32,
                    }),
                )
                &&& !ok ==> r == Err::<OraclePrice, PerpetualsError>(PerpetualsError::MathOverflow)
            }),
    {
        let base = match self.normalize() {
            Ok(b) => b,
            Err(e) => {
                return Err(e);
            },
        };
        let divisor = match other.normalize() {
            Ok(d) => d,
            Err(e) => {
                return Err(e);
            },
        };
        proof {
            lemma_normalized_under_ceiling(self.price as int);
            lemma_pow10_pos(normalize_steps(self.price as int));
            vstd::arithmetic::div_mod::lemma_div_pos_is_pos(
                self.price as int,
                pow10(normalize_steps(self.price as int)),
            );
            lemma_pow10_pos(normalize_steps(other.price as int));
            vstd::arithmetic::div_mod::lemma_div_pos_is_pos(
                other.price as int,
                pow10(normalize_steps(other.price as int)),
            );
            vstd::arithmetic::div_mod::lemma_div_nonincreasing(
                other.price as int,
                pow10(normalize_steps(other.price as int)),
            );
            assert(base.price == norm_price(*self));
            assert(divisor.price == norm_price(*other));
            assert(0 <= base.price * ORACLE_PRICE_SCALE <= u64::MAX);
        }
        let scaled = match math::checked_mul(base.price, ORACLE_PRICE_SCALE) {
            Ok(s) => s,
            Err(e) => {
                return Err(e);
            },
        };
        let price = match math::checked_div(scaled, divisor.price) {
            Ok(p) => p,
            Err(e) => {
                return Err(e);
            },
        };
        let shifted = match math::checked_add_i32(base.exponent, ORACLE_EXPONENT_SCALE) {
            Ok(s) => s,
            Err(e) => {
                return Err(e);
            },
        };
        let exponent = match math::checked_sub_i32(shifted, divisor.exponent) {
            Ok(d) => d,
            Err(e) => {
                return Err(e);
            },
        };
        Ok(OraclePrice { price, exponent })
    }

    /// Re-expresses the price at `target_exponent`. Raising the exponent
    /// divides the mantissa, deliberately truncating trailing digits;
    /// lowering it multiplies the mantissa exactly and fails on
    /// overflow.
    pub fn scale_to_exponent(&self, target_exponent: i32) -> (r: Result<
        OraclePrice,
        PerpetualsError,
    >)
        ensures
            target_exponent == self.exponent ==> r == Ok::<OraclePrice, PerpetualsError>(*self),
            target_exponent != self.exponent ==> ({
                let delta = target_exponent - self.exponent;
                &&& !(i32::MIN <= delta <= i32::MAX) ==> r == Err::<OraclePrice, PerpetualsError>(
                    PerpetualsError::MathOverflow,
                )
                &&& i32::MIN <= delta <= i32::MAX && delta > 0 ==> ({
                    &&& pow10(delta as nat) > u64::MAX ==> r == Err::<OraclePrice, PerpetualsError>(
                        PerpetualsError::MathOverflow,
                    )
                    &&& pow10(delta as nat) <= u64::MAX ==> r == Ok::<OraclePrice, PerpetualsError>(
                        (OraclePrice {
                            price: (self.price as int / pow10(delta as nat)) as u64,
                            exponent: target_exponent,
                        }),
                    )
                })
                &&& i32::MIN <= delta <= i32::MAX && delta < 0 ==> ({
                    let mag = (-delta) as nat;
                    &&& pow10(mag) > u64::MAX ==> r == Err::<OraclePrice, PerpetualsError>(
                        PerpetualsError::MathOverflow,
                    )
                    &&& pow10(mag) <= u64::MAX && self.price * pow10(mag) > u64::MAX ==> r == Err::<
                        OraclePrice,
                        PerpetualsError,
                    >(PerpetualsError::MathOverflow)
                    &&& pow10(mag) <= u64::MAX && self.price * pow10(mag) <= u64::MAX ==> r == Ok::<
                        OraclePrice,
                        PerpetualsError,
                    >(
                        (OraclePrice {
                            price: (self.price * pow10(mag)) as u64,
                            exponent: target_exponent,
                        }),
                    )
                })
            }),
    {
        if target_exponent == self.exponent {
            return Ok(*self);
        }
        let delta = match math::checked_sub_i32(target_exponent, self.exponent) {
            Ok(d) => d,
            Err(e) => {
                return Err(e);
            },
        };
        if delta > 0 {
            proof {
                lemma_pow10_pos(delta as nat);
            }
            let f = match math::checked_pow10(delta as u32) {
                Ok(f) => f,
                Err(e) => {
                    return Err(e);
                },
            };
            proof {
                assert(f == pow10(delta as nat));
                vstd::arithmetic::div_mod::lemma_div_pos_is_pos(self.price as int, f as int);
                vstd::arithmetic::div_mod::lemma_div_nonincreasing(self.price as int, f as int);
            }
            let price = match math::checked_div(self.price, f) {
                Ok(p) => p,
                Err(e) => {
                    return Err(e);
                },
            };
            Ok(OraclePrice { price, exponent: target_exponent })
        } else {
            let mag: i64 = -(delta as i64);
            proof {
                lemma_pow10_pos(mag as nat);
                assert(mag as u32 as nat == (-(delta as int)) as nat);
            }
            let f = match math::checked_pow10(mag as u32) {
                Ok(f) => f,
                Err(e) => {
                    return Err(e);
                },
            };
            proof {
                assert(f == pow10(mag as nat));
            }
            let price = match math::checked_mul(self.price, f) {
                Ok(p) => p,
                Err(e) => {
                    return Err(e);
                },
            };
            Ok(OraclePrice { price, exponent: target_exponent })
        }
    }

    /// Returns the numerically smaller of the two prices. For a pegged
    /// (stable) asset the minimum is additionally clamped so that it
    /// never represents more than exactly 1.0: a degenerate reading with
    /// a positive exponent and nonzero mantissa is replaced by a pinned
    /// one-unit sentinel, and a mantissa above 1.0 at its own exponent
    /// is cut down to exactly 1.0.
    pub fn get_min_price(&self, other: &OraclePrice, is_stable: bool) -> (r: Result<
        OraclePrice,
        PerpetualsError,
    >)
        ensures
            cmp_overflows(*self, *other) ==> r == Err::<OraclePrice, PerpetualsError>(
                PerpetualsError::MathOverflow,
            ),
            !cmp_overflows(*self, *other) ==> ({
                let m = if value_lt(*self, *other) {
                    *self
                } else {
                    *other
                };
                &&& !is_stable ==> r == Ok::<OraclePrice, PerpetualsError>(m)
                &&& is_stable && m.exponent > 0 && m.price == 0 ==> r == Ok::<
                    OraclePrice,
                    PerpetualsError,
                >(m)
                &&& is_stable && m.exponent > 0 && m.price != 0 ==> r == Ok::<
                    OraclePrice,
                    PerpetualsError,
                >((OraclePrice { price: 1_000_000u64, exponent: -6i32 }))
                &&& is_stable && m.exponent <= 0 ==> ({
                    let one = pow10((-m.exponent) as nat);
                    &&& one > u64::MAX ==> r == Err::<OraclePrice, PerpetualsError>(
                        PerpetualsError::MathOverflow,
                    )
                    &&& one <= u64::MAX && m.price > one ==> r == Ok::<OraclePrice, PerpetualsError>(
                        (OraclePrice { price: one as u64, exponent: m.exponent }),
                    )
                    &&& one <= u64::MAX && m.price <= one ==> r == Ok::<
                        OraclePrice,
                        PerpetualsError,
                    >(m)
                })
            }),
            is_stable && r is Ok ==> value_at_most_one(r->Ok_0),
    {
        let ord = match self.checked_cmp(other) {
            Ok(o) => o,
            Err(e) => {
                return Err(e);
            },
        };
        let min_price = match ord {
            Ordering::Less => *self,
            _ => *other,
        };
        proof {
            lemma_pow10_values();
            assert(min_price == if value_lt(*self, *other) {
                *self
            } else {
                *other
            });
        }
        if is_stable {
            if min_price.exponent > 0 {
                if min_price.price == 0 {
                    Ok(min_price)
                } else {
                    Ok(OraclePrice { price: 1_000_000, exponent: -6 })
                }
            } else {
                let mag: i64 = -(min_price.exponent as i64);
                proof {
                    lemma_pow10_pos(mag as nat);
                    assert(mag as u32 as nat == (-(min_price.exponent as int)) as nat);
                }
                let one_usd = match math::checked_pow10(mag as u32) {
                    Ok(o) => o,
                    Err(e) => {
                        return Err(e);
                    },
                };
                proof {
                    assert(one_usd == pow10((-(min_price.exponent as int)) as nat));
                }
                if min_price.price > one_usd {
                    Ok(OraclePrice { price: one_usd, exponent: min_price.exponent })
                } else {
                    Ok(min_price)
                }
            }
        } else {
            Ok(min_price)
        }
    }
}

/// Exponent invariance of the comparison: rescaling both prices by the
/// same exact exponent shift `k` — mantissas multiplied by `10^(-k)`,
/// exponents lowered by `-k`, which leaves both represented values
/// unchanged — does not change the value order. The shift is restricted
/// to `k <= 0`: raising an exponent divides the mantissa and truncates,
/// so it does not preserve values. That the shifted mantissas are given
/// as prices encodes that no overflow occurred.
pub proof fn lemma_compare_exponent_invariance(
    a: OraclePrice,
    b: OraclePrice,
    k: int,
    a2: OraclePrice,
    b2: OraclePrice,
)
    requires
        k <= 0,
        a2.exponent == a.exponent + k,
        a2.price == a.price * pow10((-k) as nat),
        b2.exponent == b.exponent + k,
        b2.price == b.price * pow10((-k) as nat),
    ensures
        value_cmp(a2, b2) == value_cmp(a, b),
{
    let m = common_exponent(a, b);
    let m2 = common_exponent(a2, b2);
    let f = pow10((-k) as nat);
    lemma_pow10_pos((-k) as nat);
    assert(m2 == m + k);
    let ea = (a.exponent - m) as nat;
    let eb = (b.exponent - m) as nat;
    let ma = mantissa_at(a, m);
    let mb = mantissa_at(b, m);
    assert(mantissa_at(a2, m2) == ma * f) by (nonlinear_arith)
        requires
            mantissa_at(a2, m2) == (a.price * f) * pow10(ea),
            ma == a.price * pow10(ea),
    ;
    assert(mantissa_at(b2, m2) == mb * f) by (nonlinear_arith)
        requires
            mantissa_at(b2, m2) == (b.price * f) * pow10(eb),
            mb == b.price * pow10(eb),
    ;
    assert((ma * f < mb * f) == (ma < mb)) by (nonlinear_arith)
        requires
            f >= 1,
    ;
    assert((ma * f == mb * f) == (ma == mb)) by (nonlinear_arith)
        requires
            f >= 1,
    ;
}

/// Round-trip conversion: quoting a token amount at a positive price
/// and converting the quote amount back yields the original amount up
/// to at most one token unit lost to truncation — and exactly the
/// original amount when the outbound conversion truncates nothing.
///
/// Writing `q` for `token_decimals - USD_DECIMALS - exponent`, the
/// outbound conversion truncates only when `q > 0`, and the one-unit
/// bound holds provided one token unit is worth at least one quote unit
/// (`10^q <= price`); without that, several token units can collapse
/// into the same quote amount and the difference can exceed one unit.
pub proof fn lemma_round_trip_conversion(t: u64, token_decimals: u8, p: OraclePrice)
    requires
        p.price >= 1,
        decimal_mul_value(
            t,
            -(token_decimals as int),
            p.price,
            p.exponent as int,
            -(USD_DECIMALS as int),
        ) <= u64::MAX,
        token_decimals as int - USD_DECIMALS as int - p.exponent > 0 ==> pow10(
            (token_decimals as int - USD_DECIMALS as int - p.exponent) as nat,
        ) <= p.price,
    ensures
        ({
            let u = decimal_mul_value(
                t,
                -(token_decimals as int),
                p.price,
                p.exponent as int,
                -(USD_DECIMALS as int),
            );
            let rt = decimal_div_value(
                u as u64,
                -(USD_DECIMALS as int),
                p.price,
                p.exponent as int,
                -(token_decimals as int),
            );
            &&& t - 1 <= rt <= t
            &&& token_decimals as int - USD_DECIMALS as int - p.exponent <= 0 ==> rt == t
        }),
{
    let d = token_decimals as int;
    let e = p.exponent as int;
    let pp = p.price as int;
    let q = d - USD_DECIMALS as int - e;
    let u = decimal_mul_value(
        t,
        -(token_decimals as int),
        p.price,
        p.exponent as int,
        -(USD_DECIMALS as int),
    );
    if q <= 0 {
        let g = pow10((-q) as nat);
        lemma_pow10_pos((-q) as nat);
        assert(u == (t * pp) * g);
        assert(u == t * (pp * g)) by (nonlinear_arith)
            requires
                u == (t * pp) * g,
        ;
        assert(pp * g >= 1) by (nonlinear_arith)
            requires
                pp >= 1,
                g >= 1,
        ;
        assert(u >= 0) by (nonlinear_arith)
            requires
                u == t * (pp * g),
                t >= 0,
                pp * g >= 1,
        ;
        assert(u as u64 as int == u);
        let rt = decimal_div_value(
            u as u64,
            -(USD_DECIMALS as int),
            p.price,
            p.exponent as int,
            -(token_decimals as int),
        );
        if q == 0 {
            assert(rt == (u * pow10(0)) / pp);
            assert(u * 1 == u) by (nonlinear_arith);
            assert((t * pp) * 1 == pp * t) by (nonlinear_arith);
            vstd::arithmetic::div_mod::lemma_div_by_multiple(t as int, pp);
        } else {
            assert(rt == u / (pp * g));
            vstd::arithmetic::div_mod::lemma_div_by_multiple(t as int, pp * g);
            assert((pp * g) * t == t * (pp * g)) by (nonlinear_arith);
        }
    } else {
        let g = pow10(q as nat);
        lemma_pow10_pos(q as nat);
        assert(u == (t * pp) / g);
        vstd::arithmetic::div_mod::lemma_div_pos_is_pos(t * pp, g);
        assert(t * pp >= 0) by (nonlinear_arith)
            requires
                t >= 0,
                pp >= 1,
        ;
        assert(u as u64 as int == u);
        let rt = decimal_div_value(
            u as u64,
            -(USD_DECIMALS as int),
            p.price,
            p.exponent as int,
            -(token_decimals as int),
        );
        assert(rt == (u * g) / pp);
        vstd::arithmetic::div_mod::lemma_fundamental_div_mod(t * pp, g);
        vstd::arithmetic::div_mod::lemma_mod_division_less_than_divisor(t * pp, g);
        let s = (t * pp) % g;
        assert(0 <= s < g);
        assert(u * g == t * pp - s) by (nonlinear_arith)
            requires
                t * pp == g * u + s,
        ;
        // Upper bound: u * g <= t * pp, so rt <= (t * pp) / pp == t.
        vstd::arithmetic::div_mod::lemma_div_is_ordered(u * g, t * pp, pp);
        vstd::arithmetic::div_mod::lemma_div_by_multiple(t as int, pp);
        assert(pp * t == t * pp) by (nonlinear_arith);
        // Lower bound: s < g <= pp, so u * g > (t - 1) * pp and
        // rt >= ((t - 1) * pp) / pp == t - 1.
        if t == 0 {
            assert(u == 0) by {
                vstd::arithmetic::div_mod::lemma_basic_div(0, g);
                assert(t * pp == 0) by (nonlinear_arith)
                    requires
                        t == 0,
                ;
            }
            assert(u * g == 0) by (nonlinear_arith)
                requires
                    u == 0,
            ;
            vstd::arithmetic::div_mod::lemma_basic_div(0, pp);
        } else {
            assert((t - 1) * pp <= u * g) by (nonlinear_arith)
                requires
                    u * g == t * pp - s,
                    s < g <= pp,
            ;
            vstd::arithmetic::div_mod::lemma_div_is_ordered((t - 1) * pp, u * g, pp);
            vstd::arithmetic::div_mod::lemma_div_by_multiple(t as int - 1, pp);
            assert(pp * (t - 1) == (t - 1) * pp) by (nonlinear_arith);
        }
    }
}

} // verus!
