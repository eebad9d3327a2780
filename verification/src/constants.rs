//! Protocol-wide numeric constants.
//!
//! These are the only "global state" of the library, and all of it is
//! read-only: decimal-place counts, the oracle mantissa ceiling, and the
//! fixed scale used to keep precision through divisions.

use vstd::prelude::*;

verus! {

/// Exponent of the fixed scale applied before a price division.
pub const ORACLE_EXPONENT_SCALE: i32 = -9;

/// Fixed scale applied to a dividend before a price division; equals
/// ten to the negated [`ORACLE_EXPONENT_SCALE`].
pub const ORACLE_PRICE_SCALE: u64 = 1_000_000_000;

/// Ceiling for a normalized price mantissa: one less than two to the 28th.
/// Keeping mantissas under this bound leaves room for multiplication
/// without overflow.
pub const ORACLE_MAX_PRICE: u64 = 268_435_455;

/// Maximum age for oracle prices in seconds.
pub const ORACLE_MAXIMUM_AGE: u64 = 60;

/// Default confidence threshold for oracle prices, in basis points.
pub const ORACLE_CONFIDENCE_THRESHOLD_BPS: u64 = 1000;

/// Maximum staleness for exponentially averaged oracle prices, in seconds.
pub const EMA_ORACLE_MAX_STALENESS: u64 = 300;

/// Basis points denominator: 100% expressed in basis points.
pub const BPS_DENOMINATOR: u64 = 10000;

/// Default minimum position size in quote units (six implied decimals).
pub const MIN_POSITION_SIZE_USD: u64 = 10_000_000;

/// Number of implied decimal places for quote-currency amounts.
pub const USD_DECIMALS: u8 = 6;

/// Number of implied decimal places for basis-point quantities.
pub const BPS_DECIMALS: u8 = 4;

/// Number of implied decimal places for rate quantities.
pub const RATE_DECIMALS: u8 = 9;

/// Number of implied decimal places for price quantities.
pub const PRICE_DECIMALS: u8 = 6;

/// Seconds in a day.
pub const SECONDS_PER_DAY: i64 = 86_400;

/// Seconds in an hour.
pub const SECONDS_PER_HOUR: i64 = 3_600;

/// Seconds in a minute.
pub const SECONDS_PER_MINUTE: i64 = 60;

} // verus!
