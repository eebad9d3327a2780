//! Reusable input-validation helpers.
//!
//! Each check either accepts its input or fails with the specific error
//! that callers surface; none of them mutates anything.

use vstd::prelude::*;
use crate::constants::BPS_DENOMINATOR;
use crate::error::PerpetualsError;

verus! {

/// Checks that a percentage in basis points is at most 100%.
pub fn validate_percentage_bps(percentage_bps: u64) -> (r: Result<(), PerpetualsError>)
    ensures
        percentage_bps <= BPS_DENOMINATOR ==> r == Ok::<(), PerpetualsError>(()),
        percentage_bps > BPS_DENOMINATOR ==> r == Err::<(), PerpetualsError>(
            PerpetualsError::InvalidPerpetualsConfig,
        ),
{
    if percentage_bps <= BPS_DENOMINATOR {
        Ok(())
    } else {
        Err(PerpetualsError::InvalidPerpetualsConfig)
    }
}

/// Checks that a timestamp is not in the future and not older than
/// `max_age_seconds` relative to `current_time`.
pub fn validate_timestamp_freshness(timestamp: i64, current_time: i64, max_age_seconds: u64) -> (r:
    Result<(), PerpetualsError>)
    ensures
        timestamp <= current_time && current_time - timestamp <= max_age_seconds ==> r == Ok::<
            (),
            PerpetualsError,
        >(()),
        !(timestamp <= current_time && current_time - timestamp <= max_age_seconds) ==> r == Err::<
            (),
            PerpetualsError,
        >(PerpetualsError::StaleOraclePrice),
{
    if timestamp > current_time {
        return Err(PerpetualsError::StaleOraclePrice);
    }
    let age: i128 = current_time as i128 - timestamp as i128;
    if age <= max_age_seconds as i128 {
        Ok(())
    } else {
        Err(PerpetualsError::StaleOraclePrice)
    }
}

/// Checks that an amount lies within inclusive bounds.
pub fn validate_amount_bounds(amount: u64, min_amount: u64, max_amount: u64) -> (r: Result<
    (),
    PerpetualsError,
>)
    ensures
        min_amount <= amount <= max_amount ==> r == Ok::<(), PerpetualsError>(()),
        !(min_amount <= amount <= max_amount) ==> r == Err::<(), PerpetualsError>(
            PerpetualsError::PositionAmountLimit,
        ),
{
    if amount >= min_amount && amount <= max_amount {
        Ok(())
    } else {
        Err(PerpetualsError::PositionAmountLimit)
    }
}

/// Checks that a leverage in basis points lies within inclusive bounds.
pub fn validate_leverage(leverage_bps: u64, min_leverage_bps: u64, max_leverage_bps: u64) -> (r:
    Result<(), PerpetualsError>)
    ensures
        min_leverage_bps <= leverage_bps <= max_leverage_bps ==> r == Ok::<(), PerpetualsError>(()),
        !(min_leverage_bps <= leverage_bps <= max_leverage_bps) ==> r == Err::<
            (),
            PerpetualsError,
        >(PerpetualsError::MaxLeverage),
{
    if leverage_bps >= min_leverage_bps && leverage_bps <= max_leverage_bps {
        Ok(())
    } else {
        Err(PerpetualsError::MaxLeverage)
    }
}

/// Checks that an oracle confidence (basis points) does not exceed the
/// allowed maximum.
pub fn validate_oracle_confidence(confidence_bps: u64, max_confidence_bps: u64) -> (r: Result<
    (),
    PerpetualsError,
>)
    ensures
        confidence_bps <= max_confidence_bps ==> r == Ok::<(), PerpetualsError>(()),
        confidence_bps > max_confidence_bps ==> r == Err::<(), PerpetualsError>(
            PerpetualsError::InvalidOraclePrice,
        ),
{
    if confidence_bps <= max_confidence_bps {
        Ok(())
    } else {
        Err(PerpetualsError::InvalidOraclePrice)
    }
}

/// Checks that a price is positive.
pub fn validate_price(price: u64) -> (r: Result<(), PerpetualsError>)
    ensures
        price > 0 ==> r == Ok::<(), PerpetualsError>(()),
        price == 0 ==> r == Err::<(), PerpetualsError>(PerpetualsError::InvalidOraclePrice),
{
    if price > 0 {
        Ok(())
    } else {
        Err(PerpetualsError::InvalidOraclePrice)
    }
}

/// Checks that a token ratio in basis points lies within inclusive bounds.
pub fn validate_token_ratio(current_ratio_bps: u64, min_ratio_bps: u64, max_ratio_bps: u64) -> (r:
    Result<(), PerpetualsError>)
    ensures
        min_ratio_bps <= current_ratio_bps <= max_ratio_bps ==> r == Ok::<(), PerpetualsError>(()),
        !(min_ratio_bps <= current_ratio_bps <= max_ratio_bps) ==> r == Err::<
            (),
            PerpetualsError,
        >(PerpetualsError::TokenRatioOutOfRange),
{
    if current_ratio_bps >= min_ratio_bps && current_ratio_bps <= max_ratio_bps {
        Ok(())
    } else {
        Err(PerpetualsError::TokenRatioOutOfRange)
    }
}

/// Checks that a utilization (basis points) does not exceed the allowed
/// maximum.
pub fn validate_utilization(utilization_bps: u64, max_utilization_bps: u64) -> (r: Result<
    (),
    PerpetualsError,
>)
    ensures
        utilization_bps <= max_utilization_bps ==> r == Ok::<(), PerpetualsError>(()),
        utilization_bps > max_utilization_bps ==> r == Err::<(), PerpetualsError>(
            PerpetualsError::MaxUtilization,
        ),
{
    if utilization_bps <= max_utilization_bps {
        Ok(())
    } else {
        Err(PerpetualsError::MaxUtilization)
    }
}

/// Checks that a position size meets the required minimum.
pub fn validate_minimum_position_size(position_size_usd: u64, min_position_size_usd: u64) -> (r:
    Result<(), PerpetualsError>)
    ensures
        position_size_usd >= min_position_size_usd ==> r == Ok::<(), PerpetualsError>(()),
        position_size_usd < min_position_size_usd ==> r == Err::<(), PerpetualsError>(
            PerpetualsError::PositionAmountLimit,
        ),
{
    if position_size_usd >= min_position_size_usd {
        Ok(())
    } else {
        Err(PerpetualsError::PositionAmountLimit)
    }
}

} // verus!
