use hakata_perpetuals::constants::BPS_DENOMINATOR;
use hakata_perpetuals::error::PerpetualsError;
use hakata_perpetuals::validation::{
    validate_amount_bounds, validate_leverage, validate_minimum_position_size,
    validate_oracle_confidence, validate_percentage_bps, validate_price,
    validate_timestamp_freshness, validate_token_ratio, validate_utilization,
};

#[test]
fn test_validate_percentage_bps() {
    // Valid percentages
    assert!(validate_percentage_bps(0).is_ok());
    assert!(validate_percentage_bps(5000).is_ok()); // 50%
    assert!(validate_percentage_bps(BPS_DENOMINATOR).is_ok()); // 100%

    // Invalid percentage
    assert!(validate_percentage_bps(BPS_DENOMINATOR + 1).is_err());
}

#[test]
fn test_validate_price() {
    // Valid prices
    assert!(validate_price(1).is_ok());
    assert!(validate_price(1000000).is_ok());

    // Invalid price
    assert!(validate_price(0).is_err());
}

#[test]
fn test_validate_amount_bounds() {
    // Valid amounts
    assert!(validate_amount_bounds(500, 100, 1000).is_ok());
    assert!(validate_amount_bounds(100, 100, 1000).is_ok()); // Min boundary
    assert!(validate_amount_bounds(1000, 100, 1000).is_ok()); // Max boundary

    // Invalid amounts
    assert!(validate_amount_bounds(50, 100, 1000).is_err()); // Below min
    assert!(validate_amount_bounds(1500, 100, 1000).is_err()); // Above max
}

#[test]
fn test_validate_error_variants() {
    assert_eq!(
        validate_percentage_bps(BPS_DENOMINATOR + 1),
        Err(PerpetualsError::InvalidPerpetualsConfig)
    );
    assert_eq!(
        validate_amount_bounds(5, 10, 20),
        Err(PerpetualsError::PositionAmountLimit)
    );
    assert_eq!(
        validate_leverage(100, 200, 300),
        Err(PerpetualsError::MaxLeverage)
    );
    assert_eq!(
        validate_oracle_confidence(1500, 1000),
        Err(PerpetualsError::InvalidOraclePrice)
    );
    assert_eq!(validate_price(0), Err(PerpetualsError::InvalidOraclePrice));
    assert_eq!(
        validate_token_ratio(50, 100, 200),
        Err(PerpetualsError::TokenRatioOutOfRange)
    );
    assert_eq!(
        validate_utilization(9000, 8000),
        Err(PerpetualsError::MaxUtilization)
    );
    assert_eq!(
        validate_minimum_position_size(5, 10),
        Err(PerpetualsError::PositionAmountLimit)
    );
}

#[test]
fn test_validate_ok_paths() {
    assert!(validate_leverage(200, 100, 300).is_ok());
    assert!(validate_oracle_confidence(500, 1000).is_ok());
    assert!(validate_token_ratio(150, 100, 200).is_ok());
    assert!(validate_utilization(5000, 8000).is_ok());
    assert!(validate_minimum_position_size(20, 10).is_ok());
}

#[test]
fn test_validate_timestamp_freshness() {
    // Fresh: one second old, sixty allowed
    assert!(validate_timestamp_freshness(999, 1000, 60).is_ok());
    // Exactly at the age limit
    assert!(validate_timestamp_freshness(940, 1000, 60).is_ok());
    // Too old
    assert_eq!(
        validate_timestamp_freshness(900, 1000, 60),
        Err(PerpetualsError::StaleOraclePrice)
    );
    // From the future
    assert_eq!(
        validate_timestamp_freshness(1001, 1000, 60),
        Err(PerpetualsError::StaleOraclePrice)
    );
}
