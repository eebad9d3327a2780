use hakata_perpetuals::error::PerpetualsError;
use hakata_perpetuals::market_hours::{
    AssetType, Exchange, MarketSession, TradingDays, TradingHours, TradingOperation, NEVER_CLOSES,
};

/// Monday, 20 December 2021, 00:00:00 UTC. The weekday arithmetic maps
/// this timestamp to Monday, so offsets within the week land on the
/// weekday they name.
const MONDAY: i64 = 1_639_958_400;

#[test]
fn test_us_stock_trading_hours() {
    let trading_hours = TradingHours::us_stock();

    // Regular trading hours: Monday 14:30 UTC (9:30 AM ET)
    let market_open_time = MONDAY + 14 * 3600 + 30 * 60;
    let status = trading_hours.get_market_status(market_open_time).unwrap();
    assert_eq!(status.session, MarketSession::Regular);
    assert!(status.allow_open_position);
    assert!(status.is_trading_allowed);

    // After hours: Monday 22:00 UTC (5 PM ET)
    let after_hours_time = MONDAY + 22 * 3600;
    let status = trading_hours.get_market_status(after_hours_time).unwrap();
    assert_eq!(status.session, MarketSession::AfterHours);

    // Weekend (market closed): Saturday
    let weekend_time = MONDAY + 5 * 24 * 3600;
    let status = trading_hours.get_market_status(weekend_time).unwrap();
    assert_eq!(status.session, MarketSession::Closed);
    assert!(!status.allow_open_position);
}

#[test]
fn test_crypto_24_7_trading() {
    let trading_hours = TradingHours::crypto();

    // Test any time - should always be open
    let any_time = 1640000000; // Any timestamp
    let status = trading_hours.get_market_status(any_time).unwrap();
    assert_eq!(status.session, MarketSession::Regular);
    assert!(status.allow_open_position);
    assert!(status.is_trading_allowed);
    assert_eq!(status.seconds_to_close, u32::MAX);
}

#[test]
fn test_forex_trading_hours() {
    let trading_hours = TradingHours::forex();

    // Test Wednesday (mid-week, should be open)
    let mid_week = 1640000000 + 2 * 24 * 3600; // Wednesday
    let status = trading_hours.get_market_status(mid_week).unwrap();
    assert_eq!(status.session, MarketSession::Regular);
    assert!(status.allow_open_position);

    // Test Saturday (weekend, should be closed)
    let weekend = 1640000000 + 5 * 24 * 3600; // Saturday
    let status = trading_hours.get_market_status(weekend).unwrap();
    assert_eq!(status.session, MarketSession::Closed);
    assert!(!status.allow_open_position);
}

#[test]
fn test_trading_operation_validation() {
    let trading_hours = TradingHours::us_stock();

    // Test during market hours - should allow all operations
    let market_hours = MONDAY + 15 * 3600; // Monday 15:00 UTC (10 AM ET)
    assert!(trading_hours
        .validate_trading_operation(market_hours, TradingOperation::OpenPosition)
        .is_ok());
    assert!(trading_hours
        .validate_trading_operation(market_hours, TradingOperation::ClosePosition)
        .is_ok());

    // Test during weekend - should only allow closing and liquidations
    let weekend = MONDAY + 5 * 24 * 3600; // Saturday
    assert!(trading_hours
        .validate_trading_operation(weekend, TradingOperation::OpenPosition)
        .is_err());
    assert!(trading_hours
        .validate_trading_operation(weekend, TradingOperation::ClosePosition)
        .is_ok());
    assert!(trading_hours
        .validate_trading_operation(weekend, TradingOperation::Liquidation)
        .is_ok());
}

#[test]
fn test_always_open_status_fields() {
    let h = TradingHours::crypto();
    // Every field of the always-open status, at several instants
    for t in [0i64, MONDAY, MONDAY + 123_456] {
        let status = h.get_market_status(t).unwrap();
        assert_eq!(status.session, MarketSession::Regular);
        assert!(status.allow_open_position);
        assert!(status.allow_close_position);
        assert!(status.is_trading_allowed);
        assert_eq!(status.seconds_to_open, 0);
        assert_eq!(status.seconds_to_close, NEVER_CLOSES);
    }
}

#[test]
fn test_weekly_window_wraparound() {
    let h = TradingHours::forex();

    // Saturday 12:00 UTC: inside the weekend closure
    let saturday_noon = MONDAY + 5 * 24 * 3600 + 12 * 3600;
    let status = h.get_market_status(saturday_noon).unwrap();
    assert_eq!(status.session, MarketSession::Closed);
    assert!(!status.allow_open_position);
    assert!(status.allow_close_position);
    // Distance to Sunday 22:00 UTC: the rest of Saturday plus 22 hours
    assert_eq!(status.seconds_to_open, 12 * 3600 + 22 * 3600);

    // Monday 09:00 UTC: a regular session
    let monday_morning = MONDAY + 9 * 3600;
    let status = h.get_market_status(monday_morning).unwrap();
    assert_eq!(status.session, MarketSession::Regular);
    assert!(status.allow_open_position);

    // Friday 21:59:59 UTC is still open; 22:00:00 is closed
    let friday = MONDAY + 4 * 24 * 3600;
    let status = h.get_market_status(friday + 22 * 3600 - 1).unwrap();
    assert_eq!(status.session, MarketSession::Regular);
    let status = h.get_market_status(friday + 22 * 3600).unwrap();
    assert_eq!(status.session, MarketSession::Closed);

    // Sunday 22:00:00 UTC reopens
    let sunday = MONDAY + 6 * 24 * 3600;
    let status = h.get_market_status(sunday + 22 * 3600 - 1).unwrap();
    assert_eq!(status.session, MarketSession::Closed);
    let status = h.get_market_status(sunday + 22 * 3600).unwrap();
    assert_eq!(status.session, MarketSession::Regular);
}

#[test]
fn test_post_close_scenario() {
    // Daily window, open 14:30, close 21:00, pre-open 09:00, post-close
    // 25:00 (01:00 next day), trading Monday through Friday: at Monday
    // 22:00 UTC the session is the post-close window, opening and
    // closing are both permitted, and the close is three hours ahead.
    let h = TradingHours::us_stock();
    let t = MONDAY + 22 * 3600;
    let status = h.get_market_status(t).unwrap();
    assert_eq!(status.session, MarketSession::AfterHours);
    assert!(status.allow_open_position);
    assert!(status.allow_close_position);
    assert_eq!(status.seconds_to_close, 3 * 3600);
}

#[test]
fn test_after_hours_past_midnight() {
    let h = TradingHours::us_stock();

    // Tuesday 00:30 UTC: the after-hours session begun Monday evening
    // runs until 01:00 UTC, so this is still after-hours, with half an
    // hour left to its close.
    let t = MONDAY + 24 * 3600 + 30 * 60;
    let status = h.get_market_status(t).unwrap();
    assert_eq!(status.session, MarketSession::AfterHours);
    assert!(status.allow_open_position);
    assert!(status.allow_close_position);
    assert_eq!(status.seconds_to_close, 30 * 60);

    // Tuesday 01:00 UTC: the extended session has ended.
    let status = h.get_market_status(MONDAY + 24 * 3600 + 3600).unwrap();
    assert_eq!(status.session, MarketSession::Closed);
    assert!(!status.allow_open_position);

    // Under the per-day scheme the early-morning span is after-hours on
    // every trading day: Monday 00:30 UTC counts too, though Sunday did
    // not trade.
    let status = h.get_market_status(MONDAY + 30 * 60).unwrap();
    assert_eq!(status.session, MarketSession::AfterHours);
    assert_eq!(status.seconds_to_close, 30 * 60);
}

#[test]
fn test_closed_after_extended_hours() {
    let h = TradingHours::us_stock();
    // Monday 02:00 UTC: before pre-market, after Friday's extended
    // session has ended; closed, but closing is still permitted.
    let t = MONDAY + 2 * 3600;
    let status = h.get_market_status(t).unwrap();
    assert_eq!(status.session, MarketSession::Closed);
    assert!(!status.allow_open_position);
    assert!(status.allow_close_position);

    // Collateral operations stay permitted even then.
    assert!(h
        .validate_trading_operation(t, TradingOperation::AddCollateral)
        .is_ok());
    assert!(h
        .validate_trading_operation(t, TradingOperation::RemoveCollateral)
        .is_ok());
    assert_eq!(
        h.validate_trading_operation(t, TradingOperation::OpenPosition),
        Err(PerpetualsError::MarketClosed)
    );
}

#[test]
fn test_seconds_to_next_open_across_weekend() {
    let h = TradingHours::us_stock();
    // Saturday 00:00 UTC: next open is Monday 14:30 UTC.
    let saturday = MONDAY + 5 * 24 * 3600;
    let status = h.get_market_status(saturday).unwrap();
    assert_eq!(
        status.seconds_to_open,
        2 * 24 * 3600 + 14 * 3600 + 30 * 60
    );
    assert_eq!(status.seconds_to_close, 0);
}

#[test]
fn test_premarket_session() {
    let h = TradingHours::us_stock();
    // Monday 10:00 UTC: pre-market; opening is permitted in extended hours.
    let t = MONDAY + 10 * 3600;
    let status = h.get_market_status(t).unwrap();
    assert_eq!(status.session, MarketSession::PreMarket);
    assert!(status.allow_open_position);
    assert!(status.is_trading_allowed);
    // Time to close counts to the regular close.
    assert_eq!(status.seconds_to_close, 11 * 3600);
}

#[test]
fn test_no_trading_day_is_config_error() {
    let h = TradingHours {
        asset_type: AssetType::Custom,
        exchange: Exchange::Custom,
        trading_days: TradingDays {
            monday: false,
            tuesday: false,
            wednesday: false,
            thursday: false,
            friday: false,
            saturday: false,
            sunday: false,
        },
        market_open_utc: 9 * 3600,
        market_close_utc: 17 * 3600,
        premarket_open_utc: 0,
        afterhours_close_utc: 0,
        allow_holiday_trading: false,
        closing_grace_period: 0,
    };
    assert_eq!(
        h.get_market_status(MONDAY),
        Err(PerpetualsError::InvalidTradingHours)
    );
    // The configuration error surfaces before any per-operation rule.
    assert_eq!(
        h.validate_trading_operation(MONDAY, TradingOperation::Liquidation),
        Err(PerpetualsError::InvalidTradingHours)
    );
}

#[test]
fn test_defaults() {
    assert_eq!(Exchange::default(), Exchange::Always);
    assert_eq!(AssetType::default(), AssetType::Crypto);
    let days = TradingDays::default();
    assert!(days.monday && days.tuesday && days.wednesday && days.thursday && days.friday);
    assert!(!days.saturday && !days.sunday);
    let h = TradingHours::default();
    assert_eq!(h.asset_type, AssetType::Crypto);
    assert_eq!(h.exchange, Exchange::Always);
}
