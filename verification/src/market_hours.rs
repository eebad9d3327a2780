//! Trading-calendar state machine.
//!
//! A [`TradingHours`] value describes one asset's schedule; the current
//! [`MarketStatus`] is recomputed from `(schedule, timestamp)` on every
//! query, so there is no persisted session state that could drift. The
//! classification handles weekly recurrence, sessions that cross
//! midnight, always-open assets, and the weekly currency-market window
//! that closes only over the weekend.
//!
//! Weekday arithmetic uses Monday as day zero; Unix day zero (the epoch)
//! was a Thursday, hence the fixed offset of three in [`day_of_week`].

use vstd::prelude::*;
use crate::error::PerpetualsError;

verus! {

/// Number of seconds in a day, as used by the calendar arithmetic.
pub const DAY: u32 = 86_400;

/// Reserved sentinel for `seconds_to_close`: the market never closes.
pub const NEVER_CLOSES: u32 = u32::MAX;

/// Supported exchanges.
#[derive(Clone, Copy, Debug, PartialEq, Eq, Structural)]
pub enum Exchange {
    /// New York Stock Exchange, Eastern Time.
    NYSE,
    /// NASDAQ Global Market, Eastern Time.
    NASDAQ,
    /// London Stock Exchange, GMT.
    LSE,
    /// Tokyo Stock Exchange, JST.
    TSE,
    /// Shanghai Stock Exchange, CST.
    SSE,
    /// Hong Kong Stock Exchange, HKT.
    HKEX,
    /// Continuous trading, no exchange calendar.
    Always,
    /// Custom exchange with configurable hours.
    Custom,
}

impl Default for Exchange {
    fn default() -> (r: Self)
        ensures
            r == Exchange::Always,
    {
        Exchange::Always
    }
}

/// Asset classification selecting the calendar special cases.
#[derive(Clone, Copy, Debug, PartialEq, Eq, Structural)]
pub enum AssetType {
    /// Cryptocurrency: continuous trading.
    Crypto,
    /// US stocks: NYSE/NASDAQ hours.
    USStock,
    /// International stocks: exchange-specific hours.
    InternationalStock,
    /// Currency markets: open all week except one weekend window.
    Forex,
    /// Commodities: various hours.
    Commodity,
    /// Custom asset with specific trading hours.
    Custom,
}

impl Default for AssetType {
    fn default() -> (r: Self)
        ensures
            r == AssetType::Crypto,
    {
        AssetType::Crypto
    }
}

/// One independent flag per weekday.
#[derive(Clone, Copy, Debug, PartialEq, Eq, Structural)]
pub struct TradingDays {
    pub monday: bool,
    pub tuesday: bool,
    pub wednesday: bool,
    pub thursday: bool,
    pub friday: bool,
    pub saturday: bool,
    pub sunday: bool,
}

impl Default for TradingDays {
    /// Monday through Friday.
    fn default() -> (r: Self)
        ensures
            r == (TradingDays {
                monday: true,
                tuesday: true,
                wednesday: true,
                thursday: true,
                friday: true,
                saturday: false,
                sunday: false,
            }),
    {
        TradingDays {
            monday: true,
            tuesday: true,
            wednesday: true,
            thursday: true,
            friday: true,
            saturday: false,
            sunday: false,
        }
    }
}

/// Trading-hours configuration for one asset. Offsets are seconds since
/// UTC midnight; a close offset past 24 hours encodes a session that
/// crosses into the next day.
#[derive(Clone, Copy, Debug, PartialEq, Eq, Structural)]
pub struct TradingHours {
    /// Asset type; selects the always-open and weekly-window special cases.
    pub asset_type: AssetType,
    /// Primary exchange for the asset.
    pub exchange: Exchange,
    /// Which weekdays are trading days.
    pub trading_days: TradingDays,
    /// Market open, seconds from UTC midnight.
    pub market_open_utc: u32,
    /// Market close, seconds from UTC midnight.
    pub market_close_utc: u32,
    /// Pre-market session start (0 when unsupported).
    pub premarket_open_utc: u32,
    /// After-hours session end (0 when unsupported; may exceed 24h).
    pub afterhours_close_utc: u32,
    /// Whether trading is enabled during market holidays.
    pub allow_holiday_trading: bool,
    /// Extra seconds after nominal close during which closing remains
    /// permitted. Read but functionally inert: closing is never blocked
    /// by elapsed time at all (see [`lemma_close_always_allowed`]).
    pub closing_grace_period: u32,
}

impl Default for TradingHours {
    fn default() -> (r: Self)
        ensures
            r == (TradingHours {
                asset_type: AssetType::Crypto,
                exchange: Exchange::Always,
                trading_days: (TradingDays {
                    monday: true,
                    tuesday: true,
                    wednesday: true,
                    thursday: true,
                    friday: true,
                    saturday: false,
                    sunday: false,
                }),
                market_open_utc: 0,
                market_close_utc: 0,
                premarket_open_utc: 0,
                afterhours_close_utc: 0,
                allow_holiday_trading: false,
                closing_grace_period: 0,
            }),
    {
        TradingHours {
            asset_type: AssetType::Crypto,
            exchange: Exchange::Always,
            trading_days: Default::default(),
            market_open_utc: 0,
            market_close_utc: 0,
            premarket_open_utc: 0,
            afterhours_close_utc: 0,
            allow_holiday_trading: false,
            closing_grace_period: 0,
        }
    }
}

/// The session an asset is in at some instant.
#[derive(Clone, Copy, Debug, PartialEq, Eq, Structural)]
pub enum MarketSession {
    /// Market is closed.
    Closed,
    /// Pre-market trading session.
    PreMarket,
    /// Regular trading hours.
    Regular,
    /// After-hours trading session.
    AfterHours,
    /// Extended hours (pre-market and after-hours combined).
    Extended,
}

/// The computed market state: pure output, never persisted.
#[derive(Clone, Copy, Debug, PartialEq, Eq, Structural)]
pub struct MarketStatus {
    /// Current market session.
    pub session: MarketSession,
    /// Whether new positions can be opened.
    pub allow_open_position: bool,
    /// Whether existing positions can be closed.
    pub allow_close_position: bool,
    /// Whether trading is currently allowed.
    pub is_trading_allowed: bool,
    /// Seconds until the next market open; zero when open.
    pub seconds_to_open: u32,
    /// Seconds until market close; [`NEVER_CLOSES`] means never.
    pub seconds_to_close: u32,
}

/// The trading operations with distinct permission rules.
#[derive(Clone, Copy, Debug, PartialEq, Eq, Structural)]
pub enum TradingOperation {
    OpenPosition,
    ClosePosition,
    AddCollateral,
    RemoveCollateral,
    Liquidation,
}

/// Seconds since UTC midnight at timestamp `t`.
pub open spec fn time_of_day(t: i64) -> int
    recommends
        t >= 0,
{
    (t as int) % (DAY as int)
}

/// Day of week at timestamp `t`, Monday as 0 through Sunday as 6.
/// Unix day zero was a Thursday, hence the fixed offset of three.
pub open spec fn day_of_week(t: i64) -> int
    recommends
        t >= 0,
{
    ((t as int) / (DAY as int) + 3) % 7
}

/// The flag of `days` for weekday `w`, Monday as 0; false outside 0..=6.
pub open spec fn day_flag(days: TradingDays, w: int) -> bool {
    if w == 0 {
        days.monday
    } else if w == 1 {
        days.tuesday
    } else if w == 2 {
        days.wednesday
    } else if w == 3 {
        days.thursday
    } else if w == 4 {
        days.friday
    } else if w == 5 {
        days.saturday
    } else if w == 6 {
        days.sunday
    } else {
        false
    }
}

/// Whether any weekday at all is a trading day.
pub open spec fn has_trading_day(days: TradingDays) -> bool {
    days.monday || days.tuesday || days.wednesday || days.thursday || days.friday
        || days.saturday || days.sunday
}

/// The continuous-trading special case.
pub open spec fn is_always_open(h: TradingHours) -> bool {
    h.exchange == Exchange::Always && h.asset_type == AssetType::Crypto
}

/// Offset (in days, `1..=7`) of the first trading day at or after `w +
/// ahead`, continuing a scan that has already ruled out smaller
/// offsets; `-1` when no weekday is a trading day at all.
pub open spec fn next_open_scan(days: TradingDays, w: int, ahead: int) -> int
    recommends
        0 <= w <= 6,
        1 <= ahead,
    decreases 8 - ahead,
{
    if ahead > 7 {
        -1
    } else if day_flag(days, (w + ahead) % 7) {
        ahead
    } else {
        next_open_scan(days, w, ahead + 1)
    }
}

/// Seconds from `t` to the next market open of `h`: the remainder of
/// today when today's open is still ahead, otherwise whole days to the
/// next trading day plus that day's open offset. Meaningful only when
/// the schedule has a trading day at all.
pub open spec fn seconds_to_next_open_at(h: TradingHours, t: i64) -> int {
    let w = day_of_week(t);
    let tod = time_of_day(t);
    if day_flag(h.trading_days, w) && tod < h.market_open_utc {
        h.market_open_utc - tod
    } else {
        let ahead = next_open_scan(h.trading_days, w, 1);
        DAY - tod + (ahead - 1) * DAY + h.market_open_utc
    }
}

/// The weekly currency-market closure: from Friday at the weekly close
/// time to Sunday at the weekly open time.
pub open spec fn forex_closed_at(h: TradingHours, t: i64) -> bool {
    let w = day_of_week(t);
    let tod = time_of_day(t);
    ||| w == 4 && tod >= h.market_close_utc
    ||| w == 5
    ||| w == 6 && tod < h.market_open_utc
}

/// Seconds from `t` to the weekly currency-market close (Friday at the
/// close offset), by direct weekday distance.
pub open spec fn seconds_to_forex_close_at(h: TradingHours, t: i64) -> int {
    let w = day_of_week(t);
    let tod = time_of_day(t);
    if w == 4 && tod < h.market_close_utc {
        h.market_close_utc - tod
    } else {
        let days = (4 - w + 7) % 7;
        if days == 0 {
            7 * DAY + h.market_close_utc - tod
        } else {
            DAY - tod + (days - 1) * DAY + h.market_close_utc
        }
    }
}

/// Seconds from `t` to the weekly currency-market open (Sunday at the
/// open offset), by direct weekday distance.
pub open spec fn seconds_to_forex_open_at(h: TradingHours, t: i64) -> int {
    let w = day_of_week(t);
    let tod = time_of_day(t);
    if w == 6 && tod < h.market_open_utc {
        h.market_open_utc - tod
    } else {
        let days = (6 - w + 7) % 7;
        if days == 0 {
            7 * DAY + h.market_open_utc - tod
        } else {
            DAY - tod + (days - 1) * DAY + h.market_open_utc
        }
    }
}

/// Session classification on a trading day of a daily-window asset, by
/// the time of day alone. An after-hours end past 24 hours extends the
/// session past midnight: the early-morning span before
/// `afterhours_close_utc - DAY` is after-hours too. Under this per-day
/// scheme that span is after-hours on every trading day, even one whose
/// previous day did not trade.
pub open spec fn session_at(h: TradingHours, tod: int) -> MarketSession {
    if h.premarket_open_utc <= tod < h.market_open_utc {
        MarketSession::PreMarket
    } else if h.market_open_utc <= tod < h.market_close_utc {
        MarketSession::Regular
    } else if (h.market_close_utc <= tod && tod < h.afterhours_close_utc) || (
    h.afterhours_close_utc > DAY && tod < h.afterhours_close_utc - DAY) {
        MarketSession::AfterHours
    } else {
        MarketSession::Closed
    }
}

/// The full market status of `h` at `t`: the state machine as one pure
/// function of schedule and timestamp. Closing is permitted in every
/// state; opening and trading are permitted in every non-closed
/// session, extended hours included.
pub open spec fn status_at(h: TradingHours, t: i64) -> MarketStatus {
    if is_always_open(h) {
        MarketStatus {
            session: MarketSession::Regular,
            allow_open_position: true,
            allow_close_position: true,
            is_trading_allowed: true,
            seconds_to_open: 0,
            seconds_to_close: NEVER_CLOSES,
        }
    } else if h.asset_type == AssetType::Forex {
        if forex_closed_at(h, t) {
            MarketStatus {
                session: MarketSession::Closed,
                allow_open_position: false,
                allow_close_position: true,
                is_trading_allowed: false,
                seconds_to_open: seconds_to_forex_open_at(h, t) as u32,
                seconds_to_close: 0,
            }
        } else {
            MarketStatus {
                session: MarketSession::Regular,
                allow_open_position: true,
                allow_close_position: true,
                is_trading_allowed: true,
                seconds_to_open: 0,
                seconds_to_close: seconds_to_forex_close_at(h, t) as u32,
            }
        }
    } else if !day_flag(h.trading_days, day_of_week(t)) {
        MarketStatus {
            session: MarketSession::Closed,
            allow_open_position: false,
            allow_close_position: true,
            is_trading_allowed: false,
            seconds_to_open: seconds_to_next_open_at(h, t) as u32,
            seconds_to_close: 0,
        }
    } else {
        let s = session_at(h, time_of_day(t));
        let close_time = if s == MarketSession::AfterHours {
            if time_of_day(t) >= h.market_close_utc {
                h.afterhours_close_utc as int
            } else {
                h.afterhours_close_utc - DAY
            }
        } else {
            h.market_close_utc as int
        };
        MarketStatus {
            session: s,
            allow_open_position: s != MarketSession::Closed,
            allow_close_position: true,
            is_trading_allowed: s != MarketSession::Closed,
            seconds_to_open: if s == MarketSession::Closed {
                seconds_to_next_open_at(h, t) as u32
            } else {
                0
            },
            seconds_to_close: if s == MarketSession::Closed {
                0
            } else if time_of_day(t) < close_time {
                (close_time - time_of_day(t)) as u32
            } else {
                0
            },
        }
    }
}

/// A scan that came back empty rules out every weekday: the seven
/// offsets `w + 1 ..= w + 7` cover the whole week.
proof fn lemma_no_open_day(days: TradingDays, w: int)
    requires
        0 <= w <= 6,
        next_open_scan(days, w, 1) == -1,
    ensures
        !has_trading_day(days),
{
    assert(!day_flag(days, (w + 1) % 7) && next_open_scan(days, w, 2) == -1);
    assert(!day_flag(days, (w + 2) % 7) && next_open_scan(days, w, 3) == -1);
    assert(!day_flag(days, (w + 3) % 7) && next_open_scan(days, w, 4) == -1);
    assert(!day_flag(days, (w + 4) % 7) && next_open_scan(days, w, 5) == -1);
    assert(!day_flag(days, (w + 5) % 7) && next_open_scan(days, w, 6) == -1);
    assert(!day_flag(days, (w + 6) % 7) && next_open_scan(days, w, 7) == -1);
    assert(!day_flag(days, (w + 7) % 7) && next_open_scan(days, w, 8) == -1);
    assert forall|d: int| 0 <= d <= 6 implies !day_flag(days, d) by {
        let a = if d > w {
            d - w
        } else {
            d - w + 7
        };
        assert(1 <= a <= 7);
        assert((w + a) % 7 == d);
    }
    assert(!day_flag(days, 0) && !day_flag(days, 1) && !day_flag(days, 2) && !day_flag(days, 3)
        && !day_flag(days, 4) && !day_flag(days, 5) && !day_flag(days, 6));
}

/// The per-operation permission rule, applied to a computed status.
/// Liquidation is never restricted; collateral changes fail only when
/// neither trading nor closing is permitted.
pub open spec fn operation_allowed(status: MarketStatus, operation: TradingOperation) -> bool {
    match operation {
        TradingOperation::OpenPosition => status.allow_open_position,
        TradingOperation::ClosePosition => status.allow_close_position,
        TradingOperation::AddCollateral | TradingOperation::RemoveCollateral =>
            status.is_trading_allowed || status.allow_close_position,
        TradingOperation::Liquidation => true,
    }
}

impl TradingHours {
    /// Offsets are seconds since UTC midnight in `[0, 2 * DAY)`; a close
    /// past 24 hours encodes a session crossing midnight.
    pub open spec fn wf(self) -> bool {
        &&& self.market_open_utc < 2 * DAY
        &&& self.market_close_utc < 2 * DAY
        &&& self.premarket_open_utc < 2 * DAY
        &&& self.afterhours_close_utc < 2 * DAY
    }

    /// Schedule for NYSE/NASDAQ stocks: regular hours 14:30-21:00 UTC,
    /// pre-market from 09:00 UTC, after-hours until 01:00 UTC next day,
    /// Monday through Friday.
    pub fn us_stock() -> (r: Self)
        ensures
            r == (TradingHours {
                asset_type: AssetType::USStock,
                exchange: Exchange::NYSE,
                trading_days: (TradingDays {
                    monday: true,
                    tuesday: true,
                    wednesday: true,
                    thursday: true,
                    friday: true,
                    saturday: false,
                    sunday: false,
                }),
                market_open_utc: 52_200,
                market_close_utc: 75_600,
                premarket_open_utc: 32_400,
                afterhours_close_utc: 90_000,
                allow_holiday_trading: false,
                closing_grace_period: 900,
            }),
            r.wf(),
    {
        TradingHours {
            asset_type: AssetType::USStock,
            exchange: Exchange::NYSE,
            trading_days: Default::default(),
            market_open_utc: 14 * 3600 + 30 * 60,
            market_close_utc: 21 * 3600,
            premarket_open_utc: 9 * 3600,
            afterhours_close_utc: 25 * 3600,
            allow_holiday_trading: false,
            closing_grace_period: 15 * 60,
        }
    }

    /// Schedule for continuously traded crypto assets.
    pub fn crypto() -> (r: Self)
        ensures
            r == (TradingHours {
                asset_type: AssetType::Crypto,
                exchange: Exchange::Always,
                trading_days: (TradingDays {
                    monday: true,
                    tuesday: true,
                    wednesday: true,
                    thursday: true,
                    friday: true,
                    saturday: true,
                    sunday: true,
                }),
                market_open_utc: 0,
                market_close_utc: 86_400,
                premarket_open_utc: 0,
                afterhours_close_utc: 86_400,
                allow_holiday_trading: true,
                closing_grace_period: 0,
            }),
            r.wf(),
            is_always_open(r),
    {
        TradingHours {
            asset_type: AssetType::Crypto,
            exchange: Exchange::Always,
            trading_days: TradingDays {
                monday: true,
                tuesday: true,
                wednesday: true,
                thursday: true,
                friday: true,
                saturday: true,
                sunday: true,
            },
            market_open_utc: 0,
            market_close_utc: 24 * 3600,
            premarket_open_utc: 0,
            afterhours_close_utc: 24 * 3600,
            allow_holiday_trading: true,
            closing_grace_period: 0,
        }
    }

    /// Schedule for currency markets: open continuously from Sunday
    /// 22:00 UTC to Friday 22:00 UTC.
    pub fn forex() -> (r: Self)
        ensures
            r == (TradingHours {
                asset_type: AssetType::Forex,
                exchange: Exchange::Always,
                trading_days: (TradingDays {
                    monday: true,
                    tuesday: true,
                    wednesday: true,
                    thursday: true,
                    friday: true,
                    saturday: false,
                    sunday: true,
                }),
                market_open_utc: 79_200,
                market_close_utc: 79_200,
                premarket_open_utc: 0,
                afterhours_close_utc: 0,
                allow_holiday_trading: true,
                closing_grace_period: 0,
            }),
            r.wf(),
            !is_always_open(r),
    {
        TradingHours {
            asset_type: AssetType::Forex,
            exchange: Exchange::Always,
            trading_days: TradingDays {
                monday: true,
                tuesday: true,
                wednesday: true,
                thursday: true,
                friday: true,
                saturday: false,
                sunday: true,
            },
            market_open_utc: 22 * 3600,
            market_close_utc: 22 * 3600,
            premarket_open_utc: 0,
            afterhours_close_utc: 0,
            allow_holiday_trading: true,
            closing_grace_period: 0,
        }
    }

    /// Looks up the trading-day flag for a weekday index (Monday is 0).
    fn is_trading_day(&self, day_of_week: i64) -> (r: bool)
        ensures
            r == day_flag(self.trading_days, day_of_week as int),
    {
        if day_of_week == 0 {
            self.trading_days.monday
        } else if day_of_week == 1 {
            self.trading_days.tuesday
        } else if day_of_week == 2 {
            self.trading_days.wednesday
        } else if day_of_week == 3 {
            self.trading_days.thursday
        } else if day_of_week == 4 {
            self.trading_days.friday
        } else if day_of_week == 5 {
            self.trading_days.saturday
        } else if day_of_week == 6 {
            self.trading_days.sunday
        } else {
            false
        }
    }

    /// Seconds until the next market open, scanning up to seven days
    /// ahead; fails when no weekday is a trading day at all.
    fn calculate_seconds_to_next_open(&self, current_time: i64) -> (r: Result<
        u32,
        PerpetualsError,
    >)
        requires
            self.wf(),
            current_time >= 0,
        ensures
            has_trading_day(self.trading_days) ==> r == Ok::<u32, PerpetualsError>(
                seconds_to_next_open_at(*self, current_time) as u32,
            ),
            !has_trading_day(self.trading_days) ==> r == Err::<u32, PerpetualsError>(
                PerpetualsError::InvalidTradingHours,
            ),
    {
        let tod: u32 = (current_time % (DAY as i64)) as u32;
        let w: i64 = (current_time / (DAY as i64) + 3) % 7;
        if self.is_trading_day(w) && tod < self.market_open_utc {
            return Ok(self.market_open_utc - tod);
        }
        let mut ahead: i64 = 1;
        while ahead <= 7
            invariant
                self.wf(),
                current_time >= 0,
                1 <= ahead <= 8,
                0 <= w <= 6,
                tod < DAY,
                tod == time_of_day(current_time),
                w == day_of_week(current_time),
                !(day_flag(self.trading_days, w as int) && tod < self.market_open_utc),
                next_open_scan(self.trading_days, w as int, 1) == next_open_scan(
                    self.trading_days,
                    w as int,
                    ahead as int,
                ),
            decreases 8 - ahead,
        {
            let fw = (w + ahead) % 7;
            if self.is_trading_day(fw) {
                return Ok(DAY - tod + (ahead as u32 - 1) * DAY + self.market_open_utc);
            }
            ahead = ahead + 1;
        }
        proof {
            lemma_no_open_day(self.trading_days, w as int);
        }
        Err(PerpetualsError::InvalidTradingHours)
    }

    /// Seconds until the weekly currency-market close, by direct
    /// weekday distance to Friday at the close offset.
    fn calculate_seconds_to_forex_close(&self, current_time: i64) -> (r: Result<
        u32,
        PerpetualsError,
    >)
        requires
            self.wf(),
            current_time >= 0,
        ensures
            r == Ok::<u32, PerpetualsError>(seconds_to_forex_close_at(*self, current_time) as u32),
    {
        let tod: u32 = (current_time % (DAY as i64)) as u32;
        let w: i64 = (current_time / (DAY as i64) + 3) % 7;
        if w == 4 {
            if tod < self.market_close_utc {
                return Ok(self.market_close_utc - tod);
            }
        }
        let days: i64 = (4 - w + 7) % 7;
        if days == 0 {
            return Ok(7 * DAY + self.market_close_utc - tod);
        }
        Ok(DAY - tod + (days as u32 - 1) * DAY + self.market_close_utc)
    }

    /// Seconds until the weekly currency-market open, by direct weekday
    /// distance to Sunday at the open offset.
    fn calculate_seconds_to_forex_open(&self, current_time: i64) -> (r: Result<
        u32,
        PerpetualsError,
    >)
        requires
            self.wf(),
            current_time >= 0,
        ensures
            r == Ok::<u32, PerpetualsError>(seconds_to_forex_open_at(*self, current_time) as u32),
    {
        let tod: u32 = (current_time % (DAY as i64)) as u32;
        let w: i64 = (current_time / (DAY as i64) + 3) % 7;
        if w == 6 {
            if tod < self.market_open_utc {
                return Ok(self.market_open_utc - tod);
            }
        }
        let days: i64 = (6 - w + 7) % 7;
        if days == 0 {
            return Ok(7 * DAY + self.market_open_utc - tod);
        }
        Ok(DAY - tod + (days as u32 - 1) * DAY + self.market_open_utc)
    }

    /// Status of a weekly-window (currency) asset: closed exactly during
    /// the weekend interval, a regular session everywhere else.
    fn get_forex_market_status(&self, current_time: i64) -> (r: Result<
        MarketStatus,
        PerpetualsError,
    >)
        requires
            self.wf(),
            current_time >= 0,
            self.asset_type == AssetType::Forex,
            !is_always_open(*self),
        ensures
            r == Ok::<MarketStatus, PerpetualsError>(status_at(*self, current_time)),
    {
        let tod: u32 = (current_time % (DAY as i64)) as u32;
        let w: i64 = (current_time / (DAY as i64) + 3) % 7;
        let is_weekend_closure = (w == 4 && tod >= self.market_close_utc) || w == 5 || (w == 6
            && tod < self.market_open_utc);
        if is_weekend_closure {
            let seconds_to_open = match self.calculate_seconds_to_forex_open(current_time) {
                Ok(s) => s,
                Err(e) => {
                    return Err(e);
                },
            };
            return Ok(MarketStatus {
                session: MarketSession::Closed,
                allow_open_position: false,
                allow_close_position: true,
                is_trading_allowed: false,
                seconds_to_open,
                seconds_to_close: 0,
            });
        }
        let seconds_to_close = match self.calculate_seconds_to_forex_close(current_time) {
            Ok(s) => s,
            Err(e) => {
                return Err(e);
            },
        };
        Ok(MarketStatus {
            session: MarketSession::Regular,
            allow_open_position: true,
            allow_close_position: true,
            is_trading_allowed: true,
            seconds_to_open: 0,
            seconds_to_close,
        })
    }

    /// Computes the whole market status of this schedule at the given
    /// timestamp. Fails only for a daily-window schedule in which no
    /// weekday is a trading day.
    pub fn get_market_status(&self, current_time: i64) -> (r: Result<
        MarketStatus,
        PerpetualsError,
    >)
        requires
            self.wf(),
            current_time >= 0,
        ensures
            r is Ok <==> is_always_open(*self) || self.asset_type == AssetType::Forex
                || has_trading_day(self.trading_days),
            r is Ok ==> r == Ok::<MarketStatus, PerpetualsError>(status_at(*self, current_time)),
            r is Err ==> r == Err::<MarketStatus, PerpetualsError>(
                PerpetualsError::InvalidTradingHours,
            ),
    {
        if self.exchange == Exchange::Always && self.asset_type == AssetType::Crypto {
            return Ok(MarketStatus {
                session: MarketSession::Regular,
                allow_open_position: true,
                allow_close_position: true,
                is_trading_allowed: true,
                seconds_to_open: 0,
                seconds_to_close: NEVER_CLOSES,
            });
        }
        if self.asset_type == AssetType::Forex {
            return self.get_forex_market_status(current_time);
        }
        let tod: u32 = (current_time % (DAY as i64)) as u32;
        let w: i64 = (current_time / (DAY as i64) + 3) % 7;
        if !self.is_trading_day(w) {
            let seconds_to_open = match self.calculate_seconds_to_next_open(current_time) {
                Ok(s) => s,
                Err(e) => {
                    return Err(e);
                },
            };
            return Ok(MarketStatus {
                session: MarketSession::Closed,
                allow_open_position: false,
                allow_close_position: true,
                is_trading_allowed: false,
                seconds_to_open,
                seconds_to_close: 0,
            });
        }
        let session = if tod >= self.premarket_open_utc && tod < self.market_open_utc {
            MarketSession::PreMarket
        } else if tod >= self.market_open_utc && tod < self.market_close_utc {
            MarketSession::Regular
        } else if (tod >= self.market_close_utc && tod < self.afterhours_close_utc) || (
        self.afterhours_close_utc > DAY && tod < self.afterhours_close_utc - DAY) {
            MarketSession::AfterHours
        } else {
            MarketSession::Closed
        };
        let is_closed = session == MarketSession::Closed;
        let seconds_to_open = if is_closed {
            match self.calculate_seconds_to_next_open(current_time) {
                Ok(s) => s,
                Err(e) => {
                    return Err(e);
                },
            }
        } else {
            0
        };
        let seconds_to_close = if is_closed {
            0
        } else {
            let close_time = if session == MarketSession::AfterHours {
                if tod >= self.market_close_utc {
                    self.afterhours_close_utc
                } else {
                    // Early-morning span of a session begun the previous
                    // evening; it closes at the past-midnight end brought
                    // back into today.
                    self.afterhours_close_utc - DAY
                }
            } else {
                self.market_close_utc
            };
            if tod < close_time {
                close_time - tod
            } else {
                0
            }
        };
        Ok(MarketStatus {
            session,
            allow_open_position: !is_closed,
            allow_close_position: true,
            is_trading_allowed: !is_closed,
            seconds_to_open,
            seconds_to_close,
        })
    }

    /// Validates one trading operation against the status at the given
    /// timestamp: opening requires an open market, closing is always
    /// permitted, collateral changes fail only when neither trading nor
    /// closing is permitted, and liquidation always succeeds.
    pub fn validate_trading_operation(&self, current_time: i64, operation: TradingOperation) -> (r:
        Result<(), PerpetualsError>)
        requires
            self.wf(),
            current_time >= 0,
        ensures
            !(is_always_open(*self) || self.asset_type == AssetType::Forex || has_trading_day(
                self.trading_days,
            )) ==> r == Err::<(), PerpetualsError>(PerpetualsError::InvalidTradingHours),
            is_always_open(*self) || self.asset_type == AssetType::Forex || has_trading_day(
                self.trading_days,
            ) ==> ({
                if operation_allowed(status_at(*self, current_time), operation) {
                    r == Ok::<(), PerpetualsError>(())
                } else {
                    r == Err::<(), PerpetualsError>(PerpetualsError::MarketClosed)
                }
            }),
    {
        let market_status = match self.get_market_status(current_time) {
            Ok(s) => s,
            Err(e) => {
                return Err(e);
            },
        };
        match operation {
            TradingOperation::OpenPosition => {
                if !market_status.allow_open_position {
                    return Err(PerpetualsError::MarketClosed);
                }
            },
            TradingOperation::ClosePosition => {
                if !market_status.allow_close_position {
                    return Err(PerpetualsError::MarketClosed);
                }
            },
            TradingOperation::AddCollateral | TradingOperation::RemoveCollateral => {
                if !market_status.is_trading_allowed && !market_status.allow_close_position {
                    return Err(PerpetualsError::MarketClosed);
                }
            },
            TradingOperation::Liquidation => {},
        }
        Ok(())
    }
}

/// An always-open asset is in a regular session at every timestamp,
/// with every operation permitted and the never-closes sentinel as its
/// time to close.
pub proof fn lemma_always_open_status(h: TradingHours, t: i64)
    requires
        is_always_open(h),
    ensures
        status_at(h, t) == (MarketStatus {
            session: MarketSession::Regular,
            allow_open_position: true,
            allow_close_position: true,
            is_trading_allowed: true,
            seconds_to_open: 0,
            seconds_to_close: NEVER_CLOSES,
        }),
{
}

/// Weekly-window wraparound: a currency-market schedule is closed, with
/// opening forbidden and closing still permitted, at every instant of a
/// Saturday, and in a regular session at every instant of a Monday.
pub proof fn lemma_weekly_window_wraparound(h: TradingHours, t_sat: i64, t_mon: i64)
    requires
        h.asset_type == AssetType::Forex,
        !is_always_open(h),
        t_sat >= 0,
        day_of_week(t_sat) == 5,
        t_mon >= 0,
        day_of_week(t_mon) == 0,
    ensures
        status_at(h, t_sat).session == MarketSession::Closed,
        !status_at(h, t_sat).allow_open_position,
        status_at(h, t_sat).allow_close_position,
        status_at(h, t_mon).session == MarketSession::Regular,
        status_at(h, t_mon).allow_open_position,
{
}

/// Closing a position is never blocked: whatever the schedule and
/// whatever the timestamp, the computed status permits closing. The
/// closing grace period after nominal close is subsumed by this
/// unconditional permission, which deliberately favors risk reduction
/// over new exposure.
pub proof fn lemma_close_always_allowed(h: TradingHours, t: i64)
    ensures
        status_at(h, t).allow_close_position,
{
}

/// Asymmetric closing for a daily-window schedule: at any timestamp
/// after nominal close that lies outside the after-hours window (where
/// extended-hours opening is still permitted), closing remains allowed
/// while opening is not.
pub proof fn lemma_no_open_after_close(h: TradingHours, t: i64)
    requires
        !is_always_open(h),
        h.asset_type != AssetType::Forex,
        h.market_open_utc <= h.market_close_utc,
        t >= 0,
        time_of_day(t) >= h.market_close_utc,
        !(time_of_day(t) < h.afterhours_close_utc || (h.afterhours_close_utc > DAY && time_of_day(
            t,
        ) < h.afterhours_close_utc - DAY)),
    ensures
        status_at(h, t).allow_close_position,
        !status_at(h, t).allow_open_position,
        status_at(h, t).session == MarketSession::Closed,
{
}

/// Liquidation overrides the calendar: the permission rule accepts a
/// liquidation against every computable status, closed markets included.
pub proof fn lemma_liquidation_always_allowed(h: TradingHours, t: i64)
    ensures
        operation_allowed(status_at(h, t), TradingOperation::Liquidation),
{
}

} // verus!
