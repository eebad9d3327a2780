//! Core pricing and trading-calendar logic for a perpetual-futures protocol.
//!
//! Two independent, side-effect-free components make up the library:
//!
//! * [`oracle_price`]: a fixed-point price representation (integer mantissa
//!   times a power of ten) with checked, exponent-aware arithmetic.
//! * [`market_hours`]: a trading-calendar state machine that derives, from a
//!   schedule and a timestamp, the current session and which operations are
//!   permitted.
//!
//! Shared numeric helpers live in [`math`], protocol-wide numeric constants in
//! [`constants`], input validation helpers in [`validation`], and the error
//! taxonomy in [`error`].

pub mod admin;
pub mod constants;
pub mod error;
pub mod market_hours;
pub mod math;
pub mod oracle_price;
pub mod validation;
