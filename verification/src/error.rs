//! Error taxonomy of the protocol core.
//!
//! Every failure is surfaced as a typed value; nothing wraps, saturates or
//! falls back silently. Arithmetic and configuration failures are
//! unrecoverable for the current call; a trading-window failure
//! ([`PerpetualsError::MarketClosed`]) is an expected business outcome.

use vstd::prelude::*;

verus! {

/// Error codes of the perpetuals protocol core.
#[derive(Clone, Copy, Debug, PartialEq, Eq, Structural)]
pub enum PerpetualsError {
    /// Account is not authorized to sign this instruction.
    MultisigAccountNotAuthorized,
    /// Account has already signed this instruction.
    MultisigAlreadySigned,
    /// This instruction has already been executed.
    MultisigAlreadyExecuted,
    /// Overflow in an arithmetic operation.
    MathOverflow,
    /// Unsupported price oracle type.
    UnsupportedOracle,
    /// Invalid oracle account provided.
    InvalidOracleAccount,
    /// Oracle is in an invalid state.
    InvalidOracleState,
    /// Oracle price is too stale and exceeds the maximum age threshold.
    StaleOraclePrice,
    /// Oracle price is invalid or outside acceptable bounds.
    InvalidOraclePrice,
    /// Oracle price feed returned an error or is unavailable.
    PriceError,
    /// Invalid exponentially averaged oracle configuration or data.
    InvalidEmaOracle,
    /// An averaged oracle price is required for this operation but missing.
    EmaOracleRequired,
    /// This instruction is not allowed in the current environment.
    InvalidEnvironment,
    /// Pool is in an invalid state for this operation.
    InvalidPoolState,
    /// Custody account is in an invalid state.
    InvalidCustodyState,
    /// Invalid collateral custody specified.
    InvalidCollateralCustody,
    /// Position is in an invalid state for this operation.
    InvalidPositionState,
    /// Perpetuals configuration contains invalid parameters.
    InvalidPerpetualsConfig,
    /// Pool configuration contains invalid parameters.
    InvalidPoolConfig,
    /// Custody configuration contains invalid parameters.
    InvalidCustodyConfig,
    /// Insufficient token amount returned from the operation.
    InsufficientAmountReturned,
    /// Price slippage exceeds the maximum allowed limit.
    MaxPriceSlippage,
    /// Position leverage exceeds the maximum allowed limit.
    MaxLeverage,
    /// Position amount exceeds the limit allowed for this custody.
    PositionAmountLimit,
    /// Custody amount limit exceeded.
    CustodyAmountLimit,
    /// Token ratio is outside the acceptable range for pool balance.
    TokenRatioOutOfRange,
    /// Token utilization exceeds the maximum allowed threshold.
    MaxUtilization,
    /// Token is not supported in this pool or operation.
    UnsupportedToken,
    /// This instruction is not allowed at this time.
    InstructionNotAllowed,
    /// Market is currently closed for the requested action.
    MarketClosed,
    /// Trading hours configuration is invalid or malformed.
    InvalidTradingHours,
    /// Permissionless oracle update requires a signature instruction.
    PermissionlessOracleMissingSignature,
    /// Signature verification data is malformed.
    PermissionlessOracleMalformedEd25519Data,
    /// Signature was not produced by the authorized oracle authority.
    PermissionlessOracleSignerMismatch,
    /// Signed message does not match the instruction parameters.
    PermissionlessOracleMessageMismatch,
    /// Required account entry is missing from the account map.
    AccountMapMissingEntry,
}

} // verus!
