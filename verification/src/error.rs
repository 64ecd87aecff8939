//! Error codes of the two programs.

use vstd::prelude::*;

verus! {

/// Errors of the deposit bank: markets, banks and user deposits.
#[derive(Clone, Copy, Debug, PartialEq, Eq, Structural)]
pub enum BankErrorCodes {
    /// Caller is not authorized to perform this action.
    Unauthorized,
    /// Market is paused: all operations are temporarily disabled.
    MarketPaused,
    /// Protocol fee cannot exceed 100% (10,000 bps).
    InvalidProtocolFee,
    /// Insufficient user balance for this operation.
    InsufficientUserBalance,
    /// Insufficient liquidity in the bank vault for this operation.
    InsufficientVaultBalance,
    /// Amount must be greater than zero.
    InvalidAmount,
    /// Arithmetic overflow: the resulting value does not fit in u64.
    MathOverflow,
    /// Token account validation failed: wrong owner, mint or vault authority.
    InvalidTokenAccount,
    /// Deposit amount exceeds the bank's configured deposit limit.
    DepositLimitExceeded,
    /// Cannot withdraw or borrow more than the user has available.
    AmountExceedsAvailable,
    /// User deposit account was not initialized for this bank.
    UserDepositNotInitialized,
    /// Bank for this mint does not exist on the current market.
    BankNotFound,
    /// Health factor is below the liquidation threshold.
    UnhealthyPosition,
    /// The user's token account was not supplied for a token deposit.
    MissingTokenAccount,
    /// The bank vault was not supplied for a token deposit.
    MissingBankVault,
    /// The token program was not supplied for a token deposit.
    MissingTokenProgram,
    /// A token account of a token deposit has the wrong owner.
    SPLBankCheckError,
}

/// Errors of the lending protocol.
#[derive(Clone, Copy, Debug, PartialEq, Eq, Structural)]
pub enum LendingError {
    /// Invalid risk configuration provided.
    InvalidRiskConfig,
    /// Amount must be greater than zero.
    InvalidAmount,
    /// Math calculation overflow.
    MathOverflow,
    /// Insufficient collateral for this action.
    InsufficientCollateral,
    /// Health factor too low to perform withdraw.
    HealthFactorTooLow,
    /// Requested borrow amount exceeds LTV limit.
    ExceedsLtvLimit,
    /// Position is healthy and cannot be liquidated.
    PositionNotLiquidatable,
    /// Insufficient collateral to cover liquidation bonus.
    InsufficientCollateralToSeize,
    /// No rewards available for claim.
    NoRewardsAvailable,
    /// Account already migrated to latest version.
    AlreadyMigrated,
}

} // verus!
