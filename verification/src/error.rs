//! The engine's error type.

use vstd::prelude::*;

verus! {

/// Every failure an operation of the engine can report.
#[derive(Clone, Copy, Debug, PartialEq, Eq, Structural)]
pub enum GoldRushError {
    // General
    AlreadyInitialized,
    Unauthorized,
    ProgramPaused,
    EmergencyPaused,
    AlreadyPaused,
    AlreadyActive,
    NotPaused,
    AlreadyEmergencyPaused,
    NotEmergencyPaused,
    // Configuration
    InvalidFee,
    InvalidMinBetAmount,
    NoKeeperAuthorities,
    UnauthorizedKeeper,
    InvalidKeeperAuthorities,
    InvalidTimeFactorConfig,
    InvalidTimeFactorRange,
    InvalidDirectionFactorConfig,
    InvalidTreasuryAuthority,
    InvalidNewAdmin,
    NoNewKeeperAuthorities,
    MaxKeeperAuthoritiesReached,
    InvalidNewTokenMint,
    InvalidNewTreasury,
    InvalidNewFeeGoldPriceBps,
    InvalidNewFeeStockPriceBps,
    InvalidNewMinBetAmount,
    InvalidNewBetCutoffWindowSecs,
    // Round management
    InvalidTimestamps,
    RoundAlreadyExists,
    InvalidRoundStatus,
    InvalidRoundMarketType,
    RoundNotReady,
    RoundNotReadyForStart,
    RoundNotActive,
    RoundEnded,
    RoundNotEnded,
    RoundNotReadyForSettlement,
    RoundNotCapturedStartPrice,
    RoundAlreadyCapturedStartPrice,
    InvalidAssetPrice,
    InvalidDuration,
    // Assets and groups
    InvalidAssetAccount,
    InvalidAssetAccountData,
    InvalidGroupAssetAccount,
    MaxAssetsReached,
    AssetStartPriceNotSet,
    GroupAssetNotFullyCapturedStartPrice,
    GroupAssetAlreadyFinalizedStartPrice,
    GroupAssetAlreadyCapturedEndPrice,
    GroupAssetAlreadyFinalizedEndPrice,
    InvalidPriceFeedAccount,
    InvalidPriceUpdateAccountData,
    // Betting
    BetBelowMinimum,
    InvalidBetStatus,
    InvalidBetAccount,
    InvalidBetAccountData,
    InvalidBettorsLength,
    BetNotWon,
    BetNotWonOrDraw,
    ClaimPendingBet,
    ClaimLosingBet,
    AlreadyClaimed,
    NoBetsPlaced,
    // Settlement and claims
    OracleError,
    PythError,
    SettlementFailed,
    AllBetsAlreadySettled,
    InsufficientVaultBalance,
    RewardCalculationError,
    InvalidRemainingAccountsLength,
    // Records and tokens
    InvalidTokenAccount,
    InsufficientBalance,
    InvalidMint,
    TokenTransferFailed,
    SerializeError,
    AccountDataTooSmall,
    // Arithmetic
    Overflow,
    Underflow,
}

} // verus!
