use vstd::prelude::*;

verus! {

/// Every way an operation of the engine can be refused. A refused operation
/// leaves all records exactly as they were.
#[derive(Clone, Copy, Debug, PartialEq, Eq, Structural)]
pub enum ErrorCode {
    // validation
    InvalidQuestionLength,
    InvalidDescriptionLength,
    InvalidCategoryLength,
    InvalidResolutionDate,
    InvalidReasonLength,
    InvalidAmount,
    InvalidInputParameters,
    InvalidAccuracyScore,
    InvalidProofId,
    InvalidVerificationTime,
    PredictionAmountTooSmall,
    QuestionTooLong,
    InvalidEndTime,
    BetTooSmall,
    // authorization
    Unauthorized,
    UnauthorizedSigner,
    UnauthorizedEmergencyAction,
    UnauthorizedVerifier,
    InsufficientReputation,
    HumanVerificationRequired,
    VerificationExpired,
    // lifecycle
    MarketNotActive,
    MarketAlreadyPaused,
    AlreadyResolved,
    MarketResolved,
    MarketNotResolved,
    MarketExpired,
    MarketNotExpired,
    MarketResolutionDatePassed,
    ParentMarketNotActive,
    MustUseOracle,
    OracleNotEnabled,
    // arithmetic
    MathOverflow,
    // economic guards
    SlippageExceeded,
    ImbalancedLiquidity,
    InsufficientLiquidity,
    NoWinnings,
    PositionNotWinning,
    WrongOutcome,
    AlreadyClaimed,
    EvidenceRequirementsNotMet,
    // external data
    InsufficientOracleConfidence,
    InvalidOracleData,
    OracleFeedIdRequired,
    OracleThresholdRequired,
    OracleComparisonRequired,
    InvalidOracleComparison,
}

} // verus!
