use vstd::prelude::*;
use crate::precdec::RatioError;

verus! {

/// The arithmetic operation that overflowed.
#[derive(Debug, Clone, Copy, PartialEq, Eq)]
pub enum OverflowOperation {
    Add,
    Sub,
    Mul,
}

/// Errors of the vault. Host errors (storage, address checks, queries) are
/// carried by the entry points around this crate.
#[derive(Debug, Clone)]
pub enum ContractError {
    EmptyValue { kind: String },
    BadTokenA,
    DecodingError,
    BlockOnHold,
    NoResponseData,
    ActiveDepositsExist,
    BadTokenB,
    InvalidIbcDenom { denom: String, reason: String },
    UnsupportedMarket { symbol: String, quote: String, location: String },
    DisabledMarket { symbol: String, quote: String, location: String },
    PriceAgeUnavailable { symbol: String, quote: String },
    PriceNotAvailable { symbol: String, quote: String },
    PriceIsNil { symbol: String, quote: String },
    PriceTooOld { symbol: String, quote: String, max_blocks: u64 },
    MalformedInput { input: String, reason: String },
    OnlySupportUsdQuote { quote0: String, quote1: String },
    InvalidBaseFee { fee: u64 },
    InvalidDepositPercentage { percentage: u64 },
    TooManyDecimals,
    PriceIsNegative,
    DecimalConversionError,
    NoFundsSent,
    InvalidToken,
    InvalidTokenAmount,
    InvalidWithdrawAmount,
    ZeroBurnAmount,
    TokenAlreadyCreated,
    Unauthorized,
    NoFundsAvailable,
    FundsNotAllowed,
    OnlyLpTokenAllowed,
    ConversionError,
    InvalidPrice,
    InvalidFeeTier { reason: String },
    InvalidConfig { reason: String },
    StaleTimestamp,
    SubMsgFailure { reason: String },
    NoReplyData,
    ParseError,
    Paused,
    ExceedsDepositCap,
    LpTokenError,
    InsufficientFundsForWithdrawal,
    InsufficientFunds { available: u128, required: u128 },
    SerializationError,
    TickIndexDoesNotExist,
    LiquidityNotFound,
    UnknownReplyId { id: u64 },
    OracleError { msg: String },
    Overflow(OverflowOperation),
    CheckedDiv(RatioError),
    CustomError(String),
}

pub type ContractResult<T> = Result<T, ContractError>;

} // verus!
