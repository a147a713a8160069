use vstd::prelude::*;
use crate::mmvault::error::OverflowOperation;
use crate::precdec::RatioError;

verus! {

/// Errors of the oracle. Host errors (storage, queries, address checks)
/// are carried by the entry points around this crate.
#[derive(Debug, Clone)]
pub enum ContractError {
    PriceNotAvailable { symbol: String, quote: String },
    PriceTooOld { symbol: String, quote: String, max_blocks: u64 },
    UnsupportedMarket { symbol: String, quote: String, location: String },
    PriceIsNil { symbol: String, quote: String },
    TooManyDecimals,
    PriceIsNegative,
    DecimalConversionError,
    PrecDecConversionError,
    InvalidPrice,
    SerializationError,
    UpdateOwnershipError,
    Unauthorized,
    Overflow(OverflowOperation),
    CheckedDiv(RatioError),
}

pub type ContractResult<T> = Result<T, ContractError>;

} // verus!
