use vstd::prelude::*;

verus! {

/// Errors of the dAsset updater. Host errors (storage, address checks,
/// queries) are carried by the entry points around this crate.
#[derive(Debug, Clone)]
pub enum ContractError {
    Unauthorized,
    SerializationError,
    DecimalConversionError,
    InvalidFeeTier { reason: String },
    InvalidAssetConfig { reason: String },
}

pub type ContractResult<T> = Result<T, ContractError>;

} // verus!
