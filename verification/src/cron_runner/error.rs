use vstd::prelude::*;

verus! {

/// Errors of the cron runner. Host errors (storage, address checks) are
/// carried by the entry points around this crate.
#[derive(Debug, Clone)]
pub enum ContractError {
    Unauthorized,
    EmptyValue { kind: String },
    InvalidConfig { reason: String },
    SerializationError,
    InvalidVaultAddress { addr: String },
    DuplicateVaultAddress { addr: String },
    NoVaultsConfigured,
    MessageCreationError { vault: String, reason: String },
}

pub type ContractResult<T> = Result<T, ContractError>;

} // verus!
