//! The dAsset updater: from each dAsset's APY it derives a base fee, builds
//! the fee tiers of the asset's vault and asks the vault to redeploy.

pub mod error;
pub mod msg;
pub mod state;
pub mod utils;
pub mod contract;
