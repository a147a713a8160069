//! The price oracle of the vaults: it reads Slinky prices, checks that they
//! are available, recent and for a supported market, scales them by the
//! tokens' decimals and applies a dAsset's redemption rate.

pub mod error;
pub mod state;
pub mod utils;
pub mod contract;
