use vstd::prelude::*;

verus! {

/// The oracle's configuration: the dAsset core contract it reads the
/// redemption rate from, and the dAsset's denom.
#[derive(Debug, Clone)]
pub struct Config {
    pub core_contract: String,
    pub d_asset_denom: String,
}

/// A price Slinky quotes, as an integer string, with the block it was set at.
#[derive(Debug, Clone)]
pub struct QuotePrice {
    pub price: String,
    pub block_height: u64,
}

/// Slinky's answer to a price query: the price if any, the update count
/// (zero: never set) and the number of decimals of the integer price.
#[derive(Debug, Clone)]
pub struct PriceResponse {
    pub price: Option<QuotePrice>,
    pub nonce: u64,
    pub decimals: u64,
}

/// The dAsset core contract's answer about its unbonding period, with the
/// time it was read.
#[derive(Debug, Clone)]
pub struct UnbondingPeriodResponse {
    pub unbonding_period: u64,
    pub update_time: u64,
}

} // verus!
