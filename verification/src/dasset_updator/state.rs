use vstd::prelude::*;
use crate::dasset_updator::msg::AssetData;

verus! {

/// Stored configuration. Addresses are kept as the validated strings.
#[derive(Debug, Clone)]
pub struct Config {
    pub assets: Vec<AssetData>,
    pub apy_contract: String,
    pub whitelist: Vec<String>,
}

} // verus!
