use vstd::prelude::*;

verus! {

#[derive(Debug, Clone)]
pub enum QueryMsg {
    GetConfig {},
    GetAllApy {},
    GetFeeTiers {},
}

#[derive(Debug, Clone)]
pub struct UpdateConfig {
    pub new_assets: Option<Vec<AssetData>>,
    pub new_apy_contract: Option<String>,
    pub new_whitelist: Option<Vec<String>>,
}

#[derive(Debug, Clone)]
pub enum ExecuteMsg {
    UpdateConfig { new_config: UpdateConfig },
    RunVaultUpdate {},
}

#[derive(Debug, Clone)]
pub struct MigrateMsg {}

#[derive(Debug, Clone)]
pub struct AssetData {
    /// denom of the dasset
    pub denom: String,
    /// core contract address of the dasset
    pub core_contract: String,
    /// unbonding period of the dasset in days
    pub unbonding_period: u64,
    /// fee spacings to add on-top of the calculated base fee
    pub fee_spacings: Vec<u64>,
    /// percentages of the dasset on each fee spacing
    pub percentages: Vec<u64>,
    /// vault address for the dasset
    pub vault_address: String,
    /// query period in hours for the dasset apy contract
    pub query_period_hours: u64,
    /// amount to dampen the fee calculation by
    pub fee_dempening_amount: u64,
}

#[derive(Debug, Clone)]
pub struct InstantiateMsg {
    pub assets: Vec<AssetData>,
    pub apy_contract: String,
    pub whitelist: Vec<String>,
}

/// A vault configuration update, which carries no field.
#[derive(Debug, Clone)]
pub struct UpdateVaultConfig {}

} // verus!
