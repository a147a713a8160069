use vstd::prelude::*;
use crate::cron_runner::state::Config;

verus! {

#[derive(Debug, Clone)]
pub struct InstantiateMsg {
    /// List of vault contract addresses to rebalance
    pub vault_addresses: Vec<String>,
    /// Address authorized to call the main rebalancing function (typically the cron module)
    pub cron_address: String,
    /// Address authorized to update configuration and manage the contract
    pub admin_address: String,
}

#[derive(Debug, Clone)]
pub enum ExecuteMsg {
    /// Rebalance all vaults: dex_withdrawal followed by dex_deposit on each
    RunRebalancing {},
    /// Update the contract configuration (admin-only)
    UpdateConfig { new_config: ConfigUpdate },
}

#[derive(Debug, Clone)]
pub struct ConfigUpdate {
    /// New list of vault addresses (replaces current list)
    pub vault_addresses: Option<Vec<String>>,
    /// New cron address
    pub cron_address: Option<String>,
    /// New admin address
    pub admin_address: Option<String>,
}

#[derive(Debug, Clone)]
pub enum QueryMsg {
    /// Get the current configuration
    GetConfig {},
    /// Get the list of vault addresses
    GetVaultList {},
}

#[derive(Debug, Clone)]
pub struct VaultListResponse {
    pub vault_addresses: Vec<String>,
}

#[derive(Debug, Clone)]
pub struct MigrateMsg {
    /// Optional new configuration during migration
    pub new_config: Option<Config>,
}

} // verus!
