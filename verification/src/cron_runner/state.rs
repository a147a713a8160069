use vstd::prelude::*;

verus! {

/// Stored configuration. Addresses are kept as the validated strings.
#[derive(Debug, Clone)]
pub struct Config {
    /// List of vault contract addresses to rebalance
    pub vault_addresses: Vec<String>,
    /// Address authorized to call the main rebalancing function (typically the cron module)
    pub cron_address: String,
    /// Address authorized to update configuration and manage the contract
    pub admin_address: String,
}

} // verus!
