//! Verified core of a family of Neutron market-making contracts: the vault
//! that mints shares against two-token deposits and spreads liquidity over
//! fee tiers, its earlier single-tier variant, the cron runner that
//! rebalances vaults, the dAsset updater that derives fee tiers from APY,
//! and the price oracles that feed them.
//!
//! Storage, the host API and message encoding stay outside this crate; every
//! decision those entry points take is a function here, with its contract.

pub mod arith;
pub mod text;
pub mod precdec;
pub mod coin;
pub mod wasm;
pub mod cron_runner;
pub mod dasset_updator;
pub mod mmvault;
pub mod oracle;
pub mod maxbtc_oracle;
pub mod lst_oracle;
pub mod slinky_oracle;
pub mod owner_vault;
