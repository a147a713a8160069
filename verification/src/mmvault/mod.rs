//! The market-making vault: users deposit two tokens and receive shares by
//! value; whitelisted operators place the vault's funds on the DEX across fee
//! tiers and withdraw them again; share holders burn shares for a
//! proportional part of the funds.

pub mod error;
pub mod state;
pub mod msg;
pub mod utils;
pub mod execute;
pub mod contract;
pub mod laws;
