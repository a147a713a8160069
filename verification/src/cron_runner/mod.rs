//! The cron runner: on each call it asks every configured vault to withdraw
//! its DEX positions and then to deposit them again.

pub mod error;
pub mod msg;
pub mod state;
pub mod utils;
pub mod contract;
