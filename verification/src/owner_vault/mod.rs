//! The owner-operated vault: its owner deposits and withdraws the two
//! tokens, and the owner or the cron module places them on the DEX at one
//! fee, optionally with an ambient deposit of the rest.

pub mod state;
pub mod msg;
pub mod utils;
pub mod execute;
pub mod contract;
pub mod prices;
