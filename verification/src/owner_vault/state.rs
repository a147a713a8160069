use vstd::prelude::*;
use crate::coin::Coin;
use crate::mmvault::state::CurrencyPair;

verus! {

pub const DEX_WITHDRAW_REPLY_ID: u64 = 1;

/// The cron module, which may run the DEX deposit and withdrawal too.
pub open spec fn cron_module_address() -> Seq<char> {
    "neutron1cd6wafvehv79pm2yxth40thpyc7dc0yrqkyk95"@
}

/// A token of the pair: its denom, decimals and oracle pair.
#[derive(Debug, Clone)]
pub struct TokenData {
    pub denom: String,
    pub decimals: u8,
    pub pair: CurrencyPair,
}

impl TokenData {
    /// A copy with the same fields.
    pub fn copy_of(&self) -> (r: Self)
        ensures
            r == *self,
    {
        TokenData { denom: self.denom.clone(), decimals: self.decimals, pair: self.pair.copy_of() }
    }
}

#[derive(Debug, Clone)]
pub struct PairData {
    pub token_0: TokenData,
    pub token_1: TokenData,
    pub pair_id: String,
}

/// The balances the vault has recorded of its two tokens.
#[derive(Debug, Clone)]
pub struct Balances {
    pub token_0: Coin,
    pub token_1: Coin,
}

/// The vault's configuration.
#[derive(Debug, Clone)]
pub struct Config {
    pub pair_data: PairData,
    /// number of blocks until price is stale
    pub max_blocks_old: u64,
    pub balances: Balances,
    pub base_fee: u64,
    pub base_deposit_percentage: u64,
    pub ambient_fee: u64,
    pub deposit_ambient: bool,
    pub owner: String,
    pub deposit_cap: u128,
}

} // verus!
