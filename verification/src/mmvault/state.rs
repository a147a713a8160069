use vstd::prelude::*;
use crate::text::decimal;

verus! {

pub const CREATE_TOKEN_REPLY_ID: u64 = 1;
pub const WITHDRAW_REPLY_ID: u64 = 2;
pub const DEX_DEPOSIT_REPLY_ID: u64 = 3;
/// The reply id of the second clearing order of a DEX deposit; its reply
/// places the deposits.
pub const DEX_DEPOSIT_PREPARED_REPLY_ID: u64 = 4;
pub const SHARES_MULTIPLIER: u64 = 1000000000;

/// A pair of currencies as the oracle names it.
#[derive(Debug, Clone)]
pub struct CurrencyPair {
    pub base: String,
    pub quote: String,
}

#[derive(Debug, Clone)]
pub struct TokenData {
    pub denom: String,
    pub decimals: u8,
    pub pair: CurrencyPair,
    pub max_blocks_old: u64,
}

impl CurrencyPair {
    /// A copy with the same strings.
    pub fn copy_of(&self) -> (r: Self)
        ensures
            r == *self,
    {
        CurrencyPair { base: self.base.clone(), quote: self.quote.clone() }
    }
}

impl TokenData {
    /// A copy with the same fields.
    pub fn copy_of(&self) -> (r: Self)
        ensures
            r == *self,
    {
        TokenData {
            denom: self.denom.clone(),
            decimals: self.decimals,
            pair: self.pair.copy_of(),
            max_blocks_old: self.max_blocks_old,
        }
    }
}

#[derive(Debug, Clone)]
pub struct PairData {
    pub token_0: TokenData,
    pub token_1: TokenData,
    pub pair_id: String,
}

#[derive(Debug, Clone, Copy)]
pub struct FeeTier {
    pub fee: u64,
    pub percentage: u64,
}

#[derive(Debug, Clone)]
pub struct FeeTierConfig {
    pub fee_tiers: Vec<FeeTier>,
}

/// `FeeTier { fee: F, percentage: P }`.
pub open spec fn fee_tier_text(t: FeeTier) -> Seq<char> {
    "FeeTier { fee: "@ + decimal(t.fee as nat) + ", percentage: "@ + decimal(t.percentage as nat) + " }"@
}

/// The tiers, separated by `, `.
pub open spec fn fee_tiers_text(ts: Seq<FeeTier>) -> Seq<char>
    decreases ts.len(),
{
    if ts.len() == 0 {
        Seq::empty()
    } else if ts.len() == 1 {
        fee_tier_text(ts[0])
    } else {
        fee_tiers_text(ts.drop_last()) + ", "@ + fee_tier_text(ts.last())
    }
}

impl FeeTierConfig {
    /// The text the configuration displays as: the debug listing of its tiers,
    /// `[FeeTier { fee: F, percentage: P }, ...]`.
    pub fn fmt(&self) -> (r: String)
        ensures
            r@ == "["@ + fee_tiers_text(self.fee_tiers@) + "]"@,
    {
        let mut s = String::from_str("[");
        let ghost head = s@;
        let n = self.fee_tiers.len();
        let mut i: usize = 0;
        while i < n
            invariant
                n == self.fee_tiers@.len(),
                i <= n,
                s@ == head + fee_tiers_text(self.fee_tiers@.take(i as int)),
            decreases n - i,
        {
            let t = self.fee_tiers[i];
            if i > 0 {
                s.append(", ");
            }
            s.append("FeeTier { fee: ");
            let f = crate::text::u64_to_string(t.fee);
            s.append(f.as_str());
            s.append(", percentage: ");
            let p = crate::text::u64_to_string(t.percentage);
            s.append(p.as_str());
            s.append(" }");
            proof {
                let pre = self.fee_tiers@.take(i as int + 1);
                assert(pre.drop_last() =~= self.fee_tiers@.take(i as int));
                if i == 0 {
                    assert(self.fee_tiers@.take(0) =~= Seq::<FeeTier>::empty());
                }
                assert(s@ =~= head + fee_tiers_text(pre));
            }
            i = i + 1;
        }
        assert(self.fee_tiers@.take(n as int) =~= self.fee_tiers@);
        s.append("]");
        s
    }
}

/// This structure stores the concentrated pair parameters.
#[derive(Debug, Clone)]
pub struct Config {
    /// token and denom information
    pub pair_data: PairData,
    /// the denom of the contract's LP token
    pub lp_denom: String,
    /// total number of LP shares in existance
    pub total_shares: u128,
    /// list of addresses that can update the config and run restricted functions like dex_withdrawal and dex_deposit.
    pub whitelist: Vec<String>,
    /// maximum amount of dollar value that can be deposited into the contract
    pub deposit_cap: u128,
    /// location and weights of Deposits to be created
    pub fee_tier_config: FeeTierConfig,
    /// number of seconds after the last execution at which the contract is deemed stale.
    pub timestamp_stale: u64,
    /// last block time (seconds) at which an action was executed.
    pub last_executed: u64,
    /// The block when the contract was last paused due to stalenesss.
    pub pause_block: u64,
    /// whether the contract is paused. Paused contract cannot perform deposit functionalities.
    pub paused: bool,
    /// the oracle contract address. This contract will be used to get the price of the tokens.
    pub oracle_contract: String,
    /// the maximum skew of the AMM deposit index towards the over-supplied asset; 0 disables it.
    pub skew: i32,
    /// the imbalance factor (percent) indicating the rebalancing aggressiveness.
    pub imbalance: u32,
    /// General flat skew to add to the final deposit index of the vault
    pub oracle_price_skew: i32,
    /// the dynamic spread factor defines how quickly the undersupplied asset becomes more expensive
    pub dynamic_spread_factor: i32,
    /// the dynamic spread cap defines the maximum amount the undersupplied asset can be marked up in basis points.
    pub dynamic_spread_cap: i32,
}

} // verus!
