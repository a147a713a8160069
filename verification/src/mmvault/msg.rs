use vstd::prelude::*;
use vstd::utf8::encode_utf8;
use crate::arith::{seq_sum, lemma_seq_sum_take_step, lemma_seq_sum_prefix_le};
use crate::coin::Coin;
use crate::mmvault::error::{ContractError, ContractResult};
use crate::mmvault::state::{Config, FeeTier, FeeTierConfig, TokenData};
use crate::precdec::Dec;

verus! {

#[derive(Debug, Clone)]
pub struct DepositOptions {
    pub token_a: Option<Coin>,
    pub token_b: Option<Coin>,
}

#[derive(Debug, Clone)]
pub struct ReceiveFunds {}

#[derive(Debug, Clone)]
pub struct MigrateMsg {
    pub config: Option<Config>,
}

#[derive(Debug, Clone)]
pub struct InstantiateMsg {
    pub whitelist: Vec<String>,
    pub token_a: TokenData,
    pub token_b: TokenData,
    pub fee_tier_config: FeeTierConfig,
    pub deposit_cap: u128,
    pub timestamp_stale: u64,
    pub paused: bool,
    pub oracle_contract: String,
}

#[derive(Debug, Clone)]
pub struct ConfigUpdateMsg {
    pub whitelist: Option<Vec<String>>,
    pub max_blocks_old_token_a: Option<u64>,
    pub max_blocks_old_token_b: Option<u64>,
    pub deposit_cap: Option<u128>,
    pub timestamp_stale: Option<u64>,
    pub fee_tier_config: Option<FeeTierConfig>,
    pub paused: Option<bool>,
    pub imbalance: Option<u32>,
    pub skew: Option<i32>,
    pub oracle_contract: Option<String>,
}

/// The sum of the percentages of the tiers.
pub open spec fn tier_percentages(ts: Seq<FeeTier>) -> Seq<u64> {
    ts.map_values(|t: FeeTier| t.percentage)
}

/// Sums the tier percentages (the tiers have been checked not to overflow).
pub fn sum_percentages(tiers: &Vec<FeeTier>) -> (r: u64)
    requires
        seq_sum(tier_percentages(tiers@)) <= u64::MAX,
    ensures
        r == seq_sum(tier_percentages(tiers@)),
{
    let ghost p = tier_percentages(tiers@);
    let n = tiers.len();
    let mut total: u64 = 0;
    let mut i: usize = 0;
    while i < n
        invariant
            n == tiers@.len(),
            p == tier_percentages(tiers@),
            p.len() == n,
            i <= n,
            total == seq_sum(p.take(i as int)),
            seq_sum(p) <= u64::MAX,
        decreases n - i,
    {
        proof {
            lemma_seq_sum_take_step(p, i as int);
            lemma_seq_sum_prefix_le(p, i as int + 1);
        }
        total = total + tiers[i].percentage;
        i = i + 1;
    }
    assert(p.take(n as int) =~= p);
    total
}

/// The denom starts with `ibc/`.
pub open spec fn is_ibc_denom(d: Seq<char>) -> bool {
    d.len() >= 4 && d[0] == 'i' && d[1] == 'b' && d[2] == 'c' && d[3] == '/'
}

/// An upper-case hexadecimal digit.
pub open spec fn is_upper_hex(c: char) -> bool {
    ('0' <= c && c <= '9') || ('A' <= c && c <= 'F')
}

/// Why a denom is refused: an IBC denom must be 68 bytes long and carry an
/// upper-case hexadecimal hash after its `ibc/` prefix.
pub open spec fn denom_reason(d: Seq<char>) -> Option<Seq<char>> {
    if is_ibc_denom(d) {
        if encode_utf8(d).len() != 68 {
            Some("expected length of 68 chars"@)
        } else if exists|i: int| 4 <= i < d.len() && !is_upper_hex(#[trigger] d[i]) {
            Some("invalid denom hash"@)
        } else {
            None
        }
    } else {
        None
    }
}

impl InstantiateMsg {
    pub open spec fn reason_kind(self) -> Option<Seq<char>> {
        if self.whitelist@.len() == 0 {
            Some("whitelist"@)
        } else if self.token_a.denom@.len() == 0 {
            Some("token_a denom"@)
        } else if self.token_b.denom@.len() == 0 {
            Some("token_b denom"@)
        } else if self.token_a.pair.base@.len() == 0 {
            Some("token_a symbol (base)"@)
        } else if self.token_b.pair.base@.len() == 0 {
            Some("token_b symbol (base)"@)
        } else {
            None
        }
    }

    /// The checks `validate` runs, in order, pass.
    pub open spec fn is_valid(self) -> bool {
        &&& self.reason_kind() is None
        &&& denom_reason(self.token_a.denom@) is None
        &&& denom_reason(self.token_b.denom@) is None
        &&& seq_sum(tier_percentages(self.fee_tier_config.fee_tiers@)) <= 100
        &&& !(self.token_a.pair.quote@ == self.token_b.pair.quote@ && self.token_b.pair.quote@ != "USD"@)
    }

    pub fn validate(&self) -> (r: ContractResult<()>)
        requires
            self.reason_kind() is None && denom_reason(self.token_a.denom@) is None && denom_reason(
                self.token_b.denom@,
            ) is None ==> seq_sum(tier_percentages(self.fee_tier_config.fee_tiers@)) <= u64::MAX,
        ensures
            r is Ok <==> self.is_valid(),
            self.reason_kind() matches Some(kind) ==> (r matches Err(ContractError::EmptyValue { kind: k }) && k@ == kind),
            self.reason_kind() is None ==> (denom_reason(self.token_a.denom@) matches Some(why) ==>
                (r matches Err(ContractError::InvalidIbcDenom { denom, reason }) && denom@ == self.token_a.denom@ && reason@ == why)),
            self.reason_kind() is None && denom_reason(self.token_a.denom@) is None ==>
                (denom_reason(self.token_b.denom@) matches Some(why) ==>
                (r matches Err(ContractError::InvalidIbcDenom { denom, reason }) && denom@ == self.token_b.denom@ && reason@ == why)),
            self.reason_kind() is None && denom_reason(self.token_a.denom@) is None
                && denom_reason(self.token_b.denom@) is None
                && seq_sum(tier_percentages(self.fee_tier_config.fee_tiers@)) > 100 ==>
                r matches Err(ContractError::InvalidFeeTier { .. }),
            self.reason_kind() is None && denom_reason(self.token_a.denom@) is None
                && denom_reason(self.token_b.denom@) is None
                && seq_sum(tier_percentages(self.fee_tier_config.fee_tiers@)) <= 100
                && self.token_a.pair.quote@ == self.token_b.pair.quote@ && self.token_b.pair.quote@ != "USD"@ ==>
                (r matches Err(ContractError::OnlySupportUsdQuote { quote0, quote1 })
                    && quote0@ == self.token_a.pair.quote@ && quote1@ == self.token_b.pair.quote@),
    {
        if self.whitelist.len() == 0 {
            return Err(ContractError::EmptyValue { kind: String::from_str("whitelist") });
        }
        self.check_empty(self.token_a.denom.clone(), String::from_str("token_a denom"))?;
        self.check_empty(self.token_b.denom.clone(), String::from_str("token_b denom"))?;
        self.check_empty(self.token_a.pair.base.clone(), String::from_str("token_a symbol (base)"))?;
        self.check_empty(self.token_b.pair.base.clone(), String::from_str("token_b symbol (base)"))?;
        Self::validate_denom(self.token_a.denom.as_str())?;
        Self::validate_denom(self.token_b.denom.as_str())?;
        Self::validate_fee_tier_config(&self.fee_tier_config)?;
        let usd = String::from_str("USD");
        if self.token_a.pair.quote == self.token_b.pair.quote && self.token_b.pair.quote != usd {
            return Err(ContractError::OnlySupportUsdQuote {
                quote0: self.token_a.pair.quote.clone(),
                quote1: self.token_b.pair.quote.clone(),
            });
        }
        Ok(())
    }

    /// The tier percentages must total at most 100.
    pub fn validate_fee_tier_config(config: &FeeTierConfig) -> (r: ContractResult<()>)
        requires
            seq_sum(tier_percentages(config.fee_tiers@)) <= u64::MAX,
        ensures
            r is Ok <==> seq_sum(tier_percentages(config.fee_tiers@)) <= 100,
            r matches Err(e) ==> (e matches ContractError::InvalidFeeTier { reason }
                && reason@ == "Total fee tier percentages must be <= 100%"@),
    {
        let total_percentage = sum_percentages(&config.fee_tiers);
        if total_percentage > 100 {
            return Err(ContractError::InvalidFeeTier {
                reason: String::from_str("Total fee tier percentages must be <= 100%"),
            });
        }
        Ok(())
    }

    /// An IBC denom (one starting with `ibc/`) must be 68 bytes long and end
    /// in an upper-case hexadecimal hash; other denoms pass.
    pub fn validate_denom(denom: &str) -> (r: ContractResult<()>)
        ensures
            match denom_reason(denom@) {
                Some(why) => r matches Err(ContractError::InvalidIbcDenom { denom: d, reason })
                    && d@ == denom@ && reason@ == why,
                None => r is Ok,
            },
    {
        let n = denom.unicode_len();
        if n >= 4 && denom.get_char(0) == 'i' && denom.get_char(1) == 'b' && denom.get_char(2) == 'c'
            && denom.get_char(3) == '/' {
            if denom.as_bytes().len() != 68 {
                proof {
                    reveal_strlit("expected length of 68 chars");
                }
                return Err(ContractError::InvalidIbcDenom {
                    denom: String::from_str(denom),
                    reason: String::from_str("expected length of 68 chars"),
                });
            }
            let mut i: usize = 4;
            while i < n
                invariant
                    n == denom@.len(),
                    4 <= i <= n,
                    is_ibc_denom(denom@),
                    encode_utf8(denom@).len() == 68,
                    forall|k: int| 4 <= k < i ==> is_upper_hex(#[trigger] denom@[k]),
                decreases n - i,
            {
                let c = denom.get_char(i);
                if !(('0' <= c && c <= '9') || ('A' <= c && c <= 'F')) {
                    proof {
                        reveal_strlit("invalid denom hash");
                    }
                    return Err(ContractError::InvalidIbcDenom {
                        denom: String::from_str(denom),
                        reason: String::from_str("invalid denom hash"),
                    });
                }
                i = i + 1;
            }
        }
        Ok(())
    }

    pub fn check_empty(&self, input: String, kind: String) -> (r: ContractResult<()>)
        ensures
            r is Ok <==> input@.len() > 0,
            r matches Err(e) ==> (e matches ContractError::EmptyValue { kind: k } && k == kind),
    {
        Self::check_nonempty(input, kind)
    }

    /// A field must not be empty; `kind` names it in the error.
    pub fn check_nonempty(input: String, kind: String) -> (r: ContractResult<()>)
        ensures
            r is Ok <==> input@.len() > 0,
            r matches Err(e) ==> (e matches ContractError::EmptyValue { kind: k } && k == kind),
    {
        if input.as_str().unicode_len() == 0 {
            return Err(ContractError::EmptyValue { kind });
        }
        Ok(())
    }
}

#[derive(Debug, Clone)]
pub enum ExecuteMsg {
    /// deposit funds to use for market making, minting shares to the beneficiary (the sender if none)
    Deposit { beneficiary: Option<String> },
    /// withdraw funds by burning LP tokens
    Withdraw { amount: u128 },
    DexDeposit {},
    /// cancels and withdraws all active DEX deposits
    DexWithdrawal {},
    /// create the LP token
    CreateToken {},
    UpdateConfig { update: ConfigUpdateMsg },
}

#[derive(Debug, Clone)]
pub enum QueryMsg {
    GetDeposits {},
    GetConfig {},
    GetPrices {},
    GetBalance {},
    SimulateProvideLiquidity { amount_0: u128, amount_1: u128, sender: String },
    SimulateWithdrawLiquidity { amount: u128 },
}

#[derive(Debug, Clone, Copy)]
pub struct CombinedPriceResponse {
    pub token_0_price: Dec,
    pub token_1_price: Dec,
    pub price_0_to_1: Dec,
}

#[derive(Debug, Clone, Copy)]
pub struct DepositResult {
    pub amount0: u128,
    pub amount1: u128,
    pub tick_index: i64,
    pub fee: u64,
}

/// A liquidity deposit the vault places on the DEX for itself, at one tick
/// and fee (autoswap on, no failure on liquidity behind enemy lines, and a
/// swap on deposit when asked).
#[derive(Debug, Clone)]
pub struct DexDeposit {
    pub token_a: String,
    pub token_b: String,
    pub amount_a: u128,
    pub amount_b: u128,
    pub tick_index: i64,
    pub fee: u64,
    pub swap_on_deposit: bool,
}

/// One of the vault's positions on the DEX, as the DEX lists it.
#[derive(Debug, Clone)]
pub struct UserDeposit {
    pub shares_owned: String,
    pub center_tick_index: i64,
    pub fee: u64,
}

/// The withdrawal of one of the vault's DEX positions, to the vault itself.
#[derive(Debug, Clone)]
pub struct DexWithdrawal {
    pub token_a: String,
    pub token_b: String,
    pub shares_to_remove: String,
    pub tick_index: i64,
    pub fee: u64,
}

/// A message the vault sends (the vault's own address is its sender).
#[derive(Debug, Clone)]
pub enum VaultMsg {
    /// Mint LP tokens to an address.
    Mint { denom: String, amount: u128, to: String },
    /// Burn LP tokens the vault holds.
    Burn { denom: String, amount: u128 },
    /// Send one coin from the vault to an address.
    Send { to: String, denom: String, amount: u128 },
    /// Place liquidity on the DEX.
    Deposit(DexDeposit),
    /// Withdraw a position from the DEX.
    Withdrawal(DexWithdrawal),
    /// Create the LP denom through the token factory.
    CreateDenom { subdenom: String },
    /// Place a limit order on the DEX.
    PlaceLimitOrder(LimitOrder),
}

/// An immediate-or-cancel limit order of the vault on the DEX, selling
/// `amount_in` of `token_in` for `token_out` at no worse than the given tick
/// and, when one is given, no less than an average price (in decimal atomics).
#[derive(Debug, Clone)]
pub struct LimitOrder {
    pub token_in: String,
    pub token_out: String,
    pub tick_index_in_to_out: i64,
    pub amount_in: u128,
    pub min_average_sell_price: Option<String>,
}

/// A key and value the response carries.
#[derive(Debug, Clone)]
pub struct Attribute {
    pub key: String,
    pub value: String,
}

/// A message sent with a reply id: when `reply_on_success` is set, the
/// vault is called back with `id` and `payload` once it has succeeded.
#[derive(Debug, Clone)]
pub struct SubMessage<M> {
    pub msg: M,
    pub id: u64,
    pub reply_on_success: bool,
    pub payload: Vec<u8>,
}

/// What an entry point answers: messages to send, then sub-messages, and
/// the attributes of the response.
#[derive(Debug, Clone)]
pub struct VaultResponse {
    pub messages: Vec<VaultMsg>,
    pub submessages: Vec<SubMessage<VaultMsg>>,
    pub attributes: Vec<Attribute>,
}

/// The payload carried through a withdrawal's reply.
#[derive(Debug, Clone)]
pub struct WithdrawPayload {
    pub sender: String,
    pub amount: String,
}

} // verus!
