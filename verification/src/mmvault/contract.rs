use vstd::prelude::*;
use crate::arith::seq_sum;
use crate::coin::Coin;
use crate::mmvault::error::{ContractError, ContractResult};
use crate::mmvault::execute::{attr, attr_is, attributes_are, deposit_minted, optional_entry};
use crate::mmvault::msg::{
    Attribute, CombinedPriceResponse, ExecuteMsg, InstantiateMsg, MigrateMsg, VaultResponse, denom_reason, tier_percentages,
};
use crate::mmvault::state::{
    Config, FeeTier, FeeTierConfig, PairData, CREATE_TOKEN_REPLY_ID, DEX_DEPOSIT_PREPARED_REPLY_ID, DEX_DEPOSIT_REPLY_ID, WITHDRAW_REPLY_ID,
    fee_tiers_text,
};
use crate::mmvault::utils::{
    get_mint_amount, get_token_value, get_withdrawal_messages, pair_id, parse_uint128, parsed_u128, redeemed,
    sort_token_data_and_get_pair_id_str, sorted_tokens, value_of, lemma_redeemed_le_total,
};
use crate::precdec::{dec_checked_add, dec_from_atomics, dec_limit, dec_lt};
use crate::text::{
    addr_list_debug, addr_list_text, bool_text, bool_to_string, contains_string, debug_str, debug_text, decimal,
    u64_to_string, u128_to_string,
};

verus! {

/// Copies of the strings, in order.
fn copy_strings(v: &Vec<String>) -> (r: Vec<String>)
    ensures
        r@ == v@,
{
    let mut r: Vec<String> = Vec::new();
    let n = v.len();
    let mut i: usize = 0;
    while i < n
        invariant
            n == v@.len(),
            i <= n,
            r@ == v@.take(i as int),
        decreases n - i,
    {
        r.push(v[i].clone());
        proof {
            assert(r@ =~= v@.take(i as int + 1));
        }
        i = i + 1;
    }
    proof {
        assert(v@.take(n as int) =~= v@);
    }
    r
}

/// A copy of the tiers.
fn copy_fee_tiers(c: &FeeTierConfig) -> (r: FeeTierConfig)
    ensures
        r.fee_tiers@ == c.fee_tiers@,
{
    let mut tiers: Vec<FeeTier> = Vec::new();
    let n = c.fee_tiers.len();
    let mut i: usize = 0;
    while i < n
        invariant
            n == c.fee_tiers@.len(),
            i <= n,
            tiers@ == c.fee_tiers@.take(i as int),
        decreases n - i,
    {
        tiers.push(c.fee_tiers[i]);
        proof {
            assert(tiers@ =~= c.fee_tiers@.take(i as int + 1));
        }
        i = i + 1;
    }
    proof {
        assert(c.fee_tiers@.take(n as int) =~= c.fee_tiers@);
    }
    FeeTierConfig { fee_tiers: tiers }
}

/// The configuration an instantiate message sets up: the tokens sorted by
/// denom, no LP token and no shares yet, nothing executed yet, no skew and
/// an imbalance factor of 50%.
pub open spec fn instantiated_config(msg: InstantiateMsg, c: Config) -> bool {
    let (t0, t1) = sorted_tokens(msg.token_a, msg.token_b);
    &&& c.pair_data.token_0 == t0
    &&& c.pair_data.token_1 == t1
    &&& c.pair_data.pair_id@ == pair_id(t0.denom@, t1.denom@)
    &&& c.whitelist@ == msg.whitelist@
    &&& c.fee_tier_config.fee_tiers@ == msg.fee_tier_config.fee_tiers@
    &&& c.lp_denom@.len() == 0
    &&& c.total_shares == 0
    &&& c.deposit_cap == msg.deposit_cap
    &&& c.timestamp_stale == msg.timestamp_stale
    &&& c.last_executed == 0
    &&& c.pause_block == 0
    &&& c.paused == msg.paused
    &&& c.oracle_contract == msg.oracle_contract
    &&& c.skew == 0
    &&& c.imbalance == 50
    &&& c.oracle_price_skew == 0
    &&& c.dynamic_spread_factor == 0
    &&& c.dynamic_spread_cap == 0
}

/// The keys and values instantiation reports.
pub open spec fn instantiate_entries(c: Config) -> Seq<(Seq<char>, Seq<char>)> {
    let t0 = c.pair_data.token_0;
    let t1 = c.pair_data.token_1;
    seq![
        ("action"@, "instantiate IMM"@),
        ("owner"@, addr_list_text(c.whitelist@)),
        ("max_blocks_stale_token_a"@, decimal(t0.max_blocks_old as nat)),
        ("max_blocks_stale_token_b"@, decimal(t1.max_blocks_old as nat)),
        ("token_0_denom"@, t0.denom@),
        ("token_0_symbol"@, t0.pair.base@),
        ("token_0_exponent"@, decimal(t0.decimals as nat)),
        ("token_0_quote_currency"@, t0.pair.quote@),
        ("token_1_denom"@, t1.denom@),
        ("token_1_symbol"@, t1.pair.base@),
        ("token_1_exponent"@, decimal(t1.decimals as nat)),
        ("token_1_quote_currency"@, t1.pair.quote@),
        ("pool_id"@, c.pair_data.pair_id@),
        ("deposit_cap"@, decimal(c.deposit_cap as nat)),
        ("oracle_contract"@, c.oracle_contract@),
        ("imbalance"@, decimal(c.imbalance as nat)),
        ("fee_tier_config"@, "["@ + fee_tiers_text(c.fee_tier_config.fee_tiers@) + "]"@),
        ("timestamp_stale"@, decimal(c.timestamp_stale as nat)),
        ("paused"@, bool_text(c.paused)),
    ]
}

/// The attributes instantiation reports, for the configuration it stores.
fn instantiate_attributes(c: &Config) -> (r: Vec<Attribute>)
    ensures
        attributes_are(r@, instantiate_entries(*c)),
{
    let t0 = &c.pair_data.token_0;
    let t1 = &c.pair_data.token_1;
    let mut a: Vec<Attribute> = Vec::new();
    a.push(attr("action", String::from_str("instantiate IMM")));
    a.push(attr("owner", addr_list_debug(&c.whitelist)));
    a.push(attr("max_blocks_stale_token_a", u64_to_string(t0.max_blocks_old)));
    a.push(attr("max_blocks_stale_token_b", u64_to_string(t1.max_blocks_old)));
    a.push(attr("token_0_denom", t0.denom.clone()));
    a.push(attr("token_0_symbol", t0.pair.base.clone()));
    a.push(attr("token_0_exponent", u64_to_string(t0.decimals as u64)));
    a.push(attr("token_0_quote_currency", t0.pair.quote.clone()));
    a.push(attr("token_1_denom", t1.denom.clone()));
    a.push(attr("token_1_symbol", t1.pair.base.clone()));
    a.push(attr("token_1_exponent", u64_to_string(t1.decimals as u64)));
    a.push(attr("token_1_quote_currency", t1.pair.quote.clone()));
    a.push(attr("pool_id", c.pair_data.pair_id.clone()));
    a.push(attr("deposit_cap", u128_to_string(c.deposit_cap)));
    a.push(attr("oracle_contract", c.oracle_contract.clone()));
    a.push(attr("imbalance", u64_to_string(c.imbalance as u64)));
    a.push(attr("fee_tier_config", c.fee_tier_config.fmt()));
    a.push(attr("timestamp_stale", u64_to_string(c.timestamp_stale)));
    a.push(attr("paused", bool_to_string(c.paused)));
    proof {
        assert(attributes_are(a@, instantiate_entries(*c)));
    }
    a
}

/// Checks an instantiate message and builds the configuration to store,
/// with the attributes to report. The host validates the addresses.
pub fn instantiate(msg: &InstantiateMsg) -> (r: ContractResult<(Config, Vec<Attribute>)>)
    requires
        msg.reason_kind() is None && denom_reason(msg.token_a.denom@) is None && denom_reason(msg.token_b.denom@)
            is None ==> seq_sum(tier_percentages(msg.fee_tier_config.fee_tiers@)) <= u64::MAX,
    ensures
        r is Ok <==> msg.is_valid(),
        msg.reason_kind() matches Some(kind) ==> (r matches Err(ContractError::EmptyValue { kind: k }) && k@ == kind),
        msg.reason_kind() is None ==> (denom_reason(msg.token_a.denom@) matches Some(why) ==> (r matches Err(
            ContractError::InvalidIbcDenom { denom, reason },
        ) && denom@ == msg.token_a.denom@ && reason@ == why)),
        msg.reason_kind() is None && denom_reason(msg.token_a.denom@) is None ==> (denom_reason(msg.token_b.denom@)
            matches Some(why) ==> (r matches Err(ContractError::InvalidIbcDenom { denom, reason })
            && denom@ == msg.token_b.denom@ && reason@ == why)),
        msg.reason_kind() is None && denom_reason(msg.token_a.denom@) is None && denom_reason(msg.token_b.denom@)
            is None && seq_sum(tier_percentages(msg.fee_tier_config.fee_tiers@)) > 100 ==> r matches Err(
            ContractError::InvalidFeeTier { .. },
        ),
        msg.reason_kind() is None && denom_reason(msg.token_a.denom@) is None && denom_reason(msg.token_b.denom@)
            is None && seq_sum(tier_percentages(msg.fee_tier_config.fee_tiers@)) <= 100
            && msg.token_a.pair.quote@ == msg.token_b.pair.quote@ && msg.token_b.pair.quote@ != "USD"@ ==> (r matches Err(
            ContractError::OnlySupportUsdQuote { quote0, quote1 },
        ) && quote0@ == msg.token_a.pair.quote@ && quote1@ == msg.token_b.pair.quote@),
        r matches Ok(v) ==> instantiated_config(*msg, v.0) && attributes_are(v.1@, instantiate_entries(v.0)),
{
    msg.validate()?;
    let (tokens, id) = sort_token_data_and_get_pair_id_str(&msg.token_a, &msg.token_b);
    let token_0 = tokens[0].copy_of();
    let token_1 = tokens[1].copy_of();
    let config = Config {
        pair_data: PairData { token_0, token_1, pair_id: id },
        lp_denom: String::new(),
        total_shares: 0,
        whitelist: copy_strings(&msg.whitelist),
        deposit_cap: msg.deposit_cap,
        fee_tier_config: copy_fee_tiers(&msg.fee_tier_config),
        timestamp_stale: msg.timestamp_stale,
        last_executed: 0,
        pause_block: 0,
        paused: msg.paused,
        oracle_contract: msg.oracle_contract.clone(),
        skew: 0,
        imbalance: 50,
        oracle_price_skew: 0,
        dynamic_spread_factor: 0,
        dynamic_spread_cap: 0,
    };
    let attributes = instantiate_attributes(&config);
    Ok((config, attributes))
}

/// The coins an execute message may carry: a withdrawal exactly its LP
/// tokens, a deposit anything (checked later), the privileged calls none.
pub fn check_execute_funds(msg: &ExecuteMsg, config: &Config, funds: &Vec<Coin>) -> (r: ContractResult<()>)
    ensures
        match msg {
            ExecuteMsg::Deposit { .. } => r is Ok,
            ExecuteMsg::Withdraw { amount } => {
                &&& funds@.len() != 1 ==> r == Err::<(), ContractError>(ContractError::OnlyLpTokenAllowed)
                &&& funds@.len() == 1 && (funds@[0].denom@ != config.lp_denom@ || funds@[0].amount != amount)
                    ==> r == Err::<(), ContractError>(ContractError::LpTokenError)
                &&& funds@.len() == 1 && funds@[0].denom@ == config.lp_denom@ && funds@[0].amount == amount
                    && amount == 0 ==> r == Err::<(), ContractError>(ContractError::ZeroBurnAmount)
                &&& funds@.len() == 1 && funds@[0].denom@ == config.lp_denom@ && funds@[0].amount == amount
                    && amount != 0 ==> r is Ok
            },
            _ => {
                &&& funds@.len() > 0 ==> r == Err::<(), ContractError>(ContractError::FundsNotAllowed)
                &&& funds@.len() == 0 ==> r is Ok
            },
        },
{
    match msg {
        ExecuteMsg::Deposit { .. } => Ok(()),
        ExecuteMsg::Withdraw { amount } => {
            if funds.len() != 1 {
                return Err(ContractError::OnlyLpTokenAllowed);
            }
            let lp_token = &funds[0];
            if lp_token.denom != config.lp_denom || lp_token.amount != *amount {
                return Err(ContractError::LpTokenError);
            }
            if *amount == 0 {
                return Err(ContractError::ZeroBurnAmount);
            }
            Ok(())
        },
        _ => {
            if funds.len() > 0 {
                return Err(ContractError::FundsNotAllowed);
            }
            Ok(())
        },
    }
}

/// Where a reply goes, by its id.
#[derive(Debug, Clone, Copy, PartialEq, Eq)]
pub enum ReplyRoute {
    CreateToken,
    Withdraw,
    /// The first clearing order of a DEX deposit: its outcome is reported.
    DexDeposit,
    /// The second clearing order of a DEX deposit: the deposits follow.
    DexDepositPrepared,
}

/// Routes a reply by id; an unknown id is refused.
pub fn reply_route(id: u64) -> (r: ContractResult<ReplyRoute>)
    ensures
        id == CREATE_TOKEN_REPLY_ID ==> r == Ok::<ReplyRoute, ContractError>(ReplyRoute::CreateToken),
        id == WITHDRAW_REPLY_ID ==> r == Ok::<ReplyRoute, ContractError>(ReplyRoute::Withdraw),
        id == DEX_DEPOSIT_REPLY_ID ==> r == Ok::<ReplyRoute, ContractError>(ReplyRoute::DexDeposit),
        id == DEX_DEPOSIT_PREPARED_REPLY_ID ==> r == Ok::<ReplyRoute, ContractError>(ReplyRoute::DexDepositPrepared),
        id != CREATE_TOKEN_REPLY_ID && id != WITHDRAW_REPLY_ID && id != DEX_DEPOSIT_REPLY_ID
            && id != DEX_DEPOSIT_PREPARED_REPLY_ID ==> r == Err::<ReplyRoute, ContractError>(
            ContractError::UnknownReplyId { id },
        ),
{
    if id == CREATE_TOKEN_REPLY_ID {
        Ok(ReplyRoute::CreateToken)
    } else if id == WITHDRAW_REPLY_ID {
        Ok(ReplyRoute::Withdraw)
    } else if id == DEX_DEPOSIT_REPLY_ID {
        Ok(ReplyRoute::DexDeposit)
    } else if id == DEX_DEPOSIT_PREPARED_REPLY_ID {
        Ok(ReplyRoute::DexDepositPrepared)
    } else {
        Err(ContractError::UnknownReplyId { id })
    }
}

/// The burn amount a withdrawal reply's payload carries, as text.
pub fn withdraw_reply_amount(amount: &String) -> (r: ContractResult<u128>)
    ensures
        match parsed_u128(amount@) {
            Some(v) => r == Ok::<u128, ContractError>(v),
            None => r == Err::<u128, ContractError>(ContractError::ParseError),
        },
{
    match parse_uint128(amount.as_str()) {
        Some(v) => Ok(v),
        None => Err(ContractError::ParseError),
    }
}

/// The answer to a DEX deposit's reply: an error is reported, not raised.
pub fn dex_deposit_reply(result: Result<(), String>) -> (r: VaultResponse)
    ensures
        r.messages@.len() == 0 && r.submessages@.len() == 0,
        match result {
            Ok(_) => {
                &&& r.attributes@.len() == 2
                &&& attr_is(r.attributes@[0], "action"@, "dex_deposit_response"@)
                &&& attr_is(r.attributes@[1], "status"@, "success"@)
            },
            Err(err) => {
                &&& r.attributes@.len() == 3
                &&& attr_is(r.attributes@[0], "action"@, "dex_deposit_response"@)
                &&& attr_is(r.attributes@[1], "status"@, "error_handled"@)
                &&& attr_is(r.attributes@[2], "error"@, debug_str(err@))
            },
        },
{
    let mut attributes: Vec<Attribute> = Vec::new();
    attributes.push(attr("action", String::from_str("dex_deposit_response")));
    match result {
        Err(err) => {
            attributes.push(attr("status", String::from_str("error_handled")));
            attributes.push(attr("error", debug_text(&err)));
        },
        Ok(_) => {
            attributes.push(attr("status", String::from_str("success")));
        },
    }
    VaultResponse { messages: Vec::new(), submessages: Vec::new(), attributes }
}

/// Migrates the contract: a configuration given replaces the stored one.
/// The attributes name the contract and its version.
pub fn migrate(config: &mut Config, msg: MigrateMsg, contract: &str, version: &str) -> (r: Vec<Attribute>)
    ensures
        match msg.config {
            Some(c) => *final(config) == c,
            None => *final(config) == *old(config),
        },
        r@.len() == 3,
        attr_is(r@[0], "action"@, "migrate"@),
        attr_is(r@[1], "contract"@, contract@),
        attr_is(r@[2], "version"@, version@),
{
    if let Some(new_config) = msg.config {
        *config = new_config;
    }
    let mut attributes: Vec<Attribute> = Vec::new();
    attributes.push(attr("action", String::from_str("migrate")));
    attributes.push(attr("contract", String::from_str(contract)));
    attributes.push(attr("version", String::from_str(version)));
    attributes
}

/// The shares a deposit of `amount_0`, `amount_1` by `sender` would mint,
/// given the prices and the vault's holdings (counting the deposit), as the
/// deposit itself decides it.
pub fn simulate_provide_liquidity(
    config: &Config,
    sender: &String,
    amount_0: u128,
    amount_1: u128,
    prices: CombinedPriceResponse,
    total_amount_0: u128,
    total_amount_1: u128,
) -> (r: ContractResult<u128>)
    requires
        value_of(amount_0, prices.token_0_price) < dec_limit() && value_of(amount_1, prices.token_1_price)
            < dec_limit() ==> value_of(amount_0, prices.token_0_price) + value_of(amount_1, prices.token_1_price)
            < dec_limit(),
    ensures
        r == deposit_minted(*config, sender@, amount_0, amount_1, prices, total_amount_0, total_amount_1),
{
    let deposit_value = get_token_value(prices, amount_0, amount_1)?;
    let total_value = get_token_value(prices, total_amount_0, total_amount_1)?;
    let total = match dec_checked_add(total_value.0, total_value.1) {
        Some(v) => v,
        None => { return Err(ContractError::Overflow(crate::mmvault::error::OverflowOperation::Add)); },
    };
    let cap = dec_from_atomics(config.deposit_cap, 0);
    proof {
        vstd::arithmetic::power::lemma_pow0(10);
    }
    if dec_lt(cap, total) && !contains_string(&config.whitelist, sender) {
        return Err(ContractError::ExceedsDepositCap);
    }
    get_mint_amount(config, prices, deposit_value.0, deposit_value.1, total_amount_0, total_amount_1)
}

/// What burning `amount` shares would pay out of holdings `total_amount_0`,
/// `total_amount_1`, with `total_supply` shares out.
pub fn simulate_withdraw_liquidity(
    config: &Config,
    amount: u128,
    total_amount_0: u128,
    total_amount_1: u128,
    total_supply: u128,
) -> (r: ContractResult<(u128, u128)>)
    requires
        amount <= total_supply ==> total_supply > 0,
    ensures
        amount > total_supply ==> r == Err::<(u128, u128), ContractError>(ContractError::InvalidWithdrawAmount),
        amount <= total_supply ==> r == Ok::<(u128, u128), ContractError>(
            (
                redeemed(total_amount_0, amount, total_supply) as u128,
                redeemed(total_amount_1, amount, total_supply) as u128,
            ),
        ),
{
    let beneficiary = String::from_str("neutron10h9stc5v6ntgeygf5xf945njqq5h32r54rf7kc");
    let (_, withdraw_amount_0, withdraw_amount_1) = get_withdrawal_messages(
        config,
        amount,
        &beneficiary,
        total_amount_0,
        total_amount_1,
        total_supply,
    )?;
    Ok((withdraw_amount_0, withdraw_amount_1))
}

/// The parsed amounts, summed: the first (`side` false) or second reserve
/// of each simulated withdrawal.
pub open spec fn reserves_sum(sims: Seq<(String, String)>, second: bool) -> int
    decreases sims.len(),
{
    if sims.len() == 0 {
        0
    } else {
        let last = sims.last();
        let text = if second { last.1@ } else { last.0@ };
        reserves_sum(sims.drop_last(), second) + match parsed_u128(text) {
            Some(v) => v as int,
            None => 0,
        }
    }
}

proof fn lemma_reserves_sum_prefix(sims: Seq<(String, String)>, second: bool, i: int)
    requires
        0 <= i <= sims.len(),
    ensures
        0 <= reserves_sum(sims.take(i), second) <= reserves_sum(sims, second),
    decreases sims.len() - i,
{
    if i == sims.len() {
        assert(sims.take(i) =~= sims);
        lemma_reserves_sum_nonneg(sims, second);
    } else {
        lemma_reserves_sum_prefix(sims, second, i + 1);
        assert(sims.take(i + 1).drop_last() =~= sims.take(i));
        lemma_reserves_sum_nonneg(sims.take(i), second);
    }
}

proof fn lemma_reserves_sum_nonneg(sims: Seq<(String, String)>, second: bool)
    ensures
        reserves_sum(sims, second) >= 0,
    decreases sims.len(),
{
    if sims.len() > 0 {
        lemma_reserves_sum_nonneg(sims.drop_last(), second);
    }
}

/// Get the virtual contract balance: the tokens in the contract plus what
/// withdrawing each DEX position would return (the reserves the DEX's
/// simulation reports, as text). Every reserve must read as `u128` and the
/// sums must fit.
pub fn get_virtual_contract_balance(balance0: u128, balance1: u128, simulated: &Vec<(String, String)>) -> (r: (u128, u128))
    requires
        forall|i: int|
            0 <= i < simulated@.len() ==> parsed_u128((#[trigger] simulated@[i]).0@) is Some && parsed_u128(
                simulated@[i].1@,
            ) is Some,
        balance0 + reserves_sum(simulated@, false) <= u128::MAX,
        balance1 + reserves_sum(simulated@, true) <= u128::MAX,
    ensures
        r.0 == balance0 + reserves_sum(simulated@, false),
        r.1 == balance1 + reserves_sum(simulated@, true),
{
    let mut total_amount_0 = balance0;
    let mut total_amount_1 = balance1;
    let n = simulated.len();
    let mut i: usize = 0;
    proof {
        assert(simulated@.take(0) =~= Seq::<(String, String)>::empty());
    }
    while i < n
        invariant
            n == simulated@.len(),
            i <= n,
            forall|k: int|
                0 <= k < simulated@.len() ==> parsed_u128((#[trigger] simulated@[k]).0@) is Some && parsed_u128(
                    simulated@[k].1@,
                ) is Some,
            balance0 + reserves_sum(simulated@, false) <= u128::MAX,
            balance1 + reserves_sum(simulated@, true) <= u128::MAX,
            total_amount_0 == balance0 + reserves_sum(simulated@.take(i as int), false),
            total_amount_1 == balance1 + reserves_sum(simulated@.take(i as int), true),
        decreases n - i,
    {
        let sim = &simulated[i];
        let amount_0 = parse_uint128(sim.0.as_str()).unwrap();
        let amount_1 = parse_uint128(sim.1.as_str()).unwrap();
        proof {
            assert(simulated@.take(i as int + 1).drop_last() =~= simulated@.take(i as int));
            lemma_reserves_sum_prefix(simulated@, false, i as int + 1);
            lemma_reserves_sum_prefix(simulated@, true, i as int + 1);
        }
        total_amount_0 = total_amount_0 + amount_0;
        total_amount_1 = total_amount_1 + amount_1;
        i = i + 1;
    }
    proof {
        assert(simulated@.take(n as int) =~= simulated@);
    }
    (total_amount_0, total_amount_1)
}

/// The vault's holdings as coins of the pair's two denoms.
pub fn balance_coins(config: &Config, amount_0: u128, amount_1: u128) -> (r: Vec<Coin>)
    ensures
        r@ == seq![
            Coin { denom: config.pair_data.token_0.denom, amount: amount_0 },
            Coin { denom: config.pair_data.token_1.denom, amount: amount_1 },
        ],
{
    let mut r: Vec<Coin> = Vec::new();
    r.push(Coin { denom: config.pair_data.token_0.denom.clone(), amount: amount_0 });
    r.push(Coin { denom: config.pair_data.token_1.denom.clone(), amount: amount_1 });
    proof {
        assert(r@ =~= seq![
            Coin { denom: config.pair_data.token_0.denom, amount: amount_0 },
            Coin { denom: config.pair_data.token_1.denom, amount: amount_1 },
        ]);
    }
    r
}

} // verus!
