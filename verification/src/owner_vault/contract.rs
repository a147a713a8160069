use vstd::prelude::*;
use crate::coin::Coin;
use crate::mmvault::error::{ContractError, ContractResult};
use crate::mmvault::execute::{attr, attributes_are};
use crate::mmvault::msg::Attribute;
use crate::mmvault::utils::pair_id;
use crate::owner_vault::msg::{ExecuteMsg, InstantiateMsg};
use crate::owner_vault::state::{Balances, Config, PairData};
use crate::owner_vault::utils::{sort_token_data_and_get_pair_id_str, sorted_tokens};
use crate::text::{decimal, u64_to_string};

verus! {

/// The configuration an instantiate message sets up: the tokens sorted by
/// denom, zero balances of each, and the message's parameters.
pub open spec fn instantiated_config(msg: InstantiateMsg, c: Config) -> bool {
    let (t0, t1) = sorted_tokens(msg.token_a, msg.token_b);
    &&& c.pair_data.token_0 == t0
    &&& c.pair_data.token_1 == t1
    &&& c.pair_data.pair_id@ == pair_id(t0.denom@, t1.denom@)
    &&& c.balances.token_0.denom == t0.denom && c.balances.token_0.amount == 0
    &&& c.balances.token_1.denom == t1.denom && c.balances.token_1.amount == 0
    &&& c.max_blocks_old == msg.max_block_old
    &&& c.base_fee == msg.base_fee
    &&& c.base_deposit_percentage == msg.base_deposit_percentage
    &&& c.ambient_fee == msg.ambient_fee
    &&& c.deposit_ambient == msg.deposit_ambient
    &&& c.owner == msg.owner
    &&& c.deposit_cap == msg.deposit_cap
}

/// The keys and values instantiation reports.
pub open spec fn instantiate_entries(c: Config) -> Seq<(Seq<char>, Seq<char>)> {
    let t0 = c.pair_data.token_0;
    let t1 = c.pair_data.token_1;
    seq![
        ("action"@, "instantiate"@),
        ("owner"@, c.owner@),
        ("max_blocks_stale"@, decimal(c.max_blocks_old as nat)),
        ("token_0_denom"@, t0.denom@),
        ("token_0_symbol"@, t0.pair.base@),
        ("token_0_quote_currency"@, t0.pair.quote@),
        ("token_1_denom"@, t1.denom@),
        ("token_1_symbol"@, t1.pair.base@),
        ("token_1_quote_currency"@, t1.pair.quote@),
        ("pool_id"@, c.pair_data.pair_id@),
    ]
}

/// Checks an instantiate message and builds the configuration to store,
/// with the attributes to report. The host validates the owner's address
/// and both markets.
pub fn instantiate(msg: &InstantiateMsg) -> (r: ContractResult<(Config, Vec<Attribute>)>)
    ensures
        r is Ok <==> msg.is_valid(),
        r matches Ok(v) ==> instantiated_config(*msg, v.0) && attributes_are(v.1@, instantiate_entries(v.0)),
{
    msg.validate()?;
    let (tokens, id) = sort_token_data_and_get_pair_id_str(&msg.token_a, &msg.token_b);
    let token_0 = tokens[0].copy_of();
    let token_1 = tokens[1].copy_of();
    let balances = Balances {
        token_0: Coin { denom: token_0.denom.clone(), amount: 0 },
        token_1: Coin { denom: token_1.denom.clone(), amount: 0 },
    };
    let config = Config {
        pair_data: PairData { token_0, token_1, pair_id: id },
        max_blocks_old: msg.max_block_old,
        balances,
        base_fee: msg.base_fee,
        base_deposit_percentage: msg.base_deposit_percentage,
        ambient_fee: msg.ambient_fee,
        deposit_ambient: msg.deposit_ambient,
        owner: msg.owner.clone(),
        deposit_cap: msg.deposit_cap,
    };
    let t0 = &config.pair_data.token_0;
    let t1 = &config.pair_data.token_1;
    let mut a: Vec<Attribute> = Vec::new();
    a.push(attr("action", String::from_str("instantiate")));
    a.push(attr("owner", config.owner.clone()));
    a.push(attr("max_blocks_stale", u64_to_string(config.max_blocks_old)));
    a.push(attr("token_0_denom", t0.denom.clone()));
    a.push(attr("token_0_symbol", t0.pair.base.clone()));
    a.push(attr("token_0_quote_currency", t0.pair.quote.clone()));
    a.push(attr("token_1_denom", t1.denom.clone()));
    a.push(attr("token_1_symbol", t1.pair.base.clone()));
    a.push(attr("token_1_quote_currency", t1.pair.quote.clone()));
    a.push(attr("pool_id", config.pair_data.pair_id.clone()));
    proof {
        assert(attributes_are(a@, instantiate_entries(config)));
    }
    Ok((config, a))
}

/// Only a deposit carries coins.
pub fn check_execute_funds(msg: &ExecuteMsg, funds: &Vec<Coin>) -> (r: ContractResult<()>)
    ensures
        match msg {
            ExecuteMsg::Deposit {} => r is Ok,
            _ => {
                &&& funds@.len() > 0 ==> r == Err::<(), ContractError>(ContractError::FundsNotAllowed)
                &&& funds@.len() == 0 ==> r is Ok
            },
        },
{
    match msg {
        ExecuteMsg::Deposit {} => Ok(()),
        _ => {
            if funds.len() > 0 {
                return Err(ContractError::FundsNotAllowed);
            }
            Ok(())
        },
    }
}

} // verus!
