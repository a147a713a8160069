use vstd::prelude::*;
use crate::coin::Coin;
use crate::mmvault::error::{ContractError, ContractResult};
use crate::mmvault::execute::{attr, attr_is, sent_amounts, withdrawal_msgs};
use crate::mmvault::msg::{Attribute, CombinedPriceResponse, DexDeposit, DexWithdrawal, LimitOrder, UserDeposit, VaultMsg, VaultResponse};
use crate::mmvault::utils::base_amount;
use crate::owner_vault::msg::{InstantiateMsg, allowed_fee};
use crate::owner_vault::state::{Config, cron_module_address};
use crate::owner_vault::utils::{deposit_fits, deposit_messages_outcome, get_deposit_messages};
use crate::text::{bool_text, bool_to_string, decimal, u64_to_string, u128_to_string};

verus! {

/// The running balances stay within 128 bits while the coins are counted.
pub open spec fn deposit_fits_balances(config: Config, funds: Seq<Coin>) -> bool {
    forall|k: int|
        0 <= k <= funds.len() ==> (#[trigger] sent_amounts(
            funds.take(k),
            config.balances.token_0.denom@,
            config.balances.token_1.denom@,
        ) matches Ok(sums) ==> config.balances.token_0.amount + sums.0 <= u128::MAX && config.balances.token_1.amount
            + sums.1 <= u128::MAX)
}

proof fn lemma_sent_amounts_error_persists(funds: Seq<Coin>, token0: Seq<char>, token1: Seq<char>, k: int, j: int)
    requires
        0 <= k <= j <= funds.len(),
        sent_amounts(funds.take(k), token0, token1) is Err,
    ensures
        sent_amounts(funds.take(j), token0, token1) == sent_amounts(funds.take(k), token0, token1),
    decreases j - k,
{
    if j > k {
        lemma_sent_amounts_error_persists(funds, token0, token1, k, j - 1);
        assert(funds.take(j).drop_last() =~= funds.take(j - 1));
    }
}

/// The owner's deposit: the coins must be positive amounts of the pair's
/// tokens, and the recorded balances grow by them.
#[verifier::loop_isolation(false)]
pub fn deposit(config: &mut Config, sender: &String, funds: &Vec<Coin>) -> (r: ContractResult<Vec<Attribute>>)
    requires
        deposit_fits_balances(*old(config), funds@),
    ensures
        sender@ != old(config).owner@ ==> r == Err::<Vec<Attribute>, ContractError>(ContractError::Unauthorized),
        sender@ == old(config).owner@ && funds@.len() == 0 ==> r == Err::<Vec<Attribute>, ContractError>(
            ContractError::NoFundsSent,
        ),
        sender@ == old(config).owner@ && funds@.len() > 0 ==> match sent_amounts(
            funds@,
            old(config).balances.token_0.denom@,
            old(config).balances.token_1.denom@,
        ) {
            Err(e) => r == Err::<Vec<Attribute>, ContractError>(e),
            Ok(sums) => {
                &&& final(config).balances.token_0.amount == old(config).balances.token_0.amount + sums.0
                &&& final(config).balances.token_1.amount == old(config).balances.token_1.amount + sums.1
                &&& *final(config) == (Config {
                    balances: crate::owner_vault::state::Balances {
                        token_0: Coin { amount: final(config).balances.token_0.amount, ..old(config).balances.token_0 },
                        token_1: Coin { amount: final(config).balances.token_1.amount, ..old(config).balances.token_1 },
                    },
                    ..*old(config)
                })
                &&& r matches Ok(attrs)
                &&& attrs@.len() == 4
                &&& attr_is(attrs@[0], "action"@, "deposit"@)
                &&& attr_is(attrs@[1], "from"@, sender@)
                &&& attr_is(attrs@[2], "token_0_amount"@, decimal(final(config).balances.token_0.amount as nat))
                &&& attr_is(attrs@[3], "token_1_amount"@, decimal(final(config).balances.token_1.amount as nat))
            },
        },
{
    if *sender != config.owner {
        return Err(ContractError::Unauthorized);
    }
    if funds.len() == 0 {
        return Err(ContractError::NoFundsSent);
    }
    let ghost start = *config;
    let ghost token0 = config.balances.token_0.denom@;
    let ghost token1 = config.balances.token_1.denom@;
    let mut token0_deposited: u128 = 0;
    let mut token1_deposited: u128 = 0;
    let n = funds.len();
    let mut i: usize = 0;
    proof {
        assert(funds@.take(0) =~= Seq::<Coin>::empty());
    }
    while i < n
        invariant
            n == funds@.len(),
            i <= n,
            sent_amounts(funds@.take(i as int), token0, token1) == Ok::<(int, int), ContractError>(
                (token0_deposited as int, token1_deposited as int),
            ),
            config.balances.token_0.amount == start.balances.token_0.amount + token0_deposited,
            config.balances.token_1.amount == start.balances.token_1.amount + token1_deposited,
            *config == (Config {
                balances: crate::owner_vault::state::Balances {
                    token_0: Coin { amount: config.balances.token_0.amount, ..start.balances.token_0 },
                    token_1: Coin { amount: config.balances.token_1.amount, ..start.balances.token_1 },
                },
                ..start
            }),
        decreases n - i,
    {
        let coin = &funds[i];
        proof {
            assert(funds@.take(i as int + 1).drop_last() =~= funds@.take(i as int));
            assert(funds@.take(i as int + 1).last() == funds@[i as int]);
            let k = i as int + 1;
            assert(0 <= k <= funds@.len());
            assert(sent_amounts(funds@.take(k), token0, token1) matches Ok(sums) ==> start.balances.token_0.amount
                + sums.0 <= u128::MAX && start.balances.token_1.amount + sums.1 <= u128::MAX);
        }
        if coin.denom == config.balances.token_0.denom {
            if coin.amount == 0 {
                proof {
                    lemma_sent_amounts_error_persists(funds@, token0, token1, i as int + 1, n as int);
                    assert(funds@.take(n as int) =~= funds@);
                }
                return Err(ContractError::InvalidTokenAmount);
            }
            token0_deposited = token0_deposited + coin.amount;
            config.balances.token_0.amount = config.balances.token_0.amount + coin.amount;
        } else if coin.denom == config.balances.token_1.denom {
            if coin.amount == 0 {
                proof {
                    lemma_sent_amounts_error_persists(funds@, token0, token1, i as int + 1, n as int);
                    assert(funds@.take(n as int) =~= funds@);
                }
                return Err(ContractError::InvalidTokenAmount);
            }
            token1_deposited = token1_deposited + coin.amount;
            config.balances.token_1.amount = config.balances.token_1.amount + coin.amount;
        } else {
            proof {
                lemma_sent_amounts_error_persists(funds@, token0, token1, i as int + 1, n as int);
                assert(funds@.take(n as int) =~= funds@);
            }
            return Err(ContractError::InvalidToken);
        }
        i = i + 1;
    }
    proof {
        assert(funds@.take(n as int) =~= funds@);
    }
    let mut attributes: Vec<Attribute> = Vec::new();
    attributes.push(attr("action", String::from_str("deposit")));
    attributes.push(attr("from", sender.clone()));
    attributes.push(attr("token_0_amount", u128_to_string(config.balances.token_0.amount)));
    attributes.push(attr("token_1_amount", u128_to_string(config.balances.token_1.amount)));
    Ok(attributes)
}

/// The sends of a withdrawal: each balance that is not zero goes to the
/// owner, in order.
pub open spec fn withdrawal_sends(to: String, balances: Seq<Coin>) -> Seq<VaultMsg> {
    let s0 = if balances[0].amount > 0 {
        seq![VaultMsg::Send { to, denom: balances[0].denom, amount: balances[0].amount }]
    } else {
        Seq::empty()
    };
    let s1 = if balances[1].amount > 0 {
        seq![VaultMsg::Send { to, denom: balances[1].denom, amount: balances[1].amount }]
    } else {
        Seq::empty()
    };
    s0 + s1
}

/// The owner's withdrawal of everything the vault holds (`balances`, as the
/// host queried them); the recorded balances drop to zero.
pub fn withdraw(config: &mut Config, sender: &String, balances: &Vec<Coin>) -> (r: ContractResult<VaultResponse>)
    requires
        balances@.len() == 2,
    ensures
        sender@ != old(config).owner@ ==> r == Err::<VaultResponse, ContractError>(ContractError::Unauthorized)
            && *final(config) == *old(config),
        sender@ == old(config).owner@ ==> {
            &&& final(config).balances.token_0.amount == 0
            &&& final(config).balances.token_1.amount == 0
            &&& *final(config) == (Config {
                balances: crate::owner_vault::state::Balances {
                    token_0: Coin { amount: 0, ..old(config).balances.token_0 },
                    token_1: Coin { amount: 0, ..old(config).balances.token_1 },
                },
                ..*old(config)
            })
            &&& r matches Ok(resp)
            &&& resp.messages@ == withdrawal_sends(*sender, balances@)
            &&& resp.submessages@.len() == 0
            &&& resp.attributes@.len() == 3
            &&& attr_is(resp.attributes@[0], "action"@, "withdrawal"@)
            &&& attr_is(resp.attributes@[1], "token_0_amount"@, decimal(balances@[0].amount as nat))
            &&& attr_is(resp.attributes@[2], "token_1_amount"@, decimal(balances@[1].amount as nat))
        },
{
    if *sender != config.owner {
        return Err(ContractError::Unauthorized);
    }
    let mut messages: Vec<VaultMsg> = Vec::new();
    if balances[0].amount > 0 {
        messages.push(VaultMsg::Send { to: sender.clone(), denom: balances[0].denom.clone(), amount: balances[0].amount });
    }
    if balances[1].amount > 0 {
        messages.push(VaultMsg::Send { to: sender.clone(), denom: balances[1].denom.clone(), amount: balances[1].amount });
    }
    proof {
        assert(messages@ =~= withdrawal_sends(*sender, balances@));
    }
    config.balances.token_0.amount = 0;
    config.balances.token_1.amount = 0;
    let mut attributes: Vec<Attribute> = Vec::new();
    attributes.push(attr("action", String::from_str("withdrawal")));
    attributes.push(attr("token_0_amount", u128_to_string(balances[0].amount)));
    attributes.push(attr("token_1_amount", u128_to_string(balances[1].amount)));
    Ok(VaultResponse { messages, submessages: Vec::new(), attributes })
}

/// Only the owner or the cron module run the DEX deposit and withdrawal.
pub fn check_operator(config: &Config, sender: &String) -> (r: ContractResult<()>)
    ensures
        r is Ok <==> (sender@ == config.owner@ || sender@ == cron_module_address()),
        r matches Err(e) ==> e == ContractError::Unauthorized,
{
    let cron = String::from_str("neutron1cd6wafvehv79pm2yxth40thpyc7dc0yrqkyk95");
    if *sender != config.owner && *sender != cron {
        return Err(ContractError::Unauthorized);
    }
    Ok(())
}

/// The messages of a DEX deposit: the clearing orders placed, then the
/// deposits of the balances left usable after them.
pub open spec fn dex_deposit_msgs(orders: Seq<LimitOrder>, deposits: Seq<DexDeposit>) -> Seq<VaultMsg> {
    orders.map_values(|o: LimitOrder| VaultMsg::PlaceLimitOrder(o)) + deposits.map_values(
        |d: DexDeposit| VaultMsg::Deposit(d),
    )
}

/// The DEX deposit, once the clearing orders are settled: the orders, then
/// the deposits of the usable balances at the current tick.
pub fn dex_deposit_response(
    config: &Config,
    tick_index: i64,
    prices: CombinedPriceResponse,
    orders: Vec<LimitOrder>,
    token_0_usable: u128,
    token_1_usable: u128,
) -> (r: ContractResult<VaultResponse>)
    requires
        base_amount(token_0_usable, config.base_deposit_percentage) <= u128::MAX,
        base_amount(token_1_usable, config.base_deposit_percentage) <= u128::MAX,
        deposit_fits(token_0_usable, token_1_usable, prices, config.base_deposit_percentage),
    ensures
        match deposit_messages_outcome(*config, tick_index, prices, token_0_usable, token_1_usable) {
            Err(e) => r == Err::<VaultResponse, ContractError>(e),
            Ok(ds) => {
                &&& r matches Ok(resp)
                &&& resp.messages@ == dex_deposit_msgs(orders@, ds)
                &&& resp.submessages@.len() == 0
                &&& resp.attributes@.len() == 1
                &&& attr_is(resp.attributes@[0], "action"@, "dex_deposit"@)
            },
        },
{
    let deposits = get_deposit_messages(config, tick_index, prices, token_0_usable, token_1_usable)?;
    let ghost all_orders = orders@;
    let ghost all_deposits = deposits@;
    let mut orders = orders;
    let mut deposits = deposits;
    let mut messages: Vec<VaultMsg> = Vec::new();
    while orders.len() > 0
        invariant
            messages@ + orders@.map_values(|o: LimitOrder| VaultMsg::PlaceLimitOrder(o)) == all_orders.map_values(
                |o: LimitOrder| VaultMsg::PlaceLimitOrder(o),
            ),
        decreases orders@.len(),
    {
        let ghost before = orders@;
        let o = orders.remove(0);
        messages.push(VaultMsg::PlaceLimitOrder(o));
        proof {
            assert(orders@ =~= before.drop_first());
            assert(messages@ + orders@.map_values(|o: LimitOrder| VaultMsg::PlaceLimitOrder(o)) =~= all_orders.map_values(
                |o: LimitOrder| VaultMsg::PlaceLimitOrder(o),
            ));
        }
    }
    proof {
        assert(messages@ =~= all_orders.map_values(|o: LimitOrder| VaultMsg::PlaceLimitOrder(o)));
    }
    let ghost head = messages@;
    while deposits.len() > 0
        invariant
            messages@ + deposits@.map_values(|d: DexDeposit| VaultMsg::Deposit(d)) == head + all_deposits.map_values(
                |d: DexDeposit| VaultMsg::Deposit(d),
            ),
        decreases deposits@.len(),
    {
        let ghost before = deposits@;
        let d = deposits.remove(0);
        messages.push(VaultMsg::Deposit(d));
        proof {
            assert(deposits@ =~= before.drop_first());
            assert(messages@ + deposits@.map_values(|d: DexDeposit| VaultMsg::Deposit(d)) =~= head + all_deposits.map_values(
                |d: DexDeposit| VaultMsg::Deposit(d),
            ));
        }
    }
    proof {
        assert(messages@ =~= head + all_deposits.map_values(|d: DexDeposit| VaultMsg::Deposit(d)));
    }
    let mut attributes: Vec<Attribute> = Vec::new();
    attributes.push(attr("action", String::from_str("dex_deposit")));
    Ok(VaultResponse { messages, submessages: Vec::new(), attributes })
}

/// The withdrawal of each position, as messages.
pub open spec fn position_withdrawal_msgs(config: Config, positions: Seq<UserDeposit>) -> Seq<VaultMsg> {
    positions.map_values(
        |d: UserDeposit|
            VaultMsg::Withdrawal(
                DexWithdrawal {
                    token_a: config.pair_data.token_0.denom,
                    token_b: config.pair_data.token_1.denom,
                    shares_to_remove: d.shares_owned,
                    tick_index: d.center_tick_index,
                    fee: d.fee,
                },
            ),
    )
}

/// The owner's or the cron module's DEX withdrawal: every position the vault
/// holds is withdrawn.
pub fn dex_withdrawal(config: &Config, sender: &String, positions: &Vec<UserDeposit>) -> (r: ContractResult<VaultResponse>)
    ensures
        !(sender@ == config.owner@ || sender@ == cron_module_address()) ==> r == Err::<VaultResponse, ContractError>(
            ContractError::Unauthorized,
        ),
        (sender@ == config.owner@ || sender@ == cron_module_address()) ==> {
            &&& r matches Ok(resp)
            &&& resp.messages@ == position_withdrawal_msgs(*config, positions@)
            &&& resp.submessages@.len() == 0
            &&& resp.attributes@.len() == 1
            &&& attr_is(resp.attributes@[0], "action"@, "dex_withdrawal"@)
        },
{
    check_operator(config, sender)?;
    let mut messages: Vec<VaultMsg> = Vec::new();
    let n = positions.len();
    let mut i: usize = 0;
    while i < n
        invariant
            n == positions@.len(),
            i <= n,
            messages@ == position_withdrawal_msgs(*config, positions@.take(i as int)),
        decreases n - i,
    {
        let d = &positions[i];
        messages.push(VaultMsg::Withdrawal(DexWithdrawal {
            token_a: config.pair_data.token_0.denom.clone(),
            token_b: config.pair_data.token_1.denom.clone(),
            shares_to_remove: d.shares_owned.clone(),
            tick_index: d.center_tick_index,
            fee: d.fee,
        }));
        proof {
            assert(messages@ =~= position_withdrawal_msgs(*config, positions@.take(i as int + 1)));
        }
        i = i + 1;
    }
    proof {
        assert(positions@.take(n as int) =~= positions@);
    }
    let mut attributes: Vec<Attribute> = Vec::new();
    attributes.push(attr("action", String::from_str("dex_withdrawal")));
    Ok(VaultResponse { messages, submessages: Vec::new(), attributes })
}

/// The owner's update of the configuration: each field given replaces the
/// old one; the staleness window is at most two blocks, the base fee one the
/// DEX offers, the base percentage at most 100.
pub fn update_config(
    config: &mut Config,
    sender: &String,
    max_blocks_old: Option<u64>,
    base_fee: Option<u64>,
    base_deposit_percentage: Option<u64>,
    ambient_fee: Option<u64>,
    deposit_ambient: Option<bool>,
    deposit_cap: Option<u128>,
) -> (r: ContractResult<Vec<Attribute>>)
    ensures
        sender@ != old(config).owner@ ==> r == Err::<Vec<Attribute>, ContractError>(ContractError::Unauthorized),
        sender@ == old(config).owner@ && (max_blocks_old matches Some(b) && b > 2) ==> (r matches Err(
            ContractError::MalformedInput { input, reason },
        ) && input@ == "max_block_old"@ && reason@ == "must be <=2"@),
        sender@ == old(config).owner@ && !(max_blocks_old matches Some(b) && b > 2) && (base_fee matches Some(f)
            && !allowed_fee(f)) ==> (r matches Err(ContractError::InvalidBaseFee { .. })),
        sender@ == old(config).owner@ && !(max_blocks_old matches Some(b) && b > 2) && !(base_fee matches Some(f)
            && !allowed_fee(f)) && (base_deposit_percentage matches Some(p) && p > 100) ==> (r matches Err(
            ContractError::InvalidDepositPercentage { .. },
        )),
        sender@ == old(config).owner@ && !(max_blocks_old matches Some(b) && b > 2) && !(base_fee matches Some(f)
            && !allowed_fee(f)) && !(base_deposit_percentage matches Some(p) && p > 100) ==> {
            &&& *final(config) == (Config {
                max_blocks_old: match max_blocks_old {
                    Some(x) => x,
                    None => old(config).max_blocks_old,
                },
                base_fee: match base_fee {
                    Some(x) => x,
                    None => old(config).base_fee,
                },
                base_deposit_percentage: match base_deposit_percentage {
                    Some(x) => x,
                    None => old(config).base_deposit_percentage,
                },
                ambient_fee: match ambient_fee {
                    Some(x) => x,
                    None => old(config).ambient_fee,
                },
                deposit_ambient: match deposit_ambient {
                    Some(x) => x,
                    None => old(config).deposit_ambient,
                },
                deposit_cap: match deposit_cap {
                    Some(x) => x,
                    None => old(config).deposit_cap,
                },
                ..*old(config)
            })
            &&& r matches Ok(attrs)
            &&& attrs@.len() == 7
            &&& attr_is(attrs@[0], "action"@, "update_config"@)
            &&& attr_is(attrs@[1], "max_blocks_old"@, decimal(final(config).max_blocks_old as nat))
            &&& attr_is(attrs@[2], "base_fee"@, decimal(final(config).base_fee as nat))
            &&& attr_is(attrs@[3], "base_deposit_percentage"@, decimal(final(config).base_deposit_percentage as nat))
            &&& attr_is(attrs@[4], "ambient_fee"@, decimal(final(config).ambient_fee as nat))
            &&& attr_is(attrs@[5], "deposit_ambient"@, bool_text(final(config).deposit_ambient))
            &&& attr_is(attrs@[6], "deposit_cap"@, decimal(final(config).deposit_cap as nat))
        },
{
    if *sender != config.owner {
        return Err(ContractError::Unauthorized);
    }
    if let Some(blocks) = max_blocks_old {
        if blocks > 2 {
            return Err(ContractError::MalformedInput {
                input: String::from_str("max_block_old"),
                reason: String::from_str("must be <=2"),
            });
        }
        config.max_blocks_old = blocks;
    }
    if let Some(fee) = base_fee {
        InstantiateMsg::validate_base_fee(fee)?;
        config.base_fee = fee;
    }
    if let Some(percentage) = base_deposit_percentage {
        InstantiateMsg::validate_base_deposit_percentage(percentage)?;
        config.base_deposit_percentage = percentage;
    }
    if let Some(fee) = ambient_fee {
        config.ambient_fee = fee;
    }
    if let Some(deposit) = deposit_ambient {
        config.deposit_ambient = deposit;
    }
    if let Some(cap) = deposit_cap {
        config.deposit_cap = cap;
    }
    let mut attributes: Vec<Attribute> = Vec::new();
    attributes.push(attr("action", String::from_str("update_config")));
    attributes.push(attr("max_blocks_old", u64_to_string(config.max_blocks_old)));
    attributes.push(attr("base_fee", u64_to_string(config.base_fee)));
    attributes.push(attr("base_deposit_percentage", u64_to_string(config.base_deposit_percentage)));
    attributes.push(attr("ambient_fee", u64_to_string(config.ambient_fee)));
    attributes.push(attr("deposit_ambient", bool_to_string(config.deposit_ambient)));
    attributes.push(attr("deposit_cap", u128_to_string(config.deposit_cap)));
    Ok(attributes)
}

} // verus!
