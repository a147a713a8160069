use vstd::prelude::*;
use crate::coin::Coin;
use crate::mmvault::error::{ContractError, ContractResult, OverflowOperation};
use crate::mmvault::msg::{
    Attribute, CombinedPriceResponse, ConfigUpdateMsg, DexDeposit, DexWithdrawal, SubMessage, UserDeposit, VaultMsg,
    VaultResponse, tier_percentages, sum_percentages,
};
use crate::mmvault::state::{
    Config, FeeTierConfig, PairData, TokenData, CREATE_TOKEN_REPLY_ID, DEX_DEPOSIT_PREPARED_REPLY_ID, DEX_DEPOSIT_REPLY_ID,
    WITHDRAW_REPLY_ID, fee_tiers_text,
};
use crate::mmvault::utils::{
    check_staleness, deposit_messages_fit, deposit_messages_outcome, flat_messages, flatten_msgs_always_reply,
    get_deposit_messages, get_mint_amount, get_token_value, get_withdrawal_messages, is_stale, mint_outcome,
    position_withdrawals, redeemed, refunds, reply_on_last, value_of, withdraw_positions, withdrawal_messages,
    lemma_redeemed_le_total, extract_denom, create_denom_response_denom, prepare_state, is_clearing_order,
    first_fee_step, floor_price,
};
use crate::arith::seq_sum;
use crate::precdec::{Dec, dec_limit, scale, dec_checked_add, dec_from_atomics, dec_lt};
use crate::text::{
    addr_list_debug, addr_list_text, bool_text, bool_to_string, contains_str, contains_string, decimal, i32_to_string,
    signed_decimal, u64_to_string, u128_to_string,
};

verus! {

/// An attribute with this key and value.
pub open spec fn attr_is(a: Attribute, key: Seq<char>, value: Seq<char>) -> bool {
    a.key@ == key && a.value@ == value
}

/// An attribute of a response.
pub fn attr(key: &str, value: String) -> (r: Attribute)
    ensures
        r.key@ == key@,
        r.value == value,
{
    Attribute { key: String::from_str(key), value }
}

/// Only whitelisted addresses run the vault's privileged calls.
pub fn check_whitelisted(config: &Config, sender: &String) -> (r: ContractResult<()>)
    ensures
        r is Ok <==> contains_str(config.whitelist@, sender@),
        r matches Err(e) ==> e == ContractError::Unauthorized,
{
    if !contains_string(&config.whitelist, sender) {
        return Err(ContractError::Unauthorized);
    }
    Ok(())
}

/// How the coins sent with a deposit add up: per pair token, the sum of the
/// amounts sent; the first coin of another denom, or of zero amount, refuses
/// the deposit.
pub open spec fn sent_amounts(funds: Seq<Coin>, token0: Seq<char>, token1: Seq<char>) -> ContractResult<(int, int)>
    decreases funds.len(),
{
    if funds.len() == 0 {
        Ok((0, 0))
    } else {
        match sent_amounts(funds.drop_last(), token0, token1) {
            Err(e) => Err(e),
            Ok(sums) => {
                let c = funds.last();
                if c.denom@ == token0 {
                    if c.amount == 0 {
                        Err(ContractError::InvalidTokenAmount)
                    } else {
                        Ok((sums.0 + c.amount, sums.1))
                    }
                } else if c.denom@ == token1 {
                    if c.amount == 0 {
                        Err(ContractError::InvalidTokenAmount)
                    } else {
                        Ok((sums.0, sums.1 + c.amount))
                    }
                } else {
                    Err(ContractError::InvalidToken)
                }
            },
        }
    }
}

/// Once a prefix of the coins is refused, every longer prefix is refused the same way.
proof fn lemma_sent_amounts_error_persists(funds: Seq<Coin>, token0: Seq<char>, token1: Seq<char>, k: int, j: int)
    requires
        0 <= k <= j <= funds.len(),
        sent_amounts(funds.take(k), token0, token1) is Err,
    ensures
        sent_amounts(funds.take(j), token0, token1) == sent_amounts(funds.take(k), token0, token1),
    decreases j - k,
{
    if j > k {
        lemma_sent_amounts_error_persists(funds, token0, token1, k, j - 1);
        assert(funds.take(j).drop_last() =~= funds.take(j - 1));
    }
}

/// The running sums of the coins sent stay within 128 bits.
pub open spec fn sent_amounts_fit(funds: Seq<Coin>, token0: Seq<char>, token1: Seq<char>) -> bool {
    forall|k: int|
        0 <= k <= funds.len() ==> (#[trigger] sent_amounts(funds.take(k), token0, token1) matches Ok(sums) ==> sums.0
            <= u128::MAX && sums.1 <= u128::MAX)
}

/// The first step of a deposit.
#[derive(Debug, Clone)]
pub enum DepositStep {
    /// The vault went stale: the block is put on hold and the coins go back.
    Refund(Vec<VaultMsg>),
    /// The deposit goes on with these amounts of the pair's two tokens.
    Proceed { token0_deposited: u128, token1_deposited: u128 },
}

/// Deposit funds into the contract, first step: a paused vault refuses
/// deposits; then the staleness check runs (and may refund); then the coins
/// sent must be positive amounts of the pair's tokens.
#[verifier::loop_isolation(false)]
pub fn deposit_funds(
    config: &mut Config,
    now: u64,
    height: u64,
    sender: &String,
    funds: &Vec<Coin>,
) -> (r: ContractResult<DepositStep>)
    requires
        old(config).last_executed <= now,
        sent_amounts_fit(funds@, old(config).pair_data.token_0.denom@, old(config).pair_data.token_1.denom@),
    ensures
        old(config).paused ==> r == Err::<DepositStep, ContractError>(ContractError::Paused) && *final(config)
            == *old(config),
        !old(config).paused && old(config).pause_block == height ==> r == Err::<DepositStep, ContractError>(
            ContractError::BlockOnHold,
        ),
        !old(config).paused && old(config).pause_block != height && is_stale(*old(config), now) ==> {
            &&& r matches Ok(DepositStep::Refund(msgs))
            &&& refunds(msgs@, *sender, funds@)
            &&& *final(config) == (Config { last_executed: now, pause_block: height, ..*old(config) })
        },
        !old(config).paused && old(config).pause_block != height && !is_stale(*old(config), now) ==> {
            &&& *final(config) == (Config { last_executed: now, ..*old(config) })
            &&& funds@.len() == 0 ==> r == Err::<DepositStep, ContractError>(ContractError::NoFundsSent)
            &&& funds@.len() > 0 ==> match sent_amounts(
                funds@,
                old(config).pair_data.token_0.denom@,
                old(config).pair_data.token_1.denom@,
            ) {
                Err(e) => r == Err::<DepositStep, ContractError>(e),
                Ok(sums) => r matches Ok(DepositStep::Proceed { token0_deposited, token1_deposited })
                    && token0_deposited == sums.0 && token1_deposited == sums.1,
            }
        },
{
    if config.paused {
        return Err(ContractError::Paused);
    }
    match check_staleness(now, height, sender, funds, config) {
        Err(e) => { return Err(e); },
        Ok(Some(msgs)) => { return Ok(DepositStep::Refund(msgs)); },
        Ok(None) => {},
    }
    if funds.len() == 0 {
        return Err(ContractError::NoFundsSent);
    }
    let ghost token0 = config.pair_data.token_0.denom@;
    let ghost token1 = config.pair_data.token_1.denom@;
    let mut token0_deposited: u128 = 0;
    let mut token1_deposited: u128 = 0;
    let n = funds.len();
    let mut i: usize = 0;
    proof {
        assert(funds@.take(0) =~= Seq::<Coin>::empty());
    }
    while i < n
        invariant
            n == funds@.len(),
            i <= n,
            token0 == config.pair_data.token_0.denom@,
            token1 == config.pair_data.token_1.denom@,
            sent_amounts_fit(funds@, token0, token1),
            sent_amounts(funds@.take(i as int), token0, token1) == Ok::<(int, int), ContractError>(
                (token0_deposited as int, token1_deposited as int),
            ),
        decreases n - i,
    {
        let coin = &funds[i];
        proof {
            assert(funds@.take(i as int + 1).drop_last() =~= funds@.take(i as int));
            assert(funds@.take(i as int + 1).last() == funds@[i as int]);
            let k = i as int + 1;
            assert(0 <= k <= funds@.len());
            assert(sent_amounts(funds@.take(k), token0, token1) matches Ok(sums) ==> sums.0 <= u128::MAX
                && sums.1 <= u128::MAX);
        }
        if coin.denom == config.pair_data.token_0.denom {
            if coin.amount == 0 {
                proof {
                    lemma_sent_amounts_error_persists(funds@, token0, token1, i as int + 1, n as int);
                    assert(funds@.take(n as int) =~= funds@);
                }
                return Err(ContractError::InvalidTokenAmount);
            }
            token0_deposited = token0_deposited + coin.amount;
        } else if coin.denom == config.pair_data.token_1.denom {
            if coin.amount == 0 {
                proof {
                    lemma_sent_amounts_error_persists(funds@, token0, token1, i as int + 1, n as int);
                    assert(funds@.take(n as int) =~= funds@);
                }
                return Err(ContractError::InvalidTokenAmount);
            }
            token1_deposited = token1_deposited + coin.amount;
        } else {
            proof {
                lemma_sent_amounts_error_persists(funds@, token0, token1, i as int + 1, n as int);
                assert(funds@.take(n as int) =~= funds@);
            }
            return Err(ContractError::InvalidToken);
        }
        i = i + 1;
    }
    proof {
        assert(funds@.take(n as int) =~= funds@);
    }
    Ok(DepositStep::Proceed { token0_deposited, token1_deposited })
}

/// Why a deposit of `t0`, `t1` by `sender` into holdings `total0`,
/// `total1` (the deposit included) is refused, or the shares it mints: the
/// values must fit, the holdings' value must stay within the deposit cap
/// unless the sender is whitelisted, and the mint must succeed.
pub open spec fn deposit_minted(
    config: Config,
    sender: Seq<char>,
    t0: u128,
    t1: u128,
    prices: CombinedPriceResponse,
    total0: u128,
    total1: u128,
) -> ContractResult<u128> {
    let dv0 = value_of(t0, prices.token_0_price);
    let dv1 = value_of(t1, prices.token_1_price);
    let tv0 = value_of(total0, prices.token_0_price);
    let tv1 = value_of(total1, prices.token_1_price);
    if dv0 >= dec_limit() || dv1 >= dec_limit() || tv0 >= dec_limit() || tv1 >= dec_limit() {
        Err(ContractError::Overflow(OverflowOperation::Mul))
    } else if tv0 + tv1 >= dec_limit() {
        Err(ContractError::Overflow(OverflowOperation::Add))
    } else if tv0 + tv1 > config.deposit_cap * scale() && !contains_str(config.whitelist@, sender) {
        Err(ContractError::ExceedsDepositCap)
    } else {
        mint_outcome(config.total_shares, prices, dv0 + dv1, total0, total1)
    }
}

/// Who receives the shares: the beneficiary named, else the sender.
pub open spec fn recipient(sender: String, beneficiary: Option<String>) -> String {
    match beneficiary {
        Some(b) => b,
        None => sender,
    }
}

/// The attributes of a deposit.
pub open spec fn deposit_attributes(
    attrs: Seq<Attribute>,
    t0: u128,
    t1: u128,
    sender: String,
    to: String,
    minted: u128,
    total_shares: u128,
) -> bool {
    &&& attrs.len() == 7
    &&& attr_is(attrs[0], "action"@, "deposit"@)
    &&& attr_is(attrs[1], "token_0_deposited"@, decimal(t0 as nat))
    &&& attr_is(attrs[2], "token_1_deposited"@, decimal(t1 as nat))
    &&& attr_is(attrs[3], "from"@, sender@)
    &&& attr_is(attrs[4], "beneficiary"@, to@)
    &&& attr_is(attrs[5], "minted_amount"@, decimal(minted as nat))
    &&& attr_is(attrs[6], "total_shares"@, decimal(total_shares as nat))
}

/// Deposit funds into the contract, second step, once the prices and the
/// vault's holdings (the deposit included) are known: the deposit's value
/// buys shares, minted to the beneficiary (or the sender), and the total
/// share count grows by them.
pub fn deposit_finish(
    config: &mut Config,
    sender: &String,
    beneficiary: &Option<String>,
    token0_deposited: u128,
    token1_deposited: u128,
    prices: CombinedPriceResponse,
    total_amount_0: u128,
    total_amount_1: u128,
) -> (r: ContractResult<VaultResponse>)
    requires
        value_of(token0_deposited, prices.token_0_price) < dec_limit() && value_of(
            token1_deposited,
            prices.token_1_price,
        ) < dec_limit() ==> value_of(token0_deposited, prices.token_0_price) + value_of(
            token1_deposited,
            prices.token_1_price,
        ) < dec_limit(),
        deposit_minted(*old(config), sender@, token0_deposited, token1_deposited, prices, total_amount_0, total_amount_1)
            matches Ok(m) ==> old(config).total_shares + m <= u128::MAX,
    ensures
        match deposit_minted(*old(config), sender@, token0_deposited, token1_deposited, prices, total_amount_0, total_amount_1) {
            Err(e) => r == Err::<VaultResponse, ContractError>(e) && *final(config) == *old(config),
            Ok(m) => {
                &&& m > 0
                &&& *final(config) == (Config { total_shares: (old(config).total_shares + m) as u128, ..*old(config) })
                &&& r matches Ok(resp)
                &&& resp.messages@ == seq![VaultMsg::Mint {
                    denom: old(config).lp_denom,
                    amount: m,
                    to: recipient(*sender, *beneficiary),
                }]
                &&& resp.submessages@.len() == 0
                &&& deposit_attributes(
                    resp.attributes@,
                    token0_deposited,
                    token1_deposited,
                    *sender,
                    recipient(*sender, *beneficiary),
                    m,
                    final(config).total_shares,
                )
            },
        },
{
    let deposit_value = get_token_value(prices, token0_deposited, token1_deposited)?;
    let total_value = get_token_value(prices, total_amount_0, total_amount_1)?;
    let total = match dec_checked_add(total_value.0, total_value.1) {
        Some(v) => v,
        None => { return Err(ContractError::Overflow(OverflowOperation::Add)); },
    };
    let cap = dec_from_atomics(config.deposit_cap, 0);
    proof {
        vstd::arithmetic::power::lemma_pow0(10);
    }
    let exceeds_cap = dec_lt(cap, total);
    if exceeds_cap && !contains_string(&config.whitelist, sender) {
        return Err(ContractError::ExceedsDepositCap);
    }
    let amount_to_mint = get_mint_amount(
        config,
        prices,
        deposit_value.0,
        deposit_value.1,
        total_amount_0,
        total_amount_1,
    )?;
    config.total_shares = config.total_shares + amount_to_mint;
    let to = match beneficiary {
        Some(b) => b.clone(),
        None => sender.clone(),
    };
    let mut messages: Vec<VaultMsg> = Vec::new();
    messages.push(VaultMsg::Mint { denom: config.lp_denom.clone(), amount: amount_to_mint, to: to.clone() });
    let mut attributes: Vec<Attribute> = Vec::new();
    attributes.push(attr("action", String::from_str("deposit")));
    attributes.push(attr("token_0_deposited", u128_to_string(token0_deposited)));
    attributes.push(attr("token_1_deposited", u128_to_string(token1_deposited)));
    attributes.push(attr("from", sender.clone()));
    attributes.push(attr("beneficiary", to));
    attributes.push(attr("minted_amount", u128_to_string(amount_to_mint)));
    attributes.push(attr("total_shares", u128_to_string(config.total_shares)));
    Ok(VaultResponse { messages, submessages: Vec::new(), attributes })
}

/// The attributes of a withdrawal paid out directly.
pub open spec fn withdrawal_attributes(attrs: Seq<Attribute>, w0: u128, w1: u128, burned: u128, total_shares: u128) -> bool {
    &&& attrs.len() == 5
    &&& attr_is(attrs[0], "action"@, "withdrawal"@)
    &&& attr_is(attrs[1], "withdraw_amount_0"@, decimal(w0 as nat))
    &&& attr_is(attrs[2], "withdraw_amount_1"@, decimal(w1 as nat))
    &&& attr_is(attrs[3], "shares_burned"@, decimal(burned as nat))
    &&& attr_is(attrs[4], "total_shares"@, decimal(total_shares as nat))
}

/// Withdraw funds by burning LP tokens, when the vault holds no DEX
/// position: the sender's share of the balances is sent to them, the shares
/// are burned, and the share count drops by them. `total_supply` is the LP
/// token's supply.
pub fn withdraw_direct(
    config: &mut Config,
    sender: &String,
    amount: u128,
    balance0: u128,
    balance1: u128,
    total_supply: u128,
) -> (r: ContractResult<VaultResponse>)
    requires
        amount <= total_supply ==> total_supply > 0,
    ensures
        amount > total_supply ==> r == Err::<VaultResponse, ContractError>(ContractError::InvalidWithdrawAmount)
            && *final(config) == *old(config),
        amount <= total_supply && amount > old(config).total_shares ==> r == Err::<VaultResponse, ContractError>(
            ContractError::Overflow(OverflowOperation::Sub),
        ) && *final(config) == *old(config),
        amount <= total_supply && amount <= old(config).total_shares ==> {
            let w0 = redeemed(balance0, amount, total_supply) as u128;
            let w1 = redeemed(balance1, amount, total_supply) as u128;
            &&& *final(config) == (Config { total_shares: (old(config).total_shares - amount) as u128, ..*old(config) })
            &&& r matches Ok(resp)
            &&& resp.messages@ == withdrawal_messages(*old(config), amount, *sender, w0, w1)
            &&& resp.submessages@.len() == 0
            &&& withdrawal_attributes(resp.attributes@, w0, w1, amount, final(config).total_shares)
        },
{
    let (messages, withdraw_amount_0, withdraw_amount_1) = get_withdrawal_messages(
        config,
        amount,
        sender,
        balance0,
        balance1,
        total_supply,
    )?;
    if amount > config.total_shares {
        return Err(ContractError::Overflow(OverflowOperation::Sub));
    }
    config.total_shares = config.total_shares - amount;
    let mut attributes: Vec<Attribute> = Vec::new();
    attributes.push(attr("action", String::from_str("withdrawal")));
    attributes.push(attr("withdraw_amount_0", u128_to_string(withdraw_amount_0)));
    attributes.push(attr("withdraw_amount_1", u128_to_string(withdraw_amount_1)));
    attributes.push(attr("shares_burned", u128_to_string(amount)));
    attributes.push(attr("total_shares", u128_to_string(config.total_shares)));
    Ok(VaultResponse { messages, submessages: Vec::new(), attributes })
}

/// The withdrawals of the vault's positions, as messages.
pub open spec fn withdrawal_msgs(config: Config, positions: Seq<UserDeposit>) -> Seq<VaultMsg> {
    position_withdrawals(config, positions).map_values(|w: DexWithdrawal| VaultMsg::Withdrawal(w))
}

/// The withdrawals of the vault's positions, as messages to send.
fn withdrawal_msg_list(config: &Config, positions: &Vec<UserDeposit>) -> (r: Vec<VaultMsg>)
    ensures
        r@ == withdrawal_msgs(*config, positions@),
{
    let mut ws = withdraw_positions(config, positions);
    let ghost all = ws@;
    let mut r: Vec<VaultMsg> = Vec::new();
    while ws.len() > 0
        invariant
            r@ + ws@.map_values(|w: DexWithdrawal| VaultMsg::Withdrawal(w)) == all.map_values(
                |w: DexWithdrawal| VaultMsg::Withdrawal(w),
            ),
        decreases ws@.len(),
    {
        let ghost before = ws@;
        let w = ws.remove(0);
        r.push(VaultMsg::Withdrawal(w));
        proof {
            assert(ws@ =~= before.drop_first());
            assert(r@ + ws@.map_values(|w: DexWithdrawal| VaultMsg::Withdrawal(w)) =~= all.map_values(
                |w: DexWithdrawal| VaultMsg::Withdrawal(w),
            ));
        }
    }
    proof {
        assert(r@ =~= r@ + ws@.map_values(|w: DexWithdrawal| VaultMsg::Withdrawal(w)));
    }
    r
}

/// Withdraw funds by burning LP tokens, when the vault holds DEX positions:
/// every position is withdrawn first, and the last withdrawal replies with
/// the payload (the burner and amount) so that the payout follows once the
/// funds are back.
pub fn withdraw_via_positions(config: &Config, positions: &Vec<UserDeposit>, payload: Vec<u8>) -> (r: ContractResult<
    VaultResponse,
>)
    ensures
        positions@.len() == 0 ==> r == Err::<VaultResponse, ContractError>(ContractError::NoFundsAvailable),
        positions@.len() > 0 ==> {
            &&& r matches Ok(resp)
            &&& resp.messages@.len() == 0
            &&& reply_on_last(resp.submessages@, withdrawal_msgs(*config, positions@), WITHDRAW_REPLY_ID, payload@)
            &&& resp.attributes@.len() == 1
            &&& attr_is(resp.attributes@[0], "action"@, "withdrawal"@)
        },
{
    let msgs = withdrawal_msg_list(config, positions);
    let mut groups: Vec<Vec<VaultMsg>> = Vec::new();
    groups.push(msgs);
    proof {
        let g = groups@.map_values(|v: Vec<VaultMsg>| v@);
        assert(g.len() == 1);
        g.lemma_flatten_one_element();
        assert(flat_messages(groups@) == withdrawal_msgs(*config, positions@));
    }
    let subs = flatten_msgs_always_reply(groups, WITHDRAW_REPLY_ID, Some(payload))?;
    let mut attributes: Vec<Attribute> = Vec::new();
    attributes.push(attr("action", String::from_str("withdrawal")));
    Ok(VaultResponse { messages: Vec::new(), submessages: subs, attributes })
}

/// Privileged DEX deposit, first step: the staleness check runs (and may
/// refund), then a paused vault refuses, then only whitelisted senders pass.
pub fn dex_deposit_authorize(
    config: &mut Config,
    now: u64,
    height: u64,
    sender: &String,
    funds: &Vec<Coin>,
) -> (r: ContractResult<Option<Vec<VaultMsg>>>)
    requires
        old(config).last_executed <= now,
    ensures
        old(config).pause_block == height ==> r == Err::<Option<Vec<VaultMsg>>, ContractError>(
            ContractError::BlockOnHold,
        ) && *final(config) == *old(config),
        old(config).pause_block != height && is_stale(*old(config), now) ==> {
            &&& r matches Ok(Some(msgs))
            &&& refunds(msgs@, *sender, funds@)
            &&& *final(config) == (Config { last_executed: now, pause_block: height, ..*old(config) })
        },
        old(config).pause_block != height && !is_stale(*old(config), now) ==> {
            &&& *final(config) == (Config { last_executed: now, ..*old(config) })
            &&& old(config).paused ==> r == Err::<Option<Vec<VaultMsg>>, ContractError>(ContractError::Paused)
            &&& !old(config).paused && !contains_str(old(config).whitelist@, sender@) ==> r == Err::<
                Option<Vec<VaultMsg>>,
                ContractError,
            >(ContractError::Unauthorized)
            &&& !old(config).paused && contains_str(old(config).whitelist@, sender@) ==> r matches Ok(None)
        },
{
    match check_staleness(now, height, sender, funds, config) {
        Err(e) => { return Err(e); },
        Ok(Some(msgs)) => { return Ok(Some(msgs)); },
        Ok(None) => {},
    }
    if config.paused {
        return Err(ContractError::Paused);
    }
    check_whitelisted(config, sender)?;
    Ok(None)
}

/// A DEX deposit waits until the vault holds no position.
pub fn ensure_no_active_deposits(positions: &Vec<UserDeposit>) -> (r: ContractResult<()>)
    ensures
        r is Ok <==> positions@.len() == 0,
        r matches Err(e) ==> e == ContractError::ActiveDepositsExist,
{
    if positions.len() > 0 {
        return Err(ContractError::ActiveDepositsExist);
    }
    Ok(())
}

/// The deposits, as messages.
pub open spec fn deposit_msgs(ds: Seq<DexDeposit>) -> Seq<VaultMsg> {
    ds.map_values(|d: DexDeposit| VaultMsg::Deposit(d))
}

/// The deposits, as messages to send.
fn deposit_msg_list(ds: Vec<DexDeposit>) -> (r: Vec<VaultMsg>)
    ensures
        r@ == deposit_msgs(ds@),
{
    let mut ds = ds;
    let ghost all = ds@;
    let mut r: Vec<VaultMsg> = Vec::new();
    while ds.len() > 0
        invariant
            r@ + deposit_msgs(ds@) == deposit_msgs(all),
        decreases ds@.len(),
    {
        let ghost before = ds@;
        let d = ds.remove(0);
        r.push(VaultMsg::Deposit(d));
        proof {
            assert(ds@ =~= before.drop_first());
            assert(r@ + deposit_msgs(ds@) =~= deposit_msgs(all));
        }
    }
    proof {
        assert(r@ =~= r@ + deposit_msgs(ds@));
    }
    r
}

/// A clearing order sent with a reply id, called back once it has succeeded.
pub open spec fn is_order_submessage(m: SubMessage<VaultMsg>, id: u64) -> bool {
    &&& m.msg is PlaceLimitOrder
    &&& m.id == id
    &&& m.reply_on_success
    &&& m.payload@.len() == 0
}

/// Privileged DEX deposit, second step, once the prices, the price's tick
/// and the vault's balances are known: two clearing limit orders at the
/// first tier's fee, token 0 for token 1 then token 1 for token 0, sent as
/// sub-messages with reply ids 3 and 4; the reply to the second places the
/// deposits (`dex_deposit_response`).
pub fn dex_deposit_prepare(
    config: &Config,
    tick_index: i64,
    prices: CombinedPriceResponse,
    balance0: u128,
    balance1: u128,
) -> (r: ContractResult<VaultResponse>)
    requires
        config.fee_tier_config.fee_tiers@.len() >= 1,
        i64::MIN <= tick_index + first_fee_step(*config) <= i64::MAX,
        i64::MIN <= -tick_index + first_fee_step(*config) <= i64::MAX,
    ensures
        floor_price(prices.token_0_price) >= dec_limit() || floor_price(prices.token_1_price) >= dec_limit() ==> r
            == Err::<VaultResponse, ContractError>(ContractError::Overflow(OverflowOperation::Mul)),
        floor_price(prices.token_0_price) < dec_limit() && floor_price(prices.token_1_price) < dec_limit() ==> {
            &&& r matches Ok(resp)
            &&& resp.messages@.len() == 0
            &&& resp.submessages@.len() == 2
            &&& is_order_submessage(resp.submessages@[0], DEX_DEPOSIT_REPLY_ID)
            &&& is_order_submessage(resp.submessages@[1], DEX_DEPOSIT_PREPARED_REPLY_ID)
            &&& is_clearing_order(
                resp.submessages@[0].msg->PlaceLimitOrder_0,
                config.pair_data.token_0.denom,
                config.pair_data.token_1.denom,
                tick_index + first_fee_step(*config),
                balance0,
                prices.token_0_price,
            )
            &&& is_clearing_order(
                resp.submessages@[1].msg->PlaceLimitOrder_0,
                config.pair_data.token_1.denom,
                config.pair_data.token_0.denom,
                -tick_index + first_fee_step(*config),
                balance1,
                prices.token_1_price,
            )
            &&& resp.attributes@.len() == 1
            &&& attr_is(resp.attributes@[0], "action"@, "prepare_dex_deposit"@)
        },
{
    let mut orders = prepare_state(config, tick_index, prices, balance0, balance1)?;
    let order_1 = orders.pop().unwrap();
    let order_0 = orders.pop().unwrap();
    let mut submessages: Vec<SubMessage<VaultMsg>> = Vec::new();
    submessages.push(SubMessage {
        msg: VaultMsg::PlaceLimitOrder(order_0),
        id: DEX_DEPOSIT_REPLY_ID,
        reply_on_success: true,
        payload: Vec::new(),
    });
    submessages.push(SubMessage {
        msg: VaultMsg::PlaceLimitOrder(order_1),
        id: DEX_DEPOSIT_PREPARED_REPLY_ID,
        reply_on_success: true,
        payload: Vec::new(),
    });
    let mut attributes: Vec<Attribute> = Vec::new();
    attributes.push(attr("action", String::from_str("prepare_dex_deposit")));
    Ok(VaultResponse { messages: Vec::new(), submessages, attributes })
}

/// Privileged DEX deposit, last step, once the prices, the deposit tick
/// (skew applied) and the vault's balances are known: the balances are
/// placed on the DEX over the fee tiers.
pub fn dex_deposit_response(
    config: &Config,
    tick_index: i64,
    prices: CombinedPriceResponse,
    balance0: u128,
    balance1: u128,
) -> (r: ContractResult<VaultResponse>)
    requires
        deposit_messages_fit(*config, prices, balance0, balance1),
    ensures
        match deposit_messages_outcome(*config, tick_index, prices, balance0, balance1) {
            Err(e) => r == Err::<VaultResponse, ContractError>(e),
            Ok(ds) => {
                &&& r matches Ok(resp)
                &&& resp.messages@ == deposit_msgs(ds)
                &&& resp.submessages@.len() == 0
                &&& resp.attributes@.len() == 3
                &&& attr_is(resp.attributes@[0], "action"@, "dex_deposit"@)
                &&& attr_is(resp.attributes@[1], "token_0_balance"@, decimal(balance0 as nat))
                &&& attr_is(resp.attributes@[2], "token_1_balance"@, decimal(balance1 as nat))
            },
        },
{
    let deposits = get_deposit_messages(config, tick_index, prices, balance0, balance1)?;
    let messages = deposit_msg_list(deposits);
    let mut attributes: Vec<Attribute> = Vec::new();
    attributes.push(attr("action", String::from_str("dex_deposit")));
    attributes.push(attr("token_0_balance", u128_to_string(balance0)));
    attributes.push(attr("token_1_balance", u128_to_string(balance1)));
    Ok(VaultResponse { messages, submessages: Vec::new(), attributes })
}

/// Privileged DEX withdrawal: only whitelisted senders; every position the
/// vault holds is withdrawn.
pub fn dex_withdrawal(config: &Config, sender: &String, positions: &Vec<UserDeposit>) -> (r: ContractResult<VaultResponse>)
    ensures
        !contains_str(config.whitelist@, sender@) ==> r == Err::<VaultResponse, ContractError>(ContractError::Unauthorized),
        contains_str(config.whitelist@, sender@) ==> {
            &&& r matches Ok(resp)
            &&& resp.messages@ == withdrawal_msgs(*config, positions@)
            &&& resp.submessages@.len() == 0
            &&& resp.attributes@.len() == 1
            &&& attr_is(resp.attributes@[0], "action"@, "dex_withdrawal"@)
        },
{
    check_whitelisted(config, sender)?;
    let messages = withdrawal_msg_list(config, positions);
    let mut attributes: Vec<Attribute> = Vec::new();
    attributes.push(attr("action", String::from_str("dex_withdrawal")));
    Ok(VaultResponse { messages, submessages: Vec::new(), attributes })
}

/// A failed withdrawal of the positions: the error is reported and nothing
/// else happens.
pub fn withdrawal_reply_error(err: String) -> (r: VaultResponse)
    ensures
        r.messages@.len() == 0,
        r.submessages@.len() == 0,
        r.attributes@.len() == 2,
        attr_is(r.attributes@[0], "action"@, "withdrawal_reply_error"@),
        attr_is(r.attributes@[1], "error"@, err@),
{
    let mut attributes: Vec<Attribute> = Vec::new();
    attributes.push(attr("action", String::from_str("withdrawal_reply_error")));
    attributes.push(attr("error", err));
    VaultResponse { messages: Vec::new(), submessages: Vec::new(), attributes }
}

/// Once the positions are withdrawn, the burner's share of the balances is
/// paid out and the shares are burned; the share count drops by them.
pub fn withdrawal_reply_payout(
    config: &mut Config,
    burn_amount: u128,
    beneficiary: &String,
    balance0: u128,
    balance1: u128,
    total_supply: u128,
) -> (r: ContractResult<(Vec<VaultMsg>, u128, u128)>)
    requires
        burn_amount <= total_supply ==> total_supply > 0,
    ensures
        burn_amount > total_supply ==> r == Err::<(Vec<VaultMsg>, u128, u128), ContractError>(
            ContractError::InvalidWithdrawAmount,
        ) && *final(config) == *old(config),
        burn_amount <= total_supply && burn_amount > old(config).total_shares ==> r == Err::<
            (Vec<VaultMsg>, u128, u128),
            ContractError,
        >(ContractError::Overflow(OverflowOperation::Sub)) && *final(config) == *old(config),
        burn_amount <= total_supply && burn_amount <= old(config).total_shares ==> {
            let w0 = redeemed(balance0, burn_amount, total_supply) as u128;
            let w1 = redeemed(balance1, burn_amount, total_supply) as u128;
            &&& *final(config) == (Config {
                total_shares: (old(config).total_shares - burn_amount) as u128,
                ..*old(config)
            })
            &&& r matches Ok(v)
            &&& v.0@ == withdrawal_messages(*old(config), burn_amount, *beneficiary, w0, w1)
            &&& v.1 == w0 && v.2 == w1
            &&& w0 <= balance0 && w1 <= balance1
        },
{
    let (messages, withdraw_amount_0, withdraw_amount_1) = get_withdrawal_messages(
        config,
        burn_amount,
        beneficiary,
        balance0,
        balance1,
        total_supply,
    )?;
    if burn_amount > config.total_shares {
        return Err(ContractError::Overflow(OverflowOperation::Sub));
    }
    config.total_shares = config.total_shares - burn_amount;
    Ok((messages, withdraw_amount_0, withdraw_amount_1))
}

/// After the payout, what is left of the balances goes back on the DEX at
/// the current tick (skew applied); the response carries the payout, then
/// the deposits.
pub fn withdrawal_reply_response(
    config: &Config,
    payout: Vec<VaultMsg>,
    withdraw_amount_0: u128,
    withdraw_amount_1: u128,
    burn_amount: u128,
    tick_index: i64,
    prices: CombinedPriceResponse,
    balance0: u128,
    balance1: u128,
) -> (r: ContractResult<VaultResponse>)
    requires
        withdraw_amount_0 <= balance0,
        withdraw_amount_1 <= balance1,
        deposit_messages_fit(
            *config,
            prices,
            (balance0 - withdraw_amount_0) as u128,
            (balance1 - withdraw_amount_1) as u128,
        ),
    ensures
        match deposit_messages_outcome(
            *config,
            tick_index,
            prices,
            (balance0 - withdraw_amount_0) as u128,
            (balance1 - withdraw_amount_1) as u128,
        ) {
            Err(e) => r == Err::<VaultResponse, ContractError>(e),
            Ok(ds) => {
                &&& r matches Ok(resp)
                &&& resp.messages@ == payout@ + deposit_msgs(ds)
                &&& resp.submessages@.len() == 0
                &&& resp.attributes@.len() == 6
                &&& attr_is(resp.attributes@[0], "action"@, "withdrawal_reply_success"@)
                &&& attr_is(resp.attributes@[1], "next_action"@, "create_new_deposit"@)
                &&& attr_is(resp.attributes@[2], "withdrawn_token_0"@, decimal(withdraw_amount_0 as nat))
                &&& attr_is(resp.attributes@[3], "withdrawn_token_1"@, decimal(withdraw_amount_1 as nat))
                &&& attr_is(resp.attributes@[4], "shares_burned"@, decimal(burn_amount as nat))
                &&& attr_is(resp.attributes@[5], "total_shares"@, decimal(config.total_shares as nat))
            },
        },
{
    let deposits = get_deposit_messages(
        config,
        tick_index,
        prices,
        balance0 - withdraw_amount_0,
        balance1 - withdraw_amount_1,
    )?;
    let mut messages = payout;
    let mut deposit_list = deposit_msg_list(deposits);
    messages.append(&mut deposit_list);
    let mut attributes: Vec<Attribute> = Vec::new();
    attributes.push(attr("action", String::from_str("withdrawal_reply_success")));
    attributes.push(attr("next_action", String::from_str("create_new_deposit")));
    attributes.push(attr("withdrawn_token_0", u128_to_string(withdraw_amount_0)));
    attributes.push(attr("withdrawn_token_1", u128_to_string(withdraw_amount_1)));
    attributes.push(attr("shares_burned", u128_to_string(burn_amount)));
    attributes.push(attr("total_shares", u128_to_string(config.total_shares)));
    Ok(VaultResponse { messages, submessages: Vec::new(), attributes })
}

/// The LP token's subdenom: the two tokens' symbols, `base0-base1`.
pub open spec fn lp_subdenom(config: Config) -> Seq<char> {
    config.pair_data.token_0.pair.base@ + "-"@ + config.pair_data.token_1.pair.base@
}

/// Privileged: create the contract's LP token, once. The token factory is
/// asked for the subdenom `base0-base1` and replies with the full denom;
/// `contract` is the vault's own address.
pub fn execute_create_token(config: &Config, sender: &String, contract: &String) -> (r: ContractResult<VaultResponse>)
    ensures
        !contains_str(config.whitelist@, sender@) ==> r == Err::<VaultResponse, ContractError>(ContractError::Unauthorized),
        contains_str(config.whitelist@, sender@) && config.lp_denom@.len() > 0 ==> r == Err::<VaultResponse, ContractError>(
            ContractError::TokenAlreadyCreated,
        ),
        contains_str(config.whitelist@, sender@) && config.lp_denom@.len() == 0 ==> {
            &&& r matches Ok(resp)
            &&& resp.messages@.len() == 0
            &&& resp.submessages@.len() == 1
            &&& resp.submessages@[0].msg matches VaultMsg::CreateDenom { subdenom }
            &&& subdenom@ == lp_subdenom(*config)
            &&& resp.submessages@[0].id == CREATE_TOKEN_REPLY_ID
            &&& resp.submessages@[0].reply_on_success
            &&& resp.submessages@[0].payload@.len() == 0
            &&& resp.attributes@.len() == 2
            &&& attr_is(resp.attributes@[0], "action"@, "create_token"@)
            &&& attr_is(resp.attributes@[1], "denom"@, "factory/"@ + contract@ + "/"@ + lp_subdenom(*config))
        },
{
    check_whitelisted(config, sender)?;
    if config.lp_denom.as_str().unicode_len() > 0 {
        return Err(ContractError::TokenAlreadyCreated);
    }
    let subdenom = crate::text::concat_str(config.pair_data.token_0.pair.base.as_str(), "-");
    let subdenom = subdenom.concat(config.pair_data.token_1.pair.base.as_str());
    let full_denom = crate::text::concat_str("factory/", contract.as_str());
    let full_denom = full_denom.concat("/");
    let full_denom = full_denom.concat(subdenom.as_str());
    let mut submessages: Vec<SubMessage<VaultMsg>> = Vec::new();
    submessages.push(SubMessage {
        msg: VaultMsg::CreateDenom { subdenom },
        id: CREATE_TOKEN_REPLY_ID,
        reply_on_success: true,
        payload: Vec::new(),
    });
    let mut attributes: Vec<Attribute> = Vec::new();
    attributes.push(attr("action", String::from_str("create_token")));
    attributes.push(attr("denom", full_denom));
    Ok(VaultResponse { messages: Vec::new(), submessages, attributes })
}

/// The token factory's answer to the LP token's creation: on success, the
/// denom it reports becomes the LP denom; a failure is only reported.
/// `result` is the message responses' bytes, or the error text.
pub fn handle_create_token_reply(config: &mut Config, result: Result<Vec<Vec<u8>>, String>) -> (r: ContractResult<
    VaultResponse,
>)
    ensures
        match result {
            Err(err) => {
                &&& *final(config) == *old(config)
                &&& r matches Ok(resp)
                &&& resp.messages@.len() == 0 && resp.submessages@.len() == 0
                &&& resp.attributes@.len() == 2
                &&& attr_is(resp.attributes@[0], "action"@, "create_token_reply_error"@)
                &&& attr_is(resp.attributes@[1], "error"@, err@)
            },
            Ok(responses) => {
                &&& responses@.len() == 0 ==> r == Err::<VaultResponse, ContractError>(ContractError::NoResponseData)
                    && *final(config) == *old(config)
                &&& responses@.len() > 0 ==> match create_denom_response_denom(responses@[0]@) {
                    None => r == Err::<VaultResponse, ContractError>(ContractError::DecodingError) && *final(config)
                        == *old(config),
                    Some(d) => {
                        &&& final(config).lp_denom@ == d
                        &&& *final(config) == (Config { lp_denom: final(config).lp_denom, ..*old(config) })
                        &&& r matches Ok(resp)
                        &&& resp.messages@.len() == 0 && resp.submessages@.len() == 0
                        &&& resp.attributes@.len() == 2
                        &&& attr_is(resp.attributes@[0], "action"@, "create_token_reply_success"@)
                        &&& attr_is(resp.attributes@[1], "new_token_denom"@, d)
                    },
                }
            },
        },
{
    let mut attributes: Vec<Attribute> = Vec::new();
    match result {
        Ok(responses) => {
            let denom = extract_denom(&responses)?;
            config.lp_denom = denom.clone();
            attributes.push(attr("action", String::from_str("create_token_reply_success")));
            attributes.push(attr("new_token_denom", denom));
        },
        Err(err) => {
            attributes.push(attr("action", String::from_str("create_token_reply_error")));
            attributes.push(attr("error", err));
        },
    }
    Ok(VaultResponse { messages: Vec::new(), submessages: Vec::new(), attributes })
}

/// The configuration after the first fields of an update: the whitelist,
/// the price ages, the deposit cap and the staleness window.
pub open spec fn updated_head(c: Config, u: ConfigUpdateMsg) -> Config {
    Config {
        whitelist: match u.whitelist {
            Some(w) => w,
            None => c.whitelist,
        },
        pair_data: PairData {
            token_0: TokenData {
                max_blocks_old: match u.max_blocks_old_token_a {
                    Some(x) => x,
                    None => c.pair_data.token_0.max_blocks_old,
                },
                ..c.pair_data.token_0
            },
            token_1: TokenData {
                max_blocks_old: match u.max_blocks_old_token_b {
                    Some(x) => x,
                    None => c.pair_data.token_1.max_blocks_old,
                },
                ..c.pair_data.token_1
            },
            ..c.pair_data
        },
        deposit_cap: match u.deposit_cap {
            Some(x) => x,
            None => c.deposit_cap,
        },
        timestamp_stale: match u.timestamp_stale {
            Some(x) => x,
            None => c.timestamp_stale,
        },
        ..c
    }
}

/// The configuration after an update's fee tiers.
pub open spec fn updated_tiers(c: Config, u: ConfigUpdateMsg) -> Config {
    Config {
        fee_tier_config: match u.fee_tier_config {
            Some(f) => f,
            None => c.fee_tier_config,
        },
        ..c
    }
}

/// The configuration after an update's pause, skew, imbalance and oracle.
pub open spec fn updated_flags(c: Config, u: ConfigUpdateMsg) -> Config {
    Config {
        paused: match u.paused {
            Some(x) => x,
            None => c.paused,
        },
        skew: match u.skew {
            Some(x) => x,
            None => c.skew,
        },
        imbalance: match u.imbalance {
            Some(x) => x,
            None => c.imbalance,
        },
        oracle_contract: match u.oracle_contract {
            Some(x) => x,
            None => c.oracle_contract,
        },
        ..c
    }
}

/// The configuration after the other fields of an update: the fee tiers,
/// the pause, the skew, the imbalance and the oracle.
pub open spec fn updated_tail(c: Config, u: ConfigUpdateMsg) -> Config {
    updated_flags(updated_tiers(c, u), u)
}

/// The configuration an update leaves: each field given replaces the old one.
pub open spec fn updated_config(c: Config, u: ConfigUpdateMsg) -> Config {
    updated_tail(updated_head(c, u), u)
}

/// The attribute for an optional field: one entry when it is given.
pub open spec fn optional_entry<T>(v: Option<T>, key: Seq<char>, text: spec_fn(T) -> Seq<char>) -> Seq<(Seq<char>, Seq<char>)> {
    match v {
        Some(x) => seq![(key, text(x))],
        None => Seq::empty(),
    }
}

/// The entries the first fields of an update report (the deposit cap
/// reports nothing).
pub open spec fn head_entries(u: ConfigUpdateMsg) -> Seq<(Seq<char>, Seq<char>)> {
    optional_entry(u.whitelist, "whitelist"@, |w: Vec<String>| addr_list_text(w@))
        + optional_entry(u.max_blocks_old_token_a, "max_blocks_old_token_a"@, |x: u64| decimal(x as nat))
        + optional_entry(u.max_blocks_old_token_b, "max_blocks_old_token_b"@, |x: u64| decimal(x as nat))
        + optional_entry(u.timestamp_stale, "timestamp_stale"@, |x: u64| decimal(x as nat))
}

/// The entry an update's fee tiers report.
pub open spec fn tier_entries(u: ConfigUpdateMsg) -> Seq<(Seq<char>, Seq<char>)> {
    optional_entry(u.fee_tier_config, "fee_tier_config"@, |f: FeeTierConfig| "["@ + fee_tiers_text(f.fee_tiers@) + "]"@)
}

/// The entries an update's pause, skew, imbalance and oracle report.
pub open spec fn flag_entries(u: ConfigUpdateMsg) -> Seq<(Seq<char>, Seq<char>)> {
    optional_entry(u.paused, "paused"@, |x: bool| bool_text(x))
        + optional_entry(u.skew, "skew"@, |x: i32| signed_decimal(x as int))
        + optional_entry(u.imbalance, "imbalance"@, |x: u32| decimal(x as nat))
        + optional_entry(u.oracle_contract, "oracle_contract"@, |x: String| x@)
}

/// The entries the other fields of an update report.
pub open spec fn tail_entries(u: ConfigUpdateMsg) -> Seq<(Seq<char>, Seq<char>)> {
    tier_entries(u) + flag_entries(u)
}

/// The keys and values an update reports, in order: the action, then each
/// field given.
pub open spec fn update_entries(u: ConfigUpdateMsg) -> Seq<(Seq<char>, Seq<char>)> {
    seq![("action"@, "update_config"@)] + head_entries(u) + tail_entries(u)
}

/// The attributes hold exactly these keys and values, in order.
pub open spec fn attributes_are(attrs: Seq<Attribute>, entries: Seq<(Seq<char>, Seq<char>)>) -> bool {
    &&& attrs.len() == entries.len()
    &&& forall|i: int| 0 <= i < entries.len() ==> attr_is(#[trigger] attrs[i], entries[i].0, entries[i].1)
}

fn push_entry(attrs: &mut Vec<Attribute>, key: &str, value: String, Ghost(entries): Ghost<Seq<(Seq<char>, Seq<char>)>>)
    requires
        attributes_are(old(attrs)@, entries),
    ensures
        attributes_are(final(attrs)@, entries.push((key@, value@))),
{
    attrs.push(attr(key, value));
    proof {
        assert forall|i: int| 0 <= i < entries.len() + 1 implies attr_is(
            #[trigger] final(attrs)@[i],
            entries.push((key@, value@))[i].0,
            entries.push((key@, value@))[i].1,
        ) by {
            if i < entries.len() {
                assert(final(attrs)@[i] == old(attrs)@[i]);
            }
        }
    }
}

/// The first fields of an update; a zero staleness window is refused.
fn apply_update_head(
    config: &mut Config,
    attrs: &mut Vec<Attribute>,
    update: ConfigUpdateMsg,
    Ghost(entries): Ghost<Seq<(Seq<char>, Seq<char>)>>,
) -> (r: ContractResult<ConfigUpdateMsg>)
    requires
        attributes_are(old(attrs)@, entries),
    ensures
        update.timestamp_stale == Some(0u64) ==> (r matches Err(ContractError::InvalidConfig { reason })
            && reason@ == "timestamp_stale must be greater than 0"@),
        update.timestamp_stale != Some(0u64) ==> {
            &&& r matches Ok(rest)
            &&& rest == (ConfigUpdateMsg { whitelist: None, ..update })
            &&& *final(config) == updated_head(*old(config), update)
            &&& attributes_are(final(attrs)@, entries + head_entries(update))
        },
{
    let ghost u = update;
    let ghost start = *config;
    let ghost mut es = entries;
    let ConfigUpdateMsg {
        whitelist,
        max_blocks_old_token_a,
        max_blocks_old_token_b,
        deposit_cap,
        timestamp_stale,
        fee_tier_config,
        paused,
        imbalance,
        skew,
        oracle_contract,
    } = update;
    if let Some(w) = whitelist {
        push_entry(attrs, "whitelist", addr_list_debug(&w), Ghost(es));
        proof {
            es = es.push(("whitelist"@, addr_list_text(w@)));
        }
        config.whitelist = w;
    }
    if let Some(max_blocks_old_token_a) = max_blocks_old_token_a {
        config.pair_data.token_0.max_blocks_old = max_blocks_old_token_a;
        push_entry(attrs, "max_blocks_old_token_a", u64_to_string(max_blocks_old_token_a), Ghost(es));
        proof {
            es = es.push(("max_blocks_old_token_a"@, decimal(max_blocks_old_token_a as nat)));
        }
    }
    if let Some(max_blocks_old_token_b) = max_blocks_old_token_b {
        config.pair_data.token_1.max_blocks_old = max_blocks_old_token_b;
        push_entry(attrs, "max_blocks_old_token_b", u64_to_string(max_blocks_old_token_b), Ghost(es));
        proof {
            es = es.push(("max_blocks_old_token_b"@, decimal(max_blocks_old_token_b as nat)));
        }
    }
    if let Some(deposit_cap) = deposit_cap {
        config.deposit_cap = deposit_cap;
    }
    if let Some(timestamp_stale) = timestamp_stale {
        if timestamp_stale == 0 {
            return Err(ContractError::InvalidConfig {
                reason: String::from_str("timestamp_stale must be greater than 0"),
            });
        }
        config.timestamp_stale = timestamp_stale;
        push_entry(attrs, "timestamp_stale", u64_to_string(timestamp_stale), Ghost(es));
        proof {
            es = es.push(("timestamp_stale"@, decimal(timestamp_stale as nat)));
        }
    }
    proof {
        assert(es =~= entries + head_entries(u));
    }
    Ok(ConfigUpdateMsg {
        whitelist: None,
        max_blocks_old_token_a,
        max_blocks_old_token_b,
        deposit_cap,
        timestamp_stale,
        fee_tier_config,
        paused,
        imbalance,
        skew,
        oracle_contract,
    })
}

/// An update's fee tiers, which must total exactly 100%.
fn apply_tier_update(
    config: &mut Config,
    attrs: &mut Vec<Attribute>,
    fee_tier_config: Option<FeeTierConfig>,
    Ghost(entries): Ghost<Seq<(Seq<char>, Seq<char>)>>,
) -> (r: ContractResult<()>)
    requires
        attributes_are(old(attrs)@, entries),
        fee_tier_config matches Some(f) ==> seq_sum(tier_percentages(f.fee_tiers@)) <= u64::MAX,
    ensures
        (fee_tier_config matches Some(f) && seq_sum(tier_percentages(f.fee_tiers@)) != 100) ==> (r matches Err(
            ContractError::InvalidFeeTier { reason },
        ) && reason@ == "Total fee tier percentages must add to 100%"@),
        !(fee_tier_config matches Some(f) && seq_sum(tier_percentages(f.fee_tiers@)) != 100) ==> {
            &&& r is Ok
            &&& *final(config) == (Config {
                fee_tier_config: match fee_tier_config {
                    Some(f) => f,
                    None => old(config).fee_tier_config,
                },
                ..*old(config)
            })
            &&& attributes_are(
                final(attrs)@,
                entries + optional_entry(
                    fee_tier_config,
                    "fee_tier_config"@,
                    |f: FeeTierConfig| "["@ + fee_tiers_text(f.fee_tiers@) + "]"@,
                ),
            )
        },
{
    if let Some(fee_tier_config) = fee_tier_config {
        let total_percentage = sum_percentages(&fee_tier_config.fee_tiers);
        if total_percentage != 100 {
            return Err(ContractError::InvalidFeeTier {
                reason: String::from_str("Total fee tier percentages must add to 100%"),
            });
        }
        push_entry(attrs, "fee_tier_config", fee_tier_config.fmt(), Ghost(entries));
        config.fee_tier_config = fee_tier_config;
        proof {
            assert(entries.push(("fee_tier_config"@, "["@ + fee_tiers_text(fee_tier_config.fee_tiers@) + "]"@)) =~= entries
                + optional_entry(
                Some(fee_tier_config),
                "fee_tier_config"@,
                |f: FeeTierConfig| "["@ + fee_tiers_text(f.fee_tiers@) + "]"@,
            ));
        }
    } else {
        proof {
            assert(entries =~= entries + optional_entry(
                None::<FeeTierConfig>,
                "fee_tier_config"@,
                |f: FeeTierConfig| "["@ + fee_tiers_text(f.fee_tiers@) + "]"@,
            ));
        }
    }
    Ok(())
}

/// An update's pause, skew, imbalance and oracle.
fn apply_flag_update(
    config: &mut Config,
    attrs: &mut Vec<Attribute>,
    update: ConfigUpdateMsg,
    Ghost(entries): Ghost<Seq<(Seq<char>, Seq<char>)>>,
)
    requires
        attributes_are(old(attrs)@, entries),
    ensures
        *final(config) == updated_flags(*old(config), update),
        attributes_are(final(attrs)@, entries + flag_entries(update)),
{
    let ghost u = update;
    let ghost mut es = entries;
    if let Some(paused) = update.paused {
        config.paused = paused;
        push_entry(attrs, "paused", bool_to_string(paused), Ghost(es));
        proof {
            es = es.push(("paused"@, bool_text(paused)));
        }
    }
    if let Some(skew) = update.skew {
        config.skew = skew;
        push_entry(attrs, "skew", i32_to_string(skew), Ghost(es));
        proof {
            es = es.push(("skew"@, signed_decimal(skew as int)));
        }
    }
    if let Some(imbalance) = update.imbalance {
        config.imbalance = imbalance;
        push_entry(attrs, "imbalance", u64_to_string(imbalance as u64), Ghost(es));
        proof {
            es = es.push(("imbalance"@, decimal(imbalance as nat)));
        }
    }
    if let Some(oracle_contract) = update.oracle_contract {
        push_entry(attrs, "oracle_contract", oracle_contract.clone(), Ghost(es));
        proof {
            es = es.push(("oracle_contract"@, oracle_contract@));
        }
        config.oracle_contract = oracle_contract;
    }
    proof {
        assert(es =~= entries + flag_entries(u));
    }
}

/// The other fields of an update; new fee tiers must total exactly 100%.
fn apply_update_tail(
    config: &mut Config,
    attrs: &mut Vec<Attribute>,
    update: ConfigUpdateMsg,
    Ghost(entries): Ghost<Seq<(Seq<char>, Seq<char>)>>,
) -> (r: ContractResult<()>)
    requires
        attributes_are(old(attrs)@, entries),
        update.fee_tier_config matches Some(f) ==> seq_sum(tier_percentages(f.fee_tiers@)) <= u64::MAX,
    ensures
        (update.fee_tier_config matches Some(f) && seq_sum(tier_percentages(f.fee_tiers@)) != 100) ==> (r matches Err(
            ContractError::InvalidFeeTier { reason },
        ) && reason@ == "Total fee tier percentages must add to 100%"@),
        !(update.fee_tier_config matches Some(f) && seq_sum(tier_percentages(f.fee_tiers@)) != 100) ==> {
            &&& r is Ok
            &&& *final(config) == updated_tail(*old(config), update)
            &&& attributes_are(final(attrs)@, entries + tail_entries(update))
        },
{
    let ghost u = update;
    let ConfigUpdateMsg {
        whitelist,
        max_blocks_old_token_a,
        max_blocks_old_token_b,
        deposit_cap,
        timestamp_stale,
        fee_tier_config,
        paused,
        imbalance,
        skew,
        oracle_contract,
    } = update;
    apply_tier_update(config, attrs, fee_tier_config, Ghost(entries))?;
    let rest = ConfigUpdateMsg {
        whitelist,
        max_blocks_old_token_a,
        max_blocks_old_token_b,
        deposit_cap,
        timestamp_stale,
        fee_tier_config: None,
        paused,
        imbalance,
        skew,
        oracle_contract,
    };
    let ghost mid = entries + tier_entries(u);
    apply_flag_update(config, attrs, rest, Ghost(mid));
    proof {
        assert(flag_entries(rest) == flag_entries(u));
        assert(mid + flag_entries(u) =~= entries + tail_entries(u));
    }
    Ok(())
}

/// Privileged: update the contract config. Each field given replaces the
/// old one; a zero staleness window is refused, and new fee tiers must total
/// exactly 100%.
pub fn update_config(config: &mut Config, sender: &String, update: ConfigUpdateMsg) -> (r: ContractResult<VaultResponse>)
    requires
        contains_str(old(config).whitelist@, sender@) && update.timestamp_stale != Some(0u64) ==> (
        update.fee_tier_config matches Some(f) ==> seq_sum(tier_percentages(f.fee_tiers@)) <= u64::MAX),
    ensures
        !contains_str(old(config).whitelist@, sender@) ==> r == Err::<VaultResponse, ContractError>(
            ContractError::Unauthorized,
        ) && *final(config) == *old(config),
        contains_str(old(config).whitelist@, sender@) && update.timestamp_stale == Some(0u64) ==> (r matches Err(
            ContractError::InvalidConfig { reason },
        ) && reason@ == "timestamp_stale must be greater than 0"@ && *final(config) == *old(config)),
        contains_str(old(config).whitelist@, sender@) && update.timestamp_stale != Some(0u64) && (
        update.fee_tier_config matches Some(f) && seq_sum(tier_percentages(f.fee_tiers@)) != 100) ==> (r matches Err(
            ContractError::InvalidFeeTier { reason },
        ) && reason@ == "Total fee tier percentages must add to 100%"@ && *final(config) == *old(config)),
        contains_str(old(config).whitelist@, sender@) && update.timestamp_stale != Some(0u64) && !(
        update.fee_tier_config matches Some(f) && seq_sum(tier_percentages(f.fee_tiers@)) != 100) ==> {
            &&& *final(config) == updated_config(*old(config), update)
            &&& r matches Ok(resp)
            &&& resp.messages@.len() == 0 && resp.submessages@.len() == 0
            &&& attributes_are(resp.attributes@, update_entries(update))
        },
{
    check_whitelisted(config, sender)?;
    // the refusals come before any field is written, so a refused update
    // leaves the configuration as it was
    if let Some(t) = update.timestamp_stale {
        if t == 0 {
            return Err(ContractError::InvalidConfig {
                reason: String::from_str("timestamp_stale must be greater than 0"),
            });
        }
    }
    if let Some(f) = &update.fee_tier_config {
        if sum_percentages(&f.fee_tiers) != 100 {
            return Err(ContractError::InvalidFeeTier {
                reason: String::from_str("Total fee tier percentages must add to 100%"),
            });
        }
    }
    let ghost u = update;
    let mut attrs: Vec<Attribute> = Vec::new();
    attrs.push(attr("action", String::from_str("update_config")));
    let ghost entries: Seq<(Seq<char>, Seq<char>)> = seq![("action"@, "update_config"@)];
    assert(attributes_are(attrs@, entries));
    let rest = apply_update_head(config, &mut attrs, update, Ghost(entries))?;
    proof {
        assert(tail_entries(rest) == tail_entries(u));
    }
    apply_update_tail(config, &mut attrs, rest, Ghost(entries + head_entries(u)))?;
    proof {
        assert(entries + head_entries(u) + tail_entries(u) =~= update_entries(u));
    }
    Ok(VaultResponse { messages: Vec::new(), submessages: Vec::new(), attributes: attrs })
}

} // verus!
