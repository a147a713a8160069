use vstd::prelude::*;
use crate::coin::multiply_ratio;
use crate::mmvault::error::{ContractError, ContractResult};
use crate::mmvault::msg::{CombinedPriceResponse, DepositResult, DexDeposit, LimitOrder};
use crate::mmvault::utils::{
    base_amount, gap_share, pair_id, parse_uint128, parsed_u128, text_less, text_lt, value_of, lemma_whole_times,
    lemma_text_lt_total,
};
use crate::owner_vault::state::{Config, TokenData};
use crate::precdec::{Dec, scale, dec_limit, dec_from_atomics, dec_mul, dec_sub, dec_div, dec_lt, dec_percent, dec_floor_u128};

verus! {

/// The two tokens in the order of their denoms.
pub open spec fn sorted_tokens(token0: TokenData, token1: TokenData) -> (TokenData, TokenData) {
    if text_lt(token1.denom@, token0.denom@) {
        (token1, token0)
    } else {
        (token0, token1)
    }
}

/// Sorting two tokens with different denoms does not depend on the order
/// they are given in, and puts the smaller denom first; so the pair id is
/// the same either way.
pub proof fn lemma_sorted_tokens_symmetric(token0: TokenData, token1: TokenData)
    requires
        token0.denom@ != token1.denom@,
    ensures
        sorted_tokens(token0, token1) == sorted_tokens(token1, token0),
        text_lt(sorted_tokens(token0, token1).0.denom@, sorted_tokens(token0, token1).1.denom@),
        pair_id(sorted_tokens(token0, token1).0.denom@, sorted_tokens(token0, token1).1.denom@) == pair_id(
            sorted_tokens(token1, token0).0.denom@,
            sorted_tokens(token1, token0).1.denom@,
        ),
{
    lemma_text_lt_total(token0.denom@, token1.denom@);
}

/// Orders the two tokens by denom and names the pair `denom0<>denom1`.
pub fn sort_token_data_and_get_pair_id_str(token0: &TokenData, token1: &TokenData) -> (r: ([TokenData; 2], String))
    ensures
        (r.0@[0], r.0@[1]) == sorted_tokens(*token0, *token1),
        r.1@ == pair_id(r.0@[0].denom@, r.0@[1].denom@),
{
    let swap = text_less(token1.denom.as_str(), token0.denom.as_str());
    let tokens = if swap {
        [token1.copy_of(), token0.copy_of()]
    } else {
        [token0.copy_of(), token1.copy_of()]
    };
    let id = crate::text::concat_str(tokens[0].denom.as_str(), "<>");
    let id = id.concat(tokens[1].denom.as_str());
    (tokens, id)
}

/// An unsigned amount as a signed one, when it fits.
pub fn uint128_to_int128(u: u128) -> (r: ContractResult<i128>)
    ensures
        u <= i128::MAX ==> r == Ok::<i128, ContractError>(u as i128),
        u > i128::MAX ==> r == Err::<i128, ContractError>(ContractError::ConversionError),
{
    if u > 170141183460469231731687303715884105727u128 {
        return Err(ContractError::ConversionError);
    }
    Ok(u as i128)
}

/// A signed amount as an unsigned one, when it is not negative.
pub fn int128_to_uint128(i: i128) -> (r: ContractResult<u128>)
    ensures
        i >= 0 ==> r == Ok::<u128, ContractError>(i as u128),
        i < 0 ==> r == Err::<u128, ContractError>(ContractError::ConversionError),
{
    if i < 0 {
        return Err(ContractError::ConversionError);
    }
    Ok(i as u128)
}

/// Records the balances the host queried.
pub fn update_contract_balance(config: &mut Config, balance0: u128, balance1: u128)
    ensures
        final(config).balances.token_0.amount == balance0,
        final(config).balances.token_1.amount == balance1,
        final(config).balances.token_0.denom == old(config).balances.token_0.denom,
        final(config).balances.token_1.denom == old(config).balances.token_1.denom,
        final(config).pair_data == old(config).pair_data,
{
    config.balances.token_0.amount = balance0;
    config.balances.token_1.amount = balance1;
}

/// The extra whole tokens half the value gap buys at `price`.
pub open spec fn half_gap_extra(gap: nat, price: Dec) -> ContractResult<u128> {
    let q = (gap_share(gap, 50) * scale()) / price@;
    if q / scale() > u128::MAX {
        Err(ContractError::ConversionError)
    } else {
        Ok((q / scale()) as u128)
    }
}

/// An amount under ten is dust and not deposited; otherwise it is capped at
/// what is available.
pub open spec fn undusted(amount: int, total: u128) -> u128 {
    if amount < 10 {
        0
    } else if amount > total {
        total
    } else {
        amount as u128
    }
}

/// The base deposit: the base percentage of each token, plus half the value
/// gap of what remains, in the token that holds more of it; dust dropped
/// and each amount capped.
pub open spec fn deposit_outcome(
    total0: u128,
    total1: u128,
    tick_index: i64,
    fee: u64,
    prices: CombinedPriceResponse,
    percentage: u64,
) -> ContractResult<DepositResult> {
    let c0 = base_amount(total0, percentage);
    let c1 = base_amount(total1, percentage);
    let v0 = value_of((total0 - c0) as u128, prices.token_0_price);
    let v1 = value_of((total1 - c1) as u128, prices.token_1_price);
    if v0 > v1 {
        match half_gap_extra((v0 - v1) as nat, prices.token_0_price) {
            Err(e) => Err(e),
            Ok(e0) => Ok(DepositResult { amount0: undusted(c0 + e0, total0), amount1: undusted(c1, total1), tick_index, fee }),
        }
    } else if v1 > v0 {
        match half_gap_extra((v1 - v0) as nat, prices.token_1_price) {
            Err(e) => Err(e),
            Ok(e1) => Ok(DepositResult { amount0: undusted(c0, total0), amount1: undusted(c1 + e1, total1), tick_index, fee }),
        }
    } else {
        Ok(DepositResult { amount0: undusted(c0, total0), amount1: undusted(c1, total1), tick_index, fee })
    }
}

/// The base deposit does not depend on which token is called token 0:
/// swapping the balances and the prices swaps the two amounts.
pub proof fn lemma_base_deposit_is_symmetric(
    total0: u128,
    total1: u128,
    tick_index: i64,
    fee: u64,
    prices: CombinedPriceResponse,
    percentage: u64,
)
    ensures
        ({
            let swapped = CombinedPriceResponse {
                token_0_price: prices.token_1_price,
                token_1_price: prices.token_0_price,
                ..prices
            };
            match (
                deposit_outcome(total0, total1, tick_index, fee, prices, percentage),
                deposit_outcome(total1, total0, tick_index, fee, swapped, percentage),
            ) {
                (Ok(d), Ok(e)) => d.amount0 == e.amount1 && d.amount1 == e.amount0,
                (Err(x), Err(y)) => x == y,
                _ => false,
            }
        }),
{
}

/// What the base deposit adds for the token whose remaining value is
/// larger: half the value gap of what remains after the base percentages,
/// divided by that token's price (each step floored as the 27-digit
/// decimals floor); an amount under ten is dropped, and none exceeds what
/// is there.
pub proof fn lemma_base_deposit_adds_half_the_gap(
    total0: u128,
    total1: u128,
    tick_index: i64,
    fee: u64,
    prices: CombinedPriceResponse,
    percentage: u64,
)
    requires
        deposit_outcome(total0, total1, tick_index, fee, prices, percentage) is Ok,
        (total0 * percentage) / 100 <= total0,
        (total1 * percentage) / 100 <= total1,
    ensures
        ({
            let d = deposit_outcome(total0, total1, tick_index, fee, prices, percentage)->Ok_0;
            let c0 = (total0 * percentage) / 100;
            let c1 = (total1 * percentage) / 100;
            let v0 = (total0 - c0) * prices.token_0_price@;
            let v1 = (total1 - c1) * prices.token_1_price@;
            let s = 1_000_000_000_000_000_000_000_000_000int;
            let half = 500_000_000_000_000_000_000_000_000int;
            let e0 = if v0 > v1 { (((((v0 - v1) * half) / s) * s) / (prices.token_0_price@ as int)) / s } else { 0 };
            let e1 = if v1 > v0 { (((((v1 - v0) * half) / s) * s) / (prices.token_1_price@ as int)) / s } else { 0 };
            let want0 = c0 + e0;
            let want1 = c1 + e1;
            &&& d.amount0 == (if want0 < 10 { 0 } else if want0 > total0 { total0 as int } else { want0 })
            &&& d.amount1 == (if want1 < 10 { 0 } else if want1 > total1 { total1 as int } else { want1 })
        }),
{
}

/// The inputs on which the base deposit's arithmetic does not panic.
pub open spec fn deposit_fits(total0: u128, total1: u128, prices: CombinedPriceResponse, percentage: u64) -> bool {
    let c0 = base_amount(total0, percentage);
    let c1 = base_amount(total1, percentage);
    let v0 = value_of((total0 - c0) as u128, prices.token_0_price);
    let v1 = value_of((total1 - c1) as u128, prices.token_1_price);
    &&& c0 <= total0 && c1 <= total1
    &&& v0 < dec_limit() && v1 < dec_limit()
    &&& v0 > v1 ==> {
        &&& (gap_share((v0 - v1) as nat, 50) * scale()) / prices.token_0_price@ < dec_limit()
        &&& half_gap_extra((v0 - v1) as nat, prices.token_0_price) matches Ok(e0) ==> c0 + e0 <= u128::MAX
    }
    &&& v1 > v0 ==> {
        &&& (gap_share((v1 - v0) as nat, 50) * scale()) / prices.token_1_price@ < dec_limit()
        &&& half_gap_extra((v1 - v0) as nat, prices.token_1_price) matches Ok(e1) ==> c1 + e1 <= u128::MAX
    }
}

/// The value of a whole amount, which must fit.
fn whole_value_of(amount: u128, price: Dec) -> (r: Dec)
    requires
        value_of(amount, price) < dec_limit(),
    ensures
        r@ == value_of(amount, price),
{
    let a = dec_from_atomics(amount, 0);
    proof {
        vstd::arithmetic::power::lemma_pow0(10);
        lemma_whole_times(amount as nat, price@);
    }
    dec_mul(a, price)
}

/// Half the value gap, in whole tokens at `price`.
fn half_gap_amount(gap: Dec, price: Dec) -> (r: ContractResult<u128>)
    requires
        price@ > 0,
        (gap_share(gap@, 50) * scale()) / price@ < dec_limit(),
    ensures
        r == half_gap_extra(gap@, price),
{
    let half = dec_percent(50);
    proof {
        crate::precdec::lemma_dec_bounded(gap);
        let g = gap@;
        assert((g * 500_000_000_000_000_000_000_000_000nat) / 1_000_000_000_000_000_000_000_000_000nat <= g) by (nonlinear_arith);
        assert(half@ == 500_000_000_000_000_000_000_000_000nat);
        assert((gap@ * half@) / scale() < dec_limit());
    }
    let imbalance = dec_mul(gap, half);
    let additional = dec_div(imbalance, price);
    match dec_floor_u128(additional) {
        Some(v) => Ok(v),
        None => Err(ContractError::ConversionError),
    }
}

/// A positive value needs a positive price.
proof fn lemma_positive_price(amount: u128, price: Dec)
    requires
        value_of(amount, price) > 0,
    ensures
        price@ > 0,
{
    if price@ == 0 {
        assert(amount * price@ == 0) by (nonlinear_arith)
            requires price@ == 0;
    }
}

/// The base deposit at the tightest spread: the base percentage of each
/// token, plus half the value gap of what remains in the token that holds
/// more value; an amount under ten is dropped, and none exceeds what is
/// available.
pub fn get_deposit_data(
    total_available_0: u128,
    total_available_1: u128,
    tick_index: i64,
    fee: u64,
    prices: &CombinedPriceResponse,
    base_deposit_percentage: u64,
) -> (r: ContractResult<DepositResult>)
    requires
        base_amount(total_available_0, base_deposit_percentage) <= u128::MAX,
        base_amount(total_available_1, base_deposit_percentage) <= u128::MAX,
        deposit_fits(total_available_0, total_available_1, *prices, base_deposit_percentage),
    ensures
        r == deposit_outcome(total_available_0, total_available_1, tick_index, fee, *prices, base_deposit_percentage),
        r matches Ok(d) ==> d.amount0 <= total_available_0 && d.amount1 <= total_available_1,
{
    let computed_amount_0 = multiply_ratio(total_available_0, base_deposit_percentage as u128, 100);
    let computed_amount_1 = multiply_ratio(total_available_1, base_deposit_percentage as u128, 100);
    let value_token_0 = whole_value_of(total_available_0 - computed_amount_0, prices.token_0_price);
    let value_token_1 = whole_value_of(total_available_1 - computed_amount_1, prices.token_1_price);
    let (final_amount_0, final_amount_1) = if dec_lt(value_token_1, value_token_0) {
        proof {
            lemma_positive_price((total_available_0 - computed_amount_0) as u128, prices.token_0_price);
        }
        let gap = dec_sub(value_token_0, value_token_1);
        let additional_token_0 = match half_gap_amount(gap, prices.token_0_price) {
            Ok(v) => v,
            Err(e) => { return Err(e); },
        };
        (computed_amount_0 + additional_token_0, computed_amount_1)
    } else if dec_lt(value_token_0, value_token_1) {
        proof {
            lemma_positive_price((total_available_1 - computed_amount_1) as u128, prices.token_1_price);
        }
        let gap = dec_sub(value_token_1, value_token_0);
        let additional_token_1 = match half_gap_amount(gap, prices.token_1_price) {
            Ok(v) => v,
            Err(e) => { return Err(e); },
        };
        (computed_amount_0, computed_amount_1 + additional_token_1)
    } else {
        (computed_amount_0, computed_amount_1)
    };
    let final_amount_0 = if final_amount_0 < 10 {
        0
    } else if final_amount_0 > total_available_0 {
        total_available_0
    } else {
        final_amount_0
    };
    let final_amount_1 = if final_amount_1 < 10 {
        0
    } else if final_amount_1 > total_available_1 {
        total_available_1
    } else {
        final_amount_1
    };
    Ok(DepositResult { amount0: final_amount_0, amount1: final_amount_1, tick_index, fee })
}

/// A deposit of the vault's pair (no swap on deposit).
pub open spec fn pair_deposit(config: Config, amount0: u128, amount1: u128, tick_index: i64, fee: u64) -> DexDeposit {
    DexDeposit {
        token_a: config.pair_data.token_0.denom,
        token_b: config.pair_data.token_1.denom,
        amount_a: amount0,
        amount_b: amount1,
        tick_index,
        fee,
        swap_on_deposit: false,
    }
}

fn make_deposit(config: &Config, amount0: u128, amount1: u128, tick_index: i64, fee: u64) -> (r: DexDeposit)
    ensures
        r == pair_deposit(*config, amount0, amount1, tick_index, fee),
{
    DexDeposit {
        token_a: config.pair_data.token_0.denom.clone(),
        token_b: config.pair_data.token_1.denom.clone(),
        amount_a: amount0,
        amount_b: amount1,
        tick_index,
        fee,
        swap_on_deposit: false,
    }
}

/// The DEX deposits of the balances: the base deposit at the base fee, then,
/// when ambient deposits are on, what remains at the ambient fee.
pub open spec fn deposit_messages_outcome(
    config: Config,
    tick_index: i64,
    prices: CombinedPriceResponse,
    balance0: u128,
    balance1: u128,
) -> ContractResult<Seq<DexDeposit>> {
    match deposit_outcome(balance0, balance1, tick_index, config.base_fee, prices, config.base_deposit_percentage) {
        Err(e) => Err(e),
        Ok(d) => {
            let first = if d.amount0 > 0 || d.amount1 > 0 {
                seq![pair_deposit(config, d.amount0, d.amount1, d.tick_index, d.fee)]
            } else {
                Seq::empty()
            };
            let rem0 = (balance0 - d.amount0) as u128;
            let rem1 = (balance1 - d.amount1) as u128;
            if config.deposit_ambient && (rem0 > 0 || rem1 > 0) {
                Ok(first.push(pair_deposit(config, rem0, rem1, d.tick_index, config.ambient_fee)))
            } else {
                Ok(first)
            }
        },
    }
}

/// Get the deposit messages: the base deposit, and the ambient deposit of
/// the rest when that is on.
pub fn get_deposit_messages(
    config: &Config,
    tick_index: i64,
    prices: CombinedPriceResponse,
    token_0_balance: u128,
    token_1_balance: u128,
) -> (r: ContractResult<Vec<DexDeposit>>)
    requires
        base_amount(token_0_balance, config.base_deposit_percentage) <= u128::MAX,
        base_amount(token_1_balance, config.base_deposit_percentage) <= u128::MAX,
        deposit_fits(token_0_balance, token_1_balance, prices, config.base_deposit_percentage),
    ensures
        match r {
            Ok(v) => deposit_messages_outcome(*config, tick_index, prices, token_0_balance, token_1_balance)
                == Ok::<Seq<DexDeposit>, ContractError>(v@),
            Err(e) => deposit_messages_outcome(*config, tick_index, prices, token_0_balance, token_1_balance)
                == Err::<Seq<DexDeposit>, ContractError>(e),
        },
        config.deposit_ambient ==> (r matches Ok(v) ==> {
            &&& crate::mmvault::utils::deposited_a(v@) == token_0_balance
            &&& crate::mmvault::utils::deposited_b(v@) == token_1_balance
        }),
{
    let mut messages: Vec<DexDeposit> = Vec::new();
    let deposit_data = get_deposit_data(
        token_0_balance,
        token_1_balance,
        tick_index,
        config.base_fee,
        &prices,
        config.base_deposit_percentage,
    )?;
    if deposit_data.amount0 > 0 || deposit_data.amount1 > 0 {
        messages.push(make_deposit(config, deposit_data.amount0, deposit_data.amount1, deposit_data.tick_index, deposit_data.fee));
    }
    proof {
        assert(crate::mmvault::utils::deposited_a(Seq::<DexDeposit>::empty()) == 0);
        assert(crate::mmvault::utils::deposited_b(Seq::<DexDeposit>::empty()) == 0);
        if deposit_data.amount0 > 0 || deposit_data.amount1 > 0 {
            assert(messages@.drop_last() =~= Seq::<DexDeposit>::empty());
        }
        assert(crate::mmvault::utils::deposited_a(messages@) == deposit_data.amount0);
        assert(crate::mmvault::utils::deposited_b(messages@) == deposit_data.amount1);
    }
    if config.deposit_ambient {
        let remaining_amount0 = token_0_balance - deposit_data.amount0;
        let remaining_amount1 = token_1_balance - deposit_data.amount1;
        if remaining_amount0 > 0 || remaining_amount1 > 0 {
            let ghost before = messages@;
            messages.push(make_deposit(config, remaining_amount0, remaining_amount1, deposit_data.tick_index, config.ambient_fee));
            proof {
                assert(messages@.drop_last() =~= before);
            }
        }
    }
    Ok(messages)
}

/// The amounts a simulated fill reports, (out, in), each read as `u128` or
/// else zero; no fill, none.
pub open spec fn fill_amounts(fill: Option<(String, String)>) -> (u128, u128) {
    match fill {
        None => (0, 0),
        Some(f) => (
            match parsed_u128(f.0@) {
                Some(v) => v,
                None => 0,
            },
            match parsed_u128(f.1@) {
                Some(v) => v,
                None => 0,
            },
        ),
    }
}

/// The limit orders that clear liquidity behind enemy lines, and the
/// balances left usable after them.
#[derive(Debug, Clone)]
pub struct ClearingState {
    pub messages: Vec<LimitOrder>,
    pub token_0_usable: u128,
    pub token_1_usable: u128,
}

/// The clearing order selling `amount_in` of one token of the pair for the
/// other (token 0 for token 1 when `zero_to_one`) at `tick`, with no price
/// floor.
pub open spec fn is_clearing_order(o: LimitOrder, config: Config, zero_to_one: bool, tick: int, amount_in: u128) -> bool {
    &&& o.token_in == (if zero_to_one { config.pair_data.token_0.denom } else { config.pair_data.token_1.denom })
    &&& o.token_out == (if zero_to_one { config.pair_data.token_1.denom } else { config.pair_data.token_0.denom })
    &&& o.tick_index_in_to_out == tick
    &&& o.amount_in == amount_in
    &&& o.min_average_sell_price is None
}

/// The tick of a clearing order: `-index + fee` for token 0, `index + fee`
/// for token 1.
pub open spec fn clearing_tick(config: Config, index: i64, zero_to_one: bool) -> int {
    if zero_to_one {
        -index + (config.base_fee as i64)
    } else {
        index + (config.base_fee as i64)
    }
}

/// A clearing order of the vault's recorded balance of one token.
pub fn clearing_order(config: &Config, index: i64, zero_to_one: bool, amount_in: u128) -> (r: LimitOrder)
    requires
        zero_to_one ==> index != i64::MIN,
        i64::MIN <= clearing_tick(*config, index, zero_to_one) <= i64::MAX,
    ensures
        is_clearing_order(r, *config, zero_to_one, clearing_tick(*config, index, zero_to_one), amount_in),
{
    let fee = config.base_fee as i64;
    if zero_to_one {
        LimitOrder {
            token_in: config.pair_data.token_0.denom.clone(),
            token_out: config.pair_data.token_1.denom.clone(),
            tick_index_in_to_out: -index + fee,
            amount_in,
            min_average_sell_price: None,
        }
    } else {
        LimitOrder {
            token_in: config.pair_data.token_1.denom.clone(),
            token_out: config.pair_data.token_0.denom.clone(),
            tick_index_in_to_out: index + fee,
            amount_in,
            min_average_sell_price: None,
        }
    }
}

/// Prepare the state for the AMM deposit, first step: nothing placed yet,
/// and the recorded balances usable.
pub fn prepare_state_start(config: &Config) -> (r: ClearingState)
    ensures
        r.messages@.len() == 0,
        r.token_0_usable == config.balances.token_0.amount,
        r.token_1_usable == config.balances.token_1.amount,
{
    ClearingState {
        messages: Vec::new(),
        token_0_usable: config.balances.token_0.amount,
        token_1_usable: config.balances.token_1.amount,
    }
}

/// Takes in a clearing order's simulated fill: when it would take anything,
/// the order is placed and the usable balances move by what it takes and
/// gives; otherwise nothing changes.
pub fn prepare_state_fill(state: &mut ClearingState, order: LimitOrder, zero_to_one: bool, fill: Option<(String, String)>)
    requires
        ({
            let (out, taken) = fill_amounts(fill);
            taken > 0 ==> if zero_to_one {
                taken <= old(state).token_0_usable && old(state).token_1_usable + out <= u128::MAX
            } else {
                taken <= old(state).token_1_usable && old(state).token_0_usable + out <= u128::MAX
            }
        }),
    ensures
        ({
            let (out, taken) = fill_amounts(fill);
            if taken > 0 {
                &&& final(state).messages@ == old(state).messages@.push(order)
                &&& if zero_to_one {
                    final(state).token_0_usable == old(state).token_0_usable - taken
                        && final(state).token_1_usable == old(state).token_1_usable + out
                } else {
                    final(state).token_1_usable == old(state).token_1_usable - taken
                        && final(state).token_0_usable == old(state).token_0_usable + out
                }
            } else {
                *final(state) == *old(state)
            }
        }),
{
    let (out, taken) = match &fill {
        None => (0u128, 0u128),
        Some(f) => {
            let out = match parse_uint128(f.0.as_str()) {
                Some(v) => v,
                None => 0,
            };
            let taken = match parse_uint128(f.1.as_str()) {
                Some(v) => v,
                None => 0,
            };
            (out, taken)
        },
    };
    if taken > 0 {
        state.messages.push(order);
        if zero_to_one {
            state.token_0_usable = state.token_0_usable - taken;
            state.token_1_usable = state.token_1_usable + out;
        } else {
            state.token_1_usable = state.token_1_usable - taken;
            state.token_0_usable = state.token_0_usable + out;
        }
    }
}

} // verus!
