use vstd::prelude::*;
use cosmwasm_std::Uint128;
use neutron_std::types::neutron::dex::MsgWithdrawalResponse;
use neutron_std::types::osmosis::tokenfactory::v1beta1::MsgCreateDenomResponse;
use prost::Message;
use vstd::arithmetic::power::{pow, lemma_pow0};
use vstd::arithmetic::div_mod::{lemma_div_multiples_vanish, lemma_div_denominator};
use crate::mmvault::error::{ContractError, ContractResult, OverflowOperation};
use crate::coin::multiply_ratio;
use crate::arith::{seq_sum, lemma_seq_sum_take_step, lemma_seq_sum_prefix_le, lemma_seq_sum_elem_le};
use crate::coin::Coin;
use crate::mmvault::msg::{
    CombinedPriceResponse, DepositResult, DexDeposit, DexWithdrawal, LimitOrder, SubMessage, UserDeposit, VaultMsg,
    tier_percentages,
};
use crate::mmvault::state::{Config, FeeTier, TokenData, SHARES_MULTIPLIER};
use crate::precdec::{
    Dec, RatioError, scale, dec_limit, dec_zero, dec_from_atomics, dec_from_ratio, dec_checked_add,
    dec_checked_sub, dec_checked_mul, dec_checked_div, dec_floor_u128, dec_lt, dec_mul, dec_sub,
    dec_percent, dec_is_zero, dec_atomics_string,
};
use crate::text::decimal;

verus! {

/// `a < b` in the order of strings: the first differing character decides,
/// and a proper prefix comes first. On UTF-8 bytes, which is what `String`
/// compares, this is the same order.
pub open spec fn text_lt(a: Seq<char>, b: Seq<char>) -> bool
    decreases a.len(),
{
    if b.len() == 0 {
        false
    } else if a.len() == 0 {
        true
    } else if a[0] != b[0] {
        (a[0] as u32) < (b[0] as u32)
    } else {
        text_lt(a.drop_first(), b.drop_first())
    }
}

/// Whether `a` sorts before `b`, as `<` on strings answers.
pub fn text_less(a: &str, b: &str) -> (r: bool)
    ensures
        r == text_lt(a@, b@),
{
    let na = a.unicode_len();
    let nb = b.unicode_len();
    let mut i: usize = 0;
    proof {
        assert(a@.skip(0) =~= a@);
        assert(b@.skip(0) =~= b@);
    }
    while i < na && i < nb
        invariant
            na == a@.len(),
            nb == b@.len(),
            i <= na,
            i <= nb,
            text_lt(a@, b@) == text_lt(a@.skip(i as int), b@.skip(i as int)),
        decreases na - i,
    {
        let ca = a.get_char(i);
        let cb = b.get_char(i);
        proof {
            assert(a@.skip(i as int)[0] == ca);
            assert(b@.skip(i as int)[0] == cb);
            assert(a@.skip(i as int).drop_first() =~= a@.skip(i as int + 1));
            assert(b@.skip(i as int).drop_first() =~= b@.skip(i as int + 1));
        }
        if ca != cb {
            return (ca as u32) < (cb as u32);
        }
        i = i + 1;
    }
    proof {
        if i == nb {
            assert(b@.skip(i as int).len() == 0);
        } else {
            assert(a@.skip(i as int).len() == 0);
        }
    }
    i < nb
}

/// Different characters have different code points.
proof fn lemma_char_code_injective(x: char, y: char)
    requires
        x != y,
    ensures
        (x as u32) != (y as u32),
{
}

/// The order of strings is a strict total order: no string sorts before
/// itself, and of two different strings exactly one sorts first.
pub proof fn lemma_text_lt_total(a: Seq<char>, b: Seq<char>)
    ensures
        !text_lt(a, a),
        a != b ==> (text_lt(a, b) <==> !text_lt(b, a)),
    decreases a.len(),
{
    if a.len() > 0 {
        lemma_text_lt_total(a.drop_first(), a.drop_first());
    }
    if a != b {
        if a.len() == 0 && b.len() == 0 {
            assert(a =~= b);
        } else if a.len() == 0 || b.len() == 0 {
        } else if a[0] != b[0] {
            lemma_char_code_injective(a[0], b[0]);
        } else {
            if a.drop_first() == b.drop_first() {
                assert(a =~= seq![a[0]] + a.drop_first());
                assert(b =~= seq![b[0]] + b.drop_first());
                assert(false);
            }
            lemma_text_lt_total(a.drop_first(), b.drop_first());
            assert(text_lt(a, b) == text_lt(a.drop_first(), b.drop_first()));
            assert(text_lt(b, a) == text_lt(b.drop_first(), a.drop_first()));
        }
    }
}

/// The two tokens in the order of their denoms.
pub open spec fn sorted_tokens(token0: TokenData, token1: TokenData) -> (TokenData, TokenData) {
    if text_lt(token1.denom@, token0.denom@) {
        (token1, token0)
    } else {
        (token0, token1)
    }
}

/// Sorting two tokens with different denoms does not depend on the order
/// they are given in, and puts the smaller denom first; so the pair id is
/// the same either way.
pub proof fn lemma_sorted_tokens_symmetric(token0: TokenData, token1: TokenData)
    requires
        token0.denom@ != token1.denom@,
    ensures
        sorted_tokens(token0, token1) == sorted_tokens(token1, token0),
        text_lt(sorted_tokens(token0, token1).0.denom@, sorted_tokens(token0, token1).1.denom@),
        pair_id(sorted_tokens(token0, token1).0.denom@, sorted_tokens(token0, token1).1.denom@) == pair_id(
            sorted_tokens(token1, token0).0.denom@,
            sorted_tokens(token1, token0).1.denom@,
        ),
{
    lemma_text_lt_total(token0.denom@, token1.denom@);
}

/// The pair id of two sorted denoms: `a<>b`.
pub open spec fn pair_id(a: Seq<char>, b: Seq<char>) -> Seq<char> {
    a + "<>"@ + b
}

/// Orders the two tokens by denom and names the pair `denom0<>denom1`.
pub fn sort_token_data_and_get_pair_id_str(token0: &TokenData, token1: &TokenData) -> (r: (
    [TokenData; 2],
    String,
))
    ensures
        (r.0@[0], r.0@[1]) == sorted_tokens(*token0, *token1),
        r.1@ == pair_id(r.0@[0].denom@, r.0@[1].denom@),
{
    let swap = text_less(token1.denom.as_str(), token0.denom.as_str());
    let tokens = if swap {
        [token1.copy_of(), token0.copy_of()]
    } else {
        [token0.copy_of(), token1.copy_of()]
    };
    let id = crate::text::concat_str(tokens[0].denom.as_str(), "<>");
    let id = id.concat(tokens[1].denom.as_str());
    (tokens, id)
}

/// The value of `amount` whole tokens at `price`, in atomics of a decimal.
pub open spec fn value_of(amount: u128, price: Dec) -> nat {
    (amount * price@) as nat
}

/// `(a * 10^27) * p / 10^27 == a * p`: a whole number times a decimal loses
/// nothing to truncation.
pub proof fn lemma_whole_times(a: nat, p: nat)
    ensures
        ((a * scale()) * p) / scale() == a * p,
{
    assert((a * scale()) * p == scale() * (a * p)) by (nonlinear_arith);
    lemma_div_multiples_vanish((a * p) as int, scale() as int);
}

/// `PrecDec::from_atomics(amount, 0)?.checked_mul(price)`: the value of a
/// whole amount, when it fits in 256 bits.
pub fn whole_value(amount: u128, price: Dec) -> (r: Option<Dec>)
    ensures
        r is Some <==> value_of(amount, price) < dec_limit(),
        r matches Some(v) ==> v@ == value_of(amount, price),
{
    let a = dec_from_atomics(amount, 0);
    proof {
        lemma_pow0(10);
        lemma_whole_times(amount as nat, price@);
        assert(a@ == amount * scale());
    }
    dec_checked_mul(a, price)
}

/// Get the value of the tokens in USD
pub fn get_token_value(prices: CombinedPriceResponse, token0_deposited: u128, token1_deposited: u128) -> (r:
    ContractResult<(Dec, Dec)>)
    ensures
        r is Ok <==> (value_of(token0_deposited, prices.token_0_price) < dec_limit()
            && value_of(token1_deposited, prices.token_1_price) < dec_limit()),
        r matches Ok(v) ==> (v.0@ == value_of(token0_deposited, prices.token_0_price)
            && v.1@ == value_of(token1_deposited, prices.token_1_price)),
        r matches Err(e) ==> e == ContractError::Overflow(OverflowOperation::Mul),
{
    let mut value_0 = dec_zero();
    let mut value_1 = dec_zero();
    if token0_deposited != 0 {
        match whole_value(token0_deposited, prices.token_0_price) {
            Some(v) => { value_0 = v; },
            None => { return Err(ContractError::Overflow(OverflowOperation::Mul)); },
        }
    }
    if token1_deposited != 0 {
        match whole_value(token1_deposited, prices.token_1_price) {
            Some(v) => { value_1 = v; },
            None => { return Err(ContractError::Overflow(OverflowOperation::Mul)); },
        }
    }
    proof {
        if token0_deposited == 0 {
            assert(value_of(token0_deposited, prices.token_0_price) == 0) by (nonlinear_arith)
                requires token0_deposited == 0;
        }
        if token1_deposited == 0 {
            assert(value_of(token1_deposited, prices.token_1_price) == 0) by (nonlinear_arith)
                requires token1_deposited == 0;
        }
    }
    Ok((value_0, value_1))
}

/// Convert a PrecDec to a Uint128: its integer part, when that fits in 128
/// bits. (A decimal here is never negative, so a sign check has nothing
/// to refuse.)
pub fn precdec_to_uint128(precdec: Dec) -> (r: ContractResult<u128>)
    ensures
        r is Ok <==> precdec@ / scale() <= u128::MAX,
        r matches Ok(v) ==> v == precdec@ / scale(),
        r matches Err(e) ==> e == ContractError::ConversionError,
{
    match dec_floor_u128(precdec) {
        Some(v) => Ok(v),
        None => Err(ContractError::ConversionError),
    }
}

/// The share count a decimal stands for: its integer part, which must fit in
/// 128 bits and be positive.
pub open spec fn shares_from(d: nat) -> ContractResult<u128> {
    if d / scale() > u128::MAX {
        Err(ContractError::ConversionError)
    } else if d / scale() == 0 {
        Err(ContractError::InvalidTokenAmount)
    } else {
        Ok((d / scale()) as u128)
    }
}

/// What a deposit of value `incoming` mints, given the vault's holdings
/// `total0`, `total1` (the deposit included) and the shares already out:
/// the first deposit mints its value times `SHARES_MULTIPLIER`, later ones
/// mint in proportion to the value that was there before them. Each step
/// fails as the decimal arithmetic does.
pub open spec fn mint_outcome(
    total_shares: u128,
    prices: CombinedPriceResponse,
    incoming: nat,
    total0: u128,
    total1: u128,
) -> ContractResult<u128> {
    let tv0 = value_of(total0, prices.token_0_price);
    let tv1 = value_of(total1, prices.token_1_price);
    if tv0 >= dec_limit() || tv1 >= dec_limit() {
        Err(ContractError::Overflow(OverflowOperation::Mul))
    } else if tv0 + tv1 >= dec_limit() {
        Err(ContractError::Overflow(OverflowOperation::Add))
    } else if tv0 + tv1 < incoming {
        Err(ContractError::Overflow(OverflowOperation::Sub))
    } else if total_shares == 0 {
        let m: nat = (incoming * ((SHARES_MULTIPLIER as nat) * scale())) / scale();
        if m >= dec_limit() {
            Err(ContractError::Overflow(OverflowOperation::Mul))
        } else {
            shares_from(m)
        }
    } else {
        let existing = (tv0 + tv1 - incoming) as nat;
        let m: nat = (incoming * ((total_shares as nat) * scale())) / scale();
        if m >= dec_limit() || existing == 0 || (m * scale()) / existing >= dec_limit() {
            Err(ContractError::ConversionError)
        } else {
            shares_from((m * scale()) / existing)
        }
    }
}

/// Get the amount of shares to mint.
/// This is used to calculate the mint amount when a user deposits tokens.
pub fn get_mint_amount(
    config: &Config,
    prices: CombinedPriceResponse,
    deposited_value_token_0: Dec,
    deposited_value_token_1: Dec,
    total_amount_0: u128,
    total_amount_1: u128,
) -> (r: ContractResult<u128>)
    requires
        deposited_value_token_0@ + deposited_value_token_1@ < dec_limit(),
    ensures
        r == mint_outcome(
            config.total_shares,
            prices,
            deposited_value_token_0@ + deposited_value_token_1@,
            total_amount_0,
            total_amount_1,
        ),
{
    let total_value_token_0 = match whole_value(total_amount_0, prices.token_0_price) {
        Some(v) => v,
        None => { return Err(ContractError::Overflow(OverflowOperation::Mul)); },
    };
    let total_value_token_1 = match whole_value(total_amount_1, prices.token_1_price) {
        Some(v) => v,
        None => { return Err(ContractError::Overflow(OverflowOperation::Mul)); },
    };
    let deposit_value_incoming = dec_checked_add(deposited_value_token_0, deposited_value_token_1).unwrap();
    let total_value = match dec_checked_add(total_value_token_0, total_value_token_1) {
        Some(v) => v,
        None => { return Err(ContractError::Overflow(OverflowOperation::Add)); },
    };
    let total_value_existing = match dec_checked_sub(total_value, deposit_value_incoming) {
        Some(v) => v,
        None => { return Err(ContractError::Overflow(OverflowOperation::Sub)); },
    };
    let total_shares = if config.total_shares == 0 {
        let multiplier = dec_from_ratio(SHARES_MULTIPLIER as u128, 1);
        match dec_checked_mul(deposit_value_incoming, multiplier) {
            Some(v) => v,
            None => { return Err(ContractError::Overflow(OverflowOperation::Mul)); },
        }
    } else {
        let outstanding = dec_from_ratio(config.total_shares, 1);
        let scaled = match dec_checked_mul(deposit_value_incoming, outstanding) {
            Some(v) => v,
            None => { return Err(ContractError::ConversionError); },
        };
        match dec_checked_div(scaled, total_value_existing) {
            Ok(v) => v,
            Err(_) => { return Err(ContractError::ConversionError); },
        }
    };
    let shares_u128 = precdec_to_uint128(total_shares)?;
    if shares_u128 == 0 {
        return Err(ContractError::InvalidTokenAmount);
    }
    Ok(shares_u128)
}

/// `imbalance` percent of a value gap, as `gap * PrecDec::percent(imbalance)`.
pub open spec fn gap_share(gap: nat, imbalance: u32) -> nat {
    (gap * ((imbalance as nat) * 10_000_000_000_000_000_000_000_000nat)) / scale()
}

/// The extra whole tokens the imbalance asks for: the gap share divided by
/// the token's price, then floored to an integer.
pub open spec fn extra_for(gap: nat, imbalance: u32, price: Dec) -> ContractResult<u128> {
    let q = (gap_share(gap, imbalance) * scale()) / price@;
    if q >= dec_limit() {
        Err(ContractError::CheckedDiv(RatioError::Overflow))
    } else if q / scale() > u128::MAX {
        Err(ContractError::ConversionError)
    } else {
        Ok((q / scale()) as u128)
    }
}

/// `amount`, capped at `total`.
pub open spec fn capped(amount: int, total: u128) -> u128 {
    if amount > total {
        total
    } else {
        amount as u128
    }
}

/// `total * percentage / 100`, floored.
pub open spec fn base_amount(total: u128, percentage: u64) -> int {
    (total * percentage) / 100
}

/// The first deposit: the base percentage of each token, plus, for the
/// token that holds more value, `imbalance` percent of the value gap in that
/// token; each amount capped at what is available.
pub open spec fn deposit_outcome(
    total0: u128,
    total1: u128,
    tick_index: i64,
    fee: u64,
    prices: CombinedPriceResponse,
    percentage: u64,
    imbalance: u32,
) -> ContractResult<DepositResult> {
    let c0 = base_amount(total0, percentage);
    let c1 = base_amount(total1, percentage);
    let v0 = value_of(total0, prices.token_0_price);
    let v1 = value_of(total1, prices.token_1_price);
    if v0 >= dec_limit() || v1 >= dec_limit() {
        Err(ContractError::Overflow(OverflowOperation::Mul))
    } else if v0 > v1 {
        match extra_for((v0 - v1) as nat, imbalance, prices.token_0_price) {
            Err(e) => Err(e),
            Ok(e0) => Ok(DepositResult {
                amount0: capped(c0 + e0, total0),
                amount1: capped(c1, total1),
                tick_index,
                fee,
            }),
        }
    } else if v1 > v0 {
        match extra_for((v1 - v0) as nat, imbalance, prices.token_1_price) {
            Err(e) => Err(e),
            Ok(e1) => Ok(DepositResult {
                amount0: capped(c0, total0),
                amount1: capped(c1 + e1, total1),
                tick_index,
                fee,
            }),
        }
    } else {
        Ok(DepositResult { amount0: capped(c0, total0), amount1: capped(c1, total1), tick_index, fee })
    }
}

/// The inputs on which the first deposit's arithmetic does not panic: the
/// base amounts fit in 128 bits, the gap share fits in 256 bits, and the
/// base amount plus the extra fits in 128 bits.
pub open spec fn deposit_fits(
    total0: u128,
    total1: u128,
    prices: CombinedPriceResponse,
    percentage: u64,
    imbalance: u32,
) -> bool {
    let c0 = base_amount(total0, percentage);
    let c1 = base_amount(total1, percentage);
    let v0 = value_of(total0, prices.token_0_price);
    let v1 = value_of(total1, prices.token_1_price);
    &&& c0 <= u128::MAX
    &&& c1 <= u128::MAX
    &&& (v0 < dec_limit() && v1 < dec_limit() && v0 > v1) ==> {
        &&& gap_share((v0 - v1) as nat, imbalance) < dec_limit()
        &&& extra_for((v0 - v1) as nat, imbalance, prices.token_0_price) matches Ok(e0) ==> c0 + e0 <= u128::MAX
    }
    &&& (v0 < dec_limit() && v1 < dec_limit() && v1 > v0) ==> {
        &&& gap_share((v1 - v0) as nat, imbalance) < dec_limit()
        &&& extra_for((v1 - v0) as nat, imbalance, prices.token_1_price) matches Ok(e1) ==> c1 + e1 <= u128::MAX
    }
}

/// The extra tokens for a value gap: `gap * percent(imbalance) / price`,
/// floored to an integer.
fn extra_amount(gap: Dec, imbalance: u32, price: Dec) -> (r: ContractResult<u128>)
    requires
        price@ > 0,
        gap_share(gap@, imbalance) < dec_limit(),
    ensures
        r == extra_for(gap@, imbalance, price),
{
    let share = dec_mul(gap, dec_percent(imbalance));
    let q = match dec_checked_div(share, price) {
        Ok(v) => v,
        Err(e) => { return Err(ContractError::CheckedDiv(e)); },
    };
    match dec_floor_u128(q) {
        Some(v) => Ok(v),
        None => Err(ContractError::ConversionError),
    }
}

/// A positive value needs a positive price.
proof fn lemma_positive_price(amount: u128, price: Dec)
    requires
        value_of(amount, price) > 0,
    ensures
        price@ > 0,
{
    if price@ == 0 {
        assert(amount * price@ == 0) by (nonlinear_arith)
            requires price@ == 0;
    }
}

/// Get the amount of tokens to deposit at the tightest spread.
/// This is called on the lowest fee-tier, and will return the amount of tokens to deposit.
/// The tick index it is given is the one to deposit at, skew already applied.
pub fn get_deposit_data(
    total_available_0: u128,
    total_available_1: u128,
    tick_index: i64,
    fee: u64,
    prices: &CombinedPriceResponse,
    base_deposit_percentage: u64,
    config_imbalance: u32,
) -> (r: ContractResult<DepositResult>)
    requires
        deposit_fits(total_available_0, total_available_1, *prices, base_deposit_percentage, config_imbalance),
    ensures
        r == deposit_outcome(
            total_available_0,
            total_available_1,
            tick_index,
            fee,
            *prices,
            base_deposit_percentage,
            config_imbalance,
        ),
        r matches Ok(d) ==> d.amount0 <= total_available_0 && d.amount1 <= total_available_1,
{
    let computed_amount_0 = multiply_ratio(total_available_0, base_deposit_percentage as u128, 100);
    let computed_amount_1 = multiply_ratio(total_available_1, base_deposit_percentage as u128, 100);
    let value_token_0 = match whole_value(total_available_0, prices.token_0_price) {
        Some(v) => v,
        None => { return Err(ContractError::Overflow(OverflowOperation::Mul)); },
    };
    let value_token_1 = match whole_value(total_available_1, prices.token_1_price) {
        Some(v) => v,
        None => { return Err(ContractError::Overflow(OverflowOperation::Mul)); },
    };
    let (final_amount_0, final_amount_1) = if dec_lt(value_token_1, value_token_0) {
        proof {
            lemma_positive_price(total_available_0, prices.token_0_price);
        }
        let gap = dec_sub(value_token_0, value_token_1);
        let additional_token_0 = match extra_amount(gap, config_imbalance, prices.token_0_price) {
            Ok(v) => v,
            Err(e) => { return Err(e); },
        };
        (computed_amount_0 + additional_token_0, computed_amount_1)
    } else if dec_lt(value_token_0, value_token_1) {
        proof {
            lemma_positive_price(total_available_1, prices.token_1_price);
        }
        let gap = dec_sub(value_token_1, value_token_0);
        let additional_token_1 = match extra_amount(gap, config_imbalance, prices.token_1_price) {
            Ok(v) => v,
            Err(e) => { return Err(e); },
        };
        (computed_amount_0, computed_amount_1 + additional_token_1)
    } else {
        (computed_amount_0, computed_amount_1)
    };
    let final_amount_0 = if final_amount_0 > total_available_0 {
        total_available_0
    } else {
        final_amount_0
    };
    let final_amount_1 = if final_amount_1 > total_available_1 {
        total_available_1
    } else {
        final_amount_1
    };
    Ok(DepositResult { amount0: final_amount_0, amount1: final_amount_1, tick_index, fee })
}

/// How the skew moves the deposit tick, as far as it is decided without
/// rounding a ratio.
#[derive(Debug, Clone, Copy)]
pub enum TickAdjustment {
    /// The adjusted tick.
    Exact(i64),
    /// `base + round(ratio * max_adjustment)`, upward when token 0 holds
    /// more value and downward otherwise, where `ratio = imbalance / 10^27`
    /// is the value gap over the total value.
    Proportional { base: i64, max_adjustment: i64, imbalance: Dec, token0_dominates: bool },
}

/// `fee - 1` as the signed step it allows (the fee taken as an `i64`).
pub open spec fn max_adjustment_of(fee: u64) -> int {
    (fee as i64) - 1
}

/// The value gap over the total value, in atomics: `|v0 - v1| / (v0 + v1)`.
pub open spec fn imbalance_ratio(v0: nat, v1: nat) -> int {
    let gap = if v0 >= v1 { v0 - v1 } else { v1 - v0 };
    (gap * scale()) / ((v0 + v1) as int)
}

/// What the skew decides for values `v0`, `v1` of the two tokens: no move
/// when both are zero or the fee allows no step; the whole step when one
/// value is zero; otherwise the ratio of the gap to the total, rounded later.
pub open spec fn adjustment_outcome(base_tick_index: i64, fee: u64, v0: nat, v1: nat, r: ContractResult<TickAdjustment>) -> bool {
    if v0 == 0 && v1 == 0 {
        r == Ok::<TickAdjustment, ContractError>(TickAdjustment::Exact(base_tick_index))
    } else {
        let m = max_adjustment_of(fee);
        &&& m <= 0 ==> r == Ok::<TickAdjustment, ContractError>(TickAdjustment::Exact(base_tick_index))
        &&& m > 0 && v0 + v1 >= dec_limit() ==> r == Err::<TickAdjustment, ContractError>(
            ContractError::Overflow(OverflowOperation::Add),
        )
        &&& m > 0 && v0 + v1 < dec_limit() && v0 == 0 ==> r == Ok::<TickAdjustment, ContractError>(
            TickAdjustment::Exact((base_tick_index - m) as i64),
        )
        &&& m > 0 && v0 + v1 < dec_limit() && v0 != 0 && v1 == 0 ==> r == Ok::<TickAdjustment, ContractError>(
            TickAdjustment::Exact((base_tick_index + m) as i64),
        )
        &&& m > 0 && v0 + v1 < dec_limit() && v0 != 0 && v1 != 0 ==> {
            &&& r matches Ok(TickAdjustment::Proportional { base, max_adjustment, imbalance, token0_dominates })
            &&& base == base_tick_index
            &&& max_adjustment == m
            &&& token0_dominates == (v0 >= v1)
            &&& imbalance@ == imbalance_ratio(v0, v1)
            &&& imbalance@ <= scale()
        }
    }
}

/// The part of the skew that is decided exactly: the edge cases, and the
/// imbalance ratio `|v0 - v1| / (v0 + v1)` that the rest scales the step by.
pub fn tick_adjustment(base_tick_index: i64, fee: u64, value_token_0: Dec, value_token_1: Dec) -> (r:
    ContractResult<TickAdjustment>)
    requires
        fee as i64 > i64::MIN,
        base_tick_index - max_adjustment_of(fee) >= i64::MIN,
        base_tick_index + max_adjustment_of(fee) <= i64::MAX,
    ensures
        adjustment_outcome(base_tick_index, fee, value_token_0@, value_token_1@, r),
{
    if dec_is_zero(value_token_0) && dec_is_zero(value_token_1) {
        return Ok(TickAdjustment::Exact(base_tick_index));
    }
    let max_adjustment = (fee as i64) - 1;
    if max_adjustment <= 0 {
        return Ok(TickAdjustment::Exact(base_tick_index));
    }
    let total_value = match dec_checked_add(value_token_0, value_token_1) {
        Some(v) => v,
        None => { return Err(ContractError::Overflow(OverflowOperation::Add)); },
    };
    if dec_is_zero(value_token_0) {
        return Ok(TickAdjustment::Exact(base_tick_index - max_adjustment));
    }
    if dec_is_zero(value_token_1) {
        return Ok(TickAdjustment::Exact(base_tick_index + max_adjustment));
    }
    let token0_dominates = !dec_lt(value_token_0, value_token_1);
    let gap = if token0_dominates {
        dec_checked_sub(value_token_0, value_token_1).unwrap()
    } else {
        dec_checked_sub(value_token_1, value_token_0).unwrap()
    };
    proof {
        assert(gap@ * scale() <= total_value@ * scale()) by (nonlinear_arith)
            requires gap@ <= total_value@;
        assert((gap@ * scale()) / total_value@ <= scale()) by (nonlinear_arith)
            requires gap@ * scale() <= total_value@ * scale(), total_value@ > 0;
        assert(scale() < dec_limit());
    }
    let imbalance = dec_checked_div(gap, total_value).unwrap();
    Ok(TickAdjustment::Proportional { base: base_tick_index, max_adjustment, imbalance, token0_dominates })
}

/// The skew of the deposit tick for the vault's balances, as far as it is
/// decided without rounding: none when the vault does not skew; otherwise
/// the adjustment for the values of the two balances at the first tier's fee.
pub fn deposit_tick_adjustment(
    config: &Config,
    tick_index: i64,
    prices: CombinedPriceResponse,
    balance0: u128,
    balance1: u128,
) -> (r: ContractResult<TickAdjustment>)
    requires
        config.skew > 0 ==> config.fee_tier_config.fee_tiers@.len() > 0,
        config.skew > 0 && value_of(balance0, prices.token_0_price) < dec_limit() && value_of(
            balance1,
            prices.token_1_price,
        ) < dec_limit() ==> {
            let fee = config.fee_tier_config.fee_tiers@[0].fee;
            &&& fee as i64 > i64::MIN
            &&& tick_index - max_adjustment_of(fee) >= i64::MIN
            &&& tick_index + max_adjustment_of(fee) <= i64::MAX
        },
    ensures
        config.skew <= 0 ==> r == Ok::<TickAdjustment, ContractError>(TickAdjustment::Exact(tick_index)),
        config.skew > 0 ==> {
            let v0 = value_of(balance0, prices.token_0_price);
            let v1 = value_of(balance1, prices.token_1_price);
            if v0 >= dec_limit() || v1 >= dec_limit() {
                r == Err::<TickAdjustment, ContractError>(ContractError::Overflow(OverflowOperation::Mul))
            } else {
                adjustment_outcome(tick_index, config.fee_tier_config.fee_tiers@[0].fee, v0, v1, r)
            }
        },
{
    if config.skew <= 0 {
        return Ok(TickAdjustment::Exact(tick_index));
    }
    let fee = config.fee_tier_config.fee_tiers[0].fee;
    let value_0 = match whole_value(balance0, prices.token_0_price) {
        Some(v) => v,
        None => { return Err(ContractError::Overflow(OverflowOperation::Mul)); },
    };
    let value_1 = match whole_value(balance1, prices.token_1_price) {
        Some(v) => v,
        None => { return Err(ContractError::Overflow(OverflowOperation::Mul)); },
    };
    tick_adjustment(tick_index, fee, value_0, value_1)
}

/// The share of `total` that a tier of `percentage` out of `out_of` gets, floored.
pub open spec fn tier_share(total: u128, percentage: u64, out_of: u64) -> int {
    (total * percentage) / (out_of as int)
}

/// What the tiers before `j` of `rest` are given of `total`.
pub open spec fn distributed(rest: Seq<FeeTier>, j: int, total: u128, out_of: u64) -> int
    decreases j,
{
    if j <= 0 {
        0
    } else {
        distributed(rest, j - 1, total, out_of) + tier_share(total, rest[j - 1].percentage, out_of)
    }
}

/// What tier `j` of `rest` deposits of `total`: its share, or, for the last
/// tier, all that the others left.
pub open spec fn tier_amount(rest: Seq<FeeTier>, j: int, total: u128, out_of: u64) -> int {
    if j == rest.len() - 1 {
        total - distributed(rest, j, total, out_of)
    } else {
        tier_share(total, rest[j].percentage, out_of)
    }
}

/// A deposit of the vault's pair.
pub open spec fn pair_deposit(config: Config, amount0: int, amount1: int, tick_index: i64, fee: u64) -> DexDeposit {
    DexDeposit {
        token_a: config.pair_data.token_0.denom,
        token_b: config.pair_data.token_1.denom,
        amount_a: amount0 as u128,
        amount_b: amount1 as u128,
        tick_index,
        fee,
        swap_on_deposit: true,
    }
}

/// The deposits of the first `j` tiers of `rest`; a tier that gets nothing
/// of either token gets no deposit.
pub open spec fn tier_deposits(
    config: Config,
    rest: Seq<FeeTier>,
    j: int,
    total0: u128,
    total1: u128,
    out_of: u64,
    tick_index: i64,
) -> Seq<DexDeposit>
    decreases j,
{
    if j <= 0 {
        Seq::empty()
    } else {
        let prev = tier_deposits(config, rest, j - 1, total0, total1, out_of, tick_index);
        let a0 = tier_amount(rest, j - 1, total0, out_of);
        let a1 = tier_amount(rest, j - 1, total1, out_of);
        if a0 == 0 && a1 == 0 {
            prev
        } else {
            prev.push(pair_deposit(config, a0, a1, tick_index, rest[j - 1].fee))
        }
    }
}

/// The DEX deposits of the vault's balances: the first tier gets the amounts
/// `get_deposit_data` picks, and what is left is spread over the other
/// tiers by their percentages, the last one taking the remainder.
pub open spec fn deposit_messages_outcome(
    config: Config,
    tick_index: i64,
    prices: CombinedPriceResponse,
    balance0: u128,
    balance1: u128,
) -> ContractResult<Seq<DexDeposit>> {
    let tiers = config.fee_tier_config.fee_tiers@;
    if config.paused {
        Ok(Seq::empty())
    } else {
        match deposit_outcome(balance0, balance1, tick_index, tiers[0].fee, prices, tiers[0].percentage, config.imbalance) {
            Err(e) => Err(e),
            Ok(d) => {
                let first = if d.amount0 > 0 || d.amount1 > 0 {
                    seq![pair_deposit(config, d.amount0 as int, d.amount1 as int, d.tick_index, d.fee)]
                } else {
                    Seq::empty()
                };
                let rem0 = (balance0 - d.amount0) as u128;
                let rem1 = (balance1 - d.amount1) as u128;
                let rest = tiers.skip(1);
                let out_of = seq_sum(tier_percentages(rest));
                if (rem0 == 0 && rem1 == 0) || tiers.len() <= 1 || out_of == 0 {
                    Ok(first)
                } else {
                    Ok(first + tier_deposits(config, rest, rest.len() as int, rem0, rem1, out_of as u64, d.tick_index))
                }
            },
        }
    }
}

/// The inputs on which building the deposits does not panic: there is a
/// first tier, its deposit does not overflow, and the other percentages sum
/// within 64 bits.
pub open spec fn deposit_messages_fit(config: Config, prices: CombinedPriceResponse, balance0: u128, balance1: u128) -> bool {
    let tiers = config.fee_tier_config.fee_tiers@;
    !config.paused ==> {
        &&& tiers.len() >= 1
        &&& deposit_fits(balance0, balance1, prices, tiers[0].percentage, config.imbalance)
        &&& seq_sum(tier_percentages(tiers.skip(1))) <= u64::MAX
    }
}

/// The tiers before `j` are given at most `total` times their share of the
/// percentages.
proof fn lemma_distributed_bound(rest: Seq<FeeTier>, j: int, total: u128, out_of: u64)
    requires
        0 <= j <= rest.len(),
        out_of > 0,
    ensures
        distributed(rest, j, total, out_of) * out_of <= total * seq_sum(tier_percentages(rest).take(j)),
        distributed(rest, j, total, out_of) >= 0,
    decreases j,
{
    let p = tier_percentages(rest);
    if j == 0 {
        assert(p.take(0) =~= Seq::<u64>::empty());
    } else {
        lemma_distributed_bound(rest, j - 1, total, out_of);
        lemma_seq_sum_take_step(p, j - 1);
        let d = distributed(rest, j - 1, total, out_of);
        let x = rest[j - 1].percentage;
        let s = seq_sum(p.take(j - 1));
        let q = (total * x) / (out_of as int);
        assert(q * out_of <= total * x && q >= 0) by (nonlinear_arith)
            requires q == (total * x) / (out_of as int), out_of > 0, total >= 0, x >= 0;
        assert((d + q) * out_of <= total * (s + x)) by (nonlinear_arith)
            requires d * out_of <= total * s, q * out_of <= total * x;
    }
}

/// What the tiers before `j` are given never exceeds `total`.
proof fn lemma_distributed_le_total(rest: Seq<FeeTier>, j: int, total: u128, out_of: u64)
    requires
        0 <= j <= rest.len(),
        out_of > 0,
        out_of == seq_sum(tier_percentages(rest)),
    ensures
        0 <= distributed(rest, j, total, out_of) <= total,
{
    lemma_distributed_bound(rest, j, total, out_of);
    lemma_seq_sum_prefix_le(tier_percentages(rest), j);
    let d = distributed(rest, j, total, out_of);
    let s = seq_sum(tier_percentages(rest).take(j));
    assert(total * s <= total * out_of) by (nonlinear_arith)
        requires s <= out_of, total >= 0;
    assert(d <= total) by (nonlinear_arith)
        requires d * out_of <= total * out_of, out_of > 0;
}

/// A tier's share of `total` is at most `total`.
proof fn lemma_share_le_total(total: u128, x: u64, out_of: u64)
    requires
        x <= out_of,
        out_of > 0,
    ensures
        0 <= tier_share(total, x, out_of) <= total,
{
    assert(total * x <= total * out_of) by (nonlinear_arith)
        requires x <= out_of, total >= 0;
    assert((total * x) / (out_of as int) <= total) by (nonlinear_arith)
        requires total * x <= total * out_of, out_of > 0, total >= 0;
    assert((total * x) / (out_of as int) >= 0) by (nonlinear_arith)
        requires total >= 0, x >= 0, out_of > 0;
}

/// A deposit of the vault's pair with these amounts, tick and fee.
fn make_deposit(config: &Config, amount0: u128, amount1: u128, tick_index: i64, fee: u64) -> (r: DexDeposit)
    ensures
        r == pair_deposit(*config, amount0 as int, amount1 as int, tick_index, fee),
{
    DexDeposit {
        token_a: config.pair_data.token_0.denom.clone(),
        token_b: config.pair_data.token_1.denom.clone(),
        amount_a: amount0,
        amount_b: amount1,
        tick_index,
        fee,
        swap_on_deposit: true,
    }
}

/// The percentages of every tier but the first, summed.
fn sum_rest_percentages(tiers: &Vec<FeeTier>) -> (r: u64)
    requires
        tiers@.len() >= 1,
        seq_sum(tier_percentages(tiers@.skip(1))) <= u64::MAX,
    ensures
        r == seq_sum(tier_percentages(tiers@.skip(1))),
{
    let ghost p = tier_percentages(tiers@.skip(1));
    let n = tiers.len();
    let mut total: u64 = 0;
    let mut i: usize = 1;
    proof {
        assert(p.take(0) =~= Seq::<u64>::empty());
    }
    while i < n
        invariant
            n == tiers@.len(),
            p == tier_percentages(tiers@.skip(1)),
            p.len() == n - 1,
            1 <= i <= n,
            total == seq_sum(p.take(i - 1)),
            seq_sum(p) <= u64::MAX,
        decreases n - i,
    {
        proof {
            lemma_seq_sum_take_step(p, i - 1);
            lemma_seq_sum_prefix_le(p, i as int);
        }
        total = total + tiers[i].percentage;
        i = i + 1;
    }
    assert(p.take(n - 1) =~= p);
    total
}

/// Get the deposit messages.
/// This is used to get the deposit messages that will perform AM deposits with the contract funds.
/// The tick index is the one to deposit at, skew already applied.
pub fn get_deposit_messages(
    config: &Config,
    tick_index: i64,
    prices: CombinedPriceResponse,
    token_0_balance: u128,
    token_1_balance: u128,
) -> (r: ContractResult<Vec<DexDeposit>>)
    requires
        deposit_messages_fit(*config, prices, token_0_balance, token_1_balance),
    ensures
        match r {
            Ok(v) => deposit_messages_outcome(*config, tick_index, prices, token_0_balance, token_1_balance)
                == Ok::<Seq<DexDeposit>, ContractError>(v@),
            Err(e) => deposit_messages_outcome(*config, tick_index, prices, token_0_balance, token_1_balance)
                == Err::<Seq<DexDeposit>, ContractError>(e),
        },
{
    let mut messages: Vec<DexDeposit> = Vec::new();
    if config.paused {
        return Ok(messages);
    }
    let tiers = &config.fee_tier_config.fee_tiers;
    let deposit_data = match get_deposit_data(
        token_0_balance,
        token_1_balance,
        tick_index,
        tiers[0].fee,
        &prices,
        tiers[0].percentage,
        config.imbalance,
    ) {
        Ok(d) => d,
        Err(e) => { return Err(e); },
    };
    if deposit_data.amount0 > 0 || deposit_data.amount1 > 0 {
        messages.push(make_deposit(config, deposit_data.amount0, deposit_data.amount1, deposit_data.tick_index, deposit_data.fee));
    }
    let remaining_amount0 = token_0_balance - deposit_data.amount0;
    let remaining_amount1 = token_1_balance - deposit_data.amount1;
    if (remaining_amount0 == 0 && remaining_amount1 == 0) || tiers.len() <= 1 {
        return Ok(messages);
    }
    let remaining_percentages = sum_rest_percentages(tiers);
    if remaining_percentages == 0 {
        return Ok(messages);
    }
    let ghost rest = tiers@.skip(1);
    let ghost first = messages@;
    let ghost out_of = remaining_percentages;
    let m = tiers.len() - 1;
    let mut distributed_amount0: u128 = 0;
    let mut distributed_amount1: u128 = 0;
    let mut i: usize = 0;
    while i < m
        invariant
            tiers == &config.fee_tier_config.fee_tiers,
            rest == tiers@.skip(1),
            tiers@.len() == m + 1,
            m == rest.len(),
            m >= 1,
            i <= m,
            out_of == remaining_percentages,
            out_of > 0,
            out_of == seq_sum(tier_percentages(rest)),
            i < m ==> distributed_amount0 == distributed(rest, i as int, remaining_amount0, out_of),
            i < m ==> distributed_amount1 == distributed(rest, i as int, remaining_amount1, out_of),
            messages@ == first + tier_deposits(
                *config,
                rest,
                i as int,
                remaining_amount0,
                remaining_amount1,
                out_of,
                deposit_data.tick_index,
            ),
        decreases m - i,
    {
        let fee_tier = tiers[i + 1];
        proof {
            assert(rest[i as int] == fee_tier);
            lemma_distributed_le_total(rest, i as int, remaining_amount0, out_of);
            lemma_distributed_le_total(rest, i as int, remaining_amount1, out_of);
            lemma_distributed_le_total(rest, i as int + 1, remaining_amount0, out_of);
            lemma_distributed_le_total(rest, i as int + 1, remaining_amount1, out_of);
            lemma_seq_sum_elem_le(tier_percentages(rest), i as int);
            lemma_share_le_total(remaining_amount0, fee_tier.percentage, out_of);
            lemma_share_le_total(remaining_amount1, fee_tier.percentage, out_of);
        }
        if i == m - 1 {
            let amount_0 = remaining_amount0 - distributed_amount0;
            let amount_1 = remaining_amount1 - distributed_amount1;
            if !(amount_0 == 0 && amount_1 == 0) {
                messages.push(make_deposit(config, amount_0, amount_1, deposit_data.tick_index, fee_tier.fee));
            }
        } else {
            let amount_0 = multiply_ratio(remaining_amount0, fee_tier.percentage as u128, remaining_percentages as u128);
            let amount_1 = multiply_ratio(remaining_amount1, fee_tier.percentage as u128, remaining_percentages as u128);
            if !(amount_0 == 0 && amount_1 == 0) {
                distributed_amount0 = distributed_amount0 + amount_0;
                distributed_amount1 = distributed_amount1 + amount_1;
                messages.push(make_deposit(config, amount_0, amount_1, deposit_data.tick_index, fee_tier.fee));
            }
        }
        proof {
            assert(messages@ =~= first + tier_deposits(
                *config,
                rest,
                i as int + 1,
                remaining_amount0,
                remaining_amount1,
                out_of,
                deposit_data.tick_index,
            ));
        }
        i = i + 1;
    }
    Ok(messages)
}

/// The amount of the pair's first token that the deposits place.
pub open spec fn deposited_a(ds: Seq<DexDeposit>) -> int
    decreases ds.len(),
{
    if ds.len() == 0 {
        0
    } else {
        deposited_a(ds.drop_last()) + ds.last().amount_a
    }
}

/// The amount of the pair's second token that the deposits place.
pub open spec fn deposited_b(ds: Seq<DexDeposit>) -> int
    decreases ds.len(),
{
    if ds.len() == 0 {
        0
    } else {
        deposited_b(ds.drop_last()) + ds.last().amount_b
    }
}

proof fn lemma_deposited_concat(a: Seq<DexDeposit>, b: Seq<DexDeposit>)
    ensures
        deposited_a(a + b) == deposited_a(a) + deposited_a(b),
        deposited_b(a + b) == deposited_b(a) + deposited_b(b),
    decreases b.len(),
{
    if b.len() == 0 {
        assert(a + b =~= a);
    } else {
        assert((a + b).drop_last() =~= a + b.drop_last());
        lemma_deposited_concat(a, b.drop_last());
    }
}

/// The tier deposits place, of each token, what the tiers before `j` were
/// given, and, once every tier is counted, the whole amount.
proof fn lemma_tier_deposits_total(
    config: Config,
    rest: Seq<FeeTier>,
    j: int,
    total0: u128,
    total1: u128,
    out_of: u64,
    tick_index: i64,
)
    requires
        0 <= j <= rest.len(),
        out_of > 0,
        out_of == seq_sum(tier_percentages(rest)),
    ensures
        deposited_a(tier_deposits(config, rest, j, total0, total1, out_of, tick_index)) == if j == rest.len() {
            total0 as int
        } else {
            distributed(rest, j, total0, out_of)
        },
        deposited_b(tier_deposits(config, rest, j, total0, total1, out_of, tick_index)) == if j == rest.len() {
            total1 as int
        } else {
            distributed(rest, j, total1, out_of)
        },
    decreases j,
{
    if j > 0 {
        lemma_tier_deposits_total(config, rest, j - 1, total0, total1, out_of, tick_index);
        let prev = tier_deposits(config, rest, j - 1, total0, total1, out_of, tick_index);
        lemma_distributed_le_total(rest, j - 1, total0, out_of);
        lemma_distributed_le_total(rest, j - 1, total1, out_of);
        lemma_seq_sum_elem_le(tier_percentages(rest), j - 1);
        lemma_share_le_total(total0, rest[j - 1].percentage, out_of);
        lemma_share_le_total(total1, rest[j - 1].percentage, out_of);
        let a0 = tier_amount(rest, j - 1, total0, out_of);
        let a1 = tier_amount(rest, j - 1, total1, out_of);
        if !(a0 == 0 && a1 == 0) {
            let next = prev.push(pair_deposit(config, a0, a1, tick_index, rest[j - 1].fee));
            assert(next.drop_last() =~= prev);
        }
    }
}

/// With more than one tier, and the percentages after the first summing to
/// more than zero, the deposits place the vault's whole balance of each
/// token: the first tier its amounts, the others the rest between them.
pub proof fn lemma_deposits_place_whole_balance(
    config: Config,
    tick_index: i64,
    prices: CombinedPriceResponse,
    balance0: u128,
    balance1: u128,
)
    requires
        !config.paused,
        config.fee_tier_config.fee_tiers@.len() >= 2,
        seq_sum(tier_percentages(config.fee_tier_config.fee_tiers@.skip(1))) > 0,
        deposit_messages_fit(config, prices, balance0, balance1),
    ensures
        deposit_messages_outcome(config, tick_index, prices, balance0, balance1) matches Ok(ds) ==> {
            &&& deposited_a(ds) == balance0
            &&& deposited_b(ds) == balance1
        },
{
    let tiers = config.fee_tier_config.fee_tiers@;
    let d = deposit_outcome(balance0, balance1, tick_index, tiers[0].fee, prices, tiers[0].percentage, config.imbalance);
    if let Ok(d) = d {
        let first = if d.amount0 > 0 || d.amount1 > 0 {
            seq![pair_deposit(config, d.amount0 as int, d.amount1 as int, d.tick_index, d.fee)]
        } else {
            Seq::empty()
        };
        assert(deposited_a(first) == d.amount0 && deposited_b(first) == d.amount1) by {
            assert(deposited_a(Seq::<DexDeposit>::empty()) == 0);
            assert(deposited_b(Seq::<DexDeposit>::empty()) == 0);
            if d.amount0 > 0 || d.amount1 > 0 {
                assert(first.drop_last() =~= Seq::<DexDeposit>::empty());
                assert(first.last().amount_a == d.amount0);
            }
        }
        let rem0 = (balance0 - d.amount0) as u128;
        let rem1 = (balance1 - d.amount1) as u128;
        let rest = tiers.skip(1);
        let out_of = seq_sum(tier_percentages(rest));
        if !(rem0 == 0 && rem1 == 0) {
            lemma_tier_deposits_total(config, rest, rest.len() as int, rem0, rem1, out_of as u64, d.tick_index);
            lemma_deposited_concat(first, tier_deposits(config, rest, rest.len() as int, rem0, rem1, out_of as u64, d.tick_index));
        }
    }
}

/// One refund per coin sent, back to the sender, in order.
pub open spec fn refunds(msgs: Seq<VaultMsg>, sender: String, funds: Seq<Coin>) -> bool {
    &&& msgs.len() == funds.len()
    &&& forall|i: int|
        0 <= i < funds.len() ==> msgs[i] == (VaultMsg::Send {
            to: sender,
            denom: funds[i].denom,
            amount: funds[i].amount,
        })
}

/// The refunds of the coins a call carried.
fn refund_funds(sender: &String, funds: &Vec<Coin>) -> (r: Vec<VaultMsg>)
    ensures
        refunds(r@, *sender, funds@),
{
    let mut messages: Vec<VaultMsg> = Vec::new();
    let n = funds.len();
    let mut i: usize = 0;
    while i < n
        invariant
            n == funds@.len(),
            i <= n,
            messages@.len() == i,
            forall|k: int|
                0 <= k < i ==> messages@[k] == (VaultMsg::Send {
                    to: *sender,
                    denom: funds@[k].denom,
                    amount: funds@[k].amount,
                }),
        decreases n - i,
    {
        let coin = &funds[i];
        messages.push(VaultMsg::Send { to: sender.clone(), denom: coin.denom.clone(), amount: coin.amount });
        i = i + 1;
    }
    messages
}

/// The configuration is stale at `now` when more than `timestamp_stale`
/// seconds have passed since the last execution.
pub open spec fn is_stale(config: Config, now: u64) -> bool {
    now - config.last_executed > config.timestamp_stale
}

/// Checks if the contract is stale and handles the pause logic.
/// A call in the block that a staleness paused is refused with `BlockOnHold`
/// and changes nothing. Otherwise the last execution time becomes `now`;
/// when the contract was stale, the current block is put on hold and the
/// funds sent are returned (`Some` of the refunds), and the call goes no
/// further. The caller stores the configuration.
pub fn check_staleness(
    now: u64,
    height: u64,
    sender: &String,
    funds: &Vec<Coin>,
    config: &mut Config,
) -> (r: ContractResult<Option<Vec<VaultMsg>>>)
    requires
        old(config).last_executed <= now,
    ensures
        old(config).pause_block == height ==> {
            &&& r matches Err(e)
            &&& e == ContractError::BlockOnHold
            &&& *final(config) == *old(config)
        },
        old(config).pause_block != height && is_stale(*old(config), now) ==> {
            &&& r matches Ok(Some(msgs))
            &&& refunds(msgs@, *sender, funds@)
            &&& *final(config) == (Config { last_executed: now, pause_block: height, ..*old(config) })
        },
        old(config).pause_block != height && !is_stale(*old(config), now) ==> {
            &&& r matches Ok(None)
            &&& *final(config) == (Config { last_executed: now, ..*old(config) })
        },
{
    let stale: bool = (now - config.last_executed) > config.timestamp_stale;
    if config.pause_block == height {
        return Err(ContractError::BlockOnHold);
    }
    if stale {
        config.last_executed = now;
        config.pause_block = height;
        let messages = refund_funds(sender, funds);
        return Ok(Some(messages));
    }
    config.last_executed = now;
    Ok(None)
}

/// The messages of a withdrawal of `w0`, `w1` for `burn_amount` shares: the
/// burn, then a send of each token whose amount is not zero.
pub open spec fn withdrawal_messages(config: Config, burn_amount: u128, beneficiary: String, w0: u128, w1: u128) -> Seq<VaultMsg> {
    let burn = seq![VaultMsg::Burn { denom: config.lp_denom, amount: burn_amount }];
    let send0 = if w0 != 0 {
        seq![VaultMsg::Send { to: beneficiary, denom: config.pair_data.token_0.denom, amount: w0 }]
    } else {
        Seq::empty()
    };
    let send1 = if w1 != 0 {
        seq![VaultMsg::Send { to: beneficiary, denom: config.pair_data.token_1.denom, amount: w1 }]
    } else {
        Seq::empty()
    };
    burn + send0 + send1
}

/// The part of `total` that burning `burn_amount` of `total_supply` shares
/// redeems, floored.
pub open spec fn redeemed(total: u128, burn_amount: u128, total_supply: u128) -> int {
    (total * burn_amount) / (total_supply as int)
}

/// Get the withdrawal messages.
/// This is used to burn get the message sequence for burning LP tokens and crediting
/// the beneficiary with the proportinal value of the total funds in the contract.
/// `total_supply` is the LP token's supply, which the host queries.
pub fn get_withdrawal_messages(
    config: &Config,
    burn_amount: u128,
    beneficiary: &String,
    total_amount_0: u128,
    total_amount_1: u128,
    total_supply: u128,
) -> (r: ContractResult<(Vec<VaultMsg>, u128, u128)>)
    requires
        burn_amount <= total_supply ==> total_supply > 0,
    ensures
        r is Err <==> burn_amount > total_supply,
        r matches Err(e) ==> e == ContractError::InvalidWithdrawAmount,
        r matches Ok(v) ==> {
            &&& v.1 == redeemed(total_amount_0, burn_amount, total_supply)
            &&& v.2 == redeemed(total_amount_1, burn_amount, total_supply)
            &&& v.1 <= total_amount_0 && v.2 <= total_amount_1
            &&& v.0@ == withdrawal_messages(*config, burn_amount, *beneficiary, v.1, v.2)
        },
{
    if burn_amount > total_supply {
        return Err(ContractError::InvalidWithdrawAmount);
    }
    proof {
        lemma_redeemed_le_total(total_amount_0, burn_amount, total_supply);
        lemma_redeemed_le_total(total_amount_1, burn_amount, total_supply);
    }
    let withdraw_amount_0 = multiply_ratio(total_amount_0, burn_amount, total_supply);
    let withdraw_amount_1 = multiply_ratio(total_amount_1, burn_amount, total_supply);
    let mut messages: Vec<VaultMsg> = Vec::new();
    messages.push(VaultMsg::Burn { denom: config.lp_denom.clone(), amount: burn_amount });
    if withdraw_amount_0 != 0 {
        messages.push(VaultMsg::Send {
            to: beneficiary.clone(),
            denom: config.pair_data.token_0.denom.clone(),
            amount: withdraw_amount_0,
        });
    }
    if withdraw_amount_1 != 0 {
        messages.push(VaultMsg::Send {
            to: beneficiary.clone(),
            denom: config.pair_data.token_1.denom.clone(),
            amount: withdraw_amount_1,
        });
    }
    proof {
        assert(messages@ =~= withdrawal_messages(*config, burn_amount, *beneficiary, withdraw_amount_0, withdraw_amount_1));
    }
    Ok((messages, withdraw_amount_0, withdraw_amount_1))
}

/// Burning no more than the supply redeems no more than the total.
pub proof fn lemma_redeemed_le_total(total: u128, burn_amount: u128, total_supply: u128)
    requires
        burn_amount <= total_supply,
        total_supply > 0,
    ensures
        0 <= redeemed(total, burn_amount, total_supply) <= total,
{
    assert(total * burn_amount <= total * total_supply) by (nonlinear_arith)
        requires burn_amount <= total_supply, total >= 0;
    assert((total * burn_amount) / (total_supply as int) <= total) by (nonlinear_arith)
        requires total * burn_amount <= total * total_supply, total_supply > 0;
    assert((total * burn_amount) / (total_supply as int) >= 0) by (nonlinear_arith)
        requires total >= 0, burn_amount >= 0, total_supply > 0;
}

/// The messages of the groups, one group after another.
pub open spec fn flat_messages<M>(groups: Seq<Vec<M>>) -> Seq<M> {
    groups.map_values(|v: Vec<M>| v@).flatten()
}

/// `subs` sends the messages `flat` in order; only the last one replies,
/// with `reply_id` and `payload`, on success.
pub open spec fn reply_on_last<M>(subs: Seq<SubMessage<M>>, flat: Seq<M>, reply_id: u64, payload: Seq<u8>) -> bool {
    &&& subs.len() == flat.len()
    &&& forall|i: int| 0 <= i < flat.len() ==> #[trigger] subs[i].msg == flat[i]
    &&& forall|i: int|
        0 <= i < flat.len() - 1 ==> {
            &&& #[trigger] subs[i].id == 0
            &&& !subs[i].reply_on_success
            &&& subs[i].payload@.len() == 0
        }
    &&& flat.len() > 0 ==> {
        &&& subs.last().id == reply_id
        &&& subs.last().reply_on_success
        &&& subs.last().payload@ == payload
    }
}

/// The payload bytes: the given ones, or none.
pub open spec fn payload_bytes(payload: Option<Vec<u8>>) -> Seq<u8> {
    match payload {
        Some(p) => p@,
        None => Seq::empty(),
    }
}

/// Takes a vector of CosmosMsg vectors and returns a vector of SubMsg where only the last message has a reply.
/// Returns an error if messages is empty.
pub fn flatten_msgs_always_reply<M>(messages: Vec<Vec<M>>, reply_id: u64, payload: Option<Vec<u8>>) -> (r:
    ContractResult<Vec<SubMessage<M>>>)
    ensures
        r is Err <==> flat_messages(messages@).len() == 0,
        r matches Err(e) ==> e == ContractError::NoFundsAvailable,
        r matches Ok(subs) ==> reply_on_last(subs@, flat_messages(messages@), reply_id, payload_bytes(payload)),
{
    let ghost flat = flat_messages(messages@);
    let mut groups = messages;
    let mut submsgs: Vec<SubMessage<M>> = Vec::new();
    let ghost mut done: Seq<M> = Seq::empty();
    while groups.len() > 0
        invariant
            done + flat_messages(groups@) == flat,
            submsgs@.len() == done.len(),
            forall|i: int| 0 <= i < done.len() ==> #[trigger] submsgs@[i].msg == done[i],
            forall|i: int|
                0 <= i < done.len() ==> {
                    &&& #[trigger] submsgs@[i].id == 0
                    &&& !submsgs@[i].reply_on_success
                    &&& submsgs@[i].payload@.len() == 0
                },
        decreases groups@.len(),
    {
        let ghost before = groups@;
        let mut group = groups.remove(0);
        proof {
            assert(groups@ =~= before.drop_first());
            assert(before.map_values(|v: Vec<M>| v@).drop_first() =~= groups@.map_values(|v: Vec<M>| v@));
            assert(done + group@ + flat_messages(groups@) =~= flat);
        }
        while group.len() > 0
            invariant
                done + group@ + flat_messages(groups@) == flat,
                submsgs@.len() == done.len(),
                forall|i: int| 0 <= i < done.len() ==> #[trigger] submsgs@[i].msg == done[i],
                forall|i: int|
                    0 <= i < done.len() ==> {
                        &&& #[trigger] submsgs@[i].id == 0
                        &&& !submsgs@[i].reply_on_success
                        &&& submsgs@[i].payload@.len() == 0
                    },
            decreases group@.len(),
        {
            let ghost g = group@;
            let m = group.remove(0);
            submsgs.push(SubMessage { msg: m, id: 0, reply_on_success: false, payload: Vec::new() });
            proof {
                done = done.push(m);
                assert(group@ =~= g.drop_first());
                assert(done + group@ =~= done.drop_last() + g);
            }
        }
        proof {
            assert(done + group@ =~= done);
        }
    }
    proof {
        assert(groups@.map_values(|v: Vec<M>| v@) =~= Seq::<Seq<M>>::empty());
        assert(done + flat_messages(groups@) =~= done);
    }
    if submsgs.len() == 0 {
        return Err(ContractError::NoFundsAvailable);
    }
    let ghost before = submsgs@;
    let mut last = submsgs.pop().unwrap();
    let ghost last_msg = last.msg;
    assert(last_msg == done[done.len() - 1]);
    last.id = reply_id;
    last.reply_on_success = true;
    last.payload = match payload {
        Some(p) => p,
        None => Vec::new(),
    };
    submsgs.push(last);
    proof {
        assert(submsgs@.len() == done.len());
        assert forall|i: int| 0 <= i < done.len() - 1 implies submsgs@[i] == before[i] by {}
        assert forall|i: int| 0 <= i < done.len() implies #[trigger] submsgs@[i].msg == done[i] by {
            if i < done.len() - 1 {
                assert(submsgs@[i] == before[i]);
            }
        }
        assert forall|i: int| 0 <= i < done.len() - 1 implies {
            &&& #[trigger] submsgs@[i].id == 0
            &&& !submsgs@[i].reply_on_success
            &&& submsgs@[i].payload@.len() == 0
        } by {
            assert(submsgs@[i] == before[i]);
        }
        assert(submsgs@.last().payload@ == payload_bytes(payload));
        assert(done == flat);
    }
    Ok(submsgs)
}

/// The withdrawal of each of the vault's DEX positions, in order.
pub open spec fn position_withdrawals(config: Config, deposits: Seq<UserDeposit>) -> Seq<DexWithdrawal> {
    deposits.map_values(
        |d: UserDeposit|
            DexWithdrawal {
                token_a: config.pair_data.token_0.denom,
                token_b: config.pair_data.token_1.denom,
                shares_to_remove: d.shares_owned,
                tick_index: d.center_tick_index,
                fee: d.fee,
            },
    )
}

/// A withdrawal of every DEX position the vault holds.
pub fn withdraw_positions(config: &Config, deposits: &Vec<UserDeposit>) -> (r: Vec<DexWithdrawal>)
    ensures
        r@ == position_withdrawals(*config, deposits@),
{
    let mut r: Vec<DexWithdrawal> = Vec::new();
    let n = deposits.len();
    let mut i: usize = 0;
    while i < n
        invariant
            n == deposits@.len(),
            i <= n,
            r@ == position_withdrawals(*config, deposits@.take(i as int)),
        decreases n - i,
    {
        let d = &deposits[i];
        r.push(DexWithdrawal {
            token_a: config.pair_data.token_0.denom.clone(),
            token_b: config.pair_data.token_1.denom.clone(),
            shares_to_remove: d.shares_owned.clone(),
            tick_index: d.center_tick_index,
            fee: d.fee,
        });
        proof {
            assert(r@ =~= position_withdrawals(*config, deposits@.take(i as int + 1)));
        }
        i = i + 1;
    }
    proof {
        assert(deposits@.take(n as int) =~= deposits@);
    }
    r
}

/// The reserves a protobuf `MsgWithdrawalResponse` reports withdrawn (its
/// `reserve0_withdrawn` and `reserve1_withdrawn` strings), or `None` when the
/// bytes do not decode as one.
pub uninterp spec fn withdrawal_response_reserves(bytes: Seq<u8>) -> Option<(Seq<char>, Seq<char>)>;

/// The denom a protobuf `MsgCreateDenomResponse` reports created (its
/// `new_token_denom`), or `None` when the bytes do not decode as one.
pub uninterp spec fn create_denom_response_denom(bytes: Seq<u8>) -> Option<Seq<char>>;

/// `prost::Message::decode` of a `MsgWithdrawalResponse`, keeping the two
/// reserve strings.
#[verifier::external_body]
#[allow(deprecated)]
fn decode_withdrawal_response(bytes: &Vec<u8>) -> (r: Option<(String, String)>)
    ensures
        match (r, withdrawal_response_reserves(bytes@)) {
            (Some(v), Some(w)) => v.0@ == w.0 && v.1@ == w.1,
            (None, None) => true,
            _ => false,
        },
{
    match MsgWithdrawalResponse::decode(bytes.as_slice()) {
        Ok(w) => Some((w.reserve0_withdrawn, w.reserve1_withdrawn)),
        Err(_) => None,
    }
}

/// `prost::Message::decode` of a `MsgCreateDenomResponse`, keeping the denom.
#[verifier::external_body]
fn decode_create_denom_response(bytes: &Vec<u8>) -> (r: Option<String>)
    ensures
        match (r, create_denom_response_denom(bytes@)) {
            (Some(v), Some(w)) => v@ == w,
            (None, None) => true,
            _ => false,
        },
{
    match MsgCreateDenomResponse::decode(bytes.as_slice()) {
        Ok(c) => Some(c.new_token_denom),
        Err(_) => None,
    }
}

/// An ASCII decimal digit.
pub open spec fn is_digit(c: char) -> bool {
    '0' <= c && c <= '9'
}

/// The number that decimal digits spell.
pub open spec fn digits_value(s: Seq<char>) -> nat
    decreases s.len(),
{
    if s.len() == 0 {
        0
    } else {
        digits_value(s.drop_last()) * 10 + ((s.last() as u32) - ('0' as u32)) as nat
    }
}

/// What `u128`'s `from_str` reads: an optional `+`, then one or more decimal
/// digits whose value fits in 128 bits.
pub open spec fn parsed_u128(s: Seq<char>) -> Option<u128> {
    let d = if s.len() > 0 && s[0] == '+' { s.drop_first() } else { s };
    if d.len() > 0 && (forall|i: int| 0 <= i < d.len() ==> is_digit(#[trigger] d[i])) && digits_value(d) <= u128::MAX {
        Some(digits_value(d) as u128)
    } else {
        None
    }
}

/// `Uint128::from_str`, which reads the string as `u128` does.
#[verifier::external_body]
pub(crate) fn parse_uint128(s: &str) -> (r: Option<u128>)
    ensures
        r == parsed_u128(s@),
{
    match <Uint128 as core::str::FromStr>::from_str(s) {
        Ok(v) => Some(v.u128()),
        Err(_) => None,
    }
}

/// The amounts a withdrawal reports, from its decoded reserve strings: both
/// must read as `u128`.
pub fn withdrawal_amounts_from(reserves: Option<(String, String)>) -> (r: ContractResult<(u128, u128)>)
    ensures
        match reserves {
            None => r == Err::<(u128, u128), ContractError>(ContractError::DecodingError),
            Some(v) => match (parsed_u128(v.0@), parsed_u128(v.1@)) {
                (Some(a), Some(b)) => r == Ok::<(u128, u128), ContractError>((a, b)),
                _ => r == Err::<(u128, u128), ContractError>(ContractError::DecodingError),
            },
        },
{
    let (reserve0, reserve1) = match reserves {
        Some(v) => v,
        None => { return Err(ContractError::DecodingError); },
    };
    let amount0 = match parse_uint128(reserve0.as_str()) {
        Some(a) => a,
        None => { return Err(ContractError::DecodingError); },
    };
    let amount1 = match parse_uint128(reserve1.as_str()) {
        Some(a) => a,
        None => { return Err(ContractError::DecodingError); },
    };
    Ok((amount0, amount1))
}

/// Extract the amounts of token0 and token1 from the withdrawal response:
/// the first message response must decode as a withdrawal response whose
/// reserves read as `u128`. `responses` are the message responses' bytes.
pub fn extract_withdrawal_amounts(responses: &Vec<Vec<u8>>) -> (r: ContractResult<(u128, u128)>)
    ensures
        responses@.len() == 0 ==> r == Err::<(u128, u128), ContractError>(ContractError::NoResponseData),
        responses@.len() > 0 ==> match withdrawal_response_reserves(responses@[0]@) {
            None => r == Err::<(u128, u128), ContractError>(ContractError::DecodingError),
            Some(v) => match (parsed_u128(v.0), parsed_u128(v.1)) {
                (Some(a), Some(b)) => r == Ok::<(u128, u128), ContractError>((a, b)),
                _ => r == Err::<(u128, u128), ContractError>(ContractError::DecodingError),
            },
        },
{
    if responses.len() == 0 {
        return Err(ContractError::NoResponseData);
    }
    let reserves = decode_withdrawal_response(&responses[0]);
    withdrawal_amounts_from(reserves)
}

/// Extract the denom from the create denom response: the first message
/// response must decode as a create-denom response.
pub fn extract_denom(responses: &Vec<Vec<u8>>) -> (r: ContractResult<String>)
    ensures
        responses@.len() == 0 ==> r matches Err(ContractError::NoResponseData),
        responses@.len() > 0 ==> match create_denom_response_denom(responses@[0]@) {
            None => r matches Err(ContractError::DecodingError),
            Some(d) => r matches Ok(v) && v@ == d,
        },
{
    if responses.len() == 0 {
        return Err(ContractError::NoResponseData);
    }
    match decode_create_denom_response(&responses[0]) {
        Some(d) => Ok(d),
        None => Err(ContractError::DecodingError),
    }
}

/// The least average price a clearing order accepts: 90% of the token's price.
pub open spec fn floor_price(price: Dec) -> nat {
    (price@ * (90 * 10_000_000_000_000_000_000_000_000nat)) / scale()
}

/// An order selling all of `amount_in` of `token_in` for `token_out` at
/// `tick`, at no less than 90% of `price`.
pub open spec fn is_clearing_order(
    o: LimitOrder,
    token_in: String,
    token_out: String,
    tick: int,
    amount_in: u128,
    price: Dec,
) -> bool {
    &&& o.token_in == token_in
    &&& o.token_out == token_out
    &&& o.tick_index_in_to_out == tick
    &&& o.amount_in == amount_in
    &&& o.min_average_sell_price matches Some(p) && p@ == decimal(floor_price(price))
}

/// The fee of the first tier, as the signed tick step it is.
pub open spec fn first_fee_step(config: Config) -> int {
    (config.fee_tier_config.fee_tiers@[0].fee as i64) as int
}

/// One clearing order from a price and amount.
fn clearing_order(token_in: &String, token_out: &String, tick: i64, amount_in: u128, price: Dec) -> (r: ContractResult<LimitOrder>)
    ensures
        (price@ * (90 * 10_000_000_000_000_000_000_000_000nat)) / scale() < dec_limit() ==> (r matches Ok(o)
            && is_clearing_order(o, *token_in, *token_out, tick as int, amount_in, price)),
        (price@ * (90 * 10_000_000_000_000_000_000_000_000nat)) / scale() >= dec_limit() ==> r
            == Err::<LimitOrder, ContractError>(ContractError::Overflow(OverflowOperation::Mul)),
{
    let floor = match dec_checked_mul(price, dec_percent(90)) {
        Some(v) => v,
        None => { return Err(ContractError::Overflow(OverflowOperation::Mul)); },
    };
    Ok(LimitOrder {
        token_in: token_in.clone(),
        token_out: token_out.clone(),
        tick_index_in_to_out: tick,
        amount_in,
        min_average_sell_price: Some(dec_atomics_string(floor)),
    })
}

/// Prepare the state for the AMM Deposit.
/// It will perform a limit order deposit at the tightest spread to ensure no liquidity is placed behind enemy lines.
/// if there is liquidity behind enemy lines, this LO will either fully clear it or exhause the token reserves of the contract in the attempt.
/// The balances are the vault's own, which the host queries.
pub fn prepare_state(
    config: &Config,
    index: i64,
    prices: CombinedPriceResponse,
    token_0_usable: u128,
    token_1_usable: u128,
) -> (r: ContractResult<Vec<LimitOrder>>)
    requires
        config.fee_tier_config.fee_tiers@.len() >= 1,
        i64::MIN <= index + first_fee_step(*config) <= i64::MAX,
        i64::MIN <= -index + first_fee_step(*config) <= i64::MAX,
    ensures
        floor_price(prices.token_0_price) >= dec_limit() || floor_price(prices.token_1_price) >= dec_limit()
            <==> r is Err,
        r matches Err(e) ==> e == ContractError::Overflow(OverflowOperation::Mul),
        r matches Ok(orders) ==> {
            &&& orders@.len() == 2
            &&& is_clearing_order(
                orders@[0],
                config.pair_data.token_0.denom,
                config.pair_data.token_1.denom,
                index + first_fee_step(*config),
                token_0_usable,
                prices.token_0_price,
            )
            &&& is_clearing_order(
                orders@[1],
                config.pair_data.token_1.denom,
                config.pair_data.token_0.denom,
                -index + first_fee_step(*config),
                token_1_usable,
                prices.token_1_price,
            )
        },
{
    let fee = config.fee_tier_config.fee_tiers[0].fee as i64;
    let target_tick_index_0 = index + fee;
    let target_tick_index_1 = -index + fee;
    let mut messages: Vec<LimitOrder> = Vec::new();
    let order_0 = clearing_order(
        &config.pair_data.token_0.denom,
        &config.pair_data.token_1.denom,
        target_tick_index_0,
        token_0_usable,
        prices.token_0_price,
    )?;
    messages.push(order_0);
    let order_1 = clearing_order(
        &config.pair_data.token_1.denom,
        &config.pair_data.token_0.denom,
        target_tick_index_1,
        token_1_usable,
        prices.token_1_price,
    )?;
    messages.push(order_1);
    Ok(messages)
}

} // verus!
