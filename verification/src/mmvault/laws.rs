//! Properties of the vault that span its functions.

use vstd::prelude::*;
use vstd::arithmetic::div_mod::{
    lemma_div_denominator, lemma_div_multiples_vanish, lemma_div_multiples_vanish_quotient, lemma_fundamental_div_mod,
    lemma_mod_pos_bound,
};
use crate::mmvault::error::ContractError;
use crate::mmvault::contract::reserves_sum;
use crate::mmvault::execute::{deposit_minted, updated_config};
use crate::mmvault::msg::{CombinedPriceResponse, ConfigUpdateMsg};
use crate::mmvault::state::{Config, SHARES_MULTIPLIER};
use crate::mmvault::utils::{deposit_outcome, is_stale, mint_outcome, parsed_u128, redeemed, shares_from, value_of};
use crate::precdec::scale;

verus! {

/// Once shares exist, a deposit mints its value's share of the value that
/// was there before it, floored: `incoming * total_shares / existing`.
pub proof fn lemma_mint_is_proportional(
    total_shares: u128,
    prices: CombinedPriceResponse,
    incoming: nat,
    total0: u128,
    total1: u128,
)
    requires
        total_shares > 0,
        mint_outcome(total_shares, prices, incoming, total0, total1) is Ok,
    ensures
        ({
            let existing = value_of(total0, prices.token_0_price) + value_of(total1, prices.token_1_price) - incoming;
            &&& existing > 0
            &&& (incoming * total_shares) / existing <= u128::MAX
            &&& mint_outcome(total_shares, prices, incoming, total0, total1) == Ok::<u128, ContractError>(
                ((incoming * total_shares) / existing) as u128,
            )
        }),
{
    let tv = value_of(total0, prices.token_0_price) + value_of(total1, prices.token_1_price);
    let existing = (tv - incoming) as nat;
    let s = scale();
    let x = incoming * total_shares;
    assert(incoming * ((total_shares as nat) * s) == s * x) by (nonlinear_arith)
        requires x == incoming * total_shares;
    lemma_div_multiples_vanish(x as int, s as int);
    let m = (incoming * ((total_shares as nat) * s)) / s;
    assert(m == x);
    assert(existing > 0);
    lemma_div_denominator((m * s) as int, existing as int, s as int);
    lemma_div_multiples_vanish_quotient(s as int, m as int, existing as int);
    assert(s * m == m * s) by (nonlinear_arith);
    assert(s * existing == existing * s) by (nonlinear_arith);
}

/// The first deposit mints its value in USD times `SHARES_MULTIPLIER`,
/// floored: `incoming / 10^18` shares for `incoming` atomics of value.
pub proof fn lemma_first_mint(prices: CombinedPriceResponse, incoming: nat, total0: u128, total1: u128)
    requires
        mint_outcome(0, prices, incoming, total0, total1) is Ok,
    ensures
        mint_outcome(0, prices, incoming, total0, total1) == Ok::<u128, ContractError>(
            (incoming / 1_000_000_000_000_000_000nat) as u128,
        ),
{
    let s = scale();
    let x = incoming * (SHARES_MULTIPLIER as nat);
    assert(incoming * ((SHARES_MULTIPLIER as nat) * s) == s * x) by (nonlinear_arith)
        requires x == incoming * (SHARES_MULTIPLIER as nat);
    lemma_div_multiples_vanish(x as int, s as int);
    let m = (incoming * ((SHARES_MULTIPLIER as nat) * s)) / s;
    assert(m == x);
    lemma_div_denominator(x as int, s as int, 1);
    assert(x / s == incoming / 1_000_000_000_000_000_000nat) by {
        lemma_div_multiples_vanish_quotient(1_000_000_000int, incoming as int, 1_000_000_000_000_000_000int);
        assert(1_000_000_000int * 1_000_000_000_000_000_000int == s);
        assert(1_000_000_000int * incoming == x) by (nonlinear_arith)
            requires x == incoming * 1_000_000_000int;
    }
}

/// Burning every share out redeems the whole holding.
pub proof fn lemma_full_burn_redeems_all(total: u128, total_supply: u128)
    requires
        total_supply > 0,
    ensures
        redeemed(total, total_supply, total_supply) == total,
{
    assert(total * total_supply == total_supply * total) by (nonlinear_arith);
    lemma_div_multiples_vanish(total as int, total_supply as int);
}

/// Two holders burning shares one after the other are paid no more than the
/// vault holds: what the first is paid plus what the second is paid out of
/// the rest stays within the holding.
pub proof fn lemma_successive_burns_within_holding(total: u128, supply: u128, a: u128, b: u128)
    requires
        supply > 0,
        a <= supply,
        b <= supply - a,
        supply - a > 0,
    ensures
        ({
            let first = redeemed(total, a, supply);
            let rest = (total - first) as u128;
            first + redeemed(rest, b, (supply - a) as u128) <= total
        }),
{
    crate::mmvault::utils::lemma_redeemed_le_total(total, a, supply);
    let first = redeemed(total, a, supply);
    let rest = (total - first) as u128;
    crate::mmvault::utils::lemma_redeemed_le_total(rest, b, (supply - a) as u128);
}

/// A call that finds the vault stale puts its block on hold: any further
/// call in that block is refused, since the stored pause block is it.
pub proof fn lemma_stale_call_holds_block(config: Config, now: u64, height: u64)
    requires
        config.pause_block != height,
        is_stale(config, now),
    ensures
        (Config { last_executed: now, pause_block: height, ..config }).pause_block == height,
        !is_stale(Config { last_executed: now, pause_block: height, ..config }, now),
{
}

/// Applying a configuration update a second time changes nothing more.
pub proof fn lemma_update_is_idempotent(config: Config, update: ConfigUpdateMsg)
    ensures
        updated_config(updated_config(config, update), update) == updated_config(config, update),
{
}

/// A floored quotient times its divisor stays within the dividend.
proof fn lemma_floor_times_divisor(x: int, d: int)
    requires
        x >= 0,
        d > 0,
    ensures
        0 <= x / d,
        (x / d) * d <= x,
{
    lemma_fundamental_div_mod(x, d);
    lemma_mod_pos_bound(x, d);
    assert(d * (x / d) == (x / d) * d) by (nonlinear_arith);
    assert(x / d >= 0) by (nonlinear_arith)
        requires x >= 0, d > 0, x == d * (x / d) + x % d, x % d < d;
}

/// A deposit withdrawn at once gains nothing: once shares exist, the shares
/// a deposit of value `incoming` mints, burned out of the new supply, redeem
/// tokens worth no more than `incoming` at the same prices (`total0`,
/// `total1` the holdings with the deposit).
pub proof fn lemma_deposit_then_withdraw_gains_nothing(
    total_shares: u128,
    prices: CombinedPriceResponse,
    incoming: nat,
    total0: u128,
    total1: u128,
)
    requires
        total_shares > 0,
        mint_outcome(total_shares, prices, incoming, total0, total1) matches Ok(m) && total_shares + m <= u128::MAX,
    ensures
        ({
            let m = mint_outcome(total_shares, prices, incoming, total0, total1)->Ok_0;
            let supply = (total_shares + m) as u128;
            value_of(redeemed(total0, m, supply) as u128, prices.token_0_price) + value_of(
                redeemed(total1, m, supply) as u128,
                prices.token_1_price,
            ) <= incoming
        }),
{
    let m = mint_outcome(total_shares, prices, incoming, total0, total1)->Ok_0;
    lemma_mint_is_proportional(total_shares, prices, incoming, total0, total1);
    let p0 = prices.token_0_price@;
    let p1 = prices.token_1_price@;
    let tv = value_of(total0, prices.token_0_price) + value_of(total1, prices.token_1_price);
    let e = tv - incoming;
    let v = incoming as int;
    let s = total_shares as int;
    let n = s + m;
    assert(m == (v * s) / e);
    lemma_floor_times_divisor(v * s, e);
    assert(m * e <= v * s);
    let r0 = redeemed(total0, m, (total_shares + m) as u128);
    let r1 = redeemed(total1, m, (total_shares + m) as u128);
    lemma_floor_times_divisor(total0 * m, n);
    lemma_floor_times_divisor(total1 * m, n);
    assert(r0 * n <= total0 * m);
    assert(r1 * n <= total1 * m);
    assert((r0 * p0) * n <= (total0 * p0) * m) by (nonlinear_arith)
        requires r0 * n <= total0 * m, p0 >= 0;
    assert((r1 * p1) * n <= (total1 * p1) * m) by (nonlinear_arith)
        requires r1 * n <= total1 * m, p1 >= 0;
    assert(tv == total0 * p0 + total1 * p1);
    assert((r0 * p0 + r1 * p1) * n <= tv * m) by (nonlinear_arith)
        requires
            (r0 * p0) * n <= (total0 * p0) * m,
            (r1 * p1) * n <= (total1 * p1) * m,
            tv == total0 * p0 + total1 * p1;
    assert(tv * m <= v * n) by (nonlinear_arith)
        requires tv == e + v, m * e <= v * s, n == s + m;
    assert(r0 * p0 + r1 * p1 <= v) by (nonlinear_arith)
        requires (r0 * p0 + r1 * p1) * n <= v * n, n > 0;
    crate::mmvault::utils::lemma_redeemed_le_total(total0, m, (total_shares + m) as u128);
    crate::mmvault::utils::lemma_redeemed_le_total(total1, m, (total_shares + m) as u128);
    assert(value_of(r0 as u128, prices.token_0_price) == r0 * p0);
    assert(value_of(r1 as u128, prices.token_1_price) == r1 * p1);
}

/// A deposit that goes through mints at least one share.
pub proof fn lemma_deposit_mints_some(
    config: Config,
    sender: Seq<char>,
    t0: u128,
    t1: u128,
    prices: CombinedPriceResponse,
    total0: u128,
    total1: u128,
)
    requires
        deposit_minted(config, sender, t0, t1, prices, total0, total1) is Ok,
    ensures
        deposit_minted(config, sender, t0, t1, prices, total0, total1)->Ok_0 > 0,
{
}

/// Once shares exist, a deposit worth exactly what the vault held before it
/// mints exactly as many shares as there were: depositing again what the
/// first depositor put in gives the same shares.
pub proof fn lemma_matching_deposit_doubles_shares(
    total_shares: u128,
    prices: CombinedPriceResponse,
    incoming: nat,
    total0: u128,
    total1: u128,
)
    requires
        total_shares > 0,
        value_of(total0, prices.token_0_price) + value_of(total1, prices.token_1_price) == 2 * incoming,
        mint_outcome(total_shares, prices, incoming, total0, total1) is Ok,
    ensures
        mint_outcome(total_shares, prices, incoming, total0, total1) == Ok::<u128, ContractError>(total_shares),
{
    lemma_mint_is_proportional(total_shares, prices, incoming, total0, total1);
    assert(incoming > 0);
    assert((incoming * total_shares) / (incoming as int) == total_shares as int) by {
        assert(incoming * total_shares == (incoming as int) * (total_shares as int));
        lemma_div_multiples_vanish(total_shares as int, incoming as int);
    }
}

/// Two equal deposits into an empty vault mint the same shares: the first
/// mints its value over `10^18`; the second, worth what the vault then held,
/// mints as many shares as the first did.
pub proof fn lemma_equal_deposits_mint_equal_shares(
    prices: CombinedPriceResponse,
    incoming: nat,
    total0: u128,
    total1: u128,
    later0: u128,
    later1: u128,
)
    requires
        value_of(total0, prices.token_0_price) + value_of(total1, prices.token_1_price) == incoming,
        value_of(later0, prices.token_0_price) + value_of(later1, prices.token_1_price) == 2 * incoming,
        mint_outcome(0, prices, incoming, total0, total1) is Ok,
        mint_outcome(mint_outcome(0, prices, incoming, total0, total1)->Ok_0, prices, incoming, later0, later1) is Ok,
    ensures
        ({
            let first = mint_outcome(0, prices, incoming, total0, total1)->Ok_0;
            &&& first == (incoming / 1_000_000_000_000_000_000nat) as u128
            &&& mint_outcome(first, prices, incoming, later0, later1) == Ok::<u128, ContractError>(first)
        }),
{
    lemma_first_mint(prices, incoming, total0, total1);
    let first = mint_outcome(0, prices, incoming, total0, total1)->Ok_0;
    lemma_matching_deposit_doubles_shares(first, prices, incoming, later0, later1);
}

/// The virtual balance counts each position's first reserve toward token 0
/// and its second toward token 1: with no position nothing is added, and one
/// more position `(a, b)` adds what `a` reads as to token 0's total and what
/// `b` reads as to token 1's.
pub proof fn lemma_reserves_count_toward_their_own_token(sims: Seq<(String, String)>, a: String, b: String)
    requires
        parsed_u128(a@) is Some,
        parsed_u128(b@) is Some,
    ensures
        reserves_sum(Seq::<(String, String)>::empty(), false) == 0,
        reserves_sum(Seq::<(String, String)>::empty(), true) == 0,
        reserves_sum(sims.push((a, b)), false) == reserves_sum(sims, false) + parsed_u128(a@)->0,
        reserves_sum(sims.push((a, b)), true) == reserves_sum(sims, true) + parsed_u128(b@)->0,
{
    assert(sims.push((a, b)).drop_last() =~= sims);
}

/// With one position, the virtual balance is the balances plus that
/// position's reserves, each to its own token.
pub proof fn lemma_one_position_virtual_balance(a: String, b: String)
    requires
        parsed_u128(a@) is Some,
        parsed_u128(b@) is Some,
    ensures
        reserves_sum(seq![(a, b)], false) == parsed_u128(a@)->0,
        reserves_sum(seq![(a, b)], true) == parsed_u128(b@)->0,
{
    lemma_reserves_count_toward_their_own_token(Seq::empty(), a, b);
    assert(Seq::<(String, String)>::empty().push((a, b)) =~= seq![(a, b)]);
}

/// The first tier's deposit when token 0 holds more value: the base
/// percentage of each token, plus, in token 0, the configured `imbalance`
/// percent of the value gap divided by token 0's price (each step floored
/// as the 27-digit decimals floor), each amount capped at what is there.
pub proof fn lemma_first_tier_adds_imbalance_share_to_token_0(
    total0: u128,
    total1: u128,
    tick_index: i64,
    fee: u64,
    prices: CombinedPriceResponse,
    percentage: u64,
    imbalance: u32,
)
    requires
        deposit_outcome(total0, total1, tick_index, fee, prices, percentage, imbalance) is Ok,
        total0 * prices.token_0_price@ > total1 * prices.token_1_price@,
    ensures
        ({
            let d = deposit_outcome(total0, total1, tick_index, fee, prices, percentage, imbalance)->Ok_0;
            let gap = total0 * prices.token_0_price@ - total1 * prices.token_1_price@;
            let share = (gap * (imbalance * 10_000_000_000_000_000_000_000_000int))
                / 1_000_000_000_000_000_000_000_000_000int;
            let extra = ((share * 1_000_000_000_000_000_000_000_000_000int) / (prices.token_0_price@ as int))
                / 1_000_000_000_000_000_000_000_000_000int;
            let want0 = (total0 * percentage) / 100 + extra;
            let want1 = (total1 * percentage) / 100;
            &&& d.amount0 == (if want0 > total0 { total0 as int } else { want0 })
            &&& d.amount1 == (if want1 > total1 { total1 as int } else { want1 })
            &&& d.tick_index == tick_index
            &&& d.fee == fee
        }),
{
}

/// The first tier's deposit when token 1 holds more value: the same, with
/// the configured share of the gap added in token 1 at token 1's price.
pub proof fn lemma_first_tier_adds_imbalance_share_to_token_1(
    total0: u128,
    total1: u128,
    tick_index: i64,
    fee: u64,
    prices: CombinedPriceResponse,
    percentage: u64,
    imbalance: u32,
)
    requires
        deposit_outcome(total0, total1, tick_index, fee, prices, percentage, imbalance) is Ok,
        total1 * prices.token_1_price@ > total0 * prices.token_0_price@,
    ensures
        ({
            let d = deposit_outcome(total0, total1, tick_index, fee, prices, percentage, imbalance)->Ok_0;
            let gap = total1 * prices.token_1_price@ - total0 * prices.token_0_price@;
            let share = (gap * (imbalance * 10_000_000_000_000_000_000_000_000int))
                / 1_000_000_000_000_000_000_000_000_000int;
            let extra = ((share * 1_000_000_000_000_000_000_000_000_000int) / (prices.token_1_price@ as int))
                / 1_000_000_000_000_000_000_000_000_000int;
            let want0 = (total0 * percentage) / 100;
            let want1 = (total1 * percentage) / 100 + extra;
            &&& d.amount0 == (if want0 > total0 { total0 as int } else { want0 })
            &&& d.amount1 == (if want1 > total1 { total1 as int } else { want1 })
            &&& d.tick_index == tick_index
            &&& d.fee == fee
        }),
{
}

/// At unit prices, the first tier deposits the base percentage of token 0
/// plus `imbalance` percent of how much more token 0 there is (capped at
/// the balance), and the base percentage of token 1.
pub proof fn lemma_first_tier_at_unit_prices(
    total0: u128,
    total1: u128,
    tick_index: i64,
    fee: u64,
    prices: CombinedPriceResponse,
    percentage: u64,
    imbalance: u32,
)
    requires
        deposit_outcome(total0, total1, tick_index, fee, prices, percentage, imbalance) is Ok,
        prices.token_0_price@ == scale(),
        prices.token_1_price@ == scale(),
        total0 > total1,
    ensures
        ({
            let d = deposit_outcome(total0, total1, tick_index, fee, prices, percentage, imbalance)->Ok_0;
            let want0 = (total0 * percentage) / 100 + ((total0 - total1) * imbalance) / 100;
            let want1 = (total1 * percentage) / 100;
            &&& d.amount0 == (if want0 > total0 { total0 as int } else { want0 })
            &&& d.amount1 == (if want1 > total1 { total1 as int } else { want1 })
        }),
{
    let s: int = 1_000_000_000_000_000_000_000_000_000int;
    let k: int = 10_000_000_000_000_000_000_000_000int;
    let diff: int = total0 - total1;
    let imb: int = imbalance as int;
    assert(total0 * scale() > total1 * scale()) by (nonlinear_arith)
        requires total0 > total1, scale() > 0;
    lemma_first_tier_adds_imbalance_share_to_token_0(total0, total1, tick_index, fee, prices, percentage, imbalance);
    let gap = total0 * prices.token_0_price@ - total1 * prices.token_1_price@;
    assert(gap == diff * s) by (nonlinear_arith)
        requires gap == total0 * s - total1 * s, diff == total0 - total1;
    let m = diff * imb * k;
    assert(gap * (imb * k) == s * m) by (nonlinear_arith)
        requires gap == diff * s, m == diff * imb * k;
    lemma_div_multiples_vanish(m, s);
    let share = (gap * (imb * k)) / s;
    assert(share == m);
    lemma_div_multiples_vanish(share, s);
    assert(share * s == s * share) by (nonlinear_arith);
    assert((share * s) / s == share);
    assert(diff >= 0 && imb >= 0) by (nonlinear_arith)
        requires diff == total0 - total1, total0 > total1, imb == imbalance as int;
    assert(m >= 0) by (nonlinear_arith)
        requires diff >= 0, imb >= 0, m == diff * imb * k, k > 0;
    lemma_div_multiples_vanish_quotient(k, diff * imb, 100);
    assert(k * (diff * imb) == m) by (nonlinear_arith)
        requires m == diff * imb * k;
    assert(k * 100 == s);
    assert(m / s == (diff * imb) / 100);
}

/// The first tier's deposit does not depend on which token is called token
/// 0: swapping the balances and the prices swaps the two amounts.
pub proof fn lemma_first_tier_is_symmetric(
    total0: u128,
    total1: u128,
    tick_index: i64,
    fee: u64,
    prices: CombinedPriceResponse,
    percentage: u64,
    imbalance: u32,
)
    ensures
        ({
            let swapped = CombinedPriceResponse {
                token_0_price: prices.token_1_price,
                token_1_price: prices.token_0_price,
                ..prices
            };
            match (
                deposit_outcome(total0, total1, tick_index, fee, prices, percentage, imbalance),
                deposit_outcome(total1, total0, tick_index, fee, swapped, percentage, imbalance),
            ) {
                (Ok(d), Ok(e)) => d.amount0 == e.amount1 && d.amount1 == e.amount0,
                (Err(x), Err(y)) => x == y,
                _ => false,
            }
        }),
{
}

} // verus!
