use vstd::prelude::*;
use vstd::arithmetic::power::pow;
use cosmwasm_std::Int128;
use crate::mmvault::error::OverflowOperation;
use crate::mmvault::msg::CombinedPriceResponse;
use crate::mmvault::state::{CurrencyPair, TokenData};
use crate::mmvault::utils::{digits_value, is_digit, text_less};
use crate::oracle::error::{ContractError, ContractResult};
use crate::oracle::state::PriceResponse;
use crate::precdec::{
    Dec, RatioError, scale, dec_limit, dec_one, dec_from_atomics, dec_from_ratio, dec_checked_div, dec_checked_mul,
    dec_div, dec_from_decimal18,
};
use crate::text::{contains_str, contains_string};

verus! {

/// The quote currencies priced at one: `USD` and `USDC`.
pub open spec fn is_usd(currency: Seq<char>) -> bool {
    currency == "USD"@ || currency == "USDC"@
}

/// Whether the currency is one of the USD denoms, priced at one.
pub fn is_usd_denom(currency: &str) -> (r: bool)
    ensures
        r == is_usd(currency@),
{
    let c = String::from_str(currency);
    let usd = String::from_str("USD");
    let usdc = String::from_str("USDC");
    c == usd || c == usdc
}

/// The error names the pair.
pub open spec fn names_pair(symbol: String, quote: String, pair: CurrencyPair) -> bool {
    symbol@ == pair.base@ && quote@ == pair.quote@
}

/// A price must be quoted, and no more than `max_blocks_old` blocks old.
pub fn validate_price_recent(
    pair: &CurrencyPair,
    current_block_height: u64,
    max_blocks_old: u64,
    response: &PriceResponse,
) -> (r: ContractResult<()>)
    requires
        response.price matches Some(p) ==> p.block_height <= current_block_height,
    ensures
        match response.price {
            None => r matches Err(ContractError::PriceNotAvailable { symbol, quote }) && names_pair(symbol, quote, *pair),
            Some(p) => if current_block_height - p.block_height > max_blocks_old {
                &&& r matches Err(ContractError::PriceTooOld { symbol, quote, max_blocks })
                &&& names_pair(symbol, quote, *pair)
                &&& max_blocks == max_blocks_old
            } else {
                r is Ok
            },
        },
{
    let price = match &response.price {
        Some(p) => p,
        None => {
            return Err(ContractError::PriceNotAvailable { symbol: pair.base.clone(), quote: pair.quote.clone() });
        },
    };
    if current_block_height - price.block_height > max_blocks_old {
        return Err(ContractError::PriceTooOld {
            symbol: pair.base.clone(),
            quote: pair.quote.clone(),
            max_blocks: max_blocks_old,
        });
    }
    Ok(())
}

/// A market whose ticker is listed as disabled is refused. `ticker_enabled`
/// is the market map's answer: the market if listed, its ticker if any, and
/// whether that is enabled.
pub fn validate_market_enabled(pair: &CurrencyPair, ticker_enabled: Option<Option<bool>>) -> (r: ContractResult<()>)
    ensures
        ticker_enabled == Some(Some(false)) ==> {
            &&& r matches Err(ContractError::UnsupportedMarket { symbol, quote, location })
            &&& names_pair(symbol, quote, *pair)
            &&& location@ == "x/marketmap"@
        },
        ticker_enabled != Some(Some(false)) ==> r is Ok,
{
    if let Some(Some(enabled)) = ticker_enabled {
        if !enabled {
            return Err(ContractError::UnsupportedMarket {
                symbol: pair.base.clone(),
                quote: pair.quote.clone(),
                location: String::from_str("x/marketmap"),
            });
        }
    }
    Ok(())
}

/// Some entry is the pair.
pub open spec fn lists_pair(pairs: Seq<CurrencyPair>, pair: CurrencyPair) -> bool {
    exists|i: int| 0 <= i < pairs.len() && pairs[i].base@ == pair.base@ && pairs[i].quote@ == pair.quote@
}

/// The oracle module must list the pair among its currency pairs.
pub fn validate_market_supported_xoracle(pair: &CurrencyPair, supported_pairs: &Vec<CurrencyPair>) -> (r:
    ContractResult<()>)
    ensures
        lists_pair(supported_pairs@, *pair) ==> r is Ok,
        !lists_pair(supported_pairs@, *pair) ==> {
            &&& r matches Err(ContractError::UnsupportedMarket { symbol, quote, location })
            &&& names_pair(symbol, quote, *pair)
            &&& location@ == "x/oracle"@
        },
{
    let n = supported_pairs.len();
    let mut i: usize = 0;
    while i < n
        invariant
            n == supported_pairs@.len(),
            i <= n,
            forall|k: int|
                0 <= k < i ==> !(supported_pairs@[k].base@ == pair.base@ && supported_pairs@[k].quote@ == pair.quote@),
        decreases n - i,
    {
        let p = &supported_pairs[i];
        if p.base == pair.base && p.quote == pair.quote {
            return Ok(());
        }
        i = i + 1;
    }
    Err(ContractError::UnsupportedMarket {
        symbol: pair.base.clone(),
        quote: pair.quote.clone(),
        location: String::from_str("x/oracle"),
    })
}

/// The market map's key of a pair: `base/quote`.
pub open spec fn market_key(pair: CurrencyPair) -> Seq<char> {
    pair.base@ + "/"@ + pair.quote@
}

/// The market map must hold the pair's market. `market_keys` are the keys of
/// its markets.
pub fn validate_market_supported_xmarketmap(pair: &CurrencyPair, market_keys: &Vec<String>) -> (r: ContractResult<()>)
    ensures
        contains_str(market_keys@, market_key(*pair)) ==> r is Ok,
        !contains_str(market_keys@, market_key(*pair)) ==> {
            &&& r matches Err(ContractError::UnsupportedMarket { symbol, quote, location })
            &&& names_pair(symbol, quote, *pair)
            &&& location@ == "x/marketmap"@
        },
{
    let key = crate::text::concat_str(pair.base.as_str(), "/");
    let key = key.concat(pair.quote.as_str());
    if !contains_string(market_keys, &key) {
        return Err(ContractError::UnsupportedMarket {
            symbol: pair.base.clone(),
            quote: pair.quote.clone(),
            location: String::from_str("x/marketmap"),
        });
    }
    Ok(())
}

/// A price that was never set (nonce zero) is refused.
pub fn validate_price_not_nil(pair: &CurrencyPair, response: &PriceResponse) -> (r: ContractResult<()>)
    ensures
        response.nonce == 0 ==> (r matches Err(ContractError::PriceIsNil { symbol, quote }) && names_pair(
            symbol,
            quote,
            *pair,
        )),
        response.nonce != 0 ==> r is Ok,
{
    if response.nonce == 0 {
        return Err(ContractError::PriceIsNil { symbol: pair.base.clone(), quote: pair.quote.clone() });
    }
    Ok(())
}

/// The checks a market passes, in order: a USD base needs none; otherwise
/// the oracle module and the market map must list it, and its price must be
/// recent and set.
pub open spec fn market_valid(
    pair: CurrencyPair,
    height: u64,
    max_blocks_old: u64,
    response: PriceResponse,
    supported_pairs: Seq<CurrencyPair>,
    market_keys: Seq<String>,
) -> bool {
    is_usd(pair.base@) || {
        &&& lists_pair(supported_pairs, pair)
        &&& contains_str(market_keys, market_key(pair))
        &&& response.price matches Some(p) && height - p.block_height <= max_blocks_old
        &&& response.nonce != 0
    }
}

/// Checks a market: a USD base passes; otherwise the pair must be listed by
/// the oracle module and the market map, and its price recent and set. The
/// host gathers the price, the currency pairs and the market keys.
pub fn validate_market(
    pair: &CurrencyPair,
    current_block_height: u64,
    max_blocks_old: u64,
    response: &PriceResponse,
    supported_pairs: &Vec<CurrencyPair>,
    market_keys: &Vec<String>,
) -> (r: ContractResult<()>)
    requires
        response.price matches Some(p) ==> p.block_height <= current_block_height,
    ensures
        r is Ok <==> market_valid(*pair, current_block_height, max_blocks_old, *response, supported_pairs@, market_keys@),
{
    if is_usd_denom(pair.base.as_str()) {
        return Ok(());
    }
    validate_market_supported_xoracle(pair, supported_pairs)?;
    validate_market_supported_xmarketmap(pair, market_keys)?;
    validate_price_recent(pair, current_block_height, max_blocks_old, response)?;
    validate_price_not_nil(pair, response)?;
    Ok(())
}

/// What `i128`'s `from_str` reads: an optional sign, then one or more
/// decimal digits whose signed value fits in 128 bits.
pub open spec fn parsed_i128(s: Seq<char>) -> Option<i128> {
    let negative = s.len() > 0 && s[0] == '-';
    let d = if s.len() > 0 && (s[0] == '+' || s[0] == '-') { s.drop_first() } else { s };
    let v: int = if negative { -digits_value(d) } else { digits_value(d) as int };
    if d.len() > 0 && (forall|i: int| 0 <= i < d.len() ==> is_digit(#[trigger] d[i])) && i128::MIN <= v <= i128::MAX {
        Some(v as i128)
    } else {
        None
    }
}

/// `Int128::from_str`, which reads the string as `i128` does.
#[verifier::external_body]
pub(crate) fn parse_int128(s: &str) -> (r: Option<i128>)
    ensures
        r == parsed_i128(s@),
{
    match <Int128 as core::str::FromStr>::from_str(s) {
        Ok(v) => Some(v.i128()),
        Err(_) => None,
    }
}

/// Turns an integer price with `decimals` decimals into a decimal: too many
/// decimals and negative prices are refused.
pub fn normalize_price(price: i128, decimals: u64) -> (r: ContractResult<Dec>)
    ensures
        decimals > u32::MAX ==> r matches Err(ContractError::TooManyDecimals),
        decimals <= u32::MAX && price < 0 ==> r matches Err(ContractError::PriceIsNegative),
        decimals <= u32::MAX && price >= 0 ==> (r matches Ok(d) && d@ == (price * scale()) / pow(10, decimals as nat)),
{
    if decimals > 4294967295u64 {
        return Err(ContractError::TooManyDecimals);
    }
    if price < 0 {
        return Err(ContractError::PriceIsNegative);
    }
    let abs_value = price as u128;
    Ok(dec_from_atomics(abs_value, decimals as u32))
}

/// The price Slinky quotes for a pair, as a decimal: one for a USD base;
/// otherwise the price must be set and recent, and its text an integer.
pub fn get_price_or_default(
    pair: &CurrencyPair,
    current_block_height: u64,
    max_blocks_old: u64,
    response: &PriceResponse,
) -> (r: ContractResult<Dec>)
    requires
        response.price matches Some(p) ==> p.block_height <= current_block_height,
    ensures
        is_usd(pair.base@) ==> (r matches Ok(d) && d@ == scale()),
        !is_usd(pair.base@) && response.nonce == 0 ==> (r matches Err(ContractError::PriceIsNil { symbol, quote })
            && names_pair(symbol, quote, *pair)),
        !is_usd(pair.base@) && response.nonce != 0 ==> match response.price {
            None => r matches Err(ContractError::PriceNotAvailable { symbol, quote }) && names_pair(symbol, quote, *pair),
            Some(p) => if current_block_height - p.block_height > max_blocks_old {
                r matches Err(ContractError::PriceTooOld { symbol, quote, max_blocks }) && names_pair(symbol, quote, *pair)
                    && max_blocks == max_blocks_old
            } else {
                match parsed_i128(p.price@) {
                    None => r matches Err(ContractError::InvalidPrice),
                    Some(v) => {
                        &&& response.decimals > u32::MAX ==> (r matches Err(ContractError::TooManyDecimals))
                        &&& response.decimals <= u32::MAX && v < 0 ==> (r matches Err(ContractError::PriceIsNegative))
                        &&& response.decimals <= u32::MAX && v >= 0 ==> (r matches Ok(d) && d@ == (v * scale()) / pow(
                            10,
                            response.decimals as nat,
                        ))
                    },
                }
            },
        },
{
    if is_usd_denom(pair.base.as_str()) {
        return Ok(dec_one());
    }
    validate_price_not_nil(pair, response)?;
    validate_price_recent(pair, current_block_height, max_blocks_old, response)?;
    let quoted = match &response.price {
        Some(p) => p,
        None => { return Err(ContractError::InvalidPrice); },
    };
    let price_int128 = match parse_int128(quoted.price.as_str()) {
        Some(v) => v,
        None => { return Err(ContractError::InvalidPrice); },
    };
    normalize_price(price_int128, response.decimals)
}

/// `10^exp` for an exponent whose power fits in 128 bits.
pub fn pow10(exp: u8) -> (r: u128)
    requires
        exp <= 38,
    ensures
        r == pow(10, exp as nat),
{
    let mut r: u128 = 1;
    let mut i: u8 = 0;
    proof {
        vstd::arithmetic::power::lemma_pow0(10);
    }
    while i < exp
        invariant
            i <= exp,
            exp <= 38,
            r == pow(10, i as nat),
        decreases exp - i,
    {
        proof {
            vstd::arithmetic::power::lemma_pow_adds(10, i as nat, 1);
            vstd::arithmetic::power::lemma_pow1(10);
            vstd::arithmetic::power::lemma_pow_increases(10, i as nat + 1, 38);
            assert(pow(10, 38) <= u128::MAX) by {
                reveal_with_fuel(pow, 39);
            }
        }
        r = r * 10;
        i = i + 1;
    }
    r
}

/// The price of one atomic unit of a token with `decimals` decimals: the
/// quoted price divided by `10^decimals`.
pub open spec fn unit_price(price: nat, decimals: u8) -> nat {
    (price * scale()) / (pow(10, decimals as nat) * scale()) as nat
}

/// The quoted price scaled down to the token's atomic unit.
pub fn token_price(price: Dec, decimals: u8) -> (r: ContractResult<Dec>)
    requires
        decimals <= 38,
    ensures
        r matches Ok(d) && d@ == unit_price(price@, decimals),
{
    let factor = dec_from_ratio(pow10(decimals), 1);
    proof {
        crate::precdec::lemma_dec_bounded(price);
        vstd::arithmetic::power::lemma_pow_positive(10, decimals as nat);
        let f = pow(10, decimals as nat);
        assert(factor@ == f * scale());
        assert(f * scale() >= scale()) by (nonlinear_arith)
            requires f >= 1;
        assert((price@ * scale()) / (f * scale()) as nat <= price@) by (nonlinear_arith)
            requires f * scale() >= scale(), scale() > 0;
    }
    match dec_checked_div(price, factor) {
        Ok(v) => Ok(v),
        Err(e) => Err(ContractError::CheckedDiv(e)),
    }
}

/// The price of a dAsset: its base asset's price times the redemption rate
/// (`rate` the rate as a 27-digit decimal, if its text read as one).
pub fn dasset_price_from(base_price: Dec, rate: Option<Dec>) -> (r: ContractResult<Dec>)
    ensures
        match rate {
            None => r matches Err(ContractError::PrecDecConversionError),
            Some(q) => if (base_price@ * q@) / scale() < dec_limit() {
                r matches Ok(d) && d@ == (base_price@ * q@) / scale()
            } else {
                r matches Err(ContractError::Overflow(OverflowOperation::Mul))
            },
        },
{
    let rate = match rate {
        Some(q) => q,
        None => { return Err(ContractError::PrecDecConversionError); },
    };
    match dec_checked_mul(base_price, rate) {
        Some(v) => Ok(v),
        None => Err(ContractError::Overflow(OverflowOperation::Mul)),
    }
}

/// The price of a dAsset from its base price and the core contract's
/// redemption rate (a `Decimal`, given by its 18-digit atomics).
pub fn get_dasset_price(base_price: Dec, redemption_rate: u128) -> (r: ContractResult<Dec>)
    ensures
        ({
            let v = (base_price@ * ((redemption_rate as nat) * 1_000_000_000nat)) / scale();
            if v < dec_limit() {
                r matches Ok(d) && d@ == v
            } else {
                r == Err::<Dec, ContractError>(ContractError::Overflow(OverflowOperation::Mul))
            }
        }),
{
    let rate = dec_from_decimal18(redemption_rate);
    dasset_price_from(base_price, rate)
}

/// The two tokens' prices after the dAsset's redemption rate: token 0's when
/// it is the dAsset, else token 1's (`rate` the rate as a 27-digit decimal).
pub open spec fn rated_prices(d_asset_denom: Seq<char>, token_a: TokenData, p0: nat, p1: nat, rate: nat) -> (nat, nat) {
    if token_a.denom@ == d_asset_denom {
        ((p0 * rate) / scale(), p1)
    } else {
        (p0, (p1 * rate) / scale())
    }
}

/// The inputs on which the price ratio does not panic: when the rated
/// prices fit, token 1's is not zero and the ratio fits.
pub open spec fn ratio_fits(d_asset_denom: Seq<char>, token_a: TokenData, token_b: TokenData, price_a: nat, price_b: nat, redemption_rate: u128) -> bool {
    let (f0, f1) = rated_prices(
        d_asset_denom,
        token_a,
        unit_price(price_a, token_a.decimals),
        unit_price(price_b, token_b.decimals),
        (redemption_rate as nat) * 1_000_000_000nat,
    );
    (f0 < dec_limit() && f1 < dec_limit()) ==> (f1 != 0 && (f0 * scale()) / f1 < dec_limit())
}

/// Combines the quoted prices of the two tokens (one each when their base
/// is USD): each scaled to the token's atomic unit, the dAsset's multiplied
/// by the redemption rate, and the ratio of the first to the second.
pub fn combine_prices(
    d_asset_denom: &String,
    token_a: &TokenData,
    token_b: &TokenData,
    price_a: Dec,
    price_b: Dec,
    redemption_rate: u128,
) -> (r: ContractResult<CombinedPriceResponse>)
    requires
        token_a.decimals <= 38,
        token_b.decimals <= 38,
        ratio_fits(d_asset_denom@, *token_a, *token_b, price_a@, price_b@, redemption_rate),
    ensures
        ({
            let (f0, f1) = rated_prices(
                d_asset_denom@,
                *token_a,
                unit_price(price_a@, token_a.decimals),
                unit_price(price_b@, token_b.decimals),
                (redemption_rate as nat) * 1_000_000_000nat,
            );
            if f0 < dec_limit() && f1 < dec_limit() {
                &&& r matches Ok(resp)
                &&& resp.token_0_price@ == f0
                &&& resp.token_1_price@ == f1
                &&& resp.price_0_to_1@ == (f0 * scale()) / f1
            } else {
                r == Err::<CombinedPriceResponse, ContractError>(ContractError::Overflow(OverflowOperation::Mul))
            }
        }),
{
    let mut token_0_price = token_price(price_a, token_a.decimals)?;
    let mut token_1_price = token_price(price_b, token_b.decimals)?;
    proof {
        crate::precdec::lemma_dec_bounded(token_0_price);
        crate::precdec::lemma_dec_bounded(token_1_price);
    }
    if token_a.denom == *d_asset_denom {
        token_0_price = get_dasset_price(token_0_price, redemption_rate)?;
    } else {
        token_1_price = get_dasset_price(token_1_price, redemption_rate)?;
    }
    proof {
        crate::precdec::lemma_dec_bounded(token_0_price);
        crate::precdec::lemma_dec_bounded(token_1_price);
    }
    let price_0_to_1 = dec_div(token_0_price, token_1_price);
    Ok(CombinedPriceResponse { token_0_price, token_1_price, price_0_to_1 })
}

/// The decimal price `get_price_or_default` gives for a pair, when it gives one.
pub open spec fn quoted_value(pair: CurrencyPair, height: u64, max_blocks_old: u64, response: PriceResponse) -> Option<nat> {
    if is_usd(pair.base@) {
        Some(scale())
    } else if response.nonce == 0 {
        None
    } else {
        match response.price {
            None => None,
            Some(p) => if height - p.block_height > max_blocks_old || response.decimals > u32::MAX {
                None
            } else {
                match parsed_i128(p.price@) {
                    Some(v) => if v >= 0 {
                        Some(((v * scale()) / pow(10, response.decimals as nat)) as nat)
                    } else {
                        None
                    },
                    None => None,
                }
            },
        }
    }
}

/// The prices of two tokens, from Slinky's quotes for their pairs (the host
/// gathers them, and the dAsset's redemption rate), as the vault reads them.
pub fn get_prices(
    config: &crate::oracle::state::Config,
    token_a: &TokenData,
    token_b: &TokenData,
    current_block_height: u64,
    response_a: &PriceResponse,
    response_b: &PriceResponse,
    redemption_rate: u128,
) -> (r: ContractResult<CombinedPriceResponse>)
    requires
        response_a.price matches Some(p) ==> p.block_height <= current_block_height,
        response_b.price matches Some(p) ==> p.block_height <= current_block_height,
        token_a.decimals <= 38,
        token_b.decimals <= 38,
        quoted_value(token_a.pair, current_block_height, token_a.max_blocks_old, *response_a) matches Some(va)
            ==> (quoted_value(token_b.pair, current_block_height, token_b.max_blocks_old, *response_b) matches Some(vb)
            ==> ratio_fits(config.d_asset_denom@, *token_a, *token_b, va, vb, redemption_rate)),
    ensures
        match (
            quoted_value(token_a.pair, current_block_height, token_a.max_blocks_old, *response_a),
            quoted_value(token_b.pair, current_block_height, token_b.max_blocks_old, *response_b),
        ) {
            (Some(va), Some(vb)) => {
                let (f0, f1) = rated_prices(
                    config.d_asset_denom@,
                    *token_a,
                    unit_price(va, token_a.decimals),
                    unit_price(vb, token_b.decimals),
                    (redemption_rate as nat) * 1_000_000_000nat,
                );
                if f0 < dec_limit() && f1 < dec_limit() {
                    &&& r matches Ok(resp)
                    &&& resp.token_0_price@ == f0
                    &&& resp.token_1_price@ == f1
                    &&& resp.price_0_to_1@ == (f0 * scale()) / f1
                } else {
                    r == Err::<CombinedPriceResponse, ContractError>(ContractError::Overflow(OverflowOperation::Mul))
                }
            },
            _ => r is Err,
        },
{
    let price_a = get_price_or_default(&token_a.pair, current_block_height, token_a.max_blocks_old, response_a)?;
    let price_b = get_price_or_default(&token_b.pair, current_block_height, token_b.max_blocks_old, response_b)?;
    combine_prices(&config.d_asset_denom, token_a, token_b, price_a, price_b, redemption_rate)
}

} // verus!
