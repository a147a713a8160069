use vstd::prelude::*;
use vstd::arithmetic::power::pow;
use crate::mmvault::error::{ContractError, ContractResult, OverflowOperation};
use crate::mmvault::msg::CombinedPriceResponse;
use crate::oracle::error::ContractError as OracleError;
use crate::oracle::state::PriceResponse;
use crate::oracle::utils::{get_price_or_default, pow10, quoted_value};
use crate::owner_vault::state::{Config, TokenData};
use crate::precdec::{Dec, scale, dec_limit, dec_checked_mul, dec_div, dec_from_ratio};

verus! {

/// The vault's form of an error of the oracle's price checks: the error of
/// the same name.
pub open spec fn vault_error(e: OracleError) -> ContractError {
    match e {
        OracleError::PriceNotAvailable { symbol, quote } => ContractError::PriceNotAvailable { symbol, quote },
        OracleError::PriceTooOld { symbol, quote, max_blocks } => ContractError::PriceTooOld { symbol, quote, max_blocks },
        OracleError::UnsupportedMarket { symbol, quote, location } => ContractError::UnsupportedMarket {
            symbol,
            quote,
            location,
        },
        OracleError::PriceIsNil { symbol, quote } => ContractError::PriceIsNil { symbol, quote },
        OracleError::TooManyDecimals => ContractError::TooManyDecimals,
        OracleError::PriceIsNegative => ContractError::PriceIsNegative,
        OracleError::DecimalConversionError => ContractError::DecimalConversionError,
        OracleError::PrecDecConversionError => ContractError::DecimalConversionError,
        OracleError::InvalidPrice => ContractError::InvalidPrice,
        OracleError::SerializationError => ContractError::SerializationError,
        OracleError::UpdateOwnershipError => ContractError::Unauthorized,
        OracleError::Unauthorized => ContractError::Unauthorized,
        OracleError::Overflow(op) => ContractError::Overflow(op),
        OracleError::CheckedDiv(e) => ContractError::CheckedDiv(e),
    }
}

/// Carries an error of the oracle's price checks over to the vault.
pub fn to_vault_error(e: OracleError) -> (r: ContractError)
    ensures
        r == vault_error(e),
{
    match e {
        OracleError::PriceNotAvailable { symbol, quote } => ContractError::PriceNotAvailable { symbol, quote },
        OracleError::PriceTooOld { symbol, quote, max_blocks } => ContractError::PriceTooOld { symbol, quote, max_blocks },
        OracleError::UnsupportedMarket { symbol, quote, location } => ContractError::UnsupportedMarket {
            symbol,
            quote,
            location,
        },
        OracleError::PriceIsNil { symbol, quote } => ContractError::PriceIsNil { symbol, quote },
        OracleError::TooManyDecimals => ContractError::TooManyDecimals,
        OracleError::PriceIsNegative => ContractError::PriceIsNegative,
        OracleError::DecimalConversionError => ContractError::DecimalConversionError,
        OracleError::PrecDecConversionError => ContractError::DecimalConversionError,
        OracleError::InvalidPrice => ContractError::InvalidPrice,
        OracleError::SerializationError => ContractError::SerializationError,
        OracleError::UpdateOwnershipError => ContractError::Unauthorized,
        OracleError::Unauthorized => ContractError::Unauthorized,
        OracleError::Overflow(op) => ContractError::Overflow(op),
        OracleError::CheckedDiv(e) => ContractError::CheckedDiv(e),
    }
}

/// The price the vault takes for a token, when it has one: the oracle's
/// quote for the token's pair (one for a USD base) times `10^decimals`, if
/// that fits in a decimal.
pub open spec fn vault_token_price(token: TokenData, height: u64, max_blocks_old: u64, response: PriceResponse) -> Option<nat> {
    match quoted_value(token.pair, height, max_blocks_old, response) {
        Some(v) => if v * pow(10, token.decimals as nat) < dec_limit() {
            Some((v * pow(10, token.decimals as nat)) as nat)
        } else {
            None
        },
        None => None,
    }
}

/// The price of one token of the pair: the quote for its pair, checked as
/// the oracle checks it, times `10^decimals`.
pub fn token_price(token: &TokenData, current_block_height: u64, max_blocks_old: u64, response: &PriceResponse) -> (r:
    ContractResult<Dec>)
    requires
        response.price matches Some(p) ==> p.block_height <= current_block_height,
        token.decimals <= 38,
    ensures
        match quoted_value(token.pair, current_block_height, max_blocks_old, *response) {
            None => r is Err,
            Some(v) => if v * pow(10, token.decimals as nat) < dec_limit() {
                r matches Ok(d) && d@ == v * pow(10, token.decimals as nat)
            } else {
                r == Err::<Dec, ContractError>(ContractError::Overflow(OverflowOperation::Mul))
            },
        },
        r matches Ok(d) ==> vault_token_price(*token, current_block_height, max_blocks_old, *response) == Some(d@),
        r is Err ==> vault_token_price(*token, current_block_height, max_blocks_old, *response) is None,
{
    let quote = match get_price_or_default(&token.pair, current_block_height, max_blocks_old, response) {
        Ok(d) => d,
        Err(e) => {
            return Err(to_vault_error(e));
        },
    };
    let factor = dec_from_ratio(pow10(token.decimals), 1);
    proof {
        let f = pow(10, token.decimals as nat);
        let q = quote@;
        assert(factor@ == f * scale());
        assert(q * (f * scale()) == scale() * (q * f)) by (nonlinear_arith);
        vstd::arithmetic::div_mod::lemma_div_multiples_vanish(q * f, scale() as int);
        assert((q * factor@) / scale() == q * f);
    }
    match dec_checked_mul(quote, factor) {
        Some(v) => Ok(v),
        None => Err(ContractError::Overflow(OverflowOperation::Mul)),
    }
}

/// The inputs on which the price ratio does not panic: when both tokens
/// have a price, token 1's is not zero and the ratio fits.
pub open spec fn ratio_defined(config: Config, height: u64, response_0: PriceResponse, response_1: PriceResponse) -> bool {
    match (
        vault_token_price(config.pair_data.token_0, height, config.max_blocks_old, response_0),
        vault_token_price(config.pair_data.token_1, height, config.max_blocks_old, response_1),
    ) {
        (Some(f0), Some(f1)) => f1 != 0 && (f0 * scale()) / f1 < dec_limit(),
        _ => true,
    }
}

/// The prices of the pair's two tokens and the ratio of the first to the
/// second, from the oracle's quotes for their pairs (the host gathers them).
pub fn get_prices(config: &Config, current_block_height: u64, response_0: &PriceResponse, response_1: &PriceResponse) -> (r:
    ContractResult<CombinedPriceResponse>)
    requires
        response_0.price matches Some(p) ==> p.block_height <= current_block_height,
        response_1.price matches Some(p) ==> p.block_height <= current_block_height,
        config.pair_data.token_0.decimals <= 38,
        config.pair_data.token_1.decimals <= 38,
        ratio_defined(*config, current_block_height, *response_0, *response_1),
    ensures
        match (
            vault_token_price(config.pair_data.token_0, current_block_height, config.max_blocks_old, *response_0),
            vault_token_price(config.pair_data.token_1, current_block_height, config.max_blocks_old, *response_1),
        ) {
            (Some(f0), Some(f1)) => r matches Ok(p) && p.token_0_price@ == f0 && p.token_1_price@ == f1
                && p.price_0_to_1@ == (f0 * scale()) / f1,
            _ => r is Err,
        },
{
    let token_0_price = token_price(&config.pair_data.token_0, current_block_height, config.max_blocks_old, response_0)?;
    let token_1_price = token_price(&config.pair_data.token_1, current_block_height, config.max_blocks_old, response_1)?;
    let price_0_to_1 = dec_div(token_0_price, token_1_price);
    Ok(CombinedPriceResponse { token_0_price, token_1_price, price_0_to_1 })
}

} // verus!
