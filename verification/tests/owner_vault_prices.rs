use std::str::FromStr;

use neutron_std::types::neutron::util::precdec::PrecDec;
use neutron_vaults::coin::Coin;
use neutron_vaults::mmvault::error::{ContractError, OverflowOperation};
use neutron_vaults::mmvault::state::CurrencyPair;
use neutron_vaults::oracle::error::ContractError as OracleError;
use neutron_vaults::oracle::state::{PriceResponse, QuotePrice};
use neutron_vaults::owner_vault::prices::{get_prices, to_vault_error, token_price};
use neutron_vaults::owner_vault::state::{Balances, Config, PairData, TokenData};
use neutron_vaults::precdec::Dec;

fn dec(s: &str) -> Dec {
    Dec { atomics: PrecDec::from_str(s).unwrap().atomics().to_be_bytes() }
}

fn quote(price: &str, block_height: u64, decimals: u64) -> PriceResponse {
    PriceResponse { price: Some(QuotePrice { price: price.to_string(), block_height }), nonce: 1, decimals }
}

fn usd_base() -> PriceResponse {
    PriceResponse { price: None, nonce: 0, decimals: 0 }
}

fn token(denom: &str, base: &str, decimals: u8) -> TokenData {
    TokenData { denom: denom.to_string(), decimals, pair: CurrencyPair { base: base.to_string(), quote: "USD".to_string() } }
}

fn config(t0: TokenData, t1: TokenData) -> Config {
    Config {
        balances: Balances {
            token_0: Coin { denom: t0.denom.clone(), amount: 0 },
            token_1: Coin { denom: t1.denom.clone(), amount: 0 },
        },
        pair_data: PairData { pair_id: format!("{}<>{}", t0.denom, t1.denom), token_0: t0, token_1: t1 },
        max_blocks_old: 2,
        base_fee: 1,
        base_deposit_percentage: 50,
        ambient_fee: 100,
        deposit_ambient: true,
        owner: "owner".to_string(),
        deposit_cap: 0,
    }
}

#[test]
fn usd_base_is_priced_at_ten_to_the_decimals() {
    let p = token_price(&token("uusdc", "USDC", 6), 100, 2, &usd_base()).unwrap();
    assert_eq!(p.atomics, dec("1000000").atomics);
}

#[test]
fn quoted_price_is_scaled_by_the_decimals() {
    // 1.2345 USD per whole token, six decimals
    let p = token_price(&token("untrn", "NTRN", 6), 100, 2, &quote("12345", 99, 4)).unwrap();
    assert_eq!(p.atomics, dec("1234500").atomics);
}

#[test]
fn stale_or_missing_quotes_are_refused() {
    let t = token("untrn", "NTRN", 6);
    match token_price(&t, 100, 2, &quote("12345", 97, 4)).unwrap_err() {
        ContractError::PriceTooOld { symbol, quote, max_blocks } => {
            assert_eq!((symbol.as_str(), quote.as_str(), max_blocks), ("NTRN", "USD", 2));
        },
        other => panic!("unexpected {:?}", other),
    }
    let never_set = PriceResponse { price: None, nonce: 0, decimals: 0 };
    assert!(matches!(token_price(&t, 100, 2, &never_set).unwrap_err(), ContractError::PriceIsNil { .. }));
    assert!(matches!(token_price(&t, 100, 2, &quote("-5", 100, 0)).unwrap_err(), ContractError::PriceIsNegative));
    assert!(matches!(token_price(&t, 100, 2, &quote("x", 100, 0)).unwrap_err(), ContractError::InvalidPrice));
}

#[test]
fn scaled_price_that_leaves_256_bits_is_an_overflow() {
    let big = "170141183460469231731687303715884105727";
    let t = token("uhuge", "HUGE", 38);
    assert!(matches!(
        token_price(&t, 100, 2, &quote(big, 100, 0)).unwrap_err(),
        ContractError::Overflow(OverflowOperation::Mul)
    ));
}

#[test]
fn prices_and_their_ratio() {
    let c = config(token("untrn", "NTRN", 6), token("uusdc", "USDC", 6));
    let p = get_prices(&c, 100, &quote("5", 100, 1), &usd_base()).unwrap();
    assert_eq!(p.token_0_price.atomics, dec("500000").atomics);
    assert_eq!(p.token_1_price.atomics, dec("1000000").atomics);
    assert_eq!(p.price_0_to_1.atomics, dec("0.5").atomics);
}

#[test]
fn a_failing_quote_fails_the_prices() {
    let c = config(token("untrn", "NTRN", 6), token("uatom", "ATOM", 6));
    assert!(get_prices(&c, 100, &quote("5", 100, 1), &quote("7", 10, 1)).is_err());
    assert!(get_prices(&c, 100, &quote("5", 10, 1), &quote("7", 100, 1)).is_err());
}

#[test]
fn oracle_errors_keep_their_names() {
    assert!(matches!(to_vault_error(OracleError::InvalidPrice), ContractError::InvalidPrice));
    assert!(matches!(to_vault_error(OracleError::TooManyDecimals), ContractError::TooManyDecimals));
    match to_vault_error(OracleError::PriceIsNil { symbol: "A".to_string(), quote: "B".to_string() }) {
        ContractError::PriceIsNil { symbol, quote } => assert_eq!((symbol.as_str(), quote.as_str()), ("A", "B")),
        other => panic!("unexpected {:?}", other),
    }
}
