use std::str::FromStr;

use neutron_std::types::neutron::util::precdec::PrecDec;
use neutron_vaults::mmvault::state::{CurrencyPair, TokenData};
use neutron_vaults::oracle::contract::{execute_update_config, instantiate, InstantiateMsg, UpdateConfig};
use neutron_vaults::oracle::error::ContractError;
use neutron_vaults::oracle::state::{Config, PriceResponse, QuotePrice};
use neutron_vaults::oracle::utils::{
    combine_prices, get_dasset_price, get_price_or_default, get_prices, is_usd_denom, normalize_price, pow10,
    token_price, validate_market, validate_market_enabled, validate_market_supported_xmarketmap,
    validate_market_supported_xoracle, validate_price_not_nil, validate_price_recent,
};
use neutron_vaults::precdec::Dec;

fn dec(s: &str) -> Dec {
    Dec { atomics: PrecDec::from_str(s).unwrap().atomics().to_be_bytes() }
}

fn pair(base: &str, quote: &str) -> CurrencyPair {
    CurrencyPair { base: base.to_string(), quote: quote.to_string() }
}

fn quote(price: &str, block_height: u64, nonce: u64, decimals: u64) -> PriceResponse {
    PriceResponse { price: Some(QuotePrice { price: price.to_string(), block_height }), nonce, decimals }
}

fn token(denom: &str, base: &str, decimals: u8) -> TokenData {
    TokenData { denom: denom.to_string(), decimals, max_blocks_old: 10, pair: pair(base, "USD") }
}

#[test]
fn usd_denoms_are_usd_and_usdc() {
    assert!(is_usd_denom("USD"));
    assert!(is_usd_denom("USDC"));
    assert!(!is_usd_denom("usd"));
    assert!(!is_usd_denom("NTRN"));
}

#[test]
fn normalize_price_divides_by_the_decimals() {
    assert_eq!(normalize_price(123456, 3).unwrap().atomics, dec("123.456").atomics);
    assert_eq!(normalize_price(5, 0).unwrap().atomics, dec("5").atomics);
    assert!(matches!(normalize_price(-1, 2).unwrap_err(), ContractError::PriceIsNegative));
    assert!(matches!(normalize_price(1, 1u64 << 40).unwrap_err(), ContractError::TooManyDecimals));
}

#[test]
fn recent_price_is_required() {
    let p = pair("NTRN", "USD");
    assert!(validate_price_recent(&p, 100, 10, &quote("1", 95, 1, 0)).is_ok());
    assert!(validate_price_recent(&p, 100, 10, &quote("1", 90, 1, 0)).is_ok());
    match validate_price_recent(&p, 100, 10, &quote("1", 89, 1, 0)).unwrap_err() {
        ContractError::PriceTooOld { symbol, quote, max_blocks } => {
            assert_eq!((symbol.as_str(), quote.as_str(), max_blocks), ("NTRN", "USD", 10));
        },
        other => panic!("unexpected {:?}", other),
    }
    let none = PriceResponse { price: None, nonce: 1, decimals: 0 };
    assert!(matches!(validate_price_recent(&p, 100, 10, &none).unwrap_err(), ContractError::PriceNotAvailable { .. }));
}

#[test]
fn market_checks() {
    let p = pair("NTRN", "USD");
    assert!(validate_market_enabled(&p, None).is_ok());
    assert!(validate_market_enabled(&p, Some(None)).is_ok());
    assert!(validate_market_enabled(&p, Some(Some(true))).is_ok());
    assert!(matches!(validate_market_enabled(&p, Some(Some(false))).unwrap_err(), ContractError::UnsupportedMarket { .. }));
    assert!(validate_market_supported_xoracle(&p, &vec![pair("ATOM", "USD"), pair("NTRN", "USD")]).is_ok());
    match validate_market_supported_xoracle(&p, &vec![pair("NTRN", "EUR")]).unwrap_err() {
        ContractError::UnsupportedMarket { location, .. } => assert_eq!(location, "x/oracle"),
        other => panic!("unexpected {:?}", other),
    }
    assert!(validate_market_supported_xmarketmap(&p, &vec!["NTRN/USD".to_string()]).is_ok());
    match validate_market_supported_xmarketmap(&p, &vec!["NTRN-USD".to_string()]).unwrap_err() {
        ContractError::UnsupportedMarket { location, .. } => assert_eq!(location, "x/marketmap"),
        other => panic!("unexpected {:?}", other),
    }
    assert!(matches!(
        validate_price_not_nil(&p, &quote("1", 1, 0, 0)).unwrap_err(),
        ContractError::PriceIsNil { .. }
    ));
}

#[test]
fn validate_market_runs_every_check_but_for_usd() {
    let p = pair("NTRN", "USD");
    let pairs = vec![p.clone()];
    let keys = vec!["NTRN/USD".to_string()];
    assert!(validate_market(&p, 100, 10, &quote("1", 99, 3, 0), &pairs, &keys).is_ok());
    assert!(validate_market(&p, 100, 10, &quote("1", 99, 0, 0), &pairs, &keys).is_err());
    assert!(validate_market(&p, 100, 10, &quote("1", 99, 3, 0), &vec![], &keys).is_err());
    let usd = pair("USDC", "USD");
    assert!(validate_market(&usd, 100, 10, &quote("1", 0, 0, 0), &vec![], &vec![]).is_ok());
}

#[test]
fn price_or_default() {
    let p = pair("NTRN", "USD");
    assert_eq!(get_price_or_default(&p, 100, 10, &quote("425", 99, 1, 2)).unwrap().atomics, dec("4.25").atomics);
    assert_eq!(
        get_price_or_default(&pair("USD", "USD"), 100, 10, &quote("7", 0, 0, 0)).unwrap().atomics,
        dec("1").atomics
    );
    assert!(matches!(
        get_price_or_default(&p, 100, 10, &quote("abc", 99, 1, 2)).unwrap_err(),
        ContractError::InvalidPrice
    ));
    assert!(matches!(
        get_price_or_default(&p, 100, 10, &quote("-5", 99, 1, 2)).unwrap_err(),
        ContractError::PriceIsNegative
    ));
    assert!(matches!(get_price_or_default(&p, 100, 10, &quote("5", 50, 1, 2)).unwrap_err(), ContractError::PriceTooOld { .. }));
}

#[test]
fn pow10_values() {
    assert_eq!(pow10(0), 1);
    assert_eq!(pow10(6), 1_000_000);
    assert_eq!(pow10(38), 10u128.pow(38));
}

#[test]
fn token_price_is_per_atomic_unit() {
    assert_eq!(token_price(dec("2.5"), 6).unwrap().atomics, dec("0.0000025").atomics);
    assert_eq!(token_price(dec("3"), 0).unwrap().atomics, dec("3").atomics);
}

#[test]
fn dasset_price_is_base_times_rate() {
    // a redemption rate of 1.2, as a Decimal's 18-digit atomics
    let rate = 1_200_000_000_000_000_000u128;
    assert_eq!(get_dasset_price(dec("10"), rate).unwrap().atomics, dec("12").atomics);
}

#[test]
fn dasset_price_past_256_bits_is_an_overflow() {
    let huge = dec("100000000000000000000000000000000000000000000000000");
    let rate = 2_000_000_000_000_000_000u128;
    assert!(matches!(
        get_dasset_price(huge, rate).unwrap_err(),
        ContractError::Overflow(neutron_vaults::mmvault::error::OverflowOperation::Mul)
    ));
}

#[test]
fn combined_prices_rate_the_dasset() {
    let a = token("dATOM", "ATOM", 6);
    let b = token("uusdc", "USDC", 6);
    let rate = 2_000_000_000_000_000_000u128;
    let r = combine_prices(&"dATOM".to_string(), &a, &b, dec("5"), dec("1"), rate).unwrap();
    assert_eq!(r.token_0_price.atomics, dec("0.00001").atomics);
    assert_eq!(r.token_1_price.atomics, dec("0.000001").atomics);
    assert_eq!(r.price_0_to_1.atomics, dec("10").atomics);
    // the second token is rated when the first is not the dAsset
    let r = combine_prices(&"other".to_string(), &a, &b, dec("5"), dec("1"), rate).unwrap();
    assert_eq!(r.token_1_price.atomics, dec("0.000002").atomics);
    assert_eq!(r.price_0_to_1.atomics, dec("2.5").atomics);
}

#[test]
fn get_prices_from_quotes() {
    let config = Config { core_contract: "core".to_string(), d_asset_denom: "dNTRN".to_string() };
    let a = token("dNTRN", "NTRN", 0);
    let b = token("uusdc", "USDC", 0);
    let r = get_prices(&config, &a, &b, 100, &quote("30", 99, 1, 1), &quote("0", 0, 0, 0), 1_000_000_000_000_000_000)
        .unwrap();
    assert_eq!(r.token_0_price.atomics, dec("3").atomics);
    assert_eq!(r.token_1_price.atomics, dec("1").atomics);
    assert_eq!(r.price_0_to_1.atomics, dec("3").atomics);
    assert!(get_prices(&config, &a, &b, 100, &quote("30", 10, 1, 1), &quote("0", 0, 0, 0), 1).is_err());
}

#[test]
fn oracle_instantiate_and_update() {
    let (mut config, attrs) = instantiate(InstantiateMsg {
        core_contract: "core".to_string(),
        owner: "owner".to_string(),
        d_asset_denom: "dATOM".to_string(),
    });
    assert_eq!(config.core_contract, "core");
    assert_eq!(attrs[1].value, "Addr(\"core\")");
    let attrs = execute_update_config(&mut config, UpdateConfig { core_contract: None, d_asset_denom: Some("dNTRN".to_string()) });
    assert_eq!(config.core_contract, "core");
    assert_eq!(config.d_asset_denom, "dNTRN");
    assert_eq!(attrs[0].value, "update_config");
    assert_eq!(attrs[2].value, "\"dNTRN\"");
}
