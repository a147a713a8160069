use std::str::FromStr;

use neutron_std::types::neutron::util::precdec::PrecDec;
use neutron_vaults::lst_oracle;
use neutron_vaults::maxbtc_oracle;
use neutron_vaults::oracle::error::ContractError as OracleError;
use neutron_vaults::oracle::utils::normalize_price;
use neutron_vaults::precdec::{dec_debug, Dec};
use neutron_vaults::slinky_oracle;

fn dec(s: &str) -> Dec {
    Dec { atomics: PrecDec::from_str(s).unwrap().atomics().to_be_bytes() }
}

fn maxbtc_config() -> maxbtc_oracle::Config {
    let (config, _) = maxbtc_oracle::instantiate(&maxbtc_oracle::InstantiateMsg {
        initial_owners: vec!["alice".to_string(), "bob".to_string()],
        maxbtc_redemption_rate: dec("1.05"),
        maxbtc_denom: "umaxbtc".to_string(),
        lst_denom: "ulst".to_string(),
        lst_redemption_rate: dec("1.000000000000000000123"),
    });
    config
}

#[test]
fn normalize_price_cases() {
    assert_eq!(normalize_price(1234567, 6).unwrap().atomics, dec("1.234567").atomics);
    assert_eq!(normalize_price(1234567, 2).unwrap().atomics, dec("12345.67").atomics);
    assert_eq!(normalize_price(1234567, 0).unwrap().atomics, dec("1234567").atomics);
    assert_eq!(
        normalize_price(1234567890098764321, 12).unwrap().atomics,
        dec("1234567.890098764321").atomics
    );
    assert_eq!(normalize_price(0, 6).unwrap().atomics, dec("0").atomics);
    assert!(matches!(normalize_price(-1234567, 6).unwrap_err(), OracleError::PriceIsNegative));
}

#[test]
fn decimal_text_matches_precdec_display() {
    for s in ["0", "1", "1.5", "0.000000000000000000000000001", "123456.789", "10"] {
        let d = dec(s);
        assert_eq!(dec_debug(d), format!("{:?}", PrecDec::from_str(s).unwrap()));
    }
    assert_eq!(dec_debug(dec("2.50")), "PrecDec(2.5)");
}

#[test]
fn lst_oracle_keeps_its_rate() {
    let (mut config, attrs) = lst_oracle::instantiate(lst_oracle::InstantiateMsg {
        owner: "owner".to_string(),
        lst_asset_denom: "dNTRN".to_string(),
        redemption_rate: dec("1.1"),
    });
    assert_eq!(attrs[0].value, "instantiate");
    assert_eq!(attrs[1].key, "redemption rate");
    assert_eq!(attrs[1].value, "PrecDec(1.1)");
    let attrs = lst_oracle::execute_update_config(
        &mut config,
        lst_oracle::UpdateConfig { lst_asset_denom: None, redemption_rate: Some(dec("1.25")) },
    );
    assert_eq!(config.lst_asset_denom, "dNTRN");
    assert_eq!(config.redemption_rate.atomics, dec("1.25").atomics);
    assert_eq!(attrs[1].value, "\"dNTRN\"");
    assert_eq!(attrs[2].value, "PrecDec(1.25)");
}

#[test]
fn maxbtc_instantiate_reports_rates() {
    let (_, attrs) = maxbtc_oracle::instantiate(&maxbtc_oracle::InstantiateMsg {
        initial_owners: vec!["alice".to_string()],
        maxbtc_redemption_rate: dec("1.05"),
        maxbtc_denom: "umaxbtc".to_string(),
        lst_denom: "ulst".to_string(),
        lst_redemption_rate: dec("2"),
    });
    let pairs: Vec<(String, String)> = attrs.iter().map(|a| (a.key.clone(), a.value.clone())).collect();
    assert_eq!(
        pairs,
        vec![
            ("action".to_string(), "instantiate".to_string()),
            ("maxbtc_redemption_rate".to_string(), "PrecDec(1.05)".to_string()),
            ("maxbtc_denom".to_string(), "\"umaxbtc\"".to_string()),
            ("lst_denom".to_string(), "\"ulst\"".to_string()),
            ("lst_redemption_rate".to_string(), "PrecDec(2)".to_string()),
        ]
    );
}

#[test]
fn maxbtc_update_needs_an_owner() {
    let mut config = maxbtc_config();
    let update = maxbtc_oracle::UpdateConfig {
        owners: Some(vec!["carol".to_string()]),
        maxbtc_redemption_rate: None,
        maxbtc_denom: Some("unew".to_string()),
        lst_denom: None,
        lst_redemption_rate: None,
    };
    let err = maxbtc_oracle::execute_update_config(&mut config, &"mallory".to_string(), update.clone()).unwrap_err();
    assert_eq!(err, maxbtc_oracle::ContractError::Unauthorized);
    assert_eq!(config.maxbtc_denom, "umaxbtc");
    let attrs = maxbtc_oracle::execute_update_config(&mut config, &"bob".to_string(), update).unwrap();
    assert_eq!(config.owners, vec!["carol".to_string()]);
    assert_eq!(config.maxbtc_denom, "unew");
    assert_eq!(attrs[1].key, "owners");
    assert_eq!(attrs[1].value, "[Addr(\"carol\")]");
    assert_eq!(attrs.len(), 6);
}

#[test]
fn maxbtc_owners_are_checked() {
    let config = maxbtc_config();
    assert!(maxbtc_oracle::is_owner(&config, &"alice".to_string()));
    assert!(!maxbtc_oracle::is_owner(&config, &"carol".to_string()));
}

#[test]
fn rates_convert_to_cosmwasm_decimals() {
    // 1.05 has few enough fractional digits for an 18-digit decimal
    assert_eq!(maxbtc_oracle::rate_as_decimal(dec("1.05")).unwrap(), 1_050_000_000_000_000_000);
    // 21 fractional digits do not fit
    let err = maxbtc_oracle::rate_as_decimal(dec("1.000000000000000000123")).unwrap_err();
    assert_eq!(err, maxbtc_oracle::ContractError::DecimalConversionError);
    assert_eq!(maxbtc_oracle::parsed_rate(Some(7)).unwrap(), 7);
    assert!(maxbtc_oracle::parsed_rate(None).is_err());
}

#[test]
fn slinky_migrates_only_from_itself() {
    let attrs = slinky_oracle::instantiate_attributes("crates.io:slinky", "1.0.0");
    assert_eq!(attrs[1].value, "crates.io:slinky");
    let err = slinky_oracle::migrate(&"other".to_string(), &"0.1.0".to_string(), "crates.io:slinky", "1.0.0")
        .unwrap_err();
    assert_eq!(err, slinky_oracle::ContractError::InvalidMigration { previous_contract: "other".to_string() });
    let attrs =
        slinky_oracle::migrate(&"crates.io:slinky".to_string(), &"0.1.0".to_string(), "crates.io:slinky", "1.0.0")
            .unwrap();
    assert_eq!(attrs[0].value, "migrate");
    assert_eq!(attrs[1].value, "0.1.0");
    assert_eq!(attrs[2].value, "1.0.0");
}
