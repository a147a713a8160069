use neutron_vaults::dasset_updator::contract::start_vault_update;
use neutron_vaults::dasset_updator::state::Config;
use neutron_vaults::dasset_updator::contract::{asset_attributes, AssetRate};
use neutron_vaults::dasset_updator::contract::create_vault_update_message;
use neutron_vaults::dasset_updator::error::ContractError;
use neutron_vaults::dasset_updator::msg::{AssetData, InstantiateMsg, UpdateConfig};
use neutron_vaults::dasset_updator::utils::{
    create_fee_tiers, dampen_fee, oracle_skew_for, validate_asset_config, validate_instantiate_msg,
    validate_update_config, FeeTier,
};

fn asset(denom: &str, core: &str, unbonding: u64, spacings: Vec<u64>, percentages: Vec<u64>, vault: &str) -> AssetData {
    AssetData {
        denom: denom.to_string(),
        core_contract: core.to_string(),
        unbonding_period: unbonding,
        fee_spacings: spacings,
        percentages,
        vault_address: vault.to_string(),
        query_period_hours: 24,
        fee_dempening_amount: 0,
    }
}

fn valid_asset() -> AssetData {
    asset("factory/neutron1test/udtest", "neutron1test_core", 21, vec![0, 10], vec![35, 65], "neutron1test_vault")
}

#[test]
fn test_create_fee_tiers() {
    let calculated_base_fee = 30;
    let fee_tier_values = vec![0, 10];
    let percentages = vec![35, 65];
    let fee_tiers = create_fee_tiers(calculated_base_fee, &fee_tier_values, &percentages).unwrap();
    assert_eq!(fee_tiers.len(), 2);
    assert_eq!(fee_tiers[0].fee, 30);
    assert_eq!(fee_tiers[0].percentage, 35);
    assert_eq!(fee_tiers[1].fee, 40);
    assert_eq!(fee_tiers[1].percentage, 65);
}

#[test]
fn test_create_fee_tiers_invalid_percentages() {
    let result = create_fee_tiers(30, &[0, 10], &[35, 70]);
    assert!(result.is_err());
    match result.unwrap_err() {
        ContractError::InvalidFeeTier { reason } => {
            assert!(reason.contains("sum to 100"));
        }
        _ => panic!("Expected InvalidFeeTier error"),
    }
}

#[test]
fn test_create_fee_tiers_mismatched_lengths() {
    let result = create_fee_tiers(30, &[0, 10, 20], &[35, 65]);
    assert!(result.is_err());
    match result.unwrap_err() {
        ContractError::InvalidFeeTier { reason } => {
            assert!(reason.contains("match number of fee tier values"));
        }
        _ => panic!("Expected InvalidFeeTier error"),
    }
}

#[test]
fn test_create_fee_tiers_with_calculated_apy_bases() {
    let test_scenarios: Vec<(u64, Vec<u64>, Vec<u64>)> = vec![
        (14, vec![0, 5, 10], vec![50, 30, 20]),
        (43, vec![0, 2, 7], vec![60, 25, 15]),
        (72, vec![0, 1, 3, 8], vec![40, 30, 20, 10]),
    ];
    for (base_fee, fee_spacings, percentages) in test_scenarios {
        let fee_tiers = create_fee_tiers(base_fee, &fee_spacings, &percentages).unwrap();
        assert_eq!(fee_tiers.len(), fee_spacings.len());
        for (i, tier) in fee_tiers.iter().enumerate() {
            assert_eq!(tier.fee, base_fee + fee_spacings[i]);
            assert_eq!(tier.percentage, percentages[i]);
        }
        let total_percentage: u64 = fee_tiers.iter().map(|t| t.percentage).sum();
        assert_eq!(total_percentage, 100);
    }
}

#[test]
fn test_validate_asset_config_valid() {
    let result = validate_asset_config(&valid_asset());
    assert!(result.is_ok(), "Valid asset should pass validation");
}

#[test]
fn test_validate_asset_config_invalid_unbonding_period() {
    let mut asset = valid_asset();
    asset.unbonding_period = 0;
    let result = validate_asset_config(&asset);
    assert!(result.is_err());
    asset.unbonding_period = 400;
    let result = validate_asset_config(&asset);
    assert!(result.is_err());
}

#[test]
fn test_validate_asset_config_mismatched_lengths() {
    let mut asset = valid_asset();
    asset.fee_spacings = vec![0, 10, 20];
    let result = validate_asset_config(&asset);
    assert!(result.is_err());
    if let Err(ContractError::InvalidAssetConfig { reason }) = result {
        assert!(reason.contains("length"));
    } else {
        panic!("Expected InvalidAssetConfig error");
    }
}

#[test]
fn test_validate_asset_config_invalid_percentages() {
    let mut asset1 = valid_asset();
    asset1.percentages = vec![35, 70];
    assert!(validate_asset_config(&asset1).is_err());
    let mut asset2 = valid_asset();
    asset2.percentages = vec![0, 100];
    assert!(validate_asset_config(&asset2).is_err());
    let mut asset3 = valid_asset();
    asset3.fee_spacings = vec![0];
    asset3.percentages = vec![150];
    assert!(validate_asset_config(&asset3).is_err());
}

#[test]
fn test_validate_asset_config_empty_fields() {
    let mut asset1 = valid_asset();
    asset1.denom = "".to_string();
    assert!(validate_asset_config(&asset1).is_err());
    let mut asset2 = valid_asset();
    asset2.core_contract = "".to_string();
    assert!(validate_asset_config(&asset2).is_err());
    let mut asset3 = valid_asset();
    asset3.vault_address = "".to_string();
    assert!(validate_asset_config(&asset3).is_err());
}

#[test]
fn test_validate_asset_config_extreme_values() {
    let mut asset1 = valid_asset();
    asset1.fee_spacings = vec![0, 1500];
    assert!(validate_asset_config(&asset1).is_err());
    let mut asset2 = valid_asset();
    asset2.query_period_hours = 200;
    assert!(validate_asset_config(&asset2).is_err());
    let mut asset3 = valid_asset();
    asset3.fee_dempening_amount = 600;
    assert!(validate_asset_config(&asset3).is_err());
}

#[test]
fn test_validate_instantiate_msg_duplicates() {
    let asset1 = valid_asset();
    let mut asset2 = valid_asset();
    asset2.core_contract = "neutron1test_core2".to_string();
    let msg = InstantiateMsg {
        assets: vec![asset1, asset2],
        apy_contract: "neutron1test_apy".to_string(),
        whitelist: vec!["neutron1admin1".to_string(), "neutron1admin2".to_string()],
    };
    let result = validate_instantiate_msg(&msg);
    assert!(result.is_err());
}

#[test]
fn test_validate_instantiate_msg_valid() {
    let asset1 = asset(
        "factory/neutron1test/udtest1",
        "neutron1test_core1",
        21,
        vec![0, 10],
        vec![35, 65],
        "neutron1test_vault1",
    );
    let mut asset2 = asset(
        "factory/neutron1test/udtest2",
        "neutron1test_core2",
        21,
        vec![0, 5, 15],
        vec![50, 30, 20],
        "neutron1test_vault2",
    );
    asset2.query_period_hours = 72;
    asset2.fee_dempening_amount = 10;
    let msg = InstantiateMsg {
        assets: vec![asset1, asset2],
        apy_contract: "neutron1test_apy".to_string(),
        whitelist: vec!["neutron1admin1".to_string(), "neutron1admin2".to_string()],
    };
    let result = validate_instantiate_msg(&msg);
    assert!(result.is_ok(), "Valid instantiate message should pass validation");
}

#[test]
fn test_validate_update_config_valid_assets_only() {
    let update_config = UpdateConfig { new_assets: Some(vec![valid_asset()]), new_apy_contract: None, new_whitelist: None };
    assert!(validate_update_config(&update_config).is_ok(), "Valid update config should pass validation");
}

#[test]
fn test_validate_update_config_valid_apy_only() {
    let update_config =
        UpdateConfig { new_assets: None, new_apy_contract: Some("neutron1test_apy".to_string()), new_whitelist: None };
    assert!(validate_update_config(&update_config).is_ok(), "Valid APY update should pass validation");
}

#[test]
fn test_validate_update_config_empty_assets() {
    let update_config = UpdateConfig { new_assets: Some(vec![]), new_apy_contract: None, new_whitelist: None };
    assert!(validate_update_config(&update_config).is_err(), "Empty assets should fail validation");
}

#[test]
fn test_validate_update_config_empty_apy_contract() {
    let update_config = UpdateConfig { new_assets: None, new_apy_contract: Some("".to_string()), new_whitelist: None };
    assert!(validate_update_config(&update_config).is_err(), "Empty APY contract should fail validation");
}

#[test]
fn test_validate_update_config_invalid_assets() {
    let mut invalid_asset = valid_asset();
    invalid_asset.unbonding_period = 0;
    let update_config = UpdateConfig { new_assets: Some(vec![invalid_asset]), new_apy_contract: None, new_whitelist: None };
    assert!(validate_update_config(&update_config).is_err(), "Invalid asset should fail validation");
}

#[test]
fn test_validate_update_config_both_fields() {
    let update_config = UpdateConfig {
        new_assets: Some(vec![valid_asset()]),
        new_apy_contract: Some("neutron1test_apy".to_string()),
        new_whitelist: None,
    };
    assert!(validate_update_config(&update_config).is_ok(), "Valid update config with both fields should pass validation");
}

#[test]
fn test_validate_update_config_new_whitelist() {
    let new_whitelist =
        vec!["neutron1admin1".to_string(), "neutron1admin2".to_string(), "neutron1admin3".to_string()];
    let update_config = UpdateConfig { new_assets: None, new_apy_contract: None, new_whitelist: Some(new_whitelist) };
    assert!(validate_update_config(&update_config).is_ok(), "Valid whitelist update should pass validation");
}

#[test]
fn vault_update_message_carries_tiers_and_skew() {
    let tiers = vec![FeeTier::new(30, 35), FeeTier::new(40, 65)];
    let msg = create_vault_update_message("neutron1vault", &tiers, -31, "neutron1sender").unwrap();
    assert_eq!(msg.contract_addr, "neutron1vault");
    let text = String::from_utf8(msg.msg).unwrap();
    assert_eq!(
        text,
        r#"{"update_config":{"update":{"fee_tier_config":{"fee_tiers":[{"fee":30,"percentage":35},{"fee":40,"percentage":65}]},"oracle_price_skew":-31}}}"#
    );
}

#[test]
fn dampening_applies_only_above_the_amount() {
    assert_eq!(dampen_fee(28, 10), 18);
    assert_eq!(dampen_fee(5, 10), 5);
}

#[test]
fn oracle_skew_is_one_past_the_base_fee() {
    assert_eq!(oracle_skew_for(30), 31);
}

#[test]
fn vault_update_starts_only_for_the_whitelist() {
    let config = Config {
        assets: vec![valid_asset(), valid_asset()],
        apy_contract: "neutron1apy".to_string(),
        whitelist: vec!["neutron1runner".to_string()],
    };
    let attrs = start_vault_update(&config, &"neutron1runner".to_string()).unwrap();
    let pairs: Vec<(&str, &str)> = attrs.iter().map(|a| (a.key.as_str(), a.value.as_str())).collect();
    assert_eq!(pairs, vec![("action", "run_vault_update"), ("vault_count", "2")]);
    assert!(matches!(start_vault_update(&config, &"neutron1other".to_string()).unwrap_err(), ContractError::Unauthorized));
}

#[test]
fn asset_attributes_report_the_schedule() {
    let mut a = valid_asset();
    a.denom = "udatom".to_string();
    a.fee_dempening_amount = 5;
    let attrs = asset_attributes(&a, AssetRate { apy_is_zero: false, raw_fee: 30 }, &"0.12".to_string());
    let pairs: Vec<(&str, &str)> = attrs.iter().map(|x| (x.key.as_str(), x.value.as_str())).collect();
    assert_eq!(
        pairs,
        vec![
            ("vault_udatom_apy", "0.12"),
            ("vault_udatom_base_fee", "25"),
            ("vault_udatom_oracle_skew", "26"),
            ("vault_udatom_action", "full_update"),
        ]
    );
    let zero = asset_attributes(&a, AssetRate { apy_is_zero: true, raw_fee: 0 }, &"0".to_string());
    let pairs: Vec<(&str, &str)> = zero.iter().map(|x| (x.key.as_str(), x.value.as_str())).collect();
    assert_eq!(
        pairs,
        vec![("vault_udatom_apy", "0"), ("vault_udatom_action", "withdrawal_only"), ("vault_udatom_reason", "zero_apy")]
    );
}
