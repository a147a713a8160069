use std::str::FromStr;

use cosmwasm_std::testing::mock_env;
use neutron_std::types::neutron::util::precdec::PrecDec;
use neutron_vaults::coin::Coin;
use neutron_vaults::mmvault::contract::check_execute_funds;
use neutron_vaults::mmvault::error::ContractError;
use neutron_vaults::mmvault::execute::{
    dex_deposit_authorize, dex_deposit_prepare, dex_deposit_response, dex_withdrawal, ensure_no_active_deposits,
};
use neutron_vaults::mmvault::msg::{CombinedPriceResponse, DexDeposit, ExecuteMsg, UserDeposit, VaultMsg, VaultResponse};
use neutron_vaults::mmvault::state::{Config, CurrencyPair, FeeTier, FeeTierConfig, PairData, TokenData};
use neutron_vaults::precdec::Dec;

fn dec(s: &str) -> Dec {
    Dec { atomics: PrecDec::from_str(s).unwrap().atomics().to_be_bytes() }
}

fn prices(p0: &str, p1: &str, ratio: &str) -> CombinedPriceResponse {
    CombinedPriceResponse { token_0_price: dec(p0), token_1_price: dec(p1), price_0_to_1: dec(ratio) }
}

fn now() -> u64 {
    mock_env().block.time.seconds()
}

fn height() -> u64 {
    mock_env().block.height
}

fn token(denom: &str, base: &str) -> TokenData {
    TokenData {
        denom: denom.to_string(),
        decimals: 6,
        max_blocks_old: 100,
        pair: CurrencyPair { base: base.to_string(), quote: "USD".to_string() },
    }
}

fn as_u128(x: impl std::fmt::Display) -> u128 {
    x.to_string().parse().unwrap()
}

fn tier(fee: u64, percentage: u64) -> FeeTier {
    FeeTier { fee, percentage }
}

fn setup_test_config() -> Config {
    Config {
        oracle_contract: "oracle".to_string(),
        lp_denom: "factory/contract/lp".to_string(),
        pair_data: PairData {
            token_0: token("token0", "TOKEN0"),
            token_1: token("token1", "TOKEN1"),
            pair_id: "token0<>token1".to_string(),
        },
        total_shares: 0,
        whitelist: vec!["owner".to_string()],
        deposit_cap: 1000000,
        fee_tier_config: FeeTierConfig { fee_tiers: vec![tier(5, 60), tier(10, 30), tier(150, 10)] },
        last_executed: now(),
        timestamp_stale: 1000000,
        paused: false,
        pause_block: 0,
        skew: 0,
        imbalance: 50,
        oracle_price_skew: 0,
        dynamic_spread_factor: 0,
        dynamic_spread_cap: 0,
    }
}

fn position(shares: &str, fee: u64) -> UserDeposit {
    UserDeposit { shares_owned: shares.to_string(), center_tick_index: 0, fee }
}

/// The first step of a privileged DEX deposit, as the entry point runs it:
/// no funds, the staleness, pause and whitelist checks, no open position.
fn dex_deposit_execute(
    config: &mut Config,
    sender: &str,
    funds: Vec<Coin>,
    positions: &Vec<UserDeposit>,
) -> Result<Option<Vec<VaultMsg>>, ContractError> {
    check_execute_funds(&ExecuteMsg::DexDeposit {}, config, &funds)?;
    let step = dex_deposit_authorize(config, now(), height(), &sender.to_string(), &funds)?;
    if step.is_none() {
        ensure_no_active_deposits(positions)?;
    }
    Ok(step)
}

/// The execute step's answer once authorized, at even prices and balances
/// of 1_000_000: one attribute, and the two clearing orders as sub-messages
/// with reply ids 3 and 4.
fn check_prepared(config: &Config) {
    let res = dex_deposit_prepare(config, 0, prices("1.0", "1.0", "1.0"), 1000000, 1000000).unwrap();
    assert_eq!(res.attributes.len(), 1);
    assert_eq!(res.attributes[0].key, "action");
    assert_eq!(res.attributes[0].value, "prepare_dex_deposit");
    assert!(res.messages.is_empty());
    assert_eq!(res.submessages.len(), 2);
    for (i, sub) in res.submessages.iter().enumerate() {
        assert_eq!(sub.id, 3 + i as u64);
        assert!(sub.reply_on_success);
        assert!(matches!(sub.msg, VaultMsg::PlaceLimitOrder(_)));
    }
}

fn deposits_of(res: &VaultResponse) -> Vec<DexDeposit> {
    res.messages
        .iter()
        .map(|m| match m {
            VaultMsg::Deposit(d) => d.clone(),
            other => panic!("Expected a DEX deposit, got {:?}", other),
        })
        .collect()
}

/// Every deposit is of the vault's pair, at `tick`, with autoswap left on.
fn check_deposit(d: &DexDeposit, fee: u64, amount0: u128, amount1: u128, tick: i64) {
    assert_eq!(d.token_a, "token0");
    assert_eq!(d.token_b, "token1");
    assert_eq!(d.amount_a, amount0);
    assert_eq!(d.amount_b, amount1);
    assert_eq!(d.tick_index, tick);
    assert_eq!(d.fee, fee);
    assert!(d.swap_on_deposit);
}

fn check_dex_deposit_attributes(res: &VaultResponse) {
    assert_eq!(res.attributes.len(), 3);
    assert_eq!(res.attributes[0].key, "action");
    assert_eq!(res.attributes[0].value, "dex_deposit");
}

/// Balances of 1_000_000 of each token at even prices: each tier gets its
/// percentage of both balances.
fn even_values_case(tiers: Vec<FeeTier>, expected: Vec<FeeTier>) {
    let mut config = setup_test_config();
    config.fee_tier_config.fee_tiers = tiers;
    let res = dex_deposit_response(&config, 0, prices("1.0", "1.0", "1.0"), 1000000, 1000000).unwrap();
    check_dex_deposit_attributes(&res);
    assert!(!res.messages.is_empty());
    let deposits = deposits_of(&res);
    assert_eq!(deposits.len(), expected.len());
    for (d, t) in deposits.iter().zip(expected.iter()) {
        let expected_amount = (1000000u128 * t.percentage as u128) / 100;
        check_deposit(d, t.fee, expected_amount, expected_amount, 0);
    }
}

#[test]
fn test_dex_deposit_success_even_values_1_fee_tier() {
    let mut config = setup_test_config();
    config.fee_tier_config.fee_tiers = vec![tier(5, 100)];
    let step = dex_deposit_execute(&mut config, "owner", vec![], &vec![]).unwrap();
    assert!(step.is_none());
    check_prepared(&config);
    even_values_case(vec![tier(5, 100)], vec![tier(5, 100)]);
}

#[test]
fn test_dex_deposit_success_even_values_2_fee_tiers() {
    let mut config = setup_test_config();
    config.fee_tier_config.fee_tiers = vec![tier(5, 60), tier(10, 40)];
    let step = dex_deposit_execute(&mut config, "owner", vec![], &vec![]).unwrap();
    assert!(step.is_none());
    check_prepared(&config);
    even_values_case(vec![tier(5, 60), tier(10, 40)], vec![tier(5, 60), tier(10, 40)]);
}

#[test]
fn test_dex_deposit_success_even_values_3_fee_tiers() {
    let tiers = setup_test_config().fee_tier_config.fee_tiers;
    even_values_case(tiers.clone(), tiers);
}

#[test]
fn test_dex_deposit_success_even_values_4_fee_tiers() {
    let tiers = vec![tier(5, 15), tier(10, 20), tier(150, 30), tier(200, 35)];
    even_values_case(tiers.clone(), tiers);
}

#[test]
fn test_dex_deposit_success_even_values_zero_first_percentage() {
    let tiers = vec![tier(5, 0), tier(10, 30), tier(150, 40), tier(200, 30)];
    even_values_case(tiers.clone(), tiers[1..].to_vec());
}

#[test]
fn test_dex_deposit_success_even_values_zero_percentage() {
    let tiers = vec![tier(5, 30), tier(10, 0), tier(150, 40), tier(200, 30)];
    even_values_case(tiers, vec![tier(5, 30), tier(150, 40), tier(200, 30)]);
}

#[test]
fn test_dex_deposit_success_even_values_zero_multiple_percentages() {
    let tiers = vec![tier(5, 0), tier(10, 0), tier(150, 100), tier(200, 0)];
    even_values_case(tiers, vec![tier(150, 100)]);
}

#[test]
fn test_dex_deposit_success_uneven_prices() {
    let token0_amount = 100000000u128;
    let token1_amount = 100000000u128;
    let price_response = prices("2.0", "1.0", "2.0");
    // the tick of a 0->1 price of 2.0
    let expected_tick_index = -6932;
    let mut config = setup_test_config();
    config.fee_tier_config.fee_tiers = vec![tier(5, 10), tier(10, 20), tier(150, 30), tier(200, 40)];
    let res = dex_deposit_response(&config, expected_tick_index, price_response, token0_amount, token1_amount)
        .unwrap();
    check_dex_deposit_attributes(&res);
    let deposits = deposits_of(&res);
    assert_eq!(deposits.len(), config.fee_tier_config.fee_tiers.len());

    let p0 = PrecDec::from_str("2.0").unwrap();
    let p1 = PrecDec::from_str("1.0").unwrap();
    let token_0_value = PrecDec::from_atomics(token0_amount, 0).unwrap().checked_mul(p0).unwrap();
    let token_1_value = PrecDec::from_atomics(token1_amount, 0).unwrap().checked_mul(p1).unwrap();
    let tiers = &config.fee_tier_config.fee_tiers;
    let computed_amount_0 = token0_amount * tiers[0].percentage as u128 / 100;
    let computed_amount_1 = token1_amount * tiers[0].percentage as u128 / 100;
    let imbalance = (token_0_value - token_1_value) * PrecDec::percent(config.imbalance);
    let additional_amount_0 = imbalance / p0;
    let final_amount_0 = PrecDec::from_atomics(computed_amount_0, 0).unwrap() + additional_amount_0;
    let final_amount_1 = PrecDec::from_atomics(computed_amount_1, 0).unwrap();
    let mut allocations: Vec<(u128, u128)> = vec![(
        as_u128(final_amount_0.to_uint_floor()),
        as_u128(final_amount_1.to_uint_floor()),
    )];
    let remaining_0 = (PrecDec::from_atomics(token0_amount, 0).unwrap() - final_amount_0).to_uint_floor();
    let remaining_1 = (PrecDec::from_atomics(token1_amount, 0).unwrap() - final_amount_1).to_uint_floor();
    let remaining_percentage = 90u128;
    for t in tiers.iter().skip(1) {
        allocations.push((
            as_u128(remaining_0.multiply_ratio(t.percentage as u128, remaining_percentage)),
            as_u128(remaining_1.multiply_ratio(t.percentage as u128, remaining_percentage)),
        ));
    }
    for (i, d) in deposits.iter().enumerate() {
        assert_eq!(d.token_a, "token0");
        assert_eq!(d.token_b, "token1");
        if i == 3 {
            assert!(
                d.amount_a.abs_diff(allocations[i].0) <= 2,
                "Token0 amount difference too large: expected {} but got {}",
                allocations[i].0,
                d.amount_a
            );
        } else {
            assert_eq!(d.amount_a, allocations[i].0);
        }
        assert_eq!(d.amount_b, allocations[i].1);
        assert_eq!(d.tick_index, expected_tick_index);
        assert_eq!(d.fee, tiers[i].fee);
        assert!(d.swap_on_deposit);
    }
}

#[test]
fn test_dex_deposit_unauthorized() {
    let mut config = setup_test_config();
    let err = dex_deposit_execute(&mut config, "random_user", vec![], &vec![]).unwrap_err();
    assert!(matches!(err, ContractError::Unauthorized));
}

#[test]
fn test_dex_deposit_paused() {
    let mut config = setup_test_config();
    config.paused = true;
    let err = dex_deposit_execute(&mut config, "owner", vec![], &vec![]).unwrap_err();
    assert!(matches!(err, ContractError::Paused));
}

#[test]
fn test_dex_deposit_with_funds() {
    let mut config = setup_test_config();
    let funds = vec![Coin { denom: "token0".to_string(), amount: 100 }];
    let err = dex_deposit_execute(&mut config, "owner", funds, &vec![]).unwrap_err();
    assert!(matches!(err, ContractError::FundsNotAllowed));
}

#[test]
fn test_dex_deposit_active_deposits_exist() {
    let mut config = setup_test_config();
    let positions = vec![position("500000", 100)];
    let err = dex_deposit_execute(&mut config, "owner", vec![], &positions).unwrap_err();
    assert!(matches!(err, ContractError::ActiveDepositsExist));
}

#[test]
fn test_dex_deposit_with_skew() {
    let mut config = setup_test_config();
    config.skew = 1;
    let res = dex_deposit_response(&config, 0, prices("1.0", "1.0", "1.0"), 800000, 200000).unwrap();
    check_dex_deposit_attributes(&res);
    assert!(!res.messages.is_empty());
}

#[test]
fn test_dex_deposit_with_high_imbalance() {
    let mut config = setup_test_config();
    config.fee_tier_config.fee_tiers = vec![tier(10, 30), tier(150, 70)];
    config.skew = 0;
    let price_response = prices("0.0000001520304", "0.000001", "0.1520304");
    let res = dex_deposit_response(&config, 0, price_response, 5, 38384947153).unwrap();
    check_dex_deposit_attributes(&res);
    assert!(!res.messages.is_empty());
}

#[test]
fn test_dex_deposit_staleness_check() {
    let mut config = setup_test_config();
    config.timestamp_stale = 100;
    config.last_executed = now() - 200;
    let step = dex_deposit_execute(&mut config, "owner", vec![], &vec![]).unwrap();
    let refunds = step.expect("a stale vault answers at once");
    assert!(refunds.is_empty());
}

#[test]
fn test_handle_dex_deposit_reply_success() {
    let mut config = setup_test_config();
    let step = dex_deposit_execute(&mut config, "owner", vec![], &vec![]).unwrap();
    assert!(step.is_none());
    check_prepared(&config);
    assert_eq!(config.last_executed, now());
}

#[test]
fn test_dex_deposit_execute_success() {
    let mut config = setup_test_config();
    let step = dex_deposit_execute(&mut config, "owner", vec![], &vec![]).unwrap();
    assert!(step.is_none());
    check_prepared(&config);
    let res = dex_deposit_prepare(&config, 0, prices("1.0", "1.0", "1.0"), 1000000, 1000000).unwrap();
    let orders: Vec<_> = res
        .submessages
        .iter()
        .map(|s| match &s.msg {
            VaultMsg::PlaceLimitOrder(o) => o.clone(),
            other => panic!("Expected a limit order, got {:?}", other),
        })
        .collect();
    assert_eq!(orders.len(), 2);
    assert_eq!(orders[0].token_in, "token0");
    assert_eq!(orders[0].token_out, "token1");
    assert_eq!(orders[0].tick_index_in_to_out, 5);
    assert_eq!(orders[0].amount_in, 1000000);
    assert_eq!(orders[1].token_in, "token1");
    assert_eq!(orders[1].token_out, "token0");
    assert_eq!(orders[1].tick_index_in_to_out, 5);
    assert_eq!(orders[1].amount_in, 1000000);
    assert_eq!(config.last_executed, now());
}

#[test]
fn test_dex_deposit_with_empty_balances() {
    let config = setup_test_config();
    let res = dex_deposit_response(&config, 0, prices("1.0", "1.0", "1.0"), 0, 0).unwrap();
    assert_eq!(res.messages.len(), 0);
    check_dex_deposit_attributes(&res);
}

#[test]
fn dex_deposit_attributes_report_balances() {
    let config = setup_test_config();
    let res = dex_deposit_response(&config, 0, prices("1.0", "1.0", "1.0"), 1234, 5678).unwrap();
    assert_eq!(res.attributes[1].key, "token_0_balance");
    assert_eq!(res.attributes[1].value, "1234");
    assert_eq!(res.attributes[2].key, "token_1_balance");
    assert_eq!(res.attributes[2].value, "5678");
}

#[test]
fn dex_deposit_of_a_paused_vault_places_nothing() {
    let mut config = setup_test_config();
    config.paused = true;
    let res = dex_deposit_response(&config, 0, prices("1.0", "1.0", "1.0"), 1000, 1000).unwrap();
    assert!(res.messages.is_empty());
}

#[test]
fn dex_deposits_place_the_whole_balances() {
    let mut config = setup_test_config();
    config.fee_tier_config.fee_tiers = vec![tier(5, 33), tier(10, 33), tier(150, 34)];
    let res = dex_deposit_response(&config, 0, prices("1.5", "0.7", "2.0"), 1000003, 777777).unwrap();
    let deposits = deposits_of(&res);
    let sum0: u128 = deposits.iter().map(|d| d.amount_a).sum();
    let sum1: u128 = deposits.iter().map(|d| d.amount_b).sum();
    assert_eq!(sum0, 1000003);
    assert_eq!(sum1, 777777);
}

#[test]
fn test_dex_withdrawal_success() {
    let config = setup_test_config();
    let positions = vec![position("500000", 100), position("500000", 500)];
    let res = dex_withdrawal(&config, &"owner".to_string(), &positions).unwrap();
    assert_eq!(res.attributes.len(), 1);
    assert_eq!(res.attributes[0].key, "action");
    assert_eq!(res.attributes[0].value, "dex_withdrawal");
    assert_eq!(res.messages.len(), 2);
    for (msg, p) in res.messages.iter().zip(positions.iter()) {
        match msg {
            VaultMsg::Withdrawal(w) => {
                assert_eq!(w.token_a, "token0");
                assert_eq!(w.token_b, "token1");
                assert_eq!(w.shares_to_remove, p.shares_owned);
                assert_eq!(w.tick_index, p.center_tick_index);
                assert_eq!(w.fee, p.fee);
            },
            other => panic!("Expected a DEX withdrawal, got {:?}", other),
        }
    }
}

#[test]
fn test_dex_withdrawal_no_active_deposits() {
    let config = setup_test_config();
    let res = dex_withdrawal(&config, &"owner".to_string(), &vec![]).unwrap();
    assert_eq!(res.attributes.len(), 1);
    assert_eq!(res.attributes[0].key, "action");
    assert_eq!(res.attributes[0].value, "dex_withdrawal");
    assert_eq!(res.messages.len(), 0);
}

#[test]
fn test_dex_withdrawal_unauthorized() {
    let mut config = setup_test_config();
    config.whitelist = vec!["owner".to_string()];
    let err = dex_withdrawal(&config, &"unauthorized_user".to_string(), &vec![]).unwrap_err();
    assert!(matches!(err, ContractError::Unauthorized));
}

#[test]
fn test_dex_withdrawal_with_funds() {
    let config = setup_test_config();
    let funds = vec![Coin { denom: "token0".to_string(), amount: 100 }];
    let err = check_execute_funds(&ExecuteMsg::DexWithdrawal {}, &config, &funds).unwrap_err();
    assert!(matches!(err, ContractError::FundsNotAllowed));
}

#[test]
fn test_dex_withdrawal_multiple_deposits_different_fees() {
    let config = setup_test_config();
    let positions = vec![position("300000", 100), position("300000", 500), position("400000", 3000)];
    let res = dex_withdrawal(&config, &"owner".to_string(), &positions).unwrap();
    assert_eq!(res.attributes.len(), 1);
    assert_eq!(res.attributes[0].key, "action");
    assert_eq!(res.attributes[0].value, "dex_withdrawal");
    assert_eq!(res.messages.len(), 3);
    for msg in res.messages.iter() {
        assert!(matches!(msg, VaultMsg::Withdrawal(_)));
    }
}
