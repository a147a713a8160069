use std::str::FromStr;

use cosmwasm_std::testing::mock_env;
use neutron_std::types::neutron::util::precdec::PrecDec;
use neutron_vaults::coin::Coin;
use neutron_vaults::mmvault::error::ContractError;
use neutron_vaults::mmvault::execute::{deposit_finish, deposit_funds, withdraw_direct, DepositStep};
use neutron_vaults::mmvault::msg::{CombinedPriceResponse, VaultMsg, VaultResponse};
use neutron_vaults::mmvault::state::{
    Config, CurrencyPair, FeeTier, FeeTierConfig, PairData, TokenData, SHARES_MULTIPLIER,
};
use neutron_vaults::precdec::Dec;

struct DepositScenario {
    user: String,
    token0_amount: u128,
    token1_amount: u128,
    token0_price: String,
    token1_price: String,
    expected_shares: Option<u128>,
}

struct WithdrawScenario {
    user: String,
    withdraw_amount: u128,
    expected_token0: Option<u128>,
    expected_token1: Option<u128>,
}

fn now() -> u64 {
    mock_env().block.time.seconds()
}

fn height() -> u64 {
    mock_env().block.height
}

fn token(denom: &str, base: &str) -> TokenData {
    TokenData {
        denom: denom.to_string(),
        decimals: 6,
        max_blocks_old: 100,
        pair: CurrencyPair { base: base.to_string(), quote: "USD".to_string() },
    }
}

fn setup_test_config() -> Config {
    Config {
        oracle_contract: "oracle".to_string(),
        lp_denom: "factory/contract/lp".to_string(),
        pair_data: PairData {
            token_0: token("token0", "TOKEN0"),
            token_1: token("token1", "TOKEN1"),
            pair_id: "token0<>token1".to_string(),
        },
        total_shares: 0,
        whitelist: vec!["owner".to_string()],
        deposit_cap: 1000000,
        fee_tier_config: FeeTierConfig {
            fee_tiers: vec![
                FeeTier { fee: 5, percentage: 60 },
                FeeTier { fee: 10, percentage: 30 },
                FeeTier { fee: 150, percentage: 10 },
            ],
        },
        last_executed: now(),
        timestamp_stale: 1000000,
        paused: false,
        pause_block: 0,
        skew: 0,
        imbalance: 50,
        oracle_price_skew: 0,
        dynamic_spread_factor: 0,
        dynamic_spread_cap: 0,
    }
}

fn dec_of(p: PrecDec) -> Dec {
    Dec { atomics: p.atomics().to_be_bytes() }
}

/// The oracle's answer for these two prices: each price, and their ratio.
fn price_response(token0_price: &str, token1_price: &str) -> CombinedPriceResponse {
    let price_0 = PrecDec::from_str(token0_price).unwrap();
    let price_1 = PrecDec::from_str(token1_price).unwrap();
    let ratio = if price_1.is_zero() { PrecDec::from_str("0.0").unwrap() } else { price_0.checked_div(price_1).unwrap() };
    CombinedPriceResponse { token_0_price: dec_of(price_0), token_1_price: dec_of(price_1), price_0_to_1: dec_of(ratio) }
}

fn deposit(
    config: &mut Config,
    sender: &str,
    funds: Vec<Coin>,
    prices: CombinedPriceResponse,
    balance0: u128,
    balance1: u128,
) -> Result<VaultResponse, ContractError> {
    let sender = sender.to_string();
    match deposit_funds(config, now(), height(), &sender, &funds)? {
        DepositStep::Refund(messages) => Ok(VaultResponse { messages, submessages: vec![], attributes: vec![] }),
        DepositStep::Proceed { token0_deposited, token1_deposited } => {
            deposit_finish(config, &sender, &None, token0_deposited, token1_deposited, prices, balance0, balance1)
        },
    }
}

fn attribute(res: &VaultResponse, key: &str) -> u128 {
    res.attributes.iter().find(|a| a.key == key).map(|a| u128::from_str(&a.value).unwrap()).unwrap()
}

fn execute_deposit_sequence(scenarios: Vec<DepositScenario>) {
    let mut config = setup_test_config();
    config.deposit_cap = u128::MAX / 2;
    let mut total_token0 = 0u128;
    let mut total_token1 = 0u128;
    let mut previous_shares = 0u128;
    for (i, scenario) in scenarios.iter().enumerate() {
        total_token0 += scenario.token0_amount;
        total_token1 += scenario.token1_amount;
        let prices = price_response(&scenario.token0_price, &scenario.token1_price);
        let mut funds = vec![];
        if scenario.token0_amount > 0 {
            funds.push(Coin { denom: "token0".to_string(), amount: scenario.token0_amount });
        }
        if scenario.token1_amount > 0 {
            funds.push(Coin { denom: "token1".to_string(), amount: scenario.token1_amount });
        }
        let res = deposit(&mut config, &scenario.user, funds, prices, total_token0, total_token1).unwrap();
        let minted = attribute(&res, "minted_amount");
        let current_shares = config.total_shares;
        if let Some(expected) = scenario.expected_shares {
            assert_eq!(minted, expected, "Scenario {}: Expected {} shares but got {}", i + 1, expected, minted);
        }
        assert_eq!(current_shares, previous_shares + minted, "Total shares should increase by exactly the minted amount");
        previous_shares = current_shares;
    }
}

fn scenario(user: &str, t0: u128, t1: u128, p0: &str, p1: &str, expected: u128) -> DepositScenario {
    DepositScenario {
        user: user.to_string(),
        token0_amount: t0,
        token1_amount: t1,
        token0_price: p0.to_string(),
        token1_price: p1.to_string(),
        expected_shares: Some(expected),
    }
}

const M: u128 = SHARES_MULTIPLIER as u128;

#[test]
fn test_sequential_deposits_equal_price() {
    execute_deposit_sequence(vec![
        scenario("user1", 1000000, 1000000, "1.0", "1.0", 2000000 * M),
        scenario("user2", 500000, 500000, "1.0", "1.0", 1000000 * M),
        scenario("user3", 250000, 250000, "1.0", "1.0", 500000 * M),
    ]);
}

#[test]
fn test_sequential_deposits_changing_price() {
    execute_deposit_sequence(vec![
        scenario("user1", 1000000, 1000000, "1.0", "1.0", 2000000 * M),
        scenario("user2", 1000000, 1000000, "2.0", "1.0", 2000000 * M),
        scenario("user3", 1000000, 1000000, "1.0", "2.0", 2000000 * M),
    ]);
}

#[test]
fn test_sequential_deposits_imbalanced() {
    execute_deposit_sequence(vec![
        scenario("user1", 1000000, 1000000, "1.0", "1.0", 2000000 * M),
        scenario("user2", 2000000, 500000, "1.0", "1.0", 2500000 * M),
        scenario("user3", 100000, 900000, "1.0", "1.0", 1000000 * M),
    ]);
}

#[test]
fn test_sequential_deposits_price_volatility() {
    let token0_amount = 100e6_f64;
    let token1_amount = 100e6_f64;
    let initial_token0_price = 0.0000001_f64;
    let initial_token1_price = 0.00001_f64;
    let expected_shares =
        (((token0_amount * initial_token0_price) + (token1_amount * initial_token1_price)) * SHARES_MULTIPLIER as f64)
            as u128;
    let t0 = token0_amount as u128;
    let t1 = token1_amount as u128;
    execute_deposit_sequence(vec![
        scenario("user1", t0, t1, "0.0000001", "0.00001", expected_shares),
        scenario("user2", t0, t1, "50.0", "0.05", expected_shares),
        scenario("user3", t0, t1, "0.1", "10.0", expected_shares),
        scenario("user4", t0, t1, "0.0000001", "100.0", expected_shares),
    ]);
}

#[test]
fn test_sequential_deposits_small_initial() {
    execute_deposit_sequence(vec![
        scenario("user1", 1, 0, "0.0000001", "0.000000001", 100),
        scenario("user2", 10, 0, "1.0", "1.0", 1000),
        scenario("user3", 1, 0, "0.0000001", "0.000000001", 100),
    ]);
}

#[test]
fn test_sequential_deposits_large_initial() {
    execute_deposit_sequence(vec![
        scenario("user1", 1000000000000, 0, "1", "1", 1000000000000 * M),
        scenario("user2", 100000000, 0, "1.0", "1.0", 100000000 * M),
        scenario("user3", 1, 0, "1", "1", M),
    ]);
}

#[test]
fn test_sequential_deposits_multiple_rounding() {
    let p = "0.999999999999999";
    execute_deposit_sequence(vec![
        scenario("user1", 50, 50, p, p, 99999999999),
        scenario("user2", 1000, 0, p, p, 999999999990),
        scenario("user3", 5000, 5000, p, p, 9999999999900),
        scenario("user4", 50000, 50000, p, p, 99999999999000),
    ]);
}

#[test]
fn test_sequential_deposits_multiple_rounding_small_shares() {
    let p1 = "0.999999999999999";
    execute_deposit_sequence(vec![
        scenario("user1", 100, 0, "0.00000000001", p1, 1),
        scenario("user2", 199, 0, "0.00000000001", p1, 1),
    ]);
}

fn execute_withdraw_sequence(
    scenarios: Vec<WithdrawScenario>,
    initial_token0: u128,
    initial_token1: u128,
    initial_shares: u128,
) {
    let config = setup_test_config();
    let mut remaining_token0 = initial_token0;
    let mut remaining_token1 = initial_token1;
    let mut remaining_shares = initial_shares;
    for scenario in scenarios.iter() {
        let mut step_config = config.clone();
        step_config.total_shares = remaining_shares;
        let response = withdraw_direct(
            &mut step_config,
            &scenario.user,
            scenario.withdraw_amount,
            remaining_token0,
            remaining_token1,
            remaining_shares,
        )
        .unwrap_or_else(|e| panic!("Withdrawal failed: {:?}", e));
        assert!(!response.messages.is_empty(), "No messages in response");
        assert!(matches!(response.messages[0], VaultMsg::Burn { .. }), "First message should be a burn");
        let mut found_token0_transfer = false;
        let mut found_token1_transfer = false;
        for msg in &response.messages {
            if let VaultMsg::Send { to, denom, amount } = msg {
                if to == &scenario.user {
                    if denom == "token0" {
                        found_token0_transfer = true;
                        if let Some(expected) = scenario.expected_token0 {
                            assert_eq!(*amount, expected, "Token0 transfer amount doesn't match expected");
                        }
                    } else if denom == "token1" {
                        found_token1_transfer = true;
                        if let Some(expected) = scenario.expected_token1 {
                            assert_eq!(*amount, expected, "Token1 transfer amount doesn't match expected");
                        }
                    }
                }
            }
        }
        if scenario.expected_token0.is_some() && scenario.expected_token0.unwrap() > 0 {
            assert!(found_token0_transfer, "No token0 transfer found in messages");
        }
        if scenario.expected_token1.is_some() && scenario.expected_token1.unwrap() > 0 {
            assert!(found_token1_transfer, "No token1 transfer found in messages");
        }
        remaining_token0 -= scenario.expected_token0.unwrap();
        remaining_token1 -= scenario.expected_token1.unwrap();
        remaining_shares -= scenario.withdraw_amount;
        assert_eq!(step_config.total_shares, remaining_shares);
    }
}

fn withdrawal(user: &str, amount: u128, t0: u128, t1: u128) -> WithdrawScenario {
    WithdrawScenario {
        user: user.to_string(),
        withdraw_amount: amount,
        expected_token0: Some(t0),
        expected_token1: Some(t1),
    }
}

#[test]
fn test_sequential_withdrawals_equal_prices() {
    let a = 500000000000000u128;
    execute_withdraw_sequence(
        vec![
            withdrawal("user1", a, 250000, 250000),
            withdrawal("user2", a, 250000, 250000),
            withdrawal("user2", a, 250000, 250000),
            withdrawal("user2", a, 250000, 250000),
        ],
        1000000,
        1000000,
        2000000000000000,
    );
}

#[test]
fn test_sequential_withdrawals_changing_prices() {
    // The payout does not depend on the prices.
    let a = 500000000000000u128;
    execute_withdraw_sequence(
        vec![
            withdrawal("user1", a, 250000, 250000),
            withdrawal("user2", a, 250000, 250000),
            withdrawal("user2", a, 250000, 250000),
            withdrawal("user2", a, 250000, 250000),
        ],
        1000000,
        1000000,
        2000000000000000,
    );
}

#[test]
fn test_sequential_withdrawals_extreme_prices() {
    execute_withdraw_sequence(
        vec![
            withdrawal("user1", 250000, 250000, 250000),
            withdrawal("user2", 250000, 250000, 250000),
            withdrawal("user3", 500000, 500000, 500000),
        ],
        1000000,
        1000000,
        1000000,
    );
}

#[test]
fn test_sequential_withdrawals_rounding() {
    execute_withdraw_sequence(vec![withdrawal("user1", 999999, 0, 0), withdrawal("user1", 1, 1, 1)], 1, 1, 1000000);
}

#[test]
fn test_sequential_withdrawals_multiple_rounding() {
    execute_withdraw_sequence(
        vec![
            withdrawal("user1", 199999, 1, 1),
            withdrawal("user1", 80000, 0, 0),
            withdrawal("user1", 80000, 0, 0),
            withdrawal("user1", 60000, 0, 0),
            withdrawal("user1", 50000, 0, 0),
            withdrawal("user1", 48000, 0, 0),
            withdrawal("user1", 482000, 8, 8),
            withdrawal("user1", 1, 1, 1),
        ],
        10,
        10,
        1000000,
    );
}
