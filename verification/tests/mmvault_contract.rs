use std::str::FromStr;

use cosmwasm_std::testing::{mock_env, MockApi};
use neutron_std::types::neutron::util::precdec::PrecDec;
use neutron_std::types::osmosis::tokenfactory::v1beta1::MsgCreateDenomResponse;
use neutron_vaults::coin::Coin;
use neutron_vaults::mmvault::contract::{instantiate, migrate, simulate_provide_liquidity, simulate_withdraw_liquidity};
use neutron_vaults::mmvault::error::ContractError;
use neutron_vaults::mmvault::execute::{
    deposit_finish, deposit_funds, execute_create_token, handle_create_token_reply, DepositStep,
};
use neutron_vaults::mmvault::msg::{CombinedPriceResponse, InstantiateMsg, MigrateMsg, VaultMsg};
use neutron_vaults::mmvault::state::{Config, CurrencyPair, FeeTier, FeeTierConfig, TokenData, CREATE_TOKEN_REPLY_ID};
use neutron_vaults::precdec::Dec;
use prost::Message;

fn dec_of(p: PrecDec) -> Dec {
    Dec { atomics: p.atomics().to_be_bytes() }
}

fn token(denom: &str, base: &str, quote: &str) -> TokenData {
    TokenData {
        denom: denom.to_string(),
        decimals: 6,
        max_blocks_old: 100,
        pair: CurrencyPair { base: base.to_string(), quote: quote.to_string() },
    }
}

fn same_token(a: &TokenData, b: &TokenData) -> bool {
    a.denom == b.denom
        && a.decimals == b.decimals
        && a.max_blocks_old == b.max_blocks_old
        && a.pair.base == b.pair.base
        && a.pair.quote == b.pair.quote
}

#[test]
fn tests_test_instantiate_success() {
    let api = MockApi::default();
    let owner_addr = api.addr_make("neutron1e2c5p8y5rw2hp4fjr05uvkrkz76ej0kqegnwxe");
    let caller_addr = api.addr_make("neutron1e2c5p8y5rw2hp4fjr05uvkrkz76ej0kqegnwxe");
    let instantiate_msg = InstantiateMsg {
        whitelist: vec![owner_addr.to_string(), caller_addr.to_string()],
        token_a: token("untrn", "untrn", "usd"),
        token_b: token("usd", "usd", "untrn"),
        fee_tier_config: FeeTierConfig { fee_tiers: vec![FeeTier { fee: 0, percentage: 0 }] },
        deposit_cap: 1000000,
        timestamp_stale: 1000,
        paused: false,
        oracle_contract: api.addr_make("neutron1e2c5p8y5rw2hp4fjr05uvkrkz76ej0kqegnwxe").to_string(),
    };
    let (config, _attributes) = instantiate(&instantiate_msg).expect("contract initialization should succeed");
    assert_eq!(config.whitelist, instantiate_msg.whitelist);
    assert!(same_token(&config.pair_data.token_0, &instantiate_msg.token_a));
    assert!(same_token(&config.pair_data.token_1, &instantiate_msg.token_b));
    assert_eq!(config.fee_tier_config.fee_tiers.len(), instantiate_msg.fee_tier_config.fee_tiers.len());
    assert_eq!(config.fee_tier_config.fee_tiers[0].fee, instantiate_msg.fee_tier_config.fee_tiers[0].fee);
    assert_eq!(config.fee_tier_config.fee_tiers[0].percentage, instantiate_msg.fee_tier_config.fee_tiers[0].percentage);
    assert_eq!(config.deposit_cap, instantiate_msg.deposit_cap);
    assert_eq!(config.timestamp_stale, instantiate_msg.timestamp_stale);
    assert_eq!(config.paused, instantiate_msg.paused);
    assert_eq!(config.oracle_contract, instantiate_msg.oracle_contract);
}

/// Instantiation with NTRN and USDC, then the LP token's creation and its
/// reply, as the entry points run them.
fn setup_test() -> (Config, String) {
    let api = MockApi::default();
    let env = mock_env();
    let oracle_addr = api.addr_make("cosmos1oracle");
    let owner = api.addr_make("cosmos1owner").to_string();
    let instantiate_msg = InstantiateMsg {
        whitelist: vec![owner.clone()],
        token_a: token("untrn", "NTRN", "USD"),
        token_b: token("uibcusdc", "USDC", "USD"),
        fee_tier_config: FeeTierConfig { fee_tiers: vec![FeeTier { fee: 0, percentage: 0 }] },
        deposit_cap: 1000000,
        timestamp_stale: 1000,
        paused: false,
        oracle_contract: oracle_addr.to_string(),
    };
    let (mut config, _) = instantiate(&instantiate_msg).unwrap();
    let contract = env.contract.address.to_string();
    let res = execute_create_token(&config, &owner, &contract).unwrap();
    assert_eq!(res.submessages.len(), 1);
    assert_eq!(res.submessages[0].id, CREATE_TOKEN_REPLY_ID);
    match &res.submessages[0].msg {
        VaultMsg::CreateDenom { subdenom } => assert_eq!(subdenom, "USDC-NTRN"),
        other => panic!("unexpected {:?}", other),
    }
    let new_token_denom = format!("factory/{}/untrn-uibcusdc", env.contract.address);
    let encoded = MsgCreateDenomResponse { new_token_denom: new_token_denom.clone() }.encode_to_vec();
    handle_create_token_reply(&mut config, Ok(vec![encoded])).unwrap();
    let expected_lp_denom = format!("factory/{}/untrn-uibcusdc", env.contract.address);
    assert_eq!(config.lp_denom, expected_lp_denom);
    (config, owner)
}

#[test]
fn test_deposit() {
    let (mut config, owner) = setup_test();
    // the oracle's prices: USDC at 1.0 and NTRN at 0.25 USD
    let p0 = PrecDec::from_ratio(10u128, 10u128);
    let p1 = PrecDec::from_ratio(25u128, 100u128);
    let prices = CombinedPriceResponse {
        token_0_price: dec_of(p0),
        token_1_price: dec_of(p1),
        price_0_to_1: dec_of(p0.checked_div(p1).unwrap()),
    };
    let deposit_amount = 1000000u128;
    let funds = vec![Coin { denom: "untrn".to_string(), amount: deposit_amount }];
    let env = mock_env();
    config.last_executed = env.block.time.seconds();
    let step = deposit_funds(&mut config, env.block.time.seconds(), env.block.height, &owner, &funds).unwrap();
    let (t0, t1) = match step {
        DepositStep::Proceed { token0_deposited, token1_deposited } => (token0_deposited, token1_deposited),
        DepositStep::Refund(_) => panic!("the vault is not stale"),
    };
    assert_eq!((t0, t1), (0, deposit_amount));
    let deposit_response =
        deposit_finish(&mut config, &owner, &None, t0, t1, prices, 0, deposit_amount).expect("Deposit should succeed");
    assert!(deposit_response.attributes.iter().any(|attr| attr.key == "action" && attr.value == "deposit"));
    assert!(deposit_response.attributes.iter().any(|attr| attr.key == "from"));
    assert!(deposit_response.attributes.iter().any(|attr| attr.key == "token_0_deposited"));
    assert!(deposit_response.attributes.iter().any(|attr| attr.key == "token_1_deposited"));
    assert!(deposit_response.attributes.iter().any(|attr| attr.key == "minted_amount"));
    let empty_string = String::new();
    let minted_amount = deposit_response
        .attributes
        .iter()
        .find(|attr| attr.key == "minted_amount")
        .map(|attr| &attr.value)
        .unwrap_or(&empty_string);
    assert_eq!(minted_amount, "250000000000000");
}

#[test]
fn create_token_twice_is_refused() {
    let (config, owner) = setup_test();
    let err = execute_create_token(&config, &owner, &"contract".to_string()).unwrap_err();
    assert!(matches!(err, ContractError::TokenAlreadyCreated));
    let err = execute_create_token(&config, &"stranger".to_string(), &"contract".to_string()).unwrap_err();
    assert!(matches!(err, ContractError::Unauthorized));
}

#[test]
fn create_token_reply_error_keeps_the_config() {
    let (mut config, _) = setup_test();
    let before = config.lp_denom.clone();
    let res = handle_create_token_reply(&mut config, Err("no".to_string())).unwrap();
    assert_eq!(res.attributes[0].value, "create_token_reply_error");
    assert_eq!(res.attributes[1].value, "no");
    assert_eq!(config.lp_denom, before);
}

#[test]
fn instantiate_sorts_tokens_and_names_the_pair() {
    let msg = InstantiateMsg {
        whitelist: vec!["owner".to_string()],
        token_a: token("untrn", "NTRN", "USD"),
        token_b: token("uatom", "ATOM", "USD"),
        fee_tier_config: FeeTierConfig { fee_tiers: vec![FeeTier { fee: 5, percentage: 100 }] },
        deposit_cap: 7,
        timestamp_stale: 9,
        paused: true,
        oracle_contract: "oracle".to_string(),
    };
    let (config, attributes) = instantiate(&msg).unwrap();
    assert_eq!(config.pair_data.token_0.denom, "uatom");
    assert_eq!(config.pair_data.pair_id, "uatom<>untrn");
    assert_eq!(config.imbalance, 50);
    assert_eq!(config.lp_denom, "");
    assert_eq!(attributes[0].value, "instantiate IMM");
    assert_eq!(attributes[1].value, "[Addr(\"owner\")]");
    assert_eq!(attributes[12].key, "pool_id");
    assert_eq!(attributes[12].value, "uatom<>untrn");
    assert_eq!(attributes[16].value, "[FeeTier { fee: 5, percentage: 100 }]");
    assert_eq!(attributes[18].value, "true");
}

#[test]
fn instantiate_refuses_bad_messages() {
    let mut msg = InstantiateMsg {
        whitelist: vec![],
        token_a: token("untrn", "NTRN", "USD"),
        token_b: token("uatom", "ATOM", "USD"),
        fee_tier_config: FeeTierConfig { fee_tiers: vec![] },
        deposit_cap: 7,
        timestamp_stale: 9,
        paused: false,
        oracle_contract: "oracle".to_string(),
    };
    assert!(matches!(instantiate(&msg).unwrap_err(), ContractError::EmptyValue { .. }));
    msg.whitelist = vec!["owner".to_string()];
    msg.fee_tier_config.fee_tiers = vec![FeeTier { fee: 1, percentage: 101 }];
    assert!(matches!(instantiate(&msg).unwrap_err(), ContractError::InvalidFeeTier { .. }));
    msg.fee_tier_config.fee_tiers = vec![];
    msg.token_a.denom = "ibc/short".to_string();
    assert!(matches!(instantiate(&msg).unwrap_err(), ContractError::InvalidIbcDenom { .. }));
    msg.token_a.denom = "untrn".to_string();
    msg.token_a.pair.quote = "EUR".to_string();
    msg.token_b.pair.quote = "EUR".to_string();
    assert!(matches!(instantiate(&msg).unwrap_err(), ContractError::OnlySupportUsdQuote { .. }));
}

#[test]
fn migrate_replaces_the_config_when_given() {
    let (mut config, _) = setup_test();
    let mut other = config.clone();
    other.deposit_cap = 42;
    let attrs = migrate(&mut config, MigrateMsg { config: None }, "crates.io:mmvault", "1.0.0");
    assert_eq!(attrs[0].value, "migrate");
    assert_eq!(attrs[1].value, "crates.io:mmvault");
    assert_ne!(config.deposit_cap, 42);
    migrate(&mut config, MigrateMsg { config: Some(other) }, "c", "v");
    assert_eq!(config.deposit_cap, 42);
}

#[test]
fn deposit_withdrawn_at_once_gains_nothing() {
    let (mut config, owner) = setup_test();
    config.deposit_cap = 1_000_000_000;
    let one = dec_of(PrecDec::from_ratio(1u128, 1u128));
    let two = dec_of(PrecDec::from_ratio(2u128, 1u128));
    let prices = CombinedPriceResponse { token_0_price: two, token_1_price: one, price_0_to_1: two };
    // the vault held 1000 + 1000 with 3000 * 10^18 shares out; 333 of token 0 arrive
    let supply: u128 = 3_000_000_000_000_000_000_000;
    config.total_shares = supply;
    let minted = simulate_provide_liquidity(&config, &owner, 333, 0, prices, 1333, 1000).unwrap();
    assert_eq!(minted, 666_000_000_000_000_000_000);
    let (w0, w1) = simulate_withdraw_liquidity(&config, minted, 1333, 1000, supply + minted).unwrap();
    assert!(2 * w0 + w1 <= 2 * 333);
    assert_eq!((w0, w1), (242, 181));
}

#[test]
fn equal_deposits_mint_equal_shares() {
    let (mut config, owner) = setup_test();
    config.deposit_cap = 1_000_000_000;
    let one = dec_of(PrecDec::from_ratio(1u128, 1u128));
    let prices = CombinedPriceResponse { token_0_price: one, token_1_price: one, price_0_to_1: one };
    let first = simulate_provide_liquidity(&config, &owner, 500000, 500000, prices, 500000, 500000).unwrap();
    assert_eq!(first, 1000000 * 1000000000);
    config.total_shares = first;
    let second = simulate_provide_liquidity(&config, &owner, 500000, 500000, prices, 1000000, 1000000).unwrap();
    assert_eq!(second, first);
}
