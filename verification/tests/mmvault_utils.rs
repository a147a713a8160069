use std::str::FromStr;

use neutron_std::types::neutron::dex::MsgWithdrawalResponse;
use neutron_std::types::neutron::util::precdec::PrecDec;
use neutron_std::types::osmosis::tokenfactory::v1beta1::MsgCreateDenomResponse;
use neutron_vaults::mmvault::contract::{dex_deposit_reply, reply_route, withdraw_reply_amount, ReplyRoute};
use neutron_vaults::mmvault::error::{ContractError, OverflowOperation};
use neutron_vaults::mmvault::msg::CombinedPriceResponse;
use neutron_vaults::mmvault::state::{
    Config, CurrencyPair, FeeTier, FeeTierConfig, PairData, TokenData, CREATE_TOKEN_REPLY_ID, DEX_DEPOSIT_REPLY_ID,
    WITHDRAW_REPLY_ID,
};
use neutron_vaults::mmvault::utils::{
    extract_denom, extract_withdrawal_amounts, flatten_msgs_always_reply, get_deposit_data, get_deposit_messages,
    deposit_tick_adjustment, get_token_value, precdec_to_uint128, sort_token_data_and_get_pair_id_str, tick_adjustment,
    withdrawal_amounts_from, TickAdjustment,
};
use neutron_vaults::precdec::Dec;
use prost::Message;

fn dec(s: &str) -> Dec {
    Dec { atomics: PrecDec::from_str(s).unwrap().atomics().to_be_bytes() }
}

fn dec_of(p: PrecDec) -> Dec {
    Dec { atomics: p.atomics().to_be_bytes() }
}

fn token(denom: &str, base: &str) -> TokenData {
    TokenData {
        denom: denom.to_string(),
        decimals: 6,
        max_blocks_old: 100,
        pair: CurrencyPair { base: base.to_string(), quote: "USD".to_string() },
    }
}

fn setup_test_config() -> Config {
    Config {
        oracle_contract: "oracle".to_string(),
        lp_denom: "factory/contract/lp".to_string(),
        pair_data: PairData {
            token_0: token("token0", "TOKEN0"),
            token_1: token("token1", "TOKEN1"),
            pair_id: "token0<>token1".to_string(),
        },
        total_shares: 0,
        whitelist: vec!["owner".to_string()],
        deposit_cap: 1000000,
        fee_tier_config: FeeTierConfig {
            fee_tiers: vec![
                FeeTier { fee: 100, percentage: 60 },
                FeeTier { fee: 500, percentage: 30 },
                FeeTier { fee: 3000, percentage: 10 },
            ],
        },
        last_executed: 0,
        timestamp_stale: 1000,
        paused: false,
        pause_block: 0,
        skew: 0,
        imbalance: 50,
        oracle_price_skew: 0,
        dynamic_spread_factor: 0,
        dynamic_spread_cap: 0,
    }
}

fn setup_test_prices() -> CombinedPriceResponse {
    let one = dec_of(PrecDec::from_ratio(1u128, 1u128));
    CombinedPriceResponse { token_0_price: one, token_1_price: one, price_0_to_1: one }
}

#[test]
fn test_get_deposit_messages_zero_balances() {
    let config = setup_test_config();
    let prices = setup_test_prices();
    let messages = get_deposit_messages(&config, 0, prices, 0, 0).unwrap();
    assert_eq!(messages.len(), 0);
}

#[test]
fn test_get_deposit_messages_equal_balances() {
    let mut config = setup_test_config();
    let prices = setup_test_prices();
    if config.fee_tier_config.fee_tiers.is_empty() {
        config.fee_tier_config.fee_tiers = vec![FeeTier { fee: 100, percentage: 100 }];
    }
    let messages = get_deposit_messages(&config, 0, prices, 1000000, 1000000).unwrap();
    assert!(!messages.is_empty(), "Expected at least one deposit message");
    assert_eq!(messages[0].tick_index, 0);
    assert!(messages[0].amount_a > 0);
    assert!(messages[0].amount_b > 0);
}

#[test]
fn test_get_deposit_messages_uneven_balances() {
    let config = setup_test_config();
    let prices = setup_test_prices();
    let messages = get_deposit_messages(&config, 0, prices, 2000000, 1000000).unwrap();
    assert!(!messages.is_empty(), "Expected at least one deposit message");
    for (i, d) in messages.iter().enumerate() {
        assert!(d.amount_a > 0 || d.amount_b > 0, "Expected at least one non-zero amount in message {}", i);
    }
}

#[test]
fn test_get_deposit_messages_different_prices() {
    let config = setup_test_config();
    let mut prices = setup_test_prices();
    prices.token_0_price = dec_of(PrecDec::from_ratio(2u128, 1u128));
    prices.price_0_to_1 = dec_of(PrecDec::from_ratio(2u128, 1u128));
    let tick_index = 0;
    let messages = get_deposit_messages(&config, tick_index, prices, 1000000, 1000000).unwrap();
    assert!(!messages.is_empty(), "Expected at least one deposit message");
    for d in messages.iter() {
        assert_eq!(d.tick_index, tick_index);
        assert!(config.fee_tier_config.fee_tiers.iter().any(|tier| tier.fee == d.fee), "Fee {} not found", d.fee);
    }
}

#[test]
fn deposit_data_adds_half_the_value_gap_to_the_richer_token() {
    // 2_000_000 of token 0 against 1_000_000 of token 1 at even prices:
    // 60% of each, plus half of the 1_000_000 gap in token 0.
    let d = get_deposit_data(2000000, 1000000, 7, 100, &setup_test_prices(), 60, 50).unwrap();
    assert_eq!(d.amount0, 1200000 + 500000);
    assert_eq!(d.amount1, 600000);
    assert_eq!(d.tick_index, 7);
    assert_eq!(d.fee, 100);
}

#[test]
fn deposit_data_never_exceeds_the_balances() {
    let d = get_deposit_data(1000, 0, 0, 100, &setup_test_prices(), 100, 100).unwrap();
    assert_eq!(d.amount0, 1000);
    assert_eq!(d.amount1, 0);
}

#[test]
fn deposit_data_of_even_values_is_the_base_percentage() {
    let d = get_deposit_data(1000, 1000, -3, 5, &setup_test_prices(), 25, 50).unwrap();
    assert_eq!((d.amount0, d.amount1, d.tick_index), (250, 250, -3));
}

#[test]
fn token_value_is_amount_times_price() {
    let prices = CombinedPriceResponse {
        token_0_price: dec("2.5"),
        token_1_price: dec("0.1"),
        price_0_to_1: dec("25"),
    };
    let (v0, v1) = get_token_value(prices, 4, 30).unwrap();
    assert_eq!(v0.atomics, dec("10").atomics);
    assert_eq!(v1.atomics, dec("3").atomics);
}

#[test]
fn token_value_overflow_is_reported() {
    let huge = Dec { atomics: [0xff; 32] };
    let prices = CombinedPriceResponse { token_0_price: huge, token_1_price: huge, price_0_to_1: huge };
    let err = get_token_value(prices, 2, 0).unwrap_err();
    assert!(matches!(err, ContractError::Overflow(OverflowOperation::Mul)));
}

#[test]
fn precdec_to_uint128_floors() {
    assert_eq!(precdec_to_uint128(dec("12.999")).unwrap(), 12);
    assert_eq!(precdec_to_uint128(dec("0.5")).unwrap(), 0);
    let err = precdec_to_uint128(Dec { atomics: [0xff; 32] }).unwrap_err();
    assert!(matches!(err, ContractError::ConversionError));
}

#[test]
fn tokens_sort_by_denom() {
    let a = token("uatom", "ATOM");
    let b = token("untrn", "NTRN");
    let (sorted, id) = sort_token_data_and_get_pair_id_str(&b, &a);
    assert_eq!(sorted[0].denom, "uatom");
    assert_eq!(sorted[1].denom, "untrn");
    assert_eq!(id, "uatom<>untrn");
    let (sorted, id) = sort_token_data_and_get_pair_id_str(&a, &b);
    assert_eq!(sorted[0].denom, "uatom");
    assert_eq!(id, "uatom<>untrn");
}

#[test]
fn tick_adjustment_edge_cases() {
    let zero = dec("0");
    assert!(matches!(tick_adjustment(10, 100, zero, zero).unwrap(), TickAdjustment::Exact(10)));
    assert!(matches!(tick_adjustment(10, 1, dec("5"), dec("1")).unwrap(), TickAdjustment::Exact(10)));
    assert!(matches!(tick_adjustment(10, 100, zero, dec("1")).unwrap(), TickAdjustment::Exact(-89)));
    assert!(matches!(tick_adjustment(10, 100, dec("1"), zero).unwrap(), TickAdjustment::Exact(109)));
}

#[test]
fn tick_adjustment_ratio_is_gap_over_total() {
    match tick_adjustment(0, 11, dec("3"), dec("1")).unwrap() {
        TickAdjustment::Proportional { base, max_adjustment, imbalance, token0_dominates } => {
            assert_eq!(base, 0);
            assert_eq!(max_adjustment, 10);
            assert!(token0_dominates);
            assert_eq!(imbalance.atomics, dec("0.5").atomics);
        },
        other => panic!("unexpected {:?}", other),
    }
}

#[test]
fn flatten_replies_on_the_last_message_only() {
    let subs = flatten_msgs_always_reply(vec![vec![1u8, 2], vec![], vec![3]], 9, Some(vec![7, 7])).unwrap();
    assert_eq!(subs.len(), 3);
    assert_eq!(subs.iter().map(|s| s.msg).collect::<Vec<u8>>(), vec![1, 2, 3]);
    assert!(!subs[0].reply_on_success && !subs[1].reply_on_success);
    assert!(subs[2].reply_on_success);
    assert_eq!(subs[2].id, 9);
    assert_eq!(subs[2].payload, vec![7, 7]);
}

#[test]
fn flatten_of_nothing_is_refused() {
    let err = flatten_msgs_always_reply::<u8>(vec![vec![], vec![]], 1, None).unwrap_err();
    assert!(matches!(err, ContractError::NoFundsAvailable));
}

#[test]
#[allow(deprecated)]
fn withdrawal_amounts_are_decoded() {
    let response = MsgWithdrawalResponse {
        reserve0_withdrawn: "250000".to_string(),
        reserve1_withdrawn: "17".to_string(),
        shares_burned: vec![],
        dec_reserve0_withdrawn: String::new(),
        dec_reserve1_withdrawn: String::new(),
    };
    let amounts = extract_withdrawal_amounts(&vec![response.encode_to_vec()]).unwrap();
    assert_eq!(amounts, (250000, 17));
}

#[test]
#[allow(deprecated)]
fn withdrawal_amounts_need_a_response() {
    assert!(matches!(extract_withdrawal_amounts(&vec![]).unwrap_err(), ContractError::NoResponseData));
    let bad = MsgWithdrawalResponse {
        reserve0_withdrawn: "x".to_string(),
        reserve1_withdrawn: "1".to_string(),
        shares_burned: vec![],
        dec_reserve0_withdrawn: String::new(),
        dec_reserve1_withdrawn: String::new(),
    };
    assert!(matches!(extract_withdrawal_amounts(&vec![bad.encode_to_vec()]).unwrap_err(), ContractError::DecodingError));
    assert!(matches!(extract_withdrawal_amounts(&vec![vec![0xff, 0xff, 0xff]]).unwrap_err(), ContractError::DecodingError));
}

#[test]
fn withdrawal_amounts_from_reserve_strings() {
    assert_eq!(withdrawal_amounts_from(Some(("+5".to_string(), "0".to_string()))).unwrap(), (5, 0));
    assert!(matches!(withdrawal_amounts_from(None).unwrap_err(), ContractError::DecodingError));
    assert!(matches!(
        withdrawal_amounts_from(Some(("-5".to_string(), "0".to_string()))).unwrap_err(),
        ContractError::DecodingError
    ));
}

#[test]
fn created_denom_is_decoded() {
    let response = MsgCreateDenomResponse { new_token_denom: "factory/vault/A-B".to_string() };
    assert_eq!(extract_denom(&vec![response.encode_to_vec()]).unwrap(), "factory/vault/A-B");
    assert!(matches!(extract_denom(&vec![]).unwrap_err(), ContractError::NoResponseData));
}

#[test]
fn reply_ids_are_routed() {
    assert_eq!(reply_route(CREATE_TOKEN_REPLY_ID).unwrap(), ReplyRoute::CreateToken);
    assert_eq!(reply_route(WITHDRAW_REPLY_ID).unwrap(), ReplyRoute::Withdraw);
    assert_eq!(reply_route(DEX_DEPOSIT_REPLY_ID).unwrap(), ReplyRoute::DexDeposit);
    assert_eq!(reply_route(4).unwrap(), ReplyRoute::DexDepositPrepared);
    assert!(matches!(reply_route(999).unwrap_err(), ContractError::UnknownReplyId { id: 999 }));
}

#[test]
fn withdraw_reply_amount_reads_the_payload() {
    assert_eq!(withdraw_reply_amount(&"1234".to_string()).unwrap(), 1234);
    assert!(matches!(withdraw_reply_amount(&"12a".to_string()).unwrap_err(), ContractError::ParseError));
}

#[test]
fn dex_deposit_reply_reports_errors() {
    let ok = dex_deposit_reply(Ok(()));
    assert_eq!(ok.attributes[1].value, "success");
    let err = dex_deposit_reply(Err("boom".to_string()));
    assert_eq!(err.attributes[1].value, "error_handled");
    assert_eq!(err.attributes[2].value, "\"boom\"");
}

/// The deposit amounts at the tightest spread for a table of balances,
/// prices and base percentages. The amounts do not depend on any skew; the
/// tick does, and is checked where no skew applies (the skews move the tick
/// before it is handed over).
#[test]
fn deposit_data_table() {
    let cases: Vec<(u128, u128, &str, &str, u64, u32, u128, u128, bool, i64)> = vec![
        (1000000, 2000000, "1", "1", 5, 50, 50000, 600000, true, 0), // imbalance case
        (1000000, 2000000, "1", "1", 0, 50, 0, 500000, true, 0), // 0% base deposit
        (1000000, 1000000, "1", "1", 50, 50, 500000, 500000, true, 0), // balanced case
        (1000000, 1000000, "2", "1", 50, 50, 750000, 500000, true, 0), // unequal token prices
        (1000000, 1000000, "1", "2", 50, 50, 500000, 750000, true, 0), // inverse unequal token prices
        (1000000, 1000000, "1", "1", 100, 50, 1000000, 1000000, true, 0), // 100% deposit
        (0, 1000000, "1", "1", 5, 50, 0, 550000, true, 0), // one token unavailable
        (0, 0, "1", "1", 5, 50, 0, 0, true, 0), // both tokens unavailable
        (1000000, 1000000, "1", "1.1", 0, 50, 0, 45454, true, 0), // slight price difference
        (1000000, 1000000, "1", "1.1", 5, 50, 50000, 95454, true, 0), // slight price difference with 5% deposit
        (1000000, 1000000, "1", "1", 100, 50, 1000000, 1000000, true, 0), // capped deposit amounts
        (1000000, 1000000, "1", "200", 10, 50, 100000, 597500, true, 0), // large price difference
        (0, 1000000, "1", "1", 10, 50, 0, 600000, false, -9), // large price difference with skew token0
        (1000000, 0, "1", "1", 10, 50, 600000, 0, false, 9), // large price difference with skew token1
        (10000000, 0, "1", "1", 10, 50, 6000000, 0, false, 99), // test skew sequence -1
        (9000000, 1000000, "1", "1", 10, 50, 4900000, 100000, false, 79), // test skew sequence -2
        (8000000, 2000000, "1", "1", 10, 50, 3800000, 200000, false, 59), // test skew sequence -3
        (7000000, 3000000, "1", "1", 10, 50, 2700000, 300000, false, 40), // test skew sequence -4
        (6000000, 4000000, "1", "1", 10, 50, 1600000, 400000, false, 20), // test skew sequence -5
        (5000000, 5000000, "1", "1", 10, 50, 500000, 500000, false, 0), // test skew sequence -6
        (10000000, 0, "1", "1", 10, 50, 6000000, 0, false, 99), // test double skew sequence -1
        (1000000, 1000000, "1", "200", 10, 50, 100000, 597500, false, 1), // test oracle skew -1
        (1000000, 1000000, "1", "200", 10, 50, 100000, 597500, false, 11), // test oracle skew -2
        (1000000, 1000000, "1", "200", 10, 50, 100000, 597500, false, 111), // test oracle skew -3
        (1000000, 1000000, "1", "200", 10, 50, 100000, 597500, false, 99999), // test oracle skew -4
        (1000000, 1000000, "1", "200", 10, 50, 100000, 597500, false, -1), // test oracle skew -5
        (1000000, 1000000, "1", "200", 10, 50, 100000, 597500, false, -11), // test oracle skew -6
        (1000000, 1000000, "1", "200", 10, 50, 100000, 597500, false, -111), // test oracle skew -7
        (1000000, 1000000, "1", "200", 10, 50, 100000, 597500, false, -99999), // test oracle skew -8
        (9000000, 1000000, "1", "1", 10, 50, 4900000, 100000, false, 80), // test double skew sequence -2
        (8000000, 2000000, "1", "1", 10, 50, 3800000, 200000, false, 57), // test double skew sequence -3
        (7000000, 3000000, "1", "1", 10, 50, 2700000, 300000, false, 44), // test double skew sequence -4
        (6000000, 4000000, "1", "1", 10, 50, 1600000, 400000, false, 12), // test double skew sequence -5
        (5000000, 5000000, "1", "1", 10, 50, 500000, 500000, false, 33), // test double skew sequence -6
        (5000000, 5000000, "1", "1", 10, 50, 500000, 500000, false, -99), // test double skew sequence -7
        (1000000, 9000000, "1", "1", 10, 50, 100000, 4900000, false, -79), // test double skew sequence -8
        (1000000, 1000000, "1", "1", 10, 50, 100000, 100000, true, 0), // test oracle skew static -1
        (1000000, 1000000, "1", "1", 10, 50, 100000, 100000, false, 0), // test oracle skew static -2
        (1000000, 1000000, "1", "1", 10, 50, 100000, 100000, false, 0), // test oracle skew static -3
        (1000000, 1000000, "1", "1", 10, 50, 100000, 100000, false, 0), // test oracle skew static -4
        (1000000, 1000000, "1", "1", 10, 50, 100000, 100000, false, 0), // test oracle skew static -5
        (1111111, 1000000, "1", "1", 10, 50, 166666, 100000, false, 1), // test oracle skew static imbalanced light left-heavy -1
        (1111111, 1000000, "1", "1", 10, 50, 166666, 100000, false, 5), // test oracle skew static imbalanced light left-heavy -2
        (1111111, 1000000, "1", "1", 10, 50, 166666, 100000, false, 53), // test oracle skew static imbalanced light left-heavy -3
        (3000000, 1000000, "1", "1", 10, 50, 1300000, 100000, false, 5), // test oracle skew static imbalanced more left-heavy -1
        (3000000, 1000000, "1", "1", 10, 50, 1300000, 100000, false, 50), // test oracle skew static imbalanced more left-heavy -2
        (3000000, 1000000, "1", "1", 10, 50, 1300000, 100000, false, 500), // test oracle skew static imbalanced more left-heavy -3
        (3000000, 0, "1", "1", 10, 50, 1800000, 0, false, 10), // test oracle skew static imbalanced fully left-heavy -1
        (3000000, 0, "1", "1", 10, 50, 1800000, 0, false, 100), // test oracle skew static imbalanced fully left-heavy -2
        (3000000, 0, "1", "1", 10, 50, 1800000, 0, false, 1000), // test oracle skew static imbalanced fully left-heavy -3
        (1000000, 1111111, "1", "1", 10, 50, 100000, 166666, false, -1), // test oracle skew static imbalanced light right-heavy -1
        (1000000, 1111111, "1", "1", 10, 50, 100000, 166666, false, -5), // test oracle skew static imbalanced light right-heavy -2
        (1000000, 1111111, "1", "1", 10, 50, 100000, 166666, false, -53), // test oracle skew static imbalanced light right-heavy -3
        (1000000, 3000000, "1", "1", 10, 50, 100000, 1300000, false, -5), // test oracle skew static imbalanced more right-heavy -1
        (1000000, 3000000, "1", "1", 10, 50, 100000, 1300000, false, -50), // test oracle skew static imbalanced more right-heavy -2
        (1000000, 3000000, "1", "1", 10, 50, 100000, 1300000, false, -500), // test oracle skew static imbalanced more right-heavy -3
        (0, 3000000, "1", "1", 10, 50, 0, 1800000, false, -10), // test oracle skew static imbalanced fully right-heavy -1
        (0, 3000000, "1", "1", 10, 50, 0, 1800000, false, -100), // test oracle skew static imbalanced fully right-heavy -2
        (0, 3000000, "1", "1", 10, 50, 0, 1800000, false, -1000), // test oracle skew static imbalanced fully right-heavy -3
        (0, 3000000, "1", "1", 10, 50, 0, 1800000, true, 0), // omni-skew-sequence-no-skews
        (0, 3000000, "1", "1", 10, 50, 0, 1800000, false, -10), // omni-skew-sequence-only-base-skew-b-dominant
        (3000000, 0, "1", "1", 10, 50, 1800000, 0, false, 10), // omni-skew-sequence-only-base-skew-a-dominant
        (0, 3000000, "1", "1", 10, 50, 0, 1800000, false, -50), // omni-skew-sequence-only-dynamic-skew-b-dominant
        (3000000, 0, "1", "1", 10, 50, 1800000, 0, false, 50), // omni-skew-sequence-only-dynamic-skew-a-dominant
        (0, 3000000, "1", "1", 10, 50, 0, 1800000, false, -60), // omni-skew-sequence-3-double-skew-b-dominant
        (3000000, 0, "1", "1", 10, 50, 1800000, 0, false, 60), // omni-skew-sequence-4-double-skew-a-dominant
        (1, 299999, "1", "1", 10, 50, 0, 179998, false, -60), // omni-skew-sequence-edge-case-1
        (100, 100, "1", "1", 10, 50, 10, 10, false, 0), // omni-skew-sequence-edge-case-1.5
        (299999, 1, "1", "1", 10, 50, 179998, 0, false, 60), // omni-skew-sequence-edge-case-2
        (1, 299999, "1", "1", 10, 50, 0, 179998, false, -160), // omni-skew-sequence-edge-case-3
        (299999, 1, "1", "1", 10, 50, 179998, 0, false, 160), // omni-skew-sequence-edge-case-4
        (300000, 0, "1", "1", 10, 50, 180000, 0, false, 60), // skew-wit-comment
    ];
    for (t0, t1, p0, p1, pct, imbalance, a0, a1, unskewed, tick) in cases {
        let prices = CombinedPriceResponse { token_0_price: dec(p0), token_1_price: dec(p1), price_0_to_1: dec("1") };
        let d = get_deposit_data(t0, t1, 0, 10, &prices, pct, imbalance).unwrap();
        assert_eq!((d.amount0, d.amount1), (a0, a1), "case {} {} {} {} {}", t0, t1, p0, p1, pct);
        if unskewed {
            assert_eq!(d.tick_index, tick);
        }
        assert_eq!(d.fee, 10);
    }
}

#[test]
fn deposit_tick_skews_only_when_enabled() {
    let mut config = setup_test_config();
    let prices = setup_test_prices();
    assert!(matches!(deposit_tick_adjustment(&config, 7, prices, 300, 100).unwrap(), TickAdjustment::Exact(7)));
    config.skew = 1;
    match deposit_tick_adjustment(&config, 7, prices, 300, 100).unwrap() {
        TickAdjustment::Proportional { base, max_adjustment, imbalance, token0_dominates } => {
            assert_eq!((base, max_adjustment, token0_dominates), (7, 99, true));
            assert_eq!(imbalance.atomics, dec("0.5").atomics);
        },
        other => panic!("unexpected {:?}", other),
    }
    assert!(matches!(deposit_tick_adjustment(&config, 7, prices, 0, 100).unwrap(), TickAdjustment::Exact(-92)));
}

#[test]
fn sorting_two_tokens_ignores_their_order() {
    let a = token("untrn", "NTRN");
    let b = token("uibcusdc", "USDC");
    let (s1, id1) = sort_token_data_and_get_pair_id_str(&a, &b);
    let (s2, id2) = sort_token_data_and_get_pair_id_str(&b, &a);
    assert_eq!(id1, "uibcusdc<>untrn");
    assert_eq!(id1, id2);
    assert_eq!(s1[0].denom, s2[0].denom);
}
