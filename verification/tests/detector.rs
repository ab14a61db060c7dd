use arb_detector::amounts::{normalize, FixedDecimal, MAX_AMOUNT_UNITS};
use arb_detector::config::{load_tokens, Config};
use arb_detector::cycle::run_cycle;
use arb_detector::evaluator::is_opportunity;
use arb_detector::monitor::{
    buy_source, check_direction, check_pair, first_leg_request, second_leg_request, Direction,
    DirectionEvents, DirectionOutcome, Observation, Opportunity, PairEvents,
};
use arb_detector::quotes::{extract_amount_out, QuoteFailure, SourceId};
use arb_detector::text::pair_label;
use arb_detector::tokens::{build_token, decimals_for_symbol, ChainAddress, ConfigError, Token};

fn addr(b: u8) -> ChainAddress {
    ChainAddress { bytes: [b; 20] }
}

fn token(symbol: &str, b: u8, decimals: u32) -> Token {
    Token { symbol: symbol.to_string(), address: addr(b), decimals }
}

/// A configuration with one monitored token, amounts carried at scale 0 so
/// that unit counts read as whole reference units.
fn config_scale0(trade_units: u128, min_profit_units: i128) -> Config {
    Config {
        tokens: vec![token("WETH", 2, 18)],
        reference: token("USDC", 1, 0),
        trade_units,
        min_profit: FixedDecimal { units: min_profit_units, scale: 0 },
        source_a_name: "QuickSwap".to_string(),
        source_b_name: "SushiSwap".to_string(),
    }
}

fn completed(first_out: u128, second_out: u128) -> DirectionEvents {
    DirectionEvents::Completed { first_out, second_out }
}

fn net_error() -> DirectionEvents {
    DirectionEvents::FirstLegFailed {
        failure: QuoteFailure::Upstream { message: "connection refused".to_string() },
    }
}

#[test]
fn threshold_is_strict_above() {
    let p = FixedDecimal { units: 10, scale: 6 };
    let t = FixedDecimal { units: 5, scale: 6 };
    assert!(is_opportunity(p, t));
}

#[test]
fn threshold_boundary_equal_is_not_an_opportunity() {
    let p = FixedDecimal { units: 10, scale: 6 };
    let t = FixedDecimal { units: 10, scale: 6 };
    assert!(!is_opportunity(p, t));
}

#[test]
fn threshold_below_and_negative() {
    let t = FixedDecimal { units: 5, scale: 6 };
    assert!(!is_opportunity(FixedDecimal { units: 4, scale: 6 }, t));
    assert!(!is_opportunity(FixedDecimal { units: -3, scale: 6 }, t));
    assert!(is_opportunity(
        FixedDecimal { units: -3, scale: 6 },
        FixedDecimal { units: -4, scale: 6 }
    ));
}

#[test]
fn normalize_keeps_units_and_scale() {
    let d = normalize(1_500_000, 6);
    assert_eq!(d.units, 1_500_000);
    assert_eq!(d.scale, 6);
    let z = normalize(-42, 18);
    assert_eq!(z.units, -42);
    assert_eq!(z.scale, 18);
}

#[test]
fn quote_output_is_last_element() {
    let amounts: Vec<u128> = vec![1000, 500];
    assert_eq!(extract_amount_out(&amounts).unwrap(), 500);
    let longer: Vec<u128> = vec![1000, 700, 350];
    assert_eq!(extract_amount_out(&longer).unwrap(), 350);
}

#[test]
fn short_quote_response_is_malformed() {
    let amounts: Vec<u128> = vec![1000];
    match extract_amount_out(&amounts) {
        Err(QuoteFailure::MalformedResponse) => {},
        other => panic!("expected a malformed-response failure, got {:?}", other),
    }
    let empty: Vec<u128> = vec![];
    assert!(matches!(extract_amount_out(&empty), Err(QuoteFailure::MalformedResponse)));
}

#[test]
fn decimals_table_matches_the_hardcoded_entries() {
    assert_eq!(decimals_for_symbol("WETH"), Some(18));
    assert_eq!(decimals_for_symbol("WMATIC"), Some(18));
    assert_eq!(decimals_for_symbol("DAI"), Some(18));
    assert_eq!(decimals_for_symbol("USDC"), Some(6));
    assert_eq!(decimals_for_symbol("FOO"), None);
    assert_eq!(decimals_for_symbol(""), None);
    assert_eq!(decimals_for_symbol("weth"), None);
}

#[test]
fn unknown_symbol_fails_startup_before_any_activity() {
    let r = build_token("FOO".to_string(), addr(9));
    match r {
        Err(ConfigError::UnknownTokenDecimals { symbol }) => assert_eq!(symbol, "FOO"),
        Ok(_) => panic!("an unknown symbol must be a configuration error"),
    }
    let entries = vec![
        ("WETH".to_string(), addr(2)),
        ("FOO".to_string(), addr(9)),
        ("DAI".to_string(), addr(3)),
    ];
    match load_tokens(&entries) {
        Err(e) => assert_eq!(e.message(), "decimals for token FOO are not defined"),
        Ok(_) => panic!("a list with an unknown symbol must fail as a whole"),
    }
}

#[test]
fn known_symbols_load_in_configured_order() {
    let entries = vec![
        ("WETH".to_string(), addr(2)),
        ("WMATIC".to_string(), addr(4)),
        ("DAI".to_string(), addr(3)),
    ];
    let ts = load_tokens(&entries).unwrap();
    assert_eq!(ts.len(), 3);
    assert_eq!(ts[0].symbol, "WETH");
    assert_eq!(ts[1].symbol, "WMATIC");
    assert_eq!(ts[2].symbol, "DAI");
    assert!(ts.iter().all(|t| t.decimals == 18));
    assert_eq!(ts[1].address.bytes, [4u8; 20]);
}

#[test]
fn pair_label_is_token_slash_reference() {
    assert_eq!(pair_label("WETH", "USDC"), "WETH/USDC");
}

#[test]
fn leg_requests_follow_the_direction() {
    let cfg = config_scale0(1000, 5);
    let tok = &cfg.tokens[0];
    let r1 = first_leg_request(&cfg, tok, Direction::BuyOnA);
    assert_eq!(r1.source, SourceId::A);
    assert_eq!(r1.amount_in, 1000);
    assert_eq!(r1.path.len(), 2);
    assert_eq!(r1.path[0].bytes, cfg.reference.address.bytes);
    assert_eq!(r1.path[1].bytes, tok.address.bytes);
    let r2 = second_leg_request(&cfg, tok, Direction::BuyOnA, 500);
    assert_eq!(r2.source, SourceId::B);
    assert_eq!(r2.amount_in, 500);
    assert_eq!(r2.path[0].bytes, tok.address.bytes);
    assert_eq!(r2.path[1].bytes, cfg.reference.address.bytes);
    let r3 = first_leg_request(&cfg, tok, Direction::BuyOnB);
    assert_eq!(r3.source, SourceId::B);
    assert_eq!(buy_source(Direction::BuyOnB), SourceId::B);
    let r4 = second_leg_request(&cfg, tok, Direction::BuyOnB, 500);
    assert_eq!(r4.source, SourceId::A);
}

fn expect_recorded(o: DirectionOutcome) -> (Observation, Option<Opportunity>) {
    match o {
        DirectionOutcome::Recorded { observation, opportunity } => (observation, opportunity),
        other => panic!("expected a recorded outcome, got {:?}", other),
    }
}

#[test]
fn profitable_round_trip_logs_an_opportunity() {
    let cfg = config_scale0(1000, 5);
    let tok = token("WETH", 2, 18);
    let out = check_direction(&cfg, &tok, Direction::BuyOnA, completed(500, 1010));
    let (obs, opp) = expect_recorded(out);
    assert_eq!(obs.profit.units, 10);
    assert_eq!(obs.profit.scale, 0);
    assert_eq!(obs.token_pair, "WETH/USDC");
    assert_eq!(obs.buy_source, "QuickSwap");
    assert_eq!(obs.sell_source, "SushiSwap");
    let opp = opp.expect("profit 10 exceeds threshold 5");
    assert_eq!(opp.profit, obs.profit);
    assert_eq!(opp.amount_in.units, 1000);
    assert_eq!(opp.amount_out.units, 1010);
    assert_eq!(opp.token_pair, "WETH/USDC");
    assert_eq!(opp.buy_source, "QuickSwap");
    assert_eq!(opp.sell_source, "SushiSwap");
}

#[test]
fn unprofitable_round_trip_logs_only_the_observation() {
    let cfg = config_scale0(1000, 15);
    let tok = token("WETH", 2, 18);
    let out = check_direction(&cfg, &tok, Direction::BuyOnA, completed(500, 1010));
    let (obs, opp) = expect_recorded(out);
    assert_eq!(obs.profit.units, 10);
    assert!(opp.is_none(), "profit 10 does not exceed threshold 15");
}

#[test]
fn reference_scale_carries_into_the_records() {
    let mut cfg = config_scale0(1_000_000_000, 5_000_000);
    cfg.reference.decimals = 6;
    cfg.min_profit.scale = 6;
    let tok = token("WETH", 2, 18);
    let out = check_direction(
        &cfg,
        &tok,
        Direction::BuyOnA,
        completed(500_000_000_000_000_000, 1_010_000_000),
    );
    let (obs, opp) = expect_recorded(out);
    assert_eq!(obs.profit, FixedDecimal { units: 10_000_000, scale: 6 });
    assert!(opp.is_some());
}

#[test]
fn failed_first_leg_skips_the_direction_but_not_the_pair() {
    let cfg = config_scale0(1000, 5);
    let tok = token("WETH", 2, 18);
    let outcomes = check_pair(
        &cfg,
        &tok,
        PairEvents { buy_on_a: net_error(), buy_on_b: completed(500, 1010) },
    );
    assert_eq!(outcomes.len(), 2, "the second direction still runs");
    match &outcomes[0] {
        DirectionOutcome::Skipped { token_pair, direction, failure } => {
            assert_eq!(token_pair, "WETH/USDC");
            assert_eq!(*direction, Direction::BuyOnA);
            match failure {
                QuoteFailure::Upstream { message } => assert_eq!(message, "connection refused"),
                other => panic!("expected the upstream failure, got {:?}", other),
            }
        },
        other => panic!("expected a skipped outcome, got {:?}", other),
    }
    match &outcomes[1] {
        DirectionOutcome::Recorded { observation, .. } => {
            assert_eq!(observation.buy_source, "SushiSwap");
            assert_eq!(observation.sell_source, "QuickSwap");
            assert_eq!(observation.profit.units, 10);
        },
        other => panic!("expected a recorded outcome, got {:?}", other),
    }
}

#[test]
fn failed_second_leg_is_fatal_and_stops_the_cycle() {
    let mut cfg = config_scale0(1000, 5);
    cfg.tokens.push(token("DAI", 3, 18));
    let events = vec![
        PairEvents {
            buy_on_a: DirectionEvents::SecondLegFailed {
                first_out: 500,
                failure: QuoteFailure::Upstream { message: "revert".to_string() },
            },
            buy_on_b: completed(500, 1010),
        },
        PairEvents { buy_on_a: completed(500, 1010), buy_on_b: completed(500, 1010) },
    ];
    let outcomes = run_cycle(&cfg, &events);
    assert_eq!(outcomes.len(), 1, "nothing after the fatal outcome");
    match &outcomes[0] {
        DirectionOutcome::Fatal { token_pair, direction, .. } => {
            assert_eq!(token_pair, "WETH/USDC");
            assert_eq!(*direction, Direction::BuyOnA);
        },
        other => panic!("expected a fatal outcome, got {:?}", other),
    }
}

fn two_pair_config() -> (Config, Vec<PairEvents>) {
    let mut cfg = config_scale0(1000, 5);
    cfg.tokens.push(token("DAI", 3, 18));
    let events = vec![
        PairEvents { buy_on_a: completed(500, 1010), buy_on_b: completed(480, 1002) },
        PairEvents { buy_on_a: completed(700, 990), buy_on_b: completed(710, 1030) },
    ];
    (cfg, events)
}

fn observations_in(outcomes: &[DirectionOutcome]) -> Vec<&Observation> {
    outcomes
        .iter()
        .filter_map(|o| match o {
            DirectionOutcome::Recorded { observation, .. } => Some(observation),
            _ => None,
        })
        .collect()
}

fn opportunities_in(outcomes: &[DirectionOutcome]) -> Vec<&Opportunity> {
    outcomes
        .iter()
        .filter_map(|o| match o {
            DirectionOutcome::Recorded { opportunity: Some(p), .. } => Some(p),
            _ => None,
        })
        .collect()
}

#[test]
fn cycle_keeps_configured_pair_order_and_direction_order() {
    let (cfg, events) = two_pair_config();
    let outcomes = run_cycle(&cfg, &events);
    let obs = observations_in(&outcomes);
    assert_eq!(obs.len(), 4);
    assert_eq!(obs[0].token_pair, "WETH/USDC");
    assert_eq!(obs[0].buy_source, "QuickSwap");
    assert_eq!(obs[1].token_pair, "WETH/USDC");
    assert_eq!(obs[1].buy_source, "SushiSwap");
    assert_eq!(obs[2].token_pair, "DAI/USDC");
    assert_eq!(obs[2].buy_source, "QuickSwap");
    assert_eq!(obs[3].token_pair, "DAI/USDC");
    assert_eq!(obs[3].buy_source, "SushiSwap");
    assert_eq!(obs[0].profit.units, 10);
    assert_eq!(obs[1].profit.units, 2);
    assert_eq!(obs[2].profit.units, -10);
    assert_eq!(obs[3].profit.units, 30);
}

fn same_observation(a: &Observation, b: &Observation) -> bool {
    a.token_pair == b.token_pair && a.buy_source == b.buy_source && a.sell_source == b.sell_source
        && a.profit == b.profit
}

#[test]
fn repeated_cycles_over_the_same_quotes_are_identical() {
    let (cfg, events) = two_pair_config();
    let first = run_cycle(&cfg, &events);
    let second = run_cycle(&cfg, &events);
    let obs1 = observations_in(&first);
    let obs2 = observations_in(&second);
    assert_eq!(obs1.len(), obs2.len());
    for (a, b) in obs1.iter().zip(obs2.iter()) {
        assert!(same_observation(a, b), "the stored rows differ only in their write timestamps");
    }
    let opp1 = opportunities_in(&first);
    let opp2 = opportunities_in(&second);
    assert_eq!(opp1.len(), opp2.len());
    for (a, b) in opp1.iter().zip(opp2.iter()) {
        assert_eq!(a.profit, b.profit);
        assert_eq!(a.token_pair, b.token_pair);
    }
}

#[test]
fn every_opportunity_has_a_matching_observation_in_its_cycle() {
    let (cfg, events) = two_pair_config();
    let outcomes = run_cycle(&cfg, &events);
    let obs = observations_in(&outcomes);
    let opps = opportunities_in(&outcomes);
    assert!(!opps.is_empty());
    for p in opps {
        assert!(obs.iter().any(|b| {
            b.profit == p.profit && b.token_pair == p.token_pair && b.buy_source == p.buy_source
                && b.sell_source == p.sell_source
        }));
    }
}

#[test]
fn zero_trade_amount_yields_the_trivial_loss() {
    let cfg = config_scale0(0, 5);
    let tok = token("WETH", 2, 18);
    let (obs, opp) = expect_recorded(check_direction(
        &cfg,
        &tok,
        Direction::BuyOnA,
        completed(0, 0),
    ));
    assert_eq!(obs.profit.units, 0);
    assert!(opp.is_none());
}

#[test]
fn largest_supported_amount_round_trips() {
    let cfg = config_scale0(MAX_AMOUNT_UNITS, 5);
    let tok = token("WETH", 2, 18);
    let (obs, _) = expect_recorded(check_direction(
        &cfg,
        &tok,
        Direction::BuyOnA,
        completed(1, 0),
    ));
    assert_eq!(obs.profit.units, -(MAX_AMOUNT_UNITS as i128));
}

#[test]
fn configuration_well_formedness_is_checkable() {
    let cfg = config_scale0(1000, 5);
    assert!(cfg.is_well_formed());
    let mut wrong_scale = config_scale0(1000, 5);
    wrong_scale.min_profit.scale = 6;
    assert!(!wrong_scale.is_well_formed());
    let mut too_large = config_scale0(1000, 5);
    too_large.trade_units = u128::MAX;
    assert!(!too_large.is_well_formed());
    let mut too_many_decimals = config_scale0(1000, 5);
    too_many_decimals.reference.decimals = 19;
    too_many_decimals.min_profit.scale = 19;
    assert!(!too_many_decimals.is_well_formed());
}

#[test]
fn event_well_formedness_bounds_the_final_amount() {
    assert!(completed(500, MAX_AMOUNT_UNITS).is_well_formed());
    assert!(!completed(500, MAX_AMOUNT_UNITS + 1).is_well_formed());
    assert!(net_error().is_well_formed());
}

#[test]
fn failure_messages_name_their_cause() {
    let f = QuoteFailure::Upstream { message: "revert".to_string() };
    assert_eq!(f.message_text(), "revert");
    assert_eq!(QuoteFailure::MalformedResponse.message_text(), "malformed quote response");
}
