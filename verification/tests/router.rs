use arbitrage_core::router::execute_dex_swap;
use arbitrage_core::router::execute_optimal_route_handler;
use arbitrage_core::router::execute_route_hops;
use arbitrage_core::router::find_direct_route;
use arbitrage_core::router::find_multi_hop_route;
use arbitrage_core::router::find_optimal_route;
use arbitrage_core::router::get_popular_intermediate_tokens;
use arbitrage_core::router::get_route_quote_handler;
use arbitrage_core::router::get_venue;
use arbitrage_core::router::initialize_router;
use arbitrage_core::router::register_dex_handler;
use arbitrage_core::router::simulate_dex_swap;
use arbitrage_core::router::update_config_handler;
use arbitrage_core::router::update_dex_metrics_handler;
use arbitrage_core::router::calculate_combined_price_impact;
use arbitrage_core::router::calculate_min_output_with_slippage;
use arbitrage_core::router::calculate_routing_fee;
use arbitrage_core::router::calculate_total_price_impact;
use arbitrage_core::router::calculate_total_route_fees;
use arbitrage_core::router::calculate_total_slippage;
use arbitrage_core::router::CrossDexError;
use arbitrage_core::router::DexInfo;
use arbitrage_core::router::OptimalRoute;
use arbitrage_core::router::RouteHop;
use arbitrage_core::router::RouteStatus;

fn no_preference() -> Vec<String> {
    Vec::new()
}

// Scenario: one billion units on a venue with a 25 bps fee and 50 bps
// slippage loses 2,500,000 to fees and 4,987,500 to slippage.
#[test]
fn test_simulate_raydium_scenario() {
    let hop = simulate_dex_swap("raydium", 1, 2, 1_000_000_000)
        .unwrap()
        .unwrap();
    assert_eq!(hop.fees, 2_500_000);
    assert_eq!(hop.expected_output, 992_512_500);
    assert_eq!(hop.price_impact, 50);
    assert_eq!(hop.input_amount, 1_000_000_000);
}

#[test]
fn test_simulate_unknown_dex_gives_no_hop() {
    assert!(simulate_dex_swap("unknown", 1, 2, 1_000_000).unwrap().is_none());
}

#[test]
fn test_simulate_same_token_pair_gives_no_hop() {
    assert!(simulate_dex_swap("raydium", 7, 7, 1_000_000).unwrap().is_none());
}

#[test]
fn test_simulate_overflow_is_fatal() {
    let r = simulate_dex_swap("raydium", 1, 2, u64::MAX);
    assert_eq!(r.unwrap_err(), CrossDexError::ArithmeticOverflow);
}

#[test]
fn test_find_direct_route_picks_best_default_venue() {
    // raydium: 992,512,500; orca: 994,009,000 (wins); meteora: 994,008,000
    let hop = find_direct_route(1, 2, 1_000_000_000, &no_preference())
        .unwrap()
        .unwrap();
    assert_eq!(hop.dex, "orca");
    assert_eq!(hop.expected_output, 994_009_000);
}

#[test]
fn test_find_direct_route_respects_preference() {
    let preferred = vec!["raydium".to_string()];
    let hop = find_direct_route(1, 2, 1_000_000_000, &preferred)
        .unwrap()
        .unwrap();
    assert_eq!(hop.dex, "raydium");
    assert_eq!(hop.expected_output, 992_512_500);
}

#[test]
fn test_find_direct_route_unknown_venues_give_none() {
    let preferred = vec!["nowhere".to_string()];
    assert!(find_direct_route(1, 2, 1_000_000, &preferred).unwrap().is_none());
}

// A strictly better direct route always yields a single-hop result, since
// every two-hop route loses fees and slippage twice.
#[test]
fn test_optimizer_prefers_direct_single_hop() {
    let route = find_optimal_route(10, 20, 1_000_000_000, 3, &no_preference()).unwrap();
    assert_eq!(route.hops.len(), 1);
    assert_eq!(route.expected_output, 994_009_000);
}

#[test]
fn test_optimizer_no_route_found() {
    // Identical token pair with a one-hop budget: no venue supports it.
    let r = find_optimal_route(5, 5, 1_000_000, 1, &no_preference());
    assert_eq!(r.unwrap_err(), CrossDexError::NoRouteFound);
}

// An identical token pair can still route through an intermediate token
// when the hop budget allows it.
#[test]
fn test_optimizer_round_trip_through_intermediate() {
    let route = find_optimal_route(5, 5, 1_000_000, 3, &no_preference()).unwrap();
    assert_eq!(route.hops.len(), 2);
    assert_eq!(route.hops[0].input_token, 5);
    assert_eq!(route.hops[1].output_token, 5);
}

// The multi-hop search chains the second hop on the first hop's expected
// output and sums fees and price impacts.
#[test]
fn test_multi_hop_route_chains_amounts_and_sums_impact() {
    let route = find_multi_hop_route(10, 20, 1_000_000_000, 3, &no_preference()).unwrap();
    assert_eq!(route.hops.len(), 2);
    assert_eq!(route.hops[1].input_amount, route.hops[0].expected_output);
    assert_eq!(
        route.price_impact,
        route.hops[0].price_impact + route.hops[1].price_impact
    );
    assert_eq!(route.total_fees, route.hops[0].fees + route.hops[1].fees);
    assert_eq!(route.expected_output, route.hops[1].expected_output);
}

#[test]
fn test_intermediate_tokens_are_three() {
    let mids = get_popular_intermediate_tokens();
    assert_eq!(mids.len(), 3);
}

#[test]
fn test_execute_dex_swap_slippage_exceeded() {
    // Demand more than the venue can deliver.
    let r = execute_dex_swap("raydium", 1_000_000, 1_000_000, 0);
    assert_eq!(r.unwrap_err(), CrossDexError::SlippageTooHigh);
}

#[test]
fn test_execute_dex_swap_unsupported() {
    let r = execute_dex_swap("nowhere", 1_000_000, 0, 0);
    assert_eq!(r.unwrap_err(), CrossDexError::UnsupportedDex);
}

#[test]
fn test_execute_dex_swap_matches_simulation() {
    let res = execute_dex_swap("orca", 1_000_000_000, 0, 0).unwrap();
    assert_eq!(res.output_amount, 994_009_000);
    assert_eq!(res.fees, 3_000_000);
}

fn absurd_route() -> OptimalRoute {
    // A route whose expectation no venue can meet.
    OptimalRoute {
        hops: vec![RouteHop {
            dex: "raydium".to_string(),
            input_token: 1,
            output_token: 2,
            input_amount: 1_000_000,
            expected_output: 2_000_000,
            fees: 250,
            price_impact: 50,
            pool_address: 0,
        }],
        expected_output: 2_000_000,
        total_fees: 250,
        price_impact: 50,
    }
}

// A hop that misses its minimum output fails the whole execution with
// SlippageTooHigh and yields no result.
#[test]
fn test_execute_route_hops_aborts_on_slippage() {
    let r = execute_route_hops(&absurd_route(), 1_000_000, 100);
    assert_eq!(r.unwrap_err(), CrossDexError::SlippageTooHigh);
}

#[test]
fn test_execute_route_hops_emits_one_event_per_hop() {
    let route = find_optimal_route(10, 20, 1_000_000_000, 1, &no_preference()).unwrap();
    let (res, events) = execute_route_hops(&route, 1_000_000_000, 100).unwrap();
    assert_eq!(events.len(), 1);
    assert_eq!(events[0].hop_index, 0);
    assert_eq!(events[0].dex, "orca");
    assert_eq!(events[0].input_amount, 1_000_000_000);
    assert_eq!(events[0].output_amount, res.output_amount);
    assert_eq!(res.hops_executed, 1);
}

#[test]
fn test_initialize_router_validates() {
    assert_eq!(
        initialize_router(1, 11, 0, 0).unwrap_err(),
        CrossDexError::TooManyHops
    );
    assert_eq!(
        initialize_router(1, 3, 5001, 0).unwrap_err(),
        CrossDexError::SlippageTooHigh
    );
    assert_eq!(
        initialize_router(1, 3, 100, 1001).unwrap_err(),
        CrossDexError::FeeTooHigh
    );
    let (config, event) = initialize_router(1, 3, 100, 30).unwrap();
    assert!(config.is_active);
    assert_eq!(config.total_volume, 0);
    assert_eq!(event.routing_fee, 30);
}

#[test]
fn test_execute_optimal_route_handler_success() {
    let (mut config, _) = initialize_router(1, 3, 100, 0).unwrap();
    let (state, event, hop_events) = execute_optimal_route_handler(
        &mut config,
        42,
        10,
        20,
        1_000_000_000,
        900_000_000,
        None,
        &no_preference(),
        1000,
        1002,
    )
    .unwrap();
    assert!(matches!(state.status, RouteStatus::Completed));
    assert_eq!(state.actual_output, 994_009_000);
    assert_eq!(state.total_fees, 3_000_000);
    assert_eq!(state.actual_slippage, 0);
    assert_eq!(event.output_amount, 994_009_000);
    assert_eq!(event.hops_count, 1);
    assert_eq!(event.execution_time, 2);
    assert_eq!(hop_events.len(), 1);
    assert_eq!(config.total_routes_executed, 1);
    assert_eq!(config.total_volume, 1_000_000_000);
    assert_eq!(config.total_fees_collected, 0);
}

#[test]
fn test_execute_optimal_route_handler_routing_fee() {
    let (mut config, _) = initialize_router(1, 3, 100, 1000).unwrap();
    let (state, _, _) = execute_optimal_route_handler(
        &mut config,
        42,
        10,
        20,
        1_000_000_000,
        800_000_000,
        None,
        &no_preference(),
        0,
        0,
    )
    .unwrap();
    // 10% routing fee on the realized output of 994,009,000.
    assert_eq!(state.actual_output, 994_009_000 - 99_400_900);
    assert_eq!(config.total_fees_collected, 99_400_900);
}

// A failing operation mutates nothing: the counters stay zero.
#[test]
fn test_execute_optimal_route_handler_aborts_cleanly() {
    let (mut config, _) = initialize_router(1, 3, 100, 30).unwrap();
    let before = config;
    let r = execute_optimal_route_handler(
        &mut config,
        42,
        10,
        20,
        1_000_000_000,
        u64::MAX,
        None,
        &no_preference(),
        0,
        0,
    );
    assert_eq!(r.unwrap_err(), CrossDexError::RouteNotProfitable);
    assert_eq!(config, before);

    let nowhere = vec!["nowhere".to_string()];
    let r = execute_optimal_route_handler(
        &mut config,
        42,
        5,
        6,
        1_000_000,
        1,
        None,
        &nowhere,
        0,
        0,
    );
    assert_eq!(r.unwrap_err(), CrossDexError::NoRouteFound);
    assert_eq!(config, before);

    let r = execute_optimal_route_handler(
        &mut config,
        42,
        10,
        20,
        0,
        1,
        None,
        &no_preference(),
        0,
        0,
    );
    assert_eq!(r.unwrap_err(), CrossDexError::InvalidAmount);
    assert_eq!(config, before);

    let r = execute_optimal_route_handler(
        &mut config,
        42,
        10,
        20,
        1_000_000,
        1,
        Some(5001),
        &no_preference(),
        0,
        0,
    );
    assert_eq!(r.unwrap_err(), CrossDexError::SlippageTooHigh);
    assert_eq!(config, before);

    config.is_active = false;
    let inactive = config;
    let r = execute_optimal_route_handler(
        &mut config,
        42,
        10,
        20,
        1_000_000,
        1,
        None,
        &no_preference(),
        0,
        0,
    );
    assert_eq!(r.unwrap_err(), CrossDexError::RouterInactive);
    assert_eq!(config, inactive);
}

#[test]
fn test_get_route_quote_handler_values() {
    let (config, _) = initialize_router(1, 3, 100, 30).unwrap();
    let (quote, event) =
        get_route_quote_handler(&config, 10, 20, 1_000_000_000, &no_preference(), 777).unwrap();
    assert_eq!(quote.expected_output, 994_009_000);
    assert_eq!(quote.estimated_fees, 3_000_000);
    assert_eq!(quote.price_impact, 30);
    assert_eq!(quote.timestamp, 777);
    assert_eq!(event.hops_count, 1);
}

#[test]
fn test_register_dex_handler_validation() {
    let (config, _) = initialize_router(1, 3, 100, 30).unwrap();
    let info = |name: &str, fee: u16, active: bool| DexInfo {
        name: name.to_string(),
        program_id: 9,
        fee_rate: fee,
        is_active: active,
        supported_tokens: 4,
    };
    assert_eq!(
        register_dex_handler(&config, 2, info("x", 10, true), 0).unwrap_err(),
        CrossDexError::Unauthorized
    );
    assert_eq!(
        register_dex_handler(&config, 1, info("", 10, true), 0).unwrap_err(),
        CrossDexError::InvalidDexName
    );
    assert_eq!(
        register_dex_handler(&config, 1, info("x", 10001, true), 0).unwrap_err(),
        CrossDexError::FeeTooHigh
    );
    assert_eq!(
        register_dex_handler(&config, 1, info("x", 10, false), 0).unwrap_err(),
        CrossDexError::DexNotActive
    );
    let (registry, event) = register_dex_handler(&config, 1, info("newdex", 25, true), 55).unwrap();
    assert_eq!(registry.success_rate, 10000);
    assert_eq!(registry.total_volume, 0);
    assert_eq!(registry.last_updated, 55);
    assert_eq!(event.dex_name, "newdex");
}

#[test]
fn test_update_dex_metrics_accumulates_and_overwrites() {
    let (config, _) = initialize_router(1, 3, 100, 30).unwrap();
    let info = DexInfo {
        name: "newdex".to_string(),
        program_id: 9,
        fee_rate: 25,
        is_active: true,
        supported_tokens: 4,
    };
    let (mut registry, _) = register_dex_handler(&config, 1, info, 0).unwrap();
    update_dex_metrics_handler(&config, 1, &mut registry, 100, 2, 9000, 40, 10).unwrap();
    update_dex_metrics_handler(&config, 1, &mut registry, 50, 3, 8000, 60, 20).unwrap();
    assert_eq!(registry.total_volume, 150);
    assert_eq!(registry.total_swaps, 5);
    assert_eq!(registry.success_rate, 8000);
    assert_eq!(registry.average_slippage, 60);
    assert_eq!(registry.last_updated, 20);
    let before_volume = registry.total_volume;
    let r = update_dex_metrics_handler(&config, 7, &mut registry, 1, 1, 1, 1, 30);
    assert_eq!(r.unwrap_err(), CrossDexError::Unauthorized);
    assert_eq!(registry.total_volume, before_volume);
    // An overflowing accumulation is fatal and leaves the entry unchanged.
    let snapshot = registry.total_swaps;
    let r = update_dex_metrics_handler(&config, 1, &mut registry, u64::MAX, u32::MAX, 1, 1, 30);
    assert_eq!(r.unwrap_err(), CrossDexError::ArithmeticOverflow);
    assert_eq!(registry.total_volume, before_volume);
    assert_eq!(registry.total_swaps, snapshot);
}

#[test]
fn test_update_config_handler_atomic() {
    let (mut config, _) = initialize_router(1, 3, 100, 30).unwrap();
    let before = config;
    // The hop update is valid but the fee is not: nothing may change.
    let r = update_config_handler(&mut config, 1, Some(5), None, Some(2000), None);
    assert_eq!(r.unwrap_err(), CrossDexError::FeeTooHigh);
    assert_eq!(config, before);
    let ev = update_config_handler(&mut config, 1, Some(5), Some(200), None, Some(false)).unwrap();
    assert_eq!(config.max_hops, 5);
    assert_eq!(config.default_slippage, 200);
    assert_eq!(config.routing_fee, 30);
    assert!(!config.is_active);
    assert!(!ev.is_active);
    assert_eq!(
        update_config_handler(&mut config, 2, None, None, None, None).unwrap_err(),
        CrossDexError::Unauthorized
    );
}

#[test]
fn test_get_venue_lookup() {
    let (config, _) = initialize_router(1, 3, 100, 30).unwrap();
    let mk = |name: &str, active: bool| DexInfo {
        name: name.to_string(),
        program_id: 9,
        fee_rate: 25,
        is_active: active,
        supported_tokens: 4,
    };
    let (a, _) = register_dex_handler(&config, 1, mk("alpha", true), 0).unwrap();
    let (b, _) = register_dex_handler(&config, 1, mk("beta", true), 0).unwrap();
    let mut venues = vec![a, b];
    venues[1].dex_info.is_active = false;
    let found = get_venue(&venues, "alpha").unwrap();
    assert_eq!(found.name, "alpha");
    assert_eq!(
        get_venue(&venues, "beta").unwrap_err(),
        CrossDexError::UnsupportedDex
    );
    assert_eq!(
        get_venue(&venues, "gamma").unwrap_err(),
        CrossDexError::UnsupportedDex
    );
}

#[test]
fn test_fee_and_slippage_helpers() {
    assert_eq!(calculate_routing_fee(1_000_000_000, 25), 2_500_000);
    assert_eq!(calculate_total_slippage(100, 110), 0);
    assert_eq!(calculate_total_slippage(110, 100), 909);
    assert_eq!(calculate_min_output_with_slippage(10_000, 500), 9_500);
}

#[test]
fn test_route_total_helpers_match_fields() {
    let route = find_multi_hop_route(10, 20, 1_000_000_000, 3, &no_preference()).unwrap();
    assert_eq!(calculate_total_route_fees(&route), route.total_fees);
    assert_eq!(calculate_total_price_impact(&route), route.price_impact);
    assert_eq!(calculate_combined_price_impact(&route.hops), route.price_impact);
}
