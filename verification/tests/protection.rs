use arbitrage_core::protection::analyze_mev_risk;
use arbitrage_core::protection::apply_advanced_protection;
use arbitrage_core::protection::apply_basic_protection;
use arbitrage_core::protection::apply_maximum_protection;
use arbitrage_core::protection::calculate_detection_confidence;
use arbitrage_core::protection::calculate_liquidity_risk;
use arbitrage_core::protection::calculate_protection_fee;
use arbitrage_core::protection::calculate_timing_risk;
use arbitrage_core::protection::cancel_protected_transaction_handler;
use arbitrage_core::protection::create_protected_transaction_handler;
use arbitrage_core::protection::detect_sandwich_attack;
use arbitrage_core::protection::estimate_price_impact;
use arbitrage_core::protection::execute_protected_transaction_handler;
use arbitrage_core::protection::execute_with_protection;
use arbitrage_core::protection::generate_nonce;
use arbitrage_core::protection::handle_high_mev_risk;
use arbitrage_core::protection::initialize_handler;
use arbitrage_core::protection::report_mev_attack_handler;
use arbitrage_core::protection::simulate_protected_swap;
use arbitrage_core::protection::simulate_swap;
use arbitrage_core::protection::update_protection_config_handler;
use arbitrage_core::protection::validate_transaction_params;
use arbitrage_core::protection::AttackDetails;
use arbitrage_core::protection::AttackType;
use arbitrage_core::protection::MevProtectionError;
use arbitrage_core::protection::ProtectionLevel;
use arbitrage_core::protection::RiskLevel;
use arbitrage_core::protection::SandwichAttackDetected;
use arbitrage_core::protection::TransactionParams;
use arbitrage_core::protection::TransactionStatus;

fn params(input_amount: u64, max_slippage: u16) -> TransactionParams {
    TransactionParams {
        input_token: 1,
        output_token: 2,
        input_amount,
        min_output_amount: 1,
        max_slippage,
        dex: "raydium".to_string(),
    }
}

// Scenario: two billion units at a 600 bps tolerance score 300 for size and
// 400 for slippage before the price-impact term, so the level is at least
// High.
#[test]
fn test_risk_scenario_large_loose_transaction() {
    let analysis = analyze_mev_risk(&params(2_000_000_000, 600), 0).unwrap();
    assert!(analysis.risk_score >= 700);
    assert!(matches!(
        analysis.risk_level,
        RiskLevel::High | RiskLevel::Critical
    ));
    // With the +500 price-impact term the score is 1200: Critical.
    assert_eq!(analysis.risk_score, 1200);
    assert_eq!(analysis.risk_level, RiskLevel::Critical);
    assert_eq!(analysis.price_impact, 500);
    assert_eq!(analysis.liquidity_risk, 800);
}

#[test]
fn test_risk_score_buckets() {
    assert_eq!(analyze_mev_risk(&params(1_000, 10), 0).unwrap().risk_score, 0);
    assert_eq!(
        analyze_mev_risk(&params(1_000, 10), 0).unwrap().risk_level,
        RiskLevel::Low
    );
    // 150 (size) + 250 (impact 200 bps) = 400: Medium.
    let medium = analyze_mev_risk(&params(200_000_000, 10), 0).unwrap();
    assert_eq!(medium.risk_score, 400);
    assert_eq!(medium.risk_level, RiskLevel::Medium);
    // 300 + 0 + 500 = 800: High.
    let high = analyze_mev_risk(&params(2_000_000_000, 50), 0).unwrap();
    assert_eq!(high.risk_score, 800);
    assert_eq!(high.risk_level, RiskLevel::High);
}

#[test]
fn test_assessment_is_deterministic() {
    let a1 = analyze_mev_risk(&params(200_000_000, 150), 123).unwrap();
    let a2 = analyze_mev_risk(&params(200_000_000, 150), 123).unwrap();
    assert_eq!(a1, a2);
}

#[test]
fn test_timing_risk_is_slot_window() {
    assert_eq!(calculate_timing_risk(12_345).unwrap(), 345);
    assert_eq!(analyze_mev_risk(&params(1, 1), 12_345).unwrap().timing_risk, 345);
}

#[test]
fn test_price_impact_and_liquidity_buckets() {
    assert_eq!(estimate_price_impact(&params(50, 0)).unwrap(), 50);
    assert_eq!(estimate_price_impact(&params(200_000_000, 0)).unwrap(), 200);
    assert_eq!(estimate_price_impact(&params(2_000_000_000, 0)).unwrap(), 500);
    assert_eq!(calculate_liquidity_risk(&params(50, 0)).unwrap(), 100);
    assert_eq!(calculate_liquidity_risk(&params(200_000_000, 0)).unwrap(), 400);
    assert_eq!(calculate_liquidity_risk(&params(2_000_000_000, 0)).unwrap(), 800);
}

#[test]
fn test_detect_sandwich_pattern() {
    // Large amount with loose tolerance (+400) and very loose slippage
    // (+300) at an unsuspicious time: 700 > 600, detected as a sandwich.
    let det = detect_sandwich_attack(&params(600_000_000, 600), 30).unwrap();
    assert!(det.is_detected);
    assert_eq!(det.risk_score, 700);
    assert_eq!(det.attack_type, AttackType::Sandwich);
    assert_eq!(det.confidence, 8000);
}

#[test]
fn test_detect_frontrun_pattern_not_detected() {
    // Only the slippage signal (+300): tagged Frontrun but below threshold.
    let det = detect_sandwich_attack(&params(1_000, 600), 30).unwrap();
    assert!(!det.is_detected);
    assert_eq!(det.risk_score, 300);
    assert_eq!(det.attack_type, AttackType::Frontrun);
    assert_eq!(det.confidence, 2000);
}

#[test]
fn test_detect_timing_window_signal() {
    // The first seconds of each minute add the timing signal.
    let quiet = detect_sandwich_attack(&params(1_000, 10), 30).unwrap();
    assert_eq!(quiet.risk_score, 0);
    assert_eq!(quiet.attack_type, AttackType::NoAttack);
    let suspicious = detect_sandwich_attack(&params(1_000, 10), 60).unwrap();
    assert_eq!(suspicious.risk_score, 200);
}

#[test]
fn test_detection_confidence_buckets() {
    assert_eq!(calculate_detection_confidence(300), 2000);
    assert_eq!(calculate_detection_confidence(600), 5000);
    assert_eq!(calculate_detection_confidence(900), 8000);
    assert_eq!(calculate_detection_confidence(901), 9500);
}

#[test]
fn test_protection_mechanisms_by_level() {
    let cfg = initialize_handler(1).unwrap().0;
    let basic = apply_basic_protection(&cfg).unwrap();
    assert!(basic.time_delay && basic.slippage_protection);
    assert!(!basic.price_impact_check && !basic.commit_reveal);
    let advanced = apply_advanced_protection(&cfg).unwrap();
    assert!(advanced.price_impact_check && advanced.frontrun_detection);
    assert!(!advanced.commit_reveal && !advanced.private_mempool);
    let maximum = apply_maximum_protection(&cfg).unwrap();
    assert!(maximum.commit_reveal && maximum.private_mempool);
}

#[test]
fn test_protection_fee_by_level() {
    assert_eq!(calculate_protection_fee(1_000_000, &ProtectionLevel::Basic), 1_000);
    assert_eq!(calculate_protection_fee(1_000_000, &ProtectionLevel::Advanced), 2_500);
    assert_eq!(calculate_protection_fee(1_000_000, &ProtectionLevel::Maximum), 5_000);
}

#[test]
fn test_generate_nonce_values() {
    assert_eq!(generate_nonce(1_000, 7).unwrap(), 1_007);
    assert_eq!(
        generate_nonce(i64::MAX, u64::MAX).unwrap_err(),
        MevProtectionError::ArithmeticOverflow
    );
}

#[test]
fn test_swap_simulations() {
    let swap = simulate_protected_swap(&params(1_000_000, 0), &ProtectionLevel::Basic).unwrap();
    assert_eq!(swap.output_amount, 990_000);
    assert_eq!(swap.gas_used, 50_000);
    assert_eq!(swap.execution_time, 2_000);
    assert_eq!(simulate_swap(&params(0, 100), 1_000_000).unwrap(), 940_500);
    let res = execute_with_protection(&params(1_000_000, 0), &ProtectionLevel::Advanced).unwrap();
    assert_eq!(res.output_amount, 990_000);
    assert_eq!(res.protection_fee, 2_500);
}

#[test]
fn test_validate_transaction_params_errors() {
    let cfg = initialize_handler(1).unwrap().0;
    assert_eq!(
        validate_transaction_params(&params(0, 10), &cfg).unwrap_err(),
        MevProtectionError::InvalidAmount
    );
    let mut p = params(10, 10);
    p.min_output_amount = 0;
    assert_eq!(
        validate_transaction_params(&p, &cfg).unwrap_err(),
        MevProtectionError::InvalidAmount
    );
    assert_eq!(
        validate_transaction_params(&params(10, 201), &cfg).unwrap_err(),
        MevProtectionError::SlippageTooHigh
    );
    assert!(validate_transaction_params(&params(10, 200), &cfg).is_ok());
}

#[test]
fn test_create_protected_transaction_levels() {
    let cfg = initialize_handler(1).unwrap().0;
    let (tx, ev) = create_protected_transaction_handler(
        &cfg,
        42,
        params(10, 100),
        ProtectionLevel::Basic,
        1_000,
        5,
    )
    .unwrap();
    assert_eq!(tx.status, TransactionStatus::Pending);
    assert_eq!(tx.execution_deadline, 1_010);
    assert_eq!(tx.nonce, 1_005);
    assert_eq!(tx.created_at, 1_000);
    assert!(tx.execution_result.is_none());
    assert_eq!(ev.transaction_id, 1_005);
    let (advanced, _) = create_protected_transaction_handler(
        &cfg,
        42,
        params(10, 100),
        ProtectionLevel::Advanced,
        1_000,
        5,
    )
    .unwrap();
    assert_eq!(advanced.execution_deadline, 1_015);
    let (maximum, _) = create_protected_transaction_handler(
        &cfg,
        42,
        params(10, 100),
        ProtectionLevel::Maximum,
        1_000,
        5,
    )
    .unwrap();
    assert_eq!(maximum.execution_deadline, 1_020);
    assert!(maximum.protection_mechanisms.commit_reveal);
    assert!(maximum.protection_mechanisms.private_mempool);
}

#[test]
fn test_create_protected_transaction_rejections() {
    let mut cfg = initialize_handler(1).unwrap().0;
    assert_eq!(
        create_protected_transaction_handler(
            &cfg,
            42,
            params(10, 201),
            ProtectionLevel::Basic,
            0,
            0
        )
        .unwrap_err(),
        MevProtectionError::SlippageTooHigh
    );
    cfg.is_active = false;
    assert_eq!(
        create_protected_transaction_handler(
            &cfg,
            42,
            params(10, 100),
            ProtectionLevel::Basic,
            0,
            0
        )
        .unwrap_err(),
        MevProtectionError::ProtectionInactive
    );
}

#[test]
fn test_execute_too_early_and_wrong_status() {
    let mut cfg = initialize_handler(1).unwrap().0;
    let (mut tx, _) = create_protected_transaction_handler(
        &cfg,
        42,
        params(10, 100),
        ProtectionLevel::Basic,
        1_000,
        5,
    )
    .unwrap();
    let r = execute_protected_transaction_handler(&mut cfg, &mut tx, 1_005, 0);
    assert_eq!(r.unwrap_err(), MevProtectionError::ExecutionTooEarly);
    assert_eq!(tx.status, TransactionStatus::Pending);
    tx.status = TransactionStatus::Cancelled;
    let r = execute_protected_transaction_handler(&mut cfg, &mut tx, 2_000, 0);
    assert_eq!(r.unwrap_err(), MevProtectionError::InvalidTransactionStatus);
}

#[test]
fn test_execute_success_low_risk() {
    let mut cfg = initialize_handler(1).unwrap().0;
    let (mut tx, _) = create_protected_transaction_handler(
        &cfg,
        42,
        params(1_000_000, 100),
        ProtectionLevel::Basic,
        1_000,
        5,
    )
    .unwrap();
    // An unsuspicious second within the minute avoids the timing signal.
    let (res, ev) = execute_protected_transaction_handler(&mut cfg, &mut tx, 1_030, 7).unwrap();
    assert_eq!(res.output_amount, 990_000);
    assert_eq!(res.protection_fee, 1_000);
    assert_eq!(tx.status, TransactionStatus::Executed);
    assert_eq!(tx.executed_at, 1_030);
    assert_eq!(tx.execution_result, Some(res));
    assert_eq!(cfg.total_transactions_protected, 1);
    assert_eq!(cfg.total_mev_attacks_prevented, 0);
    assert_eq!(ev.mev_risk_level, RiskLevel::Low);
}

#[test]
fn test_execute_medium_risk_counts_prevention() {
    let mut cfg = initialize_handler(1).unwrap().0;
    let (mut tx, _) = create_protected_transaction_handler(
        &cfg,
        42,
        params(200_000_000, 100),
        ProtectionLevel::Basic,
        1_000,
        5,
    )
    .unwrap();
    let (_, ev) = execute_protected_transaction_handler(&mut cfg, &mut tx, 1_030, 7).unwrap();
    assert_eq!(ev.mev_risk_level, RiskLevel::Medium);
    assert_eq!(cfg.total_transactions_protected, 1);
    assert_eq!(cfg.total_mev_attacks_prevented, 1);
}

// A high risk extends the deadline and defers execution: the transaction
// stays Pending and must be executed afresh after the new deadline.
#[test]
fn test_execute_high_risk_defers() {
    let mut cfg = initialize_handler(1).unwrap().0;
    let (mut tx, _) = create_protected_transaction_handler(
        &cfg,
        42,
        params(2_000_000_000, 50),
        ProtectionLevel::Basic,
        1_000,
        5,
    )
    .unwrap();
    let deadline = tx.execution_deadline;
    let r = execute_protected_transaction_handler(&mut cfg, &mut tx, 1_030, 7);
    assert_eq!(r.unwrap_err(), MevProtectionError::MevRiskTooHigh);
    assert_eq!(tx.status, TransactionStatus::Pending);
    assert_eq!(tx.execution_deadline, deadline + 5);
    assert_eq!(cfg.total_transactions_protected, 0);
}

#[test]
fn test_execute_critical_risk_enables_all_mechanisms() {
    let mut cfg = initialize_handler(1).unwrap().0;
    // A tolerance this loose cannot pass creation; widen it afterwards.
    // 300 bps is no sandwich shape, but scores 300+200+500 = 1000: Critical.
    let (mut tx, _) = create_protected_transaction_handler(
        &cfg,
        42,
        params(2_000_000_000, 50),
        ProtectionLevel::Basic,
        1_000,
        5,
    )
    .unwrap();
    tx.params.max_slippage = 300;
    let deadline = tx.execution_deadline;
    let r = execute_protected_transaction_handler(&mut cfg, &mut tx, 1_030, 7);
    assert_eq!(r.unwrap_err(), MevProtectionError::MevRiskTooHigh);
    assert_eq!(tx.status, TransactionStatus::Pending);
    assert_eq!(tx.execution_deadline, deadline + 10);
    assert!(tx.protection_mechanisms.commit_reveal);
    assert!(tx.protection_mechanisms.private_mempool);
}

// A detected sandwich pattern blocks the transaction terminally: the status
// becomes Blocked, the attack record is carried with the failure, and the
// same shape cannot be retried.
#[test]
fn test_execute_sandwich_pattern_blocks() {
    let mut cfg = initialize_handler(1).unwrap().0;
    let (mut tx, _) = create_protected_transaction_handler(
        &cfg,
        42,
        params(1_000_000, 100),
        ProtectionLevel::Basic,
        1_000,
        5,
    )
    .unwrap();
    // A shape this risky cannot pass creation; widen it afterwards.
    tx.params.input_amount = 600_000_000;
    tx.params.max_slippage = 600;
    let r = execute_protected_transaction_handler(&mut cfg, &mut tx, 1_030, 7);
    assert_eq!(
        r.unwrap_err(),
        MevProtectionError::SandwichAttackDetected(SandwichAttackDetected {
            transaction_id: 1_005,
            user: 42,
            risk_score: 700,
            attack_type: AttackType::Sandwich,
        })
    );
    assert_eq!(tx.status, TransactionStatus::Blocked);
    assert_eq!(cfg.total_transactions_protected, 0);
    assert_eq!(cfg.total_mev_attacks_prevented, 0);
    // Blocked is terminal: a fresh call does not retry the risky shape.
    let retry = execute_protected_transaction_handler(&mut cfg, &mut tx, 2_000, 7);
    assert_eq!(retry.unwrap_err(), MevProtectionError::InvalidTransactionStatus);
    assert_eq!(tx.status, TransactionStatus::Blocked);
}

#[test]
fn test_handle_high_mev_risk_low_is_noop() {
    let cfg = initialize_handler(1).unwrap().0;
    let (mut tx, _) = create_protected_transaction_handler(
        &cfg,
        42,
        params(1_000, 10),
        ProtectionLevel::Basic,
        1_000,
        5,
    )
    .unwrap();
    let analysis = analyze_mev_risk(&tx.params, 0).unwrap();
    let deadline = tx.execution_deadline;
    handle_high_mev_risk(&mut tx, &analysis, &cfg).unwrap();
    assert_eq!(tx.execution_deadline, deadline);
}

// Scenario: cancelling a transaction that was already executed fails with
// InvalidTransactionStatus.
#[test]
fn test_cancel_executed_transaction_fails() {
    let mut cfg = initialize_handler(1).unwrap().0;
    let (mut tx, _) = create_protected_transaction_handler(
        &cfg,
        42,
        params(1_000_000, 100),
        ProtectionLevel::Basic,
        1_000,
        5,
    )
    .unwrap();
    execute_protected_transaction_handler(&mut cfg, &mut tx, 1_030, 7).unwrap();
    assert_eq!(tx.status, TransactionStatus::Executed);
    let r = cancel_protected_transaction_handler(&mut tx, 42, 1_040);
    assert_eq!(r.unwrap_err(), MevProtectionError::InvalidTransactionStatus);
    assert_eq!(tx.status, TransactionStatus::Executed);
}

#[test]
fn test_cancel_pending_transaction() {
    let cfg = initialize_handler(1).unwrap().0;
    let (mut tx, _) = create_protected_transaction_handler(
        &cfg,
        42,
        params(1_000_000, 100),
        ProtectionLevel::Basic,
        1_000,
        5,
    )
    .unwrap();
    let r = cancel_protected_transaction_handler(&mut tx, 7, 1_040);
    assert_eq!(r.unwrap_err(), MevProtectionError::Unauthorized);
    assert_eq!(tx.status, TransactionStatus::Pending);
    let ev = cancel_protected_transaction_handler(&mut tx, 42, 1_040).unwrap();
    assert_eq!(tx.status, TransactionStatus::Cancelled);
    assert_eq!(tx.cancelled_at, 1_040);
    assert_eq!(ev.cancelled_at, 1_040);
}

#[test]
fn test_update_protection_config_atomic() {
    let mut cfg = initialize_handler(1).unwrap().0;
    let before = cfg;
    assert_eq!(
        update_protection_config_handler(&mut cfg, 2, None, None, None, None).unwrap_err(),
        MevProtectionError::Unauthorized
    );
    assert_eq!(
        update_protection_config_handler(&mut cfg, 1, Some(5001), None, None, None).unwrap_err(),
        MevProtectionError::PriceImpactTooHigh
    );
    assert_eq!(
        update_protection_config_handler(&mut cfg, 1, Some(100), Some(301), None, None)
            .unwrap_err(),
        MevProtectionError::InvalidTimeDelay
    );
    assert_eq!(
        update_protection_config_handler(&mut cfg, 1, Some(100), Some(-1), None, None)
            .unwrap_err(),
        MevProtectionError::InvalidTimeDelay
    );
    assert_eq!(
        update_protection_config_handler(&mut cfg, 1, None, None, Some(1001), None).unwrap_err(),
        MevProtectionError::SlippageProtectionTooHigh
    );
    assert_eq!(cfg, before);
    update_protection_config_handler(&mut cfg, 1, Some(400), Some(20), Some(300), Some(false))
        .unwrap();
    assert_eq!(cfg.max_price_impact, 400);
    assert_eq!(cfg.min_time_delay, 20);
    assert_eq!(cfg.max_slippage_protection, 300);
    assert!(!cfg.is_active);
}

#[test]
fn test_report_mev_attack() {
    let details = AttackDetails {
        attack_type: AttackType::Sandwich,
        victim_transaction: 77,
        attacker_address: Some(88),
        estimated_damage: 12_345,
        description: "observed front and back runs".to_string(),
    };
    let (report, ev) = report_mev_attack_handler(5, details, 900).unwrap();
    assert_eq!(report.reporter, 5);
    assert_eq!(report.reported_at, 900);
    assert_eq!(report.attack_details.victim_transaction, 77);
    assert_eq!(ev.attack_type, AttackType::Sandwich);
    assert_eq!(ev.estimated_damage, 12_345);
}
