//! MEV risk scoring and the protected-transaction state machine.
//!
//! A protected transaction is created `Pending` with a protection level and
//! a delayed execution deadline. On or after the deadline, risk assessment
//! gates execution: a detected sandwich pattern blocks the transaction for
//! good, a high risk extends the deadline and defers execution to a later
//! call, and otherwise the swap executes. All status transitions are
//! one-way.

use vstd::prelude::*;
use crate::math::lemma_bps_le_amount;
use crate::router::spec_unwrap_or;

verus! {

/// Configuration for the MEV protection system
#[derive(Clone, Copy, Debug, PartialEq, Eq, Structural)]
pub struct ProtectionConfig {
    /// Authority that can modify the protection configuration
    pub authority: u64,
    /// Maximum allowed price impact in basis points
    pub max_price_impact: u16,
    /// Minimum time delay for transaction execution in seconds
    pub min_time_delay: i64,
    /// Maximum slippage protection in basis points
    pub max_slippage_protection: u16,
    /// Total number of transactions protected by the system
    pub total_transactions_protected: u64,
    /// Total number of MEV attacks prevented
    pub total_mev_attacks_prevented: u64,
    /// Whether the protection system is currently active
    pub is_active: bool,
}

impl ProtectionConfig {
    /// Bounds that initialization enforces and every update preserves.
    pub open spec fn wf(self) -> bool {
        &&& self.max_price_impact <= 5000
        &&& 0 <= self.min_time_delay <= 300
        &&& self.max_slippage_protection <= 1000
    }
}

/// Parameters for a protected transaction
#[derive(Clone, Debug)]
pub struct TransactionParams {
    /// Token to be swapped from
    pub input_token: u64,
    /// Token to be swapped to
    pub output_token: u64,
    /// Amount of input tokens to swap
    pub input_amount: u64,
    /// Minimum acceptable output amount
    pub min_output_amount: u64,
    /// Maximum allowed slippage in basis points
    pub max_slippage: u16,
    /// Name of the DEX to use for the swap
    pub dex: String,
}

/// Level of MEV protection
#[derive(Clone, Copy, Debug, PartialEq, Eq, Structural)]
pub enum ProtectionLevel {
    /// Basic protection with minimal overhead
    Basic,
    /// Advanced protection with comprehensive checks
    Advanced,
    /// Maximum protection with all available mechanisms
    Maximum,
}

/// Available protection mechanisms
#[derive(Clone, Copy, Debug, PartialEq, Eq, Structural)]
pub struct ProtectionMechanisms {
    pub time_delay: bool,
    pub slippage_protection: bool,
    pub price_impact_check: bool,
    pub frontrun_detection: bool,
    pub commit_reveal: bool,
    pub private_mempool: bool,
}

/// Status of a protected transaction
#[derive(Clone, Copy, Debug, PartialEq, Eq, Structural)]
pub enum TransactionStatus {
    /// Transaction is pending execution
    Pending,
    /// Transaction has been executed successfully
    Executed,
    /// Transaction was cancelled by user
    Cancelled,
    /// Transaction was blocked due to MEV risk
    Blocked,
}

/// Result of transaction execution
#[derive(Clone, Copy, Debug, PartialEq, Eq, Structural)]
pub struct ExecutionResult {
    pub input_amount: u64,
    pub output_amount: u64,
    pub protection_fee: u64,
    pub gas_used: u64,
    pub execution_time: u64,
}

/// A transaction protected against MEV attacks
#[derive(Clone, Debug)]
pub struct ProtectedTransaction {
    pub user: u64,
    pub params: TransactionParams,
    pub protection_level: ProtectionLevel,
    pub protection_mechanisms: ProtectionMechanisms,
    pub status: TransactionStatus,
    pub nonce: u64,
    pub created_at: i64,
    pub execution_deadline: i64,
    pub executed_at: i64,
    pub cancelled_at: i64,
    pub execution_result: Option<ExecutionResult>,
}

/// Type of MEV attack
#[derive(Clone, Copy, Debug, PartialEq, Eq, Structural)]
pub enum AttackType {
    /// No attack detected
    NoAttack,
    /// Sandwich attack (front-run + back-run)
    Sandwich,
    /// Front-running attack
    Frontrun,
    /// Back-running attack
    Backrun,
    /// Just-in-time liquidity attack
    JustInTime,
}

/// Status of an attack report
#[derive(Clone, Copy, Debug, PartialEq, Eq, Structural)]
pub enum ReportStatus {
    /// Report is pending review
    Pending,
    /// Report has been verified as valid
    Verified,
    /// Report has been rejected as invalid
    Rejected,
}

/// Risk level assessment
#[derive(Clone, Copy, Debug, PartialEq, Eq, Structural)]
pub enum RiskLevel {
    /// Low risk level
    Low,
    /// Medium risk level
    Medium,
    /// High risk level
    High,
    /// Critical risk level
    Critical,
}

/// MEV risk analysis result
#[derive(Clone, Copy, Debug, PartialEq, Eq, Structural)]
pub struct MevAnalysis {
    pub risk_level: RiskLevel,
    /// Numerical risk score (0-1000+)
    pub risk_score: u16,
    /// Estimated price impact in basis points
    pub price_impact: u16,
    pub liquidity_risk: u16,
    pub timing_risk: u16,
}

/// Sandwich attack detection result
#[derive(Clone, Copy, Debug, PartialEq, Eq, Structural)]
pub struct SandwichDetection {
    pub is_detected: bool,
    pub risk_score: u16,
    pub attack_type: AttackType,
    /// Confidence of the detection, in basis points
    pub confidence: u16,
}

/// Result of a swap operation
#[derive(Clone, Copy, Debug, PartialEq, Eq, Structural)]
pub struct SwapResult {
    pub output_amount: u64,
    pub gas_used: u64,
    pub execution_time: u64,
}

/// Details of a reported MEV attack
#[derive(Clone, Debug)]
pub struct AttackDetails {
    pub attack_type: AttackType,
    pub victim_transaction: u64,
    pub attacker_address: Option<u64>,
    pub estimated_damage: u64,
    pub description: String,
}

/// Report of a detected MEV attack
#[derive(Clone, Debug)]
pub struct AttackReport {
    pub reporter: u64,
    pub attack_details: AttackDetails,
    pub reported_at: i64,
    pub status: ReportStatus,
}

/// Errors that can occur in the MEV protection program
#[derive(Clone, Copy, Debug, PartialEq, Eq, Structural)]
pub enum MevProtectionError {
    ProtectionInactive,
    InvalidAmount,
    SlippageTooHigh,
    ExecutionTooEarly,
    InvalidTransactionStatus,
    /// A sandwich pattern was detected; carries the emitted attack record
    SandwichAttackDetected(SandwichAttackDetected),
    PriceImpactTooHigh,
    InvalidTimeDelay,
    SlippageProtectionTooHigh,
    MevRiskTooHigh,
    FrontrunAttackDetected,
    InsufficientProtectionLevel,
    TransactionExpired,
    Unauthorized,
    InvalidConfig,
    ArithmeticOverflow,
}

// Events

/// Event emitted when MEV protection is initialized
#[derive(Clone, Copy, Debug, PartialEq, Eq, Structural)]
pub struct MevProtectionInitialized {
    pub authority: u64,
    pub max_price_impact: u16,
    pub min_time_delay: i64,
    pub max_slippage_protection: u16,
}

/// Event emitted when a protected transaction is created
#[derive(Clone, Copy, Debug, PartialEq, Eq, Structural)]
pub struct ProtectedTransactionCreated {
    pub user: u64,
    pub transaction_id: u64,
    pub protection_level: ProtectionLevel,
    pub execution_deadline: i64,
}

/// Event emitted when a protected transaction is executed
#[derive(Clone, Copy, Debug, PartialEq, Eq, Structural)]
pub struct ProtectedTransactionExecuted {
    pub transaction_id: u64,
    pub user: u64,
    pub input_amount: u64,
    pub output_amount: u64,
    pub protection_fee: u64,
    pub mev_risk_level: RiskLevel,
}

/// Event emitted when a protected transaction is cancelled
#[derive(Clone, Copy, Debug, PartialEq, Eq, Structural)]
pub struct ProtectedTransactionCancelled {
    pub transaction_id: u64,
    pub user: u64,
    pub cancelled_at: i64,
}

/// Event emitted when a sandwich attack is detected and the transaction is
/// blocked
#[derive(Clone, Copy, Debug, PartialEq, Eq, Structural)]
pub struct SandwichAttackDetected {
    pub transaction_id: u64,
    pub user: u64,
    pub risk_score: u16,
    pub attack_type: AttackType,
}

/// Event emitted when protection configuration is updated
#[derive(Clone, Copy, Debug, PartialEq, Eq, Structural)]
pub struct ProtectionConfigUpdated {
    pub authority: u64,
    pub max_price_impact: u16,
    pub min_time_delay: i64,
    pub max_slippage_protection: u16,
    pub is_active: bool,
}

/// Event emitted when an MEV attack is reported
#[derive(Clone, Copy, Debug, PartialEq, Eq, Structural)]
pub struct MevAttackReported {
    pub reporter: u64,
    pub attack_type: AttackType,
    pub victim_transaction: u64,
    pub estimated_damage: u64,
}

// Risk engine

/// Estimated price impact of a transaction, by size bucket, in basis points.
pub open spec fn spec_estimate_price_impact(input_amount: u64) -> u16 {
    if input_amount > 1_000_000_000 {
        500u16
    } else if input_amount > 100_000_000 {
        200u16
    } else {
        50u16
    }
}

/// Liquidity risk of a transaction, by size bucket.
pub open spec fn spec_liquidity_risk(input_amount: u64) -> u16 {
    if input_amount > 1_000_000_000 {
        800u16
    } else if input_amount > 100_000_000 {
        400u16
    } else {
        100u16
    }
}

/// Risk contributed by transaction size.
pub open spec fn spec_size_score(input_amount: u64) -> u16 {
    if input_amount > 1_000_000_000 {
        300u16
    } else if input_amount > 100_000_000 {
        150u16
    } else {
        0u16
    }
}

/// Risk contributed by slippage tolerance.
pub open spec fn spec_slippage_score(max_slippage: u16) -> u16 {
    if max_slippage > 500 {
        400u16
    } else if max_slippage > 100 {
        200u16
    } else {
        0u16
    }
}

/// Risk contributed by estimated price impact.
pub open spec fn spec_impact_score(price_impact: u16) -> u16 {
    if price_impact > 300 {
        500u16
    } else if price_impact > 100 {
        250u16
    } else {
        0u16
    }
}

/// The additive risk score of a transaction: independent signals for size,
/// slippage tolerance and estimated price impact.
pub open spec fn spec_risk_score(params: TransactionParams) -> u16 {
    (spec_size_score(params.input_amount) + spec_slippage_score(params.max_slippage)
        + spec_impact_score(spec_estimate_price_impact(params.input_amount))) as u16
}

/// The risk level of a score: 0-200 low, 201-500 medium, 501-800 high,
/// above that critical.
pub open spec fn spec_risk_level(score: u16) -> RiskLevel {
    if score <= 200 {
        RiskLevel::Low
    } else if score <= 500 {
        RiskLevel::Medium
    } else if score <= 800 {
        RiskLevel::High
    } else {
        RiskLevel::Critical
    }
}

/// The complete risk assessment of a transaction at a ledger slot.
pub open spec fn spec_analyze_mev_risk(params: TransactionParams, slot: u64) -> MevAnalysis {
    let score = spec_risk_score(params);
    MevAnalysis {
        risk_level: spec_risk_level(score),
        risk_score: score,
        price_impact: spec_estimate_price_impact(params.input_amount),
        liquidity_risk: spec_liquidity_risk(params.input_amount),
        timing_risk: (slot % 1000) as u16,
    }
}

/// Detection confidence for a pattern score, in basis points.
pub open spec fn spec_detection_confidence(risk_score: u16) -> u16 {
    if risk_score <= 300 {
        2000u16
    } else if risk_score <= 600 {
        5000u16
    } else if risk_score <= 900 {
        8000u16
    } else {
        9500u16
    }
}

/// The sandwich-pattern heuristic: a large transaction with a loose slippage
/// bound, a coarse timing window on the clock, and a separate front-running
/// signal for very loose slippage bounds. A pattern is detected when the
/// combined score exceeds 600.
pub open spec fn spec_detect_sandwich(params: TransactionParams, current_time: i64) -> SandwichDetection {
    let base: (u16, AttackType) = if params.input_amount > 500_000_000 && params.max_slippage
        > 300 {
        (400u16, AttackType::Sandwich)
    } else {
        (0u16, AttackType::NoAttack)
    };
    let with_timing: u16 = if current_time % 60 < 5 {
        (base.0 + 200) as u16
    } else {
        base.0
    };
    let scored: (u16, AttackType) = if params.max_slippage > 500 {
        (
            (with_timing + 300) as u16,
            if base.1 is NoAttack {
                AttackType::Frontrun
            } else {
                base.1
            },
        )
    } else {
        (with_timing, base.1)
    };
    SandwichDetection {
        is_detected: scored.0 > 600,
        risk_score: scored.0,
        attack_type: scored.1,
        confidence: spec_detection_confidence(scored.0),
    }
}

/// Estimate the price impact of a transaction from its size.
pub fn estimate_price_impact(params: &TransactionParams) -> (r: Result<u16, MevProtectionError>)
    ensures
        r == Ok::<u16, MevProtectionError>(spec_estimate_price_impact(params.input_amount)),
{
    if params.input_amount > 1_000_000_000 {
        Ok(500)
    } else if params.input_amount > 100_000_000 {
        Ok(200)
    } else {
        Ok(50)
    }
}

/// Calculate the liquidity risk of a transaction from its size.
pub fn calculate_liquidity_risk(params: &TransactionParams) -> (r: Result<u16, MevProtectionError>)
    ensures
        r == Ok::<u16, MevProtectionError>(spec_liquidity_risk(params.input_amount)),
{
    if params.input_amount > 1_000_000_000 {
        Ok(800)
    } else if params.input_amount > 100_000_000 {
        Ok(400)
    } else {
        Ok(100)
    }
}

/// Calculate the timing-based risk factor from the current ledger slot.
pub fn calculate_timing_risk(slot: u64) -> (r: Result<u16, MevProtectionError>)
    ensures
        r == Ok::<u16, MevProtectionError>((slot % 1000) as u16),
{
    Ok((slot % 1000) as u16)
}

/// Calculate the confidence level for attack detection.
pub fn calculate_detection_confidence(risk_score: u16) -> (r: u16)
    ensures
        r == spec_detection_confidence(risk_score),
{
    if risk_score <= 300 {
        2000
    } else if risk_score <= 600 {
        5000
    } else if risk_score <= 900 {
        8000
    } else {
        9500
    }
}

/// Assess the MEV risk of a transaction.
///
/// The score adds independent signals for size, slippage tolerance and
/// estimated price impact; the assessment is a pure function of the
/// parameters and the ledger slot.
pub fn analyze_mev_risk(params: &TransactionParams, slot: u64) -> (r: Result<
    MevAnalysis,
    MevProtectionError,
>)
    ensures
        r == Ok::<MevAnalysis, MevProtectionError>(spec_analyze_mev_risk(*params, slot)),
{
    let mut risk_score: u16 = 0;
    if params.input_amount > 1_000_000_000 {
        risk_score = risk_score + 300;
    } else if params.input_amount > 100_000_000 {
        risk_score = risk_score + 150;
    }
    if params.max_slippage > 500 {
        risk_score = risk_score + 400;
    } else if params.max_slippage > 100 {
        risk_score = risk_score + 200;
    }
    let estimated_price_impact = match estimate_price_impact(params) {
        Ok(v) => v,
        Err(e) => {
            return Err(e);
        },
    };
    if estimated_price_impact > 300 {
        risk_score = risk_score + 500;
    } else if estimated_price_impact > 100 {
        risk_score = risk_score + 250;
    }
    let risk_level = if risk_score <= 200 {
        RiskLevel::Low
    } else if risk_score <= 500 {
        RiskLevel::Medium
    } else if risk_score <= 800 {
        RiskLevel::High
    } else {
        RiskLevel::Critical
    };
    let liquidity_risk = match calculate_liquidity_risk(params) {
        Ok(v) => v,
        Err(e) => {
            return Err(e);
        },
    };
    let timing_risk = match calculate_timing_risk(slot) {
        Ok(v) => v,
        Err(e) => {
            return Err(e);
        },
    };
    Ok(
        MevAnalysis {
            risk_level,
            risk_score,
            price_impact: estimated_price_impact,
            liquidity_risk,
            timing_risk,
        },
    )
}

/// Detect sandwich and front-running patterns around a transaction.
///
/// The detection is a pure heuristic over the parameters and the clock; a
/// combined pattern score above 600 marks the transaction as attacked.
pub fn detect_sandwich_attack(params: &TransactionParams, current_time: i64) -> (r: Result<
    SandwichDetection,
    MevProtectionError,
>)
    requires
        current_time >= 0,
    ensures
        r == Ok::<SandwichDetection, MevProtectionError>(spec_detect_sandwich(*params, current_time)),
{
    let mut risk_score: u16 = 0;
    let mut attack_type = AttackType::NoAttack;
    if params.input_amount > 500_000_000 && params.max_slippage > 300 {
        risk_score = risk_score + 400;
        attack_type = AttackType::Sandwich;
    }
    let time_factor = (current_time % 60) as u16;
    if time_factor < 5 {
        risk_score = risk_score + 200;
    }
    if params.max_slippage > 500 {
        risk_score = risk_score + 300;
        if attack_type == AttackType::NoAttack {
            attack_type = AttackType::Frontrun;
        }
    }
    let is_detected = risk_score > 600;
    Ok(
        SandwichDetection {
            is_detected,
            risk_score,
            attack_type,
            confidence: calculate_detection_confidence(risk_score),
        },
    )
}

/// Law: the risk score is monotone non-decreasing in the input amount and
/// the slippage tolerance, all else fixed.
pub proof fn lemma_risk_score_monotonic(p1: TransactionParams, p2: TransactionParams)
    requires
        p1.input_amount <= p2.input_amount,
        p1.max_slippage <= p2.max_slippage,
    ensures
        spec_risk_score(p1) <= spec_risk_score(p2),
{
}

/// Law: the assessment depends on the input amount, the slippage tolerance
/// and the ledger slot alone, so repeating it with identical inputs and
/// clock yields an identical result.
pub proof fn lemma_assessment_deterministic(
    p1: TransactionParams,
    p2: TransactionParams,
    slot: u64,
)
    requires
        p1.input_amount == p2.input_amount,
        p1.max_slippage == p2.max_slippage,
    ensures
        spec_analyze_mev_risk(p1, slot) == spec_analyze_mev_risk(p2, slot),
{
}

// Protection mechanisms and fees

/// The mechanisms each protection level enables.
pub open spec fn spec_mechanisms_for(level: ProtectionLevel) -> ProtectionMechanisms {
    match level {
        ProtectionLevel::Basic => ProtectionMechanisms {
            time_delay: true,
            slippage_protection: true,
            price_impact_check: false,
            frontrun_detection: false,
            commit_reveal: false,
            private_mempool: false,
        },
        ProtectionLevel::Advanced => ProtectionMechanisms {
            time_delay: true,
            slippage_protection: true,
            price_impact_check: true,
            frontrun_detection: true,
            commit_reveal: false,
            private_mempool: false,
        },
        ProtectionLevel::Maximum => ProtectionMechanisms {
            time_delay: true,
            slippage_protection: true,
            price_impact_check: true,
            frontrun_detection: true,
            commit_reveal: true,
            private_mempool: true,
        },
    }
}

/// Enable basic protection: time delay and slippage protection.
pub fn apply_basic_protection(_config: &ProtectionConfig) -> (r: Result<
    ProtectionMechanisms,
    MevProtectionError,
>)
    ensures
        r == Ok::<ProtectionMechanisms, MevProtectionError>(
            spec_mechanisms_for(ProtectionLevel::Basic),
        ),
{
    Ok(
        ProtectionMechanisms {
            time_delay: true,
            slippage_protection: true,
            price_impact_check: false,
            frontrun_detection: false,
            commit_reveal: false,
            private_mempool: false,
        },
    )
}

/// Enable advanced protection: basic plus price-impact checking and
/// front-run detection.
pub fn apply_advanced_protection(_config: &ProtectionConfig) -> (r: Result<
    ProtectionMechanisms,
    MevProtectionError,
>)
    ensures
        r == Ok::<ProtectionMechanisms, MevProtectionError>(
            spec_mechanisms_for(ProtectionLevel::Advanced),
        ),
{
    Ok(
        ProtectionMechanisms {
            time_delay: true,
            slippage_protection: true,
            price_impact_check: true,
            frontrun_detection: true,
            commit_reveal: false,
            private_mempool: false,
        },
    )
}

/// Enable maximum protection: all mechanisms.
pub fn apply_maximum_protection(_config: &ProtectionConfig) -> (r: Result<
    ProtectionMechanisms,
    MevProtectionError,
>)
    ensures
        r == Ok::<ProtectionMechanisms, MevProtectionError>(
            spec_mechanisms_for(ProtectionLevel::Maximum),
        ),
{
    Ok(
        ProtectionMechanisms {
            time_delay: true,
            slippage_protection: true,
            price_impact_check: true,
            frontrun_detection: true,
            commit_reveal: true,
            private_mempool: true,
        },
    )
}

/// The protection fee rate of each level, in basis points.
pub open spec fn spec_protection_rate(level: ProtectionLevel) -> u64 {
    match level {
        ProtectionLevel::Basic => 10u64,
        ProtectionLevel::Advanced => 25u64,
        ProtectionLevel::Maximum => 50u64,
    }
}

/// Calculate the protection fee for an amount at a protection level.
pub fn calculate_protection_fee(amount: u64, protection_level: &ProtectionLevel) -> (r: u64)
    requires
        amount * spec_protection_rate(*protection_level) <= u64::MAX,
    ensures
        r == amount * spec_protection_rate(*protection_level) / 10000,
{
    let fee_rate: u64 = match protection_level {
        ProtectionLevel::Basic => 10,
        ProtectionLevel::Advanced => 25,
        ProtectionLevel::Maximum => 50,
    };
    amount * fee_rate / 10000
}

/// Generate a nonce for transaction ordering from the clock.
pub fn generate_nonce(now: i64, slot: u64) -> (r: Result<u64, MevProtectionError>)
    requires
        now >= 0,
    ensures
        now + slot <= u64::MAX ==> r == Ok::<u64, MevProtectionError>((now + slot) as u64),
        now + slot > u64::MAX ==> r == Err::<u64, MevProtectionError>(
            MevProtectionError::ArithmeticOverflow,
        ),
{
    let base = now as u64;
    match base.checked_add(slot) {
        Some(n) => Ok(n),
        None => Err(MevProtectionError::ArithmeticOverflow),
    }
}

// Swap simulation

/// What the protected swap simulation yields: a deterministic 1% haircut on
/// the input, with fixed gas and timing figures.
pub open spec fn spec_simulate_protected_swap(params: TransactionParams) -> Result<
    SwapResult,
    MevProtectionError,
> {
    if params.input_amount * 99 > u64::MAX {
        Err(MevProtectionError::ArithmeticOverflow)
    } else {
        Ok(
            SwapResult {
                output_amount: (params.input_amount * 99 / 100) as u64,
                gas_used: 50000,
                execution_time: 2000,
            },
        )
    }
}

/// Simulate a swap under protection.
pub fn simulate_protected_swap(params: &TransactionParams, _protection_level: &ProtectionLevel) -> (r:
    Result<SwapResult, MevProtectionError>)
    ensures
        r == spec_simulate_protected_swap(*params),
{
    let prod = match params.input_amount.checked_mul(99) {
        Some(p) => p,
        None => {
            return Err(MevProtectionError::ArithmeticOverflow);
        },
    };
    Ok(SwapResult { output_amount: prod / 100, gas_used: 50000, execution_time: 2000 })
}

/// What executing a swap with protection yields: the protection fee at the
/// level's rate, then the simulated swap.
pub open spec fn spec_execute_with_protection(
    params: TransactionParams,
    level: ProtectionLevel,
) -> Result<ExecutionResult, MevProtectionError> {
    if params.input_amount * spec_protection_rate(level) > u64::MAX {
        Err(MevProtectionError::ArithmeticOverflow)
    } else {
        let protection_fee = params.input_amount * spec_protection_rate(level) / 10000;
        match spec_simulate_protected_swap(params) {
            Err(e) => Err(e),
            Ok(sr) => Ok(
                ExecutionResult {
                    input_amount: params.input_amount,
                    output_amount: sr.output_amount,
                    protection_fee: protection_fee as u64,
                    gas_used: sr.gas_used,
                    execution_time: sr.execution_time,
                },
            ),
        }
    }
}

/// Execute a swap with the protection level's fee and simulation.
pub fn execute_with_protection(params: &TransactionParams, protection_level: &ProtectionLevel) -> (r:
    Result<ExecutionResult, MevProtectionError>)
    ensures
        r == spec_execute_with_protection(*params, *protection_level),
{
    let rate: u64 = match protection_level {
        ProtectionLevel::Basic => 10,
        ProtectionLevel::Advanced => 25,
        ProtectionLevel::Maximum => 50,
    };
    if params.input_amount.checked_mul(rate).is_none() {
        return Err(MevProtectionError::ArithmeticOverflow);
    }
    let protection_fee = calculate_protection_fee(params.input_amount, protection_level);
    let swap_result = match simulate_protected_swap(params, protection_level) {
        Ok(sr) => sr,
        Err(e) => {
            return Err(e);
        },
    };
    Ok(
        ExecutionResult {
            input_amount: params.input_amount,
            output_amount: swap_result.output_amount,
            protection_fee,
            gas_used: swap_result.gas_used,
            execution_time: swap_result.execution_time,
        },
    )
}

/// What the plain swap simulation yields: a 5% haircut scaled down by the
/// slippage tolerance.
pub open spec fn spec_simulate_swap(params: TransactionParams, input_amount: u64) -> Result<
    u64,
    MevProtectionError,
> {
    if input_amount * 95 > u64::MAX {
        Err(MevProtectionError::ArithmeticOverflow)
    } else {
        let base_output = input_amount * 95 / 100;
        if base_output * (10000 - params.max_slippage) > u64::MAX {
            Err(MevProtectionError::ArithmeticOverflow)
        } else {
            Ok((base_output * (10000 - params.max_slippage) / 10000) as u64)
        }
    }
}

/// Simulate a plain swap at the transaction's slippage tolerance.
pub fn simulate_swap(params: &TransactionParams, input_amount: u64) -> (r: Result<
    u64,
    MevProtectionError,
>)
    requires
        params.max_slippage <= 10000,
    ensures
        r == spec_simulate_swap(*params, input_amount),
{
    let prod = match input_amount.checked_mul(95) {
        Some(p) => p,
        None => {
            return Err(MevProtectionError::ArithmeticOverflow);
        },
    };
    let base_output = prod / 100;
    let slippage_factor = 10000 - params.max_slippage as u64;
    let prod2 = match base_output.checked_mul(slippage_factor) {
        Some(p) => p,
        None => {
            return Err(MevProtectionError::ArithmeticOverflow);
        },
    };
    Ok(prod2 / 10000)
}

// State machine

/// Validate a transaction's parameters against the configuration.
pub fn validate_transaction_params(params: &TransactionParams, config: &ProtectionConfig) -> (r:
    Result<(), MevProtectionError>)
    ensures
        r is Err <==> params.input_amount == 0 || params.min_output_amount == 0
            || params.max_slippage > config.max_slippage_protection,
        r matches Err(e) ==> e == (if params.input_amount == 0 || params.min_output_amount == 0 {
            MevProtectionError::InvalidAmount
        } else {
            MevProtectionError::SlippageTooHigh
        }),
{
    if params.input_amount == 0 {
        return Err(MevProtectionError::InvalidAmount);
    }
    if params.min_output_amount == 0 {
        return Err(MevProtectionError::InvalidAmount);
    }
    if params.max_slippage > config.max_slippage_protection {
        return Err(MevProtectionError::SlippageTooHigh);
    }
    Ok(())
}

/// The total execution delay each protection level adds to the base delay:
/// advanced protection adds half the base delay again, maximum protection
/// doubles it.
pub open spec fn spec_level_delay(level: ProtectionLevel, base_delay: i64) -> int {
    match level {
        ProtectionLevel::Basic => base_delay as int,
        ProtectionLevel::Advanced => base_delay + base_delay / 2,
        ProtectionLevel::Maximum => base_delay + base_delay,
    }
}

/// Create a protected transaction.
///
/// Validates the parameters, enables the level's mechanisms, and schedules
/// the execution deadline after the level's delay. The transaction starts
/// `Pending`.
pub fn create_protected_transaction_handler(
    config: &ProtectionConfig,
    user: u64,
    transaction_data: TransactionParams,
    protection_level: ProtectionLevel,
    now: i64,
    slot: u64,
) -> (r: Result<(ProtectedTransaction, ProtectedTransactionCreated), MevProtectionError>)
    requires
        config.wf(),
        now >= 0,
    ensures
        ({
            if !config.is_active {
                r matches Err(e) && e == MevProtectionError::ProtectionInactive
            } else if transaction_data.input_amount == 0 || transaction_data.min_output_amount
                == 0 {
                r matches Err(e) && e == MevProtectionError::InvalidAmount
            } else if transaction_data.max_slippage > config.max_slippage_protection {
                r matches Err(e) && e == MevProtectionError::SlippageTooHigh
            } else if now + slot > u64::MAX {
                r matches Err(e) && e == MevProtectionError::ArithmeticOverflow
            } else if now + spec_level_delay(protection_level, config.min_time_delay) > i64::MAX {
                r matches Err(e) && e == MevProtectionError::ArithmeticOverflow
            } else {
                r matches Ok(p) && {
                    &&& p.0.user == user
                    &&& p.0.params == transaction_data
                    &&& p.0.protection_level == protection_level
                    &&& p.0.protection_mechanisms == spec_mechanisms_for(protection_level)
                    &&& p.0.status == TransactionStatus::Pending
                    &&& p.0.nonce == (now + slot) as u64
                    &&& p.0.created_at == now
                    &&& p.0.execution_deadline == now + spec_level_delay(
                        protection_level,
                        config.min_time_delay,
                    )
                    &&& p.0.executed_at == 0
                    &&& p.0.cancelled_at == 0
                    &&& p.0.execution_result is None
                    &&& p.1 == (ProtectedTransactionCreated {
                        user,
                        transaction_id: p.0.nonce,
                        protection_level,
                        execution_deadline: p.0.execution_deadline,
                    })
                }
            }
        }),
{
    if !config.is_active {
        return Err(MevProtectionError::ProtectionInactive);
    }
    match validate_transaction_params(&transaction_data, config) {
        Ok(_) => {},
        Err(e) => {
            return Err(e);
        },
    }
    let nonce = match generate_nonce(now, slot) {
        Ok(n) => n,
        Err(e) => {
            return Err(e);
        },
    };
    let protection_mechanisms = match protection_level {
        ProtectionLevel::Basic => match apply_basic_protection(config) {
            Ok(m) => m,
            Err(e) => {
                return Err(e);
            },
        },
        ProtectionLevel::Advanced => match apply_advanced_protection(config) {
            Ok(m) => m,
            Err(e) => {
                return Err(e);
            },
        },
        ProtectionLevel::Maximum => match apply_maximum_protection(config) {
            Ok(m) => m,
            Err(e) => {
                return Err(e);
            },
        },
    };
    let base_deadline = match now.checked_add(config.min_time_delay) {
        Some(v) => v,
        None => {
            return Err(MevProtectionError::ArithmeticOverflow);
        },
    };
    let execution_deadline = match protection_level {
        ProtectionLevel::Basic => base_deadline,
        ProtectionLevel::Advanced => match base_deadline.checked_add(config.min_time_delay / 2) {
            Some(v) => v,
            None => {
                return Err(MevProtectionError::ArithmeticOverflow);
            },
        },
        ProtectionLevel::Maximum => match base_deadline.checked_add(config.min_time_delay) {
            Some(v) => v,
            None => {
                return Err(MevProtectionError::ArithmeticOverflow);
            },
        },
    };
    let protected_tx = ProtectedTransaction {
        user,
        params: transaction_data,
        protection_level,
        protection_mechanisms,
        status: TransactionStatus::Pending,
        nonce,
        created_at: now,
        execution_deadline,
        executed_at: 0,
        cancelled_at: 0,
        execution_result: None,
    };
    let event = ProtectedTransactionCreated {
        user,
        transaction_id: nonce,
        protection_level,
        execution_deadline,
    };
    Ok((protected_tx, event))
}

/// Defer a transaction whose assessed risk is high or critical.
///
/// A high risk extends the execution deadline by half the base delay; a
/// critical risk extends it by the full base delay and force-enables the
/// commit-reveal and private-mempool mechanisms. Lower risks change nothing.
pub fn handle_high_mev_risk(
    protected_tx: &mut ProtectedTransaction,
    mev_analysis: &MevAnalysis,
    config: &ProtectionConfig,
) -> (r: Result<(), MevProtectionError>)
    requires
        config.wf(),
    ensures
        mev_analysis.risk_level is High ==> (if old(protected_tx).execution_deadline
            + config.min_time_delay / 2 > i64::MAX {
            r == Err::<(), MevProtectionError>(MevProtectionError::ArithmeticOverflow) && *final(protected_tx) == *old(protected_tx)
        } else {
            r is Ok && *final(protected_tx) == (ProtectedTransaction {
                execution_deadline: (old(protected_tx).execution_deadline + config.min_time_delay
                    / 2) as i64,
                ..*old(protected_tx)
            })
        }),
        mev_analysis.risk_level is Critical ==> (if old(protected_tx).execution_deadline
            + config.min_time_delay > i64::MAX {
            r == Err::<(), MevProtectionError>(MevProtectionError::ArithmeticOverflow) && *final(protected_tx) == *old(protected_tx)
        } else {
            r is Ok && *final(protected_tx) == (ProtectedTransaction {
                execution_deadline: (old(protected_tx).execution_deadline
                    + config.min_time_delay) as i64,
                protection_mechanisms: (ProtectionMechanisms {
                    commit_reveal: true,
                    private_mempool: true,
                    ..old(protected_tx).protection_mechanisms
                }),
                ..*old(protected_tx)
            })
        }),
        (mev_analysis.risk_level is Low || mev_analysis.risk_level is Medium) ==> r is Ok && *final(protected_tx) == *old(protected_tx),
{
    match mev_analysis.risk_level {
        RiskLevel::High => {
            let new_deadline = match protected_tx.execution_deadline.checked_add(
                config.min_time_delay / 2,
            ) {
                Some(v) => v,
                None => {
                    return Err(MevProtectionError::ArithmeticOverflow);
                },
            };
            protected_tx.execution_deadline = new_deadline;
        },
        RiskLevel::Critical => {
            let new_deadline = match protected_tx.execution_deadline.checked_add(
                config.min_time_delay,
            ) {
                Some(v) => v,
                None => {
                    return Err(MevProtectionError::ArithmeticOverflow);
                },
            };
            protected_tx.execution_deadline = new_deadline;
            protected_tx.protection_mechanisms.commit_reveal = true;
            protected_tx.protection_mechanisms.private_mempool = true;
        },
        _ => {},
    }
    Ok(())
}

/// Execute a protected transaction with MEV checks.
///
/// Only legal for a `Pending` transaction on or after its deadline. A
/// detected sandwich pattern blocks the transaction for good, so the same
/// risky shape is never retried; otherwise a high or critical risk extends
/// the deadline and defers execution to a fresh call; otherwise the swap
/// executes, the transaction becomes `Executed`, and the global counters
/// grow. Failures mutate nothing beyond what each case states.
pub fn execute_protected_transaction_handler(
    config: &mut ProtectionConfig,
    protected_tx: &mut ProtectedTransaction,
    now: i64,
    slot: u64,
) -> (r: Result<(ExecutionResult, ProtectedTransactionExecuted), MevProtectionError>)
    requires
        old(config).wf(),
        now >= 0,
    ensures
        ({
            let tx0 = *old(protected_tx);
            let cfg0 = *old(config);
            let unchanged = *final(protected_tx) == tx0 && *final(config) == cfg0;
            if tx0.status != TransactionStatus::Pending {
                r matches Err(e) && e == MevProtectionError::InvalidTransactionStatus && unchanged
            } else if now < tx0.execution_deadline {
                r matches Err(e) && e == MevProtectionError::ExecutionTooEarly && unchanged
            } else {
                let detection = spec_detect_sandwich(tx0.params, now);
                let analysis = spec_analyze_mev_risk(tx0.params, slot);
                if detection.is_detected {
                    r matches Err(e) && e == MevProtectionError::SandwichAttackDetected(
                        SandwichAttackDetected {
                            transaction_id: tx0.nonce,
                            user: tx0.user,
                            risk_score: detection.risk_score,
                            attack_type: detection.attack_type,
                        },
                    ) && *final(config) == cfg0 && *final(protected_tx) == (ProtectedTransaction {
                        status: TransactionStatus::Blocked,
                        ..tx0
                    })
                } else if analysis.risk_level is High {
                    if tx0.execution_deadline + cfg0.min_time_delay / 2 > i64::MAX {
                        r matches Err(e) && e == MevProtectionError::ArithmeticOverflow && unchanged
                    } else {
                        r matches Err(e) && e == MevProtectionError::MevRiskTooHigh && *final(config) == cfg0 && *final(protected_tx) == (ProtectedTransaction {
                            execution_deadline: (tx0.execution_deadline + cfg0.min_time_delay
                                / 2) as i64,
                            ..tx0
                        })
                    }
                } else if analysis.risk_level is Critical {
                    if tx0.execution_deadline + cfg0.min_time_delay > i64::MAX {
                        r matches Err(e) && e == MevProtectionError::ArithmeticOverflow && unchanged
                    } else {
                        r matches Err(e) && e == MevProtectionError::MevRiskTooHigh && *final(config) == cfg0 && *final(protected_tx) == (ProtectedTransaction {
                            execution_deadline: (tx0.execution_deadline
                                + cfg0.min_time_delay) as i64,
                            protection_mechanisms: (ProtectionMechanisms {
                                commit_reveal: true,
                                private_mempool: true,
                                ..tx0.protection_mechanisms
                            }),
                            ..tx0
                        })
                    }
                } else {
                    match spec_execute_with_protection(tx0.params, tx0.protection_level) {
                            Err(e) => r matches Err(e2) && e2 == e && unchanged,
                            Ok(res) => {
                                if cfg0.total_transactions_protected + 1 > u64::MAX || (
                                analysis.risk_level is Medium
                                    && cfg0.total_mev_attacks_prevented + 1 > u64::MAX) {
                                    r matches Err(e) && e == MevProtectionError::ArithmeticOverflow
                                        && unchanged
                                } else {
                                    r matches Ok(t) && {
                                        &&& t.0 == res
                                        &&& *final(protected_tx) == (ProtectedTransaction {
                                            status: TransactionStatus::Executed,
                                            executed_at: now,
                                            execution_result: Some(res),
                                            ..tx0
                                        })
                                        &&& *final(config) == (ProtectionConfig {
                                            total_transactions_protected: (
                                            cfg0.total_transactions_protected + 1) as u64,
                                            total_mev_attacks_prevented: (
                                            if analysis.risk_level is Medium {
                                                cfg0.total_mev_attacks_prevented + 1
                                            } else {
                                                cfg0.total_mev_attacks_prevented as int
                                            }) as u64,
                                            ..cfg0
                                        })
                                        &&& t.1 == (ProtectedTransactionExecuted {
                                            transaction_id: tx0.nonce,
                                            user: tx0.user,
                                            input_amount: res.input_amount,
                                            output_amount: res.output_amount,
                                            protection_fee: res.protection_fee,
                                            mev_risk_level: analysis.risk_level,
                                        })
                                    }
                                }
                        },
                    }
                }
            }
        }),
{
    if !matches!(protected_tx.status, TransactionStatus::Pending) {
        return Err(MevProtectionError::InvalidTransactionStatus);
    }
    if now < protected_tx.execution_deadline {
        return Err(MevProtectionError::ExecutionTooEarly);
    }
    let detection = match detect_sandwich_attack(&protected_tx.params, now) {
        Ok(d) => d,
        Err(e) => {
            return Err(e);
        },
    };
    if detection.is_detected {
        let attack_event = SandwichAttackDetected {
            transaction_id: protected_tx.nonce,
            user: protected_tx.user,
            risk_score: detection.risk_score,
            attack_type: detection.attack_type,
        };
        protected_tx.status = TransactionStatus::Blocked;
        return Err(MevProtectionError::SandwichAttackDetected(attack_event));
    }
    let mev_analysis = match analyze_mev_risk(&protected_tx.params, slot) {
        Ok(a) => a,
        Err(e) => {
            return Err(e);
        },
    };
    match mev_analysis.risk_level {
        RiskLevel::High | RiskLevel::Critical => {
            match handle_high_mev_risk(protected_tx, &mev_analysis, config) {
                Ok(_) => {
                    return Err(MevProtectionError::MevRiskTooHigh);
                },
                Err(e) => {
                    return Err(e);
                },
            }
        },
        _ => {},
    }
    let execution_result = match execute_with_protection(
        &protected_tx.params,
        &protected_tx.protection_level,
    ) {
        Ok(res) => res,
        Err(e) => {
            return Err(e);
        },
    };
    let new_protected = match config.total_transactions_protected.checked_add(1) {
        Some(v) => v,
        None => {
            return Err(MevProtectionError::ArithmeticOverflow);
        },
    };
    let new_prevented = if mev_analysis.risk_level == RiskLevel::Medium {
        match config.total_mev_attacks_prevented.checked_add(1) {
            Some(v) => v,
            None => {
                return Err(MevProtectionError::ArithmeticOverflow);
            },
        }
    } else {
        config.total_mev_attacks_prevented
    };
    protected_tx.status = TransactionStatus::Executed;
    protected_tx.executed_at = now;
    protected_tx.execution_result = Some(execution_result);
    config.total_transactions_protected = new_protected;
    config.total_mev_attacks_prevented = new_prevented;
    let event = ProtectedTransactionExecuted {
        transaction_id: protected_tx.nonce,
        user: protected_tx.user,
        input_amount: execution_result.input_amount,
        output_amount: execution_result.output_amount,
        protection_fee: execution_result.protection_fee,
        mev_risk_level: mev_analysis.risk_level,
    };
    Ok((execution_result, event))
}

/// Cancel a protected transaction.
///
/// Only legal for a `Pending` transaction, and only by its owning user; the
/// transaction becomes `Cancelled`.
pub fn cancel_protected_transaction_handler(
    protected_tx: &mut ProtectedTransaction,
    caller: u64,
    now: i64,
) -> (r: Result<ProtectedTransactionCancelled, MevProtectionError>)
    ensures
        r is Err <==> old(protected_tx).status != TransactionStatus::Pending || caller != old(
            protected_tx,
        ).user,
        r matches Err(e) ==> e == (if old(protected_tx).status != TransactionStatus::Pending {
            MevProtectionError::InvalidTransactionStatus
        } else {
            MevProtectionError::Unauthorized
        }) && *final(protected_tx) == *old(protected_tx),
        r matches Ok(ev) ==> *final(protected_tx) == (ProtectedTransaction {
            status: TransactionStatus::Cancelled,
            cancelled_at: now,
            ..*old(protected_tx)
        }) && ev == (ProtectedTransactionCancelled {
            transaction_id: old(protected_tx).nonce,
            user: old(protected_tx).user,
            cancelled_at: now,
        }),
{
    if !matches!(protected_tx.status, TransactionStatus::Pending) {
        return Err(MevProtectionError::InvalidTransactionStatus);
    }
    if caller != protected_tx.user {
        return Err(MevProtectionError::Unauthorized);
    }
    protected_tx.status = TransactionStatus::Cancelled;
    protected_tx.cancelled_at = now;
    Ok(
        ProtectedTransactionCancelled {
            transaction_id: protected_tx.nonce,
            user: protected_tx.user,
            cancelled_at: now,
        },
    )
}

/// Initialize the MEV protection system with its default policy.
pub fn initialize_handler(authority: u64) -> (r: Result<
    (ProtectionConfig, MevProtectionInitialized),
    MevProtectionError,
>)
    ensures
        r matches Ok(p) && p.0 == (ProtectionConfig {
            authority,
            max_price_impact: 500,
            min_time_delay: 10,
            max_slippage_protection: 200,
            total_transactions_protected: 0,
            total_mev_attacks_prevented: 0,
            is_active: true,
        }) && p.0.wf() && p.1 == (MevProtectionInitialized {
            authority,
            max_price_impact: 500,
            min_time_delay: 10,
            max_slippage_protection: 200,
        }),
{
    let config = ProtectionConfig {
        authority,
        max_price_impact: 500,
        min_time_delay: 10,
        max_slippage_protection: 200,
        total_transactions_protected: 0,
        total_mev_attacks_prevented: 0,
        is_active: true,
    };
    let event = MevProtectionInitialized {
        authority,
        max_price_impact: 500,
        min_time_delay: 10,
        max_slippage_protection: 200,
    };
    Ok((config, event))
}

/// Update the protection configuration.
///
/// Only the configured authority may update. Every named value is validated
/// before any is applied; a failure leaves the configuration unchanged.
pub fn update_protection_config_handler(
    config: &mut ProtectionConfig,
    caller: u64,
    max_price_impact: Option<u16>,
    min_time_delay: Option<i64>,
    max_slippage_protection: Option<u16>,
    is_active: Option<bool>,
) -> (r: Result<ProtectionConfigUpdated, MevProtectionError>)
    ensures
        r is Err <==> caller != old(config).authority || (max_price_impact matches Some(p) && p
            > 5000) || (min_time_delay matches Some(d) && !(0 <= d <= 300)) || (
        max_slippage_protection matches Some(s) && s > 1000),
        r matches Err(e) ==> e == (if caller != old(config).authority {
            MevProtectionError::Unauthorized
        } else if max_price_impact matches Some(p) && p > 5000 {
            MevProtectionError::PriceImpactTooHigh
        } else if min_time_delay matches Some(d) && !(0 <= d <= 300) {
            MevProtectionError::InvalidTimeDelay
        } else {
            MevProtectionError::SlippageProtectionTooHigh
        }) && *final(config) == *old(config),
        r matches Ok(ev) ==> *final(config) == (ProtectionConfig {
            max_price_impact: spec_unwrap_or(
                max_price_impact,
                old(config).max_price_impact,
            ),
            min_time_delay: spec_unwrap_or(
                min_time_delay,
                old(config).min_time_delay,
            ),
            max_slippage_protection: spec_unwrap_or(
                max_slippage_protection,
                old(config).max_slippage_protection,
            ),
            is_active: spec_unwrap_or(is_active, old(config).is_active),
            ..*old(config)
        }) && ev == (ProtectionConfigUpdated {
            authority: caller,
            max_price_impact: final(config).max_price_impact,
            min_time_delay: final(config).min_time_delay,
            max_slippage_protection: final(config).max_slippage_protection,
            is_active: final(config).is_active,
        }),
        old(config).wf() && r is Ok ==> final(config).wf(),
{
    if caller != config.authority {
        return Err(MevProtectionError::Unauthorized);
    }
    if let Some(impact) = max_price_impact {
        if impact > 5000 {
            return Err(MevProtectionError::PriceImpactTooHigh);
        }
    }
    if let Some(delay) = min_time_delay {
        if delay < 0 || delay > 300 {
            return Err(MevProtectionError::InvalidTimeDelay);
        }
    }
    if let Some(slippage) = max_slippage_protection {
        if slippage > 1000 {
            return Err(MevProtectionError::SlippageProtectionTooHigh);
        }
    }
    if let Some(impact) = max_price_impact {
        config.max_price_impact = impact;
    }
    if let Some(delay) = min_time_delay {
        config.min_time_delay = delay;
    }
    if let Some(slippage) = max_slippage_protection {
        config.max_slippage_protection = slippage;
    }
    if let Some(active) = is_active {
        config.is_active = active;
    }
    Ok(
        ProtectionConfigUpdated {
            authority: caller,
            max_price_impact: config.max_price_impact,
            min_time_delay: config.min_time_delay,
            max_slippage_protection: config.max_slippage_protection,
            is_active: config.is_active,
        },
    )
}

/// Record a reported MEV attack for review.
pub fn report_mev_attack_handler(reporter: u64, attack_details: AttackDetails, now: i64) -> (r:
    Result<(AttackReport, MevAttackReported), MevProtectionError>)
    ensures
        r matches Ok(p) && {
            &&& p.0.reporter == reporter
            &&& p.0.attack_details == attack_details
            &&& p.0.reported_at == now
            &&& p.0.status == ReportStatus::Pending
            &&& p.1 == (MevAttackReported {
                reporter,
                attack_type: attack_details.attack_type,
                victim_transaction: attack_details.victim_transaction,
                estimated_damage: attack_details.estimated_damage,
            })
        },
{
    let event = MevAttackReported {
        reporter,
        attack_type: attack_details.attack_type,
        victim_transaction: attack_details.victim_transaction,
        estimated_damage: attack_details.estimated_damage,
    };
    let report = AttackReport {
        reporter,
        attack_details,
        reported_at: now,
        status: ReportStatus::Pending,
    };
    Ok((report, event))
}

} // verus!
