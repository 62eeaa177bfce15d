//! Flash-funded atomic arbitrage execution.
//!
//! Borrowed capital funds a chain of swap routes; the loan plus its fee must
//! be repaid out of the final balance within the same operation, and profit
//! is realized only after repayment and the program's fee. Any failure
//! aborts the whole operation with no counter mutated.

use vstd::prelude::*;
use crate::math::lemma_bps_le_amount;
use crate::router::spec_slippage;
use crate::router::spec_unwrap_or;
use crate::router::str_eq;

verus! {

/// Hard ceiling on the borrowed amount, in token units.
pub const MAX_FLASH_LOAN_AMOUNT: u64 = 1_000_000_000_000;

/// Borrow fee charged by the capital provider, in basis points.
pub const FLASH_LOAN_FEE_BPS: u16 = 30;

/// Program configuration and global state
#[derive(Clone, Copy, Debug, PartialEq, Eq, Structural)]
pub struct Config {
    pub authority: u64,
    /// Program fee rate in basis points
    pub fee_rate: u16,
    /// Max slippage in basis points
    pub max_slippage: u16,
    /// Total volume processed
    pub total_volume: u64,
    /// Total fees collected
    pub total_fees_collected: u64,
    /// Emergency pause flag
    pub is_paused: bool,
}

impl Config {
    /// Bounds that initialization enforces and every update preserves.
    pub open spec fn wf(self) -> bool {
        &&& self.fee_rate <= 1000
        &&& self.max_slippage <= 5000
    }
}

/// Single route in an arbitrage strategy
#[derive(Clone, Debug)]
pub struct ArbitrageRoute {
    /// DEX name (e.g., "raydium", "orca")
    pub dex: String,
    /// Input token mint
    pub token_in: u64,
    /// Output token mint
    pub token_out: u64,
    /// Expected output amount
    pub expected_output: u64,
    /// Pool/market address
    pub pool_address: u64,
}

/// Status of arbitrage execution
#[derive(Clone, Copy, Debug, PartialEq, Eq, Structural)]
pub enum ArbitrageStatus {
    Pending,
    InProgress,
    Completed,
    Failed,
}

/// State of an arbitrage operation
#[derive(Clone, Debug)]
pub struct ArbitrageState {
    pub user: u64,
    pub flash_loan_amount: u64,
    pub min_profit: u64,
    pub routes: Vec<ArbitrageRoute>,
    pub status: ArbitrageStatus,
    pub start_time: i64,
    pub end_time: i64,
    pub gross_profit: u64,
    pub net_profit: u64,
    pub fees_paid: u64,
}

/// Result of executing a single route
#[derive(Clone, Copy, Debug, PartialEq, Eq, Structural)]
pub struct RouteResult {
    pub input_amount: u64,
    pub output_amount: u64,
    pub fees_paid: u64,
    pub slippage: u16,
}

/// Result of flash loan operation
#[derive(Clone, Copy, Debug, PartialEq, Eq, Structural)]
pub struct FlashLoanResult {
    pub amount_borrowed: u64,
    pub fee: u64,
    pub success: bool,
}

/// Accounting of a settled flash-funded operation: the borrowed amount, the
/// borrow fee, the repayment they add up to, and the profit figures realized
/// after repayment.
#[derive(Clone, Copy, Debug, PartialEq, Eq, Structural)]
pub struct FlashLedger {
    pub borrowed: u64,
    pub borrow_fee: u64,
    pub repay_amount: u64,
    pub gross_profit: u64,
    pub program_fee: u64,
    pub net_profit: u64,
}

/// Errors that can occur in the flash arbitrage program
#[derive(Clone, Copy, Debug, PartialEq, Eq, Structural)]
pub enum FlashArbitrageError {
    ProgramPaused,
    EmptyRoutes,
    TooManyRoutes,
    InvalidAmount,
    AmountTooLarge,
    InsufficientFunds,
    ProfitTooLow,
    SlippageTooHigh,
    UnsupportedDex,
    FeeTooHigh,
    FlashLoanFailed,
    RouteExecutionFailed,
    Unauthorized,
    InvalidConfig,
    ArithmeticOverflow,
}

// Events

/// Event emitted when the program is initialized
#[derive(Clone, Copy, Debug, PartialEq, Eq, Structural)]
pub struct ProgramInitialized {
    pub authority: u64,
    pub fee_rate: u16,
    pub max_slippage: u16,
}

/// Event emitted when an arbitrage completes
#[derive(Clone, Copy, Debug, PartialEq, Eq, Structural)]
pub struct ArbitrageExecuted {
    pub user: u64,
    pub flash_loan_amount: u64,
    pub gross_profit: u64,
    pub net_profit: u64,
    pub total_fees: u64,
    pub routes_count: u8,
}

/// Event emitted when a route is executed
#[derive(Clone, Debug)]
pub struct RouteExecuted {
    pub route_index: u8,
    pub dex: String,
    pub input_amount: u64,
    pub output_amount: u64,
    pub fees_paid: u64,
}

/// Event emitted when configuration is updated
#[derive(Clone, Copy, Debug, PartialEq, Eq, Structural)]
pub struct ConfigUpdated {
    pub authority: u64,
    pub fee_rate: u16,
    pub max_slippage: u16,
    pub is_paused: bool,
}

/// Event emitted when fees are withdrawn
#[derive(Clone, Copy, Debug, PartialEq, Eq, Structural)]
pub struct FeesWithdrawn {
    pub authority: u64,
    pub amount: u64,
    pub destination: u64,
}

/// Event emitted when the emergency pause is activated
#[derive(Clone, Copy, Debug, PartialEq, Eq, Structural)]
pub struct EmergencyPauseActivated {
    pub authority: u64,
    pub timestamp: i64,
}

// Fee helpers

/// Calculate the flash loan fee for an amount at a rate in basis points.
pub fn calculate_flash_loan_fee(amount: u64, fee_bps: u16) -> (r: u64)
    requires
        amount * fee_bps <= u64::MAX,
    ensures
        r == amount * fee_bps / 10000,
{
    amount * (fee_bps as u64) / 10000
}

/// Calculate the program fee on a profit at a rate in basis points.
pub fn calculate_program_fee(profit: u64, fee_rate: u16) -> (r: u64)
    requires
        profit * fee_rate <= u64::MAX,
    ensures
        r == profit * fee_rate / 10000,
{
    profit * (fee_rate as u64) / 10000
}

/// Calculate the minimum acceptable output under a slippage bound.
pub fn calculate_min_output(_input: u64, expected: u64, max_slippage_bps: u16) -> (r: u64)
    requires
        max_slippage_bps <= 10000,
        expected * (10000 - max_slippage_bps) <= u64::MAX,
    ensures
        r == expected * (10000 - max_slippage_bps) / 10000,
{
    expected * (10000 - max_slippage_bps as u64) / 10000
}

/// Calculate the realized slippage between expected and actual output.
pub fn calculate_slippage(expected: u64, actual: u64) -> (r: u16)
    requires
        actual < expected ==> (expected - actual) * 10000 <= u64::MAX,
    ensures
        r == spec_slippage(expected, actual),
{
    if actual >= expected {
        0
    } else {
        let diff = expected - actual;
        let v = diff * 10000 / expected;
        proof {
            assert(diff * 10000 / (expected as int) <= 10000) by (nonlinear_arith)
                requires
                    0 < expected,
                    0 < diff <= expected,
            ;
        }
        v as u16
    }
}

/// The trading fee rate each venue charges, in basis points; unknown venues
/// are charged the default rate.
pub open spec fn spec_dex_fee_rate(dex: Seq<char>) -> u64 {
    if dex == "raydium"@ {
        25u64
    } else if dex == "orca"@ {
        30u64
    } else if dex == "meteora"@ {
        20u64
    } else if dex == "jupiter"@ {
        15u64
    } else {
        30u64
    }
}

/// The trading fee rate of a venue, in basis points.
pub fn dex_trading_fee_rate(dex: &str) -> (r: u64)
    ensures
        r == spec_dex_fee_rate(dex@),
        0 < r <= 30,
{
    if str_eq(dex, "raydium") {
        25
    } else if str_eq(dex, "orca") {
        30
    } else if str_eq(dex, "meteora") {
        20
    } else if str_eq(dex, "jupiter") {
        15
    } else {
        30
    }
}

/// Calculate the venue-specific trading fee on an amount.
pub fn calculate_dex_fees(amount: u64, dex: &str) -> (r: u64)
    requires
        amount * spec_dex_fee_rate(dex@) <= u64::MAX,
    ensures
        r == amount * spec_dex_fee_rate(dex@) / 10000,
{
    let rate = dex_trading_fee_rate(dex);
    amount * rate / 10000
}

// Capital provider

/// Borrow from the capital provider.
///
/// The provider's deterministic model always grants the loan and charges the
/// fixed borrow fee; the fee computation may overflow for amounts over the
/// ceiling.
pub fn execute_flash_loan(amount: u64) -> (r: Result<FlashLoanResult, FlashArbitrageError>)
    ensures
        amount * FLASH_LOAN_FEE_BPS <= u64::MAX ==> r == Ok::<FlashLoanResult, FlashArbitrageError>(
            FlashLoanResult {
                amount_borrowed: amount,
                fee: (amount * FLASH_LOAN_FEE_BPS / 10000) as u64,
                success: true,
            },
        ),
        amount * FLASH_LOAN_FEE_BPS > u64::MAX ==> r == Err::<FlashLoanResult, FlashArbitrageError>(
            FlashArbitrageError::ArithmeticOverflow,
        ),
{
    if amount.checked_mul(FLASH_LOAN_FEE_BPS as u64).is_none() {
        return Err(FlashArbitrageError::ArithmeticOverflow);
    }
    let fee = calculate_flash_loan_fee(amount, FLASH_LOAN_FEE_BPS);
    Ok(FlashLoanResult { amount_borrowed: amount, fee, success: true })
}

/// Repay the capital provider.
///
/// The provider's deterministic model always accepts repayment.
pub fn repay_flash_loan(_amount: u64) -> (r: Result<(), FlashArbitrageError>)
    ensures
        r is Ok,
{
    Ok(())
}

// Venue swaps

/// What a venue's deterministic swap yields: the amount scaled by the
/// venue's output factor, failing when that falls below the minimum.
pub open spec fn spec_sim_swap(num: u64, den: u64, amount: u64, min_output: u64) -> Result<
    u64,
    FlashArbitrageError,
> {
    if amount * num > u64::MAX {
        Err(FlashArbitrageError::ArithmeticOverflow)
    } else {
        let out = amount * num / (den as int);
        if out < min_output {
            Err(FlashArbitrageError::SlippageTooHigh)
        } else {
            Ok(out as u64)
        }
    }
}

/// Execute a swap on the Raydium venue model (1% slippage).
pub fn execute_raydium_swap(input_amount: u64, min_output: u64) -> (r: Result<
    u64,
    FlashArbitrageError,
>)
    ensures
        r == spec_sim_swap(99, 100, input_amount, min_output),
{
    let prod = match input_amount.checked_mul(99) {
        Some(p) => p,
        None => {
            return Err(FlashArbitrageError::ArithmeticOverflow);
        },
    };
    let output = prod / 100;
    if output < min_output {
        Err(FlashArbitrageError::SlippageTooHigh)
    } else {
        Ok(output)
    }
}

/// Execute a swap on the Orca venue model (0.5% slippage).
pub fn execute_orca_swap(input_amount: u64, min_output: u64) -> (r: Result<u64, FlashArbitrageError>)
    ensures
        r == spec_sim_swap(995, 1000, input_amount, min_output),
{
    let prod = match input_amount.checked_mul(995) {
        Some(p) => p,
        None => {
            return Err(FlashArbitrageError::ArithmeticOverflow);
        },
    };
    let output = prod / 1000;
    if output < min_output {
        Err(FlashArbitrageError::SlippageTooHigh)
    } else {
        Ok(output)
    }
}

/// Execute a swap on the Meteora venue model (0.3% slippage).
pub fn execute_meteora_swap(input_amount: u64, min_output: u64) -> (r: Result<
    u64,
    FlashArbitrageError,
>)
    ensures
        r == spec_sim_swap(997, 1000, input_amount, min_output),
{
    let prod = match input_amount.checked_mul(997) {
        Some(p) => p,
        None => {
            return Err(FlashArbitrageError::ArithmeticOverflow);
        },
    };
    let output = prod / 1000;
    if output < min_output {
        Err(FlashArbitrageError::SlippageTooHigh)
    } else {
        Ok(output)
    }
}

/// Execute a swap on the Jupiter venue model (0.2% slippage).
pub fn execute_jupiter_swap(input_amount: u64, min_output: u64) -> (r: Result<
    u64,
    FlashArbitrageError,
>)
    ensures
        r == spec_sim_swap(998, 1000, input_amount, min_output),
{
    let prod = match input_amount.checked_mul(998) {
        Some(p) => p,
        None => {
            return Err(FlashArbitrageError::ArithmeticOverflow);
        },
    };
    let output = prod / 1000;
    if output < min_output {
        Err(FlashArbitrageError::SlippageTooHigh)
    } else {
        Ok(output)
    }
}

/// Which venue model a swap runs on, by name.
pub open spec fn spec_dispatch_swap(dex: Seq<char>, amount: u64, min_output: u64) -> Result<
    u64,
    FlashArbitrageError,
> {
    if dex == "raydium"@ {
        spec_sim_swap(99, 100, amount, min_output)
    } else if dex == "orca"@ {
        spec_sim_swap(995, 1000, amount, min_output)
    } else if dex == "meteora"@ {
        spec_sim_swap(997, 1000, amount, min_output)
    } else if dex == "jupiter"@ {
        spec_sim_swap(998, 1000, amount, min_output)
    } else {
        Err(FlashArbitrageError::UnsupportedDex)
    }
}

/// What executing one arbitrage route yields: the venue's output for the
/// amount under the route's slippage bound, with the venue's trading fee and
/// the realized slippage, or the first failure.
pub open spec fn spec_execute_route(
    route: ArbitrageRoute,
    input_amount: u64,
    max_slippage: u16,
) -> Result<RouteResult, FlashArbitrageError> {
    if route.expected_output * (10000 - max_slippage) > u64::MAX {
        Err(FlashArbitrageError::ArithmeticOverflow)
    } else {
        let min_output = route.expected_output * (10000 - max_slippage) / 10000;
        match spec_dispatch_swap(route.dex@, input_amount, min_output as u64) {
            Err(e) => Err(e),
            Ok(output_amount) => {
                if input_amount * spec_dex_fee_rate(route.dex@) > u64::MAX {
                    Err(FlashArbitrageError::ArithmeticOverflow)
                } else {
                    let fees_paid = input_amount * spec_dex_fee_rate(route.dex@) / 10000;
                    if output_amount < route.expected_output && (route.expected_output
                        - output_amount) * 10000 > u64::MAX {
                        Err(FlashArbitrageError::ArithmeticOverflow)
                    } else {
                        Ok(
                            RouteResult {
                                input_amount,
                                output_amount,
                                fees_paid: fees_paid as u64,
                                slippage: spec_slippage(route.expected_output, output_amount),
                            },
                        )
                    }
                }
            },
        }
    }
}

/// Execute one arbitrage route on its venue.
///
/// The realized output must reach the route's expected output reduced by the
/// slippage bound, or the route fails with `SlippageTooHigh`; an unknown
/// venue fails with `UnsupportedDex`.
pub fn execute_route(route: &ArbitrageRoute, input_amount: u64, max_slippage: u16) -> (r: Result<
    RouteResult,
    FlashArbitrageError,
>)
    requires
        max_slippage <= 10000,
    ensures
        r == spec_execute_route(*route, input_amount, max_slippage),
{
    if route.expected_output.checked_mul(10000 - max_slippage as u64).is_none() {
        return Err(FlashArbitrageError::ArithmeticOverflow);
    }
    let min_output = calculate_min_output(input_amount, route.expected_output, max_slippage);
    let output_amount = if str_eq(route.dex.as_str(), "raydium") {
        match execute_raydium_swap(input_amount, min_output) {
            Ok(o) => o,
            Err(e) => {
                return Err(e);
            },
        }
    } else if str_eq(route.dex.as_str(), "orca") {
        match execute_orca_swap(input_amount, min_output) {
            Ok(o) => o,
            Err(e) => {
                return Err(e);
            },
        }
    } else if str_eq(route.dex.as_str(), "meteora") {
        match execute_meteora_swap(input_amount, min_output) {
            Ok(o) => o,
            Err(e) => {
                return Err(e);
            },
        }
    } else if str_eq(route.dex.as_str(), "jupiter") {
        match execute_jupiter_swap(input_amount, min_output) {
            Ok(o) => o,
            Err(e) => {
                return Err(e);
            },
        }
    } else {
        return Err(FlashArbitrageError::UnsupportedDex);
    };
    let rate = dex_trading_fee_rate(route.dex.as_str());
    if input_amount.checked_mul(rate).is_none() {
        return Err(FlashArbitrageError::ArithmeticOverflow);
    }
    let fees_paid = calculate_dex_fees(input_amount, route.dex.as_str());
    if output_amount < route.expected_output {
        if (route.expected_output - output_amount).checked_mul(10000).is_none() {
            return Err(FlashArbitrageError::ArithmeticOverflow);
        }
    }
    let slippage = calculate_slippage(route.expected_output, output_amount);
    Ok(RouteResult { input_amount, output_amount, fees_paid, slippage })
}

// Settlement

/// What settling a flash-funded operation yields. The borrow fee is fixed;
/// repayment must be covered by the final balance, the gross profit left
/// after repayment must reach the minimum, and the program's fee comes out
/// of the gross profit.
pub open spec fn spec_settle_ledger(
    fee_rate: u16,
    flash_amount: u64,
    min_profit: u64,
    final_balance: u64,
) -> Result<FlashLedger, FlashArbitrageError> {
    if flash_amount * FLASH_LOAN_FEE_BPS > u64::MAX {
        Err(FlashArbitrageError::ArithmeticOverflow)
    } else {
        let borrow_fee = flash_amount * FLASH_LOAN_FEE_BPS / 10000;
        if flash_amount + borrow_fee > u64::MAX {
            Err(FlashArbitrageError::ArithmeticOverflow)
        } else {
            let repay_amount = flash_amount + borrow_fee;
            if final_balance < repay_amount {
                Err(FlashArbitrageError::InsufficientFunds)
            } else {
                let gross_profit = final_balance - repay_amount;
                if gross_profit < min_profit {
                    Err(FlashArbitrageError::ProfitTooLow)
                } else {
                    if gross_profit * fee_rate > u64::MAX {
                        Err(FlashArbitrageError::ArithmeticOverflow)
                    } else {
                        let program_fee = gross_profit * fee_rate / 10000;
                        let net_profit = gross_profit - program_fee;
                        Ok(
                            FlashLedger {
                                borrowed: flash_amount,
                                borrow_fee: borrow_fee as u64,
                                repay_amount: repay_amount as u64,
                                gross_profit: gross_profit as u64,
                                program_fee: program_fee as u64,
                                net_profit: net_profit as u64,
                            },
                        )
                    }
                }
            }
        }
    }
}

/// Settle a flash-funded operation against its final balance.
///
/// Fails with `InsufficientFunds` when the final balance cannot repay the
/// loan plus its fee, and with `ProfitTooLow` when the gross profit falls
/// short of the requested minimum.
pub fn settle_flash_ledger(fee_rate: u16, flash_amount: u64, min_profit: u64, final_balance: u64) -> (r:
    Result<FlashLedger, FlashArbitrageError>)
    requires
        fee_rate <= 10000,
    ensures
        r == spec_settle_ledger(fee_rate, flash_amount, min_profit, final_balance),
{
    if flash_amount.checked_mul(FLASH_LOAN_FEE_BPS as u64).is_none() {
        return Err(FlashArbitrageError::ArithmeticOverflow);
    }
    let borrow_fee = calculate_flash_loan_fee(flash_amount, FLASH_LOAN_FEE_BPS);
    let repay_amount = match flash_amount.checked_add(borrow_fee) {
        Some(v) => v,
        None => {
            return Err(FlashArbitrageError::ArithmeticOverflow);
        },
    };
    if final_balance < repay_amount {
        return Err(FlashArbitrageError::InsufficientFunds);
    }
    let gross_profit = final_balance - repay_amount;
    if gross_profit < min_profit {
        return Err(FlashArbitrageError::ProfitTooLow);
    }
    if gross_profit.checked_mul(fee_rate as u64).is_none() {
        return Err(FlashArbitrageError::ArithmeticOverflow);
    }
    let program_fee = calculate_program_fee(gross_profit, fee_rate);
    proof {
        lemma_bps_le_amount(gross_profit as int, fee_rate as int);
    }
    let net_profit = gross_profit - program_fee;
    Ok(
        FlashLedger {
            borrowed: flash_amount,
            borrow_fee,
            repay_amount,
            gross_profit,
            program_fee,
            net_profit,
        },
    )
}

/// Law: for every settled ledger, the net profit is the gross profit less
/// the program fee, the gross profit is the final balance less the
/// repayment, the repayment is the borrowed amount plus the borrow fee and
/// never exceeds the final balance, and the gross profit reaches the
/// requested minimum.
pub proof fn lemma_flash_ledger_accounting(
    fee_rate: u16,
    flash_amount: u64,
    min_profit: u64,
    final_balance: u64,
    ledger: FlashLedger,
)
    requires
        fee_rate <= 10000,
        spec_settle_ledger(fee_rate, flash_amount, min_profit, final_balance) == Ok::<
            FlashLedger,
            FlashArbitrageError,
        >(ledger),
    ensures
        ledger.borrowed == flash_amount,
        ledger.repay_amount == flash_amount + ledger.borrow_fee,
        ledger.gross_profit == final_balance - ledger.repay_amount,
        ledger.net_profit == ledger.gross_profit - ledger.program_fee,
        ledger.repay_amount <= final_balance,
        ledger.gross_profit >= min_profit,
        ledger.program_fee <= ledger.gross_profit,
{
    lemma_bps_le_amount(flash_amount as int, FLASH_LOAN_FEE_BPS as int);
    let borrow_fee = flash_amount * FLASH_LOAN_FEE_BPS / 10000;
    let repay_amount = flash_amount + borrow_fee;
    let gross_profit = final_balance - repay_amount;
    lemma_bps_le_amount(gross_profit, fee_rate as int);
}

// Route chain

/// What running the arbitrage routes from position `i` yields: the final
/// balance and accumulated trading fees, or the first failure. Each route's
/// realized output funds the next.
pub open spec fn spec_run_routes(
    routes: Seq<ArbitrageRoute>,
    i: int,
    current: u64,
    fees_acc: u64,
    max_slippage: u16,
) -> Result<(u64, u64), FlashArbitrageError>
    decreases routes.len() - i,
{
    if i < 0 || i >= routes.len() {
        Ok((current, fees_acc))
    } else {
        match spec_execute_route(routes[i], current, max_slippage) {
            Err(e) => Err(e),
            Ok(rr) => {
                if fees_acc + rr.fees_paid > u64::MAX {
                    Err(FlashArbitrageError::ArithmeticOverflow)
                } else {
                    spec_run_routes(
                        routes,
                        i + 1,
                        rr.output_amount,
                        (fees_acc + rr.fees_paid) as u64,
                        max_slippage,
                    )
                }
            },
        }
    }
}

/// Counter updates committed only when a flash operation succeeds.
pub open spec fn spec_flash_counters(
    cfg: Config,
    flash_amount: u64,
    route_fees: u64,
    ledger: FlashLedger,
) -> Result<(u64, Config), FlashArbitrageError> {
    if route_fees + ledger.borrow_fee + ledger.program_fee > u64::MAX {
        Err(FlashArbitrageError::ArithmeticOverflow)
    } else if cfg.total_volume + flash_amount > u64::MAX || cfg.total_fees_collected
        + ledger.program_fee > u64::MAX {
        Err(FlashArbitrageError::ArithmeticOverflow)
    } else {
        Ok(
            (
                (route_fees + ledger.borrow_fee + ledger.program_fee) as u64,
                Config {
                    total_volume: (cfg.total_volume + flash_amount) as u64,
                    total_fees_collected: (cfg.total_fees_collected + ledger.program_fee) as u64,
                    ..cfg
                },
            ),
        )
    }
}

/// Execute a flash-funded arbitrage across a chain of routes.
///
/// Borrows the flash amount, feeds it through the routes in order, repays
/// the loan plus its fee out of the final balance, enforces the minimum
/// profit, and collects the program fee. Any failure aborts the whole
/// operation: the configuration is mutated only on success.
pub fn execute_flash_arbitrage_handler(
    config: &mut Config,
    user: u64,
    flash_loan_amount: u64,
    min_profit: u64,
    routes: Vec<ArbitrageRoute>,
    start_time: i64,
    end_time: i64,
) -> (r: Result<(ArbitrageState, FlashLedger, ArbitrageExecuted, Vec<RouteExecuted>), FlashArbitrageError>)
    requires
        old(config).wf(),
    ensures
        r is Err ==> *final(config) == *old(config),
        ({
            let cfg0 = *old(config);
            if cfg0.is_paused {
                r matches Err(e) && e == FlashArbitrageError::ProgramPaused
            } else if routes@.len() == 0 {
                r matches Err(e) && e == FlashArbitrageError::EmptyRoutes
            } else if routes@.len() > 5 {
                r matches Err(e) && e == FlashArbitrageError::TooManyRoutes
            } else if flash_loan_amount == 0 {
                r matches Err(e) && e == FlashArbitrageError::InvalidAmount
            } else if flash_loan_amount > MAX_FLASH_LOAN_AMOUNT {
                r matches Err(e) && e == FlashArbitrageError::AmountTooLarge
            } else {
                match spec_run_routes(routes@, 0, flash_loan_amount, 0, cfg0.max_slippage) {
                    Err(e) => r matches Err(e2) && e2 == e,
                    Ok((final_balance, route_fees)) => {
                        match spec_settle_ledger(
                            cfg0.fee_rate,
                            flash_loan_amount,
                            min_profit,
                            final_balance,
                        ) {
                            Err(e) => r matches Err(e2) && e2 == e,
                            Ok(ledger) => {
                                match spec_flash_counters(
                                    cfg0,
                                    flash_loan_amount,
                                    route_fees,
                                    ledger,
                                ) {
                                    Err(e) => r matches Err(e2) && e2 == e,
                                    Ok((fees_paid, cfg1)) => r matches Ok(t) && {
                                        &&& *final(config) == cfg1
                                        &&& t.0.user == user
                                        &&& t.0.flash_loan_amount == flash_loan_amount
                                        &&& t.0.min_profit == min_profit
                                        &&& t.0.routes@ == routes@
                                        &&& t.0.status == ArbitrageStatus::Completed
                                        &&& t.0.start_time == start_time
                                        &&& t.0.end_time == end_time
                                        &&& t.0.gross_profit == ledger.gross_profit
                                        &&& t.0.net_profit == ledger.net_profit
                                        &&& t.0.fees_paid == fees_paid
                                        &&& t.1 == ledger
                                        &&& t.2 == (ArbitrageExecuted {
                                            user,
                                            flash_loan_amount,
                                            gross_profit: ledger.gross_profit,
                                            net_profit: ledger.net_profit,
                                            total_fees: fees_paid,
                                            routes_count: routes@.len() as u8,
                                        })
                                        &&& t.3@.len() == routes@.len()
                                        &&& (forall|k: int|
                                            0 <= k < t.3@.len() ==> (
                                            #[trigger] t.3@[k]).route_index == k)
                                        &&& (forall|k: int|
                                            0 <= k < t.3@.len() ==> (#[trigger] t.3@[k]).dex@
                                                == routes@[k].dex@)
                                        &&& (forall|k: int|
                                            0 <= k < t.3@.len() ==> (
                                            #[trigger] t.3@[k]).output_amount == (if k + 1
                                                < t.3@.len() {
                                                t.3@[k + 1].input_amount
                                            } else {
                                                (ledger.repay_amount
                                                    + ledger.gross_profit) as u64
                                            }))
                                        &&& t.3@[0].input_amount == flash_loan_amount
                                    },
                                }
                            },
                        }
                    },
                }
            }
        }),
{
    if config.is_paused {
        return Err(FlashArbitrageError::ProgramPaused);
    }
    if routes.len() == 0 {
        return Err(FlashArbitrageError::EmptyRoutes);
    }
    if routes.len() > 5 {
        return Err(FlashArbitrageError::TooManyRoutes);
    }
    if flash_loan_amount == 0 {
        return Err(FlashArbitrageError::InvalidAmount);
    }
    if flash_loan_amount > MAX_FLASH_LOAN_AMOUNT {
        return Err(FlashArbitrageError::AmountTooLarge);
    }
    match execute_flash_loan(flash_loan_amount) {
        Ok(_) => {},
        Err(e) => {
            return Err(e);
        },
    }
    let ghost rseq = routes@;
    let mut current_amount = flash_loan_amount;
    let mut total_fees: u64 = 0;
    let mut route_events: Vec<RouteExecuted> = Vec::new();
    let mut i: usize = 0;
    while i < routes.len()
        invariant
            *config == *old(config),
            old(config).wf(),
            !old(config).is_paused,
            1 <= routes@.len() <= 5,
            flash_loan_amount != 0,
            flash_loan_amount <= MAX_FLASH_LOAN_AMOUNT,
            i <= routes@.len(),
            rseq == routes@,
            route_events@.len() == i,
            forall|k: int| 0 <= k < i ==> (#[trigger] route_events@[k]).route_index == k,
            forall|k: int| 0 <= k < i ==> (#[trigger] route_events@[k]).dex@ == rseq[k].dex@,
            forall|k: int|
                0 <= k < i ==> (#[trigger] route_events@[k]).output_amount == (if k + 1 < i {
                    route_events@[k + 1].input_amount
                } else {
                    current_amount
                }),
            i > 0 ==> route_events@[0].input_amount == flash_loan_amount,
            i == 0 ==> current_amount == flash_loan_amount,
            spec_run_routes(rseq, 0, flash_loan_amount, 0, config.max_slippage) == spec_run_routes(
                rseq,
                i as int,
                current_amount,
                total_fees,
                config.max_slippage,
            ),
        decreases routes@.len() - i,
    {
        let route = &routes[i];
        let route_result = match execute_route(route, current_amount, config.max_slippage) {
            Ok(rr) => rr,
            Err(e) => {
                return Err(e);
            },
        };
        let new_fees = match total_fees.checked_add(route_result.fees_paid) {
            Some(f) => f,
            None => {
                return Err(FlashArbitrageError::ArithmeticOverflow);
            },
        };
        route_events.push(
            RouteExecuted {
                route_index: i as u8,
                dex: route.dex.clone(),
                input_amount: route_result.input_amount,
                output_amount: route_result.output_amount,
                fees_paid: route_result.fees_paid,
            },
        );
        current_amount = route_result.output_amount;
        total_fees = new_fees;
        i = i + 1;
    }
    let final_balance = current_amount;
    let ledger = match settle_flash_ledger(
        config.fee_rate,
        flash_loan_amount,
        min_profit,
        final_balance,
    ) {
        Ok(l) => l,
        Err(e) => {
            return Err(e);
        },
    };
    match repay_flash_loan(ledger.repay_amount) {
        Ok(_) => {},
        Err(e) => {
            return Err(e);
        },
    };
    let fees_paid = match total_fees.checked_add(ledger.borrow_fee) {
        Some(v) => match v.checked_add(ledger.program_fee) {
            Some(w) => w,
            None => {
                return Err(FlashArbitrageError::ArithmeticOverflow);
            },
        },
        None => {
            return Err(FlashArbitrageError::ArithmeticOverflow);
        },
    };
    let new_volume = match config.total_volume.checked_add(flash_loan_amount) {
        Some(v) => v,
        None => {
            return Err(FlashArbitrageError::ArithmeticOverflow);
        },
    };
    let new_collected = match config.total_fees_collected.checked_add(ledger.program_fee) {
        Some(v) => v,
        None => {
            return Err(FlashArbitrageError::ArithmeticOverflow);
        },
    };
    let event = ArbitrageExecuted {
        user,
        flash_loan_amount,
        gross_profit: ledger.gross_profit,
        net_profit: ledger.net_profit,
        total_fees: fees_paid,
        routes_count: routes.len() as u8,
    };
    let state = ArbitrageState {
        user,
        flash_loan_amount,
        min_profit,
        routes,
        status: ArbitrageStatus::Completed,
        start_time,
        end_time,
        gross_profit: ledger.gross_profit,
        net_profit: ledger.net_profit,
        fees_paid,
    };
    config.total_volume = new_volume;
    config.total_fees_collected = new_collected;
    Ok((state, ledger, event, route_events))
}

// Administrative surface

/// Initialize the flash arbitrage program.
///
/// Validates the same bounds that configuration updates enforce, then starts
/// with zeroed counters and the program running.
pub fn initialize_handler(authority: u64, fee_rate: u16, max_slippage: u16) -> (r: Result<
    (Config, ProgramInitialized),
    FlashArbitrageError,
>)
    ensures
        r is Err <==> fee_rate > 1000 || max_slippage > 5000,
        r matches Err(e) ==> e == (if fee_rate > 1000 {
            FlashArbitrageError::FeeTooHigh
        } else {
            FlashArbitrageError::SlippageTooHigh
        }),
        r matches Ok(p) ==> p.0 == (Config {
            authority,
            fee_rate,
            max_slippage,
            total_volume: 0,
            total_fees_collected: 0,
            is_paused: false,
        }) && p.0.wf() && p.1 == (ProgramInitialized { authority, fee_rate, max_slippage }),
{
    if fee_rate > 1000 {
        return Err(FlashArbitrageError::FeeTooHigh);
    }
    if max_slippage > 5000 {
        return Err(FlashArbitrageError::SlippageTooHigh);
    }
    let config = Config {
        authority,
        fee_rate,
        max_slippage,
        total_volume: 0,
        total_fees_collected: 0,
        is_paused: false,
    };
    Ok((config, ProgramInitialized { authority, fee_rate, max_slippage }))
}

/// Update the program configuration.
///
/// Only the configured authority may update. Every named value is validated
/// before any is applied; a failure leaves the configuration unchanged.
pub fn update_config_handler(
    config: &mut Config,
    caller: u64,
    fee_rate: Option<u16>,
    max_slippage: Option<u16>,
    is_paused: Option<bool>,
) -> (r: Result<ConfigUpdated, FlashArbitrageError>)
    ensures
        r is Err <==> caller != old(config).authority || (fee_rate matches Some(f) && f > 1000) || (
        max_slippage matches Some(s) && s > 5000),
        r matches Err(e) ==> e == (if caller != old(config).authority {
            FlashArbitrageError::Unauthorized
        } else if fee_rate matches Some(f) && f > 1000 {
            FlashArbitrageError::FeeTooHigh
        } else {
            FlashArbitrageError::SlippageTooHigh
        }) && *final(config) == *old(config),
        r matches Ok(ev) ==> *final(config) == (Config {
            fee_rate: spec_unwrap_or(fee_rate, old(config).fee_rate),
            max_slippage: spec_unwrap_or(max_slippage, old(config).max_slippage),
            is_paused: spec_unwrap_or(is_paused, old(config).is_paused),
            ..*old(config)
        }) && ev == (ConfigUpdated {
            authority: caller,
            fee_rate: final(config).fee_rate,
            max_slippage: final(config).max_slippage,
            is_paused: final(config).is_paused,
        }),
        old(config).wf() && r is Ok ==> final(config).wf(),
{
    if caller != config.authority {
        return Err(FlashArbitrageError::Unauthorized);
    }
    if let Some(rate) = fee_rate {
        if rate > 1000 {
            return Err(FlashArbitrageError::FeeTooHigh);
        }
    }
    if let Some(slippage) = max_slippage {
        if slippage > 5000 {
            return Err(FlashArbitrageError::SlippageTooHigh);
        }
    }
    if let Some(rate) = fee_rate {
        config.fee_rate = rate;
    }
    if let Some(slippage) = max_slippage {
        config.max_slippage = slippage;
    }
    if let Some(paused) = is_paused {
        config.is_paused = paused;
    }
    Ok(
        ConfigUpdated {
            authority: caller,
            fee_rate: config.fee_rate,
            max_slippage: config.max_slippage,
            is_paused: config.is_paused,
        },
    )
}

/// Withdraw collected fees to a destination account.
///
/// Only the configured authority may withdraw, and only up to the fee
/// account's balance.
pub fn withdraw_fees_handler(
    config: &Config,
    caller: u64,
    fee_account_balance: u64,
    amount: u64,
    destination: u64,
) -> (r: Result<FeesWithdrawn, FlashArbitrageError>)
    ensures
        r is Err <==> caller != config.authority || amount > fee_account_balance,
        r matches Err(e) ==> e == (if caller != config.authority {
            FlashArbitrageError::Unauthorized
        } else {
            FlashArbitrageError::InsufficientFunds
        }),
        r matches Ok(ev) ==> ev == (FeesWithdrawn { authority: caller, amount, destination }),
{
    if caller != config.authority {
        return Err(FlashArbitrageError::Unauthorized);
    }
    if amount > fee_account_balance {
        return Err(FlashArbitrageError::InsufficientFunds);
    }
    Ok(FeesWithdrawn { authority: caller, amount, destination })
}

/// Activate the emergency pause.
///
/// Only the configured authority may pause; nothing else of the
/// configuration changes.
pub fn emergency_pause_handler(config: &mut Config, caller: u64, now: i64) -> (r: Result<
    EmergencyPauseActivated,
    FlashArbitrageError,
>)
    ensures
        r is Err <==> caller != old(config).authority,
        r matches Err(e) ==> e == FlashArbitrageError::Unauthorized && *final(config) == *old(
            config,
        ),
        r matches Ok(ev) ==> *final(config) == (Config { is_paused: true, ..*old(config) }) && ev
            == (EmergencyPauseActivated { authority: caller, timestamp: now }),
{
    if caller != config.authority {
        return Err(FlashArbitrageError::Unauthorized);
    }
    config.is_paused = true;
    Ok(EmergencyPauseActivated { authority: caller, timestamp: now })
}

} // verus!
