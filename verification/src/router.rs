//! Cross-venue route optimization and atomic route execution.
//!
//! The router finds the best path for swapping one token for another across
//! the supported venues, either directly or through one intermediate token,
//! and executes a chosen route hop by hop under a per-hop slippage bound.
//! All monetary amounts are integer token units; rates are basis points.

use vstd::prelude::*;
use crate::math::lemma_bps_le_amount;

verus! {

/// Default intermediate token for two-hop routes (stablecoin).
pub const USDC_TOKEN: u64 = 1;

/// Default intermediate token for two-hop routes (wrapped native token).
pub const WSOL_TOKEN: u64 = 2;

/// Default intermediate token for two-hop routes (stablecoin).
pub const USDT_TOKEN: u64 = 3;

/// Configuration for the cross-DEX router
#[derive(Clone, Copy, Debug, PartialEq, Eq, Structural)]
pub struct RouterConfig {
    pub authority: u64,
    pub max_hops: u8,
    pub default_slippage: u16,
    pub routing_fee: u16,
    pub total_routes_executed: u64,
    pub total_volume: u64,
    pub total_fees_collected: u64,
    pub is_active: bool,
}

impl RouterConfig {
    /// Bounds that registration enforces and every update preserves.
    pub open spec fn wf(self) -> bool {
        &&& self.max_hops <= 10
        &&& self.default_slippage <= 5000
        &&& self.routing_fee <= 1000
    }
}

/// Information about a DEX protocol
#[derive(Clone, Debug)]
pub struct DexInfo {
    pub name: String,
    pub program_id: u64,
    /// Trading fee in basis points
    pub fee_rate: u16,
    pub is_active: bool,
    /// Number of supported tokens
    pub supported_tokens: u32,
}

/// Registry entry of a supported DEX protocol with rolling statistics
#[derive(Clone, Debug)]
pub struct DexRegistry {
    pub dex_info: DexInfo,
    pub total_volume: u64,
    pub total_swaps: u32,
    /// In basis points
    pub success_rate: u16,
    /// In basis points
    pub average_slippage: u16,
    pub last_updated: i64,
}

/// Single hop in a multi-hop route
#[derive(Clone, Debug)]
pub struct RouteHop {
    pub dex: String,
    pub input_token: u64,
    pub output_token: u64,
    pub input_amount: u64,
    pub expected_output: u64,
    pub fees: u64,
    pub price_impact: u16,
    pub pool_address: u64,
}

/// Mathematical model of a route hop: the hop with its venue name as a
/// character sequence.
pub struct HopModel {
    pub dex: Seq<char>,
    pub input_token: u64,
    pub output_token: u64,
    pub input_amount: u64,
    pub expected_output: u64,
    pub fees: u64,
    pub price_impact: u16,
    pub pool_address: u64,
}

impl View for RouteHop {
    type V = HopModel;

    open spec fn view(&self) -> HopModel {
        HopModel {
            dex: self.dex@,
            input_token: self.input_token,
            output_token: self.output_token,
            input_amount: self.input_amount,
            expected_output: self.expected_output,
            fees: self.fees,
            price_impact: self.price_impact,
            pool_address: self.pool_address,
        }
    }
}

/// Optimal route for token swapping
#[derive(Clone, Debug)]
pub struct OptimalRoute {
    pub hops: Vec<RouteHop>,
    pub expected_output: u64,
    pub total_fees: u64,
    pub price_impact: u16,
}

/// Mathematical model of a route: its hops and aggregates.
pub struct RouteModel {
    pub hops: Seq<HopModel>,
    pub expected_output: u64,
    pub total_fees: u64,
    pub price_impact: u16,
}

impl View for OptimalRoute {
    type V = RouteModel;

    open spec fn view(&self) -> RouteModel {
        RouteModel {
            hops: self.hops@.map_values(|h: RouteHop| h@),
            expected_output: self.expected_output,
            total_fees: self.total_fees,
            price_impact: self.price_impact,
        }
    }
}

/// Status of route execution
#[derive(Clone, Copy, Debug, PartialEq, Eq, Structural)]
pub enum RouteStatus {
    Finding,
    Executing,
    Completed,
    Failed,
}

/// State of a completed route execution
#[derive(Clone, Debug)]
pub struct RouteState {
    pub user: u64,
    pub input_token: u64,
    pub output_token: u64,
    pub input_amount: u64,
    pub min_output_amount: u64,
    pub max_slippage: u16,
    pub route: OptimalRoute,
    pub status: RouteStatus,
    pub start_time: i64,
    pub end_time: i64,
    pub actual_output: u64,
    pub total_fees: u64,
    pub actual_slippage: u16,
}

/// State of a route quote
#[derive(Clone, Debug)]
pub struct QuoteState {
    pub input_token: u64,
    pub output_token: u64,
    pub input_amount: u64,
    pub route: OptimalRoute,
    pub expected_output: u64,
    pub estimated_fees: u64,
    pub price_impact: u16,
    pub timestamp: i64,
}

/// Result of route execution
#[derive(Clone, Copy, Debug, PartialEq, Eq, Structural)]
pub struct RouteExecutionResult {
    pub output_amount: u64,
    pub total_fees: u64,
    pub hops_executed: u8,
}

/// Result of a single swap operation
#[derive(Clone, Copy, Debug, PartialEq, Eq, Structural)]
pub struct SwapResult {
    pub input_amount: u64,
    pub output_amount: u64,
    pub fees: u64,
}

/// Errors that can occur in the cross-DEX router
#[derive(Clone, Copy, Debug, PartialEq, Eq, Structural)]
pub enum CrossDexError {
    InvalidDexName,
    FeeTooHigh,
    DexNotActive,
    RouterInactive,
    InvalidAmount,
    SlippageTooHigh,
    RouteNotProfitable,
    NoRouteFound,
    TooManyHops,
    UnsupportedDex,
    RouteExecutionFailed,
    InsufficientLiquidity,
    PriceImpactTooHigh,
    Unauthorized,
    InvalidConfig,
    ArithmeticOverflow,
}

// Events

/// Event emitted when the router is initialized
#[derive(Clone, Copy, Debug, PartialEq, Eq, Structural)]
pub struct RouterInitialized {
    pub authority: u64,
    pub max_hops: u8,
    pub default_slippage: u16,
    pub routing_fee: u16,
}

/// Event emitted when a DEX is registered
#[derive(Clone, Debug)]
pub struct DexRegistered {
    pub dex_name: String,
    pub program_id: u64,
    pub fee_rate: u16,
}

/// Event emitted when a route is executed
#[derive(Clone, Copy, Debug, PartialEq, Eq, Structural)]
pub struct RouteExecuted {
    pub user: u64,
    pub input_token: u64,
    pub output_token: u64,
    pub input_amount: u64,
    pub output_amount: u64,
    pub hops_count: u8,
    pub total_fees: u64,
    pub execution_time: i64,
}

/// Event emitted when a hop is executed
#[derive(Clone, Debug)]
pub struct HopExecuted {
    pub hop_index: u8,
    pub dex: String,
    pub input_amount: u64,
    pub output_amount: u64,
    pub fees: u64,
}

/// Event emitted when a quote is generated
#[derive(Clone, Copy, Debug, PartialEq, Eq, Structural)]
pub struct QuoteGenerated {
    pub input_token: u64,
    pub output_token: u64,
    pub input_amount: u64,
    pub expected_output: u64,
    pub hops_count: u8,
    pub estimated_fees: u64,
    pub price_impact: u16,
}

/// Event emitted when DEX metrics are updated
#[derive(Clone, Debug)]
pub struct DexMetricsUpdated {
    pub dex_name: String,
    pub total_volume: u64,
    pub total_swaps: u32,
    pub success_rate: u16,
    pub average_slippage: u16,
}

/// Event emitted when configuration is updated
#[derive(Clone, Copy, Debug, PartialEq, Eq, Structural)]
pub struct ConfigUpdated {
    pub authority: u64,
    pub max_hops: u8,
    pub default_slippage: u16,
    pub routing_fee: u16,
    pub is_active: bool,
}

// Venue model

/// Fee rate and base slippage (both in basis points) of each supported
/// venue's deterministic simulation model.
pub open spec fn spec_dex_rates(dex: Seq<char>) -> Option<(u64, u64)> {
    if dex == "raydium"@ {
        Some((25u64, 50u64))
    } else if dex == "orca"@ {
        Some((30u64, 30u64))
    } else if dex == "meteora"@ {
        Some((20u64, 40u64))
    } else if dex == "jupiter"@ {
        Some((15u64, 20u64))
    } else {
        None
    }
}

/// Every supported venue charges at most 30 bps fee and 50 bps slippage.
pub proof fn lemma_dex_rates_bounds(dex: Seq<char>)
    ensures
        spec_dex_rates(dex) matches Some(rates) ==> 0 < rates.0 <= 30 && 0 < rates.1 <= 50,
{
}

/// String equality by view.
pub(crate) fn str_eq(a: &str, b: &str) -> (r: bool)
    ensures
        r == (a@ == b@),
{
    let s1: String = a.to_owned();
    let s2: String = b.to_owned();
    s1 == s2
}

/// The fee rate and base slippage of a venue, if it is supported.
pub fn dex_fee_params(dex: &str) -> (r: Option<(u64, u64)>)
    ensures
        r == spec_dex_rates(dex@),
{
    if str_eq(dex, "raydium") {
        Some((25, 50))
    } else if str_eq(dex, "orca") {
        Some((30, 30))
    } else if str_eq(dex, "meteora") {
        Some((20, 40))
    } else if str_eq(dex, "jupiter") {
        Some((15, 20))
    } else {
        None
    }
}

/// What simulating a swap yields: the simulated hop for a supported venue
/// and distinct tokens, `None` for an unsupported venue or an identical
/// token pair, or an arithmetic-overflow failure.
pub open spec fn spec_simulate_dex_swap(
    dex: Seq<char>,
    input_token: u64,
    output_token: u64,
    input_amount: u64,
) -> Result<Option<HopModel>, CrossDexError> {
    match spec_dex_rates(dex) {
        None => Ok(None),
        Some((fee_rate, base_slippage)) => {
            if input_amount * fee_rate > u64::MAX {
                Err(CrossDexError::ArithmeticOverflow)
            } else {
                let fees = input_amount * fee_rate / 10000;
                let amount_after_fees = input_amount - fees;
                if amount_after_fees * base_slippage > u64::MAX {
                    Err(CrossDexError::ArithmeticOverflow)
                } else {
                    let slippage_amount = amount_after_fees * base_slippage / 10000;
                    let expected_output = amount_after_fees - slippage_amount;
                    if input_token == output_token {
                        Ok(None)
                    } else {
                        Ok(
                            Some(
                                HopModel {
                                    dex,
                                    input_token,
                                    output_token,
                                    input_amount,
                                    expected_output: expected_output as u64,
                                    fees: fees as u64,
                                    price_impact: base_slippage as u16,
                                    pool_address: 0,
                                },
                            ),
                        )
                    }
                }
            }
        },
    }
}

/// Simulate a swap on a specific DEX.
///
/// For a supported venue the simulated hop charges the venue's fee, then its
/// base slippage, on the input amount; an unsupported venue or an identical
/// token pair yields no hop.
pub fn simulate_dex_swap(
    dex: &str,
    input_token: u64,
    output_token: u64,
    input_amount: u64,
) -> (r: Result<Option<RouteHop>, CrossDexError>)
    ensures
        ({
            let m = spec_simulate_dex_swap(dex@, input_token, output_token, input_amount);
            match r {
                Ok(Some(h)) => m == Ok::<Option<HopModel>, CrossDexError>(Some(h@)),
                Ok(None) => m == Ok::<Option<HopModel>, CrossDexError>(None::<HopModel>),
                Err(e) => m == Err::<Option<HopModel>, CrossDexError>(e),
            }
        }),
{
    let rates = dex_fee_params(dex);
    match rates {
        None => Ok(None),
        Some((fee_rate, base_slippage)) => {
            proof {
                lemma_dex_rates_bounds(dex@);
            }
            let prod = match input_amount.checked_mul(fee_rate) {
                Some(p) => p,
                None => {
                    return Err(CrossDexError::ArithmeticOverflow);
                },
            };
            let fees = prod / 10000;
            proof {
                lemma_bps_le_amount(input_amount as int, fee_rate as int);
            }
            let amount_after_fees = input_amount - fees;
            let prod2 = match amount_after_fees.checked_mul(base_slippage) {
                Some(p) => p,
                None => {
                    return Err(CrossDexError::ArithmeticOverflow);
                },
            };
            let slippage_amount = prod2 / 10000;
            proof {
                lemma_bps_le_amount(amount_after_fees as int, base_slippage as int);
            }
            let expected_output = amount_after_fees - slippage_amount;
            if input_token == output_token {
                Ok(None)
            } else {
                Ok(
                    Some(
                        RouteHop {
                            dex: dex.to_owned(),
                            input_token,
                            output_token,
                            input_amount,
                            expected_output,
                            fees,
                            price_impact: base_slippage as u16,
                            pool_address: 0,
                        },
                    ),
                )
            }
        },
    }
}

// Route search

/// Views of a list of venue names.
pub open spec fn names_of(preferred: Seq<String>) -> Seq<Seq<char>> {
    preferred.map_values(|s: String| s@)
}

/// The venue set tried when the caller expresses no preference.
pub open spec fn spec_default_dexes() -> Seq<Seq<char>> {
    seq!["raydium"@, "orca"@, "meteora"@]
}

/// The venue set a search works on: the caller's preferred venues, or the
/// default set if the caller named none.
pub open spec fn spec_effective_dexes(preferred: Seq<Seq<char>>) -> Seq<Seq<char>> {
    if preferred.len() == 0 {
        spec_default_dexes()
    } else {
        preferred
    }
}

/// Keep whichever of a candidate hop and the best hop so far has the
/// strictly greater expected output; ties keep the earlier one.
pub open spec fn spec_better_hop(h: HopModel, best: Option<HopModel>) -> Option<HopModel> {
    match best {
        None => Some(h),
        Some(b) => if h.expected_output > b.expected_output {
            Some(h)
        } else {
            Some(b)
        },
    }
}

/// Scanning the venue list from position `i` with `best` as the best hop so
/// far: the first simulation failure aborts the scan, otherwise the hop with
/// the greatest expected output wins.
pub open spec fn spec_direct_scan(
    names: Seq<Seq<char>>,
    i: int,
    input_token: u64,
    output_token: u64,
    input_amount: u64,
    best: Option<HopModel>,
) -> Result<Option<HopModel>, CrossDexError>
    decreases names.len() - i,
{
    if i < 0 || i >= names.len() {
        Ok(best)
    } else {
        match spec_simulate_dex_swap(names[i], input_token, output_token, input_amount) {
            Err(e) => Err(e),
            Ok(None) => spec_direct_scan(names, i + 1, input_token, output_token, input_amount, best),
            Ok(Some(h)) => spec_direct_scan(
                names,
                i + 1,
                input_token,
                output_token,
                input_amount,
                spec_better_hop(h, best),
            ),
        }
    }
}

/// What the direct-route search returns over the effective venue set.
pub open spec fn spec_find_direct_route(
    preferred: Seq<Seq<char>>,
    input_token: u64,
    output_token: u64,
    input_amount: u64,
) -> Result<Option<HopModel>, CrossDexError> {
    spec_direct_scan(
        spec_effective_dexes(preferred),
        0,
        input_token,
        output_token,
        input_amount,
        None,
    )
}

/// Bounds every simulated hop satisfies: it connects the requested pair,
/// spends the requested amount, and its fee, output and impact are bounded
/// by the amount and the venue table.
pub open spec fn hop_sane(h: HopModel, input_token: u64, output_token: u64, amount: u64) -> bool {
    &&& h.input_token == input_token
    &&& h.output_token == output_token
    &&& h.input_amount == amount
    &&& h.price_impact <= 50
    &&& h.fees <= amount
    &&& h.expected_output <= amount
}

/// A successful simulation yields a sane hop.
pub proof fn lemma_simulate_sane(dex: Seq<char>, input_token: u64, output_token: u64, amount: u64)
    ensures
        spec_simulate_dex_swap(dex, input_token, output_token, amount) matches Ok(Some(h))
            ==> hop_sane(h, input_token, output_token, amount),
{
    match spec_dex_rates(dex) {
        None => {},
        Some((fee_rate, base_slippage)) => {
            lemma_dex_rates_bounds(dex);
            if amount * fee_rate <= u64::MAX {
                lemma_bps_le_amount(amount as int, fee_rate as int);
                let fees = amount * fee_rate / 10000;
                let after = amount - fees;
                if after * base_slippage <= u64::MAX {
                    lemma_bps_le_amount(after as int, base_slippage as int);
                }
            }
        },
    }
}

/// Every hop a scan returns is sane, provided the running best is.
pub proof fn lemma_direct_scan_sane(
    names: Seq<Seq<char>>,
    i: int,
    input_token: u64,
    output_token: u64,
    amount: u64,
    best: Option<HopModel>,
)
    requires
        best matches Some(b) ==> hop_sane(b, input_token, output_token, amount),
    ensures
        spec_direct_scan(names, i, input_token, output_token, amount, best) matches Ok(Some(h))
            ==> hop_sane(h, input_token, output_token, amount),
    decreases names.len() - i,
{
    if 0 <= i < names.len() {
        lemma_simulate_sane(names[i], input_token, output_token, amount);
        match spec_simulate_dex_swap(names[i], input_token, output_token, amount) {
            Err(_) => {},
            Ok(None) => {
                lemma_direct_scan_sane(names, i + 1, input_token, output_token, amount, best);
            },
            Ok(Some(h)) => {
                lemma_direct_scan_sane(
                    names,
                    i + 1,
                    input_token,
                    output_token,
                    amount,
                    spec_better_hop(h, best),
                );
            },
        }
    }
}

/// The model of the best hop held by a scan in progress.
pub open spec fn opt_hop_model(o: Option<RouteHop>) -> Option<HopModel> {
    match o {
        None => None,
        Some(h) => Some(h@),
    }
}

/// Scan a concrete venue list for the direct hop with the greatest output.
fn scan_dexes(dexes: &Vec<String>, input_token: u64, output_token: u64, input_amount: u64) -> (r:
    Result<Option<RouteHop>, CrossDexError>)
    ensures
        ({
            let m = spec_direct_scan(
                names_of(dexes@),
                0,
                input_token,
                output_token,
                input_amount,
                None,
            );
            match r {
                Ok(Some(h)) => m == Ok::<Option<HopModel>, CrossDexError>(Some(h@)),
                Ok(None) => m == Ok::<Option<HopModel>, CrossDexError>(None::<HopModel>),
                Err(e) => m == Err::<Option<HopModel>, CrossDexError>(e),
            }
        }),
{
    let ghost names = names_of(dexes@);
    let mut best_hop: Option<RouteHop> = None;
    let mut i: usize = 0;
    while i < dexes.len()
        invariant
            i <= dexes.len(),
            names == names_of(dexes@),
            spec_direct_scan(names, 0, input_token, output_token, input_amount, None)
                == spec_direct_scan(
                names,
                i as int,
                input_token,
                output_token,
                input_amount,
                opt_hop_model(best_hop),
            ),
        decreases dexes.len() - i,
    {
        proof {
            assert(names[i as int] == dexes@[i as int]@);
        }
        let hr = simulate_dex_swap(dexes[i].as_str(), input_token, output_token, input_amount);
        match hr {
            Err(e) => {
                return Err(e);
            },
            Ok(None) => {},
            Ok(Some(h)) => {
                best_hop = match best_hop {
                    None => Some(h),
                    Some(b) => {
                        if h.expected_output > b.expected_output {
                            Some(h)
                        } else {
                            Some(b)
                        }
                    },
                };
            },
        }
        i = i + 1;
    }
    Ok(best_hop)
}

/// Find the direct route between two tokens.
///
/// Simulates a single-hop swap on each venue of `preferred_dexes` (or the
/// default venue set if it is empty) and returns the hop with the greatest
/// expected output, `None` when no venue supports the pair.
pub fn find_direct_route(
    input_token: u64,
    output_token: u64,
    input_amount: u64,
    preferred_dexes: &Vec<String>,
) -> (r: Result<Option<RouteHop>, CrossDexError>)
    ensures
        ({
            let m = spec_find_direct_route(
                names_of(preferred_dexes@),
                input_token,
                output_token,
                input_amount,
            );
            match r {
                Ok(Some(h)) => m == Ok::<Option<HopModel>, CrossDexError>(Some(h@)),
                Ok(None) => m == Ok::<Option<HopModel>, CrossDexError>(None::<HopModel>),
                Err(e) => m == Err::<Option<HopModel>, CrossDexError>(e),
            }
        }),
{
    if preferred_dexes.len() == 0 {
        let mut defaults: Vec<String> = Vec::new();
        defaults.push("raydium".to_owned());
        defaults.push("orca".to_owned());
        defaults.push("meteora".to_owned());
        proof {
            assert(names_of(defaults@) =~= spec_default_dexes());
        }
        scan_dexes(&defaults, input_token, output_token, input_amount)
    } else {
        scan_dexes(preferred_dexes, input_token, output_token, input_amount)
    }
}

// Route aggregates

/// Sum of the hops' price impacts, in basis points.
pub open spec fn spec_total_impact(hops: Seq<HopModel>) -> int
    decreases hops.len(),
{
    if hops.len() == 0 {
        0
    } else {
        hops[0].price_impact + spec_total_impact(hops.skip(1))
    }
}

/// Sum of the hops' fees, in token units.
pub open spec fn spec_total_fees(hops: Seq<HopModel>) -> int
    decreases hops.len(),
{
    if hops.len() == 0 {
        0
    } else {
        hops[0].fees + spec_total_fees(hops.skip(1))
    }
}

/// Totals of a one-hop route are the hop's own figures.
pub proof fn lemma_single_totals(h: HopModel)
    ensures
        spec_total_impact(seq![h]) == h.price_impact,
        spec_total_fees(seq![h]) == h.fees,
{
    let s = seq![h];
    assert(s.skip(1) =~= Seq::<HopModel>::empty());
    assert(spec_total_impact(s.skip(1)) == 0);
    assert(spec_total_fees(s.skip(1)) == 0);
    assert(s[0] == h);
}

/// Totals of a two-hop route are the sums of the hops' figures.
pub proof fn lemma_pair_totals(h1: HopModel, h2: HopModel)
    ensures
        spec_total_impact(seq![h1, h2]) == h1.price_impact + h2.price_impact,
        spec_total_fees(seq![h1, h2]) == h1.fees + h2.fees,
{
    let s = seq![h1, h2];
    assert(s.skip(1) =~= seq![h2]);
    lemma_single_totals(h2);
    assert(s[0] == h1);
    assert(spec_total_impact(s) == h1.price_impact + spec_total_impact(seq![h2]));
    assert(spec_total_fees(s) == h1.fees + spec_total_fees(seq![h2]));
}

/// Totals are never negative.
pub proof fn lemma_totals_nonneg(hops: Seq<HopModel>)
    ensures
        spec_total_impact(hops) >= 0,
        spec_total_fees(hops) >= 0,
    decreases hops.len(),
{
    if hops.len() > 0 {
        lemma_totals_nonneg(hops.skip(1));
    }
}

/// A well-formed route: non-empty, its aggregate figures are the sums over
/// its hops, its expected output is the last hop's, and consecutive hops
/// chain both tokens and amounts.
pub open spec fn route_wf(rm: RouteModel) -> bool {
    &&& rm.hops.len() >= 1
    &&& rm.price_impact == spec_total_impact(rm.hops)
    &&& rm.total_fees == spec_total_fees(rm.hops)
    &&& rm.expected_output == rm.hops[rm.hops.len() - 1].expected_output
    &&& forall|i: int|
        1 <= i < rm.hops.len() ==> (#[trigger] rm.hops[i]).input_amount == rm.hops[
            i - 1
        ].expected_output
    &&& forall|i: int|
        0 <= i < rm.hops.len() - 1 ==> (#[trigger] rm.hops[i]).output_token == rm.hops[
            i + 1
        ].input_token
}

/// A route that serves a request: it starts at the requested input token and
/// amount and ends at the requested output token.
pub open spec fn route_for(rm: RouteModel, input_token: u64, output_token: u64, amount: u64) -> bool {
    &&& rm.hops.len() >= 1
    &&& rm.hops[0].input_token == input_token
    &&& rm.hops[0].input_amount == amount
    &&& rm.hops[rm.hops.len() - 1].output_token == output_token
}

/// The route a multi-hop search starts from: no hops, zero output.
pub open spec fn spec_empty_route() -> RouteModel {
    RouteModel { hops: Seq::empty(), expected_output: 0, total_fees: 0, price_impact: 0 }
}

/// Scanning the intermediate tokens from position `j` with `best` as the
/// best two-hop route so far. Intermediates equal to an endpoint are
/// skipped; a candidate replaces `best` only when its output is strictly
/// greater.
pub open spec fn spec_multi_scan(
    mids: Seq<u64>,
    j: int,
    preferred: Seq<Seq<char>>,
    input_token: u64,
    output_token: u64,
    input_amount: u64,
    best: RouteModel,
) -> Result<RouteModel, CrossDexError>
    decreases mids.len() - j,
{
    if j < 0 || j >= mids.len() {
        Ok(best)
    } else {
        let mid = mids[j];
        if mid == input_token || mid == output_token {
            spec_multi_scan(mids, j + 1, preferred, input_token, output_token, input_amount, best)
        } else {
            match spec_find_direct_route(preferred, input_token, mid, input_amount) {
                Err(e) => Err(e),
                Ok(None) => spec_multi_scan(
                    mids,
                    j + 1,
                    preferred,
                    input_token,
                    output_token,
                    input_amount,
                    best,
                ),
                Ok(Some(h1)) => match spec_find_direct_route(
                    preferred,
                    mid,
                    output_token,
                    h1.expected_output,
                ) {
                    Err(e) => Err(e),
                    Ok(None) => spec_multi_scan(
                        mids,
                        j + 1,
                        preferred,
                        input_token,
                        output_token,
                        input_amount,
                        best,
                    ),
                    Ok(Some(h2)) => if h2.expected_output > best.expected_output {
                        if h1.fees + h2.fees > u64::MAX {
                            Err(CrossDexError::ArithmeticOverflow)
                        } else {
                            spec_multi_scan(
                                mids,
                                j + 1,
                                preferred,
                                input_token,
                                output_token,
                                input_amount,
                                RouteModel {
                                    hops: seq![h1, h2],
                                    expected_output: h2.expected_output,
                                    total_fees: (h1.fees + h2.fees) as u64,
                                    price_impact: (h1.price_impact + h2.price_impact) as u16,
                                },
                            )
                        }
                    } else {
                        spec_multi_scan(
                            mids,
                            j + 1,
                            preferred,
                            input_token,
                            output_token,
                            input_amount,
                            best,
                        )
                    },
                },
            }
        }
    }
}

/// The default intermediate tokens tried by the multi-hop search.
pub open spec fn spec_intermediate_tokens() -> Seq<u64> {
    seq![USDC_TOKEN, WSOL_TOKEN, USDT_TOKEN]
}

/// What the multi-hop search returns: the best two-hop route through the
/// default intermediate tokens, or a route with no hops if none exists.
pub open spec fn spec_find_multi_hop_route(
    preferred: Seq<Seq<char>>,
    input_token: u64,
    output_token: u64,
    input_amount: u64,
) -> Result<RouteModel, CrossDexError> {
    spec_multi_scan(
        spec_intermediate_tokens(),
        0,
        preferred,
        input_token,
        output_token,
        input_amount,
        spec_empty_route(),
    )
}

/// Either the empty starting route, or a well-formed two-hop route serving
/// the request with output bounded by the input.
pub open spec fn multi_route_sane(
    rm: RouteModel,
    input_token: u64,
    output_token: u64,
    amount: u64,
) -> bool {
    if rm.hops.len() == 0 {
        rm.expected_output == 0
    } else {
        &&& rm.hops.len() == 2
        &&& route_wf(rm)
        &&& route_for(rm, input_token, output_token, amount)
        &&& rm.expected_output <= amount
    }
}

/// Every route a multi-hop scan returns is sane, provided the running best
/// is.
pub proof fn lemma_multi_scan_sane(
    mids: Seq<u64>,
    j: int,
    preferred: Seq<Seq<char>>,
    input_token: u64,
    output_token: u64,
    input_amount: u64,
    best: RouteModel,
)
    requires
        multi_route_sane(best, input_token, output_token, input_amount),
    ensures
        spec_multi_scan(mids, j, preferred, input_token, output_token, input_amount, best)
            matches Ok(rm) ==> multi_route_sane(rm, input_token, output_token, input_amount),
    decreases mids.len() - j,
{
    if 0 <= j < mids.len() {
        let mid = mids[j];
        if mid == input_token || mid == output_token {
            lemma_multi_scan_sane(
                mids,
                j + 1,
                preferred,
                input_token,
                output_token,
                input_amount,
                best,
            );
        } else {
            let eff = spec_effective_dexes(preferred);
            lemma_direct_scan_sane(eff, 0, input_token, mid, input_amount, None);
            match spec_find_direct_route(preferred, input_token, mid, input_amount) {
                Err(_) => {},
                Ok(None) => {
                    lemma_multi_scan_sane(
                        mids,
                        j + 1,
                        preferred,
                        input_token,
                        output_token,
                        input_amount,
                        best,
                    );
                },
                Ok(Some(h1)) => {
                    lemma_direct_scan_sane(eff, 0, mid, output_token, h1.expected_output, None);
                    match spec_find_direct_route(preferred, mid, output_token, h1.expected_output) {
                        Err(_) => {},
                        Ok(None) => {
                            lemma_multi_scan_sane(
                                mids,
                                j + 1,
                                preferred,
                                input_token,
                                output_token,
                                input_amount,
                                best,
                            );
                        },
                        Ok(Some(h2)) => {
                            if h2.expected_output > best.expected_output {
                                if h1.fees + h2.fees <= u64::MAX {
                                    lemma_pair_totals(h1, h2);
                                    let cand = RouteModel {
                                        hops: seq![h1, h2],
                                        expected_output: h2.expected_output,
                                        total_fees: (h1.fees + h2.fees) as u64,
                                        price_impact: (h1.price_impact + h2.price_impact) as u16,
                                    };
                                    assert(multi_route_sane(
                                        cand,
                                        input_token,
                                        output_token,
                                        input_amount,
                                    ));
                                    lemma_multi_scan_sane(
                                        mids,
                                        j + 1,
                                        preferred,
                                        input_token,
                                        output_token,
                                        input_amount,
                                        cand,
                                    );
                                }
                            } else {
                                lemma_multi_scan_sane(
                                    mids,
                                    j + 1,
                                    preferred,
                                    input_token,
                                    output_token,
                                    input_amount,
                                    best,
                                );
                            }
                        },
                    }
                },
            }
        }
    }
}

/// Get popular intermediate tokens for multi-hop routing.
pub fn get_popular_intermediate_tokens() -> (r: Vec<u64>)
    ensures
        r@ == spec_intermediate_tokens(),
{
    let mut v: Vec<u64> = Vec::new();
    v.push(USDC_TOKEN);
    v.push(WSOL_TOKEN);
    v.push(USDT_TOKEN);
    proof {
        assert(v@ =~= spec_intermediate_tokens());
    }
    v
}

/// Find a multi-hop route through the default intermediate tokens.
///
/// Tries two-hop routes whose first hop reaches an intermediate token and
/// whose second hop spends that hop's expected output, keeping the candidate
/// with the strictly greatest output; the result has no hops when no such
/// route exists.
pub fn find_multi_hop_route(
    input_token: u64,
    output_token: u64,
    input_amount: u64,
    _max_hops: u8,
    preferred_dexes: &Vec<String>,
) -> (r: Result<OptimalRoute, CrossDexError>)
    ensures
        ({
            let m = spec_find_multi_hop_route(
                names_of(preferred_dexes@),
                input_token,
                output_token,
                input_amount,
            );
            match r {
                Ok(route) => m == Ok::<RouteModel, CrossDexError>(route@),
                Err(e) => m == Err::<RouteModel, CrossDexError>(e),
            }
        }),
{
    let ghost names = names_of(preferred_dexes@);
    let intermediate_tokens = get_popular_intermediate_tokens();
    let ghost mids = spec_intermediate_tokens();
    let mut best_route = OptimalRoute {
        hops: Vec::new(),
        expected_output: 0,
        total_fees: 0,
        price_impact: 0,
    };
    proof {
        assert(best_route@.hops =~= Seq::<HopModel>::empty());
    }
    let mut j: usize = 0;
    while j < intermediate_tokens.len()
        invariant
            j <= intermediate_tokens.len(),
            names == names_of(preferred_dexes@),
            mids == spec_intermediate_tokens(),
            intermediate_tokens@ == mids,
            spec_multi_scan(
                mids,
                0,
                names,
                input_token,
                output_token,
                input_amount,
                spec_empty_route(),
            ) == spec_multi_scan(
                mids,
                j as int,
                names,
                input_token,
                output_token,
                input_amount,
                best_route@,
            ),
        decreases intermediate_tokens.len() - j,
    {
        let mid = intermediate_tokens[j];
        if mid != input_token && mid != output_token {
            match find_direct_route(input_token, mid, input_amount, preferred_dexes) {
                Err(e) => {
                    return Err(e);
                },
                Ok(None) => {},
                Ok(Some(hop1)) => {
                    match find_direct_route(mid, output_token, hop1.expected_output, preferred_dexes) {
                        Err(e) => {
                            return Err(e);
                        },
                        Ok(None) => {},
                        Ok(Some(hop2)) => {
                            if hop2.expected_output > best_route.expected_output {
                                proof {
                                    let eff = spec_effective_dexes(names);
                                    lemma_direct_scan_sane(
                                        eff,
                                        0,
                                        input_token,
                                        mid,
                                        input_amount,
                                        None,
                                    );
                                    lemma_direct_scan_sane(
                                        eff,
                                        0,
                                        mid,
                                        output_token,
                                        hop1.expected_output,
                                        None,
                                    );
                                }
                                let ghost h1v = hop1@;
                                let ghost h2v = hop2@;
                                let expected_output = hop2.expected_output;
                                let total_fees = match hop1.fees.checked_add(hop2.fees) {
                                    Some(f) => f,
                                    None => {
                                        return Err(CrossDexError::ArithmeticOverflow);
                                    },
                                };
                                let impact: u32 = hop1.price_impact as u32
                                    + hop2.price_impact as u32;
                                let mut hops: Vec<RouteHop> = Vec::new();
                                hops.push(hop1);
                                hops.push(hop2);
                                proof {
                                    assert(hops@.map_values(|h: RouteHop| h@) =~= seq![h1v, h2v]);
                                }
                                best_route = OptimalRoute {
                                    hops,
                                    expected_output,
                                    total_fees,
                                    price_impact: impact as u16,
                                };
                            }
                        },
                    }
                },
            }
        }
        j = j + 1;
    }
    Ok(best_route)
}

/// The single-hop route made of a direct hop, or the empty route when there
/// is none.
pub open spec fn spec_route_of_direct(d: Option<HopModel>) -> RouteModel {
    match d {
        None => spec_empty_route(),
        Some(h) => RouteModel {
            hops: seq![h],
            expected_output: h.expected_output,
            total_fees: h.fees,
            price_impact: h.price_impact,
        },
    }
}

/// What the route optimizer returns: the better of the best direct hop and
/// (when more than one hop is allowed) the best two-hop route, the direct
/// hop winning ties; an error when no route can be built.
pub open spec fn spec_find_optimal_route(
    preferred: Seq<Seq<char>>,
    input_token: u64,
    output_token: u64,
    input_amount: u64,
    max_hops: u8,
) -> Result<RouteModel, CrossDexError> {
    match spec_find_direct_route(preferred, input_token, output_token, input_amount) {
        Err(e) => Err(e),
        Ok(d) => {
            let direct = spec_route_of_direct(d);
            if max_hops > 1 {
                match spec_find_multi_hop_route(preferred, input_token, output_token, input_amount) {
                    Err(e) => Err(e),
                    Ok(m) => {
                        let best = if m.expected_output > direct.expected_output {
                            m
                        } else {
                            direct
                        };
                        if best.hops.len() == 0 {
                            Err(CrossDexError::NoRouteFound)
                        } else {
                            Ok(best)
                        }
                    },
                }
            } else {
                if direct.hops.len() == 0 {
                    Err(CrossDexError::NoRouteFound)
                } else {
                    Ok(direct)
                }
            }
        },
    }
}

/// Find the optimal route across venues.
///
/// Evaluates the best direct hop and, when `max_hops` allows more than one
/// hop, the best two-hop route; the route with the greater expected output
/// wins and ties favor the direct hop. Every returned route is well-formed
/// and serves the requested pair and amount.
pub fn find_optimal_route(
    input_token: u64,
    output_token: u64,
    input_amount: u64,
    max_hops: u8,
    preferred_dexes: &Vec<String>,
) -> (r: Result<OptimalRoute, CrossDexError>)
    ensures
        ({
            let m = spec_find_optimal_route(
                names_of(preferred_dexes@),
                input_token,
                output_token,
                input_amount,
                max_hops,
            );
            match r {
                Ok(route) => {
                    &&& m == Ok::<RouteModel, CrossDexError>(route@)
                    &&& route_wf(route@)
                    &&& route_for(route@, input_token, output_token, input_amount)
                    &&& route@.expected_output <= input_amount
                    &&& route@.hops.len() <= 2
                },
                Err(e) => m == Err::<RouteModel, CrossDexError>(e),
            }
        }),
{
    let ghost names = names_of(preferred_dexes@);
    let direct = match find_direct_route(input_token, output_token, input_amount, preferred_dexes) {
        Err(e) => {
            return Err(e);
        },
        Ok(d) => d,
    };
    proof {
        lemma_direct_scan_sane(
            spec_effective_dexes(names),
            0,
            input_token,
            output_token,
            input_amount,
            None,
        );
    }
    let mut best_route = match direct {
        None => OptimalRoute { hops: Vec::new(), expected_output: 0, total_fees: 0, price_impact: 0 },
        Some(h) => {
            let ghost hv = h@;
            let expected_output = h.expected_output;
            let total_fees = h.fees;
            let price_impact = h.price_impact;
            let mut hops: Vec<RouteHop> = Vec::new();
            hops.push(h);
            proof {
                assert(hops@.map_values(|x: RouteHop| x@) =~= seq![hv]);
                lemma_single_totals(hv);
            }
            OptimalRoute { hops, expected_output, total_fees, price_impact }
        },
    };
    proof {
        if direct is None {
            assert(best_route@.hops =~= Seq::<HopModel>::empty());
        }
    }
    if max_hops > 1 {
        match find_multi_hop_route(
            input_token,
            output_token,
            input_amount,
            max_hops,
            preferred_dexes,
        ) {
            Err(e) => {
                return Err(e);
            },
            Ok(multi) => {
                proof {
                    lemma_multi_scan_sane(
                        spec_intermediate_tokens(),
                        0,
                        names,
                        input_token,
                        output_token,
                        input_amount,
                        spec_empty_route(),
                    );
                }
                if multi.expected_output > best_route.expected_output {
                    best_route = multi;
                }
            },
        }
    }
    if best_route.hops.len() == 0 {
        return Err(CrossDexError::NoRouteFound);
    }
    Ok(best_route)
}

/// Law: for any route the optimizer returns, the route's total price impact
/// equals the sum of its hops' price impacts.
pub proof fn lemma_route_total_price_impact(
    preferred: Seq<Seq<char>>,
    input_token: u64,
    output_token: u64,
    input_amount: u64,
    max_hops: u8,
    rm: RouteModel,
)
    requires
        spec_find_optimal_route(preferred, input_token, output_token, input_amount, max_hops)
            == Ok::<RouteModel, CrossDexError>(rm),
    ensures
        rm.price_impact == spec_total_impact(rm.hops),
        rm.total_fees == spec_total_fees(rm.hops),
{
    let eff = spec_effective_dexes(preferred);
    lemma_direct_scan_sane(eff, 0, input_token, output_token, input_amount, None);
    match spec_find_direct_route(preferred, input_token, output_token, input_amount) {
        Err(_) => {},
        Ok(d) => {
            match d {
                None => {},
                Some(h) => {
                    lemma_single_totals(h);
                },
            }
            if max_hops > 1 {
                lemma_multi_scan_sane(
                    spec_intermediate_tokens(),
                    0,
                    preferred,
                    input_token,
                    output_token,
                    input_amount,
                    spec_empty_route(),
                );
            }
        },
    }
}

/// Law: when a direct route exists whose expected output is at least that of
/// the best two-hop route, the optimizer returns the single-hop route made
/// of it; a multi-hop route is chosen only for strictly greater output.
pub proof fn lemma_optimizer_prefers_direct(
    preferred: Seq<Seq<char>>,
    input_token: u64,
    output_token: u64,
    input_amount: u64,
    max_hops: u8,
    d: HopModel,
    m: RouteModel,
)
    requires
        spec_find_direct_route(preferred, input_token, output_token, input_amount)
            == Ok::<Option<HopModel>, CrossDexError>(Some(d)),
        spec_find_multi_hop_route(preferred, input_token, output_token, input_amount)
            == Ok::<RouteModel, CrossDexError>(m),
        d.expected_output >= m.expected_output,
    ensures
        spec_find_optimal_route(preferred, input_token, output_token, input_amount, max_hops)
            == Ok::<RouteModel, CrossDexError>(spec_route_of_direct(Some(d))),
        spec_route_of_direct(Some(d)).hops.len() == 1,
{
}

// Fee and slippage helpers

/// Realized slippage versus the expected output, in basis points: zero when
/// the realized output meets expectations, else the shortfall as a share of
/// the expectation.
pub open spec fn spec_slippage(expected: u64, actual: u64) -> u16 {
    if actual >= expected {
        0u16
    } else {
        ((expected - actual) * 10000 / (expected as int)) as u16
    }
}

/// Calculate the routing fee charged on an amount.
pub fn calculate_routing_fee(amount: u64, fee_rate: u16) -> (r: u64)
    requires
        amount * fee_rate <= u64::MAX,
    ensures
        r == amount * fee_rate / 10000,
{
    amount * (fee_rate as u64) / 10000
}

/// Calculate the total slippage between expected and actual output.
pub fn calculate_total_slippage(expected: u64, actual: u64) -> (r: u16)
    requires
        actual < expected ==> (expected - actual) * 10000 <= u64::MAX,
    ensures
        r == spec_slippage(expected, actual),
{
    if actual >= expected {
        0
    } else {
        let diff = expected - actual;
        let v = diff * 10000 / expected;
        proof {
            assert(diff * 10000 / (expected as int) <= 10000) by (nonlinear_arith)
                requires
                    0 < expected,
                    0 < diff <= expected,
            ;
        }
        v as u16
    }
}

/// Calculate the minimum acceptable output under a slippage bound.
pub fn calculate_min_output_with_slippage(expected: u64, slippage_bps: u16) -> (r: u64)
    requires
        slippage_bps <= 10000,
        expected * (10000 - slippage_bps) <= u64::MAX,
    ensures
        r == expected * (10000 - slippage_bps) / 10000,
{
    expected * (10000 - slippage_bps as u64) / 10000
}

/// The models of a sequence of hops.
pub open spec fn hops_model(hs: Seq<RouteHop>) -> Seq<HopModel> {
    hs.map_values(|h: RouteHop| h@)
}

/// Calculate the combined price impact of a sequence of hops.
pub fn calculate_combined_price_impact(hops: &Vec<RouteHop>) -> (r: u16)
    requires
        spec_total_impact(hops_model(hops@)) <= u16::MAX,
    ensures
        r == spec_total_impact(hops_model(hops@)),
{
    let ghost m = hops_model(hops@);
    let mut acc: u32 = 0;
    let mut i: usize = 0;
    proof {
        assert(m.skip(0) =~= m);
    }
    while i < hops.len()
        invariant
            i <= hops@.len(),
            m == hops_model(hops@),
            m.len() == hops@.len(),
            acc + spec_total_impact(m.skip(i as int)) == spec_total_impact(m),
            acc <= u16::MAX,
            spec_total_impact(m) <= u16::MAX,
        decreases hops@.len() - i,
    {
        proof {
            assert(m[i as int] == hops@[i as int]@);
            assert(m.skip(i as int).skip(1) =~= m.skip(i as int + 1));
            assert(m.skip(i as int)[0] == m[i as int]);
            lemma_totals_nonneg(m.skip(i as int + 1));
        }
        acc = acc + hops[i].price_impact as u32;
        i = i + 1;
    }
    proof {
        assert(m.skip(i as int) =~= Seq::<HopModel>::empty());
    }
    acc as u16
}

/// Calculate the total price impact of a route.
pub fn calculate_total_price_impact(route: &OptimalRoute) -> (r: u16)
    requires
        spec_total_impact(route@.hops) <= u16::MAX,
    ensures
        r == spec_total_impact(route@.hops),
{
    calculate_combined_price_impact(&route.hops)
}

/// Calculate the total fees of a route.
pub fn calculate_total_route_fees(route: &OptimalRoute) -> (r: u64)
    requires
        spec_total_fees(route@.hops) <= u64::MAX,
    ensures
        r == spec_total_fees(route@.hops),
{
    let ghost m = route@.hops;
    let mut acc: u64 = 0;
    let mut i: usize = 0;
    proof {
        assert(m.skip(0) =~= m);
    }
    while i < route.hops.len()
        invariant
            i <= route.hops@.len(),
            m == route@.hops,
            m.len() == route.hops@.len(),
            acc + spec_total_fees(m.skip(i as int)) == spec_total_fees(m),
            spec_total_fees(m) <= u64::MAX,
        decreases route.hops@.len() - i,
    {
        proof {
            assert(m[i as int] == route.hops@[i as int]@);
            assert(m.skip(i as int).skip(1) =~= m.skip(i as int + 1));
            assert(m.skip(i as int)[0] == m[i as int]);
            lemma_totals_nonneg(m.skip(i as int + 1));
            lemma_totals_nonneg(m.skip(i as int));
        }
        acc = acc + route.hops[i].fees;
        i = i + 1;
    }
    proof {
        assert(m.skip(i as int) =~= Seq::<HopModel>::empty());
    }
    acc
}

// Route execution

/// What executing one swap yields: the venue's deterministic output for the
/// amount, or failure when the venue is unsupported, the output falls below
/// the minimum, or the arithmetic overflows.
pub open spec fn spec_execute_dex_swap(dex: Seq<char>, input_amount: u64, min_output: u64) -> Result<
    SwapResult,
    CrossDexError,
> {
    match spec_dex_rates(dex) {
        None => Err(CrossDexError::UnsupportedDex),
        Some((fee_rate, base_slippage)) => {
            if input_amount * fee_rate > u64::MAX {
                Err(CrossDexError::ArithmeticOverflow)
            } else {
                let fees = input_amount * fee_rate / 10000;
                let amount_after_fees = input_amount - fees;
                if amount_after_fees * base_slippage > u64::MAX {
                    Err(CrossDexError::ArithmeticOverflow)
                } else {
                    let slippage_amount = amount_after_fees * base_slippage / 10000;
                    let output_amount = amount_after_fees - slippage_amount;
                    if output_amount < min_output {
                        Err(CrossDexError::SlippageTooHigh)
                    } else {
                        Ok(
                            SwapResult {
                                input_amount,
                                output_amount: output_amount as u64,
                                fees: fees as u64,
                            },
                        )
                    }
                }
            }
        },
    }
}

/// Execute a swap on a specific DEX.
///
/// Realizes the venue's deterministic swap for the amount; fails with
/// `SlippageTooHigh` when the realized output falls below `min_output` and
/// with `UnsupportedDex` for an unknown venue.
pub fn execute_dex_swap(dex: &str, input_amount: u64, min_output: u64, _pool_address: u64) -> (r:
    Result<SwapResult, CrossDexError>)
    ensures
        r == spec_execute_dex_swap(dex@, input_amount, min_output),
{
    let rates = dex_fee_params(dex);
    match rates {
        None => Err(CrossDexError::UnsupportedDex),
        Some((fee_rate, base_slippage)) => {
            proof {
                lemma_dex_rates_bounds(dex@);
            }
            let prod = match input_amount.checked_mul(fee_rate) {
                Some(p) => p,
                None => {
                    return Err(CrossDexError::ArithmeticOverflow);
                },
            };
            let fees = prod / 10000;
            proof {
                lemma_bps_le_amount(input_amount as int, fee_rate as int);
            }
            let amount_after_fees = input_amount - fees;
            let prod2 = match amount_after_fees.checked_mul(base_slippage) {
                Some(p) => p,
                None => {
                    return Err(CrossDexError::ArithmeticOverflow);
                },
            };
            let slippage_amount = prod2 / 10000;
            proof {
                lemma_bps_le_amount(amount_after_fees as int, base_slippage as int);
            }
            let output_amount = amount_after_fees - slippage_amount;
            if output_amount < min_output {
                Err(CrossDexError::SlippageTooHigh)
            } else {
                Ok(SwapResult { input_amount, output_amount, fees })
            }
        },
    }
}

/// What running a route's hops from position `i` yields: the final amount
/// and accumulated fees, or the first failure. Each hop must realize at
/// least its expected output reduced by the slippage bound; the running
/// amount feeds the next hop.
pub open spec fn spec_run_hops(
    hops: Seq<HopModel>,
    i: int,
    current: u64,
    fees_acc: u64,
    max_slippage: u16,
) -> Result<(u64, u64), CrossDexError>
    decreases hops.len() - i,
{
    if i < 0 || i >= hops.len() {
        Ok((current, fees_acc))
    } else {
        let h = hops[i];
        if h.expected_output * (10000 - max_slippage) > u64::MAX {
            Err(CrossDexError::ArithmeticOverflow)
        } else {
            let min_output = h.expected_output * (10000 - max_slippage) / 10000;
            match spec_execute_dex_swap(h.dex, current, min_output as u64) {
                Err(e) => Err(e),
                Ok(sr) => {
                    if fees_acc + sr.fees > u64::MAX {
                        Err(CrossDexError::ArithmeticOverflow)
                    } else {
                        spec_run_hops(
                            hops,
                            i + 1,
                            sr.output_amount,
                            (fees_acc + sr.fees) as u64,
                            max_slippage,
                        )
                    }
                },
            }
        }
    }
}

/// Execute a route's hops in order.
///
/// Each hop must realize at least its expected output reduced by the
/// slippage bound, or the whole execution fails with the hop's error and no
/// result is produced; the realized output of each hop funds the next. On
/// success one event per executed hop is returned, chained by amounts.
pub fn execute_route_hops(route: &OptimalRoute, input_amount: u64, max_slippage: u16) -> (r: Result<
    (RouteExecutionResult, Vec<HopExecuted>),
    CrossDexError,
>)
    requires
        max_slippage <= 10000,
        route@.hops.len() <= u8::MAX,
    ensures
        ({
            let m = spec_run_hops(route@.hops, 0, input_amount, 0, max_slippage);
            match r {
                Ok((res, events)) => {
                    &&& m == Ok::<(u64, u64), CrossDexError>((res.output_amount, res.total_fees))
                    &&& res.hops_executed == route@.hops.len()
                    &&& events@.len() == route@.hops.len()
                    &&& (forall|k: int|
                        0 <= k < events@.len() ==> (#[trigger] events@[k]).hop_index == k)
                    &&& (forall|k: int|
                        0 <= k < events@.len() ==> (#[trigger] events@[k]).dex@ == route@.hops[
                            k
                        ].dex)
                    &&& (forall|k: int|
                        0 <= k < events@.len() ==> (#[trigger] events@[k]).output_amount == (
                        if k + 1 < events@.len() {
                            events@[k + 1].input_amount
                        } else {
                            res.output_amount
                        }))
                    &&& (events@.len() > 0 ==> events@[0].input_amount == input_amount)
                },
                Err(e) => m == Err::<(u64, u64), CrossDexError>(e),
            }
        }),
{
    let ghost hm = route@.hops;
    let mut current_amount = input_amount;
    let mut total_fees: u64 = 0;
    let mut events: Vec<HopExecuted> = Vec::new();
    let mut i: usize = 0;
    while i < route.hops.len()
        invariant
            max_slippage <= 10000,
            i <= route.hops@.len(),
            hm == route@.hops,
            hm.len() == route.hops@.len() <= u8::MAX,
            events@.len() == i,
            spec_run_hops(hm, 0, input_amount, 0, max_slippage) == spec_run_hops(
                hm,
                i as int,
                current_amount,
                total_fees,
                max_slippage,
            ),
            forall|k: int| 0 <= k < i ==> (#[trigger] events@[k]).hop_index == k,
            forall|k: int| 0 <= k < i ==> (#[trigger] events@[k]).dex@ == hm[k].dex,
            forall|k: int|
                0 <= k < i ==> (#[trigger] events@[k]).output_amount == (if k + 1 < i {
                    events@[k + 1].input_amount
                } else {
                    current_amount
                }),
            i > 0 ==> events@[0].input_amount == input_amount,
            i == 0 ==> current_amount == input_amount,
        decreases route.hops@.len() - i,
    {
        proof {
            assert(hm[i as int] == route.hops@[i as int]@);
        }
        let hop = &route.hops[i];
        let prod = match hop.expected_output.checked_mul(10000 - max_slippage as u64) {
            Some(p) => p,
            None => {
                return Err(CrossDexError::ArithmeticOverflow);
            },
        };
        let min_output = prod / 10000;
        let swap_result = match execute_dex_swap(
            hop.dex.as_str(),
            current_amount,
            min_output,
            hop.pool_address,
        ) {
            Ok(sr) => sr,
            Err(e) => {
                return Err(e);
            },
        };
        let new_fees = match total_fees.checked_add(swap_result.fees) {
            Some(f) => f,
            None => {
                return Err(CrossDexError::ArithmeticOverflow);
            },
        };
        events.push(
            HopExecuted {
                hop_index: i as u8,
                dex: hop.dex.clone(),
                input_amount: swap_result.input_amount,
                output_amount: swap_result.output_amount,
                fees: swap_result.fees,
            },
        );
        current_amount = swap_result.output_amount;
        total_fees = new_fees;
        i = i + 1;
    }
    let res = RouteExecutionResult {
        output_amount: current_amount,
        total_fees,
        hops_executed: i as u8,
    };
    Ok((res, events))
}

// Administrative surface

/// The value of an optional override, or the default.
pub open spec fn spec_unwrap_or<T>(o: Option<T>, d: T) -> T {
    match o {
        Some(x) => x,
        None => d,
    }
}

/// Initialize the cross-DEX router.
///
/// Validates the same bounds that configuration updates enforce, then starts
/// with zeroed counters and the router active.
pub fn initialize_router(authority: u64, max_hops: u8, default_slippage: u16, routing_fee: u16) -> (r:
    Result<(RouterConfig, RouterInitialized), CrossDexError>)
    ensures
        r is Err <==> max_hops > 10 || default_slippage > 5000 || routing_fee > 1000,
        r matches Err(e) ==> e == (if max_hops > 10 {
            CrossDexError::TooManyHops
        } else if default_slippage > 5000 {
            CrossDexError::SlippageTooHigh
        } else {
            CrossDexError::FeeTooHigh
        }),
        r matches Ok(p) ==> p.0 == (RouterConfig {
            authority,
            max_hops,
            default_slippage,
            routing_fee,
            total_routes_executed: 0,
            total_volume: 0,
            total_fees_collected: 0,
            is_active: true,
        }) && p.0.wf() && p.1 == (RouterInitialized { authority, max_hops, default_slippage, routing_fee }),
{
    if max_hops > 10 {
        return Err(CrossDexError::TooManyHops);
    }
    if default_slippage > 5000 {
        return Err(CrossDexError::SlippageTooHigh);
    }
    if routing_fee > 1000 {
        return Err(CrossDexError::FeeTooHigh);
    }
    let config = RouterConfig {
        authority,
        max_hops,
        default_slippage,
        routing_fee,
        total_routes_executed: 0,
        total_volume: 0,
        total_fees_collected: 0,
        is_active: true,
    };
    let event = RouterInitialized { authority, max_hops, default_slippage, routing_fee };
    Ok((config, event))
}

/// Register a new DEX for routing.
///
/// Only the configured authority may register; the venue must carry a
/// non-empty name, a fee of at most 100%, and be active. Rolling statistics
/// start at zero with a 100% success rate.
pub fn register_dex_handler(config: &RouterConfig, caller: u64, dex_info: DexInfo, now: i64) -> (r:
    Result<(DexRegistry, DexRegistered), CrossDexError>)
    ensures
        r is Err <==> caller != config.authority || dex_info.name@.len() == 0 || dex_info.fee_rate
            > 10000 || !dex_info.is_active,
        r matches Err(e) ==> e == (if caller != config.authority {
            CrossDexError::Unauthorized
        } else if dex_info.name@.len() == 0 {
            CrossDexError::InvalidDexName
        } else if dex_info.fee_rate > 10000 {
            CrossDexError::FeeTooHigh
        } else {
            CrossDexError::DexNotActive
        }),
        r matches Ok(p) ==> {
            &&& p.0.dex_info == dex_info
            &&& p.0.total_volume == 0
            &&& p.0.total_swaps == 0
            &&& p.0.success_rate == 10000
            &&& p.0.average_slippage == 0
            &&& p.0.last_updated == now
            &&& p.1.dex_name@ == dex_info.name@
            &&& p.1.program_id == dex_info.program_id
            &&& p.1.fee_rate == dex_info.fee_rate
        },
{
    if caller != config.authority {
        return Err(CrossDexError::Unauthorized);
    }
    if dex_info.name.as_str().is_empty() {
        return Err(CrossDexError::InvalidDexName);
    }
    if dex_info.fee_rate > 10000 {
        return Err(CrossDexError::FeeTooHigh);
    }
    if !dex_info.is_active {
        return Err(CrossDexError::DexNotActive);
    }
    let event = DexRegistered {
        dex_name: dex_info.name.clone(),
        program_id: dex_info.program_id,
        fee_rate: dex_info.fee_rate,
    };
    let registry = DexRegistry {
        dex_info,
        total_volume: 0,
        total_swaps: 0,
        success_rate: 10000,
        average_slippage: 0,
        last_updated: now,
    };
    Ok((registry, event))
}

/// Update a venue's rolling metrics.
///
/// Only the configured authority may update. Volume and swap counts
/// accumulate; success rate and average slippage are overwritten with the
/// caller's pre-aggregated figures. A failure leaves the entry unchanged.
pub fn update_dex_metrics_handler(
    config: &RouterConfig,
    caller: u64,
    dex_registry: &mut DexRegistry,
    volume: u64,
    swap_count: u32,
    success_rate: u16,
    average_slippage: u16,
    now: i64,
) -> (r: Result<DexMetricsUpdated, CrossDexError>)
    ensures
        r is Err <==> caller != config.authority || old(dex_registry).total_volume + volume
            > u64::MAX || old(dex_registry).total_swaps + swap_count > u32::MAX,
        r matches Err(e) ==> e == (if caller != config.authority {
            CrossDexError::Unauthorized
        } else {
            CrossDexError::ArithmeticOverflow
        }) && *final(dex_registry) == *old(dex_registry),
        r matches Ok(ev) ==> {
            &&& final(dex_registry).dex_info == old(dex_registry).dex_info
            &&& final(dex_registry).total_volume == old(dex_registry).total_volume + volume
            &&& final(dex_registry).total_swaps == old(dex_registry).total_swaps + swap_count
            &&& final(dex_registry).success_rate == success_rate
            &&& final(dex_registry).average_slippage == average_slippage
            &&& final(dex_registry).last_updated == now
            &&& ev.dex_name@ == old(dex_registry).dex_info.name@
            &&& ev.total_volume == final(dex_registry).total_volume
            &&& ev.total_swaps == final(dex_registry).total_swaps
            &&& ev.success_rate == success_rate
            &&& ev.average_slippage == average_slippage
        },
{
    if caller != config.authority {
        return Err(CrossDexError::Unauthorized);
    }
    let new_volume = match dex_registry.total_volume.checked_add(volume) {
        Some(v) => v,
        None => {
            return Err(CrossDexError::ArithmeticOverflow);
        },
    };
    let new_swaps = match dex_registry.total_swaps.checked_add(swap_count) {
        Some(v) => v,
        None => {
            return Err(CrossDexError::ArithmeticOverflow);
        },
    };
    dex_registry.total_volume = new_volume;
    dex_registry.total_swaps = new_swaps;
    dex_registry.success_rate = success_rate;
    dex_registry.average_slippage = average_slippage;
    dex_registry.last_updated = now;
    Ok(
        DexMetricsUpdated {
            dex_name: dex_registry.dex_info.name.clone(),
            total_volume: new_volume,
            total_swaps: new_swaps,
            success_rate,
            average_slippage,
        },
    )
}

/// Update the router configuration.
///
/// Only the configured authority may update. Every named value is validated
/// before any is applied; a failure leaves the configuration unchanged.
pub fn update_config_handler(
    config: &mut RouterConfig,
    caller: u64,
    max_hops: Option<u8>,
    default_slippage: Option<u16>,
    routing_fee: Option<u16>,
    is_active: Option<bool>,
) -> (r: Result<ConfigUpdated, CrossDexError>)
    ensures
        r is Err <==> caller != old(config).authority || (max_hops matches Some(h) && h > 10) || (
        default_slippage matches Some(s) && s > 5000) || (routing_fee matches Some(f) && f > 1000),
        r matches Err(e) ==> e == (if caller != old(config).authority {
            CrossDexError::Unauthorized
        } else if max_hops matches Some(h) && h > 10 {
            CrossDexError::TooManyHops
        } else if default_slippage matches Some(s) && s > 5000 {
            CrossDexError::SlippageTooHigh
        } else {
            CrossDexError::FeeTooHigh
        }) && *final(config) == *old(config),
        r matches Ok(ev) ==> *final(config) == (RouterConfig {
            max_hops: spec_unwrap_or(max_hops, old(config).max_hops),
            default_slippage: spec_unwrap_or(default_slippage, old(config).default_slippage),
            routing_fee: spec_unwrap_or(routing_fee, old(config).routing_fee),
            is_active: spec_unwrap_or(is_active, old(config).is_active),
            ..*old(config)
        }) && ev == (ConfigUpdated {
            authority: caller,
            max_hops: final(config).max_hops,
            default_slippage: final(config).default_slippage,
            routing_fee: final(config).routing_fee,
            is_active: final(config).is_active,
        }),
        old(config).wf() && r is Ok ==> final(config).wf(),
{
    if caller != config.authority {
        return Err(CrossDexError::Unauthorized);
    }
    if let Some(hops) = max_hops {
        if hops > 10 {
            return Err(CrossDexError::TooManyHops);
        }
    }
    if let Some(slippage) = default_slippage {
        if slippage > 5000 {
            return Err(CrossDexError::SlippageTooHigh);
        }
    }
    if let Some(fee) = routing_fee {
        if fee > 1000 {
            return Err(CrossDexError::FeeTooHigh);
        }
    }
    if let Some(hops) = max_hops {
        config.max_hops = hops;
    }
    if let Some(slippage) = default_slippage {
        config.default_slippage = slippage;
    }
    if let Some(fee) = routing_fee {
        config.routing_fee = fee;
    }
    if let Some(active) = is_active {
        config.is_active = active;
    }
    Ok(
        ConfigUpdated {
            authority: caller,
            max_hops: config.max_hops,
            default_slippage: config.default_slippage,
            routing_fee: config.routing_fee,
            is_active: config.is_active,
        },
    )
}

/// The position of the first registry entry carrying a venue name.
pub open spec fn spec_find_venue(vs: Seq<DexRegistry>, i: int, id: Seq<char>) -> Option<int>
    decreases vs.len() - i,
{
    if i < 0 || i >= vs.len() {
        None
    } else if vs[i].dex_info.name@ == id {
        Some(i)
    } else {
        spec_find_venue(vs, i + 1, id)
    }
}

/// Look a venue up by name for simulation.
///
/// Returns the venue's fee and slippage model; fails with `UnsupportedDex`
/// when the name is unknown or the venue is inactive.
pub fn get_venue(venues: &Vec<DexRegistry>, venue_id: &str) -> (r: Result<DexInfo, CrossDexError>)
    ensures
        ({
            let found = spec_find_venue(venues@, 0, venue_id@);
            match found {
                None => r == Err::<DexInfo, CrossDexError>(CrossDexError::UnsupportedDex),
                Some(i) => {
                    if venues@[i].dex_info.is_active {
                        r matches Ok(info) && info.name@ == venues@[i].dex_info.name@
                            && info.program_id == venues@[i].dex_info.program_id && info.fee_rate
                            == venues@[i].dex_info.fee_rate && info.is_active
                            && info.supported_tokens == venues@[i].dex_info.supported_tokens
                    } else {
                        r == Err::<DexInfo, CrossDexError>(CrossDexError::UnsupportedDex)
                    }
                },
            }
        }),
{
    let mut i: usize = 0;
    while i < venues.len()
        invariant
            i <= venues@.len(),
            spec_find_venue(venues@, 0, venue_id@) == spec_find_venue(venues@, i as int, venue_id@),
        decreases venues@.len() - i,
    {
        if str_eq(venues[i].dex_info.name.as_str(), venue_id) {
            let entry = &venues[i];
            if entry.dex_info.is_active {
                return Ok(
                    DexInfo {
                        name: entry.dex_info.name.clone(),
                        program_id: entry.dex_info.program_id,
                        fee_rate: entry.dex_info.fee_rate,
                        is_active: entry.dex_info.is_active,
                        supported_tokens: entry.dex_info.supported_tokens,
                    },
                );
            } else {
                return Err(CrossDexError::UnsupportedDex);
            }
        }
        i = i + 1;
    }
    Err(CrossDexError::UnsupportedDex)
}

// Route execution operation

/// Settlement after a route has run: the routing fee is charged on the
/// realized output, realized slippage is measured against the route's
/// expectation, and the global counters grow; any arithmetic overflow fails
/// the whole settlement.
pub open spec fn spec_route_settle(
    cfg: RouterConfig,
    expected_output: u64,
    output_amount: u64,
    exec_fees: u64,
    input_amount: u64,
) -> Result<(u64, u64, u16, RouterConfig), CrossDexError> {
    if output_amount * cfg.routing_fee > u64::MAX {
        Err(CrossDexError::ArithmeticOverflow)
    } else {
        let routing_fee = output_amount * cfg.routing_fee / 10000;
        let final_output = output_amount - routing_fee;
        if exec_fees + routing_fee > u64::MAX {
            Err(CrossDexError::ArithmeticOverflow)
        } else {
            let total_fees = (exec_fees + routing_fee) as u64;
            if final_output < expected_output && (expected_output - final_output) * 10000
                > u64::MAX {
                Err(CrossDexError::ArithmeticOverflow)
            } else {
                let actual_slippage = spec_slippage(expected_output, final_output as u64);
                if cfg.total_routes_executed + 1 > u64::MAX || cfg.total_volume + input_amount
                    > u64::MAX || cfg.total_fees_collected + routing_fee > u64::MAX {
                    Err(CrossDexError::ArithmeticOverflow)
                } else {
                    Ok(
                        (
                            final_output as u64,
                            total_fees,
                            actual_slippage,
                            RouterConfig {
                                total_routes_executed: (cfg.total_routes_executed + 1) as u64,
                                total_volume: (cfg.total_volume + input_amount) as u64,
                                total_fees_collected: (cfg.total_fees_collected
                                    + routing_fee) as u64,
                                ..cfg
                            },
                        ),
                    )
                }
            }
        }
    }
}

/// Execute the optimal route for a swap request.
///
/// Finds the best route, rejects it when its expected output falls short of
/// the request's minimum, executes it hop by hop under the slippage bound,
/// charges the routing fee on the realized output, and updates the global
/// counters. Any failure aborts the whole operation: the configuration is
/// mutated only on success.
pub fn execute_optimal_route_handler(
    config: &mut RouterConfig,
    user: u64,
    input_token: u64,
    output_token: u64,
    input_amount: u64,
    min_output_amount: u64,
    max_slippage: Option<u16>,
    preferred_dexes: &Vec<String>,
    start_time: i64,
    end_time: i64,
) -> (r: Result<(RouteState, RouteExecuted, Vec<HopExecuted>), CrossDexError>)
    requires
        old(config).wf(),
        start_time <= end_time,
        end_time - start_time <= i64::MAX,
    ensures
        r is Err ==> *final(config) == *old(config),
        ({
            let cfg0 = *old(config);
            let names = names_of(preferred_dexes@);
            let slippage = spec_unwrap_or(max_slippage, cfg0.default_slippage);
            if !cfg0.is_active {
                r == Err::<(RouteState, RouteExecuted, Vec<HopExecuted>), CrossDexError>(
                    CrossDexError::RouterInactive,
                )
            } else if input_amount == 0 || min_output_amount == 0 {
                r == Err::<(RouteState, RouteExecuted, Vec<HopExecuted>), CrossDexError>(
                    CrossDexError::InvalidAmount,
                )
            } else if slippage > 5000 {
                r == Err::<(RouteState, RouteExecuted, Vec<HopExecuted>), CrossDexError>(
                    CrossDexError::SlippageTooHigh,
                )
            } else {
                match spec_find_optimal_route(
                    names,
                    input_token,
                    output_token,
                    input_amount,
                    cfg0.max_hops,
                ) {
                    Err(e) => r == Err::<(RouteState, RouteExecuted, Vec<HopExecuted>), CrossDexError>(
                        e,
                    ),
                    Ok(rm) => {
                        if rm.expected_output < min_output_amount {
                            r == Err::<(RouteState, RouteExecuted, Vec<HopExecuted>), CrossDexError>(
                                CrossDexError::RouteNotProfitable,
                            )
                        } else {
                            match spec_run_hops(rm.hops, 0, input_amount, 0, slippage) {
                                Err(e) => r == Err::<
                                    (RouteState, RouteExecuted, Vec<HopExecuted>),
                                    CrossDexError,
                                >(e),
                                Ok((out, exec_fees)) => {
                                    match spec_route_settle(
                                        cfg0,
                                        rm.expected_output,
                                        out,
                                        exec_fees,
                                        input_amount,
                                    ) {
                                        Err(e) => r == Err::<
                                            (RouteState, RouteExecuted, Vec<HopExecuted>),
                                            CrossDexError,
                                        >(e),
                                        Ok((final_output, total_fees, actual_slippage, cfg1)) => r
                                            matches Ok(t) && {
                                            &&& *final(config) == cfg1
                                            &&& t.0.user == user
                                            &&& t.0.input_token == input_token
                                            &&& t.0.output_token == output_token
                                            &&& t.0.input_amount == input_amount
                                            &&& t.0.min_output_amount == min_output_amount
                                            &&& t.0.max_slippage == slippage
                                            &&& t.0.route@ == rm
                                            &&& t.0.status == RouteStatus::Completed
                                            &&& t.0.start_time == start_time
                                            &&& t.0.end_time == end_time
                                            &&& t.0.actual_output == final_output
                                            &&& t.0.total_fees == total_fees
                                            &&& t.0.actual_slippage == actual_slippage
                                            &&& t.1 == (RouteExecuted {
                                                user,
                                                input_token,
                                                output_token,
                                                input_amount,
                                                output_amount: final_output,
                                                hops_count: rm.hops.len() as u8,
                                                total_fees,
                                                execution_time: (end_time - start_time) as i64,
                                            })
                                            &&& t.2@.len() == rm.hops.len()
                                        },
                                    }
                                },
                            }
                        }
                    },
                }
            }
        }),
{
    if !config.is_active {
        return Err(CrossDexError::RouterInactive);
    }
    if input_amount == 0 || min_output_amount == 0 {
        return Err(CrossDexError::InvalidAmount);
    }
    let slippage = match max_slippage {
        Some(s) => s,
        None => config.default_slippage,
    };
    if slippage > 5000 {
        return Err(CrossDexError::SlippageTooHigh);
    }
    let optimal_route = match find_optimal_route(
        input_token,
        output_token,
        input_amount,
        config.max_hops,
        preferred_dexes,
    ) {
        Ok(route) => route,
        Err(e) => {
            return Err(e);
        },
    };
    if optimal_route.expected_output < min_output_amount {
        return Err(CrossDexError::RouteNotProfitable);
    }
    let ghost rm = optimal_route@;
    let expected_output = optimal_route.expected_output;
    let execution_result = match execute_route_hops(&optimal_route, input_amount, slippage) {
        Ok(p) => p,
        Err(e) => {
            return Err(e);
        },
    };
    let (exec_res, hop_events) = execution_result;
    if exec_res.output_amount.checked_mul(config.routing_fee as u64).is_none() {
        return Err(CrossDexError::ArithmeticOverflow);
    }
    let routing_fee = calculate_routing_fee(exec_res.output_amount, config.routing_fee);
    proof {
        lemma_bps_le_amount(exec_res.output_amount as int, config.routing_fee as int);
    }
    let final_output = exec_res.output_amount - routing_fee;
    let total_fees = match exec_res.total_fees.checked_add(routing_fee) {
        Some(f) => f,
        None => {
            return Err(CrossDexError::ArithmeticOverflow);
        },
    };
    if final_output < expected_output {
        if (expected_output - final_output).checked_mul(10000).is_none() {
            return Err(CrossDexError::ArithmeticOverflow);
        }
    }
    let actual_slippage = calculate_total_slippage(expected_output, final_output);
    let new_routes = match config.total_routes_executed.checked_add(1) {
        Some(v) => v,
        None => {
            return Err(CrossDexError::ArithmeticOverflow);
        },
    };
    let new_volume = match config.total_volume.checked_add(input_amount) {
        Some(v) => v,
        None => {
            return Err(CrossDexError::ArithmeticOverflow);
        },
    };
    let new_collected = match config.total_fees_collected.checked_add(routing_fee) {
        Some(v) => v,
        None => {
            return Err(CrossDexError::ArithmeticOverflow);
        },
    };
    let route_state = RouteState {
        user,
        input_token,
        output_token,
        input_amount,
        min_output_amount,
        max_slippage: slippage,
        route: optimal_route,
        status: RouteStatus::Completed,
        start_time,
        end_time,
        actual_output: final_output,
        total_fees,
        actual_slippage,
    };
    let event = RouteExecuted {
        user,
        input_token,
        output_token,
        input_amount,
        output_amount: final_output,
        hops_count: exec_res.hops_executed,
        total_fees,
        execution_time: end_time - start_time,
    };
    config.total_routes_executed = new_routes;
    config.total_volume = new_volume;
    config.total_fees_collected = new_collected;
    Ok((route_state, event, hop_events))
}

/// Produce a quote for a swap request without executing it.
///
/// Finds the optimal route and reports its expected output, estimated fees
/// and total price impact.
pub fn get_route_quote_handler(
    config: &RouterConfig,
    input_token: u64,
    output_token: u64,
    input_amount: u64,
    preferred_dexes: &Vec<String>,
    now: i64,
) -> (r: Result<(QuoteState, QuoteGenerated), CrossDexError>)
    ensures
        ({
            let names = names_of(preferred_dexes@);
            if !config.is_active {
                r == Err::<(QuoteState, QuoteGenerated), CrossDexError>(
                    CrossDexError::RouterInactive,
                )
            } else if input_amount == 0 {
                r == Err::<(QuoteState, QuoteGenerated), CrossDexError>(CrossDexError::InvalidAmount)
            } else {
                match spec_find_optimal_route(
                    names,
                    input_token,
                    output_token,
                    input_amount,
                    config.max_hops,
                ) {
                    Err(e) => r == Err::<(QuoteState, QuoteGenerated), CrossDexError>(e),
                    Ok(rm) => r matches Ok(p) && {
                        &&& p.0.input_token == input_token
                        &&& p.0.output_token == output_token
                        &&& p.0.input_amount == input_amount
                        &&& p.0.route@ == rm
                        &&& p.0.expected_output == rm.expected_output
                        &&& p.0.estimated_fees == rm.total_fees
                        &&& p.0.price_impact == rm.price_impact
                        &&& p.0.timestamp == now
                        &&& p.1 == (QuoteGenerated {
                            input_token,
                            output_token,
                            input_amount,
                            expected_output: rm.expected_output,
                            hops_count: rm.hops.len() as u8,
                            estimated_fees: rm.total_fees,
                            price_impact: rm.price_impact,
                        })
                    },
                }
            }
        }),
{
    if !config.is_active {
        return Err(CrossDexError::RouterInactive);
    }
    if input_amount == 0 {
        return Err(CrossDexError::InvalidAmount);
    }
    let optimal_route = match find_optimal_route(
        input_token,
        output_token,
        input_amount,
        config.max_hops,
        preferred_dexes,
    ) {
        Ok(route) => route,
        Err(e) => {
            return Err(e);
        },
    };
    let ghost rm = optimal_route@;
    proof {
        lemma_totals_nonneg(rm.hops);
    }
    let estimated_fees = calculate_total_route_fees(&optimal_route);
    let price_impact = calculate_total_price_impact(&optimal_route);
    let expected_output = optimal_route.expected_output;
    let hops_count = optimal_route.hops.len() as u8;
    let quote_state = QuoteState {
        input_token,
        output_token,
        input_amount,
        route: optimal_route,
        expected_output,
        estimated_fees,
        price_impact,
        timestamp: now,
    };
    let event = QuoteGenerated {
        input_token,
        output_token,
        input_amount,
        expected_output,
        hops_count,
        estimated_fees,
        price_impact,
    };
    Ok((quote_state, event))
}

} // verus!
