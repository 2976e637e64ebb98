//! The per-pair engine: the snapshot cache with its retain-stale refresh,
//! the tick evaluation that turns the two cached snapshots into a trading
//! opportunity, and the pure decisions of the execution orchestrator. The
//! remote calls themselves, and the loop's timing, stay outside the
//! library and hand plain values in and out.

use vstd::prelude::*;
use vstd::arithmetic::div_mod::{lemma_div_is_ordered, lemma_hoist_over_denominator};
use crate::amm::{
    cal_amount, clamp_to_ceiling, optimal_is_negative, optimal_magnitude, swap_icp_to_ckusdc,
    swap_output_spec, RESERVE_LIMIT,
};
use crate::ics::IcsPoolSnapshot;
use crate::kong::{KongError, KongPoolSnapshot};
use crate::ics::IcsError;

verus! {

/// Errors surfaced by a trading tick.
#[derive(Debug)]
pub enum TradeError {
    Client(String),
    Logic(String),
}

/// Which venue the two-legged execution starts on. A negative raw optimum
/// starts on the second venue.
#[derive(Clone, Copy, Debug, PartialEq, Eq, Structural)]
pub enum SwapDirection {
    IcsToKong,
    KongToIcs,
}

/// The latest successfully decoded snapshot per venue for one trading
/// pair. A failed refresh leaves the stale entry in place; the entries are
/// written independently of each other.
#[derive(Clone, Copy, Debug, PartialEq, Eq, Structural)]
pub struct Cache {
    pub kong: Option<KongPoolSnapshot>,
    pub ics: Option<IcsPoolSnapshot>,
}

impl Cache {
    /// A pair's cache starts empty; a read before the first successful
    /// fetch finds nothing.
    pub fn new() -> (r: Cache)
        ensures
            r.kong is None,
            r.ics is None,
    {
        Cache { kong: None, ics: None }
    }

    /// Stores the outcome of a first-venue refresh: a fetched snapshot
    /// overwrites the entry, a failed fetch leaves the stale entry as it
    /// was. The other venue's entry is untouched either way.
    pub fn store_kong(&mut self, fetched: Result<KongPoolSnapshot, KongError>)
        ensures
            final(self).ics == old(self).ics,
            (fetched matches Ok(s) ==> final(self).kong == Some(s)),
            (fetched matches Err(_) ==> final(self).kong == old(self).kong),
    {
        match fetched {
            Ok(s) => {
                self.kong = Some(s);
            },
            Err(_) => {},
        }
    }

    /// Stores the outcome of a second-venue refresh, the same way.
    pub fn store_ics(&mut self, fetched: Result<IcsPoolSnapshot, IcsError>)
        ensures
            final(self).kong == old(self).kong,
            (fetched matches Ok(s) ==> final(self).ics == Some(s)),
            (fetched matches Err(_) ==> final(self).ics == old(self).ics),
    {
        match fetched {
            Ok(s) => {
                self.ics = Some(s);
            },
            Err(_) => {},
        }
    }
}

/// One opportunity as evaluated on a tick: the raw optimum before
/// clamping, the clamped amount actually considered, the direction, the
/// two simulated leg outputs, and the profit of the round trip in the
/// quote asset's smallest unit.
#[derive(Clone, Copy, Debug, PartialEq, Eq, Structural)]
pub struct Opportunity {
    pub raw_negative: bool,
    pub raw_magnitude: u128,
    pub amount: u128,
    pub direction: SwapDirection,
    pub output_mid: u128,
    pub output_final: u128,
    pub profit: i128,
}

/// What a tick decides before any execution: skip because a snapshot is
/// missing (first tick, or a failed fetch with nothing cached), refuse
/// because the cached values leave the calculator's domain, or evaluate an
/// opportunity.
#[derive(Clone, Copy, Debug, PartialEq, Eq, Structural)]
pub enum TickEval {
    Skip,
    OutOfRange,
    Opp(Opportunity),
}

/// Both snapshots lie in the calculator's domain: positive reserves below
/// the 2^56 fixed-point bound.
pub open spec fn reserves_in_range(k: KongPoolSnapshot, i: IcsPoolSnapshot) -> bool {
    &&& 1 <= k.icp_raw < RESERVE_LIMIT
    &&& 1 <= k.sns_raw < RESERVE_LIMIT
    &&& 1 <= i.token0_k < RESERVE_LIMIT
    &&& 1 <= i.token1_k < RESERVE_LIMIT
}

/// What a tick decides, as a function of the cached snapshots, the
/// per-pair ceiling and the flat per-leg fee: the raw optimum across the
/// two curves, its magnitude clamped to the ceiling, and the two legs
/// simulated in directional order at that amount.
pub open spec fn evaluate_spec(
    kong: Option<KongPoolSnapshot>,
    ics: Option<IcsPoolSnapshot>,
    ikiti_e8: u128,
    fee_bps: u128,
) -> TickEval {
    match (kong, ics) {
        (Some(k), Some(i)) => if !reserves_in_range(k, i) {
            TickEval::OutOfRange
        } else {
            let raw_negative = optimal_is_negative(
                k.icp_raw as int,
                k.sns_raw as int,
                i.token0_k as int,
                i.token1_k as int,
            );
            let raw_magnitude = optimal_magnitude(
                k.icp_raw as int,
                k.sns_raw as int,
                i.token0_k as int,
                i.token1_k as int,
            );
            let amount = if raw_magnitude > ikiti_e8 {
                ikiti_e8 as int
            } else {
                raw_magnitude
            };
            if amount >= RESERVE_LIMIT {
                TickEval::OutOfRange
            } else {
                let mid = if raw_negative {
                    swap_output_spec(amount, i.token1_k as int, i.token0_k as int, fee_bps as int)
                } else {
                    swap_output_spec(amount, k.icp_raw as int, k.sns_raw as int, fee_bps as int)
                };
                let fin = if raw_negative {
                    swap_output_spec(mid, k.sns_raw as int, k.icp_raw as int, fee_bps as int)
                } else {
                    swap_output_spec(mid, i.token0_k as int, i.token1_k as int, fee_bps as int)
                };
                TickEval::Opp(
                    Opportunity {
                        raw_negative,
                        raw_magnitude: raw_magnitude as u128,
                        amount: amount as u128,
                        direction: if raw_negative {
                            SwapDirection::IcsToKong
                        } else {
                            SwapDirection::KongToIcs
                        },
                        output_mid: mid as u128,
                        output_final: fin as u128,
                        profit: (fin - amount) as i128,
                    },
                )
            }
        },
        _ => TickEval::Skip,
    }
}

/// Evaluates one tick from the cached snapshots. With either snapshot
/// missing the tick is skipped without error; otherwise the calculator
/// runs, the magnitude is clamped to the per-pair ceiling, and both legs
/// are simulated at the clamped amount in directional order.
pub fn evaluate(
    kong: &Option<KongPoolSnapshot>,
    ics: &Option<IcsPoolSnapshot>,
    ikiti_e8: u128,
    fee_bps: u128,
) -> (r: TickEval)
    requires
        fee_bps <= 10000,
    ensures
        r == evaluate_spec(*kong, *ics, ikiti_e8, fee_bps),
{
    let (k, i) = match (kong, ics) {
        (Some(k), Some(i)) => (k, i),
        _ => {
            return TickEval::Skip;
        },
    };
    if !(1 <= k.icp_raw && k.icp_raw < RESERVE_LIMIT && 1 <= k.sns_raw && k.sns_raw
        < RESERVE_LIMIT && 1 <= i.token0_k && i.token0_k < RESERVE_LIMIT && 1 <= i.token1_k
        && i.token1_k < RESERVE_LIMIT) {
        return TickEval::OutOfRange;
    }
    let raw = cal_amount(k.icp_raw, k.sns_raw, i.token0_k, i.token1_k);
    let amount = clamp_to_ceiling(raw.magnitude, ikiti_e8);
    if amount >= RESERVE_LIMIT {
        return TickEval::OutOfRange;
    }
    let (mid, fin, direction) = if raw.negative {
        let m = swap_icp_to_ckusdc(amount, i.token1_k, i.token0_k, fee_bps);
        let f = swap_icp_to_ckusdc(m, k.sns_raw, k.icp_raw, fee_bps);
        (m, f, SwapDirection::IcsToKong)
    } else {
        let m = swap_icp_to_ckusdc(amount, k.icp_raw, k.sns_raw, fee_bps);
        let f = swap_icp_to_ckusdc(m, i.token0_k, i.token1_k, fee_bps);
        (m, f, SwapDirection::KongToIcs)
    };
    let profit: i128 = fin as i128 - amount as i128;
    TickEval::Opp(
        Opportunity {
            raw_negative: raw.negative,
            raw_magnitude: raw.magnitude,
            amount,
            direction,
            output_mid: mid,
            output_final: fin,
            profit,
        },
    )
}

/// When the two venues quote the same effective price — the fee-adjusted
/// round-trip gain factor is exactly one — an evaluated tick trades
/// nothing: the computed optimum is zero, both simulated legs pay nothing
/// out, and the forecast profit is zero, so no positive threshold lets it
/// execute.
pub proof fn lemma_equal_effective_price_tick_is_idle(
    k: KongPoolSnapshot,
    i: IcsPoolSnapshot,
    ikiti_e8: u128,
    fee_bps: u128,
)
    requires
        reserves_in_range(k, i),
        fee_bps <= 10000,
        9970 * 9970 * (k.sns_raw * i.token1_k) == 10000 * 10000 * (k.icp_raw * i.token0_k),
    ensures
        (evaluate_spec(Some(k), Some(i), ikiti_e8, fee_bps) matches TickEval::Opp(opp)
            && opp.amount == 0 && opp.profit == 0),
{
    crate::amm::lemma_equal_effective_price_zero_trade(
        k.icp_raw as int,
        k.sns_raw as int,
        i.token0_k as int,
        i.token1_k as int,
    );
    crate::amm::lemma_zero_amount_zero_output(
        i.token1_k as int,
        i.token0_k as int,
        fee_bps as int,
    );
    crate::amm::lemma_zero_amount_zero_output(
        k.icp_raw as int,
        k.sns_raw as int,
        fee_bps as int,
    );
    crate::amm::lemma_zero_amount_zero_output(
        k.sns_raw as int,
        k.icp_raw as int,
        fee_bps as int,
    );
    crate::amm::lemma_zero_amount_zero_output(
        i.token0_k as int,
        i.token1_k as int,
        fee_bps as int,
    );
}

/// Every evaluated opportunity stays in the calculator's fixed-point
/// domain: the considered amount is at most the per-pair ceiling and
/// below the reserve bound, and each simulated output is bounded by the
/// reserve it pays out of, so planning a directive from it is always
/// sound.
pub proof fn lemma_evaluated_opportunity_in_range(
    kong: Option<KongPoolSnapshot>,
    ics: Option<IcsPoolSnapshot>,
    ikiti_e8: u128,
    fee_bps: u128,
)
    requires
        fee_bps <= 10000,
    ensures
        (evaluate_spec(kong, ics, ikiti_e8, fee_bps) matches TickEval::Opp(opp) ==> opp.amount
            < RESERVE_LIMIT && opp.output_mid < RESERVE_LIMIT && opp.output_final
            < RESERVE_LIMIT),
{
    if kong is Some && ics is Some {
        let k = kong->0;
        let i = ics->0;
        if reserves_in_range(k, i) {
            let raw_negative = optimal_is_negative(
                k.icp_raw as int,
                k.sns_raw as int,
                i.token0_k as int,
                i.token1_k as int,
            );
            let raw_magnitude = optimal_magnitude(
                k.icp_raw as int,
                k.sns_raw as int,
                i.token0_k as int,
                i.token1_k as int,
            );
            crate::amm::lemma_optimal_magnitude_nonneg(
                k.icp_raw as int,
                k.sns_raw as int,
                i.token0_k as int,
                i.token1_k as int,
            );
            let amount = if raw_magnitude > ikiti_e8 {
                ikiti_e8 as int
            } else {
                raw_magnitude
            };
            if amount < RESERVE_LIMIT {
                if raw_negative {
                    crate::amm::lemma_swap_output_bounds(
                        amount,
                        i.token1_k as int,
                        i.token0_k as int,
                        fee_bps as int,
                    );
                    let mid = swap_output_spec(
                        amount,
                        i.token1_k as int,
                        i.token0_k as int,
                        fee_bps as int,
                    );
                    crate::amm::lemma_swap_output_bounds(
                        mid,
                        k.sns_raw as int,
                        k.icp_raw as int,
                        fee_bps as int,
                    );
                } else {
                    crate::amm::lemma_swap_output_bounds(
                        amount,
                        k.icp_raw as int,
                        k.sns_raw as int,
                        fee_bps as int,
                    );
                    let mid = swap_output_spec(
                        amount,
                        k.icp_raw as int,
                        k.sns_raw as int,
                        fee_bps as int,
                    );
                    crate::amm::lemma_swap_output_bounds(
                        mid,
                        i.token0_k as int,
                        i.token1_k as int,
                        fee_bps as int,
                    );
                }
            }
        }
    }
}

/// With no fee-adjusted price gap in either direction — the round-trip
/// gain factor is at most one whichever venue leads — an evaluated tick
/// never forecasts a profit, whatever amount the clamp settles on, so no
/// positive threshold lets it execute. Balanced reserves under any
/// positive fee satisfy both conditions: the formula's fee-band residue
/// is then harmless, as the profit gate holds it back.
pub proof fn lemma_no_gap_tick_never_profits(
    k: KongPoolSnapshot,
    i: IcsPoolSnapshot,
    ikiti_e8: u128,
    fee_bps: u128,
)
    requires
        reserves_in_range(k, i),
        fee_bps <= 10000,
        (10000 - fee_bps) * (10000 - fee_bps) * (k.sns_raw * i.token1_k) <= 10000 * 10000 * (
        k.icp_raw * i.token0_k),
        (10000 - fee_bps) * (10000 - fee_bps) * (i.token0_k * k.icp_raw) <= 10000 * 10000 * (
        i.token1_k * k.sns_raw),
    ensures
        (evaluate_spec(Some(k), Some(i), ikiti_e8, fee_bps) matches TickEval::Opp(opp)
            ==> opp.profit <= 0),
{
    let raw_negative = optimal_is_negative(
        k.icp_raw as int,
        k.sns_raw as int,
        i.token0_k as int,
        i.token1_k as int,
    );
    crate::amm::lemma_optimal_magnitude_nonneg(
        k.icp_raw as int,
        k.sns_raw as int,
        i.token0_k as int,
        i.token1_k as int,
    );
    let raw_magnitude = optimal_magnitude(
        k.icp_raw as int,
        k.sns_raw as int,
        i.token0_k as int,
        i.token1_k as int,
    );
    let amount = if raw_magnitude > ikiti_e8 {
        ikiti_e8 as int
    } else {
        raw_magnitude
    };
    if amount < RESERVE_LIMIT {
        if raw_negative {
            crate::amm::lemma_no_gap_round_trip_no_profit(
                amount,
                i.token1_k as int,
                i.token0_k as int,
                k.sns_raw as int,
                k.icp_raw as int,
                fee_bps as int,
            );
            crate::amm::lemma_swap_output_bounds(
                amount,
                i.token1_k as int,
                i.token0_k as int,
                fee_bps as int,
            );
            let mid = swap_output_spec(
                amount,
                i.token1_k as int,
                i.token0_k as int,
                fee_bps as int,
            );
            crate::amm::lemma_swap_output_bounds(
                mid,
                k.sns_raw as int,
                k.icp_raw as int,
                fee_bps as int,
            );
        } else {
            crate::amm::lemma_no_gap_round_trip_no_profit(
                amount,
                k.icp_raw as int,
                k.sns_raw as int,
                i.token0_k as int,
                i.token1_k as int,
                fee_bps as int,
            );
            crate::amm::lemma_swap_output_bounds(
                amount,
                k.icp_raw as int,
                k.sns_raw as int,
                fee_bps as int,
            );
            let mid = swap_output_spec(
                amount,
                k.icp_raw as int,
                k.sns_raw as int,
                fee_bps as int,
            );
            crate::amm::lemma_swap_output_bounds(
                mid,
                i.token0_k as int,
                i.token1_k as int,
                fee_bps as int,
            );
        }
    }
}

/// The per-pair ceiling binds: whenever the computed optimum's magnitude
/// exceeds the configured ceiling, an evaluated tick considers exactly the
/// ceiling, never the raw optimum.
pub proof fn lemma_ceiling_binds_executed_amount(
    k: KongPoolSnapshot,
    i: IcsPoolSnapshot,
    ikiti_e8: u128,
    fee_bps: u128,
)
    requires
        reserves_in_range(k, i),
        fee_bps <= 10000,
        ikiti_e8 < RESERVE_LIMIT,
        optimal_magnitude(k.icp_raw as int, k.sns_raw as int, i.token0_k as int, i.token1_k as int)
            > ikiti_e8,
    ensures
        (evaluate_spec(Some(k), Some(i), ikiti_e8, fee_bps) matches TickEval::Opp(opp)
            && opp.amount == ikiti_e8),
{
}

/// Execution is triggered exactly when the simulated profit exceeds the
/// configured threshold.
pub fn should_execute(profit: i128, profit_threshold_e8: u128) -> (r: bool)
    ensures
        r == (profit > profit_threshold_e8),
{
    if profit <= 0 {
        false
    } else {
        (profit as u128) > profit_threshold_e8
    }
}

/// What one execution commits to: the input amount, the minimum receive
/// for each leg, and the direction.
#[derive(Clone, Copy, Debug, PartialEq, Eq, Structural)]
pub struct SwapDirective {
    pub amount_in: u128,
    pub min_mid: u128,
    pub min_final: u128,
    pub direction: SwapDirection,
}

/// The minimum-receive floor for a forecast output: the output scaled by
/// the safety factor in basis points, rounded half up to a raw unit.
pub open spec fn min_receive_spec(output: int, factor_bps: int) -> int {
    (output * factor_bps + 5000) / 10000
}

/// Plans the two swap calls for an opportunity: each leg's minimum receive
/// is its simulated output scaled by the safety factor and rounded to a
/// raw unit, protecting against adverse movement between computation and
/// execution.
pub fn plan_directive(opp: &Opportunity, min_receive_bps: u32) -> (r: SwapDirective)
    requires
        opp.output_mid < RESERVE_LIMIT,
        opp.output_final < RESERVE_LIMIT,
    ensures
        r.amount_in == opp.amount,
        r.direction == opp.direction,
        r.min_mid == min_receive_spec(opp.output_mid as int, min_receive_bps as int),
        r.min_final == min_receive_spec(opp.output_final as int, min_receive_bps as int),
        min_receive_bps <= 10000 ==> r.min_mid <= opp.output_mid && r.min_final
            <= opp.output_final,
{
    proof {
        assert(opp.output_mid * (min_receive_bps as u128) < 0x100_0000_0000_0000_0000_0000int)
            by (nonlinear_arith)
            requires
                opp.output_mid < 0x100_0000_0000_0000int,
                min_receive_bps < 0x1_0000_0000u64;
        assert(opp.output_final * (min_receive_bps as u128) < 0x100_0000_0000_0000_0000_0000int)
            by (nonlinear_arith)
            requires
                opp.output_final < 0x100_0000_0000_0000int,
                min_receive_bps < 0x1_0000_0000u64;
    }
    let min_mid: u128 = (opp.output_mid * (min_receive_bps as u128) + 5000) / 10000;
    let min_final: u128 = (opp.output_final * (min_receive_bps as u128) + 5000) / 10000;
    proof {
        if min_receive_bps <= 10000 {
            assert(opp.output_mid * (min_receive_bps as u128) <= opp.output_mid * 10000)
                by (nonlinear_arith)
                requires
                    min_receive_bps <= 10000u32;
            assert(opp.output_final * (min_receive_bps as u128) <= opp.output_final * 10000)
                by (nonlinear_arith)
                requires
                    min_receive_bps <= 10000u32;
            lemma_div_is_ordered(
                opp.output_mid * (min_receive_bps as u128) + 5000,
                opp.output_mid * 10000 + 5000,
                10000,
            );
            lemma_div_is_ordered(
                opp.output_final * (min_receive_bps as u128) + 5000,
                opp.output_final * 10000 + 5000,
                10000,
            );
            lemma_hoist_over_denominator(5000, opp.output_mid as int, 10000nat);
            lemma_hoist_over_denominator(5000, opp.output_final as int, 10000nat);
        }
    }
    SwapDirective { amount_in: opp.amount, min_mid, min_final, direction: opp.direction }
}

/// One of the two legs of an execution, in issue order.
#[derive(Clone, Copy, Debug, PartialEq, Eq, Structural)]
pub enum Leg {
    First,
    Second,
}

/// A finished execution: committed in full, or failed with the leg that
/// failed and the underlying message. Nothing is rolled back on failure —
/// a committed leg is not revocable.
#[derive(Debug)]
pub enum ExecOutcome {
    Executed,
    Failed { leg: Leg, message: String },
}

/// Aggregates the two legs' results into the execution outcome. The first
/// leg's failure is reported first; a failure never reports success, and
/// only two clean legs do.
pub fn settle_execution(first_err: Option<String>, second_err: Option<String>) -> (r: ExecOutcome)
    ensures
        (first_err matches Some(m) ==> r matches ExecOutcome::Failed { leg, message } && leg
            == Leg::First && message@ == m@),
        (first_err is None ==> (second_err matches Some(m) ==> r matches ExecOutcome::Failed {
            leg,
            message,
        } && leg == Leg::Second && message@ == m@)),
        (first_err is None && second_err is None ==> r is Executed),
{
    match first_err {
        Some(m) => ExecOutcome::Failed { leg: Leg::First, message: m },
        None => match second_err {
            Some(m) => ExecOutcome::Failed { leg: Leg::Second, message: m },
            None => ExecOutcome::Executed,
        },
    }
}

} // verus!
