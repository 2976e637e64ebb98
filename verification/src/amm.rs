//! The opportunity calculator: a pure, deterministic optimizer over two
//! constant-product-style venues, and the closed-form simulation of a
//! two-legged swap. All quantities are raw fixed-point integers in the
//! asset's smallest unit.

use vstd::prelude::*;
use vstd::arithmetic::div_mod::{
    lemma_basic_div, lemma_div_denominator, lemma_div_is_ordered, lemma_div_multiples_vanish,
    lemma_div_of0, lemma_div_pos_is_pos, lemma_fundamental_div_mod, lemma_hoist_over_denominator,
    lemma_mod_division_less_than_divisor,
};
use crate::math::{is_floor_sqrt, isqrt_wide, lemma_sqrt_floor_unique, mul_words, sqrt_floor, wide};

verus! {

/// Reserves and trade amounts must stay below 2^56 raw units so that every
/// intermediate product of the calculator fits in 128 bits.
pub const RESERVE_LIMIT: u128 = 0x100_0000_0000_0000;

/// A computed optimum before clamping: a magnitude and a direction. A
/// negative optimum means the trade starts on the second venue.
#[derive(Clone, Copy, Debug, PartialEq, Eq, Structural)]
pub struct RawTrade {
    pub negative: bool,
    pub magnitude: u128,
}

/// Output of one constant-fraction swap leg: the venue holds `token0` of the
/// asset paid in and `token1` of the asset paid out, keeps `10000 - fee_bps`
/// of the quote, and the result is truncated to a raw unit.
pub open spec fn swap_output_spec(amount: int, token0: int, token1: int, fee_bps: int) -> int {
    (token1 * amount * (10000 - fee_bps)) / ((token0 + amount) * 10000)
}

/// The computed optimum points from the second venue to the first: the
/// fee-adjusted square-root gain of the round trip falls short of its cost.
pub open spec fn optimal_is_negative(a0: int, a1: int, b0: int, b1: int) -> bool {
    9970 * sqrt_floor(a0 * a1 * b0 * b1) < 10000 * (a0 * b0)
}

/// The magnitude of the profit-maximizing trade across the two curves.
///
/// Setting the two venues' output formulas equal, each quoting with the
/// embedded fee factor `g = 9970` over `10000`, yields the quadratic
/// `a·x² + b·x + c = 0` with
/// `a = (g·a1·g + g·10⁴·b0)²`, `b = 2·10⁴·a0·10⁴·b0·(g·a1·g + g·10⁴·b0)` and
/// `c = 10⁴·a0·10⁴·b0·(10⁴·a0·10⁴·b0 − g·a1·g·b1)`. Its economically valid
/// root `(-b + √(b²-4ac)) / 2a` collapses to the closed form
/// `10⁴·(g·√(a0·a1·b0·b1) − 10⁴·a0·b0) / (g·(g·a1 + 10⁴·b0))`,
/// computed here on integers with a floor square root and floor division.
///
/// Inside the fee band — when neither direction's fee-adjusted gain
/// factor exceeds one — this root is not zero but a fee-induced residue
/// pointing second-venue-first: at balanced reserves it is `30·10⁴ /
/// (9970·19970)` of a reserve, about 0.15%. That is the quoting formula's
/// own optimum, kept as such; `lemma_no_gap_tick_never_profits` shows the
/// profit gate never lets a trade inside the band execute.
pub open spec fn optimal_magnitude(a0: int, a1: int, b0: int, b1: int) -> int {
    let gain = 9970 * sqrt_floor(a0 * a1 * b0 * b1);
    let cost = 10000 * (a0 * b0);
    let den = 9970 * (9970 * a1 + 10000 * b0);
    if gain >= cost {
        (10000 * (gain - cost)) / den
    } else {
        (10000 * (cost - gain)) / den
    }
}

/// Caps a computed trade magnitude at the configured per-pair ceiling, so the
/// position size is bounded regardless of the raw optimum.
pub fn clamp_to_ceiling(magnitude: u128, ceiling: u128) -> (r: u128)
    ensures
        magnitude > ceiling ==> r == ceiling,
        magnitude <= ceiling ==> r == magnitude,
{
    if magnitude > ceiling {
        ceiling
    } else {
        magnitude
    }
}

/// Simulates one swap leg: pay `amount` into the reserve `token0`, receive
/// out of the reserve `token1`, with a flat fee of `fee_bps` basis points.
pub fn swap_icp_to_ckusdc(amount: u128, token0: u128, token1: u128, fee_bps: u128) -> (r: u128)
    requires
        1 <= token0 < RESERVE_LIMIT,
        token1 < RESERVE_LIMIT,
        amount < RESERVE_LIMIT,
        fee_bps <= 10000,
    ensures
        r == swap_output_spec(amount as int, token0 as int, token1 as int, fee_bps as int),
        r <= token1,
{
    let keep: u128 = 10000 - fee_bps;
    proof {
        assert(token1 * amount < 0x1_0000_0000_0000_0000_0000_0000_0000int)
            by (nonlinear_arith)
            requires
                token1 < 0x100_0000_0000_0000int,
                amount < 0x100_0000_0000_0000int;
    }
    let t1a: u128 = token1 * amount;
    proof {
        assert(t1a * keep < 0x4000_0000_0000_0000_0000_0000_0000_0000int) by (nonlinear_arith)
            requires
                t1a < 0x1_0000_0000_0000_0000_0000_0000_0000int,
                keep <= 10000;
    }
    let num: u128 = t1a * keep;
    let den: u128 = (token0 + amount) * 10000;
    let out: u128 = num / den;
    proof {
        assert(num <= token1 * den) by (nonlinear_arith)
            requires
                num == token1 * amount * keep,
                den == (token0 + amount) * 10000,
                keep <= 10000,
                0 < token0,
                0 <= amount,
                0 <= token1;
        lemma_div_is_ordered(num as int, token1 * den, den as int);
        lemma_div_multiples_vanish(token1 as int, den as int);
    }
    out
}

/// The profit-maximizing raw trade size and direction for the current
/// reserves of the two venues: `dex1_token0`/`dex1_token1` are the first
/// venue's reserves of the quote and base asset, `dex2_token0`/`dex2_token1`
/// the second venue's. The result is a pure function of the four reserves.
pub fn cal_amount(
    dex1_token0: u128,
    dex1_token1: u128,
    dex2_token0: u128,
    dex2_token1: u128,
) -> (r: RawTrade)
    requires
        1 <= dex1_token0 < RESERVE_LIMIT,
        1 <= dex1_token1 < RESERVE_LIMIT,
        1 <= dex2_token0 < RESERVE_LIMIT,
        1 <= dex2_token1 < RESERVE_LIMIT,
    ensures
        r.negative == optimal_is_negative(
            dex1_token0 as int,
            dex1_token1 as int,
            dex2_token0 as int,
            dex2_token1 as int,
        ),
        r.magnitude == optimal_magnitude(
            dex1_token0 as int,
            dex1_token1 as int,
            dex2_token0 as int,
            dex2_token1 as int,
        ),
{
    proof {
        assert(dex1_token0 * dex1_token1 < 0x1_0000_0000_0000_0000_0000_0000_0000int)
            by (nonlinear_arith)
            requires
                dex1_token0 < 0x100_0000_0000_0000int,
                dex1_token1 < 0x100_0000_0000_0000int;
        assert(dex2_token0 * dex2_token1 < 0x1_0000_0000_0000_0000_0000_0000_0000int)
            by (nonlinear_arith)
            requires
                dex2_token0 < 0x100_0000_0000_0000int,
                dex2_token1 < 0x100_0000_0000_0000int;
        assert(dex1_token0 * dex2_token0 < 0x1_0000_0000_0000_0000_0000_0000_0000int)
            by (nonlinear_arith)
            requires
                dex1_token0 < 0x100_0000_0000_0000int,
                dex2_token0 < 0x100_0000_0000_0000int;
    }
    let u: u128 = dex1_token0 * dex1_token1;
    let v: u128 = dex2_token0 * dex2_token1;
    let (ph, pl) = mul_words(u, v);
    let s: u128 = isqrt_wide(ph, pl);
    let ghost p = (dex1_token0 * dex1_token1 * dex2_token0 * dex2_token1) as int;
    proof {
        assert(u * v == p) by (nonlinear_arith)
            requires
                u == dex1_token0 * dex1_token1,
                v == dex2_token0 * dex2_token1,
                p == dex1_token0 * dex1_token1 * dex2_token0 * dex2_token1;
        assert(s < 0x1_0000_0000_0000_0000_0000_0000_0000int) by (nonlinear_arith)
            requires
                s * s <= wide(ph, pl),
                wide(ph, pl) == u * v,
                u < 0x1_0000_0000_0000_0000_0000_0000_0000int,
                v < 0x1_0000_0000_0000_0000_0000_0000_0000int;
    }
    let gain: u128 = 9970 * s;
    let cost: u128 = 10000 * (dex1_token0 * dex2_token0);
    let den: u128 = 9970 * (9970 * dex1_token1 + 10000 * dex2_token0);
    proof {
        assert(den >= 199100900);
    }
    let negative: bool = gain < cost;
    let diff: u128 = if negative {
        cost - gain
    } else {
        gain - cost
    };
    let q: u128 = diff / den;
    let rem: u128 = diff % den;
    proof {
        lemma_fundamental_div_mod(diff as int, den as int);
        assert(q < 0x80_0000_0000_0000_0000_0000_0000int) by (nonlinear_arith)
            requires
                q * den + rem == diff,
                0 <= rem,
                0 <= q,
                diff < 0x4000_0000_0000_0000_0000_0000_0000_0000int,
                den >= 199100900;
        assert((10000 * q) * den + 10000 * rem == 10000 * diff) by (nonlinear_arith)
            requires
                q * den + rem == diff;
        lemma_hoist_over_denominator(10000 * rem, 10000 * q, den as nat);
    }
    let magnitude: u128 = 10000 * q + (10000 * rem) / den;
    RawTrade { negative, magnitude }
}

/// The opportunity calculator is deterministic: its contract pins both the
/// direction and the magnitude to functions of the four reserves alone, so
/// any two results that meet it on the same reserves are identical.
pub proof fn lemma_calculator_deterministic(
    r1: RawTrade,
    r2: RawTrade,
    a0: int,
    a1: int,
    b0: int,
    b1: int,
)
    requires
        r1.negative == optimal_is_negative(a0, a1, b0, b1),
        r1.magnitude == optimal_magnitude(a0, a1, b0, b1),
        r2.negative == optimal_is_negative(a0, a1, b0, b1),
        r2.magnitude == optimal_magnitude(a0, a1, b0, b1),
    ensures
        r1 == r2,
{
}

/// Scaling numerator and denominator by the basis-point base cancels.
proof fn lemma_scale_cancel(n: int, d: int)
    requires
        0 <= n,
        0 < d,
    ensures
        (n * 10000) / (d * 10000) == n / d,
{
    lemma_div_denominator(n * 10000, 10000, d);
    lemma_div_multiples_vanish(n, 10000);
}

/// The computed magnitude is never negative: whichever way the optimum
/// points, its size is a quotient of non-negative quantities.
pub proof fn lemma_optimal_magnitude_nonneg(a0: int, a1: int, b0: int, b1: int)
    requires
        1 <= a1,
        1 <= b0,
    ensures
        0 <= optimal_magnitude(a0, a1, b0, b1),
{
    let gain = 9970 * sqrt_floor(a0 * a1 * b0 * b1);
    let cost = 10000 * (a0 * b0);
    let den = 9970 * (9970 * a1 + 10000 * b0);
    assert(den >= 199100900) by (nonlinear_arith)
        requires
            1 <= a1,
            1 <= b0,
            den == 9970 * (9970 * a1 + 10000 * b0);
    if gain >= cost {
        lemma_div_pos_is_pos(10000 * (gain - cost), den);
    } else {
        lemma_div_pos_is_pos(10000 * (cost - gain), den);
    }
}

/// A swap leg pays out of its reserve: the output is never negative and
/// never exceeds the reserve paid out of.
pub proof fn lemma_swap_output_bounds(amount: int, token0: int, token1: int, fee_bps: int)
    requires
        1 <= token0,
        0 <= token1,
        0 <= amount,
        0 <= fee_bps <= 10000,
    ensures
        0 <= swap_output_spec(amount, token0, token1, fee_bps),
        swap_output_spec(amount, token0, token1, fee_bps) <= token1,
{
    let num = token1 * amount * (10000 - fee_bps);
    let den = (token0 + amount) * 10000;
    assert(0 <= num && 0 < den && num <= token1 * den) by (nonlinear_arith)
        requires
            num == token1 * amount * (10000 - fee_bps),
            den == (token0 + amount) * 10000,
            0 <= fee_bps <= 10000,
            0 < token0,
            0 <= amount,
            0 <= token1;
    lemma_div_pos_is_pos(num, den);
    lemma_div_is_ordered(num, token1 * den, den);
    lemma_div_multiples_vanish(token1, den);
}

/// A swap leg with nothing paid in pays nothing out.
pub proof fn lemma_zero_amount_zero_output(token0: int, token1: int, fee_bps: int)
    requires
        1 <= token0,
        0 <= token1,
        0 <= fee_bps <= 10000,
    ensures
        swap_output_spec(0, token0, token1, fee_bps) == 0,
{
    assert(token1 * 0 * (10000 - fee_bps) == 0) by (nonlinear_arith);
    lemma_div_of0((token0 + 0) * 10000);
}

/// When the two venues quote the same effective price — the fee-adjusted
/// round-trip gain factor is exactly one, `g²·a1·b1 == 10⁴·10⁴·a0·b0` with
/// `g = 9970` — the computed optimal trade size is zero, so nothing is
/// traded and no profit or loss can arise from acting on the optimum.
pub proof fn lemma_equal_effective_price_zero_trade(a0: int, a1: int, b0: int, b1: int)
    requires
        1 <= a0,
        1 <= a1,
        1 <= b0,
        1 <= b1,
        9970 * 9970 * (a1 * b1) == 10000 * 10000 * (a0 * b0),
    ensures
        optimal_magnitude(a0, a1, b0, b1) == 0,
{
    let p = a0 * a1 * b0 * b1;
    let t = 10000 * (a0 * b0);
    assert(p * 9970 * 9970 == t * t) by (nonlinear_arith)
        requires
            9970 * 9970 * (a1 * b1) == 10000 * 10000 * (a0 * b0),
            p == a0 * a1 * b0 * b1,
            t == 10000 * (a0 * b0);
    assert(t >= 10000) by (nonlinear_arith)
        requires
            t == 10000 * (a0 * b0),
            1 <= a0,
            1 <= b0;
    let q = t / 9970;
    let r = t % 9970;
    lemma_fundamental_div_mod(t, 9970);
    lemma_mod_division_less_than_divisor(t, 9970);
    lemma_div_pos_is_pos(t, 9970);
    assert(q * q <= p) by (nonlinear_arith)
        requires
            t == 9970 * q + r,
            0 <= r,
            0 <= q,
            p * 9970 * 9970 == t * t;
    assert(p < (q + 1) * (q + 1)) by (nonlinear_arith)
        requires
            t == 9970 * q + r,
            r < 9970,
            0 <= q,
            0 <= t,
            p * 9970 * 9970 == t * t;
    assert(is_floor_sqrt(p, q));
    lemma_sqrt_floor_unique(p, q);
    assert(sqrt_floor(p) == q);
    let den = 9970 * (9970 * a1 + 10000 * b0);
    assert(den >= 199100900) by (nonlinear_arith)
        requires
            1 <= a1,
            1 <= b0,
            den == 9970 * (9970 * a1 + 10000 * b0);
    assert(9970 * q == t - r);
    if r == 0 {
        lemma_div_of0(den);
        assert(optimal_magnitude(a0, a1, b0, b1) == 0);
    } else {
        lemma_basic_div(10000 * r, den);
        assert(optimal_magnitude(a0, a1, b0, b1) == 0);
    }
}

/// The optimum's sign law, downward: when the fee-adjusted round-trip
/// gain falls strictly short of the cost — `g²·a1·b1 < 10⁴·10⁴·a0·b0`
/// with `g = 9970` — the computed optimum points second-venue-first.
pub proof fn lemma_direction_negative_when_gain_below_cost(a0: int, a1: int, b0: int, b1: int)
    requires
        1 <= a0,
        1 <= a1,
        1 <= b0,
        1 <= b1,
        9970 * 9970 * (a1 * b1) < 10000 * 10000 * (a0 * b0),
    ensures
        optimal_is_negative(a0, a1, b0, b1),
{
    let p = a0 * a1 * b0 * b1;
    let t = 10000 * (a0 * b0);
    assert(p >= 1 && t >= 10000) by (nonlinear_arith)
        requires
            p == a0 * a1 * b0 * b1,
            t == 10000 * (a0 * b0),
            1 <= a0,
            1 <= a1,
            1 <= b0,
            1 <= b1;
    crate::math::lemma_sqrt_floor_exists(p);
    let s = sqrt_floor(p);
    assert(9970 * 9970 * p < t * t) by (nonlinear_arith)
        requires
            9970 * 9970 * (a1 * b1) < 10000 * 10000 * (a0 * b0),
            p == a0 * a1 * b0 * b1,
            t == 10000 * (a0 * b0),
            1 <= a0,
            1 <= b0;
    assert(9970 * s < t) by (nonlinear_arith)
        requires
            0 <= s,
            s * s <= p,
            9970 * 9970 * p < t * t,
            0 <= t;
}

/// The optimum's sign law, upward: when the fee-adjusted gain clears the
/// cost by more than one truncation quantum of the scaled square root —
/// `(10⁴·a0·b0 + g)² ≤ g²·(a0·a1·b0·b1)` — the computed optimum points
/// first-venue-first. Between the two laws only a band of width `g` in
/// `g·√(a0·a1·b0·b1)`, the floor root's truncation, is left open.
pub proof fn lemma_direction_positive_when_gain_above_cost(a0: int, a1: int, b0: int, b1: int)
    requires
        1 <= a0,
        1 <= a1,
        1 <= b0,
        1 <= b1,
        (10000 * (a0 * b0) + 9970) * (10000 * (a0 * b0) + 9970) <= 9970 * 9970 * (a0 * a1 * b0
            * b1),
    ensures
        !optimal_is_negative(a0, a1, b0, b1),
{
    let p = a0 * a1 * b0 * b1;
    let t = 10000 * (a0 * b0);
    assert(p >= 1 && t >= 10000) by (nonlinear_arith)
        requires
            p == a0 * a1 * b0 * b1,
            t == 10000 * (a0 * b0),
            1 <= a0,
            1 <= a1,
            1 <= b0,
            1 <= b1;
    crate::math::lemma_sqrt_floor_exists(p);
    let s = sqrt_floor(p);
    assert((t + 9970) * (t + 9970) < (9970 * (s + 1)) * (9970 * (s + 1))) by (nonlinear_arith)
        requires
            (t + 9970) * (t + 9970) <= 9970 * 9970 * p,
            p < (s + 1) * (s + 1),
            0 <= s;
    assert(t < 9970 * s) by (nonlinear_arith)
        requires
            (t + 9970) * (t + 9970) < (9970 * (s + 1)) * (9970 * (s + 1)),
            0 <= s,
            0 <= t;
}

/// A two-leg round trip never creates value when the venues leave no
/// fee-adjusted price gap: with the kept factor `k = 10⁴ − fee`, whenever
/// `k²·r11·r21 ≤ 10⁴·10⁴·r10·r20` — the round-trip gain factor is at most
/// one — paying any amount through reserves `(r10, r11)` and the output
/// through `(r20, r21)` returns at most the amount paid.
pub proof fn lemma_no_gap_round_trip_no_profit(
    x: int,
    r10: int,
    r11: int,
    r20: int,
    r21: int,
    fee_bps: int,
)
    requires
        0 <= x,
        1 <= r10,
        0 <= r11,
        1 <= r20,
        0 <= r21,
        0 <= fee_bps <= 10000,
        (10000 - fee_bps) * (10000 - fee_bps) * (r11 * r21) <= 10000 * 10000 * (r10 * r20),
    ensures
        ({
            let out1 = swap_output_spec(x, r10, r11, fee_bps);
            let out2 = swap_output_spec(out1, r20, r21, fee_bps);
            out2 <= x
        }),
{
    let k = 10000 - fee_bps;
    let out1 = swap_output_spec(x, r10, r11, fee_bps);
    let out2 = swap_output_spec(out1, r20, r21, fee_bps);
    lemma_swap_output_bounds(x, r10, r11, fee_bps);
    lemma_swap_output_bounds(out1, r20, r21, fee_bps);
    let num1 = r11 * x * k;
    let den1 = (r10 + x) * 10000;
    lemma_fundamental_div_mod(num1, den1);
    lemma_mod_division_less_than_divisor(num1, den1);
    assert(out1 * den1 <= num1);
    let num2 = r21 * out1 * k;
    let den2 = (r20 + out1) * 10000;
    lemma_fundamental_div_mod(num2, den2);
    lemma_mod_division_less_than_divisor(num2, den2);
    assert(out2 * den2 <= num2);
    assert(out1 * (r10 * 10000) <= num1) by (nonlinear_arith)
        requires
            out1 * ((r10 + x) * 10000) <= num1,
            0 <= out1,
            0 <= x;
    assert(out2 * (r20 * 10000) <= num2) by (nonlinear_arith)
        requires
            out2 * ((r20 + out1) * 10000) <= num2,
            0 <= out2,
            0 <= out1;
    assert(out2 * ((r20 * 10000) * (r10 * 10000)) <= (r21 * k) * (out1 * (r10 * 10000)))
        by (nonlinear_arith)
        requires
            out2 * (r20 * 10000) <= num2,
            num2 == r21 * out1 * k,
            0 <= r10,
            0 <= r21,
            0 <= k,
            0 <= out1;
    assert((r21 * k) * (out1 * (r10 * 10000)) <= (r21 * k) * num1) by (nonlinear_arith)
        requires
            out1 * (r10 * 10000) <= num1,
            0 <= r21,
            0 <= k;
    assert((r21 * k) * num1 <= (10000 * 10000 * (r10 * r20)) * x) by (nonlinear_arith)
        requires
            num1 == r11 * x * k,
            k * k * (r11 * r21) <= 10000 * 10000 * (r10 * r20),
            0 <= x,
            0 <= k,
            0 <= r11,
            0 <= r21;
    assert(out2 <= x) by (nonlinear_arith)
        requires
            out2 * ((r20 * 10000) * (r10 * 10000)) <= (10000 * 10000 * (r10 * r20)) * x,
            1 <= r10,
            1 <= r20,
            0 <= out2,
            0 <= x;
}

/// The fee-free round trip of the constant-fraction output formula: pay `x`
/// into reserves `(r_in, r_out)`, then pay the output into the mirrored
/// post-trade reserves. The constant product is conserved exactly up to the
/// first leg's truncation remainder, the round trip never creates value,
/// and what truncation loses stays below `(r_in + x) / r_out + 1` raw
/// units.
pub proof fn lemma_round_trip_fee_free(x: int, r_in: int, r_out: int)
    requires
        1 <= r_in,
        1 <= r_out,
        0 <= x,
    ensures
        ({
            let out1 = swap_output_spec(x, r_in, r_out, 0);
            let out2 = swap_output_spec(out1, r_out - out1, r_in + x, 0);
            &&& 0 <= out1 <= r_out
            &&& 0 <= out2 <= x
            &&& (r_in + x) * (r_out - out1) == r_in * r_out + (r_out * x) % (r_in + x)
            &&& (x - out2) * r_out < (r_in + x) + r_out
        }),
{
    let d1 = r_in + x;
    let n1 = r_out * x;
    assert(0 <= n1) by (nonlinear_arith)
        requires
            n1 == r_out * x,
            0 <= r_out,
            0 <= x;
    lemma_scale_cancel(n1, d1);
    let out1 = swap_output_spec(x, r_in, r_out, 0);
    assert(out1 == n1 / d1);
    lemma_fundamental_div_mod(n1, d1);
    lemma_mod_division_less_than_divisor(n1, d1);
    lemma_div_pos_is_pos(n1, d1);
    let rho = n1 % d1;
    assert(n1 <= r_out * d1) by (nonlinear_arith)
        requires
            n1 == r_out * x,
            d1 == r_in + x,
            0 <= x,
            0 <= r_out,
            1 <= r_in;
    lemma_div_is_ordered(n1, r_out * d1, d1);
    lemma_div_multiples_vanish(r_out, d1);
    assert(out1 <= r_out);
    assert(d1 * out1 == n1 - rho);
    assert(d1 * (r_out - out1) == r_in * r_out + rho) by (nonlinear_arith)
        requires
            d1 == r_in + x,
            d1 * out1 == n1 - rho,
            n1 == r_out * x;
    let n2 = d1 * out1;
    assert(0 <= n2) by (nonlinear_arith)
        requires
            n2 == d1 * out1,
            0 <= d1,
            0 <= out1;
    lemma_scale_cancel(n2, r_out);
    let out2 = swap_output_spec(out1, r_out - out1, r_in + x, 0);
    assert(out2 == n2 / r_out);
    lemma_fundamental_div_mod(n2, r_out);
    lemma_mod_division_less_than_divisor(n2, r_out);
    lemma_div_pos_is_pos(n2, r_out);
    let rho2 = n2 % r_out;
    lemma_div_is_ordered(n2, n1, r_out);
    lemma_div_multiples_vanish(x, r_out);
    assert(out2 <= x);
    assert((x - out2) * r_out == rho + rho2) by (nonlinear_arith)
        requires
            n2 == r_out * out2 + rho2,
            n2 == n1 - rho,
            n1 == r_out * x;
    assert((x - out2) * r_out < d1 + r_out);
}

} // verus!
