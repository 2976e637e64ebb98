//! Wide integer arithmetic for the opportunity calculator: a 128-by-128-bit
//! multiplication whose 256-bit result is held as two words, comparison and
//! division of such double-word values, and the floor of a square root.

use vstd::prelude::*;
use vstd::arithmetic::div_mod::{lemma_fundamental_div_mod, lemma_fundamental_div_mod_converse};
use vstd::arithmetic::mul::{lemma_mul_inequality, lemma_mul_upper_bound};

verus! {

/// One half-word step: 2^64.
pub const WORD: u128 = 0x1_0000_0000_0000_0000;

/// The value of a double-word quantity: `hi` carries the bits above 2^128.
pub open spec fn wide(hi: u128, lo: u128) -> int {
    hi * 0x1_0000_0000_0000_0000_0000_0000_0000_0000int + lo
}

/// `s` is the floor of the square root of `n`.
pub open spec fn is_floor_sqrt(n: int, s: int) -> bool {
    0 <= s && s * s <= n < (s + 1) * (s + 1)
}

/// The floor of the square root of a non-negative integer.
pub open spec fn sqrt_floor(n: int) -> int
    recommends
        n >= 0,
{
    choose|s: int| is_floor_sqrt(n, s)
}

/// Every non-negative integer has a floor square root.
pub proof fn lemma_sqrt_floor_exists(n: int)
    requires
        n >= 0,
    ensures
        is_floor_sqrt(n, sqrt_floor(n)),
    decreases n,
{
    if n == 0 {
        assert(is_floor_sqrt(0, 0));
    } else {
        lemma_sqrt_floor_exists(n - 1);
        let s = sqrt_floor(n - 1);
        if (s + 1) * (s + 1) <= n {
            assert(n <= (s + 1) * (s + 1));
            assert((s + 1) * (s + 1) < (s + 2) * (s + 2)) by (nonlinear_arith)
                requires s >= 0;
            assert(is_floor_sqrt(n, s + 1));
        } else {
            assert(is_floor_sqrt(n, s));
        }
    }
    assert(exists|s: int| is_floor_sqrt(n, s));
}

/// The floor square root is unique: any witness equals `sqrt_floor`.
pub proof fn lemma_sqrt_floor_unique(n: int, s: int)
    requires
        n >= 0,
        is_floor_sqrt(n, s),
    ensures
        s == sqrt_floor(n),
{
    lemma_sqrt_floor_exists(n);
    let t = sqrt_floor(n);
    assert(s == t) by (nonlinear_arith)
        requires
            0 <= s && s * s <= n < (s + 1) * (s + 1),
            0 <= t && t * t <= n < (t + 1) * (t + 1);
}

/// Full 128-by-128-bit multiplication into a double word.
pub fn mul_words(a: u128, b: u128) -> (r: (u128, u128))
    ensures
        wide(r.0, r.1) == a * b,
{
    let a1: u128 = a / WORD;
    let a0: u128 = a % WORD;
    let b1: u128 = b / WORD;
    let b0: u128 = b % WORD;
    proof {
        lemma_fundamental_div_mod(a as int, WORD as int);
        lemma_fundamental_div_mod(b as int, WORD as int);
        assert(a1 < WORD && b1 < WORD);
        lemma_mul_upper_bound(a0 as int, WORD - 1, b0 as int, WORD - 1);
        lemma_mul_upper_bound(a0 as int, WORD - 1, b1 as int, WORD - 1);
        lemma_mul_upper_bound(a1 as int, WORD - 1, b0 as int, WORD - 1);
        lemma_mul_upper_bound(a1 as int, WORD - 1, b1 as int, WORD - 1);
    }
    let p00: u128 = a0 * b0;
    let p01: u128 = a0 * b1;
    let p10: u128 = a1 * b0;
    let p11: u128 = a1 * b1;
    let mid: u128 = p01 + p00 / WORD;
    let mid2: u128 = p10 + mid % WORD;
    let lo: u128 = (mid2 % WORD) * WORD + p00 % WORD;
    let hi: u128 = p11 + mid / WORD + mid2 / WORD;
    proof {
        lemma_fundamental_div_mod(p00 as int, WORD as int);
        lemma_fundamental_div_mod(mid as int, WORD as int);
        lemma_fundamental_div_mod(mid2 as int, WORD as int);
        assert(a * b == p11 * 0x1_0000_0000_0000_0000_0000_0000_0000_0000int
            + (p10 + p01) * (WORD as int) + p00) by (nonlinear_arith)
            requires
                a == a1 * (WORD as int) + a0,
                b == b1 * (WORD as int) + b0,
                p00 == a0 * b0,
                p01 == a0 * b1,
                p10 == a1 * b0,
                p11 == a1 * b1;
        assert(wide(hi, lo) == a * b);
    }
    (hi, lo)
}

/// Compares two double-word values.
pub fn wide_le(ah: u128, al: u128, bh: u128, bl: u128) -> (r: bool)
    ensures
        r == (wide(ah, al) <= wide(bh, bl)),
{
    proof {
        if ah < bh {
            lemma_mul_inequality(
                ah + 1,
                bh as int,
                0x1_0000_0000_0000_0000_0000_0000_0000_0000int,
            );
        }
        if bh < ah {
            lemma_mul_inequality(
                bh + 1,
                ah as int,
                0x1_0000_0000_0000_0000_0000_0000_0000_0000int,
            );
        }
    }
    ah < bh || (ah == bh && al <= bl)
}

/// Divides a double-word value by `d`. The quotient must fit one word, which
/// `n_hi < d` guarantees.
pub fn div_wide(n_hi: u128, n_lo: u128, d: u128) -> (q: u128)
    requires
        d > 0,
        n_hi < d,
    ensures
        q == wide(n_hi, n_lo) / (d as int),
{
    let ghost n = wide(n_hi, n_lo);
    proof {
        lemma_mul_inequality(
            n_hi + 1,
            d as int,
            0x1_0000_0000_0000_0000_0000_0000_0000_0000int,
        );
        assert(n < (u128::MAX + 1) * d) by (nonlinear_arith)
            requires
                n <= n_hi * 0x1_0000_0000_0000_0000_0000_0000_0000_0000int
                    + 0x1_0000_0000_0000_0000_0000_0000_0000_0000int - 1,
                (n_hi + 1) * 0x1_0000_0000_0000_0000_0000_0000_0000_0000int
                    <= d * 0x1_0000_0000_0000_0000_0000_0000_0000_0000int,
                u128::MAX == 0x1_0000_0000_0000_0000_0000_0000_0000_0000int - 1;
    }
    let mut lo: u128 = 0;
    let mut hi: u128 = u128::MAX;
    while lo < hi
        invariant
            lo <= hi,
            d > 0,
            n == wide(n_hi, n_lo),
            lo * d <= n,
            n < (hi + 1) * d,
        decreases hi - lo,
    {
        let half: u128 = (hi - lo) / 2;
        let mid: u128 = hi - half;
        let (ph, pl) = mul_words(mid, d);
        if wide_le(ph, pl, n_hi, n_lo) {
            lo = mid;
        } else {
            hi = mid - 1;
        }
    }
    proof {
        assert((lo + 1) * d == lo * d + d) by (nonlinear_arith);
        lemma_fundamental_div_mod_converse(n, d as int, lo as int, n - lo * d);
    }
    lo
}

/// The floor square root of a double-word value.
pub fn isqrt_wide(n_hi: u128, n_lo: u128) -> (s: u128)
    ensures
        is_floor_sqrt(wide(n_hi, n_lo), s as int),
        s == sqrt_floor(wide(n_hi, n_lo)),
{
    let ghost n = wide(n_hi, n_lo);
    proof {
        lemma_mul_inequality(
            n_hi as int,
            u128::MAX as int,
            0x1_0000_0000_0000_0000_0000_0000_0000_0000int,
        );
        assert(n < (u128::MAX + 1) * (u128::MAX + 1)) by (nonlinear_arith)
            requires
                n <= u128::MAX * 0x1_0000_0000_0000_0000_0000_0000_0000_0000int
                    + 0x1_0000_0000_0000_0000_0000_0000_0000_0000int - 1,
                u128::MAX == 0x1_0000_0000_0000_0000_0000_0000_0000_0000int - 1;
    }
    let mut lo: u128 = 0;
    let mut hi: u128 = u128::MAX;
    while lo < hi
        invariant
            lo <= hi,
            n == wide(n_hi, n_lo),
            lo * lo <= n,
            n < (hi + 1) * (hi + 1),
        decreases hi - lo,
    {
        let half: u128 = (hi - lo) / 2;
        let mid: u128 = hi - half;
        let (ph, pl) = mul_words(mid, mid);
        if wide_le(ph, pl, n_hi, n_lo) {
            lo = mid;
        } else {
            hi = mid - 1;
        }
    }
    proof {
        lemma_sqrt_floor_unique(n, lo as int);
    }
    lo
}

} // verus!
