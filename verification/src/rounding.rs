//! Rounding a ratio to the nearest whole pixel, ties away from zero.
//!
//! The solver never divides lengths directly: every share of space is kept as
//! a numerator over a fixed denominator, rounded here, and the rounding error
//! is carried to the next share.  The lemmas in this module bound that error,
//! which is what makes a whole carry chain sum up exactly.

use vstd::prelude::*;
use vstd::arithmetic::div_mod::lemma_fundamental_div_mod;

verus! {

/// `p / d` rounded to the nearest integer, ties away from zero (`d >= 1`).
pub open spec fn round_away_s(p: int, d: int) -> int
    recommends
        d >= 1,
{
    if p >= 0 {
        (2 * p + d) / (2 * d)
    } else {
        -((-2 * p + d) / (2 * d))
    }
}

/// Exec mirror of [`round_away_s`].
pub fn round_away(p: i64, d: i64) -> (r: i64)
    requires
        1 <= d <= 0x2000_0000_0000_0000,
        -0x2000_0000_0000_0000 <= p <= 0x2000_0000_0000_0000,
    ensures
        r == round_away_s(p as int, d as int),
{
    if p >= 0 {
        let num: u64 = (2 * p + d) as u64;
        let den: u64 = (2 * d) as u64;
        let q: u64 = num / den;
        assert(q == (2 * p + d) / (2 * d)) by {
            assert(num == 2 * p + d);
            assert(den == 2 * d);
        }
        q as i64
    } else {
        let num: u64 = (-2 * p + d) as u64;
        let den: u64 = (2 * d) as u64;
        let q: u64 = num / den;
        assert(q == (-2 * p + d) / (2 * d)) by {
            assert(num == -2 * p + d);
            assert(den == 2 * d);
        }
        -(q as i64)
    }
}

/// The rounded value is within half a unit of the exact ratio:
/// `|p - round_away_s(p, d) * d|` is at most `d / 2`.
pub proof fn lemma_round_near(p: int, d: int)
    requires
        d >= 1,
    ensures
        -d <= 2 * (p - round_away_s(p, d) * d) <= d,
{
    if p >= 0 {
        let q = (2 * p + d) / (2 * d);
        lemma_fundamental_div_mod(2 * p + d, 2 * d);
        let m = (2 * p + d) % (2 * d);
        assert(0 <= m < 2 * d) by (nonlinear_arith)
            requires
                d >= 1,
                m == (2 * p + d) % (2 * d),
        ;
        assert(2 * p + d == 2 * d * q + m);
        assert(2 * (p - q * d) == m - d) by (nonlinear_arith)
            requires
                2 * p + d == 2 * d * q + m,
        ;
    } else {
        let q = (-2 * p + d) / (2 * d);
        lemma_fundamental_div_mod(-2 * p + d, 2 * d);
        let m = (-2 * p + d) % (2 * d);
        assert(0 <= m < 2 * d) by (nonlinear_arith)
            requires
                d >= 1,
                m == (-2 * p + d) % (2 * d),
        ;
        assert(-2 * p + d == 2 * d * q + m);
        assert(2 * (p - (-q) * d) == d - m) by (nonlinear_arith)
            requires
                -2 * p + d == 2 * d * q + m,
        ;
    }
}

/// A share never rounds below zero unless the carried debt is a full half
/// unit: `2 * p >= -d` gives a non-negative rounded value when `2 * p > -d`,
/// and `-1` at the exact tie.
pub proof fn lemma_round_lower(p: int, d: int)
    requires
        d >= 1,
        2 * p >= -d,
    ensures
        round_away_s(p, d) >= -1,
        2 * p > -d ==> round_away_s(p, d) >= 0,
{
    if p >= 0 {
        assert((2 * p + d) / (2 * d) >= 0) by (nonlinear_arith)
            requires
                d >= 1,
                p >= 0,
        ;
    } else {
        let q = (-2 * p + d) / (2 * d);
        lemma_fundamental_div_mod(-2 * p + d, 2 * d);
        let m = (-2 * p + d) % (2 * d);
        assert(0 <= m < 2 * d) by (nonlinear_arith)
            requires
                d >= 1,
                m == (-2 * p + d) % (2 * d),
        ;
        assert(-2 * p + d <= 2 * d);
        assert(q <= 1) by (nonlinear_arith)
            requires
                d >= 1,
                -2 * p + d == 2 * d * q + m,
                0 <= m,
                -2 * p + d <= 2 * d,
        ;
        if 2 * p > -d {
            assert(-2 * p + d < 2 * d);
            assert(q <= 0) by (nonlinear_arith)
                requires
                    d >= 1,
                    -2 * p + d == 2 * d * q + m,
                    0 <= m,
                    -2 * p + d < 2 * d,
            ;
        }
    }
}

/// The rounded value is no larger in magnitude than `|p| + 1`.
pub proof fn lemma_round_magnitude(p: int, d: int)
    requires
        d >= 1,
    ensures
        -(if p >= 0 { p } else { -p }) - 1 <= round_away_s(p, d) <= (if p >= 0 {
            p
        } else {
            -p
        }) + 1,
{
    let e = round_away_s(p, d);
    lemma_round_near(p, d);
    let a = if p >= 0 { p } else { -p as int };
    assert(-a - 1 <= e <= a + 1) by (nonlinear_arith)
        requires
            d >= 1,
            -d <= 2 * (p - e * d) <= d,
            a == if p >= 0 { p } else { -p as int },
    ;
}

} // verus!
