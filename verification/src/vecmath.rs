//! Fixed-point plane geometry: vectors, squared distances, range
//! tests, clamping and the flooring scaled arithmetic every kernel
//! steers with.

use vstd::prelude::*;

verus! {

use crate::{COORD_LIMIT, FACTOR_UNIT, PARAM_LIMIT};
use vstd::arithmetic::div_mod::{
    lemma_div_is_ordered, lemma_div_multiples_vanish, lemma_div_nonincreasing,
    lemma_div_pos_is_pos, lemma_fundamental_div_mod, lemma_fundamental_div_mod_converse_div,
};

/// Largest magnitude a displacement handed to [`scaled_term`] may take;
/// large enough for a sum of [`crate::MAX_AGENTS`] coordinate differences.
pub const DIFF_LIMIT: i128 = 1_000_000_000_000_000_000;

/// Largest magnitude [`scaled_term`] can return:
/// `PARAM_LIMIT * DIFF_LIMIT / FACTOR_UNIT`.
pub const TERM_LIMIT: i128 = 1_000_000_000_000_000_000_000;

/// A two-component vector in simulation-space integer coordinates.
#[derive(Clone, Copy, PartialEq, Eq, Structural, Debug)]
pub struct Vec2i {
    pub x: i64,
    pub y: i64,
}

impl Vec2i {
    /// Both components lie in `[-limit, limit]`.
    pub open spec fn bounded(self, limit: int) -> bool {
        -limit <= self.x <= limit && -limit <= self.y <= limit
    }

}

/// Squared Euclidean distance between two points.
pub open spec fn dist2(a: Vec2i, b: Vec2i) -> int {
    (a.x - b.x) * (a.x - b.x) + (a.y - b.y) * (a.y - b.y)
}

/// `b` lies strictly within distance `r` of `a`.  False whenever `r` is
/// not positive, since a distance is never below zero.
pub open spec fn within_range(a: Vec2i, b: Vec2i, r: int) -> bool {
    r > 0 && dist2(a, b) < r * r
}

/// `v` clamped to `[lo, hi]`: the maximum with `lo` is applied first,
/// then the minimum with `hi`, so a degenerate `lo > hi` still yields
/// the defined result `hi`.
pub open spec fn clamp_spec(v: int, lo: int, hi: int) -> int {
    let m = if v < lo { lo } else { v };
    if m > hi {
        hi
    } else {
        m
    }
}

/// One steering contribution: a fractional `factor` (in
/// [`FACTOR_UNIT`]ths) applied to a displacement `diff`, the product
/// scaled back down by [`FACTOR_UNIT`] with flooring division.
pub open spec fn scaled_spec(factor: int, diff: int) -> int {
    factor * diff / (FACTOR_UNIT as int)
}

/// Computes [`dist2`] on machine integers.
pub fn dist2_exec(a: Vec2i, b: Vec2i) -> (d: i128)
    requires
        a.bounded(COORD_LIMIT as int),
        b.bounded(COORD_LIMIT as int),
    ensures
        d as int == dist2(a, b),
        0 <= d <= 8_000_000_000_000_000_000_000_000,
{
    let dx: i128 = a.x as i128 - b.x as i128;
    let dy: i128 = a.y as i128 - b.y as i128;
    proof {
        assert(0 <= dx * dx <= 4_000_000_000_000_000_000_000_000 && 0 <= dy * dy
            <= 4_000_000_000_000_000_000_000_000) by (nonlinear_arith)
            requires
                -2_000_000_000_000 <= dx <= 2_000_000_000_000,
                -2_000_000_000_000 <= dy <= 2_000_000_000_000,
        ;
    }
    dx * dx + dy * dy
}

/// Decides [`within_range`] without leaving machine integers.
pub fn within_range_exec(a: Vec2i, b: Vec2i, r: i64) -> (res: bool)
    requires
        a.bounded(COORD_LIMIT as int),
        b.bounded(COORD_LIMIT as int),
        -PARAM_LIMIT <= r <= PARAM_LIMIT,
    ensures
        res == within_range(a, b, r as int),
{
    if r <= 0 {
        return false;
    }
    let dx: i128 = a.x as i128 - b.x as i128;
    let dy: i128 = a.y as i128 - b.y as i128;
    proof {
        assert(0 <= dx * dx <= 4_000_000_000_000_000_000_000_000 && 0 <= dy * dy
            <= 4_000_000_000_000_000_000_000_000) by (nonlinear_arith)
            requires
                -2_000_000_000_000 <= dx <= 2_000_000_000_000,
                -2_000_000_000_000 <= dy <= 2_000_000_000_000,
        ;
        assert(0 < (r as i128) * (r as i128) <= 1_000_000_000_000_000_000) by (nonlinear_arith)
            requires
                0 < r <= 1_000_000_000,
        ;
    }
    let d2: i128 = dx * dx + dy * dy;
    let rr: i128 = (r as i128) * (r as i128);
    d2 < rr
}

/// Clamps a wide intermediate onto `[lo, hi]`, per [`clamp_spec`].
pub fn clamp_axis(v: i128, lo: i64, hi: i64) -> (r: i64)
    ensures
        r as int == clamp_spec(v as int, lo as int, hi as int),
{
    let m: i128 = if v < lo as i128 {
        lo as i128
    } else {
        v
    };
    if m > hi as i128 {
        hi
    } else {
        m as i64
    }
}

/// Floor division by a positive divisor, agreeing with the mathematical
/// `/` used throughout the specifications.
pub fn floor_div(a: i128, b: i128) -> (q: i128)
    requires
        b > 0,
        a > i128::MIN,
    ensures
        q == a as int / b as int,
{
    if a >= 0 {
        let ua: u128 = a as u128;
        let ub: u128 = b as u128;
        let d: u128 = ua / ub;
        proof {
            lemma_div_nonincreasing(ua as int, ub as int);
        }
        d as i128
    } else {
        let na: u128 = (-a) as u128;
        let ub: u128 = b as u128;
        let d: u128 = na / ub;
        let m: u128 = na % ub;
        proof {
            lemma_div_nonincreasing(na as int, ub as int);
            lemma_div_pos_is_pos(na as int, ub as int);
            lemma_fundamental_div_mod(na as int, ub as int);
            if m == 0 {
                // a == b * (-d), remainder 0
                assert(a as int == (-(d as int)) * (b as int) + 0) by (nonlinear_arith)
                    requires
                        na as int == (b as int) * (d as int) + 0,
                        a as int == -(na as int),
                ;
                lemma_fundamental_div_mod_converse_div(a as int, b as int, -(d as int), 0);
            } else {
                // a == b * (-d - 1) + (b - m), with 0 <= b - m < b
                assert(a as int == (-(d as int) - 1) * (b as int) + ((b as int) - (m as int)))
                    by (nonlinear_arith)
                    requires
                        na as int == (b as int) * (d as int) + (m as int),
                        a as int == -(na as int),
                ;
                lemma_fundamental_div_mod_converse_div(
                    a as int,
                    b as int,
                    -(d as int) - 1,
                    (b as int) - (m as int),
                );
            }
        }
        if m == 0 {
            -(d as i128)
        } else {
            -(d as i128) - 1
        }
    }
}

/// An average of values drawn from the coordinate range stays in it.
pub(crate) proof fn lemma_avg_bounded(sum: int, cnt: int)
    requires
        cnt > 0,
        -1_000_000_000_000 * cnt <= sum <= 1_000_000_000_000 * cnt,
    ensures
        -1_000_000_000_000 <= sum / cnt <= 1_000_000_000_000,
{
    assert(cnt * (-1_000_000_000_000) == -1_000_000_000_000 * cnt) by (nonlinear_arith);
    assert(cnt * 1_000_000_000_000 == 1_000_000_000_000 * cnt) by (nonlinear_arith);
    lemma_div_multiples_vanish(-1_000_000_000_000, cnt);
    lemma_div_multiples_vanish(1_000_000_000_000, cnt);
    lemma_div_is_ordered(-1_000_000_000_000 * cnt, sum, cnt);
    lemma_div_is_ordered(sum, 1_000_000_000_000 * cnt, cnt);
}

/// Computes [`scaled_spec`] on machine integers, with the result bounded
/// by [`TERM_LIMIT`].
pub fn scaled_term(factor: i64, diff: i128) -> (r: i128)
    requires
        -PARAM_LIMIT <= factor <= PARAM_LIMIT,
        -DIFF_LIMIT <= diff <= DIFF_LIMIT,
    ensures
        r == scaled_spec(factor as int, diff as int),
        -TERM_LIMIT <= r <= TERM_LIMIT,
        -2_000_000_000_000 <= diff <= 2_000_000_000_000 ==> -2_000_000_000_000_000 <= r
            <= 2_000_000_000_000_000,
{
    proof {
        assert(-1_000_000_000_000_000_000_000_000_000 <= (factor as int) * (diff as int)
            <= 1_000_000_000_000_000_000_000_000_000) by (nonlinear_arith)
            requires
                -PARAM_LIMIT <= factor <= PARAM_LIMIT,
                -DIFF_LIMIT <= diff <= DIFF_LIMIT,
        ;
    }
    let p: i128 = (factor as i128) * diff;
    let q: i128 = floor_div(p, FACTOR_UNIT as i128);
    proof {
        lemma_div_is_ordered(
            -1_000_000_000_000_000_000_000_000_000,
            p as int,
            FACTOR_UNIT as int,
        );
        lemma_div_is_ordered(
            p as int,
            1_000_000_000_000_000_000_000_000_000,
            FACTOR_UNIT as int,
        );
        if -2_000_000_000_000 <= diff <= 2_000_000_000_000 {
            assert(-2_000_000_000_000_000_000_000 <= (factor as int) * (diff as int)
                <= 2_000_000_000_000_000_000_000) by (nonlinear_arith)
                requires
                    -PARAM_LIMIT <= factor <= PARAM_LIMIT,
                    -2_000_000_000_000 <= diff <= 2_000_000_000_000,
            ;
            lemma_div_is_ordered(-2_000_000_000_000_000_000_000, p as int, FACTOR_UNIT as int);
            lemma_div_is_ordered(p as int, 2_000_000_000_000_000_000_000, FACTOR_UNIT as int);
        }
    }
    q
}

} // verus!
