//! The angle normalizer: turns canvas arc angle semantics (arbitrary start
//! and end angles, a winding direction, full circles expressed as sweeps of
//! two pi or more) into the bounded sweep the backend's oval-arc primitive
//! accepts.
//!
//! Angles are fixed-point radians (see `geometry`). The backend primitive
//! works on a three-decimal grid, so the adjusted end angle is rounded to a
//! multiple of ten steps.

use vstd::prelude::*;

use crate::geometry::{PI_FIXED, SCALAR_LIMIT, TWO_PI_FIXED};

verus! {

/// Two angles within this many steps of each other count as equal when the
/// algorithm tests for a full-circle sweep; it approximates the backend's
/// scalar tolerance of 1/4096 of a unit.
pub const NEARLY_EQUAL_TOLERANCE: i64 = 2;

pub open spec fn spec_nearly_equal(x: int, y: int) -> bool {
    -NEARLY_EQUAL_TOLERANCE <= x - y <= NEARLY_EQUAL_TOLERANCE
}

/// Whether `x` and `y` differ by at most the backend's scalar tolerance.
pub fn sk_scalar_nearly_equal(x: i64, y: i64) -> (r: bool)
    requires
        -4 * SCALAR_LIMIT <= x <= 4 * SCALAR_LIMIT,
        -4 * SCALAR_LIMIT <= y <= 4 * SCALAR_LIMIT,
    ensures
        r == spec_nearly_equal(x as int, y as int),
{
    let d = x - y;
    -NEARLY_EQUAL_TOLERANCE <= d && d <= NEARLY_EQUAL_TOLERANCE
}

pub open spec fn spec_ellipse_is_renderable(start_angle: int, end_angle: int) -> bool {
    let d = if end_angle >= start_angle {
        end_angle - start_angle
    } else {
        start_angle - end_angle
    };
    d < PI_FIXED || spec_nearly_equal(d, TWO_PI_FIXED as int)
}

/// An ellipse or arc is renderable when the angular span is less than half a
/// turn or nearly a whole turn; the drawing routines split the remaining
/// cases through `adjust_end_angle` first.
pub fn ellipse_is_renderable(start_angle: i64, end_angle: i64) -> (r: bool)
    requires
        -SCALAR_LIMIT <= start_angle <= SCALAR_LIMIT,
        -SCALAR_LIMIT <= end_angle <= SCALAR_LIMIT,
    ensures
        r == spec_ellipse_is_renderable(start_angle as int, end_angle as int),
{
    let d = if end_angle >= start_angle {
        end_angle - start_angle
    } else {
        start_angle - end_angle
    };
    d < PI_FIXED || sk_scalar_nearly_equal(d, TWO_PI_FIXED)
}

/// Rounds to the backend's three-decimal grid: the nearest multiple of ten
/// steps, halves away from zero.
pub open spec fn spec_round_to_grid(n: int) -> int {
    if n >= 0 {
        ((n + 5) / 10) * 10
    } else {
        -(((-n + 5) / 10) * 10)
    }
}

pub fn round_to_grid(n: i64) -> (r: i64)
    requires
        -2 * SCALAR_LIMIT <= n <= 2 * SCALAR_LIMIT,
    ensures
        r == spec_round_to_grid(n as int),
{
    if n >= 0 {
        ((n + 5) / 10) * 10
    } else {
        -(((-n + 5) / 10) * 10)
    }
}

/// The rounded grid value is a multiple of ten and within five steps of the
/// original value.
pub proof fn lemma_round_to_grid_bounds(n: int)
    ensures
        spec_round_to_grid(n) % 10 == 0,
        n - 5 <= spec_round_to_grid(n) <= n + 5,
{
    if n >= 0 {
        let q = (n + 5) / 10;
        assert(q * 10 % 10 == 0) by (nonlinear_arith);
        assert(n + 5 == 10 * q + ((n + 5) % 10)) by (nonlinear_arith)
            requires
                q == (n + 5) / 10,
        ;
        assert(0 <= (n + 5) % 10 < 10) by (nonlinear_arith)
            requires
                n + 5 >= 0,
        ;
    } else {
        let m = -n;
        let q = (m + 5) / 10;
        assert(-(q * 10) % 10 == 0) by (nonlinear_arith);
        assert(m + 5 == 10 * q + ((m + 5) % 10)) by (nonlinear_arith)
            requires
                q == (m + 5) / 10,
        ;
        assert(0 <= (m + 5) % 10 < 10) by (nonlinear_arith)
            requires
                m + 5 >= 0,
        ;
    }
}

/// Rounding a value that is already on the grid returns it unchanged.
pub proof fn lemma_round_to_grid_fixed(n: int)
    requires
        n % 10 == 0,
    ensures
        spec_round_to_grid(n) == n,
{
    let q = n / 10;
    assert(n == 10 * q) by (nonlinear_arith)
        requires
            n % 10 == 0,
            q == n / 10,
    ;
    if n >= 0 {
        assert((10 * q + 5) / 10 == q) by (nonlinear_arith)
            requires
                q >= 0,
        ;
        assert(q * 10 == n) by (nonlinear_arith)
            requires
                n == 10 * q,
        ;
    } else {
        assert(-n == 10 * (-q)) by (nonlinear_arith)
            requires
                n == 10 * q,
        ;
        assert((10 * (-q) + 5) / 10 == -q) by (nonlinear_arith)
            requires
                -q >= 0,
        ;
        assert(-((-q) * 10) == n) by (nonlinear_arith)
            requires
                n == 10 * q,
        ;
    }
}

/// The end angle the backend is asked to sweep to, before grid rounding:
/// a sweep of a whole turn or more clamps to exactly one turn from the
/// start; otherwise an end angle on the wrong side of the start is wrapped
/// by the smallest multiple of a turn that brings it to the right side.
pub open spec fn spec_adjust_end_angle_raw(start: int, end: int, anticlockwise: bool) -> int {
    if !anticlockwise && end - start >= TWO_PI_FIXED {
        start + TWO_PI_FIXED
    } else if anticlockwise && start - end >= TWO_PI_FIXED {
        start - TWO_PI_FIXED
    } else if !anticlockwise && start > end {
        start + (TWO_PI_FIXED - ((start - end) % (TWO_PI_FIXED as int)))
    } else if anticlockwise && start < end {
        start - (TWO_PI_FIXED - ((end - start) % (TWO_PI_FIXED as int)))
    } else {
        end
    }
}

pub open spec fn spec_adjust_end_angle(start: int, end: int, anticlockwise: bool) -> int {
    spec_round_to_grid(spec_adjust_end_angle_raw(start, end, anticlockwise))
}

/// Normalizes the end angle of an arc so that the sweep from `start_angle`
/// runs in the requested direction and covers at most one full turn, then
/// rounds it to the backend's three-decimal grid.
pub fn adjust_end_angle(start_angle: i64, end_angle: i64, anticlockwise: bool) -> (r: i64)
    requires
        -SCALAR_LIMIT <= start_angle <= SCALAR_LIMIT,
        -SCALAR_LIMIT <= end_angle <= SCALAR_LIMIT,
    ensures
        r == spec_adjust_end_angle(start_angle as int, end_angle as int, anticlockwise),
        -2 * SCALAR_LIMIT <= r <= 2 * SCALAR_LIMIT,
{
    let new_end_angle: i64 = if !anticlockwise && end_angle - start_angle >= TWO_PI_FIXED {
        start_angle + TWO_PI_FIXED
    } else if anticlockwise && start_angle - end_angle >= TWO_PI_FIXED {
        start_angle - TWO_PI_FIXED
    } else if !anticlockwise && start_angle > end_angle {
        start_angle + (TWO_PI_FIXED - ((start_angle - end_angle) % TWO_PI_FIXED))
    } else if anticlockwise && start_angle < end_angle {
        start_angle - (TWO_PI_FIXED - ((end_angle - start_angle) % TWO_PI_FIXED))
    } else {
        end_angle
    };
    proof {
        lemma_round_to_grid_bounds(new_end_angle as int);
    }
    round_to_grid(new_end_angle)
}

/// Two values on the three-decimal grid that are within nine steps of each
/// other in one direction are ordered in that direction.
proof fn lemma_grid_cmp(x: int, b: int)
    requires
        x % 10 == 0,
        b % 10 == 0,
    ensures
        x >= b - 9 ==> x >= b,
        x <= b + 9 ==> x <= b,
{
    vstd::arithmetic::div_mod::lemma_fundamental_div_mod(x, 10);
    vstd::arithmetic::div_mod::lemma_fundamental_div_mod(b, 10);
    let kx = x / 10;
    let kb = b / 10;
    assert(10 * kx >= 10 * kb - 9 ==> 10 * kx >= 10 * kb) by (nonlinear_arith);
    assert(10 * kx <= 10 * kb + 9 ==> 10 * kx <= 10 * kb) by (nonlinear_arith);
}

/// Law: the angle adjustment is idempotent. Feeding an adjusted end angle
/// back through the adjustment with the same start angle and direction
/// returns it unchanged, for every start angle that lies on the backend's
/// three-decimal grid (the grid the adjusted angle itself is rounded to).
pub proof fn lemma_adjust_end_angle_idempotent(start: int, end: int, anticlockwise: bool)
    requires
        start % 10 == 0,
    ensures
        spec_adjust_end_angle(
            start,
            spec_adjust_end_angle(start, end, anticlockwise),
            anticlockwise,
        ) == spec_adjust_end_angle(start, end, anticlockwise),
{
    let raw = spec_adjust_end_angle_raw(start, end, anticlockwise);
    let e1 = spec_adjust_end_angle(start, end, anticlockwise);
    lemma_round_to_grid_bounds(raw);
    if !anticlockwise {
        if end - start >= TWO_PI_FIXED {
            lemma_grid_cmp(e1, start + 62830);
        } else if start > end {
            let m = (start - end) % (TWO_PI_FIXED as int);
            assert(0 <= m < TWO_PI_FIXED) by (nonlinear_arith)
                requires
                    m == (start - end) % (TWO_PI_FIXED as int),
            ;
            lemma_grid_cmp(e1, start);
            lemma_grid_cmp(e1, start + 62830);
        } else {
            lemma_grid_cmp(e1, start);
            lemma_grid_cmp(e1, start + 62830);
        }
        assert(start <= e1 <= start + 62830);
        assert(spec_adjust_end_angle_raw(start, e1, anticlockwise) == e1);
        lemma_round_to_grid_fixed(e1);
    } else {
        if start - end >= TWO_PI_FIXED {
            lemma_grid_cmp(e1, start - 62830);
            lemma_grid_cmp(e1, start);
        } else if start < end {
            let m = (end - start) % (TWO_PI_FIXED as int);
            assert(0 <= m < TWO_PI_FIXED) by (nonlinear_arith)
                requires
                    m == (end - start) % (TWO_PI_FIXED as int),
            ;
            lemma_grid_cmp(e1, start - 62830);
            lemma_grid_cmp(e1, start);
        } else {
            lemma_grid_cmp(e1, start - 62830);
            lemma_grid_cmp(e1, start);
        }
        assert(start - 62830 <= e1 <= start);
        assert(spec_adjust_end_angle_raw(start, e1, anticlockwise) == e1);
        lemma_round_to_grid_fixed(e1);
    }
}

} // verus!
