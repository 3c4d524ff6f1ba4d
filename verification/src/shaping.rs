//! Shaping of a square key vector into a stick vector whose diagonals lean
//! by a configurable fraction.
//!
//! All quantities are fixed-point numbers with six decimal places: `UNIT`
//! stands for 1.

use vstd::prelude::*;
use crate::roots::{
    floor_sqrt, isqrt, lemma_floor_sqrt_bounds, lemma_floor_sqrt_monotonic,
    lemma_floor_sqrt_of_square,
};

verus! {

/// One whole: full deflection of an axis, a fully pressed key, the fraction 1.
pub const UNIT: i64 = 1_000_000;

/// One half: the fraction at which both axes of a diagonal weigh the same.
pub const HALF: i64 = 500_000;

/// A signed axis value between -1 and 1.
pub open spec fn is_axis(v: int) -> bool {
    -UNIT <= v <= UNIT
}

/// A shaping fraction: above 0, at most 1.
pub open spec fn is_fraction(f: int) -> bool {
    0 < f <= UNIT
}

pub open spec fn magnitude(v: int) -> int {
    if v < 0 {
        -v
    } else {
        v
    }
}

pub open spec fn larger(a: int, b: int) -> int {
    if a >= b {
        a
    } else {
        b
    }
}

/// `m` with the sign of `v`.
pub open spec fn with_sign_of(v: int, m: int) -> int {
    if v < 0 {
        -m
    } else {
        m
    }
}

/// The fraction that shapes the input `(x, y)`.
///
/// Backward input (`y < 0`) is always shaped by one half, whatever is
/// configured. Forward input to the left takes the second fraction where one
/// is given, and everything else the general one.
pub open spec fn applied_fraction(x: int, y: int, d_param: int, horizontal_angle: Option<i64>) -> int {
    if y < 0 {
        HALF as int
    } else if x < 0 && horizontal_angle is Some {
        horizontal_angle->0 as int
    } else {
        d_param
    }
}

/// Horizontal part of the offset vector: `|x|` weighted by `1 - f`.
pub open spec fn offset_x(x: int, f: int) -> int {
    magnitude(x) * (UNIT - f)
}

/// Vertical part of the offset vector: `|y|` weighted by `f`.
pub open spec fn offset_y(y: int, f: int) -> int {
    magnitude(y) * f
}

/// `m * along / sqrt(along^2 + across^2)`, rounded down: the part along one
/// axis of the vector of length `m` that points the way `(along, across)` does.
pub open spec fn projected(m: int, along: int, across: int) -> int {
    floor_sqrt((((m * along) * (m * along)) / (along * along + across * across)) as nat) as int
}

/// The stick vector for the key vector `(x, y)` under the fraction `f`.
///
/// Input on one axis alone (and no input at all) passes unchanged. A diagonal
/// keeps the signs of its parts, points the way of its offset vector and is as
/// long as the larger of `|x|` and `|y|`.
pub open spec fn shaped(x: int, y: int, f: int) -> (int, int) {
    if x == 0 || y == 0 {
        (x, y)
    } else {
        let a = offset_x(x, f);
        let b = offset_y(y, f);
        let m = larger(magnitude(x), magnitude(y));
        (with_sign_of(x, projected(m, a, b)), with_sign_of(y, projected(m, b, a)))
    }
}

/// The offset vector of a diagonal is never the zero vector, and its parts
/// stay below `UNIT * UNIT`.
pub proof fn lemma_offset_bounds(x: int, y: int, f: int)
    requires
        is_axis(x),
        is_axis(y),
        x != 0,
        y != 0,
        is_fraction(f),
    ensures
        0 <= offset_x(x, f) <= UNIT * UNIT,
        0 < offset_y(y, f) <= UNIT * UNIT,
        0 < offset_x(x, f) * offset_x(x, f) + offset_y(y, f) * offset_y(y, f),
{
    let ax = magnitude(x);
    let ay = magnitude(y);
    let a = offset_x(x, f);
    let b = offset_y(y, f);
    assert(0 <= a <= 1_000_000 * 1_000_000) by (nonlinear_arith)
        requires
            a == ax * (1_000_000 - f),
            0 < ax <= 1_000_000,
            0 < f <= 1_000_000,
    ;
    assert(0 < b <= 1_000_000 * 1_000_000) by (nonlinear_arith)
        requires
            b == ay * f,
            0 < ay <= 1_000_000,
            0 < f <= 1_000_000,
    ;
    assert(0 < a * a + b * b) by (nonlinear_arith)
        requires
            0 <= a,
            0 < b,
    ;
}

/// A projection is never negative and never longer than the vector it is taken from.
pub proof fn lemma_projected_within(m: int, along: int, across: int)
    requires
        0 <= m,
        0 <= along,
        0 <= across,
        0 < along * along + across * across,
    ensures
        0 <= projected(m, along, across) <= m,
{
    let n = (m * along) * (m * along);
    let d = along * along + across * across;
    assert(0 <= n <= (m * m) * d) by (nonlinear_arith)
        requires
            n == (m * along) * (m * along),
            d == along * along + across * across,
            0 <= m,
            0 <= along,
            0 <= across,
    ;
    assert(0 <= n / d <= m * m) by (nonlinear_arith)
        requires
            0 <= n <= (m * m) * d,
            0 < d,
    ;
    assert(0 <= m * m) by (nonlinear_arith);
    lemma_floor_sqrt_monotonic((n / d) as nat, (m * m) as nat);
    lemma_floor_sqrt_of_square(m as nat);
}

/// Rounding down keeps the order of two fractions that are compared by
/// cross-multiplication.
pub proof fn lemma_quotient_order(n1: int, d1: int, n2: int, d2: int)
    requires
        0 <= n1,
        0 <= n2,
        0 < d1,
        0 < d2,
        n1 * d2 <= n2 * d1,
    ensures
        n1 / d1 <= n2 / d2,
{
    let q1 = n1 / d1;
    let q2 = n2 / d2;
    assert(q1 * d1 <= n1 && 0 <= q1) by (nonlinear_arith)
        requires
            q1 == n1 / d1,
            0 <= n1,
            0 < d1,
    ;
    assert(n2 < (q2 + 1) * d2) by (nonlinear_arith)
        requires
            q2 == n2 / d2,
            0 <= n2,
            0 < d2,
    ;
    if q1 > q2 {
        assert((q2 + 1) * d2 <= q1 * d2) by (nonlinear_arith)
            requires
                q2 + 1 <= q1,
                0 < d2,
        ;
        assert(n2 * d1 < (q1 * d2) * d1) by (nonlinear_arith)
            requires
                n2 < q1 * d2,
                0 < d1,
        ;
        assert((q1 * d1) * d2 <= n1 * d2) by (nonlinear_arith)
            requires
                q1 * d1 <= n1,
                0 < d2,
        ;
        assert((q1 * d2) * d1 == (q1 * d1) * d2) by (nonlinear_arith);
    }
}

/// A projection grows with the part it is taken along and shrinks with the part across.
pub proof fn lemma_projected_monotonic(m: int, along_lo: int, across_hi: int, along_hi: int, across_lo: int)
    requires
        0 <= m,
        0 <= along_lo <= along_hi,
        0 <= across_lo <= across_hi,
        0 < along_lo * along_lo + across_hi * across_hi,
        0 < along_hi * along_hi + across_lo * across_lo,
    ensures
        projected(m, along_lo, across_hi) <= projected(m, along_hi, across_lo),
{
    let p = along_lo * along_lo;
    let q = along_hi * along_hi;
    let r = across_lo * across_lo;
    let t = across_hi * across_hi;
    let mm = m * m;
    assert(0 <= p <= q) by (nonlinear_arith)
        requires
            p == along_lo * along_lo,
            q == along_hi * along_hi,
            0 <= along_lo <= along_hi,
    ;
    assert(0 <= r <= t) by (nonlinear_arith)
        requires
            r == across_lo * across_lo,
            t == across_hi * across_hi,
            0 <= across_lo <= across_hi,
    ;
    assert(0 <= mm) by (nonlinear_arith)
        requires
            mm == m * m,
    ;
    let n_lo = (m * along_lo) * (m * along_lo);
    let n_hi = (m * along_hi) * (m * along_hi);
    assert(n_lo == mm * p) by (nonlinear_arith)
        requires
            n_lo == (m * along_lo) * (m * along_lo),
            mm == m * m,
            p == along_lo * along_lo,
    ;
    assert(n_hi == mm * q) by (nonlinear_arith)
        requires
            n_hi == (m * along_hi) * (m * along_hi),
            mm == m * m,
            q == along_hi * along_hi,
    ;
    assert(p * r <= q * t) by (nonlinear_arith)
        requires
            0 <= p <= q,
            0 <= r <= t,
    ;
    assert(p * (q + r) <= q * (p + t)) by (nonlinear_arith)
        requires
            p * r <= q * t,
    ;
    assert((mm * p) * (q + r) <= (mm * q) * (p + t)) by (nonlinear_arith)
        requires
            p * (q + r) <= q * (p + t),
            0 <= mm,
    ;
    assert(0 <= mm * p && 0 <= mm * q) by (nonlinear_arith)
        requires
            0 <= mm,
            0 <= p,
            0 <= q,
    ;
    lemma_quotient_order(n_lo, p + t, n_hi, q + r);
    assert(0 <= n_lo / (p + t)) by (nonlinear_arith)
        requires
            0 <= n_lo,
            0 < p + t,
    ;
    lemma_floor_sqrt_monotonic((n_lo / (p + t)) as nat, (n_hi / (q + r)) as nat);
}

/// Without input on an axis nothing is reshaped: no input at all gives the
/// origin, and input on one axis alone keeps its full magnitude on that axis,
/// whatever the fraction.
pub proof fn lemma_single_axis_unchanged(x: int, y: int, f: int)
    requires
        x == 0 || y == 0,
    ensures
        shaped(x, y, f) == (x, y),
        shaped(0, 0, f) == (0int, 0int),
{
}

/// Backward input is shaped by one half whatever is configured: any two
/// settings give the same vector, the one that one half gives.
pub proof fn lemma_backward_ignores_fraction(
    x: int,
    y: int,
    d_param_a: int,
    horizontal_a: Option<i64>,
    d_param_b: int,
    horizontal_b: Option<i64>,
)
    requires
        y < 0,
    ensures
        shaped(x, y, applied_fraction(x, y, d_param_a, horizontal_a)) == shaped(
            x,
            y,
            applied_fraction(x, y, d_param_b, horizontal_b),
        ),
        shaped(x, y, applied_fraction(x, y, d_param_a, horizontal_a)) == shaped(x, y, HALF as int),
{
}

/// A forward diagonal leans toward the vertical axis as the fraction grows.
///
/// The offset vector turns strictly: its slope under the larger fraction is
/// strictly steeper. The stick vector, which is rounded, follows: its vertical
/// part never shrinks and its horizontal part never grows.
pub proof fn lemma_forward_diagonal_leans_with_fraction(x: int, y: int, f1: int, f2: int)
    requires
        is_axis(x),
        is_axis(y),
        x != 0,
        y > 0,
        is_fraction(f1),
        is_fraction(f2),
        f1 < f2,
    ensures
        offset_x(x, f2) * offset_y(y, f1) < offset_x(x, f1) * offset_y(y, f2),
        shaped(x, y, f1).1 <= shaped(x, y, f2).1,
        magnitude(shaped(x, y, f2).0) <= magnitude(shaped(x, y, f1).0),
{
    let ax = magnitude(x);
    let ay = magnitude(y);
    let m = larger(ax, ay);
    let a1 = offset_x(x, f1);
    let a2 = offset_x(x, f2);
    let b1 = offset_y(y, f1);
    let b2 = offset_y(y, f2);
    lemma_offset_bounds(x, y, f1);
    lemma_offset_bounds(x, y, f2);
    assert(a2 < a1) by (nonlinear_arith)
        requires
            a1 == ax * (1_000_000 - f1),
            a2 == ax * (1_000_000 - f2),
            0 < ax,
            f1 < f2,
    ;
    assert(b1 < b2) by (nonlinear_arith)
        requires
            b1 == ay * f1,
            b2 == ay * f2,
            0 < ay,
            f1 < f2,
    ;
    assert(a2 * b1 < a1 * b2) by (nonlinear_arith)
        requires
            0 <= a2 < a1,
            0 < b1 < b2,
    ;
    assert(b1 * b1 + a1 * a1 == a1 * a1 + b1 * b1);
    assert(b2 * b2 + a2 * a2 == a2 * a2 + b2 * b2);
    lemma_projected_monotonic(m, b1, a1, b2, a2);
    lemma_projected_monotonic(m, a2, b2, a1, b1);
    lemma_projected_within(m, a1, b1);
    lemma_projected_within(m, a2, b2);
}

/// A diagonal leans toward the axis that weighs more: where the vertical part
/// of the offset vector is not the smaller one, the vertical part of the stick
/// vector is not the shorter one. Two keys held together under a fraction of
/// one half or more therefore lean up.
pub proof fn lemma_heavier_part_is_longer(x: int, y: int, f: int)
    requires
        is_axis(x),
        is_axis(y),
        x != 0,
        y != 0,
        is_fraction(f),
        offset_x(x, f) <= offset_y(y, f),
    ensures
        magnitude(shaped(x, y, f).0) <= magnitude(shaped(x, y, f).1),
{
    let m = larger(magnitude(x), magnitude(y));
    let a = offset_x(x, f);
    let b = offset_y(y, f);
    lemma_offset_bounds(x, y, f);
    assert(b * b + a * a == a * a + b * b);
    lemma_projected_monotonic(m, a, b, b, a);
    lemma_projected_within(m, a, b);
    lemma_projected_within(m, b, a);
}

/// A projection is its exact value rounded down: it is the one number `q`
/// with `q / m <= along / sqrt(along^2 + across^2) < (q + 1) / m`, here with
/// both sides squared and cleared of fractions. The stick vector is therefore
/// less than one millionth below the exact vector in each part.
pub proof fn lemma_projected_is_floor(m: int, along: int, across: int)
    requires
        0 <= m,
        0 <= along,
        0 <= across,
        0 < along * along + across * across,
    ensures
        ({
            let q = projected(m, along, across);
            let d = along * along + across * across;
            let n = (m * along) * (m * along);
            &&& 0 <= q
            &&& (q * q) * d <= n
            &&& n < ((q + 1) * (q + 1)) * d
        }),
{
    let d = along * along + across * across;
    let n = (m * along) * (m * along);
    let q = projected(m, along, across);
    assert(0 <= n) by (nonlinear_arith)
        requires
            n == (m * along) * (m * along),
    ;
    let k = n / d;
    assert(0 <= k && k * d <= n && n < (k + 1) * d) by (nonlinear_arith)
        requires
            k == n / d,
            0 <= n,
            0 < d,
    ;
    lemma_floor_sqrt_bounds(k as nat);
    assert(q * q <= k && k < (q + 1) * (q + 1));
    assert((q * q) * d <= k * d) by (nonlinear_arith)
        requires
            q * q <= k,
            0 < d,
    ;
    assert((k + 1) * d <= ((q + 1) * (q + 1)) * d) by (nonlinear_arith)
        requires
            k + 1 <= (q + 1) * (q + 1),
            0 < d,
    ;
}

/// No other number is the exact value rounded down: whatever lies between the
/// two bounds of `lemma_projected_is_floor` is the projection.
pub proof fn lemma_projected_unique(m: int, along: int, across: int, q: int)
    requires
        0 <= m,
        0 <= along,
        0 <= across,
        0 < along * along + across * across,
        0 <= q,
        (q * q) * (along * along + across * across) <= (m * along) * (m * along),
        (m * along) * (m * along) < ((q + 1) * (q + 1)) * (along * along + across * across),
    ensures
        projected(m, along, across) == q,
{
    let d = along * along + across * across;
    let n = (m * along) * (m * along);
    let p = projected(m, along, across);
    lemma_projected_is_floor(m, along, across);
    if p < q {
        assert(((p + 1) * (p + 1)) * d <= (q * q) * d) by (nonlinear_arith)
            requires
                0 <= p,
                p + 1 <= q,
                0 < d,
        ;
    } else if q < p {
        assert(((q + 1) * (q + 1)) * d <= (p * p) * d) by (nonlinear_arith)
            requires
                0 <= q,
                q + 1 <= p,
                0 < d,
        ;
    }
}

/// A diagonal keeps the length of its larger part, as far as rounding down
/// allows: the stick vector is not longer than that part, and would be longer
/// with each of its parts one unit further out.
pub proof fn lemma_diagonal_keeps_length(x: int, y: int, f: int)
    requires
        is_axis(x),
        is_axis(y),
        x != 0,
        y != 0,
        is_fraction(f),
    ensures
        ({
            let m = larger(magnitude(x), magnitude(y));
            let sx = magnitude(shaped(x, y, f).0);
            let sy = magnitude(shaped(x, y, f).1);
            &&& sx * sx + sy * sy <= m * m
            &&& m * m < (sx + 1) * (sx + 1) + (sy + 1) * (sy + 1)
        }),
{
    let m = larger(magnitude(x), magnitude(y));
    let a = offset_x(x, f);
    let b = offset_y(y, f);
    lemma_offset_bounds(x, y, f);
    let d = a * a + b * b;
    let nx = (m * a) * (m * a);
    let ny = (m * b) * (m * b);
    let qx = projected(m, a, b);
    let qy = projected(m, b, a);
    assert(b * b + a * a == d);
    lemma_projected_is_floor(m, a, b);
    lemma_projected_is_floor(m, b, a);
    assert(magnitude(shaped(x, y, f).0) == qx);
    assert(magnitude(shaped(x, y, f).1) == qy);
    assert(nx + ny == (m * m) * d) by (nonlinear_arith)
        requires
            nx == (m * a) * (m * a),
            ny == (m * b) * (m * b),
            d == a * a + b * b,
    ;
    assert(qx * qx + qy * qy <= m * m) by (nonlinear_arith)
        requires
            (qx * qx) * d <= nx,
            (qy * qy) * d <= ny,
            nx + ny == (m * m) * d,
            0 < d,
    ;
    assert(m * m < (qx + 1) * (qx + 1) + (qy + 1) * (qy + 1)) by (nonlinear_arith)
        requires
            nx < ((qx + 1) * (qx + 1)) * d,
            ny < ((qy + 1) * (qy + 1)) * d,
            nx + ny == (m * m) * d,
            0 < d,
    ;
}

/// Shapes the key vector `(x, y)` into a stick vector.
///
/// `d_param` is the general shaping fraction, `horizontal_angle` the second
/// fraction for forward diagonals to the left, where the asymmetric mode is on.
/// The result is `shaped` under the fraction that applies; each part keeps
/// within -1 and 1.
pub fn process_circular_direction(
    x: i64,
    y: i64,
    d_param: i64,
    horizontal_angle: Option<i64>,
) -> (r: (i64, i64))
    requires
        is_axis(x as int),
        is_axis(y as int),
        is_fraction(d_param as int),
        horizontal_angle matches Some(h) ==> is_fraction(h as int),
    ensures
        (r.0 as int, r.1 as int) == shaped(
            x as int,
            y as int,
            applied_fraction(x as int, y as int, d_param as int, horizontal_angle),
        ),
        is_axis(r.0 as int),
        is_axis(r.1 as int),
        (x == 0 || y == 0) ==> r == (x, y),
{
    if x == 0 || y == 0 {
        return (x, y);
    }
    let f: i64 = if y < 0 {
        HALF
    } else {
        match horizontal_angle {
            Some(h) => if x < 0 {
                h
            } else {
                d_param
            },
            None => d_param,
        }
    };
    assert(f as int == applied_fraction(x as int, y as int, d_param as int, horizontal_angle));
    let ax: u128 = if x < 0 {
        (-x) as u128
    } else {
        x as u128
    };
    let ay: u128 = if y < 0 {
        (-y) as u128
    } else {
        y as u128
    };
    let m: u128 = if ax >= ay {
        ax
    } else {
        ay
    };
    proof {
        lemma_offset_bounds(x as int, y as int, f as int);
    }
    let a: u128 = ax * ((UNIT - f) as u128);
    let b: u128 = ay * (f as u128);
    assert(a == offset_x(x as int, f as int));
    assert(b == offset_y(y as int, f as int));
    assert(a * a + b * b <= 2 * (1_000_000 * 1_000_000) * (1_000_000 * 1_000_000)) by (nonlinear_arith)
        requires
            a <= 1_000_000 * 1_000_000,
            b <= 1_000_000 * 1_000_000,
    ;
    assert(a * a <= u128::MAX && b * b <= u128::MAX) by (nonlinear_arith)
        requires
            a <= 1_000_000 * 1_000_000,
            b <= 1_000_000 * 1_000_000,
    ;
    let d: u128 = a * a + b * b;
    assert(m * a <= 1_000_000 * (1_000_000 * 1_000_000) && m * b <= 1_000_000 * (1_000_000
        * 1_000_000)) by (nonlinear_arith)
        requires
            m <= 1_000_000,
            a <= 1_000_000 * 1_000_000,
            b <= 1_000_000 * 1_000_000,
    ;
    let ma: u128 = m * a;
    let mb: u128 = m * b;
    assert(ma * ma <= u128::MAX && mb * mb <= u128::MAX) by (nonlinear_arith)
        requires
            ma <= 1_000_000 * (1_000_000 * 1_000_000),
            mb <= 1_000_000 * (1_000_000 * 1_000_000),
    ;
    let qx: u64 = isqrt((ma * ma) / d);
    let qy: u64 = isqrt((mb * mb) / d);
    proof {
        lemma_projected_within(m as int, a as int, b as int);
        lemma_projected_within(m as int, b as int, a as int);
        assert(b * b + a * a == a * a + b * b);
        assert(qx as int == projected(m as int, a as int, b as int));
        assert(qy as int == projected(m as int, b as int, a as int));
    }
    let rx: i64 = if x < 0 {
        -(qx as i64)
    } else {
        qx as i64
    };
    let ry: i64 = if y < 0 {
        -(qy as i64)
    } else {
        qy as i64
    };
    (rx, ry)
}

} // verus!
