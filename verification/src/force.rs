//! The repulsion force field: a quadratic-falloff push away from a probe
//! point, and a variant that bends the push sideways toward a goal.
//!
//! Every displacement is a pure function of the difference vector between the
//! probe point and the repelled center, in subpixel units.  Magnitudes use the
//! floored integer square root, and each component is one truncating division,
//! so the formulas below are the exact contract of the executable code.

use crate::geom::{dist2_spec, magnitude, sqrt_floor, Vec2};
use vstd::arithmetic::div_mod::{lemma_fundamental_div_mod, lemma_mod_bound};
use vstd::prelude::*;

verus! {

/// Interaction range of the force field: 100 pixels, in subpixel units.
pub const FORCE_RANGE: i64 = 100_000;

/// Divisor of the quadratic falloff: the 0.01 force scale expressed over the
/// subpixel grain, so that a displacement of `f * f * 0.01` pixels along a
/// unit direction `d / m` becomes `f * f * d / (m * FORCE_DIV)` subpixels.
pub const FORCE_DIV: i64 = 100_000;

/// Division truncating toward zero, as the executable code divides.
pub open spec fn tdiv(n: int, d: int) -> int {
    if n >= 0 {
        n / d
    } else {
        -((-n) / d)
    }
}

/// Truncating division is odd in its numerator.
pub proof fn lemma_tdiv_neg(n: int, d: int)
    requires
        d > 0,
    ensures
        tdiv(-n, d) == -tdiv(n, d),
{
    if n == 0 {
        assert(0int / d == 0) by (nonlinear_arith)
            requires
                d > 0,
        ;
    }
}

/// The repulsion displacement as a function of the difference vector
/// `center - point` alone.  Zero at the center (the documented degenerate
/// case: normalizing a zero vector yields zero) and zero at or beyond the
/// interaction range; otherwise `f * f / FORCE_DIV` subpixels along the unit
/// direction away from the probe, where `f` is the remaining range.
pub open spec fn repel_of_diff(dx: int, dy: int) -> (int, int) {
    let m = sqrt_floor((dx * dx + dy * dy) as nat) as int;
    if m == 0 || m >= FORCE_RANGE {
        (0, 0)
    } else {
        let f = FORCE_RANGE - m;
        (tdiv(f * f * dx, m * FORCE_DIV), tdiv(f * f * dy, m * FORCE_DIV))
    }
}

/// Displacement with which the force field repels the center away from the
/// probe point.
pub open spec fn repel_spec(point: Vec2, center: Vec2) -> (int, int) {
    repel_of_diff(center.x - point.x, center.y - point.y)
}

/// A component of the difference vector never exceeds the floored magnitude.
pub proof fn lemma_component_le_mag(dx: int, dy: int)
    ensures
        vstd::math::abs(dx) <= sqrt_floor((dx * dx + dy * dy) as nat) as int,
        vstd::math::abs(dy) <= sqrt_floor((dx * dx + dy * dy) as nat) as int,
{
    assert(dx * dx >= 0 && dy * dy >= 0) by (nonlinear_arith);
    let d2 = dx * dx + dy * dy;
    let m = sqrt_floor(d2 as nat) as int;
    crate::geom::lemma_sqrt_floor_bounds(d2 as nat);
    let ax = vstd::math::abs(dx) as int;
    if ax > m {
        assert(ax * ax >= (m + 1) * (m + 1)) by (nonlinear_arith)
            requires
                0 <= m + 1 <= ax,
        ;
        assert(ax * ax == dx * dx) by (nonlinear_arith)
            requires
                ax == vstd::math::abs(dx),
        ;
    }
    let ay = vstd::math::abs(dy) as int;
    if ay > m {
        assert(ay * ay >= (m + 1) * (m + 1)) by (nonlinear_arith)
            requires
                0 <= m + 1 <= ay,
        ;
        assert(ay * ay == dy * dy) by (nonlinear_arith)
            requires
                ay == vstd::math::abs(dy),
        ;
    }
}

/// One signed component `f * f * n / (m * FORCE_DIV * s_den)`, computed with
/// unsigned 128-bit intermediates and the sign reapplied.
fn weighted_component(n: i128, f: i64, m: i64, s_den: i64) -> (r: i64)
    requires
        1 <= f <= FORCE_RANGE,
        1 <= m <= 300_000_000,
        1 <= s_den <= 90_000_000_000_000_000,
        -((m as int) * (s_den as int)) <= n as int <= (m as int) * (s_den as int),
    ensures
        r as int == tdiv(f * f * n, m * FORCE_DIV * s_den),
        -FORCE_RANGE <= r <= FORCE_RANGE,
{
    proof {
        assert((m as int) * (s_den as int) <= 27_000_000_000_000_000_000_000_000int)
            by (nonlinear_arith)
            requires
                1 <= m <= 300_000_000 && 1 <= s_den <= 90_000_000_000_000_000,
        ;
        assert((m as int) * (s_den as int) >= 1) by (nonlinear_arith)
            requires
                m >= 1 && s_den >= 1,
        ;
    }
    let neg = n < 0;
    let a: u128 = if neg {
        (-n) as u128
    } else {
        n as u128
    };
    proof {
        assert(a as int <= (m as int) * (s_den as int));
        assert((f as int) * (f as int) <= 10_000_000_000) by (nonlinear_arith)
            requires
                1 <= f <= 100_000,
        ;
        assert((f as int) * (f as int) >= 0) by (nonlinear_arith);
        assert((f as int) * (f as int) * (a as int) <= 10_000_000_000
            * 27_000_000_000_000_000_000_000_000int) by (nonlinear_arith)
            requires
                0 <= (f as int) * (f as int) <= 10_000_000_000 && 0 <= a
                    <= 27_000_000_000_000_000_000_000_000int,
        ;
        assert((f as int) * (f as int) * (a as int) >= 0) by (nonlinear_arith)
            requires
                (f as int) * (f as int) >= 0 && a >= 0,
        ;
        assert((m as int) * (100_000 as int) * (s_den as int)
            <= 27_000_000_000_000_000_000_000_000int * 100_000int) by (nonlinear_arith)
            requires
                0 <= (m as int) * (s_den as int) <= 27_000_000_000_000_000_000_000_000int,
        ;
        assert((m as int) * 100_000 * (s_den as int) >= 100_000) by (nonlinear_arith)
            requires
                m >= 1 && s_den >= 1,
        ;
    }
    let num: u128 = (f as u128) * (f as u128) * a;
    let den: u128 = (m as u128) * (FORCE_DIV as u128) * (s_den as u128);
    let q: u128 = num / den;
    proof {
        lemma_fundamental_div_mod(num as int, den as int);
        lemma_mod_bound(num as int, den as int);
        let r_mod = num as int % den as int;
        assert(q <= 100_000) by (nonlinear_arith)
            requires
                num as int == (den as int) * (q as int) + r_mod,
                r_mod >= 0,
                num as int == (f as int) * (f as int) * (a as int),
                den as int == (m as int) * 100_000 * (s_den as int),
                a as int <= (m as int) * (s_den as int),
                1 <= f <= 100_000,
                1 <= m,
                1 <= s_den,
                0 <= q,
        ;
    }
    let qi: i64 = q as i64;
    proof {
        if neg {
            lemma_tdiv_neg(f * f * (a as int), m * FORCE_DIV * s_den);
            assert(f * f * (-(a as int)) == -(f * f * (a as int))) by (nonlinear_arith);
            assert(f * f * (n as int) == f * f * (-(a as int)));
        } else {
            assert(f * f * (n as int) >= 0) by (nonlinear_arith)
                requires
                    f >= 0 && n >= 0,
            ;
        }
    }
    if neg {
        -qi
    } else {
        qi
    }
}

/// Displacement with which the force field pushes `center` away from `point`:
/// quadratic falloff inside the interaction range, zero outside it and zero
/// when the probe sits exactly on the center.
pub fn repel(point: Vec2, center: Vec2) -> (r: Vec2)
    requires
        point.in_range(),
        center.in_range(),
    ensures
        (r.x as int, r.y as int) == repel_spec(point, center),
        r.bounded(FORCE_RANGE as int),
{
    let diff = center.sub(point);
    let m = magnitude(diff);
    proof {
        lemma_component_le_mag(diff.x as int, diff.y as int);
    }
    if m == 0 || m >= FORCE_RANGE {
        Vec2 { x: 0, y: 0 }
    } else {
        let f = FORCE_RANGE - m;
        let rx = weighted_component(diff.x as i128, f, m, 1);
        let ry = weighted_component(diff.y as i128, f, m, 1);
        Vec2 { x: rx, y: ry }
    }
}

/// Beyond the interaction range the repulsion vanishes: for all difference
/// vectors whose squared length is at least `FORCE_RANGE` squared, the
/// displacement is the zero vector.
pub proof fn lemma_repel_beyond_range_is_zero(point: Vec2, center: Vec2)
    requires
        dist2_spec(point, center) >= FORCE_RANGE * FORCE_RANGE,
    ensures
        repel_spec(point, center) == (0int, 0int),
{
    let dx = center.x - point.x;
    let dy = center.y - point.y;
    let d2 = dx * dx + dy * dy;
    crate::geom::lemma_sqrt_floor_bounds(d2 as nat);
    let m = sqrt_floor(d2 as nat) as int;
    if m < FORCE_RANGE {
        assert((m + 1) * (m + 1) <= FORCE_RANGE * FORCE_RANGE) by (nonlinear_arith)
            requires
                0 <= m + 1 <= FORCE_RANGE,
        ;
    }
}

/// At the center the repulsion is zero: the documented degenerate case, not a
/// defect.
pub proof fn lemma_repel_at_center_is_zero(p: Vec2)
    ensures
        repel_spec(p, p) == (0int, 0int),
{
    assert(sqrt_floor(0) == 0);
}

/// A quarter turn of the probe point about the center turns the displacement
/// by the same quarter turn: rotational symmetry of the force field, at the
/// one angle that integer coordinates represent exactly.  Mapping the
/// difference vector `(dx, dy)` to `(-dy, dx)` is the same as rotating the
/// probe point a quarter turn about the center.
pub proof fn lemma_repel_quarter_turn(dx: int, dy: int)
    ensures
        repel_of_diff(-dy, dx).0 == -repel_of_diff(dx, dy).1,
        repel_of_diff(-dy, dx).1 == repel_of_diff(dx, dy).0,
{
    assert((-dy) * (-dy) == dy * dy) by (nonlinear_arith);
    let d2 = dx * dx + dy * dy;
    let m = sqrt_floor(d2 as nat) as int;
    if !(m == 0 || m >= FORCE_RANGE) {
        let f = FORCE_RANGE - m;
        lemma_tdiv_neg(f * f * dy, m * FORCE_DIV);
        assert(f * f * (-dy) == -(f * f * dy)) by (nonlinear_arith);
    }
}

/// The repulsion bent toward a goal.  The radial push of `repel_of_diff` is
/// blended with the perpendicular direction `(dy, -dx) / m`: the radial part
/// weighs `1 - |cos a|` where `a` is the angle at the center between the goal
/// and the probe, and the perpendicular part weighs the rest.  The weight is
/// the exact rational `s_num / s_den` and the blend is one truncating
/// division per component; a goal on the center leaves the push purely
/// radial.
pub open spec fn repel_towards_of_diff(dx: int, dy: int, tx: int, ty: int) -> (int, int) {
    let m = sqrt_floor((dx * dx + dy * dy) as nat) as int;
    if m == 0 || m >= FORCE_RANGE {
        (0, 0)
    } else {
        let f = FORCE_RANGE - m;
        let tm = sqrt_floor((tx * tx + ty * ty) as nat) as int;
        let adot = vstd::math::abs(tx * dx + ty * dy) as int;
        let s_den = if tm == 0 {
            1int
        } else {
            tm * m
        };
        let s_num = if tm == 0 {
            1int
        } else if adot < s_den {
            s_den - adot
        } else {
            0int
        };
        (
            tdiv(f * f * (dx * s_num + dy * (s_den - s_num)), m * FORCE_DIV * s_den),
            tdiv(f * f * (dy * s_num - dx * (s_den - s_num)), m * FORCE_DIV * s_den),
        )
    }
}

/// Displacement of the goal-seeking variant for a probe at `point`, a
/// repelled `center` and a `goal` the center curves toward.
pub open spec fn repel_towards_spec(point: Vec2, center: Vec2, goal: Vec2) -> (int, int) {
    repel_towards_of_diff(
        center.x - point.x,
        center.y - point.y,
        goal.x - center.x,
        goal.y - center.y,
    )
}

/// Displacement of the goal-seeking variant: the push away from `point` bent
/// sideways so that `center` can curve toward `goal` instead of retreating
/// straight away.
pub fn repel_towards(point: Vec2, center: Vec2, goal: Vec2) -> (r: Vec2)
    requires
        point.in_range(),
        center.in_range(),
        goal.in_range(),
    ensures
        (r.x as int, r.y as int) == repel_towards_spec(point, center, goal),
        r.bounded(FORCE_RANGE as int),
{
    let diff = center.sub(point);
    let m = magnitude(diff);
    proof {
        lemma_component_le_mag(diff.x as int, diff.y as int);
    }
    if m == 0 || m >= FORCE_RANGE {
        return Vec2 { x: 0, y: 0 };
    }
    let f = FORCE_RANGE - m;
    let t = goal.sub(center);
    let tm = magnitude(t);
    proof {
        assert(-40_000_000_000_000_000 <= (t.x as int) * (diff.x as int)
            <= 40_000_000_000_000_000) by (nonlinear_arith)
            requires
                -200_000_000 <= t.x <= 200_000_000 && -200_000_000 <= diff.x <= 200_000_000,
        ;
        assert(-40_000_000_000_000_000 <= (t.y as int) * (diff.y as int)
            <= 40_000_000_000_000_000) by (nonlinear_arith)
            requires
                -200_000_000 <= t.y <= 200_000_000 && -200_000_000 <= diff.y <= 200_000_000,
        ;
    }
    let dot: i64 = t.x * diff.x + t.y * diff.y;
    let adot: i64 = if dot < 0 {
        -dot
    } else {
        dot
    };
    let s_num: i64;
    let s_den: i64;
    if tm == 0 {
        s_num = 1;
        s_den = 1;
    } else {
        proof {
            assert(1 <= (tm as int) * (m as int) <= 90_000_000_000_000_000) by (nonlinear_arith)
                requires
                    1 <= tm <= 300_000_000 && 1 <= m <= 300_000_000,
            ;
        }
        let sd = tm * m;
        s_den = sd;
        s_num = if adot < sd {
            sd - adot
        } else {
            0
        };
    }
    proof {
        assert(-18_000_000_000_000_000_000_000_000int <= (diff.x as int) * (s_num as int)
            <= 18_000_000_000_000_000_000_000_000int) by (nonlinear_arith)
            requires
                -200_000_000 <= diff.x <= 200_000_000 && 0 <= s_num <= 90_000_000_000_000_000,
        ;
        assert(-18_000_000_000_000_000_000_000_000int <= (diff.y as int) * ((s_den - s_num) as int)
            <= 18_000_000_000_000_000_000_000_000int) by (nonlinear_arith)
            requires
                -200_000_000 <= diff.y <= 200_000_000 && 0 <= s_den - s_num
                    <= 90_000_000_000_000_000,
        ;
        assert(-18_000_000_000_000_000_000_000_000int <= (diff.y as int) * (s_num as int)
            <= 18_000_000_000_000_000_000_000_000int) by (nonlinear_arith)
            requires
                -200_000_000 <= diff.y <= 200_000_000 && 0 <= s_num <= 90_000_000_000_000_000,
        ;
        assert(-18_000_000_000_000_000_000_000_000int <= (diff.x as int) * ((s_den - s_num) as int)
            <= 18_000_000_000_000_000_000_000_000int) by (nonlinear_arith)
            requires
                -200_000_000 <= diff.x <= 200_000_000 && 0 <= s_den - s_num
                    <= 90_000_000_000_000_000,
        ;
    }
    let nx: i128 = (diff.x as i128) * (s_num as i128) + (diff.y as i128) * ((s_den - s_num)
        as i128);
    let ny: i128 = (diff.y as i128) * (s_num as i128) - (diff.x as i128) * ((s_den - s_num)
        as i128);
    proof {
        assert(-((m as int) * (s_den as int)) <= nx as int <= (m as int) * (s_den as int))
            by (nonlinear_arith)
            requires
                -(m as int) <= diff.x as int <= m as int,
                -(m as int) <= diff.y as int <= m as int,
                0 <= s_num <= s_den,
                nx as int == (diff.x as int) * (s_num as int) + (diff.y as int) * ((s_den
                    - s_num) as int),
        ;
        assert(-((m as int) * (s_den as int)) <= ny as int <= (m as int) * (s_den as int))
            by (nonlinear_arith)
            requires
                -(m as int) <= diff.x as int <= m as int,
                -(m as int) <= diff.y as int <= m as int,
                0 <= s_num <= s_den,
                ny as int == (diff.y as int) * (s_num as int) - (diff.x as int) * ((s_den
                    - s_num) as int),
        ;
    }
    let rx = weighted_component(nx, f, m, s_den);
    let ry = weighted_component(ny, f, m, s_den);
    Vec2 { x: rx, y: ry }
}

/// With the goal on the center the bent push reduces to the radial one.
pub proof fn lemma_repel_towards_goal_at_center(dx: int, dy: int)
    ensures
        repel_towards_of_diff(dx, dy, 0, 0) == repel_of_diff(dx, dy),
{
    assert(sqrt_floor(0) == 0);
    let m = sqrt_floor((dx * dx + dy * dy) as nat) as int;
    if !(m == 0 || m >= FORCE_RANGE) {
        let f = FORCE_RANGE - m;
        assert(dx * 1 + dy * (1 - 1) == dx) by (nonlinear_arith);
        assert(dy * 1 - dx * (1 - 1) == dy) by (nonlinear_arith);
        assert(m * FORCE_DIV * 1 == m * FORCE_DIV) by (nonlinear_arith);
    }
}

} // verus!
