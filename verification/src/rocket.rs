//! The homing rocket of the projectile stage: position plus a direction held
//! at a fixed speed, accelerating toward the pointer and away from the
//! widget each frame, with its tracked front point used for collisions.

use crate::force::{lemma_component_le_mag, lemma_tdiv_neg, tdiv};
use crate::geom::{clamp_coord, clamp_to_coord, magnitude, mag_spec, Rect, Vec2, MAX_COORD};
use vstd::arithmetic::div_mod::{lemma_fundamental_div_mod, lemma_mod_bound};
use vstd::prelude::*;

verus! {

/// Rocket speed per frame: 10 pixels, in subpixel units.
pub const ROCKET_SPEED: i64 = 10_000;

/// Per-frame acceleration toward the pointer: 3 pixels.
pub const ROCKET_ACCEL_TO_POINTER: i64 = 3_000;

/// Per-frame acceleration away from the widget: 2.3 pixels.
pub const ROCKET_ACCEL_FROM_WIDGET: i64 = 2_300;

/// Half the rendered rocket length: the tracked front point sits this far
/// ahead of the rocket position, 20 pixels.
pub const ROCKET_HALF_LENGTH: i64 = 20_000;

/// Half the rendered rocket width: 7.5 pixels.
pub const ROCKET_HALF_WIDTH: i64 = 7_500;

/// 1.2 times the half length: how far behind the position the wings trail.
pub const ROCKET_WING_BACK: i64 = 24_000;

/// Width of the pointer's hitbox: 15 pixels.
pub const MOUSE_HITBOX_W: i64 = 15_000;

/// Height of the pointer's hitbox: 20 pixels.
pub const MOUSE_HITBOX_H: i64 = 20_000;

/// Offset of the hitbox origin above and left of the pointer: 2 pixels.
pub const MOUSE_HITBOX_OFF: i64 = 2_000;

/// The autonomous homing projectile of the rockets stage.
#[derive(Clone, Copy, PartialEq, Eq, Structural, Debug)]
pub struct Rocket {
    pub pos: Vec2,
    pub dir: Vec2,
}

impl Rocket {
    /// Position in range; direction no faster than the fixed speed.
    pub open spec fn wf(self) -> bool {
        self.pos.in_range() && self.dir.bounded(ROCKET_SPEED as int)
    }
}

/// The vector of (floored) length `k` along `v`; zero for a zero vector.
pub open spec fn scale_to_spec(v: Vec2, k: i64) -> (int, int) {
    let m = mag_spec(v);
    if m == 0 {
        (0, 0)
    } else {
        (tdiv(v.x * k, m), tdiv(v.y * k, m))
    }
}

/// One signed component `d * k / m`, truncating toward zero.
fn scaled_ratio(d: i64, k: i64, m: i64) -> (r: i64)
    requires
        1 <= m <= 300_000_000,
        0 <= k <= 100_000,
        -m <= d <= m,
    ensures
        r as int == tdiv(d * k, m as int),
        -k <= r <= k,
{
    let neg = d < 0;
    let a: u64 = if neg {
        (-d) as u64
    } else {
        d as u64
    };
    proof {
        assert((a as int) * (k as int) <= 30_000_000_000_000) by (nonlinear_arith)
            requires
                0 <= a <= 300_000_000 && 0 <= k <= 100_000,
        ;
        assert((a as int) * (k as int) >= 0) by (nonlinear_arith)
            requires
                a >= 0 && k >= 0,
        ;
    }
    let num: u64 = a * (k as u64);
    let q: u64 = num / (m as u64);
    proof {
        lemma_fundamental_div_mod(num as int, m as int);
        lemma_mod_bound(num as int, m as int);
        let r_mod = num as int % m as int;
        assert(q <= k) by (nonlinear_arith)
            requires
                num as int == (m as int) * (q as int) + r_mod,
                r_mod >= 0,
                num as int == (a as int) * (k as int),
                a <= m,
                1 <= m,
                0 <= k,
                0 <= q,
        ;
        if neg {
            lemma_tdiv_neg((a as int) * (k as int), m as int);
            assert((d as int) * (k as int) == -((a as int) * (k as int))) by (nonlinear_arith)
                requires
                    d as int == -(a as int),
            ;
        } else {
            assert((d as int) * (k as int) >= 0) by (nonlinear_arith)
                requires
                    d >= 0 && k >= 0,
            ;
        }
    }
    let qi: i64 = q as i64;
    if neg {
        -qi
    } else {
        qi
    }
}

/// The vector of length `k` (floored) along `v`.
pub fn scale_to(v: Vec2, k: i64) -> (out: Vec2)
    requires
        v.bounded(2 * MAX_COORD as int),
        0 <= k <= 100_000,
    ensures
        (out.x as int, out.y as int) == scale_to_spec(v, k),
        out.bounded(k as int),
{
    let m = magnitude(v);
    if m == 0 {
        return Vec2 { x: 0, y: 0 };
    }
    proof {
        lemma_component_le_mag(v.x as int, v.y as int);
    }
    let sx = scaled_ratio(v.x, k, m);
    let sy = scaled_ratio(v.y, k, m);
    Vec2 { x: sx, y: sy }
}

/// One frame of rocket motion: advance by the direction, accelerate toward
/// the pointer, accelerate away from the widget center, then hold the
/// direction at the fixed speed.  Coordinates saturate at the library's
/// range bound.
pub open spec fn rocket_step_spec(r: Rocket, mouse: Vec2, widget_center: Vec2) -> Rocket {
    let pos2 = Vec2 {
        x: clamp_coord(r.pos.x + r.dir.x) as i64,
        y: clamp_coord(r.pos.y + r.dir.y) as i64,
    };
    let to_mouse = Vec2 { x: (mouse.x - pos2.x) as i64, y: (mouse.y - pos2.y) as i64 };
    let a = scale_to_spec(to_mouse, ROCKET_ACCEL_TO_POINTER);
    let from_widget = Vec2 {
        x: (widget_center.x - pos2.x) as i64,
        y: (widget_center.y - pos2.y) as i64,
    };
    let b = scale_to_spec(from_widget, ROCKET_ACCEL_FROM_WIDGET);
    let dir_mid = Vec2 {
        x: (r.dir.x + a.0 - b.0) as i64,
        y: (r.dir.y + a.1 - b.1) as i64,
    };
    let d = scale_to_spec(dir_mid, ROCKET_SPEED);
    Rocket { pos: pos2, dir: (Vec2 { x: d.0 as i64, y: d.1 as i64 }) }
}

/// Advances the rocket by one frame.
pub fn rocket_step(r: Rocket, mouse: Vec2, widget_center: Vec2) -> (out: Rocket)
    requires
        r.wf(),
        mouse.in_range(),
        widget_center.in_range(),
    ensures
        out == rocket_step_spec(r, mouse, widget_center),
        out.wf(),
{
    let cx = clamp_to_coord(r.pos.x + r.dir.x);
    let cy = clamp_to_coord(r.pos.y + r.dir.y);
    let pos2 = Vec2 { x: cx, y: cy };
    let a = scale_to(mouse.sub(pos2), ROCKET_ACCEL_TO_POINTER);
    let b = scale_to(widget_center.sub(pos2), ROCKET_ACCEL_FROM_WIDGET);
    let dir_mid = Vec2 { x: r.dir.x + a.x - b.x, y: r.dir.y + a.y - b.y };
    let d = scale_to(dir_mid, ROCKET_SPEED);
    Rocket { pos: pos2, dir: d }
}

/// A fresh rocket: spawned just above the widget, aimed straight up at unit
/// pace until its first homing update.
pub open spec fn spawn_rocket_spec(widget: Rect) -> Rocket {
    Rocket {
        pos: Vec2 {
            x: clamp_coord(widget.center_spec().0) as i64,
            y: clamp_coord(widget.center_spec().1 - widget.h) as i64,
        },
        dir: Vec2 { x: 0, y: ((-crate::geom::SUBPIXELS) as i64) },
    }
}

/// Spawns a fresh rocket just above the widget, aimed straight up.
pub fn spawn_rocket(widget: Rect) -> (r: Rocket)
    requires
        widget.in_range(),
    ensures
        r == spawn_rocket_spec(widget),
        r.wf(),
{
    let c0 = widget.center();
    let cx = clamp_to_coord(c0.x);
    let cy = clamp_to_coord(c0.y - widget.h);
    Rocket { pos: (Vec2 { x: cx, y: cy }), dir: (Vec2 { x: 0, y: -crate::geom::SUBPIXELS }) }
}

/// The tracked front point of the rocket: half a rocket length ahead of its
/// position along its direction.
pub open spec fn rocket_front_spec(r: Rocket) -> (int, int) {
    let o = scale_to_spec(r.dir, ROCKET_HALF_LENGTH);
    (r.pos.x + o.0, r.pos.y + o.1)
}

/// The tracked front point of the rocket.
pub fn rocket_front(r: Rocket) -> (f: Vec2)
    requires
        r.wf(),
    ensures
        (f.x as int, f.y as int) == rocket_front_spec(r),
        f.bounded(MAX_COORD as int + ROCKET_HALF_LENGTH as int),
{
    let o = scale_to(r.dir, ROCKET_HALF_LENGTH);
    r.pos.add(o)
}

/// The rocket's front point lies within the target rectangle.
pub open spec fn rocket_hits_spec(r: Rocket, target: Rect) -> bool {
    let f = rocket_front_spec(r);
    target.contains_spec(Vec2 { x: f.0 as i64, y: f.1 as i64 })
}

/// Whether the rocket's tracked front point lies within `target`.
pub fn rocket_hits(r: Rocket, target: Rect) -> (hit: bool)
    requires
        r.wf(),
        target.in_span(),
    ensures
        hit == rocket_hits_spec(r, target),
{
    let f = rocket_front(r);
    target.contains(f)
}

/// The pointer's hitbox: a fixed-size rectangle anchored a fixed offset
/// above and left of the pointer position.
pub open spec fn mouse_hitbox_spec(mouse: Vec2) -> Rect {
    Rect {
        x: (mouse.x - MOUSE_HITBOX_OFF) as i64,
        y: (mouse.y - MOUSE_HITBOX_OFF) as i64,
        w: MOUSE_HITBOX_W,
        h: MOUSE_HITBOX_H,
    }
}

/// The pointer's hitbox rectangle for this frame's pointer position.
pub fn mouse_hitbox(mouse: Vec2) -> (r: Rect)
    requires
        mouse.in_range(),
    ensures
        r == mouse_hitbox_spec(mouse),
        r.in_span(),
{
    Rect {
        x: mouse.x - MOUSE_HITBOX_OFF,
        y: mouse.y - MOUSE_HITBOX_OFF,
        w: MOUSE_HITBOX_W,
        h: MOUSE_HITBOX_H,
    }
}

/// The six vertices from which the rocket is drawn, all derived from its
/// position and direction.
#[derive(Clone, Copy, PartialEq, Eq, Structural, Debug)]
pub struct RocketShape {
    pub front: Vec2,
    pub back: Vec2,
    pub left: Vec2,
    pub right: Vec2,
    pub left_wing: Vec2,
    pub right_wing: Vec2,
}

/// Vertices of the rocket's rendered shape: nose and tail half a length
/// fore and aft, flanks half a width aside, and the two wings trailing 1.2
/// lengths behind.
pub fn rocket_shape(r: Rocket) -> (s: RocketShape)
    requires
        r.wf(),
    ensures
        (s.front.x as int, s.front.y as int) == rocket_front_spec(r),
        ({
            let tf = scale_to_spec(r.dir, ROCKET_HALF_LENGTH);
            let tl = scale_to_spec(Vec2 { x: r.dir.y, y: (-r.dir.x) as i64 }, ROCKET_HALF_WIDTH);
            let tw = scale_to_spec(r.dir, ROCKET_WING_BACK);
            &&& s.back.x == r.pos.x - tf.0 && s.back.y == r.pos.y - tf.1
            &&& s.left.x == r.pos.x + tl.0 && s.left.y == r.pos.y + tl.1
            &&& s.right.x == r.pos.x - tl.0 && s.right.y == r.pos.y - tl.1
            &&& s.left_wing.x == r.pos.x - tw.0 + tl.0 && s.left_wing.y == r.pos.y - tw.1 + tl.1
            &&& s.right_wing.x == r.pos.x - tw.0 - tl.0 && s.right_wing.y == r.pos.y - tw.1 - tl.1
        }),
{
    let tf = scale_to(r.dir, ROCKET_HALF_LENGTH);
    let tl = scale_to(Vec2 { x: r.dir.y, y: -r.dir.x }, ROCKET_HALF_WIDTH);
    let tw = scale_to(r.dir, ROCKET_WING_BACK);
    RocketShape {
        front: r.pos.add(tf),
        back: r.pos.sub(tf),
        left: r.pos.add(tl),
        right: r.pos.sub(tl),
        left_wing: Vec2 { x: r.pos.x - tw.x + tl.x, y: r.pos.y - tw.y + tl.y },
        right_wing: Vec2 { x: r.pos.x - tw.x - tl.x, y: r.pos.y - tw.y - tl.y },
    }
}

} // verus!
