use press_to_start::force::{repel, repel_towards};
use press_to_start::geom::{dist, isqrt64, magnitude, Vec2};

#[test]
fn isqrt_small_values() {
    assert_eq!(isqrt64(0), 0);
    assert_eq!(isqrt64(1), 1);
    assert_eq!(isqrt64(3), 1);
    assert_eq!(isqrt64(4), 2);
    assert_eq!(isqrt64(15), 3);
    assert_eq!(isqrt64(16), 4);
    assert_eq!(isqrt64(1_000_000), 1000);
}

#[test]
fn isqrt_largest_input() {
    assert_eq!(isqrt64(u64::MAX), 4_294_967_295);
}

#[test]
fn magnitude_of_pythagorean_triple() {
    assert_eq!(magnitude(Vec2::new(300, 400)), 500);
    assert_eq!(magnitude(Vec2::new(-300, 400)), 500);
    assert_eq!(magnitude(Vec2::new(0, 0)), 0);
    // |(1, 1)| floors to 1
    assert_eq!(magnitude(Vec2::new(1, 1)), 1);
}

#[test]
fn dist_between_points() {
    assert_eq!(dist(Vec2::new(0, 0), Vec2::new(300, 400)), 500);
    assert_eq!(dist(Vec2::new(100, 100), Vec2::new(100, 100)), 0);
}

#[test]
fn repel_zero_at_exact_range() {
    // |P - C| == 100 pixels exactly: the push vanishes.
    let r = repel(Vec2::new(0, 0), Vec2::new(100_000, 0));
    assert_eq!((r.x, r.y), (0, 0));
}

#[test]
fn repel_zero_beyond_range() {
    let r = repel(Vec2::new(0, 0), Vec2::new(100_001, 0));
    assert_eq!((r.x, r.y), (0, 0));
    let r = repel(Vec2::new(0, 0), Vec2::new(2_000_000, 2_000_000));
    assert_eq!((r.x, r.y), (0, 0));
}

#[test]
fn repel_zero_at_center() {
    // The documented degenerate case: the pointer exactly on the center.
    let r = repel(Vec2::new(42, 17), Vec2::new(42, 17));
    assert_eq!((r.x, r.y), (0, 0));
}

#[test]
fn repel_quadratic_falloff_exact() {
    // 50 pixels away: f = 50_000, displacement = f^2 / FORCE_DIV = 25_000
    // subpixels (25 px) straight along the diff.
    let r = repel(Vec2::new(0, 0), Vec2::new(50_000, 0));
    assert_eq!((r.x, r.y), (25_000, 0));
    // Same off the axis: diff (30_000, 40_000), |diff| = 50_000.
    let r = repel(Vec2::new(0, 0), Vec2::new(30_000, 40_000));
    assert_eq!((r.x, r.y), (15_000, 20_000));
}

#[test]
fn repel_quarter_turn_symmetry() {
    // Rotating the diff a quarter turn rotates the displacement the same way.
    let r = repel(Vec2::new(0, 0), Vec2::new(30_000, 40_000));
    let rot = repel(Vec2::new(0, 0), Vec2::new(-40_000, 30_000));
    assert_eq!((rot.x, rot.y), (-r.y, r.x));
    let rot2 = repel(Vec2::new(0, 0), Vec2::new(-30_000, -40_000));
    assert_eq!((rot2.x, rot2.y), (-rot.y, rot.x));
}

#[test]
fn repel_towards_goal_on_center_is_radial() {
    let radial = repel(Vec2::new(0, 0), Vec2::new(50_000, 0));
    let bent = repel_towards(Vec2::new(0, 0), Vec2::new(50_000, 0), Vec2::new(50_000, 0));
    assert_eq!((bent.x, bent.y), (radial.x, radial.y));
}

#[test]
fn repel_towards_goal_behind_pushes_sideways() {
    // Goal straight behind the center as seen from the probe: |cos| = 1, so
    // the push is fully tangential (a quarter turn right of the diff).
    let bent = repel_towards(Vec2::new(0, 0), Vec2::new(50_000, 0), Vec2::new(100_000, 0));
    assert_eq!((bent.x, bent.y), (0, -25_000));
}

#[test]
fn repel_towards_goal_perpendicular_is_radial() {
    // Goal at a right angle: cos = 0, the push stays radial.
    let bent = repel_towards(Vec2::new(0, 0), Vec2::new(50_000, 0), Vec2::new(50_000, 70_000));
    assert_eq!((bent.x, bent.y), (25_000, 0));
}

#[test]
fn repel_towards_zero_at_center() {
    let bent = repel_towards(Vec2::new(7, 7), Vec2::new(7, 7), Vec2::new(100, 100));
    assert_eq!((bent.x, bent.y), (0, 0));
}
