use press_to_start::geom::{Rect, Vec2};
use press_to_start::rocket::{
    mouse_hitbox, rocket_front, rocket_hits, rocket_shape, rocket_step, scale_to, spawn_rocket,
    Rocket, MOUSE_HITBOX_H, MOUSE_HITBOX_W,
};

#[test]
fn scale_to_rescales_along_direction() {
    let v = scale_to(Vec2::new(300, 400), 1000);
    assert_eq!((v.x, v.y), (600, 800));
    let v = scale_to(Vec2::new(0, -5), 10_000);
    assert_eq!((v.x, v.y), (0, -10_000));
    let v = scale_to(Vec2::new(0, 0), 10_000);
    assert_eq!((v.x, v.y), (0, 0));
}

#[test]
fn spawn_sits_above_the_widget_aimed_up() {
    let widget = Rect::new(0, 0, 100, 60);
    let r = spawn_rocket(widget);
    assert_eq!((r.pos.x, r.pos.y), (50, -30));
    assert_eq!((r.dir.x, r.dir.y), (0, -1000));
}

#[test]
fn rocket_step_holds_speed_and_advances() {
    // Rocket flying straight up, pointer dead ahead, widget behind: all
    // accelerations stay on the axis and the speed is held at 10 000.
    let r = Rocket { pos: Vec2::new(0, 0), dir: Vec2::new(0, -10_000) };
    let out = rocket_step(r, Vec2::new(0, -20_000), Vec2::new(0, 10_000));
    assert_eq!((out.pos.x, out.pos.y), (0, -10_000));
    assert_eq!((out.dir.x, out.dir.y), (0, -10_000));
}

#[test]
fn rocket_front_leads_by_half_a_length() {
    let r = Rocket { pos: Vec2::new(0, 0), dir: Vec2::new(0, -10_000) };
    let f = rocket_front(r);
    assert_eq!((f.x, f.y), (0, -20_000));
    let r = Rocket { pos: Vec2::new(1000, 2000), dir: Vec2::new(10_000, 0) };
    let f = rocket_front(r);
    assert_eq!((f.x, f.y), (21_000, 2000));
}

#[test]
fn rocket_hits_edge_inclusive() {
    let r = Rocket { pos: Vec2::new(0, 0), dir: Vec2::new(0, -10_000) };
    // front at (0, -20_000)
    assert!(rocket_hits(r, Rect::new(-5_000, -25_000, 10_000, 10_000)));
    assert!(rocket_hits(r, Rect::new(0, -20_000, 10, 10)));
    assert!(!rocket_hits(r, Rect::new(1, -20_000, 10, 10)));
}

#[test]
fn mouse_hitbox_offsets_and_size() {
    let hb = mouse_hitbox(Vec2::new(100_000, 50_000));
    assert_eq!(hb, Rect::new(98_000, 48_000, MOUSE_HITBOX_W, MOUSE_HITBOX_H));
}

#[test]
fn rocket_shape_vertices() {
    let r = Rocket { pos: Vec2::new(0, 0), dir: Vec2::new(10_000, 0) };
    let s = rocket_shape(r);
    assert_eq!((s.front.x, s.front.y), (20_000, 0));
    assert_eq!((s.back.x, s.back.y), (-20_000, 0));
    assert_eq!((s.left.x, s.left.y), (0, -7_500));
    assert_eq!((s.right.x, s.right.y), (0, 7_500));
    assert_eq!((s.left_wing.x, s.left_wing.y), (-24_000, -7_500));
    assert_eq!((s.right_wing.x, s.right_wing.y), (-24_000, 7_500));
}
