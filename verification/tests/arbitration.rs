use press_to_start::arbiter::{interact, resolve, Interaction, PointerState};
use press_to_start::geom::{Rect, Vec2};

fn pointer(x: i64, y: i64, pressed: bool, down: bool, released: bool) -> PointerState {
    PointerState { pos: Vec2::new(x, y), pressed, down, released }
}

#[test]
fn hover_inside_without_buttons() {
    let r = Rect::new(0, 0, 10, 10);
    let (i, armed) = interact(r, pointer(5, 5, false, false, false), false);
    assert_eq!(i, Interaction::Hovered);
    assert!(!armed);
}

#[test]
fn idle_outside() {
    let r = Rect::new(0, 0, 10, 10);
    let (i, armed) = interact(r, pointer(50, 5, false, false, false), false);
    assert_eq!(i, Interaction::Idle);
    assert!(!armed);
}

#[test]
fn contains_is_edge_inclusive() {
    let r = Rect::new(0, 0, 10, 10);
    let (i, _) = interact(r, pointer(10, 10, false, false, false), false);
    assert_eq!(i, Interaction::Hovered);
    let (i, _) = interact(r, pointer(0, 0, false, false, false), false);
    assert_eq!(i, Interaction::Hovered);
    let (i, _) = interact(r, pointer(11, 10, false, false, false), false);
    assert_eq!(i, Interaction::Idle);
}

#[test]
fn press_then_release_inside_clicks() {
    let r = Rect::new(0, 0, 10, 10);
    let (i, armed) = interact(r, pointer(5, 5, true, true, false), false);
    assert_eq!(i, Interaction::Pressed);
    assert!(armed);
    let (i, armed) = interact(r, pointer(6, 6, false, true, false), armed);
    assert_eq!(i, Interaction::Pressed);
    assert!(armed);
    let (i, armed) = interact(r, pointer(7, 7, false, false, true), armed);
    assert_eq!(i, Interaction::Clicked);
    assert!(!armed);
}

#[test]
fn leaving_bounds_cancels_the_press() {
    let r = Rect::new(0, 0, 10, 10);
    let (_, armed) = interact(r, pointer(5, 5, true, true, false), false);
    assert!(armed);
    // The pointer leaves while the button is held: the press disarms.
    let (i, armed) = interact(r, pointer(50, 5, false, true, false), armed);
    assert_eq!(i, Interaction::Idle);
    assert!(!armed);
    // Releasing back inside no longer clicks.
    let (i, _) = interact(r, pointer(5, 5, false, false, true), armed);
    assert_eq!(i, Interaction::Hovered);
}

#[test]
fn release_without_press_does_not_click() {
    let r = Rect::new(0, 0, 10, 10);
    let (i, _) = interact(r, pointer(5, 5, false, false, true), false);
    assert_eq!(i, Interaction::Hovered);
}

#[test]
fn primary_click_wins_over_candidates() {
    // The primary registers the click; a candidate under the same pointer
    // position never wins.
    let primary = Rect::new(0, 0, 10, 10);
    let cands = vec![Rect::new(0, 0, 10, 10), Rect::new(2, 2, 10, 10)];
    let p = pointer(5, 5, false, false, true);
    let (winner, i, armed) = resolve(primary, &cands, p, true);
    assert_eq!(winner, primary);
    assert_eq!(i, Interaction::Clicked);
    assert!(!armed);
}

#[test]
fn second_candidate_wins_when_first_is_idle() {
    // Primary and the first candidate miss the pointer; the second candidate
    // is clicked, and a later clicked candidate never wins.
    let primary = Rect::new(100, 100, 10, 10);
    let c0 = Rect::new(200, 200, 10, 10);
    let c1 = Rect::new(0, 0, 10, 10);
    let c2 = Rect::new(2, 2, 10, 10);
    let cands = vec![c0, c1, c2];
    let p = pointer(5, 5, false, false, true);
    let (winner, i, _) = resolve(primary, &cands, p, true);
    assert_eq!(winner, c1);
    assert_eq!(i, Interaction::Clicked);
}

#[test]
fn no_interaction_returns_primary_idle() {
    let primary = Rect::new(100, 100, 10, 10);
    let cands = vec![Rect::new(200, 200, 10, 10)];
    let p = pointer(5, 5, false, false, false);
    let (winner, i, armed) = resolve(primary, &cands, p, false);
    assert_eq!(winner, primary);
    assert_eq!(i, Interaction::Idle);
    assert!(!armed);
}

#[test]
fn hover_on_candidate_wins_without_click() {
    let primary = Rect::new(100, 100, 10, 10);
    let c0 = Rect::new(0, 0, 10, 10);
    let cands = vec![c0];
    let p = pointer(5, 5, false, false, false);
    let (winner, i, _) = resolve(primary, &cands, p, false);
    assert_eq!(winner, c0);
    assert_eq!(i, Interaction::Hovered);
}
