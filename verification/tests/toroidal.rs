use press_to_start::geom::{inter_area, rect_intersects_screen, Rect};
use press_to_start::wrap::{candidates, pick_canonical};

#[test]
fn no_candidates_for_rect_inside_bounds() {
    let r = Rect::new(10, 10, 100, 50);
    let out = candidates(r, 800, 600);
    assert!(out.is_empty());
}

#[test]
fn left_edge_alone_yields_one_candidate() {
    let r = Rect::new(-10, 10, 100, 50);
    let out = candidates(r, 800, 600);
    assert_eq!(out, vec![Rect::new(790, 10, 100, 50)]);
}

#[test]
fn top_edge_alone_yields_one_candidate() {
    let r = Rect::new(10, -10, 100, 50);
    let out = candidates(r, 800, 600);
    assert_eq!(out, vec![Rect::new(10, 590, 100, 50)]);
}

#[test]
fn right_edge_alone_yields_one_candidate() {
    let r = Rect::new(750, 10, 100, 50);
    let out = candidates(r, 800, 600);
    assert_eq!(out, vec![Rect::new(-50, 10, 100, 50)]);
}

#[test]
fn bottom_edge_alone_yields_one_candidate() {
    let r = Rect::new(10, 580, 100, 50);
    let out = candidates(r, 800, 600);
    assert_eq!(out, vec![Rect::new(10, -20, 100, 50)]);
}

#[test]
fn top_left_corner_yields_three_candidates() {
    // Crossing left and top yields the left, top and top-left diagonal
    // candidates — no right or bottom one.
    let r = Rect::new(-10, -5, 100, 50);
    let out = candidates(r, 800, 600);
    assert_eq!(
        out,
        vec![
            Rect::new(790, -5, 100, 50),
            Rect::new(-10, 595, 100, 50),
            Rect::new(790, 595, 100, 50),
        ]
    );
}

#[test]
fn all_edges_yield_eight_candidates_in_order() {
    let r = Rect::new(-10, -5, 820, 620);
    let out = candidates(r, 800, 600);
    assert_eq!(
        out,
        vec![
            Rect::new(790, -5, 820, 620),
            Rect::new(-10, 595, 820, 620),
            Rect::new(-810, -5, 820, 620),
            Rect::new(-10, -605, 820, 620),
            Rect::new(790, 595, 820, 620),
            Rect::new(-810, 595, 820, 620),
            Rect::new(-810, -605, 820, 620),
            Rect::new(790, -605, 820, 620),
        ]
    );
}

#[test]
fn intersection_area_values() {
    assert_eq!(inter_area(Rect::new(0, 0, 3, 4), 100, 100), 12);
    assert_eq!(inter_area(Rect::new(-10, 0, 10, 10), 100, 100), 0);
    assert_eq!(inter_area(Rect::new(95, 95, 10, 10), 100, 100), 25);
    assert_eq!(inter_area(Rect::new(-200, 0, 10, 10), 100, 100), 0);
}

#[test]
fn touching_edge_still_counts_as_intersecting() {
    // Zero-area contact keeps the primary canonical.
    assert!(rect_intersects_screen(Rect::new(-10, 0, 10, 10), 100, 100));
    assert!(!rect_intersects_screen(Rect::new(-11, 0, 10, 10), 100, 100));
}

#[test]
fn pick_canonical_keeps_intersecting_primary() {
    let primary = Rect::new(90, 90, 20, 20);
    let cands = vec![Rect::new(0, 0, 50, 50)];
    assert_eq!(pick_canonical(primary, &cands, 100, 100), primary);
}

#[test]
fn pick_canonical_takes_largest_area() {
    // Candidate screen-intersection areas {0, 12, 40, 5}: the area-40
    // candidate wins.
    let primary = Rect::new(-50, -50, 10, 10);
    let c0 = Rect::new(-10, 0, 10, 10);
    let c1 = Rect::new(0, 0, 3, 4);
    let c2 = Rect::new(0, 0, 5, 8);
    let c3 = Rect::new(0, 0, 1, 5);
    let cands = vec![c0, c1, c2, c3];
    assert_eq!(pick_canonical(primary, &cands, 100, 100), c2);
}

#[test]
fn pick_canonical_tie_resolves_to_earliest() {
    let primary = Rect::new(-50, -50, 10, 10);
    let c1 = Rect::new(0, 0, 8, 5);
    let c2 = Rect::new(10, 10, 5, 8);
    let cands = vec![c1, c2];
    assert_eq!(pick_canonical(primary, &cands, 100, 100), c1);
}

#[test]
fn pick_canonical_unchanged_without_overlap() {
    let primary = Rect::new(-50, -50, 10, 10);
    let cands = vec![Rect::new(-30, -30, 10, 10), Rect::new(200, 200, 10, 10)];
    assert_eq!(pick_canonical(primary, &cands, 100, 100), primary);
}
