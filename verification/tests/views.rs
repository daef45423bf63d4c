use press_to_start::geom::{Rect, Vec2};
use press_to_start::view::{
    halo_alpha, tooltip_anchor, HorizontalSide, PointerSource, VerticalSide,
};

#[test]
fn tooltip_grows_toward_the_near_screen_half() {
    let a = tooltip_anchor(800, 600, Rect::new(90, 490, 20, 20));
    assert_eq!((a.at.x, a.at.y), (100, 500));
    assert_eq!(a.horizontal, HorizontalSide::Left);
    assert_eq!(a.vertical, VerticalSide::Bottom);

    let a = tooltip_anchor(800, 600, Rect::new(500, 90, 20, 20));
    assert_eq!(a.horizontal, HorizontalSide::Right);
    assert_eq!(a.vertical, VerticalSide::Top);
}

#[test]
fn tooltip_center_on_the_half_line_counts_as_far_half() {
    // Center exactly at sw/2: not strictly in the left half.
    let a = tooltip_anchor(800, 600, Rect::new(390, 290, 20, 20));
    assert_eq!(a.horizontal, HorizontalSide::Right);
    assert_eq!(a.vertical, VerticalSide::Bottom);
}

#[test]
fn halo_alpha_fades_with_distance() {
    assert_eq!(halo_alpha(0), 333);
    assert_eq!(halo_alpha(50_000), 250);
    assert_eq!(halo_alpha(100_000), 166);
    assert_eq!(halo_alpha(199_999), 0);
    assert_eq!(halo_alpha(200_000), 0);
    assert_eq!(halo_alpha(5_000_000), 0);
}

#[test]
fn direct_pointer_source_passes_through() {
    let p = PointerSource::Direct.adjust(Vec2::new(123, 456));
    assert_eq!((p.x, p.y), (123, 456));
}

#[test]
fn offset_pointer_source_shifts_by_its_origin() {
    let src = PointerSource::Offset(Vec2::new(10, -20));
    let p = src.adjust(Vec2::new(100, 200));
    assert_eq!((p.x, p.y), (110, 180));
}
