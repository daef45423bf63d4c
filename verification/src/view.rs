//! Small render-support decisions: where a tooltip anchors relative to the
//! widget, how strong the pointer-proximity halo glows, and how a stage's
//! pointer source maps a raw pointer sample to the position its controls
//! see.

use crate::geom::{clamp_coord, clamp_to_coord, Rect, Vec2, MAX_SCREEN};
use crate::force::FORCE_RANGE;
use vstd::prelude::*;

verus! {

/// Which side of its reference point a tooltip grows toward.
#[derive(Clone, Copy, PartialEq, Eq, Structural, Debug)]
pub enum HorizontalSide {
    Left,
    Right,
}

/// Which vertical side of its reference point a tooltip grows toward.
#[derive(Clone, Copy, PartialEq, Eq, Structural, Debug)]
pub enum VerticalSide {
    Top,
    Bottom,
}

/// Anchor of a tooltip: the rectangle's center, growing toward the screen
/// half the center lies in.
#[derive(Clone, Copy, PartialEq, Eq, Structural, Debug)]
pub struct TooltipAnchor {
    pub horizontal: HorizontalSide,
    pub vertical: VerticalSide,
    pub at: Vec2,
}

/// Anchor for a tooltip beside `next_to`: anchored at the rectangle's
/// center, growing left/top while the center sits in the left/top half of
/// the screen and right/bottom otherwise.
pub fn tooltip_anchor(sw: i64, sh: i64, next_to: Rect) -> (a: TooltipAnchor)
    requires
        next_to.arena_ok(),
        0 <= sw <= MAX_SCREEN,
        0 <= sh <= MAX_SCREEN,
    ensures
        (a.at.x as int, a.at.y as int) == next_to.center_spec(),
        a.horizontal == (if 2 * next_to.center_spec().0 < sw {
            HorizontalSide::Left
        } else {
            HorizontalSide::Right
        }),
        a.vertical == (if 2 * next_to.center_spec().1 < sh {
            VerticalSide::Top
        } else {
            VerticalSide::Bottom
        }),
{
    let c = next_to.center();
    let horizontal = if 2 * c.x < sw {
        HorizontalSide::Left
    } else {
        HorizontalSide::Right
    };
    let vertical = if 2 * c.y < sh {
        VerticalSide::Top
    } else {
        VerticalSide::Bottom
    };
    TooltipAnchor { horizontal, vertical, at: c }
}

/// Opacity of the halo around the widget, in milli-units: one third of the
/// fraction of twice the force range still remaining to the pointer,
/// clamped to [0, 500].
pub open spec fn halo_alpha_spec(d: i64) -> int {
    if d >= 2 * FORCE_RANGE {
        0
    } else if (2 * FORCE_RANGE - d) / 600 > 500 {
        500
    } else {
        (2 * FORCE_RANGE - d) / 600
    }
}

/// Halo opacity in milli-units for a pointer at distance `d` subpixels from
/// the widget center.
pub fn halo_alpha(d: i64) -> (a: i64)
    requires
        0 <= d,
    ensures
        a == halo_alpha_spec(d),
        0 <= a <= 500,
{
    if d >= 2 * FORCE_RANGE {
        0
    } else {
        let raw = (2 * FORCE_RANGE - d) / 600;
        if raw > 500 {
            500
        } else {
            raw
        }
    }
}

/// How a stage samples the pointer: directly, or through a fixed origin
/// offset that simulates a grabbed cursor, so a control's interaction is
/// independent of where the system pointer visually sits.
#[derive(Clone, Copy, PartialEq, Eq, Structural, Debug)]
pub enum PointerSource {
    Direct,
    Offset(Vec2),
}

impl PointerSource {
    /// The offset, if any, stays within the coordinate range.
    pub open spec fn wf(self) -> bool {
        match self {
            PointerSource::Direct => true,
            PointerSource::Offset(o) => o.in_range(),
        }
    }

    /// The position a stage's controls see for a raw pointer sample: the
    /// sample itself, or the sample plus the fixed origin, clamped into the
    /// library's coordinate range.
    pub open spec fn adjust_spec(self, raw: Vec2) -> Vec2 {
        match self {
            PointerSource::Direct => raw,
            PointerSource::Offset(o) => Vec2 {
                x: clamp_coord(raw.x + o.x) as i64,
                y: clamp_coord(raw.y + o.y) as i64,
            },
        }
    }

    /// Maps a raw pointer sample to the position the stage's controls see.
    pub fn adjust(self, raw: Vec2) -> (p: Vec2)
        requires
            self.wf(),
            raw.in_range(),
        ensures
            p == self.adjust_spec(raw),
            p.in_range(),
    {
        match self {
            PointerSource::Direct => raw,
            PointerSource::Offset(o) => Vec2 {
                x: clamp_to_coord(raw.x + o.x),
                y: clamp_to_coord(raw.y + o.y),
            },
        }
    }
}

} // verus!
