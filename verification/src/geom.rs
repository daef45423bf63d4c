//! Points, displacements and rectangles in integer subpixel units, with the
//! integer square root used for vector magnitudes.

use vstd::prelude::*;

verus! {

/// Subpixel units per screen pixel.
pub const SUBPIXELS: i64 = 1000;

/// Largest coordinate magnitude the library works with, in subpixel units
/// (100 000 pixels), leaving ample headroom for the intermediate products
/// of the force formulas.
pub const MAX_COORD: i64 = 100_000_000;

/// Largest screen dimension the stages accept: 20 000 pixels, in subpixel
/// units.
pub const MAX_SCREEN: i64 = 20_000_000;

/// Bound to which the stages clamp a widget center: 40 000 pixels, far
/// beyond any screen yet leaving room for a whole-screen wrap shift inside
/// the library's coordinate range.
pub const MAX_CENTER: i64 = 40_000_000;

/// A coordinate the library accepts.
pub open spec fn coord_ok(c: int) -> bool {
    -MAX_COORD <= c <= MAX_COORD
}

/// A coordinate clamped into the range the library accepts.
pub open spec fn clamp_coord(c: int) -> int {
    if c < -MAX_COORD {
        -MAX_COORD as int
    } else if c > MAX_COORD {
        MAX_COORD as int
    } else {
        c
    }
}

/// Clamps a coordinate into the range the library accepts.
pub fn clamp_to_coord(c: i64) -> (r: i64)
    ensures
        r as int == clamp_coord(c as int),
{
    if c < -MAX_COORD {
        -MAX_COORD
    } else if c > MAX_COORD {
        MAX_COORD
    } else {
        c
    }
}

/// A coordinate clamped into the band where the stages keep widget centers.
pub open spec fn clamp_center_coord(c: int) -> int {
    if c < -MAX_CENTER {
        -MAX_CENTER as int
    } else if c > MAX_CENTER {
        MAX_CENTER as int
    } else {
        c
    }
}

/// Clamps a coordinate into the band where the stages keep widget centers.
pub fn clamp_to_center(c: i64) -> (r: i64)
    ensures
        r as int == clamp_center_coord(c as int),
        -MAX_CENTER <= r <= MAX_CENTER,
{
    if c < -MAX_CENTER {
        -MAX_CENTER
    } else if c > MAX_CENTER {
        MAX_CENTER
    } else {
        c
    }
}

/// A 2D point or displacement in subpixel units.
#[derive(Clone, Copy, PartialEq, Eq, Structural, Debug)]
pub struct Vec2 {
    pub x: i64,
    pub y: i64,
}

impl Vec2 {
    /// Both components bounded by `b` in magnitude.
    pub open spec fn bounded(self, b: int) -> bool {
        -b <= self.x <= b && -b <= self.y <= b
    }

    /// The point lies in the coordinate range the library accepts.
    pub open spec fn in_range(self) -> bool {
        self.bounded(MAX_COORD as int)
    }

    pub fn new(x: i64, y: i64) -> (v: Vec2)
        ensures
            v == (Vec2 { x, y }),
    {
        Vec2 { x, y }
    }

    pub fn add(self, other: Vec2) -> (v: Vec2)
        requires
            -0x3fff_ffff_ffff_ffff <= self.x + other.x <= 0x3fff_ffff_ffff_ffff,
            -0x3fff_ffff_ffff_ffff <= self.y + other.y <= 0x3fff_ffff_ffff_ffff,
        ensures
            v.x == self.x + other.x,
            v.y == self.y + other.y,
    {
        Vec2 { x: self.x + other.x, y: self.y + other.y }
    }

    pub fn sub(self, other: Vec2) -> (v: Vec2)
        requires
            -0x3fff_ffff_ffff_ffff <= self.x - other.x <= 0x3fff_ffff_ffff_ffff,
            -0x3fff_ffff_ffff_ffff <= self.y - other.y <= 0x3fff_ffff_ffff_ffff,
        ensures
            v.x == self.x - other.x,
            v.y == self.y - other.y,
    {
        Vec2 { x: self.x - other.x, y: self.y - other.y }
    }
}

/// Squared distance between two points.
pub open spec fn dist2_spec(a: Vec2, b: Vec2) -> int {
    (b.x - a.x) * (b.x - a.x) + (b.y - a.y) * (b.y - a.y)
}

/// The floor of the square root of `n`: the largest `r` with `r * r <= n`.
pub open spec fn sqrt_floor(n: nat) -> nat
    decreases n,
{
    if n == 0 {
        0
    } else {
        let p = sqrt_floor((n - 1) as nat);
        if (p + 1) * (p + 1) <= n {
            (p + 1) as nat
        } else {
            p
        }
    }
}

/// `sqrt_floor(n)` squares to at most `n`, and the next integer squares past it.
pub proof fn lemma_sqrt_floor_bounds(n: nat)
    ensures
        sqrt_floor(n) * sqrt_floor(n) <= n,
        n < (sqrt_floor(n) + 1) * (sqrt_floor(n) + 1),
    decreases n,
{
    if n == 0 {
        assert(sqrt_floor(0) == 0);
        assert(n < (sqrt_floor(n) + 1) * (sqrt_floor(n) + 1)) by (nonlinear_arith)
            requires
                n == 0 && sqrt_floor(n) == 0,
        ;
    } else {
        lemma_sqrt_floor_bounds((n - 1) as nat);
        let p = sqrt_floor((n - 1) as nat);
        if (p + 1) * (p + 1) <= n {
            assert(sqrt_floor(n) == p + 1);
            assert((p + 1) * (p + 1) < (p + 2) * (p + 2)) by (nonlinear_arith)
                requires
                    p >= 0,
            ;
            assert(n - 1 < (p + 1) * (p + 1));
            assert(n < (p + 2) * (p + 2));
            assert(sqrt_floor(n) + 1 == p + 2);
            assert(n < (sqrt_floor(n) + 1) * (sqrt_floor(n) + 1));
        } else {
            assert(sqrt_floor(n) == p);
            assert(p * p <= n - 1);
            assert(n < (p + 1) * (p + 1));
            assert(sqrt_floor(n) + 1 == p + 1);
            assert(n < (sqrt_floor(n) + 1) * (sqrt_floor(n) + 1));
        }
    }
}

/// Any `r` whose square brackets `n` is exactly `sqrt_floor(n)`.
pub proof fn lemma_sqrt_floor_unique(n: nat, r: nat)
    requires
        r * r <= n,
        n < (r + 1) * (r + 1),
    ensures
        r == sqrt_floor(n),
{
    let s = sqrt_floor(n);
    lemma_sqrt_floor_bounds(n);
    if r < s {
        assert((r + 1) * (r + 1) <= s * s) by (nonlinear_arith)
            requires
                0 <= r + 1 <= s,
        ;
    }
    if r > s {
        assert((s + 1) * (s + 1) <= r * r) by (nonlinear_arith)
            requires
                0 <= s + 1 <= r,
        ;
    }
}

/// Integer square root by binary search.
pub fn isqrt64(n: u64) -> (r: u64)
    ensures
        r == sqrt_floor(n as nat),
{
    let mut lo: u64 = 0;
    let mut hi: u64 = 0x1_0000_0000;
    while hi - lo > 1
        invariant
            lo < hi <= 0x1_0000_0000,
            lo * lo <= n,
            (hi as int) * (hi as int) > n,
        decreases hi - lo,
    {
        let mid = lo + (hi - lo) / 2;
        assert(lo < mid < hi);
        assert(mid * mid < 0xffff_ffff_ffff_ffff) by (nonlinear_arith)
            requires
                0 <= mid < 0x1_0000_0000,
        ;
        if mid * mid <= n {
            lo = mid;
        } else {
            hi = mid;
        }
    }
    proof {
        lemma_sqrt_floor_unique(n as nat, lo as nat);
    }
    lo
}

/// Floor of the magnitude of `v`, in the same units as its components.
pub open spec fn mag_spec(v: Vec2) -> int {
    sqrt_floor((v.x * v.x + v.y * v.y) as nat) as int
}

/// Floor of the distance between two points.
pub open spec fn dist_spec(a: Vec2, b: Vec2) -> int {
    sqrt_floor(dist2_spec(a, b) as nat) as int
}

/// Magnitude (floored) of a vector whose components fit twice the coordinate
/// range, as a difference of two in-range points always does.
pub fn magnitude(v: Vec2) -> (m: i64)
    requires
        v.bounded(2 * MAX_COORD as int),
    ensures
        m == mag_spec(v),
        0 <= m <= 300_000_000,
{
    proof {
        assert(v.x * v.x + v.y * v.y <= 80_000_000_000_000_000) by (nonlinear_arith)
            requires
                -200_000_000 <= v.x <= 200_000_000 && -200_000_000 <= v.y <= 200_000_000,
        ;
        assert(v.x * v.x >= 0 && v.y * v.y >= 0) by (nonlinear_arith);
    }
    let d2: i64 = v.x * v.x + v.y * v.y;
    let r = isqrt64(d2 as u64);
    proof {
        lemma_sqrt_floor_bounds(d2 as nat);
        assert(sqrt_floor(d2 as nat) <= 300_000_000) by {
            if sqrt_floor(d2 as nat) > 300_000_000 {
                assert(sqrt_floor(d2 as nat) * sqrt_floor(d2 as nat)
                    > 80_000_000_000_000_000) by (nonlinear_arith)
                    requires
                        sqrt_floor(d2 as nat) > 300_000_000,
                ;
            }
        }
    }
    r as i64
}

/// Floor of the distance between two in-range points.
pub fn dist(a: Vec2, b: Vec2) -> (m: i64)
    requires
        a.in_range(),
        b.in_range(),
    ensures
        m == dist_spec(a, b),
        0 <= m <= 300_000_000,
{
    let d = b.sub(a);
    magnitude(d)
}

/// An axis-aligned rectangle in subpixel units.
#[derive(Clone, Copy, PartialEq, Eq, Structural, Debug)]
pub struct Rect {
    pub x: i64,
    pub y: i64,
    pub w: i64,
    pub h: i64,
}

impl Rect {
    /// Nonnegative extent and coordinates in the range the library accepts.
    pub open spec fn in_range(self) -> bool {
        coord_ok(self.x as int) && coord_ok(self.y as int) && 0 <= self.w <= MAX_COORD && 0
            <= self.h <= MAX_COORD
    }

    /// Where the stages keep a widget: its center stays inside the clamping
    /// band and its size within one screen, so the rectangle — and any wrap
    /// candidate of it — stays well inside the library's coordinate range.
    pub open spec fn arena_ok(self) -> bool {
        -(MAX_CENTER + 2 * MAX_SCREEN) <= self.x <= MAX_CENTER + 2 * MAX_SCREEN && -(MAX_CENTER + 2
            * MAX_SCREEN) <= self.y <= MAX_CENTER + 2 * MAX_SCREEN && 0 <= self.w <= MAX_SCREEN
            && 0 <= self.h <= MAX_SCREEN
    }

    /// Like `in_range`, with twice the slack on the origin: a wrap candidate
    /// of an in-range rectangle, shifted by up to one whole screen, stays in
    /// this span.
    pub open spec fn in_span(self) -> bool {
        -2 * MAX_COORD <= self.x <= 2 * MAX_COORD && -2 * MAX_COORD <= self.y <= 2 * MAX_COORD
            && 0 <= self.w <= MAX_COORD && 0 <= self.h <= MAX_COORD
    }

    /// Center of the rectangle, with halves rounded down.
    pub open spec fn center_spec(self) -> (int, int) {
        (self.x + self.w / 2, self.y + self.h / 2)
    }

    /// The rectangle contains the point, all four edges inclusive.
    pub open spec fn contains_spec(self, p: Vec2) -> bool {
        self.x <= p.x <= self.x + self.w && self.y <= p.y <= self.y + self.h
    }

    pub fn new(x: i64, y: i64, w: i64, h: i64) -> (r: Rect)
        ensures
            r == (Rect { x, y, w, h }),
    {
        Rect { x, y, w, h }
    }

    /// The rectangle of size (`w`, `h`) whose (rounded-down) center is `c`.
    pub fn from_center(c: Vec2, w: i64, h: i64) -> (r: Rect)
        requires
            c.in_range(),
            0 <= w <= MAX_COORD,
            0 <= h <= MAX_COORD,
        ensures
            r.x == c.x - w / 2,
            r.y == c.y - h / 2,
            r.w == w,
            r.h == h,
    {
        Rect { x: c.x - w / 2, y: c.y - h / 2, w, h }
    }

    pub fn center(self) -> (c: Vec2)
        requires
            self.in_range(),
        ensures
            (c.x as int, c.y as int) == self.center_spec(),
    {
        Vec2 { x: self.x + self.w / 2, y: self.y + self.h / 2 }
    }

    pub fn contains(self, p: Vec2) -> (b: bool)
        requires
            self.in_span(),
            p.bounded(4 * MAX_COORD as int),
        ensures
            b == self.contains_spec(p),
    {
        self.x <= p.x && p.x <= self.x + self.w && self.y <= p.y && p.y <= self.y + self.h
    }

    /// Translation by whole offsets, as the toroidal wrap uses.
    pub fn translate(self, dx: i64, dy: i64) -> (r: Rect)
        requires
            -0x3fff_ffff_ffff_ffff <= self.x + dx <= 0x3fff_ffff_ffff_ffff,
            -0x3fff_ffff_ffff_ffff <= self.y + dy <= 0x3fff_ffff_ffff_ffff,
        ensures
            r.x == self.x + dx,
            r.y == self.y + dy,
            r.w == self.w,
            r.h == self.h,
    {
        Rect { x: self.x + dx, y: self.y + dy, w: self.w, h: self.h }
    }
}

/// Width of the overlap of `r` with the screen `[0, sw] x [0, sh]`; negative
/// when the rectangle lies strictly beyond a vertical screen edge.
pub open spec fn overlap_w(r: Rect, sw: int) -> int {
    (if r.x + r.w <= sw {
        r.x + r.w
    } else {
        sw
    }) - (if r.x >= 0 {
        r.x as int
    } else {
        0
    })
}

/// Height of the overlap of `r` with the screen; negative when the rectangle
/// lies strictly beyond a horizontal screen edge.
pub open spec fn overlap_h(r: Rect, sh: int) -> int {
    (if r.y + r.h <= sh {
        r.y + r.h
    } else {
        sh
    }) - (if r.y >= 0 {
        r.y as int
    } else {
        0
    })
}

/// The rectangle meets the screen, edge contact included.
pub open spec fn intersects_screen(r: Rect, sw: int, sh: int) -> bool {
    overlap_w(r, sw) >= 0 && overlap_h(r, sh) >= 0
}

/// Area of the overlap of `r` with the screen, zero for degenerate overlap.
pub open spec fn inter_area_spec(r: Rect, sw: int, sh: int) -> int {
    if overlap_w(r, sw) > 0 && overlap_h(r, sh) > 0 {
        overlap_w(r, sw) * overlap_h(r, sh)
    } else {
        0
    }
}

/// Whether the rectangle meets the screen, edge contact included.
pub fn rect_intersects_screen(r: Rect, sw: i64, sh: i64) -> (b: bool)
    requires
        r.in_span(),
        0 <= sw <= MAX_COORD,
        0 <= sh <= MAX_COORD,
    ensures
        b == intersects_screen(r, sw as int, sh as int),
{
    let right = if r.x + r.w <= sw {
        r.x + r.w
    } else {
        sw
    };
    let left = if r.x >= 0 {
        r.x
    } else {
        0
    };
    let bottom = if r.y + r.h <= sh {
        r.y + r.h
    } else {
        sh
    };
    let top = if r.y >= 0 {
        r.y
    } else {
        0
    };
    right >= left && bottom >= top
}

/// Area of the overlap of the rectangle with the screen.
pub fn inter_area(r: Rect, sw: i64, sh: i64) -> (a: i64)
    requires
        r.in_span(),
        0 <= sw <= MAX_COORD,
        0 <= sh <= MAX_COORD,
    ensures
        a == inter_area_spec(r, sw as int, sh as int),
        0 <= a,
{
    let right = if r.x + r.w <= sw {
        r.x + r.w
    } else {
        sw
    };
    let left = if r.x >= 0 {
        r.x
    } else {
        0
    };
    let bottom = if r.y + r.h <= sh {
        r.y + r.h
    } else {
        sh
    };
    let top = if r.y >= 0 {
        r.y
    } else {
        0
    };
    if right > left && bottom > top {
        proof {
            assert((right - left) * (bottom - top) <= 160_000_000_000_000_000) by (nonlinear_arith)
                requires
                    0 <= right - left <= 400_000_000 && 0 <= bottom - top <= 400_000_000,
            ;
            assert((right - left) * (bottom - top) >= 0) by (nonlinear_arith)
                requires
                    right - left >= 0 && bottom - top >= 0,
            ;
        }
        (right - left) * (bottom - top)
    } else {
        0
    }
}

} // verus!
