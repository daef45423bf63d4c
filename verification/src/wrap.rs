//! The toroidal wrap: the phantom candidate rectangles that depict a widget
//! crossing the screen edges, and the choice of the canonical instance.
//!
//! Candidates are rebuilt from the widget every frame in a fixed order —
//! left, top, right, bottom, then the four corner combinations in the same
//! priority — and never persist across frames.

use crate::geom::{inter_area, inter_area_spec, intersects_screen, rect_intersects_screen, Rect,
    MAX_COORD};
use vstd::prelude::*;

verus! {

/// The rectangle's left side lies beyond the left screen edge.
pub open spec fn crosses_left(r: Rect) -> bool {
    r.x < 0
}

/// The rectangle's top side lies beyond the top screen edge.
pub open spec fn crosses_top(r: Rect) -> bool {
    r.y < 0
}

/// The rectangle's right side lies beyond the right screen edge.
pub open spec fn crosses_right(r: Rect, sw: int) -> bool {
    r.x + r.w > sw
}

/// The rectangle's bottom side lies beyond the bottom screen edge.
pub open spec fn crosses_bottom(r: Rect, sh: int) -> bool {
    r.y + r.h > sh
}

/// The rectangle shifted by a whole screen offset.
pub open spec fn shifted(r: Rect, dx: int, dy: int) -> Rect {
    Rect { x: (r.x + dx) as i64, y: (r.y + dy) as i64, w: r.w, h: r.h }
}

/// The wrap candidates of `r` on a `sw` by `sh` screen, in enumeration
/// order: one per crossed edge, mirrored across the opposite edge by exactly
/// one screen dimension, then one per corner whose both adjacent edge
/// conditions hold.
pub open spec fn candidates_spec(r: Rect, sw: int, sh: int) -> Seq<Rect> {
    let s0 = Seq::<Rect>::empty();
    let s1 = if crosses_left(r) {
        s0.push(shifted(r, sw, 0))
    } else {
        s0
    };
    let s2 = if crosses_top(r) {
        s1.push(shifted(r, 0, sh))
    } else {
        s1
    };
    let s3 = if crosses_right(r, sw) {
        s2.push(shifted(r, -sw, 0))
    } else {
        s2
    };
    let s4 = if crosses_bottom(r, sh) {
        s3.push(shifted(r, 0, -sh))
    } else {
        s3
    };
    let s5 = if crosses_left(r) && crosses_top(r) {
        s4.push(shifted(r, sw, sh))
    } else {
        s4
    };
    let s6 = if crosses_top(r) && crosses_right(r, sw) {
        s5.push(shifted(r, -sw, sh))
    } else {
        s5
    };
    let s7 = if crosses_right(r, sw) && crosses_bottom(r, sh) {
        s6.push(shifted(r, -sw, -sh))
    } else {
        s6
    };
    let s8 = if crosses_bottom(r, sh) && crosses_left(r) {
        s7.push(shifted(r, sw, -sh))
    } else {
        s7
    };
    s8
}

/// The wrap candidates of `r`, freshly built in enumeration order.
pub fn candidates(r: Rect, sw: i64, sh: i64) -> (out: Vec<Rect>)
    requires
        r.in_range(),
        1 <= sw <= MAX_COORD,
        1 <= sh <= MAX_COORD,
    ensures
        out@ == candidates_spec(r, sw as int, sh as int),
        out@.len() <= 8,
        forall|i: int| 0 <= i < out@.len() ==> (#[trigger] out@[i]).in_span(),
        forall|i: int|
            0 <= i < out@.len() ==> {
                &&& r.x - sw <= (#[trigger] out@[i]).x <= r.x + sw
                &&& r.y - sh <= out@[i].y <= r.y + sh
                &&& out@[i].w == r.w
                &&& out@[i].h == r.h
            },
{
    let mut out: Vec<Rect> = Vec::new();
    if r.x < 0 {
        out.push(r.translate(sw, 0));
    }
    if r.y < 0 {
        out.push(r.translate(0, sh));
    }
    if r.x + r.w > sw {
        out.push(r.translate(-sw, 0));
    }
    if r.y + r.h > sh {
        out.push(r.translate(0, -sh));
    }
    if r.x < 0 && r.y < 0 {
        out.push(r.translate(sw, sh));
    }
    if r.y < 0 && r.x + r.w > sw {
        out.push(r.translate(-sw, sh));
    }
    if r.x + r.w > sw && r.y + r.h > sh {
        out.push(r.translate(-sw, -sh));
    }
    if r.y + r.h > sh && r.x < 0 {
        out.push(r.translate(sw, -sh));
    }
    out
}

/// Membership in a pushed sequence: the new element, or an old member.
proof fn lemma_push_contains(s: Seq<Rect>, e: Rect, x: Rect)
    ensures
        s.push(e).contains(x) <==> (s.contains(x) || x == e),
{
    if s.contains(x) {
        let i = choose|i: int| 0 <= i < s.len() && s[i] == x;
        assert(s.push(e)[i] == x);
    }
    if x == e {
        assert(s.push(e)[s.len() as int] == x);
    }
    if s.push(e).contains(x) {
        let i = choose|i: int| 0 <= i < s.push(e).len() && s.push(e)[i] == x;
        if i < s.len() {
            assert(s[i] == x);
        }
    }
}

/// Exactly the declared candidates appear: an edge candidate iff that edge
/// condition holds, a diagonal candidate iff both of its edge conditions
/// hold, and no candidate at all for a rectangle inside the bounds.
pub proof fn lemma_candidates_characterized(r: Rect, sw: int, sh: int)
    requires
        r.in_range(),
        1 <= sw <= MAX_COORD,
        1 <= sh <= MAX_COORD,
    ensures
        candidates_spec(r, sw, sh).contains(shifted(r, sw, 0)) <==> crosses_left(r),
        candidates_spec(r, sw, sh).contains(shifted(r, 0, sh)) <==> crosses_top(r),
        candidates_spec(r, sw, sh).contains(shifted(r, -sw, 0)) <==> crosses_right(r, sw),
        candidates_spec(r, sw, sh).contains(shifted(r, 0, -sh)) <==> crosses_bottom(r, sh),
        candidates_spec(r, sw, sh).contains(shifted(r, sw, sh)) <==> (crosses_left(r)
            && crosses_top(r)),
        candidates_spec(r, sw, sh).contains(shifted(r, -sw, sh)) <==> (crosses_top(r)
            && crosses_right(r, sw)),
        candidates_spec(r, sw, sh).contains(shifted(r, -sw, -sh)) <==> (crosses_right(r, sw)
            && crosses_bottom(r, sh)),
        candidates_spec(r, sw, sh).contains(shifted(r, sw, -sh)) <==> (crosses_bottom(r, sh)
            && crosses_left(r)),
        (!crosses_left(r) && !crosses_top(r) && !crosses_right(r, sw) && !crosses_bottom(r, sh))
            ==> candidates_spec(r, sw, sh) == Seq::<Rect>::empty(),
{
    let s0 = Seq::<Rect>::empty();
    let s1 = if crosses_left(r) {
        s0.push(shifted(r, sw, 0))
    } else {
        s0
    };
    let s2 = if crosses_top(r) {
        s1.push(shifted(r, 0, sh))
    } else {
        s1
    };
    let s3 = if crosses_right(r, sw) {
        s2.push(shifted(r, -sw, 0))
    } else {
        s2
    };
    let s4 = if crosses_bottom(r, sh) {
        s3.push(shifted(r, 0, -sh))
    } else {
        s3
    };
    let s5 = if crosses_left(r) && crosses_top(r) {
        s4.push(shifted(r, sw, sh))
    } else {
        s4
    };
    let s6 = if crosses_top(r) && crosses_right(r, sw) {
        s5.push(shifted(r, -sw, sh))
    } else {
        s5
    };
    let s7 = if crosses_right(r, sw) && crosses_bottom(r, sh) {
        s6.push(shifted(r, -sw, -sh))
    } else {
        s6
    };
    let s8 = if crosses_bottom(r, sh) && crosses_left(r) {
        s7.push(shifted(r, sw, -sh))
    } else {
        s7
    };
    assert(candidates_spec(r, sw, sh) == s8);
    assert forall|x: Rect| true implies #[trigger] s8.contains(x) == (
        (crosses_left(r) && x == shifted(r, sw, 0))
        || (crosses_top(r) && x == shifted(r, 0, sh))
        || (crosses_right(r, sw) && x == shifted(r, -sw, 0))
        || (crosses_bottom(r, sh) && x == shifted(r, 0, -sh))
        || (crosses_left(r) && crosses_top(r) && x == shifted(r, sw, sh))
        || (crosses_top(r) && crosses_right(r, sw) && x == shifted(r, -sw, sh))
        || (crosses_right(r, sw) && crosses_bottom(r, sh) && x == shifted(r, -sw, -sh))
        || (crosses_bottom(r, sh) && crosses_left(r) && x == shifted(r, sw, -sh))) by {
        if crosses_left(r) {
            lemma_push_contains(s0, shifted(r, sw, 0), x);
        }
        if crosses_top(r) {
            lemma_push_contains(s1, shifted(r, 0, sh), x);
        }
        if crosses_right(r, sw) {
            lemma_push_contains(s2, shifted(r, -sw, 0), x);
        }
        if crosses_bottom(r, sh) {
            lemma_push_contains(s3, shifted(r, 0, -sh), x);
        }
        if crosses_left(r) && crosses_top(r) {
            lemma_push_contains(s4, shifted(r, sw, sh), x);
        }
        if crosses_top(r) && crosses_right(r, sw) {
            lemma_push_contains(s5, shifted(r, -sw, sh), x);
        }
        if crosses_right(r, sw) && crosses_bottom(r, sh) {
            lemma_push_contains(s6, shifted(r, -sw, -sh), x);
        }
        if crosses_bottom(r, sh) && crosses_left(r) {
            lemma_push_contains(s7, shifted(r, sw, -sh), x);
        }
        assert(!s0.contains(x));
    }
}

/// Screen-overlap area of the candidate at index `j`.
pub open spec fn cand_area(cands: Seq<Rect>, j: int, sw: int, sh: int) -> int {
    inter_area_spec(cands[j], sw, sh)
}

/// The fold that scans candidates from index `i` keeping the first one whose
/// screen-overlap area strictly beats the best so far.
pub open spec fn best_candidate_from(
    cands: Seq<Rect>,
    sw: int,
    sh: int,
    i: int,
    best: Rect,
    best_area: int,
) -> Rect
    decreases cands.len() - i,
{
    if i < 0 || i >= cands.len() {
        best
    } else {
        if cand_area(cands, i, sw, sh) > best_area {
            best_candidate_from(cands, sw, sh, i + 1, cands[i], cand_area(cands, i, sw, sh))
        } else {
            best_candidate_from(cands, sw, sh, i + 1, best, best_area)
        }
    }
}

/// The canonical rectangle after a frame without interaction: the primary
/// while it still meets the screen; otherwise the candidate with the largest
/// screen overlap, ties to the earliest in enumeration order; unchanged when
/// nothing overlaps the screen.
pub open spec fn pick_canonical_spec(primary: Rect, cands: Seq<Rect>, sw: int, sh: int) -> Rect {
    if intersects_screen(primary, sw, sh) {
        primary
    } else {
        best_candidate_from(cands, sw, sh, 0, primary, 0)
    }
}

/// Chooses the canonical rectangle for the next frame.
pub fn pick_canonical(primary: Rect, cands: &Vec<Rect>, sw: i64, sh: i64) -> (r: Rect)
    requires
        primary.in_span(),
        forall|i: int| 0 <= i < cands@.len() ==> (#[trigger] cands@[i]).in_span(),
        0 <= sw <= MAX_COORD,
        0 <= sh <= MAX_COORD,
    ensures
        r == pick_canonical_spec(primary, cands@, sw as int, sh as int),
        r == primary || cands@.contains(r),
{
    if rect_intersects_screen(primary, sw, sh) {
        return primary;
    }
    let mut best = primary;
    let mut best_area: i64 = 0;
    let mut i: usize = 0;
    while i < cands.len()
        invariant
            0 <= i <= cands@.len(),
            0 <= best_area,
            best == primary || cands@.contains(best),
            forall|k: int| 0 <= k < cands@.len() ==> (#[trigger] cands@[k]).in_span(),
            0 <= sw <= MAX_COORD,
            0 <= sh <= MAX_COORD,
            best_candidate_from(cands@, sw as int, sh as int, i as int, best, best_area as int)
                == best_candidate_from(cands@, sw as int, sh as int, 0, primary, 0),
        decreases cands@.len() - i,
    {
        let a = inter_area(cands[i], sw, sh);
        if a > best_area {
            best = cands[i];
            best_area = a;
        }
        i = i + 1;
    }
    best
}

/// With the primary off the screen, the canonical choice is a candidate of
/// maximal screen overlap, the earliest among equals; and the primary stays
/// canonical when no candidate overlaps the screen at all.
pub proof fn lemma_pick_canonical_max_area(primary: Rect, cands: Seq<Rect>, sw: int, sh: int)
    requires
        !intersects_screen(primary, sw, sh),
    ensures
        (exists|j: int| 0 <= j < cands.len() && cand_area(cands, j, sw, sh) > 0) ==> (exists|k: int|
            {
                &&& 0 <= k < cands.len()
                &&& pick_canonical_spec(primary, cands, sw, sh) == cands[k]
                &&& cand_area(cands, k, sw, sh) > 0
                &&& forall|j: int|
                    0 <= j < cands.len() ==> #[trigger] cand_area(cands, j, sw, sh) <= cand_area(
                        cands,
                        k,
                        sw,
                        sh,
                    )
                &&& forall|j: int|
                    0 <= j < k ==> #[trigger] cand_area(cands, j, sw, sh) < cand_area(
                        cands,
                        k,
                        sw,
                        sh,
                    )
            }),
        (forall|j: int| 0 <= j < cands.len() ==> #[trigger] cand_area(cands, j, sw, sh) <= 0)
            ==> pick_canonical_spec(primary, cands, sw, sh) == primary,
{
    lemma_best_candidate_props(cands, sw, sh, 0, primary, 0);
}

/// Inductive characterization of the scanning fold: it keeps the start value
/// when nothing from `i` on beats `best_area`, and otherwise lands on the
/// earliest maximal candidate past `i`.
proof fn lemma_best_candidate_props(
    cands: Seq<Rect>,
    sw: int,
    sh: int,
    i: int,
    best: Rect,
    best_area: int,
)
    requires
        0 <= i <= cands.len(),
    ensures
        (forall|j: int| i <= j < cands.len() ==> #[trigger] cand_area(cands, j, sw, sh) <= best_area)
            ==> best_candidate_from(cands, sw, sh, i, best, best_area) == best,
        (exists|j: int| i <= j < cands.len() && cand_area(cands, j, sw, sh) > best_area) ==> (
        exists|k: int|
            {
                &&& i <= k < cands.len()
                &&& best_candidate_from(cands, sw, sh, i, best, best_area) == cands[k]
                &&& cand_area(cands, k, sw, sh) > best_area
                &&& forall|j: int|
                    i <= j < cands.len() ==> #[trigger] cand_area(cands, j, sw, sh) <= cand_area(
                        cands,
                        k,
                        sw,
                        sh,
                    )
                &&& forall|j: int|
                    i <= j < k ==> #[trigger] cand_area(cands, j, sw, sh) < cand_area(
                        cands,
                        k,
                        sw,
                        sh,
                    )
            }),
    decreases cands.len() - i,
{
    if i < cands.len() {
        let a = cand_area(cands, i, sw, sh);
        if a > best_area {
            lemma_best_candidate_props(cands, sw, sh, i + 1, cands[i], a);
            let r = best_candidate_from(cands, sw, sh, i + 1, cands[i], a);
            if forall|j: int| i + 1 <= j < cands.len() ==> #[trigger] cand_area(cands, j, sw, sh)
                <= a {
                assert(r == cands[i]);
                assert(best_candidate_from(cands, sw, sh, i, best, best_area) == cands[i]);
                assert(exists|k: int|
                    {
                        &&& i <= k < cands.len()
                        &&& best_candidate_from(cands, sw, sh, i, best, best_area) == cands[k]
                        &&& cand_area(cands, k, sw, sh) > best_area
                        &&& forall|j: int|
                            i <= j < cands.len() ==> #[trigger] cand_area(cands, j, sw, sh)
                                <= cand_area(cands, k, sw, sh)
                        &&& forall|j: int|
                            i <= j < k ==> #[trigger] cand_area(cands, j, sw, sh) < cand_area(
                                cands,
                                k,
                                sw,
                                sh,
                            )
                    }) by {
                    assert({
                        &&& i <= i < cands.len()
                        &&& best_candidate_from(cands, sw, sh, i, best, best_area) == cands[i]
                        &&& cand_area(cands, i, sw, sh) > best_area
                        &&& forall|j: int|
                            i <= j < cands.len() ==> #[trigger] cand_area(cands, j, sw, sh)
                                <= cand_area(cands, i, sw, sh)
                        &&& forall|j: int|
                            i <= j < i ==> #[trigger] cand_area(cands, j, sw, sh) < cand_area(
                                cands,
                                i,
                                sw,
                                sh,
                            )
                    });
                }
            } else {
                let k = choose|k: int|
                    {
                        &&& i + 1 <= k < cands.len()
                        &&& r == cands[k]
                        &&& cand_area(cands, k, sw, sh) > a
                        &&& forall|j: int|
                            i + 1 <= j < cands.len() ==> #[trigger] cand_area(cands, j, sw, sh)
                                <= cand_area(cands, k, sw, sh)
                        &&& forall|j: int|
                            i + 1 <= j < k ==> #[trigger] cand_area(cands, j, sw, sh) < cand_area(
                                cands,
                                k,
                                sw,
                                sh,
                            )
                    };
                assert(cand_area(cands, i, sw, sh) < cand_area(cands, k, sw, sh));
            }
        } else {
            lemma_best_candidate_props(cands, sw, sh, i + 1, best, best_area);
        }
    }
}

} // verus!
