//! Pointer interaction over the widget and its wrap candidates: standard
//! push-button semantics per rectangle, and the first-match arbitration that
//! picks the one authoritative (rectangle, interaction) pair per frame.
//!
//! A click is a press followed by a release while the pointer stays within
//! bounds; the armed state is dropped the moment the pointer leaves, so a
//! release elsewhere never clicks.  Arbitration deliberately tests the
//! primary first and then the candidates in enumeration order, stopping at
//! the first interaction — first match, not nearest to pointer.

use crate::geom::{Rect, Vec2, MAX_COORD};
use vstd::prelude::*;

verus! {

/// What the pointer does to one rectangle this frame.
#[derive(Clone, Copy, PartialEq, Eq, Structural, Debug)]
pub enum Interaction {
    /// No interaction: the pointer is outside the rectangle.
    Idle,
    /// The pointer rests on the rectangle without a button held.
    Hovered,
    /// A press started on the rectangle and the button is still held there.
    Pressed,
    /// The press was released on the rectangle it started on.
    Clicked,
}

impl Interaction {
    /// The rectangle owns the pointer this frame.
    pub open spec fn is_some_spec(self) -> bool {
        self != Interaction::Idle
    }

    pub fn is_clicked(self) -> (b: bool)
        ensures
            b == (self == Interaction::Clicked),
    {
        match self {
            Interaction::Clicked => true,
            _ => false,
        }
    }
}

/// The pointer sample of one frame: position and button edge signals.
#[derive(Clone, Copy, PartialEq, Eq, Structural, Debug)]
pub struct PointerState {
    pub pos: Vec2,
    /// The button went down this frame.
    pub pressed: bool,
    /// The button is held this frame.
    pub down: bool,
    /// The button went up this frame.
    pub released: bool,
}

/// Interaction of one rectangle, given whether a press is armed on it from
/// an earlier frame.
pub open spec fn interact_spec(r: Rect, p: PointerState, was_pressed: bool) -> Interaction {
    if r.contains_spec(p.pos) {
        if p.pressed {
            Interaction::Pressed
        } else if p.down && was_pressed {
            Interaction::Pressed
        } else if p.released && was_pressed {
            Interaction::Clicked
        } else {
            Interaction::Hovered
        }
    } else {
        Interaction::Idle
    }
}

/// Whether a press is armed after the frame: it stays armed only while the
/// button is held and the pointer stays within bounds.
pub open spec fn next_pressed_spec(r: Rect, p: PointerState, was_pressed: bool) -> bool {
    r.contains_spec(p.pos) && (p.pressed || (p.down && was_pressed))
}

/// Interaction of one rectangle this frame, and the armed state it leaves.
pub fn interact(r: Rect, p: PointerState, was_pressed: bool) -> (out: (Interaction, bool))
    requires
        r.in_span(),
        p.pos.bounded(4 * MAX_COORD as int),
    ensures
        out.0 == interact_spec(r, p, was_pressed),
        out.1 == next_pressed_spec(r, p, was_pressed),
{
    if r.contains(p.pos) {
        let i = if p.pressed {
            Interaction::Pressed
        } else if p.down && was_pressed {
            Interaction::Pressed
        } else if p.released && was_pressed {
            Interaction::Clicked
        } else {
            Interaction::Hovered
        };
        (i, p.pressed || (p.down && was_pressed))
    } else {
        (Interaction::Idle, false)
    }
}

/// Index of the first candidate at or after `i` with any interaction.
pub open spec fn first_hit(cands: Seq<Rect>, p: PointerState, was_pressed: bool, i: int) -> Option<
    int,
>
    decreases cands.len() - i,
{
    if i < 0 || i >= cands.len() {
        None
    } else if interact_spec(cands[i], p, was_pressed) != Interaction::Idle {
        Some(i)
    } else {
        first_hit(cands, p, was_pressed, i + 1)
    }
}

/// The authoritative (rectangle, interaction) pair of the frame: the primary
/// whenever it has any interaction, else the first interacting candidate in
/// enumeration order, else the primary with no interaction.
pub open spec fn resolve_spec(
    primary: Rect,
    cands: Seq<Rect>,
    p: PointerState,
    was_pressed: bool,
) -> (Rect, Interaction) {
    if interact_spec(primary, p, was_pressed) != Interaction::Idle {
        (primary, interact_spec(primary, p, was_pressed))
    } else {
        match first_hit(cands, p, was_pressed, 0) {
            Some(i) => (cands[i], interact_spec(cands[i], p, was_pressed)),
            None => (primary, Interaction::Idle),
        }
    }
}

/// The armed state the winning rectangle leaves for the next frame.
pub open spec fn resolve_pressed_spec(
    primary: Rect,
    cands: Seq<Rect>,
    p: PointerState,
    was_pressed: bool,
) -> bool {
    if interact_spec(primary, p, was_pressed) != Interaction::Idle {
        next_pressed_spec(primary, p, was_pressed)
    } else {
        match first_hit(cands, p, was_pressed, 0) {
            Some(i) => next_pressed_spec(cands[i], p, was_pressed),
            None => false,
        }
    }
}

/// Resolves pointer interaction across the primary rectangle and its wrap
/// candidates into one authoritative winner, its interaction, and the armed
/// press state carried to the next frame.
pub fn resolve(primary: Rect, cands: &Vec<Rect>, p: PointerState, was_pressed: bool) -> (out: (
    Rect,
    Interaction,
    bool,
))
    requires
        primary.in_span(),
        forall|i: int| 0 <= i < cands@.len() ==> (#[trigger] cands@[i]).in_span(),
        p.pos.bounded(4 * MAX_COORD as int),
    ensures
        (out.0, out.1) == resolve_spec(primary, cands@, p, was_pressed),
        out.2 == resolve_pressed_spec(primary, cands@, p, was_pressed),
        out.0 == primary || cands@.contains(out.0),
{
    let (pi, parmed) = interact(primary, p, was_pressed);
    if !matches!(pi, Interaction::Idle) {
        return (primary, pi, parmed);
    }
    let mut i: usize = 0;
    while i < cands.len()
        invariant
            0 <= i <= cands@.len(),
            forall|k: int| 0 <= k < cands@.len() ==> (#[trigger] cands@[k]).in_span(),
            p.pos.bounded(4 * MAX_COORD as int),
            interact_spec(primary, p, was_pressed) == Interaction::Idle,
            first_hit(cands@, p, was_pressed, 0) == first_hit(cands@, p, was_pressed, i as int),
        decreases cands@.len() - i,
    {
        let (ci, carmed) = interact(cands[i], p, was_pressed);
        if !matches!(ci, Interaction::Idle) {
            proof {
                assert(first_hit(cands@, p, was_pressed, i as int) == Some(i as int));
            }
            return (cands[i], ci, carmed);
        }
        i = i + 1;
    }
    (primary, Interaction::Idle, false)
}

/// A click on the primary wins outright: whatever any candidate's own hit
/// state would be, the authoritative pair is the primary with its click.
pub proof fn lemma_resolve_primary_click(
    primary: Rect,
    cands: Seq<Rect>,
    p: PointerState,
    was_pressed: bool,
)
    requires
        interact_spec(primary, p, was_pressed) == Interaction::Clicked,
    ensures
        resolve_spec(primary, cands, p, was_pressed) == (primary, Interaction::Clicked),
{
}

/// Helper: the scan for the first interacting candidate lands on `i` when
/// everything before `i` is idle and `i` interacts.
proof fn lemma_first_hit_is(cands: Seq<Rect>, p: PointerState, was_pressed: bool, k: int, i: int)
    requires
        0 <= k <= i < cands.len(),
        forall|j: int| k <= j < i ==> interact_spec(#[trigger] cands[j], p, was_pressed)
            == Interaction::Idle,
        interact_spec(cands[i], p, was_pressed) != Interaction::Idle,
    ensures
        first_hit(cands, p, was_pressed, k) == Some(i),
    decreases i - k,
{
    if k < i {
        lemma_first_hit_is(cands, p, was_pressed, k + 1, i);
    }
}

/// With an idle primary, the winner is the first candidate in enumeration
/// order with any interaction — never a later one, even one that is also
/// clicked.
pub proof fn lemma_resolve_first_candidate(
    primary: Rect,
    cands: Seq<Rect>,
    p: PointerState,
    was_pressed: bool,
    i: int,
)
    requires
        interact_spec(primary, p, was_pressed) == Interaction::Idle,
        0 <= i < cands.len(),
        forall|j: int| 0 <= j < i ==> interact_spec(#[trigger] cands[j], p, was_pressed)
            == Interaction::Idle,
        interact_spec(cands[i], p, was_pressed) != Interaction::Idle,
    ensures
        resolve_spec(primary, cands, p, was_pressed) == (cands[i], interact_spec(
            cands[i],
            p,
            was_pressed,
        )),
{
    lemma_first_hit_is(cands, p, was_pressed, 0, i);
}

} // verus!
