//! Timed dialogue gating and the linear background fades.
//!
//! The torus stage advances its dialogue by clicks, each gated behind a
//! minimum elapsed delay; the prison stage drives its lines from a fixed
//! timeline instead.  Timestamps are monotonic milliseconds.

use vstd::prelude::*;

verus! {

/// Milliseconds a dialogue line must stand before it can advance.
pub const DIALOG_DELAY_MS: i64 = 5000;

/// Number of scripted lines in the torus stage dialogue.
pub const TORUS_LINES: usize = 2;

/// A timestamp the library accepts: nonnegative milliseconds with headroom
/// for any sum the stages form.
pub open spec fn time_ok(t: i64) -> bool {
    0 <= t < 0x4000_0000_0000_0000
}

/// An actively timing dialogue: when its current line appeared and which
/// line it is.  Absent entirely while no dialogue is running.
#[derive(Clone, Copy, PartialEq, Eq, Structural, Debug)]
pub struct Dialogue {
    pub started_at_ms: i64,
    pub line: usize,
}

impl Dialogue {
    /// Plausible timestamp and a line the script actually has.
    pub open spec fn wf(self) -> bool {
        time_ok(self.started_at_ms) && self.line < TORUS_LINES
    }
}

/// One frame of the torus stage's click-driven dialogue.  A click with no
/// dialogue running starts line 0.  While a dialogue runs, a click advances
/// to the next line only once the minimum delay has elapsed, restarting the
/// clock; once the final line's delay elapses the dialogue ends and the
/// stage is over (the second component).
pub open spec fn torus_dialogue_step_spec(state: Option<Dialogue>, clicked: bool, now: i64) -> (
    Option<Dialogue>,
    bool,
) {
    match state {
        Option::None => {
            if clicked {
                (Option::Some(Dialogue { started_at_ms: now, line: 0 }), false)
            } else {
                (Option::None, false)
            }
        },
        Option::Some(d) => {
            if d.line == TORUS_LINES - 1 && now - d.started_at_ms > DIALOG_DELAY_MS {
                (Option::None, true)
            } else if clicked && now - d.started_at_ms >= DIALOG_DELAY_MS && d.line < TORUS_LINES
                - 1 {
                (Option::Some(Dialogue { started_at_ms: now, line: (d.line + 1) as usize }), false)
            } else {
                (Option::Some(d), false)
            }
        },
    }
}

/// Advances the torus dialogue by one frame; the second component reports
/// that the final line's delay elapsed and the stage ends.
pub fn torus_dialogue_step(state: Option<Dialogue>, clicked: bool, now: i64) -> (out: (
    Option<Dialogue>,
    bool,
))
    requires
        time_ok(now),
        state matches Option::Some(d) ==> d.wf(),
    ensures
        out == torus_dialogue_step_spec(state, clicked, now),
        out.0 matches Option::Some(d) ==> d.wf(),
{
    match state {
        Option::None => {
            if clicked {
                (Option::Some(Dialogue { started_at_ms: now, line: 0 }), false)
            } else {
                (Option::None, false)
            }
        },
        Option::Some(d) => {
            if d.line == TORUS_LINES - 1 && now - d.started_at_ms > DIALOG_DELAY_MS {
                (Option::None, true)
            } else if clicked && now - d.started_at_ms >= DIALOG_DELAY_MS && d.line < TORUS_LINES
                - 1 {
                (Option::Some(Dialogue { started_at_ms: now, line: d.line + 1 }), false)
            } else {
                (Option::Some(d), false)
            }
        },
    }
}

/// The torus dialogue line index only ever advances via a click, never by
/// ambient time alone, and never before the minimum delay since the line
/// appeared; an advance restamps the clock to the advance time, so the next
/// advance waits the full delay again.  The dialogue only ends once the
/// final line's delay has elapsed.
pub proof fn lemma_torus_dialogue_gated(state: Option<Dialogue>, clicked: bool, now: i64)
    ensures
        ({
            let (next, ends) = torus_dialogue_step_spec(state, clicked, now);
            &&& match (state, next) {
                (Option::Some(d), Option::Some(d2)) => d2 == d || (d2.line == d.line + 1 && clicked
                    && now - d.started_at_ms >= DIALOG_DELAY_MS && d2.started_at_ms == now),
                (Option::None, Option::Some(d2)) => clicked && d2.line == 0
                    && d2.started_at_ms == now,
                (_, Option::None) => true,
            }
            &&& ends ==> (state matches Option::Some(d) && d.line == TORUS_LINES - 1 && now
                - d.started_at_ms > DIALOG_DELAY_MS)
        }),
{
}

/// Where the prison stage's fixed timeline stands.
#[derive(Clone, Copy, PartialEq, Eq, Structural, Debug)]
pub enum PrisonPhase {
    /// The first line shows.
    FirstLine,
    /// A short pause with no line.
    Pause,
    /// The second line shows together with the give-up control.
    SecondLine,
}

/// The prison timeline: line 0 for the first delay, a quarter-delay pause,
/// then line 1 with the give-up control for good.
pub open spec fn prison_phase_spec(elapsed: i64) -> PrisonPhase {
    if elapsed < DIALOG_DELAY_MS {
        PrisonPhase::FirstLine
    } else if elapsed < DIALOG_DELAY_MS + DIALOG_DELAY_MS / 4 {
        PrisonPhase::Pause
    } else {
        PrisonPhase::SecondLine
    }
}

/// Phase of the prison timeline after `elapsed` milliseconds in the stage.
pub fn prison_phase(elapsed: i64) -> (p: PrisonPhase)
    requires
        time_ok(elapsed),
    ensures
        p == prison_phase_spec(elapsed),
{
    if elapsed < DIALOG_DELAY_MS {
        PrisonPhase::FirstLine
    } else if elapsed < DIALOG_DELAY_MS + DIALOG_DELAY_MS / 4 {
        PrisonPhase::Pause
    } else {
        PrisonPhase::SecondLine
    }
}

/// The prison dialogue is driven by its timeline alone, and its second line
/// never shows before the first line's minimum delay (plus the pause) has
/// fully passed.
pub proof fn lemma_prison_second_line_delayed(elapsed: i64)
    requires
        prison_phase_spec(elapsed) == PrisonPhase::SecondLine,
    ensures
        elapsed >= DIALOG_DELAY_MS + DIALOG_DELAY_MS / 4,
        elapsed >= DIALOG_DELAY_MS,
{
}

/// Stroke thickness of the prison border frame in milli-pixels: ramps up
/// over the first second, settles back over the next, then holds.
pub open spec fn prison_thickness_spec(elapsed: i64) -> int {
    if elapsed < 1000 {
        elapsed * 40
    } else if elapsed < 2000 {
        (2000 - elapsed) * 32 + 8000
    } else {
        8000
    }
}

/// Border stroke thickness after `elapsed` milliseconds, in milli-pixels.
pub fn prison_thickness(elapsed: i64) -> (t: i64)
    requires
        time_ok(elapsed),
    ensures
        t == prison_thickness_spec(elapsed),
        0 <= t <= 40_000,
{
    if elapsed < 1000 {
        elapsed * 40
    } else if elapsed < 2000 {
        (2000 - elapsed) * 32 + 8000
    } else {
        8000
    }
}

/// Brightness of the light background, in milli-units per color channel.
pub const LIGHT_BG_MILLI: i64 = 780;

/// Brightness floor at which a fade stops, in milli-units.
pub const FADE_FLOOR_MILLI: i64 = 200;

/// Per-frame darkening of the prison give-up fade, in milli-units.
pub const PRISON_FADE_STEP_MILLI: i64 = 10;

/// Per-frame darkening of the end-dialog fades, in milli-units.
pub const END_FADE_STEP_MILLI: i64 = 7;

/// One frame of a linear fade: the brightness drops by `step`.
pub fn fade_step(brightness: i64, step: i64) -> (b: i64)
    requires
        -100_000 <= brightness <= 100_000,
        0 <= step <= 100,
    ensures
        b == brightness - step,
{
    brightness - step
}

/// The fade has reached its floor and stops.
pub open spec fn fade_done_spec(brightness: i64) -> bool {
    brightness < FADE_FLOOR_MILLI
}

/// Whether a fade at this brightness has reached the floor.
pub fn fade_done(brightness: i64) -> (d: bool)
    ensures
        d == fade_done_spec(brightness),
{
    brightness < FADE_FLOOR_MILLI
}

/// A fade from the light background reaches its floor within a bounded
/// number of frames: after 84 steps of either fade rate the brightness is
/// below the floor.
pub proof fn lemma_fade_bounded(k: int)
    requires
        k >= 84,
    ensures
        LIGHT_BG_MILLI - k * PRISON_FADE_STEP_MILLI < FADE_FLOOR_MILLI,
        LIGHT_BG_MILLI - k * END_FADE_STEP_MILLI < FADE_FLOOR_MILLI,
{
    assert(k * 10 >= 84 * 10) by (nonlinear_arith)
        requires
            k >= 84,
    ;
    assert(k * 7 >= 84 * 7) by (nonlinear_arith)
        requires
            k >= 84,
    ;
}

} // verus!
