//! The stage machine: per-frame decision functions for each stage, the two
//! terminal sub-dialogs, and the transition table that orders them.
//!
//! Each stage's frame function is pure: it maps the stage's state and the
//! frame's sampled input to the next state and an explicit result the
//! orchestrator consumes.  The rendering shell samples input, calls one
//! frame function per frame, draws from the returned state, and yields.

use crate::arbiter::{resolve, resolve_pressed_spec, resolve_spec, Interaction, PointerState};
use crate::dialogue::{
    prison_phase, prison_phase_spec, time_ok, torus_dialogue_step, torus_dialogue_step_spec,
    Dialogue, PrisonPhase, FADE_FLOOR_MILLI, LIGHT_BG_MILLI, END_FADE_STEP_MILLI,
    PRISON_FADE_STEP_MILLI,
};
use crate::force::{repel, repel_spec, repel_towards, repel_towards_spec};
use crate::geom::{clamp_center_coord, clamp_to_center, Rect, Vec2, MAX_CENTER, MAX_SCREEN};
use crate::rocket::{
    mouse_hitbox, mouse_hitbox_spec, rocket_hits, rocket_hits_spec, rocket_step, rocket_step_spec,
    spawn_rocket, spawn_rocket_spec, Rocket,
};
use crate::wrap::{candidates, candidates_spec, pick_canonical, pick_canonical_spec};
use vstd::prelude::*;

verus! {

/// What a stage or sub-dialog hands back to the orchestrator.
#[derive(Clone, Copy, PartialEq, Eq, Structural, Debug)]
pub enum StageResult {
    Continue,
    RestartStage,
    AdvanceStage,
    Quit,
}

/// The ordered stages, the two terminal sub-dialogs, and the final state.
#[derive(Clone, Copy, PartialEq, Eq, Structural, Debug)]
pub enum Stage {
    Torus,
    Prison,
    Rockets,
    GameOver,
    GameWon,
    Finished,
}

/// Outcome of the lost sub-dialog: re-enter the rockets stage, or leave.
#[derive(Clone, Copy, PartialEq, Eq, Structural, Debug)]
pub enum AfterGameOver {
    RestartStage,
    Quit,
}

/// Outcome of the won sub-dialog: re-enter the rockets stage, or leave.
#[derive(Clone, Copy, PartialEq, Eq, Structural, Debug)]
pub enum AfterGameWon {
    RestartStage,
    Quit,
}

/// The stage the machine starts in: the torus stage, unless configuration
/// disables it and the session opens on the prison stage directly.
pub fn initial_stage(torus_enabled: bool) -> (s: Stage)
    ensures
        s == (if torus_enabled {
            Stage::Torus
        } else {
            Stage::Prison
        }),
{
    if torus_enabled {
        Stage::Torus
    } else {
        Stage::Prison
    }
}

/// The transition table over stage results: quitting always finishes,
/// continuing and restarting stay, and advancing follows the declared stage
/// order with the sub-dialogs re-entering the rockets stage.
pub open spec fn stage_transition_spec(s: Stage, r: StageResult) -> Stage {
    match r {
        StageResult::Quit => Stage::Finished,
        StageResult::Continue => s,
        StageResult::RestartStage => s,
        StageResult::AdvanceStage => match s {
            Stage::Torus => Stage::Prison,
            Stage::Prison => Stage::Rockets,
            Stage::Rockets => Stage::Rockets,
            Stage::GameOver => Stage::Rockets,
            Stage::GameWon => Stage::Rockets,
            Stage::Finished => Stage::Finished,
        },
    }
}

/// Applies the stage transition table.
pub fn stage_transition(s: Stage, r: StageResult) -> (next: Stage)
    ensures
        next == stage_transition_spec(s, r),
{
    match r {
        StageResult::Quit => Stage::Finished,
        StageResult::Continue => s,
        StageResult::RestartStage => s,
        StageResult::AdvanceStage => match s {
            Stage::Torus => Stage::Prison,
            Stage::Prison => Stage::Rockets,
            Stage::Rockets => Stage::Rockets,
            Stage::GameOver => Stage::Rockets,
            Stage::GameWon => Stage::Rockets,
            Stage::Finished => Stage::Finished,
        },
    }
}

/// What the shell samples once per frame and hands to a stage.
#[derive(Clone, Copy, PartialEq, Eq, Structural, Debug)]
pub struct FrameInput {
    /// The global quit trigger fired this frame.
    pub quit: bool,
    /// The reset key fired this frame (rockets stage).
    pub reset: bool,
    /// Pointer position and button edges.
    pub pointer: PointerState,
    /// Monotonic wall clock, in milliseconds.
    pub now_ms: i64,
    /// Screen width this frame, in subpixel units.
    pub sw: i64,
    /// Screen height this frame, in subpixel units.
    pub sh: i64,
}

impl FrameInput {
    /// Pointer in range, plausible clock, screen of an acceptable size.
    pub open spec fn wf(self) -> bool {
        self.pointer.pos.in_range() && time_ok(self.now_ms) && 1 <= self.sw <= MAX_SCREEN && 1
            <= self.sh <= MAX_SCREEN
    }
}

/// The widget rectangle re-centered on a displaced center, the center
/// clamped into the band the stages keep it in.
pub open spec fn moved_widget_spec(widget: Rect, disp: (int, int)) -> Rect {
    let cx = clamp_center_coord(widget.x + widget.w / 2 + disp.0);
    let cy = clamp_center_coord(widget.y + widget.h / 2 + disp.1);
    Rect {
        x: (cx - widget.w / 2) as i64,
        y: (cy - widget.h / 2) as i64,
        w: widget.w,
        h: widget.h,
    }
}

/// State of the torus stage: the widget, the armed press of its push-button
/// semantics, and the click-driven dialogue.
#[derive(Clone, Copy, PartialEq, Eq, Structural, Debug)]
pub struct TorusState {
    pub widget: Rect,
    pub was_pressed: bool,
    pub dialogue: Option<Dialogue>,
}

impl TorusState {
    pub open spec fn wf(self) -> bool {
        self.widget.arena_ok() && (self.dialogue matches Option::Some(d) ==> d.wf())
    }
}

/// One frame of the torus stage: the widget is repelled from the pointer,
/// wrapped toroidally, arbitrated for interaction, and the click-driven
/// dialogue advances; once the final dialogue line's delay elapses the
/// stage ends and hands its widget on.
pub open spec fn torus_frame_spec(st: TorusState, inp: FrameInput) -> (TorusState, StageResult) {
    if inp.quit {
        (st, StageResult::Quit)
    } else {
        let center = Vec2 {
            x: (st.widget.x + st.widget.w / 2) as i64,
            y: (st.widget.y + st.widget.h / 2) as i64,
        };
        let disp = repel_spec(inp.pointer.pos, center);
        let moved = moved_widget_spec(st.widget, disp);
        let cands = candidates_spec(moved, inp.sw as int, inp.sh as int);
        let res = resolve_spec(moved, cands, inp.pointer, st.was_pressed);
        let pressed2 = resolve_pressed_spec(moved, cands, inp.pointer, st.was_pressed);
        let dlg = torus_dialogue_step_spec(
            st.dialogue,
            res.1 == Interaction::Clicked,
            inp.now_ms,
        );
        let widget2 = if res.1 != Interaction::Idle {
            res.0
        } else {
            pick_canonical_spec(moved, cands, inp.sw as int, inp.sh as int)
        };
        let st2 = TorusState { widget: widget2, was_pressed: pressed2, dialogue: dlg.0 };
        (
            st2,
            if dlg.1 {
                StageResult::AdvanceStage
            } else {
                StageResult::Continue
            },
        )
    }
}

/// Advances the torus stage by one frame.
pub fn torus_frame(st: TorusState, inp: FrameInput) -> (out: (TorusState, StageResult))
    requires
        st.wf(),
        inp.wf(),
    ensures
        out == torus_frame_spec(st, inp),
        out.0.wf(),
{
    if inp.quit {
        return (st, StageResult::Quit);
    }
    let center = st.widget.center();
    let disp = repel(inp.pointer.pos, center);
    let ncx = clamp_to_center(center.x + disp.x);
    let ncy = clamp_to_center(center.y + disp.y);
    let moved = Rect {
        x: ncx - st.widget.w / 2,
        y: ncy - st.widget.h / 2,
        w: st.widget.w,
        h: st.widget.h,
    };
    let cands = candidates(moved, inp.sw, inp.sh);
    let (winner, inter, pressed2) = resolve(moved, &cands, inp.pointer, st.was_pressed);
    let clicked = inter.is_clicked();
    let (dlg2, ends) = torus_dialogue_step(st.dialogue, clicked, inp.now_ms);
    let widget2 = if !matches!(inter, Interaction::Idle) {
        winner
    } else {
        pick_canonical(moved, &cands, inp.sw, inp.sh)
    };
    proof {
        if cands@.contains(widget2) {
            let i = choose|i: int| 0 <= i < cands@.len() && cands@[i] == widget2;
            assert(moved.x - inp.sw <= cands@[i].x <= moved.x + inp.sw);
        }
    }
    let st2 = TorusState { widget: widget2, was_pressed: pressed2, dialogue: dlg2 };
    (
        st2,
        if ends {
            StageResult::AdvanceStage
        } else {
            StageResult::Continue
        },
    )
}

/// The documented degenerate case: a pointer exactly at the widget's center
/// repels it by the zero vector, the widget keeps the pointer interaction,
/// and the canonical rectangle is unchanged — the next state is as well
/// formed as the old one.
pub proof fn lemma_torus_pointer_at_center_keeps_widget(st: TorusState, inp: FrameInput)
    requires
        st.wf(),
        inp.wf(),
        !inp.quit,
        inp.pointer.pos.x == st.widget.x + st.widget.w / 2,
        inp.pointer.pos.y == st.widget.y + st.widget.h / 2,
        -MAX_CENTER <= st.widget.x + st.widget.w / 2 <= MAX_CENTER,
        -MAX_CENTER <= st.widget.y + st.widget.h / 2 <= MAX_CENTER,
    ensures
        torus_frame_spec(st, inp).0.widget == st.widget,
        torus_frame_spec(st, inp).0.wf(),
{
    let center = Vec2 {
        x: (st.widget.x + st.widget.w / 2) as i64,
        y: (st.widget.y + st.widget.h / 2) as i64,
    };
    assert(inp.pointer.pos == center);
    crate::force::lemma_repel_at_center_is_zero(center);
    let disp = repel_spec(inp.pointer.pos, center);
    assert(disp == (0int, 0int));
    let moved = moved_widget_spec(st.widget, disp);
    assert(moved == st.widget);
    assert(moved.contains_spec(inp.pointer.pos));
    let cands = candidates_spec(moved, inp.sw as int, inp.sh as int);
    let res = resolve_spec(moved, cands, inp.pointer, st.was_pressed);
    assert(res.1 != Interaction::Idle);
    assert(res.0 == moved);
    let dlg = torus_dialogue_step_spec(st.dialogue, res.1 == Interaction::Clicked, inp.now_ms);
    assert(dlg.0 matches Option::Some(d2) ==> d2.wf());
}

/// The iterated torus stage: the state after a whole run of frames.
pub open spec fn torus_run_spec(st: TorusState, inputs: Seq<FrameInput>) -> TorusState
    decreases inputs.len(),
{
    if inputs.len() == 0 {
        st
    } else {
        torus_run_spec(torus_frame_spec(st, inputs[0]).0, inputs.drop_first())
    }
}

/// The documented degenerate case for a full duration, end to end: over any
/// run of frames in which the pointer sits exactly on the widget's center
/// and the quit trigger stays silent, the displacement stays at the zero
/// vector every frame and the widget never moves.
pub proof fn lemma_torus_pointer_at_center_full_duration(st: TorusState, inputs: Seq<FrameInput>)
    requires
        st.wf(),
        -MAX_CENTER <= st.widget.x + st.widget.w / 2 <= MAX_CENTER,
        -MAX_CENTER <= st.widget.y + st.widget.h / 2 <= MAX_CENTER,
        forall|i: int|
            0 <= i < inputs.len() ==> {
                &&& (#[trigger] inputs[i]).wf()
                &&& !inputs[i].quit
                &&& inputs[i].pointer.pos.x == st.widget.x + st.widget.w / 2
                &&& inputs[i].pointer.pos.y == st.widget.y + st.widget.h / 2
            },
    ensures
        torus_run_spec(st, inputs).widget == st.widget,
    decreases inputs.len(),
{
    if inputs.len() > 0 {
        lemma_torus_pointer_at_center_keeps_widget(st, inputs[0]);
        let st1 = torus_frame_spec(st, inputs[0]).0;
        assert(forall|i: int|
            0 <= i < inputs.drop_first().len() ==> #[trigger] inputs.drop_first()[i] == inputs[i
                + 1]);
        lemma_torus_pointer_at_center_full_duration(st1, inputs.drop_first());
    }
}

/// Which part of the prison stage is running.
#[derive(Clone, Copy, PartialEq, Eq, Structural, Debug)]
pub enum PrisonMode {
    /// The timeline plays: border, dialogue lines, then the give-up control.
    Watching,
    /// Giving up: the background fades toward the dark floor.
    Fading(i64),
    /// The dark screen shows the restart control.
    AwaitRestart,
}

/// State of the prison stage.
#[derive(Clone, Copy, PartialEq, Eq, Structural, Debug)]
pub struct PrisonState {
    pub widget: Rect,
    pub started_at_ms: i64,
    pub mode: PrisonMode,
}

impl PrisonState {
    pub open spec fn wf(self) -> bool {
        self.widget.arena_ok() && time_ok(self.started_at_ms) && (self.mode matches
            PrisonMode::Fading(b) ==> 0 <= b <= LIGHT_BG_MILLI)
    }
}

/// One frame of the prison stage.  The widget is guided to a fixed target
/// position; the fixed timeline drives the dialogue and, in its last phase,
/// the give-up control; giving up fades the background linearly to the dark
/// floor; the restart control then ends the stage.
pub open spec fn prison_frame_spec(
    st: PrisonState,
    inp: FrameInput,
    give_up_clicked: bool,
    restart_clicked: bool,
) -> (PrisonState, StageResult) {
    if inp.quit {
        (st, StageResult::Quit)
    } else {
        match st.mode {
            PrisonMode::Watching => {
                let target = (3 * inp.sw / 4, inp.sh / 4);
                let widget2 = Rect {
                    x: (target.0 - st.widget.w / 2) as i64,
                    y: (target.1 - st.widget.h / 2) as i64,
                    w: st.widget.w,
                    h: st.widget.h,
                };
                let phase = prison_phase_spec((inp.now_ms - st.started_at_ms) as i64);
                let mode2 = if phase == PrisonPhase::SecondLine && give_up_clicked {
                    PrisonMode::Fading(LIGHT_BG_MILLI)
                } else {
                    PrisonMode::Watching
                };
                (
                    PrisonState { widget: widget2, started_at_ms: st.started_at_ms, mode: mode2 },
                    StageResult::Continue,
                )
            },
            PrisonMode::Fading(b) => {
                let b2 = b - PRISON_FADE_STEP_MILLI;
                let mode2 = if b2 < FADE_FLOOR_MILLI {
                    PrisonMode::AwaitRestart
                } else {
                    PrisonMode::Fading(b2 as i64)
                };
                (
                    PrisonState { widget: st.widget, started_at_ms: st.started_at_ms, mode: mode2 },
                    StageResult::Continue,
                )
            },
            PrisonMode::AwaitRestart => {
                if restart_clicked {
                    (st, StageResult::AdvanceStage)
                } else {
                    (st, StageResult::Continue)
                }
            },
        }
    }
}

/// Advances the prison stage by one frame.  The give-up and restart click
/// signals come from the library's own push-button test on the control
/// rectangles the shell lays out.
pub fn prison_frame(st: PrisonState, inp: FrameInput, give_up_clicked: bool, restart_clicked: bool)
    -> (out: (PrisonState, StageResult))
    requires
        st.wf(),
        inp.wf(),
        inp.now_ms >= st.started_at_ms,
    ensures
        out == prison_frame_spec(st, inp, give_up_clicked, restart_clicked),
        out.0.wf(),
{
    if inp.quit {
        return (st, StageResult::Quit);
    }
    match st.mode {
        PrisonMode::Watching => {
            let tx = 3 * inp.sw / 4;
            let ty = inp.sh / 4;
            let widget2 = Rect {
                x: tx - st.widget.w / 2,
                y: ty - st.widget.h / 2,
                w: st.widget.w,
                h: st.widget.h,
            };
            let phase = prison_phase(inp.now_ms - st.started_at_ms);
            let mode2 = if matches!(phase, PrisonPhase::SecondLine) && give_up_clicked {
                PrisonMode::Fading(LIGHT_BG_MILLI)
            } else {
                PrisonMode::Watching
            };
            (
                PrisonState { widget: widget2, started_at_ms: st.started_at_ms, mode: mode2 },
                StageResult::Continue,
            )
        },
        PrisonMode::Fading(b) => {
            let b2 = b - PRISON_FADE_STEP_MILLI;
            let mode2 = if b2 < FADE_FLOOR_MILLI {
                PrisonMode::AwaitRestart
            } else {
                PrisonMode::Fading(b2)
            };
            (
                PrisonState { widget: st.widget, started_at_ms: st.started_at_ms, mode: mode2 },
                StageResult::Continue,
            )
        },
        PrisonMode::AwaitRestart => {
            if restart_clicked {
                (st, StageResult::AdvanceStage)
            } else {
                (st, StageResult::Continue)
            }
        },
    }
}

/// State of the rockets stage: the widget and the rocket pursuing it, once
/// one has spawned.
#[derive(Clone, Copy, PartialEq, Eq, Structural, Debug)]
pub struct RocketsState {
    pub widget: Rect,
    pub rocket: Option<Rocket>,
}

impl RocketsState {
    pub open spec fn wf(self) -> bool {
        self.widget.arena_ok() && (self.rocket matches Option::Some(r) ==> r.wf())
    }
}

/// What a rockets frame reports to the orchestrator.
#[derive(Clone, Copy, PartialEq, Eq, Structural, Debug)]
pub enum RocketsEvent {
    Continue,
    /// The rocket's front point entered the pointer's hitbox.
    HitPointer,
    /// The rocket's front point entered the widget's bounds.
    HitWidget,
    Quit,
}

/// The state after the reset key: widget re-centered on the screen, rocket
/// cleared; otherwise the state as it was.
pub open spec fn rockets_base_spec(st: RocketsState, inp: FrameInput) -> RocketsState {
    if inp.reset {
        RocketsState {
            widget: Rect {
                x: (inp.sw / 2 - st.widget.w / 2) as i64,
                y: (inp.sh / 2 - st.widget.h / 2) as i64,
                w: st.widget.w,
                h: st.widget.h,
            },
            rocket: Option::None,
        }
    } else {
        st
    }
}

/// The widget's center before this frame's motion.
pub open spec fn rockets_center_spec(st: RocketsState, inp: FrameInput) -> Vec2 {
    let base = rockets_base_spec(st, inp);
    Vec2 {
        x: (base.widget.x + base.widget.w / 2) as i64,
        y: (base.widget.y + base.widget.h / 2) as i64,
    }
}

/// The widget after this frame's goal-bent evasion from the pointer.
pub open spec fn rockets_widget2_spec(st: RocketsState, inp: FrameInput) -> Rect {
    let base = rockets_base_spec(st, inp);
    let screen_center = Vec2 { x: (inp.sw / 2) as i64, y: (inp.sh / 2) as i64 };
    let disp = repel_towards_spec(inp.pointer.pos, rockets_center_spec(st, inp), screen_center);
    moved_widget_spec(base.widget, disp)
}

/// The rocket after this frame: advanced and re-aimed if present, spawned
/// just above the widget if absent.
pub open spec fn rockets_rocket2_spec(st: RocketsState, inp: FrameInput) -> Rocket {
    let base = rockets_base_spec(st, inp);
    match base.rocket {
        Option::Some(r) => rocket_step_spec(r, inp.pointer.pos, rockets_center_spec(st, inp)),
        Option::None => spawn_rocket_spec(base.widget),
    }
}

/// One frame of the rockets stage: evasion with a pull toward the screen
/// center, the homing rocket's motion, and the two collision tests on its
/// tracked front point — the pointer's hitbox first, then the widget.
pub open spec fn rockets_frame_spec(st: RocketsState, inp: FrameInput) -> (
    RocketsState,
    RocketsEvent,
) {
    if inp.quit {
        (st, RocketsEvent::Quit)
    } else {
        let widget2 = rockets_widget2_spec(st, inp);
        let rocket2 = rockets_rocket2_spec(st, inp);
        let st2 = RocketsState { widget: widget2, rocket: Option::Some(rocket2) };
        let ev = if rocket_hits_spec(rocket2, mouse_hitbox_spec(inp.pointer.pos)) {
            RocketsEvent::HitPointer
        } else if rocket_hits_spec(rocket2, widget2) {
            RocketsEvent::HitWidget
        } else {
            RocketsEvent::Continue
        };
        (st2, ev)
    }
}

/// Advances the rockets stage by one frame.
pub fn rockets_frame(st: RocketsState, inp: FrameInput) -> (out: (RocketsState, RocketsEvent))
    requires
        st.wf(),
        inp.wf(),
    ensures
        out == rockets_frame_spec(st, inp),
        out.0.wf(),
{
    if inp.quit {
        return (st, RocketsEvent::Quit);
    }
    let base = if inp.reset {
        RocketsState {
            widget: Rect {
                x: inp.sw / 2 - st.widget.w / 2,
                y: inp.sh / 2 - st.widget.h / 2,
                w: st.widget.w,
                h: st.widget.h,
            },
            rocket: Option::None,
        }
    } else {
        st
    };
    let center = base.widget.center();
    let screen_center = Vec2 { x: inp.sw / 2, y: inp.sh / 2 };
    let disp = repel_towards(inp.pointer.pos, center, screen_center);
    let ncx = clamp_to_center(center.x + disp.x);
    let ncy = clamp_to_center(center.y + disp.y);
    let widget2 = Rect {
        x: ncx - base.widget.w / 2,
        y: ncy - base.widget.h / 2,
        w: base.widget.w,
        h: base.widget.h,
    };
    let rocket2 = match base.rocket {
        Option::Some(r) => rocket_step(r, inp.pointer.pos, center),
        Option::None => spawn_rocket(base.widget),
    };
    let hitbox = mouse_hitbox(inp.pointer.pos);
    let ev = if rocket_hits(rocket2, hitbox) {
        RocketsEvent::HitPointer
    } else if rocket_hits(rocket2, widget2) {
        RocketsEvent::HitWidget
    } else {
        RocketsEvent::Continue
    };
    (RocketsState { widget: widget2, rocket: Option::Some(rocket2) }, ev)
}

/// The stage the machine enters on each rockets event: the lost sub-dialog
/// on a pointer hit, the won sub-dialog on a widget hit.
pub open spec fn rockets_event_stage_spec(ev: RocketsEvent) -> Stage {
    match ev {
        RocketsEvent::Continue => Stage::Rockets,
        RocketsEvent::HitPointer => Stage::GameOver,
        RocketsEvent::HitWidget => Stage::GameWon,
        RocketsEvent::Quit => Stage::Finished,
    }
}

/// Maps a rockets event to the stage the machine enters.
pub fn rockets_event_stage(ev: RocketsEvent) -> (s: Stage)
    ensures
        s == rockets_event_stage_spec(ev),
{
    match ev {
        RocketsEvent::Continue => Stage::Rockets,
        RocketsEvent::HitPointer => Stage::GameOver,
        RocketsEvent::HitWidget => Stage::GameWon,
        RocketsEvent::Quit => Stage::Finished,
    }
}

/// End to end: a rocket whose tracked front point enters the widget's
/// bounds without entering the pointer's hitbox yields the won event on
/// that frame, and the machine enters the won sub-dialog, not the lost one.
pub proof fn lemma_rocket_front_in_widget_wins(st: RocketsState, inp: FrameInput)
    requires
        !inp.quit,
        rocket_hits_spec(rockets_rocket2_spec(st, inp), rockets_widget2_spec(st, inp)),
        !rocket_hits_spec(rockets_rocket2_spec(st, inp), mouse_hitbox_spec(inp.pointer.pos)),
    ensures
        rockets_frame_spec(st, inp).1 == RocketsEvent::HitWidget,
        rockets_event_stage_spec(rockets_frame_spec(st, inp).1) == Stage::GameWon,
{
}

/// Where a terminal sub-dialog stands.
#[derive(Clone, Copy, PartialEq, Eq, Structural, Debug)]
pub enum EndPhase {
    /// The background fades toward the dark floor at this brightness.
    Fading(i64),
    /// The dark screen waits for the restart key or the exit control.
    Waiting,
}

impl EndPhase {
    pub open spec fn wf(self) -> bool {
        self matches EndPhase::Fading(b) ==> 0 <= b <= LIGHT_BG_MILLI
    }
}

/// The phase a terminal sub-dialog opens in.
pub fn initial_end_phase() -> (p: EndPhase)
    ensures
        p == EndPhase::Fading(LIGHT_BG_MILLI),
        p.wf(),
{
    EndPhase::Fading(LIGHT_BG_MILLI)
}

/// One frame of a terminal sub-dialog: fade until the brightness floor,
/// then wait for the restart key (re-enter the stage) or the quit trigger
/// or exit control (leave).
pub open spec fn end_dialog_step_spec(
    ph: EndPhase,
    restart_key: bool,
    quit: bool,
    exit_clicked: bool,
) -> (EndPhase, Option<StageResult>) {
    match ph {
        EndPhase::Fading(b) => {
            let b2 = b - END_FADE_STEP_MILLI;
            if b2 < FADE_FLOOR_MILLI {
                (EndPhase::Waiting, Option::None)
            } else {
                (EndPhase::Fading(b2 as i64), Option::None)
            }
        },
        EndPhase::Waiting => {
            if restart_key {
                (EndPhase::Waiting, Option::Some(StageResult::RestartStage))
            } else if quit || exit_clicked {
                (EndPhase::Waiting, Option::Some(StageResult::Quit))
            } else {
                (EndPhase::Waiting, Option::None)
            }
        },
    }
}

/// Advances the lost sub-dialog by one frame; `Some` ends it with the
/// declared two-outcome contract.
pub fn game_over_step(ph: EndPhase, restart_key: bool, quit: bool, exit_clicked: bool) -> (out: (
    EndPhase,
    Option<AfterGameOver>,
))
    requires
        ph.wf(),
    ensures
        out.0 == end_dialog_step_spec(ph, restart_key, quit, exit_clicked).0,
        out.0.wf(),
        ({
            let r = end_dialog_step_spec(ph, restart_key, quit, exit_clicked).1;
            match out.1 {
                Option::None => r is None,
                Option::Some(AfterGameOver::RestartStage) => r == Option::Some(
                    StageResult::RestartStage,
                ),
                Option::Some(AfterGameOver::Quit) => r == Option::Some(StageResult::Quit),
            }
        }),
{
    match ph {
        EndPhase::Fading(b) => {
            let b2 = b - END_FADE_STEP_MILLI;
            if b2 < FADE_FLOOR_MILLI {
                (EndPhase::Waiting, Option::None)
            } else {
                (EndPhase::Fading(b2), Option::None)
            }
        },
        EndPhase::Waiting => {
            if restart_key {
                (EndPhase::Waiting, Option::Some(AfterGameOver::RestartStage))
            } else if quit || exit_clicked {
                (EndPhase::Waiting, Option::Some(AfterGameOver::Quit))
            } else {
                (EndPhase::Waiting, Option::None)
            }
        },
    }
}

/// Advances the won sub-dialog by one frame; `Some` ends it with the
/// declared two-outcome contract.
pub fn game_won_step(ph: EndPhase, restart_key: bool, quit: bool, exit_clicked: bool) -> (out: (
    EndPhase,
    Option<AfterGameWon>,
))
    requires
        ph.wf(),
    ensures
        out.0 == end_dialog_step_spec(ph, restart_key, quit, exit_clicked).0,
        out.0.wf(),
        ({
            let r = end_dialog_step_spec(ph, restart_key, quit, exit_clicked).1;
            match out.1 {
                Option::None => r is None,
                Option::Some(AfterGameWon::RestartStage) => r == Option::Some(
                    StageResult::RestartStage,
                ),
                Option::Some(AfterGameWon::Quit) => r == Option::Some(StageResult::Quit),
            }
        }),
{
    match ph {
        EndPhase::Fading(b) => {
            let b2 = b - END_FADE_STEP_MILLI;
            if b2 < FADE_FLOOR_MILLI {
                (EndPhase::Waiting, Option::None)
            } else {
                (EndPhase::Fading(b2), Option::None)
            }
        },
        EndPhase::Waiting => {
            if restart_key {
                (EndPhase::Waiting, Option::Some(AfterGameWon::RestartStage))
            } else if quit || exit_clicked {
                (EndPhase::Waiting, Option::Some(AfterGameWon::Quit))
            } else {
                (EndPhase::Waiting, Option::None)
            }
        },
    }
}

/// The stage the machine enters after the lost sub-dialog's outcome.
pub fn after_game_over_stage(a: AfterGameOver) -> (s: Stage)
    ensures
        s == (match a {
            AfterGameOver::RestartStage => Stage::Rockets,
            AfterGameOver::Quit => Stage::Finished,
        }),
{
    match a {
        AfterGameOver::RestartStage => Stage::Rockets,
        AfterGameOver::Quit => Stage::Finished,
    }
}

/// The stage the machine enters after the won sub-dialog's outcome.
pub fn after_game_won_stage(a: AfterGameWon) -> (s: Stage)
    ensures
        s == (match a {
            AfterGameWon::RestartStage => Stage::Rockets,
            AfterGameWon::Quit => Stage::Finished,
        }),
{
    match a {
        AfterGameWon::RestartStage => Stage::Rockets,
        AfterGameWon::Quit => Stage::Finished,
    }
}

/// A fresh widget of the given size, centered on the screen, with no
/// dialogue running and no press armed.
pub fn initial_torus_state(sw: i64, sh: i64, w: i64, h: i64) -> (st: TorusState)
    requires
        1 <= sw <= MAX_SCREEN,
        1 <= sh <= MAX_SCREEN,
        0 <= w <= MAX_SCREEN,
        0 <= h <= MAX_SCREEN,
    ensures
        st.widget.x == sw / 2 - w / 2,
        st.widget.y == sh / 2 - h / 2,
        st.widget.w == w,
        st.widget.h == h,
        st.was_pressed == false,
        st.dialogue is None,
        st.wf(),
{
    TorusState {
        widget: Rect { x: sw / 2 - w / 2, y: sh / 2 - h / 2, w, h },
        was_pressed: false,
        dialogue: Option::None,
    }
}

/// The prison stage as it opens: the widget handed over, the timeline
/// started now.
pub fn initial_prison_state(widget: Rect, now_ms: i64) -> (st: PrisonState)
    requires
        widget.arena_ok(),
        time_ok(now_ms),
    ensures
        st == (PrisonState { widget, started_at_ms: now_ms, mode: PrisonMode::Watching }),
        st.wf(),
{
    PrisonState { widget, started_at_ms: now_ms, mode: PrisonMode::Watching }
}

/// The rockets stage as it opens: the widget handed over, no rocket yet.
pub fn initial_rockets_state(widget: Rect) -> (st: RocketsState)
    requires
        widget.arena_ok(),
    ensures
        st == (RocketsState { widget, rocket: Option::None }),
        st.wf(),
{
    RocketsState { widget, rocket: Option::None }
}

} // verus!
