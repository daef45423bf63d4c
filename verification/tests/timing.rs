use press_to_start::dialogue::{
    fade_done, fade_step, prison_phase, prison_thickness, torus_dialogue_step, Dialogue,
    PrisonPhase, DIALOG_DELAY_MS, END_FADE_STEP_MILLI, FADE_FLOOR_MILLI, LIGHT_BG_MILLI,
    PRISON_FADE_STEP_MILLI, TORUS_LINES,
};

#[test]
fn click_starts_the_dialogue() {
    let (next, ends) = torus_dialogue_step(None, true, 1000);
    assert_eq!(next, Some(Dialogue { started_at_ms: 1000, line: 0 }));
    assert!(!ends);
}

#[test]
fn no_click_no_dialogue() {
    let (next, ends) = torus_dialogue_step(None, false, 1000);
    assert_eq!(next, None);
    assert!(!ends);
}

#[test]
fn click_before_minimum_delay_does_not_advance() {
    let d = Dialogue { started_at_ms: 1000, line: 0 };
    let (next, ends) = torus_dialogue_step(Some(d), true, 1000 + DIALOG_DELAY_MS - 1);
    assert_eq!(next, Some(d));
    assert!(!ends);
}

#[test]
fn click_after_minimum_delay_advances_and_restamps() {
    let d = Dialogue { started_at_ms: 1000, line: 0 };
    let now = 1000 + DIALOG_DELAY_MS;
    let (next, ends) = torus_dialogue_step(Some(d), true, now);
    assert_eq!(next, Some(Dialogue { started_at_ms: now, line: 1 }));
    assert!(!ends);
}

#[test]
fn time_alone_does_not_advance_a_line() {
    // Only the declared trigger (a click) advances; ambient time never does.
    let d = Dialogue { started_at_ms: 1000, line: 0 };
    let (next, ends) = torus_dialogue_step(Some(d), false, 1000 + 10 * DIALOG_DELAY_MS);
    assert_eq!(next, Some(d));
    assert!(!ends);
}

#[test]
fn final_line_delay_elapsing_ends_the_stage() {
    let d = Dialogue { started_at_ms: 1000, line: TORUS_LINES - 1 };
    let (next, ends) = torus_dialogue_step(Some(d), false, 1000 + DIALOG_DELAY_MS + 1);
    assert_eq!(next, None);
    assert!(ends);
    // At the delay exactly, the line still stands.
    let (next, ends) = torus_dialogue_step(Some(d), false, 1000 + DIALOG_DELAY_MS);
    assert_eq!(next, Some(d));
    assert!(!ends);
}

#[test]
fn click_on_final_line_does_not_advance_past_it() {
    let d = Dialogue { started_at_ms: 1000, line: TORUS_LINES - 1 };
    let (next, ends) = torus_dialogue_step(Some(d), true, 1000 + DIALOG_DELAY_MS);
    assert_eq!(next, Some(d));
    assert!(!ends);
}

#[test]
fn prison_timeline_phases() {
    assert_eq!(prison_phase(0), PrisonPhase::FirstLine);
    assert_eq!(prison_phase(DIALOG_DELAY_MS - 1), PrisonPhase::FirstLine);
    assert_eq!(prison_phase(DIALOG_DELAY_MS), PrisonPhase::Pause);
    assert_eq!(prison_phase(6249), PrisonPhase::Pause);
    assert_eq!(prison_phase(6250), PrisonPhase::SecondLine);
    assert_eq!(prison_phase(1_000_000), PrisonPhase::SecondLine);
}

#[test]
fn prison_border_thickness_profile() {
    assert_eq!(prison_thickness(0), 0);
    assert_eq!(prison_thickness(500), 20_000);
    assert_eq!(prison_thickness(999), 39_960);
    assert_eq!(prison_thickness(1000), 40_000);
    assert_eq!(prison_thickness(1500), 24_000);
    assert_eq!(prison_thickness(2000), 8_000);
    assert_eq!(prison_thickness(60_000), 8_000);
}

#[test]
fn fades_step_linearly_to_the_floor() {
    assert_eq!(fade_step(LIGHT_BG_MILLI, PRISON_FADE_STEP_MILLI), 770);
    assert_eq!(fade_step(LIGHT_BG_MILLI, END_FADE_STEP_MILLI), 773);
    assert!(!fade_done(FADE_FLOOR_MILLI));
    assert!(fade_done(FADE_FLOOR_MILLI - 1));
}

#[test]
fn prison_fade_reaches_floor_in_59_steps() {
    let mut b = LIGHT_BG_MILLI;
    let mut steps = 0;
    while !fade_done(b) {
        b = fade_step(b, PRISON_FADE_STEP_MILLI);
        steps += 1;
        assert!(steps <= 100);
    }
    assert_eq!(steps, 59);
}
