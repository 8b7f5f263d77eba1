use game_master::phase::{
    following_phase, knows_phase, raise_tension, standard_phase_thresholds, PhaseThreshold,
    MAX_TENSION, MIN_TENSION,
};

fn threshold(phase: &str, limit: i32) -> PhaseThreshold {
    PhaseThreshold { phase: phase.to_string(), limit }
}

#[test]
fn tension_range_is_zero_to_hundred() {
    assert_eq!(MIN_TENSION, 0);
    assert_eq!(MAX_TENSION, 100);
}

#[test]
fn raise_tension_adds_the_delta() {
    assert_eq!(raise_tension(20, 5), 25);
    assert_eq!(raise_tension(20, 14), 34);
    assert_eq!(raise_tension(0, 0), 0);
    assert_eq!(raise_tension(86, 14), 100);
}

#[test]
fn raise_tension_stops_at_hundred() {
    assert_eq!(raise_tension(95, 10), 100);
    assert_eq!(raise_tension(100, 5), 100);
    assert_eq!(raise_tension(100, 14), 100);
    assert_eq!(raise_tension(87, 14), 100);
}

#[test]
fn raise_tension_stops_at_zero() {
    assert_eq!(raise_tension(-50, 5), 0);
    assert_eq!(raise_tension(3, -10), 0);
}

#[test]
fn raise_tension_never_overflows() {
    assert_eq!(raise_tension(i32::MAX, i32::MAX), 100);
    assert_eq!(raise_tension(i32::MIN, i32::MIN), 0);
    assert_eq!(raise_tension(i32::MAX, i32::MIN), 0);
    assert_eq!(raise_tension(i32::MIN, i32::MAX), 0);
}

#[test]
fn raise_tension_is_in_range_for_every_start_and_delta() {
    let starts = [i32::MIN, -1000, -1, 0, 1, 50, 86, 87, 95, 100, 101, 5000, i32::MAX];
    for start in starts {
        for delta in 5..=14 {
            let raised = raise_tension(start, delta);
            assert!((0..=100).contains(&raised), "{} + {} gave {}", start, delta, raised);
        }
    }
}

#[test]
fn standard_arc_has_three_phases() {
    let arc = standard_phase_thresholds();
    assert_eq!(
        arc,
        vec![threshold("Build-Up", 40), threshold("Conflict", 70), threshold("Climax", 100)]
    );
}

#[test]
fn next_phase_is_the_first_open_phase_with_another_name() {
    let arc = standard_phase_thresholds();
    assert_eq!(following_phase(&arc, 30, "Conflict"), "Build-Up");
    assert_eq!(following_phase(&arc, 50, "Build-Up"), "Conflict");
    assert_eq!(following_phase(&arc, 80, "Build-Up"), "Climax");
    assert_eq!(following_phase(&arc, 80, "Conflict"), "Climax");
}

#[test]
fn next_phase_skips_the_current_phase() {
    let arc = standard_phase_thresholds();
    // Build-Up is open at 20 but is the current phase, so the scan goes on.
    assert_eq!(following_phase(&arc, 20, "Build-Up"), "Conflict");
    // Conflict is open at 50 but is the current phase.
    assert_eq!(following_phase(&arc, 50, "Conflict"), "Climax");
}

#[test]
fn next_phase_at_the_limits() {
    let arc = standard_phase_thresholds();
    assert_eq!(following_phase(&arc, 39, "Climax"), "Build-Up");
    assert_eq!(following_phase(&arc, 40, "Climax"), "Conflict");
    assert_eq!(following_phase(&arc, 69, "Climax"), "Conflict");
    assert_eq!(following_phase(&arc, 70, "Conflict"), "Climax");
    assert_eq!(following_phase(&arc, 99, "Conflict"), "Climax");
}

#[test]
fn next_phase_sticks_when_nothing_else_is_open() {
    let arc = standard_phase_thresholds();
    assert_eq!(following_phase(&arc, 70, "Climax"), "Climax");
    assert_eq!(following_phase(&arc, 99, "Climax"), "Climax");
}

#[test]
fn next_phase_is_climax_at_full_tension() {
    let arc = standard_phase_thresholds();
    assert_eq!(following_phase(&arc, 100, "Build-Up"), "Climax");
    assert_eq!(following_phase(&arc, 100, "Conflict"), "Climax");
    assert_eq!(following_phase(&arc, 100, "Climax"), "Climax");
    assert_eq!(following_phase(&arc, 100, "Epilogue"), "Climax");
    assert_eq!(following_phase(&arc, 250, "Epilogue"), "Climax");
}

#[test]
fn next_phase_can_step_back_when_tension_has_dropped() {
    let arc = standard_phase_thresholds();
    assert_eq!(following_phase(&arc, 10, "Climax"), "Build-Up");
    assert_eq!(following_phase(&arc, 10, "Conflict"), "Build-Up");
}

#[test]
fn next_phase_from_an_unlisted_phase() {
    let arc = standard_phase_thresholds();
    assert_eq!(following_phase(&arc, 0, "Prologue"), "Build-Up");
    assert_eq!(following_phase(&arc, 45, "Prologue"), "Conflict");
    assert_eq!(following_phase(&arc, 99, ""), "Climax");
}

#[test]
fn next_phase_on_an_empty_list_keeps_the_phase_below_full_tension() {
    let none: Vec<PhaseThreshold> = Vec::new();
    assert_eq!(following_phase(&none, 10, "Interlude"), "Interlude");
    assert_eq!(following_phase(&none, 100, "Interlude"), "Climax");
}

#[test]
fn next_phase_on_a_list_of_its_own() {
    let arc = vec![threshold("Dawn", 10), threshold("Noon", 50), threshold("Climax", 100)];
    assert_eq!(following_phase(&arc, 5, "Noon"), "Dawn");
    assert_eq!(following_phase(&arc, 5, "Dawn"), "Noon");
    assert_eq!(following_phase(&arc, 60, "Dawn"), "Climax");
}

#[test]
fn next_phase_is_always_a_listed_phase() {
    let arc = standard_phase_thresholds();
    let currents = ["Build-Up", "Conflict", "Climax", "", "Prologue", "climax"];
    for tension in 0..=100 {
        for current in currents {
            let next = following_phase(&arc, tension, current);
            assert!(knows_phase(&arc, &next), "{} from {:?} gave {:?}", tension, current, next);
        }
    }
}

#[test]
fn knows_phase_tells_listed_from_unlisted() {
    let arc = standard_phase_thresholds();
    assert!(knows_phase(&arc, "Build-Up"));
    assert!(knows_phase(&arc, "Conflict"));
    assert!(knows_phase(&arc, "Climax"));
    assert!(!knows_phase(&arc, "Epilogue"));
    assert!(!knows_phase(&arc, "build-up"));
    assert!(!knows_phase(&arc, ""));
    assert!(!knows_phase(&Vec::new(), "Climax"));
}
