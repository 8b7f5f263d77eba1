use game_master::catalog::{narrative_for, templates_for_phase, Effect, EventTemplate, PhaseNarrative};

fn template(phase: &str, description: &str) -> EventTemplate {
    EventTemplate { phase: phase.to_string(), description: description.to_string(), effect: None }
}

fn line(phase: &str, text: &str) -> PhaseNarrative {
    PhaseNarrative { phase: phase.to_string(), text: text.to_string() }
}

#[test]
fn templates_for_phase_keeps_catalog_order() {
    let catalog = vec![
        template("Conflict", "first"),
        template("Build-Up", "second"),
        template("Conflict", "third"),
        template("Climax", "fourth"),
        template("Conflict", "fifth"),
    ];
    let found = templates_for_phase(&catalog, "Conflict");
    let descriptions: Vec<&str> = found.iter().map(|t| t.description.as_str()).collect();
    assert_eq!(descriptions, vec!["first", "third", "fifth"]);
}

#[test]
fn templates_for_phase_hands_out_the_catalogs_own_templates() {
    let catalog = vec![
        EventTemplate {
            phase: "Climax".to_string(),
            description: "The gates fall".to_string(),
            effect: Some(Effect {
                query: "UPDATE locations SET safety = 0 WHERE name = '{location}'".to_string(),
                params: vec!["{location}".to_string()],
            }),
        },
        template("Build-Up", "Rumours"),
    ];
    let found = templates_for_phase(&catalog, "Climax");
    assert_eq!(found.len(), 1);
    assert_eq!(*found[0], catalog[0]);
}

#[test]
fn templates_for_phase_can_be_empty() {
    let catalog = vec![template("Conflict", "first"), template("Build-Up", "second")];
    assert!(templates_for_phase(&catalog, "Climax").is_empty());
    assert!(templates_for_phase(&catalog, "conflict").is_empty());
    assert!(templates_for_phase(&Vec::new(), "Conflict").is_empty());
}

#[test]
fn templates_for_phase_can_be_the_whole_catalog() {
    let catalog = vec![template("Climax", "a"), template("Climax", "b")];
    let found = templates_for_phase(&catalog, "Climax");
    assert_eq!(found.len(), 2);
    assert_eq!(found[0].description, "a");
    assert_eq!(found[1].description, "b");
}

#[test]
fn narrative_for_a_phase_with_a_line() {
    let cycles = vec![
        line("Build-Up", "Whispers spread."),
        line("Conflict", "Steel is drawn."),
        line("Climax", "Everything burns."),
    ];
    assert_eq!(narrative_for(&cycles, "Build-Up"), "Whispers spread.");
    assert_eq!(narrative_for(&cycles, "Conflict"), "Steel is drawn.");
    assert_eq!(narrative_for(&cycles, "Climax"), "Everything burns.");
}

#[test]
fn narrative_for_a_phase_without_a_line_falls_back() {
    let cycles = vec![line("Build-Up", "Whispers spread.")];
    assert_eq!(narrative_for(&cycles, "Conflict"), "The story unfolds...");
    assert_eq!(narrative_for(&cycles, ""), "The story unfolds...");
    assert_eq!(narrative_for(&Vec::new(), "Build-Up"), "The story unfolds...");
}

#[test]
fn narrative_for_takes_the_first_line_of_a_phase() {
    let cycles = vec![line("Conflict", "first"), line("Conflict", "second")];
    assert_eq!(narrative_for(&cycles, "Conflict"), "first");
}
