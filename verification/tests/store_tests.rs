use game_master::store::{get_world_state, log_event, populate_initial_data, StoreError, StoreOp};
use game_master::world::{Faction, Location, Npc, Player, World, WorldState};

fn location(id: i32, name: &str, prosperity: i32, safety: i32) -> Location {
    Location { id, name: name.to_string(), prosperity, safety }
}

fn faction(id: i32, name: &str, power: i32, relation: &str) -> Faction {
    Faction { id, name: name.to_string(), power, relation: relation.to_string() }
}

fn world(tension: i32, phase: &str) -> World {
    World { tension, story_phase: phase.to_string() }
}

#[test]
fn initial_world_holds_the_seed_records() {
    let state = populate_initial_data();
    assert_eq!(
        state.locations,
        vec![location(1, "Capital", 80, 90), location(2, "Willowbrook", 50, 60)]
    );
    assert_eq!(
        state.factions,
        vec![faction(1, "Royal Guard", 70, "Friendly"), faction(2, "Bandits", 30, "Hostile")]
    );
    assert_eq!(
        state.npcs,
        vec![Npc {
            id: 1,
            name: "King Alric".to_string(),
            role: "Ruler".to_string(),
            status: "Alive".to_string(),
            location_id: 1,
        }]
    );
    assert_eq!(state.player, Player { id: 1, location_id: 1, reputation: 50 });
    assert_eq!(state.world, world(20, "Build-Up"));
}

#[test]
fn snapshot_is_made_of_the_rows() {
    let seed = populate_initial_data();
    let state = get_world_state(
        seed.locations.clone(),
        seed.factions.clone(),
        seed.npcs.clone(),
        vec![seed.player.clone()],
        vec![seed.world.clone()],
    );
    assert_eq!(state, Ok(seed));
}

#[test]
fn snapshot_takes_the_first_player_and_the_first_world() {
    let state = get_world_state(
        vec![],
        vec![],
        vec![],
        vec![
            Player { id: 1, location_id: 4, reputation: 9 },
            Player { id: 2, location_id: 5, reputation: 10 },
            Player { id: 3, location_id: 6, reputation: 11 },
        ],
        vec![world(30, "Conflict"), world(90, "Climax")],
    )
    .unwrap();
    assert_eq!(state.player, Player { id: 1, location_id: 4, reputation: 9 });
    assert_eq!(state.world, world(30, "Conflict"));
    assert!(state.locations.is_empty());
    assert!(state.factions.is_empty());
    assert!(state.npcs.is_empty());
}

#[test]
fn snapshot_needs_a_player_row() {
    let seed = populate_initial_data();
    let state = get_world_state(seed.locations, seed.factions, seed.npcs, vec![], vec![seed.world]);
    assert_eq!(state, Err(StoreError::RowNotFound));
}

#[test]
fn snapshot_needs_a_world_row() {
    let seed = populate_initial_data();
    let state = get_world_state(seed.locations, seed.factions, seed.npcs, vec![seed.player], vec![]);
    assert_eq!(state, Err(StoreError::RowNotFound));
}

#[test]
fn snapshot_of_an_empty_store_is_refused() {
    assert_eq!(get_world_state(vec![], vec![], vec![], vec![], vec![]), Err(StoreError::RowNotFound));
}

#[test]
fn reading_the_same_rows_twice_gives_the_same_snapshot() {
    let seed = populate_initial_data();
    let read = |seed: &WorldState| {
        get_world_state(
            seed.locations.clone(),
            seed.factions.clone(),
            seed.npcs.clone(),
            vec![seed.player.clone()],
            vec![seed.world.clone()],
        )
    };
    let first = read(&seed);
    let second = read(&seed);
    assert!(first.is_ok());
    assert_eq!(first, second);
}

#[test]
fn set_player_location_moves_the_player_only() {
    let mut state = populate_initial_data();
    let before = state.clone();
    assert_eq!(state.apply(&StoreOp::SetPlayerLocation { location_id: 2 }), Ok(()));
    assert_eq!(state.player, Player { id: 1, location_id: 2, reputation: 50 });
    assert_eq!(state.locations, before.locations);
    assert_eq!(state.factions, before.factions);
    assert_eq!(state.npcs, before.npcs);
    assert_eq!(state.world, before.world);
}

#[test]
fn set_player_location_takes_an_id_that_no_location_has() {
    let mut state = populate_initial_data();
    assert_eq!(state.apply(&StoreOp::SetPlayerLocation { location_id: 77 }), Ok(()));
    assert_eq!(state.player.location_id, 77);
}

#[test]
fn adjust_location_raises_the_location_with_the_id() {
    let mut state = populate_initial_data();
    let op = StoreOp::AdjustLocation { location_id: 2, prosperity: 10, safety: 10 };
    assert_eq!(state.apply(&op), Ok(()));
    assert_eq!(
        state.locations,
        vec![location(1, "Capital", 80, 90), location(2, "Willowbrook", 60, 70)]
    );
}

#[test]
fn adjust_location_takes_two_amounts_and_negative_ones() {
    let mut state = populate_initial_data();
    let op = StoreOp::AdjustLocation { location_id: 1, prosperity: -30, safety: 5 };
    assert_eq!(state.apply(&op), Ok(()));
    assert_eq!(state.locations[0], location(1, "Capital", 50, 95));
    assert_eq!(state.locations[1], location(2, "Willowbrook", 50, 60));
}

#[test]
fn adjust_location_without_a_match_changes_nothing() {
    let mut state = populate_initial_data();
    let before = state.clone();
    let op = StoreOp::AdjustLocation { location_id: 9, prosperity: 10, safety: 10 };
    assert_eq!(state.apply(&op), Ok(()));
    assert_eq!(state, before);
}

#[test]
fn adjust_location_raises_every_location_with_the_id() {
    let mut state = populate_initial_data();
    state.locations.push(location(2, "Willowbrook Mill", 1, 2));
    let op = StoreOp::AdjustLocation { location_id: 2, prosperity: 10, safety: 20 };
    assert_eq!(state.apply(&op), Ok(()));
    assert_eq!(
        state.locations,
        vec![
            location(1, "Capital", 80, 90),
            location(2, "Willowbrook", 60, 80),
            location(2, "Willowbrook Mill", 11, 22),
        ]
    );
}

#[test]
fn adjust_location_out_of_range_changes_nothing() {
    let mut state = populate_initial_data();
    state.locations.push(location(2, "Willowbrook Mill", i32::MAX - 5, 0));
    let before = state.clone();
    let op = StoreOp::AdjustLocation { location_id: 2, prosperity: 10, safety: 10 };
    assert_eq!(state.apply(&op), Err(StoreError::ValueOutOfRange));
    assert_eq!(state, before);
    let op = StoreOp::AdjustLocation { location_id: 2, prosperity: 5, safety: 10 };
    assert_eq!(state.apply(&op), Ok(()));
    assert_eq!(state.locations[2], location(2, "Willowbrook Mill", i32::MAX, 10));
}

#[test]
fn adjust_location_checks_safety_as_well() {
    let mut state = populate_initial_data();
    state.locations[0].safety = i32::MIN + 3;
    let before = state.clone();
    let op = StoreOp::AdjustLocation { location_id: 1, prosperity: 0, safety: -4 };
    assert_eq!(state.apply(&op), Err(StoreError::ValueOutOfRange));
    assert_eq!(state, before);
}

#[test]
fn reduce_faction_power_weakens_the_faction_with_the_id() {
    let mut state = populate_initial_data();
    assert_eq!(state.apply(&StoreOp::ReduceFactionPower { faction_id: 2, amount: 10 }), Ok(()));
    assert_eq!(
        state.factions,
        vec![faction(1, "Royal Guard", 70, "Friendly"), faction(2, "Bandits", 20, "Hostile")]
    );
}

#[test]
fn reduce_faction_power_can_go_below_zero() {
    let mut state = populate_initial_data();
    assert_eq!(state.apply(&StoreOp::ReduceFactionPower { faction_id: 2, amount: 45 }), Ok(()));
    assert_eq!(state.factions[1].power, -15);
}

#[test]
fn reduce_faction_power_without_a_match_changes_nothing() {
    let mut state = populate_initial_data();
    let before = state.clone();
    assert_eq!(state.apply(&StoreOp::ReduceFactionPower { faction_id: 3, amount: 10 }), Ok(()));
    assert_eq!(state, before);
}

#[test]
fn reduce_faction_power_out_of_range_changes_nothing() {
    let mut state = populate_initial_data();
    state.factions[0].power = i32::MIN + 1;
    let before = state.clone();
    assert_eq!(
        state.apply(&StoreOp::ReduceFactionPower { faction_id: 1, amount: 2 }),
        Err(StoreError::ValueOutOfRange)
    );
    assert_eq!(state, before);
    assert_eq!(state.apply(&StoreOp::ReduceFactionPower { faction_id: 1, amount: 1 }), Ok(()));
    assert_eq!(state.factions[0].power, i32::MIN);
}

#[test]
fn add_reputation_adds_to_the_players_reputation() {
    let mut state = populate_initial_data();
    assert_eq!(state.apply(&StoreOp::AddReputation { amount: 5 }), Ok(()));
    assert_eq!(state.player, Player { id: 1, location_id: 1, reputation: 55 });
    assert_eq!(state.apply(&StoreOp::AddReputation { amount: -60 }), Ok(()));
    assert_eq!(state.player.reputation, -5);
}

#[test]
fn add_reputation_out_of_range_changes_nothing() {
    let mut state = populate_initial_data();
    state.player.reputation = i32::MAX - 2;
    let before = state.clone();
    assert_eq!(state.apply(&StoreOp::AddReputation { amount: 3 }), Err(StoreError::ValueOutOfRange));
    assert_eq!(state, before);
    assert_eq!(state.apply(&StoreOp::AddReputation { amount: 2 }), Ok(()));
    assert_eq!(state.player.reputation, i32::MAX);
}

#[test]
fn set_world_replaces_tension_and_phase() {
    let mut state = populate_initial_data();
    let before = state.clone();
    let op = StoreOp::SetWorld { tension: 45, story_phase: "Conflict".to_string() };
    assert_eq!(state.apply(&op), Ok(()));
    assert_eq!(state.world, world(45, "Conflict"));
    assert_eq!(state.player, before.player);
    assert_eq!(state.locations, before.locations);
    assert_eq!(state.factions, before.factions);
    assert_eq!(state.npcs, before.npcs);
}

#[test]
fn log_event_leaves_the_snapshot_alone() {
    let mut state = populate_initial_data();
    let before = state.clone();
    let op = StoreOp::LogEvent { description: "A storm".to_string(), caused_by: "System".to_string() };
    assert_eq!(state.apply(&op), Ok(()));
    assert_eq!(state, before);
}

#[test]
fn log_event_appends_one_entry() {
    let mut ops = vec![StoreOp::AddReputation { amount: 1 }];
    log_event(&mut ops, "Knight moved to location 2".to_string(), "Player");
    assert_eq!(
        ops,
        vec![
            StoreOp::AddReputation { amount: 1 },
            StoreOp::LogEvent {
                description: "Knight moved to location 2".to_string(),
                caused_by: "Player".to_string(),
            },
        ]
    );
    log_event(&mut ops, "The harvest fails".to_string(), "System");
    assert_eq!(ops.len(), 3);
    assert_eq!(
        ops[2],
        StoreOp::LogEvent { description: "The harvest fails".to_string(), caused_by: "System".to_string() }
    );
}
