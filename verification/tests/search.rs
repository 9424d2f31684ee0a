//! The search engine: the initial position, determinism, the sentinel on
//! dead positions, and the content-hash keyed score table.

use std::collections::HashMap;

use ecocity::ai::{search_best_move, search_best_move_recursive};
use ecocity::buildings::Building;
use ecocity::game_state::{Action, GameState};
use ecocity::legal::find_legal_actions;
use ecocity::resources::Resources;
use ecocity::tile::Landscape;

fn refresh(gs: &mut GameState) {
    gs.legal_actions = find_legal_actions(&gs.tiles, gs.resources.education_culture);
}

/// A position with no legal action at all: the start tile full and fully
/// connected, everything else unusable.
fn dead_position() -> GameState {
    let mut gs = GameState::initialize();
    gs.tiles[6].spaces = vec![Building::Factory, Building::Store, Building::Field];
    gs.tiles[6].spaces_left = 0;
    gs.tiles[6].connections = vec![true; 13];
    refresh(&mut gs);
    assert!(gs.legal_actions.is_empty());
    gs
}

#[test]
fn fresh_state_has_one_usable_tile_and_its_actions() {
    let gs = GameState::initialize();
    for i in 0..13 {
        assert_eq!(gs.tiles[i].usable, i == 6, "tile {}", i);
    }
    assert_eq!(gs.tiles[6].landscape, Landscape::Plains);
    assert_eq!(gs.resources, Resources::new(0, 0, 0, 0, 0));
    // Plains is never terraformed, so the fresh list is exactly the six
    // open neighbour pairs of cell 6 followed by the fourteen buildings
    // plains permits at science 0, in enumeration order.
    let expected = vec![
        Action::BuildInfrastructure(6, 2),
        Action::BuildInfrastructure(6, 4),
        Action::BuildInfrastructure(6, 5),
        Action::BuildInfrastructure(6, 7),
        Action::BuildInfrastructure(6, 8),
        Action::BuildInfrastructure(6, 10),
        Action::Build(Building::Factory, 6),
        Action::Build(Building::Store, 6),
        Action::Build(Building::CoalPowerPlant, 6),
        Action::Build(Building::Trees, 6),
        Action::Build(Building::River, 6),
        Action::Build(Building::Livestock, 6),
        Action::Build(Building::Field, 6),
        Action::Build(Building::Biotope, 6),
        Action::Build(Building::NationalPark, 6),
        Action::Build(Building::EnvironmentalProtectionArea, 6),
        Action::Build(Building::School, 6),
        Action::Build(Building::Museum, 6),
        Action::Build(Building::Zoo, 6),
        Action::Build(Building::Library, 6),
    ];
    assert_eq!(gs.legal_actions, expected);
}

#[test]
fn search_score_is_deterministic_across_runs() {
    let gs = GameState::initialize();
    let copy = gs.duplicate();
    let mut table1: HashMap<u64, i16> = HashMap::new();
    let mut table2: HashMap<u64, i16> = HashMap::new();
    let (score1, action1) = search_best_move(3, &gs, &mut table1);
    let (score2, action2) = search_best_move(3, &copy, &mut table2);
    assert_eq!(score1, score2);
    assert_eq!(action1, action2);
    assert!(gs.legal_actions.contains(&action1));
}

#[test]
fn search_does_not_mutate_the_state() {
    let gs = GameState::initialize();
    let before = gs.duplicate();
    let mut table: HashMap<u64, i16> = HashMap::new();
    let _ = search_best_move(2, &gs, &mut table);
    assert_eq!(gs.resources, before.resources);
    assert_eq!(gs.legal_actions, before.legal_actions);
    assert_eq!(gs.season, before.season);
    for i in 0..13 {
        assert_eq!(gs.tiles[i].spaces, before.tiles[i].spaces);
        assert_eq!(gs.tiles[i].usable, before.tiles[i].usable);
    }
}

#[test]
fn search_prefers_non_infrastructure_moves() {
    let gs = GameState::initialize();
    let mut table: HashMap<u64, i16> = HashMap::new();
    let (_, action) = search_best_move(2, &gs, &mut table);
    assert!(!matches!(action, Action::BuildInfrastructure(_, _)));
}

#[test]
fn dead_position_returns_sentinel() {
    let gs = dead_position();
    let mut table: HashMap<u64, i16> = HashMap::new();
    let (score, action) = search_best_move(3, &gs, &mut table);
    assert_eq!(score, -1000);
    assert_eq!(action, Action::Terraform(420));
}

#[test]
fn depth_zero_recursion_scores_directly() {
    let mut gs = GameState::initialize();
    gs.resources = Resources::new(0, 7, -2, 3, 0);
    refresh(&mut gs);
    let mut table: HashMap<u64, i16> = HashMap::new();
    assert_eq!(search_best_move_recursive(0, &gs, &mut table), 7 - 2 + 3);
    assert!(table.is_empty());
}

#[test]
fn table_caches_by_content_hash() {
    // Two states that differ in their building layout must be scored
    // independently even when they share one table: a shared entry would
    // mean the hash ignored the layout.
    let gs_a = GameState::initialize();
    let mut gs_b = GameState::initialize();
    gs_b.resources = Resources::new(0, 9, 9, 9, 0);
    refresh(&mut gs_b);
    let mut shared: HashMap<u64, i16> = HashMap::new();
    let score_a = search_best_move_recursive(1, &gs_a, &mut shared);
    let score_b_shared = search_best_move_recursive(1, &gs_b, &mut shared);
    let mut fresh: HashMap<u64, i16> = HashMap::new();
    let score_b_fresh = search_best_move_recursive(1, &gs_b, &mut fresh);
    assert_eq!(score_b_shared, score_b_fresh);
    assert_ne!(score_a, score_b_shared);
}

#[test]
fn table_hit_short_circuits() {
    let gs = GameState::initialize();
    let mut table: HashMap<u64, i16> = HashMap::new();
    let score = search_best_move_recursive(2, &gs, &mut table);
    // The root's own entry is in the table now; a second run at the same
    // depth must return it unchanged.
    let again = search_best_move_recursive(2, &gs, &mut table);
    assert_eq!(score, again);
}
