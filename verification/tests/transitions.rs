//! The state-transition engine: win, loss, seasons, and the end-to-end
//! scenarios around terraforming and infrastructure.

use ecocity::buildings::Building;
use ecocity::game_state::{Action, GameState, Season, Status};
use ecocity::legal::find_legal_actions;
use ecocity::resources::Resources;
use ecocity::tile::Landscape;

fn refresh(gs: &mut GameState) {
    gs.legal_actions = find_legal_actions(&gs.tiles, gs.resources.education_culture);
}

#[test]
fn terraform_scenario() {
    let mut gs = GameState::initialize();
    gs.tiles[6].landscape = Landscape::Mountain;
    refresh(&mut gs);
    assert!(gs.legal_actions.contains(&Action::Terraform(6)));
    gs.advance(Action::Terraform(6));
    assert_eq!(gs.tiles[6].landscape, Landscape::Plains);
    assert_eq!(gs.resources, Resources::new(3, 0, -3, 0, 0));
    // A second terraform of the now-plains tile is no longer offered.
    assert!(!gs.legal_actions.contains(&Action::Terraform(6)));
}

#[test]
fn build_infrastructure_scenario() {
    let mut gs = GameState::initialize();
    assert!(gs.legal_actions.contains(&Action::BuildInfrastructure(6, 4)));
    gs.advance(Action::BuildInfrastructure(6, 4));
    assert!(gs.tiles[4].usable);
    assert!(gs.tiles[6].connections[4]);
    assert!(gs.tiles[4].connections[6]);
    assert_eq!(gs.resources, Resources::new(2, 0, -3, 0, 0));
}

#[test]
fn build_pays_cost_and_occupies_slot() {
    let mut gs = GameState::initialize();
    gs.advance(Action::Build(Building::Store, 6));
    assert_eq!(gs.tiles[6].spaces[0], Building::Store);
    assert_eq!(gs.tiles[6].spaces_left, 2);
    assert_eq!(gs.resources, Resources::new(1, 2, -1, 0, 0));
}

#[test]
fn win_triggers_when_all_three_thresholds_met() {
    let mut gs = GameState::initialize();
    gs.resources = Resources::new(0, 15, 14, 15, 0);
    refresh(&mut gs);
    assert_eq!(gs.status, Status::Running);
    // The biotope adds 2 sustainability: 14 -> 16, crossing the last
    // threshold.
    gs.advance(Action::Build(Building::Biotope, 6));
    assert_eq!(gs.status, Status::Win);
    assert_eq!(ecocity::ai::evaluate_gamestate(&gs), 1000);
}

#[test]
fn win_needs_all_axes_simultaneously() {
    let mut gs = GameState::initialize();
    gs.resources = Resources::new(0, 15, 2, 15, 0);
    refresh(&mut gs);
    gs.advance(Action::Build(Building::Biotope, 6));
    assert_eq!(gs.status, Status::Running);
}

#[test]
fn doom_timer_counts_high_co2_turns() {
    let mut gs = GameState::initialize();
    gs.resources = Resources::new(25, 0, 0, 0, 0);
    refresh(&mut gs);
    assert_eq!(gs.doom_timer, 0);
    gs.advance(Action::Build(Building::Store, 6));
    // 25 + 1 = 26 >= 20: the timer counts up.
    assert_eq!(gs.doom_timer, 1);
    assert_eq!(gs.status, Status::Running);
}

#[test]
fn doom_timer_resets_below_twenty() {
    let mut gs = GameState::initialize();
    gs.resources = Resources::new(25, 0, 0, 0, 0);
    gs.doom_timer = 3;
    refresh(&mut gs);
    // The biotope removes 3 instant CO2: 25 - 3 = 22, still high.
    gs.advance(Action::Build(Building::Biotope, 6));
    assert_eq!(gs.doom_timer, 4);
    assert_eq!(gs.status, Status::Running);
    // National park: 22 - 6 = 16 < 20, but the timer already struck.
    gs.advance(Action::Build(Building::NationalPark, 6));
    assert_eq!(gs.status, Status::Loss);
}

#[test]
fn doom_timer_snaps_back_once_co2_drops() {
    let mut gs = GameState::initialize();
    gs.resources = Resources::new(21, 0, 0, 0, 0);
    gs.doom_timer = 2;
    refresh(&mut gs);
    // The biotope removes 3 instant CO2: 21 - 3 = 18 < 20.
    gs.advance(Action::Build(Building::Biotope, 6));
    assert_eq!(gs.doom_timer, 0);
    assert_eq!(gs.status, Status::Running);
}

#[test]
fn season_cycles_and_folds_yearly_co2_once() {
    let mut gs = GameState::initialize();
    gs.resources = Resources::new(0, 0, 0, 0, 5);
    refresh(&mut gs);
    assert_eq!(gs.season, Season::Spring);
    gs.advance(Action::BuildInfrastructure(6, 2));
    assert_eq!(gs.season, Season::Summer);
    assert_eq!(gs.resources.instant_co2, 2);
    gs.advance(Action::BuildInfrastructure(6, 4));
    assert_eq!(gs.season, Season::Autumn);
    assert_eq!(gs.resources.instant_co2, 4);
    gs.advance(Action::BuildInfrastructure(6, 5));
    assert_eq!(gs.season, Season::Winter);
    assert_eq!(gs.resources.instant_co2, 6);
    // Crossing winter into spring folds the yearly CO2 in, exactly once.
    gs.advance(Action::BuildInfrastructure(6, 7));
    assert_eq!(gs.season, Season::Spring);
    assert_eq!(gs.resources.instant_co2, 8 + 5);
    assert_eq!(gs.resources.yearly_co2, 5);
    // The next turn adds no yearly CO2 again.
    gs.advance(Action::BuildInfrastructure(6, 8));
    assert_eq!(gs.season, Season::Summer);
    assert_eq!(gs.resources.instant_co2, 15);
}

#[test]
fn advance_recomputes_legal_actions() {
    let mut gs = GameState::initialize();
    gs.advance(Action::BuildInfrastructure(6, 4));
    // Tile 4 became usable, so it contributes actions now; the taken pair
    // is gone.
    assert!(!gs.legal_actions.contains(&Action::BuildInfrastructure(6, 4)));
    assert!(!gs.legal_actions.contains(&Action::BuildInfrastructure(4, 6)));
    assert!(gs.legal_actions.contains(&Action::BuildInfrastructure(4, 1)));
}

#[test]
fn duplicate_is_a_deep_copy() {
    let mut gs = GameState::initialize();
    let copy = gs.duplicate();
    gs.advance(Action::Build(Building::Store, 6));
    assert_eq!(copy.resources, Resources::new(0, 0, 0, 0, 0));
    assert_eq!(copy.tiles[6].spaces[0], Building::Empty);
    assert_eq!(gs.tiles[6].spaces[0], Building::Store);
}
