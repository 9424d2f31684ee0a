//! Placement rules, slot bookkeeping and the evaluator.

use ecocity::buildings::Building;
use ecocity::game_state::{Action, GameState, Status};
use ecocity::legal::find_legal_actions;
use ecocity::resources::Resources;
use ecocity::tile::{Landscape, Tile};

fn all_buildings() -> Vec<Building> {
    vec![
        Building::Factory,
        Building::Store,
        Building::CoalPowerPlant,
        Building::Trees,
        Building::River,
        Building::Livestock,
        Building::Field,
        Building::SolarPark,
        Building::OffshoreTurbines,
        Building::Biotope,
        Building::NationalPark,
        Building::EnvironmentalProtectionArea,
        Building::School,
        Building::Museum,
        Building::Zoo,
        Building::Library,
        Building::University,
    ]
}

fn landscape_permits(l: Landscape, b: Building) -> bool {
    match l {
        Landscape::Plains => b != Building::OffshoreTurbines,
        Landscape::Ocean => b == Building::OffshoreTurbines,
        Landscape::Mountain => {
            b == Building::CoalPowerPlant
                || b == Building::Livestock
                || b == Building::River
                || b == Building::Trees
        }
        Landscape::Swamp => b == Building::EnvironmentalProtectionArea,
        Landscape::Desert => {
            b == Building::SolarPark || b == Building::EnvironmentalProtectionArea
        }
        Landscape::Forest => {
            b == Building::River || b == Building::Trees || b == Building::Zoo
        }
    }
}

#[test]
fn landscape_table_is_exhaustive() {
    let landscapes = vec![
        Landscape::Plains,
        Landscape::Ocean,
        Landscape::Mountain,
        Landscape::Swamp,
        Landscape::Desert,
        Landscape::Forest,
    ];
    for &l in &landscapes {
        let tile = Tile::empty(l);
        for &b in &all_buildings() {
            assert_eq!(
                b.can_build_on_tile(&tile),
                landscape_permits(l, b),
                "landscape {:?}, building {:?}",
                l,
                b
            );
        }
        // The Empty sentinel is never placeable anywhere.
        assert!(!Building::Empty.can_build_on_tile(&tile));
    }
}

#[test]
fn occupied_slot_blocks_duplicate() {
    let mut tile = Tile::empty(Landscape::Plains);
    assert!(Building::Factory.can_build_on_tile(&tile));
    tile.build(Building::Factory);
    assert!(!Building::Factory.can_build_on_tile(&tile));
    assert!(Building::Store.can_build_on_tile(&tile));
}

#[test]
fn multi_slot_buildings_need_capacity() {
    let mut tile = Tile::empty(Landscape::Plains);
    tile.build(Building::Factory);
    // Two slots left: the protection area needs three, the park two.
    assert!(!Building::EnvironmentalProtectionArea.can_build_on_tile(&tile));
    assert!(Building::NationalPark.can_build_on_tile(&tile));
    tile.build(Building::Store);
    assert!(!Building::NationalPark.can_build_on_tile(&tile));
    assert!(Building::Field.can_build_on_tile(&tile));
    tile.build(Building::Field);
    assert_eq!(tile.spaces_left, 0);
    assert!(!Building::Biotope.can_build_on_tile(&tile));
}

#[test]
fn spaces_left_matches_occupied_slots() {
    let mut tile = Tile::empty(Landscape::Plains);
    assert_eq!(tile.spaces_left, 3);
    tile.build(Building::Factory);
    assert_eq!(tile.spaces, vec![Building::Factory, Building::Empty, Building::Empty]);
    assert_eq!(tile.spaces_left, 2);
    tile.build(Building::Store);
    assert_eq!(tile.spaces, vec![Building::Factory, Building::Store, Building::Empty]);
    assert_eq!(tile.spaces_left, 1);
    tile.build(Building::Field);
    assert_eq!(tile.spaces, vec![Building::Factory, Building::Store, Building::Field]);
    assert_eq!(tile.spaces_left, 0);
}

#[test]
fn protection_area_fills_all_three_slots() {
    let mut tile = Tile::empty(Landscape::Swamp);
    tile.build(Building::EnvironmentalProtectionArea);
    let b = Building::EnvironmentalProtectionArea;
    assert_eq!(tile.spaces, vec![b, b, b]);
    assert_eq!(tile.spaces_left, 0);
}

#[test]
fn national_park_fills_first_two_slots() {
    let mut tile = Tile::empty(Landscape::Plains);
    tile.build(Building::NationalPark);
    let b = Building::NationalPark;
    assert_eq!(tile.spaces, vec![b, b, Building::Empty]);
    assert_eq!(tile.spaces_left, 1);
}

#[test]
fn national_park_fills_remaining_slots_on_partly_built_tile() {
    let mut tile = Tile::empty(Landscape::Plains);
    tile.build(Building::Store);
    assert!(Building::NationalPark.can_build_on_tile(&tile));
    tile.build(Building::NationalPark);
    let b = Building::NationalPark;
    assert_eq!(tile.spaces, vec![Building::Store, b, b]);
    assert_eq!(tile.spaces_left, 0);
}

#[test]
fn science_gates() {
    assert!(!Building::SolarPark.has_enough_science(9));
    assert!(Building::SolarPark.has_enough_science(10));
    assert!(!Building::University.has_enough_science(9));
    assert!(Building::University.has_enough_science(10));
    assert!(!Building::OffshoreTurbines.has_enough_science(14));
    assert!(Building::OffshoreTurbines.has_enough_science(15));
    assert!(Building::Factory.has_enough_science(-100));
}

#[test]
fn costs_with_landscape_adjustments() {
    let plains = Tile::empty(Landscape::Plains);
    let mountain = Tile::empty(Landscape::Mountain);
    let forest = Tile::empty(Landscape::Forest);
    assert_eq!(Building::Factory.cost(&plains), Resources::new(3, 4, -2, 0, 1));
    assert_eq!(Building::Factory.cost(&mountain), Resources::new(3, 7, -2, 0, 1));
    assert_eq!(Building::Trees.cost(&plains), Resources::new(0, -2, 1, 0, -2));
    assert_eq!(Building::Trees.cost(&forest), Resources::new(0, -2, 2, 0, -2));
    assert_eq!(Building::River.cost(&plains), Resources::new(0, -2, 2, 0, -1));
    assert_eq!(Building::River.cost(&mountain), Resources::new(0, -2, 3, 0, -1));
    assert_eq!(Building::Zoo.cost(&plains), Resources::new(4, 0, 3, 2, 0));
    assert_eq!(Building::Zoo.cost(&mountain), Resources::new(4, 0, 4, 2, 0));
    assert_eq!(Building::Store.cost(&plains), Resources::new(1, 2, -1, 0, 0));
    assert_eq!(Building::CoalPowerPlant.cost(&plains), Resources::new(6, 5, -4, 0, 2));
    assert_eq!(Building::EnvironmentalProtectionArea.cost(&plains), Resources::new(-9, 0, 6, 0, 0));
}

#[test]
fn evaluate_clips_each_axis_at_fifteen() {
    let mut gs = GameState::initialize();
    gs.resources = Resources::new(0, 20, -3, 5, 0);
    assert_eq!(ecocity::ai::evaluate_gamestate(&gs), 15 - 3 + 5);
    gs.resources = Resources::new(0, 0, 0, 0, 0);
    assert_eq!(ecocity::ai::evaluate_gamestate(&gs), 0);
    gs.resources = Resources::new(0, 100, 100, 100, 0);
    gs.status = Status::Running;
    assert_eq!(ecocity::ai::evaluate_gamestate(&gs), 45);
}

#[test]
fn evaluate_terminal_states() {
    let mut gs = GameState::initialize();
    gs.status = Status::Win;
    assert_eq!(ecocity::ai::evaluate_gamestate(&gs), 1000);
    gs.status = Status::Loss;
    assert_eq!(ecocity::ai::evaluate_gamestate(&gs), -1000);
}

#[test]
fn resources_merge_componentwise() {
    let mut r = Resources::new(1, -2, 3, -4, 5);
    r.accumulate(Resources::new(10, 10, 10, 10, 10));
    assert_eq!(r, Resources::new(11, 8, 13, 6, 15));
}

#[test]
fn terraform_and_connect_are_local() {
    let mut tile = Tile::empty(Landscape::Mountain);
    tile.terraform();
    assert_eq!(tile.landscape, Landscape::Plains);
    tile.terraform();
    assert_eq!(tile.landscape, Landscape::Plains);
    assert!(!tile.connections[4]);
    tile.connect(4);
    assert!(tile.connections[4]);
    assert!(!tile.connections[5]);
}

#[test]
fn filter_actual_connections_spots_open_pairs() {
    let gs = GameState::initialize();
    assert!(ecocity::legal::filter_actual_connections(
        &gs.tiles,
        Action::BuildInfrastructure(6, 4)
    ));
    let mut gs2 = GameState::initialize();
    gs2.tiles[6].connect(4);
    assert!(!ecocity::legal::filter_actual_connections(
        &gs2.tiles,
        Action::BuildInfrastructure(6, 4)
    ));
    assert!(!ecocity::legal::filter_actual_connections(&gs.tiles, Action::Terraform(6)));
}

#[test]
fn stale_cache_is_refreshed_by_enumerator() {
    let mut gs = GameState::initialize();
    gs.tiles[6].landscape = Landscape::Mountain;
    gs.legal_actions = find_legal_actions(&gs.tiles, gs.resources.education_culture);
    assert!(gs.legal_actions.contains(&Action::Terraform(6)));
}
