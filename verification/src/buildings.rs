//! The closed set of building kinds, their costs and their placement rules.

use vstd::prelude::*;
use crate::resources::{res_model, Resources, ResourcesModel};
use crate::tile::{Landscape, Tile, TileModel};

verus! {

/// Every building kind, plus the `Empty` sentinel marking a free slot.
#[derive(Clone, Copy, PartialEq, Eq, Structural, Debug)]
pub enum Building {
    Factory,
    Store,
    CoalPowerPlant,
    Trees,
    River,
    Livestock,
    Field,
    SolarPark,
    OffshoreTurbines,
    Biotope,
    NationalPark,
    EnvironmentalProtectionArea,
    School,
    Museum,
    Zoo,
    Library,
    University,
    Empty,
}

/// The resource delta of placing a building, as a function of the tile's
/// landscape alone.  Four buildings carry a landscape-conditioned
/// adjustment; everything else is a fixed lookup.
pub open spec fn spec_cost(b: Building, l: Landscape) -> ResourcesModel {
    match b {
        Building::Factory => if l == Landscape::Mountain {
            res_model(3, 7, -2, 0, 1)
        } else {
            res_model(3, 4, -2, 0, 1)
        },
        Building::Store => res_model(1, 2, -1, 0, 0),
        Building::CoalPowerPlant => res_model(6, 5, -4, 0, 2),
        Building::Trees => if l == Landscape::Forest {
            res_model(0, -2, 2, 0, -2)
        } else {
            res_model(0, -2, 1, 0, -2)
        },
        Building::River => if l == Landscape::Mountain {
            res_model(0, -2, 3, 0, -1)
        } else {
            res_model(0, -2, 2, 0, -1)
        },
        Building::Livestock => res_model(4, 1, 2, 0, 0),
        Building::Field => res_model(0, -1, 2, 0, 0),
        Building::SolarPark => res_model(4, 1, 2, 0, -2),
        Building::OffshoreTurbines => res_model(6, 1, 4, 0, -3),
        Building::Biotope => res_model(-3, 0, 2, 0, 0),
        Building::NationalPark => res_model(-6, 0, 4, 0, 0),
        Building::EnvironmentalProtectionArea => res_model(-9, 0, 6, 0, 0),
        Building::School => res_model(5, 0, -1, 5, 0),
        Building::Museum => res_model(3, 0, 0, 4, 0),
        Building::Zoo => if l == Landscape::Mountain {
            res_model(4, 0, 4, 2, 0)
        } else {
            res_model(4, 0, 3, 2, 0)
        },
        Building::Library => res_model(3, 1, 0, 3, 0),
        Building::University => res_model(6, 3, 0, 4, 0),
        Building::Empty => res_model(0, 0, 0, 0, 0),
    }
}

/// Which buildings each landscape permits: plains everything but offshore
/// turbines, ocean only offshore turbines, mountain a fixed set of four,
/// swamp only the protection area, desert solar or the protection area,
/// forest river, trees or zoo.
pub open spec fn landscape_allows(l: Landscape, b: Building) -> bool {
    match l {
        Landscape::Plains => b != Building::OffshoreTurbines,
        Landscape::Ocean => b == Building::OffshoreTurbines,
        Landscape::Mountain => b == Building::CoalPowerPlant || b == Building::Livestock
            || b == Building::River || b == Building::Trees,
        Landscape::Swamp => b == Building::EnvironmentalProtectionArea,
        Landscape::Desert => b == Building::SolarPark
            || b == Building::EnvironmentalProtectionArea,
        Landscape::Forest => b == Building::River || b == Building::Trees || b == Building::Zoo,
    }
}

/// Placement legality on a tile snapshot: the building must not already
/// stand there, the tile must have the capacity it consumes, and the
/// landscape must permit it.
pub open spec fn spec_can_build(b: Building, t: TileModel) -> bool {
    &&& !t.spaces.contains(b)
    &&& !(t.spaces_left < 3 && b == Building::EnvironmentalProtectionArea)
    &&& !(t.spaces_left < 2 && b == Building::NationalPark)
    &&& t.spaces_left >= 1
    &&& landscape_allows(t.landscape, b)
}

/// The science gate: solar park and university need 10, offshore turbines
/// 15, everything else is unconditional.
pub open spec fn spec_science_ok(b: Building, science: int) -> bool {
    match b {
        Building::SolarPark => science >= 10,
        Building::OffshoreTurbines => science >= 15,
        Building::University => science >= 10,
        _ => true,
    }
}

/// Every building in declaration order; the enumeration order of build
/// actions.
pub open spec fn building_order() -> Seq<Building> {
    seq![
        Building::Factory,
        Building::Store,
        Building::CoalPowerPlant,
        Building::Trees,
        Building::River,
        Building::Livestock,
        Building::Field,
        Building::SolarPark,
        Building::OffshoreTurbines,
        Building::Biotope,
        Building::NationalPark,
        Building::EnvironmentalProtectionArea,
        Building::School,
        Building::Museum,
        Building::Zoo,
        Building::Library,
        Building::University,
        Building::Empty,
    ]
}

/// All buildings in declaration order.
pub fn all_buildings() -> (r: Vec<Building>)
    ensures
        r@ == building_order(),
{
    let r: Vec<Building> = vec![
        Building::Factory,
        Building::Store,
        Building::CoalPowerPlant,
        Building::Trees,
        Building::River,
        Building::Livestock,
        Building::Field,
        Building::SolarPark,
        Building::OffshoreTurbines,
        Building::Biotope,
        Building::NationalPark,
        Building::EnvironmentalProtectionArea,
        Building::School,
        Building::Museum,
        Building::Zoo,
        Building::Library,
        Building::University,
        Building::Empty,
    ];
    proof {
        assert(r@ =~= building_order());
    }
    r
}

impl Building {
    /// The resource delta of placing this building on `build_tile`.
    pub fn cost(self, build_tile: &Tile) -> (r: Resources)
        ensures
            r@ == spec_cost(self, build_tile@.landscape),
    {
        match self {
            Building::Factory => adjusted_coal_power_plant_cost(build_tile),
            Building::Store => Resources::new(1, 2, -1, 0, 0),
            Building::CoalPowerPlant => Resources::new(6, 5, -4, 0, 2),
            Building::Trees => adjusted_tree_cost(build_tile),
            Building::River => adjusted_river_cost(build_tile),
            Building::Livestock => Resources::new(4, 1, 2, 0, 0),
            Building::Field => Resources::new(0, -1, 2, 0, 0),
            Building::SolarPark => Resources::new(4, 1, 2, 0, -2),
            Building::OffshoreTurbines => Resources::new(6, 1, 4, 0, -3),
            Building::Biotope => Resources::new(-3, 0, 2, 0, 0),
            Building::NationalPark => Resources::new(-6, 0, 4, 0, 0),
            Building::EnvironmentalProtectionArea => Resources::new(-9, 0, 6, 0, 0),
            Building::School => Resources::new(5, 0, -1, 5, 0),
            Building::Museum => Resources::new(3, 0, 0, 4, 0),
            Building::Zoo => adjusted_zoo_cost(build_tile),
            Building::Library => Resources::new(3, 1, 0, 3, 0),
            Building::University => Resources::new(6, 3, 0, 4, 0),
            Building::Empty => Resources::new(0, 0, 0, 0, 0),
        }
    }

    /// Placement legality on a tile snapshot.
    pub fn can_build_on_tile(self, tile: &Tile) -> (r: bool)
        requires
            tile@.spaces.len() == 3,
        ensures
            r == spec_can_build(self, tile@),
    {
        let occupied = tile.spaces[0] == self || tile.spaces[1] == self || tile.spaces[2] == self;
        proof {
            assert(tile@.spaces.contains(self) <==> (tile@.spaces[0] == self
                || tile@.spaces[1] == self || tile@.spaces[2] == self)) by {
                if tile@.spaces.contains(self) {
                    let j = choose|j: int| 0 <= j < 3 && tile@.spaces[j] == self;
                    assert(j == 0 || j == 1 || j == 2);
                }
                if tile@.spaces[0] == self {
                    assert(tile@.spaces.contains(self));
                }
                if tile@.spaces[1] == self {
                    assert(tile@.spaces.contains(self));
                }
                if tile@.spaces[2] == self {
                    assert(tile@.spaces.contains(self));
                }
            }
        }
        if occupied {
            return false;
        }
        if tile.spaces_left < 3 && self == Building::EnvironmentalProtectionArea {
            return false;
        }
        if tile.spaces_left < 2 && self == Building::NationalPark {
            return false;
        }
        if tile.spaces_left < 1 {
            return false;
        }
        match tile.landscape {
            Landscape::Plains => self != Building::OffshoreTurbines,
            Landscape::Ocean => self == Building::OffshoreTurbines,
            Landscape::Mountain => self == Building::CoalPowerPlant
                || self == Building::Livestock || self == Building::River
                || self == Building::Trees,
            Landscape::Swamp => self == Building::EnvironmentalProtectionArea,
            Landscape::Desert => self == Building::SolarPark
                || self == Building::EnvironmentalProtectionArea,
            Landscape::Forest => self == Building::River || self == Building::Trees
                || self == Building::Zoo,
        }
    }

    /// The science gate for this building at the given education/culture
    /// level.
    pub fn has_enough_science(self, science: i16) -> (r: bool)
        ensures
            r == spec_science_ok(self, science as int),
    {
        match self {
            Building::SolarPark => science >= 10,
            Building::OffshoreTurbines => science >= 15,
            Building::University => science >= 10,
            _ => true,
        }
    }
}

/// The factory's cost, with the mountain adjustment to the technology gain.
fn adjusted_coal_power_plant_cost(build_tile: &Tile) -> (r: Resources)
    ensures
        r@ == spec_cost(Building::Factory, build_tile@.landscape),
{
    match build_tile.landscape {
        Landscape::Mountain => Resources::new(3, 7, -2, 0, 1),
        _ => Resources::new(3, 4, -2, 0, 1),
    }
}

/// The cost of trees, with the forest adjustment to sustainability.
fn adjusted_tree_cost(build_tile: &Tile) -> (r: Resources)
    ensures
        r@ == spec_cost(Building::Trees, build_tile@.landscape),
{
    match build_tile.landscape {
        Landscape::Forest => Resources::new(0, -2, 2, 0, -2),
        _ => Resources::new(0, -2, 1, 0, -2),
    }
}

/// The river's cost, with the mountain adjustment to sustainability.
fn adjusted_river_cost(build_tile: &Tile) -> (r: Resources)
    ensures
        r@ == spec_cost(Building::River, build_tile@.landscape),
{
    match build_tile.landscape {
        Landscape::Mountain => Resources::new(0, -2, 3, 0, -1),
        _ => Resources::new(0, -2, 2, 0, -1),
    }
}

/// The zoo's cost, with the mountain adjustment to sustainability.
fn adjusted_zoo_cost(build_tile: &Tile) -> (r: Resources)
    ensures
        r@ == spec_cost(Building::Zoo, build_tile@.landscape),
{
    match build_tile.landscape {
        Landscape::Mountain => Resources::new(4, 0, 4, 2, 0),
        _ => Resources::new(4, 0, 3, 2, 0),
    }
}

} // verus!
