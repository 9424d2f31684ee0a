//! One map cell: up to three building slots, a landscape, adjacency flags
//! and a usability flag.

use vstd::prelude::*;
use vstd::pervasive::VecAdditionalExecFns;
use crate::buildings::Building;

verus! {

/// The terrain of a cell; fixed at map creation, changed only by
/// terraforming, which forces `Plains`.
#[derive(Clone, Copy, PartialEq, Eq, Structural, Debug)]
pub enum Landscape {
    Plains,
    Ocean,
    Mountain,
    Swamp,
    Desert,
    Forest,
}

/// Mathematical image of [`Tile`].
#[verifier::ext_equal]
pub ghost struct TileModel {
    pub spaces: Seq<Building>,
    pub connections: Seq<bool>,
    pub landscape: Landscape,
    pub usable: bool,
    pub spaces_left: int,
}

/// One of the 13 map cells.  `spaces` holds exactly three slots filled
/// first-empty-first; `connections` holds one adjacency flag per cell of the
/// map; `usable` says whether the cell is reachable from the start cell
/// through built infrastructure.
#[derive(Clone, Debug)]
pub struct Tile {
    pub spaces: Vec<Building>,
    pub connections: Vec<bool>,
    pub landscape: Landscape,
    pub usable: bool,
    pub spaces_left: u8,
}

impl View for Tile {
    type V = TileModel;

    open spec fn view(&self) -> TileModel {
        TileModel {
            spaces: self.spaces@,
            connections: self.connections@,
            landscape: self.landscape,
            usable: self.usable,
            spaces_left: self.spaces_left as int,
        }
    }
}

/// The slot bookkeeping: `spaces_left` is exactly the number of free
/// slots, and the occupied slots are exactly the prefix of length
/// `3 - spaces_left`.
pub open spec fn slots_exact(t: TileModel) -> bool {
    &&& 0 <= t.spaces_left <= 3
    &&& forall|j: int|
        0 <= j < 3 ==> ((#[trigger] t.spaces[j]) == Building::Empty <==> j >= 3 - t.spaces_left)
}

/// Structural well-formedness of a tile: three slots, one connection flag
/// per cell, and exact slot bookkeeping.
pub open spec fn tile_inv(t: TileModel) -> bool {
    &&& t.spaces.len() == 3
    &&& t.connections.len() == 13
    &&& slots_exact(t)
}

pub open spec fn empty_tile_model(landscape: Landscape) -> TileModel {
    TileModel {
        spaces: seq![Building::Empty, Building::Empty, Building::Empty],
        connections: Seq::new(13, |i: int| false),
        landscape,
        usable: false,
        spaces_left: 3,
    }
}

/// How many slots a building consumes when placed.
pub open spec fn slots_consumed(b: Building) -> int {
    if b == Building::EnvironmentalProtectionArea {
        3
    } else if b == Building::NationalPark {
        2
    } else {
        1
    }
}

/// The tile after placing `b`.  An environmental protection area fills
/// all three remaining slots, a national park the next two free slots
/// (0 and 1 on a fresh tile, 1 and 2 when one slot is taken), anything
/// else the single slot picked by the current `spaces_left` (3 maps to
/// slot 0, 2 to slot 1, 1 to slot 2).
pub open spec fn spec_tile_build(t: TileModel, b: Building) -> TileModel {
    if b == Building::EnvironmentalProtectionArea {
        TileModel {
            spaces: t.spaces.update(0, b).update(1, b).update(2, b),
            spaces_left: t.spaces_left - 3,
            ..t
        }
    } else if b == Building::NationalPark {
        TileModel {
            spaces: if t.spaces_left == 3 {
                t.spaces.update(0, b).update(1, b)
            } else {
                t.spaces.update(1, b).update(2, b)
            },
            spaces_left: t.spaces_left - 2,
            ..t
        }
    } else {
        TileModel {
            spaces: if t.spaces_left == 3 {
                t.spaces.update(0, b)
            } else if t.spaces_left == 2 {
                t.spaces.update(1, b)
            } else if t.spaces_left == 1 {
                t.spaces.update(2, b)
            } else {
                t.spaces
            },
            spaces_left: t.spaces_left - 1,
            ..t
        }
    }
}

pub open spec fn spec_tile_connect(t: TileModel, to: int) -> TileModel {
    TileModel { connections: t.connections.update(to, true), ..t }
}

pub open spec fn spec_tile_terraform(t: TileModel) -> TileModel {
    TileModel { landscape: Landscape::Plains, ..t }
}

impl Tile {
    /// A fresh, unconnected, not yet usable cell with three free slots.
    pub fn empty(landscape: Landscape) -> (r: Tile)
        ensures
            r@ == empty_tile_model(landscape),
            tile_inv(r@),
    {
        let mut connections: Vec<bool> = Vec::new();
        while connections.len() < 13
            invariant
                connections@.len() <= 13,
                forall|j: int| 0 <= j < connections@.len() ==> connections@[j] == false,
            decreases 13 - connections@.len(),
        {
            connections.push(false);
        }
        let spaces: Vec<Building> = vec![Building::Empty, Building::Empty, Building::Empty];
        let r = Tile { spaces, connections, landscape, usable: false, spaces_left: 3 };
        proof {
            assert(r@.connections =~= empty_tile_model(landscape).connections);
            assert(r@.spaces =~= empty_tile_model(landscape).spaces);
            assert(r@ =~= empty_tile_model(landscape));
        }
        r
    }

    /// Record a one-directional adjacency to cell `tile_to`.
    pub fn connect(&mut self, tile_to: usize)
        requires
            tile_to < old(self)@.connections.len(),
        ensures
            final(self)@ == spec_tile_connect(old(self)@, tile_to as int),
    {
        self.connections.set(tile_to, true);
        proof {
            assert(final(self)@ =~= spec_tile_connect(old(self)@, tile_to as int));
        }
    }

    /// Place `building` on this tile, filling the next free slots.
    /// Callers must have checked capacity: an environmental protection
    /// area needs all three slots free, a national park at least two,
    /// anything else at least one.
    pub fn build(&mut self, building: Building)
        requires
            old(self)@.spaces.len() == 3,
            old(self)@.spaces_left <= 3,
            building == Building::EnvironmentalProtectionArea ==> old(self)@.spaces_left == 3,
            building == Building::NationalPark ==> old(self)@.spaces_left >= 2,
            old(self)@.spaces_left >= slots_consumed(building),
        ensures
            final(self)@ == spec_tile_build(old(self)@, building),
    {
        if building == Building::EnvironmentalProtectionArea {
            self.spaces.set(0, building);
            self.spaces.set(1, building);
            self.spaces.set(2, building);
            self.spaces_left = self.spaces_left - 3;
        } else if building == Building::NationalPark {
            if self.spaces_left == 3 {
                self.spaces.set(0, building);
                self.spaces.set(1, building);
            } else {
                self.spaces.set(1, building);
                self.spaces.set(2, building);
            }
            self.spaces_left = self.spaces_left - 2;
        } else {
            if self.spaces_left == 3 {
                self.spaces.set(0, building);
            } else if self.spaces_left == 2 {
                self.spaces.set(1, building);
            } else if self.spaces_left == 1 {
                self.spaces.set(2, building);
            }
            self.spaces_left = self.spaces_left - 1;
        }
        proof {
            assert(final(self)@ =~= spec_tile_build(old(self)@, building));
        }
    }

    /// Force the landscape to plains.
    pub fn terraform(&mut self)
        ensures
            final(self)@ == spec_tile_terraform(old(self)@),
    {
        self.landscape = Landscape::Plains;
        proof {
            assert(final(self)@ =~= spec_tile_terraform(old(self)@));
        }
    }
}

/// Copy a vector of buildings element by element.
fn copy_buildings(v: &Vec<Building>) -> (r: Vec<Building>)
    ensures
        r@ == v@,
{
    let mut r: Vec<Building> = Vec::new();
    let mut i: usize = 0;
    while i < v.len()
        invariant
            i <= v@.len(),
            r@.len() == i,
            forall|j: int| 0 <= j < i ==> r@[j] == v@[j],
        decreases v@.len() - i,
    {
        r.push(v[i]);
        i = i + 1;
    }
    proof {
        assert(r@ =~= v@);
    }
    r
}

/// Copy a vector of flags element by element.
fn copy_bools(v: &Vec<bool>) -> (r: Vec<bool>)
    ensures
        r@ == v@,
{
    let mut r: Vec<bool> = Vec::new();
    let mut i: usize = 0;
    while i < v.len()
        invariant
            i <= v@.len(),
            r@.len() == i,
            forall|j: int| 0 <= j < i ==> r@[j] == v@[j],
        decreases v@.len() - i,
    {
        r.push(v[i]);
        i = i + 1;
    }
    proof {
        assert(r@ =~= v@);
    }
    r
}

impl Tile {
    /// A deep copy with the same view.
    pub fn duplicate(&self) -> (r: Tile)
        ensures
            r@ == self@,
    {
        let r = Tile {
            spaces: copy_buildings(&self.spaces),
            connections: copy_bools(&self.connections),
            landscape: self.landscape,
            usable: self.usable,
            spaces_left: self.spaces_left,
        };
        proof {
            assert(r@ =~= self@);
        }
        r
    }
}

} // verus!
