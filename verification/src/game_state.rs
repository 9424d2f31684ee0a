//! The aggregate game state and its single mutation entry point.

use vstd::prelude::*;
use vstd::pervasive::VecAdditionalExecFns;
use crate::buildings::{spec_can_build, spec_cost, Building};
use crate::legal::{find_legal_actions, lemma_legal_action_ok, spec_legal_actions, tiles_view};
use crate::resources::{in_i16, res_model, res_plus, res_plus_fits, Resources, ResourcesModel};
use crate::tile::{
    spec_tile_build, spec_tile_connect, spec_tile_terraform, tile_inv, Landscape, Tile, TileModel,
};

verus! {

/// Whether the game is still running, won, or lost.
#[derive(Clone, Copy, PartialEq, Eq, Structural, Debug)]
pub enum Status {
    Running,
    Win,
    Loss,
}

/// One state transition, fully described by its tag and indices.
#[derive(Clone, Copy, PartialEq, Eq, Structural, Debug)]
pub enum Action {
    Build(Building, usize),
    BuildInfrastructure(usize, usize),
    Terraform(usize),
}

/// The season, cycling spring, summer, autumn, winter.
#[derive(Clone, Copy, PartialEq, Eq, Structural, Debug)]
pub enum Season {
    Spring,
    Summer,
    Autumn,
    Winter,
}

/// Mathematical image of [`GameState`].
#[verifier::ext_equal]
pub ghost struct StateModel {
    pub tiles: Seq<TileModel>,
    pub resources: ResourcesModel,
    pub doom_timer: int,
    pub season: Season,
    pub legal_actions: Seq<Action>,
    pub status: Status,
}

/// The aggregate: the 13 tiles, the resource counters, the doom timer, the
/// season, the cached legal actions and the status.  `legal_actions` always
/// reflects the current tiles and education/culture level; it is recomputed
/// at the end of every [`GameState::advance`].
#[derive(Debug)]
pub struct GameState {
    pub tiles: Vec<Tile>,
    pub resources: Resources,
    pub doom_timer: u8,
    pub season: Season,
    pub legal_actions: Vec<Action>,
    pub status: Status,
}

impl View for GameState {
    type V = StateModel;

    open spec fn view(&self) -> StateModel {
        StateModel {
            tiles: tiles_view(self.tiles@),
            resources: self.resources@,
            doom_timer: self.doom_timer as int,
            season: self.season,
            legal_actions: self.legal_actions@,
            status: self.status,
        }
    }
}

/// Structural well-formedness of a state: 13 well-formed tiles, a doom
/// timer within its range, and a legal-action cache that matches the
/// current tiles and science level.
pub open spec fn state_inv(s: StateModel) -> bool {
    &&& s.tiles.len() == 13
    &&& forall|i: int| 0 <= i < 13 ==> tile_inv(#[trigger] s.tiles[i])
    &&& 0 <= s.doom_timer <= 4
    &&& s.legal_actions == spec_legal_actions(s.tiles, s.resources.education_culture)
}

/// The fixed resource delta of an action: a build costs what the building
/// costs on that tile's landscape; infrastructure and terraforming have
/// constant deltas.
pub open spec fn action_delta(s: StateModel, a: Action) -> ResourcesModel {
    match a {
        Action::Build(b, i) => spec_cost(b, s.tiles[i as int].landscape),
        Action::BuildInfrastructure(_, _) => res_model(2, 0, -3, 0, 0),
        Action::Terraform(_) => res_model(3, 0, -3, 0, 0),
    }
}

/// The state after the action itself: tiles changed as the action says and
/// the action's delta folded into the resources.
pub open spec fn apply_action(s: StateModel, a: Action) -> StateModel {
    match a {
        Action::Build(b, i) => StateModel {
            tiles: s.tiles.update(i as int, spec_tile_build(s.tiles[i as int], b)),
            resources: res_plus(s.resources, action_delta(s, a)),
            ..s
        },
        Action::BuildInfrastructure(f, t) => {
            let tiles1 = s.tiles.update(f as int, spec_tile_connect(s.tiles[f as int], t as int));
            let to_tile = TileModel {
                usable: true,
                ..spec_tile_connect(tiles1[t as int], f as int)
            };
            StateModel {
                tiles: tiles1.update(t as int, to_tile),
                resources: res_plus(s.resources, action_delta(s, a)),
                ..s
            }
        },
        Action::Terraform(i) => StateModel {
            tiles: s.tiles.update(i as int, spec_tile_terraform(s.tiles[i as int])),
            resources: res_plus(s.resources, action_delta(s, a)),
            ..s
        },
    }
}

/// The loss rule: a doom timer already at 4 means loss; otherwise the
/// timer counts up while instant CO2 is at least 20 and snaps back to 0
/// the moment it is below.
pub open spec fn apply_loss(s: StateModel) -> StateModel {
    if s.doom_timer == 4 {
        StateModel { status: Status::Loss, ..s }
    } else if s.resources.instant_co2 >= 20 {
        StateModel { doom_timer: s.doom_timer + 1, ..s }
    } else {
        StateModel { doom_timer: 0, ..s }
    }
}

/// The win condition: all three of sustainability, education/culture and
/// technology/economy at 15 or more, simultaneously.
pub open spec fn win_condition(r: ResourcesModel) -> bool {
    r.sustainability >= 15 && r.education_culture >= 15 && r.tech_economy >= 15
}

pub open spec fn apply_win(s: StateModel) -> StateModel {
    if win_condition(s.resources) {
        StateModel { status: Status::Win, ..s }
    } else {
        s
    }
}

pub open spec fn next_season(s: Season) -> Season {
    match s {
        Season::Spring => Season::Summer,
        Season::Summer => Season::Autumn,
        Season::Autumn => Season::Winter,
        Season::Winter => Season::Spring,
    }
}

/// The season advances cyclically; crossing winter into spring folds the
/// yearly CO2 into the instant CO2 — the only place recurring CO2 accrues.
pub open spec fn apply_season(s: StateModel) -> StateModel {
    if s.season == Season::Winter {
        StateModel {
            season: Season::Spring,
            resources: ResourcesModel {
                instant_co2: s.resources.instant_co2 + s.resources.yearly_co2,
                ..s.resources
            },
            ..s
        }
    } else {
        StateModel { season: next_season(s.season), ..s }
    }
}

/// The full transition: apply the action, evaluate loss then win, advance
/// the season, and recompute the legal-action cache.
pub open spec fn spec_advance(s: StateModel, a: Action) -> StateModel {
    let s4 = apply_season(apply_win(apply_loss(apply_action(s, a))));
    StateModel {
        legal_actions: spec_legal_actions(s4.tiles, s4.resources.education_culture),
        ..s4
    }
}

/// Every addition the transition performs stays within the counters' type.
pub open spec fn advance_fits(s: StateModel, a: Action) -> bool {
    let d = action_delta(s, a);
    &&& res_plus_fits(s.resources, d)
    &&& (s.season == Season::Winter ==> in_i16(
        s.resources.instant_co2 + d.instant_co2 + s.resources.yearly_co2 + d.yearly_co2,
    ))
}

/// Placing a legal building preserves tile well-formedness.
pub proof fn lemma_build_preserves_inv(t: TileModel, b: Building)
    requires
        tile_inv(t),
        spec_can_build(b, t),
    ensures
        tile_inv(spec_tile_build(t, b)),
{
    let r = spec_tile_build(t, b);
    assert(t.spaces_left >= 1);
    assert(t.spaces[2] == Building::Empty);
    assert(t.spaces.contains(b) <==> (t.spaces[0] == b || t.spaces[1] == b || t.spaces[2] == b))
        by {
        if t.spaces.contains(b) {
            let j = choose|j: int| 0 <= j < 3 && t.spaces[j] == b;
            assert(j == 0 || j == 1 || j == 2);
        }
        if t.spaces[2] == b {
            assert(t.spaces.contains(b));
        }
    }
    assert(b != Building::Empty);
    if b == Building::EnvironmentalProtectionArea {
        assert(r.spaces_left == 0);
    } else if b == Building::NationalPark {
        if t.spaces_left == 3 {
            assert forall|j: int| 0 <= j < 3 implies ((#[trigger] r.spaces[j]) == Building::Empty
                <==> j >= 3 - r.spaces_left) by {
                assert(t.spaces[2] == Building::Empty);
            }
        }
    } else {
        if r.spaces_left > 0 {
            assert forall|j: int| 0 <= j < 3 implies ((#[trigger] r.spaces[j]) == Building::Empty
                <==> j >= 3 - r.spaces_left) by {}
        }
    }
}

/// Copy a vector of actions element by element.
pub fn copy_actions(v: &Vec<Action>) -> (r: Vec<Action>)
    ensures
        r@ == v@,
{
    let mut r: Vec<Action> = Vec::new();
    let mut i: usize = 0;
    while i < v.len()
        invariant
            i <= v@.len(),
            r@.len() == i,
            forall|j: int| 0 <= j < i ==> r@[j] == v@[j],
        decreases v@.len() - i,
    {
        r.push(v[i]);
        i = i + 1;
    }
    proof {
        assert(r@ =~= v@);
    }
    r
}

/// Copy a vector of tiles element by element, preserving every view.
fn copy_tiles(v: &Vec<Tile>) -> (r: Vec<Tile>)
    ensures
        tiles_view(r@) == tiles_view(v@),
{
    let mut r: Vec<Tile> = Vec::new();
    let mut i: usize = 0;
    while i < v.len()
        invariant
            i <= v@.len(),
            r@.len() == i,
            forall|j: int| 0 <= j < i ==> r@[j]@ == v@[j]@,
        decreases v@.len() - i,
    {
        r.push(v[i].duplicate());
        i = i + 1;
    }
    proof {
        assert(tiles_view(r@) =~= tiles_view(v@));
    }
    r
}

/// Uniformly random index below `n`.
///
/// Relies on `rand::Rng::gen_range` over `rand::thread_rng()`: for a
/// non-empty range `0..n` it returns a value of the range.
#[verifier::external_body]
fn random_below(n: usize) -> (r: usize)
    requires
        n >= 1,
    ensures
        r < n,
{
    rand::Rng::gen_range(&mut rand::thread_rng(), 0..n)
}

/// The intended composition of a fresh map: three cells of each landscape
/// kind other than the fixed start cell's plains.
pub open spec fn initial_tileset() -> Seq<(Landscape, u8)> {
    seq![
        (Landscape::Mountain, 3u8),
        (Landscape::Plains, 3u8),
        (Landscape::Forest, 3u8),
        (Landscape::Desert, 3u8),
        (Landscape::Ocean, 3u8),
        (Landscape::Swamp, 3u8),
    ]
}

/// The landscape kinds a fresh map draws from, each with its intended
/// multiplicity.
pub fn create_tileset() -> (r: Vec<(Landscape, u8)>)
    ensures
        r@ == initial_tileset(),
{
    let r: Vec<(Landscape, u8)> = vec![
        (Landscape::Mountain, 3u8),
        (Landscape::Plains, 3u8),
        (Landscape::Forest, 3u8),
        (Landscape::Desert, 3u8),
        (Landscape::Ocean, 3u8),
        (Landscape::Swamp, 3u8),
    ];
    proof {
        assert(r@ =~= initial_tileset());
    }
    r
}

/// What `initialize` promises about a fresh state: thirteen empty,
/// unconnected tiles of which exactly cell 6 — fixed to plains — is
/// usable; zeroed resources; spring; a running status; and a legal-action
/// cache that matches.
pub open spec fn initial_state(s: StateModel) -> bool {
    &&& s.tiles.len() == 13
    &&& forall|i: int|
        0 <= i < 13 ==> (#[trigger] s.tiles[i]) == (TileModel {
            usable: i == 6,
            ..crate::tile::empty_tile_model(s.tiles[i].landscape)
        })
    &&& s.tiles[6].landscape == Landscape::Plains
    &&& s.resources == res_model(0, 0, 0, 0, 0)
    &&& s.doom_timer == 0
    &&& s.season == Season::Spring
    &&& s.status == Status::Running
    &&& s.legal_actions == spec_legal_actions(s.tiles, 0)
}

impl GameState {
    /// A fresh randomized map: cell 6 is plains and usable, every other
    /// cell draws its landscape from the tileset, and the legal-action
    /// cache is computed for science level 0.
    pub fn initialize() -> (r: GameState)
        ensures
            initial_state(r@),
            state_inv(r@),
    {
        let tileset = create_tileset();
        let mut tiles: Vec<Tile> = Vec::new();
        let mut i: usize = 0;
        while i < 13
            invariant
                tileset@ == initial_tileset(),
                i <= 13,
                tiles@.len() == i,
                forall|j: int|
                    0 <= j < i ==> (#[trigger] tiles@[j])@ == (TileModel {
                        usable: j == 6,
                        ..crate::tile::empty_tile_model(tiles@[j]@.landscape)
                    }),
                forall|j: int| 0 <= j < i && j == 6 ==> tiles@[j]@.landscape == Landscape::Plains,
            decreases 13 - i,
        {
            let ghost tprev = tiles@;
            if i == 6 {
                let mut start = Tile::empty(Landscape::Plains);
                start.usable = true;
                tiles.push(start);
            } else {
                // The counts record the intended map composition; the
                // draw itself is uniform over the kinds still marked
                // available.
                let mut available: Vec<usize> = Vec::new();
                let mut j: usize = 0;
                while j < tileset.len()
                    invariant
                        tileset@ == initial_tileset(),
                        j <= 6,
                        forall|m: int|
                            0 <= m < available@.len() ==> (#[trigger] available@[m]) < j,
                        forall|m: int|
                            0 <= m < j && initial_tileset()[m].1 > 0 ==> available@.contains(
                                m as usize,
                            ),
                    decreases 6 - j,
                {
                    let ghost avprev = available@;
                    if tileset[j].1 > 0 {
                        available.push(j);
                        proof {
                            assert(available@ == avprev.push(j));
                            assert forall|m: int|
                                0 <= m < available@.len() implies (#[trigger] available@[m]) < j
                                + 1 by {
                                if m < avprev.len() {
                                    assert(available@[m] == avprev[m]);
                                }
                            }
                            assert forall|m: int| 0 <= m < j + 1 && initial_tileset()[m].1 > 0
                                implies available@.contains(m as usize) by {
                                if m < j {
                                    assert(avprev.contains(m as usize));
                                    let w = choose|w: int|
                                        0 <= w < avprev.len() && avprev[w] == m as usize;
                                    assert(available@[w] == m as usize);
                                    assert(available@.contains(m as usize));
                                } else {
                                    assert(available@[avprev.len() as int] == j);
                                    assert(available@.contains(j));
                                }
                            }
                        }
                    }
                    j = j + 1;
                }
                proof {
                    assert(initial_tileset()[0].1 > 0);
                    assert(available@.contains(0usize));
                    assert(available@.len() >= 1);
                }
                let pick = available[random_below(available.len())];
                let landscape = tileset[pick].0;
                tiles.push(Tile::empty(landscape));
            }
            i = i + 1;
            proof {
                assert forall|j: int| 0 <= j < i implies (#[trigger] tiles@[j])@ == (TileModel {
                    usable: j == 6,
                    ..crate::tile::empty_tile_model(tiles@[j]@.landscape)
                }) by {
                    if j < tprev.len() {
                        assert(tiles@[j] == tprev[j]);
                    }
                }
                assert forall|j: int| 0 <= j < i && j == 6 implies tiles@[j]@.landscape
                    == Landscape::Plains by {
                    if j < tprev.len() {
                        assert(tiles@[j] == tprev[j]);
                    }
                }
            }
        }
        proof {
            assert forall|j: int| 0 <= j < 13 implies tile_inv(#[trigger] tiles_view(tiles@)[j])
                by {
                assert(tiles_view(tiles@)[j] == tiles@[j]@);
            }
        }
        let legal_actions = find_legal_actions(&tiles, 0);
        let r = GameState {
            tiles,
            resources: Resources::new(0, 0, 0, 0, 0),
            doom_timer: 0,
            season: Season::Spring,
            legal_actions,
            status: Status::Running,
        };
        proof {
            assert forall|j: int| 0 <= j < 13 implies (#[trigger] r@.tiles[j]) == (TileModel {
                usable: j == 6,
                ..crate::tile::empty_tile_model(r@.tiles[j].landscape)
            }) by {
                assert(r@.tiles[j] == r.tiles@[j]@);
            }
            assert(r@.tiles[6] == r.tiles@[6]@);
            assert forall|j: int| 0 <= j < 13 implies tile_inv(#[trigger] r@.tiles[j]) by {
                assert(r@.tiles[j] == r.tiles@[j]@);
            }
        }
        r
    }

    /// A deep copy with the same view.
    pub fn duplicate(&self) -> (r: GameState)
        ensures
            r@ == self@,
    {
        let r = GameState {
            tiles: copy_tiles(&self.tiles),
            resources: self.resources,
            doom_timer: self.doom_timer,
            season: self.season,
            legal_actions: copy_actions(&self.legal_actions),
            status: self.status,
        };
        proof {
            assert(r@ =~= self@);
        }
        r
    }

    /// Place `building` on tile `tile_to_build_on` and pay its cost.
    fn build(&mut self, building: Building, tile_to_build_on: usize)
        requires
            old(self)@.tiles.len() == 13,
            tile_to_build_on < 13,
            tile_inv(old(self)@.tiles[tile_to_build_on as int]),
            spec_can_build(building, old(self)@.tiles[tile_to_build_on as int]),
            res_plus_fits(
                old(self)@.resources,
                action_delta(old(self)@, Action::Build(building, tile_to_build_on)),
            ),
        ensures
            final(self)@ == apply_action(old(self)@, Action::Build(building, tile_to_build_on)),
    {
        let mut tile = self.tiles[tile_to_build_on].duplicate();
        proof {
            assert(tile@ == old(self)@.tiles[tile_to_build_on as int]);
            assert(tile@.spaces[2] == Building::Empty);
            assert(tile@.spaces.contains(building) <==> (tile@.spaces[0] == building
                || tile@.spaces[1] == building || tile@.spaces[2] == building)) by {
                if tile@.spaces.contains(building) {
                    let j = choose|j: int| 0 <= j < 3 && tile@.spaces[j] == building;
                    assert(j == 0 || j == 1 || j == 2);
                }
                if tile@.spaces[2] == building {
                    assert(tile@.spaces.contains(building));
                }
            }
        }
        tile.build(building);
        let delta = building.cost(&tile);
        self.tiles.set(tile_to_build_on, tile);
        self.resources.accumulate(delta);
        proof {
            assert(final(self)@.tiles =~= apply_action(
                old(self)@,
                Action::Build(building, tile_to_build_on),
            ).tiles);
            assert(final(self)@ =~~= apply_action(
                old(self)@,
                Action::Build(building, tile_to_build_on),
            ));
        }
    }

    /// Terraform tile `tile` to plains and pay the fixed delta.
    fn terraform(&mut self, tile: usize)
        requires
            old(self)@.tiles.len() == 13,
            tile < 13,
            res_plus_fits(old(self)@.resources, res_model(3, 0, -3, 0, 0)),
        ensures
            final(self)@ == apply_action(old(self)@, Action::Terraform(tile)),
    {
        let mut t = self.tiles[tile].duplicate();
        t.terraform();
        self.tiles.set(tile, t);
        self.resources.accumulate(Resources::new(3, 0, -3, 0, 0));
        proof {
            assert(final(self)@.tiles =~= apply_action(old(self)@, Action::Terraform(tile)).tiles);
            assert(final(self)@ =~~= apply_action(old(self)@, Action::Terraform(tile)));
        }
    }

    /// Connect two tiles both ways, mark the target usable, and pay the
    /// fixed delta.
    fn build_infrastructure(&mut self, tile_from: usize, tile_to: usize)
        requires
            old(self)@.tiles.len() == 13,
            tile_from < 13,
            tile_to < 13,
            tile_inv(old(self)@.tiles[tile_from as int]),
            tile_inv(old(self)@.tiles[tile_to as int]),
            res_plus_fits(old(self)@.resources, res_model(2, 0, -3, 0, 0)),
        ensures
            final(self)@ == apply_action(
                old(self)@,
                Action::BuildInfrastructure(tile_from, tile_to),
            ),
    {
        let mut from_tile = self.tiles[tile_from].duplicate();
        from_tile.connect(tile_to);
        self.tiles.set(tile_from, from_tile);
        let mut to_tile = self.tiles[tile_to].duplicate();
        to_tile.connect(tile_from);
        to_tile.usable = true;
        self.tiles.set(tile_to, to_tile);
        self.resources.accumulate(Resources::new(2, 0, -3, 0, 0));
        proof {
            assert(final(self)@.tiles =~~= apply_action(
                old(self)@,
                Action::BuildInfrastructure(tile_from, tile_to),
            ).tiles);
            assert(final(self)@ =~~= apply_action(
                old(self)@,
                Action::BuildInfrastructure(tile_from, tile_to),
            ));
        }
    }

    /// The loss rule, exactly as [`apply_loss`] states it.
    fn check_loss_condition(&mut self)
        requires
            0 <= old(self)@.doom_timer <= 4,
        ensures
            final(self)@ == apply_loss(old(self)@),
    {
        if self.doom_timer == 4 {
            self.status = Status::Loss;
        } else if self.resources.instant_co2 >= 20 {
            self.doom_timer = self.doom_timer + 1;
        } else {
            self.doom_timer = 0;
        }
        proof {
            assert(final(self)@ =~~= apply_loss(old(self)@));
        }
    }

    /// The win rule, exactly as [`apply_win`] states it.
    fn check_win_condition(&mut self)
        ensures
            final(self)@ == apply_win(old(self)@),
    {
        if self.resources.sustainability >= 15 && self.resources.education_culture >= 15
            && self.resources.tech_economy >= 15 {
            self.status = Status::Win;
        }
        proof {
            assert(final(self)@ =~~= apply_win(old(self)@));
        }
    }

    /// Advance the season; crossing winter folds the yearly CO2 into the
    /// instant CO2.
    fn advance_season(&mut self)
        requires
            old(self)@.season == Season::Winter ==> in_i16(
                old(self)@.resources.instant_co2 + old(self)@.resources.yearly_co2,
            ),
        ensures
            final(self)@ == apply_season(old(self)@),
    {
        match self.season {
            Season::Spring => {
                self.season = Season::Summer;
            },
            Season::Summer => {
                self.season = Season::Autumn;
            },
            Season::Autumn => {
                self.season = Season::Winter;
            },
            Season::Winter => {
                self.season = Season::Spring;
                self.resources.instant_co2 = self.resources.instant_co2
                    + self.resources.yearly_co2;
            },
        }
        proof {
            assert(final(self)@ =~~= apply_season(old(self)@));
        }
    }

    /// The single mutation entry point: apply one legal action, evaluate
    /// loss and win, advance the season, and recompute the legal-action
    /// cache.
    pub fn advance(&mut self, action: Action)
        requires
            state_inv(old(self)@),
            old(self)@.legal_actions.contains(action),
            advance_fits(old(self)@, action),
        ensures
            final(self)@ == spec_advance(old(self)@, action),
            state_inv(final(self)@),
    {
        proof {
            lemma_legal_action_ok(
                old(self)@.tiles,
                old(self)@.resources.education_culture,
                action,
            );
        }
        match action {
            Action::Build(building, tile) => self.build(building, tile),
            Action::BuildInfrastructure(from, to) => self.build_infrastructure(from, to),
            Action::Terraform(tile) => self.terraform(tile),
        }
        proof {
            let s1 = apply_action(old(self)@, action);
            assert(self@ == s1);
            assert forall|i: int| 0 <= i < 13 implies tile_inv(#[trigger] s1.tiles[i]) by {
                match action {
                    Action::Build(b, t) => {
                        if i == t as int {
                            lemma_build_preserves_inv(old(self)@.tiles[i], b);
                        }
                    },
                    Action::BuildInfrastructure(f, t) => {},
                    Action::Terraform(t) => {},
                }
            }
        }
        self.check_loss_condition();
        self.check_win_condition();
        self.advance_season();
        proof {
            let s1 = apply_action(old(self)@, action);
            assert(self@.tiles == s1.tiles);
            assert(self@.tiles.len() == 13);
            assert forall|i: int| 0 <= i < 13 implies tile_inv(#[trigger] self@.tiles[i]) by {
                assert(self@.tiles[i] == s1.tiles[i]);
            }
            assert(tiles_view(self.tiles@) == self@.tiles);
        }
        let legal_actions = find_legal_actions(&self.tiles, self.resources.education_culture);
        self.legal_actions = legal_actions;
        proof {
            assert(final(self)@ =~~= spec_advance(old(self)@, action));
        }
    }
}

} // verus!
