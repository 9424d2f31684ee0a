//! Enumeration of the legal actions: for every usable tile, terraforming,
//! infrastructure towards unconnected neighbours, and every buildable
//! building, in a fixed deterministic order.

use vstd::prelude::*;
use crate::buildings::{
    all_buildings, building_order, spec_can_build, spec_science_ok, Building,
};
use crate::game_state::Action;
use crate::tile::{tile_inv, Landscape, Tile, TileModel};

verus! {

/// The views of a vector of tiles, in order.
pub open spec fn tiles_view(tiles: Seq<Tile>) -> Seq<TileModel> {
    tiles.map_values(|t: Tile| t@)
}

/// The static neighbour table of the 13-cell map: the infrastructure
/// actions that the topology offers from each cell.
pub open spec fn spec_neighbors(i: int) -> Seq<Action> {
    if i == 0 {
        seq![Action::BuildInfrastructure(0, 2)]
    } else if i == 1 {
        seq![Action::BuildInfrastructure(1, 4)]
    } else if i == 2 {
        seq![
            Action::BuildInfrastructure(2, 0),
            Action::BuildInfrastructure(2, 4),
            Action::BuildInfrastructure(2, 5),
            Action::BuildInfrastructure(2, 6),
        ]
    } else if i == 3 {
        seq![Action::BuildInfrastructure(3, 5)]
    } else if i == 4 {
        seq![
            Action::BuildInfrastructure(4, 1),
            Action::BuildInfrastructure(4, 2),
            Action::BuildInfrastructure(4, 6),
            Action::BuildInfrastructure(4, 7),
        ]
    } else if i == 5 {
        seq![
            Action::BuildInfrastructure(5, 2),
            Action::BuildInfrastructure(5, 3),
            Action::BuildInfrastructure(5, 6),
            Action::BuildInfrastructure(5, 8),
        ]
    } else if i == 6 {
        seq![
            Action::BuildInfrastructure(6, 2),
            Action::BuildInfrastructure(6, 4),
            Action::BuildInfrastructure(6, 5),
            Action::BuildInfrastructure(6, 7),
            Action::BuildInfrastructure(6, 8),
            Action::BuildInfrastructure(6, 10),
        ]
    } else if i == 7 {
        seq![
            Action::BuildInfrastructure(7, 4),
            Action::BuildInfrastructure(7, 6),
            Action::BuildInfrastructure(7, 9),
            Action::BuildInfrastructure(7, 10),
        ]
    } else if i == 8 {
        seq![
            Action::BuildInfrastructure(8, 4),
            Action::BuildInfrastructure(8, 6),
            Action::BuildInfrastructure(8, 10),
            Action::BuildInfrastructure(8, 11),
        ]
    } else if i == 9 {
        seq![Action::BuildInfrastructure(9, 7)]
    } else if i == 10 {
        seq![
            Action::BuildInfrastructure(10, 6),
            Action::BuildInfrastructure(10, 7),
            Action::BuildInfrastructure(10, 8),
            Action::BuildInfrastructure(10, 12),
        ]
    } else if i == 11 {
        seq![Action::BuildInfrastructure(11, 8)]
    } else if i == 12 {
        seq![Action::BuildInfrastructure(12, 10)]
    } else {
        Seq::empty()
    }
}

/// Shape of a neighbour-table entry for cell `i`: an infrastructure action
/// leaving `i` towards some cell of the map.
pub open spec fn neighbor_entry_ok(i: int, a: Action) -> bool {
    match a {
        Action::BuildInfrastructure(f, t) => f == i && t < 13,
        _ => false,
    }
}

pub proof fn lemma_neighbors_ok(i: int)
    ensures
        forall|j: int|
            0 <= j < spec_neighbors(i).len() ==> neighbor_entry_ok(i, #[trigger] spec_neighbors(i)[j]),
{
}

/// An infrastructure action is applicable when its two cells are not yet
/// connected; anything else never passes this filter.
pub open spec fn spec_unconnected(tiles: Seq<TileModel>, a: Action) -> bool {
    match a {
        Action::BuildInfrastructure(f, t) => !tiles[f as int].connections[t as int],
        _ => false,
    }
}

/// The applicable infrastructure actions among `conns[k..]`, kept in order.
pub open spec fn spec_infra_from(tiles: Seq<TileModel>, conns: Seq<Action>, k: int) -> Seq<Action>
    decreases conns.len() - k,
{
    if k < 0 || k >= conns.len() {
        Seq::empty()
    } else {
        (if spec_unconnected(tiles, conns[k]) {
            seq![conns[k]]
        } else {
            Seq::empty()
        }) + spec_infra_from(tiles, conns, k + 1)
    }
}

/// The build actions for tile `i` drawn from `building_order()[k..]`:
/// every building that passes both the placement rules and the science
/// gate, in declaration order.
pub open spec fn spec_builds_from(t: TileModel, science: int, i: usize, k: int) -> Seq<Action>
    decreases 18 - k,
{
    if k < 0 || k >= 18 {
        Seq::empty()
    } else {
        (if spec_can_build(building_order()[k], t) && spec_science_ok(
            building_order()[k],
            science,
        ) {
            seq![Action::Build(building_order()[k], i)]
        } else {
            Seq::empty()
        }) + spec_builds_from(t, science, i, k + 1)
    }
}

/// All actions contributed by tile `i`: nothing unless the tile is usable;
/// otherwise terraforming (unless the landscape is already plains or
/// ocean), then infrastructure, then builds.
pub open spec fn spec_tile_actions(tiles: Seq<TileModel>, science: int, i: int) -> Seq<Action> {
    if !(0 <= i < tiles.len()) || !tiles[i].usable {
        Seq::empty()
    } else {
        (if tiles[i].landscape != Landscape::Plains && tiles[i].landscape != Landscape::Ocean {
            seq![Action::Terraform(i as usize)]
        } else {
            Seq::empty()
        }) + spec_infra_from(tiles, spec_neighbors(i), 0) + spec_builds_from(
            tiles[i],
            science,
            i as usize,
            0,
        )
    }
}

pub open spec fn spec_actions_from(tiles: Seq<TileModel>, science: int, i: int) -> Seq<Action>
    decreases 13 - i,
{
    if i < 0 || i >= 13 {
        Seq::empty()
    } else {
        spec_tile_actions(tiles, science, i) + spec_actions_from(tiles, science, i + 1)
    }
}

/// The full legal-action list of a map at a given science level: tiles in
/// ascending index order, each contributing as [`spec_tile_actions`] says.
pub open spec fn spec_legal_actions(tiles: Seq<TileModel>, science: int) -> Seq<Action> {
    spec_actions_from(tiles, science, 0)
}

/// What membership in the legal-action list guarantees about an action.
pub open spec fn action_ok(tiles: Seq<TileModel>, science: int, a: Action) -> bool {
    match a {
        Action::Terraform(i) => i < 13 && tiles[i as int].usable && tiles[i as int].landscape
            != Landscape::Plains && tiles[i as int].landscape != Landscape::Ocean,
        Action::Build(b, i) => i < 13 && tiles[i as int].usable && spec_can_build(
            b,
            tiles[i as int],
        ) && spec_science_ok(b, science),
        Action::BuildInfrastructure(f, t) => f < 13 && t < 13 && tiles[f as int].usable
            && !tiles[f as int].connections[t as int],
    }
}

proof fn lemma_infra_from_ok(tiles: Seq<TileModel>, i: int, conns: Seq<Action>, k: int, a: Action)
    requires
        forall|j: int| 0 <= j < conns.len() ==> neighbor_entry_ok(i, #[trigger] conns[j]),
        spec_infra_from(tiles, conns, k).contains(a),
    ensures
        neighbor_entry_ok(i, a),
        spec_unconnected(tiles, a),
    decreases conns.len() - k,
{
    if k < 0 || k >= conns.len() {
        assert(false);
    } else {
        let head: Seq<Action> = if spec_unconnected(tiles, conns[k]) {
            seq![conns[k]]
        } else {
            Seq::empty()
        };
        let idx = choose|idx: int|
            0 <= idx < spec_infra_from(tiles, conns, k).len() && spec_infra_from(
                tiles,
                conns,
                k,
            )[idx] == a;
        if idx < head.len() {
            assert(a == conns[k]);
        } else {
            assert(spec_infra_from(tiles, conns, k + 1)[idx - head.len()] == a);
            assert(spec_infra_from(tiles, conns, k + 1).contains(a));
            lemma_infra_from_ok(tiles, i, conns, k + 1, a);
        }
    }
}

proof fn lemma_builds_from_ok(t: TileModel, science: int, i: usize, k: int, a: Action)
    requires
        spec_builds_from(t, science, i, k).contains(a),
    ensures
        match a {
            Action::Build(b, j) => j == i && spec_can_build(b, t) && spec_science_ok(b, science),
            _ => false,
        },
    decreases 18 - k,
{
    if k < 0 || k >= 18 {
        assert(false);
    } else {
        let head: Seq<Action> = if spec_can_build(building_order()[k], t) && spec_science_ok(
            building_order()[k],
            science,
        ) {
            seq![Action::Build(building_order()[k], i)]
        } else {
            Seq::empty()
        };
        let idx = choose|idx: int|
            0 <= idx < spec_builds_from(t, science, i, k).len() && spec_builds_from(
                t,
                science,
                i,
                k,
            )[idx] == a;
        if idx < head.len() {
        } else {
            assert(spec_builds_from(t, science, i, k + 1)[idx - head.len()] == a);
            assert(spec_builds_from(t, science, i, k + 1).contains(a));
            lemma_builds_from_ok(t, science, i, k + 1, a);
        }
    }
}

proof fn lemma_tile_actions_ok(tiles: Seq<TileModel>, science: int, i: int, a: Action)
    requires
        tiles.len() == 13,
        spec_tile_actions(tiles, science, i).contains(a),
    ensures
        action_ok(tiles, science, a),
{
    assert(0 <= i < 13 && tiles[i].usable);
    let terra: Seq<Action> = if tiles[i].landscape != Landscape::Plains && tiles[i].landscape
        != Landscape::Ocean {
        seq![Action::Terraform(i as usize)]
    } else {
        Seq::empty()
    };
    let infra = spec_infra_from(tiles, spec_neighbors(i), 0);
    let builds = spec_builds_from(tiles[i], science, i as usize, 0);
    let whole = terra + infra + builds;
    let idx = choose|idx: int| 0 <= idx < whole.len() && whole[idx] == a;
    if idx < terra.len() {
        assert(a == Action::Terraform(i as usize));
    } else if idx < terra.len() + infra.len() {
        assert(infra[idx - terra.len()] == a);
        assert(infra.contains(a));
        lemma_neighbors_ok(i);
        lemma_infra_from_ok(tiles, i, spec_neighbors(i), 0, a);
    } else {
        assert(builds[idx - terra.len() - infra.len()] == a);
        assert(builds.contains(a));
        lemma_builds_from_ok(tiles[i], science, i as usize, 0, a);
    }
}

proof fn lemma_actions_from_ok(tiles: Seq<TileModel>, science: int, i: int, a: Action)
    requires
        tiles.len() == 13,
        spec_actions_from(tiles, science, i).contains(a),
    ensures
        action_ok(tiles, science, a),
    decreases 13 - i,
{
    if i < 0 || i >= 13 {
        assert(false);
    } else {
        let head = spec_tile_actions(tiles, science, i);
        let idx = choose|idx: int|
            0 <= idx < spec_actions_from(tiles, science, i).len() && spec_actions_from(
                tiles,
                science,
                i,
            )[idx] == a;
        if idx < head.len() {
            assert(head.contains(a));
            lemma_tile_actions_ok(tiles, science, i, a);
        } else {
            assert(spec_actions_from(tiles, science, i + 1)[idx - head.len()] == a);
            assert(spec_actions_from(tiles, science, i + 1).contains(a));
            lemma_actions_from_ok(tiles, science, i + 1, a);
        }
    }
}

/// Everything the enumerator emits satisfies [`action_ok`]: indices are in
/// range, the tile is usable, and the per-action rule held when the list
/// was computed.
pub proof fn lemma_legal_action_ok(tiles: Seq<TileModel>, science: int, a: Action)
    requires
        tiles.len() == 13,
        spec_legal_actions(tiles, science).contains(a),
    ensures
        action_ok(tiles, science, a),
{
    lemma_actions_from_ok(tiles, science, 0, a);
}

/// The neighbour table of one cell, as applicable infrastructure actions.
pub fn possible_connections(index: usize) -> (r: Vec<Action>)
    requires
        index < 13,
    ensures
        r@ == spec_neighbors(index as int),
{
    let r: Vec<Action> = if index == 0 {
        vec![Action::BuildInfrastructure(0, 2)]
    } else if index == 1 {
        vec![Action::BuildInfrastructure(1, 4)]
    } else if index == 2 {
        vec![
            Action::BuildInfrastructure(2, 0),
            Action::BuildInfrastructure(2, 4),
            Action::BuildInfrastructure(2, 5),
            Action::BuildInfrastructure(2, 6),
        ]
    } else if index == 3 {
        vec![Action::BuildInfrastructure(3, 5)]
    } else if index == 4 {
        vec![
            Action::BuildInfrastructure(4, 1),
            Action::BuildInfrastructure(4, 2),
            Action::BuildInfrastructure(4, 6),
            Action::BuildInfrastructure(4, 7),
        ]
    } else if index == 5 {
        vec![
            Action::BuildInfrastructure(5, 2),
            Action::BuildInfrastructure(5, 3),
            Action::BuildInfrastructure(5, 6),
            Action::BuildInfrastructure(5, 8),
        ]
    } else if index == 6 {
        vec![
            Action::BuildInfrastructure(6, 2),
            Action::BuildInfrastructure(6, 4),
            Action::BuildInfrastructure(6, 5),
            Action::BuildInfrastructure(6, 7),
            Action::BuildInfrastructure(6, 8),
            Action::BuildInfrastructure(6, 10),
        ]
    } else if index == 7 {
        vec![
            Action::BuildInfrastructure(7, 4),
            Action::BuildInfrastructure(7, 6),
            Action::BuildInfrastructure(7, 9),
            Action::BuildInfrastructure(7, 10),
        ]
    } else if index == 8 {
        vec![
            Action::BuildInfrastructure(8, 4),
            Action::BuildInfrastructure(8, 6),
            Action::BuildInfrastructure(8, 10),
            Action::BuildInfrastructure(8, 11),
        ]
    } else if index == 9 {
        vec![Action::BuildInfrastructure(9, 7)]
    } else if index == 10 {
        vec![
            Action::BuildInfrastructure(10, 6),
            Action::BuildInfrastructure(10, 7),
            Action::BuildInfrastructure(10, 8),
            Action::BuildInfrastructure(10, 12),
        ]
    } else if index == 11 {
        vec![Action::BuildInfrastructure(11, 8)]
    } else {
        vec![Action::BuildInfrastructure(12, 10)]
    };
    proof {
        assert(r@ =~= spec_neighbors(index as int));
    }
    r
}

/// Whether an infrastructure action from the static table is still open,
/// that is, its two cells are not yet connected.
pub fn filter_actual_connections(tiles: &Vec<Tile>, possible_connection: Action) -> (r: bool)
    requires
        tiles@.len() == 13,
        forall|i: int| 0 <= i < 13 ==> tile_inv(#[trigger] tiles_view(tiles@)[i]),
        match possible_connection {
            Action::BuildInfrastructure(f, t) => f < 13 && t < 13,
            _ => true,
        },
    ensures
        r == spec_unconnected(tiles_view(tiles@), possible_connection),
{
    match possible_connection {
        Action::BuildInfrastructure(from, to) => {
            proof {
                assert(tile_inv(tiles_view(tiles@)[from as int]));
            }
            !tiles[from].connections[to]
        },
        _ => false,
    }
}

/// Append to `actions` the applicable infrastructure actions of cell
/// `index`, in table order.
fn push_infra(actions: &mut Vec<Action>, tiles: &Vec<Tile>, index: usize)
    requires
        index < 13,
        tiles@.len() == 13,
        forall|i: int| 0 <= i < 13 ==> tile_inv(#[trigger] tiles_view(tiles@)[i]),
    ensures
        final(actions)@ == old(actions)@ + spec_infra_from(
            tiles_view(tiles@),
            spec_neighbors(index as int),
            0,
        ),
{
    let conns = possible_connections(index);
    let ghost tv = tiles_view(tiles@);
    let ghost cseq = spec_neighbors(index as int);
    proof {
        lemma_neighbors_ok(index as int);
    }
    let mut k: usize = 0;
    while k < conns.len()
        invariant
            index < 13,
            conns@ == cseq,
            k <= cseq.len(),
            tiles@.len() == 13,
            forall|i: int| 0 <= i < 13 ==> tile_inv(#[trigger] tiles_view(tiles@)[i]),
            tv == tiles_view(tiles@),
            forall|j: int|
                0 <= j < cseq.len() ==> neighbor_entry_ok(index as int, #[trigger] cseq[j]),
            actions@ + spec_infra_from(tv, cseq, k as int) == old(actions)@ + spec_infra_from(
                tv,
                cseq,
                0,
            ),
        decreases cseq.len() - k,
    {
        let a = conns[k];
        let ghost prev = actions@;
        proof {
            assert(neighbor_entry_ok(index as int, cseq[k as int]));
        }
        if filter_actual_connections(tiles, a) {
            actions.push(a);
            proof {
                assert(actions@ =~= prev + seq![cseq[k as int]]);
                assert(spec_infra_from(tv, cseq, k as int) == seq![cseq[k as int]]
                    + spec_infra_from(tv, cseq, k as int + 1));
                assert(prev + spec_infra_from(tv, cseq, k as int) =~= actions@ + spec_infra_from(
                    tv,
                    cseq,
                    k as int + 1,
                ));
            }
        } else {
            proof {
                assert(spec_infra_from(tv, cseq, k as int) == Seq::<Action>::empty()
                    + spec_infra_from(tv, cseq, k as int + 1));
                assert(prev + spec_infra_from(tv, cseq, k as int) =~= actions@ + spec_infra_from(
                    tv,
                    cseq,
                    k as int + 1,
                ));
            }
        }
        k = k + 1;
    }
    proof {
        assert(spec_infra_from(tv, cseq, cseq.len() as int) == Seq::<Action>::empty());
        assert(actions@ =~= actions@ + Seq::<Action>::empty());
    }
}

/// Append to `actions` the build actions of `tile`, in building order.
fn push_builds(actions: &mut Vec<Action>, tile: &Tile, science: i16, index: usize)
    requires
        tile@.spaces.len() == 3,
    ensures
        final(actions)@ == old(actions)@ + spec_builds_from(tile@, science as int, index, 0),
{
    let buildings = all_buildings();
    let mut k: usize = 0;
    while k < buildings.len()
        invariant
            buildings@ == building_order(),
            k <= 18,
            tile@.spaces.len() == 3,
            actions@ + spec_builds_from(tile@, science as int, index, k as int) == old(actions)@
                + spec_builds_from(tile@, science as int, index, 0),
        decreases 18 - k,
    {
        let b = buildings[k];
        let ghost prev = actions@;
        if b.can_build_on_tile(tile) && b.has_enough_science(science) {
            actions.push(Action::Build(b, index));
            proof {
                assert(actions@ =~= prev + seq![Action::Build(building_order()[k as int], index)]);
                assert(prev + spec_builds_from(tile@, science as int, index, k as int)
                    =~= actions@ + spec_builds_from(tile@, science as int, index, k as int + 1));
            }
        } else {
            proof {
                assert(prev + spec_builds_from(tile@, science as int, index, k as int)
                    =~= actions@ + spec_builds_from(tile@, science as int, index, k as int + 1));
            }
        }
        k = k + 1;
    }
    proof {
        assert(spec_builds_from(tile@, science as int, index, 18) == Seq::<Action>::empty());
        assert(actions@ =~= actions@ + Seq::<Action>::empty());
    }
}

/// Enumerate every action the rules currently allow, in the fixed order:
/// tiles by ascending index; within a tile terraform, then infrastructure,
/// then builds by building order.
pub fn find_legal_actions(tiles: &Vec<Tile>, science: i16) -> (r: Vec<Action>)
    requires
        tiles@.len() == 13,
        forall|i: int| 0 <= i < 13 ==> tile_inv(#[trigger] tiles_view(tiles@)[i]),
    ensures
        r@ == spec_legal_actions(tiles_view(tiles@), science as int),
{
    let ghost tv = tiles_view(tiles@);
    let mut actions: Vec<Action> = Vec::new();
    let mut index: usize = 0;
    while index < 13
        invariant
            tiles@.len() == 13,
            forall|i: int| 0 <= i < 13 ==> tile_inv(#[trigger] tiles_view(tiles@)[i]),
            tv == tiles_view(tiles@),
            index <= 13,
            actions@ + spec_actions_from(tv, science as int, index as int) == spec_actions_from(
                tv,
                science as int,
                0,
            ),
        decreases 13 - index,
    {
        let ghost at_start = actions@;
        if tiles[index].usable {
            let ghost terra: Seq<Action> = if tv[index as int].landscape != Landscape::Plains
                && tv[index as int].landscape != Landscape::Ocean {
                seq![Action::Terraform(index)]
            } else {
                Seq::empty()
            };
            proof {
                assert(tv[index as int] == tiles@[index as int]@);
            }
            if !matches!(tiles[index].landscape, Landscape::Plains)
                && !matches!(tiles[index].landscape, Landscape::Ocean) {
                actions.push(Action::Terraform(index));
            }
            proof {
                assert(actions@ =~= at_start + terra);
            }
            let ghost before_infra = actions@;
            push_infra(&mut actions, tiles, index);
            let ghost infra = spec_infra_from(tv, spec_neighbors(index as int), 0);
            proof {
                assert(actions@ == before_infra + infra);
            }
            push_builds(&mut actions, &tiles[index], science, index);
            let ghost builds = spec_builds_from(tv[index as int], science as int, index, 0);
            proof {
                assert(tiles@[index as int]@ == tv[index as int]);
                assert(actions@ == (at_start + terra) + infra + builds);
                assert(spec_tile_actions(tv, science as int, index as int) == terra + infra
                    + builds);
                assert(actions@ =~= at_start + spec_tile_actions(tv, science as int, index as int));
            }
        } else {
            proof {
                assert(tv[index as int] == tiles@[index as int]@);
                assert(spec_tile_actions(tv, science as int, index as int) == Seq::<Action>::empty());
                assert(actions@ =~= at_start + spec_tile_actions(tv, science as int, index as int));
            }
        }
        proof {
            assert(spec_actions_from(tv, science as int, index as int) == spec_tile_actions(
                tv,
                science as int,
                index as int,
            ) + spec_actions_from(tv, science as int, index as int + 1));
            assert(at_start + spec_actions_from(tv, science as int, index as int) =~= actions@
                + spec_actions_from(tv, science as int, index as int + 1));
        }
        index = index + 1;
    }
    proof {
        assert(spec_actions_from(tv, science as int, 13) == Seq::<Action>::empty());
        assert(actions@ =~= actions@ + Seq::<Action>::empty());
    }
    actions
}

} // verus!
