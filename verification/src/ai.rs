//! Scoring of states and depth-bounded exhaustive search over the move
//! tree, memoised through a score table keyed by a content hash of the
//! state.

use vstd::prelude::*;
use std::collections::HashMap;
use std::hash::{Hash, Hasher};
use crate::buildings::Building;
use crate::game_state::{
    advance_fits, spec_advance, state_inv, Action, GameState, Season, StateModel, Status,
};
use crate::resources::in_i16;
use crate::tile::TileModel;

verus! {

broadcast use vstd::std_specs::hash::group_hash_axioms;

pub open spec fn min15(x: int) -> int {
    if x < 15 {
        x
    } else {
        15
    }
}

/// The heuristic score of a state: 1000 for a win, -1000 for a loss, and
/// otherwise the sum of the three win-relevant counters, each clipped at
/// the win threshold 15 so overshoot on one axis cannot mask deficiency on
/// another.
pub open spec fn spec_evaluate(s: StateModel) -> int {
    if s.status == Status::Win {
        1000
    } else if s.status == Status::Loss {
        -1000
    } else {
        min15(s.resources.education_culture) + min15(s.resources.tech_economy) + min15(
            s.resources.sustainability,
        )
    }
}

/// The heuristic score of a state.
pub fn evaluate_gamestate(state: &GameState) -> (r: i16)
    requires
        in_i16(spec_evaluate(state@)),
    ensures
        r as int == spec_evaluate(state@),
{
    match state.status {
        Status::Win => 1000,
        Status::Loss => -1000,
        Status::Running => {
            let e: i32 = if state.resources.education_culture < 15 {
                state.resources.education_culture as i32
            } else {
                15
            };
            let t: i32 = if state.resources.tech_economy < 15 {
                state.resources.tech_economy as i32
            } else {
                15
            };
            let s: i32 = if state.resources.sustainability < 15 {
                state.resources.sustainability as i32
            } else {
                15
            };
            let sum: i32 = e + t + s;
            proof {
                assert(sum == spec_evaluate(state@));
            }
            #[verifier::truncate] (sum as i16)
        },
    }
}

/// The digest of the hashed state fields.  Named rather than defined: the
/// algorithm lives in the outside hasher, and all the search needs is that
/// equal fields give the equal digest.
pub uninterp spec fn hash_of(
    usable: Seq<bool>,
    buildings: Seq<u8>,
    instant_co2: int,
    tech_economy: int,
    sustainability: int,
    education_culture: int,
    yearly_co2: int,
    season: int,
    doom_timer: int,
) -> u64;

pub open spec fn spec_building_code(b: Building) -> u8 {
    match b {
        Building::Factory => 0,
        Building::Store => 1,
        Building::CoalPowerPlant => 2,
        Building::Trees => 3,
        Building::River => 4,
        Building::Livestock => 5,
        Building::Field => 6,
        Building::SolarPark => 7,
        Building::OffshoreTurbines => 8,
        Building::Biotope => 9,
        Building::NationalPark => 10,
        Building::EnvironmentalProtectionArea => 11,
        Building::School => 12,
        Building::Museum => 13,
        Building::Zoo => 14,
        Building::Library => 15,
        Building::University => 16,
        Building::Empty => 17,
    }
}

pub open spec fn spec_season_code(s: Season) -> u8 {
    match s {
        Season::Spring => 0,
        Season::Summer => 1,
        Season::Autumn => 2,
        Season::Winter => 3,
    }
}

pub open spec fn usable_seq(tiles: Seq<TileModel>) -> Seq<bool> {
    tiles.map_values(|t: TileModel| t.usable)
}

pub open spec fn codes_from(tiles: Seq<TileModel>, k: int) -> Seq<u8>
    decreases tiles.len() - k,
{
    if k < 0 || k >= tiles.len() {
        Seq::empty()
    } else {
        tiles[k].spaces.map_values(|b: Building| spec_building_code(b)) + codes_from(tiles, k + 1)
    }
}

/// The content hash of a state: tile usability, tile building layout,
/// resources, season and doom timer — deliberately excluding connections
/// and the cached legal actions.
pub open spec fn state_hash(s: StateModel) -> u64 {
    hash_of(
        usable_seq(s.tiles),
        codes_from(s.tiles, 0),
        s.resources.instant_co2,
        s.resources.tech_economy,
        s.resources.sustainability,
        s.resources.education_culture,
        s.resources.yearly_co2,
        spec_season_code(s.season) as int,
        s.doom_timer,
    )
}

fn building_code(b: Building) -> (r: u8)
    ensures
        r == spec_building_code(b),
{
    match b {
        Building::Factory => 0,
        Building::Store => 1,
        Building::CoalPowerPlant => 2,
        Building::Trees => 3,
        Building::River => 4,
        Building::Livestock => 5,
        Building::Field => 6,
        Building::SolarPark => 7,
        Building::OffshoreTurbines => 8,
        Building::Biotope => 9,
        Building::NationalPark => 10,
        Building::EnvironmentalProtectionArea => 11,
        Building::School => 12,
        Building::Museum => 13,
        Building::Zoo => 14,
        Building::Library => 15,
        Building::University => 16,
        Building::Empty => 17,
    }
}

fn season_code(s: Season) -> (r: u8)
    ensures
        r == spec_season_code(s),
{
    match s {
        Season::Spring => 0,
        Season::Summer => 1,
        Season::Autumn => 2,
        Season::Winter => 3,
    }
}

/// Digest the given state fields.
///
/// Relies on `rustc_hash::FxHasher`: it is unseeded (its state starts at
/// a fixed constant), so its digest is a deterministic function of the
/// written values alone — the value named by [`hash_of`].  The digest is
/// only ever compared with digests computed by this same function inside
/// one search's score table; it is never stored or sent anywhere.
#[verifier::external_body]
fn hash_parts(
    usable: &Vec<bool>,
    buildings: &Vec<u8>,
    instant_co2: i16,
    tech_economy: i16,
    sustainability: i16,
    education_culture: i16,
    yearly_co2: i16,
    season: u8,
    doom_timer: u8,
) -> (r: u64)
    ensures
        r == hash_of(
            usable@,
            buildings@,
            instant_co2 as int,
            tech_economy as int,
            sustainability as int,
            education_culture as int,
            yearly_co2 as int,
            season as int,
            doom_timer as int,
        ),
{
    let mut hasher = rustc_hash::FxHasher::default();
    usable.hash(&mut hasher);
    buildings.hash(&mut hasher);
    (instant_co2, tech_economy, sustainability, education_culture, yearly_co2).hash(&mut hasher);
    season.hash(&mut hasher);
    doom_timer.hash(&mut hasher);
    hasher.finish()
}

/// The content hash of a state, as [`state_hash`] defines it.
fn hash_state(state: &GameState) -> (r: u64)
    ensures
        r == state_hash(state@),
{
    let ghost tv = state@.tiles;
    let mut usable: Vec<bool> = Vec::new();
    let mut i: usize = 0;
    while i < state.tiles.len()
        invariant
            tv == state@.tiles,
            i <= tv.len(),
            usable@.len() == i,
            forall|j: int| 0 <= j < i ==> usable@[j] == tv[j].usable,
        decreases tv.len() - i,
    {
        usable.push(state.tiles[i].usable);
        proof {
            assert(state.tiles@[i as int]@ == tv[i as int]);
        }
        i = i + 1;
    }
    proof {
        assert(usable@ =~= usable_seq(tv));
    }
    let mut codes: Vec<u8> = Vec::new();
    let mut i: usize = 0;
    while i < state.tiles.len()
        invariant
            tv == state@.tiles,
            i <= tv.len(),
            codes@ + codes_from(tv, i as int) == codes_from(tv, 0),
        decreases tv.len() - i,
    {
        let ghost prev = codes@;
        let tile = &state.tiles[i];
        proof {
            assert(tile@ == tv[i as int]);
        }
        let mut j: usize = 0;
        while j < tile.spaces.len()
            invariant
                j <= tile@.spaces.len(),
                codes@.len() == prev.len() + j,
                forall|m: int| 0 <= m < prev.len() ==> codes@[m] == prev[m],
                forall|m: int|
                    0 <= m < j ==> codes@[prev.len() + m] == spec_building_code(tile@.spaces[m]),
            decreases tile@.spaces.len() - j,
        {
            let ghost cprev = codes@;
            codes.push(building_code(tile.spaces[j]));
            proof {
                assert forall|m: int| 0 <= m < prev.len() implies codes@[m] == prev[m] by {
                    assert(codes@[m] == cprev[m]);
                }
                assert forall|m: int| 0 <= m < j + 1 implies codes@[prev.len() + m]
                    == spec_building_code(tile@.spaces[m]) by {
                    if m < j {
                        assert(codes@[prev.len() + m] == cprev[prev.len() + m]);
                    }
                }
            }
            j = j + 1;
        }
        proof {
            assert(codes_from(tv, i as int) == tv[i as int].spaces.map_values(
                |b: Building| spec_building_code(b),
            ) + codes_from(tv, i as int + 1));
            assert(prev + codes_from(tv, i as int) =~= codes@ + codes_from(tv, i as int + 1));
        }
        i = i + 1;
    }
    proof {
        assert(codes_from(tv, tv.len() as int) == Seq::<u8>::empty());
        assert(codes@ =~= codes@ + Seq::<u8>::empty());
        assert(codes@ == codes_from(tv, 0));
    }
    let season = season_code(state.season);
    hash_parts(
        &usable,
        &codes,
        state.resources.instant_co2,
        state.resources.tech_economy,
        state.resources.sustainability,
        state.resources.education_culture,
        state.resources.yearly_co2,
        season,
        state.doom_timer,
    )
}

pub open spec fn is_infrastructure(a: Action) -> bool {
    match a {
        Action::BuildInfrastructure(_, _) => true,
        _ => false,
    }
}

/// The non-infrastructure actions among `acts[k..]`, kept in order.
pub open spec fn filter_infra_from(acts: Seq<Action>, k: int) -> Seq<Action>
    decreases acts.len() - k,
{
    if k < 0 || k >= acts.len() {
        Seq::empty()
    } else {
        (if !is_infrastructure(acts[k]) {
            seq![acts[k]]
        } else {
            Seq::empty()
        }) + filter_infra_from(acts, k + 1)
    }
}

/// The actions the search explores: infrastructure moves are deprioritised
/// and taken only when no other legal action exists.
pub open spec fn candidate_actions(s: StateModel) -> Seq<Action> {
    if filter_infra_from(s.legal_actions, 0).len() == 0 {
        s.legal_actions
    } else {
        filter_infra_from(s.legal_actions, 0)
    }
}

proof fn lemma_filter_infra_sub(acts: Seq<Action>, k: int, a: Action)
    requires
        filter_infra_from(acts, k).contains(a),
    ensures
        acts.contains(a),
    decreases acts.len() - k,
{
    if k < 0 || k >= acts.len() {
        assert(false);
    } else {
        let head: Seq<Action> = if !is_infrastructure(acts[k]) {
            seq![acts[k]]
        } else {
            Seq::empty()
        };
        let idx = choose|idx: int|
            0 <= idx < filter_infra_from(acts, k).len() && filter_infra_from(acts, k)[idx] == a;
        if idx < head.len() {
            assert(acts[k] == a);
        } else {
            assert(filter_infra_from(acts, k + 1)[idx - head.len()] == a);
            assert(filter_infra_from(acts, k + 1).contains(a));
            lemma_filter_infra_sub(acts, k + 1, a);
        }
    }
}

/// Every candidate action is drawn from the legal-action list.
pub proof fn lemma_candidate_in_legal(s: StateModel, k: int)
    requires
        0 <= k < candidate_actions(s).len(),
    ensures
        s.legal_actions.contains(candidate_actions(s)[k]),
{
    let f = filter_infra_from(s.legal_actions, 0);
    if f.len() == 0 {
        assert(s.legal_actions.contains(candidate_actions(s)[k]));
    } else {
        assert(f.contains(f[k]));
        lemma_filter_infra_sub(s.legal_actions, 0, f[k]);
    }
}

/// The memoised score of a state at a given depth, threading the score
/// table through the whole exploration.  At depth 0 the state is scored
/// directly; otherwise a table hit short-circuits, and a miss folds the
/// maximum over the candidate actions' subtree scores into the table under
/// this state's hash.  An empty candidate list scores the fixed penalty
/// -1000.
pub open spec fn memo_search(depth: nat, s: StateModel, table: Map<u64, i16>) -> (i16, Map<
    u64,
    i16,
>)
    decreases depth, 1int, 0int,
{
    if depth == 0 {
        ((spec_evaluate(s)) as i16, table)
    } else {
        let h = state_hash(s);
        if table.contains_key(h) {
            (table[h], table)
        } else {
            let acts = candidate_actions(s);
            if acts.len() == 0 {
                (-1000 as i16, table.insert(h, -1000 as i16))
            } else {
                let folded = memo_kids(depth, s, acts, 0, -32768 as i16, table);
                (folded.0, folded.1.insert(h, folded.0))
            }
        }
    }
}

/// The fold over the children `acts[k..]`: each child is advanced, scored
/// at one less depth with the table threaded along, and the running
/// maximum kept.
pub open spec fn memo_kids(
    depth: nat,
    s: StateModel,
    acts: Seq<Action>,
    k: int,
    best: i16,
    table: Map<u64, i16>,
) -> (i16, Map<u64, i16>)
    decreases depth, 0int, acts.len() - k,
{
    if depth == 0 || k < 0 || k >= acts.len() {
        (best, table)
    } else {
        let child = spec_advance(s, acts[k]);
        let sub = memo_search((depth - 1) as nat, child, table);
        memo_kids(
            depth,
            s,
            acts,
            k + 1,
            if sub.0 > best {
                sub.0
            } else {
                best
            },
            sub.1,
        )
    }
}

/// Every addition performed anywhere in the subtree explored from `s` at
/// the given depth stays within the counters' type.
pub open spec fn search_fits(depth: nat, s: StateModel) -> bool
    decreases depth,
{
    if depth == 0 {
        in_i16(spec_evaluate(s))
    } else {
        forall|k: int| #![trigger candidate_actions(s)[k]]
            0 <= k < candidate_actions(s).len() ==> advance_fits(s, candidate_actions(s)[k])
                && search_fits((depth - 1) as nat, spec_advance(s, candidate_actions(s)[k]))
    }
}

/// The memoised subtree score of `state`, exactly as [`memo_search`]
/// computes it on the state's view and the table's contents.
pub fn search_best_move_recursive(depth: u16, state: &GameState, table: &mut HashMap<u64, i16>)
    -> (r: i16)
    requires
        state_inv(state@),
        search_fits(depth as nat, state@),
    ensures
        r == memo_search(depth as nat, state@, old(table)@).0,
        final(table)@ == memo_search(depth as nat, state@, old(table)@).1,
    decreases depth,
{
    if depth == 0 {
        let v = evaluate_gamestate(state);
        proof {
            assert(v == (spec_evaluate(state@)) as i16);
        }
        return v;
    }
    let h = hash_state(state);
    let cached = table.get(&h);
    match cached {
        Some(v) => {
            let value = *v;
            proof {
                assert(table@.contains_key(h) && table@[h] == value);
            }
            return value;
        },
        None => {
            proof {
                assert(!table@.contains_key(h));
            }
        },
    }
    let ghost legal = state@.legal_actions;
    let mut filtered: Vec<Action> = Vec::new();
    let mut k: usize = 0;
    while k < state.legal_actions.len()
        invariant
            legal == state@.legal_actions,
            k <= legal.len(),
            filtered@ + filter_infra_from(legal, k as int) == filter_infra_from(legal, 0),
        decreases legal.len() - k,
    {
        let a = state.legal_actions[k];
        let ghost prev = filtered@;
        match a {
            Action::BuildInfrastructure(_, _) => {
                proof {
                    assert(prev + filter_infra_from(legal, k as int) =~= filtered@
                        + filter_infra_from(legal, k as int + 1));
                }
            },
            _ => {
                filtered.push(a);
                proof {
                    assert(filtered@ =~= prev + seq![legal[k as int]]);
                    assert(prev + filter_infra_from(legal, k as int) =~= filtered@
                        + filter_infra_from(legal, k as int + 1));
                }
            },
        }
        k = k + 1;
    }
    proof {
        assert(filter_infra_from(legal, legal.len() as int) == Seq::<Action>::empty());
        assert(filtered@ =~= filtered@ + Seq::<Action>::empty());
        assert(filtered@ == filter_infra_from(legal, 0));
    }
    let cands: Vec<Action> = if filtered.len() == 0 {
        crate::game_state::copy_actions(&state.legal_actions)
    } else {
        filtered
    };
    proof {
        assert(cands@ == candidate_actions(state@));
    }
    if cands.len() == 0 {
        table.insert(h, -1000);
        return -1000;
    }
    let ghost t0 = table@;
    let mut best: i16 = -32768;
    let mut k: usize = 0;
    while k < cands.len()
        invariant
            depth >= 1,
            state_inv(state@),
            search_fits(depth as nat, state@),
            cands@ == candidate_actions(state@),
            k <= cands@.len(),
            memo_kids(depth as nat, state@, cands@, k as int, best, table@) == memo_kids(
                depth as nat,
                state@,
                cands@,
                0,
                -32768 as i16,
                t0,
            ),
        decreases cands@.len() - k,
    {
        let action = cands[k];
        proof {
            lemma_candidate_in_legal(state@, k as int);
            assert(advance_fits(state@, candidate_actions(state@)[k as int]) && search_fits(
                (depth - 1) as nat,
                spec_advance(state@, candidate_actions(state@)[k as int]),
            ));
        }
        let ghost t_before = table@;
        let ghost best_before = best;
        let mut child = state.duplicate();
        child.advance(action);
        proof {
            assert(child@ == spec_advance(state@, action));
        }
        let sc = search_best_move_recursive(depth - 1, &child, table);
        if sc > best {
            best = sc;
        }
        proof {
            assert(memo_kids(depth as nat, state@, cands@, k as int, best_before, t_before)
                == memo_kids(depth as nat, state@, cands@, k as int + 1, best, table@));
        }
        k = k + 1;
    }
    proof {
        assert(memo_kids(depth as nat, state@, cands@, cands@.len() as int, best, table@)
            == (best, table@));
    }
    table.insert(h, best);
    best
}

/// What is explored from the root: the fold over the candidate actions,
/// keeping the best score and the first action that reached it.  The root
/// itself is never looked up in the table; only the subtrees are.
pub open spec fn memo_top(
    depth: nat,
    s: StateModel,
    acts: Seq<Action>,
    k: int,
    best: i16,
    best_action: Action,
    table: Map<u64, i16>,
) -> (i16, Action, Map<u64, i16>)
    decreases acts.len() - k,
{
    if depth == 0 || k < 0 || k >= acts.len() {
        (best, best_action, table)
    } else {
        let child = spec_advance(s, acts[k]);
        let sub = memo_search((depth - 1) as nat, child, table);
        if k == 0 || sub.0 > best {
            memo_top(depth, s, acts, k + 1, sub.0, acts[k], sub.1)
        } else {
            memo_top(depth, s, acts, k + 1, best, best_action, sub.1)
        }
    }
}

/// The result of a root search: the sentinel score and action when no
/// action is legal, otherwise the fold of [`memo_top`] over the candidate
/// actions.
pub open spec fn spec_search_result(depth: nat, s: StateModel, table: Map<u64, i16>) -> (
    i16,
    Action,
    Map<u64, i16>,
) {
    let acts = candidate_actions(s);
    if acts.len() == 0 {
        (-1000 as i16, Action::Terraform(420), table)
    } else {
        memo_top(depth, s, acts, 0, -32768 as i16, Action::Terraform(420), table)
    }
}

/// Every addition performed in the subtrees explored from the root stays
/// within the counters' type.
pub open spec fn top_fits(depth: nat, s: StateModel) -> bool {
    forall|k: int| #![trigger candidate_actions(s)[k]]
        0 <= k < candidate_actions(s).len() ==> advance_fits(s, candidate_actions(s)[k])
            && search_fits((depth - 1) as nat, spec_advance(s, candidate_actions(s)[k]))
}

/// The recommended move: the best score over the candidate actions at the
/// requested depth, with ties broken in favour of the first candidate in
/// enumeration order, and the sentinel when nothing is legal.  The
/// returned action is always drawn from the state's legal actions, or is
/// the sentinel exactly when there are none.
pub fn search_best_move(depth: u16, state: &GameState, table: &mut HashMap<u64, i16>) -> (r: (
    i16,
    Action,
))
    requires
        depth >= 1,
        state_inv(state@),
        top_fits(depth as nat, state@),
    ensures
        r.0 == spec_search_result(depth as nat, state@, old(table)@).0,
        r.1 == spec_search_result(depth as nat, state@, old(table)@).1,
        final(table)@ == spec_search_result(depth as nat, state@, old(table)@).2,
        state@.legal_actions.len() > 0 ==> state@.legal_actions.contains(r.1),
        state@.legal_actions.len() == 0 ==> r.1 == Action::Terraform(420),
{
    let ghost legal = state@.legal_actions;
    let mut filtered: Vec<Action> = Vec::new();
    let mut k: usize = 0;
    while k < state.legal_actions.len()
        invariant
            legal == state@.legal_actions,
            k <= legal.len(),
            filtered@ + filter_infra_from(legal, k as int) == filter_infra_from(legal, 0),
        decreases legal.len() - k,
    {
        let a = state.legal_actions[k];
        let ghost prev = filtered@;
        match a {
            Action::BuildInfrastructure(_, _) => {
                proof {
                    assert(prev + filter_infra_from(legal, k as int) =~= filtered@
                        + filter_infra_from(legal, k as int + 1));
                }
            },
            _ => {
                filtered.push(a);
                proof {
                    assert(filtered@ =~= prev + seq![legal[k as int]]);
                    assert(prev + filter_infra_from(legal, k as int) =~= filtered@
                        + filter_infra_from(legal, k as int + 1));
                }
            },
        }
        k = k + 1;
    }
    proof {
        assert(filter_infra_from(legal, legal.len() as int) == Seq::<Action>::empty());
        assert(filtered@ =~= filtered@ + Seq::<Action>::empty());
        assert(filtered@ == filter_infra_from(legal, 0));
    }
    let cands: Vec<Action> = if filtered.len() == 0 {
        crate::game_state::copy_actions(&state.legal_actions)
    } else {
        filtered
    };
    proof {
        assert(cands@ == candidate_actions(state@));
    }
    if cands.len() == 0 {
        return (-1000, Action::Terraform(420));
    }
    let ghost t0 = table@;
    let mut best: i16 = -32768;
    let mut best_action: Action = Action::Terraform(420);
    let mut k: usize = 0;
    while k < cands.len()
        invariant
            depth >= 1,
            state_inv(state@),
            top_fits(depth as nat, state@),
            cands@ == candidate_actions(state@),
            cands@.len() > 0,
            k <= cands@.len(),
            k > 0 ==> cands@.contains(best_action),
            memo_top(depth as nat, state@, cands@, k as int, best, best_action, table@)
                == memo_top(
                depth as nat,
                state@,
                cands@,
                0,
                -32768 as i16,
                Action::Terraform(420),
                t0,
            ),
        decreases cands@.len() - k,
    {
        let action = cands[k];
        proof {
            lemma_candidate_in_legal(state@, k as int);
            assert(advance_fits(state@, candidate_actions(state@)[k as int]) && search_fits(
                (depth - 1) as nat,
                spec_advance(state@, candidate_actions(state@)[k as int]),
            ));
        }
        let ghost t_before = table@;
        let ghost best_before = best;
        let ghost best_action_before = best_action;
        let mut child = state.duplicate();
        child.advance(action);
        proof {
            assert(child@ == spec_advance(state@, action));
        }
        let sc = search_best_move_recursive(depth - 1, &child, table);
        if k == 0 || sc > best {
            best = sc;
            best_action = action;
            proof {
                assert(cands@.contains(action));
            }
        }
        proof {
            assert(memo_top(
                depth as nat,
                state@,
                cands@,
                k as int,
                best_before,
                best_action_before,
                t_before,
            ) == memo_top(depth as nat, state@, cands@, k as int + 1, best, best_action, table@));
        }
        k = k + 1;
    }
    proof {
        assert(memo_top(depth as nat, state@, cands@, cands@.len() as int, best, best_action,
            table@) == (best, best_action, table@));
        let idx = choose|idx: int| 0 <= idx < cands@.len() && cands@[idx] == best_action;
        lemma_candidate_in_legal(state@, idx);
    }
    (best, best_action)
}

} // verus!
