//! The library-wide laws: properties that relate several operations, each
//! stated over the same spec functions the operations' own contracts use.

use vstd::prelude::*;
use crate::ai::{memo_search, spec_evaluate};
use crate::buildings::{landscape_allows, spec_can_build, Building};
use crate::game_state::{
    action_delta, apply_action, apply_season, initial_state, spec_advance, state_inv, Action,
    Season, StateModel, Status, next_season, win_condition,
};
use crate::legal::{action_ok, lemma_legal_action_ok, spec_legal_actions};
use crate::resources::{res_model, res_plus};
use crate::tile::{
    empty_tile_model, slots_consumed, slots_exact, spec_tile_build, Landscape, TileModel,
};

verus! {

/// Slot bookkeeping: on a tile whose `spaces_left` equals the number of
/// free slots, placing any building the rules allow keeps that equality
/// and never drives `spaces_left` negative — `spaces_left` stays exactly
/// 3 minus the number of occupied slot positions.
pub proof fn lemma_spaces_left_exact(t: TileModel, b: Building)
    requires
        t.spaces.len() == 3,
        slots_exact(t),
        spec_can_build(b, t),
    ensures
        slots_exact(spec_tile_build(t, b)),
        spec_tile_build(t, b).spaces_left == t.spaces_left - slots_consumed(b),
        spec_tile_build(t, b).spaces_left >= 0,
{
    let r = spec_tile_build(t, b);
    assert(t.spaces.contains(b) <==> (t.spaces[0] == b || t.spaces[1] == b || t.spaces[2] == b))
        by {
        if t.spaces.contains(b) {
            let j = choose|j: int| 0 <= j < 3 && t.spaces[j] == b;
            assert(j == 0 || j == 1 || j == 2);
        }
        if t.spaces[2] == b {
            assert(t.spaces.contains(b));
        }
    }
    assert(t.spaces[2] == Building::Empty);
    assert(b != Building::Empty);
    assert forall|j: int| 0 <= j < 3 implies ((#[trigger] r.spaces[j]) == Building::Empty <==> j
        >= 3 - r.spaces_left) by {}
}

/// Placement legality is landscape-exhaustive: on a fresh tile of any
/// landscape, a building is legal exactly when the landscape's fixed
/// permission table allows it — the `Empty` sentinel alone is never
/// placeable.
pub proof fn lemma_landscape_table(l: Landscape, b: Building)
    ensures
        spec_can_build(b, empty_tile_model(l)) <==> (b != Building::Empty && landscape_allows(
            l,
            b,
        )),
{
    let t = empty_tile_model(l);
    assert(t.spaces.contains(b) <==> b == Building::Empty) by {
        if t.spaces.contains(b) {
            let j = choose|j: int| 0 <= j < 3 && t.spaces[j] == b;
            assert(j == 0 || j == 1 || j == 2);
        }
        if b == Building::Empty {
            assert(t.spaces[0] == b);
            assert(t.spaces.contains(b));
        }
    }
}

/// The evaluator is bounded: its value lies in [-1000, 45] or is exactly
/// 1000, it is 1000 exactly on won states and -1000 exactly on lost ones.
/// The one family of states excluded here are running states whose three
/// clipped counters already sum to -1000 or below; on those the heuristic
/// sinks past the loss score.
pub proof fn lemma_evaluate_bounds(s: StateModel)
    requires
        s.status == Status::Running ==> spec_evaluate(s) > -1000,
    ensures
        -1000 <= spec_evaluate(s) <= 45 || spec_evaluate(s) == 1000,
        spec_evaluate(s) == 1000 <==> s.status == Status::Win,
        spec_evaluate(s) == -1000 <==> s.status == Status::Loss,
{
}

/// The win rule: after any action, the state is won exactly when the
/// updated resources meet all three thresholds simultaneously, or the
/// state was already won and the doom timer did not strike this turn.
pub proof fn lemma_win_condition(s: StateModel, a: Action)
    ensures
        spec_advance(s, a).status == Status::Win <==> (win_condition(
            apply_action(s, a).resources,
        ) || (s.status == Status::Win && s.doom_timer != 4)),
        win_condition(apply_action(s, a).resources) == win_condition(
            res_plus(s.resources, action_delta(s, a)),
        ),
{
}

/// The loss rule: after any action the state is lost exactly when the doom
/// timer had already reached 4 (or the state was lost before) and the win
/// condition does not overrule it; and the doom timer counts up exactly
/// while the updated instant CO2 is at least 20, snapping to 0 otherwise.
pub proof fn lemma_loss_condition(s: StateModel, a: Action)
    ensures
        spec_advance(s, a).status == Status::Loss <==> (!win_condition(
            apply_action(s, a).resources,
        ) && (s.doom_timer == 4 || s.status == Status::Loss)),
        spec_advance(s, a).doom_timer == (if s.doom_timer == 4 {
            s.doom_timer
        } else if apply_action(s, a).resources.instant_co2 >= 20 {
            s.doom_timer + 1
        } else {
            0
        }),
        0 <= s.doom_timer <= 4 ==> 0 <= spec_advance(s, a).doom_timer <= 4,
{
}

/// The season cycles spring, summer, autumn, winter, spring; and the
/// yearly CO2 is folded into the instant CO2 exactly once per cycle, at
/// the winter-to-spring edge, never elsewhere.
pub proof fn lemma_season_cycle(s: StateModel, a: Action)
    ensures
        spec_advance(s, a).season == next_season(s.season),
        spec_advance(s, a).resources.instant_co2 == res_plus(
            s.resources,
            action_delta(s, a),
        ).instant_co2 + (if s.season == Season::Winter {
            res_plus(s.resources, action_delta(s, a)).yearly_co2
        } else {
            0
        }),
        spec_advance(s, a).resources.yearly_co2 == res_plus(
            s.resources,
            action_delta(s, a),
        ).yearly_co2,
{
}

/// Slot bookkeeping across a whole transition: every tile of a
/// well-formed state keeps its exact slot count — `spaces_left` equal to
/// 3 minus the number of occupied slot positions, never negative —
/// through any legal action.
pub proof fn lemma_advance_spaces_left(s: StateModel, a: Action)
    requires
        state_inv(s),
        s.legal_actions.contains(a),
    ensures
        forall|i: int| 0 <= i < 13 ==> slots_exact(#[trigger] spec_advance(s, a).tiles[i]),
        forall|i: int| 0 <= i < 13 ==> (#[trigger] spec_advance(s, a).tiles[i]).spaces_left >= 0,
{
    lemma_legal_action_ok(s.tiles, s.resources.education_culture, a);
    let s1 = apply_action(s, a);
    assert(spec_advance(s, a).tiles == s1.tiles);
    assert forall|i: int| 0 <= i < 13 implies slots_exact(#[trigger] s1.tiles[i]) by {
        match a {
            Action::Build(b, t) => {
                if i == t as int {
                    lemma_spaces_left_exact(s.tiles[i], b);
                }
            },
            Action::BuildInfrastructure(f, t) => {},
            Action::Terraform(t) => {},
        }
    }
}

/// Slot bookkeeping holds of a fresh map: every tile of an initial state
/// has all three slots free and an exact count, so together with
/// [`lemma_advance_spaces_left`] the bookkeeping holds of every state
/// reachable through legal actions.
pub proof fn lemma_initial_slots_exact(s: StateModel)
    requires
        initial_state(s),
    ensures
        forall|i: int| 0 <= i < 13 ==> slots_exact(#[trigger] s.tiles[i]),
{
    assert forall|i: int| 0 <= i < 13 implies slots_exact(#[trigger] s.tiles[i]) by {
        assert(s.tiles[i].spaces == empty_tile_model(s.tiles[i].landscape).spaces);
    }
}

/// The terraform rule, end to end: a legal `Terraform(i)` forces tile
/// `i`'s landscape to plains, changes nothing else on any tile, adds
/// exactly the fixed delta (3, 0, -3, 0, 0) — plus the winter fold of the
/// yearly CO2 into the instant CO2 — and the recomputed legal actions
/// offer no second terraform of the now-plains tile.
pub proof fn lemma_terraform_rule(s: StateModel, i: usize)
    requires
        state_inv(s),
        s.legal_actions.contains(Action::Terraform(i)),
    ensures
        ({
            let s2 = spec_advance(s, Action::Terraform(i));
            &&& i < 13
            &&& s.tiles[i as int].landscape != Landscape::Plains
            &&& s.tiles[i as int].landscape != Landscape::Ocean
            &&& s2.tiles[i as int] == (TileModel {
                landscape: Landscape::Plains,
                ..s.tiles[i as int]
            })
            &&& forall|j: int| 0 <= j < 13 && j != i ==> s2.tiles[j] == s.tiles[j]
            &&& action_delta(s, Action::Terraform(i)) == res_model(3, 0, -3, 0, 0)
            &&& s2.resources.instant_co2 == s.resources.instant_co2 + 3 + (
                if s.season == Season::Winter {
                    s.resources.yearly_co2
                } else {
                    0
                })
            &&& s2.resources.tech_economy == s.resources.tech_economy
            &&& s2.resources.sustainability == s.resources.sustainability - 3
            &&& s2.resources.education_culture == s.resources.education_culture
            &&& s2.resources.yearly_co2 == s.resources.yearly_co2
            &&& !s2.legal_actions.contains(Action::Terraform(i))
        }),
{
    lemma_legal_action_ok(s.tiles, s.resources.education_culture, Action::Terraform(i));
    let s2 = spec_advance(s, Action::Terraform(i));
    assert(s2.tiles.len() == 13);
    assert(s2.tiles[i as int].landscape == Landscape::Plains);
    if s2.legal_actions.contains(Action::Terraform(i)) {
        lemma_legal_action_ok(s2.tiles, s2.resources.education_culture, Action::Terraform(i));
        assert(false);
    }
}

/// A full year: four season steps return the season to its start and add
/// the yearly CO2 to the instant CO2 exactly once — at the
/// winter-to-spring edge — leaving every other field untouched.
pub proof fn lemma_season_full_cycle(s: StateModel)
    ensures
        ({
            let s4 = apply_season(apply_season(apply_season(apply_season(s))));
            &&& s4.season == s.season
            &&& s4.resources.instant_co2 == s.resources.instant_co2 + s.resources.yearly_co2
            &&& s4.resources.yearly_co2 == s.resources.yearly_co2
            &&& s4.resources.tech_economy == s.resources.tech_economy
            &&& s4.resources.sustainability == s.resources.sustainability
            &&& s4.resources.education_culture == s.resources.education_culture
            &&& s4.tiles == s.tiles
            &&& s4.doom_timer == s.doom_timer
            &&& s4.status == s.status
            &&& s4.legal_actions == s.legal_actions
        }),
{
}

/// Score determinism: the memoised search is a function of the depth, the
/// state and the starting table alone, so two runs from equal states with
/// equal (for instance, fresh empty) tables return equal scores — however
/// the exploration of siblings is interleaved, the fold's result does not
/// change.
pub proof fn lemma_search_deterministic(
    depth: nat,
    s1: StateModel,
    s2: StateModel,
    t1: Map<u64, i16>,
    t2: Map<u64, i16>,
)
    requires
        s1 == s2,
        t1 == t2,
    ensures
        memo_search(depth, s1, t1).0 == memo_search(depth, s2, t2).0,
{
}

/// Every action a well-formed state caches in `legal_actions` satisfies
/// the per-action rule [`action_ok`]: indices in range, the tile usable,
/// and the placement, science and connection checks passed.
pub proof fn lemma_legal_actions_sound(s: StateModel, a: Action)
    requires
        state_inv(s),
        s.legal_actions.contains(a),
    ensures
        action_ok(s.tiles, s.resources.education_culture, a),
{
    lemma_legal_action_ok(s.tiles, s.resources.education_culture, a);
}

} // verus!

