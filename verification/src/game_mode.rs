//! The round's win condition, in its two built-in variants.
//!
//! Plain elimination: a team loses once its dead count reaches the required
//! kills. King mode: a team loses once every unit on its designated king
//! slots is dead. The check runs once per frame; the transition it triggers
//! fires exactly once per satisfied condition — the `fired` guard keeps a
//! condition that stays true from re-triggering every frame.

use vstd::prelude::*;
use crate::bud::Bud;
use crate::rng::rand_between;
use crate::scene::{spec_survivors, spec_profiles_eqv, StateInfo};
use crate::state::{GameStateEnum, GameStateHandler};

verus! {

/// How many units of the team are dead among the first `k` listed.
pub open spec fn spec_team_deaths(units: Seq<Bud>, team: u8, k: nat) -> int
    decreases k,
{
    if k == 0 {
        0
    } else {
        spec_team_deaths(units, team, (k - 1) as nat) + if units[k - 1].bud_data.initial.team
            == team && !units[k - 1].bud_data.spec_alive() {
            1int
        } else {
            0int
        }
    }
}

/// Whether the unit on one king slot of the team is dead.
pub open spec fn spec_king_dead(units: Seq<Bud>, team: u8, king: u8) -> bool {
    exists|i: int|
        0 <= i < units.len() && #[trigger] units[i].bud_data.initial.team == team
            && units[i].bud_data.initial.index == king && !units[i].bud_data.spec_alive()
}

/// Whether a team has lost under the given rule set.
pub open spec fn spec_team_lost(
    units: Seq<Bud>,
    team: u8,
    required_kills: u8,
    kings: Seq<u8>,
) -> bool {
    if kings.len() == 0 {
        spec_team_deaths(units, team, units.len()) >= required_kills
    } else {
        forall|j: int| 0 <= j < kings.len() ==> spec_king_dead(units, team, #[trigger] kings[j])
    }
}

/// Whether the round is decided: either team has lost.
pub open spec fn spec_round_over(units: Seq<Bud>, required_kills: u8, kings: Seq<u8>) -> bool {
    spec_team_lost(units, 0, required_kills, kings) || spec_team_lost(
        units,
        1,
        required_kills,
        kings,
    )
}

/// The win-condition rule set of one round.
pub struct DeathMatch {
    pub required_kills: u8,
    pub kings: Vec<u8>,
    pub fired: bool,
}

impl DeathMatch {
    pub fn new(required_kills: u8, kings: Vec<u8>) -> (r: DeathMatch)
        ensures
            r.required_kills == required_kills,
            r.kings == kings,
            !r.fired,
    {
        DeathMatch { required_kills, kings, fired: false }
    }

    /// A randomly drawn rule set: one to five required kills, and at most as
    /// many distinct king slots, each among the five roster slots. Which
    /// values come out is up to the random source.
    pub fn random() -> (r: DeathMatch)
        ensures
            1 <= r.required_kills <= 5,
            r.kings@.len() <= r.required_kills,
            forall|i: int| 0 <= i < r.kings@.len() ==> #[trigger] r.kings@[i] <= 4,
            forall|a: int, b: int|
                0 <= a < b < r.kings@.len() ==> r.kings@[a] != r.kings@[b],
            !r.fired,
    {
        let required_kills = rand_between(1, 5);
        let kings_count = rand_between(0, required_kills);
        let mut kings: Vec<u8> = Vec::new();
        let mut drawn: u8 = 0;
        while drawn < kings_count
            invariant
                kings@.len() <= drawn,
                drawn <= kings_count,
                forall|i: int| 0 <= i < kings@.len() ==> #[trigger] kings@[i] <= 4,
                forall|a: int, b: int| 0 <= a < b < kings@.len() ==> kings@[a] != kings@[b],
            decreases kings_count - drawn,
        {
            let king = rand_between(0, 4);
            if !contains_u8(&kings, king) {
                kings.push(king);
            }
            drawn = drawn + 1;
        }
        DeathMatch { required_kills, kings, fired: false }
    }

    /// Evaluate the win condition once. The first check that finds a team
    /// beaten triggers the round transition — the rosters are filtered to
    /// the living, renumbered, credited and handed to the draft phase — and
    /// arms the guard; every later check in the same satisfied state leaves
    /// everything untouched, so the transition cannot fire twice.
    pub fn check_done(
        &mut self,
        si: &StateInfo,
        units: &Vec<Bud>,
        game_state_handler: &mut GameStateHandler,
    ) -> (fired: bool)
        requires
            units@.len() <= 255,
            forall|i: int|
                0 <= i < units@.len() ==> #[trigger] units@[i].bud_data.initial.rounds
                    < u64::MAX,
        ensures
            fired == (!old(self).fired && spec_round_over(
                units@,
                old(self).required_kills,
                old(self).kings@,
            )),
            final(self).required_kills == old(self).required_kills,
            final(self).kings == old(self).kings,
            final(self).fired == (old(self).fired || spec_round_over(
                units@,
                old(self).required_kills,
                old(self).kings@,
            )),
            fired ==> (final(game_state_handler).new_state matches Some(s) && (s matches
                GameStateEnum::Select(t) && spec_profiles_eqv(t.0@, spec_survivors(units@, 0))
                && spec_profiles_eqv(t.1@, spec_survivors(units@, 1)))),
            !fired ==> *final(game_state_handler) == *old(game_state_handler),
    {
        if self.fired {
            return false;
        }
        let over = if self.kings.len() == 0 {
            let deaths_zero = count_team_deaths(units, 0);
            let deaths_one = count_team_deaths(units, 1);
            deaths_zero >= self.required_kills as usize || deaths_one
                >= self.required_kills as usize
        } else {
            kings_all_dead(units, 0, &self.kings) || kings_all_dead(units, 1, &self.kings)
        };
        if over {
            self.fired = true;
            si.end_round(units, game_state_handler);
            true
        } else {
            false
        }
    }
}

/// Whether the listed slot already holds this king.
fn contains_u8(v: &Vec<u8>, x: u8) -> (r: bool)
    ensures
        r == exists|i: int| 0 <= i < v@.len() && v@[i] == x,
{
    let mut i: usize = 0;
    while i < v.len()
        invariant
            i <= v@.len(),
            forall|k: int| 0 <= k < i ==> v@[k] != x,
        decreases v@.len() - i,
    {
        if v[i] == x {
            return true;
        }
        i = i + 1;
    }
    false
}

/// Count the dead units of one team.
fn count_team_deaths(units: &Vec<Bud>, team: u8) -> (r: usize)
    ensures
        r == spec_team_deaths(units@, team, units@.len() as nat),
{
    let n = units.len();
    let mut r: usize = 0;
    let mut i: usize = 0;
    while i < n
        invariant
            i <= n,
            n == units@.len(),
            r <= i,
            r == spec_team_deaths(units@, team, i as nat),
        decreases n - i,
    {
        if units[i].bud_data.initial.team == team && !units[i].bud_data.alive() {
            r = r + 1;
        }
        i = i + 1;
    }
    r
}

/// Whether every listed king slot of the team holds a dead unit.
fn kings_all_dead(units: &Vec<Bud>, team: u8, kings: &Vec<u8>) -> (r: bool)
    ensures
        r == forall|j: int|
            0 <= j < kings@.len() ==> spec_king_dead(units@, team, #[trigger] kings@[j]),
{
    let m = kings.len();
    let mut j: usize = 0;
    while j < m
        invariant
            j <= m,
            m == kings@.len(),
            forall|k: int| 0 <= k < j ==> spec_king_dead(units@, team, #[trigger] kings@[k]),
        decreases m - j,
    {
        if !king_dead(units, team, kings[j]) {
            return false;
        }
        j = j + 1;
    }
    true
}

/// Whether the unit on one king slot of the team is dead.
fn king_dead(units: &Vec<Bud>, team: u8, king: u8) -> (r: bool)
    ensures
        r == spec_king_dead(units@, team, king),
{
    let n = units.len();
    let mut i: usize = 0;
    while i < n
        invariant
            i <= n,
            n == units@.len(),
            forall|k: int|
                0 <= k < i ==> !(#[trigger] units@[k].bud_data.initial.team == team
                    && units@[k].bud_data.initial.index == king
                    && !units@[k].bud_data.spec_alive()),
        decreases n - i,
    {
        if units[i].bud_data.initial.team == team && units[i].bud_data.initial.index == king
            && !units[i].bud_data.alive() {
            return true;
        }
        i = i + 1;
    }
    false
}

} // verus!
