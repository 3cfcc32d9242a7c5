//! Scene orchestration: the authoritative entity list, the deferred-add
//! staging area, and the round transition.
//!
//! Scene entities and their collision-registry entries live at the same
//! indices. A per-frame update walks the entities in order, collects the
//! indices of any that report themselves done, and removes those from both
//! lists in one shift-compensated pass so the correspondence survives.

use vstd::prelude::*;
use crate::bud::Bud;
use crate::bud_data::InitialBudData;
use crate::collisions::{Collider, Collisions};
use crate::grid::GridPoint;
use crate::input::FrameInput;
use crate::removal::{remove_desc, valid_removal};
use crate::state::{GameStateEnum, GameStateHandler};

verus! {

/// The registry entry a unit deserves: its tile, colliding while it lives.
pub open spec fn spec_collider_of(b: Bud) -> Collider {
    Collider { position: b.position, alive: !b.dead && b.bud_data.health > 0 }
}

/// The scene and registry after the first `k` entities took their per-frame
/// update, in order: each active entity reads the frame's input and moves;
/// the rest stand still.
pub open spec fn spec_update_fold(
    units: Seq<Bud>,
    cs: Seq<crate::collisions::Collider>,
    input: FrameInput,
    k: nat,
) -> (Seq<Bud>, Seq<crate::collisions::Collider>)
    decreases k,
{
    if k == 0 {
        (units, cs)
    } else {
        let prev = spec_update_fold(units, cs, input, (k - 1) as nat);
        let i = k - 1;
        if prev.0[i as int].active {
            let step = Bud::spec_after_decide(prev.0[i as int], i as int, input, prev.1);
            (prev.0.update(i as int, step.0), step.1)
        } else {
            prev
        }
    }
}

/// One movement decision keeps the registry at its length.
proof fn lemma_decide_len(b: Bud, me: int, input: FrameInput, cs: Seq<crate::collisions::Collider>)
    requires
        0 <= me < cs.len(),
    ensures
        Bud::spec_after_decide(b, me, input, cs).1.len() == cs.len(),
{
    if b.bud_data.speed != 0 {
        let mid = Bud::spec_after_intent(b, input);
        let moving = match b.spec_chosen(input) {
            Some(d) => d.spec_point(),
            None => GridPoint { x: 0i32, y: 0i32 },
        };
        match mid.spec_target(moving) {
            Option::None => {},
            Option::Some(t) => {
                assert(cs.update(me, crate::collisions::Collider { position: t, ..cs[me] }).len()
                    == cs.len());
            },
        }
    }
}

/// One update pass keeps both lists at their lengths.
pub proof fn lemma_update_fold_len(
    units: Seq<Bud>,
    cs: Seq<crate::collisions::Collider>,
    input: FrameInput,
    k: nat,
)
    requires
        k <= units.len(),
        units.len() == cs.len(),
    ensures
        spec_update_fold(units, cs, input, k).0.len() == units.len(),
        spec_update_fold(units, cs, input, k).1.len() == cs.len(),
    decreases k,
{
    if k > 0 {
        lemma_update_fold_len(units, cs, input, (k - 1) as nat);
        let prev = spec_update_fold(units, cs, input, (k - 1) as nat);
        if prev.0[k - 1].active {
            lemma_decide_len(prev.0[k - 1], k - 1, input, prev.1);
        }
    }
}

/// The authoritative list of scene entities.
pub struct SceneManager {
    pub object_list: Vec<Bud>,
}

impl SceneManager {
    pub fn new() -> (r: SceneManager)
        ensures
            r.object_list@ == Seq::<Bud>::empty(),
    {
        SceneManager { object_list: Vec::new() }
    }

    /// Append an entity; the caller registers its collider alongside.
    pub fn add(&mut self, obj: Bud)
        ensures
            final(self).object_list@ == old(self).object_list@.push(obj),
    {
        self.object_list.push(obj);
    }

    /// Drop the entity at one index.
    pub fn remove(&mut self, index: usize)
        requires
            index < old(self).object_list@.len(),
        ensures
            final(self).object_list@ == old(self).object_list@.remove(index as int),
    {
        self.object_list.remove(index);
    }

    /// Drop the entities at the listed ascending indices in one
    /// shift-compensated pass, and the same indices from the collision
    /// registry, keeping the two lists index-synchronized.
    pub fn remove_all(&mut self, indexes: &[usize], collisions: &mut Collisions)
        requires
            valid_removal(
                indexes@.map_values(|u: usize| u as int),
                old(self).object_list@.len() as int,
            ),
            old(self).object_list@.len() == old(collisions).colliders@.len(),
        ensures
            final(self).object_list@ == remove_desc(
                old(self).object_list@,
                indexes@.map_values(|u: usize| u as int),
            ),
            final(collisions).colliders@ == remove_desc(
                old(collisions).colliders@,
                indexes@.map_values(|u: usize| u as int),
            ),
    {
        crate::removal::remove_all_in(&mut self.object_list, indexes);
        collisions.remove_all(indexes);
    }

    /// One frame's update pass: every entity updates in index order (active
    /// units read the movement input), then any entity that reported itself
    /// done would be removed from both lists — units never do; they stay
    /// listed even dead, so the indices the turn queue holds keep meaning.
    pub fn update(&mut self, input: FrameInput, collisions: &mut Collisions)
        requires
            old(self).object_list@.len() == old(collisions).colliders@.len(),
        ensures
            final(self).object_list@ == spec_update_fold(
                old(self).object_list@,
                old(collisions).colliders@,
                input,
                old(self).object_list@.len() as nat,
            ).0,
            final(collisions).colliders@ == spec_update_fold(
                old(self).object_list@,
                old(collisions).colliders@,
                input,
                old(self).object_list@.len() as nat,
            ).1,
    {
        let ghost units0 = self.object_list@;
        let ghost cs0 = collisions.colliders@;
        let n = self.object_list.len();
        let mut indexes: Vec<usize> = Vec::new();
        let mut i: usize = 0;
        while i < n
            invariant
                i <= n,
                n == units0.len(),
                indexes@.len() == 0,
                self.object_list@.len() == n,
                collisions.colliders@.len() == cs0.len(),
                units0.len() == cs0.len(),
                (self.object_list@, collisions.colliders@) == spec_update_fold(
                    units0,
                    cs0,
                    input,
                    i as nat,
                ),
            decreases n - i,
        {
            proof {
                lemma_update_fold_len(units0, cs0, input, i as nat);
            }
            let keep = self.object_list[i].update(i, input, collisions);
            if !keep {
                indexes.push(i);
            }
            proof {
                assert(spec_update_fold(units0, cs0, input, (i + 1) as nat) == (
                    self.object_list@,
                    collisions.colliders@,
                ));
            }
            i = i + 1;
        }
        self.remove_all(indexes.as_slice(), collisions);
        proof {
            assert(indexes@.map_values(|u: usize| u as int) =~= Seq::<int>::empty());
            assert(remove_desc(self.object_list@, Seq::<int>::empty()) == self.object_list@);
            assert(remove_desc(collisions.colliders@, Seq::<int>::empty())
                == collisions.colliders@);
        }
    }
}

/// Per-state shared scratch: entities spawned mid-frame wait here and join
/// the scene only after the update pass, never while it iterates.
pub struct StateInfo {
    pub add_list: Vec<Bud>,
}

/// The surviving profiles of one team, in roster order: living units keep
/// their profile with one more round survived and a fresh contiguous slot
/// index.
pub open spec fn spec_survivors(units: Seq<Bud>, team: u8) -> Seq<InitialBudData>
    decreases units.len(),
{
    if units.len() == 0 {
        Seq::empty()
    } else {
        let front = spec_survivors(units.drop_last(), team);
        let u = units.last();
        if u.bud_data.spec_alive() && u.bud_data.initial.team == team {
            front.push(
                InitialBudData {
                    rounds: (u.bud_data.initial.rounds + 1) as u64,
                    index: front.len() as u8,
                    ..u.bud_data.initial
                },
            )
        } else {
            front
        }
    }
}

/// Element-wise content equality of two profile lists.
pub open spec fn spec_profiles_eqv(a: Seq<InitialBudData>, b: Seq<InitialBudData>) -> bool {
    &&& a.len() == b.len()
    &&& forall|i: int| 0 <= i < a.len() ==> #[trigger] a[i].eqv(&b[i])
}

impl StateInfo {
    pub fn new() -> (r: StateInfo)
        ensures
            r.add_list@ == Seq::<Bud>::empty(),
    {
        StateInfo { add_list: Vec::new() }
    }

    /// Stage an entity spawned mid-frame.
    pub fn add_object(&mut self, object: Bud)
        ensures
            final(self).add_list@ == old(self).add_list@.push(object),
    {
        self.add_list.push(object);
    }

    /// Merge the staged entities into the scene, in staging order, each with
    /// a fresh registry entry so the two lists stay index-synchronized.
    pub fn add_objects(&mut self, scene_manager: &mut SceneManager, collisions: &mut Collisions)
        ensures
            final(self).add_list@ == Seq::<Bud>::empty(),
            final(scene_manager).object_list@ == old(scene_manager).object_list@
                + old(self).add_list@,
            final(collisions).colliders@ == old(collisions).colliders@ + old(
                self,
            ).add_list@.map_values(|b: Bud| spec_collider_of(b)),
    {
        let ghost staged = self.add_list@;
        let ghost scene0 = scene_manager.object_list@;
        let ghost cs0 = collisions.colliders@;
        let total = self.add_list.len();
        let mut consumed: usize = 0;
        proof {
            assert(scene0 + staged.take(0) =~= scene0);
            assert(cs0 + staged.take(0).map_values(|b: Bud| spec_collider_of(b)) =~= cs0);
        }
        while self.add_list.len() > 0
            invariant
                staged.len() == total,
                consumed <= staged.len(),
                self.add_list@ == staged.skip(consumed as int),
                scene_manager.object_list@ == scene0 + staged.take(consumed as int),
                collisions.colliders@ == cs0 + staged.take(consumed as int).map_values(
                    |b: Bud| spec_collider_of(b),
                ),
            decreases self.add_list@.len(),
        {
            let b = self.add_list.remove(0);
            proof {
                assert(staged.skip(consumed as int)[0] == staged[consumed as int]);
                assert(staged.skip(consumed as int).remove(0) =~= staged.skip(consumed + 1));
            }
            let dead_now = b.dead;
            let hp = b.bud_data.health;
            collisions.add(Collider { position: b.get_position(), alive: !dead_now && hp > 0 });
            scene_manager.add(b);
            proof {
                assert(staged.take(consumed + 1) =~= staged.take(consumed as int).push(
                    staged[consumed as int],
                ));
                assert(staged.take(consumed + 1).map_values(|b: Bud| spec_collider_of(b))
                    =~= staged.take(consumed as int).map_values(|b: Bud| spec_collider_of(b))
                        .push(spec_collider_of(staged[consumed as int])));
            }
            proof {
                assert(staged.skip(consumed as int).len() > 0);
                assert(consumed < staged.len());
            }
            consumed = consumed + 1;
        }
        proof {
            assert(staged.take(consumed as int) =~= staged);
        }
    }

    /// The round transition: filter each team's roster to its living units,
    /// renumber their slot indices contiguously, credit each survivor one
    /// more round, and request the draft phase with the filtered rosters as
    /// its payload.
    pub fn end_round(&self, units: &Vec<Bud>, game_state_handler: &mut GameStateHandler)
        requires
            units@.len() <= 255,
            forall|i: int|
                0 <= i < units@.len() ==> #[trigger] units@[i].bud_data.initial.rounds
                    < u64::MAX,
        ensures
            final(game_state_handler).new_state matches Some(s) && (s matches
                GameStateEnum::Select(t) && spec_profiles_eqv(t.0@, spec_survivors(units@, 0))
                && spec_profiles_eqv(t.1@, spec_survivors(units@, 1))),
    {
        let team_zero = collect_survivors(units, 0);
        let team_one = collect_survivors(units, 1);
        game_state_handler.new_state(GameStateEnum::Select((team_zero, team_one)));
    }
}

/// The number of survivors never exceeds the roster walked.
proof fn lemma_survivors_len(units: Seq<Bud>, team: u8)
    ensures
        spec_survivors(units, team).len() <= units.len(),
    decreases units.len(),
{
    if units.len() > 0 {
        lemma_survivors_len(units.drop_last(), team);
    }
}

/// Walk the roster in order and carry each living unit of the team into the
/// next round: profile kept, rounds-survived credited, slot index
/// renumbered contiguously from zero.
fn collect_survivors(units: &Vec<Bud>, team: u8) -> (r: Vec<InitialBudData>)
    requires
        units@.len() <= 255,
        forall|i: int|
            0 <= i < units@.len() ==> #[trigger] units@[i].bud_data.initial.rounds < u64::MAX,
    ensures
        spec_profiles_eqv(r@, spec_survivors(units@, team)),
{
    let n = units.len();
    let mut r: Vec<InitialBudData> = Vec::new();
    let mut i: usize = 0;
    proof {
        assert(units@.take(0) =~= Seq::<Bud>::empty());
    }
    while i < n
        invariant
            i <= n,
            n == units@.len(),
            n <= 255,
            forall|k: int|
                0 <= k < units@.len() ==> #[trigger] units@[k].bud_data.initial.rounds
                    < u64::MAX,
            spec_profiles_eqv(r@, spec_survivors(units@.take(i as int), team)),
        decreases n - i,
    {
        let ghost prev = spec_survivors(units@.take(i as int), team);
        proof {
            lemma_survivors_len(units@.take(i as int), team);
            assert(units@.take(i + 1).drop_last() =~= units@.take(i as int));
            assert(units@.take(i + 1).last() == units@[i as int]);
        }
        if units[i].bud_data.alive() && units[i].bud_data.initial.team == team {
            let mut profile = units[i].bud_data.initial.duplicate();
            let fresh_index = r.len() as u8;
            profile.new_round(fresh_index);
            r.push(profile);
            proof {
                assert(spec_survivors(units@.take(i + 1), team) == prev.push(
                    InitialBudData {
                        rounds: (units@[i as int].bud_data.initial.rounds + 1) as u64,
                        index: prev.len() as u8,
                        ..units@[i as int].bud_data.initial
                    },
                ));
                assert(r@[r@.len() - 1].eqv(
                    &spec_survivors(units@.take(i + 1), team)[r@.len() - 1],
                ));
            }
        } else {
            proof {
                assert(spec_survivors(units@.take(i + 1), team) == prev);
            }
        }
        i = i + 1;
    }
    proof {
        assert(units@.take(n as int) =~= units@);
    }
    r
}

} // verus!
