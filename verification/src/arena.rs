//! The arena phase: one battle's scene, registry, turn rotation and win
//! condition, and the per-frame orchestration tying them together.
//!
//! The turn engine advances on explicit trigger. Advancing runs the
//! outgoing unit's end-phase — its declared attack resolved against the tile
//! directly ahead — re-enqueues it if it lives, then starts units off the
//! front of the queue until one can act, excising any that report death, and
//! applies the starter's equipped and battle-scoped effects.

use vstd::prelude::*;
use crate::bud::Bud;
use crate::bud_data::{BudData, InitialBudData};
use crate::collisions::{Collider, Collisions};
use crate::effects::{
    lemma_stats_after_initial, lemma_stats_after_prefix, spec_active_only,
    spec_aura_inners, spec_dec_all, spec_somes, spec_spend, spec_stat_payloads,
    spec_spend_upto, spec_stats_after, DamageEffect, Effect, StatEffect,
};
use crate::game_mode::DeathMatch;
use crate::grid::GridPoint;
use crate::input::FrameInput;
use crate::scene::{SceneManager, StateInfo};
use crate::state::GameStateHandler;
use crate::turns::TurnHandler;

verus! {

/// The damage an unarmed strike deals on the tile ahead.
pub const STRIKE_DAMAGE: u16 = 10;

/// The spawn tile of the `i`-th unit of a team: the teams line up on two
/// facing rows, two tiles apart along the row.
pub open spec fn spec_spawn(team: u8, i: int) -> GridPoint {
    GridPoint { x: (2 * i) as i32, y: if team == 0 { 0i32 } else { 4i32 } }
}

/// Scene slot `i` holds a fresh, living, registered unit spawned from the
/// given profile as the `k`-th member of its team.
pub open spec fn spawned_at(
    units: Seq<Bud>,
    cs: Seq<Collider>,
    i: int,
    profile: InitialBudData,
    team: u8,
    k: int,
) -> bool {
    &&& 0 <= i < units.len()
    &&& i < cs.len()
    &&& units[i].bud_data.initial == profile
    &&& units[i].position == spec_spawn(team, k)
    &&& !units[i].dead
    &&& units[i].bud_data.health == 10
    &&& units[i].wf()
    &&& cs[i] == (Collider { position: spec_spawn(team, k), alive: true })
}

/// Every other living registered unit has received exactly the listed
/// payloads, in order, on top of its original state: its stats hold the
/// payloads' changes applied in sequence, its active list grew by the spent
/// payloads, and nothing else about it moved. Dead or unregistered units
/// are untouched, as is the carrier's slot. Opaque: the arena's passes grow
/// the payload list one delivery at a time through the lemmas below.
#[verifier::opaque]
pub open spec fn spec_pay_delivered(
    orig: Seq<Bud>,
    cur: Seq<Bud>,
    cs: Seq<Collider>,
    me: int,
    pay: Seq<Effect>,
) -> bool {
    &&& cur.len() == orig.len()
    &&& forall|i: int|
        0 <= i < orig.len() && i != me ==> if cs[i].alive {
            (#[trigger] cur[i]).bud_data == spec_stats_after(
                orig[i].bud_data,
                pay,
                pay.len() as int,
            ) && cur[i].effects@ == orig[i].effects@ + spec_dec_all(pay) && cur[i] == (Bud {
                bud_data: cur[i].bud_data,
                effects: cur[i].effects,
                ..orig[i]
            })
        } else {
            cur[i] == orig[i]
        }
}

/// Before anything was broadcast, nothing has been delivered.
proof fn lemma_pay_delivered_refl(orig: Seq<Bud>, cs: Seq<Collider>, me: int)
    ensures
        spec_pay_delivered(orig, orig, cs, me, Seq::<Effect>::empty()),
{
    reveal(spec_pay_delivered);
    assert forall|i: int| 0 <= i < orig.len() && i != me && cs[i].alive implies
        (#[trigger] orig[i]).bud_data == spec_stats_after(
            orig[i].bud_data,
            Seq::<Effect>::empty(),
            0,
        ) && orig[i].effects@ == orig[i].effects@ + spec_dec_all(Seq::<Effect>::empty())
        && orig[i] == (Bud {
            bud_data: orig[i].bud_data,
            effects: orig[i].effects,
            ..orig[i]
        }) by {
        assert(orig[i].effects@ + spec_dec_all(Seq::<Effect>::empty()) =~= orig[i].effects@);
    }
}

/// A step that changes only the carrier's slot delivers nothing new.
proof fn lemma_pay_delivered_untouched(
    orig: Seq<Bud>,
    pre: Seq<Bud>,
    cur: Seq<Bud>,
    cs: Seq<Collider>,
    me: int,
    pay: Seq<Effect>,
)
    requires
        spec_pay_delivered(orig, pre, cs, me, pay),
        cur.len() == pre.len(),
        forall|i: int| 0 <= i < pre.len() && i != me ==> #[trigger] cur[i] == pre[i],
    ensures
        spec_pay_delivered(orig, cur, cs, me, pay),
{
    reveal(spec_pay_delivered);
}

/// One more broadcast payload, landed on every other living registered
/// unit, extends the delivered list by that payload.
proof fn lemma_pay_delivered_broadcast(
    orig: Seq<Bud>,
    pre: Seq<Bud>,
    cur: Seq<Bud>,
    cs: Seq<Collider>,
    me: int,
    pay: Seq<Effect>,
    inner: StatEffect,
)
    requires
        spec_pay_delivered(orig, pre, cs, me, pay),
        cur.len() == pre.len(),
        cs.len() >= orig.len(),
        forall|i: int|
            0 <= i < pre.len() && i != me ==> if cs[i].alive {
                Bud::spec_received(pre[i], #[trigger] cur[i], Effect::Stat(inner))
            } else {
                cur[i] == pre[i]
            },
    ensures
        spec_pay_delivered(orig, cur, cs, me, pay.push(Effect::Stat(inner))),
{
    reveal(spec_pay_delivered);
    let grown = pay.push(Effect::Stat(inner));
    assert forall|i: int| 0 <= i < orig.len() && i != me && cs[i].alive implies
        (#[trigger] cur[i]).bud_data == spec_stats_after(
            orig[i].bud_data,
            grown,
            grown.len() as int,
        ) && cur[i].effects@ == orig[i].effects@ + spec_dec_all(grown) && cur[i] == (Bud {
            bud_data: cur[i].bud_data,
            effects: cur[i].effects,
            ..orig[i]
        }) by {
        lemma_stats_after_prefix(orig[i].bud_data, grown, pay, pay.len() as int);
        assert(spec_dec_all(grown) =~= spec_dec_all(pay).push(Effect::Stat(inner).spec_dec()));
        assert(cur[i].effects@ =~= orig[i].effects@ + spec_dec_all(grown));
    }
}

/// The arena phase state.
pub struct ArenaState {
    pub scene_manager: SceneManager,
    pub si: StateInfo,
    pub collisions: Collisions,
    pub turn_handler: TurnHandler,
    pub game_mode: DeathMatch,
}

impl ArenaState {
    /// The structural invariant the orchestration maintains: the scene list
    /// and the registry stay index-synchronized, every turn-queue handle
    /// points at a scene entity, the roster fits the slot-index range, and
    /// every unit is well formed.
    pub open spec fn wf(&self) -> bool {
        &&& self.scene_manager.object_list@.len() == self.collisions.colliders@.len()
        &&& self.scene_manager.object_list@.len() <= 255
        &&& forall|i: int|
            0 <= i < self.turn_handler.object_list@.len()
                ==> #[trigger] self.turn_handler.object_list@[i]
                < self.scene_manager.object_list@.len()
        &&& match self.turn_handler.current {
            Some(u) => u < self.scene_manager.object_list@.len(),
            None => true,
        }
        &&& forall|i: int|
            0 <= i < self.scene_manager.object_list@.len()
                ==> (#[trigger] self.scene_manager.object_list@[i]).wf()
    }

    pub fn new(game_mode: DeathMatch) -> (r: ArenaState)
        ensures
            r.scene_manager.object_list@.len() == 0,
            r.collisions.colliders@.len() == 0,
            r.turn_handler.object_list@.len() == 0,
            r.turn_handler.current is None,
            r.game_mode == game_mode,
            r.si.add_list@.len() == 0,
            r.wf(),
    {
        ArenaState {
            scene_manager: SceneManager::new(),
            si: StateInfo::new(),
            collisions: Collisions::new(Vec::new()),
            turn_handler: TurnHandler::new(),
            game_mode,
        }
    }

    /// Instantiate one team's roster into the arena, in roster order: each
    /// profile becomes a fresh unit on its spawn tile, registered as a
    /// living collider and enqueued for its turns.
    fn spawn_team(&mut self, mut roster: Vec<InitialBudData>, team: u8)
        requires
            old(self).wf(),
            old(self).turn_handler.current is None,
            old(self).scene_manager.object_list@.len() + roster@.len() <= 255,
            forall|i: int| 0 <= i < roster@.len() ==> (#[trigger] roster@[i]).wf(),
        ensures
            final(self).wf(),
            final(self).turn_handler.current is None,
            final(self).scene_manager.object_list@.len() == old(self).scene_manager.object_list@.len() + roster@.len(),
            final(self).game_mode == old(self).game_mode,
            final(self).si == old(self).si,
            // the old entities and queue are untouched underneath
            forall|i: int|
                0 <= i < old(self).scene_manager.object_list@.len()
                    ==> #[trigger] final(self).scene_manager.object_list@[i] == old(self).scene_manager.object_list@[i],
            forall|i: int|
                0 <= i < old(self).collisions.colliders@.len()
                    ==> #[trigger] final(self).collisions.colliders@[i] == old(self).collisions.colliders@[i],
            // each profile became a fresh, living, registered, queued unit
            forall|k: int|
                0 <= k < roster@.len() ==> spawned_at(
                    final(self).scene_manager.object_list@,
                    final(self).collisions.colliders@,
                    old(self).scene_manager.object_list@.len() + k,
                    #[trigger] roster@[k],
                    team,
                    k,
                ),
            final(self).turn_handler.object_list@ == old(self).turn_handler.object_list@
                + Seq::new(
                roster@.len(),
                |k: int| (old(self).scene_manager.object_list@.len() + k) as usize,
            ),
    {
        let ghost roster0 = roster@;
        let ghost base = self.scene_manager.object_list@.len();
        let ghost orig = *self;
        let total = roster.len();
        let mut k: usize = 0;
        proof {
            assert(orig.turn_handler.object_list@ + Seq::new(0, |j: int| (base + j) as usize)
                =~= orig.turn_handler.object_list@);
        }
        while k < total
            invariant
                k <= total,
                total == roster0.len(),
                roster@ == roster0.skip(k as int),
                base == orig.scene_manager.object_list@.len(),
                base + total <= 255,
                forall|i: int| 0 <= i < roster0.len() ==> (#[trigger] roster0[i]).wf(),
                self.scene_manager.object_list@.len() == base + k,
                self.collisions.colliders@.len() == base + k,
                self.si == orig.si,
                self.game_mode == orig.game_mode,
                self.turn_handler.current is None,
                forall|i: int|
                    0 <= i < base ==> #[trigger] self.scene_manager.object_list@[i]
                        == orig.scene_manager.object_list@[i],
                forall|i: int|
                    0 <= i < base ==> #[trigger] self.collisions.colliders@[i]
                        == orig.collisions.colliders@[i],
                forall|j: int|
                    0 <= j < k ==> spawned_at(
                        self.scene_manager.object_list@,
                        self.collisions.colliders@,
                        base + j,
                        #[trigger] roster0[j],
                        team,
                        j,
                    ),
                self.turn_handler.object_list@ == orig.turn_handler.object_list@ + Seq::new(
                    k as nat,
                    |j: int| (base + j) as usize,
                ),
                forall|i: int|
                    0 <= i < orig.turn_handler.object_list@.len()
                        ==> #[trigger] orig.turn_handler.object_list@[i] < base,
            decreases total - k,
        {
            let profile = roster.remove(0);
            proof {
                assert(roster0.skip(k as int)[0] == roster0[k as int]);
                assert(roster0.skip(k as int).remove(0) =~= roster0.skip(k + 1));
            }
            let x = 2 * (k as i32);
            let y: i32 = if team == 0 { 0 } else { 4 };
            let position = GridPoint::new(x, y);
            proof {
                assert(position == spec_spawn(team, k as int));
            }
            let unit = Bud::new(position, profile);
            let handle = self.scene_manager.object_list.len();
            self.scene_manager.add(unit);
            self.collisions.add(Collider { position, alive: true });
            self.turn_handler.add(handle);
            proof {
                assert(self.turn_handler.object_list@ =~= orig.turn_handler.object_list@
                    + Seq::new((k + 1) as nat, |j: int| (base + j) as usize));
            }
            k = k + 1;
        }
        proof {
            assert(roster0.skip(total as int) =~= Seq::<InitialBudData>::empty());
            let qlen = orig.turn_handler.object_list@.len();
            assert forall|i: int|
                0 <= i < self.turn_handler.object_list@.len()
                    implies #[trigger] self.turn_handler.object_list@[i]
                    < self.scene_manager.object_list@.len() by {
                if i < qlen {
                    assert(self.turn_handler.object_list@[i]
                        == orig.turn_handler.object_list@[i]);
                } else {
                    assert(self.turn_handler.object_list@[i] == (base + (i - qlen)) as usize);
                }
            }
            assert forall|i: int|
                0 <= i < self.scene_manager.object_list@.len()
                    implies (#[trigger] self.scene_manager.object_list@[i]).wf() by {
                if i < base {
                    assert(self.scene_manager.object_list@[i]
                        == orig.scene_manager.object_list@[i]);
                } else {
                    assert(spawned_at(
                        self.scene_manager.object_list@,
                        self.collisions.colliders@,
                        i,
                        roster0[i - base],
                        team,
                        i - base,
                    ));
                }
            }
        }
    }

    /// Set a battle up from the two drafted rosters: all of team zero in
    /// roster order, then all of team one, spawned, registered and queued in
    /// that order.
    pub fn start(&mut self, initial_buds_tuple: (Vec<InitialBudData>, Vec<InitialBudData>))
        requires
            old(self).scene_manager.object_list@.len() == 0,
            old(self).collisions.colliders@.len() == 0,
            old(self).turn_handler.object_list@.len() == 0,
            old(self).turn_handler.current is None,
            old(self).si.add_list@.len() == 0,
            initial_buds_tuple.0@.len() + initial_buds_tuple.1@.len() <= 255,
            forall|i: int|
                0 <= i < initial_buds_tuple.0@.len() ==> (#[trigger] initial_buds_tuple.0@[i]).wf(),
            forall|i: int|
                0 <= i < initial_buds_tuple.1@.len() ==> (#[trigger] initial_buds_tuple.1@[i]).wf(),
        ensures
            final(self).wf(),
            final(self).scene_manager.object_list@.len() == initial_buds_tuple.0@.len()
                + initial_buds_tuple.1@.len(),
            final(self).turn_handler.object_list@.len() == final(self).scene_manager.object_list@.len(),
            final(self).turn_handler.current is None,
            final(self).game_mode == old(self).game_mode,
            // team zero first, team one after, each in roster order
            forall|k: int|
                0 <= k < initial_buds_tuple.0@.len()
                    ==> (#[trigger] final(self).scene_manager.object_list@[k]).bud_data.initial
                    == initial_buds_tuple.0@[k]
                    && final(self).scene_manager.object_list@[k].position == spec_spawn(0, k),
            forall|k: int|
                0 <= k < initial_buds_tuple.1@.len()
                    ==> final(self).scene_manager.object_list@[initial_buds_tuple.0@.len()
                    + k].bud_data.initial == #[trigger] initial_buds_tuple.1@[k]
                    && final(self).scene_manager.object_list@[initial_buds_tuple.0@.len()
                    + k].position == spec_spawn(1, k),
            // the registry starts index-synchronized: one living collider
            // per unit, on its spawn tile
            final(self).collisions.colliders@.len() == final(self).scene_manager.object_list@.len(),
            forall|k: int|
                0 <= k < initial_buds_tuple.0@.len()
                    ==> #[trigger] final(self).collisions.colliders@[k] == (Collider {
                    position: spec_spawn(0, k),
                    alive: true,
                }),
            forall|k: int|
                0 <= k < initial_buds_tuple.1@.len()
                    ==> #[trigger] final(self).collisions.colliders@[initial_buds_tuple.0@.len()
                    + k] == (Collider { position: spec_spawn(1, k), alive: true }),
            final(self).turn_handler.object_list@ == Seq::new(
                final(self).scene_manager.object_list@.len(),
                |k: int| k as usize,
            ),
    {
        let (team_zero, team_one) = initial_buds_tuple;
        let ghost t0 = team_zero@;
        let ghost t1 = team_one@;
        let ghost n0 = team_zero@.len();
        let ghost n1 = team_one@.len();
        self.spawn_team(team_zero, 0);
        let ghost mid = *self;
        self.spawn_team(team_one, 1);
        proof {
            assert(self.turn_handler.object_list@ =~= Seq::new(
                (n0 + n1) as nat,
                |k: int| k as usize,
            ));
            assert forall|k: int| 0 <= k < n0 implies #[trigger] self.collisions.colliders@[k]
                == (Collider { position: spec_spawn(0, k), alive: true }) by {
                assert(spawned_at(
                    mid.scene_manager.object_list@,
                    mid.collisions.colliders@,
                    k,
                    t0[k],
                    0,
                    k,
                ));
                assert(self.collisions.colliders@[k] == mid.collisions.colliders@[k]);
            }
            assert forall|k: int| 0 <= k < n1 implies #[trigger] self.collisions.colliders@[n0
                + k] == (Collider { position: spec_spawn(1, k), alive: true }) by {
                assert(spawned_at(
                    self.scene_manager.object_list@,
                    self.collisions.colliders@,
                    n0 + k,
                    t1[k],
                    1,
                    k,
                ));
            }
        }
    }

    /// Whether one of the first `j` listed hits names unit `i`.
    pub open spec fn spec_hit_before(hits: Seq<usize>, j: int, i: int) -> bool {
        exists|a: int| 0 <= a < j && hits[a] == i
    }

    /// Resolve an impact on one tile: every living registered entity
    /// standing there takes the effect; everyone else is untouched. The
    /// registry itself does not change.
    pub fn resolve_attack(&mut self, tile: GridPoint, effect: StatEffect)
        requires
            old(self).wf(),
            effect.spec_is_active(),
        ensures
            final(self).wf(),
            final(self).collisions == old(self).collisions,
            final(self).turn_handler == old(self).turn_handler,
            final(self).game_mode == old(self).game_mode,
            final(self).si == old(self).si,
            final(self).scene_manager.object_list@.len() == old(
                self,
            ).scene_manager.object_list@.len(),
            forall|i: int|
                0 <= i < old(self).scene_manager.object_list@.len() ==> if old(
                    self,
                ).collisions.colliders@[i].alive && old(self).collisions.colliders@[i].position
                    == tile {
                    Bud::spec_received(
                        old(self).scene_manager.object_list@[i],
                        #[trigger] final(self).scene_manager.object_list@[i],
                        Effect::Stat(effect),
                    )
                } else {
                    final(self).scene_manager.object_list@[i] == old(
                        self,
                    ).scene_manager.object_list@[i]
                },
    {
        let ghost orig = *self;
        let hits = self.collisions.impact_tile(tile);
        let m = hits.len();
        let mut j: usize = 0;
        while j < m
            invariant
                j <= m,
                m == hits@.len(),
                effect.spec_is_active(),
                self.wf(),
                self.collisions == orig.collisions,
                self.turn_handler == orig.turn_handler,
                self.game_mode == orig.game_mode,
                self.si == orig.si,
                self.scene_manager.object_list@.len() == orig.scene_manager.object_list@.len(),
                forall|a: int|
                    0 <= a < m ==> 0 <= #[trigger] hits@[a] < orig.scene_manager.object_list@.len()
                        && orig.collisions.colliders@[hits@[a] as int].alive
                        && orig.collisions.colliders@[hits@[a] as int].position == tile,
                forall|a: int, b: int| 0 <= a < b < m ==> hits@[a] != hits@[b],
                forall|i: int|
                    0 <= i < orig.scene_manager.object_list@.len()
                        ==> if ArenaState::spec_hit_before(hits@, j as int, i) {
                        Bud::spec_received(
                            orig.scene_manager.object_list@[i],
                            #[trigger] self.scene_manager.object_list@[i],
                            Effect::Stat(effect),
                        )
                    } else {
                        self.scene_manager.object_list@[i] == orig.scene_manager.object_list@[i]
                    },
            decreases m - j,
        {
            let h = hits[j];
            proof {
                assert(!ArenaState::spec_hit_before(hits@, j as int, hits@[j as int] as int));
                assert(self.scene_manager.object_list@[h as int].wf());
                assert(Effect::Stat(effect).spec_remaining() == effect.spec_remaining());
                assert(effect.spec_remaining() >= 0);
                assert(Effect::Stat(effect).spec_wf());
            }
            self.scene_manager.object_list[h].on_effected(Effect::Stat(effect));
            proof {
                assert forall|i: int|
                    0 <= i < orig.scene_manager.object_list@.len() && ArenaState::spec_hit_before(
                        hits@,
                        j + 1,
                        i,
                    ) && i != h implies ArenaState::spec_hit_before(hits@, j as int, i) by {
                    let a = choose|a: int| 0 <= a < j + 1 && hits@[a] == i;
                    assert(0 <= a < j && hits@[a] == i);
                }
                assert(ArenaState::spec_hit_before(hits@, j + 1, h as int));
            }
            j = j + 1;
        }
        proof {
            assert forall|i: int|
                0 <= i < orig.scene_manager.object_list@.len()
                    && orig.collisions.colliders@[i].alive
                    && orig.collisions.colliders@[i].position == tile implies
                ArenaState::spec_hit_before(hits@, m as int, i) by {
                let a = choose|a: int| 0 <= a < hits@.len() && hits@[a] == i;
                assert(0 <= a < m && hits@[a] == i);
            }
        }
    }

    /// Rebroadcast a self-targeted effect to every living registered unit
    /// other than the carrier, as an aura does: each receiver takes the
    /// effect as if struck by it.
    pub fn broadcast_stat(&mut self, skip: usize, inner: StatEffect)
        requires
            old(self).wf(),
            inner.spec_is_active(),
        ensures
            final(self).wf(),
            final(self).collisions == old(self).collisions,
            final(self).turn_handler == old(self).turn_handler,
            final(self).game_mode == old(self).game_mode,
            final(self).si == old(self).si,
            final(self).scene_manager.object_list@.len() == old(
                self,
            ).scene_manager.object_list@.len(),
            forall|i: int|
                0 <= i < old(self).scene_manager.object_list@.len() ==> if i != skip && old(
                    self,
                ).collisions.colliders@[i].alive {
                    Bud::spec_received(
                        old(self).scene_manager.object_list@[i],
                        #[trigger] final(self).scene_manager.object_list@[i],
                        Effect::Stat(inner),
                    )
                } else {
                    final(self).scene_manager.object_list@[i] == old(
                        self,
                    ).scene_manager.object_list@[i]
                },
    {
        let ghost orig = *self;
        let n = self.scene_manager.object_list.len();
        let mut i: usize = 0;
        while i < n
            invariant
                i <= n,
                n == orig.scene_manager.object_list@.len(),
                inner.spec_is_active(),
                self.wf(),
                self.collisions == orig.collisions,
                self.turn_handler == orig.turn_handler,
                self.game_mode == orig.game_mode,
                self.si == orig.si,
                self.scene_manager.object_list@.len() == n,
                forall|k: int|
                    0 <= k < n ==> if k < i && k != skip && orig.collisions.colliders@[k].alive {
                        Bud::spec_received(
                            orig.scene_manager.object_list@[k],
                            #[trigger] self.scene_manager.object_list@[k],
                            Effect::Stat(inner),
                        )
                    } else {
                        self.scene_manager.object_list@[k] == orig.scene_manager.object_list@[k]
                    },
            decreases n - i,
        {
            if i != skip && self.collisions.colliders[i].alive {
                proof {
                    assert(self.scene_manager.object_list@[i as int].wf());
                    assert(inner.spec_remaining() >= 0);
                    assert(Effect::Stat(inner).spec_wf());
                }
                self.scene_manager.object_list[i].on_effected(Effect::Stat(inner));
            }
            i = i + 1;
        }
    }

    /// Land one effect on one unit, as `on_effected` grants: the effect
    /// applies to the receiver and joins its active list, and an aura is
    /// forwarded at once to every other living registered unit.
    pub fn deliver_effect(&mut self, target: usize, eff: Effect)
        requires
            old(self).wf(),
            target < old(self).scene_manager.object_list@.len(),
            eff.spec_is_active(),
            eff.spec_wf(),
        ensures
            final(self).wf(),
            final(self).collisions == old(self).collisions,
            final(self).turn_handler == old(self).turn_handler,
            final(self).game_mode == old(self).game_mode,
            final(self).si == old(self).si,
            final(self).scene_manager.object_list@.len() == old(self).scene_manager.object_list@.len(),
            Bud::spec_received(
                old(self).scene_manager.object_list@[target as int],
                final(self).scene_manager.object_list@[target as int],
                eff,
            ),
            forall|i: int|
                0 <= i < old(self).scene_manager.object_list@.len() && i != target
                    ==> match eff {
                    Effect::Aura(a) => if old(self).collisions.colliders@[i].alive {
                        Bud::spec_received(
                            old(self).scene_manager.object_list@[i],
                            #[trigger] final(self).scene_manager.object_list@[i],
                            Effect::Stat(a.effect),
                        )
                    } else {
                        final(self).scene_manager.object_list@[i] == old(
                            self,
                        ).scene_manager.object_list@[i]
                    },
                    Effect::Stat(_) => final(self).scene_manager.object_list@[i] == old(
                        self,
                    ).scene_manager.object_list@[i],
                },
    {
        self.scene_manager.object_list[target].add_effect(eff);
        if let Effect::Aura(a) = eff {
            self.broadcast_stat(target, a.effect);
        }
    }

    /// Apply one equipped profile effect to its carrier, fresh: a
    /// self-targeted effect changes the carrier's stats; an aura broadcasts
    /// its wrapped effect to every other living registered unit. The profile
    /// copy itself is untouched — equipped effects re-apply every turn.
    fn apply_profile_effect(&mut self, me: usize, eff: Effect)
        requires
            old(self).wf(),
            me < old(self).scene_manager.object_list@.len(),
            eff.spec_is_active(),
            eff.spec_wf(),
        ensures
            final(self).wf(),
            final(self).collisions == old(self).collisions,
            final(self).turn_handler == old(self).turn_handler,
            final(self).game_mode == old(self).game_mode,
            final(self).si == old(self).si,
            final(self).scene_manager.object_list@.len() == old(self).scene_manager.object_list@.len(),
            match eff {
                Effect::Stat(se) => final(self).scene_manager.object_list@ == old(
                    self,
                ).scene_manager.object_list@.update(
                    me as int,
                    (Bud {
                        bud_data: se.spec_apply_stat(
                            old(self).scene_manager.object_list@[me as int].bud_data,
                        ),
                        ..old(self).scene_manager.object_list@[me as int]
                    }),
                ),
                Effect::Aura(a) => final(self).scene_manager.object_list@[me as int] == old(
                    self,
                ).scene_manager.object_list@[me as int] && forall|i: int|
                    0 <= i < old(self).scene_manager.object_list@.len() && i != me ==> if old(
                        self,
                    ).collisions.colliders@[i].alive {
                        Bud::spec_received(
                            old(self).scene_manager.object_list@[i],
                            #[trigger] final(self).scene_manager.object_list@[i],
                            Effect::Stat(a.effect),
                        )
                    } else {
                        final(self).scene_manager.object_list@[i] == old(
                            self,
                        ).scene_manager.object_list@[i]
                    },
            },
    {
        match eff {
            Effect::Stat(se) => {
                let mut transient = se;
                proof {
                    assert(self.scene_manager.object_list@[me as int].wf());
                }
                transient.apply(&mut self.scene_manager.object_list[me].bud_data);
            },
            Effect::Aura(a) => {
                self.broadcast_stat(me, a.effect);
            },
        }
    }

    /// One unit's effect application passes at turn start, in full: every
    /// equipped profile effect applies fresh to the carrier (auras landing
    /// on the others instead), then every still-active battle effect applies
    /// exactly once — spending its counter, auras broadcasting — while
    /// inactive effects are skipped; finally the expired effects are purged.
    /// Each other living registered unit receives exactly the pass's aura
    /// payloads, in order.
    pub open spec fn spec_effect_pass(
        pre: Seq<Bud>,
        cs: Seq<Collider>,
        post: Seq<Bud>,
        me: int,
    ) -> bool {
        let b = pre[me];
        let equipped = spec_somes(b.bud_data.initial.effects@);
        let battle = spec_active_only(b.effects@);
        let payloads = spec_stat_payloads(
            spec_aura_inners(equipped) + spec_aura_inners(battle),
        );
        &&& post.len() == pre.len()
        &&& post[me].bud_data == spec_stats_after(
            spec_stats_after(b.bud_data, equipped, equipped.len() as int),
            battle,
            battle.len() as int,
        )
        &&& post[me].effects@ == spec_active_only(spec_spend(b.effects@))
        &&& post[me] == (Bud { bud_data: post[me].bud_data, effects: post[me].effects, ..b })
        &&& spec_pay_delivered(pre, post, cs, me, payloads)
    }

    /// One unit's effect application passes at turn start, exactly as
    /// `spec_effect_pass` says: equipped effects fresh, then each active
    /// battle effect once (inactive ones skipped), counters spent, expired
    /// effects purged, and every aura payload delivered to each other living
    /// registered unit.
    #[verifier::rlimit(100)]
    #[verifier::spinoff_prover]
    fn apply_unit_effects(&mut self, me: usize)
        requires
            old(self).wf(),
            me < old(self).scene_manager.object_list@.len(),
        ensures
            final(self).wf(),
            final(self).collisions == old(self).collisions,
            final(self).turn_handler == old(self).turn_handler,
            final(self).game_mode == old(self).game_mode,
            final(self).si == old(self).si,
            final(self).scene_manager.object_list@.len() == old(self).scene_manager.object_list@.len(),
            ArenaState::spec_effect_pass(
                old(self).scene_manager.object_list@,
                old(self).collisions.colliders@,
                final(self).scene_manager.object_list@,
                me as int,
            ),
            forall|i: int|
                0 <= i < old(self).scene_manager.object_list@.len()
                    ==> (#[trigger] final(self).scene_manager.object_list@[i]).bud_data.initial
                    == old(self).scene_manager.object_list@[i].bud_data.initial
                    && final(self).scene_manager.object_list@[i].dead == old(
                    self,
                ).scene_manager.object_list@[i].dead
                    && final(self).scene_manager.object_list@[i].active == old(
                    self,
                ).scene_manager.object_list@[i].active,
            // the purge invariant: no expired effect survives the pass
            forall|j: int|
                0 <= j < final(self).scene_manager.object_list@[me as int].effects@.len()
                    ==> (#[trigger] final(self).scene_manager.object_list@[
                    me as int
                ].effects@[j]).spec_is_active(),
    {
        let ghost orig = self.scene_manager.object_list@;
        let ghost cs0 = self.collisions.colliders@;
        let ghost b0 = orig[me as int];
        let ghost slots0 = b0.bud_data.initial.effects@;
        proof {
            assert(slots0.take(0) =~= Seq::<Option<Effect>>::empty());
            assert(b0.effects@.take(0) =~= Seq::<Effect>::empty());
            assert(spec_somes(slots0.take(0)) =~= Seq::<Effect>::empty());
            assert(spec_aura_inners(Seq::<Effect>::empty()) =~= Seq::<StatEffect>::empty());
            assert(spec_stat_payloads(spec_aura_inners(spec_somes(slots0.take(0))))
                =~= Seq::<Effect>::empty());
            lemma_pay_delivered_refl(orig, cs0, me as int);
        }
        // equipped profile effects, re-applied fresh each turn
        let mut slot: usize = 0;
        while slot < crate::bud_data::EFFECT_SLOTS
            invariant
                slot <= crate::bud_data::EFFECT_SLOTS,
                me < orig.len(),
                b0 == orig[me as int],
                slots0 == b0.bud_data.initial.effects@,
                slots0.len() == crate::bud_data::EFFECT_SLOTS,
                self.wf(),
                self.collisions.colliders@ == cs0,
                self.collisions == old(self).collisions,
                self.turn_handler == old(self).turn_handler,
                self.game_mode == old(self).game_mode,
                self.si == old(self).si,
                self.scene_manager.object_list@.len() == orig.len(),
                self.scene_manager.object_list@[me as int].bud_data == spec_stats_after(
                    b0.bud_data,
                    spec_somes(slots0.take(slot as int)),
                    spec_somes(slots0.take(slot as int)).len() as int,
                ),
                self.scene_manager.object_list@[me as int] == (Bud {
                    bud_data: self.scene_manager.object_list@[me as int].bud_data,
                    ..b0
                }),
                spec_pay_delivered(
                    orig,
                    self.scene_manager.object_list@,
                    cs0,
                    me as int,
                    spec_stat_payloads(spec_aura_inners(spec_somes(slots0.take(slot as int)))),
                ),
            decreases crate::bud_data::EFFECT_SLOTS - slot,
        {
            let ghost eq_part = spec_somes(slots0.take(slot as int));
            let ghost pay_part = spec_stat_payloads(spec_aura_inners(eq_part));
            proof {
                assert(self.scene_manager.object_list@[me as int].wf());
                lemma_stats_after_initial(b0.bud_data, eq_part, eq_part.len() as int);
                assert(self.scene_manager.object_list@[me as int].bud_data.initial
                    == b0.bud_data.initial);
                assert(slots0.take(slot + 1).drop_last() =~= slots0.take(slot as int));
                assert(slots0.take(slot + 1).last() == slots0[slot as int]);
            }
            let eff_opt = self.scene_manager.object_list[me].bud_data.initial.effects[slot];
            proof {
                assert(eff_opt == slots0[slot as int]);
            }
            if let Some(eff) = eff_opt {
                let ghost eq_next = spec_somes(slots0.take(slot + 1));
                proof {
                    assert(b0.bud_data.initial.wf());
                    assert(eff.spec_is_active() && eff.spec_wf());
                    assert(eq_next =~= eq_part.push(eff));
                    assert(eq_next.drop_last() =~= eq_part);
                    assert(eq_next.last() == eff);
                    lemma_stats_after_prefix(
                        b0.bud_data,
                        eq_part.push(eff),
                        eq_part,
                        eq_part.len() as int,
                    );
                }
                let ghost pre_units = self.scene_manager.object_list@;
                self.apply_profile_effect(me, eff);
                proof {
                    match eff {
                        Effect::Stat(se) => {
                            assert(spec_aura_inners(eq_next) =~= spec_aura_inners(eq_part));
                            assert(self.scene_manager.object_list@[me as int].bud_data
                                == spec_stats_after(b0.bud_data, eq_next, eq_next.len() as int));
                            lemma_pay_delivered_untouched(
                                orig,
                                pre_units,
                                self.scene_manager.object_list@,
                                cs0,
                                me as int,
                                pay_part,
                            );
                        },
                        Effect::Aura(a) => {
                            assert(spec_aura_inners(eq_next) =~= spec_aura_inners(eq_part).push(
                                a.effect,
                            ));
                            assert(spec_stat_payloads(spec_aura_inners(eq_next)) =~= pay_part.push(
                                Effect::Stat(a.effect),
                            ));
                            assert(self.scene_manager.object_list@[me as int].bud_data
                                == spec_stats_after(b0.bud_data, eq_next, eq_next.len() as int));
                            lemma_pay_delivered_broadcast(
                                orig,
                                pre_units,
                                self.scene_manager.object_list@,
                                cs0,
                                me as int,
                                pay_part,
                                a.effect,
                            );
                        },
                    }
                }
            } else {
                proof {
                    assert(spec_somes(slots0.take(slot + 1)) =~= eq_part);
                }
            }
            slot = slot + 1;
        }
        proof {
            assert(slots0.take(crate::bud_data::EFFECT_SLOTS as int) =~= slots0);
        }
        // battle-scoped effects: each active one applies exactly once,
        // spending its counter; inactive ones are skipped
        let ghost equipped = spec_somes(slots0);
        let ghost pay1 = spec_stat_payloads(spec_aura_inners(equipped));
        let ghost stats1 = spec_stats_after(b0.bud_data, equipped, equipped.len() as int);
        proof {
            assert(self.scene_manager.object_list@[me as int].effects@ =~= spec_spend_upto(
                b0.effects@,
                0,
            ));
            assert(spec_active_only(b0.effects@.take(0)) =~= Seq::<Effect>::empty());
            assert(spec_aura_inners(Seq::<Effect>::empty()) =~= Seq::<StatEffect>::empty());
            assert(spec_stat_payloads(Seq::<StatEffect>::empty()) =~= Seq::<Effect>::empty());
            assert(pay1 + spec_stat_payloads(spec_aura_inners(spec_active_only(
                b0.effects@.take(0),
            ))) =~= pay1);
        }
        let total = self.scene_manager.object_list[me].effects.len();
        proof {
            assert(total == b0.effects@.len());
        }
        let mut j: usize = 0;
        while j < total
            invariant
                j <= total,
                me < orig.len(),
                b0 == orig[me as int],
                total == b0.effects@.len(),
                equipped == spec_somes(b0.bud_data.initial.effects@),
                pay1 == spec_stat_payloads(spec_aura_inners(equipped)),
                stats1 == spec_stats_after(b0.bud_data, equipped, equipped.len() as int),
                self.wf(),
                self.collisions.colliders@ == cs0,
                self.collisions == old(self).collisions,
                self.turn_handler == old(self).turn_handler,
                self.game_mode == old(self).game_mode,
                self.si == old(self).si,
                self.scene_manager.object_list@.len() == orig.len(),
                self.scene_manager.object_list@[me as int].bud_data == spec_stats_after(
                    stats1,
                    spec_active_only(b0.effects@.take(j as int)),
                    spec_active_only(b0.effects@.take(j as int)).len() as int,
                ),
                self.scene_manager.object_list@[me as int].effects@ == spec_spend_upto(
                    b0.effects@,
                    j as int,
                ),
                self.scene_manager.object_list@[me as int] == (Bud {
                    bud_data: self.scene_manager.object_list@[me as int].bud_data,
                    effects: self.scene_manager.object_list@[me as int].effects,
                    ..b0
                }),
                spec_pay_delivered(
                    orig,
                    self.scene_manager.object_list@,
                    cs0,
                    me as int,
                    pay1 + spec_stat_payloads(spec_aura_inners(spec_active_only(
                        b0.effects@.take(j as int),
                    ))),
                ),
            decreases total - j,
        {
            let ghost iter0 = self.scene_manager.object_list@;
            let ghost act_part = spec_active_only(b0.effects@.take(j as int));
            let ghost pay_part = pay1 + spec_stat_payloads(spec_aura_inners(act_part));
            proof {
                assert(self.scene_manager.object_list@[me as int].wf());
                assert(b0.effects@.take(j + 1).drop_last() =~= b0.effects@.take(j as int));
                assert(b0.effects@.take(j + 1).last() == b0.effects@[j as int]);
            }
            let e = self.scene_manager.object_list[me].effects[j];
            proof {
                assert(e == spec_spend_upto(b0.effects@, j as int)[j as int]);
                assert(e == b0.effects@[j as int]);
            }
            if e.is_active() {
                let ghost act_next = spec_active_only(b0.effects@.take(j + 1));
                proof {
                    assert(act_next =~= act_part.push(e));
                    assert(act_next.drop_last() =~= act_part);
                    assert(act_next.last() == e);
                    assert((self.scene_manager.object_list@[me as int].effects@[
                        j as int
                    ]).spec_wf());
                    lemma_stats_after_prefix(
                        stats1,
                        act_part.push(e),
                        act_part,
                        act_part.len() as int,
                    );
                }
                let mut spent = e;
                spent.apply_self(&mut self.scene_manager.object_list[me].bud_data);
                self.scene_manager.object_list[me].effects[j] = spent;
                proof {
                    assert(spent.spec_wf());
                    assert(self.scene_manager.object_list@[me as int].effects@ =~= spec_spend_upto(
                        b0.effects@,
                        j + 1,
                    ));
                    assert(self.scene_manager.object_list@[me as int].bud_data
                        == spec_stats_after(stats1, act_next, act_next.len() as int));
                    assert(self.scene_manager.object_list@[me as int].wf());
                }
                if let Effect::Aura(a) = e {
                    let ghost mid_units = self.scene_manager.object_list@;
                    proof {
                        lemma_pay_delivered_untouched(
                            orig,
                            iter0,
                            mid_units,
                            cs0,
                            me as int,
                            pay_part,
                        );
                    }
                    self.broadcast_stat(me, a.effect);
                    proof {
                        assert(spec_aura_inners(act_next) =~= spec_aura_inners(act_part).push(
                            a.effect,
                        ));
                        assert(pay1 + spec_stat_payloads(spec_aura_inners(act_next))
                            =~= pay_part.push(Effect::Stat(a.effect)));
                        lemma_pay_delivered_broadcast(
                            orig,
                            mid_units,
                            self.scene_manager.object_list@,
                            cs0,
                            me as int,
                            pay_part,
                            a.effect,
                        );
                    }
                } else {
                    proof {
                        assert(spec_aura_inners(act_next) =~= spec_aura_inners(act_part));
                        assert(pay1 + spec_stat_payloads(spec_aura_inners(act_next))
                            =~= pay_part);
                        lemma_pay_delivered_untouched(
                            orig,
                            iter0,
                            self.scene_manager.object_list@,
                            cs0,
                            me as int,
                            pay_part,
                        );
                    }
                }
            } else {
                proof {
                    assert(spec_active_only(b0.effects@.take(j + 1)) =~= act_part);
                    assert(self.scene_manager.object_list@[me as int].effects@ =~= spec_spend_upto(
                        b0.effects@,
                        j + 1,
                    ));
                }
            }
            j = j + 1;
        }
        proof {
            assert(b0.effects@.take(total as int) =~= b0.effects@);
            assert(spec_spend_upto(b0.effects@, total as int) =~= spec_spend(b0.effects@));
        }
        // purge: expired effects leave the list before the next pass
        let ghost spent_list = self.scene_manager.object_list@[me as int].effects@;
        let ghost before_purge = self.scene_manager.object_list@;
        let mut kept: Vec<Effect> = Vec::new();
        let mut k: usize = 0;
        proof {
            assert(spent_list.take(0) =~= Seq::<Effect>::empty());
        }
        while k < total
            invariant
                k <= total,
                me < self.scene_manager.object_list@.len(),
                total == spent_list.len(),
                spent_list == self.scene_manager.object_list@[me as int].effects@,
                self.scene_manager.object_list@ == before_purge,
                self.wf(),
                kept@ == spec_active_only(spent_list.take(k as int)),
                forall|a: int| 0 <= a < kept@.len() ==> (#[trigger] kept@[a]).spec_is_active(),
                forall|a: int| 0 <= a < kept@.len() ==> (#[trigger] kept@[a]).spec_wf(),
            decreases total - k,
        {
            proof {
                assert(self.scene_manager.object_list@[me as int].wf());
                assert(spent_list.take(k + 1).drop_last() =~= spent_list.take(k as int));
                assert(spent_list.take(k + 1).last() == spent_list[k as int]);
            }
            let e = self.scene_manager.object_list[me].effects[k];
            if e.is_active() {
                proof {
                    assert((self.scene_manager.object_list@[me as int].effects@[
                        k as int
                    ]).spec_wf());
                    assert(spec_active_only(spent_list.take(k + 1)) =~= spec_active_only(
                        spent_list.take(k as int),
                    ).push(e));
                }
                kept.push(e);
            } else {
                proof {
                    assert(spec_active_only(spent_list.take(k + 1)) =~= spec_active_only(
                        spent_list.take(k as int),
                    ));
                }
            }
            k = k + 1;
        }
        proof {
            assert(spent_list.take(total as int) =~= spent_list);
        }
        self.scene_manager.object_list[me].effects = kept;
        proof {
            assert(self.scene_manager.object_list@[me as int].wf());
            let battle_full = spec_active_only(b0.effects@);
            let pay_full = spec_stat_payloads(
                spec_aura_inners(equipped) + spec_aura_inners(battle_full),
            );
            assert(pay_full =~= pay1 + spec_stat_payloads(spec_aura_inners(battle_full)));
            lemma_pay_delivered_untouched(
                orig,
                before_purge,
                self.scene_manager.object_list@,
                cs0,
                me as int,
                pay_full,
            );
            assert(ArenaState::spec_effect_pass(
                orig,
                cs0,
                self.scene_manager.object_list@,
                me as int,
            ));
            // identity fields survive the pass: the folds only move stats
            lemma_stats_after_initial(b0.bud_data, equipped, equipped.len() as int);
            lemma_stats_after_initial(stats1, battle_full, battle_full.len() as int);
            assert forall|i: int|
                0 <= i < orig.len() implies
                (#[trigger] self.scene_manager.object_list@[i]).bud_data.initial
                    == orig[i].bud_data.initial && self.scene_manager.object_list@[i].dead
                    == orig[i].dead && self.scene_manager.object_list@[i].active
                    == orig[i].active by {
                reveal(spec_pay_delivered);
                if i != me && cs0[i].alive {
                    lemma_stats_after_initial(orig[i].bud_data, pay_full, pay_full.len() as int);
                }
            }
        }
    }

    /// The outgoing unit after its end-phase: a dead one is untouched, one
    /// found at zero health takes the one-time death transition, a living
    /// one goes inactive with its per-turn stats reset.
    pub open spec fn spec_end_unit(b: Bud) -> Bud {
        if b.dead {
            b
        } else if b.bud_data.health == 0 {
            Bud { dead: true, ..b }
        } else {
            Bud { active: false, bud_data: BudData::spec_reset(b.bud_data), ..b }
        }
    }

    /// Whether the outgoing unit lived through its end-phase and rejoins the
    /// rotation.
    pub open spec fn spec_end_went(b: Bud) -> bool {
        !b.dead && b.bud_data.health > 0
    }

    /// The tile the outgoing unit's declared strike lands on: directly ahead
    /// of its facing, when it lives and the tile is representable.
    pub open spec fn spec_end_tile(b: Bud) -> Option<GridPoint> {
        if ArenaState::spec_end_went(b) {
            b.spec_target(b.direction.spec_point())
        } else {
            None
        }
    }

    /// A registry with every entry on the given tile unregistered.
    pub open spec fn spec_unregistered_at(cs: Seq<Collider>, p: GridPoint) -> Seq<Collider> {
        Seq::new(
            cs.len(),
            |j: int|
                if cs[j].position == p {
                    Collider { alive: false, ..cs[j] }
                } else {
                    cs[j]
                },
        )
    }

    /// The registry after the outgoing unit's end-phase: its tile is
    /// unregistered exactly when the one-time death transition fired.
    pub open spec fn spec_end_registry(cs: Seq<Collider>, b: Bud) -> Seq<Collider> {
        if !b.dead && b.bud_data.health == 0 {
            ArenaState::spec_unregistered_at(cs, b.position)
        } else {
            cs
        }
    }

    /// The rotation after the outgoing unit's end-phase: a living unit
    /// rejoins at the back; a dead one is excised.
    pub open spec fn spec_end_queue(q: Seq<usize>, b: Bud, cur: usize) -> Seq<usize> {
        if ArenaState::spec_end_went(b) {
            q.push(cur)
        } else {
            q
        }
    }

    /// The strike a turn's end resolves on the tile ahead.
    pub open spec fn spec_strike() -> StatEffect {
        StatEffect::Damage(DamageEffect { applications: 1, damage: STRIKE_DAMAGE })
    }

    /// An impact resolved on a tile: every living registered unit standing
    /// there took the effect; everyone else is untouched. No tile, no
    /// change.
    pub open spec fn spec_attack_applied(
        pre: Seq<Bud>,
        cs: Seq<Collider>,
        post: Seq<Bud>,
        tile: Option<GridPoint>,
        effect: StatEffect,
    ) -> bool {
        match tile {
            None => post == pre,
            Some(t) => {
                &&& post.len() == pre.len()
                &&& forall|i: int|
                    0 <= i < pre.len() ==> if cs[i].alive && cs[i].position == t {
                        Bud::spec_received(pre[i], #[trigger] post[i], Effect::Stat(effect))
                    } else {
                        post[i] == pre[i]
                    }
            },
        }
    }

    /// The start scan's failures so far: each consumed handle named a unit
    /// already dead or at zero health; each such unit at zero health took
    /// the one-time death transition and left the registry; nothing else
    /// moved.
    pub open spec fn spec_scan_failures(
        pre: Seq<Bud>,
        cs_pre: Seq<Collider>,
        post: Seq<Bud>,
        cs_post: Seq<Collider>,
        consumed: Seq<usize>,
    ) -> bool {
        &&& post.len() == pre.len()
        &&& cs_post.len() == cs_pre.len()
        &&& forall|a: int|
            0 <= a < consumed.len() ==> #[trigger] consumed[a] < pre.len()
                && (pre[consumed[a] as int].dead
                || pre[consumed[a] as int].bud_data.health == 0)
        &&& forall|i: int|
            0 <= i < pre.len() ==> #[trigger] post[i] == if consumed.contains(i as usize)
                && !pre[i].dead && pre[i].bud_data.health == 0 {
                (Bud { dead: true, ..pre[i] })
            } else {
                pre[i]
            }
        &&& forall|j: int|
            0 <= j < cs_pre.len() ==> #[trigger] cs_post[j] == if (exists|a: int|
                0 <= a < consumed.len() && !pre[#[trigger] consumed[a] as int].dead
                    && pre[consumed[a] as int].bud_data.health == 0
                    && pre[consumed[a] as int].position == cs_pre[j].position) {
                (Collider { alive: false, ..cs_pre[j] })
            } else {
                cs_pre[j]
            }
    }

    /// What the start scan makes of a rotation: either every queued handle
    /// failed and the rotation is drained, or the first handle whose unit
    /// can still act takes the turn — activated, its effect passes applied —
    /// after the handles before it failed and were excised.
    pub open spec fn spec_advance_tail(
        pre: Seq<Bud>,
        cs_pre: Seq<Collider>,
        queue: Seq<usize>,
        post: Seq<Bud>,
        cs_post: Seq<Collider>,
        queue_post: Seq<usize>,
        cur_post: Option<usize>,
        r: Option<usize>,
    ) -> bool {
        match r {
            None => {
                &&& ArenaState::spec_scan_failures(pre, cs_pre, post, cs_post, queue)
                &&& queue_post == Seq::<usize>::empty()
                &&& cur_post is None
            },
            Some(u) => exists|k: int, mid: Seq<Bud>, cs_mid: Seq<Collider>|
                {
                    &&& 0 <= k < queue.len()
                    &&& queue[k] == u
                    &&& #[trigger] ArenaState::spec_scan_failures(
                        pre,
                        cs_pre,
                        mid,
                        cs_mid,
                        queue.take(k),
                    )
                    &&& u < mid.len()
                    &&& !mid[u as int].dead
                    &&& mid[u as int].bud_data.health > 0
                    &&& ArenaState::spec_effect_pass(
                        mid.update(u as int, (Bud { active: true, ..mid[u as int] })),
                        cs_mid,
                        post,
                        u as int,
                    )
                    &&& cs_post == cs_mid
                    &&& queue_post == queue.skip(k + 1)
                    &&& cur_post == Some(u)
                },
        }
    }

    /// Assembling one advance from its proved stages: the end-phase values,
    /// the resolved strike, and the scan outcome together witness the
    /// staged statement.
    proof fn lemma_advanced_intro(
        pre_units: Seq<Bud>,
        pre_cs: Seq<Collider>,
        pre_queue: Seq<usize>,
        cur_opt: Option<usize>,
        u1: Seq<Bud>,
        c1: Seq<Collider>,
        q1: Seq<usize>,
        u2: Seq<Bud>,
        post_units: Seq<Bud>,
        post_cs: Seq<Collider>,
        post_queue: Seq<usize>,
        post_cur: Option<usize>,
        r: Option<usize>,
    )
        requires
            match cur_opt {
                None => u1 == pre_units && c1 == pre_cs && q1 == pre_queue && u2 == pre_units,
                Some(cur) => {
                    &&& cur < pre_units.len()
                    &&& u1 == pre_units.update(
                        cur as int,
                        ArenaState::spec_end_unit(pre_units[cur as int]),
                    )
                    &&& c1 == if !pre_units[cur as int].dead
                        && pre_units[cur as int].bud_data.health == 0 {
                        ArenaState::spec_unregistered_at(pre_cs, pre_units[cur as int].position)
                    } else {
                        pre_cs
                    }
                    &&& q1 == if ArenaState::spec_end_went(pre_units[cur as int]) {
                        pre_queue.push(cur)
                    } else {
                        pre_queue
                    }
                    &&& ArenaState::spec_attack_applied(
                        u1,
                        c1,
                        u2,
                        ArenaState::spec_end_tile(pre_units[cur as int]),
                        ArenaState::spec_strike(),
                    )
                },
            },
            ArenaState::spec_advance_tail(u2, c1, q1, post_units, post_cs, post_queue, post_cur, r),
        ensures
            ArenaState::spec_advanced(
                pre_units,
                pre_cs,
                pre_queue,
                cur_opt,
                post_units,
                post_cs,
                post_queue,
                post_cur,
                r,
            ),
    {
        match cur_opt {
            None => {},
            Some(cur) => {
                let u1x = pre_units.update(
                    cur as int,
                    ArenaState::spec_end_unit(pre_units[cur as int]),
                );
                let c1x = ArenaState::spec_end_registry(pre_cs, pre_units[cur as int]);
                let q1x = ArenaState::spec_end_queue(pre_queue, pre_units[cur as int], cur);
                assert(u1x == u1 && c1x == c1 && q1x == q1);
                assert(ArenaState::spec_attack_applied(
                    u1x,
                    c1x,
                    u2,
                    ArenaState::spec_end_tile(pre_units[cur as int]),
                    ArenaState::spec_strike(),
                ));
                assert(ArenaState::spec_advance_tail(
                    u2,
                    c1x,
                    q1x,
                    post_units,
                    post_cs,
                    post_queue,
                    post_cur,
                    r,
                ));
            },
        }
    }
    /// One whole turn advance, stage by stage: the outgoing current unit's
    /// end-phase, its strike resolved on the tile ahead, then the start
    /// scan over the rotation.
    pub open spec fn spec_advanced(
        pre_units: Seq<Bud>,
        pre_cs: Seq<Collider>,
        pre_queue: Seq<usize>,
        pre_cur: Option<usize>,
        post_units: Seq<Bud>,
        post_cs: Seq<Collider>,
        post_queue: Seq<usize>,
        post_cur: Option<usize>,
        r: Option<usize>,
    ) -> bool {
        match pre_cur {
            None => ArenaState::spec_advance_tail(
                pre_units,
                pre_cs,
                pre_queue,
                post_units,
                post_cs,
                post_queue,
                post_cur,
                r,
            ),
            Some(cur) => exists|u2: Seq<Bud>|
                {
                    &&& #[trigger] ArenaState::spec_attack_applied(
                        pre_units.update(
                            cur as int,
                            ArenaState::spec_end_unit(pre_units[cur as int]),
                        ),
                        ArenaState::spec_end_registry(pre_cs, pre_units[cur as int]),
                        u2,
                        ArenaState::spec_end_tile(pre_units[cur as int]),
                        ArenaState::spec_strike(),
                    )
                    &&& ArenaState::spec_advance_tail(
                        u2,
                        ArenaState::spec_end_registry(pre_cs, pre_units[cur as int]),
                        ArenaState::spec_end_queue(pre_queue, pre_units[cur as int], cur),
                        post_units,
                        post_cs,
                        post_queue,
                        post_cur,
                        r,
                    )
                },
        }
    }

    /// Advance the turn rotation by one step. The outgoing current unit runs
    /// its end-phase — its declared strike resolved against the tile ahead —
    /// and, if it lives, rejoins the back of the rotation; a unit that died
    /// is excised and never cycles back in. Units then start off the front
    /// of the queue until one can act: each starter found dead is excised in
    /// turn. The unit that takes the turn has its effects applied and is
    /// returned; with nobody left able to act, the rotation is drained and
    /// nothing holds the turn.
    #[verifier::rlimit(100)]
    #[verifier::spinoff_prover]
    pub fn advance(&mut self) -> (r: Option<usize>)
        requires
            old(self).wf(),
        ensures
            final(self).wf(),
            final(self).scene_manager.object_list@.len() == old(self).scene_manager.object_list@.len(),
            final(self).game_mode == old(self).game_mode,
            final(self).si == old(self).si,
            match r {
                Some(u) => u < final(self).scene_manager.object_list@.len()
                    && final(self).scene_manager.object_list@[u as int].active
                    && !final(self).scene_manager.object_list@[u as int].dead
                    && final(self).turn_handler.current == Some(u),
                None => final(self).turn_handler.object_list@.len() == 0
                    && final(self).turn_handler.current is None,
            },
            // the whole step, stage by stage: the outgoing unit's end-phase,
            // its strike resolved on the tile ahead, then the start scan
            ArenaState::spec_advanced(
                old(self).scene_manager.object_list@,
                old(self).collisions.colliders@,
                old(self).turn_handler.object_list@,
                old(self).turn_handler.current,
                final(self).scene_manager.object_list@,
                final(self).collisions.colliders@,
                final(self).turn_handler.object_list@,
                final(self).turn_handler.current,
                r,
            ),
    {
        let ghost pre_units = self.scene_manager.object_list@;
        let ghost pre_cs = self.collisions.colliders@;
        let ghost pre_queue = self.turn_handler.object_list@;
        let ghost mut u1_g: Seq<Bud> = pre_units;
        // end-phase of the outgoing unit, strike resolved on the tile ahead
        let cur_opt = self.turn_handler.current;
        if let Some(cur) = cur_opt {
            let ghost ecur = pre_units[cur as int];
            let (went, tile) = self.scene_manager.object_list[cur].end(&mut self.collisions);
            proof {
                assert(self.scene_manager.object_list@[cur as int].wf());
                assert(self.scene_manager.object_list@ =~= pre_units.update(
                    cur as int,
                    ArenaState::spec_end_unit(ecur),
                ));
                if !ecur.dead && ecur.bud_data.health == 0 {
                    assert(self.collisions.colliders@ =~= ArenaState::spec_unregistered_at(
                        pre_cs,
                        ecur.position,
                    ));
                } else {
                    assert(self.collisions.colliders@ =~= pre_cs);
                }
                assert(tile == ArenaState::spec_end_tile(ecur));
            }
            let ghost u1 = self.scene_manager.object_list@;
            proof {
                u1_g = u1;
            }
            if let Some(t) = tile {
                self.resolve_attack(t, StatEffect::Damage(DamageEffect::new(STRIKE_DAMAGE)));
                proof {
                    assert(ArenaState::spec_attack_applied(
                        u1,
                        self.collisions.colliders@,
                        self.scene_manager.object_list@,
                        tile,
                        ArenaState::spec_strike(),
                    ));
                }
            } else {
                proof {
                    assert(ArenaState::spec_attack_applied(
                        u1,
                        self.collisions.colliders@,
                        self.scene_manager.object_list@,
                        tile,
                        ArenaState::spec_strike(),
                    ));
                }
            }
            if went {
                self.turn_handler.add(cur);
            }
            self.turn_handler.drop_current();
        }
        // start scan: the front of the queue takes the turn; units found
        // dead here are excised and skipped
        let ghost u2 = self.scene_manager.object_list@;
        let ghost c2 = self.collisions.colliders@;
        let ghost q1 = self.turn_handler.object_list@;
        let qtotal = self.turn_handler.object_list.len();
        proof {
            assert(qtotal == q1.len());
            assert(q1.take(0) =~= Seq::<usize>::empty());
            assert(ArenaState::spec_scan_failures(u2, c2, u2, c2, Seq::<usize>::empty()));
        }
        let mut consumed_count: usize = 0;
        while self.turn_handler.object_list.len() > 0
            invariant
                self.wf(),
                self.turn_handler.current is None,
                self.scene_manager.object_list@.len() == u2.len(),
                self.collisions.colliders@.len() == c2.len(),
                self.game_mode == old(self).game_mode,
                self.si == old(self).si,
                u2.len() == old(self).scene_manager.object_list@.len(),
                consumed_count <= q1.len(),
                q1.len() == qtotal,
                self.turn_handler.object_list@ == q1.skip(consumed_count as int),
                ArenaState::spec_scan_failures(
                    u2,
                    c2,
                    self.scene_manager.object_list@,
                    self.collisions.colliders@,
                    q1.take(consumed_count as int),
                ),
                pre_units == old(self).scene_manager.object_list@,
                pre_cs == old(self).collisions.colliders@,
                pre_queue == old(self).turn_handler.object_list@,
                cur_opt == old(self).turn_handler.current,
                match cur_opt {
                    None => u1_g == pre_units && u2 == pre_units && c2 == pre_cs
                        && q1 == pre_queue,
                    Some(cur) => {
                        &&& cur < pre_units.len()
                        &&& u1_g == pre_units.update(
                            cur as int,
                            ArenaState::spec_end_unit(pre_units[cur as int]),
                        )
                        &&& c2 == if !pre_units[cur as int].dead
                            && pre_units[cur as int].bud_data.health == 0 {
                            ArenaState::spec_unregistered_at(
                                pre_cs,
                                pre_units[cur as int].position,
                            )
                        } else {
                            pre_cs
                        }
                        &&& q1 == if ArenaState::spec_end_went(pre_units[cur as int]) {
                            pre_queue.push(cur)
                        } else {
                            pre_queue
                        }
                        &&& ArenaState::spec_attack_applied(
                            u1_g,
                            c2,
                            u2,
                            ArenaState::spec_end_tile(pre_units[cur as int]),
                            ArenaState::spec_strike(),
                        )
                    },
                },
            decreases self.turn_handler.object_list@.len(),
        {
            proof {
                assert(q1.skip(consumed_count as int).len() > 0);
                assert(consumed_count < q1.len());
            }
            let ghost iter_units = self.scene_manager.object_list@;
            let ghost iter_cs = self.collisions.colliders@;
            let (_, starting) = self.turn_handler.next_turn();
            proof {
                assert(q1.skip(consumed_count as int)[0] == q1[consumed_count as int]);
                assert(starting == q1[consumed_count as int]);
                assert(self.turn_handler.object_list@ =~= q1.skip(consumed_count + 1));
            }
            let went = self.scene_manager.object_list[starting].start(&mut self.collisions);
            proof {
                assert(self.scene_manager.object_list@[starting as int].wf());
            }
            if went {
                proof {
                    assert(iter_units[starting as int] == u2[starting as int]);
                    assert(!iter_units[starting as int].dead
                        && iter_units[starting as int].bud_data.health > 0);
                    assert(self.scene_manager.object_list@ =~= iter_units.update(
                        starting as int,
                        (Bud { active: true, ..iter_units[starting as int] }),
                    ));
                    assert(self.collisions.colliders@ == iter_cs);
                }
                self.apply_unit_effects(starting);
                proof {
                    assert(ArenaState::spec_advance_tail(
                        u2,
                        c2,
                        q1,
                        self.scene_manager.object_list@,
                        self.collisions.colliders@,
                        self.turn_handler.object_list@,
                        self.turn_handler.current,
                        Some(starting),
                    )) by {
                        let k = consumed_count as int;
                        let mid = iter_units;
                        let cs_mid = iter_cs;
                        assert(0 <= k < q1.len() && q1[k] == starting);
                        assert(ArenaState::spec_scan_failures(u2, c2, mid, cs_mid, q1.take(k)));
                        assert(ArenaState::spec_effect_pass(
                            mid.update(
                                starting as int,
                                (Bud { active: true, ..mid[starting as int] }),
                            ),
                            cs_mid,
                            self.scene_manager.object_list@,
                            starting as int,
                        ));
                    }
                }
                proof {
                    ArenaState::lemma_advanced_intro(
                        pre_units,
                        pre_cs,
                        pre_queue,
                        cur_opt,
                        u1_g,
                        c2,
                        q1,
                        u2,
                        self.scene_manager.object_list@,
                        self.collisions.colliders@,
                        self.turn_handler.object_list@,
                        self.turn_handler.current,
                        Some(starting),
                    );
                }
                return Some(starting);
            }
            self.turn_handler.drop_current();
            proof {
                let k = consumed_count as int;
                let grown = q1.take(k + 1);
                assert(grown.drop_last() =~= q1.take(k));
                assert(grown.last() == starting);
                // the failed handle named a dead or zero-health unit, and
                // the scan record extends by it
                assert(iter_units[starting as int] == if q1.take(k).contains(starting)
                    && !u2[starting as int].dead && u2[starting as int].bud_data.health == 0 {
                    (Bud { dead: true, ..u2[starting as int] })
                } else {
                    u2[starting as int]
                });
                assert(u2[starting as int].dead || u2[starting as int].bud_data.health == 0);
                assert forall|i: int|
                    0 <= i < u2.len() implies #[trigger] self.scene_manager.object_list@[i]
                        == if grown.contains(i as usize) && !u2[i].dead
                        && u2[i].bud_data.health == 0 {
                        (Bud { dead: true, ..u2[i] })
                    } else {
                        u2[i]
                    } by {
                    if grown.contains(i as usize) {
                        let a = choose|a: int| 0 <= a < grown.len() && grown[a] == i as usize;
                        if a < k {
                            assert(q1.take(k).contains(i as usize));
                        }
                    }
                    if q1.take(k).contains(i as usize) {
                        assert(grown.contains(i as usize));
                    }
                }
                assert forall|j: int|
                    0 <= j < c2.len() implies #[trigger] self.collisions.colliders@[j]
                        == if (exists|a: int|
                        0 <= a < grown.len() && !u2[#[trigger] grown[a] as int].dead
                            && u2[grown[a] as int].bud_data.health == 0
                            && u2[grown[a] as int].position == c2[j].position) {
                        (Collider { alive: false, ..c2[j] })
                    } else {
                        c2[j]
                    } by {
                    if exists|a: int|
                        0 <= a < q1.take(k).len() && !u2[#[trigger] q1.take(k)[a] as int].dead
                            && u2[q1.take(k)[a] as int].bud_data.health == 0
                            && u2[q1.take(k)[a] as int].position == c2[j].position {
                        let a = choose|a: int|
                            0 <= a < q1.take(k).len() && !u2[#[trigger] q1.take(
                                k,
                            )[a] as int].dead && u2[q1.take(k)[a] as int].bud_data.health == 0
                                && u2[q1.take(k)[a] as int].position == c2[j].position;
                        assert(grown[a] == q1.take(k)[a]);
                    }
                    if !u2[starting as int].dead && u2[starting as int].bud_data.health == 0
                        && u2[starting as int].position == c2[j].position {
                        assert(grown[k] == starting);
                    }
                }
                assert(ArenaState::spec_scan_failures(
                    u2,
                    c2,
                    self.scene_manager.object_list@,
                    self.collisions.colliders@,
                    grown,
                ));
            }
            consumed_count = consumed_count + 1;
        }
        proof {
            assert(q1.skip(consumed_count as int).len() == 0);
            assert(consumed_count == q1.len());
            assert(q1.take(q1.len() as int) =~= q1);
            assert(self.turn_handler.object_list@ =~= Seq::<usize>::empty());
            assert(ArenaState::spec_advance_tail(
                u2,
                c2,
                q1,
                self.scene_manager.object_list@,
                self.collisions.colliders@,
                self.turn_handler.object_list@,
                self.turn_handler.current,
                None,
            ));
            ArenaState::lemma_advanced_intro(
                pre_units,
                pre_cs,
                pre_queue,
                cur_opt,
                u1_g,
                c2,
                q1,
                u2,
                self.scene_manager.object_list@,
                self.collisions.colliders@,
                self.turn_handler.object_list@,
                self.turn_handler.current,
                None,
            );
        }
        None
    }

    /// One frame of the arena: the update pass routes movement input to the
    /// active unit, the win condition is checked once (triggering at most
    /// one round transition, ever), and entities staged mid-frame join the
    /// scene and registry afterwards.
    pub fn run(
        &mut self,
        input: FrameInput,
        game_state_handler: &mut GameStateHandler,
    ) -> (fired: bool)
        requires
            old(self).wf(),
            old(self).scene_manager.object_list@.len() + old(self).si.add_list@.len() <= 255,
            forall|i: int|
                0 <= i < old(self).scene_manager.object_list@.len()
                    ==> (#[trigger] old(self).scene_manager.object_list@[
                    i
                ]).bud_data.initial.rounds < u64::MAX,
            forall|i: int|
                0 <= i < old(self).si.add_list@.len() ==> (#[trigger] old(self).si.add_list@[
                    i
                ]).wf(),
        ensures
            final(self).wf(),
            final(self).si.add_list@.len() == 0,
            // the frame: one movement pass over the scene, then the staged
            // entities join at the back — in both lists, index-synchronized
            final(self).scene_manager.object_list@ == crate::scene::spec_update_fold(
                old(self).scene_manager.object_list@,
                old(self).collisions.colliders@,
                input,
                old(self).scene_manager.object_list@.len() as nat,
            ).0 + old(self).si.add_list@,
            final(self).collisions.colliders@ == crate::scene::spec_update_fold(
                old(self).scene_manager.object_list@,
                old(self).collisions.colliders@,
                input,
                old(self).scene_manager.object_list@.len() as nat,
            ).1 + old(self).si.add_list@.map_values(
                |b: Bud| crate::scene::spec_collider_of(b),
            ),
            // the win check runs once on the updated scene and triggers at
            // most one round transition, ever
            fired == (!old(self).game_mode.fired && crate::game_mode::spec_round_over(
                crate::scene::spec_update_fold(
                    old(self).scene_manager.object_list@,
                    old(self).collisions.colliders@,
                    input,
                    old(self).scene_manager.object_list@.len() as nat,
                ).0,
                old(self).game_mode.required_kills,
                old(self).game_mode.kings@,
            )),
            final(self).game_mode.required_kills == old(self).game_mode.required_kills,
            final(self).game_mode.kings == old(self).game_mode.kings,
            fired ==> (final(game_state_handler).new_state matches Some(s) && (s matches
                crate::state::GameStateEnum::Select(t) && crate::scene::spec_profiles_eqv(
                t.0@,
                crate::scene::spec_survivors(
                    crate::scene::spec_update_fold(
                        old(self).scene_manager.object_list@,
                        old(self).collisions.colliders@,
                        input,
                        old(self).scene_manager.object_list@.len() as nat,
                    ).0,
                    0,
                ),
            ) && crate::scene::spec_profiles_eqv(
                t.1@,
                crate::scene::spec_survivors(
                    crate::scene::spec_update_fold(
                        old(self).scene_manager.object_list@,
                        old(self).collisions.colliders@,
                        input,
                        old(self).scene_manager.object_list@.len() as nat,
                    ).0,
                    1,
                ),
            ))),
            !fired ==> *final(game_state_handler) == *old(game_state_handler),
    {
        let ghost orig = *self;
        proof {
            crate::scene::lemma_update_fold_len(
                orig.scene_manager.object_list@,
                orig.collisions.colliders@,
                input,
                orig.scene_manager.object_list@.len() as nat,
            );
            lemma_update_fold_keeps(
                orig.scene_manager.object_list@,
                orig.collisions.colliders@,
                input,
                orig.scene_manager.object_list@.len() as nat,
            );
        }
        self.scene_manager.update(input, &mut self.collisions);
        let fired = self.game_mode.check_done(
            &self.si,
            &self.scene_manager.object_list,
            game_state_handler,
        );
        self.si.add_objects(&mut self.scene_manager, &mut self.collisions);
        proof {
            assert forall|i: int|
                0 <= i < self.scene_manager.object_list@.len() implies
                (#[trigger] self.scene_manager.object_list@[i]).wf() by {
                if i >= orig.scene_manager.object_list@.len() {
                    assert(self.scene_manager.object_list@[i]
                        == orig.si.add_list@[i - orig.scene_manager.object_list@.len()]);
                }
            }
        }
        fired
    }
}

/// The per-frame update pass changes no unit's identity: profiles, death
/// flags, effect lists and queue handles all survive a movement pass.
pub proof fn lemma_update_fold_keeps(
    units: Seq<Bud>,
    cs: Seq<Collider>,
    input: FrameInput,
    k: nat,
)
    requires
        k <= units.len(),
        units.len() == cs.len(),
    ensures
        forall|i: int|
            0 <= i < units.len()
                ==> (#[trigger] crate::scene::spec_update_fold(units, cs, input, k).0[
                i
            ]).bud_data.initial == units[i].bud_data.initial
                && crate::scene::spec_update_fold(units, cs, input, k).0[i].dead == units[i].dead
                && crate::scene::spec_update_fold(units, cs, input, k).0[i].effects@
                == units[i].effects@
                && (units[i].wf() ==> crate::scene::spec_update_fold(units, cs, input, k).0[
                i
            ].wf()),
    decreases k,
{
    if k > 0 {
        lemma_update_fold_keeps(units, cs, input, (k - 1) as nat);
        crate::scene::lemma_update_fold_len(units, cs, input, (k - 1) as nat);
        let prev = crate::scene::spec_update_fold(units, cs, input, (k - 1) as nat);
        if prev.0[k - 1].active {
            let step = Bud::spec_after_decide(prev.0[k - 1], k - 1, input, prev.1);
            let b = prev.0[k - 1];
            let mid = Bud::spec_after_intent(b, input);
            assert(mid.bud_data == b.bud_data);
            assert(mid.effects@ == b.effects@);
            assert(mid.dead == b.dead);
        }
    }
}

} // verus!
