//! Per-unit state: the battle-scoped stat block (`BudData`) and the
//! persistent profile that survives across rounds (`InitialBudData`).

use vstd::prelude::*;
use crate::effects::Effect;
use crate::select::NameGenerator;
use crate::weapon::WeaponInfo;

verus! {

/// The number of passive-effect slots a profile carries.
pub const EFFECT_SLOTS: usize = 3;

/// A unit's mutable combat state. Health never exceeds the current maximum
/// and never wraps below zero.
pub struct BudData {
    pub initial: InitialBudData,
    pub selected: bool,
    pub max_health: u16,
    pub health: u16,
    pub speed: u16,
    pub damage: u16,
}

impl BudData {
    /// The stat-block invariant: health stays within its maximum, and the
    /// profile stays well formed.
    pub open spec fn wf(&self) -> bool {
        &&& self.health <= self.max_health
        &&& self.initial.wf()
    }

    /// Value equality, with the profile compared by content.
    pub open spec fn eqv(&self, other: &BudData) -> bool {
        &&& self.initial.eqv(&other.initial)
        &&& self.selected == other.selected
        &&& self.max_health == other.max_health
        &&& self.health == other.health
        &&& self.speed == other.speed
        &&& self.damage == other.damage
    }

    /// Everything except the four numeric stats and the selection flag is
    /// unchanged between the two states.
    pub open spec fn same_profile(a: &BudData, b: &BudData) -> bool {
        a.initial == b.initial
    }

    /// Damage saturates at zero: the new health is `max(health - dmg, 0)`.
    pub fn remove_health(&mut self, dmg: u16)
        ensures
            final(self).health as int == if old(self).health >= dmg {
                old(self).health - dmg
            } else {
                0
            },
            final(self).max_health == old(self).max_health,
            final(self).speed == old(self).speed,
            final(self).damage == old(self).damage,
            final(self).selected == old(self).selected,
            final(self).initial == old(self).initial,
    {
        if self.health >= dmg {
            self.health = self.health - dmg;
        } else {
            self.health = 0;
        }
    }

    /// Healing saturates at the current maximum: the new health is
    /// `min(health + healing, max_health)`.
    pub fn add_health(&mut self, health: u16)
        requires
            old(self).health <= old(self).max_health,
        ensures
            final(self).health as int == if old(self).health + health > old(self).max_health {
                old(self).max_health as int
            } else {
                old(self).health + health
            },
            final(self).max_health == old(self).max_health,
            final(self).speed == old(self).speed,
            final(self).damage == old(self).damage,
            final(self).selected == old(self).selected,
            final(self).initial == old(self).initial,
    {
        if health > self.max_health - self.health {
            self.health = self.max_health;
        } else {
            self.health = self.health + health;
        }
    }

    pub fn select(&mut self)
        ensures
            *final(self) == (BudData { selected: true, ..*old(self) }),
    {
        self.selected = true;
    }

    pub fn unselect(&mut self)
        ensures
            *final(self) == (BudData { selected: false, ..*old(self) }),
    {
        self.selected = false;
    }

    /// The stat block after an end-of-turn reset.
    pub open spec fn spec_reset(b: BudData) -> BudData {
        BudData {
            speed: b.initial.max_speed,
            damage: 0u16,
            max_health: b.initial.max_health,
            health: if b.health <= b.initial.max_health {
                b.health
            } else {
                b.initial.max_health
            },
            ..b
        }
    }

    /// End-of-turn reset: the movement budget is restored, bonus damage is
    /// cleared, and the maximum health is re-derived from the profile (the
    /// per-round buff policy: buffs are applied fresh each turn from the
    /// effect slots, not accumulated). Health is clamped so the stat-block
    /// invariant survives a shrinking maximum.
    pub fn reset(&mut self)
        ensures
            *final(self) == BudData::spec_reset(*old(self)),
            final(self).speed == old(self).initial.max_speed,
            final(self).damage == 0,
            final(self).max_health == old(self).initial.max_health,
            final(self).health as int == if old(self).health <= old(self).initial.max_health {
                old(self).health as int
            } else {
                old(self).initial.max_health as int
            },
            final(self).selected == old(self).selected,
            final(self).initial == old(self).initial,
            final(self).wf() <==> old(self).initial.wf(),
    {
        self.speed = self.initial.max_speed;
        self.damage = 0;
        self.max_health = self.initial.max_health;
        if self.health > self.max_health {
            self.health = self.max_health;
        }
    }

    /// A unit is alive while its health is positive.
    pub open spec fn spec_alive(&self) -> bool {
        self.health > 0
    }

    pub fn alive(&self) -> (r: bool)
        ensures
            r == self.spec_alive(),
    {
        self.health > 0
    }

    /// The stat block a freshly spawned unit starts the battle with.
    pub fn default(initial: InitialBudData) -> (r: BudData)
        ensures
            r.initial == initial,
            r.selected == false,
            r.max_health == 10,
            r.health == 10,
            r.speed == 3,
            r.damage == 0,
    {
        BudData { initial, selected: false, max_health: 10, health: 10, speed: 3, damage: 0 }
    }

    /// A copy whose value equals this one.
    pub fn duplicate(&self) -> (r: BudData)
        ensures
            r.eqv(self),
            r.wf() <==> self.wf(),
    {
        BudData {
            initial: self.initial.duplicate(),
            selected: self.selected,
            max_health: self.max_health,
            health: self.health,
            speed: self.speed,
            damage: self.damage,
        }
    }
}

/// A unit's persistent configuration: identity, base stats, equipped
/// passive-effect slots and weapon loadout. It is assembled in the draft
/// phase and carried across rounds.
pub struct InitialBudData {
    pub texture: u64,
    pub max_health: u16,
    pub max_speed: u16,
    pub index: u8,
    pub team: u8,
    pub rounds: u64,
    pub effects: Vec<Option<Effect>>,
    pub effect_textures: Vec<Option<u64>>,
    pub name: String,
    pub weapon_info: WeaponInfo,
}

impl InitialBudData {
    /// A profile always carries exactly `EFFECT_SLOTS` effect slots and as
    /// many icon slots, and every equipped effect is a live, well-formed
    /// value: profile effects re-apply fresh each turn and never expire.
    pub open spec fn wf(&self) -> bool {
        &&& self.effects@.len() == EFFECT_SLOTS
        &&& self.effect_textures@.len() == EFFECT_SLOTS
        &&& forall|i: int|
            0 <= i < self.effects@.len() ==> match #[trigger] self.effects@[i] {
                Some(e) => e.spec_is_active() && e.spec_wf(),
                None => true,
            }
    }

    /// Value equality, with list and text fields compared by content.
    pub open spec fn eqv(&self, other: &InitialBudData) -> bool {
        &&& self.texture == other.texture
        &&& self.max_health == other.max_health
        &&& self.max_speed == other.max_speed
        &&& self.index == other.index
        &&& self.team == other.team
        &&& self.rounds == other.rounds
        &&& self.effects@ == other.effects@
        &&& self.effect_textures@ == other.effect_textures@
        &&& self.name@ == other.name@
        &&& self.weapon_info.eqv(&other.weapon_info)
    }

    /// A fresh default profile: base stats, empty effect slots, a name drawn
    /// from the generator.
    pub fn default(
        texture: u64,
        team: u8,
        index: u8,
        name_generator: &NameGenerator,
        weapon_info: WeaponInfo,
    ) -> (r: InitialBudData)
        ensures
            r.wf(),
            r.texture == texture,
            r.max_health == 10,
            r.max_speed == 3,
            r.index == index,
            r.team == team,
            r.rounds == 0,
            forall|i: int| 0 <= i < EFFECT_SLOTS ==> r.effects@[i] is None,
            forall|i: int| 0 <= i < EFFECT_SLOTS ==> r.effect_textures@[i] is None,
            name_generator.names@.len() == 0 ==> r.name@ == "Hello"@,
            name_generator.names@.len() > 0 ==> exists|i: int|
                0 <= i < name_generator.names@.len() && r.name@ == name_generator.names@[i]@,
            r.weapon_info == weapon_info,
    {
        let name = name_generator.selectRandName();
        InitialBudData {
            texture,
            max_health: 10,
            max_speed: 3,
            index,
            team,
            rounds: 0,
            effects: vec![None, None, None],
            effect_textures: vec![None, None, None],
            name,
            weapon_info,
        }
    }

    /// The first free effect slot, if any.
    pub open spec fn spec_first_free(&self) -> Option<int> {
        if self.effects@[0] is None {
            Some(0int)
        } else if self.effects@[1] is None {
            Some(1int)
        } else if self.effects@[2] is None {
            Some(2int)
        } else {
            None
        }
    }

    /// How a profile changes when one effect is equipped: the first free
    /// slot takes it (the matching icon slot takes the icon when one is
    /// given); with all slots full nothing changes. No other field moves.
    pub open spec fn spec_effect_added(
        pre: InitialBudData,
        post: InitialBudData,
        new_effect: Effect,
        tex: Option<u64>,
    ) -> bool {
        &&& match pre.spec_first_free() {
            Some(slot) => {
                &&& post.effects@ == pre.effects@.update(slot, Some(new_effect))
                &&& post.effect_textures@ == match tex {
                    Some(t) => pre.effect_textures@.update(slot, Some(t)),
                    None => pre.effect_textures@,
                }
            },
            None => {
                &&& post.effects@ == pre.effects@
                &&& post.effect_textures@ == pre.effect_textures@
            },
        }
        &&& post == (InitialBudData {
            effects: post.effects,
            effect_textures: post.effect_textures,
            ..pre
        })
    }

    /// Equip a passive effect in the first free slot; with all slots full the
    /// profile is unchanged. The icon handle lands in the matching slot when
    /// one is given.
    pub fn add_effect(&mut self, new_effect: Effect, tex: Option<u64>)
        requires
            old(self).wf(),
            new_effect.spec_is_active(),
            new_effect.spec_wf(),
        ensures
            final(self).wf(),
            InitialBudData::spec_effect_added(*old(self), *final(self), new_effect, tex),
            match old(self).spec_first_free() {
                Some(slot) => {
                    &&& final(self).effects@ == old(self).effects@.update(slot, Some(new_effect))
                    &&& final(self).effect_textures@ == match tex {
                        Some(t) => old(self).effect_textures@.update(slot, Some(t)),
                        None => old(self).effect_textures@,
                    }
                },
                None => {
                    &&& final(self).effects@ == old(self).effects@
                    &&& final(self).effect_textures@ == old(self).effect_textures@
                },
            },
            *final(self) == (InitialBudData {
                effects: final(self).effects,
                effect_textures: final(self).effect_textures,
                ..*old(self)
            }),
    {
        let slot: usize = if self.effects[0].is_none() {
            0
        } else if self.effects[1].is_none() {
            1
        } else if self.effects[2].is_none() {
            2
        } else {
            return ;
        };
        self.effects[slot] = Some(new_effect);
        if let Some(t) = tex {
            self.effect_textures[slot] = Some(t);
        }
    }

    /// Empty every effect slot and icon slot.
    pub fn clear_effects(&mut self)
        ensures
            final(self).wf(),
            forall|i: int| 0 <= i < EFFECT_SLOTS ==> final(self).effects@[i] is None,
            forall|i: int| 0 <= i < EFFECT_SLOTS ==> final(self).effect_textures@[i] is None,
            *final(self) == (InitialBudData {
                effects: final(self).effects,
                effect_textures: final(self).effect_textures,
                ..*old(self)
            }),
    {
        self.effects = vec![None, None, None];
        self.effect_textures = vec![None, None, None];
    }

    pub fn change_weapon(&mut self, weapon_info: WeaponInfo)
        ensures
            *final(self) == (InitialBudData { weapon_info: final(self).weapon_info, ..*old(self) }),
            final(self).weapon_info == weapon_info,
    {
        self.weapon_info = weapon_info;
    }

    /// Survivors carry their profile into the next round: one more round
    /// survived, and a fresh contiguous slot index.
    pub fn new_round(&mut self, index: u8)
        requires
            old(self).rounds < u64::MAX,
        ensures
            final(self).rounds == old(self).rounds + 1,
            final(self).index == index,
            *final(self) == (InitialBudData {
                rounds: final(self).rounds,
                index,
                ..*old(self)
            }),
    {
        self.rounds = self.rounds + 1;
        self.index = index;
    }

    /// A copy whose value equals this one; the slot vectors are rebuilt
    /// element by element.
    pub fn duplicate(&self) -> (r: InitialBudData)
        ensures
            r.eqv(self),
            r.wf() <==> self.wf(),
    {
        let mut effects: Vec<Option<Effect>> = Vec::new();
        let mut i: usize = 0;
        while i < self.effects.len()
            invariant
                i <= self.effects@.len(),
                effects@ == self.effects@.take(i as int),
            decreases self.effects@.len() - i,
        {
            effects.push(self.effects[i]);
            proof {
                assert(effects@ =~= self.effects@.take(i + 1));
            }
            i = i + 1;
        }
        let mut effect_textures: Vec<Option<u64>> = Vec::new();
        let mut j: usize = 0;
        while j < self.effect_textures.len()
            invariant
                j <= self.effect_textures@.len(),
                effect_textures@ == self.effect_textures@.take(j as int),
            decreases self.effect_textures@.len() - j,
        {
            effect_textures.push(self.effect_textures[j]);
            proof {
                assert(effect_textures@ =~= self.effect_textures@.take(j + 1));
            }
            j = j + 1;
        }
        proof {
            assert(effects@ =~= self.effects@);
            assert(effect_textures@ =~= self.effect_textures@);
        }
        InitialBudData {
            texture: self.texture,
            max_health: self.max_health,
            max_speed: self.max_speed,
            index: self.index,
            team: self.team,
            rounds: self.rounds,
            effects,
            effect_textures,
            name: self.name.clone(),
            weapon_info: self.weapon_info.duplicate(),
        }
    }
}

} // verus!
