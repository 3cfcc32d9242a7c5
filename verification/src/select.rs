//! The draft phase: rosters are assembled and unit loadouts (weapons,
//! passive effects) are edited before a battle, and the name generator
//! hands freshly drafted units their names.

use vstd::prelude::*;
use crate::bud_data::InitialBudData;
use crate::scene::spec_profiles_eqv;
use crate::effects::Effect;
use crate::input::KeyState;
use crate::rng::rand_below;
use crate::state::{GameStateEnum, GameStateHandler};
use crate::weapon::{WeaponEnum, WeaponInfo};

verus! {

/// Hands out display names drawn from a list the host loads at phase start.
pub struct NameGenerator {
    pub names: Vec<String>,
}

impl NameGenerator {
    pub fn new(names: Vec<String>) -> (g: NameGenerator)
        ensures
            g.names == names,
    {
        NameGenerator { names }
    }

    /// One of the listed names, or the fixed fallback when the list is
    /// empty. Which name comes out is up to the random source.
    #[allow(non_snake_case)]
    pub fn selectRandName(&self) -> (r: String)
        ensures
            self.names@.len() == 0 ==> r@ == "Hello"@,
            self.names@.len() > 0 ==> exists|i: int|
                0 <= i < self.names@.len() && r@ == self.names@[i]@,
    {
        if self.names.len() == 0 {
            "Hello".to_owned()
        } else {
            let i = rand_below(self.names.len());
            let name = self.names[i].clone();
            proof {
                assert(name@ == self.names@[i as int]@);
            }
            name
        }
    }
}

/// A default profile padded into an underfull roster: base stats, empty
/// slots, the default weapon, and a name from the generator's list.
pub open spec fn spec_padded(
    p: InitialBudData,
    team: u8,
    index: int,
    tex: u64,
    weapon_tex: u64,
    names: Seq<String>,
) -> bool {
    &&& p.wf()
    &&& p.texture == tex
    &&& p.max_health == 10
    &&& p.max_speed == 3
    &&& p.index == index
    &&& p.team == team
    &&& p.rounds == 0
    &&& forall|i: int| 0 <= i < p.effects@.len() ==> p.effects@[i] is None
    &&& p.weapon_info.weapon.weapon_enum == WeaponEnum::Sword
    &&& p.weapon_info.weapon.wf()
    &&& p.weapon_info.weapon_texture == weapon_tex
    &&& if names.len() == 0 {
        p.name@ == "Hello"@
    } else {
        exists|i: int| 0 <= i < names.len() && p.name@ == names[i]@
    }
}

/// The transient state of the draft phase: the two rosters being edited,
/// the unit under edit, the team being drafted, the last-hovered trait
/// description, and the "draft complete" flag.
pub struct SelectInfo {
    pub initial_buds_tuple: (Vec<InitialBudData>, Vec<InitialBudData>),
    pub current_bud: Option<usize>,
    pub trait_description: String,
    pub team: u8,
    pub done: bool,
    pub weapon_index: u8,
}

impl SelectInfo {
    /// Whether an edited unit is selected and its slot is a real roster
    /// position of the active team.
    pub open spec fn spec_current_valid(&self) -> bool {
        match self.current_bud {
            Some(i) => i < if self.team == 0 {
                self.initial_buds_tuple.0@.len()
            } else {
                self.initial_buds_tuple.1@.len()
            },
            None => true,
        }
    }

    /// The profile currently under edit, if a unit is selected.
    pub fn get_current_initial_bud_data(&self) -> (r: Option<&InitialBudData>)
        requires
            self.spec_current_valid(),
        ensures
            match self.current_bud {
                Some(i) => r matches Some(p) && *p == if self.team == 0 {
                    self.initial_buds_tuple.0@[i as int]
                } else {
                    self.initial_buds_tuple.1@[i as int]
                },
                None => r is None,
            },
    {
        match self.current_bud {
            Some(current_bud) => {
                if self.team == 0 {
                    Some(&self.initial_buds_tuple.0[current_bud])
                } else {
                    Some(&self.initial_buds_tuple.1[current_bud])
                }
            },
            None => None,
        }
    }

    /// Replace the weapon loadout of the profile under edit; without a
    /// selected unit nothing changes.
    pub fn change_weapon_current(&mut self, weapon_info: WeaponInfo)
        requires
            old(self).spec_current_valid(),
        ensures
            final(self).current_bud == old(self).current_bud,
            final(self).team == old(self).team,
            final(self).done == old(self).done,
            final(self).weapon_index == old(self).weapon_index,
            final(self).trait_description == old(self).trait_description,
            match old(self).current_bud {
                Some(i) => if old(self).team == 0 {
                    &&& final(self).initial_buds_tuple.0@ == old(
                        self,
                    ).initial_buds_tuple.0@.update(
                        i as int,
                        InitialBudData {
                            weapon_info: final(self).initial_buds_tuple.0@[i as int].weapon_info,
                            ..old(self).initial_buds_tuple.0@[i as int]
                        },
                    )
                    &&& final(self).initial_buds_tuple.0@[i as int].weapon_info == weapon_info
                    &&& final(self).initial_buds_tuple.1@ == old(self).initial_buds_tuple.1@
                } else {
                    &&& final(self).initial_buds_tuple.1@ == old(
                        self,
                    ).initial_buds_tuple.1@.update(
                        i as int,
                        InitialBudData {
                            weapon_info: final(self).initial_buds_tuple.1@[i as int].weapon_info,
                            ..old(self).initial_buds_tuple.1@[i as int]
                        },
                    )
                    &&& final(self).initial_buds_tuple.1@[i as int].weapon_info == weapon_info
                    &&& final(self).initial_buds_tuple.0@ == old(self).initial_buds_tuple.0@
                },
                None => final(self).initial_buds_tuple == old(self).initial_buds_tuple,
            },
    {
        match self.current_bud {
            Some(current_bud) => {
                if self.team == 0 {
                    self.initial_buds_tuple.0[current_bud].change_weapon(weapon_info);
                } else {
                    self.initial_buds_tuple.1[current_bud].change_weapon(weapon_info);
                }
            },
            None => {},
        }
    }

    /// Equip a passive effect on the profile under edit: its first free
    /// slot takes the effect (and the matching icon slot the icon), exactly
    /// as the profile's own equip rule says; every other profile is
    /// untouched. Without a selected unit nothing changes.
    pub fn add_effect_current(&mut self, new_effect: Effect, tex: Option<u64>)
        requires
            old(self).spec_current_valid(),
            new_effect.spec_is_active(),
            new_effect.spec_wf(),
            forall|i: int|
                0 <= i < old(self).initial_buds_tuple.0@.len()
                    ==> (#[trigger] old(self).initial_buds_tuple.0@[i]).wf(),
            forall|i: int|
                0 <= i < old(self).initial_buds_tuple.1@.len()
                    ==> (#[trigger] old(self).initial_buds_tuple.1@[i]).wf(),
        ensures
            final(self).current_bud == old(self).current_bud,
            final(self).team == old(self).team,
            final(self).done == old(self).done,
            final(self).weapon_index == old(self).weapon_index,
            final(self).trait_description == old(self).trait_description,
            forall|i: int|
                0 <= i < final(self).initial_buds_tuple.0@.len()
                    ==> (#[trigger] final(self).initial_buds_tuple.0@[i]).wf(),
            forall|i: int|
                0 <= i < final(self).initial_buds_tuple.1@.len()
                    ==> (#[trigger] final(self).initial_buds_tuple.1@[i]).wf(),
            final(self).initial_buds_tuple.0@.len() == old(self).initial_buds_tuple.0@.len(),
            final(self).initial_buds_tuple.1@.len() == old(self).initial_buds_tuple.1@.len(),
            match old(self).current_bud {
                Some(i) => if old(self).team == 0 {
                    &&& InitialBudData::spec_effect_added(
                        old(self).initial_buds_tuple.0@[i as int],
                        final(self).initial_buds_tuple.0@[i as int],
                        new_effect,
                        tex,
                    )
                    &&& forall|k: int|
                        0 <= k < old(self).initial_buds_tuple.0@.len() && k != i
                            ==> #[trigger] final(self).initial_buds_tuple.0@[k] == old(
                            self,
                        ).initial_buds_tuple.0@[k]
                    &&& final(self).initial_buds_tuple.1@ == old(self).initial_buds_tuple.1@
                } else {
                    &&& InitialBudData::spec_effect_added(
                        old(self).initial_buds_tuple.1@[i as int],
                        final(self).initial_buds_tuple.1@[i as int],
                        new_effect,
                        tex,
                    )
                    &&& forall|k: int|
                        0 <= k < old(self).initial_buds_tuple.1@.len() && k != i
                            ==> #[trigger] final(self).initial_buds_tuple.1@[k] == old(
                            self,
                        ).initial_buds_tuple.1@[k]
                    &&& final(self).initial_buds_tuple.0@ == old(self).initial_buds_tuple.0@
                },
                None => final(self).initial_buds_tuple == old(self).initial_buds_tuple,
            },
    {
        match self.current_bud {
            Some(current_bud) => {
                if self.team == 0 {
                    self.initial_buds_tuple.0[current_bud].add_effect(new_effect, tex);
                    proof {
                        assert(forall|i: int|
                            0 <= i < self.initial_buds_tuple.0@.len() && i != current_bud
                                ==> #[trigger] self.initial_buds_tuple.0@[i]
                                == old(self).initial_buds_tuple.0@[i]);
                    }
                } else {
                    self.initial_buds_tuple.1[current_bud].add_effect(new_effect, tex);
                    proof {
                        assert(forall|i: int|
                            0 <= i < self.initial_buds_tuple.1@.len() && i != current_bud
                                ==> #[trigger] self.initial_buds_tuple.1@[i]
                                == old(self).initial_buds_tuple.1@[i]);
                    }
                }
            },
            None => {},
        }
    }

    /// Clear every equipped effect of the profile under edit; without a
    /// selected unit nothing changes.
    pub fn clear_effects_current(&mut self)
        requires
            old(self).spec_current_valid(),
        ensures
            final(self).current_bud == old(self).current_bud,
            final(self).team == old(self).team,
            final(self).done == old(self).done,
            final(self).initial_buds_tuple.0@.len() == old(self).initial_buds_tuple.0@.len(),
            final(self).initial_buds_tuple.1@.len() == old(self).initial_buds_tuple.1@.len(),
            match old(self).current_bud {
                Some(i) => if old(self).team == 0 {
                    forall|k: int|
                        0 <= k < final(self).initial_buds_tuple.0@[i as int].effects@.len()
                            ==> final(self).initial_buds_tuple.0@[i as int].effects@[k] is None
                } else {
                    forall|k: int|
                        0 <= k < final(self).initial_buds_tuple.1@[i as int].effects@.len()
                            ==> final(self).initial_buds_tuple.1@[i as int].effects@[k] is None
                },
                None => final(self).initial_buds_tuple == old(self).initial_buds_tuple,
            },
    {
        match self.current_bud {
            Some(current_bud) => {
                if self.team == 0 {
                    self.initial_buds_tuple.0[current_bud].clear_effects();
                } else {
                    self.initial_buds_tuple.1[current_bud].clear_effects();
                }
            },
            None => {},
        }
    }
}

/// The weapon index one frame of the cycling keys selects: a fresh Right
/// keypress steps forward (wrapping after the last kind), a fresh Left
/// keypress steps back (wrapping before the first); a disarmed latch or no
/// fresh press selects nothing.
pub open spec fn spec_cycle_choice(
    idx: u8,
    left: KeyState,
    right: KeyState,
    armed: bool,
) -> Option<u8> {
    if right is Pressed && armed {
        Some(if idx == 7 { 0u8 } else { (idx + 1) as u8 })
    } else if left is Pressed && armed {
        Some(if idx == 0 { 7u8 } else { (idx - 1) as u8 })
    } else {
        None
    }
}

/// The cycling latch after one frame: spent by a step, re-armed once both
/// keys are released, otherwise kept.
pub open spec fn spec_cycle_latch(
    armed: bool,
    left: KeyState,
    right: KeyState,
    chose: bool,
) -> bool {
    if chose {
        false
    } else if left is Released && right is Released {
        true
    } else {
        armed
    }
}

/// One profile's loadout after a weapon step: the new kind's weapon and
/// icon placement, the old icon handle, every other field untouched.
pub open spec fn spec_weapon_stepped(pre: InitialBudData, post: InitialBudData, w: u8) -> bool {
    &&& post == (InitialBudData { weapon_info: post.weapon_info, ..pre })
    &&& post.weapon_info.weapon.weapon_enum == WeaponEnum::spec_of_index(w)
    &&& post.weapon_info.weapon.wf()
    &&& post.weapon_info.weapon_texture == pre.weapon_info.weapon_texture
    &&& post.weapon_info.weapon_rect == WeaponEnum::spec_icon_rect(WeaponEnum::spec_of_index(w))
}

/// One frame of weapon cycling, in full: what was chosen, how the latch
/// moved, and exactly which profile changed how.
pub open spec fn spec_cycled(
    pre: SelectState,
    post: SelectState,
    left: KeyState,
    right: KeyState,
    changed: Option<u8>,
) -> bool {
    &&& post.select_info.current_bud == pre.select_info.current_bud
    &&& post.select_info.team == pre.select_info.team
    &&& post.select_info.done == pre.select_info.done
    &&& post.select_info.weapon_index == pre.select_info.weapon_index
    &&& post.select_info.trait_description == pre.select_info.trait_description
    &&& match pre.select_info.current_bud {
        None => post == pre && changed is None,
        Some(i) => {
            let roster = if pre.select_info.team == 0 {
                pre.select_info.initial_buds_tuple.0@
            } else {
                pre.select_info.initial_buds_tuple.1@
            };
            let idx = roster[i as int].weapon_info.weapon.weapon_enum.spec_index();
            let choice = spec_cycle_choice(idx, left, right, pre.weapon_released);
            &&& changed == choice
            &&& post.weapon_released == spec_cycle_latch(
                pre.weapon_released,
                left,
                right,
                choice is Some,
            )
            &&& match choice {
                None => post.select_info.initial_buds_tuple
                    == pre.select_info.initial_buds_tuple,
                Some(w) => if pre.select_info.team == 0 {
                    &&& post.select_info.initial_buds_tuple.0@.len()
                        == pre.select_info.initial_buds_tuple.0@.len()
                    &&& spec_weapon_stepped(
                        pre.select_info.initial_buds_tuple.0@[i as int],
                        post.select_info.initial_buds_tuple.0@[i as int],
                        w,
                    )
                    &&& forall|k: int|
                        0 <= k < pre.select_info.initial_buds_tuple.0@.len() && k != i
                            ==> #[trigger] post.select_info.initial_buds_tuple.0@[k]
                            == pre.select_info.initial_buds_tuple.0@[k]
                    &&& post.select_info.initial_buds_tuple.1@
                        == pre.select_info.initial_buds_tuple.1@
                } else {
                    &&& post.select_info.initial_buds_tuple.1@.len()
                        == pre.select_info.initial_buds_tuple.1@.len()
                    &&& spec_weapon_stepped(
                        pre.select_info.initial_buds_tuple.1@[i as int],
                        post.select_info.initial_buds_tuple.1@[i as int],
                        w,
                    )
                    &&& forall|k: int|
                        0 <= k < pre.select_info.initial_buds_tuple.1@.len() && k != i
                            ==> #[trigger] post.select_info.initial_buds_tuple.1@[k]
                            == pre.select_info.initial_buds_tuple.1@[k]
                    &&& post.select_info.initial_buds_tuple.0@
                        == pre.select_info.initial_buds_tuple.0@
                },
            }
        },
    }
}

/// The draft-phase screen state: the roster scratchpad plus the
/// weapon-cycling key latch.
pub struct SelectState {
    pub select_info: SelectInfo,
    pub weapon_released: bool,
}

impl SelectState {
    pub fn new(initial_buds_tuple: (Vec<InitialBudData>, Vec<InitialBudData>)) -> (r:
        SelectState)
        ensures
            r.select_info.initial_buds_tuple == initial_buds_tuple,
            r.select_info.current_bud is None,
            r.select_info.trait_description@ == Seq::<char>::empty(),
            r.select_info.team == 0,
            !r.select_info.done,
            r.select_info.weapon_index == 0,
            r.weapon_released,
    {
        SelectState {
            select_info: SelectInfo {
                team: 0,
                current_bud: None,
                trait_description: String::new(),
                initial_buds_tuple,
                done: false,
                weapon_index: 0,
            },
            weapon_released: true,
        }
    }

    /// Pad an underfull roster to exactly five units with generated default
    /// profiles, slot indices continuing where the drafted units stop. A
    /// full or overfull roster is left as it is.
    pub fn setup_buds(
        initial_buds: &mut Vec<InitialBudData>,
        team: u8,
        tex: u64,
        name_generator: &NameGenerator,
        weapon_tex: u64,
    )
        ensures
            final(initial_buds)@.len() == if old(initial_buds)@.len() >= 5 {
                old(initial_buds)@.len() as int
            } else {
                5int
            },
            forall|i: int|
                0 <= i < old(initial_buds)@.len() ==> #[trigger] final(initial_buds)@[i]
                    == old(initial_buds)@[i],
            forall|i: int|
                old(initial_buds)@.len() <= i < 5 ==> spec_padded(
                    #[trigger] final(initial_buds)@[i],
                    team,
                    i,
                    tex,
                    weapon_tex,
                    name_generator.names@,
                ),
    {
        let ghost orig = initial_buds@;
        while initial_buds.len() < 5
            invariant
                orig.len() <= initial_buds@.len(),
                initial_buds@.len() <= 5 || initial_buds@.len() == orig.len(),
                forall|i: int|
                    0 <= i < orig.len() ==> #[trigger] initial_buds@[i] == orig[i],
                forall|i: int|
                    orig.len() <= i < initial_buds@.len() ==> spec_padded(
                        #[trigger] initial_buds@[i],
                        team,
                        i,
                        tex,
                        weapon_tex,
                        name_generator.names@,
                    ),
            decreases 5 - initial_buds@.len(),
        {
            let index = initial_buds.len() as u8;
            let profile = InitialBudData::default(
                tex,
                team,
                index,
                name_generator,
                WeaponInfo::default(weapon_tex),
            );
            initial_buds.push(profile);
        }
    }

    /// One frame of the draft screen's decisions: the weapon-cycling keys
    /// are honored, and once the draft is flagged complete the arena phase
    /// is requested with copies of the finished rosters as its payload.
    pub fn run(
        &mut self,
        left: KeyState,
        right: KeyState,
        game_state_handler: &mut GameStateHandler,
    ) -> (changed: Option<u8>)
        requires
            old(self).select_info.spec_current_valid(),
        ensures
            old(self).select_info.done ==> (final(game_state_handler).new_state matches Some(s)
                && (s matches GameStateEnum::Arena(t) && spec_profiles_eqv(
                t.0@,
                old(self).select_info.initial_buds_tuple.0@,
            ) && spec_profiles_eqv(t.1@, old(self).select_info.initial_buds_tuple.1@))),
            !old(self).select_info.done ==> *final(game_state_handler) == *old(
                game_state_handler,
            ),
            spec_cycled(*old(self), *final(self), left, right, changed),
            changed matches Some(w) ==> w <= 7,
    {
        if self.select_info.done {
            let team_zero = duplicate_profiles(&self.select_info.initial_buds_tuple.0);
            let team_one = duplicate_profiles(&self.select_info.initial_buds_tuple.1);
            game_state_handler.new_state(GameStateEnum::Arena((team_zero, team_one)));
        }
        self.cycle_weapon(left, right)
    }

    /// One frame of the weapon-cycling input: with a unit under edit, a
    /// fresh Right keypress moves its weapon one step forward in the cycle
    /// (wrapping after the last), a fresh Left keypress one step back
    /// (wrapping before the first); a held key cycles only once, until both
    /// keys are released. The changed loadout keeps the profile's icon
    /// handle; the new weapon kind's index is returned so the host can swap
    /// the icon.
    pub fn cycle_weapon(&mut self, left: KeyState, right: KeyState) -> (changed: Option<u8>)
        requires
            old(self).select_info.spec_current_valid(),
        ensures
            spec_cycled(*old(self), *final(self), left, right, changed),
            changed matches Some(w) ==> w <= 7,
    {
        let mut changed: Option<u8> = None;
        if self.select_info.current_bud.is_some() {
            let current = self.select_info.get_current_initial_bud_data();
            let (weapon_index, weapon_texture) = match current {
                Some(profile) => (
                    profile.weapon_info.weapon.weapon_enum.get_index(),
                    profile.weapon_info.weapon_texture,
                ),
                None => (0, 0),
            };
            if right.is_pressed() && self.weapon_released {
                let next: u8 = if weapon_index == 7 {
                    0
                } else {
                    weapon_index + 1
                };
                self.weapon_released = false;
                changed = Some(next);
            } else if left.is_pressed() && self.weapon_released {
                let next: u8 = if weapon_index == 0 {
                    7
                } else {
                    weapon_index - 1
                };
                self.weapon_released = false;
                changed = Some(next);
            } else if left.is_released() && right.is_released() {
                self.weapon_released = true;
            }
            if let Some(next) = changed {
                proof {
                    assert(next <= 7);
                }
                let (weapon, _name, weapon_rect) = WeaponEnum::get_weapon(next);
                self.select_info.change_weapon_current(
                    WeaponInfo::new(weapon, weapon_texture, weapon_rect),
                );
            }
        }
        changed
    }
}

/// Content-equal copies of a roster's profiles, in order.
fn duplicate_profiles(profiles: &Vec<InitialBudData>) -> (r: Vec<InitialBudData>)
    ensures
        spec_profiles_eqv(r@, profiles@),
{
    let n = profiles.len();
    let mut r: Vec<InitialBudData> = Vec::new();
    let mut i: usize = 0;
    while i < n
        invariant
            i <= n,
            n == profiles@.len(),
            r@.len() == i,
            forall|k: int| 0 <= k < i ==> (#[trigger] r@[k]).eqv(&profiles@[k]),
        decreases n - i,
    {
        let copy = profiles[i].duplicate();
        r.push(copy);
        i = i + 1;
    }
    r
}

} // verus!
