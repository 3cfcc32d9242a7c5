//! Weapon loadouts: each weapon names the tiles it strikes (relative to the
//! wielder, facing down) and the damage dealt on each, plus a ranged reach.

use vstd::prelude::*;
use crate::grid::GridPoint;

verus! {

/// A screen-space rectangle used by the host renderer to place a weapon
/// icon. The core treats it as plain data.
#[derive(Clone, Copy, PartialEq, Eq, Structural, Debug)]
pub struct UiRect {
    pub x: i32,
    pub y: i32,
    pub w: u32,
    pub h: u32,
}

impl UiRect {
    pub fn new(x: i32, y: i32, w: u32, h: u32) -> (r: UiRect)
        ensures
            r == (UiRect { x, y, w, h }),
    {
        UiRect { x, y, w, h }
    }
}

#[derive(Clone, Copy, PartialEq, Eq, Structural, Debug)]
pub enum WeaponEnum {
    Sword,
    Axe,
    Dagger,
    Shield,
    Bow,
    Crossbow,
    Slingshot,
    Javelin,
}

/// The tiles a weapon strikes, relative to a unit facing down, with the
/// damage dealt on each tile.
pub open spec fn spec_damage_map(weapon_enum: WeaponEnum) -> Seq<(GridPoint, u8)> {
    match weapon_enum {
        WeaponEnum::Sword => seq![(GridPoint { x: 0i32, y: 1i32 }, 3u8), (GridPoint { x: 0i32, y: 2i32 }, 3u8)],
        WeaponEnum::Axe => seq![
            (GridPoint { x: 0i32, y: 1i32 }, 2u8),
            (GridPoint { x: 1i32, y: 1i32 }, 2u8),
            (GridPoint { x: -1i32, y: 1i32 }, 2u8),
        ],
        WeaponEnum::Dagger => seq![(GridPoint { x: 0i32, y: 1i32 }, 3u8)],
        WeaponEnum::Shield => seq![(GridPoint { x: 0i32, y: 1i32 }, 3u8)],
        WeaponEnum::Bow => seq![(GridPoint { x: 0i32, y: 1i32 }, 1u8)],
        WeaponEnum::Crossbow => seq![(GridPoint { x: 0i32, y: 1i32 }, 2u8)],
        WeaponEnum::Slingshot => seq![
            (GridPoint { x: 0i32, y: 1i32 }, 1u8),
            (GridPoint { x: 1i32, y: 2i32 }, 1u8),
            (GridPoint { x: 1i32, y: 1i32 }, 1u8),
            (GridPoint { x: -1i32, y: 1i32 }, 1u8),
        ],
        WeaponEnum::Javelin => seq![(GridPoint { x: 0i32, y: 1i32 }, 3u8)],
    }
}

/// How far a ranged weapon reaches; melee weapons have no reach.
pub open spec fn spec_range(weapon_enum: WeaponEnum) -> u8 {
    match weapon_enum {
        WeaponEnum::Bow => 6u8,
        WeaponEnum::Crossbow => 4u8,
        WeaponEnum::Slingshot => 4u8,
        WeaponEnum::Javelin => 3u8,
        _ => 0u8,
    }
}

#[derive(Debug)]
pub struct Weapon {
    pub damage_map: Vec<(GridPoint, u8)>,
    pub range: u8,
    pub weapon_enum: WeaponEnum,
}

impl Weapon {
    /// Value equality: same strike map contents, reach and kind.
    pub open spec fn eqv(&self, other: &Weapon) -> bool {
        &&& self.damage_map@ == other.damage_map@
        &&& self.range == other.range
        &&& self.weapon_enum == other.weapon_enum
    }

    /// A weapon is well formed when its strike map and reach are the ones
    /// its kind prescribes.
    pub open spec fn wf(&self) -> bool {
        &&& self.damage_map@ == spec_damage_map(self.weapon_enum)
        &&& self.range == spec_range(self.weapon_enum)
    }

    pub fn default() -> (w: Weapon)
        ensures
            w.weapon_enum == WeaponEnum::Sword,
            w.wf(),
    {
        Weapon::from_enum(WeaponEnum::Sword)
    }

    pub fn from_enum(weapon_enum: WeaponEnum) -> (w: Weapon)
        ensures
            w.weapon_enum == weapon_enum,
            w.wf(),
    {
        let damage_map: Vec<(GridPoint, u8)> = match weapon_enum {
            WeaponEnum::Sword => vec![(GridPoint { x: 0, y: 1 }, 3), (GridPoint { x: 0, y: 2 }, 3)],
            WeaponEnum::Axe => vec![
                (GridPoint { x: 0, y: 1 }, 2),
                (GridPoint { x: 1, y: 1 }, 2),
                (GridPoint { x: -1, y: 1 }, 2),
            ],
            WeaponEnum::Dagger => vec![(GridPoint { x: 0, y: 1 }, 3)],
            WeaponEnum::Shield => vec![(GridPoint { x: 0, y: 1 }, 3)],
            WeaponEnum::Bow => vec![(GridPoint { x: 0, y: 1 }, 1)],
            WeaponEnum::Crossbow => vec![(GridPoint { x: 0, y: 1 }, 2)],
            WeaponEnum::Slingshot => vec![
                (GridPoint { x: 0, y: 1 }, 1),
                (GridPoint { x: 1, y: 2 }, 1),
                (GridPoint { x: 1, y: 1 }, 1),
                (GridPoint { x: -1, y: 1 }, 1),
            ],
            WeaponEnum::Javelin => vec![(GridPoint { x: 0, y: 1 }, 3)],
        };
        let range: u8 = match weapon_enum {
            WeaponEnum::Bow => 6,
            WeaponEnum::Crossbow => 4,
            WeaponEnum::Slingshot => 4,
            WeaponEnum::Javelin => 3,
            _ => 0,
        };
        proof {
            assert(damage_map@ =~= spec_damage_map(weapon_enum));
        }
        Weapon { damage_map, range, weapon_enum }
    }

    /// A copy whose value equals this one; `damage_map` is rebuilt element
    /// by element.
    pub fn duplicate(&self) -> (w: Weapon)
        ensures
            w.eqv(self),
    {
        let mut damage_map: Vec<(GridPoint, u8)> = Vec::new();
        let mut i: usize = 0;
        while i < self.damage_map.len()
            invariant
                i <= self.damage_map@.len(),
                damage_map@ == self.damage_map@.take(i as int),
            decreases self.damage_map@.len() - i,
        {
            damage_map.push(self.damage_map[i]);
            proof {
                assert(damage_map@ =~= self.damage_map@.take(i + 1));
            }
            i = i + 1;
        }
        proof {
            assert(damage_map@ =~= self.damage_map@);
        }
        Weapon { damage_map, range: self.range, weapon_enum: self.weapon_enum }
    }
}

impl WeaponEnum {
    /// The position of each weapon kind in the draft-phase cycling order.
    pub open spec fn spec_index(&self) -> u8 {
        match self {
            WeaponEnum::Sword => 0u8,
            WeaponEnum::Axe => 1u8,
            WeaponEnum::Dagger => 2u8,
            WeaponEnum::Shield => 3u8,
            WeaponEnum::Bow => 4u8,
            WeaponEnum::Crossbow => 5u8,
            WeaponEnum::Slingshot => 6u8,
            WeaponEnum::Javelin => 7u8,
        }
    }

    /// The weapon kind at a position of the cycling order.
    pub open spec fn spec_of_index(weapon_index: u8) -> WeaponEnum {
        if weapon_index == 0 {
            WeaponEnum::Sword
        } else if weapon_index == 1 {
            WeaponEnum::Axe
        } else if weapon_index == 2 {
            WeaponEnum::Dagger
        } else if weapon_index == 3 {
            WeaponEnum::Shield
        } else if weapon_index == 4 {
            WeaponEnum::Bow
        } else if weapon_index == 5 {
            WeaponEnum::Crossbow
        } else if weapon_index == 6 {
            WeaponEnum::Slingshot
        } else {
            WeaponEnum::Javelin
        }
    }

    pub fn get_index(&self) -> (r: u8)
        ensures
            r == self.spec_index(),
    {
        match self {
            WeaponEnum::Sword => 0,
            WeaponEnum::Axe => 1,
            WeaponEnum::Dagger => 2,
            WeaponEnum::Shield => 3,
            WeaponEnum::Bow => 4,
            WeaponEnum::Crossbow => 5,
            WeaponEnum::Slingshot => 6,
            WeaponEnum::Javelin => 7,
        }
    }

    /// The icon name of each weapon kind, as the asset files spell it.
    pub open spec fn spec_icon_name(weapon_enum: WeaponEnum) -> Seq<char> {
        match weapon_enum {
            WeaponEnum::Sword => "sword"@,
            WeaponEnum::Axe => "axe"@,
            WeaponEnum::Dagger => "dagger"@,
            WeaponEnum::Shield => "shield"@,
            WeaponEnum::Bow => "bow"@,
            WeaponEnum::Crossbow => "crossbow"@,
            WeaponEnum::Slingshot => "slingshot"@,
            WeaponEnum::Javelin => "javelin"@,
        }
    }

    /// The icon placement of each weapon kind on the draft screen.
    pub open spec fn spec_icon_rect(weapon_enum: WeaponEnum) -> UiRect {
        match weapon_enum {
            WeaponEnum::Bow => UiRect { x: 20i32, y: 60i32, w: 10u32, h: 5u32 },
            _ => UiRect { x: 20i32, y: 60i32, w: 5u32, h: 15u32 },
        }
    }

    pub fn get_weapon(weapon_index: u8) -> (r: (Weapon, String, UiRect))
        requires
            weapon_index <= 7,
        ensures
            r.0.weapon_enum == WeaponEnum::spec_of_index(weapon_index),
            r.0.wf(),
            r.1@ == WeaponEnum::spec_icon_name(WeaponEnum::spec_of_index(weapon_index)),
            r.2 == WeaponEnum::spec_icon_rect(WeaponEnum::spec_of_index(weapon_index)),
    {
        if weapon_index == 0 {
            (Weapon::from_enum(WeaponEnum::Sword), "sword".to_owned(), UiRect::new(20, 60, 5, 15))
        } else if weapon_index == 1 {
            (Weapon::from_enum(WeaponEnum::Axe), "axe".to_owned(), UiRect::new(20, 60, 5, 15))
        } else if weapon_index == 2 {
            (Weapon::from_enum(WeaponEnum::Dagger), "dagger".to_owned(), UiRect::new(20, 60, 5, 15))
        } else if weapon_index == 3 {
            (Weapon::from_enum(WeaponEnum::Shield), "shield".to_owned(), UiRect::new(20, 60, 5, 15))
        } else if weapon_index == 4 {
            (Weapon::from_enum(WeaponEnum::Bow), "bow".to_owned(), UiRect::new(20, 60, 10, 5))
        } else if weapon_index == 5 {
            (Weapon::from_enum(WeaponEnum::Crossbow), "crossbow".to_owned(), UiRect::new(20, 60, 5, 15))
        } else if weapon_index == 6 {
            (Weapon::from_enum(WeaponEnum::Slingshot), "slingshot".to_owned(), UiRect::new(20, 60, 5, 15))
        } else {
            (Weapon::from_enum(WeaponEnum::Javelin), "javelin".to_owned(), UiRect::new(20, 60, 5, 15))
        }
    }
}

/// Cycling a weapon index back maps to the weapon it names: the two
/// directions of the draft-phase index mapping agree.
pub proof fn lemma_weapon_index_round_trip(weapon_enum: WeaponEnum, weapon_index: u8)
    requires
        weapon_index <= 7,
    ensures
        WeaponEnum::spec_of_index(weapon_enum.spec_index()) == weapon_enum,
        WeaponEnum::spec_of_index(weapon_index).spec_index() == weapon_index,
{
}

#[derive(Debug)]
pub struct WeaponInfo {
    pub weapon: Weapon,
    pub weapon_texture: u64,
    pub weapon_rect: UiRect,
}

impl WeaponInfo {
    /// Value equality: equal weapons and the same icon handle and placement.
    pub open spec fn eqv(&self, other: &WeaponInfo) -> bool {
        &&& self.weapon.eqv(&other.weapon)
        &&& self.weapon_texture == other.weapon_texture
        &&& self.weapon_rect == other.weapon_rect
    }

    pub fn new(weapon: Weapon, weapon_texture: u64, weapon_rect: UiRect) -> (r: WeaponInfo)
        ensures
            r.weapon == weapon,
            r.weapon_texture == weapon_texture,
            r.weapon_rect == weapon_rect,
    {
        WeaponInfo { weapon, weapon_texture, weapon_rect }
    }

    pub fn default(texture: u64) -> (r: WeaponInfo)
        ensures
            r.weapon.weapon_enum == WeaponEnum::Sword,
            r.weapon.wf(),
            r.weapon_texture == texture,
            r.weapon_rect == WeaponEnum::spec_icon_rect(WeaponEnum::Sword),
    {
        let (weapon, _, weapon_rect) = WeaponEnum::get_weapon(0);
        WeaponInfo { weapon, weapon_texture: texture, weapon_rect }
    }

    pub fn duplicate(&self) -> (r: WeaponInfo)
        ensures
            r.eqv(self),
    {
        WeaponInfo {
            weapon: self.weapon.duplicate(),
            weapon_texture: self.weapon_texture,
            weapon_rect: self.weapon_rect,
        }
    }
}

} // verus!
