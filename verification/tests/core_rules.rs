//! The arithmetic and bookkeeping rules of the combat core: health
//! saturation, effect expiry, batch removal, and the turn rotation.

use bud_brawl::bud_data::{BudData, InitialBudData};
use bud_brawl::collisions::{Collider, Collisions, Side};
use bud_brawl::effects::{
    AuraEffect, BulwarkEffect, DamageEffect, Effect, FighterEffect, MendingEffect, ScoutEffect,
    SelfEffect, StatEffect,
};
use bud_brawl::grid::{Direction, GridPoint};
use bud_brawl::select::NameGenerator;
use bud_brawl::turns::TurnHandler;
use bud_brawl::weapon::{UiRect, Weapon, WeaponEnum, WeaponInfo};

fn test_profile(team: u8, index: u8) -> InitialBudData {
    let name_generator = NameGenerator::new(vec![String::from("Fletcher")]);
    InitialBudData::default(7, team, index, &name_generator, WeaponInfo::default(3))
}

fn test_bud_data() -> BudData {
    BudData::default(test_profile(0, 0))
}

#[test]
fn health_saturates_at_zero() {
    let mut data = test_bud_data();
    assert_eq!(data.health, 10);
    data.remove_health(3);
    assert_eq!(data.health, 7);
    data.remove_health(9);
    assert_eq!(data.health, 0);
    data.remove_health(5);
    assert_eq!(data.health, 0);
}

#[test]
fn healing_saturates_at_max() {
    let mut data = test_bud_data();
    data.remove_health(6);
    assert_eq!(data.health, 4);
    data.add_health(3);
    assert_eq!(data.health, 7);
    data.add_health(100);
    assert_eq!(data.health, 10);
    data.add_health(1);
    assert_eq!(data.health, 10);
}

#[test]
fn effect_expires_after_exactly_n_applications() {
    let mut data = test_bud_data();
    let mut effect = StatEffect::Damage(DamageEffect { applications: 3, damage: 1 });
    for expected in [true, true, true] {
        assert_eq!(effect.is_active(), expected);
        effect.apply(&mut data);
    }
    assert!(!effect.is_active());
    assert_eq!(data.health, 7);
}

#[test]
fn inactive_effects_are_purged_by_the_pass() {
    // a one-shot damage effect delivered to a unit expires immediately and
    // is dropped on the next application pass
    let mut arena = bud_brawl::arena::ArenaState::new(bud_brawl::game_mode::DeathMatch::new(
        5,
        Vec::new(),
    ));
    arena.start((vec![test_profile(0, 0)], vec![test_profile(1, 0)]));
    arena.resolve_attack(GridPoint::new(0, 0), StatEffect::Damage(DamageEffect::new(1)));
    assert_eq!(arena.scene_manager.object_list[0].effects.len(), 1);
    let first = arena.advance();
    assert_eq!(first, Some(0));
    assert_eq!(arena.scene_manager.object_list[0].effects.len(), 0);
}

#[test]
fn profile_aura_broadcasts_to_the_others() {
    // unit 0 carries an equipped aura wrapping a damage-buff effect
    let mut donor = test_profile(0, 0);
    donor.add_effect(
        Effect::Aura(AuraEffect::new(StatEffect::Fighter(FighterEffect::new()))),
        None,
    );
    let mut arena = bud_brawl::arena::ArenaState::new(bud_brawl::game_mode::DeathMatch::new(
        5,
        Vec::new(),
    ));
    arena.start((vec![donor], vec![test_profile(1, 0)]));
    assert_eq!(arena.advance(), Some(0));
    // the carrier's own stats are untouched by its aura ...
    assert_eq!(arena.scene_manager.object_list[0].bud_data.damage, 0);
    // ... but the other unit received the wrapped effect
    assert_eq!(arena.scene_manager.object_list[1].bud_data.damage, 1);
    assert_eq!(arena.scene_manager.object_list[1].effects.len(), 1);
    // the receiver's own turn end clears the bonus again, and the equipped
    // aura re-applies fresh on the carrier's next turn
    assert_eq!(arena.advance(), Some(1));
    assert_eq!(arena.advance(), Some(0));
    assert_eq!(arena.scene_manager.object_list[1].bud_data.damage, 1);
}

#[test]
fn battle_aura_spends_its_counter() {
    let mut arena = bud_brawl::arena::ArenaState::new(bud_brawl::game_mode::DeathMatch::new(
        5,
        Vec::new(),
    ));
    arena.start((vec![test_profile(0, 0)], vec![test_profile(1, 0)]));
    // a battle-scoped aura lands on unit 0 with two applications; the
    // delivery itself spends the first and forwards the wrapped speed buff
    // to the other unit at once
    let aura = Effect::Aura(AuraEffect::new(StatEffect::Scout(ScoutEffect::new())));
    arena.deliver_effect(0, aura);
    assert_eq!(arena.scene_manager.object_list[1].bud_data.speed, 4);
    // the carrier's turn start broadcasts again and spends the last one
    assert_eq!(arena.advance(), Some(0));
    assert_eq!(arena.scene_manager.object_list[1].bud_data.speed, 5);
    // spent, the aura is purged and never broadcasts again
    assert!(arena.scene_manager.object_list[0].effects.is_empty());
    assert_eq!(arena.advance(), Some(1));
    assert_eq!(arena.advance(), Some(0));
    // the receiver's own turn end restored its movement budget
    assert_eq!(arena.scene_manager.object_list[1].bud_data.speed, 3);
}

#[test]
fn effect_constructors_have_one_application() {
    assert_eq!(DamageEffect::new(4).applications, 1);
    assert_eq!(DamageEffect::new(4).damage, 4);
    assert_eq!(FighterEffect::new().damage, 1);
    assert_eq!(BulwarkEffect::new().health, 1);
    assert_eq!(ScoutEffect::new().speed, 1);
    assert_eq!(MendingEffect::new().healing, 1);
    assert_eq!(AuraEffect::new(StatEffect::Passive(SelfEffect::new())).applications, 2);
}

#[test]
fn buffs_add_to_their_stats() {
    let mut data = test_bud_data();
    StatEffect::Fighter(FighterEffect::new()).apply(&mut data);
    StatEffect::Bulwark(BulwarkEffect::new()).apply(&mut data);
    StatEffect::Scout(ScoutEffect::new()).apply(&mut data);
    assert_eq!(data.damage, 1);
    assert_eq!(data.max_health, 11);
    assert_eq!(data.speed, 4);
    StatEffect::Passive(SelfEffect::new()).apply(&mut data);
    assert_eq!(data.health, 10);
    assert_eq!(data.damage, 1);
}

fn ten_colliders() -> Collisions {
    let mut c = Collisions::new(Vec::new());
    for i in 0..10 {
        c.add(Collider { position: GridPoint::new(i, 0), alive: true });
    }
    c
}

#[test]
fn batch_removal_matches_individual_removal() {
    // one compensated pass over [2, 5, 7] ...
    let mut batch = ten_colliders();
    batch.remove_all(&[2, 5, 7]);
    // ... equals removing 7, then 5, then 2, one at a time
    let mut single: Vec<i32> = (0..10).collect();
    single.remove(7);
    single.remove(5);
    single.remove(2);
    assert_eq!(batch.colliders.len(), 7);
    let got: Vec<i32> = batch.colliders.iter().map(|c| c.position.x).collect();
    assert_eq!(got, single);
    assert_eq!(got, vec![0, 1, 3, 4, 6, 8, 9]);
}

#[test]
fn turn_rotation_starts_everyone_once() {
    let mut handler = TurnHandler::new();
    for i in 0..4 {
        handler.add(i);
    }
    let mut starts = Vec::new();
    let mut ends = Vec::new();
    for _ in 0..4 {
        let (ended, started) = handler.next_turn();
        if let Some(e) = ended {
            ends.push(e);
        }
        starts.push(started);
    }
    assert_eq!(starts, vec![0, 1, 2, 3]);
    assert_eq!(ends, vec![0, 1, 2]);
    assert_eq!(handler.current, Some(3));
    assert_eq!(handler.object_list, vec![0, 1, 2]);
}

#[test]
fn side_not_flips() {
    assert_eq!(Side::Top.not(), Side::Bottom);
    assert_eq!(Side::Bottom.not(), Side::Top);
    assert_eq!(Side::Left.not(), Side::Right);
    assert_eq!(Side::Right.not(), Side::Left);
}

#[test]
fn direction_deltas_are_unit_steps() {
    assert_eq!(Direction::Up.get_point(), GridPoint::new(0, -1));
    assert_eq!(Direction::Down.get_point(), GridPoint::new(0, 1));
    assert_eq!(Direction::Left.get_point(), GridPoint::new(-1, 0));
    assert_eq!(Direction::Right.get_point(), GridPoint::new(1, 0));
}

#[test]
fn grid_point_checked_add() {
    let p = GridPoint::new(3, -2);
    assert_eq!(p.checked_add(&GridPoint::new(1, 1)), Some(GridPoint::new(4, -1)));
    let edge = GridPoint::new(i32::MAX, 0);
    assert_eq!(edge.checked_add(&GridPoint::new(1, 0)), None);
}

#[test]
fn weapon_index_round_trips() {
    let kinds = [
        WeaponEnum::Sword,
        WeaponEnum::Axe,
        WeaponEnum::Dagger,
        WeaponEnum::Shield,
        WeaponEnum::Bow,
        WeaponEnum::Crossbow,
        WeaponEnum::Slingshot,
        WeaponEnum::Javelin,
    ];
    for (i, kind) in kinds.iter().enumerate() {
        assert_eq!(kind.get_index() as usize, i);
        let (weapon, _, _) = WeaponEnum::get_weapon(i as u8);
        assert_eq!(weapon.weapon_enum.get_index() as usize, i);
    }
}

#[test]
fn weapon_names_and_maps() {
    let (weapon, name, rect) = WeaponEnum::get_weapon(0);
    assert_eq!(name, "sword");
    assert_eq!(rect, UiRect::new(20, 60, 5, 15));
    assert_eq!(weapon.range, 0);
    assert_eq!(weapon.damage_map, vec![(GridPoint::new(0, 1), 3), (GridPoint::new(0, 2), 3)]);
    let bow = Weapon::from_enum(WeaponEnum::Bow);
    assert_eq!(bow.range, 6);
    let (_, bow_name, bow_rect) = WeaponEnum::get_weapon(4);
    assert_eq!(bow_name, "bow");
    assert_eq!(bow_rect, UiRect::new(20, 60, 10, 5));
    let duplicate = bow.duplicate();
    assert_eq!(duplicate.damage_map, bow.damage_map);
    assert_eq!(duplicate.range, bow.range);
}

#[test]
fn name_generator_picks_from_list() {
    let empty = NameGenerator::new(Vec::new());
    assert_eq!(empty.selectRandName(), "Hello");
    let names = vec![String::from("Ash"), String::from("Brook"), String::from("Cedar")];
    let generator = NameGenerator::new(names.clone());
    for _ in 0..20 {
        let picked = generator.selectRandName();
        assert!(names.contains(&picked));
    }
}

#[test]
fn profile_effect_slots_fill_and_clear() {
    let mut profile = test_profile(0, 0);
    let fighter = Effect::Stat(StatEffect::Fighter(FighterEffect::new()));
    profile.add_effect(fighter, Some(11));
    profile.add_effect(fighter, None);
    profile.add_effect(fighter, Some(12));
    assert!(profile.effects.iter().all(|slot| slot.is_some()));
    // a fourth effect no longer fits
    profile.add_effect(fighter, Some(13));
    assert_eq!(profile.effect_textures[0], Some(11));
    assert_eq!(profile.effect_textures[1], None);
    assert_eq!(profile.effect_textures[2], Some(12));
    profile.clear_effects();
    assert!(profile.effects.iter().all(|slot| slot.is_none()));
}

#[test]
fn new_round_credits_survivor() {
    let mut profile = test_profile(1, 4);
    profile.new_round(2);
    assert_eq!(profile.rounds, 1);
    assert_eq!(profile.index, 2);
    assert_eq!(profile.team, 1);
}
