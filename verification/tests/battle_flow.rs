//! The battle loop end to end: movement blocking, death at the turn
//! boundary, win conditions, round transitions and the draft phase.

use bud_brawl::arena::{ArenaState, STRIKE_DAMAGE};
use bud_brawl::bud::Bud;
use bud_brawl::bud_data::InitialBudData;
use bud_brawl::collisions::{Collider, Collisions};
use bud_brawl::effects::{DamageEffect, StatEffect};
use bud_brawl::game_mode::DeathMatch;
use bud_brawl::grid::GridPoint;
use bud_brawl::input::{FrameInput, KeyState};
use bud_brawl::scene::StateInfo;
use bud_brawl::select::{NameGenerator, SelectState};
use bud_brawl::state::{GameStateEnum, GameStateHandler};
use bud_brawl::view::View;
use bud_brawl::weapon::{WeaponEnum, WeaponInfo};

fn test_profile(team: u8, index: u8) -> InitialBudData {
    let name_generator = NameGenerator::new(vec![String::from("Fletcher")]);
    InitialBudData::default(7, team, index, &name_generator, WeaponInfo::default(3))
}

fn press_down() -> FrameInput {
    FrameInput {
        up: KeyState::Idle,
        down: KeyState::Pressed,
        left: KeyState::Idle,
        right: KeyState::Idle,
    }
}

#[test]
fn movement_into_occupied_tile_is_rejected() {
    let mut collisions = Collisions::new(Vec::new());
    collisions.add(Collider { position: GridPoint::new(0, 0), alive: true });
    collisions.add(Collider { position: GridPoint::new(0, 1), alive: true });
    let mut unit = Bud::new(GridPoint::new(0, 0), test_profile(0, 0));
    assert_eq!(unit.bud_data.speed, 3);
    // blocked: a living collidable stands on the target tile
    unit.move_bud(0, GridPoint::new(0, 1), &mut collisions);
    assert_eq!(unit.get_position(), GridPoint::new(0, 0));
    assert_eq!(unit.bud_data.speed, 3);
    // free: exactly one speed spent, exactly one tile moved
    unit.move_bud(0, GridPoint::new(1, 0), &mut collisions);
    assert_eq!(unit.get_position(), GridPoint::new(1, 0));
    assert_eq!(unit.bud_data.speed, 2);
    // the registry entry moved with the unit
    assert_eq!(collisions.colliders[0].position, GridPoint::new(1, 0));
}

#[test]
fn dead_collidable_does_not_block() {
    let mut collisions = Collisions::new(Vec::new());
    collisions.add(Collider { position: GridPoint::new(0, 0), alive: true });
    collisions.add(Collider { position: GridPoint::new(0, 1), alive: false });
    let mut unit = Bud::new(GridPoint::new(0, 0), test_profile(0, 0));
    unit.move_bud(0, GridPoint::new(0, 1), &mut collisions);
    assert_eq!(unit.get_position(), GridPoint::new(0, 1));
    assert_eq!(unit.bud_data.speed, 2);
}

#[test]
fn one_move_per_key_down_edge() {
    let mut collisions = Collisions::new(Vec::new());
    collisions.add(Collider { position: GridPoint::new(0, 0), alive: true });
    let mut unit = Bud::new(GridPoint::new(0, 0), test_profile(0, 0));
    unit.decide_move(0, press_down(), &mut collisions);
    assert_eq!(unit.get_position(), GridPoint::new(0, 1));
    // the key is still down on the next frame: no further step
    unit.decide_move(0, press_down(), &mut collisions);
    assert_eq!(unit.get_position(), GridPoint::new(0, 1));
    // released and pressed again: one more step
    let released = FrameInput {
        down: KeyState::Released,
        ..press_down()
    };
    unit.decide_move(0, released, &mut collisions);
    unit.decide_move(0, press_down(), &mut collisions);
    assert_eq!(unit.get_position(), GridPoint::new(0, 2));
    assert_eq!(unit.bud_data.speed, 1);
}

#[test]
fn lethal_damage_then_death_at_turn_start() {
    // unit A: health 10, takes a damage-10 effect with one application
    let mut collisions = Collisions::new(Vec::new());
    collisions.add(Collider { position: GridPoint::new(0, 0), alive: true });
    let mut unit = Bud::new(GridPoint::new(0, 0), test_profile(0, 0));
    unit.add_effect(bud_brawl::effects::Effect::Stat(StatEffect::Damage(DamageEffect::new(
        STRIKE_DAMAGE,
    ))));
    assert_eq!(unit.bud_data.health, 0);
    assert!(!unit.dead);
    // the next turn start finds it at zero health: the one-time death
    // transition fires and the unit leaves the collision registry
    let went = unit.start(&mut collisions);
    assert!(!went);
    assert!(unit.dead);
    assert!(!collisions.colliders[0].alive);
    assert!(!collisions.check_tile(GridPoint::new(0, 0)));
    // afterwards the turn start is a plain no-op skip
    let went_again = unit.start(&mut collisions);
    assert!(!went_again);
}

#[test]
fn attack_hits_the_tile_ahead() {
    let mut arena = ArenaState::new(DeathMatch::new(5, Vec::new()));
    // the two units face each other one tile apart on a column
    let mut attacker = test_profile(0, 0);
    attacker.max_speed = 3;
    arena.start((vec![attacker], vec![test_profile(1, 0)]));
    // move the defender right under the attacker's strike: the attacker
    // spawns at (0, 0) facing down, so the tile ahead is (0, 1)
    arena.scene_manager.object_list[1].position = GridPoint::new(0, 1);
    arena.collisions.set_position(1, GridPoint::new(0, 1));
    // first advance: the attacker's turn starts
    assert_eq!(arena.advance(), Some(0));
    // second advance: the attacker's turn ends, striking (0, 1); the
    // defender dies at its own turn start and is excised, so the attacker
    // is up again
    let next = arena.advance();
    assert_eq!(arena.scene_manager.object_list[1].bud_data.health, 0);
    assert_eq!(next, Some(0));
    assert!(arena.scene_manager.object_list[1].dead);
    assert!(!arena.collisions.colliders[1].alive);
    // the dead defender never cycles back into the rotation
    assert_eq!(arena.turn_handler.object_list.len(), 0);
    assert_eq!(arena.turn_handler.current, Some(0));
}

#[test]
fn win_condition_fires_once() {
    let mut arena_units = vec![
        Bud::new(GridPoint::new(0, 0), test_profile(0, 0)),
        Bud::new(GridPoint::new(0, 4), test_profile(1, 0)),
    ];
    arena_units[0].bud_data.health = 0;
    let mut mode = DeathMatch::new(1, Vec::new());
    let si = StateInfo::new();
    let mut handler = GameStateHandler::new();
    let fired = mode.check_done(&si, &arena_units, &mut handler);
    assert!(fired);
    let requested = handler.handle_state();
    assert!(matches!(requested, Some(GameStateEnum::Select(_))));
    // the condition still holds, but the transition must not re-fire
    let fired_again = mode.check_done(&si, &arena_units, &mut handler);
    assert!(!fired_again);
    assert!(handler.handle_state().is_none());
}

#[test]
fn king_mode_needs_all_kings_dead() {
    let mut units = vec![
        Bud::new(GridPoint::new(0, 0), test_profile(0, 0)),
        Bud::new(GridPoint::new(2, 0), test_profile(0, 1)),
        Bud::new(GridPoint::new(0, 4), test_profile(1, 0)),
    ];
    let mut mode = DeathMatch::new(1, vec![0, 1]);
    let si = StateInfo::new();
    let mut handler = GameStateHandler::new();
    units[0].bud_data.health = 0;
    assert!(!mode.check_done(&si, &units, &mut handler));
    units[1].bud_data.health = 0;
    assert!(mode.check_done(&si, &units, &mut handler));
}

#[test]
fn end_round_filters_renumbers_and_credits() {
    let mut units = vec![
        Bud::new(GridPoint::new(0, 0), test_profile(0, 0)),
        Bud::new(GridPoint::new(2, 0), test_profile(0, 1)),
        Bud::new(GridPoint::new(4, 0), test_profile(0, 2)),
        Bud::new(GridPoint::new(0, 4), test_profile(1, 0)),
    ];
    units[1].bud_data.health = 0;
    let si = StateInfo::new();
    let mut handler = GameStateHandler::new();
    si.end_round(&units, &mut handler);
    match handler.handle_state() {
        Some(GameStateEnum::Select((team_zero, team_one))) => {
            assert_eq!(team_zero.len(), 2);
            // the dead slot-1 unit is gone; slot 2 was renumbered to 1
            assert_eq!(team_zero[0].index, 0);
            assert_eq!(team_zero[1].index, 1);
            assert!(team_zero.iter().all(|p| p.rounds == 1));
            assert_eq!(team_one.len(), 1);
            assert_eq!(team_one[0].rounds, 1);
        },
        other => panic!("expected a draft transition, got {:?}", other.is_some()),
    }
}

#[test]
fn random_death_match_is_in_bounds() {
    for _ in 0..30 {
        let mode = DeathMatch::random();
        assert!(1 <= mode.required_kills && mode.required_kills <= 5);
        assert!(mode.kings.len() <= mode.required_kills as usize);
        assert!(mode.kings.iter().all(|k| *k <= 4));
        let mut seen = mode.kings.clone();
        seen.sort();
        seen.dedup();
        assert_eq!(seen.len(), mode.kings.len());
    }
}

#[test]
fn setup_buds_pads_roster_to_five() {
    // a draft with five slots per team and only three filled
    let mut roster = vec![test_profile(0, 0), test_profile(0, 1), test_profile(0, 2)];
    let names = NameGenerator::new(vec![String::from("Rowan")]);
    SelectState::setup_buds(&mut roster, 0, 42, &names, 43);
    assert_eq!(roster.len(), 5);
    for (i, profile) in roster.iter().enumerate() {
        assert_eq!(profile.index as usize, i);
        assert_eq!(profile.team, 0);
    }
    // the padded profiles are generated defaults
    assert_eq!(roster[3].texture, 42);
    assert_eq!(roster[3].name, "Rowan");
    assert_eq!(roster[4].rounds, 0);
    assert_eq!(roster[4].weapon_info.weapon.weapon_enum, WeaponEnum::Sword);
    // a full roster is left alone
    let before = roster.len();
    SelectState::setup_buds(&mut roster, 0, 9, &names, 9);
    assert_eq!(roster.len(), before);
    assert_eq!(roster[3].texture, 42);
}

#[test]
fn weapon_cycling_wraps_and_latches() {
    let mut state = SelectState::new((vec![test_profile(0, 0)], Vec::new()));
    state.select_info.current_bud = Some(0);
    // sword (0) steps back to javelin (7)
    let changed = state.cycle_weapon(KeyState::Pressed, KeyState::Idle);
    assert_eq!(changed, Some(7));
    // the key is still held: no further change
    let held = state.cycle_weapon(KeyState::Pressed, KeyState::Idle);
    assert_eq!(held, None);
    // release re-arms; stepping forward wraps 7 back to 0
    state.cycle_weapon(KeyState::Released, KeyState::Released);
    let forward = state.cycle_weapon(KeyState::Idle, KeyState::Pressed);
    assert_eq!(forward, Some(0));
    let profile = &state.select_info.initial_buds_tuple.0[0];
    assert_eq!(profile.weapon_info.weapon.weapon_enum, WeaponEnum::Sword);
}

#[test]
fn finished_draft_requests_the_arena() {
    let mut select = SelectState::new((vec![test_profile(0, 0)], vec![test_profile(1, 0)]));
    let mut handler = GameStateHandler::new();
    // an unfinished draft requests nothing
    select.run(KeyState::Idle, KeyState::Idle, &mut handler);
    assert!(handler.handle_state().is_none());
    select.select_info.done = true;
    select.run(KeyState::Idle, KeyState::Idle, &mut handler);
    match handler.handle_state() {
        Some(GameStateEnum::Arena((team_zero, team_one))) => {
            assert_eq!(team_zero.len(), 1);
            assert_eq!(team_one.len(), 1);
            assert_eq!(team_zero[0].name, "Fletcher");
        },
        _ => panic!("expected an arena transition"),
    }
}

#[test]
fn transition_applies_once_at_frame_start() {
    let mut handler = GameStateHandler::new();
    assert!(handler.handle_state().is_none());
    handler.new_state(GameStateEnum::Home);
    assert!(matches!(handler.handle_state(), Some(GameStateEnum::Home)));
    assert!(handler.handle_state().is_none());
}

#[test]
fn zoom_steps_once_per_edge() {
    let mut view = View::new();
    // the latch starts disarmed: holding the key does nothing
    assert_eq!(view.move_zoom(4, KeyState::Pressed, KeyState::Idle), 4);
    // a release arms it, the next press doubles the scale
    view.move_zoom(4, KeyState::Released, KeyState::Idle);
    assert_eq!(view.move_zoom(4, KeyState::Pressed, KeyState::Idle), 8);
    // zooming in halves, never below one
    view.move_zoom(8, KeyState::Idle, KeyState::Released);
    assert_eq!(view.move_zoom(8, KeyState::Idle, KeyState::Pressed), 4);
    view.move_zoom(1, KeyState::Idle, KeyState::Released);
    assert_eq!(view.move_zoom(1, KeyState::Idle, KeyState::Pressed), 1);
}

#[test]
fn scene_update_moves_only_the_active_unit() {
    let mut arena = ArenaState::new(DeathMatch::new(5, Vec::new()));
    arena.start((vec![test_profile(0, 0)], vec![test_profile(1, 0)]));
    let started = arena.advance();
    assert_eq!(started, Some(0));
    let mut handler = GameStateHandler::new();
    arena.run(press_down(), &mut handler);
    assert_eq!(arena.scene_manager.object_list[0].position, GridPoint::new(0, 1));
    // the inactive unit stood still
    assert_eq!(arena.scene_manager.object_list[1].position, GridPoint::new(0, 4));
}
