//! The unit ("bud") entity and its turn-lifecycle state machine.
//!
//! A bud is inactive by default, becomes active when its turn starts,
//! accepts one tile of movement per key-down edge while its budget lasts,
//! declares an attack on the tile ahead when its turn ends, and dies — once,
//! on the first turn boundary that finds it at zero health — by leaving the
//! collision registry for good.

use vstd::prelude::*;
use crate::bud_data::{BudData, InitialBudData};
use crate::collisions::{Collider, Collisions};
use crate::effects::Effect;
use crate::grid::{Direction, GridPoint};
use crate::input::{FrameInput, KeyState};

verus! {

/// A key latch after one frame: a fresh press engages it, a release clears
/// it, anything else leaves it.
pub open spec fn spec_latch(prev: bool, k: KeyState) -> bool {
    if k is Pressed && !prev {
        true
    } else if k is Released {
        false
    } else {
        prev
    }
}

/// Whether a key counts as newly pressed this frame: pressed now and not
/// still latched from an earlier frame.
pub open spec fn spec_trigger(prev: bool, k: KeyState) -> bool {
    k is Pressed && !prev
}

/// One latch update, as `spec_latch` describes it.
fn latch_step(prev: bool, k: KeyState) -> (r: bool)
    ensures
        r == spec_latch(prev, k),
{
    if k.is_pressed() && !prev {
        true
    } else if k.is_released() {
        false
    } else {
        prev
    }
}

/// One trigger test, as `spec_trigger` describes it.
fn trigger_step(prev: bool, k: KeyState) -> (r: bool)
    ensures
        r == spec_trigger(prev, k),
{
    k.is_pressed() && !prev
}

pub struct Bud {
    pub position: GridPoint,
    pub bud_data: BudData,
    pub hovered: bool,
    pub pressed: bool,
    pub effects: Vec<Effect>,
    pub moved_up: bool,
    pub moved_down: bool,
    pub moved_left: bool,
    pub moved_right: bool,
    pub direction: Direction,
    pub active: bool,
    pub dead: bool,
}

impl Bud {
    /// The unit invariant: a well-formed stat block, and every battle
    /// effect well formed (expired effects may linger until the next
    /// application pass purges them, but no counter goes negative).
    pub open spec fn wf(&self) -> bool {
        &&& self.bud_data.wf()
        &&& forall|i: int|
            0 <= i < self.effects@.len() ==> (#[trigger] self.effects@[i]).spec_wf()
    }

    pub fn new(position: GridPoint, initial_blud_data: InitialBudData) -> (r: Bud)
        requires
            initial_blud_data.wf(),
        ensures
            r.position == position,
            r.bud_data == (BudData {
                initial: initial_blud_data,
                selected: false,
                max_health: 10u16,
                health: 10u16,
                speed: 3u16,
                damage: 0u16,
            }),
            r.hovered == false,
            r.pressed == false,
            r.effects@ == Seq::<Effect>::empty(),
            !r.moved_up && !r.moved_down && !r.moved_left && !r.moved_right,
            r.direction == Direction::Down,
            r.active == false,
            r.dead == false,
            r.wf(),
    {
        Bud {
            position,
            bud_data: BudData::default(initial_blud_data),
            hovered: false,
            pressed: false,
            effects: Vec::new(),
            moved_up: false,
            moved_down: false,
            moved_left: false,
            moved_right: false,
            direction: Direction::Down,
            active: false,
            dead: false,
        }
    }

    /// The tile one step of `moving` away, when the step is real and the
    /// tile representable.
    pub open spec fn spec_target(&self, moving: GridPoint) -> Option<GridPoint> {
        if moving.x == 0 && moving.y == 0 {
            None
        } else if i32::MIN <= self.position.x + moving.x <= i32::MAX
            && i32::MIN <= self.position.y + moving.y <= i32::MAX {
            Some(GridPoint {
                x: (self.position.x + moving.x) as i32,
                y: (self.position.y + moving.y) as i32,
            })
        } else {
            None
        }
    }

    /// The unit and registry after one movement attempt: a blocked or empty
    /// step changes nothing; an accepted step costs one speed, moves the
    /// unit one tile and moves its registry entry with it.
    pub open spec fn spec_after_move(
        b: Bud,
        me: int,
        moving: GridPoint,
        cs: Seq<Collider>,
    ) -> (Bud, Seq<Collider>) {
        match b.spec_target(moving) {
            Option::None => (b, cs),
            Option::Some(t) => {
                if crate::collisions::occupied_in(cs, t) {
                    (b, cs)
                } else {
                    (
                        Bud {
                            position: t,
                            bud_data: BudData {
                                speed: (b.bud_data.speed - 1) as u16,
                                ..b.bud_data
                            },
                            ..b
                        },
                        cs.update(me, Collider { position: t, ..cs[me] }),
                    )
                }
            },
        }
    }

    /// Attempt one tile of movement. A move into a tile occupied by a
    /// living collidable is rejected outright: no position change and no
    /// speed cost. A move into a free tile costs exactly one speed and
    /// shifts the position by exactly the requested delta.
    pub fn move_bud(&mut self, me: usize, moving: GridPoint, collisions: &mut Collisions)
        requires
            me < old(collisions).colliders@.len(),
            old(self).bud_data.speed > 0 || (moving.x == 0 && moving.y == 0),
        ensures
            *final(self) == Bud::spec_after_move(
                *old(self),
                me as int,
                moving,
                old(collisions).colliders@,
            ).0,
            final(collisions).colliders@ == Bud::spec_after_move(
                *old(self),
                me as int,
                moving,
                old(collisions).colliders@,
            ).1,
    {
        if moving.x == 0 && moving.y == 0 {
            return ;
        }
        let target = match self.position.checked_add(&moving) {
            Some(t) => t,
            None => { return ; },
        };
        if collisions.check_tile(target) {
            return ;
        }
        self.bud_data.speed = self.bud_data.speed - 1;
        self.position = target;
        collisions.set_position(me, target);
    }

    /// The direction a frame of input selects, if any: among the keys newly
    /// pressed this frame, the last one read wins (up, down, left, right are
    /// read in that order).
    pub open spec fn spec_chosen(&self, input: FrameInput) -> Option<Direction> {
        if spec_trigger(self.moved_right, input.right) {
            Some(Direction::Right)
        } else if spec_trigger(self.moved_left, input.left) {
            Some(Direction::Left)
        } else if spec_trigger(self.moved_down, input.down) {
            Some(Direction::Down)
        } else if spec_trigger(self.moved_up, input.up) {
            Some(Direction::Up)
        } else {
            None
        }
    }

    /// The unit after the latch-and-facing part of a movement decision.
    pub open spec fn spec_after_intent(b: Bud, input: FrameInput) -> Bud {
        Bud {
            moved_up: spec_latch(b.moved_up, input.up),
            moved_down: spec_latch(b.moved_down, input.down),
            moved_left: spec_latch(b.moved_left, input.left),
            moved_right: spec_latch(b.moved_right, input.right),
            direction: match b.spec_chosen(input) {
                Some(d) => d,
                None => b.direction,
            },
            ..b
        }
    }

    /// The unit and registry after one full movement decision on one frame
    /// of input.
    pub open spec fn spec_after_decide(
        b: Bud,
        me: int,
        input: FrameInput,
        cs: Seq<Collider>,
    ) -> (Bud, Seq<Collider>) {
        if b.bud_data.speed == 0 {
            (b, cs)
        } else {
            let mid = Bud::spec_after_intent(b, input);
            let moving = match b.spec_chosen(input) {
                Some(d) => d.spec_point(),
                None => GridPoint { x: 0i32, y: 0i32 },
            };
            Bud::spec_after_move(mid, me, moving, cs)
        }
    }

    /// Update the four key latches and the facing from one frame of input,
    /// and hand back the step the frame asks for.
    fn take_intent(&mut self, input: FrameInput) -> (moving: GridPoint)
        ensures
            *final(self) == Bud::spec_after_intent(*old(self), input),
            moving == (match old(self).spec_chosen(input) {
                Some(d) => d.spec_point(),
                None => GridPoint { x: 0i32, y: 0i32 },
            }),
    {
        let up_trig = trigger_step(self.moved_up, input.up);
        let down_trig = trigger_step(self.moved_down, input.down);
        let left_trig = trigger_step(self.moved_left, input.left);
        let right_trig = trigger_step(self.moved_right, input.right);
        self.moved_up = latch_step(self.moved_up, input.up);
        self.moved_down = latch_step(self.moved_down, input.down);
        self.moved_left = latch_step(self.moved_left, input.left);
        self.moved_right = latch_step(self.moved_right, input.right);
        let mut moving = GridPoint::new(0, 0);
        if right_trig {
            moving = GridPoint::new(1, 0);
            self.direction = Direction::Right;
        } else if left_trig {
            moving = GridPoint::new(-1, 0);
            self.direction = Direction::Left;
        } else if down_trig {
            moving = GridPoint::new(0, 1);
            self.direction = Direction::Down;
        } else if up_trig {
            moving = GridPoint::new(0, -1);
            self.direction = Direction::Up;
        }
        moving
    }

    /// Read one frame of directional input and attempt the movement it
    /// asks for. Exactly one directional step is honored per key-down edge:
    /// a held key moves the unit once, not once per frame.
    pub fn decide_move(&mut self, me: usize, input: FrameInput, collisions: &mut Collisions)
        requires
            me < old(collisions).colliders@.len(),
        ensures
            *final(self) == Bud::spec_after_decide(
                *old(self),
                me as int,
                input,
                old(collisions).colliders@,
            ).0,
            final(collisions).colliders@ == Bud::spec_after_decide(
                *old(self),
                me as int,
                input,
                old(collisions).colliders@,
            ).1,
    {
        if self.bud_data.speed > 0 {
            let moving = self.take_intent(input);
            self.move_bud(me, moving, collisions);
        }
    }

    /// How a unit changes when one effect lands on it: the stats take the
    /// effect's change, the spent effect joins the active list, and nothing
    /// else moves.
    pub open spec fn spec_received(pre: Bud, post: Bud, e: Effect) -> bool {
        &&& post.bud_data == e.spec_apply_stat(pre.bud_data)
        &&& post.effects@ == pre.effects@.push(e.spec_dec())
        &&& post.position == pre.position
        &&& post.hovered == pre.hovered
        &&& post.pressed == pre.pressed
        &&& post.moved_up == pre.moved_up
        &&& post.moved_down == pre.moved_down
        &&& post.moved_left == pre.moved_left
        &&& post.moved_right == pre.moved_right
        &&& post.direction == pre.direction
        &&& post.active == pre.active
        &&& post.dead == pre.dead
    }

    /// Take one effect: it applies to this unit's stats at once and joins
    /// the active-effect list with its counter spent by one.
    pub fn add_effect(&mut self, eff: Effect)
        requires
            old(self).wf(),
            eff.spec_is_active(),
            eff.spec_wf(),
        ensures
            final(self).bud_data == eff.spec_apply_stat(old(self).bud_data),
            final(self).effects@ == old(self).effects@.push(eff.spec_dec()),
            *final(self) == (Bud {
                bud_data: final(self).bud_data,
                effects: final(self).effects,
                ..*old(self)
            }),
            Bud::spec_received(*old(self), *final(self), eff),
            final(self).wf(),
    {
        let mut e = eff;
        e.apply_self(&mut self.bud_data);
        self.effects.push(e);
    }

    /// What a collidable does when an impact reaches its tile: the effect
    /// lands on it.
    pub fn on_effected(&mut self, eff: Effect)
        requires
            old(self).wf(),
            eff.spec_is_active(),
            eff.spec_wf(),
        ensures
            final(self).bud_data == eff.spec_apply_stat(old(self).bud_data),
            final(self).effects@ == old(self).effects@.push(eff.spec_dec()),
            *final(self) == (Bud {
                bud_data: final(self).bud_data,
                effects: final(self).effects,
                ..*old(self)
            }),
            Bud::spec_received(*old(self), *final(self), eff),
            final(self).wf(),
    {
        self.add_effect(eff);
    }

    /// Turn start. A unit found at zero health dies here, once: it is
    /// unregistered from the collision registry and reports a skipped turn
    /// from then on. A living unit becomes active. The caller applies its
    /// effects afterwards.
    pub fn start(&mut self, collisions: &mut Collisions) -> (went: bool)
        ensures
            went == (!old(self).dead && old(self).bud_data.health > 0),
            // first boundary at zero health: the one-time death transition
            (!old(self).dead && old(self).bud_data.health == 0) ==> {
                &&& *final(self) == (Bud { dead: true, ..*old(self) })
                &&& final(collisions).colliders@.len() == old(collisions).colliders@.len()
                &&& forall|i: int|
                    0 <= i < old(collisions).colliders@.len()
                        ==> #[trigger] final(collisions).colliders@[i]
                        == if old(collisions).colliders@[i].position == old(self).position {
                        Collider { alive: false, ..old(collisions).colliders@[i] }
                    } else {
                        old(collisions).colliders@[i]
                    }
            },
            // already dead: a no-op skip
            old(self).dead ==> *final(self) == *old(self)
                && final(collisions).colliders@ == old(collisions).colliders@,
            // alive: the unit takes the turn
            (!old(self).dead && old(self).bud_data.health > 0) ==> {
                &&& *final(self) == (Bud { active: true, ..*old(self) })
                &&& final(collisions).colliders@ == old(collisions).colliders@
            },
    {
        if !self.dead && self.bud_data.health == 0 {
            self.dead = true;
            collisions.remove(self.position);
        }
        if self.dead {
            return false;
        }
        self.active = true;
        true
    }

    /// Turn end. Death is checked as at turn start; a dead unit's turn end
    /// is a no-op. A living unit goes inactive, declares an attack on the
    /// tile directly ahead of its facing (when that tile is representable),
    /// and has its per-turn stats reset. The caller resolves the returned
    /// attack tile against the registry.
    pub fn end(&mut self, collisions: &mut Collisions) -> (r: (bool, Option<GridPoint>))
        ensures
            r.0 == (!old(self).dead && old(self).bud_data.health > 0),
            (!old(self).dead && old(self).bud_data.health == 0) ==> {
                &&& *final(self) == (Bud { dead: true, ..*old(self) })
                &&& r.1 is None
                &&& final(collisions).colliders@.len() == old(collisions).colliders@.len()
                &&& forall|i: int|
                    0 <= i < old(collisions).colliders@.len()
                        ==> #[trigger] final(collisions).colliders@[i]
                        == if old(collisions).colliders@[i].position == old(self).position {
                        Collider { alive: false, ..old(collisions).colliders@[i] }
                    } else {
                        old(collisions).colliders@[i]
                    }
            },
            old(self).dead ==> *final(self) == *old(self) && r.1 is None
                && final(collisions).colliders@ == old(collisions).colliders@,
            (!old(self).dead && old(self).bud_data.health > 0) ==> {
                &&& *final(self) == (Bud {
                    active: false,
                    bud_data: BudData::spec_reset(old(self).bud_data),
                    ..*old(self)
                })
                &&& final(collisions).colliders@ == old(collisions).colliders@
                &&& r.1 == old(self).spec_target(old(self).direction.spec_point())
            },
    {
        if !self.dead && self.bud_data.health == 0 {
            self.dead = true;
            collisions.remove(self.position);
        }
        if self.dead {
            return (false, None);
        }
        self.active = false;
        let delta = self.direction.get_point();
        let attack_tile = self.position.checked_add(&delta);
        self.bud_data.reset();
        (true, attack_tile)
    }

    /// Per-frame update: an active unit reads movement input; everyone else
    /// stands still. A unit never asks to leave the scene here — dead units
    /// stay listed, inert, so scene and registry indices keep their meaning.
    pub fn update(&mut self, me: usize, input: FrameInput, collisions: &mut Collisions) -> (keep:
        bool)
        requires
            me < old(collisions).colliders@.len(),
        ensures
            keep,
            old(self).active ==> *final(self) == Bud::spec_after_decide(
                *old(self),
                me as int,
                input,
                old(collisions).colliders@,
            ).0 && final(collisions).colliders@ == Bud::spec_after_decide(
                *old(self),
                me as int,
                input,
                old(collisions).colliders@,
            ).1,
            !old(self).active ==> *final(self) == *old(self)
                && final(collisions).colliders@ == old(collisions).colliders@,
    {
        if self.active {
            self.decide_move(me, input, collisions);
        }
        true
    }

    pub fn get_position(&self) -> (r: GridPoint)
        ensures
            r == self.position,
    {
        self.position
    }

    /// The tile this unit occupies, as the collision registry sees it.
    pub fn get_collider(&self) -> (r: GridPoint)
        ensures
            r == self.position,
    {
        self.position
    }

    pub fn get_pressed(&self) -> (r: (bool, bool))
        ensures
            r == (self.hovered, self.pressed),
    {
        (self.hovered, self.pressed)
    }

    pub fn set_hovered(&mut self, hovered: bool)
        ensures
            *final(self) == (Bud { hovered, ..*old(self) }),
    {
        self.hovered = hovered;
    }

    pub fn set_pressed(&mut self, pressed: bool)
        ensures
            *final(self) == (Bud { pressed, ..*old(self) }),
    {
        self.pressed = pressed;
    }
}

} // verus!
