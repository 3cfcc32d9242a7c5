//! The collision registry: a flat lookup of collidable entities by tile.
//!
//! The registry owns no entities. Entry `i` stands for scene entity `i`; the
//! two lists are removed from in step so the indices stay synchronized. An
//! entity that dies is unregistered by clearing its `alive` flag, so it
//! stops blocking movement and receiving impacts without disturbing the
//! index correspondence.

use vstd::prelude::*;
use crate::grid::GridPoint;
use crate::removal::{remove_all_in, remove_desc, valid_removal};

verus! {

/// A side of a tile-aligned box.
#[derive(Clone, Copy, PartialEq, Eq, Structural, Debug)]
pub enum Side {
    Top,
    Bottom,
    Right,
    Left,
}

impl Side {
    pub open spec fn spec_not(&self) -> Side {
        match self {
            Side::Top => Side::Bottom,
            Side::Bottom => Side::Top,
            Side::Right => Side::Left,
            Side::Left => Side::Right,
        }
    }

    /// The opposite side.
    pub fn not(&self) -> (r: Side)
        ensures
            r == self.spec_not(),
    {
        match self {
            Side::Top => Side::Bottom,
            Side::Bottom => Side::Top,
            Side::Right => Side::Left,
            Side::Left => Side::Right,
        }
    }
}

/// One registered collidable: its current tile and whether it still counts
/// (a dead entity keeps its slot but no longer collides).
#[derive(Clone, Copy, PartialEq, Eq, Structural, Debug)]
pub struct Collider {
    pub position: GridPoint,
    pub alive: bool,
}

/// Whether some living entry of the list stands on the given tile.
pub open spec fn occupied_in(cs: Seq<Collider>, position: GridPoint) -> bool {
    exists|i: int|
        0 <= i < cs.len() && #[trigger] cs[i].alive && cs[i].position == position
}

/// The registry itself: one entry per registered scene entity, in scene
/// order.
pub struct Collisions {
    pub colliders: Vec<Collider>,
}

impl Collisions {
    /// Whether a living occupant blocks the given tile.
    pub open spec fn spec_occupied(&self, position: GridPoint) -> bool {
        occupied_in(self.colliders@, position)
    }

    pub fn new(colliders: Vec<Collider>) -> (r: Collisions)
        ensures
            r.colliders == colliders,
    {
        Collisions { colliders }
    }

    /// Register one more collidable at the back, mirroring a scene add.
    pub fn add(&mut self, col: Collider)
        ensures
            final(self).colliders@ == old(self).colliders@.push(col),
    {
        self.colliders.push(col);
    }

    /// Drop the entries at the listed (ascending) indices in one
    /// shift-compensated pass, mirroring the same removal on the scene list.
    pub fn remove_all(&mut self, indexes: &[usize])
        requires
            valid_removal(
                indexes@.map_values(|u: usize| u as int),
                old(self).colliders@.len() as int,
            ),
        ensures
            final(self).colliders@ == remove_desc(
                old(self).colliders@,
                indexes@.map_values(|u: usize| u as int),
            ),
    {
        remove_all_in(&mut self.colliders, indexes);
    }

    /// Unregister whatever stands on the given tile: entries there stop
    /// colliding but keep their slot.
    pub fn remove(&mut self, position: GridPoint)
        ensures
            final(self).colliders@.len() == old(self).colliders@.len(),
            forall|i: int|
                0 <= i < old(self).colliders@.len() ==> #[trigger] final(self).colliders@[i]
                    == if old(self).colliders@[i].position == position {
                    Collider { alive: false, ..old(self).colliders@[i] }
                } else {
                    old(self).colliders@[i]
                },
    {
        let n = self.colliders.len();
        let mut i: usize = 0;
        while i < n
            invariant
                i <= n,
                n == self.colliders@.len(),
                self.colliders@.len() == old(self).colliders@.len(),
                forall|k: int|
                    0 <= k < i ==> #[trigger] self.colliders@[k]
                        == if old(self).colliders@[k].position == position {
                        Collider { alive: false, ..old(self).colliders@[k] }
                    } else {
                        old(self).colliders@[k]
                    },
                forall|k: int|
                    i <= k < n ==> #[trigger] self.colliders@[k] == old(self).colliders@[k],
            decreases n - i,
    {
            if self.colliders[i].position.x == position.x
                && self.colliders[i].position.y == position.y {
                let entry = self.colliders[i];
                self.colliders[i] = Collider { alive: false, ..entry };
            }
            i = i + 1;
        }
    }

    /// Update the tile of one registered entity, after it moved.
    pub fn set_position(&mut self, index: usize, position: GridPoint)
        requires
            index < old(self).colliders@.len(),
        ensures
            final(self).colliders@ == old(self).colliders@.update(
                index as int,
                Collider { position, ..old(self).colliders@[index as int] },
            ),
    {
        let entry = self.colliders[index];
        self.colliders[index] = Collider { position, ..entry };
    }

    /// Whether movement into the tile is blocked by a living occupant.
    pub fn check_tile(&self, position: GridPoint) -> (r: bool)
        ensures
            r == self.spec_occupied(position),
    {
        let n = self.colliders.len();
        let mut i: usize = 0;
        while i < n
            invariant
                i <= n,
                n == self.colliders@.len(),
                forall|k: int|
                    0 <= k < i ==> !(#[trigger] self.colliders@[k].alive
                        && self.colliders@[k].position == position),
            decreases n - i,
        {
            if self.colliders[i].alive && self.colliders[i].position.x == position.x
                && self.colliders[i].position.y == position.y {
                return true;
            }
            i = i + 1;
        }
        false
    }

    /// The indices of every living registered entity standing on the tile,
    /// in ascending order: the targets an impact on that tile reaches.
    pub fn impact_tile(&self, position: GridPoint) -> (r: Vec<usize>)
        ensures
            forall|j: int|
                0 <= j < r@.len() ==> 0 <= #[trigger] r@[j] < self.colliders@.len()
                    && self.colliders@[r@[j] as int].alive
                    && self.colliders@[r@[j] as int].position == position,
            forall|i: int|
                0 <= i < self.colliders@.len() && #[trigger] self.colliders@[i].alive
                    && self.colliders@[i].position == position ==> exists|j: int|
                    0 <= j < r@.len() && r@[j] == i,
            forall|a: int, b: int| 0 <= a < b < r@.len() ==> r@[a] < r@[b],
    {
        let n = self.colliders.len();
        let mut r: Vec<usize> = Vec::new();
        let mut i: usize = 0;
        while i < n
            invariant
                i <= n,
                n == self.colliders@.len(),
                forall|j: int|
                    0 <= j < r@.len() ==> 0 <= #[trigger] r@[j] < i
                        && self.colliders@[r@[j] as int].alive
                        && self.colliders@[r@[j] as int].position == position,
                forall|k: int|
                    0 <= k < i && #[trigger] self.colliders@[k].alive
                        && self.colliders@[k].position == position ==> exists|j: int|
                        0 <= j < r@.len() && r@[j] == k,
                forall|a: int, b: int| 0 <= a < b < r@.len() ==> r@[a] < r@[b],
            decreases n - i,
        {
            let ghost prev = r@;
            if self.colliders[i].alive && self.colliders[i].position.x == position.x
                && self.colliders[i].position.y == position.y {
                r.push(i);
                proof {
                    assert(r@[r@.len() - 1] == i as int);
                    assert forall|k: int|
                        0 <= k < i + 1 && #[trigger] self.colliders@[k].alive
                            && self.colliders@[k].position == position implies exists|j: int|
                        0 <= j < r@.len() && r@[j] == k by {
                        if k < i {
                            let j0 = choose|j: int| 0 <= j < prev.len() && prev[j] == k;
                            assert(r@[j0] == k);
                        } else {
                            assert(r@[r@.len() - 1] == k);
                        }
                    }
                }
            }
            i = i + 1;
        }
        r
    }

    /// The tiles of all registered entities, in registry order.
    pub fn get_squares(&self) -> (r: Vec<GridPoint>)
        ensures
            r@ == self.colliders@.map_values(|c: Collider| c.position),
    {
        let n = self.colliders.len();
        let mut r: Vec<GridPoint> = Vec::new();
        let mut i: usize = 0;
        while i < n
            invariant
                i <= n,
                n == self.colliders@.len(),
                r@ == self.colliders@.take(i as int).map_values(|c: Collider| c.position),
            decreases n - i,
        {
            r.push(self.colliders[i].position);
            proof {
                assert(self.colliders@.take(i + 1).map_values(|c: Collider| c.position)
                    =~= self.colliders@.take(i as int).map_values(|c: Collider| c.position)
                        .push(self.colliders@[i as int].position));
            }
            i = i + 1;
        }
        proof {
            assert(self.colliders@.take(n as int) =~= self.colliders@);
        }
        r
    }
}

} // verus!
