//! Integer tile-space coordinates and facing directions.

use vstd::prelude::*;

verus! {

/// A position in tile space. Distinct from any continuous world-space
/// position, which is a concern of the renderer, not of the game rules.
#[derive(Clone, Copy, PartialEq, Eq, Structural, Debug)]
pub struct GridPoint {
    pub x: i32,
    pub y: i32,
}

impl GridPoint {
    pub fn new(x: i32, y: i32) -> (p: GridPoint)
        ensures
            p.x == x,
            p.y == y,
    {
        GridPoint { x, y }
    }

    /// The tile reached by walking one step along `other`, when that tile is
    /// representable; `None` when the sum would leave the coordinate range.
    pub fn checked_add(&self, other: &GridPoint) -> (r: Option<GridPoint>)
        ensures
            match r {
                Some(p) => p.x == self.x + other.x && p.y == self.y + other.y,
                None => !(i32::MIN <= self.x + other.x <= i32::MAX
                    && i32::MIN <= self.y + other.y <= i32::MAX),
            },
    {
        match (self.x.checked_add(other.x), self.y.checked_add(other.y)) {
            (Some(x), Some(y)) => Some(GridPoint { x, y }),
            _ => None,
        }
    }
}

/// The four facing directions a unit can hold.
#[derive(Clone, Copy, PartialEq, Eq, Structural, Debug)]
pub enum Direction {
    Up,
    Right,
    Left,
    Down,
}

impl Direction {
    /// The unit delta of one step in this direction. The y axis grows
    /// downwards, as on the screen.
    pub fn get_point(&self) -> (p: GridPoint)
        ensures
            p == self.spec_point(),
    {
        match self {
            Direction::Up => GridPoint { x: 0, y: -1 },
            Direction::Right => GridPoint { x: 1, y: 0 },
            Direction::Left => GridPoint { x: -1, y: 0 },
            Direction::Down => GridPoint { x: 0, y: 1 },
        }
    }

    pub open spec fn spec_point(&self) -> GridPoint {
        match self {
            Direction::Up => GridPoint { x: 0i32, y: -1i32 },
            Direction::Right => GridPoint { x: 1i32, y: 0i32 },
            Direction::Left => GridPoint { x: -1i32, y: 0i32 },
            Direction::Down => GridPoint { x: 0i32, y: 1i32 },
        }
    }
}

} // verus!
