//! Plain values describing the edge-triggered key states the host's input
//! collaborator reports each frame.

use vstd::prelude::*;

verus! {

/// The state of one key on one frame: freshly pressed, freshly released, or
/// neither. The host derives these from its event queue.
#[derive(Clone, Copy, PartialEq, Eq, Structural, Debug)]
pub enum KeyState {
    Idle,
    Pressed,
    Released,
}

impl KeyState {
    pub open spec fn spec_is_pressed(&self) -> bool {
        *self is Pressed
    }

    pub open spec fn spec_is_released(&self) -> bool {
        *self is Released
    }

    pub fn is_pressed(&self) -> (r: bool)
        ensures
            r == self.spec_is_pressed(),
    {
        matches!(self, KeyState::Pressed)
    }

    pub fn is_released(&self) -> (r: bool)
        ensures
            r == self.spec_is_released(),
    {
        matches!(self, KeyState::Released)
    }
}

/// The four directional keys of one frame.
#[derive(Clone, Copy, PartialEq, Eq, Structural, Debug)]
pub struct FrameInput {
    pub up: KeyState,
    pub down: KeyState,
    pub left: KeyState,
    pub right: KeyState,
}

impl FrameInput {
    /// A frame on which no directional key changed.
    pub fn idle() -> (r: FrameInput)
        ensures
            r == (FrameInput {
                up: KeyState::Idle,
                down: KeyState::Idle,
                left: KeyState::Idle,
                right: KeyState::Idle,
            }),
    {
        FrameInput {
            up: KeyState::Idle,
            down: KeyState::Idle,
            left: KeyState::Idle,
            right: KeyState::Idle,
        }
    }
}

} // verus!
