//! The outer game state machine: home screen, draft phase, arena phase.
//!
//! A transition is never applied mid-frame. Whoever decides a transition
//! requests it; the frame loop applies the request once, at the start of the
//! next frame, by exchanging the active screen.

use vstd::prelude::*;
use crate::bud_data::InitialBudData;

verus! {

/// The three screens, with the roster payload the draft and arena phases
/// are initialized from.
pub enum GameStateEnum {
    Home,
    Select((Vec<InitialBudData>, Vec<InitialBudData>)),
    Arena((Vec<InitialBudData>, Vec<InitialBudData>)),
}

/// Holds the deferred "requested next state" flag.
pub struct GameStateHandler {
    pub new_state: Option<GameStateEnum>,
}

impl GameStateHandler {
    pub fn new() -> (r: GameStateHandler)
        ensures
            r.new_state is None,
    {
        GameStateHandler { new_state: None }
    }

    /// Request a transition; it replaces any not-yet-applied request.
    pub fn new_state(&mut self, new_state: GameStateEnum)
        ensures
            final(self).new_state == Some(new_state),
    {
        self.new_state = Some(new_state);
    }

    /// Take the pending request, if any, leaving none behind: the caller
    /// applies at most one transition per frame, at the frame's start.
    pub fn handle_state(&mut self) -> (r: Option<GameStateEnum>)
        ensures
            r == old(self).new_state,
            final(self).new_state is None,
    {
        self.new_state.take()
    }
}

} // verus!
