use vstd::prelude::*;

verus! {

/// Whether the simulation runs or waits on the title screen.
#[derive(Clone, Copy, Debug, PartialEq, Eq, Hash, Structural)]
pub enum GameState {
    Paused,
    Playing,
}

impl GameState {
    /// The state a session starts in.
    pub fn initial() -> (r: GameState)
        ensures
            r == GameState::Paused,
    {
        GameState::Paused
    }
}

/// The state after one frame of input: the pause key pauses, the confirm key
/// starts; when both are pressed in one frame the confirm key wins.
pub open spec fn spec_next_state(state: GameState, pause_pressed: bool, confirm_pressed: bool) -> GameState {
    if confirm_pressed {
        GameState::Playing
    } else if pause_pressed {
        GameState::Paused
    } else {
        state
    }
}

pub fn next_state(state: GameState, pause_pressed: bool, confirm_pressed: bool) -> (r: GameState)
    ensures
        r == spec_next_state(state, pause_pressed, confirm_pressed),
{
    let mut next = state;
    if pause_pressed {
        next = GameState::Paused;
    }
    if confirm_pressed {
        next = GameState::Playing;
    }
    next
}

/// The physics pipeline steps only while the game is being played.
pub fn physics_active(state: GameState) -> (r: bool)
    ensures
        r == (state == GameState::Playing),
{
    match state {
        GameState::Playing => true,
        GameState::Paused => false,
    }
}

} // verus!
