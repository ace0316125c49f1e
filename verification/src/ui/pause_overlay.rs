//! The "PAUSED" overlay: shown while paused, unless the game-over overlay is
//! up, and removed on resume.

use vstd::prelude::*;

use crate::pause::PauseState;

verus! {

/// Whether to show the pause overlay this frame.
pub fn should_spawn_pause_overlay(
    state: PauseState,
    overlay_exists: bool,
    game_over_shown: bool,
) -> (r: bool)
    ensures
        r == (!game_over_shown && state is Paused && !overlay_exists),
{
    if game_over_shown {
        return false;
    }
    match state {
        PauseState::Paused { .. } => !overlay_exists,
        PauseState::Active => false,
    }
}

/// Whether to remove the pause overlay this frame.
pub fn should_despawn_pause_overlay(state: PauseState) -> (r: bool)
    ensures
        r == (state == PauseState::Active),
{
    match state {
        PauseState::Active => true,
        PauseState::Paused { .. } => false,
    }
}

} // verus!
