//! The "Game over" overlay appears when game over is requested with no lives
//! left, once.

use vstd::prelude::*;

verus! {

/// Whether to show the overlay this frame: game over was requested, the
/// lives are known and gone, and no overlay is shown yet.
pub fn should_spawn_game_over_overlay(
    game_over_requested: bool,
    lives_remaining: Option<u8>,
    overlay_exists: bool,
) -> (r: bool)
    ensures
        r == (game_over_requested && lives_remaining == Some(0u8) && !overlay_exists),
{
    if !game_over_requested {
        return false;
    }
    match lives_remaining {
        Some(l) => l == 0 && !overlay_exists,
        None => false,
    }
}

} // verus!
