//! Menu screens: what the main menu's and the game-over screen's keys and
//! buttons do.

use vstd::prelude::*;

use crate::game_state::{GameState, StateTransitionContext};

pub mod game_over;
pub mod main_menu;

verus! {

/// The menu keys pressed this frame.
#[derive(Debug, Clone, Copy, PartialEq, Eq, Structural)]
pub struct MenuKeys {
    pub enter: bool,
    pub numpad_enter: bool,
    pub space: bool,
    pub escape: bool,
    pub key_q: bool,
}

/// Whether a confirming key (Enter, keypad Enter, Space) was pressed.
pub open spec fn spec_confirm_pressed(keys: Option<MenuKeys>) -> bool {
    match keys {
        Some(k) => k.enter || k.numpad_enter || k.space,
        None => false,
    }
}

pub fn confirm_pressed(keys: Option<MenuKeys>) -> (r: bool)
    ensures
        r == spec_confirm_pressed(keys),
{
    match keys {
        Some(k) => k.enter || k.numpad_enter || k.space,
        None => false,
    }
}

/// What a menu screen does this frame.
#[derive(Debug, Clone, Copy, PartialEq, Eq, Structural)]
pub enum MenuOutcome {
    /// Nothing leaves the screen.
    Stay,
    /// Quit the application.
    Exit,
    /// Record the context and move to the next state.
    Transition { context: StateTransitionContext, next: GameState },
}

} // verus!
