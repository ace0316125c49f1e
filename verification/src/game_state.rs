//! Top-level game states, the game session and the context carried across
//! a state transition.

use vstd::prelude::*;

verus! {

/// The states of the game.
#[derive(Debug, Clone, Copy, PartialEq, Eq, Hash, Structural)]
pub enum GameState {
    MainMenu,
    Playing,
    Paused,
    FadeOut,
    FadeIn,
    LevelTransition,
    GameOver,
}

impl Default for GameState {
    fn default() -> (s: Self)
        ensures
            s == GameState::MainMenu,
    {
        GameState::MainMenu
    }
}

/// Level, lives and score of the game being played.
#[derive(Debug, Clone, Copy, PartialEq, Eq, Structural)]
pub struct GameSession {
    pub current_level: u32,
    pub lives_remaining: u32,
    pub score: u32,
}

impl Default for GameSession {
    fn default() -> (s: Self)
        ensures
            s.current_level == 1,
            s.lives_remaining == 3,
            s.score == 0,
    {
        GameSession { current_level: 1, lives_remaining: 3, score: 0 }
    }
}

/// Why a state transition was started.
#[derive(Debug, Clone, Copy, PartialEq, Eq, Structural)]
pub enum StateTransitionContext {
    LifeLoss,
    LevelChange { target_level: u32 },
    NewGame,
    ReturnToMenu,
}

} // verus!
