//! Game rules of the brkrs brick-breaker: level matrices, brick behaviour,
//! scoring, lives and respawn scheduling, game-state transitions, pause,
//! level switching and audio bookkeeping, each with a verified contract.

pub mod game_state;
pub mod level_format;
pub mod text;
pub mod ui;
pub mod level_loader;
pub mod pause;
pub mod random;
pub mod signals;
pub mod systems;
