//! Gameplay systems: scoring, lives and respawn, cheat mode, level
//! switching, game-state transitions, audio and brick effects.

pub mod audio;
pub mod ball_spawn_bricks;
pub mod brick_effects;
pub mod cheat_mode;
pub mod collision_feedback;
pub mod contacts;
pub mod game_state_transitions;
pub mod gravity;
pub mod level_switch;
pub mod merkaba;
pub mod multi_hit;
pub mod paddle_size;
pub mod respawn;
pub mod scoring;
pub mod sea_mine;
pub mod sets;
pub mod textures;
pub mod ui;
