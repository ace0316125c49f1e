//! Collision feedback: a small burst of particles where the ball hits a
//! wall, the paddle or a brick, shown only while playing. The particle count
//! is drawn from the feedback profile's bounds.

use vstd::prelude::*;
use rand::rngs::ThreadRng;

use crate::game_state::GameState;
use crate::random::random_in_range;

verus! {

/// Fewest particles of a burst, by default.
pub const DEFAULT_MIN_PARTICLES: u8 = 8;

/// Most particles of a burst, by default.
pub const DEFAULT_MAX_PARTICLES: u8 = 16;

/// The style family of the bursts.
pub const STYLE_FAMILY_SPARKLY: u8 = 1;

/// What the ball hit.
#[derive(Debug, Clone, Copy, PartialEq, Eq, Structural)]
pub enum CollisionFeedbackTargetKind {
    Wall,
    Paddle,
    Brick,
}

/// Feedback is shown while playing, and also when the game state is unknown.
pub fn feedback_allowed_for_state_opt(state: Option<GameState>) -> (r: bool)
    ensures
        r == (match state {
            Some(s) => s == GameState::Playing,
            None => true,
        }),
{
    match state {
        Some(s) => match s {
            GameState::Playing => true,
            _ => false,
        },
        None => true,
    }
}

/// The particle bounds of a profile are usable: at least one particle, and
/// the maximum not below the minimum.
pub fn particle_bounds_valid(min_particles: u8, max_particles: u8) -> (r: bool)
    ensures
        r == (min_particles > 0 && max_particles >= min_particles),
{
    min_particles > 0 && max_particles >= min_particles
}

/// Draws the particle count of a burst from the profile's bounds.
pub fn sample_particle_count(min_particles: u8, max_particles: u8, rng: &mut ThreadRng) -> (n: u8)
    requires
        min_particles <= max_particles,
    ensures
        min_particles <= n <= max_particles,
{
    let r = random_in_range(rng, min_particles as u32, max_particles as u32);
    r as u8
}

} // verus!
