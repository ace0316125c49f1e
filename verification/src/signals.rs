//! Signals between systems: an interface beep, an award of lives, and the
//! collisions of balls and merkabas. Entities are identified by their bits.

use vstd::prelude::*;

verus! {

/// A short beep of the interface, one per user interaction.
#[derive(Debug, Clone, Copy, PartialEq, Eq, Structural)]
pub struct UiBeep;

/// A change of the lives by `delta` (+1 for the extra-life brick; negative
/// for penalties).
#[derive(Debug, Clone, Copy, PartialEq, Eq, Structural)]
pub struct LifeAwardMessage {
    pub delta: i32,
}

/// A ball hit a wall.
#[derive(Debug, Clone, Copy, PartialEq, Eq, Structural)]
pub struct BallWallHit {
    pub ball_entity: u64,
    pub wall_entity: u64,
}

/// A merkaba hit a wall.
#[derive(Debug, Clone, Copy, PartialEq, Eq, Structural)]
pub struct MerkabaWallCollision {
    pub merkaba_entity: u64,
    pub wall_entity: u64,
}

/// A merkaba bounced off a brick, which stays.
#[derive(Debug, Clone, Copy, PartialEq, Eq, Structural)]
pub struct MerkabaBrickCollision {
    pub merkaba_entity: u64,
    pub brick_entity: u64,
}

/// A merkaba hit the paddle.
#[derive(Debug, Clone, Copy, PartialEq, Eq, Structural)]
pub struct MerkabaPaddleCollision {
    pub merkaba_entity: u64,
    pub paddle_entity: u64,
}

} // verus!
