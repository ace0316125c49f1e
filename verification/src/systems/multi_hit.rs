//! Multi-hit bricks (types 10 to 13): each ball hit lowers the type by one
//! until type 10 turns into a simple stone (20), which the next hit destroys.

use vstd::prelude::*;

use crate::level_format::{ball_hit_outcome, spec_ball_hit_outcome, BallHitOutcome};

verus! {

/// A multi-hit brick took a hit. Entities are identified by their bits.
#[derive(Debug, Clone, Copy, PartialEq, Eq, Structural)]
pub struct MultiHitBrickHit {
    /// The brick that was hit.
    pub entity: u64,
    /// Its type before the hit (10 to 13).
    pub previous_type: u8,
    /// Its type after the hit (10 to 12, or 20).
    pub new_type: u8,
}

/// What a ball hit does to a brick that counts towards completion.
#[derive(Debug, Clone, Copy, PartialEq, Eq, Structural)]
pub enum BallBrickHit {
    /// A multi-hit brick changes type; the event is announced.
    Damaged(MultiHitBrickHit),
    /// Any other brick is marked for despawn.
    MarkForDespawn,
}

/// Resolves a ball hitting the brick `entity` of type `brick_type`.
pub fn resolve_ball_brick_hit(entity: u64, brick_type: u8) -> (r: BallBrickHit)
    ensures
        match spec_ball_hit_outcome(brick_type) {
            BallHitOutcome::Transition { previous_type, new_type } => r == BallBrickHit::Damaged(
                MultiHitBrickHit { entity, previous_type, new_type },
            ),
            BallHitOutcome::Destroy => r == BallBrickHit::MarkForDespawn,
        },
{
    match ball_hit_outcome(brick_type) {
        BallHitOutcome::Transition { previous_type, new_type } => BallBrickHit::Damaged(
            MultiHitBrickHit { entity, previous_type, new_type },
        ),
        BallHitOutcome::Destroy => BallBrickHit::MarkForDespawn,
    }
}

} // verus!
