//! Paddle size power-ups: a ball hitting brick 30 shrinks the paddle, brick
//! 32 enlarges it. The widths, timers and visuals are the render layer's.

use vstd::prelude::*;

verus! {

/// The brick that shrinks the paddle.
pub const BRICK_TYPE_30: u8 = 30;

/// The brick that enlarges the paddle.
pub const BRICK_TYPE_32: u8 = 32;

/// The kind of paddle size effect.
#[derive(Debug, Clone, Copy, PartialEq, Eq, Hash, Structural)]
pub enum SizeEffectType {
    Shrink,
    Enlarge,
}

pub open spec fn spec_size_effect_for_brick(brick_type: u8) -> Option<SizeEffectType> {
    if brick_type == BRICK_TYPE_30 {
        Some(SizeEffectType::Shrink)
    } else if brick_type == BRICK_TYPE_32 {
        Some(SizeEffectType::Enlarge)
    } else {
        None
    }
}

/// The size effect a ball hit on a brick of type `brick_type` gives the
/// paddle, if any.
pub fn size_effect_for_brick(brick_type: u8) -> (r: Option<SizeEffectType>)
    ensures
        r == spec_size_effect_for_brick(brick_type),
{
    if brick_type == BRICK_TYPE_30 {
        Some(SizeEffectType::Shrink)
    } else if brick_type == BRICK_TYPE_32 {
        Some(SizeEffectType::Enlarge)
    } else {
        None
    }
}

/// Brick 30 shrinks the paddle, brick 32 enlarges it, and no other brick
/// changes its size.
pub proof fn only_bricks_30_and_32_resize(brick_type: u8)
    ensures
        spec_size_effect_for_brick(30) == Some(SizeEffectType::Shrink),
        spec_size_effect_for_brick(32) == Some(SizeEffectType::Enlarge),
        brick_type != 30 && brick_type != 32 ==> spec_size_effect_for_brick(brick_type) is None,
{
}

} // verus!
