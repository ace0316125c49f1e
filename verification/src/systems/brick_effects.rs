//! Direction bricks: hitting one pushes the ball. Bricks 43 to 48 push
//! with 5 units along a fixed direction of the horizontal plane, brick 52
//! with a random strength and direction. The impulses are the physics
//! layer's; these are the brick types.

use vstd::prelude::*;

verus! {

/// Pushes the ball toward the far wall (+x).
pub const BRICK_TYPE_DIRECTION_FORWARD: u8 = 43;

/// Pushes the ball along +z.
pub const BRICK_TYPE_DIRECTION_LEFT: u8 = 44;

/// Pushes the ball along -z.
pub const BRICK_TYPE_DIRECTION_RIGHT: u8 = 45;

/// Pushes the ball toward the paddle (-x).
pub const BRICK_TYPE_DIRECTION_BACKWARD: u8 = 46;

/// Pushes the ball along -x and -z.
pub const BRICK_TYPE_DIRECTION_BACKWARD_RIGHT: u8 = 47;

/// Pushes the ball along -x and +z.
pub const BRICK_TYPE_DIRECTION_BACKWARD_LEFT: u8 = 48;

/// Pushes the ball in a random direction.
pub const BRICK_TYPE_DIRECTION_RANDOM: u8 = 52;

} // verus!
