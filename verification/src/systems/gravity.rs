//! Gravity bricks (types 21 to 25): destroying one changes the gravity.
//! Brick 21 removes gravity, 22 to 24 pull along +y (up) with 2, 10 and
//! 20 units (x and z are 0), and 25 draws a random gravity. A lost ball restores the level's
//! own gravity.

use vstd::prelude::*;

verus! {

/// The gravity change of a destroyed gravity brick.
#[derive(Debug, Clone, Copy, PartialEq, Eq, Structural)]
pub enum GravityShift {
    /// Gravity becomes `(0, y, 0)`.
    AlongY { y: u8 },
    /// Gravity is drawn at random: x in [-2, 15], z in [-5, 5].
    Random,
}

pub open spec fn spec_gravity_shift_for_brick(brick_type: u8) -> Option<GravityShift> {
    if brick_type == 21 {
        Some(GravityShift::AlongY { y: 0 })
    } else if brick_type == 22 {
        Some(GravityShift::AlongY { y: 2 })
    } else if brick_type == 23 {
        Some(GravityShift::AlongY { y: 10 })
    } else if brick_type == 24 {
        Some(GravityShift::AlongY { y: 20 })
    } else if brick_type == 25 {
        Some(GravityShift::Random)
    } else {
        None
    }
}

/// The gravity change caused by destroying a brick of type `brick_type`.
pub fn gravity_shift_for_brick(brick_type: u8) -> (r: Option<GravityShift>)
    ensures
        r == spec_gravity_shift_for_brick(brick_type),
{
    match brick_type {
        21 => Some(GravityShift::AlongY { y: 0 }),
        22 => Some(GravityShift::AlongY { y: 2 }),
        23 => Some(GravityShift::AlongY { y: 10 }),
        24 => Some(GravityShift::AlongY { y: 20 }),
        25 => Some(GravityShift::Random),
        _ => None,
    }
}

/// Which of this frame's gravity messages takes effect, given whether each
/// one (in the order read) is valid: the last valid one, so later messages
/// override earlier ones and invalid ones are skipped; none when no message
/// is valid.
pub fn gravity_application_system(valid: &Vec<bool>) -> (applied: Option<usize>)
    ensures
        match applied {
            Some(i) => i < valid@.len() && valid@[i as int] && forall|j: int|
                i < j < valid@.len() ==> !#[trigger] valid@[j],
            None => forall|j: int| 0 <= j < valid@.len() ==> !#[trigger] valid@[j],
        },
{
    let mut i: usize = valid.len();
    while i > 0
        invariant
            i <= valid@.len(),
            forall|j: int| i <= j < valid@.len() ==> !#[trigger] valid@[j],
        decreases i,
    {
        i = i - 1;
        if valid[i] {
            return Some(i);
        }
    }
    None
}

/// The gravity bricks: 21 removes gravity, 22, 23 and 24 pull up along y
/// with 2, 10 and 20 units, 25 draws a random gravity, and no other brick
/// changes the gravity.
pub proof fn gravity_bricks_table(brick_type: u8)
    ensures
        spec_gravity_shift_for_brick(21) == Some(GravityShift::AlongY { y: 0 }),
        spec_gravity_shift_for_brick(22) == Some(GravityShift::AlongY { y: 2 }),
        spec_gravity_shift_for_brick(23) == Some(GravityShift::AlongY { y: 10 }),
        spec_gravity_shift_for_brick(24) == Some(GravityShift::AlongY { y: 20 }),
        spec_gravity_shift_for_brick(25) == Some(GravityShift::Random),
        (brick_type < 21 || brick_type > 25) ==> spec_gravity_shift_for_brick(brick_type) is None,
{
}

} // verus!
