//! Merkabas: hazards spawned by rotor bricks. Successive merkabas leave at
//! alternating angles; touching the paddle costs a life; losing a life
//! clears the balls and merkabas from the field.

use vstd::prelude::*;

verus! {

/// Which side the next merkaba is angled to.
#[derive(Debug, Clone, Copy, PartialEq, Eq, Structural)]
pub struct MerkabaAngleState {
    pub flip: bool,
}

impl Default for MerkabaAngleState {
    fn default() -> (s: Self)
        ensures
            !s.flip,
    {
        MerkabaAngleState { flip: false }
    }
}

/// The sign of the spawn angle given by state `s`.
pub open spec fn spec_angle_sign(s: MerkabaAngleState) -> i8 {
    if s.flip {
        -1i8
    } else {
        1i8
    }
}

impl MerkabaAngleState {
    /// The sign of the next spawn angle: +1, then -1, then +1, and so on.
    pub fn next_sign(&mut self) -> (sign: i8)
        ensures
            sign == spec_angle_sign(*old(self)),
            final(self).flip == !old(self).flip,
    {
        let sign: i8 = if self.flip {
            -1
        } else {
            1
        };
        self.flip = !self.flip;
        sign
    }
}

/// Watches the lives to notice a loss between two frames.
#[derive(Debug, Clone, Copy, PartialEq, Eq, Structural)]
pub struct LifeLossWatcher {
    pub last_lives: Option<u8>,
}

impl Default for LifeLossWatcher {
    fn default() -> (s: Self)
        ensures
            s.last_lives is None,
    {
        LifeLossWatcher { last_lives: None }
    }
}

impl LifeLossWatcher {
    /// Records this frame's lives; true when they dropped since the last
    /// frame (the first frame only records them). A true result clears the
    /// balls and merkabas.
    pub fn observe(&mut self, current_lives: u8) -> (lost: bool)
        ensures
            lost == (match old(self).last_lives {
                Some(l) => l > current_lives,
                None => false,
            }),
            final(self).last_lives == Some(current_lives),
    {
        let lost = match self.last_lives {
            Some(l) => l > current_lives,
            None => false,
        };
        self.last_lives = Some(current_lives);
        lost
    }
}

/// The ball whose loss a merkaba hitting the paddle reports: the first ball
/// on the field, if there is one.
pub fn merkaba_paddle_hit_ball(balls: &Vec<u64>) -> (r: Option<u64>)
    ensures
        r == (if balls@.len() > 0 {
            Some(balls@[0])
        } else {
            None
        }),
{
    if balls.len() > 0 {
        Some(balls[0])
    } else {
        None
    }
}

/// Two merkabas spawned one after the other leave at opposite angles.
pub proof fn merkaba_angles_alternate(s: MerkabaAngleState)
    ensures
        spec_angle_sign(MerkabaAngleState { flip: !s.flip }) == -spec_angle_sign(s),
{
}

} // verus!
