//! Reading a collision between two entities: which of the two is the one a
//! system looks for, and which is the other. Entities are identified by
//! their bits; the caller says which kinds each entity belongs to.

use vstd::prelude::*;

verus! {

/// The pair `(a, b)` for a collision between an entity of kind A and one of
/// kind B, whichever order the collision reports them in; the first order is
/// tried first.
pub open spec fn spec_kind_pair(
    e1: u64,
    e1_is_a: bool,
    e1_is_b: bool,
    e2: u64,
    e2_is_a: bool,
    e2_is_b: bool,
) -> Option<(u64, u64)> {
    if e1_is_a && e2_is_b {
        Some((e1, e2))
    } else if e2_is_a && e1_is_b {
        Some((e2, e1))
    } else {
        None
    }
}

/// Matches a collision against the kinds A and B.
pub fn kind_pair(
    e1: u64,
    e1_is_a: bool,
    e1_is_b: bool,
    e2: u64,
    e2_is_a: bool,
    e2_is_b: bool,
) -> (r: Option<(u64, u64)>)
    ensures
        r == spec_kind_pair(e1, e1_is_a, e1_is_b, e2, e2_is_a, e2_is_b),
{
    if e1_is_a && e2_is_b {
        Some((e1, e2))
    } else if e2_is_a && e1_is_b {
        Some((e2, e1))
    } else {
        None
    }
}

/// `(ball, other)` for a collision that involves a ball: when the first
/// entity is a ball, the other is the second, else when the second is a
/// ball, the other is the first.
pub open spec fn spec_ball_and_other(e1: u64, e1_is_ball: bool, e2: u64, e2_is_ball: bool) -> Option<
    (u64, u64),
> {
    if e1_is_ball {
        Some((e1, e2))
    } else if e2_is_ball {
        Some((e2, e1))
    } else {
        None
    }
}

/// Splits a collision into the ball and the entity it hit.
pub fn ball_and_other(e1: u64, e1_is_ball: bool, e2: u64, e2_is_ball: bool) -> (r: Option<
    (u64, u64),
>)
    ensures
        r == spec_ball_and_other(e1, e1_is_ball, e2, e2_is_ball),
{
    if e1_is_ball {
        Some((e1, e2))
    } else if e2_is_ball {
        Some((e2, e1))
    } else {
        None
    }
}

/// Whoever reports the collision first, the same pair comes out when an
/// entity cannot be of both kinds.
pub proof fn kind_pair_symmetric(
    e1: u64,
    e1_is_a: bool,
    e1_is_b: bool,
    e2: u64,
    e2_is_a: bool,
    e2_is_b: bool,
)
    requires
        !(e1_is_a && e1_is_b),
        !(e2_is_a && e2_is_b),
    ensures
        spec_kind_pair(e1, e1_is_a, e1_is_b, e2, e2_is_a, e2_is_b) == spec_kind_pair(
            e2,
            e2_is_a,
            e2_is_b,
            e1,
            e1_is_a,
            e1_is_b,
        ),
{
}

} // verus!
