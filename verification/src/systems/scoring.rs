//! Scoring: points per destroyed brick and milestone detection every 5000 points.

use vstd::prelude::*;
use rand::rngs::ThreadRng;

use crate::random::random_in_range;

verus! {

/// Points between two milestones; each milestone awards an extra life.
pub const MILESTONE_STEP: u32 = 5000;

/// Brick type whose value is drawn at random.
pub const QUESTION_BRICK: u8 = 53;

/// Cumulative score of the current game and the highest milestone tier reached.
#[derive(Debug, Clone, Copy, PartialEq, Eq, Structural)]
pub struct ScoreState {
    /// Points accumulated in the current game.
    pub current_score: u32,
    /// Highest milestone tier reached: 1 at 5000 points, 2 at 10000, and so on.
    pub last_milestone_reached: u32,
}

impl Default for ScoreState {
    fn default() -> (s: Self)
        ensures
            s.current_score == 0,
            s.last_milestone_reached == 0,
    {
        ScoreState { current_score: 0, last_milestone_reached: 0 }
    }
}

/// Signal that the score crossed a multiple of 5000.
#[derive(Debug, Clone, Copy, PartialEq, Eq, Structural)]
pub struct MilestoneReached {
    /// Which milestone: 1 for 5000, 2 for 10000, and so on.
    pub milestone_tier: u32,
    /// Score at the time the milestone was detected.
    pub total_score: u32,
}

/// Points for destroying a brick of the given type; `roll` is the value drawn
/// for the question brick (53).
pub open spec fn spec_brick_points(brick_type: u8, roll: u32) -> u32 {
    if 10 <= brick_type && brick_type <= 13 {
        50
    } else if brick_type == 20 {
        25
    } else if brick_type == 21 {
        125
    } else if brick_type == 22 {
        75
    } else if brick_type == 23 {
        125
    } else if brick_type == 24 {
        150
    } else if brick_type == 25 {
        250
    } else if 26 <= brick_type && brick_type <= 29 {
        25
    } else if brick_type == 30 {
        300
    } else if brick_type == 31 {
        200
    } else if brick_type == 32 {
        225
    } else if 33 <= brick_type && brick_type <= 35 {
        25
    } else if brick_type == 36 {
        75
    } else if 37 <= brick_type && brick_type <= 39 {
        100
    } else if brick_type == 40 {
        100
    } else if brick_type == 42 {
        90
    } else if 43 <= brick_type && brick_type <= 48 {
        125
    } else if brick_type == 49 {
        150
    } else if brick_type == 50 {
        300
    } else if brick_type == 51 {
        30
    } else if brick_type == 52 {
        40
    } else if brick_type == 53 {
        roll
    } else if brick_type == 57 {
        250
    } else {
        0
    }
}

/// Points for destroying a brick, given the value drawn for the question brick.
pub fn brick_points_with_roll(brick_type: u8, question_roll: u32) -> (p: u32)
    ensures
        p == spec_brick_points(brick_type, question_roll),
{
    match brick_type {
        10..=13 => 50,
        20 => 25,
        21 => 125,
        22 => 75,
        23 => 125,
        24 => 150,
        25 => 250,
        26..=29 => 25,
        30 => 300,
        31 => 200,
        32 => 225,
        33..=35 => 25,
        36 => 75,
        37..=39 => 100,
        40 => 100,
        42 => 90,
        41 => 0,
        43..=48 => 125,
        52 => 40,
        49 => 150,
        50 => 300,
        51 => 30,
        53 => question_roll,
        54 => 0,
        55 => 0,
        56 => 0,
        57 => 250,
        _ => 0,
    }
}

/// Points for destroying a brick of the given type; the question brick (53)
/// is worth a random value from 25 to 300, drawn from `rng`; every other
/// type has a fixed value and leaves `rng` untouched.
pub fn brick_points(brick_type: u8, rng: &mut ThreadRng) -> (p: u32)
    ensures
        brick_type != QUESTION_BRICK ==> p == spec_brick_points(brick_type, 0),
        brick_type != QUESTION_BRICK ==> *final(rng) == *old(rng),
        brick_type == QUESTION_BRICK ==> 25 <= p <= 300,
{
    let roll = if brick_type == QUESTION_BRICK {
        random_in_range(rng, 25, 300)
    } else {
        0
    };
    brick_points_with_roll(brick_type, roll)
}

pub open spec fn saturating_add_u32(a: u32, b: u32) -> u32 {
    if a + b > u32::MAX {
        u32::MAX
    } else {
        (a + b) as u32
    }
}

/// Adds `points` to the score, saturating at `u32::MAX`.
pub fn award_points(score_state: &mut ScoreState, points: u32)
    ensures
        final(score_state).current_score == saturating_add_u32(
            old(score_state).current_score,
            points,
        ),
        final(score_state).last_milestone_reached == old(score_state).last_milestone_reached,
{
    score_state.current_score = score_state.current_score.saturating_add(points);
}

/// Awards the points of one destroyed brick; only the question brick draws
/// from `rng`.
pub fn award_brick_points(score_state: &mut ScoreState, brick_type: u8, rng: &mut ThreadRng)
    ensures
        brick_type != QUESTION_BRICK ==> *final(rng) == *old(rng),
        brick_type != QUESTION_BRICK ==> final(score_state).current_score == saturating_add_u32(
            old(score_state).current_score,
            spec_brick_points(brick_type, 0),
        ),
        brick_type == QUESTION_BRICK ==> exists|p: u32|
            25 <= p <= 300 && final(score_state).current_score == saturating_add_u32(
                old(score_state).current_score,
                p,
            ),
        final(score_state).last_milestone_reached == old(score_state).last_milestone_reached,
{
    let p = brick_points(brick_type, rng);
    award_points(score_state, p);
}

/// Milestone tier reached at a score.
pub open spec fn tier_of(score: u32) -> u32 {
    score / MILESTONE_STEP
}

/// The milestone events for the tiers after `s.last_milestone_reached` up to
/// the tier of the current score, in increasing order.
pub open spec fn milestones_due(s: ScoreState) -> Seq<MilestoneReached> {
    if tier_of(s.current_score) > s.last_milestone_reached {
        Seq::new(
            (tier_of(s.current_score) - s.last_milestone_reached) as nat,
            |i: int|
                MilestoneReached {
                    milestone_tier: (s.last_milestone_reached + 1 + i) as u32,
                    total_score: s.current_score,
                },
        )
    } else {
        Seq::empty()
    }
}

/// The score state after milestone detection.
pub open spec fn after_detection(s: ScoreState) -> ScoreState {
    if tier_of(s.current_score) > s.last_milestone_reached {
        ScoreState { last_milestone_reached: tier_of(s.current_score), ..s }
    } else {
        s
    }
}

/// Emits one milestone event per newly crossed multiple of 5000 and records
/// the highest tier reached.
pub fn detect_milestones(score_state: &mut ScoreState) -> (events: Vec<MilestoneReached>)
    ensures
        events@ == milestones_due(*old(score_state)),
        *final(score_state) == after_detection(*old(score_state)),
{
    let reached_tier = score_state.current_score / MILESTONE_STEP;
    let mut events: Vec<MilestoneReached> = Vec::new();
    if reached_tier > score_state.last_milestone_reached {
        let first = score_state.last_milestone_reached + 1;
        let mut tier = first;
        while tier <= reached_tier
            invariant
                first == score_state.last_milestone_reached + 1,
                reached_tier == tier_of(score_state.current_score),
                first <= tier <= reached_tier + 1,
                reached_tier < u32::MAX,
                events@.len() == tier - first,
                forall|i: int|
                    0 <= i < events@.len() ==> #[trigger] events@[i] == (MilestoneReached {
                        milestone_tier: (first + i) as u32,
                        total_score: score_state.current_score,
                    }),
            decreases reached_tier + 1 - tier,
        {
            events.push(
                MilestoneReached { milestone_tier: tier, total_score: score_state.current_score },
            );
            tier += 1;
        }
        proof {
            assert(events@ =~= milestones_due(*score_state));
        }
        score_state.last_milestone_reached = reached_tier;
    }
    events
}

/// Resets the score and the milestone tier to zero.
pub fn reset_score(score_state: &mut ScoreState)
    ensures
        final(score_state).current_score == 0,
        final(score_state).last_milestone_reached == 0,
{
    score_state.current_score = 0;
    score_state.last_milestone_reached = 0;
}

/// The scoring table, entry by entry: multi-hit bricks (10 to 13) are worth
/// 50, the simple stone (20) 25, the gravity bricks 125, 75, 125, 150 and 250
/// (21 to 25), the multiplier bricks (26 to 29) 25, apple, sun and yin-yang
/// (30 to 32) 300, 200 and 225, the ball-size bricks (33 to 35) 25, the
/// rotor (36) 75, the ball-spawn bricks (37 to 39) and the bomb (40) 100, the
/// extra ball (41) nothing, the killer (42) 90, the direction bricks (43 to
/// 48) 125, teleport (49) 150, level up (50) 300, hourglass (51) 30, phone
/// (52) 40, the question brick (53) its roll, level down and the magnets (54
/// to 56) nothing, the bat (57) 250, and every other type (the indestructible
/// ones among them) nothing.
pub proof fn brick_points_follow_the_table(roll: u32)
    ensures
        forall|t: u8| 10 <= t <= 13 ==> #[trigger] spec_brick_points(t, roll) == 50,
        spec_brick_points(20, roll) == 25,
        spec_brick_points(21, roll) == 125,
        spec_brick_points(22, roll) == 75,
        spec_brick_points(23, roll) == 125,
        spec_brick_points(24, roll) == 150,
        spec_brick_points(25, roll) == 250,
        forall|t: u8| 26 <= t <= 29 ==> #[trigger] spec_brick_points(t, roll) == 25,
        spec_brick_points(30, roll) == 300,
        spec_brick_points(31, roll) == 200,
        spec_brick_points(32, roll) == 225,
        forall|t: u8| 33 <= t <= 35 ==> #[trigger] spec_brick_points(t, roll) == 25,
        spec_brick_points(36, roll) == 75,
        forall|t: u8| 37 <= t <= 40 ==> #[trigger] spec_brick_points(t, roll) == 100,
        spec_brick_points(41, roll) == 0,
        spec_brick_points(42, roll) == 90,
        forall|t: u8| 43 <= t <= 48 ==> #[trigger] spec_brick_points(t, roll) == 125,
        spec_brick_points(49, roll) == 150,
        spec_brick_points(50, roll) == 300,
        spec_brick_points(51, roll) == 30,
        spec_brick_points(52, roll) == 40,
        spec_brick_points(53, roll) == roll,
        forall|t: u8| 54 <= t <= 56 ==> #[trigger] spec_brick_points(t, roll) == 0,
        spec_brick_points(57, roll) == 250,
        forall|t: u8|
            (t < 10 || (14 <= t && t <= 19) || t >= 58) ==> #[trigger] spec_brick_points(t, roll)
                == 0,
{
}

/// No brick is worth more than 300 points, whatever is drawn for the question
/// brick within its range.
pub proof fn brick_points_at_most_300(brick_type: u8, roll: u32)
    requires
        25 <= roll <= 300,
    ensures
        spec_brick_points(brick_type, roll) <= 300,
{
}

/// Milestone detection is idempotent: a second detection without new points
/// emits nothing and changes nothing.
pub proof fn milestone_detection_idempotent(s: ScoreState)
    ensures
        milestones_due(after_detection(s)).len() == 0,
        after_detection(after_detection(s)) == after_detection(s),
{
}

/// After detection the recorded tier is the larger of the previous tier and
/// the tier of the score, and the emitted tiers are exactly the tiers in
/// between, each once and in increasing order.
pub proof fn milestone_tiers_are_consecutive(s: ScoreState)
    ensures
        after_detection(s).last_milestone_reached == if tier_of(s.current_score)
            > s.last_milestone_reached {
            tier_of(s.current_score)
        } else {
            s.last_milestone_reached
        },
        milestones_due(s).len() == after_detection(s).last_milestone_reached
            - s.last_milestone_reached,
        forall|i: int|
            0 <= i < milestones_due(s).len() ==> #[trigger] milestones_due(s)[i].milestone_tier
                == s.last_milestone_reached + 1 + i,
{
}

} // verus!
