//! Lives and the respawn queue: losing a ball schedules a respawn, further
//! losses while one is pending wait in a FIFO queue, and losing a ball with
//! no lives left requests game over.

use vstd::prelude::*;
use std::collections::VecDeque;

verus! {

/// Lives left to the player.
#[derive(Debug, Clone, Copy, PartialEq, Eq, Structural)]
pub struct LivesState {
    pub lives_remaining: u8,
    pub on_last_life: bool,
}

/// Lives at the start of a game.
pub const STARTING_LIVES: u8 = 3;

impl Default for LivesState {
    fn default() -> (s: Self)
        ensures
            s.lives_remaining == STARTING_LIVES,
            !s.on_last_life,
    {
        LivesState { lives_remaining: STARTING_LIVES, on_last_life: false }
    }
}

/// Restores the starting lives.
pub fn reset_lives(lives: &mut LivesState)
    ensures
        final(lives).lives_remaining == STARTING_LIVES,
        !final(lives).on_last_life,
{
    lives.lives_remaining = STARTING_LIVES;
    lives.on_last_life = false;
}

/// A ball was lost through the lower goal. Entities are identified by their bits.
#[derive(Debug, Clone, Copy, PartialEq, Eq, Structural)]
pub struct LifeLostEvent {
    pub ball: u64,
}

/// One respawn waiting to run.
#[derive(Debug, Clone, Copy, PartialEq, Eq, Structural)]
pub struct RespawnRequest {
    /// The ball that was lost.
    pub lost_ball: u64,
    /// The paddle that is moved back to its spawn point, if one was present.
    pub tracked_paddle: Option<u64>,
    /// Lives left when the loss was handled.
    pub remaining_lives: u8,
}

/// The respawn in progress and those waiting behind it, oldest first. The
/// respawn delay timer is kept by the render layer.
#[derive(Debug)]
pub struct RespawnSchedule {
    pub pending: Option<RespawnRequest>,
    pub queue: VecDeque<RespawnRequest>,
}

impl Default for RespawnSchedule {
    fn default() -> (s: Self)
        ensures
            s.pending is None,
            s.queue@.len() == 0,
    {
        RespawnSchedule { pending: None, queue: VecDeque::new() }
    }
}

/// Game over was requested because a ball was lost with no lives left.
#[derive(Debug, Clone, Copy, PartialEq, Eq, Structural)]
pub struct GameOverRequested {
    pub remaining_lives: u8,
}

/// A respawn finished: the ball now in play and the lives left.
#[derive(Debug, Clone, Copy, PartialEq, Eq, Structural)]
pub struct RespawnCompleted {
    pub ball: u64,
    pub remaining_lives: u8,
}

/// Something the scheduler asks the game to announce.
#[derive(Debug, Clone, Copy, PartialEq, Eq, Structural)]
pub enum ScheduleEvent {
    /// A respawn became the pending one: reset the delay timer and announce it.
    Scheduled(RespawnRequest),
    /// A ball was lost with no lives left.
    GameOver(GameOverRequested),
}

/// Result of one scheduling pass.
#[derive(Debug)]
pub struct ScheduleOutcome {
    /// Events in the order they arose.
    pub events: Vec<ScheduleEvent>,
    /// The paddle to stop and lock against input, when a respawn started for
    /// a loss and a paddle was present.
    pub locked_paddle: Option<u64>,
}

/// Start of a pass: with nothing pending, the oldest queued request starts.
pub open spec fn promote(p: Option<RespawnRequest>, q: Seq<RespawnRequest>) -> (
    Option<RespawnRequest>,
    Seq<RespawnRequest>,
    Seq<ScheduleEvent>,
) {
    if p.is_none() && q.len() > 0 {
        (Some(q[0]), q.drop_first(), seq![ScheduleEvent::Scheduled(q[0])])
    } else {
        (p, q, Seq::empty())
    }
}

/// Handling of one lost ball.
pub open spec fn loss_step(
    p: Option<RespawnRequest>,
    q: Seq<RespawnRequest>,
    locked: Option<u64>,
    ball: u64,
    lives: u8,
    paddle: Option<u64>,
) -> (Option<RespawnRequest>, Seq<RespawnRequest>, Seq<ScheduleEvent>, Option<u64>) {
    if lives == 0 {
        (p, q, seq![ScheduleEvent::GameOver(GameOverRequested { remaining_lives: lives })], locked)
    } else if p.is_some() {
        (
            p,
            q.push(
                RespawnRequest {
                    lost_ball: ball,
                    tracked_paddle: p->Some_0.tracked_paddle,
                    remaining_lives: lives,
                },
            ),
            Seq::empty(),
            locked,
        )
    } else {
        let r = RespawnRequest { lost_ball: ball, tracked_paddle: paddle, remaining_lives: lives };
        (Some(r), q, seq![ScheduleEvent::Scheduled(r)], paddle)
    }
}

/// Handling of a sequence of lost balls, in order.
pub open spec fn schedule_fold(
    p: Option<RespawnRequest>,
    q: Seq<RespawnRequest>,
    balls: Seq<u64>,
    lives: u8,
    paddle: Option<u64>,
) -> (Option<RespawnRequest>, Seq<RespawnRequest>, Seq<ScheduleEvent>, Option<u64>)
    decreases balls.len(),
{
    if balls.len() == 0 {
        (p, q, Seq::empty(), None)
    } else {
        let (p1, q1, e1, l1) = schedule_fold(p, q, balls.drop_last(), lives, paddle);
        let (p2, q2, e2, l2) = loss_step(p1, q1, l1, balls.last(), lives, paddle);
        (p2, q2, e1 + e2, l2)
    }
}

/// A whole scheduling pass: promotion, then each lost ball in order.
pub open spec fn spec_schedule(
    p: Option<RespawnRequest>,
    q: Seq<RespawnRequest>,
    balls: Seq<u64>,
    lives: u8,
    paddle: Option<u64>,
) -> (Option<RespawnRequest>, Seq<RespawnRequest>, Seq<ScheduleEvent>, Option<u64>) {
    let (p1, q1, e1) = promote(p, q);
    let (p2, q2, e2, l2) = schedule_fold(p1, q1, balls, lives, paddle);
    (p2, q2, e1 + e2, l2)
}

/// One scheduling pass over the balls lost this frame, with the lives left
/// and the first paddle present (if any).
pub fn schedule_respawns(
    schedule: &mut RespawnSchedule,
    lost_balls: &Vec<u64>,
    lives_remaining: u8,
    primary_paddle: Option<u64>,
) -> (outcome: ScheduleOutcome)
    ensures
        ({
            let (p, q, e, l) = spec_schedule(
                old(schedule).pending,
                old(schedule).queue@,
                lost_balls@,
                lives_remaining,
                primary_paddle,
            );
            &&& final(schedule).pending == p
            &&& final(schedule).queue@ == q
            &&& outcome.events@ == e
            &&& outcome.locked_paddle == l
        }),
{
    let mut events: Vec<ScheduleEvent> = Vec::new();
    if schedule.pending.is_none() {
        if let Some(next) = schedule.queue.pop_front() {
            schedule.pending = Some(next);
            events.push(ScheduleEvent::Scheduled(next));
        }
    }
    proof {
        let (p1, q1, e1) = promote(old(schedule).pending, old(schedule).queue@);
        assert(events@ =~= e1);
        assert(lost_balls@.subrange(0, 0) =~= Seq::<u64>::empty());
    }
    let ghost e1 = events@;
    let ghost p1 = schedule.pending;
    let ghost q1 = schedule.queue@;
    let mut locked: Option<u64> = None;
    let n = lost_balls.len();
    let mut i: usize = 0;
    while i < n
        invariant
            n == lost_balls@.len(),
            i <= n,
            ({
                let (p, q, e, l) = schedule_fold(
                    p1,
                    q1,
                    lost_balls@.subrange(0, i as int),
                    lives_remaining,
                    primary_paddle,
                );
                &&& schedule.pending == p
                &&& schedule.queue@ == q
                &&& events@ == e1 + e
                &&& locked == l
            }),
        decreases n - i,
    {
        let ball = lost_balls[i];
        proof {
            assert(lost_balls@.subrange(0, i as int + 1).drop_last() =~= lost_balls@.subrange(
                0,
                i as int,
            ));
            assert(lost_balls@.subrange(0, i as int + 1).last() == ball);
        }
        let ghost before_events = events@;
        if lives_remaining == 0 {
            events.push(ScheduleEvent::GameOver(GameOverRequested { remaining_lives: lives_remaining }));
        } else if let Some(active) = schedule.pending {
            schedule.queue.push_back(
                RespawnRequest {
                    lost_ball: ball,
                    tracked_paddle: active.tracked_paddle,
                    remaining_lives: lives_remaining,
                },
            );
        } else {
            let request = RespawnRequest {
                lost_ball: ball,
                tracked_paddle: primary_paddle,
                remaining_lives: lives_remaining,
            };
            locked = primary_paddle;
            schedule.pending = Some(request);
            events.push(ScheduleEvent::Scheduled(request));
        }
        proof {
            let (pp, qq, ee, ll) = schedule_fold(
                p1,
                q1,
                lost_balls@.subrange(0, i as int),
                lives_remaining,
                primary_paddle,
            );
            let (p2, q2, e2, l2) = loss_step(pp, qq, ll, ball, lives_remaining, primary_paddle);
            assert(events@ =~= before_events + e2);
            assert(e1 + (ee + e2) =~= (e1 + ee) + e2);
        }
        i += 1;
    }
    proof {
        assert(lost_balls@.subrange(0, n as int) =~= lost_balls@);
    }
    ScheduleOutcome { events, locked_paddle: locked }
}

/// Takes the pending respawn once its delay has run out.
pub fn take_pending(schedule: &mut RespawnSchedule) -> (r: Option<RespawnRequest>)
    ensures
        r == old(schedule).pending,
        final(schedule).pending is None,
        final(schedule).queue@ == old(schedule).queue@,
{
    schedule.pending.take()
}

/// What becomes of the paddle when a respawn runs.
#[derive(Debug, Clone, Copy, PartialEq, Eq, Structural)]
pub enum PaddleRespawn {
    /// The paddle's spawn point is unknown: the paddle is left alone.
    Untouched,
    /// The tracked paddle goes back to its spawn point, shrunk to grow again.
    Reposition(u64),
    /// A new, growing paddle is spawned.
    SpawnNew,
}

/// The work of a respawn whose delay has run out.
#[derive(Debug, Clone, Copy, PartialEq, Eq, Structural)]
pub struct RespawnPlan {
    pub request: RespawnRequest,
    pub paddle: PaddleRespawn,
    /// A new frozen ball is spawned at its spawn point.
    pub spawn_ball: bool,
}

/// Runs the pending respawn once its delay has finished: takes it, and
/// decides what happens to the paddle (the tracked paddle is reused when it
/// still exists) and whether a ball is spawned. Paddle input is locked and
/// the paddle grows back either way.
pub fn respawn_executor(
    schedule: &mut RespawnSchedule,
    delay_finished: bool,
    paddle_spawn_known: bool,
    tracked_paddle_exists: bool,
    ball_spawn_known: bool,
) -> (plan: Option<RespawnPlan>)
    ensures
        old(schedule).pending is None || !delay_finished ==> plan is None && *final(schedule)
            == *old(schedule),
        delay_finished ==> (old(schedule).pending matches Some(req) ==> {
            &&& final(schedule).pending is None
            &&& final(schedule).queue@ == old(schedule).queue@
            &&& plan == Some(
                RespawnPlan {
                    request: req,
                    paddle: if !paddle_spawn_known {
                        PaddleRespawn::Untouched
                    } else {
                        match req.tracked_paddle {
                            Some(p) => if tracked_paddle_exists {
                                PaddleRespawn::Reposition(p)
                            } else {
                                PaddleRespawn::SpawnNew
                            },
                            None => PaddleRespawn::SpawnNew,
                        }
                    },
                    spawn_ball: ball_spawn_known,
                },
            )
        }),
{
    if schedule.pending.is_none() || !delay_finished {
        return None;
    }
    let request = match take_pending(schedule) {
        Some(r) => r,
        None => {
            return None;
        },
    };
    let paddle = if !paddle_spawn_known {
        PaddleRespawn::Untouched
    } else {
        match request.tracked_paddle {
            Some(p) => if tracked_paddle_exists {
                PaddleRespawn::Reposition(p)
            } else {
                PaddleRespawn::SpawnNew
            },
            None => PaddleRespawn::SpawnNew,
        }
    };
    Some(RespawnPlan { request, paddle, spawn_ball: ball_spawn_known })
}

/// The announcement of a finished respawn: the new ball when one was
/// spawned, else the lost ball's identity, and the lives left.
pub fn respawn_completed(request: RespawnRequest, spawned_ball: Option<u64>) -> (c: RespawnCompleted)
    ensures
        c.ball == (match spawned_ball {
            Some(b) => b,
            None => request.lost_ball,
        }),
        c.remaining_lives == request.remaining_lives,
{
    let ball = match spawned_ball {
        Some(b) => b,
        None => request.lost_ball,
    };
    RespawnCompleted { ball, remaining_lives: request.remaining_lives }
}

/// Paddle input stays locked while a respawn is pending or queued; a locked
/// paddle is released once nothing is waiting and it has stopped growing.
pub fn should_unlock_paddle(schedule: &RespawnSchedule, paddle_growing: bool) -> (r: bool)
    ensures
        r == (schedule.pending.is_none() && schedule.queue@.len() == 0 && !paddle_growing),
{
    schedule.pending.is_none() && schedule.queue.len() == 0 && !paddle_growing
}

/// The ball of a collision between a ball and the lower goal, if the
/// collision is one.
pub fn lost_ball_in_collision(
    e1: u64,
    e2: u64,
    e1_is_ball: bool,
    e2_is_ball: bool,
    e1_is_goal: bool,
    e2_is_goal: bool,
) -> (r: Option<u64>)
    ensures
        r == (if (e1_is_ball && e2_is_goal) || (e2_is_ball && e1_is_goal) {
            Some(if e1_is_ball { e1 } else { e2 })
        } else {
            None::<u64>
        }),
{
    if (e1_is_ball && e2_is_goal) || (e2_is_ball && e1_is_goal) {
        Some(if e1_is_ball { e1 } else { e2 })
    } else {
        None
    }
}

/// Number of respawns waiting, the pending one included.
pub open spec fn waiting(p: Option<RespawnRequest>, q: Seq<RespawnRequest>) -> int {
    (if p.is_some() { 1int } else { 0int }) + q.len()
}

proof fn lemma_fold_counts(
    p: Option<RespawnRequest>,
    q: Seq<RespawnRequest>,
    balls: Seq<u64>,
    lives: u8,
    paddle: Option<u64>,
)
    ensures
        ({
            let (p2, q2, e2, l2) = schedule_fold(p, q, balls, lives, paddle);
            &&& lives > 0 ==> waiting(p2, q2) == waiting(p, q) + balls.len()
            &&& lives > 0 ==> forall|k: int| 0 <= k < e2.len() ==> #[trigger] e2[k] is Scheduled
            &&& lives == 0 ==> p2 == p && q2 == q && e2.len() == balls.len()
            &&& lives == 0 ==> forall|k: int|
                0 <= k < e2.len() ==> #[trigger] e2[k] == ScheduleEvent::GameOver(
                    GameOverRequested { remaining_lives: 0 },
                )
            &&& p.is_some() ==> p2 == p
            &&& p.is_some() && lives > 0 ==> q2 == q + Seq::new(
                balls.len(),
                |k: int|
                    RespawnRequest {
                        lost_ball: balls[k],
                        tracked_paddle: p->Some_0.tracked_paddle,
                        remaining_lives: lives,
                    },
            )
        }),
    decreases balls.len(),
{
    if balls.len() > 0 {
        lemma_fold_counts(p, q, balls.drop_last(), lives, paddle);
        let (p1, q1, e1, l1) = schedule_fold(p, q, balls.drop_last(), lives, paddle);
        let (p2, q2, e2, l2) = loss_step(p1, q1, l1, balls.last(), lives, paddle);
        let (pf, qf, ef, lf) = schedule_fold(p, q, balls, lives, paddle);
        assert(ef == e1 + e2);
        if p.is_some() && lives > 0 {
            let f = |k: int|
                RespawnRequest {
                    lost_ball: balls[k],
                    tracked_paddle: p->Some_0.tracked_paddle,
                    remaining_lives: lives,
                };
            let g = |k: int|
                RespawnRequest {
                    lost_ball: balls.drop_last()[k],
                    tracked_paddle: p->Some_0.tracked_paddle,
                    remaining_lives: lives,
                };
            assert(q + Seq::new(balls.len(), f) =~= (q + Seq::new((balls.len() - 1) as nat, g)).push(
                f(balls.len() - 1),
            ));
        }
        if lives == 0 {
            assert forall|k: int| 0 <= k < ef.len() implies #[trigger] ef[k]
                == ScheduleEvent::GameOver(GameOverRequested { remaining_lives: 0 }) by {
                if k < e1.len() {
                    assert(ef[k] == e1[k]);
                } else {
                    assert(ef[k] == e2[k - e1.len()]);
                }
            }
        } else {
            assert forall|k: int| 0 <= k < ef.len() implies #[trigger] ef[k] is Scheduled by {
                if k < e1.len() {
                    assert(ef[k] == e1[k]);
                } else {
                    assert(ef[k] == e2[k - e1.len()]);
                }
            }
        }
    }
}

/// With lives left, every lost ball becomes exactly one respawn: the number
/// of waiting respawns grows by the number of balls lost, no game over is
/// requested, and while one respawn is pending the new ones join the back of
/// the queue in the order the balls were lost. With no lives left, each lost
/// ball requests game over and nothing new is queued.
pub proof fn respawn_queue_is_fifo(
    pending: Option<RespawnRequest>,
    queue: Seq<RespawnRequest>,
    balls: Seq<u64>,
    lives: u8,
    paddle: Option<u64>,
)
    ensures
        ({
            let (p1, q1, e1) = promote(pending, queue);
            let (p, q, e, l) = spec_schedule(pending, queue, balls, lives, paddle);
            &&& waiting(p1, q1) == waiting(pending, queue)
            &&& lives > 0 ==> waiting(p, q) == waiting(pending, queue) + balls.len()
            &&& lives > 0 ==> forall|k: int| 0 <= k < e.len() ==> !(#[trigger] e[k] is GameOver)
            &&& lives == 0 ==> p == p1 && q == q1
            &&& lives == 0 ==> e.len() == e1.len() + balls.len()
            &&& p1.is_some() && lives > 0 ==> q == q1 + Seq::new(
                balls.len(),
                |k: int|
                    RespawnRequest {
                        lost_ball: balls[k],
                        tracked_paddle: p1->Some_0.tracked_paddle,
                        remaining_lives: lives,
                    },
            )
        }),
{
    let (p1, q1, e1) = promote(pending, queue);
    lemma_fold_counts(p1, q1, balls, lives, paddle);
    let (p2, q2, e2, l2) = schedule_fold(p1, q1, balls, lives, paddle);
    let (p, q, e, l) = spec_schedule(pending, queue, balls, lives, paddle);
    assert(e == e1 + e2);
    if lives > 0 {
        assert forall|k: int| 0 <= k < e.len() implies !(#[trigger] e[k] is GameOver) by {
            if k < e1.len() {
                assert(e[k] == e1[k]);
            } else {
                assert(e[k] == e2[k - e1.len()]);
            }
        }
    }
}

} // verus!
