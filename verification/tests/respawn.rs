use brkrs::systems::respawn::{
    lost_ball_in_collision, respawn_completed, respawn_executor, schedule_respawns,
    should_unlock_paddle, LivesState, PaddleRespawn, RespawnRequest, RespawnSchedule,
    ScheduleEvent,
};

#[test]
fn collision_triggers_respawn_schedule() {
    let ball = 11u64;
    let lower_goal = 12u64;
    let paddle = 13u64;
    let lost = lost_ball_in_collision(ball, lower_goal, true, false, false, true);
    assert_eq!(lost, Some(ball));
    let mut respawn_schedule = RespawnSchedule::default();
    let lives = LivesState::default();
    let outcome = schedule_respawns(&mut respawn_schedule, &vec![ball], lives.lives_remaining, Some(paddle));
    assert!(respawn_schedule.pending.is_some());
    assert_eq!(respawn_schedule.pending.as_ref().unwrap().lost_ball, ball);
    assert_eq!(outcome.locked_paddle, Some(paddle));
}

#[test]
fn executor_respawns_paddle_and_ball() {
    let paddle = 21u64;
    let mut schedule = RespawnSchedule::default();
    schedule.pending = Some(RespawnRequest { lost_ball: 999, tracked_paddle: Some(paddle), remaining_lives: 2 });
    let plan = respawn_executor(&mut schedule, true, true, true, true).expect("respawn runs");
    assert_eq!(plan.paddle, PaddleRespawn::Reposition(paddle));
    assert!(plan.spawn_ball);
    assert!(schedule.pending.is_none());
    let done = respawn_completed(plan.request, Some(1000));
    assert_eq!(done.ball, 1000);
    assert_eq!(done.remaining_lives, 2);
}

#[test]
fn control_stage_unlocks_paddle_after_growth() {
    let mut schedule = RespawnSchedule::default();
    schedule.pending = None;
    assert!(should_unlock_paddle(&schedule, false));
}

#[test]
fn control_stage_waits_for_growth_or_timer() {
    let mut schedule = RespawnSchedule::default();
    schedule.pending = Some(RespawnRequest { lost_ball: 1, tracked_paddle: None, remaining_lives: 1 });
    assert!(!should_unlock_paddle(&schedule, true));
}

#[test]
fn scheduler_emits_game_over_when_no_lives() {
    let lives = LivesState { lives_remaining: 0, on_last_life: true };
    let ball = 31u64;
    let lower_goal = 32u64;
    let lost = lost_ball_in_collision(ball, lower_goal, true, false, false, true).unwrap();
    let mut respawn_schedule = RespawnSchedule::default();
    let outcome = schedule_respawns(&mut respawn_schedule, &vec![lost], lives.lives_remaining, None);
    assert!(respawn_schedule.pending.is_none());
    let game_overs = outcome
        .events
        .iter()
        .filter(|e| matches!(e, ScheduleEvent::GameOver(_)))
        .count();
    assert!(game_overs >= 1);
}

#[test]
fn queued_life_losses_run_after_pending_respawn() {
    let paddle = Some(40u64);
    let ball_a = 41u64;
    let ball_b = 42u64;
    let mut schedule = RespawnSchedule::default();
    schedule_respawns(&mut schedule, &vec![ball_a], 3, paddle);
    assert!(schedule.pending.is_some());
    assert_eq!(schedule.queue.len(), 0);
    schedule_respawns(&mut schedule, &vec![ball_b], 3, paddle);
    assert!(schedule.pending.is_some());
    assert_eq!(schedule.queue.len(), 1);
    schedule.pending = None;
    schedule_respawns(&mut schedule, &vec![], 3, paddle);
    assert!(schedule.pending.is_some());
    assert_eq!(schedule.queue.len(), 0);
    assert_eq!(schedule.pending.as_ref().unwrap().lost_ball, ball_b);
}

#[test]
fn executor_waits_for_the_delay() {
    let mut schedule = RespawnSchedule::default();
    schedule.pending = Some(RespawnRequest { lost_ball: 5, tracked_paddle: Some(6), remaining_lives: 1 });
    assert!(respawn_executor(&mut schedule, false, true, true, true).is_none());
    assert!(schedule.pending.is_some());
    let plan = respawn_executor(&mut schedule, true, true, false, false).unwrap();
    assert_eq!(plan.paddle, PaddleRespawn::SpawnNew);
    assert!(!plan.spawn_ball);
    assert_eq!(respawn_completed(plan.request, None).ball, 5);
}

#[test]
fn no_paddle_spawn_point_leaves_paddle_alone() {
    let mut schedule = RespawnSchedule::default();
    schedule.pending = Some(RespawnRequest { lost_ball: 5, tracked_paddle: Some(6), remaining_lives: 1 });
    let plan = respawn_executor(&mut schedule, true, false, true, true).unwrap();
    assert_eq!(plan.paddle, PaddleRespawn::Untouched);
}

#[test]
fn goal_collision_only_with_a_ball() {
    assert_eq!(lost_ball_in_collision(1, 2, false, false, false, true), None);
    assert_eq!(lost_ball_in_collision(1, 2, false, true, true, false), Some(2));
}
