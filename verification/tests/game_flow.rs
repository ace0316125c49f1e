use brkrs::game_state::{GameSession, GameState, StateTransitionContext};
use brkrs::level_loader::{
    bricks_after_growth, end_advance_delay, extract_author_name, finalize_level_advance,
    on_level_cleared, plan_level_spawns,
    should_handle_level_cleared, FinalizeAction, GameProgress, LevelAdvanceState,
    LevelClearedOutcome, LevelDefinition, NextLevelLookup,
};
use brkrs::pause::{
    cursor_visible, pause_on_escape, physics_active, resume_on_click, window_mode_update,
    MonitorSelection, PauseState, WindowMode,
};
use brkrs::systems::game_state_transitions::{
    check_fade_in_completion, check_fade_out_completion, fade_out_complete, guard_transition, is_valid_transition,
    life_loss_transition, FadeInStep,
};
use brkrs::systems::respawn::LivesState;
use brkrs::systems::scoring::{
    award_points, brick_points, brick_points_with_roll, detect_milestones, ScoreState,
};
use brkrs::systems::ui::game_over::handle_game_over_buttons;
use brkrs::systems::ui::main_menu::handle_main_menu_buttons;
use brkrs::systems::ui::{MenuKeys, MenuOutcome};

fn def(number: u32) -> LevelDefinition {
    LevelDefinition { number, matrix: vec![vec![0u8; 20]; 20], description: None, author: None }
}

#[test]
fn level_clear_advances_then_finalizes() {
    let mut state = LevelAdvanceState::default();
    let mut progress = GameProgress::default();
    assert!(should_handle_level_cleared(&state, true, 0));
    assert!(!should_handle_level_cleared(&state, true, 3));
    let out = on_level_cleared(&mut state, &mut progress, NextLevelLookup::Loaded(def(2)));
    assert_eq!(out, LevelClearedOutcome::AdvanceStarted);
    assert!(state.active);
    assert!(!should_handle_level_cleared(&state, true, 0));
    state.growth_spawned = true;
    assert_eq!(finalize_level_advance(&mut state, true, 1), FinalizeAction::Wait);
    assert_eq!(finalize_level_advance(&mut state, false, 0), FinalizeAction::Wait);
    assert_eq!(finalize_level_advance(&mut state, false, 1), FinalizeAction::Unfreeze);
    assert_eq!(finalize_level_advance(&mut state, false, 1), FinalizeAction::Activate);
    assert!(!state.active);
    assert!(state.pending.is_none());
}

#[test]
fn advance_delay_spawns_paddle_and_ball_before_bricks() {
    let mut state = LevelAdvanceState::default();
    let mut progress = GameProgress::default();
    let mut next = def(4);
    next.matrix[3][5] = 2;
    next.matrix[6][7] = 1;
    next.matrix[1][1] = 20;
    next.matrix[2][9] = 90;
    next.author = Some(String::from("Jane"));
    on_level_cleared(&mut state, &mut progress, NextLevelLookup::Loaded(next));
    assert!(end_advance_delay(&mut state, false).is_none());
    assert!(!state.growth_spawned);
    let spawn = end_advance_delay(&mut state, true).expect("the delay has ended");
    assert_eq!(spawn.paddle, Some((3, 5)));
    assert_eq!(spawn.ball, Some((6, 7)));
    assert_eq!(spawn.current_level.0.number, 4);
    assert_eq!(spawn.current_level.0.matrix[1][1], 20);
    assert_eq!(spawn.current_level.0.author.as_deref(), Some("Jane"));
    assert!(state.growth_spawned);
    assert!(end_advance_delay(&mut state, true).is_none());
    assert!(bricks_after_growth(&state, FinalizeAction::Wait).is_empty());
    assert_eq!(finalize_level_advance(&mut state, true, 1), FinalizeAction::Wait);
    let action = finalize_level_advance(&mut state, false, 1);
    assert_eq!(action, FinalizeAction::Unfreeze);
    let bricks = bricks_after_growth(&state, action);
    assert_eq!(bricks.len(), 2);
    assert_eq!((bricks[0].row, bricks[0].col, bricks[0].type_id), (1, 1, 20));
    assert_eq!((bricks[1].row, bricks[1].col, bricks[1].type_id), (2, 9, 90));
    assert!(!bricks[1].counts_towards_completion);
    let action = finalize_level_advance(&mut state, false, 1);
    assert_eq!(action, FinalizeAction::Activate);
    assert!(bricks_after_growth(&state, action).is_empty());
}

#[test]
fn clearing_the_last_level_completes_the_game_once() {
    let mut state = LevelAdvanceState::default();
    let mut progress = GameProgress::default();
    assert_eq!(
        on_level_cleared(&mut state, &mut progress, NextLevelLookup::Missing),
        LevelClearedOutcome::GameComplete
    );
    assert!(progress.finished);
    assert_eq!(
        on_level_cleared(&mut state, &mut progress, NextLevelLookup::Missing),
        LevelClearedOutcome::AlreadyComplete
    );
    assert_eq!(
        on_level_cleared(&mut state, &mut progress, NextLevelLookup::Failed),
        LevelClearedOutcome::LoadFailed
    );
}

#[test]
fn spawn_plan_reads_the_matrix() {
    let mut m = vec![vec![0u8; 20]; 20];
    m[3][4] = 2;
    m[5][5] = 2;
    m[7][1] = 1;
    m[0][2] = 20;
    m[0][3] = 90;
    let plan = plan_level_spawns(&m);
    assert_eq!(plan.paddle, Some((3, 4)));
    assert_eq!(plan.ball, Some((7, 1)));
    assert_eq!(plan.bricks.len(), 2);
    assert_eq!(plan.bricks[0].col, 2);
    assert!(plan.bricks[0].counts_towards_completion);
    assert!(!plan.bricks[1].counts_towards_completion);
}

#[test]
fn author_names_from_markdown_links() {
    assert_eq!(extract_author_name("[Jane](https://x.y)"), "Jane");
    assert_eq!(extract_author_name("  Plain Name  "), "Plain Name");
}

#[test]
fn scoring_and_milestones() {
    assert_eq!(brick_points_with_roll(20, 0), 25);
    assert_eq!(brick_points_with_roll(53, 123), 123);
    assert_eq!(brick_points_with_roll(90, 0), 0);
    let mut rng = rand::rng();
    for _ in 0..50 {
        let p = brick_points(53, &mut rng);
        assert!((25..=300).contains(&p));
    }
    assert_eq!(brick_points(30, &mut rng), 300);
    let mut s = ScoreState::default();
    award_points(&mut s, 4990);
    assert!(detect_milestones(&mut s).is_empty());
    award_points(&mut s, 10_020);
    let events = detect_milestones(&mut s);
    assert_eq!(events.len(), 3);
    assert_eq!(events[0].milestone_tier, 1);
    assert_eq!(events[2].milestone_tier, 3);
    assert!(detect_milestones(&mut s).is_empty());
    award_points(&mut s, u32::MAX);
    assert_eq!(s.current_score, u32::MAX);
}

#[test]
fn state_machine_transitions() {
    assert!(is_valid_transition(&GameState::MainMenu, &GameState::FadeOut));
    assert!(is_valid_transition(&GameState::FadeOut, &GameState::GameOver));
    assert!(!is_valid_transition(&GameState::Playing, &GameState::GameOver));
    assert_eq!(guard_transition(GameState::Playing, Some(GameState::GameOver)), None);
    assert_eq!(
        life_loss_transition(GameState::Playing, true),
        Some((StateTransitionContext::LifeLoss, GameState::FadeOut))
    );
    let mut session = GameSession::default();
    let d = fade_out_complete(Some(StateTransitionContext::LifeLoss), &mut session, Some(0));
    assert_eq!(d.next, Some(GameState::GameOver));
    assert_eq!(session.lives_remaining, 0);
    assert_eq!(check_fade_in_completion(&vec![true, false], 0, true), FadeInStep::Wait);
    assert_eq!(check_fade_in_completion(&vec![], 0, true), FadeInStep::Finish { spawn_ball: true });
    assert_eq!(check_fade_in_completion(&vec![true], 2, true), FadeInStep::Finish { spawn_ball: false });
}

#[test]
fn fade_out_waits_for_every_overlay() {
    let mut session = GameSession::default();
    session.lives_remaining = 2;
    let waiting = check_fade_out_completion(
        &vec![true, false],
        Some(StateTransitionContext::LifeLoss),
        &mut session,
        Some(1),
    );
    assert_eq!(waiting.next, None);
    assert!(!waiting.remove_context);
    assert_eq!(session.lives_remaining, 2);
    let done = check_fade_out_completion(
        &vec![true, true],
        Some(StateTransitionContext::LifeLoss),
        &mut session,
        Some(1),
    );
    assert_eq!(done.next, Some(GameState::FadeIn));
    assert!(done.remove_context);
    assert_eq!(session.lives_remaining, 1);
    let level = check_fade_out_completion(
        &vec![],
        Some(StateTransitionContext::LevelChange { target_level: 3 }),
        &mut session,
        None,
    );
    assert_eq!(level.next, Some(GameState::LevelTransition));
    assert!(!level.remove_context);
}

#[test]
fn pause_and_resume_restore_fullscreen() {
    let mode = WindowMode::BorderlessFullscreen(MonitorSelection::Primary);
    let paused = pause_on_escape(PauseState::Active, true, false, 3, mode);
    assert_eq!(paused, PauseState::Paused { window_mode_before_pause: mode });
    assert!(!physics_active(paused));
    assert!(cursor_visible(paused));
    let on_pause = window_mode_update(Some(PauseState::Active), paused, true);
    assert_eq!(on_pause.set_mode, Some(WindowMode::Windowed));
    let resumed = resume_on_click(paused, true);
    assert_eq!(resumed, PauseState::Active);
    let on_resume = window_mode_update(on_pause.previous, resumed, true);
    assert_eq!(on_resume.set_mode, Some(mode));
    assert_eq!(pause_on_escape(PauseState::Active, true, false, 0, mode), PauseState::Active);
    assert_eq!(pause_on_escape(PauseState::Active, true, true, 3, mode), PauseState::Active);
    assert_eq!(window_mode_update(None, paused, false).set_mode, None);
}

#[test]
fn main_menu_starts_or_quits() {
    let keys = MenuKeys { enter: true, numpad_enter: false, space: false, escape: false, key_q: false };
    let mut session = GameSession { current_level: 7, lives_remaining: 0, score: 90 };
    let mut lives = LivesState { lives_remaining: 0, on_last_life: true };
    let mut score = ScoreState { current_score: 90, last_milestone_reached: 0 };
    let out = handle_main_menu_buttons(GameState::MainMenu, Some(keys), false, false, &mut session, &mut lives, &mut score);
    assert_eq!(
        out,
        MenuOutcome::Transition {
            context: StateTransitionContext::LevelChange { target_level: 1 },
            next: GameState::FadeOut
        }
    );
    assert_eq!(session, GameSession { current_level: 1, lives_remaining: 3, score: 0 });
    assert_eq!(lives.lives_remaining, 3);
    assert_eq!(score.current_score, 0);
    let out = handle_main_menu_buttons(GameState::MainMenu, Some(keys), false, true, &mut session, &mut lives, &mut score);
    assert_eq!(out, MenuOutcome::Exit);
    let out = handle_main_menu_buttons(GameState::MainMenu, None, false, false, &mut session, &mut lives, &mut score);
    assert_eq!(out, MenuOutcome::Stay);
}

#[test]
fn game_over_screen_buttons() {
    let esc = MenuKeys { enter: false, numpad_enter: false, space: false, escape: true, key_q: false };
    let mut session = GameSession { current_level: 4, lives_remaining: 0, score: 10 };
    let mut lives = LivesState { lives_remaining: 0, on_last_life: true };
    let mut score = ScoreState { current_score: 10, last_milestone_reached: 0 };
    let out = handle_game_over_buttons(GameState::GameOver, Some(esc), false, false, &mut session, &mut lives, &mut score);
    assert_eq!(
        out,
        MenuOutcome::Transition { context: StateTransitionContext::ReturnToMenu, next: GameState::MainMenu }
    );
    assert_eq!(session.current_level, 4);
    let out = handle_game_over_buttons(GameState::GameOver, None, false, true, &mut session, &mut lives, &mut score);
    assert_eq!(
        out,
        MenuOutcome::Transition { context: StateTransitionContext::NewGame, next: GameState::MainMenu }
    );
    assert_eq!(session, GameSession { current_level: 1, lives_remaining: 3, score: 0 });
}
