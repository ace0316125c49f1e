//! The main menu: Enter, keypad Enter, Space or the New Game button start a
//! game at level 1 with 3 lives and no score; Escape, Q or the Quit button
//! quit, which takes precedence.

use vstd::prelude::*;

use crate::game_state::{GameSession, GameState, StateTransitionContext};
use crate::systems::game_state_transitions::{is_valid_transition, spec_valid_transition};
use crate::systems::respawn::{reset_lives, LivesState, STARTING_LIVES};
use crate::systems::scoring::{reset_score, ScoreState};
use crate::systems::ui::{confirm_pressed, spec_confirm_pressed, MenuKeys, MenuOutcome};

verus! {

pub open spec fn spec_main_menu_quit(keys: Option<MenuKeys>, quit_pressed: bool) -> bool {
    quit_pressed || match keys {
        Some(k) => k.escape || k.key_q,
        None => false,
    }
}

pub open spec fn spec_main_menu_starts(
    current: GameState,
    keys: Option<MenuKeys>,
    new_game_pressed: bool,
    quit_pressed: bool,
) -> bool {
    &&& !spec_main_menu_quit(keys, quit_pressed)
    &&& spec_confirm_pressed(keys) || new_game_pressed
    &&& spec_valid_transition(current, GameState::FadeOut)
}

/// Handles the main menu's keys and buttons. Starting resets the session,
/// the lives and the score and fades out toward level 1.
pub fn handle_main_menu_buttons(
    current: GameState,
    keys: Option<MenuKeys>,
    new_game_pressed: bool,
    quit_pressed: bool,
    session: &mut GameSession,
    lives: &mut LivesState,
    score: &mut ScoreState,
) -> (out: MenuOutcome)
    ensures
        spec_main_menu_quit(keys, quit_pressed) ==> out == MenuOutcome::Exit,
        quit_pressed || (keys matches Some(k) && (k.escape || k.key_q)) ==> out
            == MenuOutcome::Exit,
        spec_main_menu_starts(current, keys, new_game_pressed, quit_pressed) ==> {
            &&& out == (MenuOutcome::Transition {
                context: StateTransitionContext::LevelChange { target_level: 1 },
                next: GameState::FadeOut,
            })
            &&& *final(session) == (GameSession { current_level: 1, lives_remaining: 3, score: 0 })
            &&& final(lives).lives_remaining == STARTING_LIVES && !final(lives).on_last_life
            &&& final(score).current_score == 0 && final(score).last_milestone_reached == 0
        },
        !spec_main_menu_starts(current, keys, new_game_pressed, quit_pressed) ==> {
            &&& *final(session) == *old(session)
            &&& *final(lives) == *old(lives)
            &&& *final(score) == *old(score)
        },
        !spec_main_menu_quit(keys, quit_pressed) && !spec_main_menu_starts(
            current,
            keys,
            new_game_pressed,
            quit_pressed,
        ) ==> out == MenuOutcome::Stay,
{
    let start_requested = confirm_pressed(keys) || new_game_pressed;
    let quit_requested = quit_pressed || match keys {
        Some(k) => k.escape || k.key_q,
        None => false,
    };
    if quit_requested {
        return MenuOutcome::Exit;
    }
    if start_requested && is_valid_transition(&current, &GameState::FadeOut) {
        session.current_level = 1;
        session.lives_remaining = 3;
        session.score = 0;
        reset_lives(lives);
        reset_score(score);
        let target_level = session.current_level;
        return MenuOutcome::Transition {
            context: StateTransitionContext::LevelChange { target_level },
            next: GameState::FadeOut,
        };
    }
    MenuOutcome::Stay
}

/// Escape, Q and the Quit button each quit the main menu, whatever else was
/// pressed; with none of them nothing quits. Enter, keypad Enter, Space or
/// the New Game button start a game when no quit was asked for and the
/// fade-out may begin.
pub proof fn main_menu_keys(
    current: GameState,
    keys: Option<MenuKeys>,
    new_game_pressed: bool,
    quit_pressed: bool,
)
    ensures
        keys matches Some(k) && k.escape ==> spec_main_menu_quit(keys, quit_pressed),
        keys matches Some(k) && k.key_q ==> spec_main_menu_quit(keys, quit_pressed),
        quit_pressed ==> spec_main_menu_quit(keys, quit_pressed),
        !quit_pressed && !(keys matches Some(k) && (k.escape || k.key_q)) ==> !spec_main_menu_quit(
            keys,
            quit_pressed,
        ),
        spec_main_menu_starts(current, keys, new_game_pressed, quit_pressed) <==> (
        !spec_main_menu_quit(keys, quit_pressed) && (new_game_pressed || (keys matches Some(k) && (
        k.enter || k.numpad_enter || k.space))) && spec_valid_transition(
            current,
            GameState::FadeOut,
        )),
{
}

} // verus!
