//! The game-over screen: Escape or the Return button go back to the main
//! menu; Enter, keypad Enter, Space or the New Game button reset the game
//! and go to the main menu to start anew.

use vstd::prelude::*;

use crate::game_state::{GameSession, GameState, StateTransitionContext};
use crate::systems::game_state_transitions::{is_valid_transition, spec_valid_transition};
use crate::systems::respawn::{reset_lives, LivesState, STARTING_LIVES};
use crate::systems::scoring::{reset_score, ScoreState};
use crate::systems::ui::{confirm_pressed, spec_confirm_pressed, MenuKeys, MenuOutcome};

verus! {

pub open spec fn spec_game_over_returns(
    current: GameState,
    keys: Option<MenuKeys>,
    return_pressed: bool,
) -> bool {
    &&& spec_valid_transition(current, GameState::MainMenu)
    &&& (return_pressed || match keys {
        Some(k) => k.escape,
        None => false,
    })
}

pub open spec fn spec_game_over_new_game(
    current: GameState,
    keys: Option<MenuKeys>,
    return_pressed: bool,
    new_game_pressed: bool,
) -> bool {
    &&& !spec_game_over_returns(current, keys, return_pressed)
    &&& spec_confirm_pressed(keys) || new_game_pressed
}

/// Handles the game-over screen's keys and buttons. A new game resets the
/// session, the lives and the score, and goes to the main menu when that
/// transition is allowed.
pub fn handle_game_over_buttons(
    current: GameState,
    keys: Option<MenuKeys>,
    return_pressed: bool,
    new_game_pressed: bool,
    session: &mut GameSession,
    lives: &mut LivesState,
    score: &mut ScoreState,
) -> (out: MenuOutcome)
    ensures
        current == GameState::GameOver && (return_pressed || (keys matches Some(k) && k.escape))
            ==> out == (MenuOutcome::Transition {
            context: StateTransitionContext::ReturnToMenu,
            next: GameState::MainMenu,
        }),
        spec_game_over_returns(current, keys, return_pressed) ==> out == (MenuOutcome::Transition {
            context: StateTransitionContext::ReturnToMenu,
            next: GameState::MainMenu,
        }),
        spec_game_over_new_game(current, keys, return_pressed, new_game_pressed) ==> {
            &&& *final(session) == (GameSession { current_level: 1, lives_remaining: 3, score: 0 })
            &&& final(lives).lives_remaining == STARTING_LIVES && !final(lives).on_last_life
            &&& final(score).current_score == 0 && final(score).last_milestone_reached == 0
            &&& out == if spec_valid_transition(current, GameState::MainMenu) {
                MenuOutcome::Transition {
                    context: StateTransitionContext::NewGame,
                    next: GameState::MainMenu,
                }
            } else {
                MenuOutcome::Stay
            }
        },
        !spec_game_over_new_game(current, keys, return_pressed, new_game_pressed) ==> {
            &&& *final(session) == *old(session)
            &&& *final(lives) == *old(lives)
            &&& *final(score) == *old(score)
        },
        !spec_game_over_returns(current, keys, return_pressed) && !spec_game_over_new_game(
            current,
            keys,
            return_pressed,
            new_game_pressed,
        ) ==> out == MenuOutcome::Stay,
{
    let valid_to_menu = is_valid_transition(&current, &GameState::MainMenu);
    let return_requested = match keys {
        Some(k) => k.escape,
        None => false,
    } || (return_pressed && valid_to_menu);
    let new_game_requested = confirm_pressed(keys) || new_game_pressed;
    if return_requested && valid_to_menu {
        return MenuOutcome::Transition {
            context: StateTransitionContext::ReturnToMenu,
            next: GameState::MainMenu,
        };
    }
    if new_game_requested {
        session.current_level = 1;
        session.lives_remaining = 3;
        session.score = 0;
        reset_lives(lives);
        reset_score(score);
        if valid_to_menu {
            return MenuOutcome::Transition {
                context: StateTransitionContext::NewGame,
                next: GameState::MainMenu,
            };
        }
    }
    MenuOutcome::Stay
}

/// On the game-over screen, Escape or the Return button go back to the main
/// menu; Enter, keypad Enter, Space or the New Game button start a new game
/// when neither was pressed; nothing returns to the menu from another screen.
pub proof fn game_over_keys(
    current: GameState,
    keys: Option<MenuKeys>,
    return_pressed: bool,
    new_game_pressed: bool,
)
    ensures
        current == GameState::GameOver && (return_pressed || (keys matches Some(k) && k.escape))
            ==> spec_game_over_returns(current, keys, return_pressed),
        current != GameState::GameOver ==> !spec_game_over_returns(current, keys, return_pressed),
        !return_pressed && !(keys matches Some(k) && k.escape) ==> !spec_game_over_returns(
            current,
            keys,
            return_pressed,
        ),
        current == GameState::GameOver && !return_pressed && !(keys matches Some(k) && k.escape)
            && (new_game_pressed || (keys matches Some(k) && (k.enter || k.numpad_enter || k.space)))
            ==> spec_game_over_new_game(current, keys, return_pressed, new_game_pressed),
{
}

} // verus!
