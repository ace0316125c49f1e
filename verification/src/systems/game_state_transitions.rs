//! The allowed transitions between game states and the decisions taken when
//! a fade ends, a life is lost, or a level change waits out a pause.

use vstd::prelude::*;

use crate::game_state::{GameSession, GameState, StateTransitionContext};

verus! {

/// The transitions of the game-state machine.
pub open spec fn spec_valid_transition(current: GameState, target: GameState) -> bool {
    match (current, target) {
        (GameState::MainMenu, GameState::Playing) => true,
        (GameState::MainMenu, GameState::FadeOut) => true,
        (GameState::Playing, GameState::Paused) => true,
        (GameState::Playing, GameState::FadeOut) => true,
        (GameState::Paused, GameState::Playing) => true,
        (GameState::FadeOut, GameState::FadeIn) => true,
        (GameState::FadeOut, GameState::LevelTransition) => true,
        (GameState::FadeOut, GameState::GameOver) => true,
        (GameState::LevelTransition, GameState::FadeIn) => true,
        (GameState::FadeIn, GameState::Playing) => true,
        (GameState::GameOver, GameState::MainMenu) => true,
        _ => false,
    }
}

/// Whether `current -> target` is a transition of the state machine.
pub fn is_valid_transition(current: &GameState, target: &GameState) -> (r: bool)
    ensures
        r == spec_valid_transition(*current, *target),
{
    match (*current, *target) {
        (GameState::MainMenu, GameState::Playing) => true,
        (GameState::MainMenu, GameState::FadeOut) => true,
        (GameState::Playing, GameState::Paused) => true,
        (GameState::Playing, GameState::FadeOut) => true,
        (GameState::Paused, GameState::Playing) => true,
        (GameState::FadeOut, GameState::FadeIn) => true,
        (GameState::FadeOut, GameState::LevelTransition) => true,
        (GameState::FadeOut, GameState::GameOver) => true,
        (GameState::LevelTransition, GameState::FadeIn) => true,
        (GameState::FadeIn, GameState::Playing) => true,
        (GameState::GameOver, GameState::MainMenu) => true,
        _ => false,
    }
}

pub open spec fn spec_allowed_from_fade(current: GameState, target: GameState) -> bool {
    match (current, target) {
        (GameState::FadeOut, GameState::FadeIn) => true,
        (GameState::FadeOut, GameState::LevelTransition) => true,
        (GameState::FadeOut, GameState::GameOver) => true,
        (GameState::FadeIn, GameState::Playing) => true,
        _ => false,
    }
}

/// The only transitions allowed out of a fade: FadeOut to FadeIn,
/// LevelTransition or GameOver, and FadeIn to Playing.
pub fn is_transition_allowed_from_fade(current: &GameState, target: &GameState) -> (r: bool)
    ensures
        r == spec_allowed_from_fade(*current, *target),
{
    match (*current, *target) {
        (GameState::FadeOut, GameState::FadeIn) => true,
        (GameState::FadeOut, GameState::LevelTransition) => true,
        (GameState::FadeOut, GameState::GameOver) => true,
        (GameState::FadeIn, GameState::Playing) => true,
        _ => false,
    }
}

/// Staying in the same state is always accepted; otherwise the transition
/// must be one of the state machine's.
pub fn is_valid_transition_idempotent(current: &GameState, target: &GameState) -> (r: bool)
    ensures
        r == (*current == *target || spec_valid_transition(*current, *target)),
{
    if *current == *target {
        return true;
    }
    is_valid_transition(current, target)
}

/// Same verdict as `is_valid_transition_idempotent`; callers log refusals.
pub fn validate_transition_with_logging(current: &GameState, target: &GameState) -> (r: bool)
    ensures
        r == (*current == *target || spec_valid_transition(*current, *target)),
{
    is_valid_transition_idempotent(current, target)
}

/// The pending next state that survives the guard: a requested invalid
/// transition is dropped, everything else is kept.
pub open spec fn spec_guard(current: GameState, pending: Option<GameState>) -> Option<GameState> {
    match pending {
        Some(t) => if t == current || spec_valid_transition(current, t) {
            Some(t)
        } else {
            None
        },
        None => None,
    }
}

/// Rejects a pending invalid state transition.
pub fn guard_transition(current: GameState, pending: Option<GameState>) -> (r: Option<GameState>)
    ensures
        r == spec_guard(current, pending),
{
    match pending {
        Some(target) => {
            if current == target {
                Some(target)
            } else if validate_transition_with_logging(&current, &target) {
                Some(target)
            } else {
                None
            }
        },
        None => None,
    }
}

/// What the end of a fade-out decides.
#[derive(Debug, Clone, Copy, PartialEq, Eq, Structural)]
pub struct FadeOutDecision {
    /// The next state, if any.
    pub next: Option<GameState>,
    /// Whether the transition context is consumed.
    pub remove_context: bool,
}

pub open spec fn spec_fade_out(
    ctx: Option<StateTransitionContext>,
    session_lives: u32,
    lives_state: Option<u8>,
) -> (u32, FadeOutDecision) {
    match ctx {
        Some(StateTransitionContext::LifeLoss) => {
            let lives: u32 = match lives_state {
                Some(l) => l as u32,
                None => session_lives,
            };
            if lives > 0 {
                (lives, FadeOutDecision { next: Some(GameState::FadeIn), remove_context: true })
            } else {
                (0, FadeOutDecision { next: Some(GameState::GameOver), remove_context: true })
            }
        },
        Some(StateTransitionContext::LevelChange { .. }) => (
            session_lives,
            FadeOutDecision { next: Some(GameState::LevelTransition), remove_context: false },
        ),
        _ => (session_lives, FadeOutDecision { next: None, remove_context: false }),
    }
}

/// Decides what follows a completed fade-out. After a life loss the lives
/// left (from the lives state when present, else from the session) choose
/// between fading back in and game over, and the session is synchronized;
/// a level change goes to the level transition and keeps its context.
pub fn fade_out_complete(
    ctx: Option<StateTransitionContext>,
    session: &mut GameSession,
    lives_state: Option<u8>,
) -> (d: FadeOutDecision)
    ensures
        ({
            let (lives, dec) = spec_fade_out(ctx, old(session).lives_remaining, lives_state);
            &&& d == dec
            &&& final(session).lives_remaining == lives
            &&& final(session).current_level == old(session).current_level
            &&& final(session).score == old(session).score
        }),
{
    match ctx {
        Some(StateTransitionContext::LifeLoss) => {
            let lives: u32 = match lives_state {
                Some(l) => l as u32,
                None => session.lives_remaining,
            };
            if lives > 0 {
                session.lives_remaining = lives;
                FadeOutDecision { next: Some(GameState::FadeIn), remove_context: true }
            } else {
                session.lives_remaining = 0;
                FadeOutDecision { next: Some(GameState::GameOver), remove_context: true }
            }
        },
        Some(StateTransitionContext::LevelChange { .. }) => {
            FadeOutDecision { next: Some(GameState::LevelTransition), remove_context: false }
        },
        _ => FadeOutDecision { next: None, remove_context: false },
    }
}

/// Ends a fade-out once every fade overlay has finished (at once when there
/// is none), as `fade_out_complete` decides; while one still runs nothing
/// happens.
pub fn check_fade_out_completion(
    timers_finished: &Vec<bool>,
    ctx: Option<StateTransitionContext>,
    session: &mut GameSession,
    lives_state: Option<u8>,
) -> (d: FadeOutDecision)
    ensures
        some_unfinished(timers_finished@) ==> d == (FadeOutDecision {
            next: None,
            remove_context: false,
        }) && *final(session) == *old(session),
        !some_unfinished(timers_finished@) ==> ({
            let (lives, dec) = spec_fade_out(ctx, old(session).lives_remaining, lives_state);
            &&& d == dec
            &&& final(session).lives_remaining == lives
            &&& final(session).current_level == old(session).current_level
            &&& final(session).score == old(session).score
        }),
{
    let mut i: usize = 0;
    while i < timers_finished.len()
        invariant
            i <= timers_finished@.len(),
            forall|k: int| 0 <= k < i ==> #[trigger] timers_finished@[k],
        decreases timers_finished@.len() - i,
    {
        if !timers_finished[i] {
            assert(!timers_finished@[i as int]);
            return FadeOutDecision { next: None, remove_context: false };
        }
        i += 1;
    }
    fade_out_complete(ctx, session, lives_state)
}

/// The level a level transition loads: only a level-change context names one.
pub fn level_transition_target(ctx: Option<StateTransitionContext>) -> (t: Option<u32>)
    ensures
        t == (match ctx {
            Some(StateTransitionContext::LevelChange { target_level }) => Some(target_level),
            _ => None::<u32>,
        }),
{
    match ctx {
        Some(StateTransitionContext::LevelChange { target_level }) => Some(target_level),
        _ => None,
    }
}

/// Finishes a level transition: a loaded level becomes the session's
/// current level; loaded or not, the game fades back in.
pub fn finish_level_transition(session: &mut GameSession, loaded_level: Option<u32>) -> (next:
    GameState)
    ensures
        next == GameState::FadeIn,
        final(session).current_level == (match loaded_level {
            Some(n) => n,
            None => old(session).current_level,
        }),
        final(session).lives_remaining == old(session).lives_remaining,
        final(session).score == old(session).score,
{
    if let Some(n) = loaded_level {
        session.current_level = n;
    }
    GameState::FadeIn
}

/// What the fade-in system does on a frame.
#[derive(Debug, Clone, Copy, PartialEq, Eq, Structural)]
pub enum FadeInStep {
    /// A fade overlay is still running.
    Wait,
    /// Remove the overlays and start playing; `spawn_ball` says whether a
    /// ball is spawned at its spawn point first.
    Finish { spawn_ball: bool },
}

/// Whether some fade overlay has not finished.
pub open spec fn some_unfinished(timers_finished: Seq<bool>) -> bool {
    exists|k: int| 0 <= k < timers_finished.len() && !#[trigger] timers_finished[k]
}

/// Ends a fade-in once every fade overlay has finished (at once when there
/// is none). A field without a ball gets one, when the spawn point and the
/// assets to build it are at hand; play starts either way.
pub fn check_fade_in_completion(
    timers_finished: &Vec<bool>,
    ball_count: usize,
    can_spawn_ball: bool,
) -> (step: FadeInStep)
    ensures
        some_unfinished(timers_finished@) ==> step == FadeInStep::Wait,
        !some_unfinished(timers_finished@) ==> step == (FadeInStep::Finish {
            spawn_ball: ball_count == 0 && can_spawn_ball,
        }),
{
    let mut i: usize = 0;
    while i < timers_finished.len()
        invariant
            i <= timers_finished@.len(),
            forall|k: int| 0 <= k < i ==> #[trigger] timers_finished@[k],
        decreases timers_finished@.len() - i,
    {
        if !timers_finished[i] {
            assert(!timers_finished@[i as int]);
            return FadeInStep::Wait;
        }
        i += 1;
    }
    FadeInStep::Finish { spawn_ball: ball_count == 0 && can_spawn_ball }
}

/// A lost life during play starts a fade-out with a life-loss context, when
/// that transition is allowed from the current state.
pub fn life_loss_transition(current: GameState, saw_life_loss: bool) -> (r: Option<
    (StateTransitionContext, GameState),
>)
    ensures
        r == (if saw_life_loss && spec_valid_transition(current, GameState::FadeOut) {
            Some((StateTransitionContext::LifeLoss, GameState::FadeOut))
        } else {
            None::<(StateTransitionContext, GameState)>
        }),
{
    if saw_life_loss && is_valid_transition(&current, &GameState::FadeOut) {
        Some((StateTransitionContext::LifeLoss, GameState::FadeOut))
    } else {
        None
    }
}

/// A level change requested while paused, kept until play resumes.
#[derive(Debug, Clone, Copy, PartialEq, Eq, Structural)]
pub struct DeferredLevelChange {
    pub pending: bool,
    pub target_level: u32,
}

impl Default for DeferredLevelChange {
    fn default() -> (d: Self)
        ensures
            !d.pending,
            d.target_level == 0,
    {
        DeferredLevelChange { pending: false, target_level: 0 }
    }
}

/// While paused, a level-change context is moved into the deferred slot.
/// Returns whether the context was taken (and must be removed).
pub fn capture_deferred_level_change(
    state: GameState,
    ctx: Option<StateTransitionContext>,
    deferred: &mut DeferredLevelChange,
) -> (taken: bool)
    ensures
        taken == (state == GameState::Paused && ctx matches Some(
            StateTransitionContext::LevelChange { .. },
        )),
        taken ==> final(deferred).pending && Some(
            StateTransitionContext::LevelChange { target_level: final(deferred).target_level },
        ) == ctx,
        !taken ==> *final(deferred) == *old(deferred),
{
    if state != GameState::Paused {
        return false;
    }
    match ctx {
        Some(StateTransitionContext::LevelChange { target_level }) => {
            deferred.pending = true;
            deferred.target_level = target_level;
            true
        },
        _ => false,
    }
}

/// A level change resumed after a pause: fade out towards `target_level`.
#[derive(Debug, Clone, Copy, PartialEq, Eq, Structural)]
pub struct ResumedLevelChange {
    pub target_level: u32,
    /// The level-change context must be re-inserted (it was deferred).
    pub insert_context: bool,
}

/// Back in play, a deferred level change (or a level-change context still
/// present) starts the fade-out.
pub fn handle_deferred_level_change(
    state: GameState,
    ctx: Option<StateTransitionContext>,
    deferred: &mut DeferredLevelChange,
) -> (r: Option<ResumedLevelChange>)
    ensures
        state != GameState::Playing ==> r is None && *final(deferred) == *old(deferred),
        state == GameState::Playing && old(deferred).pending ==> r == Some(
            ResumedLevelChange { target_level: old(deferred).target_level, insert_context: true },
        ) && !final(deferred).pending && final(deferred).target_level == old(
            deferred,
        ).target_level,
        state == GameState::Playing && !old(deferred).pending ==> *final(deferred) == *old(deferred)
            && r == (match ctx {
            Some(StateTransitionContext::LevelChange { target_level }) => Some(
                ResumedLevelChange { target_level, insert_context: false },
            ),
            _ => None::<ResumedLevelChange>,
        }),
{
    if state != GameState::Playing {
        return None;
    }
    if deferred.pending {
        deferred.pending = false;
        return Some(
            ResumedLevelChange { target_level: deferred.target_level, insert_context: true },
        );
    }
    match ctx {
        Some(StateTransitionContext::LevelChange { target_level }) => Some(
            ResumedLevelChange { target_level, insert_context: false },
        ),
        _ => None,
    }
}

/// Transitions allowed out of a fade are transitions of the state machine,
/// every valid transition is accepted by the idempotent check, and every
/// state has at least one way out.
pub proof fn transition_tables_agree(current: GameState, target: GameState)
    ensures
        spec_allowed_from_fade(current, target) ==> spec_valid_transition(current, target),
        spec_valid_transition(current, target) ==> current != target,
        exists|next: GameState| spec_valid_transition(current, next),
{
    match current {
        GameState::MainMenu => assert(spec_valid_transition(current, GameState::Playing)),
        GameState::Playing => assert(spec_valid_transition(current, GameState::Paused)),
        GameState::Paused => assert(spec_valid_transition(current, GameState::Playing)),
        GameState::FadeOut => assert(spec_valid_transition(current, GameState::FadeIn)),
        GameState::FadeIn => assert(spec_valid_transition(current, GameState::Playing)),
        GameState::LevelTransition => assert(spec_valid_transition(current, GameState::FadeIn)),
        GameState::GameOver => assert(spec_valid_transition(current, GameState::MainMenu)),
    }
}

/// The guard never lets an invalid transition through: what remains pending
/// is nothing, the current state, or a valid successor.
pub proof fn guard_is_sound(current: GameState, pending: Option<GameState>)
    ensures
        match spec_guard(current, pending) {
            Some(t) => t == current || spec_valid_transition(current, t),
            None => true,
        },
        pending matches Some(t) && spec_valid_transition(current, t) ==> spec_guard(current, pending)
            == pending,
{
}

/// Game over is entered only from the fade-out, and the end of a fade-out
/// only ever leads to a valid successor of the fade-out.
pub proof fn game_over_only_after_fade_out(
    current: GameState,
    ctx: Option<StateTransitionContext>,
    session_lives: u32,
    lives_state: Option<u8>,
)
    ensures
        spec_valid_transition(current, GameState::GameOver) <==> current == GameState::FadeOut,
        spec_fade_out(ctx, session_lives, lives_state).1.next matches Some(n)
            ==> spec_valid_transition(GameState::FadeOut, n),
{
}

/// Where each state can be entered from: Playing from the main menu, from a
/// pause or after a fade-in; Paused only from Playing; FadeOut from the main
/// menu or from Playing; FadeIn after a fade-out or a level transition;
/// LevelTransition and GameOver only after a fade-out; the main menu only
/// from the game-over screen.
pub proof fn states_are_entered_from(current: GameState)
    ensures
        spec_valid_transition(current, GameState::Playing) <==> (current == GameState::MainMenu
            || current == GameState::Paused || current == GameState::FadeIn),
        spec_valid_transition(current, GameState::Paused) <==> current == GameState::Playing,
        spec_valid_transition(current, GameState::FadeOut) <==> (current == GameState::MainMenu
            || current == GameState::Playing),
        spec_valid_transition(current, GameState::FadeIn) <==> (current == GameState::FadeOut
            || current == GameState::LevelTransition),
        spec_valid_transition(current, GameState::LevelTransition) <==> current
            == GameState::FadeOut,
        spec_valid_transition(current, GameState::GameOver) <==> current == GameState::FadeOut,
        spec_valid_transition(current, GameState::MainMenu) <==> current == GameState::GameOver,
{
}

} // verus!
