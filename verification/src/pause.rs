//! Pause and resume: Escape pauses (not during a level transition, and not
//! once the game is over), a left click resumes. While paused the physics
//! pipeline is stopped and the cursor is shown; a fullscreen window drops to
//! windowed mode and gets its mode back on resume.

use vstd::prelude::*;

verus! {

/// Which monitor a fullscreen window uses.
#[derive(Debug, Clone, Copy, PartialEq, Eq, Structural)]
pub enum MonitorSelection {
    Current,
    Primary,
    Index(usize),
    /// A monitor entity, by its bits.
    Entity(u64),
}

/// A video mode of a monitor.
#[derive(Debug, Clone, Copy, PartialEq, Eq, Structural)]
pub struct VideoMode {
    pub width: u32,
    pub height: u32,
    pub bit_depth: u16,
    pub refresh_rate_millihertz: u32,
}

/// Which video mode exclusive fullscreen uses.
#[derive(Debug, Clone, Copy, PartialEq, Eq, Structural)]
pub enum VideoModeSelection {
    Current,
    Specific(VideoMode),
}

/// How the primary window is shown.
#[derive(Debug, Clone, Copy, PartialEq, Eq, Structural)]
pub enum WindowMode {
    Windowed,
    BorderlessFullscreen(MonitorSelection),
    Fullscreen(MonitorSelection, VideoModeSelection),
}

/// Whether gameplay runs or is paused; a pause remembers the window mode
/// it was entered from.
#[derive(Debug, Clone, Copy, PartialEq, Eq, Structural)]
pub enum PauseState {
    Active,
    Paused { window_mode_before_pause: WindowMode },
}

impl Default for PauseState {
    fn default() -> (s: Self)
        ensures
            s == PauseState::Active,
    {
        PauseState::Active
    }
}

pub open spec fn spec_pause_on_escape(
    state: PauseState,
    escape_pressed: bool,
    level_advance_active: bool,
    lives_remaining: u8,
    window_mode: WindowMode,
) -> PauseState {
    if lives_remaining != 0 && escape_pressed && state == PauseState::Active
        && !level_advance_active {
        PauseState::Paused { window_mode_before_pause: window_mode }
    } else {
        state
    }
}

/// Escape pauses an active game, remembering the current window mode. It
/// does nothing once the lives are gone or while a level transition runs.
pub fn pause_on_escape(
    state: PauseState,
    escape_pressed: bool,
    level_advance_active: bool,
    lives_remaining: u8,
    window_mode: WindowMode,
) -> (s: PauseState)
    ensures
        s == spec_pause_on_escape(
            state,
            escape_pressed,
            level_advance_active,
            lives_remaining,
            window_mode,
        ),
{
    if lives_remaining == 0 {
        return state;
    }
    match state {
        PauseState::Active => if escape_pressed && !level_advance_active {
            PauseState::Paused { window_mode_before_pause: window_mode }
        } else {
            state
        },
        PauseState::Paused { .. } => state,
    }
}

pub open spec fn spec_resume_on_click(state: PauseState, left_clicked: bool) -> PauseState {
    if left_clicked && state is Paused {
        PauseState::Active
    } else {
        state
    }
}

/// A left click resumes a paused game.
pub fn resume_on_click(state: PauseState, left_clicked: bool) -> (s: PauseState)
    ensures
        s == spec_resume_on_click(state, left_clicked),
{
    match state {
        PauseState::Paused { .. } => if left_clicked {
            PauseState::Active
        } else {
            state
        },
        PauseState::Active => state,
    }
}

/// The physics pipeline runs exactly while the game is active.
pub fn physics_active(state: PauseState) -> (r: bool)
    ensures
        r == (state == PauseState::Active),
{
    match state {
        PauseState::Active => true,
        PauseState::Paused { .. } => false,
    }
}

/// Gameplay systems run only while the game is not paused.
pub fn not_paused(state: PauseState) -> (r: bool)
    ensures
        r == (state == PauseState::Active),
{
    physics_active(state)
}

/// The cursor is shown exactly while the game is paused.
pub fn cursor_visible(state: PauseState) -> (r: bool)
    ensures
        r == (state is Paused),
{
    match state {
        PauseState::Active => false,
        PauseState::Paused { .. } => true,
    }
}

/// What the window-mode system does on a frame.
#[derive(Debug, Clone, Copy, PartialEq, Eq, Structural)]
pub struct WindowModeUpdate {
    /// The mode to give the window, if it changes.
    pub set_mode: Option<WindowMode>,
    /// The pause state remembered for the next change.
    pub previous: Option<PauseState>,
}

pub open spec fn spec_window_mode_update(
    previous: Option<PauseState>,
    current: PauseState,
    changed: bool,
) -> WindowModeUpdate {
    if !changed {
        WindowModeUpdate { set_mode: None, previous }
    } else {
        let set_mode = match current {
            PauseState::Paused { window_mode_before_pause } => match window_mode_before_pause {
                WindowMode::Windowed => None,
                _ => Some(WindowMode::Windowed),
            },
            PauseState::Active => match previous {
                Some(PauseState::Paused { window_mode_before_pause }) => Some(
                    window_mode_before_pause,
                ),
                _ => None,
            },
        };
        WindowModeUpdate { set_mode, previous: Some(current) }
    }
}

/// On a change of the pause state: pausing from a fullscreen mode switches
/// to windowed mode, and resuming restores the mode from before the pause.
pub fn window_mode_update(
    previous: Option<PauseState>,
    current: PauseState,
    changed: bool,
) -> (u: WindowModeUpdate)
    ensures
        u == spec_window_mode_update(previous, current, changed),
{
    if !changed {
        return WindowModeUpdate { set_mode: None, previous };
    }
    let set_mode = match current {
        PauseState::Paused { window_mode_before_pause } => match window_mode_before_pause {
            WindowMode::BorderlessFullscreen(_) | WindowMode::Fullscreen(_, _) => Some(
                WindowMode::Windowed,
            ),
            WindowMode::Windowed => None,
        },
        PauseState::Active => match previous {
            Some(PauseState::Paused { window_mode_before_pause }) => Some(
                window_mode_before_pause,
            ),
            _ => None,
        },
    };
    WindowModeUpdate { set_mode, previous: Some(current) }
}

/// Pausing with Escape and resuming with a click gives back an active game,
/// and the window gets back the mode it had before the pause; while paused
/// the window is never fullscreen.
pub proof fn pause_resume_restores_window(
    mode: WindowMode,
    level_advance_active: bool,
    lives_remaining: u8,
    previous: Option<PauseState>,
)
    requires
        lives_remaining > 0,
        !level_advance_active,
    ensures
        ({
            let paused = spec_pause_on_escape(
                PauseState::Active,
                true,
                level_advance_active,
                lives_remaining,
                mode,
            );
            let on_pause = spec_window_mode_update(previous, paused, true);
            let resumed = spec_resume_on_click(paused, true);
            let on_resume = spec_window_mode_update(on_pause.previous, resumed, true);
            &&& paused == PauseState::Paused { window_mode_before_pause: mode }
            &&& on_pause.set_mode == (if mode == WindowMode::Windowed {
                None
            } else {
                Some(WindowMode::Windowed)
            })
            &&& resumed == PauseState::Active
            &&& on_resume.set_mode == Some(mode)
        }),
{
}

/// Only an Escape press pauses, and only an active game with lives left and
/// no level transition running: without the press, during a transition, or
/// when already paused the state stays as it is; and whenever the state does
/// change, it becomes paused with the window mode of that moment.
pub proof fn only_escape_pauses(
    state: PauseState,
    escape_pressed: bool,
    level_advance_active: bool,
    lives_remaining: u8,
    mode: WindowMode,
)
    ensures
        !escape_pressed ==> spec_pause_on_escape(
            state,
            escape_pressed,
            level_advance_active,
            lives_remaining,
            mode,
        ) == state,
        level_advance_active ==> spec_pause_on_escape(
            state,
            escape_pressed,
            level_advance_active,
            lives_remaining,
            mode,
        ) == state,
        state is Paused ==> spec_pause_on_escape(
            state,
            escape_pressed,
            level_advance_active,
            lives_remaining,
            mode,
        ) == state,
        escape_pressed && !level_advance_active && lives_remaining > 0 && state
            == PauseState::Active ==> spec_pause_on_escape(
            state,
            escape_pressed,
            level_advance_active,
            lives_remaining,
            mode,
        ) == (PauseState::Paused { window_mode_before_pause: mode }),
{
}

/// Once the lives are gone, Escape never pauses.
pub proof fn no_pause_after_game_over(
    state: PauseState,
    escape_pressed: bool,
    level_advance_active: bool,
    mode: WindowMode,
)
    ensures
        spec_pause_on_escape(state, escape_pressed, level_advance_active, 0, mode) == state,
{
}

/// Only a left click resumes, and only a paused game: a click on a paused
/// game makes it active, and without a click, or when the game is not
/// paused, the state stays as it is.
pub proof fn only_a_click_resumes(state: PauseState, left_clicked: bool)
    ensures
        left_clicked && state is Paused ==> spec_resume_on_click(state, left_clicked)
            == PauseState::Active,
        !left_clicked ==> spec_resume_on_click(state, left_clicked) == state,
        state == PauseState::Active ==> spec_resume_on_click(state, left_clicked) == state,
{
}

} // verus!
