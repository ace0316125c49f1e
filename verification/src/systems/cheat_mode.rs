//! Cheat mode: toggled with G, it unlocks the restart (R), level switch
//! (N/P) and destroy-all (K) keys; toggling resets the score, and turning it
//! on restores the player's lives.

use vstd::prelude::*;

use crate::systems::respawn::{reset_lives, LivesState, STARTING_LIVES};
use crate::systems::scoring::{reset_score, ScoreState};

verus! {

/// Whether cheat mode is on, and when it last changed (elapsed game time in
/// nanoseconds).
#[derive(Debug, Clone, Copy, PartialEq, Eq, Structural)]
pub struct CheatModeState {
    pub active: bool,
    pub activated_at: Option<u64>,
}

impl Default for CheatModeState {
    fn default() -> (s: Self)
        ensures
            !s.active,
            s.activated_at is None,
    {
        CheatModeState { active: false, activated_at: None }
    }
}

impl CheatModeState {
    pub fn is_active(&self) -> (r: bool)
        ensures
            r == self.active,
    {
        self.active
    }

    /// Turns cheat mode on at time `now`.
    pub fn activate(&mut self, now: u64)
        ensures
            final(self).active,
            final(self).activated_at == Some(now),
    {
        self.active = true;
        self.activated_at = Some(now);
    }

    /// Turns cheat mode off at time `now`.
    pub fn deactivate(&mut self, now: u64)
        ensures
            !final(self).active,
            final(self).activated_at == Some(now),
    {
        self.active = false;
        self.activated_at = Some(now);
    }

    /// Flips cheat mode at time `now`.
    pub fn toggle(&mut self, now: u64)
        ensures
            final(self).active == !old(self).active,
            final(self).activated_at == Some(now),
    {
        if self.active {
            self.deactivate(now);
        } else {
            self.activate(now);
        }
    }
}

/// Announces the new cheat-mode state.
#[derive(Debug, Clone, Copy, PartialEq, Eq, Structural)]
pub struct CheatModeToggled {
    pub active: bool,
}

/// Handles a press of the cheat key: flips cheat mode and resets the score.
/// When cheat mode comes on, the lives are restored as well (and the caller
/// removes any game-over overlay).
pub fn toggle_cheat_mode(
    cheat: &mut CheatModeState,
    score_state: &mut ScoreState,
    lives: &mut LivesState,
    now: u64,
) -> (t: CheatModeToggled)
    ensures
        final(cheat).active == !old(cheat).active,
        final(cheat).activated_at == Some(now),
        t.active == final(cheat).active,
        final(score_state).current_score == 0,
        final(score_state).last_milestone_reached == 0,
        final(cheat).active ==> final(lives).lives_remaining == STARTING_LIVES
            && !final(lives).on_last_life,
        !final(cheat).active ==> *final(lives) == *old(lives),
{
    cheat.toggle(now);
    reset_score(score_state);
    if cheat.is_active() {
        reset_lives(lives);
    }
    CheatModeToggled { active: cheat.is_active() }
}

/// What a cheat-only key press does.
#[derive(Debug, Clone, Copy, PartialEq, Eq, Structural)]
pub enum KeyGate {
    /// Perform the action.
    Allow,
    /// Refuse with a short UI beep.
    Beep,
    /// Do nothing.
    Ignore,
}

/// Restart (R): allowed only in cheat mode; otherwise, also when the cheat
/// state is unknown, the press is refused with a beep.
pub fn gate_restart(cheat: Option<CheatModeState>) -> (g: KeyGate)
    ensures
        g == gate_restart_spec(cheat),
{
    match cheat {
        Some(c) => if c.is_active() {
            KeyGate::Allow
        } else {
            KeyGate::Beep
        },
        None => KeyGate::Beep,
    }
}

/// Level switch (N and P): allowed only in cheat mode, refused with a beep
/// outside it, and ignored when the cheat state is unknown.
pub fn gate_level_switch_key(cheat: Option<CheatModeState>) -> (g: KeyGate)
    ensures
        g == gate_level_switch_spec(cheat),
{
    match cheat {
        Some(c) => if c.is_active() {
            KeyGate::Allow
        } else {
            KeyGate::Beep
        },
        None => KeyGate::Ignore,
    }
}

/// Destroy-all (K): only in cheat mode; silently ignored otherwise.
pub fn gate_destroy_all(cheat: Option<CheatModeState>) -> (allowed: bool)
    ensures
        allowed == gate_destroy_all_spec(cheat),
{
    match cheat {
        Some(c) => c.is_active(),
        None => false,
    }
}

/// Every cheat-only key acts exactly when cheat mode is on.
pub proof fn cheat_keys_need_cheat_mode(cheat: Option<CheatModeState>)
    ensures
        (gate_restart_spec(cheat) == KeyGate::Allow) == (cheat matches Some(c) && c.active),
        (gate_level_switch_spec(cheat) == KeyGate::Allow) == (cheat matches Some(c) && c.active),
        gate_destroy_all_spec(cheat) == (cheat matches Some(c) && c.active),
{
}

/// Destroy-all is allowed exactly when the cheat state is known and active.
pub open spec fn gate_destroy_all_spec(cheat: Option<CheatModeState>) -> bool {
    match cheat {
        Some(c) => c.active,
        None => false,
    }
}

/// Restart key: allowed in cheat mode, refused with a beep otherwise.
pub open spec fn gate_restart_spec(cheat: Option<CheatModeState>) -> KeyGate {
    match cheat {
        Some(c) => if c.active {
            KeyGate::Allow
        } else {
            KeyGate::Beep
        },
        None => KeyGate::Beep,
    }
}

/// Level-switch keys: allowed in cheat mode, refused with a beep outside it,
/// ignored when the cheat state is unknown.
pub open spec fn gate_level_switch_spec(cheat: Option<CheatModeState>) -> KeyGate {
    match cheat {
        Some(c) => if c.active {
            KeyGate::Allow
        } else {
            KeyGate::Beep
        },
        None => KeyGate::Ignore,
    }
}

} // verus!
