//! The cheat-mode indicator in the corner of the screen.

use vstd::prelude::*;

use crate::systems::cheat_mode::CheatModeToggled;

verus! {

/// What a cheat-mode toggle does to the indicator.
#[derive(Debug, Clone, Copy, PartialEq, Eq, Structural)]
pub enum IndicatorAction {
    Show,
    Hide,
    Nothing,
}

/// Turning cheat mode on shows the indicator (when it is not shown yet and
/// its texture is loaded); turning it off hides it.
pub fn cheat_indicator_action(
    event: CheatModeToggled,
    indicator_exists: bool,
    texture_loaded: bool,
) -> (a: IndicatorAction)
    ensures
        a == (if event.active {
            if !indicator_exists && texture_loaded {
                IndicatorAction::Show
            } else {
                IndicatorAction::Nothing
            }
        } else {
            IndicatorAction::Hide
        }),
{
    if event.active {
        if !indicator_exists && texture_loaded {
            IndicatorAction::Show
        } else {
            IndicatorAction::Nothing
        }
    } else {
        IndicatorAction::Hide
    }
}

} // verus!
