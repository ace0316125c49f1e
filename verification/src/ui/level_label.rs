//! The level label at the top of the screen, and the announcement made for
//! screen readers when a level starts.

use vstd::prelude::*;

use crate::systems::audio::LevelStarted;
use crate::text::{decimal, label_with_number};

verus! {

/// The last announcement made for screen readers.
#[derive(Debug, Clone)]
pub struct AccessibilityAnnouncement {
    pub last: Option<String>,
}

impl Default for AccessibilityAnnouncement {
    fn default() -> (a: Self)
        ensures
            a.last is None,
    {
        AccessibilityAnnouncement { last: None }
    }
}

/// `Level <n>`.
pub fn level_label_text(level_index: u32) -> (s: String)
    ensures
        s@ == "Level "@ + decimal(level_index as nat),
{
    label_with_number("Level ", level_index)
}

/// A level started: the label becomes `Level <n>`, which is also announced.
/// Returns the label's new text.
pub fn on_level_started(event: &LevelStarted, announcement: &mut AccessibilityAnnouncement) -> (s:
    String)
    ensures
        s@ == "Level "@ + decimal(event.level_index as nat),
        final(announcement).last matches Some(a) && a@ == s@,
{
    let label = level_label_text(event.level_index);
    announcement.last = Some(label.clone());
    label
}

} // verus!
