//! Labels of the scheduling sets that order the level presentation systems.

use vstd::prelude::*;

verus! {

/// Systems that start a level's fade-in.
#[derive(Debug, Clone, Copy, PartialEq, Eq, Hash, Structural)]
pub struct LevelFadeInStartSet;

/// Systems that bring the level's presentation up to date.
#[derive(Debug, Clone, Copy, PartialEq, Eq, Hash, Structural)]
pub struct SyncLevelPresentationSet;

} // verus!
