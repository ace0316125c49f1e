//! Plain summaries of manifest data, as handed to tooling.

use vstd::prelude::*;
use vstd::string::*;

use crate::systems::textures::loader::{LevelSwitchState, ObjectClass};

verus! {

/// A summary of the manifest's level-switch section.
#[derive(Debug, Clone)]
pub struct LevelSwitchStateContract {
    pub ordered_levels: Vec<u32>,
    pub current_index: usize,
    pub pending_switch: bool,
}

impl LevelSwitchStateContract {
    /// The summary of `state`: the same levels, index and pending flag.
    pub fn from_state(state: &LevelSwitchState) -> (c: Self)
        ensures
            c.ordered_levels@ == state.ordered_levels@,
            c.current_index == state.current_index,
            c.pending_switch == state.pending_switch,
    {
        let ordered_levels = state.ordered_levels.clone();
        assert(ordered_levels@ =~= state.ordered_levels@);
        LevelSwitchStateContract {
            ordered_levels,
            current_index: state.current_index,
            pending_switch: state.pending_switch,
        }
    }
}

pub open spec fn spec_object_class_label(class: ObjectClass) -> Seq<char> {
    match class {
        ObjectClass::Ball => "Ball"@,
        ObjectClass::Brick => "Brick"@,
        ObjectClass::Merkaba => "Merkaba"@,
    }
}

/// The name of an object class in summaries.
pub fn object_class_label(class: ObjectClass) -> (s: String)
    ensures
        s@ == spec_object_class_label(class),
{
    let label = match class {
        ObjectClass::Ball => "Ball",
        ObjectClass::Brick => "Brick",
        ObjectClass::Merkaba => "Merkaba",
    };
    String::from_str(label)
}

} // verus!
