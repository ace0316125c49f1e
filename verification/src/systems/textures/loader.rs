//! The parts of the texture manifest that the game logic reads.

use vstd::prelude::*;
use std::collections::HashMap;

verus! {

/// The kinds of objects a type variant can dress.
#[derive(Debug, Clone, Copy, PartialEq, Eq, Hash, Structural)]
pub enum ObjectClass {
    Ball,
    Brick,
    Merkaba,
}

/// The level-switch section of the manifest.
#[derive(Debug, Clone)]
pub struct LevelSwitchState {
    pub ordered_levels: Vec<u32>,
    pub current_index: usize,
    pub pending_switch: bool,
}

impl Default for LevelSwitchState {
    fn default() -> (s: Self)
        ensures
            s.ordered_levels@ == Seq::<u32>::empty(),
            s.current_index == 0,
            !s.pending_switch,
    {
        LevelSwitchState { ordered_levels: Vec::new(), current_index: 0, pending_switch: false }
    }
}

/// The profiles a level uses in place of the canonical ground, background
/// and side-wall materials (its tint stays with the render layer).
#[derive(Debug, Clone)]
pub struct LevelTextureSet {
    pub level_number: u32,
    pub ground_profile: Option<String>,
    pub background_profile: Option<String>,
    pub sidewall_profile: Option<String>,
    pub notes: Option<String>,
}

pub open spec fn opt_view(s: Option<String>) -> Option<Seq<char>> {
    match s {
        Some(x) => Some(x@),
        None => None,
    }
}

pub(crate) fn copy_opt_string(s: &Option<String>) -> (r: Option<String>)
    ensures
        opt_view(r) == opt_view(*s),
{
    match s {
        Some(x) => Some(x.clone()),
        None => None,
    }
}

/// The level overrides by level number: each set listed replaces an earlier
/// one with the same number.
pub open spec fn spec_overrides_map(sets: Seq<LevelTextureSet>) -> Map<u32, LevelTextureSet>
    decreases sets.len(),
{
    if sets.len() == 0 {
        Map::empty()
    } else {
        spec_overrides_map(sets.drop_last()).insert(sets.last().level_number, sets.last())
    }
}

/// Indexes the manifest's level overrides by level number.
pub fn index_level_overrides(sets: Vec<LevelTextureSet>) -> (m: HashMap<u32, LevelTextureSet>)
    ensures
        m@ == spec_overrides_map(sets@),
{
    let ghost all = sets@;
    let mut rest = sets;
    let mut m: HashMap<u32, LevelTextureSet> = HashMap::new();
    let ghost mut i: int = 0;
    assert(all.take(0) =~= Seq::<LevelTextureSet>::empty());
    assert(m@ =~= Map::<u32, LevelTextureSet>::empty());
    while rest.len() > 0
        invariant
            0 <= i <= all.len(),
            i + rest@.len() == all.len(),
            rest@ == all.skip(i),
            m@ == spec_overrides_map(all.take(i)),
        decreases rest.len(),
    {
        let ghost old_rest = rest@;
        let set = rest.remove(0);
        assert(set == all[i]);
        assert(rest@ =~= all.skip(i + 1));
        assert(all.take(i + 1).drop_last() =~= all.take(i));
        m.insert(set.level_number, set);
        proof {
            i = i + 1;
        }
    }
    assert(all.take(i) =~= all);
    m
}

} // verus!
