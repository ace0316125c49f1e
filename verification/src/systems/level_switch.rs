//! Level switching: the ordered list of playable level files, the lookup of
//! the level after or before a given number, and what a switch request does.

use vstd::prelude::*;
use vstd::string::*;

use crate::systems::cheat_mode::{gate_level_switch_key, gate_level_switch_spec, CheatModeState, KeyGate};
use crate::text::{ends_with, parse_u32, spec_ends_with, spec_parse_u32, spec_starts_with, starts_with};

verus! {

/// Which way a switch request moves through the level list.
#[derive(Debug, Clone, Copy, PartialEq, Eq, Structural)]
pub enum LevelSwitchDirection {
    Next,
    Previous,
}

/// Who asked for a level switch.
#[derive(Debug, Clone, Copy, PartialEq, Eq, Structural)]
pub enum LevelSwitchSource {
    Keyboard,
    Automation,
}

/// A request to switch to another level.
#[derive(Debug, Clone, Copy, PartialEq, Eq, Structural)]
pub struct LevelSwitchRequested {
    pub source: LevelSwitchSource,
    pub direction: LevelSwitchDirection,
}

/// What the level-switch keys give in one frame: the requests let through
/// and the number of refusal beeps.
#[derive(Debug, Clone)]
pub struct KeyboardSwitchInput {
    pub requests: Vec<LevelSwitchRequested>,
    pub beeps: usize,
}

/// The request of one level-switch key: made when the key was pressed and
/// cheat mode lets it through.
pub open spec fn key_request(
    pressed: bool,
    direction: LevelSwitchDirection,
    cheat: Option<CheatModeState>,
) -> Seq<LevelSwitchRequested> {
    if pressed && gate_level_switch_spec(cheat) == KeyGate::Allow {
        seq![LevelSwitchRequested { source: LevelSwitchSource::Keyboard, direction }]
    } else {
        seq![]
    }
}

/// The beep of one level-switch key: when it was pressed outside cheat mode.
pub open spec fn key_beep(pressed: bool, cheat: Option<CheatModeState>) -> nat {
    if pressed && gate_level_switch_spec(cheat) == KeyGate::Beep {
        1
    } else {
        0
    }
}

/// The level-switch keys of one frame: N asks for the next level and P for
/// the previous one (N's request first when both were pressed). In cheat
/// mode each press becomes a keyboard request; outside it each press is
/// answered with a beep; when the cheat state is unknown both are ignored.
pub fn queue_keyboard_requests(
    next_pressed: bool,
    previous_pressed: bool,
    cheat: Option<CheatModeState>,
) -> (out: KeyboardSwitchInput)
    ensures
        out.requests@ == key_request(next_pressed, LevelSwitchDirection::Next, cheat) + key_request(
            previous_pressed,
            LevelSwitchDirection::Previous,
            cheat,
        ),
        out.beeps == key_beep(next_pressed, cheat) + key_beep(previous_pressed, cheat),
{
    let gate = gate_level_switch_key(cheat);
    let mut requests: Vec<LevelSwitchRequested> = Vec::new();
    let mut beeps: usize = 0;
    if next_pressed {
        match gate {
            KeyGate::Allow => requests.push(
                LevelSwitchRequested {
                    source: LevelSwitchSource::Keyboard,
                    direction: LevelSwitchDirection::Next,
                },
            ),
            KeyGate::Beep => beeps = beeps + 1,
            KeyGate::Ignore => {},
        }
    }
    if previous_pressed {
        match gate {
            KeyGate::Allow => requests.push(
                LevelSwitchRequested {
                    source: LevelSwitchSource::Keyboard,
                    direction: LevelSwitchDirection::Previous,
                },
            ),
            KeyGate::Beep => beeps = beeps + 1,
            KeyGate::Ignore => {},
        }
    }
    proof {
        assert(requests@ =~= key_request(next_pressed, LevelSwitchDirection::Next, cheat)
            + key_request(previous_pressed, LevelSwitchDirection::Previous, cheat));
    }
    KeyboardSwitchInput { requests, beeps }
}

/// One playable level file: its number and its path.
#[derive(Clone, Debug, PartialEq, Eq)]
pub struct LevelSlot {
    pub number: u32,
    pub path: String,
}

/// A level slot as plain values: its number and the characters of its path.
pub type SlotView = (u32, Seq<char>);

pub open spec fn slot_view(s: LevelSlot) -> SlotView {
    (s.number, s.path@)
}

pub open spec fn slots_view(s: Seq<LevelSlot>) -> Seq<SlotView> {
    s.map_values(|x: LevelSlot| slot_view(x))
}

// ---------------------------------------------------------------------------
// Parsing level file names
// ---------------------------------------------------------------------------

/// The level number in a file name of the form `level_<number>.ron`.
pub open spec fn spec_level_number(name: Seq<char>) -> Option<u32> {
    if spec_starts_with(name, "level_"@) && spec_ends_with(name, ".ron"@) {
        spec_parse_u32(name.subrange(6, name.len() - 4))
    } else {
        None
    }
}

/// Reads the level number out of a file name such as `level_012.ron`.
pub fn parse_level_number(file_name: &str) -> (r: Option<u32>)
    ensures
        r == spec_level_number(file_name@),
{
    proof {
        reveal_strlit("level_");
        reveal_strlit(".ron");
    }
    if !starts_with(file_name, "level_") || !ends_with(file_name, ".ron") {
        return None;
    }
    let n = file_name.unicode_len();
    assert(n >= 10) by {
        assert(file_name@.subrange(n - 4, n as int)[0] == '.');
        if n < 10 {
            assert(file_name@.subrange(0, 6)[n - 4] == file_name@[n - 4]);
        }
    }
    let part = file_name.substring_char(6, n - 4);
    parse_u32(part)
}

// ---------------------------------------------------------------------------
// Ordering the level list
// ---------------------------------------------------------------------------

pub open spec fn sorted_by_number(s: Seq<SlotView>) -> bool {
    forall|i: int, j: int| 0 <= i <= j < s.len() ==> s[i].0 <= s[j].0
}

/// Inserts `x` after every entry whose number is at most its own.
pub open spec fn insert_by_number(s: Seq<SlotView>, x: SlotView) -> Seq<SlotView>
    decreases s.len(),
{
    if s.len() == 0 {
        seq![x]
    } else if s.last().0 <= x.0 {
        s.push(x)
    } else {
        insert_by_number(s.drop_last(), x).push(s.last())
    }
}

/// The stable sort of `s` by level number: entries with equal numbers keep
/// their order.
pub open spec fn sort_by_number(s: Seq<SlotView>) -> Seq<SlotView>
    decreases s.len(),
{
    if s.len() == 0 {
        s
    } else {
        insert_by_number(sort_by_number(s.drop_last()), s.last())
    }
}

proof fn lemma_insert_at(s: Seq<SlotView>, x: SlotView, j: int)
    requires
        0 <= j <= s.len(),
        forall|k: int| 0 <= k < j ==> s[k].0 <= x.0,
        forall|k: int| j <= k < s.len() ==> s[k].0 > x.0,
    ensures
        insert_by_number(s, x) == s.insert(j, x),
    decreases s.len(),
{
    if s.len() == 0 {
        assert(s.insert(j, x) =~= seq![x]);
    } else if s.last().0 <= x.0 {
        assert(s.insert(j, x) =~= s.push(x));
    } else {
        let d = s.drop_last();
        lemma_insert_at(d, x, j);
        assert(s.insert(j, x) =~= d.insert(j, x).push(s.last()));
    }
}

proof fn lemma_insert_bounded(s: Seq<SlotView>, x: SlotView, b: u32)
    requires
        forall|k: int| 0 <= k < s.len() ==> s[k].0 <= b,
        x.0 <= b,
    ensures
        forall|k: int| 0 <= k < insert_by_number(s, x).len() ==> insert_by_number(s, x)[k].0 <= b,
        insert_by_number(s, x).len() == s.len() + 1,
    decreases s.len(),
{
    if s.len() > 0 && s.last().0 > x.0 {
        lemma_insert_bounded(s.drop_last(), x, b);
    }
}

proof fn lemma_insert_sorted(s: Seq<SlotView>, x: SlotView)
    requires
        sorted_by_number(s),
    ensures
        sorted_by_number(insert_by_number(s, x)),
        insert_by_number(s, x).to_multiset() == s.to_multiset().insert(x),
        insert_by_number(s, x).len() == s.len() + 1,
    decreases s.len(),
{
    broadcast use vstd::seq_lib::group_to_multiset_ensures;

    if s.len() == 0 {
        assert(seq![x] =~= Seq::<SlotView>::empty().push(x));
    } else if s.last().0 <= x.0 {
    } else {
        let d = s.drop_last();
        lemma_insert_sorted(d, x);
        lemma_insert_bounded(d, x, s.last().0);
        assert(d.push(s.last()) =~= s);
    }
}

/// The stable sort is sorted and holds the same entries.
pub proof fn lemma_sort_by_number(s: Seq<SlotView>)
    ensures
        sorted_by_number(sort_by_number(s)),
        sort_by_number(s).to_multiset() == s.to_multiset(),
        sort_by_number(s).len() == s.len(),
    decreases s.len(),
{
    broadcast use vstd::seq_lib::group_to_multiset_ensures;

    if s.len() > 0 {
        lemma_sort_by_number(s.drop_last());
        lemma_insert_sorted(sort_by_number(s.drop_last()), s.last());
        assert(s.drop_last().push(s.last()) =~= s);
    }
}

fn copy_slot(s: &LevelSlot) -> (r: LevelSlot)
    ensures
        slot_view(r) == slot_view(*s),
{
    LevelSlot { number: s.number, path: s.path.clone() }
}

/// Sorts level slots by number, keeping the order of equal numbers.
pub fn sort_slots_by_number(slots: Vec<LevelSlot>) -> (r: Vec<LevelSlot>)
    ensures
        slots_view(r@) == sort_by_number(slots_view(slots@)),
{
    let ghost orig = slots_view(slots@);
    let mut rest = slots;
    let mut out: Vec<LevelSlot> = Vec::new();
    let ghost mut i: int = 0;
    assert(orig.take(0) =~= Seq::<SlotView>::empty());
    assert(slots_view(out@) =~= Seq::<SlotView>::empty());
    while rest.len() > 0
        invariant
            0 <= i <= orig.len(),
            i + rest@.len() == orig.len(),
            slots_view(rest@) == orig.skip(i),
            slots_view(out@) == sort_by_number(orig.take(i)),
        decreases rest.len(),
    {
        proof {
            lemma_sort_by_number(orig.take(i));
        }
        let ghost old_rest = rest@;
        let x = rest.remove(0);
        assert(slots_view(old_rest)[0] == slot_view(old_rest[0]));
        assert(slot_view(x) == orig[i]);
        assert(slots_view(rest@) =~= slots_view(old_rest).skip(1));
        assert(slots_view(rest@) =~= orig.skip(i + 1));
        let mut j = out.len();
        while j > 0 && out[j - 1].number > x.number
            invariant
                j <= out.len(),
                sorted_by_number(slots_view(out@)),
                forall|k: int| j <= k < out@.len() ==> out@[k].number > x.number,
            decreases j,
        {
            j -= 1;
        }
        let ghost before = slots_view(out@);
        proof {
            assert forall|k: int| 0 <= k < j implies before[k].0 <= x.number by {
                assert(before[k].0 <= before[j - 1].0);
            }
            lemma_insert_at(before, slot_view(x), j as int);
        }
        out.insert(j, x);
        proof {
            assert(slots_view(out@) =~= before.insert(j as int, slot_view(x)));
            assert(orig.take(i + 1).drop_last() =~= orig.take(i));
            i = i + 1;
        }
    }
    assert(orig.take(i) =~= orig);
    out
}

// ---------------------------------------------------------------------------
// Discovering the level files
// ---------------------------------------------------------------------------

/// The slot for a level file name, if the name is one of a level file.
pub open spec fn spec_slot_for_name(name: Seq<char>) -> Option<SlotView> {
    match spec_level_number(name) {
        Some(n) => Some((n, "assets/levels/"@ + name)),
        None => None,
    }
}

/// The slots for the level files among `names`, in the order of `names`.
pub open spec fn found_slots(names: Seq<Seq<char>>) -> Seq<SlotView>
    decreases names.len(),
{
    if names.len() == 0 {
        Seq::empty()
    } else {
        let rest = found_slots(names.drop_last());
        match spec_slot_for_name(names.last()) {
            Some(v) => rest.push(v),
            None => rest,
        }
    }
}

/// The slot used when no level file was found: level 1.
pub open spec fn default_slot() -> SlotView {
    (1, "assets/levels/level_001.ron"@)
}

/// The level list: the slots found, or the default slot when there are none,
/// sorted by number.
pub open spec fn spec_finalize_slots(found: Seq<SlotView>) -> Seq<SlotView> {
    sort_by_number(
        if found.len() == 0 {
            seq![default_slot()]
        } else {
            found
        },
    )
}

pub open spec fn names_view(names: Seq<String>) -> Seq<Seq<char>> {
    names.map_values(|s: String| s@)
}

/// The slot for one directory entry of `assets/levels`.
pub fn level_slot_for_file_name(name: &str) -> (r: Option<LevelSlot>)
    ensures
        match r {
            Some(s) => spec_slot_for_name(name@) == Some(slot_view(s)),
            None => spec_slot_for_name(name@) is None,
        },
{
    match parse_level_number(name) {
        Some(number) => {
            let mut path = String::from_str("assets/levels/");
            path.append(name);
            Some(LevelSlot { number, path })
        },
        None => None,
    }
}

/// Completes a collected level list: level 1 when nothing was found, then
/// sorted by number.
pub fn finalize_level_slots(slots: Vec<LevelSlot>) -> (r: Vec<LevelSlot>)
    ensures
        slots_view(r@) == spec_finalize_slots(slots_view(slots@)),
        r@.len() > 0,
        sorted_by_number(slots_view(r@)),
{
    let mut slots = slots;
    let ghost found = slots_view(slots@);
    if slots.len() == 0 {
        slots.push(LevelSlot { number: 1, path: String::from_str("assets/levels/level_001.ron") });
        assert(slots_view(slots@) =~= seq![default_slot()]);
    }
    let r = sort_slots_by_number(slots);
    proof {
        lemma_sort_by_number(if found.len() == 0 { seq![default_slot()] } else { found });
    }
    r
}

/// The level list from the names of the files in `assets/levels`.
pub fn discover_level_slots(file_names: &Vec<String>) -> (r: Vec<LevelSlot>)
    ensures
        slots_view(r@) == spec_finalize_slots(found_slots(names_view(file_names@))),
        r@.len() > 0,
        sorted_by_number(slots_view(r@)),
{
    let ghost names = names_view(file_names@);
    let mut slots: Vec<LevelSlot> = Vec::new();
    let mut k: usize = 0;
    assert(names.take(0) =~= Seq::<Seq<char>>::empty());
    while k < file_names.len()
        invariant
            k <= file_names@.len(),
            names == names_view(file_names@),
            slots_view(slots@) == found_slots(names.take(k as int)),
        decreases file_names@.len() - k,
    {
        let ghost before = slots_view(slots@);
        assert(names.take(k + 1).drop_last() =~= names.take(k as int));
        assert(names.take(k + 1).last() == file_names@[k as int]@);
        match level_slot_for_file_name(file_names[k].as_str()) {
            Some(s) => {
                slots.push(s);
                assert(slots_view(slots@) =~= before.push(slot_view(s)));
            },
            None => {},
        }
        k += 1;
    }
    assert(names.take(k as int) =~= names);
    finalize_level_slots(slots)
}

/// The level list built into the web build, which cannot list a directory:
/// levels 1 to 74 and the debug levels 997 to 999.
pub fn builtin_level_slots() -> (r: Vec<LevelSlot>)
    ensures
        r@.len() == 77,
        forall|i: int|
            0 <= i < 74 ==> slot_view(#[trigger] r@[i]) == ((i + 1) as u32, "assets/levels/level_"@
                + crate::text::decimal_pad3((i + 1) as nat) + ".ron"@),
        slot_view(r@[74]) == (997u32, "assets/levels/level_997.ron"@),
        slot_view(r@[75]) == (998u32, "assets/levels/level_998.ron"@),
        slot_view(r@[76]) == (999u32, "assets/levels/level_999.ron"@),
{
    let mut slots: Vec<LevelSlot> = Vec::new();
    let mut n: u32 = 1;
    while n <= 74
        invariant
            1 <= n <= 75,
            slots@.len() == n - 1,
            forall|i: int|
                0 <= i < n - 1 ==> slot_view(#[trigger] slots@[i]) == ((i + 1) as u32,
                    "assets/levels/level_"@ + crate::text::decimal_pad3((i + 1) as nat) + ".ron"@),
        decreases 75 - n,
    {
        let mut path = String::from_str("assets/levels/level_");
        crate::text::push_decimal_pad3(&mut path, n);
        path.append(".ron");
        slots.push(LevelSlot { number: n, path });
        n += 1;
    }
    slots.push(LevelSlot { number: 997, path: String::from_str("assets/levels/level_997.ron") });
    slots.push(LevelSlot { number: 998, path: String::from_str("assets/levels/level_998.ron") });
    slots.push(LevelSlot { number: 999, path: String::from_str("assets/levels/level_999.ron") });
    slots
}

// ---------------------------------------------------------------------------
// The level-switch state
// ---------------------------------------------------------------------------

/// The ordered list of playable level files, and whether a switch is under way.
#[derive(Debug)]
pub struct LevelSwitchState {
    ordered_levels: Vec<LevelSlot>,
    trigger_file: String,
    pending_transition: bool,
}

/// The first entry whose number is above `current`, else the first entry.
#[verifier::opaque]
pub open spec fn spec_next_level_after(levels: Seq<SlotView>, current: u32) -> Option<SlotView> {
    if levels.len() == 0 {
        None
    } else if exists|i: int|
        0 <= i < levels.len() && levels[i].0 > current && forall|k: int|
            0 <= k < i ==> levels[k].0 <= current {
        let i = choose|i: int|
            0 <= i < levels.len() && levels[i].0 > current && forall|k: int|
                0 <= k < i ==> levels[k].0 <= current;
        Some(levels[i])
    } else {
        Some(levels[0])
    }
}

/// The last entry whose number is below `current`, else the last entry.
#[verifier::opaque]
pub open spec fn spec_previous_level_before(levels: Seq<SlotView>, current: u32) -> Option<
    SlotView,
> {
    if levels.len() == 0 {
        None
    } else if exists|i: int|
        0 <= i < levels.len() && levels[i].0 < current && forall|k: int|
            i < k < levels.len() ==> levels[k].0 >= current {
        let i = choose|i: int|
            0 <= i < levels.len() && levels[i].0 < current && forall|k: int|
                i < k < levels.len() ==> levels[k].0 >= current;
        Some(levels[i])
    } else {
        Some(levels.last())
    }
}

impl LevelSwitchState {
    #[verifier::type_invariant]
    closed spec fn inv(self) -> bool {
        &&& self.ordered_levels@.len() > 0
        &&& sorted_by_number(slots_view(self.ordered_levels@))
    }

    /// The level list, as plain values.
    pub closed spec fn levels(self) -> Seq<SlotView> {
        slots_view(self.ordered_levels@)
    }

    /// The automation trigger file's path.
    pub closed spec fn trigger(self) -> Seq<char> {
        self.trigger_file@
    }

    /// Whether a switch is under way.
    pub closed spec fn pending(self) -> bool {
        self.pending_transition
    }

    /// The state for a level list collected elsewhere (the built-in list of
    /// the web build, or a test's list); the list is completed as
    /// `finalize_level_slots` does.
    pub fn with_levels(slots: Vec<LevelSlot>) -> (s: Self)
        ensures
            s.levels() == spec_finalize_slots(slots_view(slots@)),
            s.trigger() == ".level-switch-next"@,
            !s.pending(),
    {
        let ordered_levels = finalize_level_slots(slots);
        LevelSwitchState {
            ordered_levels,
            trigger_file: String::from_str(".level-switch-next"),
            pending_transition: false,
        }
    }

    /// The state for the level files named `file_names` (the entries of
    /// `assets/levels`).
    pub fn from_file_names(file_names: &Vec<String>) -> (s: Self)
        ensures
            s.levels() == spec_finalize_slots(found_slots(names_view(file_names@))),
            s.trigger() == ".level-switch-next"@,
            !s.pending(),
    {
        let ordered_levels = discover_level_slots(file_names);
        LevelSwitchState {
            ordered_levels,
            trigger_file: String::from_str(".level-switch-next"),
            pending_transition: false,
        }
    }

    /// The level list; it is never empty and is sorted by number.
    pub fn ordered_levels(&self) -> (r: &[LevelSlot])
        ensures
            slots_view(r@) == self.levels(),
            self.levels().len() > 0,
            sorted_by_number(self.levels()),
    {
        proof {
            use_type_invariant(self);
        }
        self.ordered_levels.as_slice()
    }

    /// The first level numbered above `current`, wrapping to the first level.
    pub fn next_level_after(&self, current: u32) -> (r: Option<&LevelSlot>)
        ensures
            match r {
                Some(s) => spec_next_level_after(self.levels(), current) == Some(slot_view(*s)),
                None => spec_next_level_after(self.levels(), current) is None,
            },
            r is Some,
    {
        reveal(spec_next_level_after);
        proof {
            use_type_invariant(self);
        }
        let ghost levels = self.levels();
        let n = self.ordered_levels.len();
        if n == 0 {
            return None;
        }
        let mut i: usize = 0;
        while i < n
            invariant
                n == self.ordered_levels@.len(),
                levels == self.levels(),
                i <= n,
                forall|k: int| 0 <= k < i ==> levels[k].0 <= current,
            decreases n - i,
        {
            if self.ordered_levels[i].number > current {
                proof {
                    assert(levels[i as int].0 > current);
                    lemma_next_is(levels, current, i as int);
                }
                return Some(&self.ordered_levels[i]);
            }
            i += 1;
        }
        Some(&self.ordered_levels[0])
    }

    /// The last level numbered below `current`, wrapping to the last level.
    pub fn previous_level_before(&self, current: u32) -> (r: Option<&LevelSlot>)
        ensures
            match r {
                Some(s) => spec_previous_level_before(self.levels(), current) == Some(
                    slot_view(*s),
                ),
                None => spec_previous_level_before(self.levels(), current) is None,
            },
            r is Some,
    {
        reveal(spec_previous_level_before);
        proof {
            use_type_invariant(self);
        }
        let ghost levels = self.levels();
        let n = self.ordered_levels.len();
        if n == 0 {
            return None;
        }
        let mut i: usize = n;
        while i > 0
            invariant
                n == self.ordered_levels@.len(),
                levels == self.levels(),
                i <= n,
                forall|k: int| i <= k < n ==> levels[k].0 >= current,
            decreases i,
        {
            if self.ordered_levels[i - 1].number < current {
                proof {
                    assert(levels[i - 1].0 < current);
                    lemma_previous_is(levels, current, i - 1);
                }
                return Some(&self.ordered_levels[i - 1]);
            }
            i -= 1;
        }
        Some(&self.ordered_levels[n - 1])
    }

    pub fn mark_transition_start(&mut self)
        ensures
            final(self).pending(),
            final(self).levels() == old(self).levels(),
            final(self).trigger() == old(self).trigger(),
    {
        proof {
            use_type_invariant(&*self);
        }
        self.pending_transition = true;
    }

    pub fn mark_transition_end(&mut self)
        ensures
            !final(self).pending(),
            final(self).levels() == old(self).levels(),
            final(self).trigger() == old(self).trigger(),
    {
        proof {
            use_type_invariant(&*self);
        }
        self.pending_transition = false;
    }

    pub fn is_transition_pending(&self) -> (r: bool)
        ensures
            r == self.pending(),
    {
        self.pending_transition
    }

    pub fn trigger_file(&self) -> (r: &str)
        ensures
            r@ == self.trigger(),
    {
        self.trigger_file.as_str()
    }

    pub fn set_trigger_file(&mut self, path: String)
        ensures
            final(self).trigger() == path@,
            final(self).levels() == old(self).levels(),
            final(self).pending() == old(self).pending(),
    {
        proof {
            use_type_invariant(&*self);
        }
        self.trigger_file = path;
    }
}

/// Level numbers strictly increase along the list.
pub open spec fn strictly_increasing(levels: Seq<SlotView>) -> bool {
    forall|i: int, j: int| 0 <= i < j < levels.len() ==> levels[i].0 < levels[j].0
}

proof fn lemma_next_is(levels: Seq<SlotView>, current: u32, i: int)
    requires
        0 <= i < levels.len(),
        levels[i].0 > current,
        forall|k: int| 0 <= k < i ==> levels[k].0 <= current,
    ensures
        spec_next_level_after(levels, current) == Some(levels[i]),
{
    reveal(spec_next_level_after);
    let j = choose|j: int|
        0 <= j < levels.len() && levels[j].0 > current && forall|k: int|
            0 <= k < j ==> levels[k].0 <= current;
    if j < i {
        assert(levels[j].0 <= current);
    } else if i < j {
        assert(levels[i].0 <= current);
    }
}

proof fn lemma_previous_is(levels: Seq<SlotView>, current: u32, i: int)
    requires
        0 <= i < levels.len(),
        levels[i].0 < current,
        forall|k: int| i < k < levels.len() ==> levels[k].0 >= current,
    ensures
        spec_previous_level_before(levels, current) == Some(levels[i]),
{
    reveal(spec_previous_level_before);
    let j = choose|j: int|
        0 <= j < levels.len() && levels[j].0 < current && forall|k: int|
            j < k < levels.len() ==> levels[k].0 >= current;
    if j < i {
        assert(levels[i].0 >= current);
    } else if i < j {
        assert(levels[j].0 >= current);
    }
}

proof fn lemma_previous_of_first_wraps(levels: Seq<SlotView>)
    requires
        strictly_increasing(levels),
        levels.len() > 0,
    ensures
        spec_previous_level_before(levels, levels[0].0) == Some(levels.last()),
{
    reveal(spec_previous_level_before);
    let n = levels.len();
    let first = levels[0].0;
    assert forall|j: int| 0 <= j < n implies !(levels[j].0 < first) by {
        if j > 0 {
            assert(levels[0].0 < levels[j].0);
        }
    }
}

proof fn lemma_next_of_last_wraps(levels: Seq<SlotView>)
    requires
        strictly_increasing(levels),
        levels.len() > 0,
    ensures
        spec_next_level_after(levels, levels.last().0) == Some(levels[0]),
{
    reveal(spec_next_level_after);
    let n = levels.len();
    let last = levels[n - 1].0;
    assert forall|j: int| 0 <= j < n implies !(levels[j].0 > last) by {
        if j < n - 1 {
            assert(levels[j].0 < levels[n - 1].0);
        }
    }
}

/// On a list without repeated numbers, switching to the previous level and
/// then to the next one comes back to the level started from (wrapping
/// around at both ends).
pub proof fn previous_then_next_returns(levels: Seq<SlotView>, i: int)
    requires
        strictly_increasing(levels),
        0 <= i < levels.len(),
    ensures
        spec_previous_level_before(levels, levels[i].0) matches Some(p)
            && spec_next_level_after(levels, p.0) == Some(levels[i]),
{
    if i > 0 {
        lemma_previous_is(levels, levels[i].0, i - 1);
        lemma_next_is(levels, levels[i - 1].0, i);
    } else {
        lemma_previous_of_first_wraps(levels);
        lemma_next_of_last_wraps(levels);
    }
}

/// On a list without repeated numbers, switching to the next level and then
/// to the previous one comes back to the level started from (wrapping around
/// at both ends).
pub proof fn next_then_previous_returns(levels: Seq<SlotView>, i: int)
    requires
        strictly_increasing(levels),
        0 <= i < levels.len(),
    ensures
        spec_next_level_after(levels, levels[i].0) matches Some(q)
            && spec_previous_level_before(levels, q.0) == Some(levels[i]),
{
    let n = levels.len();
    if i < n - 1 {
        lemma_next_is(levels, levels[i].0, i + 1);
        lemma_previous_is(levels, levels[i + 1].0, i);
    } else {
        lemma_next_of_last_wraps(levels);
        lemma_previous_of_first_wraps(levels);
    }
}

/// On a level list sorted by number, a Next request from level `current`
/// leads to the lowest-numbered level above `current`, or to the first level
/// when none is above it; a Previous request leads to the highest-numbered
/// level below `current`, or to the last level when none is below it. The
/// target is always one of the listed levels.
pub proof fn switch_targets_move_in_their_direction(levels: Seq<SlotView>, current: u32)
    requires
        sorted_by_number(levels),
        levels.len() > 0,
    ensures
        spec_switch_target(levels, LevelSwitchDirection::Next, current) matches Some(s) && {
            &&& levels.contains(s)
            &&& (exists|i: int| 0 <= i < levels.len() && #[trigger] levels[i].0 > current) ==> {
                &&& s.0 > current
                &&& forall|k: int|
                    0 <= k < levels.len() && #[trigger] levels[k].0 > current ==> s.0
                        <= levels[k].0
            }
            &&& !(exists|i: int| 0 <= i < levels.len() && #[trigger] levels[i].0 > current)
                ==> s == levels[0]
        },
        spec_switch_target(levels, LevelSwitchDirection::Previous, current) matches Some(s) && {
            &&& levels.contains(s)
            &&& (exists|i: int| 0 <= i < levels.len() && #[trigger] levels[i].0 < current) ==> {
                &&& s.0 < current
                &&& forall|k: int|
                    0 <= k < levels.len() && #[trigger] levels[k].0 < current ==> levels[k].0
                        <= s.0
            }
            &&& !(exists|i: int| 0 <= i < levels.len() && #[trigger] levels[i].0 < current)
                ==> s == levels.last()
        },
{
    reveal(spec_next_level_after);
    reveal(spec_previous_level_before);
    let n = levels.len();
    if exists|i: int|
        0 <= i < n && levels[i].0 > current && forall|k: int| 0 <= k < i ==> levels[k].0 <= current {
        let i = choose|i: int|
            0 <= i < n && levels[i].0 > current && forall|k: int|
                0 <= k < i ==> levels[k].0 <= current;
        assert(levels.contains(levels[i]));
        assert forall|k: int| 0 <= k < n && #[trigger] levels[k].0 > current implies levels[i].0
            <= levels[k].0 by {
            if k < i {
                assert(levels[k].0 <= current);
            }
        }
    } else {
        assert(levels.contains(levels[0]));
        assert forall|i: int| 0 <= i < n implies !(#[trigger] levels[i].0 > current) by {
            if levels[i].0 > current {
                lemma_first_above(levels, current, i);
            }
        }
    }
    if exists|i: int|
        0 <= i < n && levels[i].0 < current && forall|k: int| i < k < n ==> levels[k].0 >= current {
        let i = choose|i: int|
            0 <= i < n && levels[i].0 < current && forall|k: int| i < k < n ==> levels[k].0 >= current;
        assert(levels.contains(levels[i]));
        assert forall|k: int| 0 <= k < n && #[trigger] levels[k].0 < current implies levels[k].0
            <= levels[i].0 by {
            if k > i {
                assert(levels[k].0 >= current);
            }
        }
    } else {
        assert(levels.contains(levels[n - 1]));
        assert forall|i: int| 0 <= i < n implies !(#[trigger] levels[i].0 < current) by {
            if levels[i].0 < current {
                lemma_last_below(levels, current, i);
            }
        }
    }
}

/// When some entry is above `current`, there is a first such entry.
proof fn lemma_first_above(levels: Seq<SlotView>, current: u32, i: int)
    requires
        0 <= i < levels.len(),
        levels[i].0 > current,
    ensures
        exists|j: int|
            0 <= j < levels.len() && levels[j].0 > current && forall|k: int|
                0 <= k < j ==> levels[k].0 <= current,
    decreases i,
{
    if exists|k: int| 0 <= k < i && levels[k].0 > current {
        let k = choose|k: int| 0 <= k < i && levels[k].0 > current;
        lemma_first_above(levels, current, k);
    } else {
        assert(forall|k: int| 0 <= k < i ==> levels[k].0 <= current);
    }
}

/// When some entry is below `current`, there is a last such entry.
proof fn lemma_last_below(levels: Seq<SlotView>, current: u32, i: int)
    requires
        0 <= i < levels.len(),
        levels[i].0 < current,
    ensures
        exists|j: int|
            0 <= j < levels.len() && levels[j].0 < current && forall|k: int|
                j < k < levels.len() ==> levels[k].0 >= current,
    decreases levels.len() - i,
{
    if exists|k: int| i < k < levels.len() && levels[k].0 < current {
        let k = choose|k: int| i < k < levels.len() && levels[k].0 < current;
        lemma_last_below(levels, current, k);
    } else {
        assert(forall|k: int| i < k < levels.len() ==> levels[k].0 >= current);
    }
}

/// What a frame's switch requests lead to.
#[derive(Debug, Clone, PartialEq, Eq)]
pub enum LevelSwitchOutcome {
    /// There was no request.
    NoRequest,
    /// A level transition is already under way; the requests are dropped.
    Busy,
    /// The level list is empty.
    NoLevels,
    /// Load the level in this slot.
    Switch(LevelSlot),
}

/// The slot a request leads to from level `current`.
pub open spec fn spec_switch_target(
    levels: Seq<SlotView>,
    direction: LevelSwitchDirection,
    current: u32,
) -> Option<SlotView> {
    match direction {
        LevelSwitchDirection::Next => spec_next_level_after(levels, current),
        LevelSwitchDirection::Previous => spec_previous_level_before(levels, current),
    }
}

/// Decides what this frame's switch requests do. Only the first request is
/// served; the rest are dropped. Nothing is served while a switch or a level
/// advance is under way. Without a current level the lookup starts from 0.
pub fn plan_level_switch(
    state: &LevelSwitchState,
    level_advance_active: bool,
    current_level: Option<u32>,
    requests: &Vec<LevelSwitchRequested>,
) -> (out: LevelSwitchOutcome)
    ensures
        requests@.len() == 0 ==> out == LevelSwitchOutcome::NoRequest,
        requests@.len() > 0 && (state.pending() || level_advance_active) ==> out
            == LevelSwitchOutcome::Busy,
        requests@.len() > 0 && !state.pending() && !level_advance_active ==> ({
            let current = match current_level {
                Some(n) => n,
                None => 0u32,
            };
            out matches LevelSwitchOutcome::Switch(slot) && Some(slot_view(slot))
                == spec_switch_target(state.levels(), requests@[0].direction, current)
        }),
{
    if requests.len() == 0 {
        return LevelSwitchOutcome::NoRequest;
    }
    if state.is_transition_pending() || level_advance_active {
        return LevelSwitchOutcome::Busy;
    }
    let current = match current_level {
        Some(n) => n,
        None => 0,
    };
    let target = match requests[0].direction {
        LevelSwitchDirection::Next => state.next_level_after(current),
        LevelSwitchDirection::Previous => state.previous_level_before(current),
    };
    match target {
        Some(slot) => LevelSwitchOutcome::Switch(copy_slot(slot)),
        None => LevelSwitchOutcome::NoLevels,
    }
}

} // verus!
