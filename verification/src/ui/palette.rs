//! The designer palette: a panel listing brick types (simple 20 and
//! indestructible 90) to pick one from, then place bricks of that type on
//! the grid by dragging.

use vstd::prelude::*;
use vstd::string::*;

use crate::level_format::{INDESTRUCTIBLE_BRICK, SIMPLE_BRICK};
use crate::text::{decimal, push_decimal};

verus! {

/// Whether the palette is open.
#[derive(Debug, Clone, Copy, PartialEq, Eq, Structural)]
pub struct PaletteState {
    pub open: bool,
}

impl Default for PaletteState {
    fn default() -> (s: Self)
        ensures
            !s.open,
    {
        PaletteState { open: false }
    }
}

/// The brick type picked in the palette, if any.
#[derive(Debug, Clone, Copy, PartialEq, Eq, Structural)]
pub struct SelectedBrick {
    pub type_id: Option<u8>,
}

impl Default for SelectedBrick {
    fn default() -> (s: Self)
        ensures
            s.type_id is None,
    {
        SelectedBrick { type_id: None }
    }
}

/// The brick types offered by the palette, in order.
pub fn palette_entries() -> (v: Vec<u8>)
    ensures
        v@ == seq![SIMPLE_BRICK, INDESTRUCTIBLE_BRICK],
{
    vec![SIMPLE_BRICK, INDESTRUCTIBLE_BRICK]
}

/// The caption of a palette entry.
pub open spec fn spec_entry_caption(type_id: u8) -> Seq<char> {
    if type_id == SIMPLE_BRICK {
        decimal(type_id as nat) + " — Simple Brick"@
    } else {
        decimal(type_id as nat) + " — Indestructible (won't count toward completion)"@
    }
}

/// The caption shown above an entry's preview.
pub fn entry_caption(type_id: u8) -> (s: String)
    ensures
        s@ == spec_entry_caption(type_id),
{
    let mut s = String::new();
    push_decimal(&mut s, type_id as u32);
    if type_id == SIMPLE_BRICK {
        s.append(" — Simple Brick");
    } else {
        s.append(" — Indestructible (won't count toward completion)");
    }
    s
}

/// What the palette's panel does on a frame.
#[derive(Debug, Clone, Copy, PartialEq, Eq, Structural)]
pub enum PaletteUiAction {
    Nothing,
    Spawn,
    Despawn,
}

/// On a change of the palette state: an open palette without a panel gets
/// one, a closed palette loses its panel.
pub fn palette_ui_action(state_changed: bool, open: bool, panel_exists: bool) -> (a:
    PaletteUiAction)
    ensures
        a == (if !state_changed {
            PaletteUiAction::Nothing
        } else if open {
            if panel_exists {
                PaletteUiAction::Nothing
            } else {
                PaletteUiAction::Spawn
            }
        } else {
            PaletteUiAction::Despawn
        }),
{
    if !state_changed {
        return PaletteUiAction::Nothing;
    }
    if open {
        if panel_exists {
            PaletteUiAction::Nothing
        } else {
            PaletteUiAction::Spawn
        }
    } else {
        PaletteUiAction::Despawn
    }
}

/// A press on an entry's preview selects its type.
pub fn handle_palette_selection(selected: &mut SelectedBrick, pressed_type: u8)
    ensures
        final(selected).type_id == Some(pressed_type),
{
    selected.type_id = Some(pressed_type);
}

/// Whether an entry's preview is highlighted: it is the selected type.
pub fn preview_highlighted(preview_type: u8, selected: SelectedBrick) -> (r: bool)
    ensures
        r == (selected.type_id == Some(preview_type)),
{
    match selected.type_id {
        Some(t) => t == preview_type,
        None => false,
    }
}

/// A placed brick counts toward completion unless it is indestructible.
pub fn placed_brick_counts(type_id: u8) -> (r: bool)
    ensures
        r == (type_id != 90),
{
    type_id != 90
}

} // verus!
