//! The lives counter of the game screen.

use vstd::prelude::*;

use crate::text::{decimal, label_with_number};

verus! {

/// `Lives: <n>`.
pub fn lives_text(lives_remaining: u8) -> (s: String)
    ensures
        s@ == "Lives: "@ + decimal(lives_remaining as nat),
{
    label_with_number("Lives: ", lives_remaining as u32)
}

} // verus!
