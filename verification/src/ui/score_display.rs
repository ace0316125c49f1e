//! The score display of the game screen.

use vstd::prelude::*;

use crate::text::{decimal, label_with_number};

verus! {

/// `Score: <n>`.
pub fn score_text(current_score: u32) -> (s: String)
    ensures
        s@ == "Score: "@ + decimal(current_score as nat),
{
    label_with_number("Score: ", current_score)
}

} // verus!
