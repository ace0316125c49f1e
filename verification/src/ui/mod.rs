//! The interface: error messages of the UI systems, the gravity indicator,
//! the designer palette and the texts and overlays of the game screen.

use vstd::prelude::*;
use vstd::string::*;

pub mod cheat_indicator;
pub mod game_over_overlay;
pub mod gravity_indicator;
pub mod level_label;
pub mod lives_counter;
pub mod palette;
pub mod pause_overlay;
pub mod score_display;

verus! {

/// Errors of the UI systems, each with a message.
#[derive(Debug, Clone)]
pub enum UiSystemError {
    EntityNotFound(String),
    ResourceNotFound(String),
    AssetNotAvailable(String),
    SetupError(String),
    Other(String),
}

/// The text of an error: a prefix naming its kind, then its message.
pub open spec fn spec_ui_error_text(e: UiSystemError) -> Seq<char> {
    match e {
        UiSystemError::EntityNotFound(m) => "UI entity not found: "@ + m@,
        UiSystemError::ResourceNotFound(m) => "UI resource not found: "@ + m@,
        UiSystemError::AssetNotAvailable(m) => "UI asset not available: "@ + m@,
        UiSystemError::SetupError(m) => "UI setup error: "@ + m@,
        UiSystemError::Other(m) => "UI error: "@ + m@,
    }
}

impl UiSystemError {
    /// The error's text, as it is displayed.
    pub fn message(&self) -> (s: String)
        ensures
            s@ == spec_ui_error_text(*self),
    {
        let (prefix, msg) = match self {
            UiSystemError::EntityNotFound(m) => ("UI entity not found: ", m),
            UiSystemError::ResourceNotFound(m) => ("UI resource not found: ", m),
            UiSystemError::AssetNotAvailable(m) => ("UI asset not available: ", m),
            UiSystemError::SetupError(m) => ("UI setup error: ", m),
            UiSystemError::Other(m) => ("UI error: ", m),
        };
        let mut s = String::from_str(prefix);
        s.append(msg.as_str());
        s
    }
}

} // verus!
