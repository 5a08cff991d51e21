//! The failures a command can end in.

use vstd::prelude::*;

verus! {

/// Why a command could not be carried out.
#[derive(Clone, Copy, Debug, PartialEq, Eq, Structural)]
pub enum TabError {
    /// The window the command names does not exist.
    WindowNotFound,
    /// No surface is bound to the tab the command names.
    WebviewNotFound,
    /// The text given as a tab identifier is not one.
    InvalidIdentifier,
    /// The history direction is none of back, reload, forward.
    InvalidNavigationAction,
    /// The address to navigate to is malformed.
    UrlParseError,
    /// The host reported that a surface operation failed.
    SurfaceOperationFailed,
}

impl TabError {
    /// The text shown to the user for this failure.
    pub open spec fn message_spec(self) -> Seq<char> {
        match self {
            TabError::WindowNotFound => "Window not found"@,
            TabError::WebviewNotFound => "Webview not found"@,
            TabError::InvalidIdentifier => "Invalid tab identifier"@,
            TabError::InvalidNavigationAction => "Invalid navigation action"@,
            TabError::UrlParseError => "Failed to parse URL"@,
            TabError::SurfaceOperationFailed => "Surface operation failed"@,
        }
    }

    /// Renders the failure as the text that commands hand to the user.
    pub fn message(&self) -> (text: String)
        ensures
            text@ == self.message_spec(),
    {
        match self {
            TabError::WindowNotFound => "Window not found".to_owned(),
            TabError::WebviewNotFound => "Webview not found".to_owned(),
            TabError::InvalidIdentifier => "Invalid tab identifier".to_owned(),
            TabError::InvalidNavigationAction => "Invalid navigation action".to_owned(),
            TabError::UrlParseError => "Failed to parse URL".to_owned(),
            TabError::SurfaceOperationFailed => "Surface operation failed".to_owned(),
        }
    }
}

} // verus!
