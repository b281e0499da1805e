//! The kinds of failure the editor reports.

use vstd::prelude::*;

verus! {

/// What can go wrong while editing. None of these ends a session.
#[derive(Clone, Copy, Debug, PartialEq, Eq, Structural)]
pub enum EditorError {
    /// A row or column lies outside the document.
    OutOfBounds,
    /// The command line holds no known command.
    UnknownCommand,
    /// Loading or saving failed, or a save has no path to write to.
    IoFailure,
}

impl EditorError {
    /// The status line for this error.
    pub open spec fn message_text(self) -> Seq<char> {
        match self {
            EditorError::OutOfBounds => "position is outside the buffer"@,
            EditorError::UnknownCommand => "not an editor command"@,
            EditorError::IoFailure => "file could not be read or written"@,
        }
    }

    /// The text shown to the user when this error is reported.
    pub fn message(&self) -> (text: &'static str)
        ensures
            text@ == self.message_text(),
    {
        match self {
            EditorError::OutOfBounds => "position is outside the buffer",
            EditorError::UnknownCommand => "not an editor command",
            EditorError::IoFailure => "file could not be read or written",
        }
    }
}

} // verus!
