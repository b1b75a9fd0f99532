//! The error taxonomy of a recording run.
//!
//! Every failure of a run is one of these variants; each carries a
//! human-readable message for diagnostics. The contracts of the library
//! pin which variant an operation returns, never the message text.

use vstd::prelude::*;

verus! {

/// A tagged failure of a recording run.
#[derive(Debug)]
pub enum RunError {
    /// The catalog URI did not name a track, album or playlist, or its
    /// identifier part could not be parsed.
    InvalidUri { message: String },
    /// A lookup for an item that the catalog reports as absent.
    NotFound { message: String },
    /// A resolved item is of a kind playback cannot handle (for example a
    /// podcast episode inside a playlist).
    UnsupportedItemKind { message: String },
    /// Malformed upstream data, such as a record without an identifier.
    DataIntegrity { message: String },
    /// A network or API failure of the catalog collaborator; preserves the
    /// underlying message.
    Collaborator { message: String },
    /// The recording device never appeared within the retry budget.
    DeviceNotFound { message: String },
    /// The collaborator reports a playing item other than the requested
    /// track: the recorder may be capturing the wrong audio.
    PlaybackDesync { message: String },
    /// The external recording agent could not be launched.
    ProcessLaunch { message: String },
}

impl RunError {
    /// The diagnostic message carried by the error.
    pub fn message(&self) -> (m: &String)
        ensures
            m@ == self.spec_message(),
    {
        match self {
            RunError::InvalidUri { message } => message,
            RunError::NotFound { message } => message,
            RunError::UnsupportedItemKind { message } => message,
            RunError::DataIntegrity { message } => message,
            RunError::Collaborator { message } => message,
            RunError::DeviceNotFound { message } => message,
            RunError::PlaybackDesync { message } => message,
            RunError::ProcessLaunch { message } => message,
        }
    }

    /// The message as a sequence of characters.
    pub open spec fn spec_message(self) -> Seq<char> {
        match self {
            RunError::InvalidUri { message } => message@,
            RunError::NotFound { message } => message@,
            RunError::UnsupportedItemKind { message } => message@,
            RunError::DataIntegrity { message } => message@,
            RunError::Collaborator { message } => message@,
            RunError::DeviceNotFound { message } => message@,
            RunError::PlaybackDesync { message } => message@,
            RunError::ProcessLaunch { message } => message@,
        }
    }
}

} // verus!
