//! The one error type of the pipeline.

use vstd::prelude::*;

verus! {

/// A failure, tagged by the part that failed and carrying a message for a
/// human reader.
#[derive(Debug, Clone)]
pub enum AppError {
    /// Acquisition, decoding or analysis failed.
    Audio(String),
    /// The stored settings could not be found, read or written.
    Config(String),
}

impl AppError {
    /// The message, whatever the tag.
    pub open spec fn text(&self) -> Seq<char> {
        match self {
            AppError::Audio(message) => message@,
            AppError::Config(message) => message@,
        }
    }

    /// A copy of the message, whatever the tag.
    pub fn message(&self) -> (message: String)
        ensures
            message@ == self.text(),
    {
        match self {
            AppError::Audio(message) => message.clone(),
            AppError::Config(message) => message.clone(),
        }
    }
}

} // verus!
