//! The ways in which a run can fail.

use vstd::prelude::*;
use vstd::string::*;

verus! {

/// Why a run was abandoned. Every failure is final: nothing is retried.
#[derive(Debug, PartialEq, Eq)]
pub enum TranscodeError {
    /// `ffmpeg` could not be started, or its version query failed.
    ToolUnavailable,
    /// The format selector, held here, names no preset.
    UnknownFormat(String),
    /// The input path, held here, has no extension that a copy could keep.
    MissingExtension(String),
    /// A file already exists at the output path, held here.
    OutputCollision(String),
    /// `ffmpeg` ran and reported failure.
    ProcessFailure,
    /// No input path was given.
    MissingArgument,
}

/// A [`TranscodeError`] with its texts as plain sequences.
pub enum ErrorView {
    ToolUnavailable,
    UnknownFormat(Seq<char>),
    MissingExtension(Seq<char>),
    OutputCollision(Seq<char>),
    ProcessFailure,
    MissingArgument,
}

impl ErrorView {
    /// The line shown to the user for this failure.
    pub open spec fn message(self) -> Seq<char> {
        match self {
            ErrorView::ToolUnavailable => "could not run: ffmpeg -version"@,
            ErrorView::UnknownFormat(token) => "illegal --format: "@ + token,
            ErrorView::MissingExtension(path) => "expected extension: "@ + path,
            ErrorView::OutputCollision(path) => "output already exists: "@ + path,
            ErrorView::ProcessFailure => "failed to run command"@,
            ErrorView::MissingArgument => "missing <input> argument"@,
        }
    }
}

impl View for TranscodeError {
    type V = ErrorView;

    open spec fn view(&self) -> ErrorView {
        match self {
            TranscodeError::ToolUnavailable => ErrorView::ToolUnavailable,
            TranscodeError::UnknownFormat(token) => ErrorView::UnknownFormat(token@),
            TranscodeError::MissingExtension(path) => ErrorView::MissingExtension(path@),
            TranscodeError::OutputCollision(path) => ErrorView::OutputCollision(path@),
            TranscodeError::ProcessFailure => ErrorView::ProcessFailure,
            TranscodeError::MissingArgument => ErrorView::MissingArgument,
        }
    }
}

impl Clone for TranscodeError {
    fn clone(&self) -> (copy: Self)
        ensures
            copy@ == self@,
    {
        match self {
            TranscodeError::ToolUnavailable => TranscodeError::ToolUnavailable,
            TranscodeError::UnknownFormat(token) => TranscodeError::UnknownFormat(token.clone()),
            TranscodeError::MissingExtension(path) => TranscodeError::MissingExtension(
                path.clone(),
            ),
            TranscodeError::OutputCollision(path) => TranscodeError::OutputCollision(path.clone()),
            TranscodeError::ProcessFailure => TranscodeError::ProcessFailure,
            TranscodeError::MissingArgument => TranscodeError::MissingArgument,
        }
    }
}

impl TranscodeError {
    /// The line shown to the user for this failure, naming the offending
    /// token or path where there is one.
    pub fn message(&self) -> (line: String)
        ensures
            line@ == self@.message(),
    {
        match self {
            TranscodeError::ToolUnavailable => String::from_str("could not run: ffmpeg -version"),
            TranscodeError::UnknownFormat(token) => String::from_str("illegal --format: ").concat(
                token.as_str(),
            ),
            TranscodeError::MissingExtension(path) => String::from_str(
                "expected extension: ",
            ).concat(path.as_str()),
            TranscodeError::OutputCollision(path) => String::from_str(
                "output already exists: ",
            ).concat(path.as_str()),
            TranscodeError::ProcessFailure => String::from_str("failed to run command"),
            TranscodeError::MissingArgument => String::from_str("missing <input> argument"),
        }
    }
}

/// The outcome of a step that yields a text or fails, as plain sequences.
pub open spec fn text_outcome(outcome: Result<String, TranscodeError>) -> Result<
    Seq<char>,
    ErrorView,
> {
    match outcome {
        Ok(text) => Ok(text@),
        Err(e) => Err(e@),
    }
}

/// The outcome of a step that yields nothing or fails, as plain sequences.
pub open spec fn unit_outcome(outcome: Result<(), TranscodeError>) -> Result<(), ErrorView> {
    match outcome {
        Ok(()) => Ok(()),
        Err(e) => Err(e@),
    }
}

} // verus!
