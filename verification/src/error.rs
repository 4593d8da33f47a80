//! The failures that a run reports.

use vstd::prelude::*;
use vstd::string::StringExecFns;

verus! {

/// Which of the two fatal failures ended a run.
#[derive(Clone, Copy, Debug, PartialEq, Eq, Structural)]
pub enum ErrorKind {
    /// The engine rejected the text of some pass.
    Parse,
    /// The result is longer than the input, and growth was not allowed.
    OutputTooLarge,
}

/// A fatal failure of a run. No output comes with it.
#[derive(Debug)]
pub enum RunError {
    /// The engine rejected the text of some pass; its description of why.
    Parse(String),
    /// The result is longer than the input, and growth was not allowed.
    OutputTooLarge,
}

impl RunError {
    /// The kind of this failure.
    pub open spec fn spec_kind(&self) -> ErrorKind {
        match self {
            RunError::Parse(_) => ErrorKind::Parse,
            RunError::OutputTooLarge => ErrorKind::OutputTooLarge,
        }
    }

    /// The kind of this failure.
    #[verifier::when_used_as_spec(spec_kind)]
    pub fn kind(&self) -> (kind: ErrorKind)
        ensures
            kind == self.spec_kind(),
    {
        match self {
            RunError::Parse(_) => ErrorKind::Parse,
            RunError::OutputTooLarge => ErrorKind::OutputTooLarge,
        }
    }

    /// The text that describes this failure to a caller.
    pub open spec fn message_text(&self) -> Seq<char> {
        match self {
            RunError::Parse(reason) => reason@,
            RunError::OutputTooLarge => "Cleaned file is bigger than original."@,
        }
    }

    /// The text that describes this failure: the engine's own words for a
    /// parse failure, a fixed sentence for a result that grew.
    pub fn message(&self) -> (text: String)
        ensures
            text@ == self.message_text(),
    {
        match self {
            RunError::Parse(reason) => reason.clone(),
            RunError::OutputTooLarge => String::from_str("Cleaned file is bigger than original."),
        }
    }
}

} // verus!
