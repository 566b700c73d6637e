//! The reasons a process can give for not handing over a result.

use vstd::prelude::*;

verus! {

/// Why a `join` did not produce a value.
#[derive(Debug, PartialEq, Eq)]
pub enum ProcError {
    /// Nothing is left to join: the work was already consumed, or it was forgotten.
    Exhausted,
    /// The work ran and reported a failure of its own; the text describes it.
    Failed(String),
    /// The work panicked before it produced a result.
    Panicked,
    /// The work was cancelled before it produced a result.
    Cancelled,
    /// A channel that should have carried the result was closed first.
    Disconnected,
}

impl ProcError {
    /// The text that describes this error.
    pub open spec fn message_spec(self) -> Seq<char> {
        match self {
            ProcError::Exhausted => "Nothing to join"@,
            ProcError::Failed(text) => text@,
            ProcError::Panicked => "Could not join error"@,
            ProcError::Cancelled => "Task was cancelled"@,
            ProcError::Disconnected => "Channel closed before a result arrived"@,
        }
    }

    /// Renders the error as text.
    pub fn message(&self) -> (text: String)
        ensures
            text@ == self.message_spec(),
    {
        match self {
            ProcError::Exhausted => "Nothing to join".to_owned(),
            ProcError::Failed(text) => text.clone(),
            ProcError::Panicked => "Could not join error".to_owned(),
            ProcError::Cancelled => "Task was cancelled".to_owned(),
            ProcError::Disconnected => "Channel closed before a result arrived".to_owned(),
        }
    }

    /// Whether this is the error of a process that had nothing left to join.
    pub fn is_exhausted(&self) -> (b: bool)
        ensures
            b == (*self is Exhausted),
    {
        match self {
            ProcError::Exhausted => true,
            _ => false,
        }
    }
}

} // verus!
