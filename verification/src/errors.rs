//! Error kinds shared by the library.
//!
//! Failures raised while executing a single tool call are downgraded by the
//! caller into a result envelope; failures outside a tool call terminate the
//! session. Either way the error carries a human-readable description.

use vstd::prelude::*;

verus! {

/// The error taxonomy of the agent: configuration problems, local
/// version-control failures, command execution failures, malformed or absent
/// tool arguments, and tokenizer failures.
#[derive(Debug)]
pub enum CoderError {
    ConfigError(String),
    GitError(String),
    CommandError(String),
    MissingArguments(String),
    TokenizationError(String),
}

impl CoderError {
    /// The description carried by the error, whatever its kind.
    pub open spec fn text(&self) -> Seq<char> {
        match self {
            CoderError::ConfigError(m) => m@,
            CoderError::GitError(m) => m@,
            CoderError::CommandError(m) => m@,
            CoderError::MissingArguments(m) => m@,
            CoderError::TokenizationError(m) => m@,
        }
    }

    /// Hands out the description for display.
    pub fn message(&self) -> (r: &String)
        ensures
            r@ == self.text(),
    {
        match self {
            CoderError::ConfigError(m) => m,
            CoderError::GitError(m) => m,
            CoderError::CommandError(m) => m,
            CoderError::MissingArguments(m) => m,
            CoderError::TokenizationError(m) => m,
        }
    }
}

} // verus!
