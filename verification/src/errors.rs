//! The error taxonomy of the library.

use vstd::prelude::*;
use vstd::string::StringExecFns;

use crate::adapter::{verb_text, ToolCommand};

verus! {

/// Why a controller or bridge operation failed. Every operation surfaces the
/// first error it meets and aborts its remaining steps; nothing is retried.
#[derive(Debug, Clone, PartialEq)]
pub enum Error {
    /// A filesystem access on the descriptor file failed.
    IoError { path: String, message: String },
    /// The external control tool exited non-zero or could not be spawned.
    ControlToolFailure { operation: ToolCommand, target: String, message: String },
    /// The host could not resolve its own executable path or working
    /// directory, so no descriptor can be generated.
    EnvironmentQueryFailure { message: String },
    /// The process-wide interrupt handler was rejected or already
    /// registered; the service body cannot safely run.
    HandlerRegistrationFailure { message: String },
}

/// The one-line account of an error: what was attempted, on which target,
/// and the underlying words.
pub open spec fn message_text(e: Error) -> Seq<char> {
    match e {
        Error::IoError { path, message } => "Failed to access "@ + path@ + ": "@ + message@,
        Error::ControlToolFailure { operation, target, message } => "Failed to "@ + verb_text(
            operation,
        ) + " "@ + target@ + ": "@ + message@,
        Error::EnvironmentQueryFailure { message } => "Failed to query the environment: "@
            + message@,
        Error::HandlerRegistrationFailure { message } => "Failed to register the interrupt handler: "@
            + message@,
    }
}

impl Error {
    /// The error as one line of text, fit for a log or a terminal.
    pub fn message(&self) -> (r: String)
        ensures
            r@ == message_text(*self),
    {
        let mut r = String::new();
        match self {
            Error::IoError { path, message } => {
                r.append("Failed to access ");
                r.append(path.as_str());
                r.append(": ");
                r.append(message.as_str());
            },
            Error::ControlToolFailure { operation, target, message } => {
                r.append("Failed to ");
                r.append(operation.verb());
                r.append(" ");
                r.append(target.as_str());
                r.append(": ");
                r.append(message.as_str());
            },
            Error::EnvironmentQueryFailure { message } => {
                r.append("Failed to query the environment: ");
                r.append(message.as_str());
            },
            Error::HandlerRegistrationFailure { message } => {
                r.append("Failed to register the interrupt handler: ");
                r.append(message.as_str());
            },
        }
        proof {
            assert(r@ =~= message_text(*self));
        }
        r
    }
}

/// Build the error that reports a failed filesystem access on the
/// descriptor file at `path`.
pub fn io_failure(path: &str, message: String) -> (e: Error)
    ensures
        e matches Error::IoError { path: p, message: m } && p@ == path@ && m@ == message@,
{
    Error::IoError { path: path.to_owned(), message }
}

} // verus!
