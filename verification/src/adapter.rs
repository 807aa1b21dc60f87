//! Native control adapter: the vocabulary of actions the controller hands to
//! the host for execution, and the interpretation of the external control
//! tool's outcome into the library's error taxonomy.

use vstd::prelude::*;

use crate::errors::Error;

verus! {

/// A subcommand of the external control tool.
#[derive(Clone, Copy, Debug, PartialEq, Eq, Structural)]
pub enum ToolCommand {
    /// Make the service manager load a unit from its descriptor path.
    Load,
    /// Make the service manager forget a unit by its descriptor path.
    Unload,
    /// Start the named unit.
    Start,
    /// Stop the named unit.
    Stop,
}

/// The verb the control tool expects on its command line for a command.
pub open spec fn verb_text(command: ToolCommand) -> Seq<char> {
    match command {
        ToolCommand::Load => "load"@,
        ToolCommand::Unload => "unload"@,
        ToolCommand::Start => "start"@,
        ToolCommand::Stop => "stop"@,
    }
}

impl ToolCommand {
    /// The command-line verb for this command.
    pub fn verb(&self) -> (r: &'static str)
        ensures
            r@ == verb_text(*self),
    {
        match self {
            ToolCommand::Load => "load",
            ToolCommand::Unload => "unload",
            ToolCommand::Start => "start",
            ToolCommand::Stop => "stop",
        }
    }
}

/// One step of a controller operation. The host executes the steps of a plan
/// in order and stops at the first failure.
#[derive(Debug, Clone, PartialEq)]
pub enum Action {
    /// Create the descriptor file at `path` with `content`; fails when a
    /// file already stands there — registering a service twice must
    /// surface the conflict, never overwrite silently — or when the
    /// filesystem refuses the write.
    CreateFile { path: String, content: String },
    /// Remove the descriptor file at `path`; fails when the file is absent.
    RemoveFile { path: String },
    /// Invoke the external control tool with `command` on `target`
    /// (a descriptor path for load/unload, a unit name for start/stop).
    RunTool { command: ToolCommand, target: String },
}

/// What became of one invocation of the external control tool.
#[derive(Debug, Clone)]
pub enum ToolOutcome {
    /// The tool could not be spawned at all.
    SpawnFailed { message: String },
    /// The tool ran to completion; `success` is whether it exited with zero.
    Completed { success: bool, stdout: String, stderr: String },
}

/// The diagnostic payload carried by a control-tool failure: the tool's
/// standard error followed by its standard output.
pub open spec fn diagnostic_text(stderr: Seq<char>, stdout: Seq<char>) -> Seq<char> {
    stderr + stdout
}

/// Translate a control-tool outcome into the library's error taxonomy:
/// a zero exit succeeds and yields the tool's standard output for
/// diagnostic logging; a non-zero exit or a spawn failure becomes a
/// `ControlToolFailure` carrying the command, the target and the tool's
/// own words. Nothing is retried here.
pub fn interpret_tool_outcome(command: ToolCommand, target: &str, outcome: ToolOutcome) -> (r:
    Result<String, Error>)
    ensures
        match outcome {
            ToolOutcome::Completed { success: true, stdout, .. } => {
                &&& r matches Ok(out) && out@ == stdout@
            },
            ToolOutcome::Completed { success: false, stdout, stderr } => {
                &&& r matches Err(e)
                &&& e matches Error::ControlToolFailure { operation, target: t, message }
                    && operation == command && t@ == target@ && message@ == diagnostic_text(
                    stderr@,
                    stdout@,
                )
            },
            ToolOutcome::SpawnFailed { message } => {
                &&& r matches Err(e)
                &&& e matches Error::ControlToolFailure { operation, target: t, message: m }
                    && operation == command && t@ == target@ && m@ == message@
            },
        },
{
    match outcome {
        ToolOutcome::Completed { success, stdout, stderr } => {
            if success {
                Ok(stdout)
            } else {
                let mut message = stderr;
                message.append(stdout.as_str());
                Err(
                    Error::ControlToolFailure {
                        operation: command,
                        target: target.to_owned(),
                        message,
                    },
                )
            }
        },
        ToolOutcome::SpawnFailed { message } => {
            Err(Error::ControlToolFailure { operation: command, target: target.to_owned(), message })
        },
    }
}

} // verus!
