use ceviche::adapter::{interpret_tool_outcome, ToolCommand, ToolOutcome};
use ceviche::errors::{io_failure, Error};

#[test]
fn tool_verbs() {
    assert_eq!(ToolCommand::Load.verb(), "load");
    assert_eq!(ToolCommand::Unload.verb(), "unload");
    assert_eq!(ToolCommand::Start.verb(), "start");
    assert_eq!(ToolCommand::Stop.verb(), "stop");
}

#[test]
fn successful_tool_run_yields_stdout() {
    let outcome = ToolOutcome::Completed {
        success: true,
        stdout: "service loaded\n".to_string(),
        stderr: String::new(),
    };
    let result = interpret_tool_outcome(ToolCommand::Load, "/Library/LaunchDaemons/svc.plist", outcome);
    assert_eq!(result, Ok("service loaded\n".to_string()));
}

#[test]
fn start_of_unregistered_name_is_control_tool_failure() {
    let outcome = ToolOutcome::Completed {
        success: false,
        stdout: String::new(),
        stderr: "Could not find service \"unregistered-name\" in domain for system\n".to_string(),
    };
    let result = interpret_tool_outcome(ToolCommand::Start, "unregistered-name", outcome);
    match result {
        Err(Error::ControlToolFailure { operation, target, message }) => {
            assert_eq!(operation, ToolCommand::Start);
            assert_eq!(target, "unregistered-name");
            assert!(message.contains("unregistered-name"));
        }
        other => panic!("expected a ControlToolFailure, got {:?}", other),
    }
}

#[test]
fn failure_message_is_stderr_then_stdout() {
    let outcome = ToolOutcome::Completed {
        success: false,
        stdout: "out".to_string(),
        stderr: "err".to_string(),
    };
    let result = interpret_tool_outcome(ToolCommand::Stop, "svc", outcome);
    assert_eq!(
        result,
        Err(Error::ControlToolFailure {
            operation: ToolCommand::Stop,
            target: "svc".to_string(),
            message: "errout".to_string(),
        })
    );
}

#[test]
fn spawn_failure_is_control_tool_failure() {
    let outcome = ToolOutcome::SpawnFailed { message: "No such file or directory".to_string() };
    let result = interpret_tool_outcome(ToolCommand::Unload, "/Library/LaunchDaemons/svc.plist", outcome);
    assert_eq!(
        result,
        Err(Error::ControlToolFailure {
            operation: ToolCommand::Unload,
            target: "/Library/LaunchDaemons/svc.plist".to_string(),
            message: "No such file or directory".to_string(),
        })
    );
}

#[test]
fn error_message_lines() {
    let io = io_failure("/Library/LaunchDaemons/svc.plist", "Permission denied".to_string());
    assert_eq!(
        io.message(),
        "Failed to access /Library/LaunchDaemons/svc.plist: Permission denied"
    );
    let tool = Error::ControlToolFailure {
        operation: ToolCommand::Start,
        target: "svc".to_string(),
        message: "exit code 3".to_string(),
    };
    assert_eq!(tool.message(), "Failed to start svc: exit code 3");
    let env = Error::EnvironmentQueryFailure { message: "no executable".to_string() };
    assert_eq!(env.message(), "Failed to query the environment: no executable");
    let handler = Error::HandlerRegistrationFailure { message: "already registered".to_string() };
    assert_eq!(
        handler.message(),
        "Failed to register the interrupt handler: already registered"
    );
}

#[test]
fn io_failure_carries_path_and_message() {
    let error = io_failure("/Library/LaunchDaemons/svc.plist", "Permission denied".to_string());
    assert_eq!(
        error,
        Error::IoError {
            path: "/Library/LaunchDaemons/svc.plist".to_string(),
            message: "Permission denied".to_string(),
        }
    );
}
