use std::collections::HashMap;
use std::collections::HashSet;

use ceviche::adapter::{Action, ToolCommand};
use ceviche::controller::{parent_dir, MacosController};
use ceviche::errors::{io_failure, Error};

/// Run a plan the way the host does — actions in order, first failure
/// aborts, descriptors created exclusively — against an in-memory picture
/// of the filesystem and of the service manager's loaded units.
fn run_on(
    files: &mut HashMap<String, String>,
    loaded: &mut HashSet<String>,
    plan: Vec<Action>,
) -> Result<(), Error> {
    for action in plan {
        match action {
            Action::CreateFile { path, content } => {
                if files.contains_key(&path) {
                    return Err(io_failure(&path, "File exists".to_string()));
                }
                files.insert(path, content);
            }
            Action::RemoveFile { path } => {
                if files.remove(&path).is_none() {
                    return Err(io_failure(&path, "No such file or directory".to_string()));
                }
            }
            Action::RunTool { command, target } => match command {
                ToolCommand::Load => {
                    loaded.insert(target);
                }
                ToolCommand::Unload => {
                    loaded.remove(&target);
                }
                ToolCommand::Start | ToolCommand::Stop => {}
            },
        }
    }
    Ok(())
}

#[test]
fn new_controller_defaults() {
    let controller = MacosController::new("svc", "Service", "a service");
    assert_eq!(controller.service_name, "svc");
    assert_eq!(controller.display_name, "Service");
    assert_eq!(controller.description, "a service");
    assert!(!controller.is_agent);
    assert!(controller.session_types.is_none());
    assert!(controller.keep_alive);
}

#[test]
fn plist_path_by_scope() {
    let daemon = MacosController::new("svc", "Svc", "d");
    assert_eq!(daemon.plist_path(), "/Library/LaunchDaemons/svc.plist");
    let mut agent = MacosController::new("svc", "Svc", "a");
    agent.is_agent = true;
    assert_eq!(agent.plist_path(), "/Library/LaunchAgents/svc.plist");
}

#[test]
fn plist_path_is_stable_across_calls() {
    let controller = MacosController::new("svc", "Svc", "d");
    assert_eq!(controller.plist_path(), controller.plist_path());
    let other = MacosController::new("svc", "Another Name", "another description");
    assert_eq!(controller.plist_path(), other.plist_path());
}

#[test]
fn parent_dir_cases() {
    assert_eq!(parent_dir("/usr/local/bin/sample"), "/usr/local/bin");
    assert_eq!(parent_dir("/sample"), "/");
    assert_eq!(parent_dir("/opt/svc"), "/opt");
}

#[test]
fn create_plan_of_daemon_writes_then_loads() {
    let controller = MacosController::new("svc", "Svc", "d");
    let plan = controller.create_plan("/opt/svc/bin/svc");
    let path = controller.plist_path();
    let content = controller.descriptor_content("/opt/svc/bin/svc");
    assert_eq!(
        plan,
        vec![
            Action::CreateFile { path: path.clone(), content },
            Action::RunTool { command: ToolCommand::Load, target: path },
        ]
    );
}

#[test]
fn delete_plan_of_daemon_unloads_then_removes() {
    let controller = MacosController::new("svc", "Svc", "d");
    let path = controller.plist_path();
    assert_eq!(
        controller.delete_plan(),
        vec![
            Action::RunTool { command: ToolCommand::Unload, target: path.clone() },
            Action::RemoveFile { path },
        ]
    );
}

#[test]
fn agent_plans_skip_the_manager() {
    let mut controller = MacosController::new("svc", "Svc", "a");
    controller.is_agent = true;
    let path = controller.plist_path();
    let content = controller.descriptor_content("/opt/svc/bin/svc");
    assert_eq!(
        controller.create_plan("/opt/svc/bin/svc"),
        vec![Action::CreateFile { path: path.clone(), content }]
    );
    assert_eq!(controller.delete_plan(), vec![Action::RemoveFile { path }]);
}

#[test]
fn start_and_stop_plans_go_by_name() {
    let controller = MacosController::new("svc", "Svc", "d");
    assert_eq!(
        controller.start_plan(),
        vec![Action::RunTool { command: ToolCommand::Start, target: "svc".to_string() }]
    );
    assert_eq!(
        controller.stop_plan(),
        vec![Action::RunTool { command: ToolCommand::Stop, target: "svc".to_string() }]
    );
}

#[test]
fn load_and_unload_plans_go_by_path() {
    let controller = MacosController::new("svc", "Svc", "d");
    let path = controller.plist_path();
    assert_eq!(
        controller.load_plan(),
        vec![Action::RunTool { command: ToolCommand::Load, target: path.clone() }]
    );
    assert_eq!(
        controller.unload_plan(),
        vec![Action::RunTool { command: ToolCommand::Unload, target: path }]
    );
}

#[test]
fn create_then_delete_leaves_no_trace() {
    let controller = MacosController::new("svc", "Svc", "d");
    let mut files = HashMap::new();
    let mut loaded = HashSet::new();
    run_on(&mut files, &mut loaded, controller.create_plan("/opt/svc/bin/svc")).unwrap();
    assert!(files.contains_key(&controller.plist_path()));
    assert!(loaded.contains(&controller.plist_path()));
    run_on(&mut files, &mut loaded, controller.delete_plan()).unwrap();
    assert!(!files.contains_key(&controller.plist_path()));
    assert!(!loaded.contains(&controller.plist_path()));
}

#[test]
fn second_create_surfaces_conflict_without_overwriting() {
    let controller = MacosController::new("svc", "Svc", "d");
    let mut files = HashMap::new();
    let mut loaded = HashSet::new();
    run_on(&mut files, &mut loaded, controller.create_plan("/opt/svc/bin/svc")).unwrap();
    let first_content = files.get(&controller.plist_path()).unwrap().clone();
    let result = run_on(&mut files, &mut loaded, controller.create_plan("/opt/other/bin/svc"));
    match result {
        Err(Error::IoError { path, .. }) => assert_eq!(path, controller.plist_path()),
        other => panic!("expected a conflict as an IoError, got {:?}", other),
    }
    assert_eq!(files.get(&controller.plist_path()), Some(&first_content));
}

#[test]
fn delete_without_create_fails_with_io_error() {
    let controller = MacosController::new("svc", "Svc", "d");
    let mut files = HashMap::new();
    let mut loaded = HashSet::new();
    let result = run_on(&mut files, &mut loaded, controller.delete_plan());
    match result {
        Err(Error::IoError { path, .. }) => assert_eq!(path, controller.plist_path()),
        other => panic!("expected an IoError, got {:?}", other),
    }
}
