//! The service controller: the typed configuration of one service, the
//! derived descriptor path, and the plans that realize each lifecycle
//! operation. A plan is the exact ordered sequence of host actions the
//! operation consists of; the host executes it and stops at the first
//! failure.

use vstd::prelude::*;
use vstd::string::StrSliceExecFns;
use vstd::string::StringExecFns;

use crate::adapter::{Action, ToolCommand};
use crate::descriptor::{build_plist, plist_text, LaunchAgentTargetSesssion};

verus! {

/// The configuration of one service, fixed for the life of the controller.
/// Each operation recomputes everything it needs from these fields; no
/// state is cached between calls.
pub struct MacosController {
    /// The unique name the service is registered under.
    pub service_name: String,
    /// The human-readable name.
    pub display_name: String,
    /// A human-readable description.
    pub description: String,
    /// Whether the service is an agent of the logged-in user rather than a
    /// system-wide daemon.
    pub is_agent: bool,
    /// For an agent, the login-session kinds it is restricted to.
    pub session_types: Option<Vec<LaunchAgentTargetSesssion>>,
    /// Whether the service manager should keep the service alive.
    pub keep_alive: bool,
}

/// The descriptor path: the scope picks the well-known directory, the
/// service name picks the file name, and nothing else has a say.
pub open spec fn plist_path_text(agent: bool, name: Seq<char>) -> Seq<char> {
    "/Library/"@ + (if agent {
        "LaunchAgents/"@
    } else {
        "LaunchDaemons/"@
    }) + name + ".plist"@
}

/// The directory that holds the entry named last in `path`: everything up
/// to (and excluding) the final separator, or the root when the final
/// separator is the leading one.
pub open spec fn parent_of(path: Seq<char>) -> Seq<char>
    decreases path.len(),
{
    if path.len() == 0 {
        path
    } else if path.last() == '/' {
        if path.len() == 1 {
            path
        } else {
            path.drop_last()
        }
    } else {
        parent_of(path.drop_last())
    }
}

/// An absolute path to a file: it starts at the root and does not end in a
/// separator. The host resolves the running executable to such a path
/// before any descriptor is built.
pub open spec fn is_absolute_file_path(path: Seq<char>) -> bool {
    &&& path.len() >= 2
    &&& path[0] == '/'
    &&& path.last() != '/'
}

/// Below the last separator of `path` stands no further separator, so the
/// parent is everything before it.
proof fn lemma_parent_at_last_separator(path: Seq<char>, j: int)
    requires
        is_absolute_file_path(path),
        0 <= j < path.len(),
        path[j] == '/',
        forall|k: int| j < k < path.len() ==> path[k] != '/',
    ensures
        parent_of(path) == if j == 0 {
            path.take(1)
        } else {
            path.take(j)
        },
    decreases path.len(),
{
    let head = path.drop_last();
    assert(path.last() != '/');
    assert(j < path.len() - 1);
    assert(parent_of(path) == parent_of(head));
    if j == path.len() - 2 {
        assert(head.last() == path[j] && head.last() == '/');
        if j == 0 {
            assert(head.len() == 1);
            assert(parent_of(head) == head);
            assert(head =~= path.take(1));
        } else {
            assert(head.len() > 1);
            assert(parent_of(head) == head.drop_last());
            assert(head.drop_last() =~= path.take(j));
        }
    } else {
        assert(head.last() == path[path.len() - 2] && path[path.len() - 2] != '/');
        assert(is_absolute_file_path(head));
        assert(forall|k: int| j < k < head.len() ==> head[k] != '/');
        lemma_parent_at_last_separator(head, j);
        if j == 0 {
            assert(head.take(1) =~= path.take(1));
        } else {
            assert(head.take(j) =~= path.take(j));
        }
    }
}

/// The directory that holds the file `path` points at: everything up to the
/// last separator, or the root directory itself when the file sits directly
/// under it.
pub fn parent_dir(path: &str) -> (r: String)
    requires
        is_absolute_file_path(path@),
    ensures
        r@ == parent_of(path@),
{
    let n = path.unicode_len();
    let mut j: usize = n - 1;
    while j > 0 && path.get_char(j) != '/'
        invariant
            is_absolute_file_path(path@),
            n == path@.len(),
            0 <= j < n,
            forall|k: int| j < k < path@.len() ==> path@[k] != '/',
        decreases j,
    {
        j = j - 1;
    }
    assert(path@[j as int] == '/');
    proof {
        lemma_parent_at_last_separator(path@, j as int);
    }
    if j == 0 {
        path.substring_char(0, 1).to_owned()
    } else {
        path.substring_char(0, j).to_owned()
    }
}

/// Whether `a` creates the file at `path` with `content`.
pub open spec fn action_is_create(a: Action, path: Seq<char>, content: Seq<char>) -> bool {
    a matches Action::CreateFile { path: p, content: c } && p@ == path && c@ == content
}

/// Whether `a` removes the file at `path`.
pub open spec fn action_is_remove(a: Action, path: Seq<char>) -> bool {
    a matches Action::RemoveFile { path: p } && p@ == path
}

/// Whether `a` invokes the control tool with `command` on `target`.
pub open spec fn action_is_tool(a: Action, command: ToolCommand, target: Seq<char>) -> bool {
    a matches Action::RunTool { command: c, target: t } && c == command && t@ == target
}

/// The plan of `create`: create the descriptor — a pre-existing descriptor
/// under the same path is a conflict that fails the step, never a silent
/// overwrite — then, only for a system-wide service, have the manager load
/// it. An agent needs no load step; the descriptor's presence and its
/// autostart flag suffice.
pub open spec fn is_create_plan(
    plan: Seq<Action>,
    agent: bool,
    path: Seq<char>,
    content: Seq<char>,
) -> bool {
    if agent {
        plan.len() == 1 && action_is_create(plan[0], path, content)
    } else {
        &&& plan.len() == 2
        &&& action_is_create(plan[0], path, content)
        &&& action_is_tool(plan[1], ToolCommand::Load, path)
    }
}

/// The plan of `delete`: for a system-wide service, first have the manager
/// unload the unit — the manager must not be left knowing a descriptor that
/// is about to vanish — then remove the descriptor file. The removal order
/// is the mirror image of `create`'s.
pub open spec fn is_delete_plan(plan: Seq<Action>, agent: bool, path: Seq<char>) -> bool {
    if agent {
        plan.len() == 1 && action_is_remove(plan[0], path)
    } else {
        &&& plan.len() == 2
        &&& action_is_tool(plan[0], ToolCommand::Unload, path)
        &&& action_is_remove(plan[1], path)
    }
}

impl MacosController {
    /// A controller for a system-wide service with the given names, kept
    /// alive by the manager, with no session restriction.
    pub fn new(service_name: &str, display_name: &str, description: &str) -> (c: MacosController)
        ensures
            c.service_name@ == service_name@,
            c.display_name@ == display_name@,
            c.description@ == description@,
            c.is_agent == false,
            c.session_types is None,
            c.keep_alive == true,
    {
        MacosController {
            service_name: service_name.to_owned(),
            display_name: display_name.to_owned(),
            description: description.to_owned(),
            is_agent: false,
            session_types: None,
            keep_alive: true,
        }
    }

    /// The configured session restriction, as a mathematical value.
    pub open spec fn sessions(&self) -> Option<Seq<LaunchAgentTargetSesssion>> {
        match self.session_types {
            Some(v) => Some(v@),
            None => None,
        }
    }

    /// The descriptor path of this controller.
    pub open spec fn path_spec(&self) -> Seq<char> {
        plist_path_text(self.is_agent, self.service_name@)
    }

    /// The descriptor text of this controller for a given executable path;
    /// the working directory is the directory holding the executable.
    pub open spec fn descriptor_spec(&self, executable: Seq<char>) -> Seq<char> {
        plist_text(
            self.service_name@,
            self.is_agent,
            self.sessions(),
            self.keep_alive,
            executable,
            parent_of(executable),
        )
    }

    /// Where the descriptor of this service lives. A pure function of the
    /// scope and the service name: every operation that recomputes it gets
    /// the same path.
    pub fn plist_path(&self) -> (r: String)
        ensures
            r@ == self.path_spec(),
    {
        let mut r = String::new();
        r.append("/Library/");
        if self.is_agent {
            r.append("LaunchAgents/");
        } else {
            r.append("LaunchDaemons/");
        }
        r.append(self.service_name.as_str());
        r.append(".plist");
        proof {
            assert(r@ =~= self.path_spec());
        }
        r
    }

    /// The descriptor text for this controller, given the absolute path of
    /// the executable the service shall run.
    pub fn descriptor_content(&self, executable_path: &str) -> (r: String)
        requires
            is_absolute_file_path(executable_path@),
        ensures
            r@ == self.descriptor_spec(executable_path@),
    {
        let working_dir = parent_dir(executable_path);
        build_plist(self, executable_path, working_dir.as_str())
    }

    /// The plan of `create`: create the descriptor file — registering the
    /// service a second time finds the file already there and fails, so
    /// the conflict is observable — then load it into the manager when the
    /// scope is system-wide. A failure of the load step after a successful
    /// write leaves the descriptor on disk as a recoverable state; the
    /// host does not roll it back.
    pub fn create_plan(&self, executable_path: &str) -> (plan: Vec<Action>)
        requires
            is_absolute_file_path(executable_path@),
        ensures
            is_create_plan(
                plan@,
                self.is_agent,
                self.path_spec(),
                self.descriptor_spec(executable_path@),
            ),
    {
        let path = self.plist_path();
        let content = self.descriptor_content(executable_path);
        let mut plan: Vec<Action> = Vec::new();
        if self.is_agent {
            plan.push(Action::CreateFile { path, content });
        } else {
            plan.push(Action::CreateFile { path: path.clone(), content });
            plan.push(Action::RunTool { command: ToolCommand::Load, target: path });
        }
        plan
    }

    /// The plan of `delete`: unload the unit from the manager when the
    /// scope is system-wide, then remove the descriptor file. Removing a
    /// descriptor that was never written fails at the removal step.
    pub fn delete_plan(&self) -> (plan: Vec<Action>)
        ensures
            is_delete_plan(plan@, self.is_agent, self.path_spec()),
    {
        let path = self.plist_path();
        let mut plan: Vec<Action> = Vec::new();
        if self.is_agent {
            plan.push(Action::RemoveFile { path });
        } else {
            plan.push(Action::RunTool { command: ToolCommand::Unload, target: path.clone() });
            plan.push(Action::RemoveFile { path });
        }
        plan
    }

    /// The plan of `start`: ask the tool to start the unit by name.
    pub fn start_plan(&self) -> (plan: Vec<Action>)
        ensures
            plan@.len() == 1,
            action_is_tool(plan@[0], ToolCommand::Start, self.service_name@),
    {
        let mut plan: Vec<Action> = Vec::new();
        plan.push(Action::RunTool { command: ToolCommand::Start, target: self.service_name.clone() });
        plan
    }

    /// The plan of `stop`: ask the tool to stop the unit by name.
    pub fn stop_plan(&self) -> (plan: Vec<Action>)
        ensures
            plan@.len() == 1,
            action_is_tool(plan@[0], ToolCommand::Stop, self.service_name@),
    {
        let mut plan: Vec<Action> = Vec::new();
        plan.push(Action::RunTool { command: ToolCommand::Stop, target: self.service_name.clone() });
        plan
    }

    /// The plan of `load`: make the manager load the unit from its
    /// descriptor path without touching the file.
    pub fn load_plan(&self) -> (plan: Vec<Action>)
        ensures
            plan@.len() == 1,
            action_is_tool(plan@[0], ToolCommand::Load, self.path_spec()),
    {
        let mut plan: Vec<Action> = Vec::new();
        plan.push(Action::RunTool { command: ToolCommand::Load, target: self.plist_path() });
        plan
    }

    /// The plan of `unload`: make the manager forget the unit without
    /// touching the descriptor file.
    pub fn unload_plan(&self) -> (plan: Vec<Action>)
        ensures
            plan@.len() == 1,
            action_is_tool(plan@[0], ToolCommand::Unload, self.path_spec()),
    {
        let mut plan: Vec<Action> = Vec::new();
        plan.push(Action::RunTool { command: ToolCommand::Unload, target: self.plist_path() });
        plan
    }
}

/// The descriptor path depends on the scope and the service name alone:
/// two controllers that agree on those agree on the path, whatever their
/// other fields hold.
pub proof fn lemma_path_depends_only_on_scope_and_name(c1: MacosController, c2: MacosController)
    requires
        c1.is_agent == c2.is_agent,
        c1.service_name@ == c2.service_name@,
    ensures
        c1.path_spec() == c2.path_spec(),
{
}

} // verus!
