//! A model of the host the plans act on: the descriptor files on disk, the
//! units the service manager has loaded, the units running, the paths the
//! filesystem refuses to write, and which tool invocations the host would
//! refuse — and what executing a plan does to it. The host executes a
//! plan's actions in order and stops at the first one that cannot succeed:
//! creating a file that is already there (a registration conflict) or that
//! the filesystem refuses, removing a file that is not there, or a tool
//! invocation the host refuses (a non-zero exit or an unspawnable tool).

use vstd::prelude::*;

use crate::adapter::{Action, ToolCommand};
use crate::controller::{action_is_create, action_is_remove, is_create_plan, is_delete_plan};

verus! {

/// The observable state of the host: which descriptor file holds which
/// text, which descriptor paths the manager has loaded, which units (by
/// name) are running, which paths cannot be written, and which tool
/// invocations the host refuses.
pub struct HostState {
    /// The descriptor files on disk, path to content.
    pub files: Map<Seq<char>, Seq<char>>,
    /// The descriptor paths the service manager has loaded.
    pub loaded: Set<Seq<char>>,
    /// The names of the units that are running.
    pub active: Set<Seq<char>>,
    /// The paths where writing fails — a directory that does not exist,
    /// permission denied, a full disk.
    pub unwritable: Set<Seq<char>>,
    /// The tool invocations, by command and target, that come back as a
    /// failure rather than taking effect.
    pub refused: Set<(ToolCommand, Seq<char>)>,
}

/// What one successful action does to the host.
pub open spec fn apply_action(s: HostState, a: Action) -> HostState {
    match a {
        Action::CreateFile { path, content } => HostState {
            files: s.files.insert(path@, content@),
            ..s
        },
        Action::RemoveFile { path } => HostState { files: s.files.remove(path@), ..s },
        Action::RunTool { command, target } => match command {
            ToolCommand::Load => HostState { loaded: s.loaded.insert(target@), ..s },
            ToolCommand::Unload => HostState { loaded: s.loaded.remove(target@), ..s },
            ToolCommand::Start => HostState { active: s.active.insert(target@), ..s },
            ToolCommand::Stop => HostState { active: s.active.remove(target@), ..s },
        },
    }
}

/// Whether an action succeeds on this host: creating a file needs the path
/// to be free — a descriptor already there is a registration conflict, not
/// something to overwrite — and the filesystem willing; removing needs the
/// file to be there; a tool invocation succeeds unless the host refuses it.
pub open spec fn action_enabled(s: HostState, a: Action) -> bool {
    match a {
        Action::CreateFile { path, .. } => !s.files.contains_key(path@)
            && !s.unwritable.contains(path@),
        Action::RemoveFile { path } => s.files.contains_key(path@),
        Action::RunTool { command, target } => !s.refused.contains((command, target@)),
    }
}

/// How running a plan ended: either every action succeeded, or execution
/// stopped at the first failing action, leaving the state the earlier
/// actions produced.
pub enum PlanResult {
    /// Every action of the plan succeeded.
    Completed { state: HostState },
    /// `action` was the first that failed; `state` is the host as the
    /// actions before it left it. Nothing is rolled back.
    Failed { state: HostState, action: Action },
}

/// Run a plan: actions in order, aborting at the first failing one.
pub open spec fn run_plan(s: HostState, plan: Seq<Action>) -> PlanResult
    decreases plan.len(),
{
    if plan.len() == 0 {
        PlanResult::Completed { state: s }
    } else if !action_enabled(s, plan[0]) {
        PlanResult::Failed { state: s, action: plan[0] }
    } else {
        run_plan(apply_action(s, plan[0]), plan.subrange(1, plan.len() as int))
    }
}

/// Whether every action of the plan succeeds on this host.
pub open spec fn plan_completes(s: HostState, plan: Seq<Action>) -> bool {
    run_plan(s, plan) is Completed
}

/// The host after running the plan, however it ended.
pub open spec fn plan_state(s: HostState, plan: Seq<Action>) -> HostState {
    match run_plan(s, plan) {
        PlanResult::Completed { state } => state,
        PlanResult::Failed { state, .. } => state,
    }
}

/// Creating a fresh service and deleting it right afterwards — on a
/// writable path, with a tool that accepts the load and unload — succeeds
/// and leaves no trace: the descriptor file is gone from disk, a
/// system-wide unit is no longer loaded, and an agent's manager state is
/// exactly what it was.
pub proof fn lemma_create_then_delete_leaves_nothing(
    s0: HostState,
    create: Seq<Action>,
    delete: Seq<Action>,
    agent: bool,
    path: Seq<char>,
    content: Seq<char>,
)
    requires
        is_create_plan(create, agent, path, content),
        is_delete_plan(delete, agent, path),
        !s0.files.contains_key(path),
        !s0.unwritable.contains(path),
        !agent ==> !s0.refused.contains((ToolCommand::Load, path)),
        !agent ==> !s0.refused.contains((ToolCommand::Unload, path)),
    ensures
        plan_completes(s0, create),
        plan_completes(plan_state(s0, create), delete),
        plan_state(plan_state(s0, create), delete).files == s0.files.remove(path),
        !plan_state(plan_state(s0, create), delete).files.contains_key(path),
        !agent ==> !plan_state(plan_state(s0, create), delete).loaded.contains(path),
        agent ==> plan_state(plan_state(s0, create), delete).loaded == s0.loaded,
{
    let s1 = plan_state(s0, create);
    lemma_run_short_plans(s0, create);
    assert(s1.files == s0.files.insert(path, content));
    assert(s1.files.contains_key(path));
    assert(s1.refused == s0.refused);
    let s2 = plan_state(s1, delete);
    lemma_run_short_plans(s1, delete);
    assert(s2.files =~= s0.files.remove(path));
}

/// Unfold the run of a plan of one or two actions far enough that its
/// outcome is plain.
proof fn lemma_run_short_plans(s: HostState, plan: Seq<Action>)
    requires
        1 <= plan.len() <= 2,
    ensures
        plan.len() == 1 && action_enabled(s, plan[0]) ==> run_plan(s, plan)
            == (PlanResult::Completed { state: apply_action(s, plan[0]) }),
        plan.len() == 1 && !action_enabled(s, plan[0]) ==> run_plan(s, plan) == (PlanResult::Failed {
            state: s,
            action: plan[0],
        }),
        plan.len() == 2 && action_enabled(s, plan[0]) && action_enabled(
            apply_action(s, plan[0]),
            plan[1],
        ) ==> run_plan(s, plan) == (PlanResult::Completed {
            state: apply_action(apply_action(s, plan[0]), plan[1]),
        }),
        plan.len() == 2 && action_enabled(s, plan[0]) && !action_enabled(
            apply_action(s, plan[0]),
            plan[1],
        ) ==> run_plan(s, plan) == (PlanResult::Failed {
            state: apply_action(s, plan[0]),
            action: plan[1],
        }),
        plan.len() == 2 && !action_enabled(s, plan[0]) ==> run_plan(s, plan) == (PlanResult::Failed {
            state: s,
            action: plan[0],
        }),
{
    if plan.len() == 1 {
        if action_enabled(s, plan[0]) {
            let rest = plan.subrange(1, 1);
            assert(rest.len() == 0);
            assert(run_plan(apply_action(s, plan[0]), rest) == (PlanResult::Completed {
                state: apply_action(s, plan[0]),
            }));
        }
    } else {
        if action_enabled(s, plan[0]) {
            let rest = plan.subrange(1, 2);
            let s1 = apply_action(s, plan[0]);
            assert(rest[0] == plan[1]);
            assert(rest.subrange(1, 1).len() == 0);
            if action_enabled(s1, rest[0]) {
                assert(run_plan(apply_action(s1, rest[0]), rest.subrange(1, 1))
                    == (PlanResult::Completed { state: apply_action(s1, rest[0]) }));
                assert(run_plan(s1, rest) == (PlanResult::Completed {
                    state: apply_action(s1, rest[0]),
                }));
            } else {
                assert(run_plan(s1, rest) == (PlanResult::Failed {
                    state: s1,
                    action: rest[0],
                }));
            }
        }
    }
}

/// Deleting a service that was never created does not silently succeed.
/// When the tool accepts the unload (an agent needs none), the plan stops
/// at the removal of the absent descriptor — the failure the host maps to
/// the filesystem error.
pub proof fn lemma_delete_without_create_fails(
    s0: HostState,
    delete: Seq<Action>,
    agent: bool,
    path: Seq<char>,
)
    requires
        is_delete_plan(delete, agent, path),
        !s0.files.contains_key(path),
    ensures
        !plan_completes(s0, delete),
        (agent || !s0.refused.contains((ToolCommand::Unload, path))) ==> (run_plan(s0, delete)
            matches PlanResult::Failed { action, .. } && action_is_remove(action, path)),
{
    lemma_run_short_plans(s0, delete);
}

/// A create whose write fails — the descriptor already exists, or the
/// filesystem refuses the path — stops at that first step and reports it:
/// nothing is written over, and no tool call happens before the failure
/// surfaces.
pub proof fn lemma_create_blocked_write_aborts(
    s0: HostState,
    create: Seq<Action>,
    agent: bool,
    path: Seq<char>,
    content: Seq<char>,
)
    requires
        is_create_plan(create, agent, path, content),
        s0.files.contains_key(path) || s0.unwritable.contains(path),
    ensures
        !plan_completes(s0, create),
        (run_plan(s0, create) matches PlanResult::Failed { action, .. } && action_is_create(
            action,
            path,
            content,
        )),
        plan_state(s0, create) == s0,
{
    lemma_run_short_plans(s0, create);
}

/// A create whose load step the tool refuses still leaves the descriptor
/// on disk: the write came first and nothing is rolled back. The service
/// is in a recoverable state — a later delete or load can complete the
/// job — rather than silently absent.
pub proof fn lemma_partial_create_keeps_descriptor(
    s0: HostState,
    create: Seq<Action>,
    path: Seq<char>,
    content: Seq<char>,
)
    requires
        is_create_plan(create, false, path, content),
        !s0.files.contains_key(path),
        !s0.unwritable.contains(path),
        s0.refused.contains((ToolCommand::Load, path)),
    ensures
        !plan_completes(s0, create),
        plan_state(s0, create).files == s0.files.insert(path, content),
        plan_state(s0, create).files.contains_key(path),
{
    lemma_run_short_plans(s0, create);
}

/// Registering the same service twice surfaces a conflict: the first
/// create succeeds, the second fails at its very first step, and the
/// descriptor the first one wrote is still there, word for word — nothing
/// is silently overwritten, whatever text the second attempt carried.
pub proof fn lemma_second_create_surfaces_conflict(
    s0: HostState,
    first: Seq<Action>,
    second: Seq<Action>,
    agent: bool,
    path: Seq<char>,
    first_content: Seq<char>,
    second_content: Seq<char>,
)
    requires
        is_create_plan(first, agent, path, first_content),
        is_create_plan(second, agent, path, second_content),
        !s0.files.contains_key(path),
        !s0.unwritable.contains(path),
        !agent ==> !s0.refused.contains((ToolCommand::Load, path)),
    ensures
        plan_completes(s0, first),
        plan_state(s0, first).files[path] == first_content,
        !plan_completes(plan_state(s0, first), second),
        plan_state(plan_state(s0, first), second) == plan_state(s0, first),
        plan_state(plan_state(s0, first), second).files[path] == first_content,
{
    let s1 = plan_state(s0, first);
    lemma_run_short_plans(s0, first);
    assert(s1.files == s0.files.insert(path, first_content));
    assert(s1.files.contains_key(path));
    lemma_create_blocked_write_aborts(s1, second, agent, path, second_content);
}

} // verus!
