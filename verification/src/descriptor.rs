//! Descriptor builder: the platform-native service descriptor as a pure
//! function of the typed configuration. Identical input yields
//! byte-identical output; nothing here touches the outside world.

use vstd::prelude::*;
use vstd::string::StringExecFns;

use crate::controller::MacosController;

verus! {

/// The kind of login session an agent-scoped service is restricted to.
#[derive(Clone, Copy, Debug, PartialEq, Eq, Structural)]
pub enum LaunchAgentTargetSesssion {
    /// An interactive graphical session.
    GUI,
    /// A non-graphical session.
    NonGUI,
    /// Any session of the owning user.
    PerUser,
    /// The pre-login window.
    PreLogin,
}

/// The word the descriptor grammar uses for a session kind.
pub open spec fn session_label(target: LaunchAgentTargetSesssion) -> Seq<char> {
    match target {
        LaunchAgentTargetSesssion::GUI => "Aqua"@,
        LaunchAgentTargetSesssion::NonGUI => "StandardIO"@,
        LaunchAgentTargetSesssion::PerUser => "Background"@,
        LaunchAgentTargetSesssion::PreLogin => "LoginWindow"@,
    }
}

impl LaunchAgentTargetSesssion {
    /// The word the descriptor grammar uses for this session kind.
    pub fn label(&self) -> (r: &'static str)
        ensures
            r@ == session_label(*self),
    {
        match self {
            LaunchAgentTargetSesssion::GUI => "Aqua",
            LaunchAgentTargetSesssion::NonGUI => "StandardIO",
            LaunchAgentTargetSesssion::PerUser => "Background",
            LaunchAgentTargetSesssion::PreLogin => "LoginWindow",
        }
    }
}

/// One entry of the session restriction list.
pub open spec fn session_entry(target: LaunchAgentTargetSesssion) -> Seq<char> {
    "\n<string>"@ + session_label(target) + "</string>"@
}

/// The session restriction entries, in the order they were configured.
pub open spec fn session_entries(targets: Seq<LaunchAgentTargetSesssion>) -> Seq<char>
    decreases targets.len(),
{
    if targets.len() == 0 {
        Seq::<char>::empty()
    } else {
        session_entry(targets[0]) + session_entries(targets.subrange(1, targets.len() as int))
    }
}

/// The session restriction list. It is emitted only for an agent-scoped
/// service that names session kinds.
pub open spec fn session_section(
    agent: bool,
    targets: Option<Seq<LaunchAgentTargetSesssion>>,
) -> Seq<char> {
    if agent {
        match targets {
            Some(ts) => "\n<key>LimitLoadToSessionType</key>\n<array>"@ + session_entries(ts)
                + "\n</array>"@,
            None => Seq::<char>::empty(),
        }
    } else {
        Seq::<char>::empty()
    }
}

/// The persistence flag, emitted only when the manager shall keep the
/// service alive.
pub open spec fn keep_alive_section(keep_alive: bool) -> Seq<char> {
    if keep_alive {
        "\n<key>KeepAlive</key>\n<true/>"@
    } else {
        Seq::<char>::empty()
    }
}

/// The whole descriptor text for one configuration: the fixed preamble, the
/// label, the one-element argument list holding the absolute executable
/// path, the working directory, the autostart flag, then the optional
/// session restriction list and persistence flag.
pub open spec fn plist_text(
    name: Seq<char>,
    agent: bool,
    targets: Option<Seq<LaunchAgentTargetSesssion>>,
    keep_alive: bool,
    executable: Seq<char>,
    working_dir: Seq<char>,
) -> Seq<char> {
    "\n<?xml version=\"1.0\" encoding=\"UTF-8\"?>\n<!DOCTYPE plist PUBLIC \"-//Apple//DTD PLIST 1.0//EN\" \"http://www.apple.com/DTDs/PropertyList-1.0.dtd\">\n<plist version=\"1.0\">\n<dict>"@
        + "\n<key>Disabled</key>\n<false/>\n<key>Label</key>\n<string>"@ + name
        + "</string>\n<key>ProgramArguments</key>\n<array>\n<string>"@ + executable
        + "</string>\n</array>\n<key>WorkingDirectory</key>\n<string>"@ + working_dir
        + "</string>\n<key>RunAtLoad</key>\n<true/>"@ + session_section(agent, targets)
        + keep_alive_section(keep_alive) + "\n</dict>\n</plist>"@
}

/// Appending one session kind to the list extends its entries by exactly
/// that kind's entry.
proof fn lemma_session_entries_push(
    targets: Seq<LaunchAgentTargetSesssion>,
    target: LaunchAgentTargetSesssion,
)
    ensures
        session_entries(targets.push(target)) == session_entries(targets) + session_entry(target),
    decreases targets.len(),
{
    let whole = targets.push(target);
    let whole_tail = whole.subrange(1, whole.len() as int);
    assert(whole[0] == if targets.len() == 0 {
        target
    } else {
        targets[0]
    });
    if targets.len() == 0 {
        assert(whole_tail =~= Seq::<LaunchAgentTargetSesssion>::empty());
        assert(session_entries(whole_tail) =~= Seq::<char>::empty());
        assert(session_entries(whole) =~= session_entries(targets) + session_entry(target));
    } else {
        let tail = targets.subrange(1, targets.len() as int);
        assert(whole_tail =~= tail.push(target));
        lemma_session_entries_push(tail, target);
        assert(session_entries(whole_tail) == session_entries(tail) + session_entry(target));
        assert(session_entries(whole) =~= session_entries(targets) + session_entry(target));
    }
}

/// Build the descriptor text for the controller's configuration, with the
/// given absolute executable path and working directory. Pure and total:
/// one configuration has exactly one descriptor text.
pub fn build_plist(c: &MacosController, executable: &str, working_dir: &str) -> (r: String)
    ensures
        r@ == plist_text(
            c.service_name@,
            c.is_agent,
            c.sessions(),
            c.keep_alive,
            executable@,
            working_dir@,
        ),
{
    let mut out = String::new();
    out.append(
        "\n<?xml version=\"1.0\" encoding=\"UTF-8\"?>\n<!DOCTYPE plist PUBLIC \"-//Apple//DTD PLIST 1.0//EN\" \"http://www.apple.com/DTDs/PropertyList-1.0.dtd\">\n<plist version=\"1.0\">\n<dict>",
    );
    out.append("\n<key>Disabled</key>\n<false/>\n<key>Label</key>\n<string>");
    out.append(c.service_name.as_str());
    out.append("</string>\n<key>ProgramArguments</key>\n<array>\n<string>");
    out.append(executable);
    out.append("</string>\n</array>\n<key>WorkingDirectory</key>\n<string>");
    out.append(working_dir);
    out.append("</string>\n<key>RunAtLoad</key>\n<true/>");
    let ghost before_sessions = out@;
    if c.is_agent {
        match &c.session_types {
            Some(targets) => {
                out.append("\n<key>LimitLoadToSessionType</key>\n<array>");
                let ghost list_open = out@;
                let mut i: usize = 0;
                while i < targets.len()
                    invariant
                        i <= targets.len(),
                        out@ == list_open + session_entries(targets@.take(i as int)),
                    decreases targets.len() - i,
                {
                    out.append("\n<string>");
                    out.append(targets[i].label());
                    out.append("</string>");
                    proof {
                        lemma_session_entries_push(targets@.take(i as int), targets@[i as int]);
                        assert(targets@.take(i as int).push(targets@[i as int]) =~= targets@.take(
                            i as int + 1,
                        ));
                        assert(out@ =~= list_open + session_entries(targets@.take(i as int + 1)));
                    }
                    i = i + 1;
                }
                out.append("\n</array>");
                proof {
                    assert(targets@.take(targets@.len() as int) =~= targets@);
                    assert(out@ =~= before_sessions + session_section(c.is_agent, c.sessions()));
                }
            },
            None => {
                proof {
                    assert(out@ =~= before_sessions + session_section(c.is_agent, c.sessions()));
                }
            },
        }
    } else {
        proof {
            assert(out@ =~= before_sessions + session_section(c.is_agent, c.sessions()));
        }
    }
    if c.keep_alive {
        out.append("\n<key>KeepAlive</key>\n<true/>");
    }
    out.append("\n</dict>\n</plist>");
    proof {
        assert(out@ =~= plist_text(
            c.service_name@,
            c.is_agent,
            c.sessions(),
            c.keep_alive,
            executable@,
            working_dir@,
        ));
    }
    out
}

/// The descriptor builder is deterministic: any two texts built from one
/// and the same configuration are byte-identical.
pub proof fn lemma_build_deterministic(
    r1: Seq<char>,
    r2: Seq<char>,
    name: Seq<char>,
    agent: bool,
    targets: Option<Seq<LaunchAgentTargetSesssion>>,
    keep_alive: bool,
    executable: Seq<char>,
    working_dir: Seq<char>,
)
    requires
        r1 == plist_text(name, agent, targets, keep_alive, executable, working_dir),
        r2 == plist_text(name, agent, targets, keep_alive, executable, working_dir),
    ensures
        r1 == r2,
{
}

} // verus!
