//! Transparent, fail-closed egress for guests.
//!
//! An agent VM never receives proxy settings. A separate gateway VM owns the
//! subscription and the tunnel device; an agent VM gets only a next hop.
use vstd::prelude::*;

use crate::command::proxy_names;
use crate::config::CoopConfig;
use crate::remote_command::RemoteCommand;
use crate::session::SshSession;
use crate::shell::{
    escaped, shell_words, words_after_escaped_value, words_after_plain_text,
    words_of_escaped_value,
};
use crate::text::texts;

verus! {

/// Set in sessions with guests that use the private gateway.
pub const PRIVATE_EGRESS_ACTIVE_ENV: &'static str = "COOP_PRIVATE_EGRESS_ACTIVE";

/// Holds the key with which Codex reaches a local model.
pub const CODEX_LOCAL_ENV_KEY: &'static str = "COOP_LOCAL_API_KEY";

/// The launcher that builds the restricted view of an agent.
pub const DEV_SESSION: &'static str = "/usr/local/sbin/dev-session";

/// The agents that run in the restricted view.
#[derive(Debug, Clone, Copy, PartialEq, Eq, Structural)]
pub enum RestrictedAgent {
    Claude,
    Codex,
}

/// Whether a session belongs to a guest behind the private gateway.
pub open spec fn is_marked(session: SshSession) -> bool {
    session.env@.dom().contains(PRIVATE_EGRESS_ACTIVE_ENV@)
}

/// Marks a session with a guest behind the private gateway. The marker is no
/// proxy variable, and carries neither an endpoint nor a credential.
pub fn mark_session(session: &mut SshSession, cfg: &CoopConfig)
    ensures
        final(session).target == old(session).target,
        final(session).env@ == if cfg.private_egress is Some {
            old(session).env@.insert(PRIVATE_EGRESS_ACTIVE_ENV@, "1"@)
        } else {
            old(session).env@
        },
{
    if cfg.private_egress.is_some() {
        session.env.set(PRIVATE_EGRESS_ACTIVE_ENV, "1");
    }
}

/// The command line of an agent. In a marked session the launcher runs it, as
/// the given manager and through `sudo`, which passes on the key for a local
/// model where that is wanted. In any other session the agent runs directly.
pub open spec fn agent_command(
    marked: bool,
    keep_key: bool,
    manager: Seq<char>,
    binary: Seq<char>,
    args: Seq<Seq<char>>,
) -> Seq<Seq<char>> {
    if marked {
        seq!["sudo"@] + (if keep_key {
            seq!["--preserve-env="@ + CODEX_LOCAL_ENV_KEY@]
        } else {
            seq![]
        }) + seq!["--"@, DEV_SESSION@, manager, binary] + args
    } else {
        seq![binary] + args
    }
}

/// The command line of an agent in a session.
pub open spec fn session_command(
    session: SshSession,
    agent: RestrictedAgent,
    binary: Seq<char>,
    args: Seq<Seq<char>>,
) -> Seq<Seq<char>> {
    agent_command(
        is_marked(session),
        agent == RestrictedAgent::Codex && session.env@.dom().contains(CODEX_LOCAL_ENV_KEY@),
        session.target.user@,
        binary,
        args,
    )
}

/// Prefixes an agent binary with the launcher of the restricted view. The
/// launcher builds a private view of the machine and then drops to an account
/// with neither `sudo` nor Docker access.
pub fn restricted_agent_command(
    session: &SshSession,
    agent: RestrictedAgent,
    binary: &str,
    args: Vec<String>,
) -> (r: Vec<String>)
    ensures
        texts(r@) == session_command(*session, agent, binary@, texts(args@)),
{
    let mut command: Vec<String> = Vec::new();
    let ghost all = texts(args@);
    if session.env.contains(PRIVATE_EGRESS_ACTIVE_ENV) {
        command.push("sudo".to_owned());
        if agent == RestrictedAgent::Codex && session.env.contains(CODEX_LOCAL_ENV_KEY) {
            let mut keep = "--preserve-env=".to_owned();
            keep.append(CODEX_LOCAL_ENV_KEY);
            command.push(keep);
        }
        command.push("--".to_owned());
        command.push(DEV_SESSION.to_owned());
        command.push(session.target.user.clone());
        command.push(binary.to_owned());
    } else {
        command.push(binary.to_owned());
    }
    let ghost head = texts(command@);
    let mut args = args;
    command.append(&mut args);
    proof {
        assert(texts(command@) =~= head + all);
        assert(texts(command@) =~= session_command(*session, agent, binary@, all));
    }
    command
}

/// The command line of a post-start hook. In a marked session the launcher
/// hands the escaped hook to a shell in the restricted view; in any other
/// session the hook is the command line.
pub open spec fn post_start_line(marked: bool, manager: Seq<char>, hook: Seq<char>) -> Seq<char> {
    if marked {
        "sudo -- /usr/local/sbin/dev-session "@ + escaped(manager) + " /bin/bash -c "@ + escaped(
            hook,
        )
    } else {
        hook
    }
}

/// Runs a post-start hook of a project in the same restricted view as the
/// agents. Such hooks are written by the guest's side, and must not inherit
/// the management user's `sudo`.
pub fn restricted_post_start_command(session: &SshSession, command: &str) -> (r: RemoteCommand)
    ensures
        r@ == post_start_line(is_marked(*session), session.target.user@, command@),
{
    if session.env.contains(PRIVATE_EGRESS_ACTIVE_ENV) {
        RemoteCommand::new().literal("sudo -- /usr/local/sbin/dev-session ").arg(
            session.target.user.as_str(),
        ).literal(" /bin/bash -c ").arg(command)
    } else {
        RemoteCommand::new().literal(command)
    }
}

/// In a marked session the shell of the guest runs exactly this: the launcher,
/// through `sudo`, as the manager, and in its view a shell with the hook as one
/// argument. Whatever the hook holds, none of it reaches the outer shell.
pub proof fn post_start_hook_is_one_argument(manager: Seq<char>, hook: Seq<char>)
    ensures
        shell_words(post_start_line(true, manager, hook)) == Some(
            seq!["sudo"@, "--"@, DEV_SESSION@, manager, "/bin/bash"@, "-c"@, hook],
        ),
{
    reveal_strlit("sudo -- /usr/local/sbin/dev-session ");
    reveal_strlit(" /bin/bash -c ");
    reveal_strlit("sudo");
    reveal_strlit("--");
    reveal_strlit("/usr/local/sbin/dev-session");
    reveal_strlit("/bin/bash");
    reveal_strlit("-c");
    let blank = seq![' '];
    assert("sudo -- /usr/local/sbin/dev-session "@ =~= "sudo"@ + blank + "--"@ + blank
        + "/usr/local/sbin/dev-session"@ + blank);
    assert(" /bin/bash -c "@ =~= blank + "/bin/bash"@ + blank + "-c"@ + blank);
    let end = escaped(hook);
    let from_option = "-c"@ + blank + end;
    let from_shell = "/bin/bash"@ + blank + from_option;
    let from_manager = escaped(manager) + blank + from_shell;
    let from_launcher = "/usr/local/sbin/dev-session"@ + blank + from_manager;
    let from_dashes = "--"@ + blank + from_launcher;
    words_of_escaped_value(hook);
    words_after_plain_text("-c"@, end);
    words_after_plain_text("/bin/bash"@, from_option);
    words_after_escaped_value(manager, from_shell);
    words_after_plain_text("/usr/local/sbin/dev-session"@, from_manager);
    words_after_plain_text("--"@, from_launcher);
    words_after_plain_text("sudo"@, from_dashes);
    assert(post_start_line(true, manager, hook) =~= "sudo"@ + blank + from_dashes);
    let words = shell_words(post_start_line(true, manager, hook))->0;
    assert(words =~= seq!["sudo"@, "--"@, DEV_SESSION@, manager, "/bin/bash"@, "-c"@, hook]);
}

/// A session that was marked for a configuration with a private gateway runs
/// its agents through the launcher; one that was marked for an ordinary
/// configuration runs them as it did before.
pub proof fn marked_sessions_use_the_launcher(
    before: SshSession,
    after: SshSession,
    private: bool,
    agent: RestrictedAgent,
    binary: Seq<char>,
    args: Seq<Seq<char>>,
)
    requires
        after.target == before.target,
        after.env@ == if private {
            before.env@.insert(PRIVATE_EGRESS_ACTIVE_ENV@, "1"@)
        } else {
            before.env@
        },
    ensures
        private ==> {
            let command = session_command(after, agent, binary, args);
            let rest = seq!["--"@, DEV_SESSION@, after.target.user@, binary] + args;
            ||| command == seq!["sudo"@] + rest
            ||| command == seq!["sudo"@, "--preserve-env="@ + CODEX_LOCAL_ENV_KEY@] + rest
        },
        !private ==> session_command(after, agent, binary, args) == session_command(
            before,
            agent,
            binary,
            args,
        ),
{
    if private {
        let command = session_command(after, agent, binary, args);
        let rest = seq!["--"@, DEV_SESSION@, after.target.user@, binary] + args;
        if agent == RestrictedAgent::Codex && after.env@.dom().contains(CODEX_LOCAL_ENV_KEY@) {
            assert(command =~= seq!["sudo"@, "--preserve-env="@ + CODEX_LOCAL_ENV_KEY@] + rest);
        } else {
            assert(command =~= seq!["sudo"@] + rest);
        }
    }
}

/// The command line of an agent depends on which variables a session forwards,
/// never on their values: no value is exposed by it.
pub proof fn commands_expose_no_value(
    a: SshSession,
    b: SshSession,
    agent: RestrictedAgent,
    binary: Seq<char>,
    args: Seq<Seq<char>>,
)
    requires
        a.target.user@ == b.target.user@,
        a.env@.dom() == b.env@.dom(),
    ensures
        session_command(a, agent, binary, args) == session_command(b, agent, binary, args),
{
}

/// Only the one agent is given the key for a local model.
pub proof fn only_codex_keeps_the_local_key(
    session: SshSession,
    binary: Seq<char>,
    args: Seq<Seq<char>>,
)
    requires
        is_marked(session),
    ensures
        session_command(session, RestrictedAgent::Claude, binary, args) == seq![
            "sudo"@,
            "--"@,
            DEV_SESSION@,
            session.target.user@,
            binary,
        ] + args,
{
    assert(session_command(session, RestrictedAgent::Claude, binary, args) =~= seq![
        "sudo"@,
        "--"@,
        DEV_SESSION@,
        session.target.user@,
        binary,
    ] + args);
}

/// The marker of a session is no variable that configures a proxy.
pub proof fn marker_configures_no_proxy()
    ensures
        !proxy_names().contains(PRIVATE_EGRESS_ACTIVE_ENV@),
{
    reveal_strlit("COOP_PRIVATE_EGRESS_ACTIVE");
    reveal_strlit("HTTP_PROXY");
    reveal_strlit("HTTPS_PROXY");
    reveal_strlit("ALL_PROXY");
    reveal_strlit("NO_PROXY");
    reveal_strlit("http_proxy");
    reveal_strlit("https_proxy");
    reveal_strlit("all_proxy");
    reveal_strlit("no_proxy");
    let names = proxy_names();
    assert forall|i: int| 0 <= i < names.len() implies (#[trigger] names[i]).len() <= 11 by {
        if i == 0 {
        } else if i == 1 {
        } else if i == 2 {
        } else if i == 3 {
        } else if i == 4 {
        } else if i == 5 {
        } else if i == 6 {
        } else {
        }
    }
    assert(PRIVATE_EGRESS_ACTIVE_ENV@.len() == 26);
}

/// Whatever the session and the agent, the command ends with the user's arguments,
/// all of them and in their order, and right before them stands the agent's
/// binary.
pub proof fn commands_keep_binary_and_arguments(
    session: &SshSession,
    agent: RestrictedAgent,
    binary: &str,
    args: Vec<String>,
    command: Vec<String>,
)
    requires
        call_ensures(restricted_agent_command, (session, agent, binary, args), command),
    ensures
        args@.len() < command@.len(),
        command@[command@.len() - args@.len() - 1]@ == binary@,
        forall|i: int|
            0 <= i < args@.len() ==> (#[trigger] args@[i])@ == command@[command@.len()
                - args@.len() + i]@,
{
    let all = texts(command@);
    let given = texts(args@);
    assert(all == session_command(*session, agent, binary@, given));
    let head = all.len() - given.len();
    assert(all[head - 1] == command@[head - 1]@);
    assert forall|i: int| 0 <= i < args@.len() implies (#[trigger] args@[i])@ == command@[head
        + i]@ by {
        assert(given[i] == args@[i]@);
        assert(all[head + i] == command@[head + i]@);
    }
}

/// In a session that does not forward the marker of private egress, every agent
/// runs as it is: nothing stands before its binary.
pub proof fn unmarked_sessions_run_agents_directly(
    session: &SshSession,
    agent: RestrictedAgent,
    binary: &str,
    args: Vec<String>,
    command: Vec<String>,
)
    requires
        call_ensures(restricted_agent_command, (session, agent, binary, args), command),
        !session.env@.dom().contains("COOP_PRIVATE_EGRESS_ACTIVE"@),
    ensures
        command@.len() == args@.len() + 1,
        command@[0]@ == binary@,
        forall|i: int| 0 <= i < args@.len() ==> (#[trigger] args@[i])@ == command@[i + 1]@,
{
    assert(texts(command@).len() == args@.len() + 1);
    commands_keep_binary_and_arguments(session, agent, binary, args, command);
}

/// In a session that forwards the marker of private egress, what stands before an
/// agent's binary is the launcher, run through `sudo` for the management user.
/// `sudo` passes on one variable at most: the key for a local model, and that to
/// Codex alone, where the session forwards it.
pub proof fn marked_sessions_run_agents_in_the_launcher(
    session: &SshSession,
    agent: RestrictedAgent,
    binary: &str,
    args: Vec<String>,
    command: Vec<String>,
)
    requires
        call_ensures(restricted_agent_command, (session, agent, binary, args), command),
        session.env@.dom().contains("COOP_PRIVATE_EGRESS_ACTIVE"@),
    ensures
        ({
            let keeps = agent is Codex && session.env@.dom().contains("COOP_LOCAL_API_KEY"@);
            let dashes: int = if keeps {
                2
            } else {
                1
            };
            &&& command@.len() == dashes + 4 + args@.len()
            &&& command@[0]@ == "sudo"@
            &&& keeps ==> command@[1]@ == "--preserve-env="@ + "COOP_LOCAL_API_KEY"@
            &&& command@[dashes]@ == "--"@
            &&& command@[dashes + 1]@ == "/usr/local/sbin/dev-session"@
            &&& command@[dashes + 2]@ == session.target.user@
            &&& command@[dashes + 3]@ == binary@
        }),
{
    let all = texts(command@);
    let keeps = agent is Codex && session.env@.dom().contains("COOP_LOCAL_API_KEY"@);
    let dashes: int = if keeps {
        2
    } else {
        1
    };
    assert(all == session_command(*session, agent, binary@, texts(args@)));
    assert(all.len() == dashes + 4 + args@.len());
    assert(all[0] == command@[0]@);
    assert(all[1] == command@[1]@);
    assert(all[dashes] == command@[dashes]@);
    assert(all[dashes + 1] == command@[dashes + 1]@);
    assert(all[dashes + 2] == command@[dashes + 2]@);
    assert(all[dashes + 3] == command@[dashes + 3]@);
}

/// In a session that does not forward the marker, a hook is run as it was written.
/// In one that does, the guest's shell sees the launcher for the management user,
/// and the hook as the last of its words.
pub proof fn hooks_are_run_as_written(session: &SshSession, hook: &str, line: RemoteCommand)
    requires
        call_ensures(restricted_post_start_command, (session, hook), line),
    ensures
        !session.env@.dom().contains("COOP_PRIVATE_EGRESS_ACTIVE"@) ==> line@ == hook@,
        session.env@.dom().contains("COOP_PRIVATE_EGRESS_ACTIVE"@) ==> shell_words(line@) == Some(
            seq![
                "sudo"@,
                "--"@,
                "/usr/local/sbin/dev-session"@,
                session.target.user@,
                "/bin/bash"@,
                "-c"@,
                hook@,
            ],
        ),
{
    post_start_hook_is_one_argument(session.target.user@, hook@);
}

/// A session is marked exactly where a private gateway is configured. The marker is
/// the one variable that is set, and its value says nothing; where no gateway is
/// configured the session stays as it is.
pub proof fn sessions_are_marked_behind_a_gateway(session: &mut SshSession, cfg: &CoopConfig)
    requires
        call_ensures(mark_session, (session, cfg), ()),
    ensures
        final(session).target == old(session).target,
        cfg.private_egress is None ==> final(session).env@ == old(session).env@,
        cfg.private_egress is Some ==> final(session).env@ == old(session).env@.insert(
            "COOP_PRIVATE_EGRESS_ACTIVE"@,
            "1"@,
        ),
{
}

} // verus!
