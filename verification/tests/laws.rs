use coop_egress::command::is_proxy_env_name;
use coop_egress::config::{CoopConfig, PrivateEgressConfig};
use coop_egress::digest::{random_secret, Sha256Hash};
use coop_egress::effects::{Action, Reply};
use coop_egress::gateway::Deployment;
use coop_egress::guest::{GuestAction, GuestSetup};
use coop_egress::ipv4::{parse_ipv4, Ipv4Address};
use coop_egress::private_egress::{
    mark_session, restricted_agent_command, restricted_post_start_command, RestrictedAgent,
    PRIVATE_EGRESS_ACTIVE_ENV,
};
use coop_egress::remote_command::RemoteCommand;
use coop_egress::session::{EnvForward, SshSession, SshTarget};
use coop_egress::shell::shell_escape;

fn session() -> SshSession {
    SshSession {
        target: SshTarget {
            host: "127.0.0.1".to_string(),
            port: 22,
            user: "ubuntu".to_string(),
            key_path: "/tmp/test-key".to_string(),
        },
        env: EnvForward::default(),
    }
}

fn private() -> CoopConfig {
    let mut cfg = CoopConfig::default();
    cfg.private_egress = Some(PrivateEgressConfig {
        subscription: "a".to_string(),
        expected_egress_ip: "b".to_string(),
        entry_group: "c".to_string(),
        entry_choice: "d".to_string(),
        exit_group: "e".to_string(),
        exit_choice_prefix: "f".to_string(),
        exit_choice_suffix: "g".to_string(),
    });
    cfg
}

#[test]
fn different_values_are_escaped_differently() {
    let values = ["", "'", "''", "\\", "'\\''", "a'b", "a\\'b", " ", "\n"];
    for a in values {
        for b in values {
            assert_eq!(shell_escape(a) == shell_escape(b), a == b, "{a:?} {b:?}");
        }
    }
}

#[test]
fn command_lines_are_put_together_in_order() {
    let line = RemoteCommand::new().literal("echo ").arg("it's").literal(" && true").into_string();
    assert_eq!(line, "echo 'it'\\''s' && true");
}

#[test]
fn hook_cannot_leave_its_argument() {
    let mut session = session();
    mark_session(&mut session, &private());
    let line = restricted_post_start_command(&session, "x'; rm -rf / #").into_string();
    assert_eq!(
        line,
        "sudo -- /usr/local/sbin/dev-session 'ubuntu' /bin/bash -c 'x'\\''; rm -rf / #'"
    );
}

#[test]
fn marked_session_runs_agents_through_the_launcher() {
    let mut marked = session();
    mark_session(&mut marked, &private());
    assert_eq!(
        restricted_agent_command(&marked, RestrictedAgent::Codex, "codex", vec!["x".to_string()]),
        ["sudo", "--", "/usr/local/sbin/dev-session", "ubuntu", "codex", "x"]
    );
    let mut ordinary = session();
    mark_session(&mut ordinary, &CoopConfig::default());
    assert_eq!(
        restricted_agent_command(&ordinary, RestrictedAgent::Codex, "codex", vec!["x".to_string()]),
        ["codex", "x"]
    );
}

#[test]
fn values_of_variables_do_not_show_in_commands() {
    let mut a = session();
    let mut b = session();
    mark_session(&mut a, &private());
    mark_session(&mut b, &private());
    a.env.set("COOP_LOCAL_API_KEY", "one");
    b.env.set("COOP_LOCAL_API_KEY", "two");
    for agent in [RestrictedAgent::Claude, RestrictedAgent::Codex] {
        assert_eq!(
            restricted_agent_command(&a, agent, "tool", Vec::new()),
            restricted_agent_command(&b, agent, "tool", Vec::new())
        );
    }
}

#[test]
fn marker_is_no_proxy_variable() {
    assert!(!is_proxy_env_name(PRIVATE_EGRESS_ACTIVE_ENV));
}

#[test]
fn later_settings_of_a_variable_replace_earlier_ones() {
    let mut env = EnvForward::default();
    assert!(!env.contains("A"));
    env.set("A", "1");
    env.set("B", "2");
    env.set("A", "3");
    assert!(env.contains("A") && env.contains("B") && !env.contains("a"));
}

#[test]
fn texts_of_digests_and_addresses_read_back() {
    for data in [&b""[..], b"a", b"abc"] {
        let digest = Sha256Hash::of(data);
        let read = Sha256Hash::from_hex(&digest.to_text()).expect("digest");
        assert!(read.same(&digest));
    }
    assert_ne!(random_secret(&[1, 2]), random_secret(&[2, 1]));
    for address in [
        Ipv4Address { a: 0, b: 10, c: 99, d: 100 },
        Ipv4Address { a: 255, b: 1, c: 9, d: 0 },
    ] {
        assert_eq!(parse_ipv4(&address.to_text()), Some(address));
    }
}

#[test]
fn guest_is_told_nothing_of_the_gateway_but_its_address() {
    let gateway = Ipv4Address { a: 10, b: 0, c: 0, d: 1 };
    let mut other = private();
    if let Some(egress) = other.private_egress.as_mut() {
        egress.subscription = "z".to_string();
        egress.exit_group = "z".to_string();
    }
    let feed = |cfg: &CoopConfig| match (GuestSetup::LockDown { gateway }).action(&session(), cfg, "t") {
        GuestAction::Feed(line, script) => (line, script),
        other => panic!("{other:?}"),
    };
    assert_eq!(feed(&private()), feed(&other));
}

#[test]
fn subscription_url_is_no_argument() {
    let download = |subscription: &str| {
        let state = Deployment::Download {
            subscription: subscription.to_string(),
            fingerprint: "f".to_string(),
            resolver: Ipv4Address { a: 10, b: 0, c: 0, d: 1 },
        };
        match state.action("/data") {
            Action::Capture(cmd) => cmd,
            other => panic!("{other:?}"),
        }
    };
    let (a, b) = (download("https://a.example/x"), download("https://b.example/y"));
    assert_eq!(a.args, b.args);
    assert_ne!(a.stdin, b.stdin);
}

#[test]
fn nothing_happens_without_the_lock() {
    let cfg = private();
    let config = cfg.private_egress.as_ref().expect("private");
    let state = Deployment::LocateLima
        .next(Reply::Holds(true), config, "/d")
        .next(Reply::Failed("locked".to_string()), config, "/d");
    assert!(matches!(state.action("/d"), Action::Stop));
    assert!(matches!(state, Deployment::Failed(failure) if failure.message == "locked"));
}
