use coop_egress::private_egress::{
    restricted_agent_command, restricted_post_start_command, RestrictedAgent,
};
use coop_egress::session::{EnvForward, SshSession, SshTarget};

fn target() -> SshTarget {
    SshTarget {
        host: "127.0.0.1".to_string(),
        port: 22,
        user: "ubuntu".to_string(),
        key_path: "/tmp/test-key".to_string(),
    }
}

#[test]
fn restricted_command_preserves_only_the_managed_codex_key_without_exposing_its_value() {
    let mut env = EnvForward::default();
    env.set("COOP_PRIVATE_EGRESS_ACTIVE", "1");
    env.set("COOP_LOCAL_API_KEY", "secret-capability");
    let session = SshSession { target: target(), env };

    let command = restricted_agent_command(
        &session,
        RestrictedAgent::Codex,
        "/usr/bin/codex",
        vec!["--ask".into()],
    );
    assert_eq!(
        command,
        [
            "sudo",
            "--preserve-env=COOP_LOCAL_API_KEY",
            "--",
            "/usr/local/sbin/dev-session",
            "ubuntu",
            "/usr/bin/codex",
            "--ask",
        ]
    );
    assert!(!command.iter().any(|arg| arg == "secret-capability"));

    let claude = restricted_agent_command(
        &session,
        RestrictedAgent::Claude,
        &format!("/usr/bin/{}", format!("{:?}", RestrictedAgent::Claude).to_lowercase()),
        Vec::new(),
    );
    assert!(!claude.iter().any(|arg| arg.contains("COOP_LOCAL_API_KEY")));
}

#[test]
fn private_post_start_runs_in_restricted_view_and_quotes_the_hook() {
    let mut env = EnvForward::default();
    env.set("COOP_PRIVATE_EGRESS_ACTIVE", "1");
    let session = SshSession { target: target(), env };

    let rendered = restricted_post_start_command(
        &session,
        "echo ready; sudo iptables -F; touch '$HOME/proof'",
    )
    .into_string();
    assert_eq!(
        rendered,
        "sudo -- /usr/local/sbin/dev-session 'ubuntu' /bin/bash -c \
         'echo ready; sudo iptables -F; touch '\\''$HOME/proof'\\'''"
    );

    let ordinary = SshSession {
        target: session.target,
        env: EnvForward::default(),
    };
    assert_eq!(
        restricted_post_start_command(&ordinary, "echo ready && touch /tmp/proof").into_string(),
        "echo ready && touch /tmp/proof",
    );
}
