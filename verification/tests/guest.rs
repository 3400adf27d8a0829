use coop_egress::config::{CoopConfig, PrivateEgressConfig};
use coop_egress::effects::{Reply, SecretName};
use coop_egress::failure::Failure;
use coop_egress::gateway::Platform;
use coop_egress::guest::{
    configure_agent_guest, ensure_management_user, is_answer, GuestAction, GuestSetup,
};
use coop_egress::instance_mode::{
    ensure_instance_mode, instance_mode_recorded, record_instance_mode, MarkerChange, MarkerRead,
    MarkerReply, INSTANCE_MODE_MARKER,
};
use coop_egress::private_egress::mark_session;
use coop_egress::scripts::{
    agent_lockdown_script, BOOT_GUARD_INSTALL_SCRIPT, EGRESS_CLOSE_SCRIPT,
};
use coop_egress::session::{EnvForward, SshSession, SshTarget};

fn private_config() -> CoopConfig {
    let mut cfg = CoopConfig::default();
    cfg.private_egress = Some(PrivateEgressConfig {
        subscription: "cmd:printf subscription".to_string(),
        expected_egress_ip: "cmd:printf 203.0.113.10".to_string(),
        entry_group: "entry-group".to_string(),
        entry_choice: "us-entry".to_string(),
        exit_group: "exit-group".to_string(),
        exit_choice_prefix: "los-angeles-exit".to_string(),
        exit_choice_suffix: "".to_string(),
    });
    cfg
}

fn session(user: &str) -> SshSession {
    SshSession {
        target: SshTarget {
            host: "127.0.0.1".to_string(),
            port: 22,
            user: user.to_string(),
            key_path: "/tmp/test-key".to_string(),
        },
        env: EnvForward::default(),
    }
}

/// The directory of an instance, as far as its marker is concerned.
struct InstanceDir {
    marker: Option<String>,
}

/// Records the mode of an instance, as a host would.
fn record(cfg: &CoopConfig, dir: &mut InstanceDir) -> Result<(), Failure> {
    let reply = match record_instance_mode(cfg) {
        MarkerChange::Write(text) => {
            dir.marker = Some(text.to_string());
            MarkerReply::Done
        }
        MarkerChange::Remove => match dir.marker.take() {
            Some(_) => MarkerReply::Done,
            None => MarkerReply::NotFound("no such file".to_string()),
        },
    };
    instance_mode_recorded(cfg, reply)
}

/// Checks the mode of an instance, as a host would.
fn check(cfg: &CoopConfig, dir: &InstanceDir) -> Result<(), Failure> {
    let found = match &dir.marker {
        Some(text) => MarkerRead::Contents(text.clone()),
        None => MarkerRead::NotFound,
    };
    ensure_instance_mode(cfg, "test", &format!("/instances/test/{INSTANCE_MODE_MARKER}"), found)
}

#[test]
fn instance_mode_marker_rejects_both_configuration_mismatches() {
    let mut dir = InstanceDir { marker: None };
    let private = private_config();
    let ordinary = CoopConfig::default();

    assert!(check(&private, &dir).is_err());
    record(&private, &mut dir).expect("record private mode");
    check(&private, &dir).expect("matching private mode");
    assert!(check(&ordinary, &dir).is_err());

    record(&ordinary, &mut dir).expect("record ordinary mode");
    check(&ordinary, &dir).expect("matching ordinary mode");
    assert!(check(&private, &dir).is_err());
}

#[test]
fn instance_mode_marker_rejects_unknown_or_corrupt_versions() {
    let unknown = InstanceDir { marker: Some("version=2\n".to_string()) };
    assert!(check(&private_config(), &unknown).is_err());
    assert!(check(&CoopConfig::default(), &unknown).is_err());

    let corrupt = InstanceDir { marker: Some("".to_string()) };
    assert!(check(&private_config(), &corrupt).is_err());
    assert!(check(&CoopConfig::default(), &corrupt).is_err());
}

#[test]
fn instance_mode_failures_say_what_to_do() {
    let private = private_config();
    let ordinary = CoopConfig::default();
    let missing = ensure_instance_mode(&private, "box", "/i/m", MarkerRead::NotFound)
        .expect_err("created without");
    assert_eq!(
        missing.message,
        "Instance 'box' was created with ordinary networking, but the current config uses private egress. Destroy and recreate this instance before using it under the new network mode"
    );
    let corrupt =
        ensure_instance_mode(&ordinary, "box", "/i/m", MarkerRead::Contents("x".to_string()))
            .expect_err("unknown version");
    assert_eq!(
        corrupt.message,
        "Instance 'box' has an invalid or unsupported private-egress mode marker at /i/m. Destroy and recreate this instance before using it"
    );
    let unread =
        ensure_instance_mode(&ordinary, "box", "/i/m", MarkerRead::Failed("denied".to_string()))
            .expect_err("unreadable");
    assert_eq!(unread.message, "Failed to read instance mode marker /i/m");
}

#[test]
fn instance_mode_is_recorded_or_says_why_not() {
    let private = private_config();
    let ordinary = CoopConfig::default();
    assert!(instance_mode_recorded(&ordinary, MarkerReply::NotFound("gone".to_string())).is_ok());
    assert!(instance_mode_recorded(&ordinary, MarkerReply::Done).is_ok());
    let stale = instance_mode_recorded(&ordinary, MarkerReply::Failed("denied".to_string()))
        .expect_err("kept");
    assert_eq!(stale.message, "Failed to clear stale private-egress mode marker");
    for reply in
        [MarkerReply::NotFound("gone".to_string()), MarkerReply::Failed("denied".to_string())]
    {
        let failure = instance_mode_recorded(&private, reply).expect_err("unrecorded");
        assert_eq!(failure.message, "Failed to record private-egress instance mode");
    }
}

#[test]
fn private_egress_reserves_the_restricted_developer_account() {
    let private = private_config();
    assert!(ensure_management_user(&private, "developer").is_err());
    ensure_management_user(&private, "ubuntu").expect("distinct manager is valid");
    ensure_management_user(&CoopConfig::default(), "developer")
        .expect("ordinary networking has no restricted account");
}

#[test]
fn guests_are_configured_only_where_a_gateway_is() {
    let ordinary = CoopConfig::default();
    let private = private_config();
    let none = configure_agent_guest(&session("developer"), &ordinary, Platform::Other);
    assert!(matches!(none, Ok(None)));
    let reserved = configure_agent_guest(&session("developer"), &private, Platform::MacOs)
        .expect_err("reserved account");
    assert_eq!(
        reserved.message,
        "private_egress reserves guest user 'developer' for restricted agent sessions. Rebuild the image with a different --guest-user (for example, 'ubuntu')"
    );
    let elsewhere = configure_agent_guest(&session("ubuntu"), &private, Platform::Other)
        .expect_err("unsupported platform");
    assert_eq!(
        elsewhere.message,
        "private_egress is currently supported only by the macOS Lima backend"
    );
    let first = configure_agent_guest(&session("ubuntu"), &private, Platform::MacOs);
    assert!(matches!(first, Ok(Some(GuestSetup::FindGateway))));
}

/// Runs the restriction of a guest on these replies, and gives what was asked
/// for together with where it ended.
fn run(
    session: &SshSession,
    cfg: &CoopConfig,
    replies: Vec<Reply>,
) -> (Vec<GuestAction>, GuestSetup) {
    let mut asked = Vec::new();
    let mut state = GuestSetup::FindGateway;
    for reply in replies {
        let action = state.action(session, cfg, "tool");
        assert!(is_answer(&reply, &action));
        asked.push(action);
        state = state.next(reply, session, cfg, "tool");
    }
    (asked, state)
}

fn good_replies() -> Vec<Reply> {
    vec![
        Reply::Text("192.168.105.2\n".to_string()),
        Reply::Done,
        Reply::Done,
        Reply::Text("1.1.1.1 via 192.168.105.2 dev eth0 table 100 src 192.168.105.3".to_string()),
        Reply::Done,
        Reply::Text("203.0.113.10".to_string()),
        Reply::Text("203.0.113.10\n".to_string()),
    ]
}

#[test]
fn guest_is_restricted_and_then_verified() {
    let mut cfg = private_config();
    cfg.guest_timezone = Some("America/Los_Angeles".to_string());
    let mut session = session("ubuntu");
    mark_session(&mut session, &cfg);
    session.env.set("COOP_OPENAI_PROXY_ACTIVE", "1");
    let (asked, end) = run(&session, &cfg, good_replies());
    assert!(matches!(end, GuestSetup::Verified));
    assert!(matches!(end.action(&session, &cfg, "tool"), GuestAction::Stop));
    match &asked[2] {
        GuestAction::Feed(line, script) => {
            assert_eq!(
                line,
                "peer=${SSH_CONNECTION%% *}; sudo sh -s -- '192.168.105.2' 'ubuntu' \"$peer\" 'America/Los_Angeles' '1'"
            );
            assert!(std::str::from_utf8(script).expect("text").contains(".tool.json"));
        }
        other => panic!("{other:?}"),
    }
    match &asked[1] {
        GuestAction::Feed(line, script) => {
            assert_eq!(line, "sudo sh -s");
            assert!(std::str::from_utf8(script).expect("text").contains("iptables -w -P OUTPUT"));
        }
        other => panic!("{other:?}"),
    }
    assert!(matches!(&asked[5], GuestAction::Resolve(SecretName::ExpectedEgress)));
}

#[test]
fn lockdown_without_time_zone_and_proxy_passes_empty_values() {
    let cfg = private_config();
    let session = session("it's");
    let (asked, _) = run(&session, &cfg, good_replies());
    match &asked[2] {
        GuestAction::Feed(line, _) => assert_eq!(
            line,
            "peer=${SSH_CONNECTION%% *}; sudo sh -s -- '192.168.105.2' 'it'\\''s' \"$peer\" '' '0'"
        ),
        other => panic!("{other:?}"),
    }
}

#[test]
fn guest_with_another_exit_is_taken_offline_and_not_verified() {
    let cfg = private_config();
    for closed in [Reply::Done, Reply::Failed("x".to_string())] {
        let mut replies = good_replies();
        replies[6] = Reply::Text("203.0.113.11".to_string());
        replies.push(closed);
        let (asked, end) = run(&session("ubuntu"), &cfg, replies);
        assert!(matches!(&asked[7], GuestAction::Feed(line, script)
            if line == "sudo sh -s" && script == EGRESS_CLOSE_SCRIPT.as_bytes()));
        assert!(matches!(end.action(&session("ubuntu"), &cfg, "tool"), GuestAction::Stop));
        match end {
            GuestSetup::Failed(failure) => assert_eq!(
                failure.message,
                "agent VM exit verification failed: expected 203.0.113.10, observed 203.0.113.11"
            ),
            other => panic!("{other:?}"),
        }
    }
}

#[test]
fn closing_undoes_what_the_restriction_opened() {
    let opened = agent_lockdown_script("tool");
    assert!(opened.contains("systemctl enable network-guard.service network-guard.timer"));
    assert!(EGRESS_CLOSE_SCRIPT
        .contains("systemctl disable --now network-guard.timer network-guard.service"));
    for chain in ["COOP_EGRESS_A", "COOP_EGRESS_B"] {
        assert!(opened.contains(&format!("NEXT={chain}")));
        assert!(EGRESS_CLOSE_SCRIPT.contains(chain));
    }
    assert!(opened.contains("ip -4 route replace table 100 default via \"$GATEWAY\""));
    assert!(EGRESS_CLOSE_SCRIPT.contains("ip -4 route replace table 100 unreachable default"));
    assert!(EGRESS_CLOSE_SCRIPT.contains("iptables -w -P OUTPUT DROP"));
    assert!(EGRESS_CLOSE_SCRIPT.contains("ip6tables -w -P OUTPUT DROP"));
    let guard = BOOT_GUARD_INSTALL_SCRIPT;
    for line in EGRESS_CLOSE_SCRIPT.lines().filter(|line| line.contains("PRIVATE_EGRESS_BOOT")) {
        assert!(guard.contains(line), "{line}");
    }
}

#[test]
fn each_failure_of_a_guest_has_its_message() {
    let cases: Vec<(usize, Reply, &str)> = vec![
        (
            0,
            Reply::Failed("x".to_string()),
            "Failed to discover the private egress gateway address",
        ),
        (
            0,
            Reply::Text("fe80::1".to_string()),
            "Private egress gateway returned an invalid IPv4 address",
        ),
        (
            1,
            Reply::Failed("x".to_string()),
            "Failed to install the early-boot egress guard in agent VM",
        ),
        (
            2,
            Reply::Failed("x".to_string()),
            "Failed to enforce fail-closed networking in agent VM",
        ),
        (3, Reply::Failed("x".to_string()), "Failed to inspect agent VM policy route"),
        (
            3,
            Reply::Text("1.1.1.1 via 192.168.105.20 dev eth0".to_string()),
            "agent VM is not policy-routed through the private gateway",
        ),
        (
            4,
            Reply::Failed("x".to_string()),
            "Proxy environment variables are unexpectedly visible in the agent VM",
        ),
        (
            5,
            Reply::Failed("x".to_string()),
            "Failed to resolve private_egress.expected_egress_ip",
        ),
        (
            5,
            Reply::Text("203.0.113.10\n".to_string()),
            "Expected egress value is not a single IPv4 address",
        ),
        (
            6,
            Reply::Failed("x".to_string()),
            "Agent VM cannot reach the exit verification service through the gateway",
        ),
        (
            6,
            Reply::Text("<html>".to_string()),
            "Agent VM received a non-IPv4 exit verification response",
        ),
    ];
    for (at, reply, message) in cases {
        let mut replies = good_replies();
        replies.truncate(at);
        replies.push(reply);
        let on_the_way_out = ![1, 2, 4].contains(&at);
        if on_the_way_out {
            replies.push(Reply::Done);
        }
        let (asked, end) = run(&session("ubuntu"), &private_config(), replies);
        if on_the_way_out {
            assert_eq!(asked.len(), at + 2);
            assert!(matches!(&asked[at + 1], GuestAction::Feed(line, script)
                if line == "sudo sh -s" && script == EGRESS_CLOSE_SCRIPT.as_bytes()));
        } else {
            assert_eq!(asked.len(), at + 1);
        }
        assert!(matches!(end.action(&session("ubuntu"), &private_config(), "tool"), GuestAction::Stop));
        match end {
            GuestSetup::Failed(failure) => assert_eq!(failure.message, message),
            other => panic!("{other:?}"),
        }
    }
}
