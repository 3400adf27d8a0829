use coop_egress::config::PrivateEgressConfig;
use coop_egress::digest::gateway_deployment_fingerprint;
use coop_egress::harden::harden_config;
use coop_egress::ipv4::Ipv4Address;
use coop_egress::private_egress::RestrictedAgent;
use coop_egress::scripts::{
    agent_lockdown_script, BOOT_GUARD_INSTALL_SCRIPT, GATEWAY_SETUP_SCRIPT,
};
use coop_egress::subscription::subscription_curl_config;
use coop_egress::yaml::parse_yaml;
use serde_yaml_ng::Value;

fn egress_config() -> PrivateEgressConfig {
    PrivateEgressConfig {
        subscription: "cmd:printf subscription".to_string(),
        expected_egress_ip: "cmd:printf 203.0.113.10".to_string(),
        entry_group: "entry-group".to_string(),
        entry_choice: "us-entry".to_string(),
        exit_group: "exit-group".to_string(),
        exit_choice_prefix: "los-angeles-exit".to_string(),
        exit_choice_suffix: "".to_string(),
    }
}

#[test]
fn deployment_fingerprint_tracks_resolved_secrets_without_exposing_them() {
    let config = egress_config();
    let first = gateway_deployment_fingerprint(
        &config,
        "https://secret.example/sub/token-one",
        "203.0.113.10",
    );
    let second = gateway_deployment_fingerprint(
        &config,
        "https://secret.example/sub/token-two",
        "203.0.113.10",
    );
    assert_ne!(first, second);
    assert_eq!(first.len(), 64);
    assert!(!first.contains("token-one"));
}

#[test]
fn subscription_download_forbids_redirect_downgrades_and_retries() {
    let curl = subscription_curl_config("https://secret.example/sub/token");
    assert!(curl.contains("proto = \"=https\""));
    assert!(curl.contains("proto-redir = \"=https\""));
    assert!(curl.contains("retry-all-errors"));
    assert!(curl.contains("max-filesize = 16777216"));
}

#[test]
fn subscription_is_forced_to_global_strict_tun() {
    let subscription = parse_yaml(
        r#"
mode: rule
ipv6: true
allow-lan: true
bind-address: "*"
mixed-port: 7890
socks-port: 7891
listeners: [{name: leaked-listener, type: socks, port: 7892}]
dns: false
proxies: []
proxy-groups:
  - name: entry-group
    type: select
    proxies: [other-entry, us-entry]
  - name: exit-group
    type: select
    proxies: [DIRECT, los-angeles-exit]
rules: [MATCH,DIRECT]
"#,
    )
    .expect("valid subscription fixture");
    let made = harden_config(
        subscription,
        &egress_config(),
        Ipv4Address { a: 192, b: 0, c: 2, d: 53 },
        "secret".to_string(),
    )
    .expect("harden config");
    let selections = made.selections;
    let hardened: Value = serde_yaml_ng::from_slice(&made.yaml).expect("parse hardened config");
    let root = hardened.as_mapping().expect("mapping root");

    assert_eq!(
        root.get(Value::String("mode".into())).and_then(Value::as_str),
        Some("global")
    );
    assert_eq!(root.get(Value::String("ipv6".into())), Some(&Value::Bool(false)));
    assert_eq!(root.get(Value::String("allow-lan".into())), Some(&Value::Bool(false)));
    assert_eq!(
        root.get(Value::String("bind-address".into())).and_then(Value::as_str),
        Some("127.0.0.1")
    );
    for key in ["mixed-port", "socks-port", "listeners"] {
        assert!(!root.contains_key(Value::String(key.into())));
    }
    let tun = root
        .get(Value::String("tun".into()))
        .and_then(Value::as_mapping)
        .expect("tun mapping");
    assert_eq!(
        tun.get(Value::String("device".into())).and_then(Value::as_str),
        Some("coop-egress")
    );
    assert_eq!(tun.get(Value::String("strict-route".into())), Some(&Value::Bool(true)));
    assert!(selections.contains(&("GLOBAL".into(), "exit-group".into())));
    assert!(selections.contains(&("exit-group".into(), "los-angeles-exit".into())));
    assert_eq!(
        root.get(Value::String("rules".into())),
        Some(&Value::Sequence(vec![Value::String("MATCH,DIRECT".into())]))
    );
    assert!(!root.contains_key(Value::String("rule-providers".into())));
    let dns = root
        .get(Value::String("dns".into()))
        .and_then(Value::as_mapping)
        .expect("dns mapping");
    assert_eq!(dns.get(Value::String("respect-rules".into())), Some(&Value::Bool(true)));
    assert_eq!(
        dns.get(Value::String("nameserver".into())),
        Some(&Value::Sequence(vec![Value::String(
            "https://cloudflare-dns.com/dns-query#exit-group".into()
        )]))
    );
    assert_eq!(
        dns.get(Value::String("default-nameserver".into())),
        Some(&Value::Sequence(vec![Value::String("192.0.2.53".into())]))
    );
    assert_eq!(
        dns.get(Value::String("proxy-server-nameserver".into())),
        Some(&Value::Sequence(vec![Value::String("192.0.2.53#DIRECT".into())]))
    );
    let profile = root
        .get(Value::String("profile".into()))
        .and_then(Value::as_mapping)
        .expect("profile mapping");
    assert_eq!(
        profile.get(Value::String("store-selected".into())),
        Some(&Value::Bool(true))
    );
}

#[test]
fn agent_scripts_fail_closed_and_start_from_a_clean_environment() {
    let tool = format!("{:?}", RestrictedAgent::Claude).to_lowercase();
    let lockdown = agent_lockdown_script(&tool);
    assert!(BOOT_GUARD_INSTALL_SCRIPT.contains("Before=network-pre.target"));
    assert!(BOOT_GUARD_INSTALL_SCRIPT.contains("iptables -w -P OUTPUT DROP"));
    assert!(BOOT_GUARD_INSTALL_SCRIPT.contains("--sport 68 --dport 67"));
    assert!(lockdown.contains("env -i"));
    assert!(lockdown.contains(&format!("for item in .{tool} .{tool}.json .codex")));
    assert!(lockdown.contains("ln -s \"$DEST\" \"$MANAGER_ITEM\""));
    assert!(lockdown.contains("rm -f /home/developer/.codex/auth.json"));
    assert!(lockdown.contains("usermod -G developers developer"));
    assert!(lockdown.contains("git config --global --add safe.directory /workspace"));
    assert!(lockdown.contains("mount --bind /dev/null /usr/bin/sudo"));
    assert!(lockdown.contains("TZ=\"$AGENT_TZ\""));
    assert!(!lockdown.contains("TZ=America/Los_Angeles"));
    assert!(lockdown.contains("iptables -w -A \"$NEXT\" -j ACCEPT"));
    assert!(lockdown.contains("ip -4 route replace table 100 default"));
    assert!(!lockdown.contains("ip rule del priority 100"));
    assert!(lockdown.contains("iptables -w -D OUTPUT -j PRIVATE_EGRESS_BOOT"));
    assert!(GATEWAY_SETUP_SCRIPT.contains("destroy table inet coop_gateway_killswitch"));
    assert!(!GATEWAY_SETUP_SCRIPT.contains("nft delete table"));
    let restore = GATEWAY_SETUP_SCRIPT
        .find("ExecStartPost=/usr/local/libexec/mihomo-restore-selectors")
        .expect("selector restore hook");
    let open = GATEWAY_SETUP_SCRIPT
        .find("ExecStartPost=/usr/sbin/nft -f /etc/mihomo/killswitch-open.nft")
        .expect("forward-open hook");
    assert!(restore < open, "forwarding must open after selector restore");
    assert!(GATEWAY_SETUP_SCRIPT
        .contains("ExecStopPost=/usr/sbin/nft -f /etc/mihomo/killswitch-closed.nft"));
    assert!(GATEWAY_SETUP_SCRIPT.contains("iifname \"$UPLINK\""));
    assert!(GATEWAY_SETUP_SCRIPT.contains("refusing to open forwarding"));
    assert!(!GATEWAY_SETUP_SCRIPT.contains("raise SystemExit(0)"));
}

#[test]
fn documents_with_any_keys_keep_what_hardening_does_not_decide() {
    let text = "hosts:\n  1: one\n  1.5: float\n  true: yes\n  null: none\n  [a, b]: list\n  {x: y}: map\n  !t k: tagged\nlisteners: []\nproxy-groups:\n- name: entry-group\n  proxies: [us-entry]\n- name: exit-group\n  proxies: [a, los-angeles-exit-7, los-angeles-exit-8]\n";
    let made = harden_config(
        parse_yaml(text).expect("yaml"),
        &egress_config(),
        Ipv4Address { a: 10, b: 0, c: 0, d: 1 },
        "s3cret".to_string(),
    )
    .expect("hardened");
    let before: Value = serde_yaml_ng::from_str(text).expect("yaml");
    let after: Value = serde_yaml_ng::from_slice(&made.yaml).expect("yaml");
    assert_eq!(after["hosts"], before["hosts"]);
    assert_eq!(after["secret"], Value::String("s3cret".into()));
    assert!(after.get("listeners").is_none());
    assert_eq!(
        after["proxy-groups"][1]["proxies"][0],
        Value::String("los-angeles-exit-7".into())
    );
    assert_eq!(made.selections[0], ("entry-group".to_string(), "us-entry".to_string()));
    assert_eq!(made.selections[1].1, "los-angeles-exit-7");
}

#[test]
fn tagged_documents_are_hardened_inside_their_tags() {
    let text = "!outer\ndns: !inner {fallback: [x], keep: 1}\nproxy-groups: !list\n- !group {name: entry-group, proxies: !p [de, us-entry]}\n- name: exit-group\n  proxies: [los-angeles-exit]\n";
    let made = harden_config(
        parse_yaml(text).expect("yaml"),
        &egress_config(),
        Ipv4Address { a: 10, b: 0, c: 0, d: 1 },
        "s".to_string(),
    )
    .expect("hardened");
    let after: Value = serde_yaml_ng::from_slice(&made.yaml).expect("yaml");
    let root = after.as_mapping().expect("mapping");
    let dns = root.get("dns").and_then(Value::as_mapping).expect("dns");
    assert!(dns.get("fallback").is_none());
    assert!(dns.get("keep").is_some());
    assert_eq!(dns.get("respect-rules"), Some(&Value::Bool(true)));
    let groups = root.get("proxy-groups").and_then(Value::as_sequence).expect("groups");
    let entry = groups[0].as_mapping().expect("group");
    let proxies = entry.get("proxies").and_then(Value::as_sequence).expect("proxies");
    assert_eq!(proxies[0], Value::String("us-entry".into()));
}
