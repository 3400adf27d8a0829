use coop_egress::command::{is_proxy_env_name, proxy_env_names, Cmd};
use coop_egress::config::{CoopConfig, PrivateEgressConfig};
use coop_egress::digest::{gateway_deployment_fingerprint, random_secret, Sha256Hash};
use coop_egress::effects::{is_answer, Action, Reply, SecretName};
use coop_egress::failure::{Cause, Failure};
use coop_egress::gateway::{ensure_gateway, gateway_ipv4, prepare_install, Deployment, Platform};
use coop_egress::gateway_vm::{ensure_gateway_vm, VmSetup};
use coop_egress::ipv4::{parse_ipv4, Ipv4Address};
use coop_egress::mihomo::{ensure_mihomo_binary, release_asset, MihomoInstall};
use coop_egress::release::{choose_asset, read_release, Asset};
use coop_egress::scripts::{gateway_template, Processor};
use coop_egress::subscription::{read_subscription, selector_payload};
use coop_egress::url_check::{check_subscription_url, judge_subscription_url, UrlParts};
use coop_egress::yaml::parse_yaml;

const SUBSCRIPTION: &str = "https://secret.example/sub/token";

fn egress() -> PrivateEgressConfig {
    PrivateEgressConfig {
        subscription: "keychain:sub".to_string(),
        expected_egress_ip: "keychain:ip".to_string(),
        entry_group: "in".to_string(),
        entry_choice: "us".to_string(),
        exit_group: "out".to_string(),
        exit_choice_prefix: "la".to_string(),
        exit_choice_suffix: "1".to_string(),
    }
}

fn document() -> String {
    "proxy-groups:\n- name: in\n  proxies: [de, us]\n- name: out\n  proxies: [DIRECT, la-01]\n"
        .to_string()
}

/// The replies of a first deployment, from the search for Lima on.
fn first_deployment() -> Vec<Reply> {
    vec![
        Reply::Holds(true),
        Reply::Done,
        Reply::Done,
        Reply::Done,
        Reply::Text(SUBSCRIPTION.to_string()),
        Reply::Text("203.0.113.10".to_string()),
        Reply::Failed("no such file".to_string()),
        Reply::Text("192.168.5.2\n".to_string()),
        Reply::Text(document()),
        Reply::Done,
        Reply::Bytes(vec![7; 32]),
        Reply::Done,
        Reply::Done,
        Reply::Done,
        Reply::Text("203.0.113.10".to_string()),
        Reply::Done,
    ]
}

fn run(replies: Vec<Reply>) -> (Vec<Action>, Deployment) {
    let config = egress();
    let mut asked = Vec::new();
    let mut state = Deployment::LocateLima;
    for reply in replies {
        let action = state.action("/data");
        assert!(is_answer(&reply, &action), "{reply:?} to {action:?}");
        asked.push(action);
        state = state.next(reply, &config, "/data");
    }
    (asked, state)
}

fn failed(replies: Vec<Reply>) -> Failure {
    match run(replies).1 {
        Deployment::Failed(failure) => failure,
        other => panic!("{other:?}"),
    }
}

fn cmd_of(action: &Action) -> &Cmd {
    match action {
        Action::Probe(cmd) | Action::Run(cmd) | Action::Capture(cmd) => cmd,
        other => panic!("{other:?}"),
    }
}

#[test]
fn gateway_is_deployed_where_it_is_configured_and_supported() {
    let ordinary = CoopConfig::default();
    assert!(matches!(ensure_gateway(&ordinary, Platform::Other), Ok(None)));
    let mut private = CoopConfig::default();
    private.private_egress = Some(egress());
    assert!(matches!(
        ensure_gateway(&private, Platform::MacOs),
        Ok(Some(Deployment::LocateLima))
    ));
    let failure = ensure_gateway(&private, Platform::Other).expect_err("unsupported");
    assert_eq!(
        failure.message,
        "private_egress is currently supported only by the macOS Lima backend"
    );
}

#[test]
fn first_deployment_installs_checks_and_stamps() {
    let (asked, end) = run(first_deployment());
    assert!(matches!(end, Deployment::Finished));
    assert!(matches!(&asked[0], Action::FindProgram(name) if name == "limactl"));
    assert!(matches!(&asked[1], Action::Lock(path) if path == "/data/private-egress/gateway-state"));
    assert!(matches!(&asked[4], Action::Resolve(SecretName::Subscription)));
    assert!(matches!(&asked[5], Action::Resolve(SecretName::ExpectedEgress)));

    let download = cmd_of(&asked[8]);
    assert_eq!(download.program, "curl");
    assert_eq!(download.args, ["--config", "-"]);
    let config = String::from_utf8(download.stdin.clone().expect("config")).expect("text");
    assert_eq!(
        config,
        "url = \"https://secret.example/sub/token\"\nproto = \"=https\"\nproto-redir = \"=https\"\nretry = 3\nretry-all-errors\nretry-delay = 1\nfail\nsilent\nshow-error\nlocation\nmax-time = 30\nmax-filesize = 16777216\n"
    );

    let secret = "07".repeat(32);
    let send = cmd_of(&asked[11]);
    assert_eq!(send.program, "limactl");
    assert_eq!(send.args[..5], ["shell", "coop-egress", "--", "sudo", "sh"]);
    let yaml: serde_yaml_ng::Value =
        serde_yaml_ng::from_slice(send.stdin.as_ref().expect("yaml")).expect("yaml");
    assert_eq!(yaml["secret"], serde_yaml_ng::Value::String(secret.clone()));
    assert_eq!(yaml["proxy-groups"][0]["proxies"][0], serde_yaml_ng::Value::String("us".into()));

    let selectors: serde_json::Value =
        serde_json::from_slice(cmd_of(&asked[12]).stdin.as_ref().expect("json")).expect("json");
    assert_eq!(selectors["secret"], secret.as_str());
    assert_eq!(selectors["selections"][0][0], "in");
    assert_eq!(selectors["selections"][0][1], "us");
    assert_eq!(selectors["selections"][1][1], "la-01");
    assert_eq!(selectors["selections"][2][0], "GLOBAL");
    assert_eq!(selectors["selections"][2][1], "out");

    let set_up = cmd_of(&asked[13]);
    assert_eq!(
        set_up.args,
        ["shell", "coop-egress", "--", "sudo", "sh", "-s", "--", "192.168.5.2"]
    );
    let stamp = gateway_deployment_fingerprint(&egress(), SUBSCRIPTION, "203.0.113.10");
    match &asked[15] {
        Action::WriteFile(path, text) => {
            assert_eq!(path, "/data/private-egress/gateway-deployment.stamp");
            assert_eq!(*text, stamp);
        }
        other => panic!("{other:?}"),
    }
}

#[test]
fn current_and_healthy_gateway_is_left_alone() {
    let stamp = gateway_deployment_fingerprint(&egress(), SUBSCRIPTION, "203.0.113.10");
    let mut replies = first_deployment();
    replies.truncate(6);
    replies.push(Reply::Text(format!("{stamp}\n")));
    replies.push(Reply::Holds(true));
    let (asked, end) = run(replies);
    assert!(matches!(end, Deployment::Finished));
    assert_eq!(
        cmd_of(&asked[7]).args.last().map(String::as_str),
        Some("systemctl is-active --quiet mihomo.service && ip link show coop-egress >/dev/null && nft list chain inet coop_gateway_killswitch forward | grep -q 'oifname \\\"coop-egress\\\" accept'")
    );
}

#[test]
fn unhealthy_gateway_is_restarted_and_then_deployed_anew() {
    let stamp = gateway_deployment_fingerprint(&egress(), SUBSCRIPTION, "203.0.113.10");
    let mut replies = first_deployment();
    replies.truncate(6);
    replies.push(Reply::Text(stamp));
    replies.push(Reply::Holds(false));
    replies.push(Reply::Failed("restart refused".to_string()));
    replies.push(Reply::Holds(false));
    let (asked, state) = run(replies);
    assert_eq!(cmd_of(&asked[8]).args[3..], ["sudo", "systemctl", "restart", "mihomo.service"]);
    assert!(matches!(state, Deployment::DiscoverResolver { .. }));
}

#[test]
fn stale_stamp_is_deployed_anew() {
    let mut replies = first_deployment();
    replies.truncate(6);
    replies.push(Reply::Text("0123".to_string()));
    assert!(matches!(run(replies).1, Deployment::DiscoverResolver { .. }));
}

#[test]
fn each_failure_of_a_deployment_has_its_message() {
    let reason = || Reply::Failed("x".to_string());
    let cases: Vec<(usize, Reply, &str)> = vec![
        (0, Reply::Holds(false), "private_egress requires Lima (limactl) on macOS"),
        (1, reason(), "x"),
        (2, Reply::Stopped(Failure::refused("no vm")), "no vm"),
        (3, Reply::Stopped(Failure::refused("no program")), "no program"),
        (4, reason(), "Failed to resolve private_egress.subscription"),
        (5, reason(), "Failed to resolve private_egress.expected_egress_ip"),
        (
            5,
            Reply::Text("203.0.113.010".to_string()),
            "Expected egress value is not a single IPv4 address",
        ),
        (7, reason(), "Failed to discover the gateway VM bootstrap resolver"),
        (
            7,
            Reply::Text("".to_string()),
            "Gateway VM default route did not provide an IPv4 bootstrap resolver",
        ),
        (8, reason(), "Failed to download the private egress subscription"),
        (8, Reply::Text("a: [".to_string()), "Subscription is not valid YAML"),
        (8, Reply::Text("[]".to_string()), "Subscription YAML root must be a mapping"),
        (9, reason(), "Failed to open host random source"),
        (10, reason(), "Failed to read host random source"),
        (11, reason(), "Failed to transfer private egress config"),
        (12, reason(), "Failed to transfer private egress selector state"),
        (13, reason(), "Failed to configure the private egress service"),
        (14, reason(), "Private egress gateway cannot reach the IP verification service"),
        (
            14,
            Reply::Text("busy".to_string()),
            "IP verification service returned a non-IPv4 response",
        ),
        (15, reason(), "x"),
    ];
    for (at, reply, message) in cases {
        let mut replies = first_deployment();
        replies.truncate(at);
        replies.push(reply);
        assert_eq!(failed(replies).message, message);
    }
}

#[test]
fn unsuitable_subscriptions_are_refused() {
    let cases: Vec<(String, &str)> = vec![
        ("proxies: []".to_string(), "Subscription has no proxy-groups list"),
        ("proxy-groups: {}".to_string(), "Subscription has no proxy-groups list"),
        ("proxy-groups: []".to_string(), "Subscription has no proxy group 'in'"),
        (
            "proxy-groups: [{name: in}]".to_string(),
            "Proxy group 'in' has no proxies list",
        ),
        (
            "proxy-groups: [{name: in, proxies: [de]}]".to_string(),
            "Proxy group 'in' has no requested choice",
        ),
        (
            "proxy-groups: [{name: in, proxies: [us]}, {name: out, proxies: [la-2]}]".to_string(),
            "Proxy group 'out' has no requested choice",
        ),
    ];
    for (text, message) in cases {
        let doc = parse_yaml(&text).expect("yaml");
        let resolver = Ipv4Address { a: 1, b: 2, c: 3, d: 4 };
        let failure =
            prepare_install(doc, &egress(), resolver, "s".to_string()).expect_err("unsuitable");
        assert_eq!(failure.message, message);
    }
}

#[test]
fn subscription_urls_are_checked() {
    assert!(check_subscription_url(SUBSCRIPTION).is_ok());
    let cases: Vec<(&str, &str)> = vec![
        ("not a url", "Subscription secret is not a valid URL"),
        ("http://secret.example/sub", "Subscription URL must use HTTPS"),
        (
            "https://user@secret.example/sub",
            "Subscription URL must not contain userinfo or a fragment",
        ),
        (
            "https://:pw@secret.example/sub",
            "Subscription URL must not contain userinfo or a fragment",
        ),
        (
            "https://secret.example/sub#top",
            "Subscription URL must not contain userinfo or a fragment",
        ),
        (
            "https://secret.example/a\"b",
            "Subscription URL contains characters unsupported by curl config input",
        ),
        (
            "https://secret.example/a\\b",
            "Subscription URL contains characters unsupported by curl config input",
        ),
        (
            "https://secret.example/a\nb",
            "Subscription URL contains characters unsupported by curl config input",
        ),
        (
            "https://secret.example/a\u{85}b",
            "Subscription URL contains characters unsupported by curl config input",
        ),
    ];
    for (url, message) in cases {
        let failure = check_subscription_url(url).expect_err(url);
        assert_eq!(failure.message, message, "{url}");
    }
    let reason = check_subscription_url("not a url").expect_err("relative");
    assert!(matches!(reason.cause, Cause::Told(text) if text == "relative URL without a base"));
}

#[test]
fn url_without_a_host_is_refused() {
    let parts = |cannot_be_a_base: bool, host: Option<&str>| UrlParts {
        scheme: "https".to_string(),
        cannot_be_a_base,
        host: host.map(str::to_string),
        username: String::new(),
        password: None,
        fragment: None,
        text: "https:x".to_string(),
    };
    for url in [parts(true, Some("h")), parts(false, None)] {
        let failure = judge_subscription_url("https:x", Ok(url)).expect_err("no host");
        assert_eq!(failure.message, "Subscription URL must have a host");
    }
    assert!(judge_subscription_url("https:x", Ok(parts(false, Some("h")))).is_ok());
}

#[test]
fn subscriptions_are_bounded_in_bytes() {
    let mut text = "a: ".to_string();
    text.push_str(&"\u{e9}".repeat((16777216 - 4) / 2));
    text.push('x');
    assert_eq!(text.len(), 16777216);
    assert!(read_subscription(&text).is_ok());
    text.push('y');
    let failure = read_subscription(&text).expect_err("too long");
    assert_eq!(failure.message, "Subscription exceeds 16777216 bytes");
}

#[test]
fn selectors_are_told_as_json() {
    let payload = selector_payload("s\"1", &vec![("g".to_string(), "n".to_string())])
        .expect("payload");
    assert_eq!(
        String::from_utf8(payload).expect("text"),
        "{\"secret\":\"s\\\"1\",\"selections\":[[\"g\",\"n\"]]}"
    );
}

#[test]
fn gateway_vm_is_reached_started_or_created() {
    let walk = |replies: Vec<Reply>| {
        let mut state = ensure_gateway_vm();
        let mut asked = Vec::new();
        for reply in replies {
            let action = state.action("/data", Processor::X86_64);
            assert!(is_answer(&reply, &action));
            asked.push(action);
            state = state.next(reply, "/data", Processor::X86_64);
        }
        (asked, state)
    };
    assert!(matches!(walk(vec![Reply::Holds(true)]).1, VmSetup::Ready));

    let (asked, end) = walk(vec![
        Reply::Holds(false),
        Reply::Text("default\ncoop-egress\r\n".to_string()),
        Reply::Done,
        Reply::Holds(true),
    ]);
    assert!(matches!(end, VmSetup::Ready));
    assert_eq!(cmd_of(&asked[2]).args, ["start", "coop-egress"]);

    let (asked, end) = walk(vec![
        Reply::Holds(false),
        Reply::Text("coop-egress-2\n coop-egress\n".to_string()),
        Reply::Done,
        Reply::Done,
        Reply::Done,
        Reply::Holds(false),
    ]);
    match end {
        VmSetup::Failed(failure) => {
            assert_eq!(failure.message, "private egress gateway did not become ready")
        }
        other => panic!("{other:?}"),
    }
    match &asked[3] {
        Action::WriteFile(path, text) => {
            assert_eq!(path, "/data/private-egress/gateway.yaml");
            assert_eq!(text, gateway_template(Processor::X86_64));
        }
        other => panic!("{other:?}"),
    }
    assert_eq!(
        cmd_of(&asked[4]).args,
        ["start", "/data/private-egress/gateway.yaml", "--name=coop-egress", "--tty=false"]
    );

    let failing: Vec<(Vec<Reply>, &str)> = vec![
        (vec![Reply::Holds(false)], "Failed to list Lima instances"),
        (
            vec![Reply::Holds(false), Reply::Text("coop-egress".to_string())],
            "Failed to start the private egress gateway VM",
        ),
        (
            vec![Reply::Holds(false), Reply::Text("".to_string())],
            "Failed to create /data/private-egress",
        ),
        (vec![Reply::Holds(false), Reply::Text("".to_string()), Reply::Done], "why"),
        (
            vec![Reply::Holds(false), Reply::Text("".to_string()), Reply::Done, Reply::Done],
            "Failed to create the private egress gateway VM",
        ),
    ];
    for (mut replies, message) in failing {
        replies.push(Reply::Failed("why".to_string()));
        match walk(replies).1 {
            VmSetup::Failed(failure) => assert_eq!(failure.message, message),
            other => panic!("{other:?}"),
        }
    }
}

fn release(name: &str, digest: &str) -> String {
    format!(
        "{{\"assets\":[{{\"name\":\"mihomo-linux-arm64-v1.deb\"}},{{\"name\":7}},{{\"name\":\"{name}\",\"browser_download_url\":\"https://dl.example/m.gz\",\"digest\":\"{digest}\"}}]}}"
    )
}

#[test]
fn program_is_installed_from_a_verified_release() {
    let archive = b"archive".to_vec();
    let digest = Sha256Hash::of(&archive).to_text();
    let walk = |replies: Vec<Reply>| {
        let mut state = ensure_mihomo_binary();
        let mut asked = Vec::new();
        for reply in replies {
            let action = state.action();
            assert!(is_answer(&reply, &action));
            asked.push(action);
            state = state.next(reply, Processor::Aarch64);
        }
        (asked, state)
    };
    assert!(matches!(walk(vec![Reply::Holds(true)]).1, MihomoInstall::Installed));
    let replies = |archive: Vec<u8>| {
        vec![
            Reply::Holds(false),
            Reply::Text(release("mihomo-linux-arm64-v1.gz", &format!("sha256:{digest}"))),
            Reply::Text("/tmp/d".to_string()),
            Reply::Done,
            Reply::Bytes(archive),
            Reply::Done,
            Reply::Holds(true),
            Reply::Bytes(vec![1, 2, 3]),
            Reply::Done,
        ]
    };
    let (asked, end) = walk(replies(archive));
    assert!(matches!(end, MihomoInstall::Installed));
    let query = cmd_of(&asked[1]);
    assert_eq!(
        query.args,
        [
            "--proto",
            "=https",
            "--proto-redir",
            "=https",
            "--retry",
            "3",
            "--retry-all-errors",
            "--retry-delay",
            "1",
            "--fail",
            "--silent",
            "--show-error",
            "--location",
            "https://api.github.com/repos/MetaCubeX/mihomo/releases/latest"
        ]
    );
    assert_eq!(
        cmd_of(&asked[3]).args[13..],
        ["https://dl.example/m.gz", "--output", "/tmp/d/mihomo.gz"]
    );
    assert!(matches!(&asked[6], Action::Unpack(cmd, path)
        if cmd.program == "gzip" && cmd.args == ["-dc", "/tmp/d/mihomo.gz"] && path == "/tmp/d/mihomo"));
    assert_eq!(cmd_of(&asked[8]).stdin, Some(vec![1, 2, 3]));

    let mut tampered = replies(b"other".to_vec());
    tampered.truncate(5);
    match walk(tampered).1 {
        MihomoInstall::Failed(failure) => {
            assert_eq!(failure.message, "Mihomo download failed SHA-256 verification")
        }
        other => panic!("{other:?}"),
    }

    let cases: Vec<(usize, Reply, &str)> = vec![
        (1, Reply::Failed("x".to_string()), "Failed to query the latest Mihomo release"),
        (1, Reply::Text("{".to_string()), "GitHub returned invalid Mihomo release metadata"),
        (2, Reply::Failed("x".to_string()), "Failed to create Mihomo download directory"),
        (3, Reply::Failed("x".to_string()), "Failed to download Mihomo"),
        (4, Reply::Failed("x".to_string()), "Failed to read downloaded Mihomo archive"),
        (5, Reply::Failed("x".to_string()), "Failed to create /tmp/d/mihomo"),
        (6, Reply::Failed("x".to_string()), "Failed to run gzip"),
        (6, Reply::Holds(false), "gzip failed while unpacking Mihomo"),
        (7, Reply::Failed("x".to_string()), "Failed to read decompressed Mihomo binary"),
        (8, Reply::Failed("x".to_string()), "Failed to install Mihomo in gateway VM"),
    ];
    for (at, reply, message) in cases {
        let mut some = replies(b"archive".to_vec());
        some.truncate(at);
        some.push(reply);
        match walk(some).1 {
            MihomoInstall::Failed(failure) => assert_eq!(failure.message, message),
            other => panic!("{other:?}"),
        }
    }
}

#[test]
fn release_metadata_is_judged() {
    let hex = "AB".repeat(32);
    let good = release("mihomo-linux-arm64-v1.GZ", &format!("sha256:{hex}"));
    let (url, digest) = release_asset(&good, Processor::Aarch64).expect("asset");
    assert_eq!(url, "https://dl.example/m.gz");
    assert_eq!(digest.to_text(), "ab".repeat(32));
    let cases: Vec<(String, Processor, &str)> = vec![
        ("[]".to_string(), Processor::Aarch64, "Mihomo release metadata has no assets"),
        (
            "{\"assets\":{}}".to_string(),
            Processor::Aarch64,
            "Mihomo release metadata has no assets",
        ),
        (
            good,
            Processor::X86_64,
            "Mihomo release has no mihomo-linux-amd64-compatible-*.gz asset",
        ),
        (
            "{\"assets\":[{\"name\":\"mihomo-linux-arm64-1.gz\"}]}".to_string(),
            Processor::Aarch64,
            "Mihomo asset has no download URL",
        ),
        (
            release("mihomo-linux-arm64-v1.gz", "md5:00"),
            Processor::Aarch64,
            "Mihomo asset has no GitHub SHA-256 digest",
        ),
        (
            release("mihomo-linux-arm64-v1.gz", "sha256:00"),
            Processor::Aarch64,
            "Invalid Mihomo asset digest",
        ),
        (
            release("mihomo-linux-arm64-v1.gz", &format!("sha256:{}", "zz".repeat(32))),
            Processor::Aarch64,
            "Invalid Mihomo asset digest",
        ),
    ];
    for (text, processor, message) in cases {
        let failure = release_asset(&text, processor).expect_err(message);
        assert_eq!(failure.message, message);
    }
}

#[test]
fn asset_digest_failures_keep_their_cause() {
    let cases = [
        ("sha256:00".to_string(), "Invalid string length"),
        ("sha256:000".to_string(), "Odd number of digits"),
        (format!("sha256:0z{}", "00".repeat(31)), "Invalid character 'z' at position 1"),
    ];
    for (digest, reason) in cases {
        let text = release("mihomo-linux-arm64-v1.gz", &digest);
        let failure = release_asset(&text, Processor::Aarch64).expect_err("digest");
        assert_eq!(failure.message, "Invalid Mihomo asset digest");
        assert!(matches!(failure.cause, Cause::Hex(error) if error.to_string() == reason));
    }
}

#[test]
fn asset_names_follow_path_rules() {
    let names = [
        "mihomo-linux-arm64-v1.gz",
        "mihomo-linux-arm64-v1.gz/",
        "mihomo-linux-arm64-v1.gz/.",
        "mihomo-linux-arm64-v1.gz/./",
        "mihomo-linux-arm64-/.gz",
        "mihomo-linux-arm64-/..",
        "mihomo-linux-arm64-/a.gZ",
        "mihomo-linux-arm64-.gz.",
        "mihomo-linux-arm64-.gzip",
        "mihomo-linux-arm64-gz",
        "mihomo-linux-arm64-.gz",
        "mihomo-linux-arm64-/...gz",
    ];
    for name in names {
        let expected = std::path::Path::new(name)
            .extension()
            .is_some_and(|ext| ext.eq_ignore_ascii_case("gz"));
        let assets = vec![Asset {
            name: Some(name.to_string()),
            url: Some("u".to_string()),
            digest: Some(format!("sha256:{}", "00".repeat(32))),
        }];
        assert_eq!(choose_asset(&assets, Processor::Aarch64).is_ok(), expected, "{name}");
    }
}

#[test]
fn release_assets_are_read_by_member() {
    let assets = read_release(&release("a", "b")).expect("assets");
    assert_eq!(assets.len(), 3);
    assert_eq!(assets[0].name.as_deref(), Some("mihomo-linux-arm64-v1.deb"));
    assert_eq!(assets[0].url, None);
    assert_eq!(assets[1].name, None);
    assert_eq!(assets[2].url.as_deref(), Some("https://dl.example/m.gz"));
    assert_eq!(assets[2].digest.as_deref(), Some("b"));
}

#[test]
fn digests_are_those_of_the_standard() {
    assert_eq!(
        Sha256Hash::of(b"abc").to_text(),
        "ba7816bf8f01cfea414140de5dae2223b00361a396177a9cb410ff61f20015ad"
    );
    let read = Sha256Hash::from_hex(
        "BA7816BF8F01CFEA414140DE5DAE2223B00361A396177A9CB410FF61F20015AD",
    )
    .expect("digest");
    assert!(read.same(&Sha256Hash::of(b"abc")));
    assert!(!read.same(&Sha256Hash::of(b"abd")));
    assert!(Sha256Hash::from_hex("ab").is_err());
    assert!(Sha256Hash::from_hex("").is_err());
    assert_eq!(random_secret(&[0, 255, 16, 1]), "00ff1001");
}

#[test]
fn fingerprint_is_the_digest_of_its_source() {
    let source = format!(
        "version=2\nsubscription={}\nexpected={}\nentry_group=in\nentry_choice=us\nexit_group=out\nexit_prefix=la\nexit_suffix=1\n",
        Sha256Hash::of(SUBSCRIPTION.as_bytes()).to_text(),
        Sha256Hash::of(b"203.0.113.10").to_text(),
    );
    assert_eq!(
        gateway_deployment_fingerprint(&egress(), SUBSCRIPTION, "203.0.113.10"),
        Sha256Hash::of(source.as_bytes()).to_text()
    );
    let mut moved = egress();
    moved.subscription = "env:SUB".to_string();
    assert_eq!(
        gateway_deployment_fingerprint(&moved, SUBSCRIPTION, "203.0.113.10"),
        gateway_deployment_fingerprint(&egress(), SUBSCRIPTION, "203.0.113.10")
    );
}

#[test]
fn fingerprint_tells_every_selector_apart() {
    let print = |config: &PrivateEgressConfig| {
        gateway_deployment_fingerprint(config, SUBSCRIPTION, "203.0.113.10")
    };
    let mut seen = vec![print(&egress())];
    for at in 0..5 {
        let mut config = egress();
        let selector = match at {
            0 => &mut config.entry_group,
            1 => &mut config.entry_choice,
            2 => &mut config.exit_group,
            3 => &mut config.exit_choice_prefix,
            _ => &mut config.exit_choice_suffix,
        };
        selector.push('x');
        let other = print(&config);
        assert!(!seen.contains(&other), "{at}");
        seen.push(other);
    }
}

#[test]
fn commands_drop_every_proxy_variable() {
    let (asked, _) = run(first_deployment());
    for action in [&asked[7], &asked[8], &asked[11], &asked[12], &asked[13], &asked[14]] {
        assert_eq!(cmd_of(action).env_removed, proxy_env_names());
    }
    for name in proxy_env_names() {
        assert!(is_proxy_env_name(name));
    }
    assert!(!is_proxy_env_name("Http_Proxy"));
    assert!(!is_proxy_env_name("FTP_PROXY"));
}

#[test]
fn gateway_address_is_read_from_its_output() {
    let address = gateway_ipv4(Ok(" 10.0.0.1\n".to_string())).expect("address");
    assert_eq!(address, Ipv4Address { a: 10, b: 0, c: 0, d: 1 });
    let failure = gateway_ipv4(Ok("none".to_string())).expect_err("no address");
    assert_eq!(failure.message, "Private egress gateway returned an invalid IPv4 address");
    assert!(matches!(failure.cause, Cause::Told(text) if text == "invalid IPv4 address syntax"));
    let failure = gateway_ipv4(Err("down".to_string())).expect_err("no output");
    assert_eq!(failure.message, "Failed to discover the private egress gateway address");
}

#[test]
fn addresses_are_read_in_their_one_notation() {
    let cases: Vec<(&str, Option<[u8; 4]>)> = vec![
        ("1.2.3.4", Some([1, 2, 3, 4])),
        ("0.0.0.0", Some([0, 0, 0, 0])),
        ("255.255.255.255", Some([255, 255, 255, 255])),
        ("100.200.30.4", Some([100, 200, 30, 4])),
        ("256.1.1.1", None),
        ("01.2.3.4", None),
        ("1.2.3", None),
        ("1.2.3.4.5", None),
        (" 1.2.3.4", None),
        ("1.2.3.4 ", None),
        ("1..3.4", None),
        ("", None),
        ("+1.2.3.4", None),
        ("1.2.3.\u{661}", None),
    ];
    for (text, expected) in cases {
        let parsed = parse_ipv4(text).map(|x| [x.a, x.b, x.c, x.d]);
        assert_eq!(parsed, expected, "{text}");
    }
    assert_eq!(Ipv4Address { a: 100, b: 9, c: 0, d: 255 }.to_text(), "100.9.0.255");
}
