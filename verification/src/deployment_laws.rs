//! What each step of a deployment of the gateway asks for, and what it takes to go
//! on.
use vstd::prelude::*;
use vstd::utf8::encode_utf8;

use crate::config::{CoopConfig, PrivateEgressConfig};
use crate::digest::{
    deployment_source, gateway_deployment_fingerprint, hex_digit, hex_text, text_digest,
};
use crate::effects::{is_answer, Action, Reply, SecretName};
use crate::failure::Failure;
use crate::gateway::{ensure_gateway, Deployment, Platform};
use crate::gateway_laws::{fingerprinted_at, is_course, is_step, stamp_follows_a_checked_install};
use crate::guest_laws::{failed_for, has_no_proxy, runs_in_the_gateway};
use crate::harden::{hardened, HardenError};
use crate::ipv4::{address_text_reads_back, read_address_is_its_text, Ipv4Address};
use crate::json::{json_bytes, JsonTree};
use crate::path_text::joined_path;
use crate::scripts::GATEWAY_SETUP_SCRIPT;
use crate::subscription::printed_address;
use crate::text::{is_white_space, trimmed, trimmed_end, trimmed_start};
use crate::url_check::{check_subscription_url, url_parse};
use crate::yaml::{untagged, well_formed, yaml_bytes, yaml_parse, Yaml};

verus! {

/// A path below a directory.
pub open spec fn below(dir: Seq<char>, rest: Seq<char>) -> Seq<char> {
    if dir.len() == 0 || dir[dir.len() - 1] == '/' {
        dir + rest
    } else {
        dir + "/"@ + rest
    }
}

/// The files of the gateway lie in one directory below the data directory.
pub proof fn gateway_files_lie_below_the_data_directory(data_dir: Seq<char>, name: Seq<char>)
    ensures
        crate::gateway_vm::egress_dir(data_dir) == below(data_dir, "private-egress"@),
        crate::gateway_vm::egress_file(data_dir, name) == below(
            data_dir,
            "private-egress/"@ + name,
        ),
{
    reveal_strlit("/");
    reveal_strlit("private-egress");
    reveal_strlit("private-egress/");
    let dir = joined_path(data_dir, "private-egress"@);
    assert(dir =~= below(data_dir, "private-egress"@));
    assert(dir.last() == 's');
    assert(joined_path(dir, name) =~= below(data_dir, "private-egress/"@ + name));
}

/// Every deployment takes the same lock, reads the stamp from one file, and keeps
/// its own stamp there: the two paths are the same, whatever the data directory.
pub proof fn stamp_is_read_where_it_is_written(
    reading: &Deployment,
    writing: &Deployment,
    locking: &Deployment,
    data_dir: &str,
    read: Action,
    written: Action,
    locked: Action,
)
    requires
        reading is ReadStamp,
        writing is WriteStamp,
        locking is Lock,
        call_ensures(Deployment::action, (reading, data_dir), read),
        call_ensures(Deployment::action, (writing, data_dir), written),
        call_ensures(Deployment::action, (locking, data_dir), locked),
    ensures
        read matches Action::ReadText(from) && (written matches Action::WriteFile(to, text) && {
            &&& from@ == to@
            &&& from@ == below(data_dir@, "private-egress/"@ + "gateway-deployment.stamp"@)
            &&& *writing == (Deployment::WriteStamp { fingerprint: writing->WriteStamp_fingerprint })
            &&& text@ == writing->WriteStamp_fingerprint@
        }),
        locked matches Action::Lock(path) && path@ == below(
            data_dir@,
            "private-egress/"@ + "gateway-state"@,
        ),
{
    gateway_files_lie_below_the_data_directory(data_dir@, "gateway-deployment.stamp"@);
    gateway_files_lie_below_the_data_directory(data_dir@, "gateway-state"@);
}

/// What a deployment asks for beside its files: Lima, the VM, the program, the two
/// secrets, and random bytes.
pub proof fn deployments_ask_for_what_they_need(
    state: &Deployment,
    data_dir: &str,
    action: Action,
)
    requires
        call_ensures(Deployment::action, (state, data_dir), action),
    ensures
        state is LocateLima ==> (action matches Action::FindProgram(name) && name@ == "limactl"@),
        state is PrepareVm <==> action is PrepareVm,
        state is PrepareBinary <==> action is PrepareBinary,
        state is ResolveSubscription <==> action == Action::Resolve(SecretName::Subscription),
        state is ResolveExpected <==> action == Action::Resolve(SecretName::ExpectedEgress),
        state is OpenRandom <==> action is OpenRandom,
        state is ReadRandom <==> action is ReadRandom,
        state is Finished || state is Failed <==> action is Stop,
{
}

/// A gateway counts as healthy where its service runs, its tunnel device is there
/// and its forwarding is open into that device; one that is not is restarted.
pub proof fn health_is_asked_of_the_gateway(state: &Deployment, data_dir: &str, action: Action)
    requires
        call_ensures(Deployment::action, (state, data_dir), action),
    ensures
        state is Probe || state is ProbeAgain <==> action is Probe,
        action matches Action::Probe(cmd) ==> cmd@.stdin is None && runs_in_the_gateway(
            cmd@,
            seq![
                "sudo"@,
                "sh"@,
                "-c"@,
                "systemctl is-active --quiet mihomo.service && ip link show coop-egress >/dev/null && nft list chain inet coop_gateway_killswitch forward | grep -q 'oifname \\\"coop-egress\\\" accept'"@,
            ],
        ),
        state is Restart ==> (action matches Action::Run(cmd) && cmd@.stdin is None
            && runs_in_the_gateway(
            cmd@,
            seq!["sudo"@, "systemctl"@, "restart"@, "mihomo.service"@],
        )),
{
    match action {
        Action::Probe(cmd) => {
            assert(cmd@.args =~= seq!["shell"@, "coop-egress"@, "--"@] + seq![
                "sudo"@,
                "sh"@,
                "-c"@,
                "systemctl is-active --quiet mihomo.service && ip link show coop-egress >/dev/null && nft list chain inet coop_gateway_killswitch forward | grep -q 'oifname \\\"coop-egress\\\" accept'"@,
            ]);
        },
        Action::Run(cmd) => {
            if state is Restart {
                assert(cmd@.args =~= seq!["shell"@, "coop-egress"@, "--"@] + seq![
                    "sudo"@,
                    "systemctl"@,
                    "restart"@,
                    "mihomo.service"@,
                ]);
            }
        },
        _ => {},
    }
}

/// The lines of the curl configuration that follow the URL.
pub open spec fn download_limits() -> Seq<char> {
    "proto = \"=https\"\n"@ + "proto-redir = \"=https\"\n"@ + "retry = 3\n"@
        + "retry-all-errors\n"@ + "retry-delay = 1\n"@ + "fail\n"@ + "silent\n"@ + "show-error\n"@
        + "location\n"@ + "max-time = 30\n"@ + "max-filesize = 16777216\n"@
}

/// A subscription is downloaded by the host, directly, over HTTPS alone and within
/// bounds. The URL that was resolved is the one that is asked for, and it is in the
/// configuration on the standard input, not among the arguments.
pub proof fn subscription_url_is_asked_for_over_https(
    subscription: String,
    fingerprint: String,
    resolver: Ipv4Address,
    data_dir: &str,
    action: Action,
)
    requires
        call_ensures(
            Deployment::action,
            (&Deployment::Download { subscription, fingerprint, resolver }, data_dir),
            action,
        ),
    ensures
        action matches Action::Capture(cmd) && {
            &&& cmd@.program == "curl"@
            &&& cmd@.args == seq!["--config"@, "-"@]
            &&& has_no_proxy(cmd@)
            &&& cmd@.stdin == Some(
                encode_utf8("url = \""@ + subscription@ + "\"\n"@ + download_limits()),
            )
        },
{
    reveal_strlit("\"\nproto = \"=https\"\nproto-redir = \"=https\"\nretry = 3\nretry-all-errors\nretry-delay = 1\nfail\nsilent\nshow-error\nlocation\nmax-time = 30\nmax-filesize = 16777216\n");
    reveal_strlit("\"\n");
    reveal_strlit("proto = \"=https\"\n");
    reveal_strlit("proto-redir = \"=https\"\n");
    reveal_strlit("retry = 3\n");
    reveal_strlit("retry-all-errors\n");
    reveal_strlit("retry-delay = 1\n");
    reveal_strlit("fail\n");
    reveal_strlit("silent\n");
    reveal_strlit("show-error\n");
    reveal_strlit("location\n");
    reveal_strlit("max-time = 30\n");
    reveal_strlit("max-filesize = 16777216\n");
    assert("\"\nproto = \"=https\"\nproto-redir = \"=https\"\nretry = 3\nretry-all-errors\nretry-delay = 1\nfail\nsilent\nshow-error\nlocation\nmax-time = 30\nmax-filesize = 16777216\n"@
        =~= "\"\n"@ + download_limits());
    assert(crate::subscription::curl_config(subscription@) =~= "url = \""@ + subscription@
        + "\"\n"@ + download_limits());
}

/// What the gateway VM is asked and told while it is filled: its resolver; its
/// configuration and the state of its selectors, each on the standard input and
/// into a file that only its owner reads; the set-up with that resolver; and the
/// address from which it is seen.
pub proof fn gateway_is_filled_over_standard_input(
    state: &Deployment,
    data_dir: &str,
    action: Action,
)
    requires
        call_ensures(Deployment::action, (state, data_dir), action),
    ensures
        match *state {
            Deployment::DiscoverResolver { .. } => action matches Action::Capture(cmd)
                && cmd@.stdin is None && runs_in_the_gateway(
                cmd@,
                seq![
                    "sh"@,
                    "-c"@,
                    "ip -4 route show default | awk 'NR == 1 { print $3; exit }'"@,
                ],
            ),
            Deployment::SendConfig { config, .. } => action matches Action::Run(cmd) && cmd@.stdin
                == Some(config@) && runs_in_the_gateway(
                cmd@,
                seq![
                    "sudo"@,
                    "sh"@,
                    "-c"@,
                    "umask 077; install -d -m 0700 /etc/mihomo; cat > /etc/mihomo/config.yaml.tmp && mv /etc/mihomo/config.yaml.tmp /etc/mihomo/config.yaml"@,
                ],
            ),
            Deployment::SendSelectors { selectors, .. } => action matches Action::Run(cmd)
                && cmd@.stdin == Some(selectors@) && runs_in_the_gateway(
                cmd@,
                seq![
                    "sudo"@,
                    "sh"@,
                    "-c"@,
                    "umask 077; cat > /etc/mihomo/selector-state.json.tmp && mv /etc/mihomo/selector-state.json.tmp /etc/mihomo/selector-state.json"@,
                ],
            ),
            Deployment::SetUp { resolver, .. } => action matches Action::Run(cmd) && cmd@.stdin
                == Some(encode_utf8(GATEWAY_SETUP_SCRIPT@)) && runs_in_the_gateway(
                cmd@,
                seq!["sudo"@, "sh"@, "-s"@, "--"@, resolver.text()],
            ),
            Deployment::ProbeExit { .. } => action matches Action::Capture(cmd)
                && cmd@.stdin is None && runs_in_the_gateway(
                cmd@,
                seq![
                    "curl"@,
                    "--fail"@,
                    "--silent"@,
                    "--show-error"@,
                    "--max-time"@,
                    "15"@,
                    "https://api.ipify.org"@,
                ],
            ),
            _ => true,
        },
{
    let shell = seq!["shell"@, "coop-egress"@, "--"@];
    match (*state, action) {
        (Deployment::DiscoverResolver { .. }, Action::Capture(cmd)) => {
            assert(cmd@.args =~= shell + seq![
                "sh"@,
                "-c"@,
                "ip -4 route show default | awk 'NR == 1 { print $3; exit }'"@,
            ]);
        },
        (Deployment::SendConfig { .. }, Action::Run(cmd)) => {
            assert(cmd@.args =~= shell + seq![
                "sudo"@,
                "sh"@,
                "-c"@,
                "umask 077; install -d -m 0700 /etc/mihomo; cat > /etc/mihomo/config.yaml.tmp && mv /etc/mihomo/config.yaml.tmp /etc/mihomo/config.yaml"@,
            ]);
        },
        (Deployment::SendSelectors { .. }, Action::Run(cmd)) => {
            assert(cmd@.args =~= shell + seq![
                "sudo"@,
                "sh"@,
                "-c"@,
                "umask 077; cat > /etc/mihomo/selector-state.json.tmp && mv /etc/mihomo/selector-state.json.tmp /etc/mihomo/selector-state.json"@,
            ]);
        },
        (Deployment::SetUp { resolver, .. }, Action::Run(cmd)) => {
            assert(cmd@.args =~= shell + seq!["sudo"@, "sh"@, "-s"@, "--"@, resolver.text()]);
        },
        (Deployment::ProbeExit { .. }, Action::Capture(cmd)) => {
            assert(cmd@.args =~= shell + seq![
                "curl"@,
                "--fail"@,
                "--silent"@,
                "--show-error"@,
                "--max-time"@,
                "15"@,
                "https://api.ipify.org"@,
            ]);
        },
        _ => {},
    }
}

/// A deployment begins where a gateway is configured, and on macOS alone; where none
/// is configured there is nothing to do.
pub proof fn gateways_are_deployed_where_configured(
    cfg: &CoopConfig,
    platform: Platform,
    first: Result<Option<Deployment>, Failure>,
)
    requires
        call_ensures(ensure_gateway, (cfg, platform), first),
    ensures
        cfg.private_egress is None ==> first matches Ok(None),
        cfg.private_egress is Some && platform is MacOs ==> (first matches Ok(Some(state))
            && state is LocateLima),
        cfg.private_egress is Some && !(platform is MacOs) ==> (first matches Err(failure)
            && failure.cause is Nothing && failure.message@
            == "private_egress is currently supported only by the macOS Lima backend"@),
{
}

/// With Lima there, the lock taken, the VM up and the program in it, both secrets are
/// resolved, and the last stamp is read: the way there is the same for every
/// deployment. The subscription is kept as it was resolved.
pub proof fn deployments_begin_in_order(
    config: &PrivateEgressConfig,
    data_dir: &str,
    located: Deployment,
    locked: Deployment,
    up: Deployment,
    filled: Deployment,
    subscription: String,
    resolved: Deployment,
)
    requires
        call_ensures(
            Deployment::next,
            (Deployment::LocateLima, Reply::Holds(true), config, data_dir),
            located,
        ),
        call_ensures(Deployment::next, (located, Reply::Done, config, data_dir), locked),
        call_ensures(Deployment::next, (locked, Reply::Done, config, data_dir), up),
        call_ensures(Deployment::next, (up, Reply::Done, config, data_dir), filled),
        call_ensures(
            Deployment::next,
            (filled, Reply::Text(subscription), config, data_dir),
            resolved,
        ),
    ensures
        located is Lock,
        locked is PrepareVm,
        up is PrepareBinary,
        filled is ResolveSubscription,
        resolved == (Deployment::ResolveExpected { subscription }),
{
}

/// Without Lima there is no deployment.
pub proof fn deployments_need_lima(
    config: &PrivateEgressConfig,
    data_dir: &str,
    next: Deployment,
)
    requires
        call_ensures(
            Deployment::next,
            (Deployment::LocateLima, Reply::Holds(false), config, data_dir),
            next,
        ),
    ensures
        next matches Deployment::Failed(failure) && failure.cause is Nothing && failure.message@
            == "private_egress requires Lima (limactl) on macOS"@,
{
}

/// The expected address must be one: then, and only then, the last stamp is read, for
/// the subscription that was resolved and with the fingerprint of both secrets.
pub proof fn expected_address_must_be_one(
    subscription: String,
    expected: String,
    config: &PrivateEgressConfig,
    data_dir: &str,
    next: Deployment,
    url: &str,
    address: &str,
    stamp: String,
)
    requires
        url@ == subscription@,
        address@ == expected@,
        call_ensures(gateway_deployment_fingerprint, (config, url, address), stamp),
        call_ensures(
            Deployment::next,
            (
                Deployment::ResolveExpected { subscription },
                Reply::Text(expected),
                config,
                data_dir,
            ),
            next,
        ),
    ensures
        next is ReadStamp <==> exists|x: Ipv4Address| expected@ == #[trigger] x.text(),
        next is ReadStamp ==> next->ReadStamp_subscription == subscription,
        next is ReadStamp ==> next->ReadStamp_fingerprint@ == stamp@,
        !(next is ReadStamp) ==> (next matches Deployment::Failed(failure) && failed_for(
            failure,
            "Expected egress value is not a single IPv4 address"@,
            "invalid IPv4 address syntax"@,
        )),
{
}

/// A deployment whose stamp is the last one's is only checked; any other stamp, or
/// none, makes it install everything anew. A healthy gateway is left alone; one that
/// is not gets one restart, whatever becomes of that, and is installed anew where it
/// is still not healthy.
pub proof fn current_gateways_are_only_checked(
    subscription: String,
    fingerprint: String,
    config: &PrivateEgressConfig,
    data_dir: &str,
    reply: Reply,
    next: Deployment,
)
    ensures
        call_ensures(
            Deployment::next,
            (Deployment::ReadStamp { subscription, fingerprint }, reply, config, data_dir),
            next,
        ) ==> {
            &&& reply matches Reply::Text(stamp) ==> next == if trimmed(stamp@) == fingerprint@ {
                Deployment::Probe { subscription, fingerprint }
            } else {
                Deployment::DiscoverResolver { subscription, fingerprint }
            }
            &&& reply is Failed ==> next == (Deployment::DiscoverResolver {
                subscription,
                fingerprint,
            })
        },
        call_ensures(
            Deployment::next,
            (Deployment::Probe { subscription, fingerprint }, reply, config, data_dir),
            next,
        ) ==> {
            &&& reply == Reply::Holds(true) ==> next is Finished
            &&& reply == Reply::Holds(false) ==> next == (Deployment::Restart {
                subscription,
                fingerprint,
            })
        },
        call_ensures(
            Deployment::next,
            (Deployment::Restart { subscription, fingerprint }, reply, config, data_dir),
            next,
        ) ==> next == (Deployment::ProbeAgain { subscription, fingerprint }),
        call_ensures(
            Deployment::next,
            (Deployment::ProbeAgain { subscription, fingerprint }, reply, config, data_dir),
            next,
        ) ==> {
            &&& reply == Reply::Holds(true) ==> next is Finished
            &&& reply == Reply::Holds(false) ==> next == (Deployment::DiscoverResolver {
                subscription,
                fingerprint,
            })
        },
{
}

/// Whether a character would end or alter a quoted value of a curl configuration.
pub open spec fn cannot_be_quoted(c: char) -> bool {
    c as u32 <= 0x1F || 0x7F <= c as u32 <= 0x9F || c == '"' || c == '\\'
}

/// Whether a subscription may be downloaded from a URL: over HTTPS, from a host,
/// without a user, a password or a fragment, and with characters that curl takes as
/// they are.
pub open spec fn may_be_downloaded_from(url: Seq<char>) -> bool {
    &&& url_parse(url) matches Ok(parts)
    &&& parts.scheme == "https"@
    &&& !parts.cannot_be_a_base
    &&& parts.host is Some
    &&& parts.username.len() == 0
    &&& parts.password is None
    &&& parts.fragment is None
    &&& forall|i: int| 0 <= i < url.len() ==> !cannot_be_quoted(#[trigger] url[i])
}

/// The subscription is downloaded exactly where the gateway VM printed an address for
/// its resolver and the URL may be used; and then with that resolver and from that
/// URL. What is wrong with the URL is what the deployment fails for.
pub proof fn downloads_need_a_resolver_and_a_safe_url(
    subscription: String,
    fingerprint: String,
    output: String,
    config: &PrivateEgressConfig,
    data_dir: &str,
    next: Deployment,
    url: &str,
    verdict: Result<(), Failure>,
)
    requires
        url@ == subscription@,
        call_ensures(check_subscription_url, (url,), verdict),
        call_ensures(
            Deployment::next,
            (
                Deployment::DiscoverResolver { subscription, fingerprint },
                Reply::Text(output),
                config,
                data_dir,
            ),
            next,
        ),
    ensures
        forall|resolver: Ipv4Address|
            next == (Deployment::Download { subscription, fingerprint, resolver }) <==> (trimmed(
                output@,
            ) == #[trigger] resolver.text() && may_be_downloaded_from(subscription@)),
        next is Download || next is Failed,
        next is Download ==> may_be_downloaded_from(subscription@),
        (forall|x: Ipv4Address| trimmed(output@) != #[trigger] x.text()) ==> failed_for(
            next->Failed_0,
            "Gateway VM default route did not provide an IPv4 bootstrap resolver"@,
            "invalid IPv4 address syntax"@,
        ),
        forall|x: Ipv4Address|
            trimmed(output@) == #[trigger] x.text() ==> (verdict matches Err(failure) ==> (
            next matches Deployment::Failed(held) && held@ == failure@)),
{
    assert forall|x: Ipv4Address| trimmed(output@) == #[trigger] x.text() implies (
    verdict matches Err(failure) ==> (next matches Deployment::Failed(held) && held@
        == failure@)) by {
        address_text_reads_back(x);
    }
    if let Some(x) = printed_address(output@) {
        read_address_is_its_text(trimmed(output@), x);
    }
    let parsed = url_parse(subscription@);
    assert(may_be_downloaded_from(subscription@) <==> crate::url_check::url_objection(
        subscription@,
        parsed,
    ) is None) by {
        assert forall|i: int| 0 <= i < subscription@.len() implies cannot_be_quoted(
            #[trigger] subscription@[i],
        ) == crate::url_check::breaks_curl_config(subscription@[i]) by {}
        if crate::url_check::url_objection(subscription@, parsed) is None {
            assert forall|i: int| 0 <= i < subscription@.len() implies !cannot_be_quoted(
                #[trigger] subscription@[i],
            ) by {
                assert(!crate::url_check::breaks_curl_config(subscription@[i]));
            }
        }
        if may_be_downloaded_from(subscription@) {
            assert forall|i: int|
                0 <= i < subscription@.len() implies !crate::url_check::breaks_curl_config(
                #[trigger] subscription@[i],
            ) by {
                assert(!cannot_be_quoted(subscription@[i]));
            }
        }
    }
    assert forall|resolver: Ipv4Address|
        next == (Deployment::Download { subscription, fingerprint, resolver }) <==> (trimmed(
            output@,
        ) == #[trigger] resolver.text() && may_be_downloaded_from(subscription@)) by {
        if trimmed(output@) == resolver.text() {
            address_text_reads_back(resolver);
        }
        if next == (Deployment::Download { subscription, fingerprint, resolver }) {
            read_address_is_its_text(trimmed(output@), resolver);
        }
    }
}

/// What was downloaded is used exactly where it is no larger than sixteen mebibytes
/// and a YAML mapping; it is used as it was parsed, with the resolver and the
/// fingerprint of the deployment.
pub proof fn downloads_must_be_mappings_of_bounded_size(
    subscription: String,
    fingerprint: String,
    resolver: Ipv4Address,
    output: String,
    config: &PrivateEgressConfig,
    data_dir: &str,
    next: Deployment,
)
    requires
        call_ensures(
            Deployment::next,
            (
                Deployment::Download { subscription, fingerprint, resolver },
                Reply::Text(output),
                config,
                data_dir,
            ),
            next,
        ),
    ensures
        next is OpenRandom <==> encode_utf8(output@).len() <= 16777216 && (yaml_parse(
            output@,
        ) matches Some(tree) && untagged(tree) is Mapping),
        next matches Deployment::OpenRandom { fingerprint: kept, resolver: used, document } ==> {
            &&& kept == fingerprint
            &&& used == resolver
            &&& yaml_parse(output@) == Some(document.tree())
            &&& well_formed(document.tree())
        },
        !(next is OpenRandom) ==> (next matches Deployment::Failed(failure) && failure.message@
            == if encode_utf8(output@).len() > 16777216 {
            "Subscription exceeds 16777216 bytes"@
        } else if yaml_parse(output@) is None {
            "Subscription is not valid YAML"@
        } else {
            "Subscription YAML root must be a mapping"@
        }),
{
}

/// What the selectors are told, as JSON: the secret, and each selector with its node,
/// in order.
pub open spec fn tells(
    told: JsonTree,
    secret: Seq<char>,
    selections: Seq<(Seq<char>, Seq<char>)>,
) -> bool {
    &&& told matches JsonTree::Object(members)
    &&& members.dom() == set!["secret"@, "selections"@]
    &&& members["secret"@] == JsonTree::Text(secret)
    &&& members["selections"@] matches JsonTree::Array(list)
    &&& list.len() == selections.len()
    &&& forall|i: int|
        0 <= i < list.len() ==> #[trigger] list[i] == JsonTree::Array(
            seq![JsonTree::Text(selections[i].0), JsonTree::Text(selections[i].1)],
        )
}

/// The controller's secret is what was drawn, in hexadecimal. The configuration that
/// is handed over is the hardened subscription with that secret and the gateway's
/// resolver, and what the selectors are told goes with it. Where the subscription
/// can be hardened and both can be written, they are handed over; else the failure
/// says which of these it is.
pub proof fn drawn_secret_is_used(
    fingerprint: String,
    resolver: Ipv4Address,
    document: Yaml,
    drawn: Vec<u8>,
    config: &PrivateEgressConfig,
    data_dir: &str,
    opened: Deployment,
    next: Deployment,
    told: JsonTree,
    error: HardenError,
    text: String,
)
    requires
        well_formed(document.tree()),
        call_ensures(HardenError::message, (&error,), text),
        call_ensures(
            Deployment::next,
            (
                Deployment::OpenRandom { fingerprint, resolver, document },
                Reply::Done,
                config,
                data_dir,
            ),
            opened,
        ),
        call_ensures(
            Deployment::next,
            (
                Deployment::ReadRandom { fingerprint, resolver, document },
                Reply::Bytes(drawn),
                config,
                data_dir,
            ),
            next,
        ),
        hardened(document.tree(), *config, resolver.text(), hex_text(drawn@)) matches Ok((_, s))
            ==> tells(told, hex_text(drawn@), s),
    ensures
        opened == (Deployment::ReadRandom { fingerprint, resolver, document }),
        match hardened(document.tree(), *config, resolver.text(), hex_text(drawn@)) {
            Ok((tree, _)) => match (yaml_bytes(tree), json_bytes(told)) {
                (Some(yaml), Some(selectors)) => next matches Deployment::SendConfig {
                    fingerprint: kept,
                    resolver: used,
                    config: sent,
                    selectors: said,
                } && {
                    &&& kept == fingerprint
                    &&& used == resolver
                    &&& sent@ == yaml
                    &&& said@ == selectors
                },
                (None, _) => next matches Deployment::Failed(failure) && failure.cause is Yaml
                    && failure.message@ == "Failed to serialize hardened Mihomo config"@,
                (Some(_), None) => next matches Deployment::Failed(failure) && failure.cause is Json
                    && failure.message@ == "Failed to encode Mihomo selector state"@,
            },
            Err(fault) => next matches Deployment::Failed(failure) && (error@ == fault
                ==> failure.message@ == text@),
        },
{
    if let Ok((tree, selections)) = hardened(
        document.tree(),
        *config,
        resolver.text(),
        hex_text(drawn@),
    ) {
        let secret = hex_text(drawn@);
        let made = crate::subscription::payload_tree(secret, selections);
        assert("secret"@ != "selections"@) by {
            reveal_strlit("secret");
            reveal_strlit("selections");
        }
        let a = made->Object_0;
        let b = told->Object_0;
        assert(a.dom() =~= b.dom());
        assert(a["selections"@]->Array_0 =~~= b["selections"@]->Array_0);
        assert(a =~= b);
        assert(made == told);
    }
}

/// The configuration comes before the selectors, and both before the set-up, which
/// gets the resolver that the configuration was made with; then the gateway must be
/// seen from an address, and only then is the stamp kept, unchanged, and the
/// deployment finished.
pub proof fn gateways_are_filled_set_up_and_seen(
    fingerprint: String,
    resolver: Ipv4Address,
    yaml: Vec<u8>,
    selectors: Vec<u8>,
    seen: String,
    config: &PrivateEgressConfig,
    data_dir: &str,
    sent: Deployment,
    told: Deployment,
    set_up: Deployment,
    probed: Deployment,
    stamped: Deployment,
)
    requires
        call_ensures(
            Deployment::next,
            (
                Deployment::SendConfig { fingerprint, resolver, config: yaml, selectors },
                Reply::Done,
                config,
                data_dir,
            ),
            sent,
        ),
        call_ensures(Deployment::next, (sent, Reply::Done, config, data_dir), told),
        call_ensures(Deployment::next, (told, Reply::Done, config, data_dir), set_up),
        call_ensures(Deployment::next, (set_up, Reply::Text(seen), config, data_dir), probed),
        call_ensures(
            Deployment::next,
            (Deployment::WriteStamp { fingerprint }, Reply::Done, config, data_dir),
            stamped,
        ),
    ensures
        sent == (Deployment::SendSelectors { fingerprint, resolver, selectors }),
        told == (Deployment::SetUp { fingerprint, resolver }),
        set_up == (Deployment::ProbeExit { fingerprint }),
        probed == (Deployment::WriteStamp { fingerprint }) <==> exists|x: Ipv4Address|
            trimmed(seen@) == #[trigger] x.text(),
        !(probed is WriteStamp) ==> (probed matches Deployment::Failed(failure) && failed_for(
            failure,
            "IP verification service returned a non-IPv4 response"@,
            "invalid IPv4 address syntax"@,
        )),
        stamped is Finished,
{
}

/// Whatever cannot be done is what a deployment fails for, with the reason that was
/// given. A missing stamp and a failed restart are no failures.
pub proof fn deployments_fail_for_the_reason_given(
    state: Deployment,
    reason: String,
    config: &PrivateEgressConfig,
    data_dir: &str,
    next: Deployment,
)
    requires
        call_ensures(Deployment::next, (state, Reply::Failed(reason), config, data_dir), next),
    ensures
        match state {
            Deployment::Lock | Deployment::WriteStamp { .. } =>
                next matches Deployment::Failed(failure)
                    && failure.cause is Nothing && failure.message@ == reason@,
            Deployment::ResolveSubscription => next matches Deployment::Failed(failure)
                && failed_for(failure, "Failed to resolve private_egress.subscription"@, reason@),
            Deployment::ResolveExpected { .. } => next matches Deployment::Failed(failure)
                && failed_for(
                failure,
                "Failed to resolve private_egress.expected_egress_ip"@,
                reason@,
            ),
            Deployment::DiscoverResolver { .. } => next matches Deployment::Failed(failure)
                && failed_for(
                failure,
                "Failed to discover the gateway VM bootstrap resolver"@,
                reason@,
            ),
            Deployment::Download { .. } => next matches Deployment::Failed(failure) && failed_for(
                failure,
                "Failed to download the private egress subscription"@,
                reason@,
            ),
            Deployment::OpenRandom { .. } => next matches Deployment::Failed(failure)
                && failed_for(failure, "Failed to open host random source"@, reason@),
            Deployment::ReadRandom { .. } => next matches Deployment::Failed(failure)
                && failed_for(failure, "Failed to read host random source"@, reason@),
            Deployment::SendConfig { .. } => next matches Deployment::Failed(failure)
                && failed_for(failure, "Failed to transfer private egress config"@, reason@),
            Deployment::SendSelectors { .. } => next matches Deployment::Failed(failure)
                && failed_for(
                failure,
                "Failed to transfer private egress selector state"@,
                reason@,
            ),
            Deployment::SetUp { .. } => next matches Deployment::Failed(failure) && failed_for(
                failure,
                "Failed to configure the private egress service"@,
                reason@,
            ),
            Deployment::ProbeExit { .. } => next matches Deployment::Failed(failure) && failed_for(
                failure,
                "Private egress gateway cannot reach the IP verification service"@,
                reason@,
            ),
            _ => true,
        },
{
}

/// What stops the VM or the program from being prepared is what the deployment fails
/// with.
pub proof fn stopped_preparations_stop_a_deployment(
    state: Deployment,
    failure: Failure,
    config: &PrivateEgressConfig,
    data_dir: &str,
    next: Deployment,
)
    requires
        state is PrepareVm || state is PrepareBinary,
        call_ensures(Deployment::next, (state, Reply::Stopped(failure), config, data_dir), next),
    ensures
        next == Deployment::Failed(failure),
{
}

/// Hexadecimal text has no white space around it.
proof fn lemma_hex_is_trimmed(bytes: Seq<u8>)
    ensures
        trimmed(hex_text(bytes)) == hex_text(bytes),
{
    let text = hex_text(bytes);
    assert forall|i: int| 0 <= i < text.len() implies !is_white_space(#[trigger] text[i]) by {
        let high = bytes[i / 2] as int / 16;
        let low = bytes[i / 2] as int % 16;
        assert(0 <= high < 16 && 0 <= low < 16);
        assert(text[i] == hex_digit(high) || text[i] == hex_digit(low));
    }
    assert(trimmed_start(text) == text);
    assert(trimmed_end(text) == text);
}

/// The first steps of a course, up to the stamp, if it gets there.
proof fn lemma_first_steps(
    states: Seq<Deployment>,
    replies: Seq<Reply>,
    config: PrivateEgressConfig,
    data_dir: Seq<char>,
    at: int,
)
    requires
        is_course(states, replies, config, data_dir),
        0 <= at < states.len(),
    ensures
        states[at] is ResolveSubscription ==> at == 4,
        states[at] is ResolveExpected ==> at == 5 && replies[4] == Reply::Text(
            states[5]->ResolveExpected_subscription,
        ),
        states[at] is ReadStamp ==> at == 6 && states[5] is ResolveExpected && replies[4]
            == Reply::Text(states[5]->ResolveExpected_subscription) && fingerprinted_at(
            states,
            replies,
            config,
            5,
            states[6]->ReadStamp_fingerprint@,
        ),
        states[at] is PrepareBinary ==> at == 3,
        states[at] is PrepareVm ==> at == 2,
        states[at] is Lock ==> at == 1,
        states[at] is LocateLima ==> at == 0,
    decreases at,
{
    if at > 0 {
        assert(is_step(states, replies, config, data_dir, at - 1));
        lemma_first_steps(states, replies, config, data_dir, at - 1);
    }
}

/// A deployment that reads the stamp of the one before, with the same configuration,
/// the same subscription and the same expected address, is current: it goes on to
/// the health check, and installs nothing before that.
pub proof fn unchanged_deployment_is_current(
    before: Seq<Deployment>,
    before_replies: Seq<Reply>,
    after: Seq<Deployment>,
    after_replies: Seq<Reply>,
    config: PrivateEgressConfig,
    data_dir: Seq<char>,
    written: int,
)
    requires
        is_course(before, before_replies, config, data_dir),
        is_course(after, after_replies, config, data_dir),
        0 <= written < before.len(),
        before[written] is WriteStamp,
        after.len() > 7,
        after[6] is ReadStamp,
        before_replies[4] matches Reply::Text(s) && (after_replies[4] matches Reply::Text(t) && s@
            == t@),
        before_replies[5] matches Reply::Text(e) && (after_replies[5] matches Reply::Text(f) && e@
            == f@),
        after_replies[6] matches Reply::Text(stamp) && stamp@
            == before[written]->WriteStamp_fingerprint@,
    ensures
        after[7] is Probe,
{
    stamp_follows_a_checked_install(before, before_replies, config, data_dir, written);
    let fingerprint = before[written]->WriteStamp_fingerprint@;
    let made = choose|made: int|
        made < written && #[trigger] fingerprinted_at(
            before,
            before_replies,
            config,
            made,
            fingerprint,
        );
    lemma_first_steps(before, before_replies, config, data_dir, made);
    lemma_first_steps(after, after_replies, config, data_dir, 6);
    assert(is_step(after, after_replies, config, data_dir, 6));
    let source = deployment_source(
        config,
        after[5]->ResolveExpected_subscription@,
        after_replies[5]->Text_0@,
    );
    assert(fingerprint == text_digest(source));
    lemma_hex_is_trimmed(crate::digest::sha256(encode_utf8(source)));
}

/// The URL that is downloaded from is the one that was resolved for the deployment.
pub proof fn download_uses_the_resolved_url(
    states: Seq<Deployment>,
    replies: Seq<Reply>,
    config: PrivateEgressConfig,
    data_dir: Seq<char>,
    at: int,
)
    requires
        is_course(states, replies, config, data_dir),
        0 <= at < states.len(),
    ensures
        match states[at] {
            Deployment::ResolveExpected { subscription } => replies[4] == Reply::Text(subscription),
            Deployment::ReadStamp { subscription, .. } => replies[4] == Reply::Text(subscription),
            Deployment::Probe { subscription, .. } => replies[4] == Reply::Text(subscription),
            Deployment::Restart { subscription, .. } => replies[4] == Reply::Text(subscription),
            Deployment::ProbeAgain { subscription, .. } => replies[4] == Reply::Text(subscription),
            Deployment::DiscoverResolver { subscription, .. } => replies[4] == Reply::Text(
                subscription,
            ),
            Deployment::Download { subscription, .. } => replies[4] == Reply::Text(subscription),
            _ => true,
        },
    decreases at,
{
    lemma_first_steps(states, replies, config, data_dir, at);
    if at > 0 {
        assert(is_step(states, replies, config, data_dir, at - 1));
        download_uses_the_resolved_url(states, replies, config, data_dir, at - 1);
    }
}

/// What is asked for in each state is what the action says, and what a reply leads to
/// is what the next state is: the courses of deployments are those of the calls.
pub proof fn courses_are_those_of_the_calls(
    state: &Deployment,
    reply: Reply,
    config: &PrivateEgressConfig,
    data_dir: &str,
    action: Action,
    next: Deployment,
)
    requires
        call_ensures(Deployment::action, (state, data_dir), action),
        call_ensures(Deployment::next, (*state, reply, config, data_dir), next),
    ensures
        action@ == state.asks(data_dir@),
        state.leads_to(reply, *config, next),
{
}

/// Each action is answered in kind, or by the failure to do it; the random source
/// gives thirty-two bytes.
pub proof fn deployments_are_answered_in_kind(reply: &Reply, action: &Action, fits: bool)
    requires
        call_ensures(is_answer, (reply, action), fits),
    ensures
        fits <==> match *action {
            Action::FindProgram(_) => reply is Holds,
            Action::Probe(_) => reply is Holds,
            Action::Unpack(_, _) => reply is Holds || reply is Failed,
            Action::Lock(_) => reply is Done || reply is Failed,
            Action::Run(_) => reply is Done || reply is Failed,
            Action::MakeDirectory(_) => reply is Done || reply is Failed,
            Action::WriteFile(_, _) => reply is Done || reply is Failed,
            Action::CreateFile(_) => reply is Done || reply is Failed,
            Action::OpenRandom => reply is Done || reply is Failed,
            Action::Capture(_) => reply is Text || reply is Failed,
            Action::ReadText(_) => reply is Text || reply is Failed,
            Action::MakeTemporaryDirectory => reply is Text || reply is Failed,
            Action::Resolve(_) => reply is Text || reply is Failed,
            Action::ReadBytes(_) => reply is Bytes || reply is Failed,
            Action::PrepareVm => reply is Done || reply is Stopped,
            Action::PrepareBinary => reply is Done || reply is Stopped,
            Action::ReadRandom => reply is Failed || (reply matches Reply::Bytes(bytes)
                && bytes@.len() == 32),
            Action::Stop => false,
        },
{
}

} // verus!
