//! What the smaller decisions of the program come to, call by call.
use vstd::arithmetic::div_mod::lemma_fundamental_div_mod;
use vstd::arithmetic::power2::{lemma2_to64, lemma_pow2_pos, lemma_pow2_unfold, pow2};
use vstd::prelude::*;
use vstd::utf8::encode_utf8;

use crate::command::{
    gateway_cmd, host_curl_cmd, host_https_curl_cmd, is_proxy_env_name, lima_cmd, Cmd,
};
use crate::config::{CoopConfig, PrivateEgressConfig};
use crate::deployment_laws::{below, cannot_be_quoted, may_be_downloaded_from, tells};
use crate::digest::{gateway_deployment_fingerprint, hex_text, random_secret, sha256, Sha256Hash};
use crate::effects::Reply;
use crate::failure::Failure;
use crate::gateway::{gateway_bootstrap_dns, gateway_ipv4, verify_gateway_connectivity};
use crate::guest_laws::{failed_for, has_no_proxy, runs_in_the_gateway};
use crate::instance_mode::{
    ensure_instance_mode, instance_mode_recorded, record_instance_mode, MarkerChange, MarkerRead,
    MarkerReply, INSTANCE_MODE_MARKER,
};
use crate::ipv4::{address_text_reads_back, parse_ipv4, read_address_is_its_text, Ipv4Address};
use crate::json::{json_bytes, JsonTree};
use crate::path_text::{
    after_slash, extension_of, has_gz_extension, join_path, joined_path, parent_of, without_tail,
};
use crate::rootfs::{
    build, build_rootfs, fetch_kernel, is_answer, project_root, Artifact, BuildAction, ImageBuild,
    Provision, RootSearch,
};
use crate::scripts::{agent_lockdown_script, filled, AGENT_LOCKDOWN_TEMPLATE};
use crate::shell::{read_word, shell_escape};
use crate::signal::{
    check_shutdown, handle_signal, install_handlers, shutdown_requested, EndSignal, ShutdownState,
    SignalGuard,
};
use crate::size::{
    dir_size_display, format_dir_size, gib_tenths, nearest_even, spacing, total, total_size,
};
use crate::subscription::{payload_tree, read_subscription, selector_payload};
use crate::text::{decimal, str_texts, trimmed};
use crate::tilde::{
    expand_tilde, expand_tilde_in, home_view, told_home, without_lead, without_trail,
};
use crate::url_check::{
    breaks_curl_config, check_subscription_url, judge_subscription_url, url_objection, url_parse,
    UrlParts,
};
use crate::yaml::{yaml_parse, Yaml};

verus! {

/// The marker of an instance is the known version where a gateway is configured, and
/// is removed where none is; an instance is then usable under exactly the mode that
/// it was created with, whatever its name and wherever its marker lies.
pub proof fn instances_keep_the_mode_they_were_created_with(
    created: &CoopConfig,
    change: MarkerChange,
    used: &CoopConfig,
    name: &str,
    marker: &str,
    found: MarkerRead,
    verdict: Result<(), Failure>,
)
    requires
        call_ensures(record_instance_mode, (created,), change),
        match change {
            MarkerChange::Write(text) => found matches MarkerRead::Contents(held) && held@ == text@,
            MarkerChange::Remove => found is NotFound,
        },
        call_ensures(ensure_instance_mode, (used, name, marker, found), verdict),
    ensures
        created.private_egress is Some ==> (change matches MarkerChange::Write(text) && text@
            == "version=1\n"@),
        created.private_egress is None ==> change is Remove,
        INSTANCE_MODE_MARKER@ == "private-egress-mode"@,
        verdict is Ok <==> (created.private_egress is Some <==> used.private_egress is Some),
{
}

/// An instance whose marker is anything else, or cannot be read, is not usable; the
/// text says which instance, and which marker.
pub proof fn unreadable_markers_make_instances_unusable(
    used: &CoopConfig,
    name: &str,
    marker: &str,
    found: MarkerRead,
    verdict: Result<(), Failure>,
)
    requires
        call_ensures(ensure_instance_mode, (used, name, marker, found), verdict),
    ensures
        found matches MarkerRead::Contents(text) ==> (text@ != "version=1\n"@ ==> (
        verdict matches Err(failure)
            && failure.cause is Nothing && failure.message@ == "Instance '"@ + name@
            + "' has an invalid or unsupported private-egress mode marker at "@ + marker@
            + ". Destroy and recreate this instance before using it"@)),
        found matches MarkerRead::Failed(reason) ==> (verdict matches Err(failure) && failed_for(
            failure,
            "Failed to read instance mode marker "@ + marker@,
            reason@,
        )),
        found is NotFound && used.private_egress is Some ==> (verdict matches Err(failure)
                && failure.cause is Nothing && failure.message@
                == "Instance '"@ + name@ + "' was created with "@
            + "ordinary networking"@ + ", but the current config uses "@ + "private egress"@
            + ". Destroy and recreate this instance before using it under the new network mode"@),
        found matches MarkerRead::Contents(text) ==> (text@ == "version=1\n"@
            && used.private_egress is None ==> (verdict matches Err(failure)
                && failure.cause is Nothing && failure.message@
            == "Instance '"@ + name@ + "' was created with "@ + "private egress"@
            + ", but the current config uses "@ + "ordinary networking"@
            + ". Destroy and recreate this instance before using it under the new network mode"@)),
{
}

/// The mode is recorded where the marker was changed; a marker that is to be removed
/// may be missing. Anything else is a failure, for the reason given.
pub proof fn modes_are_recorded_or_refused(
    cfg: &CoopConfig,
    reply: MarkerReply,
    verdict: Result<(), Failure>,
)
    requires
        call_ensures(instance_mode_recorded, (cfg, reply), verdict),
    ensures
        match reply {
            MarkerReply::Done => verdict is Ok,
            MarkerReply::NotFound(reason) => if cfg.private_egress is Some {
                verdict matches Err(failure) && failed_for(
                    failure,
                    "Failed to record private-egress instance mode"@,
                    reason@,
                )
            } else {
                verdict is Ok
            },
            MarkerReply::Failed(reason) => verdict matches Err(failure) && failed_for(
                failure,
                if cfg.private_egress is Some {
                    "Failed to record private-egress instance mode"@
                } else {
                    "Failed to clear stale private-egress mode marker"@
                },
                reason@,
            ),
        },
{
}

/// A subscription may be downloaded from exactly the URLs that are safe.
pub proof fn safe_urls_are_accepted(raw: &str, verdict: Result<(), Failure>)
    requires
        call_ensures(check_subscription_url, (raw,), verdict),
    ensures
        verdict is Ok <==> may_be_downloaded_from(raw@),
        url_parse(raw@) matches Err(reason) ==> (verdict matches Err(failure) && failed_for(
            failure,
            "Subscription secret is not a valid URL"@,
            reason,
        )),
        url_parse(raw@) matches Ok(url) ==> (verdict matches Err(failure) ==> failure.cause
            is Nothing && failure.message@ == if url.scheme != "https"@ {
            "Subscription URL must use HTTPS"@
        } else if url.cannot_be_a_base || url.host is None {
            "Subscription URL must have a host"@
        } else if url.username.len() > 0 || url.password is Some || url.fragment is Some {
            "Subscription URL must not contain userinfo or a fragment"@
        } else {
            "Subscription URL contains characters unsupported by curl config input"@
        }),
{
    if may_be_downloaded_from(raw@) {
        assert forall|i: int| 0 <= i < raw@.len() implies !breaks_curl_config(
            #[trigger] raw@[i],
        ) by {
            assert(!cannot_be_quoted(raw@[i]));
        }
    }
    if url_objection(raw@, url_parse(raw@)) is None {
        assert forall|i: int| 0 <= i < raw@.len() implies !cannot_be_quoted(#[trigger] raw@[i]) by {
            assert(!breaks_curl_config(raw@[i]));
        }
    }
}

/// A URL is judged by what the parser made of it: each objection comes in its turn.
pub proof fn urls_are_judged_as_parsed(
    raw: &str,
    parsed: Result<UrlParts, String>,
    verdict: Result<(), Failure>,
)
    requires
        call_ensures(judge_subscription_url, (raw, parsed), verdict),
    ensures
        match parsed {
            Err(reason) => verdict matches Err(failure) && failed_for(
                failure,
                "Subscription secret is not a valid URL"@,
                reason@,
            ),
            Ok(url) => {
                let plain = url.scheme@ == "https"@;
                let hosted = !url.cannot_be_a_base && url.host is Some;
                let bare = url.username@.len() == 0 && url.password is None && url.fragment is None;
                &&& verdict is Ok <==> plain && hosted && bare && forall|i: int|
                    0 <= i < raw@.len() ==> !cannot_be_quoted(#[trigger] raw@[i])
                &&& verdict matches Err(failure) ==> failure.message@ == if !plain {
                    "Subscription URL must use HTTPS"@
                } else if !hosted {
                    "Subscription URL must have a host"@
                } else if !bare {
                    "Subscription URL must not contain userinfo or a fragment"@
                } else {
                    "Subscription URL contains characters unsupported by curl config input"@
                }
            },
        },
{
    assert((forall|i: int| 0 <= i < raw@.len() ==> !cannot_be_quoted(#[trigger] raw@[i]))
        == crate::url_check::fits_curl_config(raw@)) by {
        if forall|i: int| 0 <= i < raw@.len() ==> !cannot_be_quoted(#[trigger] raw@[i]) {
            assert forall|i: int| 0 <= i < raw@.len() implies !breaks_curl_config(
                #[trigger] raw@[i],
            ) by {
                assert(!cannot_be_quoted(raw@[i]));
            }
        }
        if crate::url_check::fits_curl_config(raw@) {
            assert forall|i: int| 0 <= i < raw@.len() implies !cannot_be_quoted(
                #[trigger] raw@[i],
            ) by {
                assert(!breaks_curl_config(raw@[i]));
            }
        }
    }
}

/// A subscription is read exactly where it is no larger than sixteen mebibytes and
/// YAML, and then as it was parsed.
pub proof fn subscriptions_are_read_as_parsed(output: &str, read: Result<Yaml, Failure>)
    requires
        call_ensures(read_subscription, (output,), read),
    ensures
        encode_utf8(output@).len() > 16777216 ==> (read matches Err(failure)
            && failure.cause is Nothing && failure.message@
            == "Subscription exceeds 16777216 bytes"@),
        encode_utf8(output@).len() <= 16777216 ==> match yaml_parse(output@) {
            Some(tree) => read matches Ok(doc) && doc.tree() == tree,
            None => read matches Err(failure) && failure.message@
                == "Subscription is not valid YAML"@ && failure.cause is Yaml,
        },
{
}

/// What the selectors are told is the secret and each selector with its node.
pub proof fn selectors_are_told_the_secret_and_their_nodes(
    secret: &str,
    selections: &Vec<(String, String)>,
    told: JsonTree,
    written: Result<Vec<u8>, Failure>,
)
    requires
        call_ensures(selector_payload, (secret, selections), written),
        tells(
            told,
            secret@,
            Seq::new(selections@.len(), |i: int| (selections@[i].0@, selections@[i].1@)),
        ),
    ensures
        match written {
            Ok(bytes) => json_bytes(told) == Some(bytes@),
            Err(failure) => json_bytes(told) is None && failure.cause is Json && failure.message@
                == "Failed to encode Mihomo selector state"@,
        },
{
    let pairs = Seq::new(selections@.len(), |i: int| (selections@[i].0@, selections@[i].1@));
    assert(pairs =~= crate::harden::selection_texts(selections@));
    let made = payload_tree(secret@, pairs);
    assert("secret"@ != "selections"@) by {
        reveal_strlit("secret");
        reveal_strlit("selections");
    }
    let a = made->Object_0;
    let b = told->Object_0;
    assert(a.dom() =~= b.dom());
    assert(a["selections"@]->Array_0 =~~= b["selections"@]->Array_0);
    assert(a =~= b);
}

/// An address is read from exactly its own text.
pub proof fn addresses_are_read_from_their_text(s: &str, x: Ipv4Address, read: Option<Ipv4Address>)
    requires
        call_ensures(parse_ipv4, (s,), read),
    ensures
        read == Some(x) <==> s@ == x.text(),
        x.text() == decimal(x.a as nat) + seq!['.'] + decimal(x.b as nat) + seq!['.'] + decimal(
            x.c as nat,
        ) + seq!['.'] + decimal(x.d as nat),
{
    if s@ == x.text() {
        address_text_reads_back(x);
        if let Some(y) = read {
            crate::ipv4::text_is_injective(x, y);
        }
    }
}

/// The addresses that the gateway VM prints of its resolver, of its exit and of
/// itself are read from what it printed, but for white space around it.
pub proof fn printed_addresses_are_read(
    output: &str,
    text: String,
    x: Ipv4Address,
    resolver: Result<Ipv4Address, Failure>,
    seen: Result<Ipv4Address, Failure>,
    own: Result<Ipv4Address, Failure>,
)
    requires
        call_ensures(gateway_bootstrap_dns, (output,), resolver),
        call_ensures(verify_gateway_connectivity, (output,), seen),
        text@ == output@,
        call_ensures(gateway_ipv4, (Ok::<String, String>(text),), own),
    ensures
        resolver matches Ok(found) && found == x <==> trimmed(output@) == x.text(),
        seen matches Ok(found) && found == x <==> trimmed(output@) == x.text(),
        own matches Ok(found) && found == x <==> trimmed(output@) == x.text(),
        resolver matches Err(failure) ==> failed_for(
            failure,
            "Gateway VM default route did not provide an IPv4 bootstrap resolver"@,
            "invalid IPv4 address syntax"@,
        ),
        seen matches Err(failure) ==> failed_for(
            failure,
            "IP verification service returned a non-IPv4 response"@,
            "invalid IPv4 address syntax"@,
        ),
        own matches Err(failure) ==> failed_for(
            failure,
            "Private egress gateway returned an invalid IPv4 address"@,
            "invalid IPv4 address syntax"@,
        ),
{
    if trimmed(output@) == x.text() {
        address_text_reads_back(x);
    }
    if resolver matches Ok(found) && found == x {
        read_address_is_its_text(trimmed(output@), x);
    }
    if seen matches Ok(found) && found == x {
        read_address_is_its_text(trimmed(output@), x);
    }
    if own matches Ok(found) && found == x {
        read_address_is_its_text(trimmed(output@), x);
    }
}

/// The fingerprint of a deployment is the SHA-256 digest, in hexadecimal, of all that
/// it depends on: the digests of both secrets, and the five selectors.
pub proof fn fingerprint_covers_all_that_is_deployed(
    config: &PrivateEgressConfig,
    subscription: &str,
    expected: &str,
    fingerprint: String,
)
    requires
        call_ensures(gateway_deployment_fingerprint, (config, subscription, expected), fingerprint),
    ensures
        fingerprint@ == hex_text(
            sha256(
                encode_utf8(
                    "version=2\nsubscription="@ + hex_text(sha256(encode_utf8(subscription@)))
                        + "\nexpected="@ + hex_text(sha256(encode_utf8(expected@)))
                        + "\nentry_group="@ + config.entry_group@ + "\nentry_choice="@
                        + config.entry_choice@ + "\nexit_group="@ + config.exit_group@
                        + "\nexit_prefix="@ + config.exit_choice_prefix@ + "\nexit_suffix="@
                        + config.exit_choice_suffix@ + "\n"@,
                ),
            ),
        ),
{
}

/// Digests are those of SHA-256, two of them are the same where all bytes are, and a
/// secret is drawn bytes in hexadecimal.
pub proof fn digests_and_secrets_are_hexadecimal(
    data: &[u8],
    made: Sha256Hash,
    other: Sha256Hash,
    same: bool,
    text: String,
    secret: String,
)
    requires
        call_ensures(Sha256Hash::of, (data,), made),
        call_ensures(Sha256Hash::same, (&made, &other), same),
        call_ensures(Sha256Hash::to_text, (&made,), text),
        call_ensures(random_secret, (data,), secret),
    ensures
        made@ == sha256(data@),
        same <==> made@ == other@,
        text@ == hex_text(sha256(data@)),
        secret@ == hex_text(data@),
{
}

/// The variables that configure a proxy are these eight.
pub proof fn proxy_variables_are_known_by_name(name: &str, known: bool)
    requires
        call_ensures(is_proxy_env_name, (name,), known),
    ensures
        known <==> {
            ||| name@ == "HTTP_PROXY"@
            ||| name@ == "HTTPS_PROXY"@
            ||| name@ == "ALL_PROXY"@
            ||| name@ == "NO_PROXY"@
            ||| name@ == "http_proxy"@
            ||| name@ == "https_proxy"@
            ||| name@ == "all_proxy"@
            ||| name@ == "no_proxy"@
        },
{
    let names = crate::command::proxy_names();
    assert(names[0] == "HTTP_PROXY"@);
    assert(names[1] == "HTTPS_PROXY"@);
    assert(names[2] == "ALL_PROXY"@);
    assert(names[3] == "NO_PROXY"@);
    assert(names[4] == "http_proxy"@);
    assert(names[5] == "https_proxy"@);
    assert(names[6] == "all_proxy"@);
    assert(names[7] == "no_proxy"@);
}

/// Whether some strings hold these texts, in order.
pub open spec fn hold(items: Seq<String>, held: Seq<Seq<char>>) -> bool {
    &&& items.len() == held.len()
    &&& forall|i: int| 0 <= i < items.len() ==> (#[trigger] items[i])@ == held[i]
}

/// What is said of a command is what its fields hold.
pub proof fn commands_are_viewed_by_their_fields(cmd: Cmd)
    ensures
        cmd@.program == cmd.program@,
        hold(cmd.args@, cmd@.args),
        hold(cmd.env_removed@, cmd@.env_removed),
        cmd@.stdin is Some <==> cmd.stdin is Some,
        cmd.stdin matches Some(bytes) ==> cmd@.stdin == Some(bytes@),
{
}

/// An argument is added behind the others, and so are several, in their order; bytes
/// for the standard input take the place of what was given before. Nothing else of
/// the command changes.
pub proof fn arguments_are_added_behind(
    cmd: Cmd,
    arg: &str,
    more: &[&str],
    bytes: Vec<u8>,
    with_one: Cmd,
    with_more: Cmd,
    fed: Cmd,
)
    requires
        call_ensures(Cmd::arg, (cmd, arg), with_one),
        call_ensures(Cmd::args, (cmd, more), with_more),
        call_ensures(Cmd::stdin_input, (cmd, bytes), fed),
    ensures
        with_one@.args == cmd@.args.push(arg@),
        with_one@.program == cmd@.program,
        with_one@.env_removed == cmd@.env_removed,
        with_one@.stdin == cmd@.stdin,
        with_more@.args.len() == cmd@.args.len() + more@.len(),
        forall|i: int| 0 <= i < cmd@.args.len() ==> #[trigger] with_more@.args[i] == cmd@.args[i],
        forall|i: int|
            0 <= i < more@.len() ==> (#[trigger] more@[i])@ == with_more@.args[cmd@.args.len() + i],
        with_more@.program == cmd@.program,
        with_more@.env_removed == cmd@.env_removed,
        with_more@.stdin == cmd@.stdin,
        fed@.stdin == Some(bytes@),
        fed@.args == cmd@.args,
        fed@.program == cmd@.program,
        fed@.env_removed == cmd@.env_removed,
{
    assert forall|i: int| 0 <= i < more@.len() implies (#[trigger] more@[i])@
        == with_more@.args[cmd@.args.len() + i] by {
        assert(str_texts(more@)[i] == more@[i]@);
    }
}

/// Lima and curl are run directly: they inherit no variable that configures a proxy.
/// What is downloaded is downloaded over HTTPS alone, with three retries.
pub proof fn host_programs_are_run_directly(
    lima: Cmd,
    curl: Cmd,
    https: Cmd,
    inner: &[&str],
    inside: Cmd,
)
    requires
        call_ensures(lima_cmd, (), lima),
        call_ensures(host_curl_cmd, (), curl),
        call_ensures(host_https_curl_cmd, (), https),
        call_ensures(gateway_cmd, (inner,), inside),
    ensures
        lima@.program == "limactl"@ && lima@.args.len() == 0 && lima@.stdin is None,
        has_no_proxy(lima@),
        curl@.program == "curl"@ && curl@.args.len() == 0 && curl@.stdin is None,
        has_no_proxy(curl@),
        https@.program == "curl"@ && https@.stdin is None,
        https@.args == seq![
            "--proto"@,
            "=https"@,
            "--proto-redir"@,
            "=https"@,
            "--retry"@,
            "3"@,
            "--retry-all-errors"@,
            "--retry-delay"@,
            "1"@,
        ],
        has_no_proxy(https@),
        runs_in_the_gateway(inside@, str_texts(inner@)),
        inside@.stdin is None,
{
}

/// An address is written as its four numbers in decimal, with dots between.
pub proof fn addresses_are_written_in_dotted_decimal(address: &Ipv4Address, text: String)
    requires
        call_ensures(Ipv4Address::to_text, (address,), text),
    ensures
        text@ == decimal(address.a as nat) + seq!['.'] + decimal(address.b as nat) + seq!['.']
            + decimal(address.c as nat) + seq!['.'] + decimal(address.d as nat),
{
}

/// Whatever a value holds, a shell reads its escaped text as one word: the value.
pub proof fn escaped_values_are_read_back(s: &str, escaped: String)
    requires
        call_ensures(shell_escape, (s,), escaped),
    ensures
        read_word(escaped@, false) == Some((s@, Seq::<char>::empty())),
{
    crate::shell::escaped_value_is_one_word(s@, seq![]);
    assert(escaped@ + Seq::<char>::empty() =~= escaped@);
}

/// The name of the agent's tool stands in place of each backquote of its script, and
/// nothing else of the script changes.
pub proof fn tool_names_are_filled_in(
    before: Seq<char>,
    after: Seq<char>,
    tool: &str,
    script: String,
)
    requires
        call_ensures(agent_lockdown_script, (tool,), script),
    ensures
        script@ == filled(AGENT_LOCKDOWN_TEMPLATE@, tool@),
        !before.contains('`') ==> filled(before, tool@) == before,
        filled(before + seq!['`'] + after, tool@) == filled(before, tool@) + tool@ + filled(
            after,
            tool@,
        ),
    decreases before.len() + after.len(),
{
    if !before.contains('`') {
        lemma_nothing_filled(before, tool@);
    }
    lemma_filled_at(before, after, tool@);
}

proof fn lemma_nothing_filled(text: Seq<char>, value: Seq<char>)
    requires
        !text.contains('`'),
    ensures
        filled(text, value) == text,
    decreases text.len(),
{
    if text.len() > 0 {
        let init = text.drop_last();
        assert(!init.contains('`')) by {
            if init.contains('`') {
                let i = choose|i: int| 0 <= i < init.len() && init[i] == '`';
                assert(text[i] == '`');
            }
        }
        assert(text[text.len() - 1] != '`');
        lemma_nothing_filled(init, value);
        assert(filled(text, value) =~= text);
    } else {
        assert(text =~= seq![]);
    }
}

proof fn lemma_filled_at(before: Seq<char>, after: Seq<char>, value: Seq<char>)
    ensures
        filled(before + seq!['`'] + after, value) == filled(before, value) + value + filled(
            after,
            value,
        ),
    decreases after.len(),
{
    let whole = before + seq!['`'] + after;
    if after.len() == 0 {
        assert(whole.drop_last() =~= before);
        assert(filled(whole, value) =~= filled(before, value) + value + filled(after, value));
    } else {
        lemma_filled_at(before, after.drop_last(), value);
        assert(whole.drop_last() =~= before + seq!['`'] + after.drop_last());
        assert(filled(whole, value) =~= filled(before, value) + value + filled(after, value));
    }
}

/// An image is built of a directory, then the kernel, then the root file system, and
/// of all of them; what stops one of them is what the build fails with.
pub proof fn images_are_built_in_order(
    data_dir: &str,
    first: ImageBuild,
    state: &ImageBuild,
    action: BuildAction,
    reply: Reply,
    next: ImageBuild,
)
    requires
        call_ensures(build, (), first),
        call_ensures(ImageBuild::action, (state, data_dir), action),
        call_ensures(ImageBuild::next, (*state, reply, data_dir), next),
    ensures
        first is MakeDirectory,
        match *state {
            ImageBuild::MakeDirectory => action matches BuildAction::MakeDirectory(dir) && dir@
                == data_dir@,
            ImageBuild::Kernel => action == BuildAction::Provision(Artifact::Kernel),
            ImageBuild::Rootfs => action == BuildAction::Provision(Artifact::Rootfs),
            ImageBuild::Built | ImageBuild::Failed(_) => action is Stop,
        },
        reply is Done ==> {
            &&& state is MakeDirectory ==> next is Kernel
            &&& state is Kernel ==> next is Rootfs
            &&& state is Rootfs ==> next is Built
        },
        reply matches Reply::Stopped(failure) ==> next == ImageBuild::Failed(failure),
        state is MakeDirectory ==> (reply matches Reply::Failed(reason) ==> (
        next matches ImageBuild::Failed(failure) && failed_for(
            failure,
            "Failed to create data directory"@,
            reason@,
        ))),
{
}

/// Each action of a build is answered in kind, or by the failure to do it; whether a
/// file is there is always known.
pub proof fn builds_are_answered_in_kind(reply: &Reply, action: &BuildAction, fits: bool)
    requires
        call_ensures(is_answer, (reply, action), fits),
    ensures
        fits <==> match *action {
            BuildAction::MakeDirectory(_) => reply is Done || reply is Failed,
            BuildAction::Provision(_) => reply is Done || reply is Stopped,
            BuildAction::Exists(_) => reply is Holds,
            BuildAction::FindRoot => reply is Text || reply is Stopped,
            BuildAction::Script(_) => reply is Holds || reply is Failed,
            BuildAction::AskExecutable => reply is Text || reply is Failed,
            BuildAction::AskDirectory => reply is Text || reply is Failed,
            BuildAction::Stop => false,
        },
{
}

/// An artifact that is there is left alone. Else its own script, below the project's
/// root, makes it at its target; a script that is missing, cannot be run or fails is
/// a failure.
pub proof fn artifacts_are_made_by_their_scripts(
    artifact: Artifact,
    target: &str,
    state: &Provision,
    action: BuildAction,
    reply: Reply,
    next: Provision,
    first: Provision,
    other: Provision,
)
    requires
        call_ensures(fetch_kernel, (), first),
        call_ensures(build_rootfs, (), other),
        call_ensures(Provision::action, (state, target), action),
        call_ensures(Provision::next, (*state, reply, artifact, target), next),
    ensures
        first is Look,
        other is Look,
        match *state {
            Provision::Look => action matches BuildAction::Exists(path) && path@ == target@,
            Provision::FindRoot => action is FindRoot,
            Provision::LookForScript { script } => action matches BuildAction::Exists(path) && path@
                == script@,
            Provision::RunScript { script } => action matches BuildAction::Script(cmd)
                && cmd@.program == "bash"@ && cmd@.args == seq![script@, target@],
            Provision::Present | Provision::Failed(_) => action is Stop,
        },
        state is Look && reply == Reply::Holds(true) ==> next is Present,
        state is Look && reply == Reply::Holds(false) ==> next is FindRoot,
        state is FindRoot ==> (reply matches Reply::Text(root) ==> (
        next matches Provision::LookForScript { script } && script@ == below(
            root@,
            match artifact {
                Artifact::Kernel => "scripts/fetch-kernel.sh"@,
                Artifact::Rootfs => "scripts/build-rootfs.sh"@,
            },
        ))),
        *state matches Provision::LookForScript { script } ==> {
            &&& reply == Reply::Holds(true) ==> next == (Provision::RunScript { script })
            &&& reply == Reply::Holds(false) ==> (next matches Provision::Failed(failure)
                && failure.cause is Nothing && failure.message@ == (match artifact {
                Artifact::Kernel => "Kernel fetch script"@,
                Artifact::Rootfs => "Rootfs build script"@,
            }) + " not found at "@ + script@)
        },
        state is RunScript && reply == Reply::Holds(true) ==> next is Present,
        state is RunScript && reply == Reply::Holds(false) ==> (
        next matches Provision::Failed(failure)
            && failure.cause is Nothing && failure.message@ == (match artifact {
            Artifact::Kernel => "Kernel fetch script"@,
            Artifact::Rootfs => "Rootfs build script"@,
        }) + " failed"@),
        state is RunScript ==> (reply matches Reply::Failed(reason) ==> (
        next matches Provision::Failed(failure) && failed_for(
            failure,
            match artifact {
                Artifact::Kernel => "Failed to run kernel fetch script"@,
                Artifact::Rootfs => "Failed to run rootfs build script"@,
            },
            reason@,
        ))),
        reply matches Reply::Stopped(failure) ==> next == Provision::Failed(failure),
{
    reveal_strlit("/");
    if let (Provision::RunScript { script }, BuildAction::Script(cmd)) = (*state, action) {
        assert(cmd@.args =~= seq![script@, target@]);
    }
    if let (Provision::FindRoot, Reply::Text(root)) = (*state, reply) {
        let path = match artifact {
            Artifact::Kernel => "scripts/fetch-kernel.sh"@,
            Artifact::Rootfs => "scripts/build-rootfs.sh"@,
        };
        assert(joined_path(root@, path) =~= below(root@, path));
    }
}

/// The project's root is the first directory with a manifest: of the program's own
/// directory and the four above it, from the nearest on, and then of the current one.
pub proof fn root_is_searched_upwards_and_then_here(
    state: &RootSearch,
    first: RootSearch,
    action: BuildAction,
    reply: Reply,
    next: RootSearch,
    parent: String,
    of: &str,
)
    requires
        call_ensures(project_root, (), first),
        call_ensures(RootSearch::action, (state,), action),
        call_ensures(RootSearch::next, (*state, reply), next),
        call_ensures(parent_of, (of,), parent),
    ensures
        first is AskExecutable,
        match *state {
            RootSearch::AskExecutable => action is AskExecutable,
            RootSearch::Look { dir, .. } => action matches BuildAction::Exists(path) && path@
                == below(dir@, "Cargo.toml"@),
            RootSearch::AskDirectory => action is AskDirectory,
            RootSearch::LookHere { dir } => action matches BuildAction::Exists(path) && path@
                == below(dir@, "Cargo.toml"@),
            RootSearch::Found(_) | RootSearch::Failed(_) => action is Stop,
        },
        state is AskExecutable ==> (reply matches Reply::Text(program) ==> (program@ == of@ ==> (
        next matches RootSearch::Look { dir, left } && dir@ == parent@ && left == 4))),
        *state matches RootSearch::Look { dir, left } ==> {
            &&& reply == Reply::Holds(true) ==> next == RootSearch::Found(dir)
            &&& reply == Reply::Holds(false) && left == 0 ==> next is AskDirectory
            &&& reply == Reply::Holds(false) && left > 0 && dir@ == of@ ==> (
            next matches RootSearch::Look { dir: up, left: fewer } && up@ == parent@ && fewer
                == left - 1)
        },
        state is AskDirectory ==> (reply matches Reply::Text(dir) ==> next == (
        RootSearch::LookHere { dir })),
        *state matches RootSearch::LookHere { dir } ==> {
            &&& reply == Reply::Holds(true) ==> next == RootSearch::Found(dir)
            &&& reply == Reply::Holds(false) ==> (next matches RootSearch::Failed(failure)
                && failure.cause is Nothing && failure.message@
                == "Could not locate project root (directory containing Cargo.toml)"@)
        },
        reply matches Reply::Failed(reason) ==> {
            &&& state is AskExecutable ==> (next matches RootSearch::Failed(failure) && failed_for(
                failure,
                "Failed to get executable path"@,
                reason@,
            ))
            &&& state is AskDirectory ==> (next matches RootSearch::Failed(failure) && failed_for(
                failure,
                "Failed to get current directory"@,
                reason@,
            ))
        },
{
    reveal_strlit("/");
    match *state {
        RootSearch::Look { dir, .. } => {
            assert(joined_path(dir@, "Cargo.toml"@) =~= below(dir@, "Cargo.toml"@));
        },
        RootSearch::LookHere { dir } => {
            assert(joined_path(dir@, "Cargo.toml"@) =~= below(dir@, "Cargo.toml"@));
        },
        _ => {},
    }
}

proof fn lemma_after_slash(stem: Seq<char>, name: Seq<char>)
    requires
        !name.contains('/'),
        stem.len() == 0 || stem.last() == '/',
    ensures
        after_slash(stem + name) == name,
    decreases name.len(),
{
    let path = stem + name;
    if name.len() == 0 {
        assert(path =~= stem);
        assert(after_slash(path) =~= name);
    } else {
        let init = name.drop_last();
        assert(!init.contains('/')) by {
            if init.contains('/') {
                let i = choose|i: int| 0 <= i < init.len() && init[i] == '/';
                assert(name[i] == '/');
            }
        }
        assert(name[name.len() - 1] != '/');
        lemma_after_slash(stem, init);
        assert(path.drop_last() =~= stem + init);
        assert(after_slash(path) =~= name);
    }
}

/// What lies in a directory has that directory as its parent, and is what joining
/// its name to the directory gives.
pub proof fn parents_undo_joining(
    dir: &str,
    name: &str,
    path: String,
    of: &str,
    parent: String,
)
    requires
        call_ensures(join_path, (dir, name), path),
        of@ == path@,
        call_ensures(parent_of, (of,), parent),
        dir@.len() > 0,
        dir@.last() != '/',
        dir@.last() != '.',
        name@.len() > 0,
        !name@.contains('/'),
        name@.last() != '.',
    ensures
        path@ == dir@ + "/"@ + name@,
        parent@ == dir@,
{
    reveal_strlit("/");
    let stem = dir@.push('/');
    assert(path@ =~= dir@ + "/"@ + name@);
    assert(path@ =~= stem + name@);
    assert(name@[name@.len() - 1] != '/');
    assert(path@.last() == name@.last());
    assert(without_tail(path@) == path@);
    lemma_after_slash(stem, name@);
    assert(path@.take(path@.len() - name@.len()) =~= stem);
    assert(stem.drop_last() =~= dir@);
    assert(without_tail(stem) == without_tail(dir@));
    assert(without_tail(dir@) == dir@);
}

/// A name at the top has the root as its parent, or nothing where it is relative;
/// slashes at the end of a path change nothing.
pub proof fn parents_of_names_at_the_top(
    name: &str,
    rooted: &str,
    slashed: &str,
    of_name: String,
    of_rooted: String,
    of_slashed: String,
)
    requires
        name@.len() > 0,
        !name@.contains('/'),
        name@.last() != '.',
        rooted@ == "/"@ + name@,
        slashed@ == "/"@ + name@ + "/"@,
        call_ensures(parent_of, (name,), of_name),
        call_ensures(parent_of, (rooted,), of_rooted),
        call_ensures(parent_of, (slashed,), of_slashed),
    ensures
        of_name@.len() == 0,
        of_rooted@ == "/"@,
        of_slashed@ == "/"@,
{
    reveal_strlit("/");
    let top = seq!['/'];
    assert("/"@ =~= top);
    assert(name@[name@.len() - 1] != '/');
    lemma_after_slash(seq![], name@);
    assert(Seq::<char>::empty() + name@ =~= name@);
    assert(without_tail(name@) == name@);
    assert(name@.take(0) =~= seq![]);
    assert(without_tail(Seq::<char>::empty()) =~= seq![]);
    lemma_after_slash(top, name@);
    assert(rooted@ =~= top + name@);
    assert(rooted@.last() == name@.last());
    assert(without_tail(rooted@) == rooted@);
    assert(rooted@.take(1) =~= top);
    assert(top.drop_last() =~= seq![]);
    assert(without_tail(top) =~= seq![]);
    assert(slashed@.drop_last() =~= rooted@);
    assert(without_tail(slashed@) == without_tail(rooted@));
}

proof fn lemma_extension(stem: Seq<char>, ext: Seq<char>)
    requires
        stem.len() > 0,
        !ext.contains('.'),
    ensures
        extension_of(stem + seq!['.'] + ext) == Some(ext),
    decreases ext.len(),
{
    let name = stem + seq!['.'] + ext;
    if ext.len() == 0 {
        assert(name.last() == '.');
        assert(ext =~= seq![]);
    } else {
        let init = ext.drop_last();
        assert(!init.contains('.')) by {
            if init.contains('.') {
                let i = choose|i: int| 0 <= i < init.len() && init[i] == '.';
                assert(ext[i] == '.');
            }
        }
        assert(ext[ext.len() - 1] != '.');
        lemma_extension(stem, init);
        assert(name.drop_last() =~= stem + seq!['.'] + init);
        assert(init.push(ext.last()) =~= ext);
    }
}

proof fn lemma_no_extension(name: Seq<char>)
    requires
        !name.skip(1).contains('.'),
    ensures
        extension_of(name) is None,
    decreases name.len(),
{
    if name.len() > 1 {
        let rest = name.skip(1);
        assert(rest[rest.len() - 1] == name.last());
        assert(name.last() != '.') by {
            if name.last() == '.' {
                assert(rest[rest.len() - 1] == '.');
            }
        }
        let init = name.drop_last();
        assert(!init.skip(1).contains('.')) by {
            if init.skip(1).contains('.') {
                let i = choose|i: int| 0 <= i < init.skip(1).len() && init.skip(1)[i] == '.';
                assert(rest[i] == '.');
            }
        }
        lemma_no_extension(init);
    }
}

/// In whatever directory, a file is an archive exactly where what follows the last
/// dot of its name is the two letters, in either case.
pub proof fn archives_are_known_by_their_extension(
    path: &str,
    dir: Seq<char>,
    stem: Seq<char>,
    ext: Seq<char>,
    known: bool,
)
    requires
        call_ensures(has_gz_extension, (path,), known),
        dir.len() == 0 || dir.last() == '/',
        stem.len() > 0,
        !stem.contains('/'),
        ext.len() > 0,
        !ext.contains('/'),
        !ext.contains('.'),
        path@ == dir + (stem + seq!['.'] + ext),
    ensures
        known <==> ext == seq!['g', 'z'] || ext == seq!['G', 'z'] || ext == seq!['g', 'Z'] || ext
            == seq!['G', 'Z'],
{
    let name = stem + seq!['.'] + ext;
    assert(name.last() == ext[ext.len() - 1]);
    assert(path@.last() == name.last());
    assert(without_tail(path@) == path@);
    assert(!name.contains('/')) by {
        if name.contains('/') {
            let i = choose|i: int| 0 <= i < name.len() && name[i] == '/';
            if i < stem.len() {
                assert(stem[i] == '/');
            } else if i > stem.len() {
                assert(ext[i - stem.len() - 1] == '/');
            }
        }
    }
    lemma_after_slash(dir, name);
    lemma_extension(stem, ext);
    assert(name.len() >= 3);
    assert(name != seq!['.'] && name != seq!['.', '.']);
    if known {
        assert(ext =~= seq![ext[0], ext[1]]);
    }
}

/// A name without a dot, or with none but in front, is not that of an archive.
pub proof fn names_without_an_extension_are_no_archives(
    path: &str,
    dir: Seq<char>,
    name: Seq<char>,
    known: bool,
)
    requires
        call_ensures(has_gz_extension, (path,), known),
        dir.len() == 0 || dir.last() == '/',
        name.len() > 0,
        !name.contains('/'),
        name.last() != '.',
        !name.skip(1).contains('.'),
        path@ == dir + name,
    ensures
        !known,
{
    assert(name[name.len() - 1] != '/');
    assert(path@.last() == name.last());
    assert(without_tail(path@) == path@);
    lemma_after_slash(dir, name);
    lemma_no_extension(name);
}

/// Whether a relative path neither starts nor ends with a slash or with a component
/// that is a dot.
pub open spec fn is_plain_path(rest: Seq<u8>) -> bool {
    let n = rest.len();
    n > 0 ==> {
        &&& rest[0] != 47
        &&& rest[n - 1] != 47
        &&& rest[0] == 46 ==> n > 1 && rest[1] != 47
        &&& rest[n - 1] == 46 ==> n > 1 && rest[n - 2] != 47
    }
}

/// A path behind the tilde lies in the home directory; every other path, and every
/// path where there is no home directory, stays as it is.
pub proof fn tilde_is_the_home_directory(
    path: &[u8],
    home: Option<Vec<u8>>,
    rest: Seq<u8>,
    expanded: Vec<u8>,
)
    requires
        call_ensures(expand_tilde_in, (path, home), expanded),
        is_plain_path(rest),
    ensures
        home is None ==> expanded@ == path@,
        path@.len() == 0 || path@[0] != 126 ==> expanded@ == path@,
        path@.len() > 1 && path@[1] != 47 ==> expanded@ == path@,
        home matches Some(dir) ==> (path@ == seq![126u8] || path@ == seq![126u8, 47u8] + rest
            ==> expanded@ == (if dir@.len() == 0 || dir@[dir@.len() - 1] == 47 {
            dir@
        } else {
            dir@ + seq![47u8]
        }) + (if path@.len() == 1 {
            seq![]
        } else {
            rest
        })),
{
    if let Some(dir) = home {
        if path@ == seq![126u8] {
            assert(path@.skip(1) =~= seq![]);
            assert(without_lead(Seq::<u8>::empty()) =~= seq![]);
            assert(without_trail(Seq::<u8>::empty()) =~= seq![]);
        } else if path@ == seq![126u8, 47u8] + rest {
            assert(path@[0] == 126 && path@[1] == 47);
            let tail = path@.skip(1);
            assert(tail[0] == 47);
            assert(tail.skip(1) =~= rest);
            assert(without_lead(rest) == rest);
            assert(without_lead(tail) == rest);
            assert(without_trail(rest) == rest);
        }
    }
}

/// A path behind the tilde lies in the home directory that the system told, where it
/// told one; paths that do not start with the tilde stay as they are.
pub proof fn told_home_is_used(path: &[u8], rest: Seq<u8>, expanded: Vec<u8>)
    requires
        call_ensures(expand_tilde, (path,), expanded),
        is_plain_path(rest),
    ensures
        path@.len() == 0 || path@[0] != 126 ==> expanded@ == path@,
        path@ == seq![126u8, 47u8] + rest ==> exists|home: Option<Vec<u8>>| #[trigger]
            told_home(home) && match home {
                None => expanded@ == path@,
                Some(dir) => expanded@ == (if dir@.len() == 0 || dir@[dir@.len() - 1] == 47 {
                    dir@
                } else {
                    dir@ + seq![47u8]
                }) + rest,
            },
{
    if path@ == seq![126u8, 47u8] + rest {
        assert(path@[0] == 126 && path@[1] == 47);
        let tail = path@.skip(1);
        assert(tail[0] == 47);
        assert(tail.skip(1) =~= rest);
        assert(without_lead(rest) == rest);
        assert(without_lead(tail) == rest);
        assert(without_trail(rest) == rest);
        let home = choose|home: Option<Vec<u8>>| #[trigger]
            told_home(home) && expanded@ == crate::tilde::expanded(path@, home_view(home));
        assert(told_home(home));
    }
}

proof fn lemma_lead_before_a_slash(path: Seq<u8>)
    ensures
        without_lead(path.push(47)) == if without_lead(path).len() == 0 {
            seq![]
        } else {
            without_lead(path).push(47)
        },
    decreases path.len(),
{
    let longer = path.push(47);
    if path.len() == 0 {
        assert(longer.skip(1) =~= seq![]);
        assert(without_lead(Seq::<u8>::empty()) =~= seq![]);
    } else if path[0] == 47 || (path[0] == 46 && (path.len() == 1 || path[1] == 47)) {
        lemma_lead_before_a_slash(path.skip(1));
        assert(longer.skip(1) =~= path.skip(1).push(47));
    }
}

/// Behind the tilde, slashes and components that are a dot change nothing at the
/// start of a path, and slashes change nothing at its end.
pub proof fn slashes_and_dots_change_no_place(
    rest: Seq<u8>,
    path: &[u8],
    slashed: &[u8],
    dotted: &[u8],
    ended: &[u8],
    home: Option<Vec<u8>>,
    place: Vec<u8>,
    of_slashed: Vec<u8>,
    of_dotted: Vec<u8>,
    of_ended: Vec<u8>,
)
    requires
        home is Some,
        path@ == seq![126u8, 47u8] + rest,
        slashed@ == seq![126u8, 47u8, 47u8] + rest,
        dotted@ == seq![126u8, 47u8, 46u8, 47u8] + rest,
        ended@ == seq![126u8, 47u8] + rest + seq![47u8],
        call_ensures(expand_tilde_in, (path, home), place),
        call_ensures(expand_tilde_in, (slashed, home), of_slashed),
        call_ensures(expand_tilde_in, (dotted, home), of_dotted),
        call_ensures(expand_tilde_in, (ended, home), of_ended),
    ensures
        of_slashed@ == place@,
        of_dotted@ == place@,
        of_ended@ == place@,
{
    let tail = seq![47u8] + rest;
    assert(path@.skip(1) =~= tail);
    assert(slashed@.skip(1).skip(1) =~= tail);
    assert(dotted@.skip(1).skip(1).skip(1) =~= tail);
    assert(without_lead(slashed@.skip(1)) == without_lead(tail));
    assert(without_lead(dotted@.skip(1)) == without_lead(dotted@.skip(1).skip(1)));
    assert(without_lead(dotted@.skip(1).skip(1)) == without_lead(tail));
    assert(ended@.skip(1) =~= tail.push(47));
    lemma_lead_before_a_slash(tail);
    let kept = without_lead(tail);
    if kept.len() > 0 {
        assert(kept.push(47).drop_last() =~= kept);
    }
    assert(without_trail(without_lead(tail.push(47))) == without_trail(kept)) by {
        if kept.len() == 0 {
            assert(kept =~= seq![]);
        }
    }
}

/// Whether `q` times a unit is nearest to a number: of two that are equally near, the
/// even one.
pub open spec fn is_nearest(q: nat, n: nat, unit: nat) -> bool {
    let above = q * unit - n;
    &&& -unit <= 2 * above <= unit
    &&& 2 * above == unit || 2 * above == -unit ==> q % 2 == 0
}

proof fn lemma_nearest(n: nat, unit: nat)
    requires
        unit > 0,
    ensures
        is_nearest(nearest_even(n, unit), n, unit),
{
    let down = n / unit;
    let rest = n % unit;
    lemma_fundamental_div_mod(n as int, unit as int);
    assert(unit * down == down * unit) by (nonlinear_arith);
    assert((down + 1) * unit == down * unit + unit) by (nonlinear_arith);
}

proof fn lemma_spacing(n: nat) -> (k: nat)
    ensures
        spacing(n) == pow2(k),
        n < 0x20_0000_0000_0000 ==> k == 0,
        n >= 0x20_0000_0000_0000 ==> pow2(k) * 0x10_0000_0000_0000 <= n < pow2(k)
            * 0x20_0000_0000_0000,
    decreases n,
{
    if n < 0x20_0000_0000_0000 {
        lemma2_to64();
        0
    } else {
        let k = lemma_spacing(n / 2);
        lemma2_to64();
        lemma_pow2_unfold(k + 1);
        k + 1
    }
}

/// A size is shown in gibibytes with one decimal: the nearest tenth of the nearest
/// number of fifty-three binary digits, which is the size itself where it has no more
/// digits than that.
pub proof fn sizes_are_shown_in_tenths(bytes: u64, text: String)
    requires
        call_ensures(format_dir_size, (bytes,), text),
    ensures
        exists|k: nat, steps: nat, tenths: nat|
            #![trigger is_nearest(steps, bytes as nat, pow2(k)), is_nearest(
                tenths,
                10 * (steps * pow2(k)),
                0x4000_0000,
            )]
            {
                &&& is_nearest(steps, bytes as nat, pow2(k))
                &&& bytes < 0x20_0000_0000_0000 ==> k == 0
                &&& bytes >= 0x20_0000_0000_0000 ==> pow2(k) * 0x10_0000_0000_0000 <= bytes
                    < pow2(k) * 0x20_0000_0000_0000
                &&& is_nearest(tenths, 10 * (steps * pow2(k)), 0x4000_0000)
                &&& text@ == decimal(tenths / 10) + "."@ + decimal(tenths % 10) + " GiB"@
            },
{
    let n = bytes as nat;
    let k = lemma_spacing(n);
    lemma_pow2_pos(k);
    let steps = nearest_even(n, pow2(k));
    lemma_nearest(n, pow2(k));
    let tenths = nearest_even(10 * (steps * pow2(k)), 0x4000_0000);
    lemma_nearest(10 * (steps * pow2(k)), 0x4000_0000);
    assert(tenths == gib_tenths(n));
}

/// The size of a directory is the sum of the sizes of its files, where that fits.
pub proof fn sizes_add_up(
    sizes: &[u64],
    sum: Option<u64>,
    shown: String,
    whole: String,
    before: Seq<u64>,
    more: u64,
)
    requires
        call_ensures(total_size, (sizes,), sum),
        call_ensures(dir_size_display, (sizes,), shown),
        sum matches Some(bytes) ==> call_ensures(format_dir_size, (bytes,), whole),
    ensures
        sum matches Some(bytes) ==> bytes == total(sizes@) && shown@ == whole@,
        sum is None <==> total(sizes@) > u64::MAX,
        total(Seq::<u64>::empty()) == 0,
        total(before.push(more)) == total(before) + more,
{
    assert(before.push(more).drop_last() =~= before);
}

/// A signal that is handled asks the program to end, and nothing takes that back; a
/// program that is asked to end is told so.
pub proof fn handled_signals_ask_the_program_to_end(
    before: ShutdownState,
    after: ShutdownState,
    asked: bool,
    verdict: Result<(), Failure>,
    signals: [EndSignal; 2],
    interrupt: usize,
    terminate: usize,
    guard: SignalGuard,
    restored: [(EndSignal, usize); 2],
)
    requires
        call_ensures(handle_signal, (before,), after),
        call_ensures(shutdown_requested, (before,), asked),
        call_ensures(check_shutdown, (before,), verdict),
        call_ensures(install_handlers, (), signals),
        call_ensures(SignalGuard::new, (interrupt, terminate), guard),
        call_ensures(SignalGuard::restore_handlers, (&guard,), restored),
    ensures
        after.requested,
        asked == before.requested,
        verdict is Err <==> before.requested,
        verdict matches Err(failure) ==> failure.cause is Nothing && failure.message@ == "Interrupted by signal — cleaning up"@,
        signals@ == seq![EndSignal::Interrupt, EndSignal::Terminate],
        restored@ == seq![
            (EndSignal::Interrupt, interrupt),
            (EndSignal::Terminate, terminate),
        ],
{
}

} // verus!
