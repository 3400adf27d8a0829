//! What holds of every deployment of the gateway.
use vstd::prelude::*;

use crate::command::inherits_no_proxy;
use crate::config::PrivateEgressConfig;
use crate::digest::{deployment_source, hex_text, text_digest};
use crate::effects::{answers, ActionText, Reply};
use crate::gateway::{is_prepared, Deployment};
use crate::harden::hardened;
use crate::harden_laws::{hardened_gateway_is_closed, is_closed};
use crate::ipv4::address_of;
use crate::json::json_bytes;
use crate::subscription::{payload_tree, printed_address};
use crate::text::trimmed;
use crate::yaml::{untagged, well_formed, yaml_bytes, yaml_parse};

verus! {

/// How many replies a deployment needs at most.
pub open spec fn remaining(state: Deployment) -> nat {
    match state {
        Deployment::LocateLima => 19,
        Deployment::Lock => 18,
        Deployment::PrepareVm => 17,
        Deployment::PrepareBinary => 16,
        Deployment::ResolveSubscription => 15,
        Deployment::ResolveExpected { .. } => 14,
        Deployment::ReadStamp { .. } => 13,
        Deployment::Probe { .. } => 12,
        Deployment::Restart { .. } => 11,
        Deployment::ProbeAgain { .. } => 10,
        Deployment::DiscoverResolver { .. } => 9,
        Deployment::Download { .. } => 8,
        Deployment::OpenRandom { .. } => 7,
        Deployment::ReadRandom { .. } => 6,
        Deployment::SendConfig { .. } => 5,
        Deployment::SendSelectors { .. } => 4,
        Deployment::SetUp { .. } => 3,
        Deployment::ProbeExit { .. } => 2,
        Deployment::WriteStamp { .. } => 1,
        Deployment::Finished | Deployment::Failed(_) => 0,
    }
}

/// Each reply brings the end of a deployment nearer.
pub proof fn deployment_ends(
    state: Deployment,
    reply: Reply,
    config: PrivateEgressConfig,
    data_dir: Seq<char>,
    next: Deployment,
)
    requires
        answers(reply, state.asks(data_dir)),
        state.leads_to(reply, config, next),
    ensures
        remaining(next) < remaining(state),
{
}

/// Whatever cannot be done ends a deployment in a failure, with two exceptions:
/// the stamp of the last deployment may be missing, and a restart may fail.
pub proof fn failures_end_a_deployment(
    state: Deployment,
    reply: Reply,
    config: PrivateEgressConfig,
    data_dir: Seq<char>,
    next: Deployment,
)
    requires
        answers(reply, state.asks(data_dir)),
        state.leads_to(reply, config, next),
        reply is Failed || reply is Stopped,
        !(state is ReadStamp),
        !(state is Restart),
    ensures
        next is Failed,
{
}

/// No command of a deployment inherits a variable that configures a proxy.
pub proof fn deployment_commands_inherit_no_proxy(state: Deployment, data_dir: Seq<char>)
    ensures
        match state.asks(data_dir) {
            ActionText::Probe(cmd) | ActionText::Run(cmd) | ActionText::Capture(cmd) =>
            inherits_no_proxy(cmd),
            _ => true,
        },
{
}

/// Whether one reply of a course answers what was asked for, and leads to the
/// next state.
pub open spec fn is_step(
    states: Seq<Deployment>,
    replies: Seq<Reply>,
    config: PrivateEgressConfig,
    data_dir: Seq<char>,
    i: int,
) -> bool {
    &&& answers(replies[i], states[i].asks(data_dir))
    &&& states[i].leads_to(replies[i], config, states[i + 1])
}

/// A course of a deployment: the states that it passes, and the replies that
/// lead from each to the next.
pub open spec fn is_course(
    states: Seq<Deployment>,
    replies: Seq<Reply>,
    config: PrivateEgressConfig,
    data_dir: Seq<char>,
) -> bool {
    &&& states.len() == replies.len() + 1
    &&& states[0] == Deployment::LocateLima
    &&& forall|i: int|
        0 <= i < replies.len() ==> #[trigger] is_step(states, replies, config, data_dir, i)
}

/// Whether the fingerprint was made, at this point of a course, of the
/// subscription and the expected address that had been resolved.
pub open spec fn fingerprinted_at(
    states: Seq<Deployment>,
    replies: Seq<Reply>,
    config: PrivateEgressConfig,
    at: int,
    fingerprint: Seq<char>,
) -> bool {
    &&& 0 <= at < replies.len()
    &&& states[at] matches Deployment::ResolveExpected { subscription }
    &&& replies[at] matches Reply::Text(expected)
    &&& address_of(expected@) is Some
    &&& fingerprint == text_digest(deployment_source(config, subscription@, expected@))
}

/// Whether the stamp that was read at this point of a course is the
/// fingerprint, which was made right before.
pub open spec fn current_at(
    states: Seq<Deployment>,
    replies: Seq<Reply>,
    config: PrivateEgressConfig,
    at: int,
) -> bool {
    &&& 0 < at < replies.len()
    &&& states[at] matches Deployment::ReadStamp { fingerprint, .. }
    &&& replies[at] matches Reply::Text(stamp)
    &&& trimmed(stamp@) == fingerprint@
    &&& fingerprinted_at(states, replies, config, at - 1, fingerprint@)
}

/// Whether the gateway was found working at this point of a course.
pub open spec fn healthy_at(states: Seq<Deployment>, replies: Seq<Reply>, at: int) -> bool {
    &&& 0 <= at < replies.len()
    &&& states[at] is Probe || states[at] is ProbeAgain
    &&& replies[at] == Reply::Holds(true)
}

/// Whether the gateway was, up to this point of a course, given its
/// configuration and the state of its selectors, set up, and then seen from
/// outside.
pub open spec fn installed_at(
    states: Seq<Deployment>,
    replies: Seq<Reply>,
    config: PrivateEgressConfig,
    at: int,
) -> bool {
    &&& 4 <= at < replies.len()
    &&& states[at - 4] matches Deployment::ReadRandom { resolver, document, .. }
    &&& replies[at - 4] matches Reply::Bytes(bytes)
    &&& states[at - 3] matches Deployment::SendConfig { config: yaml, selectors, .. }
    &&& is_prepared(
        document,
        config,
        resolver,
        hex_text(bytes@),
        Ok((yaml@, selectors@)),
    )
    &&& replies[at - 3] is Done
    &&& states[at - 2] matches Deployment::SendSelectors { selectors: told, .. }
    &&& told == selectors
    &&& replies[at - 2] is Done
    &&& states[at - 1] matches Deployment::SetUp { resolver: first, .. }
    &&& first == resolver
    &&& replies[at - 1] is Done
    &&& states[at] is ProbeExit
    &&& replies[at] matches Reply::Text(output)
    &&& printed_address(output@) is Some
}

/// A state that a stamp leads to has the fingerprint that was made for it.
proof fn lemma_probe(
    states: Seq<Deployment>,
    replies: Seq<Reply>,
    config: PrivateEgressConfig,
    data_dir: Seq<char>,
    at: int,
)
    requires
        is_course(states, replies, config, data_dir),
        0 <= at < states.len(),
        states[at] is Probe,
    ensures
        0 < at,
        current_at(states, replies, config, at - 1),
        states[at]->Probe_fingerprint == states[at - 1]->ReadStamp_fingerprint,
{
    assert(is_step(states, replies, config, data_dir, at - 1));
    assert(states[at - 1] is ReadStamp);
    assert(is_step(states, replies, config, data_dir, at - 2));
    assert(states[at - 2] is ResolveExpected);
}

/// A state in which a health check follows a restart goes back to a stamp.
proof fn lemma_probe_again(
    states: Seq<Deployment>,
    replies: Seq<Reply>,
    config: PrivateEgressConfig,
    data_dir: Seq<char>,
    at: int,
)
    requires
        is_course(states, replies, config, data_dir),
        0 <= at < states.len(),
        states[at] is ProbeAgain,
    ensures
        2 < at,
        current_at(states, replies, config, at - 3),
        states[at]->ProbeAgain_fingerprint == states[at - 3]->ReadStamp_fingerprint,
{
    assert(is_step(states, replies, config, data_dir, at - 1));
    assert(states[at - 1] is Restart);
    assert(is_step(states, replies, config, data_dir, at - 2));
    assert(states[at - 2] is Probe);
    lemma_probe(states, replies, config, data_dir, at - 2);
    assert(is_step(states, replies, config, data_dir, at - 3));
}

/// What stands right before a state of the installation.
proof fn lemma_hop(
    states: Seq<Deployment>,
    replies: Seq<Reply>,
    config: PrivateEgressConfig,
    data_dir: Seq<char>,
    at: int,
)
    requires
        is_course(states, replies, config, data_dir),
        0 <= at < states.len(),
    ensures
        !(states[at] is LocateLima) ==> 0 < at,
        match (states[at], states[at - 1], replies[at - 1]) {
            (Deployment::WriteStamp { fingerprint }, before, reply) => {
                &&& before == (Deployment::ProbeExit { fingerprint })
                &&& reply matches Reply::Text(output)
                &&& printed_address(output@) is Some
            },
            (Deployment::ProbeExit { fingerprint }, before, reply) => {
                &&& before matches Deployment::SetUp { fingerprint: made, .. }
                &&& made == fingerprint
                &&& reply is Done
            },
            (Deployment::SetUp { fingerprint, resolver }, before, reply) => {
                &&& before matches Deployment::SendSelectors {
                    fingerprint: made,
                    resolver: first,
                    ..
                }
                &&& made == fingerprint
                &&& first == resolver
                &&& reply is Done
            },
            (
                Deployment::SendSelectors { fingerprint, resolver, selectors },
                before,
                reply,
            ) => {
                &&& before matches Deployment::SendConfig {
                    fingerprint: made,
                    resolver: first,
                    selectors: told,
                    ..
                }
                &&& made == fingerprint
                &&& first == resolver
                &&& told == selectors
                &&& reply is Done
            },
            (
                Deployment::SendConfig { fingerprint, resolver, config: yaml, selectors },
                before,
                reply,
            ) => {
                &&& before matches Deployment::ReadRandom {
                    fingerprint: made,
                    resolver: first,
                    document,
                }
                &&& made == fingerprint
                &&& first == resolver
                &&& reply matches Reply::Bytes(bytes)
                &&& is_prepared(
                    document,
                    config,
                    resolver,
                    hex_text(bytes@),
                    Ok((yaml@, selectors@)),
                )
            },
            (Deployment::ReadRandom { fingerprint, resolver, document }, before, _) => before == (
            Deployment::OpenRandom { fingerprint, resolver, document }),
            (Deployment::OpenRandom { fingerprint, resolver, document }, before, reply) => {
                &&& before matches Deployment::Download {
                    fingerprint: made,
                    resolver: first,
                    ..
                }
                &&& made == fingerprint
                &&& first == resolver
                &&& reply matches Reply::Text(output)
                &&& yaml_parse(output@) == Some(document.tree())
                &&& well_formed(document.tree())
            },
            (Deployment::Download { fingerprint, .. }, before, _) =>
            before matches Deployment::DiscoverResolver { fingerprint: made, .. } && made
                == fingerprint,
            (Deployment::DiscoverResolver { fingerprint, .. }, before, _) => {
                ||| before matches Deployment::ReadStamp { fingerprint: made, .. } && made
                    == fingerprint
                ||| before matches Deployment::ProbeAgain { fingerprint: made, .. } && made
                    == fingerprint
            },
            (Deployment::ReadStamp { fingerprint, .. }, _, _) => fingerprinted_at(
                states,
                replies,
                config,
                at - 1,
                fingerprint@,
            ),
            _ => true,
        },
{
    if at > 0 {
        assert(is_step(states, replies, config, data_dir, at - 1));
    }
}

/// Where a fingerprint that the resolver is asked for with was made.
proof fn lemma_fingerprint(
    states: Seq<Deployment>,
    replies: Seq<Reply>,
    config: PrivateEgressConfig,
    data_dir: Seq<char>,
    at: int,
) -> (made: int)
    requires
        is_course(states, replies, config, data_dir),
        0 <= at < states.len(),
        states[at] is DiscoverResolver,
    ensures
        made < at,
        fingerprinted_at(
            states,
            replies,
            config,
            made,
            states[at]->DiscoverResolver_fingerprint@,
        ),
{
    lemma_hop(states, replies, config, data_dir, at);
    if states[at - 1] is ReadStamp {
        lemma_hop(states, replies, config, data_dir, at - 1);
        at - 2
    } else {
        lemma_probe_again(states, replies, config, data_dir, at - 1);
        at - 5
    }
}

/// The stamp of a deployment is written only where the gateway was given its
/// configuration, set up, and then seen from outside; and it is the fingerprint
/// of what was resolved for that deployment.
pub proof fn stamp_follows_a_checked_install(
    states: Seq<Deployment>,
    replies: Seq<Reply>,
    config: PrivateEgressConfig,
    data_dir: Seq<char>,
    at: int,
)
    requires
        is_course(states, replies, config, data_dir),
        0 <= at < states.len(),
        states[at] is WriteStamp,
    ensures
        0 < at,
        installed_at(states, replies, config, at - 1),
        exists|made: int|
            made < at && #[trigger] fingerprinted_at(
                states,
                replies,
                config,
                made,
                states[at]->WriteStamp_fingerprint@,
            ),
{
    lemma_hop(states, replies, config, data_dir, at);
    lemma_hop(states, replies, config, data_dir, at - 1);
    lemma_hop(states, replies, config, data_dir, at - 2);
    lemma_hop(states, replies, config, data_dir, at - 3);
    lemma_hop(states, replies, config, data_dir, at - 4);
    lemma_hop(states, replies, config, data_dir, at - 5);
    lemma_hop(states, replies, config, data_dir, at - 6);
    lemma_hop(states, replies, config, data_dir, at - 7);
    let made = lemma_fingerprint(states, replies, config, data_dir, at - 8);
    assert(fingerprinted_at(
        states,
        replies,
        config,
        made,
        states[at]->WriteStamp_fingerprint@,
    ));
}

/// Whether these bytes are the hardened configuration for a subscription that
/// was downloaded, with the state of the selectors that goes with it, and
/// whether that configuration is closed.
pub open spec fn is_hardened_for(
    output: Seq<char>,
    config: PrivateEgressConfig,
    resolver: Seq<char>,
    secret: Seq<char>,
    yaml: Seq<u8>,
    selectors: Seq<u8>,
) -> bool {
    &&& yaml_parse(output) matches Some(root)
    &&& hardened(root, config, resolver, secret) matches Ok((tree, selections))
    &&& yaml_bytes(tree) == Some(yaml)
    &&& json_bytes(payload_tree(secret, selections)) == Some(selectors)
    &&& is_closed(
        untagged(tree)->Mapping_0,
        untagged(root)->Mapping_0,
        secret,
        config.exit_group@,
        resolver,
    )
}

/// What is handed to the gateway VM is made of the subscription that was just
/// downloaded: hardened with the secret that was just drawn, and closed,
/// whatever the subscription holds.
pub proof fn sent_configuration_is_hardened(
    states: Seq<Deployment>,
    replies: Seq<Reply>,
    config: PrivateEgressConfig,
    data_dir: Seq<char>,
    at: int,
)
    requires
        is_course(states, replies, config, data_dir),
        0 <= at < states.len(),
        states[at] is SendConfig,
    ensures
        3 <= at,
        ({
            &&& states[at] matches Deployment::SendConfig {
                resolver,
                config: yaml,
                selectors,
                ..
            }
            &&& states[at - 3] is Download
            &&& replies[at - 3] matches Reply::Text(output)
            &&& replies[at - 1] matches Reply::Bytes(drawn)
            &&& is_hardened_for(
                output@,
                config,
                resolver.text(),
                hex_text(drawn@),
                yaml@,
                selectors@,
            )
        }),
{
    lemma_hop(states, replies, config, data_dir, at);
    lemma_hop(states, replies, config, data_dir, at - 1);
    lemma_hop(states, replies, config, data_dir, at - 2);
    let secret = hex_text(replies[at - 1]->Bytes_0@);
    let resolver = states[at]->SendConfig_resolver.text();
    let root = states[at - 1]->ReadRandom_document.tree();
    assert(hardened(root, config, resolver, secret) is Ok);
    hardened_gateway_is_closed(root, config, resolver, secret);
}

/// A deployment finishes only where the gateway works: either the stamp of the
/// last deployment is current and the gateway was found healthy, or it was
/// installed, seen from outside, and stamped.
pub proof fn finished_gateway_works(
    states: Seq<Deployment>,
    replies: Seq<Reply>,
    config: PrivateEgressConfig,
    data_dir: Seq<char>,
    at: int,
)
    requires
        is_course(states, replies, config, data_dir),
        0 <= at < states.len(),
        states[at] is Finished,
    ensures
        0 < at,
        healthy_at(states, replies, at - 1) || (states[at - 1] is WriteStamp && replies[at
            - 1] is Done && installed_at(states, replies, config, at - 2)),
        healthy_at(states, replies, at - 1) ==> exists|read: int|
            read < at && #[trigger] current_at(states, replies, config, read),
{
    assert(is_step(states, replies, config, data_dir, at - 1));
    if states[at - 1] is Probe {
        lemma_probe(states, replies, config, data_dir, at - 1);
        assert(current_at(states, replies, config, at - 2));
    } else if states[at - 1] is ProbeAgain {
        lemma_probe_again(states, replies, config, data_dir, at - 1);
        assert(current_at(states, replies, config, at - 4));
    } else {
        assert(states[at - 1] is WriteStamp);
        stamp_follows_a_checked_install(states, replies, config, data_dir, at - 1);
    }
}

proof fn lemma_remaining_decreases(
    states: Seq<Deployment>,
    replies: Seq<Reply>,
    config: PrivateEgressConfig,
    data_dir: Seq<char>,
    i: int,
    j: int,
)
    requires
        is_course(states, replies, config, data_dir),
        0 <= i < j < states.len(),
    ensures
        remaining(states[j]) < remaining(states[i]),
    decreases j - i,
{
    assert(is_step(states, replies, config, data_dir, j - 1));
    deployment_ends(states[j - 1], replies[j - 1], config, data_dir, states[j]);
    if i < j - 1 {
        lemma_remaining_decreases(states, replies, config, data_dir, i, j - 1);
    }
}

/// Where the last deployment is current and the gateway is found healthy, with
/// or without a restart, nothing is downloaded and nothing is installed: the
/// subscription's endpoint need not be there.
pub proof fn healthy_gateway_needs_no_download(
    states: Seq<Deployment>,
    replies: Seq<Reply>,
    config: PrivateEgressConfig,
    data_dir: Seq<char>,
    at: int,
)
    requires
        is_course(states, replies, config, data_dir),
        healthy_at(states, replies, at),
    ensures
        states.len() == at + 2,
        states[at + 1] is Finished,
        forall|i: int|
            0 <= i < states.len() ==> !((#[trigger] states[i]) is Download)
                && !(states[i] is SendConfig) && !(states[i] is SetUp),
{
    assert(is_step(states, replies, config, data_dir, at));
    if states.len() > at + 2 {
        assert(is_step(states, replies, config, data_dir, at + 1));
    }
    assert forall|i: int| 0 <= i < states.len() implies !((#[trigger] states[i]) is Download)
        && !(states[i] is SendConfig) && !(states[i] is SetUp) by {
        if i < at {
            lemma_remaining_decreases(states, replies, config, data_dir, i, at);
        }
    }
}

/// A deployment does nothing but look for Lima before it holds the lock: every
/// state from the third on, but for a failure, follows a lock that was taken.
pub proof fn deployment_holds_the_lock(
    states: Seq<Deployment>,
    replies: Seq<Reply>,
    config: PrivateEgressConfig,
    data_dir: Seq<char>,
    at: int,
)
    requires
        is_course(states, replies, config, data_dir),
        2 <= at < states.len(),
        !(states[at] is Failed),
    ensures
        states[0] is LocateLima,
        states[1] is Lock,
        replies[1] is Done,
{
    assert(is_step(states, replies, config, data_dir, 0));
    assert(is_step(states, replies, config, data_dir, 1));
    if at > 2 {
        assert(is_step(states, replies, config, data_dir, 2));
    }
}

/// Whether two actions run the same program with the same arguments and the
/// same environment.
pub open spec fn look_alike(a: ActionText, b: ActionText) -> bool {
    match (a, b) {
        (ActionText::Capture(x), ActionText::Capture(y)) | (
            ActionText::Run(x),
            ActionText::Run(y),
        ) => x.program == y.program && x.args == y.args && x.env_removed == y.env_removed,
        _ => false,
    }
}

/// No secret is an argument of a command, where other processes could see it:
/// the URL of the subscription, the configuration and the state of the
/// selectors make no difference to what a command looks like.
pub proof fn secrets_are_no_arguments(a: Deployment, b: Deployment, data_dir: Seq<char>)
    requires
        (a is Download && b is Download) || (a is SendConfig && b is SendConfig) || (
        a is SendSelectors && b is SendSelectors),
    ensures
        look_alike(a.asks(data_dir), b.asks(data_dir)),
{
}

} // verus!
