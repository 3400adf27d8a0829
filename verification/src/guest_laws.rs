//! What holds of every restriction of an agent VM, call by call.
use vstd::prelude::*;
use vstd::utf8::encode_utf8;

use crate::command::CmdText;
use crate::config::CoopConfig;
use crate::effects::{Reply, SecretName};
use crate::failure::{Cause, Failure};
use crate::gateway::Platform;
use crate::guest::{
    configure_agent_guest, ensure_management_user, is_answer, is_course, is_step, GuestAction,
    GuestActionText, GuestSetup,
};
use crate::ipv4::{address_text_reads_back, read_address_is_its_text, Ipv4Address};
use crate::scripts::{
    filled, AGENT_LOCKDOWN_TEMPLATE, BOOT_GUARD_INSTALL_SCRIPT, EGRESS_CLOSE_SCRIPT,
};
use crate::session::SshSession;
use crate::shell::escaped;
use crate::subscription::printed_address;
use crate::text::{has_word, trimmed};

verus! {

/// Whether a command runs directly, without any variable that configures a proxy,
/// in the gateway VM.
pub open spec fn runs_in_the_gateway(cmd: CmdText, args: Seq<Seq<char>>) -> bool {
    &&& cmd.program == "limactl"@
    &&& cmd.args == seq!["shell"@, "coop-egress"@, "--"@] + args
    &&& has_no_proxy(cmd)
}

/// Whether a command inherits no variable that configures a proxy.
pub open spec fn has_no_proxy(cmd: CmdText) -> bool {
    cmd.env_removed == seq![
        "HTTP_PROXY"@,
        "HTTPS_PROXY"@,
        "ALL_PROXY"@,
        "NO_PROXY"@,
        "http_proxy"@,
        "https_proxy"@,
        "all_proxy"@,
        "no_proxy"@,
    ]
}

/// An agent VM is checked from inside: of all that is asked for, only the gateway's
/// own address is asked of the host, and there of the gateway VM.
pub proof fn guests_are_checked_from_inside(
    state: &GuestSetup,
    session: &SshSession,
    cfg: &CoopConfig,
    tool: &str,
    action: GuestAction,
)
    requires
        call_ensures(GuestSetup::action, (state, session, cfg, tool), action),
    ensures
        action is HostCapture <==> state is FindGateway,
        action matches GuestAction::HostCapture(cmd) ==> runs_in_the_gateway(
            cmd@,
            seq![
                "sh"@,
                "-c"@,
                "iface=$(ip -4 route show default | awk 'NR == 1 { for (i=1; i<=NF; i++) if ($i == \"dev\") { print $(i+1); exit } }'); test -n \"$iface\"; ip -4 -o address show dev \"$iface\" scope global | awk 'NR == 1 { split($4, addr, \"/\"); print addr[1]; exit }'"@,
            ],
        ) && cmd@.stdin is None,
        state is InspectRoute ==> (action matches GuestAction::Capture(line) && line@
            == "ip -4 route get 1.1.1.1"@),
        state is CheckProxies ==> (action matches GuestAction::Exec(line) && line@
            == "test -z \"${HTTP_PROXY-}${HTTPS_PROXY-}${ALL_PROXY-}${http_proxy-}${https_proxy-}${all_proxy-}\""@),
        state is ResolveExpected ==> action == GuestAction::Resolve(SecretName::ExpectedEgress),
        state is ProbeExit ==> (action matches GuestAction::Capture(line) && line@
            == "curl --fail --silent --show-error --max-time 15 https://api.ipify.org"@),
        action is Stop <==> state is Verified || state is Failed,
{
    if let GuestAction::HostCapture(cmd) = action {
        assert(cmd@.args =~= seq!["shell"@, "coop-egress"@, "--"@] + seq![
            "sh"@,
            "-c"@,
            "iface=$(ip -4 route show default | awk 'NR == 1 { for (i=1; i<=NF; i++) if ($i == \"dev\") { print $(i+1); exit } }'); test -n \"$iface\"; ip -4 -o address show dev \"$iface\" scope global | awk 'NR == 1 { split($4, addr, \"/\"); print addr[1]; exit }'"@,
        ]);
    }
}

/// What is run as root in an agent VM: the script that installs the guard, the one
/// that restricts the VM, and the one that takes it offline. The one that restricts
/// it is given, each as one word, the gateway's address, the management user, the
/// peer of the connection, the managed time zone or nothing, and whether a login is
/// to be dropped.
pub proof fn guests_are_restricted_by_their_scripts(
    state: &GuestSetup,
    session: &SshSession,
    cfg: &CoopConfig,
    tool: &str,
    action: GuestAction,
)
    requires
        call_ensures(GuestSetup::action, (state, session, cfg, tool), action),
    ensures
        action is Feed <==> state is InstallGuard || state is LockDown || state is Close,
        state is InstallGuard ==> (action matches GuestAction::Feed(line, script) && line@
            == "sudo sh -s"@ && script@ == encode_utf8(BOOT_GUARD_INSTALL_SCRIPT@)),
        state is Close ==> (action matches GuestAction::Feed(line, script) && line@
            == "sudo sh -s"@ && script@ == encode_utf8(EGRESS_CLOSE_SCRIPT@)),
        *state matches GuestSetup::LockDown { gateway } ==> (action matches GuestAction::Feed(
            line,
            script,
        ) && {
            &&& script@ == encode_utf8(filled(AGENT_LOCKDOWN_TEMPLATE@, tool@))
            &&& line@ == "peer=${SSH_CONNECTION%% *}; sudo sh -s -- "@ + escaped(gateway.text())
                + " "@ + escaped(session.target.user@) + " \"$peer\" "@ + escaped(
                match cfg.guest_timezone {
                    Some(zone) => zone@,
                    None => ""@,
                },
            ) + " "@ + escaped(
                if session.env@.dom().contains("COOP_OPENAI_PROXY_ACTIVE"@) {
                    "1"@
                } else {
                    "0"@
                },
            )
        }),
{
}

/// Whether a state failed with a text, for a reason.
pub open spec fn failed_for(failure: Failure, message: Seq<char>, reason: Seq<char>) -> bool {
    failure.message@ == message && (failure.cause matches Cause::Told(told) && told@ == reason)
}

/// The gateway's address is what it printed, but for white space around it; nothing
/// else is taken for one, and the VM is then taken offline.
pub proof fn gateway_address_is_the_one_printed(
    output: String,
    session: &SshSession,
    cfg: &CoopConfig,
    tool: &str,
    next: GuestSetup,
)
    requires
        call_ensures(
            GuestSetup::next,
            (GuestSetup::FindGateway, Reply::Text(output), session, cfg, tool),
            next,
        ),
    ensures
        next is InstallGuard || next is Close,
        forall|gateway: Ipv4Address|
            next == (GuestSetup::InstallGuard { gateway }) <==> trimmed(output@)
                == #[trigger] gateway.text(),
        next is InstallGuard || (next matches GuestSetup::Close { failure } && failed_for(
            failure,
            "Private egress gateway returned an invalid IPv4 address"@,
            "invalid IPv4 address syntax"@,
        )),
{
    assert forall|gateway: Ipv4Address|
        next == (GuestSetup::InstallGuard { gateway }) <==> trimmed(output@)
            == #[trigger] gateway.text() by {
        if trimmed(output@) == gateway.text() {
            address_text_reads_back(gateway);
        }
        if next == (GuestSetup::InstallGuard { gateway }) {
            read_address_is_its_text(trimmed(output@), gateway);
        }
    }
}

/// The guard is installed before the VM is restricted, and with the same gateway;
/// then its route is looked at, for that very gateway.
pub proof fn restricting_follows_the_guard(
    gateway: Ipv4Address,
    session: &SshSession,
    cfg: &CoopConfig,
    tool: &str,
    after_guard: GuestSetup,
    after_lock: GuestSetup,
)
    requires
        call_ensures(
            GuestSetup::next,
            (GuestSetup::InstallGuard { gateway }, Reply::Done, session, cfg, tool),
            after_guard,
        ),
        call_ensures(GuestSetup::next, (after_guard, Reply::Done, session, cfg, tool), after_lock),
    ensures
        after_guard == (GuestSetup::LockDown { gateway }),
        after_lock == (GuestSetup::InspectRoute { gateway }),
{
}

/// The route passes exactly where the gateway's address is one of its words. Then
/// the proxies are looked at, and then the expected address is asked for.
pub proof fn route_must_name_the_gateway(
    gateway: Ipv4Address,
    route: String,
    session: &SshSession,
    cfg: &CoopConfig,
    tool: &str,
    next: GuestSetup,
    after: GuestSetup,
)
    requires
        call_ensures(
            GuestSetup::next,
            (GuestSetup::InspectRoute { gateway }, Reply::Text(route), session, cfg, tool),
            next,
        ),
        call_ensures(
            GuestSetup::next,
            (GuestSetup::CheckProxies, Reply::Done, session, cfg, tool),
            after,
        ),
    ensures
        next == GuestSetup::CheckProxies <==> has_word(route@, gateway.text()),
        !has_word(route@, gateway.text()) ==> (next matches GuestSetup::Close { failure }
            && failure.message@ == "agent VM is not policy-routed through the private gateway"@
            && failure.cause is Nothing),
        after == GuestSetup::ResolveExpected,
{
}

/// The expected address is the text that was resolved, as it is; and the VM is
/// verified exactly where the address that it printed, but for white space, is that
/// one. In every other case it is taken offline.
pub proof fn exit_must_be_the_expected_one(
    wanted: String,
    seen: String,
    expected: Ipv4Address,
    session: &SshSession,
    cfg: &CoopConfig,
    tool: &str,
    probing: GuestSetup,
    end: GuestSetup,
)
    requires
        call_ensures(
            GuestSetup::next,
            (GuestSetup::ResolveExpected, Reply::Text(wanted), session, cfg, tool),
            probing,
        ),
        call_ensures(
            GuestSetup::next,
            (GuestSetup::ProbeExit { expected }, Reply::Text(seen), session, cfg, tool),
            end,
        ),
    ensures
        probing == (GuestSetup::ProbeExit { expected }) <==> wanted@ == expected.text(),
        probing is ProbeExit || (probing matches GuestSetup::Close { failure } && failed_for(
            failure,
            "Expected egress value is not a single IPv4 address"@,
            "invalid IPv4 address syntax"@,
        )),
        end is Verified <==> trimmed(seen@) == expected.text(),
        end is Verified || end is Close,
        (forall|x: Ipv4Address| trimmed(seen@) != #[trigger] x.text()) ==> failed_for(
            end->Close_failure,
            "Agent VM received a non-IPv4 exit verification response"@,
            "invalid IPv4 address syntax"@,
        ),
        forall|x: Ipv4Address|
            trimmed(seen@) == #[trigger] x.text() && x != expected ==> end->Close_failure.message@
                == "agent VM exit verification failed: expected "@ + expected.text()
                + ", observed "@ + trimmed(seen@) && end->Close_failure.cause is Nothing,
{
    assert forall|x: Ipv4Address|
        trimmed(seen@) == #[trigger] x.text() && x != expected implies end->Close_failure.message@
        == "agent VM exit verification failed: expected "@ + expected.text() + ", observed "@
        + trimmed(seen@) && end->Close_failure.cause is Nothing by {
        address_text_reads_back(x);
    }
    if let Some(x) = printed_address(seen@) {
        read_address_is_its_text(trimmed(seen@), x);
    }
    address_text_reads_back(expected);
    if probing == (GuestSetup::ProbeExit { expected }) {
        read_address_is_its_text(wanted@, expected);
    }
    if end is Verified {
        read_address_is_its_text(trimmed(seen@), expected);
    }
}

/// Whatever cannot be done is what the restriction fails for, with the reason that
/// was given. Where the way out is concerned the VM is taken offline first, and
/// that changes nothing about the failure.
pub proof fn guests_fail_for_the_reason_given(
    state: GuestSetup,
    reason: String,
    session: &SshSession,
    cfg: &CoopConfig,
    tool: &str,
    next: GuestSetup,
)
    requires
        !(state is Verified),
        !(state is Failed),
        call_ensures(GuestSetup::next, (state, Reply::Failed(reason), session, cfg, tool), next),
    ensures
        match state {
            GuestSetup::FindGateway => next matches GuestSetup::Close { failure } && failed_for(
                failure,
                "Failed to discover the private egress gateway address"@,
                reason@,
            ),
            GuestSetup::InstallGuard { .. } => next matches GuestSetup::Failed(failure)
                && failed_for(
                failure,
                "Failed to install the early-boot egress guard in agent VM"@,
                reason@,
            ),
            GuestSetup::LockDown { .. } => next matches GuestSetup::Failed(failure) && failed_for(
                failure,
                "Failed to enforce fail-closed networking in agent VM"@,
                reason@,
            ),
            GuestSetup::InspectRoute { .. } => next matches GuestSetup::Close { failure }
                && failed_for(failure, "Failed to inspect agent VM policy route"@, reason@),
            GuestSetup::CheckProxies => next matches GuestSetup::Failed(failure) && failed_for(
                failure,
                "Proxy environment variables are unexpectedly visible in the agent VM"@,
                reason@,
            ),
            GuestSetup::ResolveExpected => next matches GuestSetup::Close { failure }
                && failed_for(
                failure,
                "Failed to resolve private_egress.expected_egress_ip"@,
                reason@,
            ),
            GuestSetup::ProbeExit { .. } => next matches GuestSetup::Close { failure }
                && failed_for(
                failure,
                "Agent VM cannot reach the exit verification service through the gateway"@,
                reason@,
            ),
            GuestSetup::Close { failure } => next == GuestSetup::Failed(failure),
            _ => false,
        },
{
}

/// Once a VM is taken offline the restriction has failed, for what it was taken
/// offline for.
pub proof fn closed_guests_have_failed(
    failure: Failure,
    session: &SshSession,
    cfg: &CoopConfig,
    tool: &str,
    next: GuestSetup,
)
    requires
        call_ensures(
            GuestSetup::next,
            (GuestSetup::Close { failure }, Reply::Done, session, cfg, tool),
            next,
        ),
    ensures
        next == GuestSetup::Failed(failure),
{
}

/// A text that was asked for is answered by a text, what is to be done by its being
/// done, either by a failure, and the end by nothing.
pub proof fn guests_are_answered_in_kind(reply: &Reply, action: &GuestAction, fits: bool)
    requires
        call_ensures(is_answer, (reply, action), fits),
    ensures
        fits <==> match *action {
            GuestAction::Feed(_, _) => reply is Done || reply is Failed,
            GuestAction::Exec(_) => reply is Done || reply is Failed,
            GuestAction::HostCapture(_) => reply is Text || reply is Failed,
            GuestAction::Capture(_) => reply is Text || reply is Failed,
            GuestAction::Resolve(_) => reply is Text || reply is Failed,
            GuestAction::Stop => false,
        },
{
}

/// The restricted account cannot manage a VM behind the private gateway; every other
/// account can, and without a gateway each one can.
pub proof fn only_the_restricted_account_is_refused(
    cfg: &CoopConfig,
    user: &str,
    verdict: Result<(), Failure>,
)
    requires
        call_ensures(ensure_management_user, (cfg, user), verdict),
    ensures
        verdict is Err <==> cfg.private_egress is Some && user@ == "developer"@,
        verdict matches Err(failure) ==> failure.cause is Nothing && failure.message@
            == "private_egress reserves guest user 'developer' for restricted agent sessions. Rebuild the image with a different --guest-user (for example, 'ubuntu')"@,
{
}

/// Without a gateway there is nothing to restrict. With one, a guest is restricted
/// from the gateway's address on, on macOS alone, and never under the restricted
/// account.
pub proof fn guests_are_restricted_behind_a_gateway(
    session: &SshSession,
    cfg: &CoopConfig,
    platform: Platform,
    first: Result<Option<GuestSetup>, Failure>,
)
    requires
        call_ensures(configure_agent_guest, (session, cfg, platform), first),
    ensures
        cfg.private_egress is None ==> first matches Ok(None),
        cfg.private_egress is Some ==> {
            &&& session.target.user@ == "developer"@ ==> (first matches Err(failure)
                && failure.cause is Nothing && failure.message@
                == "private_egress reserves guest user 'developer' for restricted agent sessions. Rebuild the image with a different --guest-user (for example, 'ubuntu')"@)
            &&& session.target.user@ != "developer"@ && platform is MacOs ==> (
            first matches Ok(Some(state)) && state is FindGateway)
            &&& session.target.user@ != "developer"@ && !(platform is MacOs) ==> (
            first matches Err(failure) && failure.cause is Nothing && failure.message@
                == "private_egress is currently supported only by the macOS Lima backend"@)
        },
{
}

/// An agent VM is verified by what it printed itself: the reply from which a course
/// comes to that end answers a request for the address service's answer, made in the
/// guest.
pub proof fn verified_guests_were_seen_from_inside(
    states: Seq<GuestSetup>,
    replies: Seq<Reply>,
    session: SshSession,
    cfg: CoopConfig,
    tool: Seq<char>,
    at: int,
)
    requires
        is_course(states, replies, session, cfg, tool),
        0 <= at < replies.len(),
        states[at + 1] is Verified,
    ensures
        states[at].asks(session, cfg, tool) == GuestActionText::Capture(
            "curl --fail --silent --show-error --max-time 15 https://api.ipify.org"@,
        ),
        replies[at] is Text,
        forall|i: int|
            0 <= i < states.len() ==> ((#[trigger] states[i]).asks(session, cfg, tool)
                is HostCapture <==> states[i] is FindGateway),
{
    assert(is_step(states, replies, session, cfg, tool, at));
}

/// The courses of restrictions are those of the calls.
pub proof fn courses_are_those_of_the_calls(
    state: &GuestSetup,
    reply: Reply,
    session: &SshSession,
    cfg: &CoopConfig,
    tool: &str,
    action: GuestAction,
    next: GuestSetup,
)
    requires
        call_ensures(GuestSetup::action, (state, session, cfg, tool), action),
        call_ensures(GuestSetup::next, (*state, reply, session, cfg, tool), next),
    ensures
        action@ == state.asks(*session, *cfg, tool@),
        state.leads_to(reply, next),
{
}

} // verus!
