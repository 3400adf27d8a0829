//! Restricting an agent VM, and checking that it leaves only through the
//! gateway and under the expected address. A VM whose way out does not pass is
//! taken offline.
use vstd::prelude::*;
use vstd::utf8::encode_utf8;

use crate::command::{Cmd, CmdText};
use crate::config::CoopConfig;
use crate::effects::{Reply, SecretName};
use crate::failure::{no_address, refused, told, Failure, FailureText};
use crate::gateway::{gateway_address, gateway_ipv4, unsupported, Platform};
use crate::gateway_commands::{address_cmd, address_cmd_text};
use crate::ipv4::{address_of, parse_ipv4, Ipv4Address};
use crate::remote_command::RemoteCommand;
use crate::scripts::{
    agent_lockdown_script, filled, AGENT_LOCKDOWN_TEMPLATE, BOOT_GUARD_INSTALL_SCRIPT,
    EGRESS_CLOSE_SCRIPT,
};
use crate::session::SshSession;
use crate::shell::escaped;
use crate::subscription::{printed_address, read_address};
use crate::text::{contains_word, has_word, same_text};

verus! {

/// Set in sessions whose guest reaches OpenAI through a proxy of the host.
pub const OPENAI_PROXY_ACTIVE_ENV: &'static str = "COOP_OPENAI_PROXY_ACTIVE";

/// The account that the agents run under.
pub const RESTRICTED_USER: &'static str = "developer";

/// Why a management user is refused; `None` where it is not.
pub open spec fn user_objection(private: bool, user: Seq<char>) -> Option<FailureText> {
    if private && user == RESTRICTED_USER@ {
        Some(
            refused(
                "private_egress reserves guest user 'developer' for restricted agent sessions. Rebuild the image with a different --guest-user (for example, 'ubuntu')"@,
            ),
        )
    } else {
        None
    }
}

/// Refuses a management user that is the restricted account. That account is a
/// boundary only where it is distinct from the one with `sudo`.
pub fn ensure_management_user(cfg: &CoopConfig, user: &str) -> (r: Result<(), Failure>)
    ensures
        match r {
            Ok(_) => user_objection(cfg.private_egress is Some, user@) is None,
            Err(failure) => user_objection(cfg.private_egress is Some, user@) == Some(failure@),
        },
{
    if cfg.private_egress.is_some() && same_text(user, RESTRICTED_USER) {
        return Err(
            Failure::refused(
                "private_egress reserves guest user 'developer' for restricted agent sessions. Rebuild the image with a different --guest-user (for example, 'ubuntu')",
            ),
        );
    }
    Ok(())
}

/// What is asked for while an agent VM is restricted.
#[derive(Debug)]
pub enum GuestAction {
    /// Run a command on the host, and give its output.
    HostCapture(Cmd),
    /// Run a command line in the guest, with these bytes on its standard input.
    Feed(String, Vec<u8>),
    /// Run a command line in the guest.
    Exec(String),
    /// Run a command line in the guest, and give its output.
    Capture(String),
    /// Give a value that is kept outside the configuration.
    Resolve(SecretName),
    /// Nothing: the procedure has ended.
    Stop,
}

/// What a [`GuestAction`] asks for.
pub ghost enum GuestActionText {
    HostCapture(CmdText),
    Feed(Seq<char>, Seq<u8>),
    Exec(Seq<char>),
    Capture(Seq<char>),
    Resolve(SecretName),
    Stop,
}

impl View for GuestAction {
    type V = GuestActionText;

    open spec fn view(&self) -> GuestActionText {
        match self {
            GuestAction::HostCapture(cmd) => GuestActionText::HostCapture(cmd@),
            GuestAction::Feed(line, bytes) => GuestActionText::Feed(line@, bytes@),
            GuestAction::Exec(line) => GuestActionText::Exec(line@),
            GuestAction::Capture(line) => GuestActionText::Capture(line@),
            GuestAction::Resolve(name) => GuestActionText::Resolve(*name),
            GuestAction::Stop => GuestActionText::Stop,
        }
    }
}

/// Whether a reply answers an action.
pub open spec fn answers(reply: Reply, action: GuestActionText) -> bool {
    match action {
        GuestActionText::Feed(_, _) | GuestActionText::Exec(_) => reply is Done || reply is Failed,
        GuestActionText::HostCapture(_)
        | GuestActionText::Capture(_)
        | GuestActionText::Resolve(_) => reply is Text || reply is Failed,
        GuestActionText::Stop => false,
    }
}

/// Whether a reply answers an action.
pub fn is_answer(reply: &Reply, action: &GuestAction) -> (r: bool)
    ensures
        r == answers(*reply, action@),
{
    match action {
        GuestAction::Feed(_, _) | GuestAction::Exec(_) => matches!(
            reply,
            Reply::Done | Reply::Failed(_)
        ),
        GuestAction::HostCapture(_) | GuestAction::Capture(_) | GuestAction::Resolve(_) => matches!(
            reply,
            Reply::Text(_) | Reply::Failed(_)
        ),
        GuestAction::Stop => false,
    }
}

/// How far an agent VM is restricted.
#[derive(Debug)]
pub enum GuestSetup {
    /// The address of the gateway is asked for.
    FindGateway,
    /// The guard for the start of the VM is installed.
    InstallGuard { gateway: Ipv4Address },
    /// The VM is restricted.
    LockDown { gateway: Ipv4Address },
    /// The route to the outside is looked at.
    InspectRoute { gateway: Ipv4Address },
    /// The variables that configure a proxy are looked at.
    CheckProxies,
    /// The expected public address is asked for.
    ResolveExpected,
    /// The address from which the VM is seen is asked for.
    ProbeExit { expected: Ipv4Address },
    /// The VM is restricted, and checked.
    Verified,
    /// The VM is taken offline: the gateway, the route through it or the exit
    /// address did not pass.
    Close { failure: Failure },
    /// The VM could not be restricted, or did not pass a check.
    Failed(Failure),
}

/// Begins to restrict an agent VM, where a gateway is configured. That is
/// supported on one platform only.
pub fn configure_agent_guest(session: &SshSession, cfg: &CoopConfig, platform: Platform) -> (r:
    Result<Option<GuestSetup>, Failure>)
    ensures
        match user_objection(cfg.private_egress is Some, session.target.user@) {
            Some(objection) => r matches Err(failure) && failure@ == objection,
            None => match r {
                Ok(None) => cfg.private_egress is None,
                Ok(Some(first)) => cfg.private_egress is Some && platform == Platform::MacOs
                    && first == GuestSetup::FindGateway,
                Err(failure) => cfg.private_egress is Some && platform != Platform::MacOs
                    && failure@ == unsupported(),
            },
        },
{
    if cfg.private_egress.is_none() {
        return Ok(None);
    }
    match ensure_management_user(cfg, session.target.user.as_str()) {
        Ok(_) => {},
        Err(failure) => {
            return Err(failure);
        },
    }
    match platform {
        Platform::MacOs => Ok(Some(GuestSetup::FindGateway)),
        Platform::Other => Err(
            Failure::refused(
                "private_egress is currently supported only by the macOS Lima backend",
            ),
        ),
    }
}

/// The command line that restricts an agent VM: the gateway, the management
/// user, the peer of the management connection, the time zone, and whether the
/// login of the one agent is dropped.
pub open spec fn lockdown_line(
    gateway: Seq<char>,
    manager: Seq<char>,
    timezone: Seq<char>,
    drop_auth: Seq<char>,
) -> Seq<char> {
    "peer=${SSH_CONNECTION%% *}; sudo sh -s -- "@ + escaped(gateway) + " "@ + escaped(manager)
        + " \"$peer\" "@ + escaped(timezone) + " "@ + escaped(drop_auth)
}

/// The time zone that a guest is told: the managed one, or nothing.
pub open spec fn told_timezone(cfg: CoopConfig) -> Seq<char> {
    match cfg.guest_timezone {
        Some(zone) => zone@,
        None => ""@,
    }
}

/// Whether the login of the one agent is dropped: where the host's proxy holds
/// it.
pub open spec fn told_drop_auth(session: SshSession) -> Seq<char> {
    if session.env@.dom().contains(OPENAI_PROXY_ACTIVE_ENV@) {
        "1"@
    } else {
        "0"@
    }
}

/// The command line that restricts an agent VM.
fn lockdown_command(session: &SshSession, cfg: &CoopConfig, gateway: Ipv4Address) -> (r: String)
    ensures
        r@ == lockdown_line(
            gateway.text(),
            session.target.user@,
            told_timezone(*cfg),
            told_drop_auth(*session),
        ),
{
    let address = gateway.to_text();
    let timezone = match &cfg.guest_timezone {
        Some(zone) => zone.as_str(),
        None => "",
    };
    let drop_auth = if session.env.contains(OPENAI_PROXY_ACTIVE_ENV) {
        "1"
    } else {
        "0"
    };
    let line = RemoteCommand::new().literal("peer=${SSH_CONNECTION%% *}; sudo sh -s -- ").arg(
        address.as_str(),
    ).literal(" ").arg(session.target.user.as_str()).literal(" \"$peer\" ").arg(timezone).literal(
        " ",
    ).arg(drop_auth).into_string();
    proof {
        assert(line@ =~= lockdown_line(
            gateway.text(),
            session.target.user@,
            told_timezone(*cfg),
            told_drop_auth(*session),
        ));
    }
    line
}

/// The command line that succeeds where no proxy is configured.
pub open spec fn no_proxy_line() -> Seq<char> {
    "test -z \"${HTTP_PROXY-}${HTTPS_PROXY-}${ALL_PROXY-}${http_proxy-}${https_proxy-}${all_proxy-}\""@
}

/// The failure of an agent VM that is seen from another address than the
/// expected one.
pub open spec fn wrong_exit(expected: Ipv4Address, actual: Ipv4Address) -> FailureText {
    refused(
        "agent VM exit verification failed: expected "@ + expected.text() + ", observed "@
            + actual.text(),
    )
}

/// What takes an agent VM offline.
pub open spec fn closing() -> GuestActionText {
    GuestActionText::Feed("sudo sh -s"@, encode_utf8(EGRESS_CLOSE_SCRIPT@))
}

impl GuestSetup {
    /// What is asked for. `tool` is the name of the agent's tool.
    pub open spec fn asks(
        self,
        session: SshSession,
        cfg: CoopConfig,
        tool: Seq<char>,
    ) -> GuestActionText {
        match self {
            GuestSetup::FindGateway => GuestActionText::HostCapture(address_cmd_text()),
            GuestSetup::InstallGuard { .. } => GuestActionText::Feed(
                "sudo sh -s"@,
                encode_utf8(BOOT_GUARD_INSTALL_SCRIPT@),
            ),
            GuestSetup::LockDown { gateway } => GuestActionText::Feed(
                lockdown_line(
                    gateway.text(),
                    session.target.user@,
                    told_timezone(cfg),
                    told_drop_auth(session),
                ),
                encode_utf8(filled(AGENT_LOCKDOWN_TEMPLATE@, tool)),
            ),
            GuestSetup::InspectRoute { .. } => GuestActionText::Capture(
                "ip -4 route get 1.1.1.1"@,
            ),
            GuestSetup::CheckProxies => GuestActionText::Exec(no_proxy_line()),
            GuestSetup::ResolveExpected => GuestActionText::Resolve(SecretName::ExpectedEgress),
            GuestSetup::ProbeExit { .. } => GuestActionText::Capture(
                "curl --fail --silent --show-error --max-time 15 https://api.ipify.org"@,
            ),
            GuestSetup::Close { .. } => closing(),
            GuestSetup::Verified | GuestSetup::Failed(_) => GuestActionText::Stop,
        }
    }

    /// What is asked for. `tool` is the name of the agent's tool.
    pub fn action(&self, session: &SshSession, cfg: &CoopConfig, tool: &str) -> (r: GuestAction)
        ensures
            r@ == self.asks(*session, *cfg, tool@),
    {
        match self {
            GuestSetup::FindGateway => GuestAction::HostCapture(address_cmd()),
            GuestSetup::InstallGuard { .. } => GuestAction::Feed(
                "sudo sh -s".to_owned(),
                vstd::slice::slice_to_vec(crate::scripts::boot_guard_install_script()),
            ),
            GuestSetup::LockDown { gateway } => GuestAction::Feed(
                lockdown_command(session, cfg, *gateway),
                vstd::slice::slice_to_vec(agent_lockdown_script(tool).as_str().as_bytes()),
            ),
            GuestSetup::InspectRoute { .. } => GuestAction::Capture(
                "ip -4 route get 1.1.1.1".to_owned(),
            ),
            GuestSetup::CheckProxies => GuestAction::Exec(
                "test -z \"${HTTP_PROXY-}${HTTPS_PROXY-}${ALL_PROXY-}${http_proxy-}${https_proxy-}${all_proxy-}\"".to_owned(),
            ),
            GuestSetup::ResolveExpected => GuestAction::Resolve(SecretName::ExpectedEgress),
            GuestSetup::ProbeExit { .. } => GuestAction::Capture(
                "curl --fail --silent --show-error --max-time 15 https://api.ipify.org".to_owned(),
            ),
            GuestSetup::Close { .. } => GuestAction::Feed(
                "sudo sh -s".to_owned(),
                vstd::slice::slice_to_vec(crate::scripts::egress_close_script()),
            ),
            GuestSetup::Verified | GuestSetup::Failed(_) => GuestAction::Stop,
        }
    }

    /// Whether the VM is taken offline on the given failure.
    pub open spec fn closes_on(self, failure: FailureText) -> bool {
        self matches GuestSetup::Close { failure: held } && held@ == failure
    }

    /// Whether this is the given failure.
    pub open spec fn fails_with(self, failure: FailureText) -> bool {
        self matches GuestSetup::Failed(held) && held@ == failure
    }

    /// What a reply leads to. Where the gateway, the route through it or the exit
    /// address does not pass, the VM is taken offline; whether that succeeds or
    /// not, the failure stays what it was.
    pub open spec fn leads_to(self, reply: Reply, next: GuestSetup) -> bool {
        match (self, reply) {
            (GuestSetup::FindGateway, Reply::Text(output)) => match gateway_address(
                Ok::<Seq<char>, Seq<char>>(output@),
            ) {
                Ok(gateway) => next == (GuestSetup::InstallGuard { gateway }),
                Err(failure) => next.closes_on(failure),
            },
            (GuestSetup::FindGateway, Reply::Failed(reason)) => match gateway_address(
                Err::<Seq<char>, Seq<char>>(reason@),
            ) {
                Ok(_) => false,
                Err(failure) => next.closes_on(failure),
            },
            (GuestSetup::InstallGuard { gateway }, Reply::Done) => next == (
            GuestSetup::LockDown { gateway }),
            (GuestSetup::InstallGuard { .. }, Reply::Failed(reason)) => next.fails_with(
                told("Failed to install the early-boot egress guard in agent VM"@, reason@),
            ),
            (GuestSetup::LockDown { gateway }, Reply::Done) => next == (
            GuestSetup::InspectRoute { gateway }),
            (GuestSetup::LockDown { .. }, Reply::Failed(reason)) => next.fails_with(
                told("Failed to enforce fail-closed networking in agent VM"@, reason@),
            ),
            (GuestSetup::InspectRoute { gateway }, Reply::Text(route)) => if has_word(
                route@,
                gateway.text(),
            ) {
                next == GuestSetup::CheckProxies
            } else {
                next.closes_on(
                    refused("agent VM is not policy-routed through the private gateway"@),
                )
            },
            (GuestSetup::InspectRoute { .. }, Reply::Failed(reason)) => next.closes_on(
                told("Failed to inspect agent VM policy route"@, reason@),
            ),
            (GuestSetup::CheckProxies, Reply::Done) => next == GuestSetup::ResolveExpected,
            (GuestSetup::CheckProxies, Reply::Failed(reason)) => next.fails_with(
                told(
                    "Proxy environment variables are unexpectedly visible in the agent VM"@,
                    reason@,
                ),
            ),
            (GuestSetup::ResolveExpected, Reply::Text(text)) => match address_of(text@) {
                Some(expected) => next == (GuestSetup::ProbeExit { expected }),
                None => next.closes_on(
                    no_address("Expected egress value is not a single IPv4 address"@),
                ),
            },
            (GuestSetup::ResolveExpected, Reply::Failed(reason)) => next.closes_on(
                told("Failed to resolve private_egress.expected_egress_ip"@, reason@),
            ),
            (GuestSetup::ProbeExit { expected }, Reply::Text(output)) => match printed_address(
                output@,
            ) {
                Some(actual) => if actual == expected {
                    next == GuestSetup::Verified
                } else {
                    next.closes_on(wrong_exit(expected, actual))
                },
                None => next.closes_on(
                    no_address("Agent VM received a non-IPv4 exit verification response"@),
                ),
            },
            (GuestSetup::ProbeExit { .. }, Reply::Failed(reason)) => next.closes_on(
                told(
                    "Agent VM cannot reach the exit verification service through the gateway"@,
                    reason@,
                ),
            ),
            (GuestSetup::Close { failure }, _) => next == GuestSetup::Failed(failure),
            _ => next == self,
        }
    }

    /// Goes on with a reply.
    pub fn next(
        self,
        reply: Reply,
        session: &SshSession,
        cfg: &CoopConfig,
        tool: &str,
    ) -> (r: GuestSetup)
        requires
            answers(reply, self.asks(*session, *cfg, tool@)),
        ensures
            self.leads_to(reply, r),
    {
        match (self, reply) {
            (GuestSetup::FindGateway, Reply::Text(output)) => match gateway_ipv4(Ok(output)) {
                Ok(gateway) => GuestSetup::InstallGuard { gateway },
                Err(failure) => GuestSetup::Close { failure },
            },
            (GuestSetup::FindGateway, Reply::Failed(reason)) => match gateway_ipv4(Err(reason)) {
                Ok(gateway) => GuestSetup::InstallGuard { gateway },
                Err(failure) => GuestSetup::Close { failure },
            },
            (GuestSetup::InstallGuard { gateway }, Reply::Done) => GuestSetup::LockDown {
                gateway,
            },
            (GuestSetup::InstallGuard { .. }, Reply::Failed(reason)) => GuestSetup::Failed(
                Failure::told("Failed to install the early-boot egress guard in agent VM", reason),
            ),
            (GuestSetup::LockDown { gateway }, Reply::Done) => GuestSetup::InspectRoute {
                gateway,
            },
            (GuestSetup::LockDown { .. }, Reply::Failed(reason)) => GuestSetup::Failed(
                Failure::told("Failed to enforce fail-closed networking in agent VM", reason),
            ),
            (GuestSetup::InspectRoute { gateway }, Reply::Text(route)) => if contains_word(
                route.as_str(),
                gateway.to_text().as_str(),
            ) {
                GuestSetup::CheckProxies
            } else {
                GuestSetup::Close {
                    failure: Failure::refused(
                        "agent VM is not policy-routed through the private gateway",
                    ),
                }
            },
            (GuestSetup::InspectRoute { .. }, Reply::Failed(reason)) => GuestSetup::Close {
                failure: Failure::told("Failed to inspect agent VM policy route", reason),
            },
            (GuestSetup::CheckProxies, Reply::Done) => GuestSetup::ResolveExpected,
            (GuestSetup::CheckProxies, Reply::Failed(reason)) => GuestSetup::Failed(
                Failure::told(
                    "Proxy environment variables are unexpectedly visible in the agent VM",
                    reason,
                ),
            ),
            (GuestSetup::ResolveExpected, Reply::Text(text)) => match parse_ipv4(text.as_str()) {
                Some(expected) => GuestSetup::ProbeExit { expected },
                None => GuestSetup::Close {
                    failure: Failure::no_address(
                        "Expected egress value is not a single IPv4 address",
                    ),
                },
            },
            (GuestSetup::ResolveExpected, Reply::Failed(reason)) => GuestSetup::Close {
                failure: Failure::told(
                    "Failed to resolve private_egress.expected_egress_ip",
                    reason,
                ),
            },
            (GuestSetup::ProbeExit { expected }, Reply::Text(output)) => match read_address(
                output.as_str(),
                "Agent VM received a non-IPv4 exit verification response",
            ) {
                Ok(actual) => if actual == expected {
                    GuestSetup::Verified
                } else {
                    GuestSetup::Close {
                        failure: Failure::refused(
                            "agent VM exit verification failed: expected ".to_owned().concat(
                                expected.to_text().as_str(),
                            ).concat(", observed ").concat(actual.to_text().as_str()).as_str(),
                        ),
                    }
                },
                Err(failure) => GuestSetup::Close { failure },
            },
            (GuestSetup::ProbeExit { .. }, Reply::Failed(reason)) => GuestSetup::Close {
                failure: Failure::told(
                    "Agent VM cannot reach the exit verification service through the gateway",
                    reason,
                ),
            },
            (GuestSetup::Close { failure }, _) => GuestSetup::Failed(failure),
            (state, _) => state,
        }
    }

    /// How many replies are needed at most.
    pub open spec fn remaining(self) -> nat {
        match self {
            GuestSetup::FindGateway => 8,
            GuestSetup::InstallGuard { .. } => 7,
            GuestSetup::LockDown { .. } => 6,
            GuestSetup::InspectRoute { .. } => 5,
            GuestSetup::CheckProxies => 4,
            GuestSetup::ResolveExpected => 3,
            GuestSetup::ProbeExit { .. } => 2,
            GuestSetup::Close { .. } => 1,
            GuestSetup::Verified | GuestSetup::Failed(_) => 0,
        }
    }
}

/// Each reply brings the end nearer.
pub proof fn guest_setup_ends(
    state: GuestSetup,
    reply: Reply,
    session: SshSession,
    cfg: CoopConfig,
    tool: Seq<char>,
    next: GuestSetup,
)
    requires
        answers(reply, state.asks(session, cfg, tool)),
        state.leads_to(reply, next),
    ensures
        next.remaining() < state.remaining(),
{
}

/// A course of the restriction: the states that it passes, and the replies that
/// lead from each to the next.
pub open spec fn is_course(
    states: Seq<GuestSetup>,
    replies: Seq<Reply>,
    session: SshSession,
    cfg: CoopConfig,
    tool: Seq<char>,
) -> bool {
    &&& states.len() == replies.len() + 1
    &&& states[0] == GuestSetup::FindGateway
    &&& forall|i: int|
        0 <= i < replies.len() ==> #[trigger] is_step(states, replies, session, cfg, tool, i)
}

/// Whether one reply of a course answers what was asked for, and leads to the
/// next state.
pub open spec fn is_step(
    states: Seq<GuestSetup>,
    replies: Seq<Reply>,
    session: SshSession,
    cfg: CoopConfig,
    tool: Seq<char>,
    i: int,
) -> bool {
    &&& answers(replies[i], states[i].asks(session, cfg, tool))
    &&& states[i].leads_to(replies[i], states[i + 1])
}

/// What stands right before a state on the way to a verified VM.
proof fn lemma_hop(
    states: Seq<GuestSetup>,
    replies: Seq<Reply>,
    session: SshSession,
    cfg: CoopConfig,
    tool: Seq<char>,
    at: int,
)
    requires
        is_course(states, replies, session, cfg, tool),
        0 <= at < states.len(),
    ensures
        states[at] is FindGateway <==> at == 0,
        match (states[at], states[at - 1], replies[at - 1]) {
            (GuestSetup::InstallGuard { gateway }, before, reply) => {
                &&& before is FindGateway
                &&& reply matches Reply::Text(address)
                &&& printed_address(address@) == Some(gateway)
            },
            (GuestSetup::LockDown { gateway }, before, reply) => {
                &&& before == (GuestSetup::InstallGuard { gateway })
                &&& reply is Done
            },
            (GuestSetup::InspectRoute { gateway }, before, reply) => {
                &&& before == (GuestSetup::LockDown { gateway })
                &&& reply is Done
            },
            (GuestSetup::CheckProxies, before, reply) => {
                &&& before matches GuestSetup::InspectRoute { gateway }
                &&& reply matches Reply::Text(route)
                &&& has_word(route@, gateway.text())
            },
            (GuestSetup::ResolveExpected, before, reply) => before is CheckProxies && reply is Done,
            (GuestSetup::ProbeExit { expected }, before, reply) => {
                &&& before is ResolveExpected
                &&& reply matches Reply::Text(wanted)
                &&& address_of(wanted@) == Some(expected)
            },
            (GuestSetup::Verified, before, reply) => {
                &&& before matches GuestSetup::ProbeExit { expected }
                &&& reply matches Reply::Text(seen)
                &&& printed_address(seen@) == Some(expected)
            },
            _ => true,
        },
{
    if at > 0 {
        assert(is_step(states, replies, session, cfg, tool, at - 1));
    }
}

/// An agent VM is verified only where all of this happened, in this order: the
/// gateway gave its address; the guard was installed; the VM was restricted;
/// its route goes through that address; no proxy is configured in it; the
/// expected address was resolved; and the VM is seen from exactly that address.
pub proof fn verified_guest_leaves_as_expected(
    states: Seq<GuestSetup>,
    replies: Seq<Reply>,
    session: SshSession,
    cfg: CoopConfig,
    tool: Seq<char>,
)
    requires
        is_course(states, replies, session, cfg, tool),
        states.last() is Verified,
    ensures
        replies.len() == 7,
        ({
            &&& replies[0] matches Reply::Text(address)
            &&& printed_address(address@) matches Some(gateway)
            &&& replies[1] is Done
            &&& replies[2] is Done
            &&& replies[3] matches Reply::Text(route)
            &&& has_word(route@, gateway.text())
            &&& replies[4] is Done
            &&& replies[5] matches Reply::Text(wanted)
            &&& address_of(wanted@) matches Some(expected)
            &&& replies[6] matches Reply::Text(seen)
            &&& printed_address(seen@) == Some(expected)
        }),
{
    let n = replies.len() as int;
    lemma_hop(states, replies, session, cfg, tool, n);
    lemma_hop(states, replies, session, cfg, tool, n - 1);
    lemma_hop(states, replies, session, cfg, tool, n - 2);
    lemma_hop(states, replies, session, cfg, tool, n - 3);
    lemma_hop(states, replies, session, cfg, tool, n - 4);
    lemma_hop(states, replies, session, cfg, tool, n - 5);
    lemma_hop(states, replies, session, cfg, tool, n - 6);
    lemma_hop(states, replies, session, cfg, tool, n - 7);
}

/// Whether a reply stands in the way of the agent VM being verified: something
/// could not be done, a text holds no address, the route does not go through the
/// gateway, or the VM is seen from another address than the expected one.
pub open spec fn stands_in_the_way(state: GuestSetup, reply: Reply) -> bool {
    match (state, reply) {
        (GuestSetup::FindGateway, Reply::Text(output)) => printed_address(output@) is None,
        (GuestSetup::InspectRoute { gateway }, Reply::Text(route)) => !has_word(
            route@,
            gateway.text(),
        ),
        (GuestSetup::ResolveExpected, Reply::Text(text)) => address_of(text@) is None,
        (GuestSetup::ProbeExit { expected }, Reply::Text(output)) => printed_address(output@)
            != Some(expected),
        _ => reply is Failed,
    }
}

/// Whether a state asks about the way out: the gateway, the route through it, or
/// the exit address.
pub open spec fn asks_about_the_way_out(state: GuestSetup) -> bool {
    state is FindGateway || state is InspectRoute || state is ResolveExpected || state is ProbeExit
}

/// Whatever stands in the way leaves the agent VM unverified, for good. Where it
/// concerns the way out, the VM is taken offline next, and then the procedure has
/// failed; else it has failed at once. No more is asked for.
pub proof fn failures_leave_a_guest_unverified(
    states: Seq<GuestSetup>,
    replies: Seq<Reply>,
    session: SshSession,
    cfg: CoopConfig,
    tool: Seq<char>,
    at: int,
)
    requires
        is_course(states, replies, session, cfg, tool),
        0 <= at < replies.len(),
        !(states[at] is Close),
        stands_in_the_way(states[at], replies[at]),
    ensures
        asks_about_the_way_out(states[at]) ==> {
            &&& states[at + 1] is Close
            &&& states[at + 1].asks(session, cfg, tool) == closing()
            &&& states.len() <= at + 3
            &&& states.len() == at + 3 ==> states[at + 2] == GuestSetup::Failed(
                states[at + 1]->failure,
            )
        },
        !asks_about_the_way_out(states[at]) ==> {
            &&& states[at + 1] is Failed
            &&& states.len() == at + 2
        },
        forall|later: int| at < later < states.len() ==> !(#[trigger] states[later] is Verified),
{
    assert(is_step(states, replies, session, cfg, tool, at));
    if replies.len() > at + 1 {
        assert(is_step(states, replies, session, cfg, tool, at + 1));
        if replies.len() > at + 2 {
            assert(is_step(states, replies, session, cfg, tool, at + 2));
        }
    }
}

/// No procedure fails on the way out before the agent VM was to be taken offline,
/// on that very failure. One that fails without it could not install the guard,
/// could not restrict the VM, or found a proxy configured.
pub proof fn failed_guests_are_taken_offline(
    states: Seq<GuestSetup>,
    replies: Seq<Reply>,
    session: SshSession,
    cfg: CoopConfig,
    tool: Seq<char>,
)
    requires
        is_course(states, replies, session, cfg, tool),
        states.last() is Failed,
    ensures
        replies.len() >= 2,
        ({
            let last = replies.len() - 1;
            ||| {
                &&& states[last] matches GuestSetup::Close { failure }
                &&& states[last].asks(session, cfg, tool) == closing()
                &&& answers(replies[last], closing())
                &&& states.last() == GuestSetup::Failed(failure)
                &&& asks_about_the_way_out(states[last - 1])
                &&& stands_in_the_way(states[last - 1], replies[last - 1])
            }
            ||| {
                &&& states[last] is InstallGuard || states[last] is LockDown
                    || states[last] is CheckProxies
                &&& replies[last] is Failed
            }
        }),
{
    let n = replies.len() as int;
    assert(n > 0);
    assert(is_step(states, replies, session, cfg, tool, n - 1));
    assert(n > 1);
    assert(is_step(states, replies, session, cfg, tool, n - 2));
}

/// What is asked of an agent VM, and handed to it, depends on the configuration
/// only through the managed time zone: nothing of the subscription, its
/// selectors or the expected address reaches it.
pub proof fn guests_learn_nothing_of_the_gateway(
    state: GuestSetup,
    session: SshSession,
    a: CoopConfig,
    b: CoopConfig,
    tool: Seq<char>,
)
    requires
        told_timezone(a) == told_timezone(b),
    ensures
        state.asks(session, a, tool) == state.asks(session, b, tool),
{
}

} // verus!
