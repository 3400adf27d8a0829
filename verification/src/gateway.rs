//! Deploying the gateway: its VM, its program, its configuration, and the
//! check that it works.
use vstd::prelude::*;

use crate::config::{CoopConfig, PrivateEgressConfig};
use crate::digest::{
    deployment_source, gateway_deployment_fingerprint, hex_text, random_secret, text_digest,
};
use crate::effects::{answers, Action, ActionText, Reply, SecretName};
use crate::failure::{no_address, refused, told, unhardened, Failure, FailureText};
use crate::gateway_commands::{
    exit_cmd, exit_cmd_text, health_cmd, health_cmd_text, resolver_cmd, resolver_cmd_text,
    restart_cmd, restart_cmd_text, send_config_cmd, send_config_cmd_text, send_selectors_cmd,
    send_selectors_cmd_text, set_up_cmd, set_up_cmd_text, subscription_cmd, subscription_cmd_text,
};
use crate::gateway_vm::{egress_file, egress_file_path};
use crate::harden::{harden_config, hardened, HardenError, HardenFault};
use crate::ipv4::{address_of, parse_ipv4, Ipv4Address};
use crate::json::json_bytes;
use crate::subscription::{
    curl_config, payload_tree, printed_address, read_address, read_subscription, selector_payload,
    subscription_curl_config, subscription_objection, unwritten_selectors,
};
use crate::text::{same_text, trim, trimmed};
use crate::url_check::{check_subscription_url, url_objection, url_parse};
use crate::yaml::{untagged, well_formed, yaml_bytes, yaml_parse, Yaml};

verus! {

/// The systems that the host can run.
#[derive(Debug, Clone, Copy, PartialEq, Eq, Structural)]
pub enum Platform {
    MacOs,
    Other,
}

/// How far the gateway is deployed.
#[derive(Debug)]
pub enum Deployment {
    /// Lima is looked for.
    LocateLima,
    /// The lock on the gateway is taken: deployments of several processes must
    /// not invalidate each other's selectors.
    Lock,
    /// The gateway VM is brought up.
    PrepareVm,
    /// The tunnel program is installed.
    PrepareBinary,
    /// The URL of the subscription is asked for.
    ResolveSubscription,
    /// The expected public address is asked for.
    ResolveExpected { subscription: String },
    /// The fingerprint of the last deployment is read.
    ReadStamp { subscription: String, fingerprint: String },
    /// The last deployment is current: it is tried whether it works.
    Probe { subscription: String, fingerprint: String },
    /// It does not: the tunnel is restarted.
    Restart { subscription: String, fingerprint: String },
    /// It is tried again.
    ProbeAgain { subscription: String, fingerprint: String },
    /// The resolver for the start of the tunnel is asked for.
    DiscoverResolver { subscription: String, fingerprint: String },
    /// The subscription is downloaded.
    Download { subscription: String, fingerprint: String, resolver: Ipv4Address },
    /// The random source is opened.
    OpenRandom { fingerprint: String, resolver: Ipv4Address, document: Yaml },
    /// The controller's secret is drawn.
    ReadRandom { fingerprint: String, resolver: Ipv4Address, document: Yaml },
    /// The configuration is handed over.
    SendConfig {
        fingerprint: String,
        resolver: Ipv4Address,
        config: Vec<u8>,
        selectors: Vec<u8>,
    },
    /// The state of the selectors is handed over.
    SendSelectors { fingerprint: String, resolver: Ipv4Address, selectors: Vec<u8> },
    /// The tunnel is set up.
    SetUp { fingerprint: String, resolver: Ipv4Address },
    /// It is tried whether the gateway reaches the outside.
    ProbeExit { fingerprint: String },
    /// The fingerprint of the deployment is kept.
    WriteStamp { fingerprint: String },
    /// The gateway is deployed.
    Finished,
    /// The gateway could not be deployed.
    Failed(Failure),
}

/// Begins to deploy the gateway, where one is configured. That is supported on
/// one platform only.
pub fn ensure_gateway(cfg: &CoopConfig, platform: Platform) -> (r: Result<
    Option<Deployment>,
    Failure,
>)
    ensures
        match r {
            Ok(None) => cfg.private_egress is None,
            Ok(Some(first)) => cfg.private_egress is Some && platform == Platform::MacOs && first
                == Deployment::LocateLima,
            Err(failure) => cfg.private_egress is Some && platform != Platform::MacOs && failure@
                == unsupported(),
        },
{
    if cfg.private_egress.is_none() {
        return Ok(None);
    }
    match platform {
        Platform::MacOs => Ok(Some(Deployment::LocateLima)),
        Platform::Other => Err(
            Failure::refused(
                "private_egress is currently supported only by the macOS Lima backend",
            ),
        ),
    }
}

/// The failure on a platform without support.
pub open spec fn unsupported() -> FailureText {
    refused("private_egress is currently supported only by the macOS Lima backend"@)
}

/// Whether these are the bytes to hand over: the configuration that the
/// subscription is turned into, and what the selectors are told; or the
/// failure to write them. Which bytes the configuration is written as is
/// stated for subscriptions that are well-formed, as every parsed one is.
pub open spec fn is_prepared(
    document: Yaml,
    config: PrivateEgressConfig,
    resolver: Ipv4Address,
    secret: Seq<char>,
    r: Result<(Seq<u8>, Seq<u8>), FailureText>,
) -> bool {
    match hardened(document.tree(), config, resolver.text(), secret) {
        Err(fault) => r == Err::<(Seq<u8>, Seq<u8>), FailureText>(unhardened(fault)),
        Ok((tree, selections)) => {
            let told = json_bytes(payload_tree(secret, selections));
            match r {
                Ok((yaml, selectors)) => {
                    &&& told == Some(selectors)
                    &&& well_formed(document.tree()) ==> yaml_bytes(tree) == Some(yaml)
                },
                Err(failure) => {
                    ||| failure == unhardened(HardenFault::Unwritable) && (well_formed(document.tree())
                        ==> yaml_bytes(tree) is None)
                    ||| failure == unwritten_selectors() && told is None && (well_formed(document.tree())
                        ==> yaml_bytes(tree) is Some)
                },
            }
        },
    }
}

/// The view of prepared bytes.
pub open spec fn prepared_view(r: Result<(Vec<u8>, Vec<u8>), Failure>) -> Result<
    (Seq<u8>, Seq<u8>),
    FailureText,
> {
    match r {
        Ok((yaml, selectors)) => Ok((yaml@, selectors@)),
        Err(failure) => Err(failure@),
    }
}

/// Prepares what is handed to the gateway VM.
pub fn prepare_install(
    document: Yaml,
    config: &PrivateEgressConfig,
    resolver: Ipv4Address,
    secret: String,
) -> (r: Result<(Vec<u8>, Vec<u8>), Failure>)
    ensures
        is_prepared(document, *config, resolver, secret@, prepared_view(r)),
{
    let made = match harden_config(document, config, resolver, secret) {
        Ok(made) => made,
        Err(error) => {
            return Err(Failure::unhardened(error));
        },
    };
    match selector_payload(made.secret.as_str(), &made.selections) {
        Ok(selectors) => Ok((made.yaml, selectors)),
        Err(failure) => Err(failure),
    }
}

impl Deployment {
    /// What is asked for.
    pub open spec fn asks(self, data_dir: Seq<char>) -> ActionText {
        match self {
            Deployment::LocateLima => ActionText::FindProgram("limactl"@),
            Deployment::Lock => ActionText::Lock(egress_file(data_dir, "gateway-state"@)),
            Deployment::PrepareVm => ActionText::PrepareVm,
            Deployment::PrepareBinary => ActionText::PrepareBinary,
            Deployment::ResolveSubscription => ActionText::Resolve(SecretName::Subscription),
            Deployment::ResolveExpected { .. } => ActionText::Resolve(SecretName::ExpectedEgress),
            Deployment::ReadStamp { .. } => ActionText::ReadText(
                egress_file(data_dir, "gateway-deployment.stamp"@),
            ),
            Deployment::Probe { .. } | Deployment::ProbeAgain { .. } => ActionText::Probe(
                health_cmd_text(),
            ),
            Deployment::Restart { .. } => ActionText::Run(restart_cmd_text()),
            Deployment::DiscoverResolver { .. } => ActionText::Capture(resolver_cmd_text()),
            Deployment::Download { subscription, .. } => ActionText::Capture(
                subscription_cmd_text(curl_config(subscription@)),
            ),
            Deployment::OpenRandom { .. } => ActionText::OpenRandom,
            Deployment::ReadRandom { .. } => ActionText::ReadRandom,
            Deployment::SendConfig { config, .. } => ActionText::Run(
                send_config_cmd_text(config@),
            ),
            Deployment::SendSelectors { selectors, .. } => ActionText::Run(
                send_selectors_cmd_text(selectors@),
            ),
            Deployment::SetUp { resolver, .. } => ActionText::Run(
                set_up_cmd_text(resolver.text()),
            ),
            Deployment::ProbeExit { .. } => ActionText::Capture(exit_cmd_text()),
            Deployment::WriteStamp { fingerprint } => ActionText::WriteFile(
                egress_file(data_dir, "gateway-deployment.stamp"@),
                fingerprint@,
            ),
            Deployment::Finished | Deployment::Failed(_) => ActionText::Stop,
        }
    }

    /// What is asked for.
    pub fn action(&self, data_dir: &str) -> (r: Action)
        ensures
            r@ == self.asks(data_dir@),
    {
        match self {
            Deployment::LocateLima => Action::FindProgram("limactl".to_owned()),
            Deployment::Lock => Action::Lock(egress_file_path(data_dir, "gateway-state")),
            Deployment::PrepareVm => Action::PrepareVm,
            Deployment::PrepareBinary => Action::PrepareBinary,
            Deployment::ResolveSubscription => Action::Resolve(SecretName::Subscription),
            Deployment::ResolveExpected { .. } => Action::Resolve(SecretName::ExpectedEgress),
            Deployment::ReadStamp { .. } => Action::ReadText(
                egress_file_path(data_dir, "gateway-deployment.stamp"),
            ),
            Deployment::Probe { .. } | Deployment::ProbeAgain { .. } => Action::Probe(
                health_cmd(),
            ),
            Deployment::Restart { .. } => Action::Run(restart_cmd()),
            Deployment::DiscoverResolver { .. } => Action::Capture(resolver_cmd()),
            Deployment::Download { subscription, .. } => Action::Capture(
                subscription_cmd(subscription_curl_config(subscription.as_str()).as_str()),
            ),
            Deployment::OpenRandom { .. } => Action::OpenRandom,
            Deployment::ReadRandom { .. } => Action::ReadRandom,
            Deployment::SendConfig { config, .. } => Action::Run(
                send_config_cmd(vstd::slice::slice_to_vec(config.as_slice())),
            ),
            Deployment::SendSelectors { selectors, .. } => Action::Run(
                send_selectors_cmd(vstd::slice::slice_to_vec(selectors.as_slice())),
            ),
            Deployment::SetUp { resolver, .. } => Action::Run(set_up_cmd(*resolver)),
            Deployment::ProbeExit { .. } => Action::Capture(exit_cmd()),
            Deployment::WriteStamp { fingerprint } => Action::WriteFile(
                egress_file_path(data_dir, "gateway-deployment.stamp"),
                fingerprint.clone(),
            ),
            Deployment::Finished | Deployment::Failed(_) => Action::Stop,
        }
    }

    /// Whether this is the given failure.
    pub open spec fn is_failure(self, failure: FailureText) -> bool {
        self matches Deployment::Failed(held) && held@ == failure
    }

    /// What a reply leads to.
    pub open spec fn leads_to(
        self,
        reply: Reply,
        config: PrivateEgressConfig,
        next: Deployment,
    ) -> bool {
        match (self, reply) {
            (Deployment::LocateLima, Reply::Holds(there)) => if there {
                next == Deployment::Lock
            } else {
                next.is_failure(refused("private_egress requires Lima (limactl) on macOS"@))
            },
            (Deployment::Lock, Reply::Done) => next == Deployment::PrepareVm,
            (Deployment::Lock, Reply::Failed(reason)) => next.is_failure(refused(reason@)),
            (Deployment::PrepareVm, Reply::Done) => next == Deployment::PrepareBinary,
            (Deployment::PrepareVm, Reply::Stopped(failure)) => next == Deployment::Failed(
                failure,
            ),
            (Deployment::PrepareBinary, Reply::Done) => next == Deployment::ResolveSubscription,
            (Deployment::PrepareBinary, Reply::Stopped(failure)) => next == Deployment::Failed(
                failure,
            ),
            (Deployment::ResolveSubscription, Reply::Text(subscription)) => next == (
            Deployment::ResolveExpected { subscription }),
            (Deployment::ResolveSubscription, Reply::Failed(reason)) => next.is_failure(
                told("Failed to resolve private_egress.subscription"@, reason@),
            ),
            (Deployment::ResolveExpected { subscription }, Reply::Text(expected)) =>
            match address_of(expected@) {
                Some(_) => next matches Deployment::ReadStamp {
                    subscription: kept,
                    fingerprint,
                } && kept == subscription && fingerprint@ == text_digest(
                    deployment_source(config, subscription@, expected@),
                ),
                None => next.is_failure(
                    no_address("Expected egress value is not a single IPv4 address"@),
                ),
            },
            (Deployment::ResolveExpected { .. }, Reply::Failed(reason)) => next.is_failure(
                told("Failed to resolve private_egress.expected_egress_ip"@, reason@),
            ),
            (Deployment::ReadStamp { subscription, fingerprint }, Reply::Text(stamp)) => next
                == if trimmed(stamp@) == fingerprint@ {
                Deployment::Probe { subscription, fingerprint }
            } else {
                Deployment::DiscoverResolver { subscription, fingerprint }
            },
            (Deployment::ReadStamp { subscription, fingerprint }, Reply::Failed(_)) => next == (
            Deployment::DiscoverResolver { subscription, fingerprint }),
            (Deployment::Probe { subscription, fingerprint }, Reply::Holds(healthy)) => next
                == if healthy {
                Deployment::Finished
            } else {
                Deployment::Restart { subscription, fingerprint }
            },
            (Deployment::Restart { subscription, fingerprint }, _) => next == (
            Deployment::ProbeAgain { subscription, fingerprint }),
            (Deployment::ProbeAgain { subscription, fingerprint }, Reply::Holds(healthy)) => next
                == if healthy {
                Deployment::Finished
            } else {
                Deployment::DiscoverResolver { subscription, fingerprint }
            },
            (Deployment::DiscoverResolver { subscription, fingerprint }, Reply::Text(output)) =>
            match printed_address(output@) {
                Some(resolver) => match url_objection(subscription@, url_parse(subscription@)) {
                    None => next == (Deployment::Download { subscription, fingerprint, resolver }),
                    Some(failure) => next.is_failure(failure),
                },
                None => next.is_failure(
                    no_address(
                        "Gateway VM default route did not provide an IPv4 bootstrap resolver"@,
                    ),
                ),
            },
            (Deployment::DiscoverResolver { .. }, Reply::Failed(reason)) => next.is_failure(
                told("Failed to discover the gateway VM bootstrap resolver"@, reason@),
            ),
            (
                Deployment::Download { subscription, fingerprint, resolver },
                Reply::Text(output),
            ) => match subscription_objection(output@) {
                Some(failure) => next.is_failure(failure),
                None => if untagged(yaml_parse(output@)->0) is Mapping {
                    next matches Deployment::OpenRandom {
                        fingerprint: kept,
                        resolver: chosen,
                        document,
                    } && kept == fingerprint && chosen == resolver && yaml_parse(output@) == Some(
                        document.tree(),
                    ) && well_formed(document.tree())
                } else {
                    next.is_failure(unhardened(HardenFault::RootNotMapping))
                },
            },
            (Deployment::Download { .. }, Reply::Failed(reason)) => next.is_failure(
                told("Failed to download the private egress subscription"@, reason@),
            ),
            (Deployment::OpenRandom { fingerprint, resolver, document }, Reply::Done) => next == (
            Deployment::ReadRandom { fingerprint, resolver, document }),
            (Deployment::OpenRandom { .. }, Reply::Failed(reason)) => next.is_failure(
                told("Failed to open host random source"@, reason@),
            ),
            (Deployment::ReadRandom { fingerprint, resolver, document }, Reply::Bytes(bytes)) => {
                ||| next matches Deployment::SendConfig {
                    fingerprint: kept,
                    resolver: chosen,
                    config: yaml,
                    selectors,
                } && kept == fingerprint && chosen == resolver && is_prepared(
                    document,
                    config,
                    resolver,
                    hex_text(bytes@),
                    Ok((yaml@, selectors@)),
                )
                ||| next matches Deployment::Failed(failure) && is_prepared(
                    document,
                    config,
                    resolver,
                    hex_text(bytes@),
                    Err(failure@),
                )
            },
            (Deployment::ReadRandom { .. }, Reply::Failed(reason)) => next.is_failure(
                told("Failed to read host random source"@, reason@),
            ),
            (
                Deployment::SendConfig { fingerprint, resolver, config: yaml, selectors },
                Reply::Done,
            ) => next == (Deployment::SendSelectors { fingerprint, resolver, selectors }),
            (Deployment::SendConfig { .. }, Reply::Failed(reason)) => next.is_failure(
                told("Failed to transfer private egress config"@, reason@),
            ),
            (
                Deployment::SendSelectors { fingerprint, resolver, selectors },
                Reply::Done,
            ) => next == (Deployment::SetUp { fingerprint, resolver }),
            (Deployment::SendSelectors { .. }, Reply::Failed(reason)) => next.is_failure(
                told("Failed to transfer private egress selector state"@, reason@),
            ),
            (Deployment::SetUp { fingerprint, resolver }, Reply::Done) => next == (
            Deployment::ProbeExit { fingerprint }),
            (Deployment::SetUp { .. }, Reply::Failed(reason)) => next.is_failure(
                told("Failed to configure the private egress service"@, reason@),
            ),
            (Deployment::ProbeExit { fingerprint }, Reply::Text(output)) => match printed_address(
                output@,
            ) {
                Some(_) => next == (Deployment::WriteStamp { fingerprint }),
                None => next.is_failure(
                    no_address("IP verification service returned a non-IPv4 response"@),
                ),
            },
            (Deployment::ProbeExit { .. }, Reply::Failed(reason)) => next.is_failure(
                told(
                    "Private egress gateway cannot reach the IP verification service"@,
                    reason@,
                ),
            ),
            (Deployment::WriteStamp { .. }, Reply::Done) => next == Deployment::Finished,
            (Deployment::WriteStamp { .. }, Reply::Failed(reason)) => next.is_failure(
                refused(reason@),
            ),
            _ => next == self,
        }
    }

    /// Goes on with a reply.
    pub fn next(self, reply: Reply, config: &PrivateEgressConfig, data_dir: &str) -> (r: Deployment)
        requires
            answers(reply, self.asks(data_dir@)),
        ensures
            self.leads_to(reply, *config, r),
    {
        match (self, reply) {
            (Deployment::LocateLima, Reply::Holds(there)) => if there {
                Deployment::Lock
            } else {
                Deployment::Failed(
                    Failure::refused("private_egress requires Lima (limactl) on macOS"),
                )
            },
            (Deployment::Lock, Reply::Done) => Deployment::PrepareVm,
            (Deployment::Lock, Reply::Failed(reason)) => Deployment::Failed(
                Failure::refused(reason.as_str()),
            ),
            (Deployment::PrepareVm, Reply::Done) => Deployment::PrepareBinary,
            (Deployment::PrepareVm, Reply::Stopped(failure)) => Deployment::Failed(failure),
            (Deployment::PrepareBinary, Reply::Done) => Deployment::ResolveSubscription,
            (Deployment::PrepareBinary, Reply::Stopped(failure)) => Deployment::Failed(failure),
            (Deployment::ResolveSubscription, Reply::Text(subscription)) =>
            Deployment::ResolveExpected { subscription },
            (Deployment::ResolveSubscription, Reply::Failed(reason)) => Deployment::Failed(
                Failure::told("Failed to resolve private_egress.subscription", reason),
            ),
            (Deployment::ResolveExpected { subscription }, Reply::Text(expected)) =>
            with_expected(config, subscription, expected.as_str()),
            (Deployment::ResolveExpected { .. }, Reply::Failed(reason)) => Deployment::Failed(
                Failure::told("Failed to resolve private_egress.expected_egress_ip", reason),
            ),
            (Deployment::ReadStamp { subscription, fingerprint }, Reply::Text(stamp)) => {
                if same_text(trim(stamp.as_str()).as_str(), fingerprint.as_str()) {
                    Deployment::Probe { subscription, fingerprint }
                } else {
                    Deployment::DiscoverResolver { subscription, fingerprint }
                }
            },
            (Deployment::ReadStamp { subscription, fingerprint }, Reply::Failed(_)) =>
            Deployment::DiscoverResolver { subscription, fingerprint },
            (Deployment::Probe { subscription, fingerprint }, Reply::Holds(healthy)) => {
                if healthy {
                    Deployment::Finished
                } else {
                    Deployment::Restart { subscription, fingerprint }
                }
            },
            (Deployment::Restart { subscription, fingerprint }, _) => Deployment::ProbeAgain {
                subscription,
                fingerprint,
            },
            (Deployment::ProbeAgain { subscription, fingerprint }, Reply::Holds(healthy)) => {
                if healthy {
                    Deployment::Finished
                } else {
                    Deployment::DiscoverResolver { subscription, fingerprint }
                }
            },
            (Deployment::DiscoverResolver { subscription, fingerprint }, Reply::Text(output)) =>
            with_resolver(subscription, fingerprint, output.as_str()),
            (Deployment::DiscoverResolver { .. }, Reply::Failed(reason)) => Deployment::Failed(
                Failure::told("Failed to discover the gateway VM bootstrap resolver", reason),
            ),
            (
                Deployment::Download { subscription, fingerprint, resolver },
                Reply::Text(output),
            ) => with_download(fingerprint, resolver, output.as_str()),
            (Deployment::Download { .. }, Reply::Failed(reason)) => Deployment::Failed(
                Failure::told("Failed to download the private egress subscription", reason),
            ),
            (Deployment::OpenRandom { fingerprint, resolver, document }, Reply::Done) =>
            Deployment::ReadRandom { fingerprint, resolver, document },
            (Deployment::OpenRandom { .. }, Reply::Failed(reason)) => Deployment::Failed(
                Failure::told("Failed to open host random source", reason),
            ),
            (Deployment::ReadRandom { fingerprint, resolver, document }, Reply::Bytes(bytes)) => {
                let secret = random_secret(bytes.as_slice());
                match prepare_install(document, config, resolver, secret) {
                    Ok((yaml, selectors)) => Deployment::SendConfig {
                        fingerprint,
                        resolver,
                        config: yaml,
                        selectors,
                    },
                    Err(failure) => Deployment::Failed(failure),
                }
            },
            (Deployment::ReadRandom { .. }, Reply::Failed(reason)) => Deployment::Failed(
                Failure::told("Failed to read host random source", reason),
            ),
            (
                Deployment::SendConfig { fingerprint, resolver, config: yaml, selectors },
                Reply::Done,
            ) => Deployment::SendSelectors { fingerprint, resolver, selectors },
            (Deployment::SendConfig { .. }, Reply::Failed(reason)) => Deployment::Failed(
                Failure::told("Failed to transfer private egress config", reason),
            ),
            (Deployment::SendSelectors { fingerprint, resolver, selectors }, Reply::Done) =>
            Deployment::SetUp { fingerprint, resolver },
            (Deployment::SendSelectors { .. }, Reply::Failed(reason)) => Deployment::Failed(
                Failure::told("Failed to transfer private egress selector state", reason),
            ),
            (Deployment::SetUp { fingerprint, resolver }, Reply::Done) => Deployment::ProbeExit {
                fingerprint,
            },
            (Deployment::SetUp { .. }, Reply::Failed(reason)) => Deployment::Failed(
                Failure::told("Failed to configure the private egress service", reason),
            ),
            (Deployment::ProbeExit { fingerprint }, Reply::Text(output)) => {
                match verify_gateway_connectivity(output.as_str()) {
                    Ok(_) => Deployment::WriteStamp { fingerprint },
                    Err(failure) => Deployment::Failed(failure),
                }
            },
            (Deployment::ProbeExit { .. }, Reply::Failed(reason)) => Deployment::Failed(
                Failure::told(
                    "Private egress gateway cannot reach the IP verification service",
                    reason,
                ),
            ),
            (Deployment::WriteStamp { .. }, Reply::Done) => Deployment::Finished,
            (Deployment::WriteStamp { .. }, Reply::Failed(reason)) => Deployment::Failed(
                Failure::refused(reason.as_str()),
            ),
            (state, _) => state,
        }
    }
}

/// Goes on with the expected public address: the deployment has a fingerprint.
fn with_expected(config: &PrivateEgressConfig, subscription: String, expected: &str) -> (r:
    Deployment)
    ensures
        match address_of(expected@) {
            Some(_) => r matches Deployment::ReadStamp { subscription: kept, fingerprint } && kept
                == subscription && fingerprint@ == text_digest(
                deployment_source(*config, subscription@, expected@),
            ),
            None => r.is_failure(
                no_address("Expected egress value is not a single IPv4 address"@),
            ),
        },
{
    match parse_ipv4(expected) {
        Some(_) => {
            let fingerprint = gateway_deployment_fingerprint(
                config,
                subscription.as_str(),
                expected,
            );
            Deployment::ReadStamp { subscription, fingerprint }
        },
        None => Deployment::Failed(
            Failure::no_address("Expected egress value is not a single IPv4 address"),
        ),
    }
}

/// Goes on with what the gateway VM printed of its resolver: the subscription
/// can be downloaded, where its URL allows that.
fn with_resolver(subscription: String, fingerprint: String, output: &str) -> (r: Deployment)
    ensures
        match printed_address(output@) {
            Some(resolver) => match url_objection(subscription@, url_parse(subscription@)) {
                None => r == (Deployment::Download { subscription, fingerprint, resolver }),
                Some(failure) => r.is_failure(failure),
            },
            None => r.is_failure(
                no_address("Gateway VM default route did not provide an IPv4 bootstrap resolver"@),
            ),
        },
{
    let resolver = match gateway_bootstrap_dns(output) {
        Ok(resolver) => resolver,
        Err(failure) => {
            return Deployment::Failed(failure);
        },
    };
    match check_subscription_url(subscription.as_str()) {
        Ok(_) => Deployment::Download { subscription, fingerprint, resolver },
        Err(failure) => Deployment::Failed(failure),
    }
}

/// Goes on with what was downloaded.
fn with_download(fingerprint: String, resolver: Ipv4Address, output: &str) -> (r: Deployment)
    ensures
        match subscription_objection(output@) {
            Some(failure) => r.is_failure(failure),
            None => if untagged(yaml_parse(output@)->0) is Mapping {
                r matches Deployment::OpenRandom { fingerprint: kept, resolver: chosen, document }
                    && kept == fingerprint && chosen == resolver && yaml_parse(output@) == Some(
                    document.tree(),
                ) && well_formed(document.tree())
            } else {
                r.is_failure(unhardened(HardenFault::RootNotMapping))
            },
        },
{
    let document = match read_subscription(output) {
        Ok(document) => document,
        Err(failure) => {
            return Deployment::Failed(failure);
        },
    };
    if document.as_mapping().is_none() {
        return Deployment::Failed(Failure::unhardened(HardenError::RootNotMapping));
    }
    Deployment::OpenRandom { fingerprint, resolver, document }
}

/// The resolver that the gateway VM starts with, given what it printed of its
/// default route.
pub fn gateway_bootstrap_dns(output: &str) -> (r: Result<Ipv4Address, Failure>)
    ensures
        match r {
            Ok(address) => printed_address(output@) == Some(address),
            Err(failure) => printed_address(output@) is None && failure@ == no_address(
                "Gateway VM default route did not provide an IPv4 bootstrap resolver"@,
            ),
        },
{
    read_address(output, "Gateway VM default route did not provide an IPv4 bootstrap resolver")
}

/// The address from which the gateway VM is seen, given what it was told.
pub fn verify_gateway_connectivity(output: &str) -> (r: Result<Ipv4Address, Failure>)
    ensures
        match r {
            Ok(address) => printed_address(output@) == Some(address),
            Err(failure) => printed_address(output@) is None && failure@ == no_address(
                "IP verification service returned a non-IPv4 response"@,
            ),
        },
{
    read_address(output, "IP verification service returned a non-IPv4 response")
}

/// The failure to learn the address of the gateway VM, or that address, given
/// what the gateway VM printed.
pub open spec fn gateway_address(output: Result<Seq<char>, Seq<char>>) -> Result<
    Ipv4Address,
    FailureText,
> {
    match output {
        Ok(text) => match printed_address(text) {
            Some(address) => Ok(address),
            None => Err(
                no_address("Private egress gateway returned an invalid IPv4 address"@),
            ),
        },
        Err(reason) => Err(
            told("Failed to discover the private egress gateway address"@, reason),
        ),
    }
}

/// The view of an output, or of the reason that there is none.
pub open spec fn output_view(output: Result<String, String>) -> Result<Seq<char>, Seq<char>> {
    match output {
        Ok(text) => Ok(text@),
        Err(reason) => Err(reason@),
    }
}

/// The address of the gateway VM, given what it printed.
pub fn gateway_ipv4(output: Result<String, String>) -> (r: Result<Ipv4Address, Failure>)
    ensures
        match r {
            Ok(address) => gateway_address(output_view(output)) == Ok::<Ipv4Address, FailureText>(
                address,
            ),
            Err(failure) => gateway_address(output_view(output)) == Err::<
                Ipv4Address,
                FailureText,
            >(failure@),
        },
{
    match output {
        Ok(text) => read_address(
            text.as_str(),
            "Private egress gateway returned an invalid IPv4 address",
        ),
        Err(reason) => Err(
            Failure::told("Failed to discover the private egress gateway address", reason),
        ),
    }
}

} // verus!
