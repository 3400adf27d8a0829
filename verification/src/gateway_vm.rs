//! Bringing the gateway VM up: reaching it, starting it, or creating it.
use vstd::prelude::*;

use crate::command::{inherits_no_proxy, GATEWAY_NAME};
use crate::effects::{answers, Action, ActionText, Reply};
use crate::failure::{refused, told, Failure, FailureText};
use crate::gateway_commands::{
    create_cmd, create_cmd_text, list_cmd, list_cmd_text, shell_cmd, shell_cmd_text, start_cmd,
    start_cmd_text,
};
use crate::lines::{has_line, lines};
use crate::path_text::{join_path, joined_path};
use crate::scripts::{gateway_template, gateway_template_text, Processor};

verus! {

/// How far the gateway VM is up.
#[derive(Debug)]
pub enum VmSetup {
    /// It is tried whether the VM can be reached.
    Reach,
    /// The VMs are listed.
    List,
    /// The VM that is there is started.
    Start,
    /// The directory for its template is created.
    MakeDirectory,
    /// Its template is written.
    WriteTemplate,
    /// The VM is created from its template.
    Create,
    /// It is tried once more whether the VM can be reached.
    ReachAgain,
    /// The VM can be reached.
    Ready,
    /// The VM could not be brought up.
    Failed(Failure),
}

/// Begins to bring the gateway VM up.
pub fn ensure_gateway_vm() -> (r: VmSetup)
    ensures
        r == VmSetup::Reach,
{
    VmSetup::Reach
}

/// The directory of the gateway's files.
pub open spec fn egress_dir(data_dir: Seq<char>) -> Seq<char> {
    joined_path(data_dir, "private-egress"@)
}

/// The path of one of the gateway's files.
pub open spec fn egress_file(data_dir: Seq<char>, name: Seq<char>) -> Seq<char> {
    joined_path(egress_dir(data_dir), name)
}

/// The directory of the gateway's files.
pub fn egress_dir_path(data_dir: &str) -> (r: String)
    ensures
        r@ == egress_dir(data_dir@),
{
    join_path(data_dir, "private-egress")
}

/// The path of one of the gateway's files.
pub fn egress_file_path(data_dir: &str, name: &str) -> (r: String)
    ensures
        r@ == egress_file(data_dir@, name@),
{
    join_path(egress_dir_path(data_dir).as_str(), name)
}

impl VmSetup {
    /// What is asked for.
    pub open spec fn asks(self, data_dir: Seq<char>, processor: Processor) -> ActionText {
        match self {
            VmSetup::Reach | VmSetup::ReachAgain => ActionText::Probe(shell_cmd_text()),
            VmSetup::List => ActionText::Capture(list_cmd_text()),
            VmSetup::Start => ActionText::Run(start_cmd_text()),
            VmSetup::MakeDirectory => ActionText::MakeDirectory(egress_dir(data_dir)),
            VmSetup::WriteTemplate => ActionText::WriteFile(
                egress_file(data_dir, "gateway.yaml"@),
                gateway_template_text(processor),
            ),
            VmSetup::Create => ActionText::Run(
                create_cmd_text(egress_file(data_dir, "gateway.yaml"@)),
            ),
            VmSetup::Ready | VmSetup::Failed(_) => ActionText::Stop,
        }
    }

    /// What is asked for.
    pub fn action(&self, data_dir: &str, processor: Processor) -> (r: Action)
        ensures
            r@ == self.asks(data_dir@, processor),
    {
        match self {
            VmSetup::Reach | VmSetup::ReachAgain => Action::Probe(shell_cmd()),
            VmSetup::List => Action::Capture(list_cmd()),
            VmSetup::Start => Action::Run(start_cmd()),
            VmSetup::MakeDirectory => Action::MakeDirectory(egress_dir_path(data_dir)),
            VmSetup::WriteTemplate => Action::WriteFile(
                egress_file_path(data_dir, "gateway.yaml"),
                gateway_template(processor).to_owned(),
            ),
            VmSetup::Create => Action::Run(
                create_cmd(egress_file_path(data_dir, "gateway.yaml").as_str()),
            ),
            VmSetup::Ready | VmSetup::Failed(_) => Action::Stop,
        }
    }

    /// Whether this is the given failure.
    pub open spec fn is_failure(self, failure: FailureText) -> bool {
        self matches VmSetup::Failed(held) && held@ == failure
    }

    /// What a reply leads to.
    pub open spec fn leads_to(self, reply: Reply, data_dir: Seq<char>, next: VmSetup) -> bool {
        match (self, reply) {
            (VmSetup::Reach, Reply::Holds(reached)) => next == if reached {
                VmSetup::Ready
            } else {
                VmSetup::List
            },
            (VmSetup::List, Reply::Text(names)) => next == if lines(names@).contains(
                GATEWAY_NAME@,
            ) {
                VmSetup::Start
            } else {
                VmSetup::MakeDirectory
            },
            (VmSetup::List, Reply::Failed(reason)) => next.is_failure(
                told("Failed to list Lima instances"@, reason@),
            ),
            (VmSetup::Start, Reply::Done) => next == VmSetup::ReachAgain,
            (VmSetup::Start, Reply::Failed(reason)) => next.is_failure(
                told("Failed to start the private egress gateway VM"@, reason@),
            ),
            (VmSetup::MakeDirectory, Reply::Done) => next == VmSetup::WriteTemplate,
            (VmSetup::MakeDirectory, Reply::Failed(reason)) => next.is_failure(
                told("Failed to create "@ + egress_dir(data_dir), reason@),
            ),
            (VmSetup::WriteTemplate, Reply::Done) => next == VmSetup::Create,
            (VmSetup::WriteTemplate, Reply::Failed(reason)) => next.is_failure(refused(reason@)),
            (VmSetup::Create, Reply::Done) => next == VmSetup::ReachAgain,
            (VmSetup::Create, Reply::Failed(reason)) => next.is_failure(
                told("Failed to create the private egress gateway VM"@, reason@),
            ),
            (VmSetup::ReachAgain, Reply::Holds(reached)) => if reached {
                next == VmSetup::Ready
            } else {
                next.is_failure(refused("private egress gateway did not become ready"@))
            },
            _ => next == self,
        }
    }

    /// Goes on with a reply.
    pub fn next(self, reply: Reply, data_dir: &str, processor: Processor) -> (r: VmSetup)
        requires
            answers(reply, self.asks(data_dir@, processor)),
        ensures
            self.leads_to(reply, data_dir@, r),
    {
        match (self, reply) {
            (VmSetup::Reach, Reply::Holds(reached)) => if reached {
                VmSetup::Ready
            } else {
                VmSetup::List
            },
            (VmSetup::List, Reply::Text(names)) => if has_line(names.as_str(), GATEWAY_NAME) {
                VmSetup::Start
            } else {
                VmSetup::MakeDirectory
            },
            (VmSetup::List, Reply::Failed(reason)) => VmSetup::Failed(
                Failure::told("Failed to list Lima instances", reason),
            ),
            (VmSetup::Start, Reply::Done) => VmSetup::ReachAgain,
            (VmSetup::Start, Reply::Failed(reason)) => VmSetup::Failed(
                Failure::told("Failed to start the private egress gateway VM", reason),
            ),
            (VmSetup::MakeDirectory, Reply::Done) => VmSetup::WriteTemplate,
            (VmSetup::MakeDirectory, Reply::Failed(reason)) => VmSetup::Failed(
                Failure::told(
                    "Failed to create ".to_owned().concat(
                        egress_dir_path(data_dir).as_str(),
                    ).as_str(),
                    reason,
                ),
            ),
            (VmSetup::WriteTemplate, Reply::Done) => VmSetup::Create,
            (VmSetup::WriteTemplate, Reply::Failed(reason)) => VmSetup::Failed(
                Failure::refused(reason.as_str()),
            ),
            (VmSetup::Create, Reply::Done) => VmSetup::ReachAgain,
            (VmSetup::Create, Reply::Failed(reason)) => VmSetup::Failed(
                Failure::told("Failed to create the private egress gateway VM", reason),
            ),
            (VmSetup::ReachAgain, Reply::Holds(reached)) => if reached {
                VmSetup::Ready
            } else {
                VmSetup::Failed(
                    Failure::refused("private egress gateway did not become ready"),
                )
            },
            (state, _) => state,
        }
    }

    /// How many replies are needed at most.
    pub open spec fn remaining(self) -> nat {
        match self {
            VmSetup::Reach => 6,
            VmSetup::List => 5,
            VmSetup::MakeDirectory => 4,
            VmSetup::WriteTemplate => 3,
            VmSetup::Create | VmSetup::Start => 2,
            VmSetup::ReachAgain => 1,
            VmSetup::Ready | VmSetup::Failed(_) => 0,
        }
    }
}

/// The VM is ready only where its shell was just reached.
pub proof fn ready_vm_was_reached(
    state: VmSetup,
    reply: Reply,
    data_dir: Seq<char>,
    processor: Processor,
)
    requires
        answers(reply, state.asks(data_dir, processor)),
        state.leads_to(reply, data_dir, VmSetup::Ready),
    ensures
        state.asks(data_dir, processor) == ActionText::Probe(shell_cmd_text()),
        reply == Reply::Holds(true),
{
}

/// Each reply brings the end nearer.
pub proof fn vm_setup_ends(
    state: VmSetup,
    reply: Reply,
    data_dir: Seq<char>,
    processor: Processor,
    next: VmSetup,
)
    requires
        answers(reply, state.asks(data_dir, processor)),
        state.leads_to(reply, data_dir, next),
    ensures
        next.remaining() < state.remaining(),
{
}

/// No command that brings the gateway VM up inherits a variable that configures
/// a proxy.
pub proof fn vm_commands_inherit_no_proxy(
    state: VmSetup,
    data_dir: Seq<char>,
    processor: Processor,
)
    ensures
        match state.asks(data_dir, processor) {
            ActionText::Probe(cmd) | ActionText::Run(cmd) | ActionText::Capture(cmd) =>
            inherits_no_proxy(cmd),
            _ => true,
        },
{
}

} // verus!
