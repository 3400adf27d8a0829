//! Building the image of a VM's root file system, and fetching its kernel.
use vstd::prelude::*;

use crate::command::{Cmd, CmdText};
use crate::effects::Reply;
use crate::failure::{refused, told, Failure, FailureText};
use crate::path_text::{join_path, joined_path, parent_of, parent_path};

verus! {

/// What a VM needs to boot.
#[derive(Debug, Clone, Copy, PartialEq, Eq, Structural)]
pub enum Artifact {
    Kernel,
    Rootfs,
}

/// What is asked for while an image is built.
#[derive(Debug)]
pub enum BuildAction {
    /// Create a directory and its parents.
    MakeDirectory(String),
    /// Bring an artifact into place.
    Provision(Artifact),
    /// Look whether a file is there.
    Exists(String),
    /// Give the root of the project.
    FindRoot,
    /// Run a command: it succeeds, or not.
    Script(Cmd),
    /// Give the path of the running program.
    AskExecutable,
    /// Give the current directory.
    AskDirectory,
    /// Nothing: the procedure has ended.
    Stop,
}

/// What a [`BuildAction`] asks for.
pub ghost enum BuildActionText {
    MakeDirectory(Seq<char>),
    Provision(Artifact),
    Exists(Seq<char>),
    FindRoot,
    Script(CmdText),
    AskExecutable,
    AskDirectory,
    Stop,
}

impl View for BuildAction {
    type V = BuildActionText;

    open spec fn view(&self) -> BuildActionText {
        match self {
            BuildAction::MakeDirectory(path) => BuildActionText::MakeDirectory(path@),
            BuildAction::Provision(artifact) => BuildActionText::Provision(*artifact),
            BuildAction::Exists(path) => BuildActionText::Exists(path@),
            BuildAction::FindRoot => BuildActionText::FindRoot,
            BuildAction::Script(cmd) => BuildActionText::Script(cmd@),
            BuildAction::AskExecutable => BuildActionText::AskExecutable,
            BuildAction::AskDirectory => BuildActionText::AskDirectory,
            BuildAction::Stop => BuildActionText::Stop,
        }
    }
}

/// Whether a reply answers an action.
pub open spec fn answers(reply: Reply, action: BuildActionText) -> bool {
    match action {
        BuildActionText::MakeDirectory(_) => reply is Done || reply is Failed,
        BuildActionText::Provision(_) => reply is Done || reply is Stopped,
        BuildActionText::Exists(_) => reply is Holds,
        BuildActionText::FindRoot => reply is Text || reply is Stopped,
        BuildActionText::Script(_) => reply is Holds || reply is Failed,
        BuildActionText::AskExecutable | BuildActionText::AskDirectory => reply is Text
            || reply is Failed,
        BuildActionText::Stop => false,
    }
}

/// Whether a reply answers an action.
pub fn is_answer(reply: &Reply, action: &BuildAction) -> (r: bool)
    ensures
        r == answers(*reply, action@),
{
    match action {
        BuildAction::MakeDirectory(_) => matches!(reply, Reply::Done | Reply::Failed(_)),
        BuildAction::Provision(_) => matches!(reply, Reply::Done | Reply::Stopped(_)),
        BuildAction::Exists(_) => matches!(reply, Reply::Holds(_)),
        BuildAction::FindRoot => matches!(reply, Reply::Text(_) | Reply::Stopped(_)),
        BuildAction::Script(_) => matches!(reply, Reply::Holds(_) | Reply::Failed(_)),
        BuildAction::AskExecutable | BuildAction::AskDirectory => matches!(
            reply,
            Reply::Text(_) | Reply::Failed(_)
        ),
        BuildAction::Stop => false,
    }
}

/// How far an image is built.
#[derive(Debug)]
pub enum ImageBuild {
    /// The directory for the data is created.
    MakeDirectory,
    /// The kernel is fetched.
    Kernel,
    /// The root file system is built.
    Rootfs,
    /// The image is built.
    Built,
    /// The image could not be built.
    Failed(Failure),
}

/// Begins to build an image.
pub fn build() -> (r: ImageBuild)
    ensures
        r == ImageBuild::MakeDirectory,
{
    ImageBuild::MakeDirectory
}

impl ImageBuild {
    /// What is asked for.
    pub open spec fn asks(self, data_dir: Seq<char>) -> BuildActionText {
        match self {
            ImageBuild::MakeDirectory => BuildActionText::MakeDirectory(data_dir),
            ImageBuild::Kernel => BuildActionText::Provision(Artifact::Kernel),
            ImageBuild::Rootfs => BuildActionText::Provision(Artifact::Rootfs),
            ImageBuild::Built | ImageBuild::Failed(_) => BuildActionText::Stop,
        }
    }

    /// What is asked for.
    pub fn action(&self, data_dir: &str) -> (r: BuildAction)
        ensures
            r@ == self.asks(data_dir@),
    {
        match self {
            ImageBuild::MakeDirectory => BuildAction::MakeDirectory(data_dir.to_owned()),
            ImageBuild::Kernel => BuildAction::Provision(Artifact::Kernel),
            ImageBuild::Rootfs => BuildAction::Provision(Artifact::Rootfs),
            ImageBuild::Built | ImageBuild::Failed(_) => BuildAction::Stop,
        }
    }

    /// What a reply leads to.
    pub open spec fn leads_to(self, reply: Reply, next: ImageBuild) -> bool {
        match (self, reply) {
            (ImageBuild::MakeDirectory, Reply::Done) => next == ImageBuild::Kernel,
            (ImageBuild::MakeDirectory, Reply::Failed(reason)) => {
                next matches ImageBuild::Failed(failure) && failure@ == told(
                    "Failed to create data directory"@,
                    reason@,
                )
            },
            (ImageBuild::Kernel, Reply::Done) => next == ImageBuild::Rootfs,
            (ImageBuild::Rootfs, Reply::Done) => next == ImageBuild::Built,
            (_, Reply::Stopped(failure)) => next == ImageBuild::Failed(failure),
            _ => next == self,
        }
    }

    /// Goes on with a reply.
    pub fn next(self, reply: Reply, data_dir: &str) -> (r: ImageBuild)
        requires
            answers(reply, self.asks(data_dir@)),
        ensures
            self.leads_to(reply, r),
    {
        match (self, reply) {
            (ImageBuild::MakeDirectory, Reply::Done) => ImageBuild::Kernel,
            (ImageBuild::MakeDirectory, Reply::Failed(reason)) => ImageBuild::Failed(
                Failure::told("Failed to create data directory", reason),
            ),
            (ImageBuild::Kernel, Reply::Done) => ImageBuild::Rootfs,
            (ImageBuild::Rootfs, Reply::Done) => ImageBuild::Built,
            (_, Reply::Stopped(failure)) => ImageBuild::Failed(failure),
            (state, _) => state,
        }
    }
}

/// How far an artifact is in place.
#[derive(Debug)]
pub enum Provision {
    /// It is looked whether the artifact is there.
    Look,
    /// The root of the project is asked for.
    FindRoot,
    /// It is looked whether the script is there.
    LookForScript { script: String },
    /// The script is run.
    RunScript { script: String },
    /// The artifact is in place.
    Present,
    /// The artifact could not be brought into place.
    Failed(Failure),
}

/// Begins to fetch the kernel.
pub fn fetch_kernel() -> (r: Provision)
    ensures
        r == Provision::Look,
{
    Provision::Look
}

/// Begins to build the root file system.
pub fn build_rootfs() -> (r: Provision)
    ensures
        r == Provision::Look,
{
    Provision::Look
}

impl Artifact {
    /// The script that makes the artifact, below the root of the project.
    pub open spec fn script_path(self) -> Seq<char> {
        match self {
            Artifact::Kernel => "scripts/fetch-kernel.sh"@,
            Artifact::Rootfs => "scripts/build-rootfs.sh"@,
        }
    }

    /// How the script is called in failures that name it first.
    pub open spec fn script_title(self) -> Seq<char> {
        match self {
            Artifact::Kernel => "Kernel fetch script"@,
            Artifact::Rootfs => "Rootfs build script"@,
        }
    }

    /// The failure to run the script.
    pub open spec fn unrun(self) -> Seq<char> {
        match self {
            Artifact::Kernel => "Failed to run kernel fetch script"@,
            Artifact::Rootfs => "Failed to run rootfs build script"@,
        }
    }

    fn script(&self) -> (r: &'static str)
        ensures
            r@ == self.script_path(),
    {
        match self {
            Artifact::Kernel => "scripts/fetch-kernel.sh",
            Artifact::Rootfs => "scripts/build-rootfs.sh",
        }
    }

    fn title(&self) -> (r: &'static str)
        ensures
            r@ == self.script_title(),
    {
        match self {
            Artifact::Kernel => "Kernel fetch script",
            Artifact::Rootfs => "Rootfs build script",
        }
    }

    fn unrun_text(&self) -> (r: &'static str)
        ensures
            r@ == self.unrun(),
    {
        match self {
            Artifact::Kernel => "Failed to run kernel fetch script",
            Artifact::Rootfs => "Failed to run rootfs build script",
        }
    }
}

/// The command that makes an artifact.
pub open spec fn script_cmd_text(script: Seq<char>, target: Seq<char>) -> CmdText {
    CmdText { program: "bash"@, args: seq![script, target], env_removed: seq![], stdin: None }
}

/// The command that makes an artifact.
fn script_cmd(script: &str, target: &str) -> (r: Cmd)
    ensures
        r@ == script_cmd_text(script@, target@),
{
    let cmd = Cmd {
        program: "bash".to_owned(),
        args: Vec::new(),
        env_removed: Vec::new(),
        stdin: None,
    };
    let r = cmd.arg(script).arg(target);
    proof {
        assert(r@ =~~= script_cmd_text(script@, target@));
    }
    r
}

impl Provision {
    /// What is asked for, to bring an artifact to this path.
    pub open spec fn asks(self, target: Seq<char>) -> BuildActionText {
        match self {
            Provision::Look => BuildActionText::Exists(target),
            Provision::FindRoot => BuildActionText::FindRoot,
            Provision::LookForScript { script } => BuildActionText::Exists(script@),
            Provision::RunScript { script } => BuildActionText::Script(
                script_cmd_text(script@, target),
            ),
            Provision::Present | Provision::Failed(_) => BuildActionText::Stop,
        }
    }

    /// What is asked for, to bring an artifact to this path.
    pub fn action(&self, target: &str) -> (r: BuildAction)
        ensures
            r@ == self.asks(target@),
    {
        match self {
            Provision::Look => BuildAction::Exists(target.to_owned()),
            Provision::FindRoot => BuildAction::FindRoot,
            Provision::LookForScript { script } => BuildAction::Exists(script.clone()),
            Provision::RunScript { script } => BuildAction::Script(
                script_cmd(script.as_str(), target),
            ),
            Provision::Present | Provision::Failed(_) => BuildAction::Stop,
        }
    }

    /// Whether this is the given failure.
    pub open spec fn is_failure(self, failure: FailureText) -> bool {
        self matches Provision::Failed(held) && held@ == failure
    }

    /// What a reply leads to.
    pub open spec fn leads_to(self, reply: Reply, artifact: Artifact, next: Provision) -> bool {
        match (self, reply) {
            (Provision::Look, Reply::Holds(there)) => next == if there {
                Provision::Present
            } else {
                Provision::FindRoot
            },
            (Provision::FindRoot, Reply::Text(root)) => {
                next matches Provision::LookForScript { script } && script@ == joined_path(
                    root@,
                    artifact.script_path(),
                )
            },
            (Provision::LookForScript { script }, Reply::Holds(there)) => if there {
                next == (Provision::RunScript { script })
            } else {
                next.is_failure(
                    refused(artifact.script_title() + " not found at "@ + script@),
                )
            },
            (Provision::RunScript { .. }, Reply::Holds(succeeded)) => if succeeded {
                next == Provision::Present
            } else {
                next.is_failure(refused(artifact.script_title() + " failed"@))
            },
            (Provision::RunScript { .. }, Reply::Failed(reason)) => next.is_failure(
                told(artifact.unrun(), reason@),
            ),
            (_, Reply::Stopped(failure)) => next == Provision::Failed(failure),
            _ => next == self,
        }
    }

    /// Goes on with a reply.
    pub fn next(self, reply: Reply, artifact: Artifact, target: &str) -> (r: Provision)
        requires
            answers(reply, self.asks(target@)),
        ensures
            self.leads_to(reply, artifact, r),
    {
        match (self, reply) {
            (Provision::Look, Reply::Holds(there)) => if there {
                Provision::Present
            } else {
                Provision::FindRoot
            },
            (Provision::FindRoot, Reply::Text(root)) => Provision::LookForScript {
                script: join_path(root.as_str(), artifact.script()),
            },
            (Provision::LookForScript { script }, Reply::Holds(there)) => if there {
                Provision::RunScript { script }
            } else {
                Provision::Failed(
                    Failure::refused(
                        artifact.title().to_owned().concat(" not found at ").concat(
                            script.as_str(),
                        ).as_str(),
                    ),
                )
            },
            (Provision::RunScript { .. }, Reply::Holds(succeeded)) => if succeeded {
                Provision::Present
            } else {
                Provision::Failed(
                    Failure::refused(artifact.title().to_owned().concat(" failed").as_str()),
                )
            },
            (Provision::RunScript { .. }, Reply::Failed(reason)) => Provision::Failed(
                Failure::told(artifact.unrun_text(), reason),
            ),
            (_, Reply::Stopped(failure)) => Provision::Failed(failure),
            (state, _) => state,
        }
    }
}

/// An artifact that is there is left alone: no script is looked for or run.
pub proof fn present_artifacts_are_kept(artifact: Artifact, next: Provision)
    requires
        Provision::Look.leads_to(Reply::Holds(true), artifact, next),
    ensures
        next == Provision::Present,
        forall|reply: Reply, target: Seq<char>| !(#[trigger] answers(reply, next.asks(target))),
{
}

/// The search for the root of the project: the directory with its manifest.
#[derive(Debug)]
pub enum RootSearch {
    /// The path of the running program is asked for.
    AskExecutable,
    /// It is looked for the manifest here; so many more parents may be tried.
    Look { dir: String, left: u8 },
    /// The current directory is asked for.
    AskDirectory,
    /// It is looked for the manifest there.
    LookHere { dir: String },
    /// This is the root.
    Found(String),
    /// There is no root.
    Failed(Failure),
}

/// Begins to search for the root of the project.
pub fn project_root() -> (r: RootSearch)
    ensures
        r == RootSearch::AskExecutable,
{
    RootSearch::AskExecutable
}

/// The manifest in a directory.
pub open spec fn manifest_path(dir: Seq<char>) -> Seq<char> {
    joined_path(dir, "Cargo.toml"@)
}

impl RootSearch {
    /// What is asked for.
    pub open spec fn asks(self) -> BuildActionText {
        match self {
            RootSearch::AskExecutable => BuildActionText::AskExecutable,
            RootSearch::Look { dir, .. } | RootSearch::LookHere { dir } => BuildActionText::Exists(
                manifest_path(dir@),
            ),
            RootSearch::AskDirectory => BuildActionText::AskDirectory,
            RootSearch::Found(_) | RootSearch::Failed(_) => BuildActionText::Stop,
        }
    }

    /// What is asked for.
    pub fn action(&self) -> (r: BuildAction)
        ensures
            r@ == self.asks(),
    {
        match self {
            RootSearch::AskExecutable => BuildAction::AskExecutable,
            RootSearch::Look { dir, .. } => BuildAction::Exists(
                join_path(dir.as_str(), "Cargo.toml"),
            ),
            RootSearch::LookHere { dir } => BuildAction::Exists(
                join_path(dir.as_str(), "Cargo.toml"),
            ),
            RootSearch::AskDirectory => BuildAction::AskDirectory,
            RootSearch::Found(_) | RootSearch::Failed(_) => BuildAction::Stop,
        }
    }

    /// Whether this is the given failure.
    pub open spec fn is_failure(self, failure: FailureText) -> bool {
        self matches RootSearch::Failed(held) && held@ == failure
    }

    /// What a reply leads to. From the program's directory, up to four further
    /// parents are tried, and then the current directory.
    pub open spec fn leads_to(self, reply: Reply, next: RootSearch) -> bool {
        match (self, reply) {
            (RootSearch::AskExecutable, Reply::Text(program)) => {
                next matches RootSearch::Look { dir, left } && dir@ == parent_path(program@)
                    && left == 4
            },
            (RootSearch::AskExecutable, Reply::Failed(reason)) => next.is_failure(
                told("Failed to get executable path"@, reason@),
            ),
            (RootSearch::Look { dir, left }, Reply::Holds(there)) => if there {
                next == RootSearch::Found(dir)
            } else if left == 0 {
                next == RootSearch::AskDirectory
            } else {
                next matches RootSearch::Look { dir: parent, left: fewer } && parent@
                    == parent_path(dir@) && fewer == left - 1
            },
            (RootSearch::AskDirectory, Reply::Text(dir)) => next == (RootSearch::LookHere { dir }),
            (RootSearch::AskDirectory, Reply::Failed(reason)) => next.is_failure(
                told("Failed to get current directory"@, reason@),
            ),
            (RootSearch::LookHere { dir }, Reply::Holds(there)) => if there {
                next == RootSearch::Found(dir)
            } else {
                next.is_failure(
                    refused("Could not locate project root (directory containing Cargo.toml)"@),
                )
            },
            _ => next == self,
        }
    }

    /// Goes on with a reply.
    pub fn next(self, reply: Reply) -> (r: RootSearch)
        requires
            answers(reply, self.asks()),
        ensures
            self.leads_to(reply, r),
    {
        match (self, reply) {
            (RootSearch::AskExecutable, Reply::Text(program)) => RootSearch::Look {
                dir: parent_of(program.as_str()),
                left: 4,
            },
            (RootSearch::AskExecutable, Reply::Failed(reason)) => RootSearch::Failed(
                Failure::told("Failed to get executable path", reason),
            ),
            (RootSearch::Look { dir, left }, Reply::Holds(there)) => if there {
                RootSearch::Found(dir)
            } else if left == 0 {
                RootSearch::AskDirectory
            } else {
                RootSearch::Look { dir: parent_of(dir.as_str()), left: left - 1 }
            },
            (RootSearch::AskDirectory, Reply::Text(dir)) => RootSearch::LookHere { dir },
            (RootSearch::AskDirectory, Reply::Failed(reason)) => RootSearch::Failed(
                Failure::told("Failed to get current directory", reason),
            ),
            (RootSearch::LookHere { dir }, Reply::Holds(there)) => if there {
                RootSearch::Found(dir)
            } else {
                RootSearch::Failed(
                    Failure::refused(
                        "Could not locate project root (directory containing Cargo.toml)",
                    ),
                )
            },
            (state, _) => state,
        }
    }

    /// How many replies are needed at most.
    pub open spec fn remaining(self) -> nat {
        match self {
            RootSearch::AskExecutable => 8,
            RootSearch::Look { left, .. } => (left + 3) as nat,
            RootSearch::AskDirectory => 2,
            RootSearch::LookHere { .. } => 1,
            RootSearch::Found(_) | RootSearch::Failed(_) => 0,
        }
    }
}

/// Each reply brings the end of a search nearer.
pub proof fn root_search_ends(search: RootSearch, reply: Reply, next: RootSearch)
    requires
        answers(reply, search.asks()),
        search.leads_to(reply, next),
    ensures
        next.remaining() < search.remaining(),
{
}

/// The root that is found is a directory in which the manifest was just found.
pub proof fn found_root_has_a_manifest(search: RootSearch, reply: Reply, dir: String)
    requires
        answers(reply, search.asks()),
        search.leads_to(reply, RootSearch::Found(dir)),
    ensures
        search.asks() == BuildActionText::Exists(manifest_path(dir@)),
        reply == Reply::Holds(true),
{
}

/// The `n`th parent of a path.
pub open spec fn ancestor(path: Seq<char>, n: nat) -> Seq<char>
    decreases n,
{
    if n == 0 {
        path
    } else {
        parent_path(ancestor(path, (n - 1) as nat))
    }
}

/// A course of a search: the states that it passes, and the replies that lead
/// from each to the next.
pub open spec fn is_search(states: Seq<RootSearch>, replies: Seq<Reply>) -> bool {
    &&& states.len() == replies.len() + 1
    &&& states[0] == RootSearch::AskExecutable
    &&& forall|i: int| 0 <= i < replies.len() ==> #[trigger] is_search_step(states, replies, i)
}

/// Whether one reply of a search answers what was asked for, and leads to the
/// next state.
pub open spec fn is_search_step(states: Seq<RootSearch>, replies: Seq<Reply>, i: int) -> bool {
    &&& answers(replies[i], states[i].asks())
    &&& states[i].leads_to(replies[i], states[i + 1])
}

/// Of the directories above the program, the first five are tried, each one
/// once and from the nearest on.
pub proof fn five_parents_are_tried(states: Seq<RootSearch>, replies: Seq<Reply>, at: int)
    requires
        is_search(states, replies),
        0 <= at < states.len(),
        states[at] is Look,
    ensures
        1 <= at <= 5,
        states[at]->Look_left == 5 - at,
        replies[0] matches Reply::Text(program) && states[at]->Look_dir@ == ancestor(
            program@,
            at as nat,
        ),
    decreases at,
{
    assert(is_search_step(states, replies, at - 1));
    if states[at - 1] is Look {
        five_parents_are_tried(states, replies, at - 1);
    } else {
        assert(states[at - 1] is AskExecutable);
        if at - 1 > 0 {
            assert(is_search_step(states, replies, at - 2));
        }
        assert(replies[0] is Text);
        assert(ancestor(replies[0]->Text_0@, 0) == replies[0]->Text_0@);
    }
}

} // verus!
