//! Putting the tunnel program into the gateway VM: the latest release, checked
//! against the digest that was published with it.
use vstd::prelude::*;

use crate::command::{https_args, inherits_no_proxy, Cmd, CmdText};
use crate::digest::{sha256, Sha256Hash};
use crate::effects::{answers, Action, ActionText, Reply};
use crate::failure::{refused, told, Failure, FailureText};
use crate::gateway_commands::{
    asset_cmd, asset_cmd_text, has_mihomo_cmd, has_mihomo_cmd_text, install_mihomo_cmd,
    install_mihomo_cmd_text, release_cmd, release_cmd_text,
};
use crate::path_text::{join_path, joined_path};
use crate::release::{choose_asset, chosen_asset, listed_assets, read_release};
use crate::scripts::Processor;

verus! {

/// How far the tunnel program is installed.
#[derive(Debug)]
pub enum MihomoInstall {
    /// It is looked for in the gateway VM.
    Look,
    /// The latest release is asked for.
    QueryRelease,
    /// A directory for the download is created.
    MakeDirectory { url: String, digest: Sha256Hash },
    /// The archive is downloaded.
    Download { url: String, digest: Sha256Hash, dir: String },
    /// The archive is read.
    ReadArchive { digest: Sha256Hash, dir: String },
    /// The file for the program is created.
    CreateOutput { dir: String },
    /// The archive is unpacked.
    Unpack { dir: String },
    /// The program is read.
    ReadBinary { dir: String },
    /// The program is handed to the gateway VM.
    Send { binary: Vec<u8> },
    /// The gateway VM has the program.
    Installed,
    /// The program could not be installed.
    Failed(Failure),
}

/// The path of the archive in the directory for the download.
pub open spec fn archive_path(dir: Seq<char>) -> Seq<char> {
    joined_path(dir, "mihomo.gz"@)
}

/// The path of the program in the directory for the download.
pub open spec fn binary_path(dir: Seq<char>) -> Seq<char> {
    joined_path(dir, "mihomo"@)
}

/// Unpacks an archive.
pub open spec fn gunzip_text(archive: Seq<char>) -> CmdText {
    CmdText { program: "gzip"@, args: seq!["-dc"@, archive], env_removed: seq![], stdin: None }
}

/// The command that unpacks an archive to its output.
pub fn gunzip(archive: &str) -> (r: Cmd)
    ensures
        r@ == gunzip_text(archive@),
{
    let cmd = Cmd {
        program: "gzip".to_owned(),
        args: Vec::new(),
        env_removed: Vec::new(),
        stdin: None,
    };
    let r = cmd.arg("-dc").arg(archive);
    proof {
        assert(r@ =~~= gunzip_text(archive@));
    }
    r
}

/// The asset to install, given what was printed of the latest release.
pub open spec fn released_asset(output: Seq<char>, processor: Processor) -> Result<
    (Seq<char>, Seq<u8>),
    FailureText,
> {
    match listed_assets(output) {
        Ok(assets) => chosen_asset(assets, processor),
        Err(failure) => Err(failure),
    }
}

/// Chooses the asset to install, given what was printed of the latest release.
pub fn release_asset(output: &str, processor: Processor) -> (r: Result<
    (String, Sha256Hash),
    Failure,
>)
    ensures
        match r {
            Ok((url, digest)) => released_asset(output@, processor) == Ok::<
                (Seq<char>, Seq<u8>),
                FailureText,
            >((url@, digest@)),
            Err(failure) => released_asset(output@, processor) == Err::<
                (Seq<char>, Seq<u8>),
                FailureText,
            >(failure@),
        },
{
    match read_release(output) {
        Ok(assets) => choose_asset(&assets, processor),
        Err(failure) => Err(failure),
    }
}

/// Begins to install the tunnel program.
pub fn ensure_mihomo_binary() -> (r: MihomoInstall)
    ensures
        r == MihomoInstall::Look,
{
    MihomoInstall::Look
}

impl MihomoInstall {
    /// What is asked for.
    pub open spec fn asks(self) -> ActionText {
        match self {
            MihomoInstall::Look => ActionText::Probe(has_mihomo_cmd_text()),
            MihomoInstall::QueryRelease => ActionText::Capture(release_cmd_text()),
            MihomoInstall::MakeDirectory { .. } => ActionText::MakeTemporaryDirectory,
            MihomoInstall::Download { url, digest, dir } => ActionText::Run(
                asset_cmd_text(url@, archive_path(dir@)),
            ),
            MihomoInstall::ReadArchive { digest, dir } => ActionText::ReadBytes(
                archive_path(dir@),
            ),
            MihomoInstall::CreateOutput { dir } => ActionText::CreateFile(binary_path(dir@)),
            MihomoInstall::Unpack { dir } => ActionText::Unpack(
                gunzip_text(archive_path(dir@)),
                binary_path(dir@),
            ),
            MihomoInstall::ReadBinary { dir } => ActionText::ReadBytes(binary_path(dir@)),
            MihomoInstall::Send { binary } => ActionText::Run(install_mihomo_cmd_text(binary@)),
            MihomoInstall::Installed | MihomoInstall::Failed(_) => ActionText::Stop,
        }
    }

    /// What is asked for.
    pub fn action(&self) -> (r: Action)
        ensures
            r@ == self.asks(),
    {
        match self {
            MihomoInstall::Look => Action::Probe(has_mihomo_cmd()),
            MihomoInstall::QueryRelease => Action::Capture(release_cmd()),
            MihomoInstall::MakeDirectory { .. } => Action::MakeTemporaryDirectory,
            MihomoInstall::Download { url, digest, dir } => Action::Run(
                asset_cmd(url.as_str(), join_path(dir.as_str(), "mihomo.gz").as_str()),
            ),
            MihomoInstall::ReadArchive { digest, dir } => Action::ReadBytes(
                join_path(dir.as_str(), "mihomo.gz"),
            ),
            MihomoInstall::CreateOutput { dir } => Action::CreateFile(
                join_path(dir.as_str(), "mihomo"),
            ),
            MihomoInstall::Unpack { dir } => Action::Unpack(
                gunzip(join_path(dir.as_str(), "mihomo.gz").as_str()),
                join_path(dir.as_str(), "mihomo"),
            ),
            MihomoInstall::ReadBinary { dir } => Action::ReadBytes(
                join_path(dir.as_str(), "mihomo"),
            ),
            MihomoInstall::Send { binary } => Action::Run(
                install_mihomo_cmd(vstd::slice::slice_to_vec(binary.as_slice())),
            ),
            MihomoInstall::Installed | MihomoInstall::Failed(_) => Action::Stop,
        }
    }

    /// Whether this is the given failure.
    pub open spec fn is_failure(self, failure: FailureText) -> bool {
        self matches MihomoInstall::Failed(held) && held@ == failure
    }

    /// What a reply leads to.
    pub open spec fn leads_to(
        self,
        reply: Reply,
        processor: Processor,
        next: MihomoInstall,
    ) -> bool {
        match (self, reply) {
            (MihomoInstall::Look, Reply::Holds(there)) => next == if there {
                MihomoInstall::Installed
            } else {
                MihomoInstall::QueryRelease
            },
            (MihomoInstall::QueryRelease, Reply::Text(output)) => match released_asset(
                output@,
                processor,
            ) {
                Ok((wanted_url, wanted_digest)) => next matches MihomoInstall::MakeDirectory {
                    url,
                    digest,
                } && url@ == wanted_url && digest@ == wanted_digest,
                Err(failure) => next.is_failure(failure),
            },
            (MihomoInstall::QueryRelease, Reply::Failed(reason)) => next.is_failure(
                told("Failed to query the latest Mihomo release"@, reason@),
            ),
            (MihomoInstall::MakeDirectory { url, digest }, Reply::Text(dir)) => next == (
            MihomoInstall::Download { url, digest, dir }),
            (MihomoInstall::MakeDirectory { .. }, Reply::Failed(reason)) => next.is_failure(
                told("Failed to create Mihomo download directory"@, reason@),
            ),
            (MihomoInstall::Download { url, digest, dir }, Reply::Done) => next == (
            MihomoInstall::ReadArchive { digest, dir }),
            (MihomoInstall::Download { .. }, Reply::Failed(reason)) => next.is_failure(
                told("Failed to download Mihomo"@, reason@),
            ),
            (MihomoInstall::ReadArchive { digest, dir }, Reply::Bytes(bytes)) => if sha256(bytes@)
                == digest@ {
                next == (MihomoInstall::CreateOutput { dir })
            } else {
                next.is_failure(refused("Mihomo download failed SHA-256 verification"@))
            },
            (MihomoInstall::ReadArchive { .. }, Reply::Failed(reason)) => next.is_failure(
                told("Failed to read downloaded Mihomo archive"@, reason@),
            ),
            (MihomoInstall::CreateOutput { dir }, Reply::Done) => next == (MihomoInstall::Unpack {
                dir,
            }),
            (MihomoInstall::CreateOutput { dir }, Reply::Failed(reason)) => next.is_failure(
                told("Failed to create "@ + binary_path(dir@), reason@),
            ),
            (MihomoInstall::Unpack { dir }, Reply::Holds(unpacked)) => if unpacked {
                next == (MihomoInstall::ReadBinary { dir })
            } else {
                next.is_failure(refused("gzip failed while unpacking Mihomo"@))
            },
            (MihomoInstall::Unpack { .. }, Reply::Failed(reason)) => next.is_failure(
                told("Failed to run gzip"@, reason@),
            ),
            (MihomoInstall::ReadBinary { .. }, Reply::Bytes(binary)) => next == (
            MihomoInstall::Send { binary }),
            (MihomoInstall::ReadBinary { .. }, Reply::Failed(reason)) => next.is_failure(
                told("Failed to read decompressed Mihomo binary"@, reason@),
            ),
            (MihomoInstall::Send { .. }, Reply::Done) => next == MihomoInstall::Installed,
            (MihomoInstall::Send { .. }, Reply::Failed(reason)) => next.is_failure(
                told("Failed to install Mihomo in gateway VM"@, reason@),
            ),
            _ => next == self,
        }
    }

    /// Goes on with a reply.
    pub fn next(self, reply: Reply, processor: Processor) -> (r: MihomoInstall)
        requires
            answers(reply, self.asks()),
        ensures
            self.leads_to(reply, processor, r),
    {
        match (self, reply) {
            (MihomoInstall::Look, Reply::Holds(there)) => if there {
                MihomoInstall::Installed
            } else {
                MihomoInstall::QueryRelease
            },
            (MihomoInstall::QueryRelease, Reply::Text(output)) => match release_asset(
                output.as_str(),
                processor,
            ) {
                Ok((url, digest)) => MihomoInstall::MakeDirectory { url, digest },
                Err(failure) => MihomoInstall::Failed(failure),
            },
            (MihomoInstall::QueryRelease, Reply::Failed(reason)) => MihomoInstall::Failed(
                Failure::told("Failed to query the latest Mihomo release", reason),
            ),
            (MihomoInstall::MakeDirectory { url, digest }, Reply::Text(dir)) =>
            MihomoInstall::Download { url, digest, dir },
            (MihomoInstall::MakeDirectory { .. }, Reply::Failed(reason)) => MihomoInstall::Failed(
                Failure::told("Failed to create Mihomo download directory", reason),
            ),
            (MihomoInstall::Download { url, digest, dir }, Reply::Done) =>
            MihomoInstall::ReadArchive { digest, dir },
            (MihomoInstall::Download { .. }, Reply::Failed(reason)) => MihomoInstall::Failed(
                Failure::told("Failed to download Mihomo", reason),
            ),
            (MihomoInstall::ReadArchive { digest, dir }, Reply::Bytes(bytes)) => if Sha256Hash::of(
                bytes.as_slice(),
            ).same(&digest) {
                MihomoInstall::CreateOutput { dir }
            } else {
                MihomoInstall::Failed(
                    Failure::refused("Mihomo download failed SHA-256 verification"),
                )
            },
            (MihomoInstall::ReadArchive { .. }, Reply::Failed(reason)) => MihomoInstall::Failed(
                Failure::told("Failed to read downloaded Mihomo archive", reason),
            ),
            (MihomoInstall::CreateOutput { dir }, Reply::Done) => MihomoInstall::Unpack { dir },
            (MihomoInstall::CreateOutput { dir }, Reply::Failed(reason)) => MihomoInstall::Failed(
                Failure::told(
                    "Failed to create ".to_owned().concat(
                        join_path(dir.as_str(), "mihomo").as_str(),
                    ).as_str(),
                    reason,
                ),
            ),
            (MihomoInstall::Unpack { dir }, Reply::Holds(unpacked)) => if unpacked {
                MihomoInstall::ReadBinary { dir }
            } else {
                MihomoInstall::Failed(Failure::refused("gzip failed while unpacking Mihomo"))
            },
            (MihomoInstall::Unpack { .. }, Reply::Failed(reason)) => MihomoInstall::Failed(
                Failure::told("Failed to run gzip", reason),
            ),
            (MihomoInstall::ReadBinary { .. }, Reply::Bytes(binary)) => MihomoInstall::Send {
                binary,
            },
            (MihomoInstall::ReadBinary { .. }, Reply::Failed(reason)) => MihomoInstall::Failed(
                Failure::told("Failed to read decompressed Mihomo binary", reason),
            ),
            (MihomoInstall::Send { .. }, Reply::Done) => MihomoInstall::Installed,
            (MihomoInstall::Send { .. }, Reply::Failed(reason)) => MihomoInstall::Failed(
                Failure::told("Failed to install Mihomo in gateway VM", reason),
            ),
            (state, _) => state,
        }
    }

    /// How many replies are needed at most.
    pub open spec fn remaining(self) -> nat {
        match self {
            MihomoInstall::Look => 9,
            MihomoInstall::QueryRelease => 8,
            MihomoInstall::MakeDirectory { .. } => 7,
            MihomoInstall::Download { .. } => 6,
            MihomoInstall::ReadArchive { .. } => 5,
            MihomoInstall::CreateOutput { .. } => 4,
            MihomoInstall::Unpack { .. } => 3,
            MihomoInstall::ReadBinary { .. } => 2,
            MihomoInstall::Send { .. } => 1,
            MihomoInstall::Installed | MihomoInstall::Failed(_) => 0,
        }
    }
}

/// Each reply brings the end nearer.
pub proof fn mihomo_install_ends(
    state: MihomoInstall,
    reply: Reply,
    processor: Processor,
    next: MihomoInstall,
)
    requires
        answers(reply, state.asks()),
        state.leads_to(reply, processor, next),
    ensures
        next.remaining() < state.remaining(),
{
}

/// A course of the installation: the states that it passes, and the replies
/// that lead from each to the next.
pub open spec fn is_course(
    states: Seq<MihomoInstall>,
    replies: Seq<Reply>,
    processor: Processor,
) -> bool {
    &&& states.len() == replies.len() + 1
    &&& states[0] == MihomoInstall::Look
    &&& forall|i: int|
        0 <= i < replies.len() ==> #[trigger] is_step(states, replies, processor, i)
}

/// Whether one reply of a course answers what was asked for, and leads to the
/// next state.
pub open spec fn is_step(
    states: Seq<MihomoInstall>,
    replies: Seq<Reply>,
    processor: Processor,
    i: int,
) -> bool {
    &&& answers(replies[i], states[i].asks())
    &&& states[i].leads_to(replies[i], processor, states[i + 1])
}

/// Whether the archive that was read at some point of a course has the digest
/// that was published with the chosen asset.
pub open spec fn verified_at(
    states: Seq<MihomoInstall>,
    replies: Seq<Reply>,
    processor: Processor,
    query: int,
    read: int,
) -> bool {
    &&& 0 <= query < read < replies.len()
    &&& states[query] is QueryRelease
    &&& states[read] is ReadArchive
    &&& replies[query] matches Reply::Text(output)
    &&& released_asset(output@, processor) matches Ok((url, digest))
    &&& replies[read] matches Reply::Bytes(archive)
    &&& sha256(archive@) == digest
}

/// The program is sent to the gateway VM only where the archive that it was
/// unpacked from has the digest that was published with the release.
pub proof fn only_verified_programs_are_sent(
    states: Seq<MihomoInstall>,
    replies: Seq<Reply>,
    processor: Processor,
    at: int,
)
    requires
        is_course(states, replies, processor),
        0 <= at < states.len(),
        states[at] is Send,
    ensures
        exists|query: int, read: int|
            read < at && #[trigger] verified_at(states, replies, processor, query, read),
{
    assert(is_step(states, replies, processor, at - 1));
    assert(states[at - 1] is ReadBinary);
    assert(is_step(states, replies, processor, at - 2));
    assert(states[at - 2] is Unpack);
    assert(is_step(states, replies, processor, at - 3));
    assert(states[at - 3] is CreateOutput);
    assert(is_step(states, replies, processor, at - 4));
    assert(states[at - 4] is ReadArchive);
    assert(is_step(states, replies, processor, at - 5));
    assert(states[at - 5] is Download);
    assert(is_step(states, replies, processor, at - 6));
    assert(states[at - 6] is MakeDirectory);
    assert(is_step(states, replies, processor, at - 7));
    assert(states[at - 7] is QueryRelease);
    assert(verified_at(states, replies, processor, at - 7, at - 4));
}

/// No command that reaches out, or into the gateway VM, inherits a variable that
/// configures a proxy, and every download keeps to HTTPS.
pub proof fn mihomo_commands_are_direct(state: MihomoInstall)
    ensures
        match state.asks() {
            ActionText::Probe(cmd) | ActionText::Run(cmd) | ActionText::Capture(cmd) => {
                &&& inherits_no_proxy(cmd)
                &&& cmd.program == "curl"@ ==> https_args().is_prefix_of(cmd.args)
            },
            _ => true,
        },
{
    reveal_strlit("curl");
    reveal_strlit("limactl");
    assert("curl"@.len() != "limactl"@.len());
    match state {
        MihomoInstall::QueryRelease => {
            let args = release_cmd_text().args;
            assert(args.subrange(0, https_args().len() as int) =~= https_args());
        },
        MihomoInstall::Download { url, digest, dir } => {
            let args = asset_cmd_text(url@, archive_path(dir@)).args;
            assert(args.subrange(0, https_args().len() as int) =~= https_args());
        },
        _ => {},
    }
}

} // verus!
