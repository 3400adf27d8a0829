//! What it takes to bring the gateway VM up and to put its program into it, call by
//! call.
use vstd::prelude::*;

use crate::deployment_laws::{below, gateway_files_lie_below_the_data_directory};
use crate::digest::{digest_of_text, sha256, Sha256Hash};
use crate::effects::{Action, Reply};
use crate::failure::Failure;
use crate::gateway_vm::{ensure_gateway_vm, VmSetup};
use crate::guest_laws::{failed_for, has_no_proxy, runs_in_the_gateway};
use crate::json::{json_parse, JsonTree};
use crate::lines::lines;
use crate::mihomo::{ensure_mihomo_binary, release_asset, MihomoInstall};
use crate::path_text::{is_gz, joined_path};
use crate::release::{asset_in, assets_in, is_program_for};
use crate::scripts::{
    gateway_template, Processor, GATEWAY_TEMPLATE_AARCH64, GATEWAY_TEMPLATE_X86_64,
};
use crate::yaml::lemma_is_first_index;

verus! {

/// The gateway VM is reached by running nothing in it, listed, started by its name,
/// and created under that name from the template that was written for it. The
/// template is that of the host's processor, and its directory is created first.
pub proof fn gateway_vm_is_reached_started_or_created(
    state: &VmSetup,
    data_dir: &str,
    processor: Processor,
    action: Action,
)
    requires
        call_ensures(VmSetup::action, (state, data_dir, processor), action),
    ensures
        match *state {
            VmSetup::Reach | VmSetup::ReachAgain => action matches Action::Probe(cmd)
                && cmd@.stdin is None && runs_in_the_gateway(cmd@, seq!["true"@]),
            VmSetup::List => action matches Action::Capture(cmd) && {
                &&& cmd@.program == "limactl"@
                &&& cmd@.args == seq!["list"@, "--format"@, "{{.Name}}"@]
                &&& has_no_proxy(cmd@)
                &&& cmd@.stdin is None
            },
            VmSetup::Start => action matches Action::Run(cmd) && {
                &&& cmd@.program == "limactl"@
                &&& cmd@.args == seq!["start"@, "coop-egress"@]
                &&& has_no_proxy(cmd@)
                &&& cmd@.stdin is None
            },
            VmSetup::MakeDirectory => action matches Action::MakeDirectory(dir) && dir@ == below(
                data_dir@,
                "private-egress"@,
            ),
            VmSetup::WriteTemplate => action matches Action::WriteFile(path, text) && {
                &&& path@ == below(data_dir@, "private-egress/"@ + "gateway.yaml"@)
                &&& text@ == match processor {
                    Processor::Aarch64 => GATEWAY_TEMPLATE_AARCH64@,
                    Processor::X86_64 => GATEWAY_TEMPLATE_X86_64@,
                }
            },
            VmSetup::Create => action matches Action::Run(cmd) && {
                &&& cmd@.program == "limactl"@
                &&& cmd@.args == seq![
                    "start"@,
                    below(data_dir@, "private-egress/"@ + "gateway.yaml"@),
                    "--name="@ + "coop-egress"@,
                    "--tty=false"@,
                ]
                &&& has_no_proxy(cmd@)
                &&& cmd@.stdin is None
            },
            VmSetup::Ready | VmSetup::Failed(_) => action is Stop,
        },
{
    gateway_files_lie_below_the_data_directory(data_dir@, "gateway.yaml"@);
    match action {
        Action::Probe(cmd) => {
            assert(cmd@.args =~= seq!["shell"@, "coop-egress"@, "--"@] + seq!["true"@]);
        },
        _ => {},
    }
}

/// A VM that can be reached is left alone. Else the one that is listed under its name
/// is started, or, where none is, created; and then it must be reachable.
pub proof fn gateway_vm_is_created_once(
    data_dir: &str,
    processor: Processor,
    first: VmSetup,
    reply: Reply,
    next: VmSetup,
)
    requires
        call_ensures(ensure_gateway_vm, (), first),
    ensures
        first is Reach,
        call_ensures(VmSetup::next, (VmSetup::Reach, reply, data_dir, processor), next) ==> {
            &&& reply == Reply::Holds(true) ==> next is Ready
            &&& reply == Reply::Holds(false) ==> next is List
        },
        call_ensures(VmSetup::next, (VmSetup::List, reply, data_dir, processor), next) ==> (
        reply matches Reply::Text(names) ==> {
            &&& lines(names@).contains("coop-egress"@) ==> next is Start
            &&& !lines(names@).contains("coop-egress"@) ==> next is MakeDirectory
        }),
        reply is Done ==> {
            &&& call_ensures(VmSetup::next, (VmSetup::Start, reply, data_dir, processor), next)
                ==> next is ReachAgain
            &&& call_ensures(
                VmSetup::next,
                (VmSetup::MakeDirectory, reply, data_dir, processor),
                next,
            ) ==> next is WriteTemplate
            &&& call_ensures(
                VmSetup::next,
                (VmSetup::WriteTemplate, reply, data_dir, processor),
                next,
            ) ==> next is Create
            &&& call_ensures(VmSetup::next, (VmSetup::Create, reply, data_dir, processor), next)
                ==> next is ReachAgain
        },
        call_ensures(VmSetup::next, (VmSetup::ReachAgain, reply, data_dir, processor), next) ==> {
            &&& reply == Reply::Holds(true) ==> next is Ready
            &&& reply == Reply::Holds(false) ==> (next matches VmSetup::Failed(failure)
                    && failure.cause is Nothing && failure.message@
                    == "private egress gateway did not become ready"@)
        },
{
}

/// Whatever cannot be done is what bringing the VM up fails for.
pub proof fn gateway_vm_fails_for_the_reason_given(
    state: VmSetup,
    reason: String,
    data_dir: &str,
    processor: Processor,
    next: VmSetup,
)
    requires
        call_ensures(VmSetup::next, (state, Reply::Failed(reason), data_dir, processor), next),
    ensures
        match state {
            VmSetup::List => next matches VmSetup::Failed(failure) && failed_for(
                failure,
                "Failed to list Lima instances"@,
                reason@,
            ),
            VmSetup::Start => next matches VmSetup::Failed(failure) && failed_for(
                failure,
                "Failed to start the private egress gateway VM"@,
                reason@,
            ),
            VmSetup::MakeDirectory => next matches VmSetup::Failed(failure) && failed_for(
                failure,
                "Failed to create "@ + below(data_dir@, "private-egress"@),
                reason@,
            ),
            VmSetup::WriteTemplate => next matches VmSetup::Failed(failure)
                && failure.cause is Nothing && failure.message@
                == reason@,
            VmSetup::Create => next matches VmSetup::Failed(failure) && failed_for(
                failure,
                "Failed to create the private egress gateway VM"@,
                reason@,
            ),
            _ => true,
        },
{
    gateway_files_lie_below_the_data_directory(data_dir@, "gateway.yaml"@);
}

/// The template is chosen by the processor.
pub proof fn templates_are_those_of_the_processor(processor: Processor, template: &'static str)
    requires
        call_ensures(gateway_template, (processor,), template),
    ensures
        processor is Aarch64 ==> template@ == GATEWAY_TEMPLATE_AARCH64@,
        processor is X86_64 ==> template@ == GATEWAY_TEMPLATE_X86_64@,
{
}

/// The arguments that keep curl on HTTPS, even where it is redirected, and make it
/// retry, follow redirects and report failures.
pub open spec fn https_download(rest: Seq<Seq<char>>) -> Seq<Seq<char>> {
    seq![
        "--proto"@,
        "=https"@,
        "--proto-redir"@,
        "=https"@,
        "--retry"@,
        "3"@,
        "--retry-all-errors"@,
        "--retry-delay"@,
        "1"@,
        "--fail"@,
        "--silent"@,
        "--show-error"@,
        "--location"@,
    ] + rest
}

/// The program is looked for where it is installed. The release is asked of its
/// project over HTTPS, and so is the archive of the URL that was chosen. What was
/// downloaded is what is read and unpacked, what was unpacked is what is read then,
/// and what was read is what the gateway VM is given.
pub proof fn program_is_fetched_unpacked_and_installed(state: &MihomoInstall, action: Action)
    requires
        call_ensures(MihomoInstall::action, (state,), action),
    ensures
        match *state {
            MihomoInstall::Look => action matches Action::Probe(cmd) && cmd@.stdin is None
                && runs_in_the_gateway(
                cmd@,
                seq!["test"@, "-x"@, "/usr/local/bin/mihomo"@],
            ),
            MihomoInstall::QueryRelease => action matches Action::Capture(cmd) && {
                &&& cmd@.program == "curl"@
                &&& cmd@.args == https_download(
                    seq!["https://api.github.com/repos/MetaCubeX/mihomo/releases/latest"@],
                )
                &&& has_no_proxy(cmd@)
                &&& cmd@.stdin is None
            },
            MihomoInstall::MakeDirectory { .. } => action is MakeTemporaryDirectory,
            MihomoInstall::Download { url, dir, .. } => action matches Action::Run(cmd) && {
                &&& cmd@.program == "curl"@
                &&& cmd@.args == https_download(
                    seq![url@, "--output"@, below(dir@, "mihomo.gz"@)],
                )
                &&& has_no_proxy(cmd@)
                &&& cmd@.stdin is None
            },
            MihomoInstall::ReadArchive { dir, .. } => action matches Action::ReadBytes(path)
                && path@ == below(dir@, "mihomo.gz"@),
            MihomoInstall::CreateOutput { dir } => action matches Action::CreateFile(path) && path@
                == below(dir@, "mihomo"@),
            MihomoInstall::Unpack { dir } => action matches Action::Unpack(cmd, path) && {
                &&& cmd@.program == "gzip"@
                &&& cmd@.args == seq!["-dc"@, below(dir@, "mihomo.gz"@)]
                &&& path@ == below(dir@, "mihomo"@)
            },
            MihomoInstall::ReadBinary { dir } => action matches Action::ReadBytes(path) && path@
                == below(dir@, "mihomo"@),
            MihomoInstall::Send { binary } => action matches Action::Run(cmd) && cmd@.stdin == Some(
                binary@,
            ) && runs_in_the_gateway(
                cmd@,
                seq![
                    "sudo"@,
                    "sh"@,
                    "-c"@,
                    "umask 022; cat > /usr/local/bin/mihomo && chmod 0755 /usr/local/bin/mihomo"@,
                ],
            ),
            MihomoInstall::Installed | MihomoInstall::Failed(_) => action is Stop,
        },
{
    reveal_strlit("/");
    match (*state, action) {
        (MihomoInstall::Look, Action::Probe(cmd)) => {
            assert(cmd@.args =~= seq!["shell"@, "coop-egress"@, "--"@] + seq![
                "test"@,
                "-x"@,
                "/usr/local/bin/mihomo"@,
            ]);
        },
        (MihomoInstall::QueryRelease, Action::Capture(cmd)) => {
            assert(cmd@.args =~= https_download(
                seq!["https://api.github.com/repos/MetaCubeX/mihomo/releases/latest"@],
            ));
        },
        (MihomoInstall::Download { url, dir, .. }, Action::Run(cmd)) => {
            lemma_below(dir@, "mihomo.gz"@);
            assert(cmd@.args =~= https_download(
                seq![url@, "--output"@, below(dir@, "mihomo.gz"@)],
            ));
        },
        (MihomoInstall::ReadArchive { dir, .. }, _) => {
            lemma_below(dir@, "mihomo.gz"@);
        },
        (MihomoInstall::CreateOutput { dir }, _) => {
            lemma_below(dir@, "mihomo"@);
        },
        (MihomoInstall::Unpack { dir }, Action::Unpack(cmd, _)) => {
            lemma_below(dir@, "mihomo.gz"@);
            lemma_below(dir@, "mihomo"@);
            assert(cmd@.args =~= seq!["-dc"@, below(dir@, "mihomo.gz"@)]);
        },
        (MihomoInstall::ReadBinary { dir }, _) => {
            lemma_below(dir@, "mihomo"@);
        },
        (MihomoInstall::Send { .. }, Action::Run(cmd)) => {
            assert(cmd@.args =~= seq!["shell"@, "coop-egress"@, "--"@] + seq![
                "sudo"@,
                "sh"@,
                "-c"@,
                "umask 022; cat > /usr/local/bin/mihomo && chmod 0755 /usr/local/bin/mihomo"@,
            ]);
        },
        _ => {},
    }
}

/// A path that is joined to a directory lies below it.
proof fn lemma_below(dir: Seq<char>, name: Seq<char>)
    ensures
        joined_path(dir, name) == below(dir, name),
{
    reveal_strlit("/");
    assert(joined_path(dir, name) =~= below(dir, name));
}

/// A program that is there is left alone; one that is not is taken from the release.
/// What is handed on from step to step is what was chosen and made before: the URL
/// and its digest, then the directory, then what was unpacked.
pub proof fn installation_keeps_what_was_chosen(
    processor: Processor,
    first: MihomoInstall,
    there: bool,
    looked: MihomoInstall,
    url: String,
    digest: Sha256Hash,
    dir: String,
    made: MihomoInstall,
    fetched: MihomoInstall,
    created: MihomoInstall,
    unpacked: bool,
    ran: MihomoInstall,
    binary: Vec<u8>,
    read: MihomoInstall,
    sent: MihomoInstall,
)
    requires
        call_ensures(ensure_mihomo_binary, (), first),
        call_ensures(MihomoInstall::next, (first, Reply::Holds(there), processor), looked),
        call_ensures(
            MihomoInstall::next,
            (MihomoInstall::MakeDirectory { url, digest }, Reply::Text(dir), processor),
            made,
        ),
        call_ensures(MihomoInstall::next, (made, Reply::Done, processor), fetched),
        call_ensures(
            MihomoInstall::next,
            (MihomoInstall::CreateOutput { dir }, Reply::Done, processor),
            created,
        ),
        call_ensures(MihomoInstall::next, (created, Reply::Holds(unpacked), processor), ran),
        call_ensures(
            MihomoInstall::next,
            (MihomoInstall::ReadBinary { dir }, Reply::Bytes(binary), processor),
            read,
        ),
        call_ensures(MihomoInstall::next, (read, Reply::Done, processor), sent),
    ensures
        looked == if there {
            MihomoInstall::Installed
        } else {
            MihomoInstall::QueryRelease
        },
        made == (MihomoInstall::Download { url, digest, dir }),
        fetched == (MihomoInstall::ReadArchive { digest, dir }),
        created == (MihomoInstall::Unpack { dir }),
        unpacked ==> ran == (MihomoInstall::ReadBinary { dir }),
        !unpacked ==> (ran matches MihomoInstall::Failed(failure)
            && failure.cause is Nothing && failure.message@
            == "gzip failed while unpacking Mihomo"@),
        read == (MihomoInstall::Send { binary }),
        sent is Installed,
{
}

/// An archive is unpacked exactly where its digest is the published one.
pub proof fn archives_are_unpacked_where_their_digest_fits(
    digest: Sha256Hash,
    dir: String,
    archive: Vec<u8>,
    processor: Processor,
    next: MihomoInstall,
)
    requires
        call_ensures(
            MihomoInstall::next,
            (MihomoInstall::ReadArchive { digest, dir }, Reply::Bytes(archive), processor),
            next,
        ),
    ensures
        sha256(archive@) == digest@ ==> next == (MihomoInstall::CreateOutput { dir }),
        sha256(archive@) != digest@ ==> (next matches MihomoInstall::Failed(failure)
                && failure.cause is Nothing && failure.message@
                == "Mihomo download failed SHA-256 verification"@),
{
}

/// Whatever cannot be done is what the installation fails for.
pub proof fn installation_fails_for_the_reason_given(
    state: MihomoInstall,
    reason: String,
    processor: Processor,
    next: MihomoInstall,
)
    requires
        call_ensures(MihomoInstall::next, (state, Reply::Failed(reason), processor), next),
    ensures
        match state {
            MihomoInstall::QueryRelease => next matches MihomoInstall::Failed(failure)
                && failed_for(failure, "Failed to query the latest Mihomo release"@, reason@),
            MihomoInstall::MakeDirectory { .. } => next matches MihomoInstall::Failed(failure)
                && failed_for(failure, "Failed to create Mihomo download directory"@, reason@),
            MihomoInstall::Download { .. } => next matches MihomoInstall::Failed(failure)
                && failed_for(failure, "Failed to download Mihomo"@, reason@),
            MihomoInstall::ReadArchive { .. } => next matches MihomoInstall::Failed(failure)
                && failed_for(failure, "Failed to read downloaded Mihomo archive"@, reason@),
            MihomoInstall::CreateOutput { dir } => next matches MihomoInstall::Failed(failure)
                && failed_for(failure, "Failed to create "@ + below(dir@, "mihomo"@), reason@),
            MihomoInstall::Unpack { .. } => next matches MihomoInstall::Failed(failure)
                && failed_for(failure, "Failed to run gzip"@, reason@),
            MihomoInstall::ReadBinary { .. } => next matches MihomoInstall::Failed(failure)
                && failed_for(failure, "Failed to read decompressed Mihomo binary"@, reason@),
            MihomoInstall::Send { .. } => next matches MihomoInstall::Failed(failure)
                && failed_for(failure, "Failed to install Mihomo in gateway VM"@, reason@),
            _ => true,
        },
{
    if let MihomoInstall::CreateOutput { dir } = state {
        lemma_below(dir@, "mihomo"@);
    }
}

/// The text under a name of a JSON object.
pub open spec fn text_under(value: JsonTree, name: Seq<char>) -> Option<Seq<char>> {
    match value {
        JsonTree::Object(members) => if members.dom().contains(name) {
            match members[name] {
                JsonTree::Text(text) => Some(text),
                _ => None,
            }
        } else {
            None
        },
        _ => None,
    }
}

/// The assets that the metadata of a release lists.
pub open spec fn assets_of(release: JsonTree) -> Option<Seq<JsonTree>> {
    match release {
        JsonTree::Object(members) => if members.dom().contains("assets"@) {
            match members["assets"@] {
                JsonTree::Array(list) => Some(list),
                _ => None,
            }
        } else {
            None
        },
        _ => None,
    }
}

/// Whether an asset is a compressed program for a processor: by how its name starts,
/// and by its extension.
pub open spec fn is_archive_for(asset: JsonTree, processor: Processor) -> bool {
    &&& text_under(asset, "name"@) matches Some(name)
    &&& (match processor {
        Processor::Aarch64 => "mihomo-linux-arm64-"@,
        Processor::X86_64 => "mihomo-linux-amd64-compatible-"@,
    }).is_prefix_of(name)
    &&& is_gz(name)
}

/// Whether the first asset for a processor stands at a place.
pub open spec fn is_first_archive(assets: Seq<JsonTree>, processor: Processor, at: int) -> bool {
    &&& 0 <= at < assets.len()
    &&& is_archive_for(assets[at], processor)
    &&& forall|j: int| 0 <= j < at ==> !is_archive_for(#[trigger] assets[j], processor)
}

/// The asset that is installed is the first one that is a compressed program for the
/// processor: from its download URL, and with the SHA-256 digest that was published
/// with it. Nothing is installed without such a URL and such a digest.
pub proof fn first_archive_is_chosen_with_its_digest(
    output: &str,
    processor: Processor,
    at: int,
    chosen: Result<(String, Sha256Hash), Failure>,
)
    requires
        call_ensures(release_asset, (output, processor), chosen),
        json_parse(output@) matches Some(release) && (assets_of(release) matches Some(assets)
            && is_first_archive(assets, processor, at)),
    ensures
        ({
            let asset = assets_of(json_parse(output@)->0)->0[at];
            let url = text_under(asset, "browser_download_url"@);
            let digest = text_under(asset, "digest"@);
            match chosen {
                Ok((from, hash)) => {
                    &&& url == Some(from@)
                    &&& digest matches Some(text)
                    &&& "sha256:"@.is_prefix_of(text)
                    &&& digest_of_text(text.skip(7)) == Some(hash@)
                },
                Err(failure) => {
                    ||| url is None
                        && failure.cause is Nothing && failure.message@
                        == "Mihomo asset has no download URL"@
                    ||| url is Some && !(digest matches Some(text) && "sha256:"@.is_prefix_of(text))
                            && failure.cause is Nothing && failure.message@
                            == "Mihomo asset has no GitHub SHA-256 digest"@
                    ||| url is Some && (digest matches Some(text) && "sha256:"@.is_prefix_of(text)
                        && digest_of_text(text.skip(7)) is None)
                            && failure.cause is Hex && failure.message@
                        == "Invalid Mihomo asset digest"@
                },
            }
        }),
{
    reveal_strlit("sha256:");
    let assets = assets_of(json_parse(output@)->0)->0;
    let texts = assets_in(json_parse(output@)->0)->0;
    assert(texts =~= Seq::new(assets.len(), |i: int| asset_in(assets[i])));
    let wanted = is_program_for(processor);
    assert forall|j: int| 0 <= j < assets.len() implies wanted(#[trigger] texts[j])
        == is_archive_for(assets[j], processor) by {}
    assert(wanted(texts[at]));
    assert forall|j: int| 0 <= j < at implies !wanted(#[trigger] texts[j]) by {
        assert(!is_archive_for(assets[j], processor));
    }
    lemma_is_first_index(texts, wanted, at);
}

/// Metadata that cannot be read, that lists no assets, or that lists none for the
/// processor gives nothing to install, and says so.
pub proof fn releases_without_an_archive_are_refused(
    output: &str,
    processor: Processor,
    chosen: Result<(String, Sha256Hash), Failure>,
)
    requires
        call_ensures(release_asset, (output, processor), chosen),
    ensures
        json_parse(output@) is None ==> (chosen matches Err(failure)
            && failure.cause is Json && failure.message@
            == "GitHub returned invalid Mihomo release metadata"@ && failure.cause is Json),
        json_parse(output@) matches Some(release) ==> {
            &&& assets_of(release) is None ==> (chosen matches Err(failure)
                && failure.cause is Nothing && failure.message@
                == "Mihomo release metadata has no assets"@)
            &&& assets_of(release) matches Some(assets) ==> ((forall|j: int|
                0 <= j < assets.len() ==> !is_archive_for(#[trigger] assets[j], processor)) ==> (
            chosen matches Err(failure)
                && failure.cause is Nothing && failure.message@ == "Mihomo release has no "@ + (
            match processor {
                Processor::Aarch64 => "mihomo-linux-arm64-"@,
                Processor::X86_64 => "mihomo-linux-amd64-compatible-"@,
            }) + "*.gz asset"@))
        },
{
    if let Some(release) = json_parse(output@) {
        if let Some(assets) = assets_of(release) {
            let texts = assets_in(release)->0;
            let wanted = is_program_for(processor);
            assert(texts =~= Seq::new(assets.len(), |i: int| asset_in(assets[i])));
            assert forall|j: int| 0 <= j < assets.len() implies wanted(#[trigger] texts[j])
                == is_archive_for(assets[j], processor) by {}
            if forall|j: int|
                0 <= j < assets.len() ==> !is_archive_for(#[trigger] assets[j], processor) {
                assert forall|j: int| 0 <= j < texts.len() implies !wanted(#[trigger] texts[j]) by {
                    assert(!is_archive_for(assets[j], processor));
                }
                lemma_is_first_index(texts, wanted, texts.len() as int);
            }
        }
    }
}

/// The asset that was chosen from the release is the one that is fetched.
pub proof fn chosen_archive_is_fetched(
    output: String,
    text: &str,
    processor: Processor,
    next: MihomoInstall,
    chosen: Result<(String, Sha256Hash), Failure>,
)
    requires
        call_ensures(
            MihomoInstall::next,
            (MihomoInstall::QueryRelease, Reply::Text(output), processor),
            next,
        ),
        text@ == output@,
        call_ensures(release_asset, (text, processor), chosen),
    ensures
        chosen matches Ok((from, hash)) ==> (next matches MihomoInstall::MakeDirectory {
            url,
            digest,
        } && url@ == from@ && digest@ == hash@),
        chosen matches Err(failure) ==> (next matches MihomoInstall::Failed(held) && held@
            == failure@),
{
}

} // verus!
