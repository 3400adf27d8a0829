//! The release metadata of the tunnel program, and the asset that is installed.
use vstd::prelude::*;

use crate::digest::{digest_of_text, Sha256Hash};
use crate::failure::{no_digest, refused, Cause, CauseText, Failure, FailureText};
use crate::json::{
    items, json_parse, json_tree, json_trees, member, parse_value, text, value_items, value_member,
    value_text, JsonTree,
};
use crate::path_text::{has_gz_extension, is_gz};
use crate::scripts::Processor;
use crate::text::{has_prefix, opt_text};
use crate::yaml::{first_index, lemma_is_first_index};

verus! {

/// One file of a release.
#[derive(Debug)]
pub struct Asset {
    pub name: Option<String>,
    pub url: Option<String>,
    pub digest: Option<String>,
}

/// What an [`Asset`] holds.
pub ghost struct AssetText {
    pub name: Option<Seq<char>>,
    pub url: Option<Seq<char>>,
    pub digest: Option<Seq<char>>,
}

impl View for Asset {
    type V = AssetText;

    open spec fn view(&self) -> AssetText {
        AssetText {
            name: opt_text(self.name),
            url: opt_text(self.url),
            digest: opt_text(self.digest),
        }
    }
}

/// What each of these assets holds.
pub open spec fn asset_texts(assets: Seq<Asset>) -> Seq<AssetText> {
    Seq::new(assets.len(), |i: int| assets[i]@)
}

/// The asset that a JSON value describes.
pub open spec fn asset_in(tree: JsonTree) -> AssetText {
    AssetText {
        name: text(member(tree, "name"@)),
        url: text(member(tree, "browser_download_url"@)),
        digest: text(member(tree, "digest"@)),
    }
}

/// The assets that the metadata of a release lists, where it has such a list.
pub open spec fn assets_in(release: JsonTree) -> Option<Seq<AssetText>> {
    match items(member(release, "assets"@)) {
        Some(list) => Some(Seq::new(list.len(), |i: int| asset_in(list[i]))),
        None => None,
    }
}

/// The failure to read the metadata of a release, or the assets that it lists.
pub open spec fn listed_assets(output: Seq<char>) -> Result<Seq<AssetText>, FailureText> {
    match json_parse(output) {
        Some(release) => match assets_in(release) {
            Some(list) => Ok(list),
            None => Err(refused("Mihomo release metadata has no assets"@)),
        },
        None => Err(
            FailureText {
                message: "GitHub returned invalid Mihomo release metadata"@,
                cause: CauseText::Json,
            },
        ),
    }
}

/// The string that a member of a value is.
fn member_text(value: &serde_json::Value, name: &str) -> (r: Option<String>)
    ensures
        opt_text(r) == text(member(json_tree(*value), name@)),
{
    match value_text(value_member(value, name)) {
        Some(s) => Some(s.to_owned()),
        None => None,
    }
}

/// Reads the assets that the metadata of a release lists.
pub fn read_release(output: &str) -> (r: Result<Vec<Asset>, Failure>)
    ensures
        match r {
            Ok(assets) => listed_assets(output@) == Ok::<Seq<AssetText>, FailureText>(
                asset_texts(assets@),
            ),
            Err(failure) => listed_assets(output@) == Err::<Seq<AssetText>, FailureText>(failure@),
        },
{
    let release = match parse_value(output) {
        Ok(release) => release,
        Err(error) => {
            return Err(
                Failure {
                    message: "GitHub returned invalid Mihomo release metadata".to_owned(),
                    cause: Cause::Json(error),
                },
            );
        },
    };
    let list = match value_items(value_member(&release, "assets")) {
        Some(list) => list,
        None => {
            return Err(Failure::refused("Mihomo release metadata has no assets"));
        },
    };
    let ghost trees = json_trees(list@);
    let ghost wanted = Seq::new(trees.len(), |i: int| asset_in(trees[i]));
    let mut assets: Vec<Asset> = Vec::new();
    for i in 0..list.len()
        invariant
            trees == json_trees(list@),
            wanted == Seq::new(trees.len(), |i: int| asset_in(trees[i])),
            asset_texts(assets@) == wanted.take(i as int),
    {
        let ghost before = asset_texts(assets@);
        let asset = Asset {
            name: member_text(&list[i], "name"),
            url: member_text(&list[i], "browser_download_url"),
            digest: member_text(&list[i], "digest"),
        };
        let ghost held = asset@;
        assets.push(asset);
        proof {
            assert(held == wanted[i as int]);
            assert(asset_texts(assets@) =~= before.push(held));
            assert(asset_texts(assets@) =~= wanted.take(i + 1));
        }
    }
    proof {
        assert(asset_texts(assets@) =~= wanted);
    }
    Ok(assets)
}

/// How the names of the assets for a processor start.
pub open spec fn asset_prefix(processor: Processor) -> Seq<char> {
    match processor {
        Processor::Aarch64 => "mihomo-linux-arm64-"@,
        Processor::X86_64 => "mihomo-linux-amd64-compatible-"@,
    }
}

/// How the names of the assets for a processor start.
fn asset_needle(processor: Processor) -> (r: &'static str)
    ensures
        r@ == asset_prefix(processor),
{
    match processor {
        Processor::Aarch64 => "mihomo-linux-arm64-",
        Processor::X86_64 => "mihomo-linux-amd64-compatible-",
    }
}

/// Whether an asset is a compressed program for a processor.
pub open spec fn is_program_for(processor: Processor) -> spec_fn(AssetText) -> bool {
    |asset: AssetText|
        match asset.name {
            Some(name) => asset_prefix(processor).is_prefix_of(name) && is_gz(name),
            None => false,
        }
}

/// What a digest starts with that GitHub computed by SHA-256.
pub open spec fn digest_prefix() -> Seq<char> {
    "sha256:"@
}

/// The asset to install for a processor: where to download it from, and its
/// digest. It is the first listed program for that processor.
pub open spec fn chosen_asset(assets: Seq<AssetText>, processor: Processor) -> Result<
    (Seq<char>, Seq<u8>),
    FailureText,
> {
    let at = first_index(assets, is_program_for(processor));
    if !(0 <= at < assets.len()) {
        Err(refused("Mihomo release has no "@ + asset_prefix(processor) + "*.gz asset"@))
    } else {
        match (assets[at].url, assets[at].digest) {
            (None, _) => Err(refused("Mihomo asset has no download URL"@)),
            (Some(url), Some(digest)) if digest_prefix().is_prefix_of(digest) => {
                match digest_of_text(digest.skip(digest_prefix().len() as int)) {
                    Some(bytes) => Ok((url, bytes)),
                    None => Err(no_digest("Invalid Mihomo asset digest"@)),
                }
            },
            _ => Err(refused("Mihomo asset has no GitHub SHA-256 digest"@)),
        }
    }
}

/// Where the program for a processor stands among the assets.
fn find_program(assets: &Vec<Asset>, processor: Processor) -> (r: Option<usize>)
    ensures
        match r {
            Some(at) => at < assets@.len() && at == first_index(
                asset_texts(assets@),
                is_program_for(processor),
            ),
            None => first_index(asset_texts(assets@), is_program_for(processor))
                == assets@.len(),
        },
{
    let needle = asset_needle(processor);
    let ghost list = asset_texts(assets@);
    let ghost wanted = is_program_for(processor);
    for i in 0..assets.len()
        invariant
            needle@ == asset_prefix(processor),
            list == asset_texts(assets@),
            wanted == is_program_for(processor),
            forall|j: int| 0 <= j < i ==> !wanted(#[trigger] list[j]),
    {
        proof {
            assert(list[i as int] == assets@[i as int]@);
        }
        if let Some(name) = &assets[i].name {
            if has_prefix(name.as_str(), needle) && has_gz_extension(name.as_str()) {
                proof {
                    lemma_is_first_index(list, wanted, i as int);
                }
                return Some(i);
            }
        }
    }
    proof {
        lemma_is_first_index(list, wanted, list.len() as int);
    }
    None
}

/// Chooses the asset to install for a processor.
pub fn choose_asset(assets: &Vec<Asset>, processor: Processor) -> (r: Result<
    (String, Sha256Hash),
    Failure,
>)
    ensures
        match r {
            Ok((url, digest)) => chosen_asset(asset_texts(assets@), processor) == Ok::<
                (Seq<char>, Seq<u8>),
                FailureText,
            >((url@, digest@)),
            Err(failure) => chosen_asset(asset_texts(assets@), processor) == Err::<
                (Seq<char>, Seq<u8>),
                FailureText,
            >(failure@),
        },
{
    let at = match find_program(assets, processor) {
        Some(at) => at,
        None => {
            return Err(
                Failure::refused(
                    "Mihomo release has no ".to_owned().concat(asset_needle(processor)).concat(
                        "*.gz asset",
                    ).as_str(),
                ),
            );
        },
    };
    proof {
        assert(asset_texts(assets@)[at as int] == assets@[at as int]@);
    }
    let url = match &assets[at].url {
        Some(url) => url.clone(),
        None => {
            return Err(Failure::refused("Mihomo asset has no download URL"));
        },
    };
    let digest = match &assets[at].digest {
        Some(digest) => digest,
        None => {
            return Err(Failure::refused("Mihomo asset has no GitHub SHA-256 digest"));
        },
    };
    if !has_prefix(digest.as_str(), "sha256:") {
        return Err(Failure::refused("Mihomo asset has no GitHub SHA-256 digest"));
    }
    proof {
        reveal_strlit("sha256:");
    }
    let hex = digest.as_str().substring_char(7, digest.as_str().unicode_len());
    proof {
        assert(hex@ =~= digest@.skip(7));
    }
    match Sha256Hash::from_hex(hex) {
        Ok(hash) => Ok((url, hash)),
        Err(error) => Err(
            Failure {
                message: "Invalid Mihomo asset digest".to_owned(),
                cause: Cause::Hex(error),
            },
        ),
    }
}

} // verus!
