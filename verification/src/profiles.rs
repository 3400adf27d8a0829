//! Listing and showing profiles and images.
use vstd::prelude::*;
use vstd::utf8::encode_utf8;

use crate::config::{
    is_named, profile_map, profiles_are_found_by_name, CoopConfig, CustomProfile,
};
use crate::lines::{lines, lines_of};
use crate::rows::{
    distinct_rows_are_sorted_strictly, insert_row, row_texts, rows_sorted, strict_order_is_unique,
    strictly_in_order,
};
use crate::size::{format_dir_size, gib_text};
use crate::text::{
    decimal, decimal_text, join, joined, opt_text, pad_right, padded, same_text, str_texts,
    strings, texts,
};

verus! {

/// A profile that comes with the program.
#[derive(Debug, Clone, Copy)]
pub struct BuiltinProfile {
    pub name: &'static str,
    pub apt_packages: &'static [&'static str],
    pub pre_install: Option<&'static str>,
    pub post_install: Option<&'static str>,
    pub marketplaces: &'static [&'static str],
    pub plugins: &'static [&'static str],
}

/// What a profile does, wherever it comes from.
#[derive(Debug)]
pub struct ProfileDef {
    pub apt_packages: Vec<String>,
    pub pre_install: Option<String>,
    pub post_install: Option<String>,
    pub marketplaces: Vec<String>,
    pub plugins: Vec<String>,
}

/// A part of a summary, where it is there.
pub open spec fn part_if(there: bool, part: Seq<char>) -> Seq<Seq<char>> {
    if there {
        seq![part]
    } else {
        seq![]
    }
}

/// The parts of the summary of a profile that comes with the program.
pub open spec fn builtin_parts(bp: BuiltinProfile) -> Seq<Seq<char>> {
    part_if(bp.apt_packages@.len() > 0, joined(str_texts(bp.apt_packages@), ", "@)) + part_if(
        bp.pre_install is Some,
        "pre-install script"@,
    ) + part_if(bp.post_install is Some, "post-install script"@) + part_if(
        bp.plugins@.len() > 0,
        "plugins: "@ + joined(str_texts(bp.plugins@), ", "@),
    )
}

/// The summary of a profile that comes with the program.
pub open spec fn builtin_text(bp: BuiltinProfile) -> Seq<char> {
    if builtin_parts(bp).len() == 0 {
        "(empty)"@
    } else {
        joined(builtin_parts(bp), "; "@)
    }
}

/// Adds a part to a summary.
fn add_part(parts: &mut Vec<String>, there: bool, part: String)
    ensures
        texts(final(parts)@) == texts(old(parts)@) + part_if(there, part@),
{
    let ghost before = texts(parts@);
    if there {
        parts.push(part);
    }
    proof {
        assert(texts(parts@) =~= before + part_if(there, part@));
    }
}

/// Summarizes a profile that comes with the program.
pub fn builtin_summary(bp: &BuiltinProfile) -> (r: String)
    ensures
        r@ == builtin_text(*bp),
{
    let mut parts: Vec<String> = Vec::new();
    let packages = join(strings(bp.apt_packages).as_slice(), ", ");
    let plugins = join(strings(bp.plugins).as_slice(), ", ");
    add_part(&mut parts, bp.apt_packages.len() > 0, packages);
    add_part(&mut parts, bp.pre_install.is_some(), "pre-install script".to_owned());
    add_part(&mut parts, bp.post_install.is_some(), "post-install script".to_owned());
    add_part(&mut parts, bp.plugins.len() > 0, "plugins: ".to_owned().concat(plugins.as_str()));
    proof {
        assert(texts(parts@) =~= builtin_parts(*bp));
    }
    if parts.len() == 0 {
        "(empty)".to_owned()
    } else {
        join(parts.as_slice(), "; ")
    }
}

/// The parts of the summary of a profile that the user wrote.
pub open spec fn custom_parts(cp: CustomProfile) -> Seq<Seq<char>> {
    part_if(cp.apt_packages@.len() > 0, decimal(cp.apt_packages@.len()) + " apt packages"@)
        + part_if(cp.pre_install is Some, "pre-install script"@) + part_if(
        cp.post_install is Some,
        "post-install script"@,
    ) + part_if(
        cp.marketplaces@.len() > 0,
        decimal(cp.marketplaces@.len()) + " marketplaces"@,
    ) + part_if(cp.plugins@.len() > 0, decimal(cp.plugins@.len()) + " plugins"@)
}

/// The summary of a profile that the user wrote.
pub open spec fn custom_text(cp: CustomProfile) -> Seq<char> {
    if custom_parts(cp).len() == 0 {
        "(empty)"@
    } else {
        "("@ + joined(custom_parts(cp), ", "@) + ")"@
    }
}

/// A number of things.
fn count_text(n: usize, what: &str) -> (r: String)
    ensures
        r@ == decimal(n as nat) + what@,
{
    decimal_text(n as u64).concat(what)
}

/// Summarizes a profile that the user wrote.
pub fn format_custom_summary(cp: &CustomProfile) -> (r: String)
    ensures
        r@ == custom_text(*cp),
{
    let mut parts: Vec<String> = Vec::new();
    let packages: usize = cp.apt_packages.len();
    let marketplaces: usize = cp.marketplaces.len();
    let plugins: usize = cp.plugins.len();
    add_part(&mut parts, packages > 0, count_text(packages, " apt packages"));
    add_part(&mut parts, cp.pre_install.is_some(), "pre-install script".to_owned());
    add_part(&mut parts, cp.post_install.is_some(), "post-install script".to_owned());
    add_part(&mut parts, marketplaces > 0, count_text(marketplaces, " marketplaces"));
    add_part(&mut parts, plugins > 0, count_text(plugins, " plugins"));
    proof {
        assert(texts(parts@) =~= custom_parts(*cp));
    }
    if parts.len() == 0 {
        "(empty)".to_owned()
    } else {
        "(".to_owned().concat(join(parts.as_slice(), ", ").as_str()).concat(")")
    }
}

/// The summary of a script: its only line, or its first one with the number of
/// all.
pub open spec fn script_text(script: Option<Seq<char>>) -> Seq<char> {
    match script {
        Some(s) if s.len() > 0 => {
            let all = lines(s);
            if all.len() <= 1 {
                all[0]
            } else {
                all[0] + " ... ("@ + decimal(all.len()) + " lines)"@
            }
        },
        _ => "(none)"@,
    }
}

/// The view of an optional string slice.
pub open spec fn opt_str(item: Option<&str>) -> Option<Seq<char>> {
    match item {
        Some(s) => Some(s@),
        None => None,
    }
}

/// Summarizes a script.
pub fn script_summary(script: Option<&str>) -> (r: String)
    ensures
        r@ == script_text(opt_str(script)),
{
    let s = match script {
        Some(s) => s,
        None => {
            return "(none)".to_owned();
        },
    };
    if s.is_empty() {
        return "(none)".to_owned();
    }
    let all = lines_of(s);
    proof {
        assert(texts(all@).len() == all@.len());
        assert(lines(s@).len() > 0);
        assert(texts(all@)[0] == all@[0]@);
    }
    let n: usize = all.len();
    if n <= 1 {
        all[0].clone()
    } else {
        all[0].clone().concat(" ... (").concat(decimal_text(n as u64).as_str()).concat(" lines)")
    }
}

/// A list of names, or the word for none.
pub open spec fn names_text(names: Seq<Seq<char>>) -> Seq<char> {
    if names.len() == 0 {
        "(none)"@
    } else {
        joined(names, ", "@)
    }
}

/// A list of names, or the word for none.
fn names_or_none(names: &Vec<String>) -> (r: String)
    ensures
        r@ == names_text(texts(names@)),
{
    if names.len() == 0 {
        "(none)".to_owned()
    } else {
        join(names.as_slice(), ", ")
    }
}

/// Whether the user wrote a profile of this name.
pub open spec fn is_custom(cfg: CoopConfig, name: Seq<char>) -> bool {
    exists|i: int| 0 <= i < cfg.profiles@.len() && (#[trigger] cfg.profiles@[i]).0@ == name
}

/// Whether the user wrote a profile of this name.
fn has_custom(cfg: &CoopConfig, name: &str) -> (r: bool)
    ensures
        r == is_custom(*cfg, name@),
{
    for i in 0..cfg.profiles.len()
        invariant
            forall|j: int| 0 <= j < i ==> (#[trigger] cfg.profiles@[j]).0@ != name@,
    {
        if same_text(cfg.profiles[i].0.as_str(), name) {
            return true;
        }
    }
    false
}

/// What is shown of a profile.
pub open spec fn show_text(custom: bool, name: Seq<char>, def: ProfileDef) -> Seq<char> {
    "Profile: "@ + name + " ("@ + (if custom {
        "custom"@
    } else {
        "builtin"@
    }) + ")\n  apt_packages: "@ + names_text(texts(def.apt_packages@)) + "\n  pre_install:  "@
        + script_text(opt_text(def.pre_install)) + "\n  post_install: "@ + script_text(
        opt_text(def.post_install),
    ) + "\n  marketplaces: "@ + names_text(texts(def.marketplaces@)) + "\n  plugins:      "@
        + names_text(texts(def.plugins@)) + "\n"@
}

/// The string slice of an optional string.
fn as_opt_str(item: &Option<String>) -> (r: Option<&str>)
    ensures
        opt_str(r) == opt_text(*item),
{
    match item {
        Some(s) => Some(s.as_str()),
        None => None,
    }
}

/// What is shown of a profile.
pub fn write_profile_show(cfg: &CoopConfig, name: &str, def: &ProfileDef) -> (r: String)
    ensures
        r@ == show_text(is_custom(*cfg, name@), name@, *def),
{
    let origin = if has_custom(cfg, name) {
        "custom"
    } else {
        "builtin"
    };
    "Profile: ".to_owned().concat(name).concat(" (").concat(origin).concat(
        ")\n  apt_packages: ",
    ).concat(names_or_none(&def.apt_packages).as_str()).concat("\n  pre_install:  ").concat(
        script_summary(as_opt_str(&def.pre_install)).as_str(),
    ).concat("\n  post_install: ").concat(
        script_summary(as_opt_str(&def.post_install)).as_str(),
    ).concat("\n  marketplaces: ").concat(names_or_none(&def.marketplaces).as_str()).concat(
        "\n  plugins:      ",
    ).concat(names_or_none(&def.plugins).as_str()).concat("\n")
}

/// The length of the longest name, in bytes.
pub open spec fn name_width(rows: Seq<(Seq<char>, Seq<char>)>) -> nat
    decreases rows.len(),
{
    if rows.len() == 0 {
        0
    } else {
        let before = name_width(rows.drop_last());
        let last = encode_utf8(rows.last().0).len();
        if last > before {
            last
        } else {
            before
        }
    }
}

/// The lines for some rows: each name, filled up to the same width, and what
/// belongs to it.
pub open spec fn rows_text(rows: Seq<(Seq<char>, Seq<char>)>, width: nat) -> Seq<char>
    decreases rows.len(),
{
    if rows.len() == 0 {
        seq![]
    } else {
        rows_text(rows.drop_last(), width) + "  "@ + padded(rows.last().0, width) + " "@
            + rows.last().1 + "\n"@
    }
}

/// The length of the longest name, in bytes.
fn widest_name(rows: &Vec<(String, String)>) -> (r: usize)
    ensures
        r == name_width(row_texts(rows@)),
{
    let ghost all = row_texts(rows@);
    let mut width: usize = 0;
    for i in 0..rows.len()
        invariant
            all == row_texts(rows@),
            width == name_width(all.take(i as int)),
    {
        proof {
            assert(all.take(i + 1).drop_last() =~= all.take(i as int));
            assert(all[i as int].0 == rows@[i as int].0@);
        }
        let len: usize = rows[i].0.as_str().as_bytes().len();
        if len > width {
            width = len;
        }
    }
    proof {
        assert(all.take(all.len() as int) =~= all);
    }
    width
}

/// Adds the lines for some rows.
fn write_rows(out: &mut String, rows: &Vec<(String, String)>, width: usize)
    ensures
        final(out)@ == old(out)@ + rows_text(row_texts(rows@), width as nat),
{
    let ghost all = row_texts(rows@);
    let ghost before = out@;
    proof {
        assert(before + rows_text(all.take(0), width as nat) =~= before);
    }
    for i in 0..rows.len()
        invariant
            all == row_texts(rows@),
            out@ == before + rows_text(all.take(i as int), width as nat),
    {
        proof {
            assert(all.take(i + 1).drop_last() =~= all.take(i as int));
            assert(all[i as int] == (rows@[i as int].0@, rows@[i as int].1@));
        }
        out.append("  ");
        out.append(pad_right(rows[i].0.as_str(), width).as_str());
        out.append(" ");
        out.append(rows[i].1.as_str());
        out.append("\n");
        proof {
            assert(out@ =~= before + rows_text(all.take(i + 1), width as nat));
        }
    }
    proof {
        assert(all.take(all.len() as int) =~= all);
    }
}

/// The rows for the profiles that come with the program.
pub open spec fn builtin_rows(profiles: Seq<BuiltinProfile>) -> Seq<(Seq<char>, Seq<char>)> {
    Seq::new(profiles.len(), |i: int| (profiles[i].name@, builtin_text(profiles[i])))
}

/// The rows for the profiles that the user wrote.
pub open spec fn custom_rows(profiles: Seq<(String, CustomProfile)>) -> Seq<
    (Seq<char>, Seq<char>),
> {
    Seq::new(profiles.len(), |i: int| (profiles[i].0@, custom_text(profiles[i].1)))
}

/// The list of all profiles: those that come with the program, and, sorted by
/// their names, those that the user wrote.
pub open spec fn list_text(
    builtin: Seq<BuiltinProfile>,
    custom: Seq<(String, CustomProfile)>,
) -> Seq<char> {
    let width = if name_width(builtin_rows(builtin)) > name_width(
        rows_sorted(custom_rows(custom)),
    ) {
        name_width(builtin_rows(builtin))
    } else {
        name_width(rows_sorted(custom_rows(custom)))
    };
    "Builtin:\n"@ + rows_text(builtin_rows(builtin), width) + (if custom.len() > 0 {
        "\nCustom:\n"@ + rows_text(rows_sorted(custom_rows(custom)), width)
    } else {
        seq![]
    })
}

/// The list of all profiles.
pub fn write_profiles_list(builtin: &[BuiltinProfile], cfg: &CoopConfig) -> (r: String)
    ensures
        r@ == list_text(builtin@, cfg.profiles@),
{
    let mut given: Vec<(String, String)> = Vec::new();
    for i in 0..builtin.len()
        invariant
            row_texts(given@) == builtin_rows(builtin@).take(i as int),
    {
        let ghost before = row_texts(given@);
        given.push((builtin[i].name.to_owned(), builtin_summary(&builtin[i])));
        proof {
            assert(row_texts(given@) =~= before.push(builtin_rows(builtin@)[i as int]));
            assert(row_texts(given@) =~= builtin_rows(builtin@).take(i + 1));
        }
    }
    let ghost all = custom_rows(cfg.profiles@);
    let mut written: Vec<(String, String)> = Vec::new();
    proof {
        assert(row_texts(written@) =~= rows_sorted(all.take(0)));
    }
    for i in 0..cfg.profiles.len()
        invariant
            all == custom_rows(cfg.profiles@),
            row_texts(written@) == rows_sorted(all.take(i as int)),
    {
        proof {
            assert(all.take(i + 1).drop_last() =~= all.take(i as int));
        }
        let row = (cfg.profiles[i].0.clone(), format_custom_summary(&cfg.profiles[i].1));
        insert_row(&mut written, row);
    }
    proof {
        assert(all.take(all.len() as int) =~= all);
        assert(builtin_rows(builtin@).take(builtin@.len() as int) =~= builtin_rows(builtin@));
    }
    let given_width: usize = widest_name(&given);
    let written_width: usize = widest_name(&written);
    let width: usize = if given_width > written_width {
        given_width
    } else {
        written_width
    };
    let mut out = "Builtin:\n".to_owned();
    write_rows(&mut out, &given, width);
    if cfg.profiles.len() > 0 {
        out.append("\nCustom:\n");
        write_rows(&mut out, &written, width);
    }
    proof {
        assert(out@ =~= list_text(builtin@, cfg.profiles@));
    }
    out
}

/// The summary of a profile depends on what the profile says alone.
proof fn lemma_custom_text(a: CustomProfile, b: CustomProfile)
    requires
        a@ == b@,
    ensures
        custom_text(a) == custom_text(b),
{
    assert(texts(a.apt_packages@).len() == texts(b.apt_packages@).len());
    assert(texts(a.marketplaces@).len() == texts(b.marketplaces@).len());
    assert(texts(a.plugins@).len() == texts(b.plugins@).len());
}

/// The user's profiles are listed one to a row, each with its summary. The names
/// ascend strictly in the order of their characters, so that none is listed
/// twice, whether or not a profile that comes with the program has it too.
pub proof fn customs_are_listed_once_in_order(cfg: CoopConfig)
    requires
        cfg.is_valid(),
    ensures
        strictly_in_order(rows_sorted(custom_rows(cfg.profiles@))),
        rows_sorted(custom_rows(cfg.profiles@)).len() == cfg.profiles@.len(),
        forall|row: (Seq<char>, Seq<char>)|
            #[trigger] rows_sorted(custom_rows(cfg.profiles@)).contains(row) <==> exists|at: int|
                is_named(cfg.profiles@, row.0, at) && row.1 == #[trigger] custom_text(
                    cfg.profiles@[at].1,
                ),
{
    let profiles = cfg.profiles@;
    let rows = custom_rows(profiles);
    assert forall|i: int, j: int| 0 <= i < j < rows.len() implies (#[trigger] rows[i]).0 != (
    #[trigger] rows[j]).0 by {
        assert(profiles[i].0@ != profiles[j].0@);
    }
    distinct_rows_are_sorted_strictly(rows);
    assert forall|row: (Seq<char>, Seq<char>)| #[trigger]
        rows_sorted(rows).contains(row) <==> exists|at: int|
            is_named(profiles, row.0, at) && row.1 == #[trigger] custom_text(profiles[at].1) by {
        if rows_sorted(rows).contains(row) {
            let at = choose|at: int| 0 <= at < rows.len() && rows[at] == row;
            assert(is_named(profiles, row.0, at) && row.1 == custom_text(profiles[at].1));
        }
        if exists|at: int|
            is_named(profiles, row.0, at) && row.1 == #[trigger] custom_text(profiles[at].1) {
            let at = choose|at: int|
                is_named(profiles, row.0, at) && row.1 == #[trigger] custom_text(profiles[at].1);
            assert(rows[at] == row);
        }
    }
}

/// Two configurations with the same profiles give the same list, whatever the
/// order in which they hold them.
pub proof fn listing_ignores_the_order_of_profiles(
    builtin: Seq<BuiltinProfile>,
    a: CoopConfig,
    b: CoopConfig,
)
    requires
        a.is_valid(),
        b.is_valid(),
        profile_map(a.profiles@) == profile_map(b.profiles@),
    ensures
        list_text(builtin, a.profiles@) == list_text(builtin, b.profiles@),
{
    let a_rows = rows_sorted(custom_rows(a.profiles@));
    let b_rows = rows_sorted(custom_rows(b.profiles@));
    customs_are_listed_once_in_order(a);
    customs_are_listed_once_in_order(b);
    assert forall|row: (Seq<char>, Seq<char>)| #[trigger]
        a_rows.contains(row) <==> b_rows.contains(row) by {
        if a_rows.contains(row) {
            lemma_listed_in_both(a, b, row);
        }
        if b_rows.contains(row) {
            lemma_listed_in_both(b, a, row);
        }
    }
    strict_order_is_unique(a_rows, b_rows);
}

proof fn lemma_listed_in_both(a: CoopConfig, b: CoopConfig, row: (Seq<char>, Seq<char>))
    requires
        a.is_valid(),
        b.is_valid(),
        profile_map(a.profiles@) == profile_map(b.profiles@),
        rows_sorted(custom_rows(a.profiles@)).contains(row),
    ensures
        rows_sorted(custom_rows(b.profiles@)).contains(row),
{
    customs_are_listed_once_in_order(a);
    customs_are_listed_once_in_order(b);
    let at = choose|at: int|
        is_named(a.profiles@, row.0, at) && row.1 == #[trigger] custom_text(a.profiles@[at].1);
    profiles_are_found_by_name(a.profiles@, at);
    assert(profile_map(b.profiles@).dom().contains(row.0));
    let there = choose|there: int| is_named(b.profiles@, row.0, there);
    profiles_are_found_by_name(b.profiles@, there);
    lemma_custom_text(a.profiles@[at].1, b.profiles@[there].1);
    assert(is_named(b.profiles@, row.0, there) && row.1 == custom_text(b.profiles@[there].1));
}

/// What the user asks about profiles.
#[derive(Debug)]
pub enum ProfilesAction {
    List,
    Show { name: String },
}

/// What is done about profiles.
#[derive(Debug)]
pub enum ProfilesPlan<'a> {
    /// This text is printed.
    Print(String),
    /// The profile of this name is looked up, and shown.
    LookUp(&'a str),
}

/// Decides what is done about profiles.
pub fn cmd_profiles<'a>(
    builtin: &[BuiltinProfile],
    cfg: &CoopConfig,
    action: &'a ProfilesAction,
) -> (r: ProfilesPlan<'a>)
    ensures
        match action {
            ProfilesAction::List => r matches ProfilesPlan::Print(text) && text@ == list_text(
                builtin@,
                cfg.profiles@,
            ),
            ProfilesAction::Show { name } => r matches ProfilesPlan::LookUp(wanted) && wanted@
                == name@,
        },
{
    match action {
        ProfilesAction::List => ProfilesPlan::Print(write_profiles_list(builtin, cfg)),
        ProfilesAction::Show { name } => ProfilesPlan::LookUp(name.as_str()),
    }
}

/// What is known of how an image was built.
#[derive(Debug)]
pub struct ImageConfig {
    pub profiles: Vec<String>,
    pub created: String,
}

/// An image.
#[derive(Debug)]
pub struct Image {
    pub name: String,
    /// How it was built, where that is known.
    pub config: Option<ImageConfig>,
    /// The size of its directory in bytes.
    pub size: u64,
}

/// What is done with the images.
#[derive(Debug)]
pub enum ImagesPlan<'a> {
    /// The image of this name is destroyed.
    Destroy(&'a str),
    /// The images are listed.
    List,
}

/// Decides what is done with the images.
pub fn cmd_images<'a>(delete: Option<&'a str>) -> (r: ImagesPlan<'a>)
    ensures
        match delete {
            Some(name) => r == ImagesPlan::Destroy(name),
            None => r == ImagesPlan::List,
        },
{
    match delete {
        Some(name) => ImagesPlan::Destroy(name),
        None => ImagesPlan::List,
    }
}

/// The profiles that an image was built with.
pub open spec fn image_profiles(config: Option<ImageConfig>) -> Seq<char> {
    match config {
        Some(c) => if c.profiles@.len() > 0 {
            joined(texts(c.profiles@), ", "@)
        } else {
            "none"@
        },
        None => "unknown"@,
    }
}

/// When an image was built.
pub open spec fn image_created(config: Option<ImageConfig>) -> Seq<char> {
    match config {
        Some(c) => c.created@,
        None => "unknown"@,
    }
}

/// The line for an image.
pub open spec fn image_line(image: Image) -> Seq<char> {
    padded(image.name@, 20) + " profiles: "@ + padded(image_profiles(image.config), 30)
        + " created: "@ + padded(image_created(image.config), 24) + " size: "@ + gib_text(
        image.size as nat,
    ) + "\n"@
}

/// The lines for some images.
pub open spec fn image_lines(images: Seq<Image>) -> Seq<char>
    decreases images.len(),
{
    if images.len() == 0 {
        seq![]
    } else {
        image_lines(images.drop_last()) + image_line(images.last())
    }
}

/// The list of the images.
pub open spec fn images_text(images: Seq<Image>) -> Seq<char> {
    if images.len() == 0 {
        "No images found. Run `coop setup` to build one.\n"@
    } else {
        image_lines(images)
    }
}

/// The line for an image.
fn write_image(image: &Image) -> (r: String)
    ensures
        r@ == image_line(*image),
{
    let profiles = match &image.config {
        Some(c) => if c.profiles.len() > 0 {
            join(c.profiles.as_slice(), ", ")
        } else {
            "none".to_owned()
        },
        None => "unknown".to_owned(),
    };
    let created = match &image.config {
        Some(c) => c.created.as_str(),
        None => "unknown",
    };
    pad_right(image.name.as_str(), 20).concat(" profiles: ").concat(
        pad_right(profiles.as_str(), 30).as_str(),
    ).concat(" created: ").concat(pad_right(created, 24).as_str()).concat(" size: ").concat(
        format_dir_size(image.size).as_str(),
    ).concat("\n")
}

/// The list of the images.
pub fn write_images(images: &[Image]) -> (r: String)
    ensures
        r@ == images_text(images@),
{
    if images.len() == 0 {
        return "No images found. Run `coop setup` to build one.\n".to_owned();
    }
    let mut out = String::new();
    for i in 0..images.len()
        invariant
            out@ == image_lines(images@.take(i as int)),
    {
        proof {
            assert(images@.take(i + 1).drop_last() =~= images@.take(i as int));
        }
        out.append(write_image(&images[i]).as_str());
    }
    proof {
        assert(images@.take(images@.len() as int) =~= images@);
    }
    out
}

} // verus!
