//! What the lists of profiles and images show, call by call.
use vstd::prelude::*;
use vstd::utf8::encode_utf8;

use crate::config::{CoopConfig, CustomProfile};
use crate::lines::lines;
use crate::profiles::{
    builtin_rows, builtin_summary, builtin_text, cmd_images, cmd_profiles, custom_rows, custom_text,
    format_custom_summary, image_lines, name_width, rows_text, script_summary, write_images,
    write_profile_show, write_profiles_list, BuiltinProfile, Image, ImagesPlan, ProfileDef,
    ProfilesAction, ProfilesPlan,
};
use crate::rows::rows_sorted;
use crate::size::gib_text;
use crate::text::{decimal, joined, padded, str_texts, texts};

verus! {

/// Those of some parts that are there, in order.
pub open spec fn present(parts: Seq<(bool, Seq<char>)>) -> Seq<Seq<char>>
    decreases parts.len(),
{
    if parts.len() == 0 {
        seq![]
    } else if parts[0].0 {
        seq![parts[0].1] + present(parts.skip(1))
    } else {
        present(parts.skip(1))
    }
}

proof fn lemma_present(parts: Seq<(bool, Seq<char>)>)
    requires
        parts.len() > 0,
    ensures
        present(parts) == (if parts[0].0 {
            seq![parts[0].1]
        } else {
            seq![]
        }) + present(parts.skip(1)),
{
    assert(present(parts) =~= (if parts[0].0 {
        seq![parts[0].1]
    } else {
        seq![]
    }) + present(parts.skip(1)));
}

/// A profile of the user is summarized by what it holds: how many packages,
/// marketplaces and plugins, and whether it has scripts; one that holds nothing is
/// called empty.
pub proof fn custom_summaries_count_what_is_there(cp: &CustomProfile, text: String)
    requires
        call_ensures(format_custom_summary, (cp,), text),
    ensures
        ({
            let packages = cp.apt_packages@.len();
            let markets = cp.marketplaces@.len();
            let plugins = cp.plugins@.len();
            let parts = present(
                seq![
                    (packages > 0, decimal(packages) + " apt packages"@),
                    (cp.pre_install is Some, "pre-install script"@),
                    (cp.post_install is Some, "post-install script"@),
                    (markets > 0, decimal(markets) + " marketplaces"@),
                    (plugins > 0, decimal(plugins) + " plugins"@),
                ],
            );
            &&& parts.len() == 0 ==> text@ == "(empty)"@
            &&& parts.len() > 0 ==> text@ == "("@ + joined(parts, ", "@) + ")"@
            &&& parts.len() == 0 <==> packages == 0 && cp.pre_install is None
                && cp.post_install is None && markets == 0 && plugins == 0
        }),
{
    let packages = cp.apt_packages@.len();
    let markets = cp.marketplaces@.len();
    let plugins = cp.plugins@.len();
    let p0 = seq![
        (packages > 0, decimal(packages) + " apt packages"@),
        (cp.pre_install is Some, "pre-install script"@),
        (cp.post_install is Some, "post-install script"@),
        (markets > 0, decimal(markets) + " marketplaces"@),
        (plugins > 0, decimal(plugins) + " plugins"@),
    ];
    lemma_present(p0);
    lemma_present(p0.skip(1));
    lemma_present(p0.skip(1).skip(1));
    lemma_present(p0.skip(1).skip(1).skip(1));
    lemma_present(p0.skip(1).skip(1).skip(1).skip(1));
    assert(p0.skip(1).skip(1).skip(1).skip(1).skip(1) =~= seq![]);
    assert(present(p0) =~= crate::profiles::custom_parts(*cp));
}

/// A profile that comes with the program is summarized by its packages, its scripts
/// and its plugins.
pub proof fn builtin_summaries_name_what_is_there(bp: &BuiltinProfile, text: String)
    requires
        call_ensures(builtin_summary, (bp,), text),
    ensures
        ({
            let parts = present(
                seq![
                    (bp.apt_packages@.len() > 0, joined(str_texts(bp.apt_packages@), ", "@)),
                    (bp.pre_install is Some, "pre-install script"@),
                    (bp.post_install is Some, "post-install script"@),
                    (
                        bp.plugins@.len() > 0,
                        "plugins: "@ + joined(str_texts(bp.plugins@), ", "@),
                    ),
                ],
            );
            &&& parts.len() == 0 ==> text@ == "(empty)"@
            &&& parts.len() > 0 ==> text@ == joined(parts, "; "@)
        }),
{
    let p0 = seq![
        (bp.apt_packages@.len() > 0, joined(str_texts(bp.apt_packages@), ", "@)),
        (bp.pre_install is Some, "pre-install script"@),
        (bp.post_install is Some, "post-install script"@),
        (bp.plugins@.len() > 0, "plugins: "@ + joined(str_texts(bp.plugins@), ", "@)),
    ];
    lemma_present(p0);
    lemma_present(p0.skip(1));
    lemma_present(p0.skip(1).skip(1));
    lemma_present(p0.skip(1).skip(1).skip(1));
    assert(p0.skip(1).skip(1).skip(1).skip(1) =~= seq![]);
    assert(present(p0) =~= crate::profiles::builtin_parts(*bp));
}

/// Joined texts hold every one of them, in order, with the separator between.
pub proof fn joined_texts_hold_each_one(parts: Seq<Seq<char>>, last: Seq<char>, sep: Seq<char>)
    ensures
        joined(seq![last], sep) == last,
        parts.len() > 0 ==> joined(parts.push(last), sep) == joined(parts, sep) + sep + last,
        joined(Seq::<Seq<char>>::empty(), sep).len() == 0,
{
    assert(parts.push(last).drop_last() =~= parts);
}

/// The value of the digits of a number.
pub open spec fn value_of(digits: Seq<char>) -> nat
    decreases digits.len(),
{
    if digits.len() == 0 {
        0
    } else {
        10 * value_of(digits.drop_last()) + (digits.last() as nat - '0' as nat) as nat
    }
}

/// A number in decimal has the number's value, only digits, and no leading zero.
pub proof fn decimals_have_their_value(n: nat)
    ensures
        value_of(decimal(n)) == n,
        decimal(n).len() > 0,
        forall|i: int| 0 <= i < decimal(n).len() ==> '0' <= #[trigger] decimal(n)[i] <= '9',
        n > 0 ==> decimal(n)[0] != '0',
    decreases n,
{
    if n < 10 {
        assert(decimal(n).drop_last() =~= seq![]);
        assert(value_of(decimal(n).drop_last()) == 0);
    } else {
        decimals_have_their_value(n / 10);
        assert(decimal(n).drop_last() =~= decimal(n / 10));
        assert(decimal(n)[0] == decimal(n / 10)[0]);
    }
}

/// A script is shown by its only line, or by its first one and the number of all;
/// none, or an empty one, is shown as none.
pub proof fn scripts_are_shown_by_their_first_line(script: Option<&str>, text: String)
    requires
        call_ensures(script_summary, (script,), text),
    ensures
        match script {
            Some(s) if s@.len() > 0 => {
                &&& lines(s@).len() <= 1 ==> text@ == lines(s@)[0]
                &&& lines(s@).len() > 1 ==> text@ == lines(s@)[0] + " ... ("@ + decimal(
                    lines(s@).len(),
                ) + " lines)"@
            },
            _ => text@ == "(none)"@,
        },
{
}

/// A profile is shown with its origin: the user's where the configuration has one of
/// its name. All of its parts are shown, each in its line.
pub proof fn profiles_are_shown_with_all_parts(
    cfg: &CoopConfig,
    name: &str,
    def: &ProfileDef,
    pre: String,
    post: String,
    pre_install: Option<&str>,
    post_install: Option<&str>,
    text: String,
)
    requires
        call_ensures(write_profile_show, (cfg, name, def), text),
        def.pre_install is Some <==> pre_install is Some,
        def.pre_install is Some ==> def.pre_install->0@ == pre_install->0@,
        def.post_install is Some <==> post_install is Some,
        def.post_install is Some ==> def.post_install->0@ == post_install->0@,
        call_ensures(script_summary, (pre_install,), pre),
        call_ensures(script_summary, (post_install,), post),
    ensures
        ({
            let listed = |names: Seq<String>|
                if names.len() == 0 {
                    "(none)"@
                } else {
                    joined(texts(names), ", "@)
                };
            let custom = exists|i: int|
                0 <= i < cfg.profiles@.len() && (#[trigger] cfg.profiles@[i]).0@ == name@;
            text@ == "Profile: "@ + name@ + " ("@ + (if custom {
                "custom"@
            } else {
                "builtin"@
            }) + ")\n  apt_packages: "@ + listed(def.apt_packages@) + "\n  pre_install:  "@ + pre@
                + "\n  post_install: "@ + post@ + "\n  marketplaces: "@ + listed(def.marketplaces@)
                + "\n  plugins:      "@ + listed(def.plugins@) + "\n"@
        }),
{
    assert(crate::profiles::is_custom(*cfg, name@) <==> exists|i: int|
        0 <= i < cfg.profiles@.len() && (#[trigger] cfg.profiles@[i]).0@ == name@);
}

/// The list has every profile that comes with the program, in order, and then, where
/// the user wrote any, every one of those, by name. All names have the same width.
pub proof fn every_profile_is_listed(builtin: &[BuiltinProfile], cfg: &CoopConfig, text: String)
    requires
        call_ensures(write_profiles_list, (builtin, cfg), text),
    ensures
        ({
            let given = Seq::new(
                builtin@.len(),
                |i: int| (builtin@[i].name@, builtin_text(builtin@[i])),
            );
            let written = rows_sorted(
                Seq::new(
                    cfg.profiles@.len(),
                    |i: int| (cfg.profiles@[i].0@, custom_text(cfg.profiles@[i].1)),
                ),
            );
            exists|width: nat| #[trigger]
                is_widest(width, given, written) && text@ == "Builtin:\n"@ + rows_text(given, width)
                    + (if cfg.profiles@.len() == 0 {
                    ""@
                } else {
                    "\nCustom:\n"@ + rows_text(written, width)
                })
        }),
{
    reveal_strlit("");
    let given = builtin_rows(builtin@);
    let written = rows_sorted(custom_rows(cfg.profiles@));
    let a = name_width(given);
    let b = name_width(written);
    let width = if a > b {
        a
    } else {
        b
    };
    lemma_name_width(given);
    lemma_name_width(written);
    assert(given =~= Seq::new(
        builtin@.len(),
        |i: int| (builtin@[i].name@, builtin_text(builtin@[i])),
    ));
    assert(custom_rows(cfg.profiles@) =~= Seq::new(
        cfg.profiles@.len(),
        |i: int| (cfg.profiles@[i].0@, custom_text(cfg.profiles@[i].1)),
    ));
    assert(is_widest(width, given, written));
    assert(""@ =~= seq![]);
}

/// Whether a width is that of the longest of some names, in bytes.
pub open spec fn is_widest(
    width: nat,
    a: Seq<(Seq<char>, Seq<char>)>,
    b: Seq<(Seq<char>, Seq<char>)>,
) -> bool {
    &&& forall|i: int| 0 <= i < a.len() ==> encode_utf8((#[trigger] a[i]).0).len() <= width
    &&& forall|i: int| 0 <= i < b.len() ==> encode_utf8((#[trigger] b[i]).0).len() <= width
    &&& width == 0 || (exists|i: int| 0 <= i < a.len() && encode_utf8((#[trigger] a[i]).0).len()
        == width) || (exists|i: int|
        0 <= i < b.len() && encode_utf8((#[trigger] b[i]).0).len() == width)
}

proof fn lemma_name_width(rows: Seq<(Seq<char>, Seq<char>)>)
    ensures
        forall|i: int|
            0 <= i < rows.len() ==> encode_utf8((#[trigger] rows[i]).0).len() <= name_width(rows),
        name_width(rows) == 0 || exists|i: int|
            0 <= i < rows.len() && encode_utf8((#[trigger] rows[i]).0).len() == name_width(rows),
    decreases rows.len(),
{
    if rows.len() > 0 {
        let init = rows.drop_last();
        lemma_name_width(init);
        assert forall|i: int| 0 <= i < rows.len() implies encode_utf8((#[trigger] rows[i]).0).len()
            <= name_width(rows) by {
            if i < init.len() {
                assert(init[i] == rows[i]);
            }
        }
        if name_width(rows) != 0 {
            if name_width(rows) == name_width(init) {
                let i = choose|i: int|
                    0 <= i < init.len() && encode_utf8((#[trigger] init[i]).0).len() == name_width(
                        init,
                    );
                assert(rows[i] == init[i]);
            } else {
                let i = rows.len() - 1;
                assert(encode_utf8(rows[i].0).len() == name_width(rows));
            }
        }
    }
}

/// Each row is one line: two spaces, the name filled up with spaces to the width, one
/// space, and what belongs to it.
pub proof fn rows_are_lines(
    rows: Seq<(Seq<char>, Seq<char>)>,
    row: (Seq<char>, Seq<char>),
    width: nat,
)
    ensures
        rows_text(Seq::<(Seq<char>, Seq<char>)>::empty(), width).len() == 0,
        rows_text(rows.push(row), width) == rows_text(rows, width) + "  "@ + row.0 + Seq::new(
            if row.0.len() < width {
                (width - row.0.len()) as nat
            } else {
                0
            },
            |i: int| ' ',
        ) + " "@ + row.1 + "\n"@,
{
    assert(rows.push(row).drop_last() =~= rows);
    let fill = Seq::new(
        if row.0.len() < width {
            (width - row.0.len()) as nat
        } else {
            0
        },
        |i: int| ' ',
    );
    assert(padded(row.0, width) =~= row.0 + fill);
    assert(rows_text(rows.push(row), width) =~= rows_text(rows, width) + "  "@ + row.0 + fill + " "@
        + row.1 + "\n"@);
}

/// A list prints the list; a name is looked up as it was given.
pub proof fn profile_commands_list_or_look_up(
    builtin: &[BuiltinProfile],
    cfg: &CoopConfig,
    action: &ProfilesAction,
    plan: ProfilesPlan,
    list: String,
)
    requires
        call_ensures(cmd_profiles, (builtin, cfg, action), plan),
        call_ensures(write_profiles_list, (builtin, cfg), list),
    ensures
        match *action {
            ProfilesAction::List => plan matches ProfilesPlan::Print(text) && text@ == list@,
            ProfilesAction::Show { name } => plan matches ProfilesPlan::LookUp(wanted) && wanted@
                == name@,
        },
{
}

/// An image is destroyed where its name is given, and none is where none is.
pub proof fn images_are_destroyed_by_name(delete: Option<&str>, plan: ImagesPlan)
    requires
        call_ensures(cmd_images, (delete,), plan),
    ensures
        delete matches Some(name) ==> plan == ImagesPlan::Destroy(name),
        delete is None ==> plan is List,
{
}

/// Without images the list says how to build one. Each image has one line, in order,
/// with its name, its profiles, when it was built, and its size; what is not known
/// of it is called unknown.
pub proof fn every_image_is_listed(images: &[Image], text: String)
    requires
        call_ensures(write_images, (images,), text),
    ensures
        images@.len() == 0 ==> text@ == "No images found. Run `coop setup` to build one.\n"@,
        images@.len() > 0 ==> text@ == image_lines(images@),
{
}

/// The line of an image.
pub proof fn image_lines_show_what_is_known(images: Seq<Image>, image: Image)
    ensures
        image_lines(Seq::<Image>::empty()).len() == 0,
        image_lines(images.push(image)) == image_lines(images) + padded(image.name@, 20)
            + " profiles: "@ + padded(
            match image.config {
                Some(known) => if known.profiles@.len() == 0 {
                    "none"@
                } else {
                    joined(texts(known.profiles@), ", "@)
                },
                None => "unknown"@,
            },
            30,
        ) + " created: "@ + padded(
            match image.config {
                Some(known) => known.created@,
                None => "unknown"@,
            },
            24,
        ) + " size: "@ + gib_text(image.size as nat) + "\n"@,
{
    assert(images.push(image).drop_last() =~= images);
    assert(image_lines(images.push(image)) =~= image_lines(images) + padded(image.name@, 20)
        + " profiles: "@ + padded(crate::profiles::image_profiles(image.config), 30)
        + " created: "@ + padded(crate::profiles::image_created(image.config), 24) + " size: "@
        + gib_text(image.size as nat) + "\n"@);
}

/// A text that is filled up starts with the text, has at least the width, no more
/// than it needs, and spaces behind.
pub proof fn filling_up_adds_spaces_behind(s: Seq<char>, width: nat, i: int)
    requires
        0 <= i < padded(s, width).len(),
    ensures
        padded(s, width).len() == if s.len() < width {
            width
        } else {
            s.len()
        },
        padded(s, width)[i] == if i < s.len() {
            s[i]
        } else {
            ' '
        },
{
}

} // verus!
