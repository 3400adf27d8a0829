//! What the helpers for texts, rows and settings come to, call by call.
use vstd::prelude::*;

use crate::config::{profile_map, profiles_are_found_by_name, CoopConfig, CustomProfile};
use crate::failure::Failure;
use crate::guest_laws::failed_for;
use crate::harden::HardenError;
use crate::lines::{has_line, line_end, lines, lines_of};
use crate::remote_command::RemoteCommand;
use crate::rows::{comes_before, insert_row, is_before, row_inserted, row_texts};
use crate::session::EnvForward;
use crate::shell::{escaped_value_is_one_word, read_word};
use crate::text::{
    contains_word, has_prefix, has_suffix, is_white_space, join, joined, pad_right, same_text,
    texts, trim, trimmed, trimmed_end, trimmed_start, word_at,
};

verus! {

/// Whether a character is white space.
pub open spec fn is_blank(c: char) -> bool {
    ||| '\u{9}' <= c <= '\u{d}'
    ||| c == ' '
    ||| c == '\u{85}'
    ||| c == '\u{a0}'
    ||| c == '\u{1680}'
    ||| '\u{2000}' <= c <= '\u{200a}'
    ||| c == '\u{2028}'
    ||| c == '\u{2029}'
    ||| c == '\u{202f}'
    ||| c == '\u{205f}'
    ||| c == '\u{3000}'
}

/// Whether a text is white space alone.
pub open spec fn all_blank(s: Seq<char>) -> bool {
    forall|i: int| 0 <= i < s.len() ==> is_blank(#[trigger] s[i])
}

/// Whether a text neither starts nor ends with white space.
pub open spec fn is_bare(s: Seq<char>) -> bool {
    s.len() > 0 ==> !is_blank(s[0]) && !is_blank(s[s.len() - 1])
}

proof fn lemma_blank(c: char)
    ensures
        is_blank(c) == is_white_space(c),
{
}

proof fn lemma_trimmed_start(before: Seq<char>, s: Seq<char>)
    requires
        all_blank(before),
        s.len() > 0 ==> !is_blank(s[0]),
    ensures
        trimmed_start(before + s) == s,
    decreases before.len(),
{
    let whole = before + s;
    if before.len() > 0 {
        assert(is_blank(before[0]));
        assert(is_white_space(whole[0]));
        assert(whole.skip(1) =~= before.skip(1) + s);
        lemma_trimmed_start(before.skip(1), s);
    } else {
        assert(whole =~= s);
        if s.len() > 0 {
            lemma_blank(s[0]);
        }
    }
}

proof fn lemma_trimmed_end(s: Seq<char>, after: Seq<char>)
    requires
        all_blank(after),
        s.len() > 0 ==> !is_blank(s[s.len() - 1]),
    ensures
        trimmed_end(s + after) == s,
    decreases after.len(),
{
    let whole = s + after;
    if after.len() > 0 {
        assert(is_blank(after[after.len() - 1]));
        assert(is_white_space(whole.last()));
        assert(whole.drop_last() =~= s + after.drop_last());
        lemma_trimmed_end(s, after.drop_last());
    } else {
        assert(whole =~= s);
        if s.len() > 0 {
            lemma_blank(s[s.len() - 1]);
        }
    }
}

/// Trimming removes the white space around a text, all of it and nothing else.
pub proof fn trimming_removes_what_is_around(
    before: Seq<char>,
    kept: Seq<char>,
    after: Seq<char>,
    s: &str,
    r: String,
)
    requires
        call_ensures(trim, (s,), r),
        s@ == before + kept + after,
        all_blank(before),
        is_bare(kept),
        all_blank(after),
    ensures
        r@ == kept,
        trimmed(s@) == kept,
{
    if kept.len() > 0 {
        assert((kept + after)[0] == kept[0]);
        lemma_trimmed_start(before, kept + after);
        assert(before + (kept + after) =~= s@);
    } else {
        let blank = before + after;
        assert(s@ =~= blank);
        assert forall|i: int| 0 <= i < blank.len() implies is_blank(#[trigger] blank[i]) by {
            if i < before.len() {
                assert(is_blank(before[i]));
            } else {
                assert(is_blank(after[i - before.len()]));
            }
        }
        lemma_trimmed_start(blank, seq![]);
        assert(blank + Seq::<char>::empty() =~= blank);
        assert(trimmed_start(s@) =~= seq![]);
        assert(trimmed_end(Seq::<char>::empty()) =~= seq![]);
        assert(kept =~= seq![]);
    }
    if kept.len() > 0 {
        lemma_trimmed_end(kept, after);
    }
}

/// A word stands in a text exactly where white space, or an end of the text, is on
/// each side of it, and none within it.
pub proof fn words_are_bounded_by_white_space(s: &str, word: &str, found: bool)
    requires
        call_ensures(contains_word, (s, word), found),
    ensures
        found <==> word@.len() > 0 && (forall|i: int|
            0 <= i < word@.len() ==> !is_blank(#[trigger] word@[i])) && exists|
            before: Seq<char>,
            after: Seq<char>,
        |
            #![trigger before + word@ + after]
            s@ == before + word@ + after && (before.len() == 0 || is_blank(
                before[before.len() - 1],
            )) && (after.len() == 0 || is_blank(after[0])),
{
    if found {
        let start = choose|start: int| #[trigger] word_at(s@, word@, start);
        let before = s@.take(start);
        let after = s@.skip(start + word@.len());
        assert(s@ =~= before + word@ + after) by {
            assert(s@.subrange(start, start + word@.len()) =~= word@);
            assert forall|i: int| 0 <= i < s@.len() implies s@[i] == (before + word@ + after)[i] by {
                if start <= i < start + word@.len() {
                    assert(s@.subrange(start, start + word@.len())[i - start] == s@[i]);
                }
            }
        }
        assert forall|i: int| 0 <= i < word@.len() implies !is_blank(#[trigger] word@[i]) by {
            assert(!is_white_space(word@[i]));
            lemma_blank(word@[i]);
        }
        if start > 0 {
            lemma_blank(s@[start - 1]);
        }
        if start + word@.len() < s@.len() {
            lemma_blank(s@[start + word@.len()]);
        }
    }
    if word@.len() > 0 && (forall|i: int| 0 <= i < word@.len() ==> !is_blank(#[trigger] word@[i]))
        && exists|before: Seq<char>, after: Seq<char>|
        #![trigger before + word@ + after]
        s@ == before + word@ + after && (before.len() == 0 || is_blank(before[before.len() - 1]))
            && (after.len() == 0 || is_blank(after[0])) {
        let (before, after) = choose|before: Seq<char>, after: Seq<char>|
            #![trigger before + word@ + after]
            s@ == before + word@ + after && (before.len() == 0 || is_blank(
                before[before.len() - 1],
            )) && (after.len() == 0 || is_blank(after[0]));
        let start = before.len() as int;
        assert(s@.subrange(start, start + word@.len()) =~= word@);
        assert forall|i: int| 0 <= i < word@.len() implies !is_white_space(#[trigger] word@[i]) by {
            assert(!is_blank(word@[i]));
            lemma_blank(word@[i]);
        }
        if before.len() > 0 {
            lemma_blank(before[before.len() - 1]);
        }
        if after.len() > 0 {
            lemma_blank(after[0]);
        }
        assert(word_at(s@, word@, start));
    }
}

proof fn lemma_line_end(first: Seq<char>, rest: Seq<char>)
    requires
        !first.contains('\n'),
    ensures
        line_end(first) == first.len(),
        line_end(first + seq!['\n'] + rest) == first.len(),
    decreases first.len(),
{
    let whole = first + seq!['\n'] + rest;
    if first.len() > 0 {
        assert(first[0] != '\n');
        let tail = first.skip(1);
        assert(!tail.contains('\n')) by {
            if tail.contains('\n') {
                let i = choose|i: int| 0 <= i < tail.len() && tail[i] == '\n';
                assert(first[i + 1] == '\n');
            }
        }
        lemma_line_end(tail, rest);
        assert(whole.skip(1) =~= tail + seq!['\n'] + rest);
    }
}

/// A text without a line feed is its own one line, unless it is empty; a line feed
/// ends a line, and so does a carriage return right before it.
pub proof fn lines_end_at_line_feeds(first: Seq<char>, rest: Seq<char>)
    requires
        !first.contains('\n'),
    ensures
        lines(Seq::<char>::empty()) == Seq::<Seq<char>>::empty(),
        first.len() > 0 ==> lines(first) == seq![first],
        first.len() == 0 || first.last() != '\r' ==> lines(first + seq!['\n'] + rest) == seq![
            first,
        ] + lines(rest),
        lines(first + seq!['\r', '\n'] + rest) == seq![first] + lines(rest),
{
    lemma_line_end(first, rest);
    let whole = first + seq!['\n'] + rest;
    assert(whole.take(first.len() as int) =~= first);
    assert(whole.skip(first.len() as int + 1) =~= rest);
    let longer = first.push('\r');
    assert(!longer.contains('\n')) by {
        if longer.contains('\n') {
            let i = choose|i: int| 0 <= i < longer.len() && longer[i] == '\n';
            assert(first[i] == '\n');
        }
    }
    lemma_line_end(longer, rest);
    let other = longer + seq!['\n'] + rest;
    assert(other =~= first + seq!['\r', '\n'] + rest);
    assert(other.take(longer.len() as int) =~= longer);
    assert(other.skip(longer.len() as int + 1) =~= rest);
    assert(longer.drop_last() =~= first);
}

/// The lines of a text are given in order, and one of them is found exactly where it
/// is among them.
pub proof fn lines_are_given_and_found(s: &str, wanted: &str, r: Vec<String>, found: bool)
    requires
        call_ensures(lines_of, (s,), r),
        call_ensures(has_line, (s, wanted), found),
    ensures
        texts(r@) == lines(s@),
        found <==> exists|i: int| 0 <= i < r@.len() && #[trigger] r@[i]@ == wanted@,
{
    if found {
        let i = choose|i: int| 0 <= i < lines(s@).len() && lines(s@)[i] == wanted@;
        assert(texts(r@)[i] == r@[i]@);
        assert(0 <= i < r@.len());
    }
    if exists|i: int| 0 <= i < r@.len() && #[trigger] r@[i]@ == wanted@ {
        let i = choose|i: int| 0 <= i < r@.len() && #[trigger] r@[i]@ == wanted@;
        assert(texts(r@)[i] == wanted@);
        assert(lines(s@)[i] == wanted@);
    }
}

/// Joining begins with the first part, and puts the separator before each further
/// one, at the end.
pub proof fn joining_goes_on_at_the_end(
    parts: Seq<Seq<char>>,
    last: Seq<char>,
    sep: &str,
    all: &[String],
    r: String,
)
    requires
        call_ensures(join, (all, sep), r),
        texts(all@) == parts.push(last),
    ensures
        parts.len() == 0 ==> r@ == last,
        parts.len() > 0 ==> r@ == joined(parts, sep@) + sep@ + last,
        joined(Seq::<Seq<char>>::empty(), sep@) == Seq::<char>::empty(),
        joined(seq![last], sep@) == last,
{
    assert(parts.push(last).drop_last() =~= parts);
    assert(joined(Seq::<Seq<char>>::empty(), sep@) =~= Seq::<char>::empty());
}

/// Texts are the same, and have a start or an end, character for character.
pub proof fn texts_are_compared_by_their_characters(
    s: &str,
    part: &str,
    same: bool,
    starts: bool,
    ends: bool,
)
    requires
        call_ensures(same_text, (s, part), same),
        call_ensures(has_prefix, (s, part), starts),
        call_ensures(has_suffix, (s, part), ends),
    ensures
        same <==> s@ == part@,
        starts <==> exists|rest: Seq<char>| s@ == #[trigger] (part@ + rest),
        ends <==> exists|rest: Seq<char>| s@ == #[trigger] (rest + part@),
{
    if starts {
        assert(s@ =~= part@ + s@.skip(part@.len() as int));
    }
    if exists|rest: Seq<char>| s@ == #[trigger] (part@ + rest) {
        let rest = choose|rest: Seq<char>| s@ == #[trigger] (part@ + rest);
        assert(s@.subrange(0, part@.len() as int) =~= part@);
    }
    if ends {
        assert(s@ =~= s@.take(s@.len() - part@.len()) + part@);
    }
    if exists|rest: Seq<char>| s@ == #[trigger] (rest + part@) {
        let rest = choose|rest: Seq<char>| s@ == #[trigger] (rest + part@);
        assert(s@.subrange(s@.len() - part@.len(), s@.len() as int) =~= part@);
    }
}

/// A text is filled up behind with spaces, to the width where it is shorter; its own
/// characters stay.
pub proof fn padding_adds_spaces_behind(s: &str, width: usize, r: String)
    requires
        call_ensures(pad_right, (s, width), r),
    ensures
        r@.len() == if s@.len() < width {
            width as nat
        } else {
            s@.len()
        },
        r@.take(s@.len() as int) == s@,
        forall|i: int| s@.len() <= i < r@.len() ==> #[trigger] r@[i] == ' ',
{
    assert(r@.take(s@.len() as int) =~= s@);
}

proof fn lemma_order_behind_a_start(start: Seq<char>, a: Seq<char>, b: Seq<char>)
    ensures
        comes_before(start + a, start + b) == comes_before(a, b),
    decreases start.len(),
{
    if start.len() > 0 {
        lemma_order_behind_a_start(start.skip(1), a, b);
        assert((start + a).skip(1) =~= start.skip(1) + a);
        assert((start + b).skip(1) =~= start.skip(1) + b);
    } else {
        assert(start + a =~= a);
        assert(start + b =~= b);
    }
}

/// Names are ordered by the first character in which they differ, and a name comes
/// before the longer ones that start with it.
pub proof fn names_are_ordered_by_their_first_difference(
    start: Seq<char>,
    a: Seq<char>,
    b: Seq<char>,
    first: &str,
    second: &str,
    r: bool,
)
    requires
        call_ensures(is_before, (first, second), r),
        first@ == start + a,
        second@ == start + b,
        a.len() == 0 || b.len() == 0 || a[0] != b[0],
    ensures
        r <==> b.len() > 0 && (a.len() == 0 || a[0] < b[0]),
{
    lemma_order_behind_a_start(start, a, b);
}

proof fn lemma_inserted_at(
    rows: Seq<(Seq<char>, Seq<char>)>,
    row: (Seq<char>, Seq<char>),
) -> (at: int)
    ensures
        0 <= at <= rows.len(),
        row_inserted(rows, row) == rows.take(at).push(row) + rows.skip(at),
        at > 0 ==> !comes_before(row.0, rows[at - 1].0),
        forall|j: int| at <= j < rows.len() ==> comes_before(row.0, (#[trigger] rows[j]).0),
    decreases rows.len(),
{
    if rows.len() == 0 || !comes_before(row.0, rows.last().0) {
        assert(rows.push(row) =~= rows.take(rows.len() as int).push(row) + rows.skip(
            rows.len() as int,
        ));
        rows.len() as int
    } else {
        let init = rows.drop_last();
        let at = lemma_inserted_at(init, row);
        assert(row_inserted(rows, row) =~= rows.take(at).push(row) + rows.skip(at)) by {
            assert(init.take(at) =~= rows.take(at));
            assert(init.skip(at).push(rows.last()) =~= rows.skip(at));
        }
        assert forall|j: int| at <= j < rows.len() implies comes_before(
            row.0,
            (#[trigger] rows[j]).0,
        ) by {
            if j < init.len() {
                assert(init[j] == rows[j]);
            }
        }
        at
    }
}

/// A row is put behind the last row that its name does not come before; the others
/// stay as they are.
pub proof fn rows_are_put_in_their_place(rows: &mut Vec<(String, String)>, row: (String, String))
    requires
        call_ensures(insert_row, (rows, row), ()),
    ensures
        exists|at: int|
            #![trigger row_texts(old(rows)@).take(at)]
            0 <= at <= old(rows)@.len() && row_texts(final(rows)@) == row_texts(
                old(rows)@,
            ).take(at).push((row.0@, row.1@)) + row_texts(old(rows)@).skip(at) && (at > 0
                ==> !comes_before(row.0@, old(rows)@[at - 1].0@)) && (forall|j: int|
                at <= j < old(rows)@.len() ==> comes_before(
                    row.0@,
                    (#[trigger] old(rows)@[j]).0@,
                )),
{
    let before = row_texts(old(rows)@);
    let at = lemma_inserted_at(before, (row.0@, row.1@));
    assert forall|j: int| at <= j < old(rows)@.len() implies comes_before(
        row.0@,
        (#[trigger] old(rows)@[j]).0@,
    ) by {
        assert(comes_before(row.0@, before[j].0));
    }
    if at > 0 {
        assert(!comes_before(row.0@, before[at - 1].0));
    }
    assert(before.take(at).len() == at);
}

/// A variable that is set is found, under its name alone; and what was set under
/// other names stays.
pub proof fn set_variables_are_found(
    env: &mut EnvForward,
    name: &str,
    value: &str,
    other: &str,
    before: bool,
    after: bool,
)
    requires
        call_ensures(EnvForward::set, (env, name, value), ()),
        call_ensures(EnvForward::contains, (&*old(env), other), before),
        call_ensures(EnvForward::contains, (&*final(env), other), after),
    ensures
        after <==> before || other@ == name@,
        final(env)@.dom().contains(name@),
        final(env)@[name@] == value@,
        other@ != name@ && before ==> final(env)@[other@] == old(env)@[other@],
{
}

/// A command line is its literal texts as they are, and its values as words, in the
/// order in which they were added.
pub proof fn command_lines_are_built_in_order(
    start: RemoteCommand,
    text: &str,
    value: &str,
    told: RemoteCommand,
    whole: RemoteCommand,
    line: String,
)
    requires
        call_ensures(RemoteCommand::new, (), start),
        call_ensures(RemoteCommand::literal, (start, text), told),
        call_ensures(RemoteCommand::arg, (told, value), whole),
        call_ensures(RemoteCommand::into_string, (whole,), line),
    ensures
        line@.len() >= text@.len(),
        line@.take(text@.len() as int) == text@,
        read_word(line@.skip(text@.len() as int), false) == Some((value@, Seq::<char>::empty())),
{
    let escaped = crate::shell::escaped(value@);
    assert(told@ =~= text@);
    assert(line@.take(text@.len() as int) =~= text@);
    assert(line@.skip(text@.len() as int) =~= escaped);
    escaped_value_is_one_word(value@, seq![]);
    assert(escaped + Seq::<char>::empty() =~= escaped);
}

/// A profile is put under its name, where it is found again; all other profiles, and
/// all other settings, stay. At first nothing is configured.
pub proof fn profiles_are_put_under_their_names(
    cfg: &mut CoopConfig,
    name: String,
    profile: CustomProfile,
    other: Seq<char>,
    first: CoopConfig,
)
    requires
        old(cfg).is_valid(),
        call_ensures(CoopConfig::set_profile, (cfg, name, profile), ()),
        call_ensures(CoopConfig::default, (), first),
    ensures
        final(cfg).is_valid(),
        exists|at: int|
            0 <= at < final(cfg).profiles@.len() && (#[trigger] final(cfg).profiles@[at]).0@
                == name@ && final(cfg).profiles@[at].1@ == profile@,
        other != name@ ==> (profile_map(final(cfg).profiles@).dom().contains(other) <==>
            profile_map(old(cfg).profiles@).dom().contains(other)),
        other != name@ && profile_map(old(cfg).profiles@).dom().contains(other) ==> profile_map(
            final(cfg).profiles@,
        )[other] == profile_map(old(cfg).profiles@)[other],
        final(cfg).private_egress == old(cfg).private_egress,
        final(cfg).guest_timezone == old(cfg).guest_timezone,
        final(cfg).claude_local_model == old(cfg).claude_local_model,
        final(cfg).codex_local_model == old(cfg).codex_local_model,
        first.private_egress is None,
        first.guest_timezone is None,
        first.profiles@.len() == 0,
        first.claude_local_model is None,
        first.codex_local_model is None,
{
    let after = final(cfg).profiles@;
    assert(profile_map(after).dom().contains(name@));
    let at = choose|at: int| crate::config::is_named(after, name@, at);
    assert(crate::config::is_named(after, name@, at));
    profiles_are_found_by_name(after, at);
}

/// A failure holds its text and what caused it: nothing, the reason that was told, or
/// that a text is no address. The failure to harden a subscription has the error's own
/// text.
pub proof fn failures_hold_text_and_cause(
    message: &str,
    reason: String,
    plain: Failure,
    told: Failure,
    unread: Failure,
    error: HardenError,
    text: String,
    unhardened: Failure,
)
    requires
        call_ensures(HardenError::message, (&error,), text),
        call_ensures(Failure::unhardened, (error,), unhardened),
        call_ensures(Failure::refused, (message,), plain),
        call_ensures(Failure::told, (message, reason), told),
        call_ensures(Failure::no_address, (message,), unread),
    ensures
        plain.message@ == message@,
        plain.cause is Nothing,
        failed_for(told, message@, reason@),
        failed_for(unread, message@, "invalid IPv4 address syntax"@),
        unhardened.message@ == text@,
        error is Unwritable ==> unhardened.cause is Yaml,
        !(error is Unwritable) ==> unhardened.cause is Nothing,
{
}

} // verus!
