//! Quoting for POSIX shells.
use vstd::prelude::*;

use crate::text::chars_of;

verus! {

/// What one character of a value becomes between the outer single quotes.
pub open spec fn quoted_char(c: char) -> Seq<char> {
    if c == '\'' {
        seq!['\'', '\\', '\'', '\'']
    } else {
        seq![c]
    }
}

/// The text between the outer single quotes for the value `s`.
pub open spec fn quoted_body(s: Seq<char>) -> Seq<char>
    decreases s.len(),
{
    if s.len() == 0 {
        seq![]
    } else {
        quoted_body(s.drop_last()) + quoted_char(s.last())
    }
}

/// The value `s` as one single-quoted POSIX shell word.
pub open spec fn escaped(s: Seq<char>) -> Seq<char> {
    seq!['\''] + quoted_body(s) + seq!['\'']
}

/// Characters that stand for themselves in an unquoted POSIX shell word.
pub open spec fn stands_for_itself(c: char) -> bool {
    ||| 'a' <= c <= 'z'
    ||| 'A' <= c <= 'Z'
    ||| '0' <= c <= '9'
    ||| c == '-' || c == '_' || c == '.' || c == '/' || c == ':' || c == ','
}

/// Characters that end an unquoted word without starting a new command.
pub open spec fn is_blank(c: char) -> bool {
    c == ' ' || c == '\t'
}

/// Reads one word as a POSIX shell does, without any expansion: inside single
/// quotes every character is literal; outside them a backslash makes the next
/// character literal. Gives the value of the word and what follows it, or
/// `None` where the text is not such a plain word (an unterminated quote, or a
/// character to which the shell attaches another meaning).
pub open spec fn read_word(text: Seq<char>, in_quotes: bool) -> Option<(Seq<char>, Seq<char>)>
    decreases text.len(),
{
    if in_quotes {
        if text.len() == 0 {
            None
        } else if text[0] == '\'' {
            read_word(text.skip(1), false)
        } else {
            prepend(text[0], read_word(text.skip(1), true))
        }
    } else if text.len() == 0 || is_blank(text[0]) {
        Some((seq![], text))
    } else if text[0] == '\'' {
        read_word(text.skip(1), true)
    } else if text[0] == '\\' {
        if text.len() < 2 || text[1] == '\n' {
            None
        } else {
            prepend(text[1], read_word(text.skip(2), false))
        }
    } else if stands_for_itself(text[0]) {
        prepend(text[0], read_word(text.skip(1), false))
    } else {
        None
    }
}

/// Puts `c` in front of the value of a word that was read.
pub open spec fn prepend(c: char, word: Option<(Seq<char>, Seq<char>)>) -> Option<
    (Seq<char>, Seq<char>),
> {
    match word {
        Some((value, rest)) => Some((seq![c] + value, rest)),
        None => None,
    }
}

/// The words of a simple command line, or `None` where it holds anything that a
/// shell would not take literally.
pub open spec fn shell_words(text: Seq<char>) -> Option<Seq<Seq<char>>>
    decreases text.len(),
{
    if text.len() == 0 {
        Some(seq![])
    } else if is_blank(text[0]) {
        shell_words(text.skip(1))
    } else {
        match read_word(text, false) {
            Some((value, rest)) => if rest.len() < text.len() {
                match shell_words(rest) {
                    Some(words) => Some(seq![value] + words),
                    None => None,
                }
            } else {
                None
            },
            None => None,
        }
    }
}

proof fn lemma_quoted_body_first(s: Seq<char>)
    requires
        s.len() > 0,
    ensures
        quoted_body(s) == quoted_char(s[0]) + quoted_body(s.skip(1)),
    decreases s.len(),
{
    if s.len() == 1 {
        assert(s.drop_last() == Seq::<char>::empty());
        assert(s.skip(1) == Seq::<char>::empty());
        assert(quoted_body(s.drop_last()) == Seq::<char>::empty());
        assert(quoted_body(s.skip(1)) == Seq::<char>::empty());
    } else {
        lemma_quoted_body_first(s.drop_last());
        assert(s.drop_last().skip(1) == s.skip(1).drop_last());
        assert(quoted_body(s) =~= quoted_char(s[0]) + (quoted_body(s.skip(1).drop_last())
            + quoted_char(s.last())));
    }
}

proof fn lemma_reads_quoted_body(s: Seq<char>, rest: Seq<char>)
    requires
        rest.len() == 0 || is_blank(rest[0]),
    ensures
        read_word(quoted_body(s) + seq!['\''] + rest, true) == Some((s, rest)),
    decreases s.len(),
{
    let text = quoted_body(s) + seq!['\''] + rest;
    if s.len() == 0 {
        assert(text.skip(1) =~= rest);
        assert(read_word(rest, false) == Some((Seq::<char>::empty(), rest)));
        assert(s =~= seq![]);
    } else {
        let tail = quoted_body(s.skip(1)) + seq!['\''] + rest;
        lemma_quoted_body_first(s);
        lemma_reads_quoted_body(s.skip(1), rest);
        assert(seq![s[0]] + s.skip(1) =~= s);
        if s[0] == '\'' {
            assert(text =~= seq!['\'', '\\', '\'', '\''] + tail);
            let after_close = seq!['\\', '\'', '\''] + tail;
            let after_escape = seq!['\''] + tail;
            assert(text.skip(1) =~= after_close);
            assert(after_close.skip(2) =~= after_escape);
            assert(after_escape.skip(1) =~= tail);
            assert(read_word(after_escape, false) == read_word(tail, true));
            assert(read_word(after_close, false) == prepend('\'', read_word(after_escape, false)));
        } else {
            assert(text =~= seq![s[0]] + tail);
            assert(text.skip(1) =~= tail);
        }
    }
}

/// Whatever the value holds, a shell that meets it escaped, at the end of the
/// line or in front of a blank, reads one word: exactly the value.
pub proof fn escaped_value_is_one_word(s: Seq<char>, rest: Seq<char>)
    requires
        rest.len() == 0 || is_blank(rest[0]),
    ensures
        read_word(escaped(s) + rest, false) == Some((s, rest)),
{
    let text = escaped(s) + rest;
    lemma_reads_quoted_body(s, rest);
    assert(text.skip(1) =~= quoted_body(s) + seq!['\''] + rest);
}

/// Two values that are escaped to the same text are the same value.
pub proof fn escaping_is_injective(a: Seq<char>, b: Seq<char>)
    requires
        escaped(a) == escaped(b),
    ensures
        a == b,
{
    escaped_value_is_one_word(a, seq![]);
    escaped_value_is_one_word(b, seq![]);
}

/// Characters that stand for themselves read as one word: themselves.
pub proof fn plain_text_is_one_word(s: Seq<char>, rest: Seq<char>)
    requires
        rest.len() == 0 || is_blank(rest[0]),
        forall|i: int| 0 <= i < s.len() ==> stands_for_itself(#[trigger] s[i]),
    ensures
        read_word(s + rest, false) == Some((s, rest)),
    decreases s.len(),
{
    if s.len() == 0 {
        assert(s + rest =~= rest);
        assert(s =~= seq![]);
    } else {
        assert(stands_for_itself(s[0]));
        assert forall|i: int| 0 <= i < s.skip(1).len() implies stands_for_itself(
            #[trigger] s.skip(1)[i],
        ) by {
            assert(stands_for_itself(s[i + 1]));
        }
        plain_text_is_one_word(s.skip(1), rest);
        assert((s + rest).skip(1) =~= s.skip(1) + rest);
        assert(seq![s[0]] + s.skip(1) =~= s);
    }
}

/// Puts a word in front of the words of a command line.
pub open spec fn word_first(word: Seq<char>, words: Option<Seq<Seq<char>>>) -> Option<
    Seq<Seq<char>>,
> {
    match words {
        Some(words) => Some(seq![word] + words),
        None => None,
    }
}

/// The words of a command line that begins with plain text and a blank.
pub proof fn words_after_plain_text(s: Seq<char>, rest: Seq<char>)
    requires
        s.len() > 0,
        forall|i: int| 0 <= i < s.len() ==> stands_for_itself(#[trigger] s[i]),
    ensures
        shell_words(s + seq![' '] + rest) == word_first(s, shell_words(rest)),
{
    let after = seq![' '] + rest;
    assert(stands_for_itself(s[0]));
    plain_text_is_one_word(s, after);
    assert(s + seq![' '] + rest =~= s + after);
    assert(after.skip(1) =~= rest);
    assert(shell_words(after) == shell_words(rest));
}

/// The words of a command line that begins with an escaped value and a blank.
pub proof fn words_after_escaped_value(s: Seq<char>, rest: Seq<char>)
    ensures
        shell_words(escaped(s) + seq![' '] + rest) == word_first(s, shell_words(rest)),
{
    let after = seq![' '] + rest;
    escaped_value_is_one_word(s, after);
    assert(escaped(s) + seq![' '] + rest =~= escaped(s) + after);
    assert(after.skip(1) =~= rest);
    assert(shell_words(after) == shell_words(rest));
}

/// A command line that is one escaped value has that value as its only word.
pub proof fn words_of_escaped_value(s: Seq<char>)
    ensures
        shell_words(escaped(s)) == Some(seq![s]),
{
    escaped_value_is_one_word(s, seq![]);
    assert(escaped(s) + seq![] =~= escaped(s));
    assert(shell_words(Seq::<char>::empty()) == Some(Seq::<Seq<char>>::empty()));
    assert(seq![s] + Seq::<Seq<char>>::empty() =~= seq![s]);
}

/// Escape a string for safe inclusion in a POSIX shell command.
///
/// The value is wrapped in single quotes, inside which a POSIX shell expands
/// nothing. The one character that cannot stand there, `'` itself, is written
/// as `'\''`: end of quotes, an escaped quote, start of quotes.
pub fn shell_escape(s: &str) -> (r: String)
    ensures
        r@ == escaped(s@),
{
    let chars = chars_of(s);
    let mut out = String::new();
    out.push('\'');
    for i in 0..chars.len()
        invariant
            chars@ == s@,
            out@ == seq!['\''] + quoted_body(s@.take(i as int)),
    {
        proof {
            assert(s@.take(i + 1).drop_last() == s@.take(i as int));
        }
        if chars[i] == '\'' {
            out.push('\'');
            out.push('\\');
            out.push('\'');
            out.push('\'');
        } else {
            out.push(chars[i]);
        }
        proof {
            assert(out@ =~= seq!['\''] + (quoted_body(s@.take(i as int)) + quoted_char(
                s@[i as int],
            )));
        }
    }
    proof {
        assert(s@.take(s@.len() as int) == s@);
    }
    out.push('\'');
    proof {
        assert(out@ =~= escaped(s@));
    }
    out
}

} // verus!
