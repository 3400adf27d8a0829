//! The lines of a text.
use vstd::prelude::*;

use crate::text::{chars_of, same_text, string_of, texts};

verus! {

/// Where the first line of `s` ends: at its line feed, or at the end of `s`.
pub open spec fn line_end(s: Seq<char>) -> int
    decreases s.len(),
{
    if s.len() == 0 || s[0] == '\n' {
        0
    } else {
        1 + line_end(s.skip(1))
    }
}

/// `s` without the carriage return at its end, where there is one.
pub open spec fn without_return(s: Seq<char>) -> Seq<char> {
    if s.len() > 0 && s.last() == '\r' {
        s.drop_last()
    } else {
        s
    }
}

/// The lines of `s`. A line ends at a line feed, or at a carriage return and a
/// line feed; the last one may also end with the text.
pub open spec fn lines(s: Seq<char>) -> Seq<Seq<char>>
    decreases s.len(),
{
    if s.len() == 0 {
        seq![]
    } else {
        let end = line_end(s);
        if 0 <= end < s.len() {
            seq![without_return(s.take(end))] + lines(s.skip(end + 1))
        } else {
            seq![s]
        }
    }
}

/// Where the line that begins at `start` ends.
fn find_line_end(chars: &Vec<char>, start: usize) -> (end: usize)
    requires
        start <= chars@.len(),
    ensures
        start <= end <= chars@.len(),
        end - start == line_end(chars@.skip(start as int)),
        end < chars@.len() ==> chars@[end as int] == '\n',
{
    let mut end: usize = start;
    while end < chars.len() && chars[end] != '\n'
        invariant
            start <= end <= chars@.len(),
            line_end(chars@.skip(start as int)) == end - start + line_end(chars@.skip(end as int)),
        decreases chars@.len() - end,
    {
        proof {
            assert(chars@.skip(end as int).skip(1) =~= chars@.skip(end + 1));
        }
        end = end + 1;
    }
    end
}

/// The lines of a text.
pub fn lines_of(s: &str) -> (r: Vec<String>)
    ensures
        texts(r@) == lines(s@),
{
    let chars = chars_of(s);
    let n: usize = chars.len();
    let mut out: Vec<String> = Vec::new();
    let mut start: usize = 0;
    proof {
        assert(s@.skip(0) =~= s@);
        assert(texts(out@) + lines(s@) =~= lines(s@));
    }
    while start < n
        invariant
            chars@ == s@,
            n == chars@.len(),
            start <= n,
            lines(s@) == texts(out@) + lines(s@.skip(start as int)),
        decreases n - start,
    {
        let ghost before = texts(out@);
        let ghost rest = s@.skip(start as int);
        let end = find_line_end(&chars, start);
        if end == n {
            let line = string_of(vstd::slice::slice_subrange(chars.as_slice(), start, end));
            proof {
                assert(line@ =~= rest);
            }
            out.push(line);
            proof {
                assert(texts(out@) =~= before.push(rest));
                assert(lines(rest) == seq![rest]);
                assert(before + seq![rest] =~= before.push(rest));
            }
            return out;
        }
        let stop: usize = if end > start && chars[end - 1] == '\r' {
            end - 1
        } else {
            end
        };
        let line = string_of(vstd::slice::slice_subrange(chars.as_slice(), start, stop));
        let ghost held = line@;
        proof {
            assert(held =~= without_return(rest.take(end - start)));
            assert(rest.skip(end - start + 1) =~= s@.skip(end + 1));
        }
        out.push(line);
        proof {
            assert(texts(out@) =~= before.push(held));
            assert(before + (seq![held] + lines(s@.skip(end + 1))) =~= before.push(held) + lines(
                s@.skip(end + 1),
            ));
        }
        start = end + 1;
    }
    proof {
        assert(s@.skip(start as int) =~= seq![]);
        assert(texts(out@) + Seq::<Seq<char>>::empty() =~= texts(out@));
    }
    out
}

/// Whether one of the lines of a text is `wanted`.
pub fn has_line(s: &str, wanted: &str) -> (r: bool)
    ensures
        r == lines(s@).contains(wanted@),
{
    let all = lines_of(s);
    for i in 0..all.len()
        invariant
            texts(all@) == lines(s@),
            forall|j: int| 0 <= j < i ==> #[trigger] lines(s@)[j] != wanted@,
    {
        proof {
            assert(texts(all@)[i as int] == all@[i as int]@);
        }
        if same_text(all[i].as_str(), wanted) {
            return true;
        }
    }
    proof {
        assert(lines(s@).len() == all@.len());
    }
    false
}

} // verus!
