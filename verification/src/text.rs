//! Plain text helpers: building, joining, trimming and comparing strings.
use vstd::prelude::*;

verus! {

/// `String::push` appends one character to the end of the string.
pub assume_specification[ String::push ](s: &mut String, c: char)
    ensures
        final(s)@ == old(s)@.push(c),
;

/// The views of a list of strings.
pub open spec fn texts(items: Seq<String>) -> Seq<Seq<char>> {
    Seq::new(items.len(), |i: int| items[i]@)
}

/// The views of a list of string slices.
pub open spec fn str_texts(items: Seq<&str>) -> Seq<Seq<char>> {
    Seq::new(items.len(), |i: int| items[i]@)
}

/// The view of an optional string.
pub open spec fn opt_text(item: Option<String>) -> Option<Seq<char>> {
    match item {
        Some(s) => Some(s@),
        None => None,
    }
}

/// The characters of `s`, in order.
pub fn chars_of(s: &str) -> (chars: Vec<char>)
    ensures
        chars@ == s@,
{
    let mut chars: Vec<char> = Vec::new();
    for c in it: s.chars()
        invariant
            it.seq() == s@,
            chars@ == s@.take(it.index() as int),
    {
        chars.push(c);
    }
    chars
}

/// The string made of `chars`.
pub fn string_of(chars: &[char]) -> (s: String)
    ensures
        s@ == chars@,
{
    let mut s = String::new();
    for i in 0..chars.len()
        invariant
            s@ == chars@.take(i as int),
    {
        s.push(chars[i]);
    }
    s
}

/// Whether two strings hold the same characters.
pub fn same_text(a: &str, b: &str) -> (r: bool)
    ensures
        r == (a@ == b@),
{
    let a_chars = chars_of(a);
    let b_chars = chars_of(b);
    if a_chars.len() != b_chars.len() {
        return false;
    }
    for i in 0..a_chars.len()
        invariant
            a_chars@ == a@,
            b_chars@ == b@,
            a@.len() == b@.len(),
            forall|j: int| 0 <= j < i ==> a@[j] == b@[j],
    {
        if a_chars[i] != b_chars[i] {
            return false;
        }
    }
    proof {
        assert(a@ =~= b@);
    }
    true
}

/// Whether `s` starts with `prefix`.
pub fn has_prefix(s: &str, prefix: &str) -> (r: bool)
    ensures
        r == prefix@.is_prefix_of(s@),
{
    let chars = chars_of(s);
    let wanted = chars_of(prefix);
    if wanted.len() > chars.len() {
        return false;
    }
    for i in 0..wanted.len()
        invariant
            chars@ == s@,
            wanted@ == prefix@,
            wanted@.len() <= chars@.len(),
            forall|j: int| 0 <= j < i ==> wanted@[j] == chars@[j],
    {
        if wanted[i] != chars[i] {
            proof {
                assert(s@.subrange(0, prefix@.len() as int)[i as int] != prefix@[i as int]);
            }
            return false;
        }
    }
    proof {
        assert(prefix@ =~= s@.subrange(0, prefix@.len() as int));
    }
    true
}

/// Whether `s` ends with `suffix`.
pub fn has_suffix(s: &str, suffix: &str) -> (r: bool)
    ensures
        r == suffix@.is_suffix_of(s@),
{
    let chars = chars_of(s);
    let wanted = chars_of(suffix);
    if wanted.len() > chars.len() {
        return false;
    }
    let n: usize = chars.len();
    let skipped: usize = n - wanted.len();
    for i in 0..wanted.len()
        invariant
            chars@ == s@,
            wanted@ == suffix@,
            skipped + wanted@.len() == n == chars@.len(),
            forall|j: int| 0 <= j < i ==> wanted@[j] == chars@[skipped + j],
    {
        if wanted[i] != chars[skipped + i] {
            proof {
                assert(s@.subrange(skipped as int, s@.len() as int)[i as int] != suffix@[i as int]);
            }
            return false;
        }
    }
    proof {
        assert(suffix@ =~= s@.subrange(skipped as int, s@.len() as int));
    }
    true
}

/// `parts` one after another, with `sep` between each two of them.
pub open spec fn joined(parts: Seq<Seq<char>>, sep: Seq<char>) -> Seq<char>
    decreases parts.len(),
{
    if parts.len() == 0 {
        seq![]
    } else if parts.len() == 1 {
        parts[0]
    } else {
        joined(parts.drop_last(), sep) + sep + parts.last()
    }
}

/// Joins `parts` with `sep` between each two of them.
pub fn join(parts: &[String], sep: &str) -> (r: String)
    ensures
        r@ == joined(texts(parts@), sep@),
{
    let mut out = String::new();
    for i in 0..parts.len()
        invariant
            out@ == joined(texts(parts@).take(i as int), sep@),
    {
        proof {
            assert(texts(parts@).take(i + 1).drop_last() == texts(parts@).take(i as int));
        }
        if i > 0 {
            out.append(sep);
        }
        out.append(parts[i].as_str());
        proof {
            assert(out@ =~= joined(texts(parts@).take(i + 1), sep@));
        }
    }
    proof {
        assert(texts(parts@).take(parts@.len() as int) == texts(parts@));
    }
    out
}

/// Owned copies of string slices.
pub fn strings(items: &[&str]) -> (r: Vec<String>)
    ensures
        texts(r@) == str_texts(items@),
{
    let mut out: Vec<String> = Vec::new();
    for i in 0..items.len()
        invariant
            texts(out@) == str_texts(items@).take(i as int),
    {
        let ghost before = texts(out@);
        out.push(items[i].to_owned());
        proof {
            assert(texts(out@) =~= before.push(items@[i as int]@));
            assert(texts(out@) =~= str_texts(items@).take(i + 1));
        }
    }
    proof {
        assert(str_texts(items@).take(items@.len() as int) == str_texts(items@));
    }
    out
}

/// The character of a decimal digit.
pub open spec fn digit_char(d: nat) -> char {
    (('0' as nat) + d) as char
}

/// A number in decimal, without leading zeros.
pub open spec fn decimal(n: nat) -> Seq<char>
    decreases n,
{
    if n < 10 {
        seq![digit_char(n)]
    } else {
        decimal(n / 10).push(digit_char(n % 10))
    }
}

/// The character of the decimal digit `d`.
fn digit(d: u64) -> (c: char)
    requires
        d < 10,
    ensures
        c == digit_char(d as nat),
{
    (48u8 + d as u8) as char
}

/// Writes a number in decimal.
pub fn decimal_text(n: u64) -> (s: String)
    ensures
        s@ == decimal(n as nat),
    decreases n,
{
    if n < 10 {
        let mut s = String::new();
        s.push(digit(n));
        proof {
            assert(s@ =~= seq![digit_char(n as nat)]);
        }
        s
    } else {
        let mut s = decimal_text(n / 10);
        s.push(digit(n % 10));
        s
    }
}

/// The characters with the Unicode property White_Space.
pub open spec fn is_white_space(c: char) -> bool {
    let u = c as u32;
    ||| 0x09 <= u <= 0x0D
    ||| u == 0x20
    ||| u == 0x85
    ||| u == 0xA0
    ||| u == 0x1680
    ||| 0x2000 <= u <= 0x200A
    ||| u == 0x2028
    ||| u == 0x2029
    ||| u == 0x202F
    ||| u == 0x205F
    ||| u == 0x3000
}

/// Whether `c` has the Unicode property White_Space.
fn white_space(c: char) -> (r: bool)
    ensures
        r == is_white_space(c),
{
    let u: u32 = c as u32;
    (0x09 <= u && u <= 0x0D) || u == 0x20 || u == 0x85 || u == 0xA0 || u == 0x1680 || (0x2000 <= u
        && u <= 0x200A) || u == 0x2028 || u == 0x2029 || u == 0x202F || u == 0x205F || u == 0x3000
}

/// `s` without the white space at its start.
pub open spec fn trimmed_start(s: Seq<char>) -> Seq<char>
    decreases s.len(),
{
    if s.len() > 0 && is_white_space(s[0]) {
        trimmed_start(s.skip(1))
    } else {
        s
    }
}

/// `s` without the white space at its end.
pub open spec fn trimmed_end(s: Seq<char>) -> Seq<char>
    decreases s.len(),
{
    if s.len() > 0 && is_white_space(s.last()) {
        trimmed_end(s.drop_last())
    } else {
        s
    }
}

/// `s` without the white space at its start and at its end.
pub open spec fn trimmed(s: Seq<char>) -> Seq<char> {
    trimmed_end(trimmed_start(s))
}

/// Removes the white space at the start and at the end of `s`.
pub fn trim(s: &str) -> (r: String)
    ensures
        r@ == trimmed(s@),
{
    let chars = chars_of(s);
    let mut start: usize = 0;
    proof {
        assert(s@.skip(0) == s@);
    }
    while start < chars.len() && white_space(chars[start])
        invariant
            chars@ == s@,
            start <= chars@.len(),
            trimmed_start(s@) == trimmed_start(s@.skip(start as int)),
        decreases chars@.len() - start,
    {
        proof {
            assert(s@.skip(start as int).skip(1) == s@.skip(start + 1));
        }
        start = start + 1;
    }
    let mut end: usize = chars.len();
    proof {
        assert(s@.skip(start as int) =~= s@.subrange(start as int, end as int));
    }
    while end > start && white_space(chars[end - 1])
        invariant
            chars@ == s@,
            start <= end <= chars@.len(),
            trimmed(s@) == trimmed_end(s@.subrange(start as int, end as int)),
        decreases end,
    {
        proof {
            assert(s@.subrange(start as int, end as int).drop_last() == s@.subrange(
                start as int,
                end - 1,
            ));
        }
        end = end - 1;
    }
    let kept = vstd::slice::slice_subrange(chars.as_slice(), start, end);
    string_of(kept)
}

/// Whether `word` stands in `s` as a word: a non-empty run of characters that
/// are not white space, bounded on each side by white space or by the end of
/// the text.
pub open spec fn has_word(s: Seq<char>, word: Seq<char>) -> bool {
    exists|start: int| #[trigger] word_at(s, word, start)
}

/// Whether `word` stands in `s` as a word that begins at `start`.
pub open spec fn word_at(s: Seq<char>, word: Seq<char>, start: int) -> bool {
    &&& 0 <= start
    &&& start + word.len() <= s.len()
    &&& word.len() > 0
    &&& s.subrange(start, start + word.len()) == word
    &&& forall|i: int| 0 <= i < word.len() ==> !is_white_space(#[trigger] word[i])
    &&& start == 0 || is_white_space(s[start - 1])
    &&& start + word.len() == s.len() || is_white_space(s[start + word.len()])
}

/// Whether `word` is one of the words of `s` that white space separates.
pub fn contains_word(s: &str, word: &str) -> (r: bool)
    ensures
        r == has_word(s@, word@),
{
    let chars = chars_of(s);
    let wanted = chars_of(word);
    let n: usize = chars.len();
    let m: usize = wanted.len();
    if m == 0 || m > n {
        return false;
    }
    for i in 0..m
        invariant
            wanted@ == word@,
            m == wanted@.len(),
            forall|j: int| 0 <= j < i ==> !is_white_space(#[trigger] word@[j]),
    {
        if white_space(wanted[i]) {
            return false;
        }
    }
    for start in 0..(n - m + 1)
        invariant
            chars@ == s@,
            wanted@ == word@,
            n == chars@.len(),
            m == wanted@.len(),
            0 < m <= n,
            forall|j: int| 0 <= j < m ==> !is_white_space(#[trigger] word@[j]),
            forall|k: int| 0 <= k < start ==> !word_at(s@, word@, k),
    {
        if word_starts_at(&chars, &wanted, start) {
            return true;
        }
    }
    proof {
        assert forall|k: int| !word_at(s@, word@, k) by {
            if word_at(s@, word@, k) {
                assert(k < n - m + 1);
            }
        }
    }
    false
}

fn word_starts_at(chars: &Vec<char>, wanted: &Vec<char>, start: usize) -> (r: bool)
    requires
        0 < wanted@.len(),
        start + wanted@.len() <= chars@.len(),
        forall|j: int| 0 <= j < wanted@.len() ==> !is_white_space(#[trigger] wanted@[j]),
    ensures
        r == word_at(chars@, wanted@, start as int),
{
    let n: usize = chars.len();
    let m: usize = wanted.len();
    if start > 0 && !white_space(chars[start - 1]) {
        return false;
    }
    if start + m < n && !white_space(chars[start + m]) {
        return false;
    }
    for i in 0..m
        invariant
            m == wanted@.len(),
            start + m <= n == chars@.len(),
            forall|j: int| 0 <= j < i ==> chars@[start + j] == wanted@[j],
    {
        if chars[start + i] != wanted[i] {
            proof {
                assert(chars@.subrange(start as int, start + m)[i as int] != wanted@[i as int]);
            }
            return false;
        }
    }
    proof {
        assert(chars@.subrange(start as int, start + m) =~= wanted@);
    }
    true
}

/// `n` spaces.
pub open spec fn spaces(n: nat) -> Seq<char> {
    Seq::new(n, |i: int| ' ')
}

/// `s`, filled up with spaces to at least `width` characters.
pub open spec fn padded(s: Seq<char>, width: nat) -> Seq<char> {
    if s.len() < width {
        s + spaces((width - s.len()) as nat)
    } else {
        s
    }
}

/// Fills `s` up with spaces to at least `width` characters.
pub fn pad_right(s: &str, width: usize) -> (r: String)
    ensures
        r@ == padded(s@, width as nat),
{
    let len: usize = s.unicode_len();
    let mut out = s.to_owned();
    if len < width {
        for i in 0..(width - len)
            invariant
                out@ == s@ + spaces(i as nat),
        {
            out.push(' ');
            proof {
                assert(out@ =~= s@ + spaces((i + 1) as nat));
            }
        }
    }
    proof {
        assert(out@ =~= padded(s@, width as nat));
    }
    out
}

} // verus!
