//! IPv4 addresses in dotted decimal notation.
use vstd::prelude::*;

use crate::text::{chars_of, decimal, decimal_text, digit_char};

verus! {

/// An IPv4 address.
#[derive(Debug, Clone, Copy, PartialEq, Eq, Structural)]
pub struct Ipv4Address {
    pub a: u8,
    pub b: u8,
    pub c: u8,
    pub d: u8,
}

impl Ipv4Address {
    /// The address in dotted decimal notation: four numbers without leading
    /// zeros, with a dot between each two of them.
    pub open spec fn text(self) -> Seq<char> {
        decimal(self.a as nat) + seq!['.'] + decimal(self.b as nat) + seq!['.'] + decimal(
            self.c as nat,
        ) + seq!['.'] + decimal(self.d as nat)
    }

    /// Writes the address in dotted decimal notation.
    pub fn to_text(&self) -> (s: String)
        ensures
            s@ == self.text(),
    {
        let mut s = decimal_text(self.a as u64);
        s.push('.');
        s.append(decimal_text(self.b as u64).as_str());
        s.push('.');
        s.append(decimal_text(self.c as u64).as_str());
        s.push('.');
        s.append(decimal_text(self.d as u64).as_str());
        proof {
            assert(s@ =~= self.text());
        }
        s
    }
}

spec fn is_digit(c: char) -> bool {
    '0' <= c <= '9'
}

/// Whether the number `v`, and no longer run of digits, stands at `start`.
spec fn octet_at(s: Seq<char>, start: int, v: u8) -> bool {
    let end = start + decimal(v as nat).len();
    &&& 0 <= start
    &&& end <= s.len()
    &&& s.subrange(start, end) == decimal(v as nat)
    &&& end == s.len() || !is_digit(s[end])
}

/// The digits of a number below 256, one by one.
proof fn lemma_octet_digits(v: u8)
    ensures
        v < 10 ==> decimal(v as nat) == seq![digit_char(v as nat)],
        10 <= v < 100 ==> decimal(v as nat) == seq![
            digit_char((v / 10) as nat),
            digit_char((v % 10) as nat),
        ],
        100 <= v ==> decimal(v as nat) == seq![
            digit_char((v / 100) as nat),
            digit_char(((v / 10) % 10) as nat),
            digit_char((v % 10) as nat),
        ],
        forall|i: int|
            0 <= i < decimal(v as nat).len() ==> is_digit(#[trigger] decimal(v as nat)[i]),
{
    reveal_with_fuel(decimal, 4);
    if 10 <= v < 100 {
        assert(decimal(v as nat) =~= seq![
            digit_char((v / 10) as nat),
            digit_char((v % 10) as nat),
        ]);
    }
    if 100 <= v {
        assert((v as nat / 10) / 10 == v as nat / 100);
        assert(decimal(v as nat) =~= seq![
            digit_char((v / 100) as nat),
            digit_char(((v / 10) % 10) as nat),
            digit_char((v % 10) as nat),
        ]);
    }
}

/// At one place stands at most one number.
proof fn lemma_octet_at_unique(s: Seq<char>, start: int, v: u8, w: u8)
    requires
        octet_at(s, start, v),
        octet_at(s, start, w),
    ensures
        v == w,
{
    lemma_octet_digits(v);
    lemma_octet_digits(w);
    let n = decimal(v as nat).len() as int;
    let m = decimal(w as nat).len() as int;
    if n < m {
        assert(s[start + n] == s.subrange(start, start + m)[n]);
    }
    if m < n {
        assert(s[start + m] == s.subrange(start, start + n)[m]);
    }
    assert(decimal(v as nat) == decimal(w as nat));
    assert(forall|i: int|
        0 <= i < n ==> #[trigger] decimal(v as nat)[i] == decimal(w as nat)[i]);
    assert(decimal(v as nat)[0] == decimal(w as nat)[0]);
    assert(decimal(v as nat)[n - 1] == decimal(w as nat)[n - 1]);
    if n == 3 {
        assert(decimal(v as nat)[1] == decimal(w as nat)[1]);
    }
}

/// The value of a decimal digit.
fn digit_value(c: char) -> (r: Option<u8>)
    ensures
        match r {
            Some(d) => d < 10 && c == digit_char(d as nat) && is_digit(c),
            None => !is_digit(c),
        },
{
    if '0' <= c && c <= '9' {
        let u: u32 = c as u32;
        Some((u - 48) as u8)
    } else {
        None
    }
}

/// Reads the number that stands at `start`, and where it ends.
fn read_octet(chars: &Vec<char>, start: usize) -> (r: Option<(u8, usize)>)
    requires
        start <= chars@.len(),
    ensures
        match r {
            Some((v, end)) => octet_at(chars@, start as int, v) && end == start + decimal(
                v as nat,
            ).len(),
            None => forall|v: u8| !octet_at(chars@, start as int, v),
        },
{
    let len: usize = chars.len();
    let mut value: u32 = 0;
    let mut n: usize = 0;
    let mut end: usize = start;
    let ghost s = chars@;
    while end < len && n < 4
        invariant
            s == chars@,
            len == chars@.len(),
            start <= end <= len,
            n == end - start,
            n <= 4,
            forall|i: int| start <= i < end ==> is_digit(#[trigger] s[i]),
            n == 0 ==> value == 0,
            n == 1 ==> value < 10 && s[start as int] == digit_char(value as nat),
            n == 2 ==> value < 100 && s[start as int] == digit_char((value / 10) as nat) && s[start
                + 1] == digit_char((value % 10) as nat),
            n == 3 ==> value < 1000 && s[start as int] == digit_char((value / 100) as nat) && s[
            start + 1] == digit_char(((value / 10) % 10) as nat) && s[start + 2] == digit_char(
                (value % 10) as nat,
            ),
            n == 4 ==> value < 10000,
        ensures
            n < 4 ==> end == len || !is_digit(s[end as int]),
        decreases 4 - n,
    {
        match digit_value(chars[end]) {
            Some(d) => {
                value = value * 10 + d as u32;
                n = n + 1;
                end = end + 1;
            },
            None => {
                break;
            },
        }
    }
    proof {
        assert forall|v: u8| octet_at(s, start as int, v) implies decimal(v as nat).len() == n
            && value == v as u32 by {
            lemma_octet_digits(v);
            let m = decimal(v as nat).len() as int;
            if n < m {
                assert(s[start + n] == s.subrange(start as int, start + m)[n as int]);
            }
            if m < n {
                assert(is_digit(s[start + m]));
            }
            assert(forall|i: int|
                0 <= i < m ==> s[start + i] == #[trigger] s.subrange(start as int, start + m)[i]);
            assert(s[start as int] == decimal(v as nat)[0]);
            assert(s[start + m - 1] == decimal(v as nat)[m - 1]);
            if m == 3 {
                assert(s[start + 1] == decimal(v as nat)[1]);
            }
        }
    }
    if n == 0 || n == 4 || value > 255 {
        proof {
            assert forall|v: u8| !octet_at(s, start as int, v) by {
                lemma_octet_digits(v);
            }
        }
        return None;
    }
    let octet: u8 = value as u8;
    if (n == 2 && octet < 10) || (n == 3 && octet < 100) {
        proof {
            assert forall|v: u8| !octet_at(s, start as int, v) by {
                lemma_octet_digits(v);
            }
        }
        return None;
    }
    proof {
        lemma_octet_digits(octet);
        assert(s.subrange(start as int, end as int) =~= decimal(octet as nat));
    }
    Some((octet, end))
}

/// Whether a dot stands at `at`, with the number `v` after it.
spec fn dot_octet_at(s: Seq<char>, at: int, v: u8) -> bool {
    &&& 0 <= at < s.len()
    &&& s[at] == '.'
    &&& octet_at(s, at + 1, v)
}

/// Whether the four numbers of `x`, with dots between them, make up `s`.
spec fn is_parts(s: Seq<char>, x: Ipv4Address) -> bool {
    let p1 = decimal(x.a as nat).len() as int;
    let p2 = p1 + 1 + decimal(x.b as nat).len();
    let p3 = p2 + 1 + decimal(x.c as nat).len();
    let p4 = p3 + 1 + decimal(x.d as nat).len();
    &&& octet_at(s, 0, x.a)
    &&& dot_octet_at(s, p1, x.b)
    &&& dot_octet_at(s, p2, x.c)
    &&& dot_octet_at(s, p3, x.d)
    &&& p4 == s.len()
}

proof fn lemma_text_parts(s: Seq<char>, x: Ipv4Address)
    ensures
        s == x.text() <==> is_parts(s, x),
{
    let p1 = decimal(x.a as nat).len() as int;
    let p2 = p1 + 1 + decimal(x.b as nat).len();
    let p3 = p2 + 1 + decimal(x.c as nat).len();
    let p4 = p3 + 1 + decimal(x.d as nat).len();
    if s == x.text() {
        assert(s.subrange(0, p1) =~= decimal(x.a as nat));
        assert(s.subrange(p1 + 1, p2) =~= decimal(x.b as nat));
        assert(s.subrange(p2 + 1, p3) =~= decimal(x.c as nat));
        assert(s.subrange(p3 + 1, p4) =~= decimal(x.d as nat));
    }
    if is_parts(s, x) {
        assert(s =~= s.subrange(0, p1) + seq!['.'] + s.subrange(p1 + 1, p2) + seq!['.']
            + s.subrange(p2 + 1, p3) + seq!['.'] + s.subrange(p3 + 1, p4));
    }
}

/// Two addresses that make up the same text have the same numbers.
proof fn lemma_parts_unique(s: Seq<char>, x: Ipv4Address, y: Ipv4Address)
    requires
        is_parts(s, x),
        is_parts(s, y),
    ensures
        x == y,
{
    lemma_octet_at_unique(s, 0, x.a, y.a);
    let p1 = decimal(x.a as nat).len() as int;
    lemma_octet_at_unique(s, p1 + 1, x.b, y.b);
    let p2 = p1 + 1 + decimal(x.b as nat).len();
    lemma_octet_at_unique(s, p2 + 1, x.c, y.c);
    let p3 = p2 + 1 + decimal(x.c as nat).len();
    lemma_octet_at_unique(s, p3 + 1, x.d, y.d);
}

/// Two addresses with the same text are the same address.
pub proof fn text_is_injective(x: Ipv4Address, y: Ipv4Address)
    requires
        x.text() == y.text(),
    ensures
        x == y,
{
    lemma_text_parts(x.text(), x);
    lemma_text_parts(x.text(), y);
    lemma_parts_unique(x.text(), x, y);
}

/// Reads a dot at `at` and the number after it, and where that ends.
fn read_dot_octet(chars: &Vec<char>, at: usize) -> (r: Option<(u8, usize)>)
    requires
        at <= chars@.len(),
    ensures
        match r {
            Some((v, end)) => dot_octet_at(chars@, at as int, v) && end == at + 1 + decimal(
                v as nat,
            ).len(),
            None => forall|v: u8| !dot_octet_at(chars@, at as int, v),
        },
{
    if at < chars.len() && chars[at] == '.' {
        read_octet(chars, at + 1)
    } else {
        None
    }
}

fn parse_octets(chars: &Vec<char>) -> (r: Option<Ipv4Address>)
    ensures
        match r {
            Some(x) => is_parts(chars@, x),
            None => forall|x: Ipv4Address| !is_parts(chars@, x),
        },
{
    let ghost s = chars@;
    if let Some((a, p1)) = read_octet(chars, 0) {
        proof {
            assert forall|x: Ipv4Address| is_parts(s, x) implies x.a == a by {
                lemma_octet_at_unique(s, 0, x.a, a);
            }
        }
        if let Some((b, p2)) = read_dot_octet(chars, p1) {
            proof {
                assert forall|x: Ipv4Address| is_parts(s, x) implies x.b == b by {
                    assert(x.a == a);
                    lemma_octet_at_unique(s, p1 + 1, x.b, b);
                }
            }
            if let Some((c, p3)) = read_dot_octet(chars, p2) {
                proof {
                    assert forall|x: Ipv4Address| is_parts(s, x) implies x.c == c by {
                        assert(x.a == a && x.b == b);
                        lemma_octet_at_unique(s, p2 + 1, x.c, c);
                    }
                }
                if let Some((d, p4)) = read_dot_octet(chars, p3) {
                    proof {
                        assert forall|x: Ipv4Address| is_parts(s, x) implies x.d == d by {
                            assert(x.a == a && x.b == b && x.c == c);
                            lemma_octet_at_unique(s, p3 + 1, x.d, d);
                        }
                    }
                    if p4 == chars.len() {
                        return Some(Ipv4Address { a, b, c, d });
                    }
                }
            }
        }
    }
    None
}

/// The address that a text is, where it is one.
pub open spec fn address_of(s: Seq<char>) -> Option<Ipv4Address> {
    if exists|x: Ipv4Address| s == #[trigger] x.text() {
        Some(choose|x: Ipv4Address| s == #[trigger] x.text())
    } else {
        None
    }
}

/// An address is read back from its own text.
pub proof fn address_text_reads_back(x: Ipv4Address)
    ensures
        address_of(x.text()) == Some(x),
{
    let found = choose|y: Ipv4Address| x.text() == #[trigger] y.text();
    assert(x.text() == x.text());
    text_is_injective(x, found);
}

/// A text that is read as an address is that address's own text.
pub proof fn read_address_is_its_text(s: Seq<char>, x: Ipv4Address)
    requires
        address_of(s) == Some(x),
    ensures
        s == x.text(),
{
}

/// Parses an address in dotted decimal notation. Accepted is exactly what
/// [`Ipv4Address::to_text`] writes: no leading zeros, nothing around it.
pub fn parse_ipv4(s: &str) -> (r: Option<Ipv4Address>)
    ensures
        match r {
            Some(x) => s@ == x.text(),
            None => forall|y: Ipv4Address| s@ != #[trigger] y.text(),
        },
        r == address_of(s@),
{
    let chars = chars_of(s);
    let r = parse_octets(&chars);
    proof {
        if let Some(x) = r {
            lemma_text_parts(s@, x);
            address_text_reads_back(x);
        }
        assert forall|x: Ipv4Address| r is None implies s@ != #[trigger] x.text() by {
            lemma_text_parts(s@, x);
        }
    }
    r
}

} // verus!
