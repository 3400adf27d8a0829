//! Expansion of a leading `~` in a path. Paths are the bytes of Unix paths.
use vstd::prelude::*;

verus! {

/// The byte of the slash.
pub const SLASH: u8 = 47;

/// The byte of the dot.
pub const DOT: u8 = 46;

/// The byte of the tilde.
pub const TILDE: u8 = 126;

/// Whether the first component of a path is `~`.
pub open spec fn starts_at_home(path: Seq<u8>) -> bool {
    path.len() > 0 && path[0] == TILDE && (path.len() == 1 || path[1] == SLASH)
}

/// A path without the slashes and the `.` components at its start.
pub open spec fn without_lead(path: Seq<u8>) -> Seq<u8>
    decreases path.len(),
{
    if path.len() > 0 && (path[0] == SLASH || (path[0] == DOT && (path.len() == 1 || path[1]
        == SLASH))) {
        without_lead(path.skip(1))
    } else {
        path
    }
}

/// A path without the slashes and the `.` components at its end.
pub open spec fn without_trail(path: Seq<u8>) -> Seq<u8>
    decreases path.len(),
{
    if path.len() > 0 && (path.last() == SLASH || (path.last() == DOT && (path.len() == 1
        || path[path.len() - 2] == SLASH))) {
        without_trail(path.drop_last())
    } else {
        path
    }
}

/// A relative path behind a directory.
pub open spec fn joined_bytes(dir: Seq<u8>, name: Seq<u8>) -> Seq<u8> {
    if dir.len() == 0 || dir.last() == SLASH {
        dir + name
    } else {
        dir.push(SLASH) + name
    }
}

/// A path with its leading `~` replaced by the home directory, where there is
/// such a directory.
pub open spec fn expanded(path: Seq<u8>, home: Option<Seq<u8>>) -> Seq<u8> {
    match home {
        Some(dir) if starts_at_home(path) => joined_bytes(
            dir,
            without_trail(without_lead(path.skip(1))),
        ),
        _ => path,
    }
}

/// The bytes of a home directory, where there is one.
pub open spec fn home_view(home: Option<Vec<u8>>) -> Option<Seq<u8>> {
    match home {
        Some(dir) => Some(dir@),
        None => None,
    }
}

/// Replaces a leading `~` by the given home directory.
pub fn expand_tilde_in(path: &[u8], home: Option<Vec<u8>>) -> (r: Vec<u8>)
    ensures
        r@ == expanded(path@, home_view(home)),
{
    let n: usize = path.len();
    let at_home = n > 0 && path[0] == TILDE && (n == 1 || path[1] == SLASH);
    let dir = match home {
        Some(dir) if at_home => dir,
        _ => {
            return vstd::slice::slice_to_vec(path);
        },
    };
    let mut start: usize = 1;
    while start < n && (path[start] == SLASH || (path[start] == DOT && (start + 1 == n || path[start
        + 1] == SLASH)))
        invariant
            n == path@.len(),
            1 <= start <= n,
            without_lead(path@.skip(1)) == without_lead(path@.skip(start as int)),
        decreases n - start,
    {
        proof {
            assert(path@.skip(start as int).skip(1) =~= path@.skip(start + 1));
        }
        start = start + 1;
    }
    let mut end: usize = n;
    proof {
        assert(path@.skip(start as int) =~= path@.subrange(start as int, end as int));
    }
    while end > start && (path[end - 1] == SLASH || (path[end - 1] == DOT && (end - 1 == start
        || path[end - 2] == SLASH)))
        invariant
            n == path@.len(),
            start <= end <= n,
            without_trail(without_lead(path@.skip(1))) == without_trail(
                path@.subrange(start as int, end as int),
            ),
        decreases end,
    {
        proof {
            assert(path@.subrange(start as int, end as int).drop_last() =~= path@.subrange(
                start as int,
                end - 1,
            ));
        }
        end = end - 1;
    }
    let mut out = dir;
    let ghost base = out@;
    if out.len() > 0 && out[out.len() - 1] != SLASH {
        out.push(SLASH);
    }
    let mut rest = vstd::slice::slice_to_vec(vstd::slice::slice_subrange(path, start, end));
    out.append(&mut rest);
    proof {
        assert(out@ =~= joined_bytes(base, path@.subrange(start as int, end as int)));
    }
    out
}

/// `dirs::home_dir`: the user's home directory, as the bytes of its path. It
/// depends on the environment; nothing is claimed of it.
#[verifier::external_body]
fn home_dir() -> (r: Option<Vec<u8>>) {
    dirs::home_dir().map(|home| home.into_os_string().into_encoded_bytes())
}

/// Whether this is what a call of `dirs::home_dir` gave.
pub closed spec fn told_home(home: Option<Vec<u8>>) -> bool {
    call_ensures(home_dir, (), home)
}

/// Expands a leading `~` to the home directory that the system told. A path
/// without it is given back as it is, wherever that directory is.
pub fn expand_tilde(path: &[u8]) -> (r: Vec<u8>)
    ensures
        exists|home: Option<Vec<u8>>| #[trigger]
            told_home(home) && r@ == expanded(path@, home_view(home)),
        !starts_at_home(path@) ==> r@ == path@,
{
    let home = home_dir();
    let ghost told = home;
    let r = expand_tilde_in(path, home);
    proof {
        assert(told_home(told));
    }
    r
}

/// What a leading `~` is replaced by is the home directory: the expanded path
/// begins with it.
pub proof fn expanded_path_is_at_home(path: Seq<u8>, home: Seq<u8>)
    requires
        starts_at_home(path),
    ensures
        home.is_prefix_of(expanded(path, Some(home))),
{
    let r = expanded(path, Some(home));
    assert(r.subrange(0, home.len() as int) =~= home);
}

} // verus!
