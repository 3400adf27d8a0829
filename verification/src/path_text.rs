//! Unix paths as text: their file names, extensions and parents.
use vstd::prelude::*;

use crate::text::{chars_of, string_of};

verus! {

/// A path without the slashes at its end, and without the `.` components there.
pub open spec fn without_tail(path: Seq<char>) -> Seq<char>
    decreases path.len(),
{
    if path.len() > 0 && (path.last() == '/' || (path.last() == '.' && path.len() > 1
        && path[path.len() - 2] == '/')) {
        without_tail(path.drop_last())
    } else {
        path
    }
}

/// What follows the last slash.
pub open spec fn after_slash(path: Seq<char>) -> Seq<char>
    decreases path.len(),
{
    if path.len() == 0 || path.last() == '/' {
        seq![]
    } else {
        after_slash(path.drop_last()).push(path.last())
    }
}

/// The last component of a path, where that is a name.
pub open spec fn file_name(path: Seq<char>) -> Option<Seq<char>> {
    let name = after_slash(without_tail(path));
    if name.len() == 0 || name == seq!['.'] || name == seq!['.', '.'] {
        None
    } else {
        Some(name)
    }
}

/// What follows the last dot of a name, where that dot is not its first
/// character.
pub open spec fn extension_of(name: Seq<char>) -> Option<Seq<char>>
    decreases name.len(),
{
    if name.len() <= 1 {
        None
    } else if name.last() == '.' {
        Some(seq![])
    } else {
        match extension_of(name.drop_last()) {
            Some(extension) => Some(extension.push(name.last())),
            None => None,
        }
    }
}

/// The extension of the last component of a path.
pub open spec fn extension(path: Seq<char>) -> Option<Seq<char>> {
    match file_name(path) {
        Some(name) => extension_of(name),
        None => None,
    }
}

/// Where the end of a path stands without its tail.
fn tail_start(chars: &Vec<char>) -> (end: usize)
    ensures
        end <= chars@.len(),
        chars@.take(end as int) == without_tail(chars@),
{
    let mut end: usize = chars.len();
    proof {
        assert(chars@.take(end as int) =~= chars@);
    }
    while end > 0 && (chars[end - 1] == '/' || (chars[end - 1] == '.' && end > 1 && chars[end - 2]
        == '/'))
        invariant
            end <= chars@.len(),
            without_tail(chars@.take(end as int)) == without_tail(chars@),
        decreases end,
    {
        proof {
            assert(chars@.take(end as int).drop_last() =~= chars@.take(end - 1));
        }
        end = end - 1;
    }
    end
}

/// Where the last component before `end` begins.
fn name_start(chars: &Vec<char>, end: usize) -> (start: usize)
    requires
        end <= chars@.len(),
    ensures
        start <= end,
        chars@.subrange(start as int, end as int) == after_slash(chars@.take(end as int)),
{
    let mut start: usize = end;
    proof {
        assert(chars@.subrange(end as int, end as int) =~= Seq::<char>::empty());
        assert(after_slash(chars@.take(end as int)) + Seq::<char>::empty() =~= after_slash(
            chars@.take(end as int),
        ));
    }
    while start > 0 && chars[start - 1] != '/'
        invariant
            start <= end <= chars@.len(),
            after_slash(chars@.take(end as int)) == after_slash(chars@.take(start as int))
                + chars@.subrange(start as int, end as int),
        decreases start,
    {
        proof {
            assert(chars@.take(start as int).drop_last() =~= chars@.take(start - 1));
            assert(after_slash(chars@.take(start - 1)).push(chars@[start - 1]) + chars@.subrange(
                start as int,
                end as int,
            ) =~= after_slash(chars@.take(start - 1)) + chars@.subrange(start - 1, end as int));
        }
        start = start - 1;
    }
    proof {
        assert(after_slash(chars@.take(start as int)) =~= seq![]);
        assert(Seq::<char>::empty() + chars@.subrange(start as int, end as int)
            =~= chars@.subrange(start as int, end as int));
    }
    start
}

/// Where the extension of a name begins.
fn extension_start(name: &[char]) -> (r: Option<usize>)
    ensures
        match r {
            Some(start) => start <= name@.len() && extension_of(name@) == Some(
                name@.skip(start as int),
            ),
            None => extension_of(name@) is None,
        },
{
    let mut at: usize = name.len();
    proof {
        assert(name@.take(at as int) =~= name@);
    }
    while at > 1
        invariant
            at <= name@.len(),
            match extension_of(name@.take(at as int)) {
                Some(extension) => extension_of(name@) == Some(extension + name@.skip(at as int)),
                None => extension_of(name@) is None,
            },
        decreases at,
    {
        let ghost here = name@.take(at as int);
        if name[at - 1] == '.' {
            proof {
                assert(extension_of(here) == Some(Seq::<char>::empty()));
                assert(Seq::<char>::empty() + name@.skip(at as int) =~= name@.skip(at as int));
            }
            return Some(at);
        }
        proof {
            let less = name@.take(at - 1);
            assert(here.drop_last() =~= less);
            if let Some(extension) = extension_of(less) {
                assert(extension.push(name@[at - 1]) + name@.skip(at as int) =~= extension
                    + name@.skip(at - 1));
            }
        }
        at = at - 1;
    }
    proof {
        assert(extension_of(name@.take(at as int)) is None);
    }
    None
}

/// Whether the extension of a path is `gz` in either case of its letters.
pub open spec fn is_gz(path: Seq<char>) -> bool {
    match extension(path) {
        Some(ext) => ext.len() == 2 && (ext[0] == 'g' || ext[0] == 'G') && (ext[1] == 'z' || ext[1]
            == 'Z'),
        None => false,
    }
}

/// Whether the extension of a path is `gz` in either case of its letters.
pub fn has_gz_extension(path: &str) -> (r: bool)
    ensures
        r == is_gz(path@),
{
    let chars = chars_of(path);
    let end = tail_start(&chars);
    let start = name_start(&chars, end);
    let name = vstd::slice::slice_subrange(chars.as_slice(), start, end);
    let n: usize = name.len();
    if n == 0 || (n == 1 && name[0] == '.') || (n == 2 && name[0] == '.' && name[1] == '.') {
        proof {
            if n == 1 {
                assert(name@ =~= seq!['.']);
            }
            if n == 2 {
                assert(name@ =~= seq!['.', '.']);
            }
        }
        return false;
    }
    proof {
        assert(name@ != seq!['.']) by {
            if name@ == seq!['.'] {
                assert(name@[0] == '.');
            }
        }
        assert(name@ != seq!['.', '.']) by {
            if name@ == seq!['.', '.'] {
                assert(name@[0] == '.' && name@[1] == '.');
            }
        }
    }
    match extension_start(name) {
        Some(at) => n - at == 2 && (name[at] == 'g' || name[at] == 'G') && (name[at + 1] == 'z'
            || name[at + 1] == 'Z'),
        None => false,
    }
}

/// A path with a relative path behind it.
pub open spec fn joined_path(dir: Seq<char>, name: Seq<char>) -> Seq<char> {
    if dir.len() == 0 || dir.last() == '/' {
        dir + name
    } else {
        dir.push('/') + name
    }
}

/// Puts a relative path behind a directory.
pub fn join_path(dir: &str, name: &str) -> (r: String)
    ensures
        r@ == joined_path(dir@, name@),
{
    let n: usize = dir.unicode_len();
    let mut out = dir.to_owned();
    if n > 0 && dir.get_char(n - 1) != '/' {
        out.push('/');
    }
    out.append(name);
    out
}

/// The parent of a path. The root, and the empty path, have none, and stand for
/// themselves.
pub open spec fn parent_path(path: Seq<char>) -> Seq<char> {
    let whole = without_tail(path);
    let name = after_slash(whole);
    let stem = whole.take(whole.len() - name.len());
    let dir = without_tail(stem);
    if name.len() == 0 {
        path
    } else if dir.len() == 0 && stem.len() > 0 {
        seq!['/']
    } else {
        dir
    }
}

/// The parent of a path.
pub fn parent_of(path: &str) -> (r: String)
    ensures
        r@ == parent_path(path@),
{
    let chars = chars_of(path);
    let end = tail_start(&chars);
    let start = name_start(&chars, end);
    if start == end {
        return path.to_owned();
    }
    let stem = vstd::slice::slice_to_vec(vstd::slice::slice_subrange(chars.as_slice(), 0, start));
    proof {
        assert(stem@ =~= without_tail(path@).take(start as int));
        assert(after_slash(without_tail(path@)).len() == end - start);
    }
    let stop = tail_start(&stem);
    if stop == 0 && start > 0 {
        let mut root = String::new();
        root.push('/');
        proof {
            assert(root@ =~= seq!['/']);
            assert(without_tail(stem@).len() == 0);
        }
        return root;
    }
    let r = string_of(vstd::slice::slice_subrange(stem.as_slice(), 0, stop));
    proof {
        assert(r@ =~= stem@.take(stop as int));
        assert(without_tail(stem@).len() == stop);
    }
    r
}

} // verus!
