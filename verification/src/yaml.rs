//! YAML documents as the subscription logic reads and edits them.
//!
//! [`Yaml`] holds a document as plain values. Parsing and writing are done by
//! `serde_yaml_ng`; everything between the two works on [`Yaml`].
use vstd::prelude::*;

use crate::text::same_text;

verus! {

/// A YAML number of `serde_yaml_ng`, carried through unread.
#[verifier::external_type_specification]
#[verifier::external_body]
pub struct ExYamlNumber(serde_yaml_ng::Number);

/// A YAML tag of `serde_yaml_ng`, carried through unread.
#[verifier::external_type_specification]
#[verifier::external_body]
pub struct ExYamlTag(serde_yaml_ng::value::Tag);

/// A YAML value of `serde_yaml_ng`, between its parser and its writer.
#[verifier::external_type_specification]
#[verifier::external_body]
pub struct ExYamlValue(serde_yaml_ng::Value);

/// An error of `serde_yaml_ng`.
#[verifier::external_type_specification]
#[verifier::external_body]
pub struct ExYamlError(serde_yaml_ng::Error);

/// A YAML document. A mapping keeps its entries in order.
#[derive(Debug)]
pub enum Yaml {
    Null,
    Bool(bool),
    Number(serde_yaml_ng::Number),
    Text(String),
    Sequence(Vec<Yaml>),
    Mapping(Vec<(Yaml, Yaml)>),
    Tagged(serde_yaml_ng::value::Tag, Box<Yaml>),
}

/// What a [`Yaml`] document holds.
pub ghost enum YamlTree {
    Null,
    Bool(bool),
    Number(serde_yaml_ng::Number),
    Text(Seq<char>),
    Sequence(Seq<YamlTree>),
    Mapping(Seq<(YamlTree, YamlTree)>),
    Tagged(serde_yaml_ng::value::Tag, Box<YamlTree>),
}

impl Yaml {
    /// What the document holds.
    pub open spec fn tree(self) -> YamlTree
        decreases self,
    {
        match self {
            Yaml::Null => YamlTree::Null,
            Yaml::Bool(b) => YamlTree::Bool(b),
            Yaml::Number(n) => YamlTree::Number(n),
            Yaml::Text(s) => YamlTree::Text(s@),
            Yaml::Sequence(items) => YamlTree::Sequence(
                Seq::new(
                    items@.len(),
                    |i: int|
                        if 0 <= i < items@.len() {
                            items@[i].tree()
                        } else {
                            YamlTree::Null
                        },
                ),
            ),
            Yaml::Mapping(entries) => YamlTree::Mapping(
                Seq::new(
                    entries@.len(),
                    |i: int|
                        if 0 <= i < entries@.len() {
                            (entries@[i].0.tree(), entries@[i].1.tree())
                        } else {
                            (YamlTree::Null, YamlTree::Null)
                        },
                ),
            ),
            Yaml::Tagged(tag, inner) => YamlTree::Tagged(tag, Box::new(inner.tree())),
        }
    }
}

/// What each item of a sequence holds.
pub open spec fn item_trees(items: Seq<Yaml>) -> Seq<YamlTree> {
    Seq::new(items.len(), |i: int| items[i].tree())
}

/// What the key and the value of each entry of a mapping hold.
pub open spec fn entry_trees(entries: Seq<(Yaml, Yaml)>) -> Seq<(YamlTree, YamlTree)> {
    Seq::new(entries.len(), |i: int| (entries[i].0.tree(), entries[i].1.tree()))
}

pub broadcast proof fn sequence_tree(items: Vec<Yaml>)
    ensures
        #[trigger] Yaml::Sequence(items).tree() == YamlTree::Sequence(item_trees(items@)),
{
    assert(Yaml::Sequence(items).tree()->Sequence_0 =~= item_trees(items@));
}

pub broadcast proof fn mapping_tree(entries: Vec<(Yaml, Yaml)>)
    ensures
        #[trigger] Yaml::Mapping(entries).tree() == YamlTree::Mapping(entry_trees(entries@)),
{
    assert(Yaml::Mapping(entries).tree()->Mapping_0 =~= entry_trees(entries@));
}

/// A document without the tags around it.
pub open spec fn untagged(t: YamlTree) -> YamlTree
    decreases t,
{
    match t {
        YamlTree::Tagged(_, inner) => untagged(*inner),
        _ => t,
    }
}

/// `new` in place of what the tags of `t` stand around.
pub open spec fn retagged(t: YamlTree, new: YamlTree) -> YamlTree
    decreases t,
{
    match t {
        YamlTree::Tagged(tag, inner) => YamlTree::Tagged(tag, Box::new(retagged(*inner, new))),
        _ => new,
    }
}

/// Putting back what stood there changes nothing; what was put there is found
/// there again.
pub proof fn lemma_retagged(t: YamlTree, new: YamlTree)
    ensures
        retagged(t, untagged(t)) == t,
        !(new is Tagged) ==> untagged(retagged(t, new)) == new,
    decreases t,
{
    if let YamlTree::Tagged(_, inner) = t {
        lemma_retagged(*inner, new);
    }
}

/// The text of a document that is a string, whatever its tags.
pub open spec fn as_text(t: YamlTree) -> Option<Seq<char>> {
    match untagged(t) {
        YamlTree::Text(s) => Some(s),
        _ => None,
    }
}

/// The place of the first item of `s` for which `p` holds, or the length of `s`
/// where there is none.
pub open spec fn first_index<T>(s: Seq<T>, p: spec_fn(T) -> bool) -> int
    decreases s.len(),
{
    if s.len() == 0 {
        0
    } else if p(s[0]) {
        0
    } else {
        1 + first_index(s.skip(1), p)
    }
}

/// What [`first_index`] gives is the first such place.
pub proof fn lemma_first_index<T>(s: Seq<T>, p: spec_fn(T) -> bool)
    ensures
        0 <= first_index(s, p) <= s.len(),
        first_index(s, p) < s.len() ==> p(s[first_index(s, p)]),
        forall|j: int| 0 <= j < first_index(s, p) ==> !p(#[trigger] s[j]),
    decreases s.len(),
{
    if s.len() > 0 && !p(s[0]) {
        let tail = s.skip(1);
        lemma_first_index(tail, p);
        assert forall|j: int| 0 <= j < first_index(s, p) implies !p(#[trigger] s[j]) by {
            if j > 0 {
                assert(s[j] == tail[j - 1]);
            }
        }
    }
}

/// A place with no such item before it, and with one at it or nothing after
/// it, is the first.
pub proof fn lemma_is_first_index<T>(s: Seq<T>, p: spec_fn(T) -> bool, i: int)
    requires
        0 <= i <= s.len(),
        forall|j: int| 0 <= j < i ==> !p(#[trigger] s[j]),
        i < s.len() ==> p(s[i]),
    ensures
        first_index(s, p) == i,
{
    lemma_first_index(s, p);
    let f = first_index(s, p);
    if f < i {
        assert(!p(s[f]));
    }
    if i < f {
        assert(!p(s[i]));
    }
}

/// Whether an entry of a mapping has the string `key` as its key.
pub open spec fn has_text_key(key: Seq<char>) -> spec_fn((YamlTree, YamlTree)) -> bool {
    |entry: (YamlTree, YamlTree)| entry.0 == YamlTree::Text(key)
}

/// The place of the entry with the string `key`, or the number of entries.
pub open spec fn key_index(entries: Seq<(YamlTree, YamlTree)>, key: Seq<char>) -> int {
    first_index(entries, has_text_key(key))
}

/// The value that a mapping holds under the string `key`.
pub open spec fn lookup(entries: Seq<(YamlTree, YamlTree)>, key: Seq<char>) -> Option<YamlTree> {
    let i = key_index(entries, key);
    if i < entries.len() {
        Some(entries[i].1)
    } else {
        None
    }
}

/// A mapping after `value` was put under the string `key`: in place where the
/// key is there, at the end where it is not.
pub open spec fn inserted(
    entries: Seq<(YamlTree, YamlTree)>,
    key: Seq<char>,
    value: YamlTree,
) -> Seq<(YamlTree, YamlTree)> {
    let i = key_index(entries, key);
    if i < entries.len() {
        entries.update(i, (entries[i].0, value))
    } else {
        entries.push((YamlTree::Text(key), value))
    }
}

/// A mapping after the string `key` was removed: its last entry takes the
/// place of the one that left.
pub open spec fn removed(
    entries: Seq<(YamlTree, YamlTree)>,
    key: Seq<char>,
) -> Seq<(YamlTree, YamlTree)> {
    let i = key_index(entries, key);
    if i < entries.len() {
        entries.update(i, entries.last()).drop_last()
    } else {
        entries
    }
}

/// A mapping after each of `keys` was removed, in order.
pub open spec fn removed_all(
    entries: Seq<(YamlTree, YamlTree)>,
    keys: Seq<Seq<char>>,
) -> Seq<(YamlTree, YamlTree)>
    decreases keys.len(),
{
    if keys.len() == 0 {
        entries
    } else {
        removed(removed_all(entries, keys.drop_last()), keys.last())
    }
}

/// Whether two values of `serde_yaml_ng` that hold these documents are equal by
/// their `==`, as the keys of a mapping are told apart. Two numbers or two tags
/// can be equal and yet be written differently.
pub uninterp spec fn same_key(a: YamlTree, b: YamlTree) -> bool;

/// Whether two documents can be keys of one mapping. A string is a key that no
/// other document is equal to.
pub open spec fn apart(a: YamlTree, b: YamlTree) -> bool {
    if a is Text || b is Text {
        a != b
    } else {
        !same_key(a, b)
    }
}

/// No two entries have the same key.
pub open spec fn distinct_keys(entries: Seq<(YamlTree, YamlTree)>) -> bool {
    forall|i: int, j: int|
        0 <= i < entries.len() && 0 <= j < entries.len() && i != j ==> apart(
            (#[trigger] entries[i]).0,
            (#[trigger] entries[j]).0,
        )
}

/// No mapping in the document has two entries with the same key.
pub open spec fn well_formed(t: YamlTree) -> bool
    decreases t,
{
    match t {
        YamlTree::Sequence(items) => forall|i: int|
            0 <= i < items.len() ==> well_formed(#[trigger] items[i]),
        YamlTree::Mapping(entries) => distinct_keys(entries) && forall|i: int|
            0 <= i < entries.len() ==> well_formed((#[trigger] entries[i]).0) && well_formed(
                entries[i].1,
            ),
        YamlTree::Tagged(_, inner) => well_formed(*inner),
        _ => true,
    }
}

/// What was put under a key is found there; what is found under any other key
/// is what was found there before.
pub proof fn lemma_inserted(entries: Seq<(YamlTree, YamlTree)>, key: Seq<char>, value: YamlTree)
    ensures
        lookup(inserted(entries, key, value), key) == Some(value),
        forall|other: Seq<char>|
            other != key ==> #[trigger] lookup(inserted(entries, key, value), other) == lookup(
                entries,
                other,
            ),
        distinct_keys(entries) ==> distinct_keys(inserted(entries, key, value)),
{
    let after = inserted(entries, key, value);
    let i = key_index(entries, key);
    lemma_first_index(entries, has_text_key(key));
    lemma_is_first_index(after, has_text_key(key), i);
    assert forall|other: Seq<char>| other != key implies #[trigger] lookup(after, other) == lookup(
        entries,
        other,
    ) by {
        let p = has_text_key(other);
        lemma_first_index(entries, p);
        let f = key_index(entries, other);
        if f < entries.len() {
            lemma_is_first_index(after, p, f);
        } else {
            lemma_is_first_index(after, p, after.len() as int);
        }
    }
    if distinct_keys(entries) {
        assert forall|a: int, b: int|
            0 <= a < after.len() && 0 <= b < after.len() && a != b implies apart(
            (#[trigger] after[a]).0,
            (#[trigger] after[b]).0,
        ) by {
            if a < entries.len() && b < entries.len() {
                assert(apart(entries[a].0, entries[b].0));
            } else if a < entries.len() {
                assert(!has_text_key(key)(entries[a]));
            } else {
                assert(!has_text_key(key)(entries[b]));
            }
        }
    }
}

/// In a mapping with distinct keys a removed key is found no longer, and every
/// other key is found as before.
pub proof fn lemma_removed(entries: Seq<(YamlTree, YamlTree)>, key: Seq<char>)
    requires
        distinct_keys(entries),
    ensures
        lookup(removed(entries, key), key) is None,
        forall|other: Seq<char>|
            other != key ==> #[trigger] lookup(removed(entries, key), other) == lookup(
                entries,
                other,
            ),
        distinct_keys(removed(entries, key)),
{
    let after = removed(entries, key);
    let i = key_index(entries, key);
    lemma_first_index(entries, has_text_key(key));
    if i < entries.len() {
        let last = entries.len() - 1;
        assert(forall|j: int|
            0 <= j < after.len() ==> #[trigger] after[j] == if j == i {
                entries[last]
            } else {
                entries[j]
            });
        assert forall|j: int| 0 <= j < after.len() implies !has_text_key(key)(
            #[trigger] after[j],
        ) by {
            let k = if j == i {
                last
            } else {
                j
            };
            assert(after[j] == entries[k]);
            if i < k {
                assert(entries[i].0 != entries[k].0);
            } else {
                assert(entries[k].0 != YamlTree::Text(key));
            }
        }
        lemma_is_first_index(after, has_text_key(key), after.len() as int);
        assert forall|other: Seq<char>| other != key implies #[trigger] lookup(after, other)
            == lookup(entries, other) by {
            let p = has_text_key(other);
            lemma_first_index(entries, p);
            let f = key_index(entries, other);
            if f < entries.len() {
                let g = if f == last {
                    i
                } else {
                    f
                };
                assert(after[g] == entries[f]);
                assert forall|j: int| 0 <= j < g implies !p(#[trigger] after[j]) by {
                    let k = if j == i {
                        last
                    } else {
                        j
                    };
                    assert(after[j] == entries[k]);
                    if k > f {
                        assert(entries[f].0 != entries[k].0);
                    } else if k < f {
                        assert(!p(entries[k]));
                    }
                }
                lemma_is_first_index(after, p, g);
            } else {
                assert forall|j: int| 0 <= j < after.len() implies !p(#[trigger] after[j]) by {
                    if j == i {
                        assert(!p(entries[last]));
                    } else {
                        assert(!p(entries[j]));
                    }
                }
                lemma_is_first_index(after, p, after.len() as int);
            }
        }
        assert forall|a: int, b: int|
            0 <= a < after.len() && 0 <= b < after.len() && a != b implies apart(
            (#[trigger] after[a]).0,
            (#[trigger] after[b]).0,
        ) by {
            let ka = if a == i {
                last
            } else {
                a
            };
            let kb = if b == i {
                last
            } else {
                b
            };
            assert(after[a] == entries[ka] && after[b] == entries[kb]);
            assert(apart(entries[ka].0, entries[kb].0));
        }
    }
}

/// [`lemma_removed`] for several keys.
pub proof fn lemma_removed_all(entries: Seq<(YamlTree, YamlTree)>, keys: Seq<Seq<char>>)
    requires
        distinct_keys(entries),
    ensures
        forall|key: Seq<char>|
            keys.contains(key) ==> (#[trigger] lookup(removed_all(entries, keys), key)) is None,
        forall|other: Seq<char>|
            !keys.contains(other) ==> #[trigger] lookup(removed_all(entries, keys), other)
                == lookup(entries, other),
        distinct_keys(removed_all(entries, keys)),
    decreases keys.len(),
{
    if keys.len() > 0 {
        let init = keys.drop_last();
        let before = removed_all(entries, init);
        lemma_removed_all(entries, init);
        lemma_removed(before, keys.last());
        assert forall|key: Seq<char>| keys.contains(key) implies (#[trigger] lookup(
            removed_all(entries, keys),
            key,
        )) is None by {
            if key != keys.last() {
                let i = choose|i: int| 0 <= i < keys.len() && keys[i] == key;
                assert(init[i] == key);
                assert(init.contains(key));
                assert(lookup(before, key) is None);
            }
        }
        assert forall|other: Seq<char>| !keys.contains(other) implies #[trigger] lookup(
            removed_all(entries, keys),
            other,
        ) == lookup(entries, other) by {
            assert(keys[keys.len() - 1] == keys.last());
            if init.contains(other) {
                let i = choose|i: int| 0 <= i < init.len() && init[i] == other;
                assert(keys[i] == other);
            }
            assert(lookup(before, other) == lookup(entries, other));
        }
    }
}

/// A well-formed mapping stays so when a well-formed value is put under a
/// string.
pub proof fn lemma_inserted_well_formed(
    entries: Seq<(YamlTree, YamlTree)>,
    key: Seq<char>,
    value: YamlTree,
)
    requires
        well_formed(YamlTree::Mapping(entries)),
        well_formed(value),
    ensures
        well_formed(YamlTree::Mapping(inserted(entries, key, value))),
{
    let after = inserted(entries, key, value);
    lemma_inserted(entries, key, value);
    lemma_first_index(entries, has_text_key(key));
    assert(YamlTree::Mapping(entries)->Mapping_0 == entries);
    assert forall|j: int| 0 <= j < after.len() implies well_formed((#[trigger] after[j]).0)
        && well_formed(after[j].1) by {
        if j < entries.len() {
            assert(well_formed(entries[j].0) && well_formed(entries[j].1));
        }
    }
}

/// A well-formed mapping stays so when a string is removed.
pub proof fn lemma_removed_well_formed(entries: Seq<(YamlTree, YamlTree)>, key: Seq<char>)
    requires
        well_formed(YamlTree::Mapping(entries)),
    ensures
        well_formed(YamlTree::Mapping(removed(entries, key))),
{
    let after = removed(entries, key);
    lemma_removed(entries, key);
    lemma_first_index(entries, has_text_key(key));
    assert(YamlTree::Mapping(entries)->Mapping_0 == entries);
    assert forall|j: int| 0 <= j < after.len() implies well_formed((#[trigger] after[j]).0)
        && well_formed(after[j].1) by {
        let last = entries.len() - 1;
        assert(well_formed(entries[last].0) && well_formed(entries[last].1));
        assert(well_formed(entries[j].0) && well_formed(entries[j].1));
    }
}

/// A well-formed mapping stays so when several strings are removed.
pub proof fn lemma_removed_all_well_formed(
    entries: Seq<(YamlTree, YamlTree)>,
    keys: Seq<Seq<char>>,
)
    requires
        well_formed(YamlTree::Mapping(entries)),
    ensures
        well_formed(YamlTree::Mapping(removed_all(entries, keys))),
    decreases keys.len(),
{
    if keys.len() > 0 {
        lemma_removed_all_well_formed(entries, keys.drop_last());
        lemma_removed_well_formed(removed_all(entries, keys.drop_last()), keys.last());
    }
}

/// A document is well-formed where something well-formed takes the place of
/// what its tags stand around.
pub proof fn lemma_retagged_well_formed(t: YamlTree, new: YamlTree)
    requires
        well_formed(new),
    ensures
        well_formed(retagged(t, new)),
    decreases t,
{
    if let YamlTree::Tagged(_, inner) = t {
        lemma_retagged_well_formed(*inner, new);
    }
}

impl Yaml {
    /// The entries of a mapping, whatever its tags.
    pub fn as_mapping(&self) -> (r: Option<&Vec<(Yaml, Yaml)>>)
        ensures
            match r {
                Some(entries) => untagged(self.tree()) == YamlTree::Mapping(entry_trees(entries@)),
                None => !(untagged(self.tree()) is Mapping),
            },
        decreases self,
    {
        match self {
            Yaml::Mapping(entries) => {
                proof {
                    mapping_tree(*entries);
                }
                Some(entries)
            },
            Yaml::Tagged(_, inner) => inner.as_mapping(),
            _ => None,
        }
    }

    /// The entries of a mapping, for a change in place, whatever its tags.
    pub fn as_mapping_mut(&mut self) -> (r: Option<&mut Vec<(Yaml, Yaml)>>)
        ensures
            match r {
                Some(entries) => {
                    &&& untagged(old(self).tree()) == YamlTree::Mapping(entry_trees(entries@))
                    &&& final(self).tree() == retagged(
                        old(self).tree(),
                        YamlTree::Mapping(entry_trees(final(entries)@)),
                    )
                },
                None => {
                    &&& !(untagged(old(self).tree()) is Mapping)
                    &&& *final(self) == *old(self)
                },
            },
        decreases *old(self),
    {
        match self {
            Yaml::Mapping(entries) => {
                proof {
                    mapping_tree(*entries);
                    mapping_tree(*final(entries));
                }
                Some(entries)
            },
            Yaml::Tagged(_, inner) => inner.as_mapping_mut(),
            _ => None,
        }
    }

    /// The items of a sequence, for a change in place, whatever its tags.
    pub fn as_sequence_mut(&mut self) -> (r: Option<&mut Vec<Yaml>>)
        ensures
            match r {
                Some(items) => {
                    &&& untagged(old(self).tree()) == YamlTree::Sequence(item_trees(items@))
                    &&& final(self).tree() == retagged(
                        old(self).tree(),
                        YamlTree::Sequence(item_trees(final(items)@)),
                    )
                },
                None => {
                    &&& !(untagged(old(self).tree()) is Sequence)
                    &&& *final(self) == *old(self)
                },
            },
        decreases *old(self),
    {
        match self {
            Yaml::Sequence(items) => {
                proof {
                    sequence_tree(*items);
                    sequence_tree(*final(items));
                }
                Some(items)
            },
            Yaml::Tagged(_, inner) => inner.as_sequence_mut(),
            _ => None,
        }
    }

    /// The text of a string, whatever its tags.
    pub fn as_str(&self) -> (r: Option<&str>)
        ensures
            match r {
                Some(s) => as_text(self.tree()) == Some(s@),
                None => as_text(self.tree()) is None,
            },
        decreases self,
    {
        match self {
            Yaml::Text(s) => Some(s.as_str()),
            Yaml::Tagged(_, inner) => inner.as_str(),
            _ => None,
        }
    }

    /// Whether this very value, without tags, is the string `key`.
    fn is_text(&self, key: &str) -> (r: bool)
        ensures
            r == (self.tree() == YamlTree::Text(key@)),
    {
        match self {
            Yaml::Text(s) => same_text(s.as_str(), key),
            _ => false,
        }
    }
}

/// Finds the entry with the string `key`.
fn find_key(entries: &Vec<(Yaml, Yaml)>, key: &str) -> (r: Option<usize>)
    ensures
        match r {
            Some(i) => i == key_index(entry_trees(entries@), key@) && i < entries@.len(),
            None => key_index(entry_trees(entries@), key@) == entries@.len(),
        },
{
    let ghost trees = entry_trees(entries@);
    for i in 0..entries.len()
        invariant
            trees == entry_trees(entries@),
            forall|j: int| 0 <= j < i ==> !has_text_key(key@)(#[trigger] trees[j]),
    {
        if entries[i].0.is_text(key) {
            proof {
                lemma_is_first_index(trees, has_text_key(key@), i as int);
            }
            return Some(i);
        }
    }
    proof {
        lemma_is_first_index(trees, has_text_key(key@), entries@.len() as int);
    }
    None
}

/// Looks up the string `key`.
pub fn get<'a>(entries: &'a Vec<(Yaml, Yaml)>, key: &str) -> (r: Option<&'a Yaml>)
    ensures
        match r {
            Some(value) => lookup(entry_trees(entries@), key@) == Some(value.tree()),
            None => lookup(entry_trees(entries@), key@) is None,
        },
{
    match find_key(entries, key) {
        Some(i) => Some(&entries[i].1),
        None => None,
    }
}

/// Looks up the string `key`, for a change of its value in place.
pub fn get_mut<'a>(entries: &'a mut Vec<(Yaml, Yaml)>, key: &str) -> (r: Option<&'a mut Yaml>)
    ensures
        match r {
            Some(value) => {
                &&& lookup(entry_trees(old(entries)@), key@) == Some(value.tree())
                &&& entry_trees(final(entries)@) == inserted(
                    entry_trees(old(entries)@),
                    key@,
                    final(value).tree(),
                )
            },
            None => {
                &&& lookup(entry_trees(old(entries)@), key@) is None
                &&& *final(entries) == *old(entries)
            },
        },
{
    match find_key(entries, key) {
        Some(i) => {
            let ghost held = entries@;
            let ghost before = entry_trees(held);
            let entry = &mut entries[i];
            proof {
                assert(entry_trees(held.update(i as int, *final(entry))) =~= before.update(
                    i as int,
                    (final(entry).0.tree(), final(entry).1.tree()),
                ));
            }
            Some(&mut entry.1)
        },
        None => None,
    }
}

/// Puts `value` under the string `key`.
pub fn insert(entries: &mut Vec<(Yaml, Yaml)>, key: &str, value: Yaml)
    ensures
        entry_trees(final(entries)@) == inserted(entry_trees(old(entries)@), key@, value.tree()),
{
    let ghost before = entry_trees(entries@);
    match find_key(entries, key) {
        Some(i) => {
            entries[i].1 = value;
            proof {
                assert(entry_trees(entries@) =~= before.update(i as int, (before[i as int].0, value.tree())));
            }
        },
        None => {
            entries.push((Yaml::Text(key.to_owned()), value));
            proof {
                assert(entry_trees(entries@) =~= before.push((YamlTree::Text(key@), value.tree())));
            }
        },
    }
}

/// Removes the string `key`; the last entry takes the place of the one that
/// leaves.
pub fn remove(entries: &mut Vec<(Yaml, Yaml)>, key: &str)
    ensures
        entry_trees(final(entries)@) == removed(entry_trees(old(entries)@), key@),
{
    let ghost before = entry_trees(entries@);
    if let Some(i) = find_key(entries, key) {
        let _ = entries.swap_remove(i);
        proof {
            assert(entry_trees(entries@) =~= before.update(i as int, before.last()).drop_last());
        }
    }
}

/// Removes each of `keys`, in order.
pub fn remove_all(entries: &mut Vec<(Yaml, Yaml)>, keys: &[&str])
    ensures
        entry_trees(final(entries)@) == removed_all(
            entry_trees(old(entries)@),
            crate::text::str_texts(keys@),
        ),
{
    let ghost names = crate::text::str_texts(keys@);
    let ghost before = entry_trees(entries@);
    for i in 0..keys.len()
        invariant
            names == crate::text::str_texts(keys@),
            entry_trees(entries@) == removed_all(before, names.take(i as int)),
    {
        remove(entries, keys[i]);
        proof {
            assert(names.take(i + 1).drop_last() == names.take(i as int));
        }
    }
    proof {
        assert(names.take(keys@.len() as int) == names);
    }
}

/// One level of a value of `serde_yaml_ng`.
enum YamlNode {
    Null,
    Bool(bool),
    Number(serde_yaml_ng::Number),
    Text(String),
    Sequence(Vec<serde_yaml_ng::Value>),
    Mapping(Vec<(serde_yaml_ng::Value, serde_yaml_ng::Value)>),
    Tagged(serde_yaml_ng::value::Tag, serde_yaml_ng::Value),
}

/// What a value of `serde_yaml_ng` holds.
pub uninterp spec fn value_tree(value: serde_yaml_ng::Value) -> YamlTree;

/// The document that `serde_yaml_ng::from_str` reads from a text, or `None`
/// where it gives an error.
pub uninterp spec fn yaml_parse(text: Seq<char>) -> Option<YamlTree>;

/// The bytes that `serde_yaml_ng::to_writer` writes for a value that holds this
/// document, or `None` where it gives an error.
pub uninterp spec fn yaml_bytes(tree: YamlTree) -> Option<Seq<u8>>;

/// What each of these values holds.
spec fn value_trees(values: Seq<serde_yaml_ng::Value>) -> Seq<YamlTree> {
    Seq::new(values.len(), |i: int| value_tree(values[i]))
}

/// What the key and the value of each of these pairs hold.
spec fn pair_trees(pairs: Seq<(serde_yaml_ng::Value, serde_yaml_ng::Value)>) -> Seq<
    (YamlTree, YamlTree),
> {
    Seq::new(pairs.len(), |i: int| (value_tree(pairs[i].0), value_tree(pairs[i].1)))
}

/// What one level of a value holds.
spec fn node_tree(node: YamlNode) -> YamlTree {
    match node {
        YamlNode::Null => YamlTree::Null,
        YamlNode::Bool(b) => YamlTree::Bool(b),
        YamlNode::Number(n) => YamlTree::Number(n),
        YamlNode::Text(s) => YamlTree::Text(s@),
        YamlNode::Sequence(values) => YamlTree::Sequence(value_trees(values@)),
        YamlNode::Mapping(pairs) => YamlTree::Mapping(pair_trees(pairs@)),
        YamlNode::Tagged(tag, value) => YamlTree::Tagged(tag, Box::new(value_tree(value))),
    }
}

/// `serde_yaml_ng::from_str`, read into a `serde_yaml_ng::Value`. Whether it
/// succeeds, and what the value holds, depends on the text alone.
#[verifier::external_body]
fn value_from_str(text: &str) -> (r: Result<serde_yaml_ng::Value, serde_yaml_ng::Error>)
    ensures
        match r {
            Ok(value) => yaml_parse(text@) == Some(value_tree(value)),
            Err(_) => yaml_parse(text@) is None,
        },
{
    serde_yaml_ng::from_str(text)
}

/// Opens one level of a `serde_yaml_ng::Value`: which variant it is, and what
/// that variant holds. A `serde_yaml_ng::Mapping` gives its entries in order;
/// as a map, it has no two equal keys, and no string twice.
#[verifier::external_body]
fn open_value(value: serde_yaml_ng::Value) -> (node: YamlNode)
    ensures
        value_tree(value) == node_tree(node),
        node matches YamlNode::Mapping(pairs) ==> forall|i: int, j: int|
            0 <= i < pairs@.len() && 0 <= j < pairs@.len() && i != j ==> !same_key(
                value_tree((#[trigger] pairs@[i]).0),
                value_tree((#[trigger] pairs@[j]).0),
            ),
        node matches YamlNode::Mapping(pairs) ==> distinct_keys(pair_trees(pairs@)),
{
    match value {
        serde_yaml_ng::Value::Null => YamlNode::Null,
        serde_yaml_ng::Value::Bool(b) => YamlNode::Bool(b),
        serde_yaml_ng::Value::Number(n) => YamlNode::Number(n),
        serde_yaml_ng::Value::String(s) => YamlNode::Text(s),
        serde_yaml_ng::Value::Sequence(values) => YamlNode::Sequence(values),
        serde_yaml_ng::Value::Mapping(map) => YamlNode::Mapping(map.into_iter().collect()),
        serde_yaml_ng::Value::Tagged(tagged) => YamlNode::Tagged(tagged.tag, tagged.value),
    }
}

/// Builds one level of a `serde_yaml_ng::Value`. A `serde_yaml_ng::Mapping`
/// collected from entries keeps them all, in order, where no two of their keys
/// are equal. Of entries with equal keys nothing is claimed.
#[verifier::external_body]
fn build_value(node: YamlNode) -> (value: serde_yaml_ng::Value)
    ensures
        (node matches YamlNode::Mapping(pairs) ==> distinct_keys(pair_trees(pairs@)))
            ==> value_tree(value) == node_tree(node),
{
    match node {
        YamlNode::Null => serde_yaml_ng::Value::Null,
        YamlNode::Bool(b) => serde_yaml_ng::Value::Bool(b),
        YamlNode::Number(n) => serde_yaml_ng::Value::Number(n),
        YamlNode::Text(s) => serde_yaml_ng::Value::String(s),
        YamlNode::Sequence(values) => serde_yaml_ng::Value::Sequence(values),
        YamlNode::Mapping(pairs) => serde_yaml_ng::Value::Mapping(pairs.into_iter().collect()),
        YamlNode::Tagged(tag, value) => serde_yaml_ng::Value::Tagged(
            Box::new(serde_yaml_ng::value::TaggedValue { tag, value }),
        ),
    }
}

/// `serde_yaml_ng::to_writer`, into a fresh vector. Whether it succeeds, and
/// what it writes, depends on what the value holds alone.
#[verifier::external_body]
fn value_to_bytes(value: &serde_yaml_ng::Value) -> (r: Result<Vec<u8>, serde_yaml_ng::Error>)
    ensures
        match r {
            Ok(bytes) => yaml_bytes(value_tree(*value)) == Some(bytes@),
            Err(_) => yaml_bytes(value_tree(*value)) is None,
        },
{
    let mut output = Vec::new();
    serde_yaml_ng::to_writer(&mut output, value)?;
    Ok(output)
}

/// Takes a whole `serde_yaml_ng::Value` apart.
fn yaml_of_value(value: serde_yaml_ng::Value) -> (r: Yaml)
    ensures
        r.tree() == value_tree(value),
        well_formed(r.tree()),
    decreases value_tree(value),
{
    let ghost whole = value_tree(value);
    match open_value(value) {
        YamlNode::Null => Yaml::Null,
        YamlNode::Bool(b) => Yaml::Bool(b),
        YamlNode::Number(n) => Yaml::Number(n),
        YamlNode::Text(s) => Yaml::Text(s),
        YamlNode::Sequence(values) => {
            let ghost trees = value_trees(values@);
            let mut items: Vec<Yaml> = Vec::new();
            for v in it: values
                invariant
                    it.seq() == values@,
                    trees == value_trees(values@),
                    whole == value_tree(value),
                    whole == YamlTree::Sequence(trees),
                    items@.len() == it.index(),
                    item_trees(items@) == trees.take(it.index() as int),
                    forall|j: int|
                        0 <= j < items@.len() ==> well_formed((#[trigger] items@[j]).tree()),
            {
                let ghost before = item_trees(items@);
                let ghost k = items@.len() as int;
                proof {
                    assert(value_tree(v) == trees[k]);
                    assert(decreases_to!(whole => whole->Sequence_0));
                    assert(decreases_to!(trees => trees[k]));
                }
                items.push(yaml_of_value(v));
                proof {
                    assert(item_trees(items@) =~= before.push(trees[k]));
                    assert(item_trees(items@) =~= trees.take(k + 1));
                }
            }
            proof {
                sequence_tree(items);
                assert(item_trees(items@) =~= trees);
                assert forall|j: int| 0 <= j < trees.len() implies well_formed(
                    #[trigger] item_trees(items@)[j],
                ) by {
                    assert(well_formed(items@[j].tree()));
                }
            }
            Yaml::Sequence(items)
        },
        YamlNode::Mapping(pairs) => {
            let ghost trees = pair_trees(pairs@);
            let mut entries: Vec<(Yaml, Yaml)> = Vec::new();
            for pair in it: pairs
                invariant
                    it.seq() == pairs@,
                    trees == pair_trees(pairs@),
                    whole == value_tree(value),
                    whole == YamlTree::Mapping(trees),
                    entries@.len() == it.index(),
                    entry_trees(entries@) == trees.take(it.index() as int),
                    forall|j: int|
                        0 <= j < entries@.len() ==> well_formed((#[trigger] entries@[j]).0.tree())
                            && well_formed(entries@[j].1.tree()),
            {
                let ghost before = entry_trees(entries@);
                let ghost k = entries@.len() as int;
                proof {
                    assert((value_tree(pair.0), value_tree(pair.1)) == trees[k]);
                    assert(decreases_to!(whole => whole->Mapping_0));
                    assert(decreases_to!(trees => trees[k]));
                    assert(decreases_to!(trees[k] => trees[k].0));
                    assert(decreases_to!(trees[k] => trees[k].1));
                }
                let key = yaml_of_value(pair.0);
                let held = yaml_of_value(pair.1);
                entries.push((key, held));
                proof {
                    assert(entry_trees(entries@) =~= before.push(trees[k]));
                    assert(entry_trees(entries@) =~= trees.take(k + 1));
                }
            }
            proof {
                mapping_tree(entries);
                assert(entry_trees(entries@) =~= trees);
                assert forall|j: int| 0 <= j < trees.len() implies well_formed(
                    (#[trigger] entry_trees(entries@)[j]).0,
                ) && well_formed(entry_trees(entries@)[j].1) by {
                    assert(well_formed(entries@[j].0.tree()));
                }
            }
            Yaml::Mapping(entries)
        },
        YamlNode::Tagged(tag, inner) => {
            proof {
                assert(decreases_to!(whole => *whole->Tagged_1));
            }
            let held = yaml_of_value(inner);
            Yaml::Tagged(tag, Box::new(held))
        },
    }
}

/// Puts a whole `serde_yaml_ng::Value` together.
fn value_of_yaml(doc: Yaml) -> (value: serde_yaml_ng::Value)
    ensures
        well_formed(doc.tree()) ==> value_tree(value) == doc.tree(),
    decreases doc,
{
    match doc {
        Yaml::Null => build_value(YamlNode::Null),
        Yaml::Bool(b) => build_value(YamlNode::Bool(b)),
        Yaml::Number(n) => build_value(YamlNode::Number(n)),
        Yaml::Text(s) => build_value(YamlNode::Text(s)),
        Yaml::Sequence(items) => {
            proof {
                sequence_tree(items);
            }
            let ghost trees = item_trees(items@);
            let ghost sound = well_formed(doc.tree());
            let mut values: Vec<serde_yaml_ng::Value> = Vec::new();
            for item in it: items
                invariant
                    it.seq() == items@,
                    trees == item_trees(items@),
                    doc == Yaml::Sequence(items),
                    sound ==> well_formed(YamlTree::Sequence(trees)),
                    values@.len() == it.index(),
                    sound ==> value_trees(values@) == trees.take(it.index() as int),
            {
                let ghost before = value_trees(values@);
                let ghost k = values@.len() as int;
                proof {
                    assert(item == items@[k]);
                    assert(item.tree() == trees[k]);
                    assert(decreases_to!(doc => doc->Sequence_0));
                    assert(decreases_to!(doc->Sequence_0 => items@));
                    assert(decreases_to!(items@ => items@[k]));
                }
                values.push(value_of_yaml(item));
                proof {
                    if sound {
                        assert(YamlTree::Sequence(trees)->Sequence_0[k] == trees[k]);
                        assert(well_formed(trees[k]));
                        assert(value_trees(values@) =~= before.push(trees[k]));
                        assert(value_trees(values@) =~= trees.take(k + 1));
                    }
                }
            }
            proof {
                if sound {
                    assert(value_trees(values@) =~= trees);
                }
            }
            build_value(YamlNode::Sequence(values))
        },
        Yaml::Mapping(entries) => {
            proof {
                mapping_tree(entries);
            }
            let ghost trees = entry_trees(entries@);
            let ghost sound = well_formed(doc.tree());
            let mut pairs: Vec<(serde_yaml_ng::Value, serde_yaml_ng::Value)> = Vec::new();
            for entry in it: entries
                invariant
                    it.seq() == entries@,
                    trees == entry_trees(entries@),
                    doc == Yaml::Mapping(entries),
                    sound ==> well_formed(YamlTree::Mapping(trees)),
                    pairs@.len() == it.index(),
                    sound ==> pair_trees(pairs@) == trees.take(it.index() as int),
            {
                let ghost before = pair_trees(pairs@);
                let ghost k = pairs@.len() as int;
                proof {
                    assert(entry == entries@[k]);
                    assert((entry.0.tree(), entry.1.tree()) == trees[k]);
                    assert(decreases_to!(doc => doc->Mapping_0));
                    assert(decreases_to!(doc->Mapping_0 => entries@));
                    assert(decreases_to!(entries@ => entries@[k]));
                    assert(decreases_to!(entries@[k] => entries@[k].0));
                    assert(decreases_to!(entries@[k] => entries@[k].1));
                }
                let key = value_of_yaml(entry.0);
                let held = value_of_yaml(entry.1);
                pairs.push((key, held));
                proof {
                    if sound {
                        assert(YamlTree::Mapping(trees)->Mapping_0[k] == trees[k]);
                        assert(well_formed(trees[k].0));
                        assert(well_formed(trees[k].1));
                        assert(pair_trees(pairs@) =~= before.push(trees[k]));
                        assert(pair_trees(pairs@) =~= trees.take(k + 1));
                    }
                }
            }
            proof {
                if sound {
                    assert(pair_trees(pairs@) =~= trees);
                }
            }
            build_value(YamlNode::Mapping(pairs))
        },
        Yaml::Tagged(tag, inner) => {
            let held = value_of_yaml(*inner);
            build_value(YamlNode::Tagged(tag, held))
        },
    }
}

/// Parses a YAML document.
pub fn parse_yaml(text: &str) -> (r: Result<Yaml, serde_yaml_ng::Error>)
    ensures
        match r {
            Ok(doc) => yaml_parse(text@) == Some(doc.tree()) && well_formed(doc.tree()),
            Err(_) => yaml_parse(text@) is None,
        },
{
    match value_from_str(text) {
        Ok(value) => Ok(yaml_of_value(value)),
        Err(error) => Err(error),
    }
}

/// Writes a YAML document. What is written is stated for documents no mapping of
/// which has two entries with the same key, as every parsed one is.
pub fn write_yaml(doc: Yaml) -> (r: Result<Vec<u8>, serde_yaml_ng::Error>)
    ensures
        well_formed(doc.tree()) ==> match r {
            Ok(bytes) => yaml_bytes(doc.tree()) == Some(bytes@),
            Err(_) => yaml_bytes(doc.tree()) is None,
        },
{
    let value = value_of_yaml(doc);
    value_to_bytes(&value)
}

} // verus!
