//! What reading and editing a YAML document comes to, call by call.
use vstd::prelude::*;

use crate::text::str_texts;
use crate::yaml::{
    distinct_keys, entry_trees, get, has_text_key, insert, key_index, lemma_first_index,
    lemma_is_first_index, lemma_removed_all, lookup, parse_yaml, remove, remove_all, retagged,
    untagged, write_yaml, yaml_bytes, yaml_parse, Yaml, YamlTree,
};

verus! {

/// A document's view has its own shape, level by level.
pub proof fn documents_are_viewed_level_by_level(doc: Yaml)
    ensures
        match doc {
            Yaml::Null => doc.tree() == YamlTree::Null,
            Yaml::Bool(b) => doc.tree() == YamlTree::Bool(b),
            Yaml::Number(n) => doc.tree() == YamlTree::Number(n),
            Yaml::Text(s) => doc.tree() == YamlTree::Text(s@),
            Yaml::Sequence(items) => doc.tree() matches YamlTree::Sequence(trees) && trees.len()
                == items@.len() && forall|i: int|
                0 <= i < items@.len() ==> #[trigger] trees[i] == items@[i].tree(),
            Yaml::Mapping(entries) => doc.tree() matches YamlTree::Mapping(trees) && trees.len()
                == entries@.len() && forall|i: int|
                0 <= i < entries@.len() ==> #[trigger] trees[i] == (
                    entries@[i].0.tree(),
                    entries@[i].1.tree(),
                ),
            Yaml::Tagged(tag, inner) => doc.tree() == YamlTree::Tagged(
                tag,
                Box::new(inner.tree()),
            ),
        },
{
}

/// Tags are looked through, however many there are, and stay around what is changed
/// within them.
pub proof fn tags_are_looked_through(
    tag: serde_yaml_ng::value::Tag,
    inner: YamlTree,
    new: YamlTree,
)
    ensures
        untagged(YamlTree::Tagged(tag, Box::new(inner))) == untagged(inner),
        retagged(YamlTree::Tagged(tag, Box::new(inner)), new) == YamlTree::Tagged(
            tag,
            Box::new(retagged(inner, new)),
        ),
        !(inner is Tagged) ==> untagged(inner) == inner && retagged(inner, new) == new,
{
}

/// A text is given of exactly the documents that are texts, and entries of exactly
/// those that are mappings, whatever their tags.
pub proof fn documents_are_read_as_what_they_are(
    doc: &Yaml,
    text: Option<&str>,
    map: Option<&Vec<(Yaml, Yaml)>>,
)
    requires
        call_ensures(Yaml::as_str, (doc,), text),
        call_ensures(Yaml::as_mapping, (doc,), map),
    ensures
        match untagged(doc.tree()) {
            YamlTree::Text(s) => text matches Some(held) && held@ == s,
            _ => text is None,
        },
        match untagged(doc.tree()) {
            YamlTree::Mapping(entries) => map matches Some(held) && entry_trees(held@) == entries,
            _ => map is None,
        },
{
}

/// Whether the entry at a place is the first under a key.
pub open spec fn is_first_under(entries: Seq<(Yaml, Yaml)>, key: Seq<char>, i: int) -> bool {
    &&& 0 <= i < entries.len()
    &&& entries[i].0.tree() == YamlTree::Text(key)
    &&& forall|j: int| 0 <= j < i ==> (#[trigger] entries[j]).0.tree() != YamlTree::Text(key)
}

/// Whether no entry is under a key.
pub open spec fn has_none_under(entries: Seq<(Yaml, Yaml)>, key: Seq<char>) -> bool {
    forall|j: int| 0 <= j < entries.len() ==> (#[trigger] entries[j]).0.tree() != YamlTree::Text(key)
}

proof fn lemma_first_under(entries: Seq<(Yaml, Yaml)>, key: Seq<char>)
    ensures
        key_index(entry_trees(entries), key) < entries.len() ==> is_first_under(
            entries,
            key,
            key_index(entry_trees(entries), key),
        ),
        key_index(entry_trees(entries), key) >= entries.len() ==> has_none_under(entries, key),
        key_index(entry_trees(entries), key) >= 0,
{
    let trees = entry_trees(entries);
    let p = has_text_key(key);
    lemma_first_index(trees, p);
    let i = key_index(trees, key);
    assert forall|j: int| 0 <= j < i implies (#[trigger] entries[j]).0.tree() != YamlTree::Text(
        key,
    ) by {
        assert(!p(trees[j]));
    }
    if i < entries.len() {
        assert(p(trees[i]));
    }
}

proof fn lemma_first_under_is_unique(entries: Seq<(Yaml, Yaml)>, key: Seq<char>, i: int)
    requires
        is_first_under(entries, key, i),
    ensures
        key_index(entry_trees(entries), key) == i,
{
    let trees = entry_trees(entries);
    let p = has_text_key(key);
    assert forall|j: int| 0 <= j < i implies !p(#[trigger] trees[j]) by {
        assert(entries[j].0.tree() != YamlTree::Text(key));
    }
    lemma_is_first_index(trees, p, i);
}

/// A key is looked up where it first stands, and nothing is found where it does not.
pub proof fn keys_are_looked_up_where_they_stand(
    entries: &Vec<(Yaml, Yaml)>,
    key: &str,
    i: int,
    found: Option<&Yaml>,
)
    requires
        call_ensures(get, (entries, key), found),
    ensures
        is_first_under(entries@, key@, i) ==> (found matches Some(value) && value.tree()
            == entries@[i].1.tree()),
        found is None <==> has_none_under(entries@, key@),
{
    lemma_first_under(entries@, key@);
    if is_first_under(entries@, key@, i) {
        lemma_first_under_is_unique(entries@, key@, i);
    }
}

/// A value is put under a key in place where the key stands, and else behind all
/// other entries, which stay as they are.
pub proof fn values_are_put_in_place_or_behind(
    entries: &mut Vec<(Yaml, Yaml)>,
    key: &str,
    value: Yaml,
    i: int,
)
    requires
        call_ensures(insert, (entries, key, value), ()),
    ensures
        is_first_under(old(entries)@, key@, i) ==> entry_trees(final(entries)@) == entry_trees(
            old(entries)@,
        ).update(i, (YamlTree::Text(key@), value.tree())),
        has_none_under(old(entries)@, key@) ==> entry_trees(final(entries)@) == entry_trees(
            old(entries)@,
        ).push((YamlTree::Text(key@), value.tree())),
{
    lemma_first_under(old(entries)@, key@);
    if is_first_under(old(entries)@, key@, i) {
        lemma_first_under_is_unique(old(entries)@, key@, i);
    }
}

/// A key that is removed leaves its place to the last entry; a key that is not there
/// changes nothing.
pub proof fn removed_keys_leave_their_place_to_the_last(
    entries: &mut Vec<(Yaml, Yaml)>,
    key: &str,
    i: int,
    j: int,
)
    requires
        call_ensures(remove, (entries, key), ()),
    ensures
        is_first_under(old(entries)@, key@, i) ==> final(entries)@.len() == old(entries)@.len() - 1,
        is_first_under(old(entries)@, key@, i) && 0 <= j < final(entries)@.len() ==> entry_trees(
            final(entries)@,
        )[j] == entry_trees(old(entries)@)[if j == i {
            old(entries)@.len() - 1
        } else {
            j
        }],
        has_none_under(old(entries)@, key@) ==> entry_trees(final(entries)@) == entry_trees(
            old(entries)@,
        ),
{
    lemma_first_under(old(entries)@, key@);
    assert(entry_trees(final(entries)@).len() == final(entries)@.len());
    if is_first_under(old(entries)@, key@, i) {
        lemma_first_under_is_unique(old(entries)@, key@, i);
    }
}

/// Of several keys that are removed none is found any more, and every other key is
/// found as before.
pub proof fn removed_keys_are_found_no_more(
    entries: &mut Vec<(Yaml, Yaml)>,
    keys: &[&str],
    other: Seq<char>,
)
    requires
        distinct_keys(entry_trees(old(entries)@)),
        call_ensures(remove_all, (entries, keys), ()),
    ensures
        forall|i: int|
            0 <= i < keys@.len() ==> lookup(
                entry_trees(final(entries)@),
                (#[trigger] keys@[i])@,
            ) is None,
        (forall|i: int| 0 <= i < keys@.len() ==> (#[trigger] keys@[i])@ != other) ==> lookup(
            entry_trees(final(entries)@),
            other,
        ) == lookup(entry_trees(old(entries)@), other),
{
    let names = str_texts(keys@);
    lemma_removed_all(entry_trees(old(entries)@), names);
    assert forall|i: int| 0 <= i < keys@.len() implies lookup(
        entry_trees(final(entries)@),
        (#[trigger] keys@[i])@,
    ) is None by {
        assert(names[i] == keys@[i]@);
        assert(names.contains(names[i]));
    }
    if forall|i: int| 0 <= i < keys@.len() ==> (#[trigger] keys@[i])@ != other {
        assert(!names.contains(other)) by {
            if names.contains(other) {
                let i = choose|i: int| 0 <= i < names.len() && names[i] == other;
                assert(keys@[i]@ == other);
            }
        }
    }
}

/// A document is read from a text exactly where that is YAML, and written exactly
/// where it can be; both as the outside library does it.
pub proof fn documents_are_read_and_written_whole(
    text: &str,
    read: Result<Yaml, serde_yaml_ng::Error>,
    doc: Yaml,
    written: Result<Vec<u8>, serde_yaml_ng::Error>,
)
    requires
        call_ensures(parse_yaml, (text,), read),
        crate::yaml::well_formed(doc.tree()),
        call_ensures(write_yaml, (doc,), written),
    ensures
        match yaml_parse(text@) {
            Some(tree) => read matches Ok(held) && held.tree() == tree,
            None => read is Err,
        },
        match yaml_bytes(doc.tree()) {
            Some(bytes) => written matches Ok(held) && held@ == bytes,
            None => written is Err,
        },
{
}

} // verus!
