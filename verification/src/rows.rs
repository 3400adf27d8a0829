//! Rows of a table, sorted by their names.
use vstd::prelude::*;

use crate::text::chars_of;

verus! {

/// Whether `a` comes before `b` in the order of their characters.
pub open spec fn comes_before(a: Seq<char>, b: Seq<char>) -> bool
    decreases b.len(),
{
    if b.len() == 0 {
        false
    } else if a.len() == 0 {
        true
    } else {
        a[0] < b[0] || (a[0] == b[0] && comes_before(a.skip(1), b.skip(1)))
    }
}

/// Whether `a` comes before `b` in the order of their characters.
pub fn is_before(a: &str, b: &str) -> (r: bool)
    ensures
        r == comes_before(a@, b@),
{
    let a_chars = chars_of(a);
    let b_chars = chars_of(b);
    let mut i: usize = 0;
    proof {
        assert(a@.skip(0) =~= a@);
        assert(b@.skip(0) =~= b@);
    }
    while i < a_chars.len() && i < b_chars.len() && a_chars[i] == b_chars[i]
        invariant
            a_chars@ == a@,
            b_chars@ == b@,
            i <= a@.len(),
            i <= b@.len(),
            comes_before(a@, b@) == comes_before(a@.skip(i as int), b@.skip(i as int)),
        decreases a@.len() - i,
    {
        proof {
            assert(a@.skip(i as int).skip(1) =~= a@.skip(i + 1));
            assert(b@.skip(i as int).skip(1) =~= b@.skip(i + 1));
        }
        i = i + 1;
    }
    if i == b_chars.len() {
        false
    } else if i == a_chars.len() {
        true
    } else {
        a_chars[i] < b_chars[i]
    }
}

/// Of two texts that are not the same, exactly one comes before the other.
pub proof fn order_is_total(a: Seq<char>, b: Seq<char>)
    ensures
        !(comes_before(a, b) && comes_before(b, a)),
        comes_before(a, b) || comes_before(b, a) || a == b,
        !comes_before(a, a),
    decreases a.len(),
{
    if a.len() > 0 {
        order_is_total(a.skip(1), a.skip(1));
    }
    if a.len() > 0 && b.len() > 0 {
        order_is_total(a.skip(1), b.skip(1));
        if a[0] == b[0] && a.skip(1) == b.skip(1) {
            assert(a =~= seq![a[0]] + a.skip(1));
            assert(b =~= seq![b[0]] + b.skip(1));
        }
    } else if a.len() == 0 && b.len() == 0 {
        assert(a =~= b);
    }
}

/// A text that comes before one that comes before a third comes before that.
pub proof fn order_is_transitive(a: Seq<char>, b: Seq<char>, c: Seq<char>)
    requires
        comes_before(a, b),
        comes_before(b, c),
    ensures
        comes_before(a, c),
    decreases a.len(),
{
    if a.len() > 0 && a[0] == b[0] && b[0] == c[0] {
        order_is_transitive(a.skip(1), b.skip(1), c.skip(1));
    }
}

/// A row behind all that its name does not come before.
pub open spec fn row_inserted(
    rows: Seq<(Seq<char>, Seq<char>)>,
    row: (Seq<char>, Seq<char>),
) -> Seq<(Seq<char>, Seq<char>)>
    decreases rows.len(),
{
    if rows.len() == 0 || !comes_before(row.0, rows.last().0) {
        rows.push(row)
    } else {
        row_inserted(rows.drop_last(), row).push(rows.last())
    }
}

/// Rows, sorted by their names.
pub open spec fn rows_sorted(rows: Seq<(Seq<char>, Seq<char>)>) -> Seq<(Seq<char>, Seq<char>)>
    decreases rows.len(),
{
    if rows.len() == 0 {
        rows
    } else {
        row_inserted(rows_sorted(rows.drop_last()), rows.last())
    }
}

/// Whether no name comes before the name of an earlier row.
pub open spec fn in_order(rows: Seq<(Seq<char>, Seq<char>)>) -> bool {
    forall|i: int, j: int|
        0 <= i < j < rows.len() ==> !comes_before((#[trigger] rows[j]).0, (#[trigger] rows[i]).0)
}

proof fn lemma_row_inserted(rows: Seq<(Seq<char>, Seq<char>)>, row: (Seq<char>, Seq<char>))
    requires
        in_order(rows),
    ensures
        in_order(row_inserted(rows, row)),
        row_inserted(rows, row).to_multiset() == rows.to_multiset().insert(row),
        forall|i: int|
            0 <= i < row_inserted(rows, row).len() ==> (#[trigger] row_inserted(rows, row)[i])
                == row || rows.contains(row_inserted(rows, row)[i]),
    decreases rows.len(),
{
    broadcast use vstd::seq_lib::group_to_multiset_ensures;

    let made = row_inserted(rows, row);
    if rows.len() == 0 {
        assert(made =~= seq![row]);
    } else if !comes_before(row.0, rows.last().0) {
        assert forall|i: int, j: int| 0 <= i < j < made.len() implies !comes_before(
            (#[trigger] made[j]).0,
            (#[trigger] made[i]).0,
        ) by {
            if j == rows.len() {
                let last = rows[rows.len() - 1].0;
                if i < rows.len() - 1 {
                    assert(!comes_before(last, rows[i].0));
                }
                order_is_total(row.0, last);
                order_is_total(last, rows[i].0);
                if comes_before(row.0, rows[i].0) {
                    if comes_before(rows[i].0, last) {
                        order_is_transitive(row.0, rows[i].0, last);
                    }
                }
            }
        }
        assert forall|i: int| 0 <= i < made.len() implies (#[trigger] made[i]) == row
            || rows.contains(made[i]) by {
            if i < rows.len() {
                assert(made[i] == rows[i]);
            }
        }
    } else {
        let init = rows.drop_last();
        let last = rows.last();
        lemma_row_inserted(init, row);
        let head = row_inserted(init, row);
        assert(made == head.push(last));
        assert forall|i: int, j: int| 0 <= i < j < made.len() implies !comes_before(
            (#[trigger] made[j]).0,
            (#[trigger] made[i]).0,
        ) by {
            if j == head.len() {
                if head[i] == row {
                    order_is_total(row.0, last.0);
                } else {
                    assert(init.contains(head[i]));
                    let k = choose|k: int| 0 <= k < init.len() && init[k] == head[i];
                    assert(!comes_before(rows[rows.len() - 1].0, rows[k].0));
                }
            } else {
                assert(made[i] == head[i] && made[j] == head[j]);
            }
        }
        assert(rows =~= init.push(last));
        assert(made.to_multiset() =~= rows.to_multiset().insert(row));
        assert forall|i: int| 0 <= i < made.len() implies (#[trigger] made[i]) == row
            || rows.contains(made[i]) by {
            if i < head.len() {
                assert(made[i] == head[i]);
                if head[i] != row {
                    let k = choose|k: int| 0 <= k < init.len() && init[k] == head[i];
                    assert(rows[k] == made[i]);
                }
            } else {
                assert(rows[rows.len() - 1] == made[i]);
            }
        }
    }
}

/// Sorted rows are in order, and are the same rows.
pub proof fn sorting_keeps_all_rows(rows: Seq<(Seq<char>, Seq<char>)>)
    ensures
        in_order(rows_sorted(rows)),
        rows_sorted(rows).to_multiset() == rows.to_multiset(),
    decreases rows.len(),
{
    broadcast use vstd::seq_lib::group_to_multiset_ensures;

    if rows.len() > 0 {
        sorting_keeps_all_rows(rows.drop_last());
        lemma_row_inserted(rows_sorted(rows.drop_last()), rows.last());
        assert(rows =~= rows.drop_last().push(rows.last()));
    }
}

/// Whether each name comes before the names of all later rows.
pub open spec fn strictly_in_order(rows: Seq<(Seq<char>, Seq<char>)>) -> bool {
    forall|i: int, j: int|
        0 <= i < j < rows.len() ==> comes_before((#[trigger] rows[i]).0, (#[trigger] rows[j]).0)
}

/// Where no name occurs twice, sorted rows are in strict order, and are the same
/// rows.
pub proof fn distinct_rows_are_sorted_strictly(rows: Seq<(Seq<char>, Seq<char>)>)
    requires
        forall|i: int, j: int|
            0 <= i < j < rows.len() ==> (#[trigger] rows[i]).0 != (#[trigger] rows[j]).0,
    ensures
        strictly_in_order(rows_sorted(rows)),
        rows_sorted(rows).len() == rows.len(),
        forall|row: (Seq<char>, Seq<char>)|
            #[trigger] rows_sorted(rows).contains(row) <==> rows.contains(row),
{
    broadcast use vstd::seq_lib::group_to_multiset_ensures;

    let sorted = rows_sorted(rows);
    sorting_keeps_all_rows(rows);
    assert(sorted.to_multiset().len() == rows.to_multiset().len());
    assert forall|row: (Seq<char>, Seq<char>)| #[trigger] sorted.contains(row) == rows.contains(
        row,
    ) by {
        assert(sorted.contains(row) <==> sorted.to_multiset().count(row) > 0);
        assert(rows.contains(row) <==> rows.to_multiset().count(row) > 0);
    }
    assert(rows.no_duplicates());
    rows.lemma_multiset_has_no_duplicates();
    sorted.lemma_multiset_has_no_duplicates_conv();
    assert forall|i: int, j: int| 0 <= i < j < sorted.len() implies comes_before(
        (#[trigger] sorted[i]).0,
        (#[trigger] sorted[j]).0,
    ) by {
        assert(!comes_before(sorted[j].0, sorted[i].0));
        order_is_total(sorted[i].0, sorted[j].0);
        if sorted[i].0 == sorted[j].0 {
            assert(sorted.contains(sorted[i]) && sorted.contains(sorted[j]));
            let k = choose|k: int| 0 <= k < rows.len() && rows[k] == sorted[i];
            let l = choose|l: int| 0 <= l < rows.len() && rows[l] == sorted[j];
            if k < l {
                assert(rows[k].0 != rows[l].0);
            } else if l < k {
                assert(rows[l].0 != rows[k].0);
            }
        }
    }
}

/// Rows in strict order are known by what they are: the same rows are in the same
/// order.
pub proof fn strict_order_is_unique(
    a: Seq<(Seq<char>, Seq<char>)>,
    b: Seq<(Seq<char>, Seq<char>)>,
)
    requires
        strictly_in_order(a),
        strictly_in_order(b),
        forall|row: (Seq<char>, Seq<char>)| #[trigger] a.contains(row) <==> b.contains(row),
    ensures
        a == b,
    decreases a.len(),
{
    if a.len() == 0 {
        if b.len() > 0 {
            assert(b.contains(b[0]));
            assert(a.contains(b[0]));
        }
        assert(a =~= b);
    } else {
        assert(a.contains(a[a.len() - 1]));
        let k = choose|k: int| 0 <= k < b.len() && b[k] == a.last();
        assert(b.contains(b[b.len() - 1]));
        assert(a.contains(b.last()));
        let l = choose|l: int| 0 <= l < a.len() && a[l] == b.last();
        order_is_total(a.last().0, b.last().0);
        if k < b.len() - 1 && l < a.len() - 1 {
            assert(comes_before(b[k].0, b[b.len() - 1].0));
            assert(comes_before(a[l].0, a[a.len() - 1].0));
        }
        assert(a.last() == b.last());
        let a_init = a.drop_last();
        let b_init = b.drop_last();
        assert forall|row: (Seq<char>, Seq<char>)| #[trigger]
            a_init.contains(row) == b_init.contains(row) by {
            lemma_contained_before_last(a, row);
            lemma_contained_before_last(b, row);
            assert(a.contains(row) == b.contains(row));
        }
        strict_order_is_unique(a_init, b_init);
        assert(a =~= a_init.push(a.last()));
        assert(b =~= b_init.push(b.last()));
    }
}

proof fn lemma_contained_before_last(
    rows: Seq<(Seq<char>, Seq<char>)>,
    row: (Seq<char>, Seq<char>),
)
    requires
        strictly_in_order(rows),
        rows.len() > 0,
    ensures
        rows.drop_last().contains(row) == (rows.contains(row) && row != rows.last()),
{
    let init = rows.drop_last();
    if init.contains(row) {
        let k = choose|k: int| 0 <= k < init.len() && init[k] == row;
        assert(rows[k] == row);
        assert(comes_before(rows[k].0, rows[rows.len() - 1].0));
        order_is_total(row.0, row.0);
    }
    if rows.contains(row) && row != rows.last() {
        let k = choose|k: int| 0 <= k < rows.len() && rows[k] == row;
        assert(init[k] == row);
    }
}

/// The views of rows.
pub open spec fn row_texts(rows: Seq<(String, String)>) -> Seq<(Seq<char>, Seq<char>)> {
    Seq::new(rows.len(), |i: int| (rows[i].0@, rows[i].1@))
}

/// Adds a row behind all that its name does not come before.
pub fn insert_row(rows: &mut Vec<(String, String)>, row: (String, String))
    ensures
        row_texts(final(rows)@) == row_inserted(row_texts(old(rows)@), (row.0@, row.1@)),
{
    let ghost before = row_texts(rows@);
    let ghost added = (row.0@, row.1@);
    let n: usize = rows.len();
    let mut at: usize = n;
    proof {
        assert(before.take(n as int) =~= before);
        assert(before.skip(n as int) =~= seq![]);
        assert(row_inserted(before, added) + before.skip(n as int) =~= row_inserted(before, added));
    }
    while at > 0 && is_before(row.0.as_str(), rows[at - 1].0.as_str())
        invariant
            n == rows@.len(),
            *rows == *old(rows),
            before == row_texts(rows@),
            added == (row.0@, row.1@),
            at <= n,
            row_inserted(before, added) == row_inserted(before.take(at as int), added)
                + before.skip(at as int),
        decreases at,
    {
        proof {
            assert(before.take(at as int).drop_last() =~= before.take(at - 1));
            assert(row_inserted(before.take(at - 1), added).push(before[at - 1]) + before.skip(
                at as int,
            ) =~= row_inserted(before.take(at - 1), added) + before.skip(at - 1));
        }
        at = at - 1;
    }
    proof {
        assert(row_inserted(before.take(at as int), added) == before.take(at as int).push(added));
    }
    rows.insert(at, row);
    proof {
        assert(row_texts(rows@) =~= before.take(at as int).push(added) + before.skip(at as int));
    }
}

} // verus!
