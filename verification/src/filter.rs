//! The filtered view: the names of the catalog that contain the query,
//! ordered by length, ties in catalog order.

use vstd::prelude::*;
use crate::text::{byte_len, chars_of, contains_chars, is_substring, name_len, occurs_at};

verus! {

/// The names that contain `query`, in the order in which they stand.
pub open spec fn matching(names: Seq<Seq<char>>, query: Seq<char>) -> Seq<Seq<char>>
    decreases names.len(),
{
    if names.len() == 0 {
        Seq::empty()
    } else if is_substring(query, names.last()) {
        matching(names.drop_last(), query).push(names.last())
    } else {
        matching(names.drop_last(), query)
    }
}

/// `name` placed behind the last entry of `sorted` that is not longer.
pub open spec fn insert_by_len(sorted: Seq<Seq<char>>, name: Seq<char>) -> Seq<Seq<char>>
    decreases sorted.len(),
{
    if sorted.len() == 0 || name_len(sorted.last()) <= name_len(name) {
        sorted.push(name)
    } else {
        insert_by_len(sorted.drop_last(), name).push(sorted.last())
    }
}

/// The names in ascending order of length; names of equal length keep the
/// order in which they stand.
pub open spec fn sort_by_len(names: Seq<Seq<char>>) -> Seq<Seq<char>>
    decreases names.len(),
{
    if names.len() == 0 {
        Seq::empty()
    } else {
        insert_by_len(sort_by_len(names.drop_last()), names.last())
    }
}

/// What the session shows of `catalog` under `query`: the whole catalog in
/// its own order when the query is empty, else the matching names by length.
pub open spec fn filtered_view(catalog: Seq<Seq<char>>, query: Seq<char>) -> Seq<Seq<char>> {
    if query.len() == 0 {
        catalog
    } else {
        sort_by_len(matching(catalog, query))
    }
}

/// The names are in ascending order of length.
pub open spec fn ordered_by_len(names: Seq<Seq<char>>) -> bool {
    forall|i: int, j: int|
        0 <= i <= j < names.len() ==> name_len(#[trigger] names[i]) <= name_len(#[trigger] names[j])
}

/// The names of length `len`, in the order in which they stand.
pub open spec fn of_length(names: Seq<Seq<char>>, len: nat) -> Seq<Seq<char>>
    decreases names.len(),
{
    if names.len() == 0 {
        Seq::empty()
    } else if name_len(names.last()) == len {
        of_length(names.drop_last(), len).push(names.last())
    } else {
        of_length(names.drop_last(), len)
    }
}

/// Every sequence of characters contains the empty one.
pub proof fn lemma_empty_query_matches(hay: Seq<char>)
    ensures
        is_substring(Seq::empty(), hay),
{
    assert(hay.subrange(0, 0) =~= Seq::<char>::empty());
    assert(occurs_at(Seq::empty(), hay, 0));
}

/// Under the empty query every name is kept.
pub proof fn lemma_matching_empty_query(names: Seq<Seq<char>>)
    ensures
        matching(names, Seq::empty()) == names,
    decreases names.len(),
{
    if names.len() > 0 {
        lemma_matching_empty_query(names.drop_last());
        lemma_empty_query_matches(names.last());
        assert(names.drop_last().push(names.last()) =~= names);
    }
}

/// Each kept name contains the query and comes from `names`.
pub proof fn lemma_matching_entries(names: Seq<Seq<char>>, query: Seq<char>)
    ensures
        forall|k: int|
            0 <= k < matching(names, query).len() ==> is_substring(
                query,
                #[trigger] matching(names, query)[k],
            ) && names.contains(matching(names, query)[k]),
    decreases names.len(),
{
    if names.len() > 0 {
        let front = names.drop_last();
        lemma_matching_entries(front, query);
        assert forall|k: int| 0 <= k < matching(names, query).len() implies is_substring(
            query,
            #[trigger] matching(names, query)[k],
        ) && names.contains(matching(names, query)[k]) by {
            if k < matching(front, query).len() {
                let name = matching(front, query)[k];
                let at = choose|at: int| 0 <= at < front.len() && front[at] == name;
                assert(names[at] == name);
            } else {
                assert(names[names.len() - 1] == names.last());
            }
        }
    }
}

/// Every name that contains the query is kept.
pub proof fn lemma_matching_keeps(names: Seq<Seq<char>>, query: Seq<char>, at: int)
    requires
        0 <= at < names.len(),
        is_substring(query, names[at]),
    ensures
        matching(names, query).contains(names[at]),
    decreases names.len(),
{
    let front = names.drop_last();
    if at == names.len() - 1 {
        let kept = matching(names, query);
        assert(kept[kept.len() - 1] == names[at]);
    } else {
        lemma_matching_keeps(front, query, at);
        let k = choose|k: int| 0 <= k < matching(front, query).len() && matching(front, query)[k]
            == front[at];
        assert(matching(names, query)[k] == names[at]);
    }
}

/// Placing a name keeps every name and adds the one.
pub proof fn lemma_insert_by_len_permutes(sorted: Seq<Seq<char>>, name: Seq<char>)
    ensures
        insert_by_len(sorted, name).to_multiset() == sorted.to_multiset().insert(name),
    decreases sorted.len(),
{
    broadcast use vstd::seq_lib::group_to_multiset_ensures;

    if !(sorted.len() == 0 || name_len(sorted.last()) <= name_len(name)) {
        let front = sorted.drop_last();
        lemma_insert_by_len_permutes(front, name);
        assert(front.push(sorted.last()) =~= sorted);
        assert(insert_by_len(sorted, name).to_multiset() =~= sorted.to_multiset().insert(name));
    }
}

/// Sorting by length keeps every name, as often as it occurs.
pub proof fn lemma_sort_by_len_permutes(names: Seq<Seq<char>>)
    ensures
        sort_by_len(names).to_multiset() == names.to_multiset(),
    decreases names.len(),
{
    broadcast use vstd::seq_lib::group_to_multiset_ensures;

    if names.len() > 0 {
        let front = names.drop_last();
        lemma_sort_by_len_permutes(front);
        lemma_insert_by_len_permutes(sort_by_len(front), names.last());
        assert(front.push(names.last()) =~= names);
    } else {
        assert(names =~= Seq::empty());
    }
}

/// Placing a name in an ordered sequence leaves it ordered.
pub proof fn lemma_insert_by_len_ordered(sorted: Seq<Seq<char>>, name: Seq<char>)
    requires
        ordered_by_len(sorted),
    ensures
        ordered_by_len(insert_by_len(sorted, name)),
    decreases sorted.len(),
{
    if !(sorted.len() == 0 || name_len(sorted.last()) <= name_len(name)) {
        let front = sorted.drop_last();
        let last = sorted.last();
        assert(ordered_by_len(front)) by {
            assert forall|i: int, j: int| 0 <= i <= j < front.len() implies name_len(
                #[trigger] front[i],
            ) <= name_len(#[trigger] front[j]) by {
                assert(front[i] == sorted[i] && front[j] == sorted[j]);
            }
        }
        lemma_insert_by_len_ordered(front, name);
        lemma_insert_by_len_permutes(front, name);
        let placed = insert_by_len(front, name);
        let result = placed.push(last);
        assert forall|i: int, j: int| 0 <= i <= j < result.len() implies name_len(
            #[trigger] result[i],
        ) <= name_len(#[trigger] result[j]) by {
            if j < placed.len() {
                assert(result[i] == placed[i] && result[j] == placed[j]);
            } else if i < placed.len() {
                assert(result[i] == placed[i]);
                lemma_entry_of_insert(front, name, i);
                if placed[i] != name {
                    let k = choose|k: int| 0 <= k < front.len() && front[k] == placed[i];
                    assert(sorted[k] == front[k]);
                    assert(sorted[sorted.len() - 1] == last);
                }
            }
        }
    } else {
        let result = sorted.push(name);
        assert forall|i: int, j: int| 0 <= i <= j < result.len() implies name_len(
            #[trigger] result[i],
        ) <= name_len(#[trigger] result[j]) by {
            if j < sorted.len() {
                assert(result[i] == sorted[i] && result[j] == sorted[j]);
            } else if i < sorted.len() {
                assert(result[i] == sorted[i]);
                assert(sorted[sorted.len() - 1] == sorted.last());
            }
        }
    }
}

/// Each entry of the result of placing a name is that name or an entry of
/// the sequence it was placed in.
pub proof fn lemma_entry_of_insert(sorted: Seq<Seq<char>>, name: Seq<char>, at: int)
    requires
        0 <= at < insert_by_len(sorted, name).len(),
    ensures
        insert_by_len(sorted, name)[at] == name || sorted.contains(insert_by_len(sorted, name)[at]),
    decreases sorted.len(),
{
    if !(sorted.len() == 0 || name_len(sorted.last()) <= name_len(name)) {
        let front = sorted.drop_last();
        let placed = insert_by_len(front, name);
        if at < placed.len() {
            lemma_entry_of_insert(front, name, at);
            if placed[at] != name {
                let k = choose|k: int| 0 <= k < front.len() && front[k] == placed[at];
                assert(sorted[k] == placed[at]);
            }
        } else {
            assert(sorted[sorted.len() - 1] == sorted.last());
        }
    } else if at < sorted.len() {
        assert(sorted[at] == sorted.push(name)[at]);
    }
}

/// Sorting by length yields an ordered sequence.
pub proof fn lemma_sort_by_len_ordered(names: Seq<Seq<char>>)
    ensures
        ordered_by_len(sort_by_len(names)),
    decreases names.len(),
{
    if names.len() > 0 {
        lemma_sort_by_len_ordered(names.drop_last());
        lemma_insert_by_len_ordered(sort_by_len(names.drop_last()), names.last());
    }
}

/// Placing a name leaves the names of every length in their order, the new
/// name behind those of its own length.
pub proof fn lemma_insert_by_len_stable(sorted: Seq<Seq<char>>, name: Seq<char>, len: nat)
    ensures
        of_length(insert_by_len(sorted, name), len) == if name_len(name) == len {
            of_length(sorted, len).push(name)
        } else {
            of_length(sorted, len)
        },
    decreases sorted.len(),
{
    if !(sorted.len() == 0 || name_len(sorted.last()) <= name_len(name)) {
        let front = sorted.drop_last();
        lemma_insert_by_len_stable(front, name, len);
        let result = insert_by_len(front, name).push(sorted.last());
        assert(result.drop_last() =~= insert_by_len(front, name));
    } else {
        assert(sorted.push(name).drop_last() =~= sorted);
    }
}

/// Sorting by length is stable: the names of one length keep their order.
pub proof fn lemma_sort_by_len_stable(names: Seq<Seq<char>>, len: nat)
    ensures
        of_length(sort_by_len(names), len) == of_length(names, len),
    decreases names.len(),
{
    if names.len() > 0 {
        lemma_sort_by_len_stable(names.drop_last(), len);
        lemma_insert_by_len_stable(sort_by_len(names.drop_last()), names.last(), len);
    }
}

/// Where no name has length `len`, there are no names of that length.
pub proof fn lemma_of_length_empty(names: Seq<Seq<char>>, len: nat)
    requires
        forall|i: int| 0 <= i < names.len() ==> name_len(#[trigger] names[i]) != len,
    ensures
        of_length(names, len).len() == 0,
    decreases names.len(),
{
    if names.len() > 0 {
        let front = names.drop_last();
        assert forall|i: int| 0 <= i < front.len() implies name_len(#[trigger] front[i])
            != len by {
            assert(front[i] == names[i]);
        }
        lemma_of_length_empty(front, len);
        assert(names[names.len() - 1] == names.last());
    }
}

/// An ordered sequence without its last name is ordered.
pub proof fn lemma_ordered_front(names: Seq<Seq<char>>)
    requires
        ordered_by_len(names),
        names.len() > 0,
    ensures
        ordered_by_len(names.drop_last()),
{
    let front = names.drop_last();
    assert forall|i: int, j: int| 0 <= i <= j < front.len() implies name_len(#[trigger] front[i])
        <= name_len(#[trigger] front[j]) by {
        assert(front[i] == names[i] && front[j] == names[j]);
    }
}

/// The order by length and the order among names of equal length leave no
/// choice: two ordered sequences that agree on the names of every length
/// are the same sequence.
pub proof fn lemma_ordered_and_stable_is_unique(a: Seq<Seq<char>>, b: Seq<Seq<char>>)
    requires
        ordered_by_len(a),
        ordered_by_len(b),
        forall|len: nat| #[trigger] of_length(a, len) == of_length(b, len),
    ensures
        a == b,
    decreases a.len(),
{
    if a.len() == 0 {
        if b.len() > 0 {
            let m = name_len(b.last());
            assert(of_length(a, m) == of_length(b, m));
        }
        assert(a =~= b);
    } else {
        let l = name_len(a.last());
        assert(of_length(a, l) == of_length(b, l));
        if b.len() == 0 {
            assert(false);
        }
        let m = name_len(b.last());
        assert(of_length(a, m) == of_length(b, m));
        if l < m {
            assert forall|i: int| 0 <= i < a.len() implies name_len(#[trigger] a[i]) != m by {
                assert(name_len(a[i]) <= name_len(a[a.len() - 1]));
            }
            lemma_of_length_empty(a, m);
        }
        if m < l {
            assert forall|i: int| 0 <= i < b.len() implies name_len(#[trigger] b[i]) != l by {
                assert(name_len(b[i]) <= name_len(b[b.len() - 1]));
            }
            lemma_of_length_empty(b, l);
        }
        assert(l == m);
        let a_front = a.drop_last();
        let b_front = b.drop_last();
        let a_kept = of_length(a_front, l);
        let b_kept = of_length(b_front, l);
        assert(a_kept.push(a.last()) == b_kept.push(b.last()));
        assert(a_kept.push(a.last()).last() == a.last());
        assert(b_kept.push(b.last()).last() == b.last());
        assert(a_kept.push(a.last()).drop_last() =~= a_kept);
        assert(b_kept.push(b.last()).drop_last() =~= b_kept);
        assert forall|len: nat| #[trigger] of_length(a_front, len) == of_length(b_front, len) by {
            assert(of_length(a, len) == of_length(b, len));
        }
        lemma_ordered_front(a);
        lemma_ordered_front(b);
        lemma_ordered_and_stable_is_unique(a_front, b_front);
        assert(a =~= a_front.push(a.last()));
        assert(b =~= b_front.push(b.last()));
    }
}

/// Each name of the filtered view contains the query and is a name of the
/// catalog.
pub proof fn filtered_view_entries_match(catalog: Seq<Seq<char>>, query: Seq<char>)
    ensures
        forall|k: int|
            0 <= k < filtered_view(catalog, query).len() ==> is_substring(
                query,
                #[trigger] filtered_view(catalog, query)[k],
            ) && catalog.contains(filtered_view(catalog, query)[k]),
{
    let shown = filtered_view(catalog, query);
    assert forall|k: int| 0 <= k < shown.len() implies is_substring(query, #[trigger] shown[k])
        && catalog.contains(shown[k]) by {
        if query.len() == 0 {
            assert(query =~= Seq::empty());
            lemma_empty_query_matches(shown[k]);
        } else {
            let kept = matching(catalog, query);
            lemma_sort_by_len_permutes(kept);
            lemma_matching_entries(catalog, query);
            assert(shown.contains(shown[k]));
            vstd::seq_lib::to_multiset_contains(shown, shown[k]);
            vstd::seq_lib::to_multiset_contains(kept, shown[k]);
            let at = choose|at: int| 0 <= at < kept.len() && kept[at] == shown[k];
            assert(is_substring(query, kept[at]) && catalog.contains(kept[at]));
        }
    }
}

/// Every name of the catalog that contains the query is on show.
pub proof fn filtered_view_keeps_every_match(catalog: Seq<Seq<char>>, query: Seq<char>, at: int)
    requires
        0 <= at < catalog.len(),
        is_substring(query, catalog[at]),
    ensures
        filtered_view(catalog, query).contains(catalog[at]),
{
    if query.len() > 0 {
        let kept = matching(catalog, query);
        lemma_matching_keeps(catalog, query, at);
        lemma_sort_by_len_permutes(kept);
        vstd::seq_lib::to_multiset_contains(kept, catalog[at]);
        vstd::seq_lib::to_multiset_contains(sort_by_len(kept), catalog[at]);
    }
}

/// The filtered view holds every name of the catalog that contains the
/// query, as often as the catalog holds it.
pub proof fn filtered_view_complete(catalog: Seq<Seq<char>>, query: Seq<char>)
    ensures
        filtered_view(catalog, query).to_multiset() == matching(catalog, query).to_multiset(),
{
    if query.len() == 0 {
        assert(query =~= Seq::empty());
        lemma_matching_empty_query(catalog);
    } else {
        lemma_sort_by_len_permutes(matching(catalog, query));
    }
}

/// Under a query that is not empty the filtered view is in ascending order
/// of length.
pub proof fn filtered_view_ordered(catalog: Seq<Seq<char>>, query: Seq<char>)
    requires
        query.len() > 0,
    ensures
        ordered_by_len(filtered_view(catalog, query)),
{
    lemma_sort_by_len_ordered(matching(catalog, query));
}

/// Among names of equal length the filtered view keeps the order of the
/// catalog: its names of length `len` are the catalog's matching names of
/// that length, in catalog order.
pub proof fn filtered_view_stable(catalog: Seq<Seq<char>>, query: Seq<char>, len: nat)
    ensures
        of_length(filtered_view(catalog, query), len) == of_length(matching(catalog, query), len),
{
    if query.len() == 0 {
        assert(query =~= Seq::empty());
        lemma_matching_empty_query(catalog);
    } else {
        lemma_sort_by_len_stable(matching(catalog, query), len);
    }
}

/// Under a query that is not empty the filtered view is the only sequence
/// that is in ascending order of length and holds, for every length, the
/// catalog's matching names of that length in catalog order.
pub proof fn filtered_view_is_determined(
    catalog: Seq<Seq<char>>,
    query: Seq<char>,
    other: Seq<Seq<char>>,
)
    requires
        query.len() > 0,
        ordered_by_len(other),
        forall|len: nat| #[trigger]
            of_length(other, len) == of_length(matching(catalog, query), len),
    ensures
        other == filtered_view(catalog, query),
{
    let shown = filtered_view(catalog, query);
    filtered_view_ordered(catalog, query);
    assert forall|len: nat| #[trigger] of_length(other, len) == of_length(shown, len) by {
        filtered_view_stable(catalog, query, len);
    }
    lemma_ordered_and_stable_is_unique(other, shown);
}

/// The empty query shows the whole catalog in its own order.
pub proof fn filtered_view_of_empty_query(catalog: Seq<Seq<char>>)
    ensures
        filtered_view(catalog, Seq::empty()) == catalog,
{
}

/// Where `insert_by_len` puts a name: behind every entry that is not longer
/// than it, before the run of longer entries that ends the sequence.
pub proof fn lemma_insert_position(sorted: Seq<Seq<char>>, name: Seq<char>, pos: int)
    requires
        0 <= pos <= sorted.len(),
        pos > 0 ==> name_len(sorted[pos - 1]) <= name_len(name),
        forall|k: int| pos <= k < sorted.len() ==> name_len(#[trigger] sorted[k]) > name_len(name),
    ensures
        insert_by_len(sorted, name) == sorted.insert(pos, name),
    decreases sorted.len() - pos,
{
    if pos == sorted.len() {
        assert(sorted.insert(pos, name) =~= sorted.push(name));
    } else {
        let front = sorted.drop_last();
        lemma_insert_position(front, name, pos);
        assert(front.insert(pos, name).push(sorted.last()) =~= sorted.insert(pos, name));
    }
}

/// Places `name` in `sorted` where `insert_by_len` puts it.
fn insert_name(sorted: &mut Vec<String>, name: String)
    ensures
        final(sorted).deep_view() == insert_by_len(old(sorted).deep_view(), name@),
{
    let wanted = byte_len(name.as_str());
    let mut pos: usize = sorted.len();
    while pos > 0 && byte_len(sorted[pos - 1].as_str()) > wanted
        invariant
            pos <= sorted.len(),
            *sorted == *old(sorted),
            wanted == name_len(name@),
            forall|k: int| pos <= k < sorted.len() ==> name_len(#[trigger] sorted@[k]@) > wanted,
        decreases pos,
    {
        pos -= 1;
    }
    proof {
        let before = sorted.deep_view();
        assert forall|k: int| pos <= k < before.len() implies name_len(#[trigger] before[k])
            > name_len(name@) by {
            assert(before[k] == sorted@[k]@);
        }
        if pos > 0 {
            assert(before[pos - 1] == sorted@[pos - 1]@);
        }
        lemma_insert_position(before, name@, pos as int);
    }
    let ghost before = sorted.deep_view();
    let ghost name_view = name@;
    sorted.insert(pos, name);
    assert(sorted.deep_view() =~= before.insert(pos as int, name_view));
}

/// Computes the filtered view of `catalog` under `query`.
pub fn filter_names(catalog: &Vec<String>, query: &str) -> (shown: Vec<String>)
    ensures
        shown.deep_view() == filtered_view(catalog.deep_view(), query@),
{
    let needle = chars_of(query);
    let by_length = needle.len() > 0;
    let ghost all = catalog.deep_view();
    let mut shown: Vec<String> = Vec::new();
    let mut i: usize = 0;
    while i < catalog.len()
        invariant
            i <= catalog.len(),
            all == catalog.deep_view(),
            needle@ == query@,
            by_length == (query@.len() > 0),
            by_length ==> shown.deep_view() == sort_by_len(matching(all.take(i as int), query@)),
            !by_length ==> shown.deep_view() == all.take(i as int),
        decreases catalog.len() - i,
    {
        let name = &catalog[i];
        proof {
            assert(all.take(i + 1).drop_last() =~= all.take(i as int));
            assert(all.take(i + 1).last() == name@);
        }
        if !by_length {
            let ghost before = shown.deep_view();
            shown.push(name.clone());
            assert(shown.deep_view() =~= before.push(name@));
            assert(all.take(i + 1) =~= all.take(i as int).push(name@));
        } else {
            let letters = chars_of(name.as_str());
            let ghost found = matching(all.take(i as int), query@);
            if contains_chars(&letters, &needle) {
                insert_name(&mut shown, name.clone());
                assert(matching(all.take(i + 1), query@) == found.push(name@));
                assert(found.push(name@).drop_last() =~= found);
            } else {
                assert(matching(all.take(i + 1), query@) == found);
            }
        }
        i += 1;
    }
    assert(all.take(i as int) =~= all);
    shown
}

} // verus!
