use vstd::prelude::*;

use crate::text::{chars_of, contains_chars, is_substring, lower_of, lowercase};

verus! {

/// `item` is kept by `query`: the query is empty, or it occurs in the item once
/// both are lower-cased.
pub open spec fn matches_filter(item: Seq<char>, query: Seq<char>) -> bool {
    query.len() == 0 || is_substring(lower_of(query), lower_of(item))
}

/// The items of `items` that `query` keeps, in their order.
pub open spec fn filtered(items: Seq<String>, query: Seq<char>) -> Seq<String>
    decreases items.len(),
{
    if items.len() == 0 {
        Seq::empty()
    } else {
        let rest = filtered(items.drop_last(), query);
        if matches_filter(items.last()@, query) {
            rest.push(items.last())
        } else {
            rest
        }
    }
}

/// `a` is a subsequence of `b`: `b` with some items left out.
pub open spec fn subsequence_of<A>(a: Seq<A>, b: Seq<A>) -> bool
    decreases b.len(),
{
    if a.len() == 0 {
        true
    } else if b.len() == 0 {
        false
    } else if a.last() == b.last() {
        subsequence_of(a.drop_last(), b.drop_last())
    } else {
        subsequence_of(a, b.drop_last())
    }
}

/// The items of `items` whose text contains `query`, ignoring case; all of
/// them when `query` is empty.
pub fn filter_choices(items: &Vec<String>, query: &str) -> (r: Vec<String>)
    ensures
        r@ == filtered(items@, query@),
{
    let query_chars = chars_of(query);
    let lowered = lowercase(query);
    let mut r: Vec<String> = Vec::new();
    let mut i: usize = 0;
    while i < items.len()
        invariant
            i <= items@.len(),
            query_chars@ == query@,
            lowered@ == lower_of(query@),
            r@ == filtered(items@.subrange(0, i as int), query@),
        decreases items@.len() - i,
    {
        let ghost next = items@.subrange(0, i + 1);
        assert(next.drop_last() =~= items@.subrange(0, i as int));
        assert(next.last() == items@[i as int]);
        let keep = if query_chars.len() == 0 {
            true
        } else {
            let item_lowered = lowercase(items[i].as_str());
            contains_chars(&item_lowered, &lowered)
        };
        if keep {
            r.push(items[i].clone());
        }
        i = i + 1;
    }
    assert(items@.subrange(0, i as int) =~= items@);
    r
}

/// The empty query keeps every item.
pub proof fn lemma_filter_empty(items: Seq<String>, query: Seq<char>)
    requires
        query.len() == 0,
    ensures
        filtered(items, query) == items,
    decreases items.len(),
{
    if items.len() > 0 {
        lemma_filter_empty(items.drop_last(), query);
        assert(items.drop_last().push(items.last()) =~= items);
    }
}

/// Filtering keeps items in their order and adds none: the result is a
/// subsequence of the list, hence no longer than it, and each item it holds is
/// an item of the list that the query keeps.
pub proof fn lemma_filter_subsequence(items: Seq<String>, query: Seq<char>)
    ensures
        subsequence_of(filtered(items, query), items),
        filtered(items, query).len() <= items.len(),
        forall|i: int|
            0 <= i < filtered(items, query).len() ==> {
                &&& items.contains(#[trigger] filtered(items, query)[i])
                &&& matches_filter(filtered(items, query)[i]@, query)
            },
    decreases items.len(),
{
    if items.len() > 0 {
        let rest = items.drop_last();
        lemma_filter_subsequence(rest, query);
        let f = filtered(items, query);
        let fr = filtered(rest, query);
        if matches_filter(items.last()@, query) {
            assert(f.drop_last() =~= fr);
            assert(items.drop_last() =~= rest);
        } else if fr.len() > 0 {
            assert(matches_filter(fr[fr.len() - 1]@, query));
            assert(fr.last() != items.last());
        }
        assert forall|i: int| 0 <= i < f.len() implies {
            &&& items.contains(#[trigger] f[i])
            &&& matches_filter(f[i]@, query)
        } by {
            if i < fr.len() {
                assert(rest.contains(fr[i]));
                let j = choose|j: int| 0 <= j < rest.len() && rest[j] == fr[i];
                assert(items[j] == f[i]);
            } else {
                assert(items[items.len() - 1] == f[i]);
            }
        }
    }
}

} // verus!
