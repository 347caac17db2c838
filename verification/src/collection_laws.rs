//! What maps, sets and sorted lists promise.
use crate::key_map::{KeyMap, MapKey};
use crate::sorting::{
    insert_ranked, ranked, ranks_in_line, sort_ranked, sorting_keeps_the_items, sorting_sorts,
    Ranked,
};
use crate::text_set::TextSet;
use vstd::prelude::*;

verus! {

/// What was put into a map is found under its key, and what is under other keys stays.
pub proof fn what_was_put_in_is_found<K: MapKey, V>(
    m: &mut KeyMap<K, V>,
    key: K,
    value: V,
    later: &KeyMap<K, V>,
    same: &K,
    other: &K,
    found: Option<&V>,
    before: Option<&V>,
    after: Option<&V>,
    was: &KeyMap<K, V>,
)
    requires
        *was == *old(m),
        call_ensures(KeyMap::<K, V>::insert, (m, key, value), ()),
        *later == *final(m),
        same.id() == key.id(),
        other.id() != key.id(),
        call_ensures(KeyMap::<K, V>::get, (later, same), found),
        call_ensures(KeyMap::<K, V>::get, (was, other), before),
        call_ensures(KeyMap::<K, V>::get, (later, other), after),
    ensures
        found is Some,
        *(found->0) == value,
        after is Some <==> before is Some,
        before is Some ==> *(after->0) == *(before->0),
{
}

/// What was taken out of a map is handed over and gone, and what is under other keys stays.
pub proof fn what_was_taken_out_is_gone<K: MapKey, V>(
    m: &mut KeyMap<K, V>,
    key: &K,
    r: Option<V>,
    was: &KeyMap<K, V>,
    later: &KeyMap<K, V>,
    other: &K,
    had: Option<&V>,
    there: bool,
    before: Option<&V>,
    after: Option<&V>,
)
    requires
        *was == *old(m),
        call_ensures(KeyMap::<K, V>::remove, (m, key), r),
        *later == *final(m),
        other.id() != key.id(),
        call_ensures(KeyMap::<K, V>::get, (was, key), had),
        call_ensures(KeyMap::<K, V>::contains_key, (later, key), there),
        call_ensures(KeyMap::<K, V>::get, (was, other), before),
        call_ensures(KeyMap::<K, V>::get, (later, other), after),
    ensures
        !there,
        r is Some <==> had is Some,
        had is Some ==> r->0 == *(had->0),
        after is Some <==> before is Some,
        before is Some ==> *(after->0) == *(before->0),
{
}

/// A new map has no keys, and a map that was cleared neither.
pub proof fn empty_maps_have_no_keys<K: MapKey, V>(
    m: KeyMap<K, V>,
    n: &mut KeyMap<K, V>,
    fresh: &KeyMap<K, V>,
    cleared: &KeyMap<K, V>,
    key: &K,
    a: bool,
    b: bool,
    c: bool,
)
    requires
        call_ensures(KeyMap::<K, V>::new, (), m),
        *fresh == m,
        call_ensures(KeyMap::<K, V>::clear, (n,), ()),
        *cleared == *final(n),
        call_ensures(KeyMap::<K, V>::contains_key, (fresh, key), a),
        call_ensures(KeyMap::<K, V>::contains_key, (cleared, key), b),
        call_ensures(KeyMap::<K, V>::is_empty, (cleared,), c),
    ensures
        !a,
        !b,
        c,
{
}

/// A map with a key is not empty.
pub proof fn a_map_with_a_key_is_not_empty<K: MapKey, V>(
    m: &KeyMap<K, V>,
    key: &K,
    there: bool,
    empty: bool,
)
    requires
        call_ensures(KeyMap::<K, V>::contains_key, (m, key), there),
        call_ensures(KeyMap::<K, V>::is_empty, (m,), empty),
        there,
    ensures
        !empty,
{
}

/// A text that was put into a set is in it, one that was taken out is not, and the others stay; it is told whether
/// anything changed.
pub proof fn sets_hold_what_was_put_in(
    s: &mut TextSet,
    text: String,
    r: bool,
    was: &TextSet,
    later: &TextSet,
    t: &mut TextSet,
    taken: &str,
    q: bool,
    gone: &TextSet,
    same: &str,
    other: &str,
    had: bool,
    there: bool,
    before: bool,
    after: bool,
    left: bool,
    rest: bool,
)
    requires
        *was == *old(s),
        call_ensures(TextSet::insert, (s, text), r),
        *later == *final(s),
        *old(t) == *final(s),
        taken@ == text@,
        call_ensures(TextSet::remove, (t, taken), q),
        *gone == *final(t),
        same@ == text@,
        other@ != text@,
        call_ensures(TextSet::contains, (was, same), had),
        call_ensures(TextSet::contains, (later, same), there),
        call_ensures(TextSet::contains, (was, other), before),
        call_ensures(TextSet::contains, (later, other), after),
        call_ensures(TextSet::contains, (gone, same), left),
        call_ensures(TextSet::contains, (gone, other), rest),
    ensures
        there,
        r <==> !had,
        after == before,
        q,
        !left,
        rest == before,
{
}

/// A new set holds nothing, and a set that was cleared neither.
pub proof fn empty_sets_hold_nothing(
    s: TextSet,
    t: &mut TextSet,
    fresh: &TextSet,
    cleared: &TextSet,
    text: &str,
    a: bool,
    b: bool,
)
    requires
        call_ensures(TextSet::new, (), s),
        *fresh == s,
        call_ensures(TextSet::clear, (t,), ()),
        *cleared == *final(t),
        call_ensures(TextSet::contains, (fresh, text), a),
        call_ensures(TextSet::contains, (cleared, text), b),
    ensures
        !a,
        !b,
{
}

/// The items that rank like a given one.
pub open spec fn ranked_like<T: Ranked>(s: Seq<T>, item: T) -> Seq<T>
    decreases s.len(),
{
    if s.len() == 0 {
        s
    } else {
        let before = ranked_like(s.drop_last(), item);
        if s.last().ranks_before(item) && item.ranks_before(s.last()) {
            before.push(s.last())
        } else {
            before
        }
    }
}

proof fn ranked_like_push<T: Ranked>(s: Seq<T>, last: T, item: T)
    ensures
        ranked_like(s.push(last), item) == (if last.ranks_before(item) && item.ranks_before(last) {
            ranked_like(s, item).push(last)
        } else {
            ranked_like(s, item)
        }),
{
    assert(s.push(last).drop_last() =~= s);
}

proof fn insert_keeps_the_order_of_equals<T: Ranked>(s: Seq<T>, new: T, item: T)
    requires
        ranks_in_line::<T>(),
    ensures
        ranked_like(insert_ranked(s, new), item) == ranked_like(s.push(new), item),
    decreases s.len(),
{
    if s.len() > 0 && !s.last().ranks_before(new) {
        let head = s.drop_last();
        let last = s.last();
        insert_keeps_the_order_of_equals(head, new, item);
        ranked_like_push(insert_ranked(head, new), last, item);
        ranked_like_push(head, new, item);
        ranked_like_push(s, new, item);
        ranked_like_push(head, last, item);
        assert(s =~= head.push(last));
        if last.ranks_before(item) && item.ranks_before(new) {
            assert(last.ranks_before(new));
        }
    }
}

proof fn ranked_keeps_the_order_of_equals<T: Ranked>(s: Seq<T>, item: T)
    requires
        ranks_in_line::<T>(),
    ensures
        ranked_like(ranked(s), item) == ranked_like(s, item),
    decreases s.len(),
{
    if s.len() > 0 {
        let head = s.drop_last();
        ranked_keeps_the_order_of_equals(head, item);
        insert_keeps_the_order_of_equals(ranked(head), s.last(), item);
        ranked_like_push(ranked(head), s.last(), item);
        ranked_like_push(head, s.last(), item);
        assert(s =~= head.push(s.last()));
    }
}

/// Sorting puts every item before those that it ranks before, keeps the items, no more and no fewer, and leaves
/// those of the same rank as they stood.
pub proof fn sorted_lists_are_in_rank<T: Ranked>(list: &mut Vec<T>, i: int, j: int, item: T)
    requires
        call_ensures(sort_ranked::<T>, (list,), ()),
        ranks_in_line::<T>(),
    ensures
        0 <= i < j < final(list)@.len() ==> final(list)@[i].ranks_before(final(list)@[j]),
        final(list)@.to_multiset() == old(list)@.to_multiset(),
        final(list)@.len() == old(list)@.len(),
        ranked_like(final(list)@, item) == ranked_like(old(list)@, item),
{
    sorting_sorts(old(list)@);
    sorting_keeps_the_items(old(list)@);
    ranked_keeps_the_order_of_equals(old(list)@, item);
}

} // verus!
