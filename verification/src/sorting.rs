//! Sorting that keeps items of the same rank as they were.
use vstd::prelude::*;

verus! {

/// An item that can be sorted.
pub trait Ranked: Sized {
    /// Tells whether this item may stand before the other.
    spec fn ranks_before(self, other: Self) -> bool;

    /// Tells whether this item may stand before the other.
    fn may_precede(&self, other: &Self) -> (r: bool)
        ensures
            r == self.ranks_before(*other),
    ;
}

/// A list with an item behind the last that may stand before it.
pub open spec fn insert_ranked<T: Ranked>(s: Seq<T>, item: T) -> Seq<T>
    decreases s.len(),
{
    if s.len() == 0 || s.last().ranks_before(item) {
        s.push(item)
    } else {
        insert_ranked(s.drop_last(), item).push(s.last())
    }
}

/// A list sorted by rank, items of the same rank as they were.
pub open spec fn ranked<T: Ranked>(s: Seq<T>) -> Seq<T>
    decreases s.len(),
{
    if s.len() == 0 {
        s
    } else {
        insert_ranked(ranked(s.drop_last()), s.last())
    }
}

proof fn insert_ranked_at<T: Ranked>(s: Seq<T>, item: T, at: int)
    requires
        0 <= at <= s.len(),
        at == 0 || s[at - 1].ranks_before(item),
        forall|k: int| at <= k < s.len() ==> !(#[trigger] s[k]).ranks_before(item),
    ensures
        insert_ranked(s, item) == s.insert(at, item),
    decreases s.len(),
{
    if s.len() == at {
        assert(s.push(item) =~= s.insert(at, item));
    } else {
        assert(!s[s.len() - 1].ranks_before(item));
        insert_ranked_at(s.drop_last(), item, at);
        assert(s.drop_last().insert(at, item).push(s.last()) =~= s.insert(at, item));
    }
}

/// Sorts a list by rank, keeping items of the same rank as they were.
pub fn sort_ranked<T: Ranked>(list: &mut Vec<T>)
    ensures
        final(list)@ == ranked(old(list)@),
{
    let ghost all = list@;
    assert(list@.take(0) =~= ranked(all.take(0)));
    let len: usize = list.len();
    for i in 0..len
        invariant
            len == all.len(),
            list@.len() == all.len(),
            list@.take(i as int) == ranked(all.take(i as int)),
            forall|k: int| i <= k < all.len() ==> list@[k] == all[k],
    {
        let ghost before = list@;
        let item = list.remove(i);
        let mut at: usize = i;
        while at > 0 && !list[at - 1].may_precede(&item)
            invariant
                at <= i < len,
                list@.len() == len - 1,
                list@ == before.remove(i as int),
                before.len() == len,
                forall|k: int| at <= k < i ==> !(#[trigger] list@[k]).ranks_before(item),
            decreases at,
        {
            at = at - 1;
        }
        proof {
            let done = before.take(i as int);
            assert forall|k: int| at <= k < done.len() implies !(#[trigger] done[k]).ranks_before(
                item,
            ) by {
                assert(list@[k] == done[k]);
            }
            if at > 0 {
                assert(list@[at - 1] == done[at - 1]);
            }
            insert_ranked_at(done, item, at as int);
            assert(all.take(i as int + 1).drop_last() =~= all.take(i as int));
        }
        list.insert(at, item);
        assert(list@.take(i as int + 1) =~= before.take(i as int).insert(at as int, item));
    }
    assert(list@.take(len as int) =~= list@);
    assert(all.take(len as int) =~= all);
}

proof fn insert_ranked_keeps<T: Ranked>(s: Seq<T>, item: T)
    ensures
        insert_ranked(s, item).to_multiset() == s.to_multiset().insert(item),
        insert_ranked(s, item).len() == s.len() + 1,
    decreases s.len(),
{
    broadcast use vstd::seq_lib::group_to_multiset_ensures;

    if s.len() > 0 && !s.last().ranks_before(item) {
        insert_ranked_keeps(s.drop_last(), item);
        assert(s =~= s.drop_last().push(s.last()));
        assert(insert_ranked(s, item).to_multiset() =~= s.to_multiset().insert(item));
    }
}

/// Sorting keeps the items, one for one.
pub proof fn sorting_keeps_the_items<T: Ranked>(s: Seq<T>)
    ensures
        ranked(s).to_multiset() == s.to_multiset(),
        ranked(s).len() == s.len(),
    decreases s.len(),
{
    broadcast use vstd::seq_lib::group_to_multiset_ensures;

    if s.len() > 0 {
        sorting_keeps_the_items(s.drop_last());
        insert_ranked_keeps(ranked(s.drop_last()), s.last());
        assert(s =~= s.drop_last().push(s.last()));
    }
}

/// Tells whether the ranks of a type are those of a line: any two items can be compared, and an item
/// that may stand before another may stand before those that the other may stand before.
pub open spec fn ranks_in_line<T: Ranked>() -> bool {
    &&& forall|a: T, b: T| #[trigger] a.ranks_before(b) || b.ranks_before(a)
    &&& forall|a: T, b: T, c: T| #[trigger]
        a.ranks_before(b) && #[trigger] b.ranks_before(c) ==> a.ranks_before(c)
}

/// Tells whether a list is sorted.
pub open spec fn in_rank<T: Ranked>(s: Seq<T>) -> bool {
    forall|i: int, j: int| 0 <= i < j < s.len() ==> (#[trigger] s[i]).ranks_before(#[trigger] s[j])
}

proof fn insert_ranked_sorts<T: Ranked>(s: Seq<T>, item: T)
    requires
        ranks_in_line::<T>(),
        in_rank(s),
    ensures
        in_rank(insert_ranked(s, item)),
        forall|i: int|
            0 <= i < insert_ranked(s, item).len() ==> (#[trigger] insert_ranked(s, item)[i] == item
                || s.contains(insert_ranked(s, item)[i])),
    decreases s.len(),
{
    let t = insert_ranked(s, item);
    if s.len() == 0 || s.last().ranks_before(item) {
        assert forall|i: int, j: int| 0 <= i < j < t.len() implies (#[trigger] t[i]).ranks_before(
            #[trigger] t[j],
        ) by {
            if j == s.len() && i < s.len() - 1 {
                assert(s[i].ranks_before(s[s.len() - 1]));
            }
        }
        assert forall|i: int| 0 <= i < t.len() implies (#[trigger] t[i] == item || s.contains(
            t[i],
        )) by {
            if i < s.len() {
                assert(s[i] == t[i]);
            }
        }
    } else {
        let head = s.drop_last();
        assert forall|i: int, j: int| 0 <= i < j < head.len() implies (
        #[trigger] head[i]).ranks_before(#[trigger] head[j]) by {
            assert(s[i].ranks_before(s[j]));
        }
        insert_ranked_sorts(head, item);
        let u = insert_ranked(head, item);
        assert(item.ranks_before(s.last()));
        assert forall|i: int, j: int| 0 <= i < j < t.len() implies (#[trigger] t[i]).ranks_before(
            #[trigger] t[j],
        ) by {
            if j < u.len() {
                assert(u[i].ranks_before(u[j]));
            } else if u[i] != item {
                let k = head.index_of(u[i]);
                assert(s[k].ranks_before(s[s.len() - 1]));
            }
        }
        assert forall|i: int| 0 <= i < t.len() implies (#[trigger] t[i] == item || s.contains(
            t[i],
        )) by {
            if i < u.len() {
                if u[i] != item {
                    let k = head.index_of(u[i]);
                    assert(s[k] == t[i]);
                }
            } else {
                assert(s[s.len() - 1] == t[i]);
            }
        }
    }
}

/// Sorting sorts, where the ranks are those of a line.
pub proof fn sorting_sorts<T: Ranked>(s: Seq<T>)
    requires
        ranks_in_line::<T>(),
    ensures
        in_rank(ranked(s)),
    decreases s.len(),
{
    if s.len() > 0 {
        sorting_sorts(s.drop_last());
        insert_ranked_sorts(ranked(s.drop_last()), s.last());
    }
}

} // verus!
