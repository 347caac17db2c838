//! The order of records: by sequence number, then by step.
use crate::trajectory::record::TrajectoryRowSummary;
use vstd::prelude::*;

verus! {

/// Tells whether `a` may stand before `b`.
pub open spec fn row_le(a: TrajectoryRowSummary, b: TrajectoryRowSummary) -> bool {
    a.sequence < b.sequence || (a.sequence == b.sequence && a.step <= b.step)
}

/// Tells whether the records stand in order.
pub open spec fn ordered(s: Seq<TrajectoryRowSummary>) -> bool {
    forall|i: int, j: int| 0 <= i <= j < s.len() ==> #[trigger] row_le(s[i], s[j])
}

/// The records with `row` behind every record that may stand before it.
pub open spec fn insert_row(
    s: Seq<TrajectoryRowSummary>,
    row: TrajectoryRowSummary,
) -> Seq<TrajectoryRowSummary>
    decreases s.len(),
{
    if s.len() == 0 || row_le(s.last(), row) {
        s.push(row)
    } else {
        insert_row(s.drop_last(), row).push(s.last())
    }
}

/// The records in order, those with the same place as they were.
pub open spec fn sorted_rows(s: Seq<TrajectoryRowSummary>) -> Seq<TrajectoryRowSummary>
    decreases s.len(),
{
    if s.len() == 0 {
        s
    } else {
        insert_row(sorted_rows(s.drop_last()), s.last())
    }
}

fn may_precede(a: &TrajectoryRowSummary, b: &TrajectoryRowSummary) -> (r: bool)
    ensures
        r == row_le(*a, *b),
{
    a.sequence < b.sequence || (a.sequence == b.sequence && a.step <= b.step)
}

proof fn insert_row_at(s: Seq<TrajectoryRowSummary>, row: TrajectoryRowSummary, at: int)
    requires
        0 <= at <= s.len(),
        at == 0 || row_le(s[at - 1], row),
        forall|k: int| at <= k < s.len() ==> !row_le(#[trigger] s[k], row),
    ensures
        insert_row(s, row) == s.insert(at, row),
    decreases s.len(),
{
    if s.len() == at {
        assert(s.push(row) =~= s.insert(at, row));
    } else {
        assert(!row_le(s[s.len() - 1], row));
        insert_row_at(s.drop_last(), row, at);
        assert(s.drop_last().insert(at, row).push(s.last()) =~= s.insert(at, row));
    }
}

/// Sorts records, keeping those with the same place as they were.
pub fn sort_rows(rows: &mut Vec<TrajectoryRowSummary>)
    ensures
        final(rows)@ == sorted_rows(old(rows)@),
{
    let ghost all = rows@;
    assert(rows@.take(0) =~= sorted_rows(all.take(0)));
    let len: usize = rows.len();
    for i in 0..len
        invariant
            len == all.len(),
            rows@.len() == all.len(),
            rows@.take(i as int) == sorted_rows(all.take(i as int)),
            forall|k: int| i <= k < all.len() ==> rows@[k] == all[k],
    {
        let ghost before = rows@;
        let row = rows.remove(i);
        let mut at: usize = i;
        while at > 0 && !may_precede(&rows[at - 1], &row)
            invariant
                at <= i < len,
                rows@.len() == len - 1,
                rows@ == before.remove(i as int),
                before.len() == len,
                forall|k: int| at <= k < i ==> !row_le(#[trigger] rows@[k], row),
            decreases at,
        {
            at = at - 1;
        }
        proof {
            let done = before.take(i as int);
            assert forall|k: int| at <= k < done.len() implies !row_le(#[trigger] done[k], row) by {
                assert(rows@[k] == done[k]);
            }
            if at > 0 {
                assert(rows@[at - 1] == done[at - 1]);
            }
            insert_row_at(done, row, at as int);
            assert(all.take(i as int + 1).drop_last() =~= all.take(i as int));
        }
        rows.insert(at, row);
        assert(rows@.take(i as int + 1) =~= before.take(i as int).insert(at as int, row));
    }
    assert(rows@.take(len as int) =~= rows@);
    assert(all.take(len as int) =~= all);
}

proof fn insert_row_facts(s: Seq<TrajectoryRowSummary>, row: TrajectoryRowSummary)
    ensures
        insert_row(s, row).len() == s.len() + 1,
        insert_row(s, row).to_multiset() == s.to_multiset().insert(row),
        ordered(s) ==> ordered(insert_row(s, row)),
    decreases s.len(),
{
    broadcast use vstd::seq_lib::group_to_multiset_ensures;

    if s.len() == 0 || row_le(s.last(), row) {
        if ordered(s) {
            let t = s.push(row);
            assert forall|i: int, j: int| 0 <= i <= j < t.len() implies #[trigger] row_le(
                t[i],
                t[j],
            ) by {
                if j == s.len() && i < j {
                    assert(row_le(s[i], s[s.len() - 1]));
                }
            }
        }
    } else {
        insert_row_facts(s.drop_last(), row);
        let t = insert_row(s.drop_last(), row);
        assert(s =~= s.drop_last().push(s.last()));
        assert(insert_row(s, row).to_multiset() =~= s.to_multiset().insert(row));
        if ordered(s) {
            assert(ordered(s.drop_last())) by {
                assert forall|i: int, j: int| 0 <= i <= j < s.len() - 1 implies #[trigger] row_le(
                    s.drop_last()[i],
                    s.drop_last()[j],
                ) by {
                    assert(row_le(s[i], s[j]));
                }
            }
            insert_row_members(s.drop_last(), row);
            let u = t.push(s.last());
            assert forall|i: int, j: int| 0 <= i <= j < u.len() implies #[trigger] row_le(
                u[i],
                u[j],
            ) by {
                if j == t.len() && i < j {
                    assert(t[i] == row || s.drop_last().contains(t[i]));
                    if t[i] != row {
                        let k = s.drop_last().index_of(t[i]);
                        assert(row_le(s[k], s[s.len() - 1]));
                    }
                } else if j < t.len() {
                    assert(row_le(t[i], t[j]));
                }
            }
        }
    }
}

proof fn insert_row_members(s: Seq<TrajectoryRowSummary>, row: TrajectoryRowSummary)
    ensures
        forall|i: int|
            0 <= i < insert_row(s, row).len() ==> (#[trigger] insert_row(s, row)[i] == row
                || s.contains(insert_row(s, row)[i])),
    decreases s.len(),
{
    if s.len() == 0 || row_le(s.last(), row) {
        assert forall|i: int| 0 <= i < s.push(row).len() implies (#[trigger] s.push(row)[i] == row
            || s.contains(s.push(row)[i])) by {
            if i < s.len() {
                assert(s[i] == s.push(row)[i]);
            }
        }
    } else {
        insert_row_members(s.drop_last(), row);
        let t = insert_row(s.drop_last(), row);
        assert forall|i: int| 0 <= i < t.push(s.last()).len() implies (#[trigger] t.push(
            s.last(),
        )[i] == row || s.contains(t.push(s.last())[i])) by {
            if i < t.len() {
                if t[i] != row {
                    let k = s.drop_last().index_of(t[i]);
                    assert(s[k] == t[i]);
                }
            } else {
                assert(s[s.len() - 1] == s.last());
            }
        }
    }
}

/// Sorting keeps the records, one for one, and puts them in order.
pub proof fn sorting_orders_and_keeps(s: Seq<TrajectoryRowSummary>)
    ensures
        ordered(sorted_rows(s)),
        sorted_rows(s).to_multiset() == s.to_multiset(),
        sorted_rows(s).len() == s.len(),
    decreases s.len(),
{
    broadcast use vstd::seq_lib::group_to_multiset_ensures;

    if s.len() > 0 {
        sorting_orders_and_keeps(s.drop_last());
        insert_row_facts(sorted_rows(s.drop_last()), s.last());
        assert(s =~= s.drop_last().push(s.last()));
    }
}

/// The records of one place in the order.
pub open spec fn tied_with(
    s: Seq<TrajectoryRowSummary>,
    sequence: u64,
    step: u32,
) -> Seq<TrajectoryRowSummary> {
    s.filter(|r: TrajectoryRowSummary| r.sequence == sequence && r.step == step)
}

proof fn tied_push(
    s: Seq<TrajectoryRowSummary>,
    row: TrajectoryRowSummary,
    sequence: u64,
    step: u32,
)
    ensures
        tied_with(s.push(row), sequence, step) == (if row.sequence == sequence && row.step == step {
            tied_with(s, sequence, step).push(row)
        } else {
            tied_with(s, sequence, step)
        }),
{
    reveal(Seq::filter);
    assert(s.push(row).drop_last() =~= s);
}

proof fn insert_row_is_stable(
    s: Seq<TrajectoryRowSummary>,
    row: TrajectoryRowSummary,
    sequence: u64,
    step: u32,
)
    requires
        ordered(s),
    ensures
        tied_with(insert_row(s, row), sequence, step) == tied_with(s.push(row), sequence, step),
    decreases s.len(),
{
    if s.len() > 0 && !row_le(s.last(), row) {
        assert(ordered(s.drop_last())) by {
            assert forall|i: int, j: int| 0 <= i <= j < s.len() - 1 implies #[trigger] row_le(
                s.drop_last()[i],
                s.drop_last()[j],
            ) by {
                assert(row_le(s[i], s[j]));
            }
        }
        insert_row_is_stable(s.drop_last(), row, sequence, step);
        let t = insert_row(s.drop_last(), row);
        tied_push(t, s.last(), sequence, step);
        tied_push(s, row, sequence, step);
        tied_push(s.drop_last(), row, sequence, step);
        tied_push(s.drop_last(), s.last(), sequence, step);
        assert(s =~= s.drop_last().push(s.last()));
    }
}

/// Sorting keeps the records of each place in the order that they came in.
pub proof fn sorting_is_stable(s: Seq<TrajectoryRowSummary>, sequence: u64, step: u32)
    ensures
        tied_with(sorted_rows(s), sequence, step) == tied_with(s, sequence, step),
    decreases s.len(),
{
    if s.len() > 0 {
        sorting_is_stable(s.drop_last(), sequence, step);
        sorting_orders_and_keeps(s.drop_last());
        insert_row_is_stable(sorted_rows(s.drop_last()), s.last(), sequence, step);
        tied_push(sorted_rows(s.drop_last()), s.last(), sequence, step);
        tied_push(s.drop_last(), s.last(), sequence, step);
        assert(s =~= s.drop_last().push(s.last()));
    }
}

/// Sorting records that stand in order changes nothing.
pub proof fn sorting_ordered_rows_changes_nothing(s: Seq<TrajectoryRowSummary>)
    requires
        ordered(s),
    ensures
        sorted_rows(s) == s,
    decreases s.len(),
{
    if s.len() > 0 {
        assert forall|i: int, j: int| 0 <= i <= j < s.len() - 1 implies #[trigger] row_le(
            s.drop_last()[i],
            s.drop_last()[j],
        ) by {
            assert(row_le(s[i], s[j]));
        }
        sorting_ordered_rows_changes_nothing(s.drop_last());
        if s.len() > 1 {
            assert(row_le(s[s.len() - 2], s[s.len() - 1]));
        }
        assert(s.drop_last().push(s.last()) =~= s);
    }
}

} // verus!
