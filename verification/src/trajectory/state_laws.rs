//! What holds of the state of a trajectory whatever happens to it.
use crate::text::{
    ascii_uppered, case_parts_no_words, is_ascii_text, is_blank, white_space_parts_words, words,
};
use crate::trajectory::ledger::{ledger_filter, LedgerRowView};
use crate::trajectory::ledger_laws::{
    folding_one_turn_leaves_the_others, left_by, of_others, searching_filters_the_ledger,
};
use crate::trajectory::order::{insert_row, ordered, sorted_rows, sorting_orders_and_keeps};
use crate::trajectory::record::{TrajectoryCursor, TrajectoryRowSummary};
use crate::trajectory::state::{
    all_folded, all_unfolded, consistent, durations_flipped, fold_flipped, fresh_state,
    has_record, inspector_closed, live_updated, new_rows, older_prepended,
    page_set, query_tokens, rebuilt, record_position, record_selected, row_position, row_selected, rows_rebuilt,
    searched, state_rows, tools_flipped, upserted, without_record, StateView,
    TrajectoryLiveUpdate, TrajectoryPage,
};
use vstd::prelude::*;

verus! {

proof fn position_is_a_row(rows: Seq<LedgerRowView>, id: u128, i: int)
    ensures
        row_position(rows, id, i) matches Some(k) ==> k < rows.len(),
    decreases rows.len() - i,
{
    if 0 <= i < rows.len() && rows[i].record_id != Some(id) {
        position_is_a_row(rows, id, i + 1);
    }
}

proof fn rows_rebuilt_is_consistent(s: StateView)
    requires
        s.index == crate::trajectory::search::search_index(s.records),
        s.timeline == crate::trajectory::timeline::timeline(s.records),
    ensures
        consistent(rows_rebuilt(s)),
{
    if let Some(id) = s.selected_record_id {
        position_is_a_row(state_rows(s), id, 0);
    }
}

proof fn rebuilt_is_consistent(s: StateView)
    ensures
        consistent(rebuilt(s)),
{
    rows_rebuilt_is_consistent(
        StateView {
            index: crate::trajectory::search::search_index(s.records),
            timeline: crate::trajectory::timeline::timeline(s.records),
            ..s
        },
    );
}

/// A new state is consistent.
pub proof fn new_state_is_consistent(session_id: u128)
    ensures
        consistent(fresh_state(session_id)),
{
    rebuilt_is_consistent(
        StateView { records: Seq::empty(), ..fresh_state(session_id) },
    );
    let s = fresh_state(session_id);
    assert(s.index == crate::trajectory::search::search_index(s.records));
}

/// What the daemon sends keeps the state consistent: the search index, the timeline and the rows
/// follow from the records, and the selected row is one of the rows.
pub proof fn daemon_keeps_state_consistent(
    s: StateView,
    page: TrajectoryPage,
    update: TrajectoryLiveUpdate,
    older: Seq<TrajectoryRowSummary>,
    cursor: Option<TrajectoryCursor>,
    has_older: bool,
)
    requires
        consistent(s),
    ensures
        consistent(page_set(s, page)),
        consistent(live_updated(s, update)),
        consistent(older_prepended(s, older, cursor, has_older)),
{
    if page.generation >= s.generation {
        let set = page_set(s, page);
        rebuilt_is_consistent(set);
        assert(set.index == crate::trajectory::search::search_index(set.records));
        if let Some(id) = s.selected_record_id {
            position_is_a_row(set.rows, id, 0);
        }
    }
    let moved = older_prepended(s, older, cursor, has_older);
    if let Some(id) = s.selected_record_id {
        position_is_a_row(moved.rows, id, 0);
    }
    let next = live_updated(s, update);
    if let Some(id) = s.selected_record_id {
        position_is_a_row(next.rows, id, 0);
    }
}

/// What the user does keeps the state consistent.
pub proof fn user_keeps_state_consistent(
    s: StateView,
    query: Seq<char>,
    turn: u32,
    id: u128,
    index: usize,
)
    requires
        consistent(s),
    ensures
        consistent(searched(s, query)),
        consistent(durations_flipped(s)),
        consistent(tools_flipped(s)),
        consistent(all_folded(s)),
        consistent(all_unfolded(s)),
        consistent(fold_flipped(s, turn)),
        consistent(record_selected(s, id)),
        consistent(row_selected(s, index)),
        consistent(inspector_closed(s)),
{
    if let Some(n) = s.selected_record_id {
        position_is_a_row(searched(s, query).rows, n, 0);
        position_is_a_row(tools_flipped(s).rows, n, 0);
        position_is_a_row(all_folded(s).rows, n, 0);
        position_is_a_row(all_unfolded(s).rows, n, 0);
        position_is_a_row(fold_flipped(s, turn).rows, n, 0);
    }
    position_is_a_row(s.rows, id, 0);
    assert(state_rows(record_selected(s, id)) == state_rows(s));
    assert(state_rows(row_selected(s, index)) == state_rows(s));
    assert(state_rows(inspector_closed(s)) == state_rows(s));
    assert(state_rows(durations_flipped(s)) == state_rows(s));
}

/// The generation that a page or an update belongs to.
pub open spec fn update_generation(update: TrajectoryLiveUpdate) -> u64 {
    match update {
        TrajectoryLiveUpdate::Upsert { generation, .. } => generation,
        TrajectoryLiveUpdate::Remove { generation, .. } => generation,
        TrajectoryLiveUpdate::Reset { generation, .. } => generation,
    }
}

/// What comes late from an older generation changes nothing.
pub proof fn stale_generations_change_nothing(
    s: StateView,
    page: TrajectoryPage,
    update: TrajectoryLiveUpdate,
)
    ensures
        page.generation < s.generation ==> page_set(s, page) == s,
        update_generation(update) < s.generation && !(update is Reset) ==> live_updated(s, update)
            == s,
{
}

/// Within a generation the revision never falls, and the generation itself falls only with a reset.
pub proof fn revisions_never_fall(s: StateView, page: TrajectoryPage, update: TrajectoryLiveUpdate)
    ensures
        page_set(s, page).revision >= s.revision,
        page_set(s, page).generation >= s.generation,
        !(update is Reset) ==> live_updated(s, update).generation >= s.generation,
        update_generation(update) == s.generation && !(update is Reset) ==> live_updated(
            s,
            update,
        ).revision >= s.revision,
{
}

/// Tells whether no two records have the same id.
pub open spec fn unique_ids(records: Seq<TrajectoryRowSummary>) -> bool {
    forall|i: int, j: int|
        0 <= i < j < records.len() ==> (#[trigger] records[i]).record_id != (
        #[trigger] records[j]).record_id
}

proof fn unique_push(s: Seq<TrajectoryRowSummary>, row: TrajectoryRowSummary)
    requires
        unique_ids(s),
        !has_record(s, row.record_id),
    ensures
        unique_ids(s.push(row)),
{
    let t = s.push(row);
    assert forall|i: int, j: int| 0 <= i < j < t.len() implies (#[trigger] t[i]).record_id != (
    #[trigger] t[j]).record_id by {
        if j == s.len() {
            assert(s[i].record_id == t[i].record_id);
        }
    }
}

proof fn insert_keeps_ids(s: Seq<TrajectoryRowSummary>, row: TrajectoryRowSummary, id: u128)
    ensures
        has_record(insert_row(s, row), id) <==> has_record(s, id) || row.record_id == id,
    decreases s.len(),
{
    push_has(s, row, id);
    if s.len() > 0 && !crate::trajectory::order::row_le(s.last(), row) {
        insert_keeps_ids(s.drop_last(), row, id);
        push_has(insert_row(s.drop_last(), row), s.last(), id);
        push_has(s.drop_last(), s.last(), id);
        assert(s =~= s.drop_last().push(s.last()));
    }
}

proof fn push_has(s: Seq<TrajectoryRowSummary>, row: TrajectoryRowSummary, id: u128)
    ensures
        has_record(s.push(row), id) <==> has_record(s, id) || row.record_id == id,
{
    if has_record(s, id) {
        let i = choose|i: int| 0 <= i < s.len() && #[trigger] s[i].record_id == id;
        assert(s.push(row)[i].record_id == id);
    }
    if row.record_id == id {
        assert(s.push(row)[s.len() as int].record_id == id);
    }
    if has_record(s.push(row), id) && row.record_id != id {
        let i = choose|i: int|
            0 <= i < s.push(row).len() && #[trigger] s.push(row)[i].record_id == id;
        assert(s[i].record_id == id);
    }
}

proof fn insert_keeps_unique(s: Seq<TrajectoryRowSummary>, row: TrajectoryRowSummary)
    requires
        unique_ids(s),
        !has_record(s, row.record_id),
    ensures
        unique_ids(insert_row(s, row)),
    decreases s.len(),
{
    if s.len() == 0 || crate::trajectory::order::row_le(s.last(), row) {
        unique_push(s, row);
    } else {
        let head = s.drop_last();
        assert(s =~= head.push(s.last()));
        push_has(head, s.last(), row.record_id);
        assert(unique_ids(head)) by {
            assert forall|i: int, j: int| 0 <= i < j < head.len() implies (
            #[trigger] head[i]).record_id != (#[trigger] head[j]).record_id by {
                assert(s[i].record_id != s[j].record_id);
            }
        }
        insert_keeps_unique(head, row);
        insert_keeps_ids(head, row, s.last().record_id);
        assert(!has_record(head, s.last().record_id)) by {
            if has_record(head, s.last().record_id) {
                let i = choose|i: int|
                    0 <= i < head.len() && #[trigger] head[i].record_id == s.last().record_id;
                assert(s[i].record_id != s[s.len() - 1].record_id);
            }
        }
        assert(row.record_id != s.last().record_id);
        unique_push(insert_row(head, row), s.last());
    }
}

proof fn sorting_keeps_ids(s: Seq<TrajectoryRowSummary>, id: u128)
    ensures
        has_record(sorted_rows(s), id) <==> has_record(s, id),
    decreases s.len(),
{
    if s.len() > 0 {
        sorting_keeps_ids(s.drop_last(), id);
        insert_keeps_ids(sorted_rows(s.drop_last()), s.last(), id);
        push_has(s.drop_last(), s.last(), id);
        assert(s =~= s.drop_last().push(s.last()));
    }
}

proof fn sorting_keeps_unique(s: Seq<TrajectoryRowSummary>)
    requires
        unique_ids(s),
    ensures
        unique_ids(sorted_rows(s)),
    decreases s.len(),
{
    if s.len() > 0 {
        let head = s.drop_last();
        assert forall|i: int, j: int| 0 <= i < j < head.len() implies (
        #[trigger] head[i]).record_id != (#[trigger] head[j]).record_id by {
            assert(s[i].record_id != s[j].record_id);
        }
        sorting_keeps_unique(head);
        sorting_keeps_ids(head, s.last().record_id);
        assert(!has_record(head, s.last().record_id)) by {
            if has_record(head, s.last().record_id) {
                let i = choose|i: int|
                    0 <= i < head.len() && #[trigger] head[i].record_id == s.last().record_id;
                assert(s[i].record_id != s[s.len() - 1].record_id);
            }
        }
        insert_keeps_unique(sorted_rows(head), s.last());
    }
}

proof fn position_finds(records: Seq<TrajectoryRowSummary>, id: u128, i: int)
    requires
        0 <= i <= records.len(),
    ensures
        i <= record_position(records, id, i) <= records.len(),
        record_position(records, id, i) < records.len() ==> records[record_position(
            records,
            id,
            i,
        )].record_id == id,
        forall|k: int|
            i <= k < record_position(records, id, i) ==> (#[trigger] records[k]).record_id != id,
    decreases records.len() - i,
{
    if i < records.len() && records[i].record_id != id {
        position_finds(records, id, i + 1);
    }
}

/// An update puts the record in, keeps every other, and lets no id occur twice.
pub proof fn upsert_keeps_ids_unique(
    records: Seq<TrajectoryRowSummary>,
    row: TrajectoryRowSummary,
    id: u128,
)
    requires
        unique_ids(records),
    ensures
        unique_ids(upserted(records, row)),
        has_record(upserted(records, row), id) <==> has_record(records, id) || id == row.record_id,
        ordered(records) && !has_record(records, row.record_id) ==> ordered(
            upserted(records, row),
        ),
{
    let at = record_position(records, row.record_id, 0);
    let after = upserted(records, row);
    position_finds(records, row.record_id, 0);
    if at < records.len() {
        assert(records[at].record_id == row.record_id);
        assert forall|i: int, j: int| 0 <= i < j < after.len() implies (
        #[trigger] after[i]).record_id != (#[trigger] after[j]).record_id by {
            assert(records[i].record_id != records[j].record_id);
        }
        if has_record(records, id) {
            let i = choose|i: int| 0 <= i < records.len() && #[trigger] records[i].record_id == id;
            assert(after[i].record_id == id);
        }
        if id == row.record_id {
            assert(after[at].record_id == id);
        }
        if has_record(after, id) && id != row.record_id {
            let i = choose|i: int| 0 <= i < after.len() && #[trigger] after[i].record_id == id;
            assert(records[i].record_id == id);
        }
    } else {
        assert(!has_record(records, row.record_id));
        unique_push(records, row);
        sorting_keeps_unique(records.push(row));
        sorting_keeps_ids(records.push(row), id);
        push_has(records, row, id);
        sorting_orders_and_keeps(records.push(row));
    }
}

proof fn upserting_twice(records: Seq<TrajectoryRowSummary>, row: TrajectoryRowSummary)
    ensures
        upserted(upserted(records, row), row) == upserted(records, row),
{
    let at = record_position(records, row.record_id, 0);
    let after = upserted(records, row);
    let again = record_position(after, row.record_id, 0);
    position_finds(records, row.record_id, 0);
    position_finds(after, row.record_id, 0);
    if at < records.len() {
        assert(after[at] == row);
        assert(again < after.len());
        assert(again == at) by {
            if again < at {
                assert(records[again].record_id == after[again].record_id);
            } else if at < again {
                assert(after[at].record_id == row.record_id);
            }
        }
    } else {
        let pushed = records.push(row);
        sorting_orders_and_keeps(pushed);
        assert(pushed[records.len() as int] == row);
        assert(pushed.to_multiset().count(row) > 0) by {
            pushed.to_multiset_ensures();
            assert(pushed.contains(row));
        }
        after.to_multiset_ensures();
        pushed.to_multiset_ensures();
        assert(after.contains(row));
        assert(again < after.len()) by {
            let i = after.index_of(row);
            assert(after[i].record_id == row.record_id);
        }
        let found = after[again];
        assert(after.contains(found));
        assert(after.to_multiset().count(found) > 0);
        assert(pushed.contains(found));
        let i = pushed.index_of(found);
        assert(found == row) by {
            if i < records.len() {
                assert(records[i].record_id == row.record_id);
            }
        }
    }
    assert(upserted(after, row) =~= after);
}

/// The same update twice leaves the state as it was after the first: only what the list on screen is told
/// is told again.
pub proof fn upserting_twice_changes_nothing(
    s: StateView,
    generation: u64,
    revision: u64,
    row: TrajectoryRowSummary,
)
    ensures
        ({
            let update = TrajectoryLiveUpdate::Upsert { generation, revision, row };
            let once = live_updated(s, update);
            let twice = live_updated(once, update);
            twice == (StateView { commands: twice.commands, ..once })
        }),
{
    let update = TrajectoryLiveUpdate::Upsert { generation, revision, row };
    let once = live_updated(s, update);
    let base = if generation > s.generation {
        crate::trajectory::state::generation_reset(s, generation, revision)
    } else {
        s
    };
    upserting_twice(base.records, row);
    if let Some(id) = once.selected_record_id {
        position_is_a_row(once.rows, id, 0);
    }
}

/// A removal takes the records of one id out and leaves the others, in their order.
pub proof fn removal_takes_one_id_out(
    records: Seq<TrajectoryRowSummary>,
    gone: u128,
    id: u128,
)
    ensures
        has_record(without_record(records, gone), id) <==> has_record(records, id) && id != gone,
        unique_ids(records) ==> unique_ids(without_record(records, gone)),
    decreases records.len(),
{
    reveal(Seq::filter);
    if records.len() > 0 {
        let head = records.drop_last();
        let last = records.last();
        removal_takes_one_id_out(head, gone, id);
        removal_takes_one_id_out(head, gone, last.record_id);
        push_has(head, last, id);
        push_has(without_record(head, gone), last, id);
        assert(records =~= head.push(last));
        if unique_ids(records) {
            assert forall|i: int, j: int| 0 <= i < j < head.len() implies (
            #[trigger] head[i]).record_id != (#[trigger] head[j]).record_id by {
                assert(records[i].record_id != records[j].record_id);
            }
            assert(!has_record(head, last.record_id)) by {
                if has_record(head, last.record_id) {
                    let i = choose|i: int|
                        0 <= i < head.len() && #[trigger] head[i].record_id == last.record_id;
                    assert(records[i].record_id != records[records.len() - 1].record_id);
                }
            }
            if last.record_id != gone {
                unique_push(without_record(head, gone), last);
            }
        }
    }
}

proof fn new_rows_are_new(
    older: Seq<TrajectoryRowSummary>,
    known: Seq<TrajectoryRowSummary>,
    id: u128,
)
    ensures
        unique_ids(new_rows(older, known)),
        has_record(new_rows(older, known), id) <==> has_record(older, id) && !has_record(known, id),
    decreases older.len(),
{
    if older.len() > 0 {
        let head = older.drop_last();
        let last = older.last();
        new_rows_are_new(head, known, id);
        new_rows_are_new(head, known, last.record_id);
        push_has(head, last, id);
        push_has(new_rows(head, known), last, id);
        assert(older =~= head.push(last));
        if !has_record(known, last.record_id) && !has_record(head, last.record_id) {
            unique_push(new_rows(head, known), last);
        }
    }
}

proof fn joined_rows(
    a: Seq<TrajectoryRowSummary>,
    b: Seq<TrajectoryRowSummary>,
    id: u128,
)
    ensures
        has_record(a + b, id) <==> has_record(a, id) || has_record(b, id),
{
    let t = a + b;
    if has_record(a, id) {
        let i = choose|i: int| 0 <= i < a.len() && #[trigger] a[i].record_id == id;
        assert(t[i].record_id == id);
    }
    if has_record(b, id) {
        let i = choose|i: int| 0 <= i < b.len() && #[trigger] b[i].record_id == id;
        assert(t[a.len() + i].record_id == id);
    }
    if has_record(t, id) {
        let i = choose|i: int| 0 <= i < t.len() && #[trigger] t[i].record_id == id;
        if i < a.len() {
            assert(a[i].record_id == id);
        } else {
            assert(b[i - a.len()].record_id == id);
        }
    }
}

/// A page of older records keeps every record that was there, adds those of the page that were not,
/// puts all of them in order, and lets no id occur twice. The selected record stays selected.
pub proof fn older_page_keeps_records(
    s: StateView,
    older: Seq<TrajectoryRowSummary>,
    cursor: Option<TrajectoryCursor>,
    has_older: bool,
    id: u128,
)
    requires
        unique_ids(s.records),
    ensures
        ordered(older_prepended(s, older, cursor, has_older).records),
        unique_ids(older_prepended(s, older, cursor, has_older).records),
        has_record(older_prepended(s, older, cursor, has_older).records, id) <==> has_record(
            s.records,
            id,
        ) || has_record(older, id),
        older_prepended(s, older, cursor, has_older).selected_record_id == s.selected_record_id,
{
    let fresh = new_rows(older, s.records);
    let all = fresh + s.records;
    new_rows_are_new(older, s.records, id);
    joined_rows(fresh, s.records, id);
    assert forall|i: int, j: int| 0 <= i < j < all.len() implies (#[trigger] all[i]).record_id != (
    #[trigger] all[j]).record_id by {
        if j < fresh.len() {
            assert(fresh[i].record_id != fresh[j].record_id);
        } else if i >= fresh.len() {
            assert(s.records[i - fresh.len()].record_id != s.records[j - fresh.len()].record_id);
        } else {
            let n = all[j].record_id;
            assert(s.records[j - fresh.len()].record_id == n);
            assert(has_record(s.records, n));
            new_rows_are_new(older, s.records, n);
            assert(fresh[i].record_id != n);
        }
    }
    sorting_keeps_unique(all);
    sorting_keeps_ids(all, id);
    sorting_orders_and_keeps(all);
}

/// Flipping a switch twice shows the same rows again.
pub proof fn flipping_twice_shows_the_same(s: StateView, turn: u32)
    requires
        consistent(s),
    ensures
        tools_flipped(tools_flipped(s)).rows == s.rows,
        fold_flipped(fold_flipped(s, turn), turn).rows == s.rows,
        durations_flipped(durations_flipped(s)) == s,
{
    assert(s.folded_turns.contains(turn) ==> s.folded_turns.remove(turn).insert(turn)
        =~= s.folded_turns);
    assert(!s.folded_turns.contains(turn) ==> s.folded_turns.insert(turn).remove(turn)
        =~= s.folded_turns);
    assert(durations_flipped(durations_flipped(s)) =~= s);
}

/// A search shows those of the rows that are shown without one that stand for what it finds, in their
/// order.
pub proof fn searching_filters_the_rows(s: StateView, query: Seq<char>)
    ensures
        ({
            let all = searched(s, Seq::empty());
            let found = searched(s, query);
            let f = ledger_filter(s.folded_turns, s.show_tool_calls, found.search_tokens, s.index);
            found.rows == all.rows.filter(left_by(f))
        }),
{
    let found = searched(s, query);
    let f = ledger_filter(s.folded_turns, s.show_tool_calls, found.search_tokens, s.index);
    assert(query_tokens(Seq::empty()) =~= Seq::empty());
    searching_filters_the_ledger(f, s.records);
}

/// Folding or unfolding a turn leaves the rows of all other turns.
pub proof fn folding_leaves_other_turns(s: StateView, turn: u32)
    requires
        consistent(s),
    ensures
        fold_flipped(s, turn).rows.filter(of_others(turn)) == s.rows.filter(of_others(turn)),
{
    let f = ledger_filter(s.folded_turns, s.show_tool_calls, s.search_tokens, s.index);
    folding_one_turn_leaves_the_others(f, fold_flipped(s, turn).folded_turns, turn, s.records);
}

/// Unfolding every turn undoes folding every turn, where no turn was folded.
pub proof fn unfolding_undoes_folding(s: StateView)
    requires
        consistent(s),
        s.folded_turns == Set::<u32>::empty(),
    ensures
        all_unfolded(all_folded(s)).rows == s.rows,
        all_unfolded(all_folded(s)).folded_turns == s.folded_turns,
{
}

/// A search is for the words of the query and keeps the query as it was typed: capitals make no
/// difference to what it shows where the query is ASCII text, nor does it matter how much white space
/// stands between, before or behind the words. It changes nothing of the records, of what is folded and
/// shown, and of what is selected.
pub proof fn search_ignores_case_and_spaces(
    s: StateView,
    query: Seq<char>,
    a: Seq<char>,
    space: Seq<char>,
    more: Seq<char>,
    b: Seq<char>,
)
    requires
        is_ascii_text(query),
        space.len() > 0,
        is_blank(space),
        more.len() > 0,
        is_blank(more),
    ensures
        searched(s, ascii_uppered(query)).rows == searched(s, query).rows,
        searched(s, a + space + b).rows == searched(s, a + more + b).rows,
        searched(s, space + query).rows == searched(s, query).rows,
        searched(s, query + space).rows == searched(s, query).rows,
        searched(s, query).search_query == query,
        searched(s, query).records == s.records,
        searched(s, query).folded_turns == s.folded_turns,
        searched(s, query).show_tool_calls == s.show_tool_calls,
        searched(s, query).selected_record_id == s.selected_record_id,
        searched(s, query).inspector_open == s.inspector_open,
{
    case_parts_no_words(query);
    assert(query_tokens(ascii_uppered(query)) =~= query_tokens(query));
    white_space_parts_words(a, space, b);
    white_space_parts_words(a, more, b);
    let none = Seq::<char>::empty();
    white_space_parts_words(none, space, query);
    white_space_parts_words(query, space, none);
    assert(none + space + query =~= space + query);
    assert(query + space + none =~= query + space);
    assert(words(none) + words(query) =~= words(query));
    assert(words(query) + words(none) =~= words(query));
}

/// Clearing a search shows the rows again that were shown before it.
pub proof fn clearing_a_search_shows_all_again(s: StateView, query: Seq<char>)
    requires
        consistent(s),
        s.search_tokens == Seq::<Seq<char>>::empty(),
    ensures
        searched(searched(s, query), Seq::empty()).rows == s.rows,
{
    assert(crate::trajectory::state::query_tokens(Seq::empty()) =~= Seq::empty());
}

} // verus!
