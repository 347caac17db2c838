//! What the trajectory of a session promises: it holds what the daemon sent, each record once and in order, and
//! shows what the user chose.
use crate::text::{lowered, occurs_in, opt_view, stands_at, views, words};
use crate::trajectory::ledger::{build_ledger_rows, row_views, TrajectoryLedgerRow};
use crate::trajectory::order::{
    row_le, sort_rows, sorted_rows, sorting_is_stable, sorting_orders_and_keeps, tied_with,
};
use crate::trajectory::record::{
    allowed_sections_for_kind, default_section_for_kind, kind_display_name, lane_display_name,
    status_display_name, TrajectoryAvailability, TrajectoryCursor, TrajectoryDetailSection,
    TrajectoryKind, TrajectoryRowSummary,
};
use crate::trajectory::search::{
    build_search_index, index_view, matches_and_search, search_blob, search_index,
};
use crate::trajectory::state::{
    has_record, new_rows, record_position, row_position, TrajectoryCommand, TrajectoryLiveUpdate,
    TrajectorySessionState,
};
use crate::trajectory::timeline::{compute_timeline_layout, TimelineLayout};
use std::collections::HashMap;
use std::collections::HashSet;
use vstd::prelude::*;

verus! {

broadcast use vstd::std_specs::hash::group_hash_axioms;

/// Tells whether records stand by their sequence numbers, and by their steps within one.
pub open spec fn in_order(records: Seq<TrajectoryRowSummary>) -> bool {
    forall|i: int, j: int|
        0 <= i < j < records.len() ==> (#[trigger] records[i]).sequence < (
        #[trigger] records[j]).sequence || records[i].sequence == records[j].sequence
            && records[i].step <= records[j].step
}

/// Tells whether a list holds a record with an id.
pub open spec fn holds(records: Seq<TrajectoryRowSummary>, id: u128) -> bool {
    exists|i: int| 0 <= i < records.len() && (#[trigger] records[i]).record_id == id
}

proof fn sorted_facts(s: Seq<TrajectoryRowSummary>, row: TrajectoryRowSummary)
    ensures
        in_order(sorted_rows(s)),
        sorted_rows(s).len() == s.len(),
        sorted_rows(s).contains(row) <==> s.contains(row),
{
    broadcast use vstd::seq_lib::group_to_multiset_ensures;

    sorting_orders_and_keeps(s);
    let t = sorted_rows(s);
    assert forall|i: int, j: int| 0 <= i < j < t.len() implies (#[trigger] t[i]).sequence < (
    #[trigger] t[j]).sequence || t[i].sequence == t[j].sequence && t[i].step <= t[j].step by {
        assert(row_le(t[i], t[j]));
    }
    assert(s.contains(row) <==> s.to_multiset().count(row) > 0);
    assert(t.contains(row) <==> t.to_multiset().count(row) > 0);
}

/// Sorting puts records in order and keeps them, no more and no fewer; those of one place stay as they stood.
pub proof fn sorting_puts_records_in_order(
    rows: &mut Vec<TrajectoryRowSummary>,
    row: TrajectoryRowSummary,
)
    requires
        call_ensures(sort_rows, (rows,), ()),
    ensures
        in_order(final(rows)@),
        final(rows)@.len() == old(rows)@.len(),
        final(rows)@.contains(row) <==> old(rows)@.contains(row),
        final(rows)@.to_multiset() == old(rows)@.to_multiset(),
        final(rows)@.filter(|r: TrajectoryRowSummary| r.sequence == row.sequence && r.step == row.step)
            == old(rows)@.filter(
            |r: TrajectoryRowSummary| r.sequence == row.sequence && r.step == row.step,
        ),
{
    sorted_facts(old(rows)@, row);
    sorting_orders_and_keeps(old(rows)@);
    sorting_is_stable(old(rows)@, row.sequence, row.step);
    let same = |r: TrajectoryRowSummary| r.sequence == row.sequence && r.step == row.step;
    assert(tied_with(old(rows)@, row.sequence, row.step) == old(rows)@.filter(same));
    assert(tied_with(final(rows)@, row.sequence, row.step) == final(rows)@.filter(same));
}

/// A page that is not older than what is shown takes its place: the records are those of the page, and there is
/// nothing to wait for any more. An older page changes nothing.
pub proof fn a_page_takes_the_place_of_what_was_shown(
    s: &mut TrajectorySessionState,
    availability: TrajectoryAvailability,
    generation: u64,
    revision: u64,
    rows: Vec<TrajectoryRowSummary>,
    older: Option<TrajectoryCursor>,
    newer: Option<TrajectoryCursor>,
    has_older: bool,
    has_newer: bool,
)
    requires
        call_ensures(
            TrajectorySessionState::set_page_response,
            (s, availability, generation, revision, rows, older, newer, has_older, has_newer),
            (),
        ),
    ensures
        generation < old(s).generation ==> final(s)@ == old(s)@,
        generation >= old(s).generation ==> {
            &&& final(s).records@ == rows@
            &&& final(s).generation == generation
            &&& final(s).revision >= old(s).revision
            &&& final(s).revision >= revision
            &&& final(s).revision == revision || final(s).revision == old(s).revision
            &&& final(s).availability == availability
            &&& final(s).older_cursor == older
            &&& final(s).newer_cursor == newer
            &&& final(s).has_older == has_older
            &&& final(s).has_newer == has_newer
            &&& final(s).loading_status is Ready
            &&& final(s).error is None
            &&& final(s).folded_turns@ == old(s).folded_turns@
            &&& final(s).selected_record_id == old(s).selected_record_id
        },
{
    let v = final(s)@;
    assert(v.records == final(s).records@);
    assert(v.error == opt_view(final(s).error));
    assert(v.generation == final(s).generation && v.revision == final(s).revision);
    assert(old(s)@.generation == old(s).generation && old(s)@.revision == old(s).revision);
    assert(v.availability == final(s).availability);
    assert(v.loading_status == final(s).loading_status);
    assert(v.folded_turns == final(s).folded_turns@);
}

proof fn position_of(records: Seq<TrajectoryRowSummary>, id: u128, i: int)
    requires
        0 <= i <= records.len(),
    ensures
        i <= record_position(records, id, i) <= records.len(),
        record_position(records, id, i) < records.len() ==> records[record_position(
            records,
            id,
            i,
        )].record_id == id,
        forall|k: int|
            i <= k < record_position(records, id, i) ==> (#[trigger] records[k]).record_id != id,
    decreases records.len() - i,
{
    if i < records.len() && records[i].record_id != id {
        position_of(records, id, i + 1);
    }
}

/// A record that comes live takes the place of the first one with its id. One that is new is put in, and all of
/// them stand in order; every other record stays as it is.
pub proof fn a_live_record_is_put_in(
    s: &mut TrajectorySessionState,
    generation: u64,
    revision: u64,
    row: TrajectoryRowSummary,
    other: TrajectoryRowSummary,
    i: int,
)
    requires
        call_ensures(
            TrajectorySessionState::apply_live_update,
            (s, TrajectoryLiveUpdate::Upsert { generation, revision, row }),
            (),
        ),
        generation == old(s).generation,
    ensures
        final(s).records@.contains(row),
        holds(old(s).records@, row.record_id) ==> final(s).records@.len() == old(s).records@.len(),
        0 <= i < old(s).records@.len() && old(s).records@[i].record_id == row.record_id && (forall|
            k: int,
        |
            0 <= k < i ==> (#[trigger] old(s).records@[k]).record_id != row.record_id) ==> final(s).records@ == old(s).records@.update(i, row),
        !holds(old(s).records@, row.record_id) ==> in_order(final(s).records@) && final(s).records@.len() == old(s).records@.len() + 1 && (final(s).records@.contains(other) <==> old(
            s,
        ).records@.contains(other) || other == row),
        final(s).revision >= revision,
        final(s).revision >= old(s).revision,
        final(s).generation == generation,
        final(s).selected_record_id == old(s).selected_record_id,
{
    let records = old(s).records@;
    assert(old(s)@.records == records && final(s)@.records == final(s).records@);
    assert(final(s)@.revision == final(s).revision && final(s)@.generation == final(s).generation);
    assert(old(s)@.revision == old(s).revision && old(s)@.generation == old(s).generation);
    position_of(records, row.record_id, 0);
    let at = record_position(records, row.record_id, 0);
    if at < records.len() {
        assert(holds(records, row.record_id));
        assert(final(s).records@[at] == row);
    } else {
        assert(!holds(records, row.record_id));
        let all = records.push(row);
        sorted_facts(all, row);
        sorted_facts(all, other);
        assert(all[records.len() as int] == row);
        if all.contains(other) {
            let k = all.index_of(other);
            if k < records.len() {
                assert(records[k] == other);
            }
        }
        if records.contains(other) {
            let k = records.index_of(other);
            assert(all[k] == other);
        }
    }
}

/// A record of a later generation comes alone: what was held before is gone.
pub proof fn a_later_generation_starts_afresh(
    s: &mut TrajectorySessionState,
    generation: u64,
    revision: u64,
    row: TrajectoryRowSummary,
    t: &mut TrajectorySessionState,
    later: u64,
    rev: u64,
)
    requires
        call_ensures(
            TrajectorySessionState::apply_live_update,
            (s, TrajectoryLiveUpdate::Upsert { generation, revision, row }),
            (),
        ),
        generation > old(s).generation,
        call_ensures(
            TrajectorySessionState::apply_live_update,
            (t, TrajectoryLiveUpdate::Reset { generation: later, revision: rev }),
            (),
        ) || call_ensures(TrajectorySessionState::reset_generation, (t, later, rev), ()),
    ensures
        final(s).records@ == seq![row],
        final(s).generation == generation,
        final(s).revision == revision,
        !final(s).has_older,
        final(t).records@.len() == 0,
        final(t).generation == later,
        final(t).revision == rev,
        !final(t).has_older && !final(t).has_newer,
        final(t).older_cursor is None && final(t).newer_cursor is None,
        final(t).commands@.contains(TrajectoryCommand::DetailsForget),
        final(t).session_id == old(t).session_id,
{
    assert(final(s)@.records == final(s).records@ && final(t)@.records == final(t).records@);
    assert(old(s)@.generation == old(s).generation);
    assert(final(t)@.commands == final(t).commands@);
    let none = Seq::<TrajectoryRowSummary>::empty();
    reveal_with_fuel(sorted_rows, 2);
    assert(none.push(row).drop_last() =~= none);
    assert(none.push(row) =~= seq![row]);
    let at = old(t)@.commands.len() as int;
    assert(final(t).commands@[at] == TrajectoryCommand::DetailsForget);
}

/// A removal takes out the records with the id and no others, and the others stand as they stood; updates of an
/// earlier generation change nothing.
pub proof fn a_removed_record_is_gone(
    s: &mut TrajectorySessionState,
    generation: u64,
    revision: u64,
    record_id: u128,
    t: &mut TrajectorySessionState,
    update: TrajectoryLiveUpdate,
)
    requires
        call_ensures(
            TrajectorySessionState::apply_live_update,
            (s, TrajectoryLiveUpdate::Remove { generation, revision, record_id }),
            (),
        ),
        generation >= old(s).generation,
        call_ensures(TrajectorySessionState::apply_live_update, (t, update), ()),
        match update {
            TrajectoryLiveUpdate::Upsert { generation, revision, row } => generation < old(
                t,
            ).generation,
            TrajectoryLiveUpdate::Remove { generation, revision, record_id } => generation < old(
                t,
            ).generation,
            TrajectoryLiveUpdate::Reset { generation, revision } => false,
        },
    ensures
        !holds(final(s).records@, record_id),
        final(s).records@ == old(s).records@.filter(
            |r: TrajectoryRowSummary| r.record_id != record_id,
        ),
        final(s).generation == old(s).generation,
        final(s).revision >= revision,
        final(s).revision >= old(s).revision,
        final(t)@ == old(t)@,
{
    assert(old(s)@.records == old(s).records@ && final(s)@.records == final(s).records@);
    assert(old(s)@.generation == old(s).generation && old(t)@.generation == old(t).generation);
    assert(final(s)@.revision == final(s).revision && old(s)@.revision == old(s).revision);
    crate::trajectory::state_laws::removal_takes_one_id_out(
        old(s).records@,
        record_id,
        record_id,
    );
    assert(holds(final(s).records@, record_id) ==> has_record(final(s).records@, record_id));
}

proof fn new_rows_come_from_the_page(
    older: Seq<TrajectoryRowSummary>,
    known: Seq<TrajectoryRowSummary>,
    row: TrajectoryRowSummary,
)
    ensures
        new_rows(older, known).contains(row) <==> exists|i: int|
            0 <= i < older.len() && #[trigger] older[i] == row && !holds(known, row.record_id)
                && !holds(older.take(i), row.record_id),
    decreases older.len(),
{
    if older.len() > 0 {
        let head = older.drop_last();
        let last = older.last();
        let before = new_rows(head, known);
        let all = new_rows(older, known);
        let n = head.len() as int;
        new_rows_come_from_the_page(head, known, row);
        assert(older.take(n) =~= head);
        assert(has_record(known, last.record_id) <==> holds(known, last.record_id));
        assert(has_record(head, last.record_id) <==> holds(head, last.record_id));
        if all.contains(row) {
            let k = all.index_of(row);
            if k < before.len() {
                assert(before[k] == row);
                let i = choose|i: int|
                    0 <= i < head.len() && #[trigger] head[i] == row && !holds(known, row.record_id)
                        && !holds(head.take(i), row.record_id);
                assert(older.take(i) =~= head.take(i));
                assert(older[i] == row);
            } else {
                assert(older[n] == row);
            }
        }
        if exists|i: int|
            0 <= i < older.len() && #[trigger] older[i] == row && !holds(known, row.record_id)
                && !holds(older.take(i), row.record_id) {
            let i = choose|i: int|
                0 <= i < older.len() && #[trigger] older[i] == row && !holds(known, row.record_id)
                    && !holds(older.take(i), row.record_id);
            if i < n {
                assert(head.take(i) =~= older.take(i));
                assert(head[i] == row);
                let k = before.index_of(row);
                assert(all[k] == row);
            } else {
                assert(all[before.len() as int] == row);
            }
        }
    }
}

/// Older records are put before those that are there: every record that was there stays as it is, a record of the
/// page whose id is not there yet is added, and all of them stand in order. What was chosen is where the view
/// stays.
pub proof fn older_records_are_added(
    s: &mut TrajectorySessionState,
    older: Vec<TrajectoryRowSummary>,
    cursor: Option<TrajectoryCursor>,
    has_older: bool,
    r: Option<u128>,
    row: TrajectoryRowSummary,
)
    requires
        call_ensures(
            TrajectorySessionState::prepend_older_page,
            (s, older, cursor, has_older),
            r,
        ),
    ensures
        in_order(final(s).records@),
        final(s).records@.contains(row) <==> old(s).records@.contains(row) || exists|i: int|
            0 <= i < older@.len() && #[trigger] older@[i] == row && !holds(
                old(s).records@,
                row.record_id,
            ) && !holds(older@.take(i), row.record_id),
        final(s).older_cursor == cursor,
        final(s).has_older == has_older,
        !final(s).loading_older,
        final(s).newer_cursor == old(s).newer_cursor,
        final(s).selected_record_id == old(s).selected_record_id,
        old(s).selected_record_id is Some ==> r == old(s).selected_record_id,
{
    let records = old(s).records@;
    let fresh = new_rows(older@, records);
    let all = fresh + records;
    assert(old(s)@.records == records && final(s)@.records == final(s).records@);
    assert(final(s)@.older_cursor == final(s).older_cursor);
    assert(final(s)@.loading_older == final(s).loading_older);
    assert(final(s)@.newer_cursor == final(s).newer_cursor);
    sorted_facts(all, row);
    new_rows_come_from_the_page(older@, records, row);
    if all.contains(row) {
        let k = all.index_of(row);
        if k < fresh.len() {
            assert(fresh[k] == row);
        } else {
            assert(records[k - fresh.len()] == row);
        }
    }
    if fresh.contains(row) {
        let k = fresh.index_of(row);
        assert(all[k] == row);
    }
    if records.contains(row) {
        let k = records.index_of(row);
        assert(all[fresh.len() + k] == row);
    }
}

/// The rows, the index and the timeline are those of the records, whatever the daemon sent.
pub proof fn what_is_shown_follows_the_records(
    s: &mut TrajectorySessionState,
    update: TrajectoryLiveUpdate,
    records: &[TrajectoryRowSummary],
    folded: &HashSet<u32>,
    tokens: &[String],
    index: &HashMap<u128, String>,
    rows: Vec<TrajectoryLedgerRow>,
    built: HashMap<u128, String>,
    drawn: TimelineLayout,
)
    requires
        call_ensures(TrajectorySessionState::apply_live_update, (s, update), ()),
        match update {
            TrajectoryLiveUpdate::Upsert { generation, revision, row } => generation >= old(
                s,
            ).generation,
            TrajectoryLiveUpdate::Remove { generation, revision, record_id } => generation >= old(
                s,
            ).generation,
            TrajectoryLiveUpdate::Reset { generation, revision } => true,
        },
        records@ == final(s).records@,
        folded@ == final(s).folded_turns@,
        views(tokens@) == views(final(s).search_tokens@),
        index_view(index@) == index_view(final(s).prebuilt_search_index@),
        call_ensures(
            build_ledger_rows,
            (records, folded, final(s).show_tool_calls, tokens, index),
            rows,
        ),
        call_ensures(build_search_index, (records,), built),
        call_ensures(compute_timeline_layout, (records,), drawn),
    ensures
        row_views(final(s).ledger_rows@) == row_views(rows@),
        index_view(final(s).prebuilt_search_index@) == index_view(built@),
        final(s).timeline_layout@ == drawn@,
        final(s).search_tokens@.len() == old(s).search_tokens@.len(),
        final(s).show_tool_calls == old(s).show_tool_calls,
        final(s).folded_turns@ == old(s).folded_turns@,
{
    assert(final(s)@.rows == row_views(final(s).ledger_rows@));
    assert(final(s)@.records == final(s).records@);
    assert(old(s)@.generation == old(s).generation);
    assert(final(s)@.index == index_view(final(s).prebuilt_search_index@));
    assert(final(s)@.search_tokens == views(final(s).search_tokens@));
    assert(old(s)@.search_tokens == views(old(s).search_tokens@));
    assert(views(final(s).search_tokens@).len() == final(s).search_tokens@.len());
    assert(views(old(s).search_tokens@).len() == old(s).search_tokens@.len());
    assert(final(s)@.timeline == final(s).timeline_layout@);
    assert(final(s)@.folded_turns == final(s).folded_turns@);
}

/// A search is made of the words that were typed, whatever their case; the records stay, and the rows are those
/// that the search leaves.
pub proof fn a_search_is_made_of_words(
    s: &mut TrajectorySessionState,
    query: String,
    i: int,
    records: &[TrajectoryRowSummary],
    folded: &HashSet<u32>,
    tokens: &[String],
    index: &HashMap<u128, String>,
    rows: Vec<TrajectoryLedgerRow>,
)
    requires
        call_ensures(TrajectorySessionState::set_search_query, (s, query), ()),
        records@ == final(s).records@,
        folded@ == final(s).folded_turns@,
        views(tokens@) == views(final(s).search_tokens@),
        index_view(index@) == index_view(final(s).prebuilt_search_index@),
        call_ensures(
            build_ledger_rows,
            (records, folded, final(s).show_tool_calls, tokens, index),
            rows,
        ),
    ensures
        final(s).search_query@ == query@,
        final(s).search_tokens@.len() == words(query@).len(),
        0 <= i < words(query@).len() ==> final(s).search_tokens@[i]@ == lowered(words(query@)[i]),
        final(s).records@ == old(s).records@,
        final(s).folded_turns@ == old(s).folded_turns@,
        final(s).show_tool_calls == old(s).show_tool_calls,
        row_views(final(s).ledger_rows@) == row_views(rows@),
{
    let v = final(s)@;
    assert(v.search_tokens == views(final(s).search_tokens@));
    assert(views(final(s).search_tokens@).len() == final(s).search_tokens@.len());
    assert(v.records == final(s).records@ && old(s)@.records == old(s).records@);
    assert(v.index == index_view(final(s).prebuilt_search_index@));
    assert(v.folded_turns == final(s).folded_turns@);
    assert(v.search_query == final(s).search_query@);
    assert(v.rows == row_views(final(s).ledger_rows@));
    if 0 <= i < words(query@).len() {
        assert(views(final(s).search_tokens@)[i] == final(s).search_tokens@[i]@);
    }
}

proof fn index_has(records: Seq<TrajectoryRowSummary>, i: int)
    requires
        0 <= i < records.len(),
        forall|j: int|
            i < j < records.len() ==> (#[trigger] records[j]).record_id != records[i].record_id,
    ensures
        search_index(records).contains_key(records[i].record_id),
        search_index(records)[records[i].record_id] == lowered(search_blob(records[i])),
    decreases records.len(),
{
    if i < records.len() - 1 {
        let head = records.drop_last();
        assert(head[i] == records[i]);
        assert forall|j: int| i < j < head.len() implies (#[trigger] head[j]).record_id
            != head[i].record_id by {
            assert(head[j] == records[j]);
        }
        index_has(head, i);
        assert(records[records.len() - 1].record_id != records[i].record_id);
    }
}

/// Tells whether a text stands somewhere in another.
pub open spec fn stands_in(text: Seq<char>, needle: Seq<char>) -> bool {
    exists|a: Seq<char>, b: Seq<char>| text == #[trigger] (a + needle + b)
}

proof fn stands_where_it_occurs(text: Seq<char>, needle: Seq<char>)
    ensures
        occurs_in(text, needle) <==> stands_in(text, needle),
{
    if occurs_in(text, needle) {
        let at = choose|at: int| stands_at(text, needle, at);
        let a = text.take(at);
        let b = text.skip(at + needle.len());
        assert(text =~= a + needle + b);
    }
    if stands_in(text, needle) {
        let (a, b) = choose|a: Seq<char>, b: Seq<char>| text == #[trigger] (a + needle + b);
        assert(text.subrange(a.len() as int, (a.len() + needle.len()) as int) =~= needle);
        assert(stands_at(text, needle, a.len() as int));
    }
}

/// A search finds a record where every word stands somewhere in its title, its preview, its text or the names of
/// its kind, status and lane, in whatever case.
pub proof fn a_search_looks_at_everything(
    records: &[TrajectoryRowSummary],
    index: HashMap<u128, String>,
    i: int,
    tokens: &[String],
    held: &HashMap<u128, String>,
    r: bool,
    kind: &'static str,
    status: &'static str,
    lane: &'static str,
)
    requires
        call_ensures(build_search_index, (records,), index),
        *held == index,
        0 <= i < records@.len(),
        forall|j: int|
            i < j < records@.len() ==> (#[trigger] records@[j]).record_id != records@[i].record_id,
        call_ensures(matches_and_search, (records@[i].record_id, tokens, held), r),
        call_ensures(kind_display_name, (records@[i].kind,), kind),
        call_ensures(status_display_name, (records@[i].status,), status),
        call_ensures(lane_display_name, (records@[i].lane,), lane),
    ensures
        r <==> forall|k: int|
            0 <= k < tokens@.len() ==> stands_in(
                lowered(
                    records@[i].title@ + " "@ + records@[i].preview@ + " "@
                        + records@[i].search_text@ + " "@ + kind@ + " "@ + status@ + " "@ + lane@,
                ),
                (#[trigger] tokens@[k])@,
            ),
{
    index_has(records@, i);
    let id = records@[i].record_id;
    let text = index_view(index@)[id];
    assert(index_view(index@) == search_index(records@));
    assert(index_view(held@).contains_key(id));
    assert(text == lowered(search_blob(records@[i])));
    assert(views(tokens@).len() == tokens@.len());
    assert forall|k: int| 0 <= k < tokens@.len() implies (occurs_in(text, views(tokens@)[k])
        <==> stands_in(text, (#[trigger] tokens@[k])@)) by {
        assert(views(tokens@)[k] == tokens@[k]@);
        stands_where_it_occurs(text, tokens@[k]@);
    }
    if r {
        assert forall|k: int| 0 <= k < tokens@.len() implies stands_in(
            text,
            (#[trigger] tokens@[k])@,
        ) by {
            assert(occurs_in(text, views(tokens@)[k]));
        }
    }
    if forall|k: int| 0 <= k < tokens@.len() ==> stands_in(text, (#[trigger] tokens@[k])@) {
        assert forall|k: int| 0 <= k < views(tokens@).len() implies occurs_in(
            text,
            #[trigger] views(tokens@)[k],
        ) by {
            assert(stands_in(text, tokens@[k]@));
        }
    }
}

/// Folding a turn folds that one and no other, folding it again unfolds it, and all of them can be folded and
/// unfolded at once.
pub proof fn turns_are_folded_one_by_one(
    s: &mut TrajectorySessionState,
    turn: u32,
    other: u32,
    t: &mut TrajectorySessionState,
    u: &mut TrajectorySessionState,
    v: &mut TrajectorySessionState,
    i: int,
)
    requires
        call_ensures(TrajectorySessionState::toggle_turn_fold, (s, turn), ()),
        *old(t) == *final(s),
        call_ensures(TrajectorySessionState::toggle_turn_fold, (t, turn), ()),
        call_ensures(TrajectorySessionState::fold_all_turns, (u,), ()),
        *old(v) == *final(u),
        call_ensures(TrajectorySessionState::unfold_all_turns, (v,), ()),
    ensures
        final(s).folded_turns@.contains(turn) <==> !old(s).folded_turns@.contains(turn),
        other != turn ==> (final(s).folded_turns@.contains(other) <==> old(
            s,
        ).folded_turns@.contains(other)),
        final(s).records@ == old(s).records@,
        final(t).folded_turns@.contains(other) <==> old(s).folded_turns@.contains(other),
        0 <= i < old(u).records@.len() ==> final(u).folded_turns@.contains(
            old(u).records@[i].turn_count,
        ),
        !final(v).folded_turns@.contains(other),
        final(v).records@ == old(u).records@,
{
    assert(old(s)@.folded_turns == old(s).folded_turns@ && final(s)@.folded_turns == final(s).folded_turns@);
    assert(final(t)@.folded_turns == final(t).folded_turns@);
    assert(final(u)@.folded_turns == final(u).folded_turns@);
    assert(final(v)@.folded_turns == final(v).folded_turns@);
    assert(old(s)@.records == old(s).records@ && final(s)@.records == final(s).records@);
    assert(old(u)@.records == old(u).records@ && final(v)@.records == final(v).records@);
    if 0 <= i < old(u).records@.len() {
        assert(old(u)@.records[i].turn_count == old(u).records@[i].turn_count);
    }
}

/// The switches for tool calls and for durations are turned over, each by its own command.
pub proof fn switches_are_turned_over(
    s: &mut TrajectorySessionState,
    t: &mut TrajectorySessionState,
)
    requires
        call_ensures(TrajectorySessionState::toggle_tool_calls, (s,), ()),
        *old(t) == *final(s),
        call_ensures(TrajectorySessionState::toggle_duration_projection, (t,), ()),
    ensures
        final(s).show_tool_calls == !old(s).show_tool_calls,
        final(s).duration_projection == old(s).duration_projection,
        final(s).records@ == old(s).records@,
        final(t).duration_projection == !old(s).duration_projection,
        final(t).show_tool_calls == final(s).show_tool_calls,
        row_views(final(t).ledger_rows@) == row_views(final(s).ledger_rows@),
{
    assert(final(s)@.show_tool_calls == final(s).show_tool_calls);
    assert(old(s)@.show_tool_calls == old(s).show_tool_calls);
    assert(final(t)@.show_tool_calls == final(t).show_tool_calls);
    assert(final(t)@.duration_projection == final(t).duration_projection);
    assert(final(s)@.duration_projection == final(s).duration_projection);
    assert(old(s)@.duration_projection == old(s).duration_projection);
    assert(old(s)@.records == old(s).records@ && final(s)@.records == final(s).records@);
    assert(final(t)@.rows == row_views(final(t).ledger_rows@));
    assert(final(s)@.rows == row_views(final(s).ledger_rows@));
}

proof fn row_is_found(
    rows: Seq<crate::trajectory::ledger::LedgerRowView>,
    id: u128,
    i: int,
    from: int,
)
    requires
        0 <= from <= i < rows.len(),
        rows.len() <= usize::MAX,
        rows[i].record_id == Some(id),
        forall|k: int| 0 <= k < i ==> (#[trigger] rows[k]).record_id != Some(id),
    ensures
        row_position(rows, id, from) == Some(i as usize),
    decreases i - from,
{
    if from < i {
        assert(rows[from].record_id != Some(id));
        row_is_found(rows, id, i, from + 1);
    }
}

proof fn no_row_is_found(
    rows: Seq<crate::trajectory::ledger::LedgerRowView>,
    id: u128,
    from: int,
)
    requires
        0 <= from <= rows.len(),
        forall|k: int| 0 <= k < rows.len() ==> (#[trigger] rows[k]).record_id != Some(id),
    ensures
        row_position(rows, id, from) is None,
    decreases rows.len() - from,
{
    if from < rows.len() {
        assert(rows[from].record_id != Some(id));
        no_row_is_found(rows, id, from + 1);
    }
}

/// A record that is chosen is inspected, and the first row of it is revealed; without one the record is chosen all
/// the same.
pub proof fn a_chosen_record_is_inspected(
    s: &mut TrajectorySessionState,
    id: u128,
    i: int,
)
    requires
        call_ensures(TrajectorySessionState::select_record, (s, id), ()),
    ensures
        final(s).selected_record_id == Some(id),
        final(s).inspector_open,
        0 <= i < old(s).ledger_rows@.len() && old(s).ledger_rows@[i].record_id == Some(id) && (
        forall|k: int|
            0 <= k < i ==> (#[trigger] old(s).ledger_rows@[k]).record_id != Some(id)) ==> final(s).selected_row_index == Some(i as usize) && final(s).commands@.last()
            == TrajectoryCommand::ListReveal(i as usize),
        (forall|k: int|
            0 <= k < old(s).ledger_rows@.len() ==> (#[trigger] old(s).ledger_rows@[k]).record_id
                != Some(id)) ==> final(s).selected_row_index is None && final(s).commands@ == old(
            s,
        ).commands@,
        final(s).records@ == old(s).records@,
{
    let rows = row_views(old(s).ledger_rows@);
    assert(old(s)@.rows == rows);
    assert(rows.len() == old(s).ledger_rows@.len());
    assert(final(s)@.commands == final(s).commands@ && old(s)@.commands == old(s).commands@);
    assert(final(s)@.selected_row_index == final(s).selected_row_index);
    assert(final(s)@.selected_record_id == final(s).selected_record_id);
    assert(old(s)@.records == old(s).records@ && final(s)@.records == final(s).records@);
    assert forall|k: int| 0 <= k < rows.len() implies (#[trigger] rows[k]).record_id == old(
        s,
    ).ledger_rows@[k].record_id by {
        assert(rows[k] == old(s).ledger_rows@[k]@);
    }
    if 0 <= i < old(s).ledger_rows@.len() && old(s).ledger_rows@[i].record_id == Some(id) && (
    forall|k: int| 0 <= k < i ==> (#[trigger] old(s).ledger_rows@[k]).record_id != Some(id)) {
        assert forall|k: int| 0 <= k < i implies (#[trigger] rows[k]).record_id != Some(id) by {
            assert(old(s).ledger_rows@[k].record_id != Some(id));
        }
        assert(old(s).ledger_rows.len() <= usize::MAX);
        row_is_found(rows, id, i, 0);
    }
    if forall|k: int|
        0 <= k < old(s).ledger_rows@.len() ==> (#[trigger] old(s).ledger_rows@[k]).record_id
            != Some(id) {
        assert forall|k: int| 0 <= k < rows.len() implies (#[trigger] rows[k]).record_id != Some(
            id,
        ) by {
            assert(old(s).ledger_rows@[k].record_id != Some(id));
        }
        no_row_is_found(rows, id, 0);
    }
}

/// A row that is chosen is revealed and chooses its record; a row that is not there changes nothing. Neither opens
/// the inspector, and closing it keeps what is chosen.
pub proof fn a_chosen_row_chooses_its_record(
    s: &mut TrajectorySessionState,
    index: usize,
    t: &mut TrajectorySessionState,
)
    requires
        call_ensures(TrajectorySessionState::select_row_at_index, (s, index), ()),
        call_ensures(TrajectorySessionState::close_inspector, (t,), ()),
    ensures
        index >= old(s).ledger_rows@.len() ==> final(s)@ == old(s)@,
        index < old(s).ledger_rows@.len() ==> {
            &&& final(s).selected_row_index == Some(index)
            &&& final(s).commands@.last() == TrajectoryCommand::ListReveal(index)
            &&& old(s).ledger_rows@[index as int].record_id is Some ==> final(s).selected_record_id
                == old(s).ledger_rows@[index as int].record_id
            &&& old(s).ledger_rows@[index as int].record_id is None ==> final(s).selected_record_id
                == old(s).selected_record_id
        },
        final(s).inspector_open == old(s).inspector_open,
        !final(t).inspector_open,
        final(t).selected_record_id == old(t).selected_record_id,
        final(t).selected_row_index == old(t).selected_row_index,
{
    let rows = row_views(old(s).ledger_rows@);
    assert(old(s)@.rows == rows);
    assert(rows.len() == old(s).ledger_rows@.len());
    assert(final(s)@.commands == final(s).commands@);
    assert(final(s)@.selected_row_index == final(s).selected_row_index);
    assert(final(s)@.selected_record_id == final(s).selected_record_id);
    assert(final(s)@.inspector_open == final(s).inspector_open);
    assert(final(t)@.inspector_open == final(t).inspector_open);
    assert(final(t)@.selected_record_id == final(t).selected_record_id);
    assert(final(t)@.selected_row_index == final(t).selected_row_index);
    if index < old(s).ledger_rows@.len() {
        assert(rows[index as int] == old(s).ledger_rows@[index as int]@);
    }
}

/// A new session holds nothing, shows tool calls and durations, and has nothing folded or chosen.
pub proof fn a_new_session_is_empty(session_id: u128, s: TrajectorySessionState, turn: u32)
    requires
        call_ensures(TrajectorySessionState::new, (session_id,), s),
    ensures
        s.session_id == session_id,
        s.records@.len() == 0,
        s.ledger_rows@.len() == 0,
        s.show_tool_calls,
        s.duration_projection,
        !s.folded_turns@.contains(turn),
        s.selected_record_id is None,
        s.selected_row_index is None,
        !s.inspector_open,
        s.search_tokens@.len() == 0,
        s.loading_status is Initial,
{
    let v = s@;
    assert(v.records == s.records@);
    assert(v.rows == row_views(s.ledger_rows@));
    assert(row_views(s.ledger_rows@).len() == s.ledger_rows@.len());
    assert(v.folded_turns == s.folded_turns@);
    assert(v.search_tokens == views(s.search_tokens@));
    assert(views(s.search_tokens@).len() == s.search_tokens@.len());
    assert(v.loading_status == s.loading_status);
}

/// The section that a record opens with is one that it offers; every record offers a summary and what it was made
/// of, and no section twice.
pub proof fn records_open_with_what_they_offer(
    kind: TrajectoryKind,
    first: TrajectoryDetailSection,
    all: Vec<TrajectoryDetailSection>,
)
    requires
        call_ensures(default_section_for_kind, (kind,), first),
        call_ensures(allowed_sections_for_kind, (kind,), all),
    ensures
        all@.contains(first),
        all@.contains(TrajectoryDetailSection::Summary),
        all@.contains(TrajectoryDetailSection::Source),
        all@.contains(TrajectoryDetailSection::Raw),
        forall|i: int, j: int| 0 <= i < j < all@.len() ==> all@[i] != all@[j],
        first is Preview <==> kind is User,
        !(kind is User) ==> first is Summary,
        all@.contains(TrajectoryDetailSection::Payload) <==> kind is Tool,
        all@.contains(TrajectoryDetailSection::Result) <==> kind is Tool,
        all@.contains(TrajectoryDetailSection::Tools) <==> kind is Request,
        all@.contains(TrajectoryDetailSection::Usage) <==> kind is Request || kind is Assistant,
{
    assert(all@[0] == TrajectoryDetailSection::Summary);
    let n = all@.len() as int;
    assert(all@[n - 2] == TrajectoryDetailSection::Source && all@[n - 1]
        == TrajectoryDetailSection::Raw);
    assert(all@.contains(all@[0]) && all@.contains(all@[1]) && all@.contains(all@[2])
        && all@.contains(all@[n - 1]) && all@.contains(all@[n - 2]));
    if kind is Request {
        assert(all@[4] == TrajectoryDetailSection::Usage);
    }
}

/// The sections of a record are those of its kind; one that is not there has a summary alone.
pub proof fn sections_are_those_of_the_kind(
    s: &TrajectorySessionState,
    id: u128,
    first: Option<TrajectoryDetailSection>,
    all: Vec<TrajectoryDetailSection>,
    i: int,
    usual: TrajectoryDetailSection,
    offered: Vec<TrajectoryDetailSection>,
)
    requires
        call_ensures(TrajectorySessionState::default_section_for_record, (s, id), first),
        call_ensures(TrajectorySessionState::allowed_sections_for_record, (s, id), all),
        0 <= i < s.records@.len(),
        call_ensures(default_section_for_kind, (s.records@[i].kind,), usual),
        call_ensures(allowed_sections_for_kind, (s.records@[i].kind,), offered),
    ensures
        s.records@[i].record_id == id && (forall|k: int|
            0 <= k < i ==> (#[trigger] s.records@[k]).record_id != id) ==> first == Some(usual)
            && all@ == offered@,
        !holds(s.records@, id) ==> first is None && all@ == seq![TrajectoryDetailSection::Summary],
{
    assert(s@.records == s.records@);
    position_of(s.records@, id, 0);
    let at = record_position(s.records@, id, 0);
    if at < s.records@.len() {
        assert(s.records@[at].record_id == id);
        assert(holds(s.records@, id));
    }
}

/// Rebuilding follows the records, changes none of them, and keeps what is chosen: a record that is chosen by its
/// first row.
pub proof fn rebuilding_follows_the_records(
    s: &mut TrajectorySessionState,
    records: &[TrajectoryRowSummary],
    built: HashMap<u128, String>,
    drawn: TimelineLayout,
    i: int,
)
    requires
        call_ensures(TrajectorySessionState::rebuild_all, (s,), ()),
        records@ == old(s).records@,
        call_ensures(build_search_index, (records,), built),
        call_ensures(compute_timeline_layout, (records,), drawn),
    ensures
        final(s).records@ == old(s).records@,
        index_view(final(s).prebuilt_search_index@) == index_view(built@),
        final(s).timeline_layout@ == drawn@,
        final(s).selected_record_id == old(s).selected_record_id,
        final(s).folded_turns@ == old(s).folded_turns@,
        old(s).selected_record_id matches Some(id) ==> (0 <= i < final(s).ledger_rows@.len()
            && final(s).ledger_rows@[i].record_id == Some(id) && (forall|k: int|
            0 <= k < i ==> (#[trigger] final(s).ledger_rows@[k]).record_id != Some(id)) ==> final(s).selected_row_index == Some(i as usize)),
{
    let v = final(s)@;
    assert(v.records == final(s).records@ && old(s)@.records == old(s).records@);
    assert(v.index == index_view(final(s).prebuilt_search_index@));
    assert(v.timeline == final(s).timeline_layout@);
    assert(v.folded_turns == final(s).folded_turns@);
    assert(v.rows == row_views(final(s).ledger_rows@));
    assert(v.selected_row_index == final(s).selected_row_index);
    let rows = row_views(final(s).ledger_rows@);
    assert(rows.len() == final(s).ledger_rows@.len());
    assert(final(s).ledger_rows.len() <= usize::MAX);
    assert forall|k: int| 0 <= k < rows.len() implies (#[trigger] rows[k]).record_id == final(s).ledger_rows@[k].record_id by {
        assert(rows[k] == final(s).ledger_rows@[k]@);
    }
    if let Some(id) = old(s).selected_record_id {
        assert(old(s)@.selected_record_id == Some(id));
        if 0 <= i < final(s).ledger_rows@.len() && final(s).ledger_rows@[i].record_id == Some(id)
            && (forall|k: int|
            0 <= k < i ==> (#[trigger] final(s).ledger_rows@[k]).record_id != Some(id)) {
            assert forall|k: int| 0 <= k < i implies (#[trigger] rows[k]).record_id != Some(
                id,
            ) by {
                assert(final(s).ledger_rows@[k].record_id != Some(id));
            }
            row_is_found(rows, id, i, 0);
        }
    }
}

} // verus!
