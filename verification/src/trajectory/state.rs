//! What the client holds of the trajectory of a session, and how pages, live updates and the user
//! change it.
use crate::key_map::{KeyMap, MapKey};
use crate::text::{lowered, opt_view, split_words, to_lower, views, words};
use crate::trajectory::json_tree_state::{fresh_tree, JsonTreeState, JsonTreeStateView};
use crate::trajectory::ledger::{
    build_ledger_rows, ledger, ledger_filter, row_views, LedgerRowView, TrajectoryLedgerRow,
};
use crate::trajectory::order::{sort_rows, sorted_rows};
use crate::trajectory::record::{
    allowed_sections, allowed_sections_for_kind, default_section, default_section_for_kind,
    TrajectoryAvailability, TrajectoryCursor, TrajectoryDetailSection, TrajectoryLoadingStatus,
    TrajectoryRowSummary,
};
use crate::trajectory::search::{build_search_index, index_view, search_index};
use crate::trajectory::timeline::{
    compute_timeline_layout, timeline, TimelineLayout, TimelineView,
};
use std::collections::{HashMap, HashSet};
use vstd::prelude::*;

verus! {

broadcast use vstd::std_specs::hash::group_hash_axioms;

/// A change of a trajectory that the daemon reports.
pub enum TrajectoryLiveUpdate {
    Upsert { generation: u64, revision: u64, row: TrajectoryRowSummary },
    Remove { generation: u64, revision: u64, record_id: u128 },
    Reset { generation: u64, revision: u64 },
}

/// A page of a trajectory that the daemon sent.
pub struct TrajectoryPage {
    pub availability: TrajectoryAvailability,
    pub generation: u64,
    pub revision: u64,
    pub rows: Vec<TrajectoryRowSummary>,
    pub older: Option<TrajectoryCursor>,
    pub newer: Option<TrajectoryCursor>,
    pub has_older: bool,
    pub has_newer: bool,
}

/// What the widgets that show the trajectory are to do.
#[derive(Clone, Copy, Debug, PartialEq, Eq, Structural)]
pub enum TrajectoryCommand {
    /// The list now has this many rows.
    ListReset(usize),
    /// Scroll the list until this row is in view.
    ListReveal(usize),
    /// Forget the details that were loaded.
    DetailsForget,
}

/// A section of a record's details.
#[derive(Clone, Copy, Debug, PartialEq, Eq, Structural)]
pub struct DetailKey {
    pub record_id: u128,
    pub section: TrajectoryDetailSection,
}

impl MapKey for DetailKey {
    type Id = DetailKey;

    open spec fn id(&self) -> DetailKey {
        *self
    }

    fn same_key(&self, other: &Self) -> (r: bool) {
        *self == *other
    }
}

/// What the client holds of the trajectory of a session.
pub struct TrajectorySessionState {
    pub session_id: u128,
    pub generation: u64,
    pub revision: u64,
    pub availability: TrajectoryAvailability,
    pub records: Vec<TrajectoryRowSummary>,
    pub older_cursor: Option<TrajectoryCursor>,
    pub newer_cursor: Option<TrajectoryCursor>,
    pub has_older: bool,
    pub has_newer: bool,
    pub loading_status: TrajectoryLoadingStatus,
    pub loading_older: bool,
    pub error: Option<String>,
    pub search_query: String,
    pub search_tokens: Vec<String>,
    pub prebuilt_search_index: HashMap<u128, String>,
    pub duration_projection: bool,
    pub folded_turns: HashSet<u32>,
    pub show_tool_calls: bool,
    pub selected_record_id: Option<u128>,
    pub selected_row_index: Option<usize>,
    pub inspector_open: bool,
    pub selected_section: TrajectoryDetailSection,
    pub timeline_layout: TimelineLayout,
    pub ledger_rows: Vec<TrajectoryLedgerRow>,
    pub detail_cursors: KeyMap<DetailKey, u64>,
    pub json_tree_state: JsonTreeState,
    /// What the widgets have still to do, in order.
    pub commands: Vec<TrajectoryCommand>,
}

/// The contents of the state.
#[verifier::ext_equal]
pub ghost struct StateView {
    pub session_id: u128,
    pub generation: u64,
    pub revision: u64,
    pub availability: TrajectoryAvailability,
    pub records: Seq<TrajectoryRowSummary>,
    pub older_cursor: Option<TrajectoryCursor>,
    pub newer_cursor: Option<TrajectoryCursor>,
    pub has_older: bool,
    pub has_newer: bool,
    pub loading_status: TrajectoryLoadingStatus,
    pub loading_older: bool,
    pub error: Option<Seq<char>>,
    pub search_query: Seq<char>,
    pub search_tokens: Seq<Seq<char>>,
    pub index: Map<u128, Seq<char>>,
    pub duration_projection: bool,
    pub folded_turns: Set<u32>,
    pub show_tool_calls: bool,
    pub selected_record_id: Option<u128>,
    pub selected_row_index: Option<usize>,
    pub inspector_open: bool,
    pub selected_section: TrajectoryDetailSection,
    pub timeline: TimelineView,
    pub rows: Seq<LedgerRowView>,
    pub detail_cursors: Map<DetailKey, u64>,
    pub json_tree: JsonTreeStateView,
    pub commands: Seq<TrajectoryCommand>,
}

impl View for TrajectorySessionState {
    type V = StateView;

    open spec fn view(&self) -> StateView {
        StateView {
            session_id: self.session_id,
            generation: self.generation,
            revision: self.revision,
            availability: self.availability,
            records: self.records@,
            older_cursor: self.older_cursor,
            newer_cursor: self.newer_cursor,
            has_older: self.has_older,
            has_newer: self.has_newer,
            loading_status: self.loading_status,
            loading_older: self.loading_older,
            error: opt_view(self.error),
            search_query: self.search_query@,
            search_tokens: views(self.search_tokens@),
            index: index_view(self.prebuilt_search_index@),
            duration_projection: self.duration_projection,
            folded_turns: self.folded_turns@,
            show_tool_calls: self.show_tool_calls,
            selected_record_id: self.selected_record_id,
            selected_row_index: self.selected_row_index,
            inspector_open: self.inspector_open,
            selected_section: self.selected_section,
            timeline: self.timeline_layout@,
            rows: row_views(self.ledger_rows@),
            detail_cursors: self.detail_cursors@,
            json_tree: self.json_tree_state@,
            commands: self.commands@,
        }
    }
}

// ---------------------------------------------------------------------------
// Derived state
// ---------------------------------------------------------------------------
/// Where the first row of a record stands, from `i` on.
pub open spec fn row_position(rows: Seq<LedgerRowView>, id: u128, i: int) -> Option<usize>
    decreases rows.len() - i,
{
    if i < 0 || i >= rows.len() {
        None
    } else if rows[i].record_id == Some(id) {
        Some(i as usize)
    } else {
        row_position(rows, id, i + 1)
    }
}

/// The rows of the ledger, as the records, the switches and the search give them.
pub open spec fn state_rows(s: StateView) -> Seq<LedgerRowView> {
    ledger(
        ledger_filter(s.folded_turns, s.show_tool_calls, s.search_tokens, s.index),
        s.records,
    )
}

/// The selected row among new rows: that of the selected record, else the same row, or the last
/// where there are fewer.
pub open spec fn reseated(s: StateView, rows: Seq<LedgerRowView>) -> Option<usize> {
    match (s.selected_record_id, s.selected_row_index) {
        (Some(id), _) => row_position(rows, id, 0),
        (None, Some(i)) => if i < rows.len() {
            Some(i)
        } else if rows.len() == 0 {
            None
        } else {
            Some((rows.len() - 1) as usize)
        },
        (None, None) => None,
    }
}

/// The state with its rows worked out anew.
pub open spec fn rows_rebuilt(s: StateView) -> StateView {
    let rows = state_rows(s);
    StateView {
        rows,
        selected_row_index: reseated(s, rows),
        commands: s.commands.push(TrajectoryCommand::ListReset(rows.len() as usize)),
        ..s
    }
}

/// The state with its search index, its timeline and its rows worked out anew.
pub open spec fn rebuilt(s: StateView) -> StateView {
    rows_rebuilt(
        StateView { index: search_index(s.records), timeline: timeline(s.records), ..s },
    )
}

/// Tells whether everything that follows from the records, the switches and the search is up to
/// date, and the selected row is one of the rows.
pub open spec fn consistent(s: StateView) -> bool {
    &&& s.index == search_index(s.records)
    &&& s.timeline == timeline(s.records)
    &&& s.rows == state_rows(s)
    &&& (s.selected_row_index matches Some(i) ==> i < s.rows.len())
}

// ---------------------------------------------------------------------------
// Changes
// ---------------------------------------------------------------------------
/// The state of a trajectory of which nothing is known.
pub open spec fn fresh_state(session_id: u128) -> StateView {
    rebuilt(
        StateView {
            session_id,
            generation: 0,
            revision: 0,
            availability: TrajectoryAvailability::Exact,
            records: Seq::empty(),
            older_cursor: None,
            newer_cursor: None,
            has_older: false,
            has_newer: false,
            loading_status: TrajectoryLoadingStatus::Initial,
            loading_older: false,
            error: None,
            search_query: Seq::empty(),
            search_tokens: Seq::empty(),
            index: Map::empty(),
            duration_projection: true,
            folded_turns: Set::empty(),
            show_tool_calls: true,
            selected_record_id: None,
            selected_row_index: None,
            inspector_open: false,
            selected_section: TrajectoryDetailSection::Summary,
            timeline: timeline(Seq::empty()),
            rows: Seq::empty(),
            detail_cursors: Map::empty(),
            json_tree: fresh_tree(),
            commands: Seq::empty(),
        },
    )
}

/// The state after the daemon started a trajectory afresh.
pub open spec fn generation_reset(s: StateView, generation: u64, revision: u64) -> StateView {
    rebuilt(
        StateView {
            generation,
            revision,
            records: Seq::empty(),
            older_cursor: None,
            newer_cursor: None,
            has_older: false,
            has_newer: false,
            detail_cursors: Map::empty(),
            commands: s.commands.push(TrajectoryCommand::DetailsForget),
            ..s
        },
    )
}

/// The larger of two revisions.
pub open spec fn later(a: u64, b: u64) -> u64 {
    if a > b {
        a
    } else {
        b
    }
}

/// The state after a page came in. A page of an older generation changes nothing.
pub open spec fn page_set(s: StateView, page: TrajectoryPage) -> StateView {
    if page.generation < s.generation {
        s
    } else {
        rebuilt(
            StateView {
                generation: page.generation,
                availability: page.availability,
                revision: later(s.revision, page.revision),
                records: page.rows@,
                older_cursor: page.older,
                newer_cursor: page.newer,
                has_older: page.has_older,
                has_newer: page.has_newer,
                loading_status: TrajectoryLoadingStatus::Ready,
                error: None,
                ..s
            },
        )
    }
}

/// Tells whether a record with the given id is among the records.
pub open spec fn has_record(records: Seq<TrajectoryRowSummary>, id: u128) -> bool {
    exists|i: int| 0 <= i < records.len() && #[trigger] records[i].record_id == id
}

/// The rows of `older` whose ids occur neither in `known` nor earlier in `older`.
pub open spec fn new_rows(
    older: Seq<TrajectoryRowSummary>,
    known: Seq<TrajectoryRowSummary>,
) -> Seq<TrajectoryRowSummary>
    decreases older.len(),
{
    if older.len() == 0 {
        Seq::empty()
    } else {
        let before = new_rows(older.drop_last(), known);
        let id = older.last().record_id;
        if has_record(known, id) || has_record(older.drop_last(), id) {
            before
        } else {
            before.push(older.last())
        }
    }
}

/// The state after a page of older records came in.
pub open spec fn older_prepended(
    s: StateView,
    older: Seq<TrajectoryRowSummary>,
    cursor: Option<TrajectoryCursor>,
    has_older: bool,
) -> StateView {
    rebuilt(
        StateView {
            records: sorted_rows(new_rows(older, s.records) + s.records),
            older_cursor: cursor,
            has_older,
            loading_older: false,
            ..s
        },
    )
}

/// The record that is to stay in view while rows are put before it.
pub open spec fn anchor(s: StateView) -> Option<u128> {
    match (s.selected_record_id, s.selected_row_index) {
        (Some(id), _) => Some(id),
        (None, Some(i)) => if i < s.rows.len() {
            s.rows[i as int].record_id
        } else {
            None
        },
        (None, None) => None,
    }
}

/// Where the first record with an id stands, from `i` on, or the number of records.
pub open spec fn record_position(records: Seq<TrajectoryRowSummary>, id: u128, i: int) -> int
    decreases records.len() - i,
{
    if i < 0 || i >= records.len() {
        records.len() as int
    } else if records[i].record_id == id {
        i
    } else {
        record_position(records, id, i + 1)
    }
}

/// The records with `row` in the place of the one with its id, or in order among them where there
/// was none.
pub open spec fn upserted(
    records: Seq<TrajectoryRowSummary>,
    row: TrajectoryRowSummary,
) -> Seq<TrajectoryRowSummary> {
    let at = record_position(records, row.record_id, 0);
    if at < records.len() {
        records.update(at, row)
    } else {
        sorted_rows(records.push(row))
    }
}

/// The records without those of the given id.
pub open spec fn without_record(
    records: Seq<TrajectoryRowSummary>,
    id: u128,
) -> Seq<TrajectoryRowSummary> {
    records.filter(|r: TrajectoryRowSummary| r.record_id != id)
}

/// The state after the daemon reported a change. One of an older generation changes nothing, except
/// a reset.
pub open spec fn live_updated(s: StateView, update: TrajectoryLiveUpdate) -> StateView {
    match update {
        TrajectoryLiveUpdate::Upsert { generation, revision, row } => if generation < s.generation {
            s
        } else {
            let base = if generation > s.generation {
                generation_reset(s, generation, revision)
            } else {
                s
            };
            rebuilt(
                StateView {
                    revision: later(base.revision, revision),
                    records: upserted(base.records, row),
                    ..base
                },
            )
        },
        TrajectoryLiveUpdate::Remove { generation, revision, record_id } => if generation
            < s.generation {
            s
        } else {
            rebuilt(
                StateView {
                    revision: later(s.revision, revision),
                    records: without_record(s.records, record_id),
                    ..s
                },
            )
        },
        TrajectoryLiveUpdate::Reset { generation, revision } => generation_reset(
            s,
            generation,
            revision,
        ),
    }
}

/// The words of a query, lowered.
pub open spec fn query_tokens(query: Seq<char>) -> Seq<Seq<char>> {
    Seq::new(words(query).len(), |i: int| lowered(words(query)[i]))
}

/// The state after another search was asked for.
pub open spec fn searched(s: StateView, query: Seq<char>) -> StateView {
    rows_rebuilt(StateView { search_query: query, search_tokens: query_tokens(query), ..s })
}

/// The state with durations shown where they were hidden, and the other way round.
pub open spec fn durations_flipped(s: StateView) -> StateView {
    StateView { duration_projection: !s.duration_projection, ..s }
}

/// The state with tool calls shown where they were hidden, and the other way round.
pub open spec fn tools_flipped(s: StateView) -> StateView {
    rows_rebuilt(StateView { show_tool_calls: !s.show_tool_calls, ..s })
}

/// The turns of the records.
pub open spec fn all_turns(records: Seq<TrajectoryRowSummary>) -> Set<u32> {
    Set::new(
        |t: u32| exists|i: int| 0 <= i < records.len() && #[trigger] records[i].turn_count == t,
    )
}

/// The state with every turn folded.
pub open spec fn all_folded(s: StateView) -> StateView {
    rows_rebuilt(StateView { folded_turns: all_turns(s.records), ..s })
}

/// The state with no turn folded.
pub open spec fn all_unfolded(s: StateView) -> StateView {
    rows_rebuilt(StateView { folded_turns: Set::empty(), ..s })
}

/// The state with one turn folded where it was not, and the other way round.
pub open spec fn fold_flipped(s: StateView, turn: u32) -> StateView {
    rows_rebuilt(
        StateView {
            folded_turns: if s.folded_turns.contains(turn) {
                s.folded_turns.remove(turn)
            } else {
                s.folded_turns.insert(turn)
            },
            ..s
        },
    )
}

/// The section that a record opens with, where it is known.
pub open spec fn record_section(s: StateView, id: u128) -> Option<TrajectoryDetailSection> {
    let at = record_position(s.records, id, 0);
    if at < s.records.len() {
        Some(default_section(s.records[at].kind))
    } else {
        None
    }
}

/// The section that a record opens with, or the summary.
pub open spec fn section_or_summary(s: StateView, id: u128) -> TrajectoryDetailSection {
    match record_section(s, id) {
        Some(section) => section,
        None => TrajectoryDetailSection::Summary,
    }
}

/// The commands with one that brings a row into view, where there is a row.
pub open spec fn revealing(s: StateView, row: Option<usize>) -> Seq<TrajectoryCommand> {
    match row {
        Some(i) => s.commands.push(TrajectoryCommand::ListReveal(i)),
        None => s.commands,
    }
}

/// The state after a record was selected: its row is in view and its details are open.
pub open spec fn record_selected(s: StateView, id: u128) -> StateView {
    let row = row_position(s.rows, id, 0);
    StateView {
        selected_record_id: Some(id),
        selected_row_index: row,
        commands: revealing(s, row),
        inspector_open: true,
        selected_section: section_or_summary(s, id),
        ..s
    }
}

/// The state after a row was selected: it is in view, and its record, where it has one, is the
/// selected record.
pub open spec fn row_selected(s: StateView, index: usize) -> StateView {
    if index >= s.rows.len() {
        s
    } else {
        let base = StateView {
            selected_row_index: Some(index),
            commands: revealing(s, Some(index)),
            ..s
        };
        match s.rows[index as int].record_id {
            Some(id) => StateView {
                selected_record_id: Some(id),
                selected_section: section_or_summary(s, id),
                ..base
            },
            None => base,
        }
    }
}

/// The state after the details were closed: the selected row is in view.
pub open spec fn inspector_closed(s: StateView) -> StateView {
    StateView { inspector_open: false, commands: revealing(s, s.selected_row_index), ..s }
}

// ---------------------------------------------------------------------------
// The operations
// ---------------------------------------------------------------------------
fn find_record(records: &Vec<TrajectoryRowSummary>, id: u128) -> (at: usize)
    ensures
        at == record_position(records@, id, 0),
        at <= records@.len(),
{
    let mut i: usize = 0;
    while i < records.len() && records[i].record_id != id
        invariant
            i <= records@.len(),
            record_position(records@, id, 0) == record_position(records@, id, i as int),
        decreases records@.len() - i,
    {
        i = i + 1;
    }
    i
}

fn find_row(rows: &Vec<TrajectoryLedgerRow>, id: u128) -> (at: Option<usize>)
    ensures
        at == row_position(row_views(rows@), id, 0),
        at matches Some(i) ==> i < rows@.len(),
{
    let mut i: usize = 0;
    while i < rows.len()
        invariant
            i <= rows@.len(),
            row_position(row_views(rows@), id, 0) == row_position(row_views(rows@), id, i as int),
        decreases rows@.len() - i,
    {
        assert(row_views(rows@)[i as int].record_id == rows@[i as int].record_id);
        if let Some(n) = rows[i].record_id {
            if n == id {
                return Some(i);
            }
        }
        i = i + 1;
    }
    None
}

fn select_new_rows(
    older: Vec<TrajectoryRowSummary>,
    known: &Vec<TrajectoryRowSummary>,
) -> (r: Vec<TrajectoryRowSummary>)
    ensures
        r@ == new_rows(older@, known@),
{
    let mut ids: HashSet<u128> = HashSet::new();
    for i in 0..known.len()
        invariant
            forall|id: u128| #[trigger] ids@.contains(id) <==> has_record(known@.take(i as int), id),
    {
        let ghost before = ids@;
        ids.insert(known[i].record_id);
        assert forall|id: u128| #[trigger]
            ids@.contains(id) <==> has_record(known@.take(i as int + 1), id) by {
            has_record_push(known@.take(i as int), known@[i as int], id);
            assert(known@.take(i as int + 1) =~= known@.take(i as int).push(known@[i as int]));
            assert(before.contains(id) <==> has_record(known@.take(i as int), id));
        }
    }
    assert(known@.take(known@.len() as int) =~= known@);
    let mut r: Vec<TrajectoryRowSummary> = Vec::new();
    for i in 0..older.len()
        invariant
            r@ == new_rows(older@.take(i as int), known@),
            forall|id: u128| #[trigger]
                ids@.contains(id) <==> has_record(known@, id) || has_record(
                    older@.take(i as int),
                    id,
                ),
    {
        let ghost before = ids@;
        let id: u128 = older[i].record_id;
        assert(older@.take(i as int + 1).drop_last() =~= older@.take(i as int));
        assert(before.contains(id) <==> has_record(known@, id) || has_record(
            older@.take(i as int),
            id,
        ));
        if !ids.contains(&id) {
            r.push(older[i].clone());
        }
        ids.insert(id);
        assert forall|n: u128| #[trigger]
            ids@.contains(n) <==> has_record(known@, n) || has_record(
                older@.take(i as int + 1),
                n,
            ) by {
            has_record_push(older@.take(i as int), older@[i as int], n);
            assert(older@.take(i as int + 1) =~= older@.take(i as int).push(older@[i as int]));
            assert(before.contains(n) <==> has_record(known@, n) || has_record(
                older@.take(i as int),
                n,
            ));
        }
    }
    assert(older@.take(older@.len() as int) =~= older@);
    r
}

proof fn has_record_push(s: Seq<TrajectoryRowSummary>, row: TrajectoryRowSummary, id: u128)
    ensures
        has_record(s.push(row), id) <==> has_record(s, id) || row.record_id == id,
{
    if has_record(s, id) {
        let i = choose|i: int| 0 <= i < s.len() && #[trigger] s[i].record_id == id;
        assert(s.push(row)[i].record_id == id);
    }
    if row.record_id == id {
        assert(s.push(row)[s.len() as int].record_id == id);
    }
    if has_record(s.push(row), id) && row.record_id != id {
        let i = choose|i: int| 0 <= i < s.push(row).len() && #[trigger] s.push(row)[i].record_id == id;
        assert(s[i].record_id == id);
    }
}

fn remove_record(records: &mut Vec<TrajectoryRowSummary>, id: u128)
    ensures
        final(records)@ == without_record(old(records)@, id),
{
    let ghost all = records@;
    let ghost keep = |r: TrajectoryRowSummary| r.record_id != id;
    let ghost mut done: int = 0;
    let mut i: usize = 0;
    proof {
        reveal(Seq::filter);
        assert(all.take(0).filter(keep) =~= Seq::empty());
        assert(all.skip(0) =~= all);
    }
    while i < records.len()
        invariant
            0 <= done <= all.len(),
            i <= records@.len(),
            keep == |r: TrajectoryRowSummary| r.record_id != id,
            records@.take(i as int) == all.take(done).filter(keep),
            records@.skip(i as int) == all.skip(done),
        decreases records@.len() - i,
    {
        let ghost before = records@;
        assert(records@.skip(i as int).len() == all.skip(done).len());
        assert(records@.skip(i as int)[0] == all.skip(done)[0]);
        proof {
            reveal(Seq::filter);
            assert(all.take(done + 1).drop_last() =~= all.take(done));
        }
        if records[i].record_id == id {
            let _ = records.remove(i);
            assert(records@.take(i as int) =~= before.take(i as int));
            assert(records@.skip(i as int) =~= before.skip(i as int).drop_first());
            assert(all.skip(done + 1) =~= all.skip(done).drop_first());
        } else {
            i = i + 1;
            assert(records@.take(i as int) =~= before.take(i - 1).push(before[i - 1]));
            assert(records@.skip(i as int) =~= before.skip(i - 1).drop_first());
            assert(all.skip(done + 1) =~= all.skip(done).drop_first());
        }
        proof {
            done = done + 1;
        }
    }
    assert(records@.skip(i as int).len() == 0);
    assert(all.take(done) =~= all);
    assert(records@.take(i as int) =~= records@);
}

impl TrajectorySessionState {
    /// The state of a trajectory of which nothing is known.
    pub fn new(session_id: u128) -> (r: Self)
        ensures
            r@ == fresh_state(session_id),
    {
        let mut state = TrajectorySessionState {
            session_id,
            generation: 0,
            revision: 0,
            availability: TrajectoryAvailability::Exact,
            records: Vec::new(),
            older_cursor: None,
            newer_cursor: None,
            has_older: false,
            has_newer: false,
            loading_status: TrajectoryLoadingStatus::Initial,
            loading_older: false,
            error: None,
            search_query: String::new(),
            search_tokens: Vec::new(),
            prebuilt_search_index: HashMap::new(),
            duration_projection: true,
            folded_turns: HashSet::new(),
            show_tool_calls: true,
            selected_record_id: None,
            selected_row_index: None,
            inspector_open: false,
            selected_section: TrajectoryDetailSection::Summary,
            timeline_layout: TimelineLayout::default(),
            ledger_rows: Vec::new(),
            detail_cursors: KeyMap::new(),
            json_tree_state: JsonTreeState::default(),
            commands: Vec::new(),
        };
        assert(views(state.search_tokens@) =~= Seq::empty());
        state.rebuild_all();
        assert(state@ =~= fresh_state(session_id));
        state
    }

    /// Works the search index out anew.
    pub fn rebuild_search_index(&mut self)
        ensures
            final(self)@ == (StateView { index: search_index(old(self)@.records), ..old(self)@ }),
    {
        self.prebuilt_search_index = build_search_index(self.records.as_slice());
        assert(self@ =~= (StateView { index: search_index(old(self)@.records), ..old(self)@ }));
    }

    /// Works the timeline out anew.
    pub fn rebuild_timeline_layout(&mut self)
        ensures
            final(self)@ == (StateView { timeline: timeline(old(self)@.records), ..old(self)@ }),
    {
        self.timeline_layout = compute_timeline_layout(self.records.as_slice());
        assert(self@ =~= (StateView { timeline: timeline(old(self)@.records), ..old(self)@ }));
    }

    /// Works the rows of the ledger out anew, and finds the selected row among them.
    pub fn rebuild_ledger_rows(&mut self)
        ensures
            final(self)@ == rows_rebuilt(old(self)@),
    {
        self.ledger_rows =
        build_ledger_rows(
            self.records.as_slice(),
            &self.folded_turns,
            self.show_tool_calls,
            self.search_tokens.as_slice(),
            &self.prebuilt_search_index,
        );
        let count: usize = self.ledger_rows.len();
        self.commands.push(TrajectoryCommand::ListReset(count));
        if let Some(id) = self.selected_record_id {
            self.selected_row_index = find_row(&self.ledger_rows, id);
        } else if let Some(i) = self.selected_row_index {
            if i >= count {
                self.selected_row_index =
                if count == 0 {
                    None
                } else {
                    Some(count - 1)
                };
            }
        }
        assert(self@ =~= rows_rebuilt(old(self)@));
    }

    /// Works everything that follows from the records out anew.
    pub fn rebuild_all(&mut self)
        ensures
            final(self)@ == rebuilt(old(self)@),
    {
        self.rebuild_search_index();
        self.rebuild_timeline_layout();
        self.rebuild_ledger_rows();
    }

    /// Starts the trajectory afresh.
    pub fn reset_generation(&mut self, generation: u64, revision: u64)
        ensures
            final(self)@ == generation_reset(old(self)@, generation, revision),
    {
        self.generation = generation;
        self.revision = revision;
        self.records = Vec::new();
        self.older_cursor = None;
        self.newer_cursor = None;
        self.has_older = false;
        self.has_newer = false;
        self.detail_cursors.clear();
        self.commands.push(TrajectoryCommand::DetailsForget);
        self.rebuild_all();
        assert(self@ =~= generation_reset(old(self)@, generation, revision));
    }

    /// Takes a page in. A page of an older generation changes nothing.
    pub fn set_page_response(
        &mut self,
        availability: TrajectoryAvailability,
        generation: u64,
        revision: u64,
        rows: Vec<TrajectoryRowSummary>,
        older: Option<TrajectoryCursor>,
        newer: Option<TrajectoryCursor>,
        has_older: bool,
        has_newer: bool,
    )
        ensures
            final(self)@ == page_set(
                old(self)@,
                (TrajectoryPage {
                    availability,
                    generation,
                    revision,
                    rows,
                    older,
                    newer,
                    has_older,
                    has_newer,
                }),
            ),
    {
        if generation < self.generation {
            return ;
        }
        self.generation = generation;
        self.availability = availability;
        if revision > self.revision {
            self.revision = revision;
        }
        self.records = rows;
        self.older_cursor = older;
        self.newer_cursor = newer;
        self.has_older = has_older;
        self.has_newer = has_newer;
        self.loading_status = TrajectoryLoadingStatus::Ready;
        self.error = None;
        self.rebuild_all();
        assert(self@ =~= page_set(
            old(self)@,
            TrajectoryPage {
                availability,
                generation,
                revision,
                rows,
                older,
                newer,
                has_older,
                has_newer,
            },
        ));
    }

    /// Takes a page of older records in, and says which record is to stay in view.
    pub fn prepend_older_page(
        &mut self,
        older_rows: Vec<TrajectoryRowSummary>,
        older_cursor: Option<TrajectoryCursor>,
        has_older: bool,
    ) -> (r: Option<u128>)
        ensures
            final(self)@ == older_prepended(old(self)@, older_rows@, older_cursor, has_older),
            r == anchor(old(self)@),
    {
        let anchor_id: Option<u128> = match (self.selected_record_id, self.selected_row_index) {
            (Some(id), _) => Some(id),
            (None, Some(i)) => if i < self.ledger_rows.len() {
                assert(self@.rows[i as int].record_id == self.ledger_rows@[i as int].record_id);
                self.ledger_rows[i].record_id
            } else {
                None
            },
            (None, None) => None,
        };
        let mut rows = select_new_rows(older_rows, &self.records);
        let mut known: Vec<TrajectoryRowSummary> = Vec::new();
        std::mem::swap(&mut known, &mut self.records);
        rows.append(&mut known);
        sort_rows(&mut rows);
        self.records = rows;
        self.older_cursor = older_cursor;
        self.has_older = has_older;
        self.loading_older = false;
        self.rebuild_all();
        assert(self@ =~= older_prepended(old(self)@, older_rows@, older_cursor, has_older));
        anchor_id
    }

    fn upsert(&mut self, revision: u64, row: TrajectoryRowSummary)
        ensures
            final(self)@ == rebuilt(
                StateView {
                    revision: later(old(self)@.revision, revision),
                    records: upserted(old(self)@.records, row),
                    ..old(self)@
                },
            ),
    {
        if revision > self.revision {
            self.revision = revision;
        }
        let at: usize = find_record(&self.records, row.record_id);
        if at < self.records.len() {
            self.records[at] = row;
            assert(self.records@ =~= old(self)@.records.update(at as int, row));
        } else {
            self.records.push(row);
            sort_rows(&mut self.records);
        }
        assert(self@ =~= (StateView {
            revision: later(old(self)@.revision, revision),
            records: upserted(old(self)@.records, row),
            ..old(self)@
        }));
        self.rebuild_all();
    }

    fn drop_record(&mut self, revision: u64, record_id: u128)
        ensures
            final(self)@ == rebuilt(
                StateView {
                    revision: later(old(self)@.revision, revision),
                    records: without_record(old(self)@.records, record_id),
                    ..old(self)@
                },
            ),
    {
        if revision > self.revision {
            self.revision = revision;
        }
        remove_record(&mut self.records, record_id);
        assert(self@ =~= (StateView {
            revision: later(old(self)@.revision, revision),
            records: without_record(old(self)@.records, record_id),
            ..old(self)@
        }));
        self.rebuild_all();
    }

    /// Follows a change that the daemon reports. One of an older generation changes nothing,
    /// except a reset.
    pub fn apply_live_update(&mut self, update: TrajectoryLiveUpdate)
        ensures
            final(self)@ == live_updated(old(self)@, update),
    {
        match update {
            TrajectoryLiveUpdate::Upsert { generation, revision, row } => {
                if generation < self.generation {
                    return ;
                }
                if generation > self.generation {
                    self.reset_generation(generation, revision);
                }
                self.upsert(revision, row);
            },
            TrajectoryLiveUpdate::Remove { generation, revision, record_id } => {
                if generation < self.generation {
                    return ;
                }
                self.drop_record(revision, record_id);
            },
            TrajectoryLiveUpdate::Reset { generation, revision } => {
                self.reset_generation(generation, revision);
            },
        }
    }

    /// Searches for every word of a query.
    pub fn set_search_query(&mut self, query: String)
        ensures
            final(self)@ == searched(old(self)@, query@),
    {
        let parts = split_words(query.as_str());
        let mut tokens: Vec<String> = Vec::new();
        for i in 0..parts.len()
            invariant
                views(parts@) == words(query@),
                tokens@.len() == i,
                forall|k: int|
                    0 <= k < i ==> (#[trigger] tokens@[k])@ == lowered(words(query@)[k]),
        {
            assert(parts@[i as int]@ == words(query@)[i as int]);
            tokens.push(to_lower(parts[i].as_str()));
        }
        assert(views(tokens@) =~= query_tokens(query@)) by {
            assert(views(parts@).len() == words(query@).len());
        }
        self.search_query = query;
        self.search_tokens = tokens;
        self.rebuild_ledger_rows();
        assert(self@ =~= searched(old(self)@, query@));
    }

    /// Shows durations where they are hidden, and hides them where they are shown.
    pub fn toggle_duration_projection(&mut self)
        ensures
            final(self)@ == durations_flipped(old(self)@),
    {
        self.duration_projection = !self.duration_projection;
        assert(self@ =~= durations_flipped(old(self)@));
    }

    /// Shows tool calls where they are hidden, and hides them where they are shown.
    pub fn toggle_tool_calls(&mut self)
        ensures
            final(self)@ == tools_flipped(old(self)@),
    {
        self.show_tool_calls = !self.show_tool_calls;
        self.rebuild_ledger_rows();
        assert(self@ =~= tools_flipped(old(self)@));
    }

    /// Folds every turn.
    pub fn fold_all_turns(&mut self)
        ensures
            final(self)@ == all_folded(old(self)@),
    {
        let mut turns: HashSet<u32> = HashSet::new();
        for i in 0..self.records.len()
            invariant
                self@ == old(self)@,
                forall|t: u32| #[trigger]
                    turns@.contains(t) <==> exists|k: int|
                        0 <= k < i && #[trigger] self.records@[k].turn_count == t,
        {
            let ghost before = turns@;
            turns.insert(self.records[i].turn_count);
            assert forall|t: u32| #[trigger]
                turns@.contains(t) <==> exists|k: int|
                    0 <= k < i + 1 && #[trigger] self.records@[k].turn_count == t by {
                assert(before.contains(t) <==> exists|k: int|
                    0 <= k < i && #[trigger] self.records@[k].turn_count == t);
                assert(self.records@[i as int].turn_count == t ==> turns@.contains(t));
            }
        }
        assert(turns@ =~= all_turns(old(self)@.records));
        self.folded_turns = turns;
        self.rebuild_ledger_rows();
        assert(self@ =~= all_folded(old(self)@));
    }

    /// Unfolds every turn.
    pub fn unfold_all_turns(&mut self)
        ensures
            final(self)@ == all_unfolded(old(self)@),
    {
        self.folded_turns.clear();
        self.rebuild_ledger_rows();
        assert(self@ =~= all_unfolded(old(self)@));
    }

    /// Folds a turn that is not folded, and unfolds one that is.
    pub fn toggle_turn_fold(&mut self, turn_count: u32)
        ensures
            final(self)@ == fold_flipped(old(self)@, turn_count),
    {
        if !self.folded_turns.remove(&turn_count) {
            self.folded_turns.insert(turn_count);
            assert(self.folded_turns@ =~= old(self)@.folded_turns.insert(turn_count));
        }
        self.rebuild_ledger_rows();
        assert(self@ =~= fold_flipped(old(self)@, turn_count));
    }

    /// Selects a record, brings its row into view and opens its details.
    pub fn select_record(&mut self, record_id: u128)
        ensures
            final(self)@ == record_selected(old(self)@, record_id),
    {
        self.selected_record_id = Some(record_id);
        self.selected_row_index = find_row(&self.ledger_rows, record_id);
        if let Some(i) = self.selected_row_index {
            self.commands.push(TrajectoryCommand::ListReveal(i));
        }
        self.inspector_open = true;
        self.selected_section =
        match self.default_section_for_record(record_id) {
            Some(section) => section,
            None => TrajectoryDetailSection::Summary,
        };
        assert(self@ =~= record_selected(old(self)@, record_id));
    }

    /// Selects a row and brings it into view. Where it stands for a record, that is selected too.
    pub fn select_row_at_index(&mut self, index: usize)
        ensures
            final(self)@ == row_selected(old(self)@, index),
    {
        if index < self.ledger_rows.len() {
            self.selected_row_index = Some(index);
            self.commands.push(TrajectoryCommand::ListReveal(index));
            assert(old(self)@.rows[index as int].record_id
                == self.ledger_rows@[index as int].record_id);
            if let Some(record_id) = self.ledger_rows[index].record_id {
                self.selected_record_id = Some(record_id);
                self.selected_section =
                match self.default_section_for_record(record_id) {
                    Some(section) => section,
                    None => TrajectoryDetailSection::Summary,
                };
            }
        }
        assert(self@ =~= row_selected(old(self)@, index));
    }

    /// Closes the details and brings the selected row into view.
    pub fn close_inspector(&mut self)
        ensures
            final(self)@ == inspector_closed(old(self)@),
    {
        self.inspector_open = false;
        if let Some(i) = self.selected_row_index {
            self.commands.push(TrajectoryCommand::ListReveal(i));
        }
        assert(self@ =~= inspector_closed(old(self)@));
    }

    /// The section that a record opens with, where it is known.
    pub fn default_section_for_record(&self, record_id: u128) -> (r: Option<
        TrajectoryDetailSection,
    >)
        ensures
            r == record_section(self@, record_id),
    {
        let at: usize = find_record(&self.records, record_id);
        if at < self.records.len() {
            Some(default_section_for_kind(self.records[at].kind))
        } else {
            None
        }
    }

    /// The sections that a record offers. An unknown record offers the summary.
    pub fn allowed_sections_for_record(&self, record_id: u128) -> (r: Vec<TrajectoryDetailSection>)
        ensures
            r@ == ({
                let at = record_position(self@.records, record_id, 0);
                if at < self@.records.len() {
                    allowed_sections(self@.records[at].kind)
                } else {
                    seq![TrajectoryDetailSection::Summary]
                }
            }),
    {
        let at: usize = find_record(&self.records, record_id);
        if at < self.records.len() {
            allowed_sections_for_kind(self.records[at].kind)
        } else {
            vec![TrajectoryDetailSection::Summary]
        }
    }
}

} // verus!
