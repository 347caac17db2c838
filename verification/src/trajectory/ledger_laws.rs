//! What holds of every ledger.
use crate::trajectory::ledger::{
    child_rows, children_end, children_rows, divider, ledger, own_rows, request_rows, rows_from,
    rows_of_turns, turn_order, turn_records, turn_rows, LedgerFilter, LedgerRowView,
    TrajectoryLedgerRowKind,
};
use crate::trajectory::record::{TrajectoryKind, TrajectoryRowSummary};
use crate::trajectory::search::search_matches;
use vstd::prelude::*;

verus! {

/// The turns of a ledger are those of its records, each once.
pub proof fn turn_order_lists_each_turn_once(records: Seq<TrajectoryRowSummary>, turn: u32)
    ensures
        turn_order(records).no_duplicates(),
        turn_order(records).contains(turn) <==> exists|i: int|
            0 <= i < records.len() && #[trigger] records[i].turn_count == turn,
    decreases records.len(),
{
    if records.len() > 0 {
        let last = records.last().turn_count;
        let before = turn_order(records.drop_last());
        turn_order_lists_each_turn_once(records.drop_last(), turn);
        assert(records[records.len() - 1].turn_count == last);
        if before.contains(turn) {
            let i = choose|i: int|
                0 <= i < records.drop_last().len() && #[trigger] records.drop_last()[i].turn_count
                    == turn;
            assert(records[i].turn_count == turn);
            assert(before.push(last)[before.index_of(turn)] == turn);
        }
        if turn == last {
            assert(before.push(last)[before.len() as int] == turn);
        }
        if turn_order(records).contains(turn) && turn != last && !before.contains(last) {
            let k = turn_order(records).index_of(turn);
            assert(before[k] == turn);
        }
        if exists|i: int| 0 <= i < records.len() && #[trigger] records[i].turn_count == turn {
            let i = choose|i: int|
                0 <= i < records.len() && #[trigger] records[i].turn_count == turn;
            if i < records.len() - 1 {
                assert(records.drop_last()[i].turn_count == turn);
            }
        }
    }
}

/// With every turn folded the ledger is its dividers, one for each turn.
pub proof fn folded_ledger_is_its_dividers(f: LedgerFilter, records: Seq<TrajectoryRowSummary>)
    requires
        forall|i: int|
            0 <= i < records.len() ==> f.folded.contains((#[trigger] records[i]).turn_count),
    ensures
        ledger(f, records) == Seq::new(
            turn_order(records).len(),
            |i: int|
                divider(f, turn_order(records)[i], turn_records(records, turn_order(records)[i])),
        ),
{
    folded_turns_are_their_dividers(f, records, turn_order(records).len());
}

proof fn folded_turns_are_their_dividers(
    f: LedgerFilter,
    records: Seq<TrajectoryRowSummary>,
    n: nat,
)
    requires
        n <= turn_order(records).len(),
        forall|i: int|
            0 <= i < records.len() ==> f.folded.contains((#[trigger] records[i]).turn_count),
    ensures
        rows_of_turns(f, records, n) == Seq::new(
            n,
            |i: int|
                divider(f, turn_order(records)[i], turn_records(records, turn_order(records)[i])),
        ),
    decreases n,
{
    if n > 0 {
        folded_turns_are_their_dividers(f, records, (n - 1) as nat);
        let turn = turn_order(records)[n - 1];
        turn_order_lists_each_turn_once(records, turn);
        assert(turn_order(records).contains(turn));
        assert(f.folded.contains(turn));
    }
    assert(rows_of_turns(f, records, n) =~= Seq::new(
        n,
        |i: int|
            divider(f, turn_order(records)[i], turn_records(records, turn_order(records)[i])),
    ));
}

/// Tells whether a row stands for a tool call, or for a step of nothing but tool calls.
pub open spec fn is_tool_row(row: LedgerRowView) -> bool {
    row.kind is Tool || row.kind is ToolOnlyPlaceholder
}

/// The rows that do not stand for tool calls.
pub open spec fn without_tools(rows: Seq<LedgerRowView>) -> Seq<LedgerRowView> {
    rows.filter(|row: LedgerRowView| !is_tool_row(row))
}

/// The filter with tool calls shown, or hidden.
pub open spec fn with_tools(f: LedgerFilter, show: bool) -> LedgerFilter {
    LedgerFilter { show_tool_calls: show, ..f }
}

proof fn without_tools_adds(a: Seq<LedgerRowView>, b: Seq<LedgerRowView>)
    ensures
        without_tools(a + b) == without_tools(a) + without_tools(b),
{
    Seq::filter_distributes_over_add(a, b, |row: LedgerRowView| !is_tool_row(row));
}

proof fn without_tools_one(row: LedgerRowView)
    ensures
        without_tools(seq![row]) == (if is_tool_row(row) {
            Seq::empty()
        } else {
            seq![row]
        }),
        without_tools(Seq::empty()) == Seq::<LedgerRowView>::empty(),
{
    reveal(Seq::filter);
    assert(seq![row].drop_last() =~= Seq::<LedgerRowView>::empty());
    assert(Seq::<LedgerRowView>::empty().filter(|row: LedgerRowView| !is_tool_row(row))
        =~= Seq::<LedgerRowView>::empty());
    assert(without_tools(seq![row]) =~= (if is_tool_row(row) {
        Seq::empty()
    } else {
        seq![row]
    }));
}

proof fn hidden_children(f: LedgerFilter, children: Seq<TrajectoryRowSummary>)
    ensures
        children_rows(with_tools(f, false), children) == without_tools(
            children_rows(with_tools(f, true), children),
        ),
    decreases children.len(),
{
    without_tools_one(arbitrary());
    if children.len() > 0 {
        hidden_children(f, children.drop_last());
        let shown = child_rows(with_tools(f, true), children.last());
        without_tools_adds(children_rows(with_tools(f, true), children.drop_last()), shown);
        if shown.len() > 0 {
            assert(shown =~= seq![shown[0]]);
            without_tools_one(shown[0]);
        }
    }
}

proof fn hidden_from(f: LedgerFilter, turn: Seq<TrajectoryRowSummary>, i: int)
    requires
        0 <= i,
    ensures
        rows_from(with_tools(f, false), turn, i) == without_tools(
            rows_from(with_tools(f, true), turn, i),
        ),
    decreases turn.len() - i,
{
    let shown = with_tools(f, true);
    let hidden = with_tools(f, false);
    without_tools_one(arbitrary());
    if i < turn.len() {
        if turn[i].kind == TrajectoryKind::Request {
            let end = children_end(turn, i + 1, turn[i].record_id);
            if i < end <= turn.len() {
                let children = turn.subrange(i + 1, end);
                let all = request_rows(shown, turn[i], children);
                let kids = children_rows(shown, children);
                hidden_from(f, turn, end);
                hidden_children(f, children);
                without_tools_adds(all, rows_from(shown, turn, end));
                let before = all.take(all.len() - kids.len());
                assert(all =~= before + kids);
                without_tools_adds(before, kids);
                if before.len() == 1 {
                    assert(before =~= seq![before[0]]);
                    without_tools_one(before[0]);
                } else if before.len() == 2 {
                    assert(before =~= seq![before[0]] + seq![before[1]]);
                    without_tools_adds(seq![before[0]], seq![before[1]]);
                    without_tools_one(before[0]);
                    without_tools_one(before[1]);
                } else {
                    assert(before =~= Seq::empty());
                }
                assert(without_tools(all) =~= request_rows(hidden, turn[i], children));
            }
        } else {
            let own = own_rows(shown, turn[i]);
            hidden_from(f, turn, i + 1);
            without_tools_adds(own, rows_from(shown, turn, i + 1));
            if own.len() > 0 {
                assert(own =~= seq![own[0]]);
                without_tools_one(own[0]);
            }
            assert(without_tools(own) =~= own_rows(hidden, turn[i]));
        }
    }
}

proof fn hidden_turns(f: LedgerFilter, records: Seq<TrajectoryRowSummary>, n: nat)
    ensures
        rows_of_turns(with_tools(f, false), records, n) == without_tools(
            rows_of_turns(with_tools(f, true), records, n),
        ),
    decreases n,
{
    let shown = with_tools(f, true);
    let hidden = with_tools(f, false);
    without_tools_one(arbitrary());
    if n > 0 {
        let turn = turn_order(records)[n - 1];
        let group = turn_records(records, turn);
        hidden_turns(f, records, (n - 1) as nat);
        hidden_from(f, group, 0);
        without_tools_adds(
            rows_of_turns(shown, records, (n - 1) as nat),
            turn_rows(shown, turn, group),
        );
        let rest = if f.folded.contains(turn) {
            Seq::empty()
        } else {
            rows_from(shown, group, 0)
        };
        without_tools_adds(seq![divider(shown, turn, group)], rest);
        without_tools_one(divider(shown, turn, group));
        assert(divider(shown, turn, group) == divider(hidden, turn, group));
    }
}

/// Hiding tool calls takes the rows of tool calls out of the ledger and leaves the
/// others as they are, in their order.
pub proof fn hiding_tool_calls_takes_out_tool_rows(
    f: LedgerFilter,
    records: Seq<TrajectoryRowSummary>,
)
    ensures
        ledger(with_tools(f, false), records) == without_tools(
            ledger(with_tools(f, true), records),
        ),
{
    hidden_turns(f, records, turn_order(records).len());
}

/// Tells whether a row is right to be in the ledger: it stands for a record of the list that
/// the search finds, for a step of tool calls while nothing is searched for, or for a turn.
pub open spec fn row_belongs(
    f: LedgerFilter,
    records: Seq<TrajectoryRowSummary>,
    row: LedgerRowView,
) -> bool {
    match row.record_id {
        Some(id) => (exists|i: int| 0 <= i < records.len() && #[trigger] records[i].record_id == id)
            && (if row.kind is ToolOnlyPlaceholder {
            f.tokens.len() == 0
        } else {
            search_matches(id, f.tokens, f.index)
        }),
        None => row.kind is TurnDivider,
    }
}

/// Tells whether every row is right to be in the ledger.
pub open spec fn all_belong(
    f: LedgerFilter,
    records: Seq<TrajectoryRowSummary>,
    rows: Seq<LedgerRowView>,
) -> bool {
    forall|k: int| 0 <= k < rows.len() ==> row_belongs(f, records, #[trigger] rows[k])
}

proof fn belong_adds(
    f: LedgerFilter,
    records: Seq<TrajectoryRowSummary>,
    a: Seq<LedgerRowView>,
    b: Seq<LedgerRowView>,
)
    requires
        all_belong(f, records, a),
        all_belong(f, records, b),
    ensures
        all_belong(f, records, a + b),
{
    assert forall|k: int| 0 <= k < (a + b).len() implies row_belongs(
        f,
        records,
        #[trigger] (a + b)[k],
    ) by {
        if k < a.len() {
            assert((a + b)[k] == a[k]);
        } else {
            assert((a + b)[k] == b[k - a.len()]);
        }
    }
}

/// Tells whether every record of `part` is one of `records`.
pub open spec fn part_of(
    part: Seq<TrajectoryRowSummary>,
    records: Seq<TrajectoryRowSummary>,
) -> bool {
    forall|i: int| 0 <= i < part.len() ==> records.contains(#[trigger] part[i])
}

proof fn children_belong(
    f: LedgerFilter,
    records: Seq<TrajectoryRowSummary>,
    children: Seq<TrajectoryRowSummary>,
)
    requires
        part_of(children, records),
    ensures
        all_belong(f, records, children_rows(f, children)),
    decreases children.len(),
{
    if children.len() > 0 {
        let last = children.last();
        assert(children[children.len() - 1] == last);
        assert(records.contains(last));
        assert(records[records.index_of(last)].record_id == last.record_id);
        assert forall|i: int| 0 <= i < children.drop_last().len() implies records.contains(
            #[trigger] children.drop_last()[i],
        ) by {
            assert(children[i] == children.drop_last()[i]);
        }
        children_belong(f, records, children.drop_last());
        belong_adds(f, records, children_rows(f, children.drop_last()), child_rows(f, last));
    }
}

proof fn from_belong(
    f: LedgerFilter,
    records: Seq<TrajectoryRowSummary>,
    turn: Seq<TrajectoryRowSummary>,
    i: int,
)
    requires
        0 <= i,
        part_of(turn, records),
    ensures
        all_belong(f, records, rows_from(f, turn, i)),
    decreases turn.len() - i,
{
    if i < turn.len() {
        let r = turn[i];
        assert(records.contains(r));
        assert(records[records.index_of(r)].record_id == r.record_id);
        if r.kind == TrajectoryKind::Request {
            let end = children_end(turn, i + 1, r.record_id);
            if i < end <= turn.len() {
                let children = turn.subrange(i + 1, end);
                assert forall|k: int| 0 <= k < children.len() implies records.contains(
                    #[trigger] children[k],
                ) by {
                    assert(turn[i + 1 + k] == children[k]);
                }
                let kids = children_rows(f, children);
                children_belong(f, records, children);
                from_belong(f, records, turn, end);
                let all = request_rows(f, r, children);
                let before = all.take(all.len() - kids.len());
                assert(all =~= before + kids);
                assert(all_belong(f, records, before));
                belong_adds(f, records, before, kids);
                belong_adds(f, records, all, rows_from(f, turn, end));
            }
        } else {
            from_belong(f, records, turn, i + 1);
            belong_adds(f, records, own_rows(f, r), rows_from(f, turn, i + 1));
        }
    }
}

proof fn turns_belong(f: LedgerFilter, records: Seq<TrajectoryRowSummary>, n: nat)
    ensures
        all_belong(f, records, rows_of_turns(f, records, n)),
    decreases n,
{
    if n > 0 {
        let turn = turn_order(records)[n - 1];
        let group = turn_records(records, turn);
        turns_belong(f, records, (n - 1) as nat);
        assert forall|i: int| 0 <= i < group.len() implies records.contains(
            #[trigger] group[i],
        ) by {
            assert(group.contains(group[i]));
            records.lemma_filter_contains_rev(
                |r: TrajectoryRowSummary| r.turn_count == turn,
                group[i],
            );
        }
        from_belong(f, records, group, 0);
        let rest = if f.folded.contains(turn) {
            Seq::empty()
        } else {
            rows_from(f, group, 0)
        };
        belong_adds(f, records, seq![divider(f, turn, group)], rest);
        belong_adds(
            f,
            records,
            rows_of_turns(f, records, (n - 1) as nat),
            turn_rows(f, turn, group),
        );
    }
}

/// Every row of a ledger stands for a record of the list that the search finds, for a step of
/// nothing but tool calls while nothing is searched for, or for a turn.
pub proof fn every_row_belongs(f: LedgerFilter, records: Seq<TrajectoryRowSummary>)
    ensures
        all_belong(f, records, ledger(f, records)),
{
    turns_belong(f, records, turn_order(records).len());
}

// ---------------------------------------------------------------------------
// Searching
// ---------------------------------------------------------------------------
/// The filter without a search.
pub open spec fn without_search(f: LedgerFilter) -> LedgerFilter {
    LedgerFilter { tokens: Seq::empty(), ..f }
}

/// Tells whether a search leaves a row in the ledger: dividers stay, a step of nothing but tool calls
/// does not, and the row of a record stays where the search finds the record.
pub open spec fn search_leaves(f: LedgerFilter, row: LedgerRowView) -> bool {
    if row.kind is TurnDivider {
        true
    } else if row.kind is ToolOnlyPlaceholder {
        f.tokens.len() == 0
    } else {
        search_matches(row.record_id->0, f.tokens, f.index)
    }
}

/// What a search leaves in the ledger.
pub open spec fn left_by(f: LedgerFilter) -> spec_fn(LedgerRowView) -> bool {
    |row: LedgerRowView| search_leaves(f, row)
}

proof fn filter_short(p: spec_fn(LedgerRowView) -> bool, s: Seq<LedgerRowView>)
    requires
        s.len() <= 1,
    ensures
        s.filter(p) == (if s.len() == 1 && !p(s[0]) {
            Seq::empty()
        } else {
            s
        }),
{
    reveal(Seq::filter);
    if s.len() == 1 {
        assert(s.drop_last() =~= Seq::empty());
        assert(s.drop_last().filter(p) =~= Seq::empty());
    }
    assert(s.filter(p) =~= (if s.len() == 1 && !p(s[0]) {
        Seq::empty()
    } else {
        s
    }));
}

proof fn filter_adds(
    p: spec_fn(LedgerRowView) -> bool,
    a: Seq<LedgerRowView>,
    b: Seq<LedgerRowView>,
)
    ensures
        (a + b).filter(p) == a.filter(p) + b.filter(p),
{
    Seq::filter_distributes_over_add(a, b, p);
}

proof fn searched_children(f: LedgerFilter, children: Seq<TrajectoryRowSummary>)
    ensures
        children_rows(f, children) == children_rows(without_search(f), children).filter(left_by(f)),
    decreases children.len(),
{
    let all = without_search(f);
    let p = left_by(f);
    if children.len() == 0 {
        filter_short(p, children_rows(all, children));
    } else {
        let last = children.last();
        searched_children(f, children.drop_last());
        filter_adds(p, children_rows(all, children.drop_last()), child_rows(all, last));
        filter_short(p, child_rows(all, last));
        assert(child_rows(f, last) =~= child_rows(all, last).filter(p));
    }
}

proof fn searched_request(
    f: LedgerFilter,
    r: TrajectoryRowSummary,
    children: Seq<TrajectoryRowSummary>,
)
    ensures
        request_rows(f, r, children) == request_rows(without_search(f), r, children).filter(
            left_by(f),
        ),
{
    let all = without_search(f);
    let p = left_by(f);
    let rows = request_rows(all, r, children);
    let kids = children_rows(all, children);
    let head = rows.take(1);
    let middle = rows.subrange(1, rows.len() - kids.len());
    searched_children(f, children);
    assert(rows =~= head + middle + kids);
    filter_adds(p, head + middle, kids);
    filter_adds(p, head, middle);
    filter_short(p, head);
    filter_short(p, middle);
    assert(request_rows(f, r, children) =~= rows.filter(p));
}

proof fn searched_from(f: LedgerFilter, turn: Seq<TrajectoryRowSummary>, i: int)
    requires
        0 <= i,
    ensures
        rows_from(f, turn, i) == rows_from(without_search(f), turn, i).filter(left_by(f)),
    decreases turn.len() - i,
{
    let all = without_search(f);
    let p = left_by(f);
    filter_short(p, Seq::empty());
    if i < turn.len() {
        if turn[i].kind == TrajectoryKind::Request {
            let end = children_end(turn, i + 1, turn[i].record_id);
            if i < end <= turn.len() {
                let children = turn.subrange(i + 1, end);
                searched_request(f, turn[i], children);
                searched_from(f, turn, end);
                filter_adds(p, request_rows(all, turn[i], children), rows_from(all, turn, end));
            }
        } else {
            searched_from(f, turn, i + 1);
            filter_adds(p, own_rows(all, turn[i]), rows_from(all, turn, i + 1));
            filter_short(p, own_rows(all, turn[i]));
            assert(own_rows(f, turn[i]) =~= own_rows(all, turn[i]).filter(p));
        }
    }
}

proof fn searched_turns(f: LedgerFilter, records: Seq<TrajectoryRowSummary>, n: nat)
    ensures
        rows_of_turns(f, records, n) == rows_of_turns(without_search(f), records, n).filter(
            left_by(f),
        ),
    decreases n,
{
    let all = without_search(f);
    let p = left_by(f);
    filter_short(p, Seq::empty());
    if n > 0 {
        let turn = turn_order(records)[n - 1];
        let group = turn_records(records, turn);
        let head = seq![divider(all, turn, group)];
        let rest = if f.folded.contains(turn) {
            Seq::empty()
        } else {
            rows_from(all, group, 0)
        };
        searched_turns(f, records, (n - 1) as nat);
        searched_from(f, group, 0);
        filter_adds(p, rows_of_turns(all, records, (n - 1) as nat), head + rest);
        filter_adds(p, head, rest);
        filter_short(p, head);
        assert(divider(f, turn, group) == divider(all, turn, group));
    }
}

/// A search takes rows out of the ledger and leaves the others as they are, in their order: the rows of
/// the records that it finds, and the dividers.
pub proof fn searching_filters_the_ledger(f: LedgerFilter, records: Seq<TrajectoryRowSummary>)
    ensures
        ledger(f, records) == ledger(without_search(f), records).filter(left_by(f)),
{
    searched_turns(f, records, turn_order(records).len());
}

// ---------------------------------------------------------------------------
// Folding
// ---------------------------------------------------------------------------
/// The turn that a row belongs to.
pub open spec fn row_turn(row: LedgerRowView) -> u32 {
    match row.kind {
        TrajectoryLedgerRowKind::System { record } => record.turn_count,
        TrajectoryLedgerRowKind::TurnDivider { turn_count, .. } => turn_count,
        TrajectoryLedgerRowKind::StepRequest { record, .. } => record.turn_count,
        TrajectoryLedgerRowKind::Assistant { record } => record.turn_count,
        TrajectoryLedgerRowKind::Tool { record } => record.turn_count,
        TrajectoryLedgerRowKind::Context { record } => record.turn_count,
        TrajectoryLedgerRowKind::ToolOnlyPlaceholder { turn_count, .. } => turn_count,
    }
}

/// The rows of the other turns.
pub open spec fn of_others(turn: u32) -> spec_fn(LedgerRowView) -> bool {
    |row: LedgerRowView| row_turn(row) != turn
}

/// Tells whether every row belongs to a turn.
pub open spec fn all_of_turn(rows: Seq<LedgerRowView>, turn: u32) -> bool {
    forall|k: int| 0 <= k < rows.len() ==> row_turn(#[trigger] rows[k]) == turn
}

proof fn of_turn_adds(a: Seq<LedgerRowView>, b: Seq<LedgerRowView>, turn: u32)
    requires
        all_of_turn(a, turn),
        all_of_turn(b, turn),
    ensures
        all_of_turn(a + b, turn),
{
    assert forall|k: int| 0 <= k < (a + b).len() implies row_turn(#[trigger] (a + b)[k]) == turn by {
        if k < a.len() {
            assert((a + b)[k] == a[k]);
        } else {
            assert((a + b)[k] == b[k - a.len()]);
        }
    }
}

/// Tells whether every record belongs to a turn.
pub open spec fn records_of_turn(part: Seq<TrajectoryRowSummary>, turn: u32) -> bool {
    forall|i: int| 0 <= i < part.len() ==> (#[trigger] part[i]).turn_count == turn
}

proof fn children_of_turn(f: LedgerFilter, children: Seq<TrajectoryRowSummary>, turn: u32)
    requires
        records_of_turn(children, turn),
    ensures
        all_of_turn(children_rows(f, children), turn),
    decreases children.len(),
{
    if children.len() > 0 {
        assert(children[children.len() - 1].turn_count == turn);
        assert(records_of_turn(children.drop_last(), turn)) by {
            assert forall|i: int| 0 <= i < children.drop_last().len() implies (
            #[trigger] children.drop_last()[i]).turn_count == turn by {
                assert(children[i].turn_count == turn);
            }
        }
        children_of_turn(f, children.drop_last(), turn);
        of_turn_adds(
            children_rows(f, children.drop_last()),
            child_rows(f, children.last()),
            turn,
        );
    }
}

proof fn from_of_turn(f: LedgerFilter, part: Seq<TrajectoryRowSummary>, i: int, turn: u32)
    requires
        0 <= i,
        records_of_turn(part, turn),
    ensures
        all_of_turn(rows_from(f, part, i), turn),
    decreases part.len() - i,
{
    if i < part.len() {
        let r = part[i];
        if r.kind == TrajectoryKind::Request {
            let end = children_end(part, i + 1, r.record_id);
            if i < end <= part.len() {
                let children = part.subrange(i + 1, end);
                assert forall|k: int| 0 <= k < children.len() implies (
                #[trigger] children[k]).turn_count == turn by {
                    assert(part[i + 1 + k].turn_count == turn);
                }
                let kids = children_rows(f, children);
                let all = request_rows(f, r, children);
                let before = all.take(all.len() - kids.len());
                children_of_turn(f, children, turn);
                from_of_turn(f, part, end, turn);
                assert(all =~= before + kids);
                assert(all_of_turn(before, turn));
                of_turn_adds(before, kids, turn);
                of_turn_adds(all, rows_from(f, part, end), turn);
            }
        } else {
            from_of_turn(f, part, i + 1, turn);
            of_turn_adds(own_rows(f, r), rows_from(f, part, i + 1), turn);
        }
    }
}

/// The rows of a turn belong to it.
pub proof fn rows_are_of_their_turn(f: LedgerFilter, records: Seq<TrajectoryRowSummary>, turn: u32)
    ensures
        records_of_turn(turn_records(records, turn), turn),
        all_of_turn(turn_rows(f, turn, turn_records(records, turn)), turn),
{
    let group = turn_records(records, turn);
    assert forall|i: int| 0 <= i < group.len() implies (#[trigger] group[i]).turn_count == turn by {
        assert(group.contains(group[i]));
        records.lemma_filter_contains_rev(|r: TrajectoryRowSummary| r.turn_count == turn, group[i]);
        broadcast use vstd::seq_lib::group_filter_ensures;

    }
    from_of_turn(f, group, 0, turn);
    let rest = if f.folded.contains(turn) {
        Seq::empty()
    } else {
        rows_from(f, group, 0)
    };
    of_turn_adds(seq![divider(f, turn, group)], rest, turn);
}

proof fn filter_none(p: spec_fn(LedgerRowView) -> bool, s: Seq<LedgerRowView>)
    requires
        forall|k: int| 0 <= k < s.len() ==> !p(#[trigger] s[k]),
    ensures
        s.filter(p) == Seq::<LedgerRowView>::empty(),
    decreases s.len(),
{
    reveal(Seq::filter);
    if s.len() > 0 {
        assert(!p(s[s.len() - 1]));
        assert forall|k: int| 0 <= k < s.drop_last().len() implies !p(
            #[trigger] s.drop_last()[k],
        ) by {
            assert(!p(s[k]));
        }
        filter_none(p, s.drop_last());
    }
    assert(s.filter(p) =~= Seq::<LedgerRowView>::empty());
}

/// The filter with other turns folded.
pub open spec fn with_folded(f: LedgerFilter, folded: Set<u32>) -> LedgerFilter {
    LedgerFilter { folded, ..f }
}

proof fn children_ignore_folding(
    f: LedgerFilter,
    folded: Set<u32>,
    children: Seq<TrajectoryRowSummary>,
)
    ensures
        children_rows(with_folded(f, folded), children) == children_rows(f, children),
    decreases children.len(),
{
    if children.len() > 0 {
        children_ignore_folding(f, folded, children.drop_last());
    }
}

proof fn from_ignores_folding(
    f: LedgerFilter,
    folded: Set<u32>,
    turn: Seq<TrajectoryRowSummary>,
    i: int,
)
    requires
        0 <= i,
    ensures
        rows_from(with_folded(f, folded), turn, i) == rows_from(f, turn, i),
    decreases turn.len() - i,
{
    if i < turn.len() {
        if turn[i].kind == TrajectoryKind::Request {
            let end = children_end(turn, i + 1, turn[i].record_id);
            if i < end <= turn.len() {
                children_ignore_folding(f, folded, turn.subrange(i + 1, end));
                from_ignores_folding(f, folded, turn, end);
            }
        } else {
            from_ignores_folding(f, folded, turn, i + 1);
        }
    }
}

proof fn own_turn_goes(rows: Seq<LedgerRowView>, turn: u32)
    requires
        all_of_turn(rows, turn),
    ensures
        rows.filter(of_others(turn)) == Seq::<LedgerRowView>::empty(),
{
    filter_none(of_others(turn), rows);
}

proof fn other_turn_stays(
    f: LedgerFilter,
    folded: Set<u32>,
    t: u32,
    group: Seq<TrajectoryRowSummary>,
)
    requires
        folded.contains(t) <==> f.folded.contains(t),
    ensures
        turn_rows(with_folded(f, folded), t, group) == turn_rows(f, t, group),
{
    from_ignores_folding(f, folded, group, 0);
    assert(divider(f, t, group) == divider(with_folded(f, folded), t, group));
}

proof fn other_turns_stay(
    f: LedgerFilter,
    folded: Set<u32>,
    turn: u32,
    records: Seq<TrajectoryRowSummary>,
    n: nat,
)
    requires
        forall|t: u32| t != turn ==> (folded.contains(t) <==> f.folded.contains(t)),
    ensures
        rows_of_turns(with_folded(f, folded), records, n).filter(of_others(turn)) == rows_of_turns(
            f,
            records,
            n,
        ).filter(of_others(turn)),
    decreases n,
{
    if n > 0 {
        let g = with_folded(f, folded);
        let p = of_others(turn);
        let t = turn_order(records)[n - 1];
        let group = turn_records(records, t);
        other_turns_stay(f, folded, turn, records, (n - 1) as nat);
        filter_adds(p, rows_of_turns(f, records, (n - 1) as nat), turn_rows(f, t, group));
        filter_adds(p, rows_of_turns(g, records, (n - 1) as nat), turn_rows(g, t, group));
        if t == turn {
            rows_are_of_their_turn(f, records, t);
            rows_are_of_their_turn(g, records, t);
            own_turn_goes(turn_rows(f, t, group), turn);
            own_turn_goes(turn_rows(g, t, group), turn);
        } else {
            other_turn_stays(f, folded, t, group);
        }
    }
}

/// Folding or unfolding a turn leaves the rows of all other turns as they are, in their order.
pub proof fn folding_one_turn_leaves_the_others(
    f: LedgerFilter,
    folded: Set<u32>,
    turn: u32,
    records: Seq<TrajectoryRowSummary>,
)
    requires
        forall|t: u32| t != turn ==> (folded.contains(t) <==> f.folded.contains(t)),
    ensures
        ledger(with_folded(f, folded), records).filter(of_others(turn)) == ledger(f, records).filter(
            of_others(turn),
        ),
{
    other_turns_stay(f, folded, turn, records, turn_order(records).len());
}

} // verus!
