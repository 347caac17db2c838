//! What the rows of a ledger promise: every turn stands under its divider, every record in its place, and the
//! answers and tool calls of a request under the request.
use crate::text::views;
use crate::trajectory::ledger::{
    build_ledger_rows, child_rows, children_end, children_rows, divider, found, has_kind, is_child,
    ledger, ledger_filter, own_rows, request_rows, row_views, rows_from, rows_of_turns,
    saturating_add, total_duration, turn_order, turn_records, turn_rows, LedgerFilter, LedgerRowView,
    TrajectoryLedgerRow, TrajectoryLedgerRowKind,
};
use crate::trajectory::record::{TrajectoryKind, TrajectoryRowSummary};
use crate::trajectory::search::{index_view, matches_and_search};
use std::collections::HashMap;
use std::collections::HashSet;
use vstd::prelude::*;

verus! {

broadcast use vstd::std_specs::hash::group_hash_axioms;

// ---------------------------------------------------------------------------
// One turn
// ---------------------------------------------------------------------------
/// Tells whether a record is an answer to a request, or what came of it: it names the request.
pub open spec fn names(r: TrajectoryRowSummary, request: TrajectoryRowSummary) -> bool {
    &&& request.kind == TrajectoryKind::Request
    &&& r.kind != TrajectoryKind::Request
    &&& r.kind != TrajectoryKind::System
    &&& r.parent_record_id == Some(request.record_id) || r.request_id == Some(request.record_id)
}

/// Tells whether as many records as are counted stand behind a request and name it, and no more do.
pub open spec fn has_children(turn: Seq<TrajectoryRowSummary>, p: int, count: int) -> bool {
    &&& 0 <= count
    &&& p + 1 + count <= turn.len()
    &&& forall|j: int| p < j < p + 1 + count ==> names(#[trigger] turn[j], turn[p])
    &&& p + 1 + count < turn.len() ==> !names(turn[p + 1 + count], turn[p])
}

/// Tells whether a request was answered by tool calls alone.
pub open spec fn only_tools(turn: Seq<TrajectoryRowSummary>, p: int, count: int) -> bool {
    &&& exists|j: int| p < j < p + 1 + count && (#[trigger] turn[j]).kind == TrajectoryKind::Tool
    &&& forall|j: int|
        p < j < p + 1 + count ==> (#[trigger] turn[j]).kind != TrajectoryKind::Assistant
}

/// Tells whether a record is among the children of a request.
pub open spec fn is_in_family(turn: Seq<TrajectoryRowSummary>, p: int) -> bool {
    exists|q: int, c: int| 0 <= q < p && #[trigger] has_children(turn, q, c) && p < q + 1 + c
}

/// Tells whether a row stands for the record at a place, as deep as it should.
pub open spec fn stands_for(
    turn: Seq<TrajectoryRowSummary>,
    row: LedgerRowView,
    p: int,
) -> bool {
    let r = turn[p];
    &&& row.record_id == Some(r.record_id)
    &&& match row.kind {
        TrajectoryLedgerRowKind::System { record } => record == r && r.kind
            == TrajectoryKind::System && row.depth == 1,
        TrajectoryLedgerRowKind::TurnDivider {
            turn_count,
            collapsed,
            record_count,
            total_duration_ms,
        } => false,
        TrajectoryLedgerRowKind::StepRequest { record, children_count } => record == r && r.kind
            == TrajectoryKind::Request && row.depth == 1 && has_children(
            turn,
            p,
            children_count as int,
        ),
        TrajectoryLedgerRowKind::Assistant { record } => record == r && r.kind
            == TrajectoryKind::Assistant && row.depth == (if is_in_family(turn, p) {
            2
        } else {
            1int
        }),
        TrajectoryLedgerRowKind::Tool { record } => record == r && r.kind == TrajectoryKind::Tool
            && row.depth == (if is_in_family(turn, p) {
            2
        } else {
            1int
        }),
        TrajectoryLedgerRowKind::Context { record } => record == r && (r.kind
            == TrajectoryKind::Context || r.kind == TrajectoryKind::User) && row.depth == 1,
        TrajectoryLedgerRowKind::ToolOnlyPlaceholder {
            parent_record_id,
            step,
            turn_count,
            duration_ms,
        } => r.kind == TrajectoryKind::Request && parent_record_id == Some(r.record_id) && step
            == r.step && turn_count == r.turn_count && duration_ms == r.duration_ms && row.depth
            == 2 && exists|c: int| #[trigger] has_children(turn, p, c) && only_tools(turn, p, c),
    }
}

/// Tells whether the search and the switch for tool calls let a row be.
pub open spec fn let_be(f: LedgerFilter, turn: Seq<TrajectoryRowSummary>, row: LedgerRowView, p: int) -> bool {
    if row.kind is ToolOnlyPlaceholder {
        f.show_tool_calls && f.tokens.len() == 0
    } else {
        found(f, turn[p]) && (row.kind is Tool ==> f.show_tool_calls)
    }
}

spec fn placed(
    f: LedgerFilter,
    turn: Seq<TrajectoryRowSummary>,
    rows: Seq<LedgerRowView>,
    pos: Seq<int>,
    a: int,
    b: int,
) -> bool {
    &&& pos.len() == rows.len()
    &&& forall|k: int| 0 <= k < rows.len() ==> a <= #[trigger] pos[k] < b
    &&& forall|k: int|
        0 <= k < rows.len() ==> stands_for(turn, #[trigger] rows[k], pos[k]) && let_be(
            f,
            turn,
            rows[k],
            pos[k],
        )
    &&& forall|k: int, l: int|
        0 <= k < l < rows.len() ==> #[trigger] pos[k] <= #[trigger] pos[l] && (!(
        rows[k].kind is ToolOnlyPlaceholder) && !(rows[l].kind is ToolOnlyPlaceholder) ==> pos[k]
            < pos[l])
}

/// Tells whether a record should have a row: the search finds it, tool calls are shown if it is one, and it does
/// not name an earlier request if it is context or a message of the user.
pub open spec fn wants_row(f: LedgerFilter, turn: Seq<TrajectoryRowSummary>, p: int) -> bool {
    &&& found(f, turn[p])
    &&& turn[p].kind == TrajectoryKind::Tool ==> f.show_tool_calls
    &&& turn[p].kind == TrajectoryKind::Context || turn[p].kind == TrajectoryKind::User ==> forall|
        q: int,
    |
        0 <= q < p ==> !names(turn[p], #[trigger] turn[q])
}

/// Tells whether a request should have a row for its tool calls: they are all that came of it, and they are shown
/// without a search.
pub open spec fn wants_placeholder(f: LedgerFilter, turn: Seq<TrajectoryRowSummary>, p: int) -> bool {
    &&& turn[p].kind == TrajectoryKind::Request
    &&& f.show_tool_calls
    &&& f.tokens.len() == 0
    &&& exists|c: int| #[trigger] has_children(turn, p, c) && only_tools(turn, p, c)
}

spec fn covers(
    f: LedgerFilter,
    turn: Seq<TrajectoryRowSummary>,
    rows: Seq<LedgerRowView>,
    pos: Seq<int>,
    a: int,
    b: int,
) -> bool {
    &&& forall|p: int|
        a <= p < b && #[trigger] wants_row(f, turn, p) ==> exists|k: int|
            0 <= k < rows.len() && #[trigger] pos[k] == p && !(rows[k].kind is ToolOnlyPlaceholder)
    &&& forall|p: int|
        a <= p < b && #[trigger] wants_placeholder(f, turn, p) ==> exists|k: int|
            0 <= k < rows.len() && #[trigger] pos[k] == p && rows[k].kind is ToolOnlyPlaceholder
}

proof fn placed_adds(
    f: LedgerFilter,
    turn: Seq<TrajectoryRowSummary>,
    r1: Seq<LedgerRowView>,
    p1: Seq<int>,
    r2: Seq<LedgerRowView>,
    p2: Seq<int>,
    a: int,
    m: int,
    b: int,
)
    requires
        a <= m <= b,
        placed(f, turn, r1, p1, a, m),
        placed(f, turn, r2, p2, m, b),
        covers(f, turn, r1, p1, a, m),
        covers(f, turn, r2, p2, m, b),
    ensures
        placed(f, turn, r1 + r2, p1 + p2, a, b),
        covers(f, turn, r1 + r2, p1 + p2, a, b),
{
    let rows = r1 + r2;
    let pos = p1 + p2;
    let n = r1.len() as int;
    assert forall|k: int| 0 <= k < rows.len() implies a <= #[trigger] pos[k] < b by {
        if k < n {
            assert(pos[k] == p1[k]);
        } else {
            assert(pos[k] == p2[k - n]);
        }
    }
    assert forall|k: int| 0 <= k < rows.len() implies stands_for(turn, #[trigger] rows[k], pos[k])
        && let_be(f, turn, rows[k], pos[k]) by {
        if k < n {
            assert(pos[k] == p1[k] && rows[k] == r1[k]);
        } else {
            assert(pos[k] == p2[k - n] && rows[k] == r2[k - n]);
        }
    }
    assert forall|k: int, l: int| 0 <= k < l < rows.len() implies #[trigger] pos[k]
        <= #[trigger] pos[l] && (!(rows[k].kind is ToolOnlyPlaceholder) && !(
    rows[l].kind is ToolOnlyPlaceholder) ==> pos[k] < pos[l]) by {
        if l < n {
            assert(p1[k] <= p1[l]);
        } else if k < n {
            assert(a <= p1[k] < m);
            assert(m <= p2[l - n]);
        } else {
            assert(p2[k - n] <= p2[l - n]);
        }
    }
    assert forall|p: int| a <= p < b && #[trigger] wants_row(f, turn, p) implies exists|k: int|
        0 <= k < rows.len() && #[trigger] pos[k] == p && !(rows[k].kind is ToolOnlyPlaceholder) by {
        if p < m {
            let k = choose|k: int|
                0 <= k < r1.len() && #[trigger] p1[k] == p && !(r1[k].kind is ToolOnlyPlaceholder);
            assert(pos[k] == p);
        } else {
            let k = choose|k: int|
                0 <= k < r2.len() && #[trigger] p2[k] == p && !(r2[k].kind is ToolOnlyPlaceholder);
            assert(pos[n + k] == p);
        }
    }
    assert forall|p: int| a <= p < b && #[trigger] wants_placeholder(f, turn, p) implies exists|
        k: int,
    |
        0 <= k < rows.len() && #[trigger] pos[k] == p && rows[k].kind is ToolOnlyPlaceholder by {
        if p < m {
            let k = choose|k: int|
                0 <= k < r1.len() && #[trigger] p1[k] == p && r1[k].kind is ToolOnlyPlaceholder;
            assert(pos[k] == p);
        } else {
            let k = choose|k: int|
                0 <= k < r2.len() && #[trigger] p2[k] == p && r2[k].kind is ToolOnlyPlaceholder;
            assert(pos[n + k] == p);
        }
    }
}

spec fn settled(turn: Seq<TrajectoryRowSummary>, i: int) -> bool {
    forall|q: int, c: int| 0 <= q < i && #[trigger] has_children(turn, q, c) ==> q + 1 + c <= i
}

proof fn children_placed(
    f: LedgerFilter,
    turn: Seq<TrajectoryRowSummary>,
    q: int,
    m: int,
) -> (pos: Seq<int>)
    requires
        0 <= q,
        0 <= m,
        q + 1 + m <= turn.len(),
        forall|j: int| q < j < q + 1 + m ==> names(#[trigger] turn[j], turn[q]),
        exists|c: int| m <= c && #[trigger] has_children(turn, q, c),
    ensures
        placed(f, turn, children_rows(f, turn.subrange(q + 1, q + 1 + m)), pos, q + 1, q + 1 + m),
        covers(f, turn, children_rows(f, turn.subrange(q + 1, q + 1 + m)), pos, q + 1, q + 1 + m),
    decreases m,
{
    if m == 0 {
        Seq::empty()
    } else {
        let all = turn.subrange(q + 1, q + 1 + m);
        let p = q + m;
        assert(all.drop_last() =~= turn.subrange(q + 1, q + m));
        assert(all.last() == turn[p]);
        let before = children_placed(f, turn, q, m - 1);
        let own = child_rows(f, turn[p]);
        let at = Seq::new(own.len(), |k: int| p);
        assert(names(turn[p], turn[q]));
        assert(is_in_family(turn, p)) by {
            let c = choose|c: int| m <= c && #[trigger] has_children(turn, q, c);
            assert(has_children(turn, q, c) && p < q + 1 + c);
        }
        if own.len() > 0 {
            assert(at[0] == p);
            assert(stands_for(turn, own[0], p));
        }
        assert(covers(f, turn, own, at, p, p + 1));
        placed_adds(
            f,
            turn,
            children_rows(f, all.drop_last()),
            before,
            own,
            at,
            q + 1,
            p,
            p + 1,
        );
        before + at
    }
}

proof fn children_are_counted(turn: Seq<TrajectoryRowSummary>, p: int, j: int)
    requires
        0 <= p < j <= turn.len(),
        turn[p].kind == TrajectoryKind::Request,
        forall|k: int| p < k < j ==> names(#[trigger] turn[k], turn[p]),
    ensures
        j <= children_end(turn, j, turn[p].record_id) <= turn.len(),
        has_children(turn, p, children_end(turn, j, turn[p].record_id) - p - 1),
    decreases turn.len() - j,
{
    if j < turn.len() && is_child(turn[j], turn[p].record_id) {
        children_are_counted(turn, p, j + 1);
    }
}

proof fn one_count(turn: Seq<TrajectoryRowSummary>, p: int, a: int, b: int)
    requires
        has_children(turn, p, a),
        has_children(turn, p, b),
    ensures
        a == b,
{
    if a < b {
        assert(names(turn[p + 1 + a], turn[p]));
    } else if b < a {
        assert(names(turn[p + 1 + b], turn[p]));
    }
}

#[verifier::rlimit(40)]
proof fn request_placed(f: LedgerFilter, turn: Seq<TrajectoryRowSummary>, i: int) -> (pos: Seq<int>)
    requires
        0 <= i < turn.len() <= usize::MAX,
        turn[i].kind == TrajectoryKind::Request,
    ensures
        ({
            let end = children_end(turn, i + 1, turn[i].record_id);
            let rows = request_rows(f, turn[i], turn.subrange(i + 1, end));
            &&& i < end <= turn.len()
            &&& placed(f, turn, rows, pos, i, end)
            &&& covers(f, turn, rows, pos, i, end)
        }),
{
    children_are_counted(turn, i, i + 1);
    let end = children_end(turn, i + 1, turn[i].record_id);
    let m = end - i - 1;
    let children = turn.subrange(i + 1, end);
    assert(has_children(turn, i, m));
    let rest = children_placed(f, turn, i, m);
    let all = request_rows(f, turn[i], children);
    let n = (all.len() - children_rows(f, children).len()) as int;
    let front = all.take(n);
    let at = Seq::new(front.len(), |k: int| i);
    assert(all =~= front + children_rows(f, children));
    assert(has_kind(children, TrajectoryKind::Tool) && !has_kind(children, TrajectoryKind::Assistant)
        <==> only_tools(turn, i, m)) by {
        if has_kind(children, TrajectoryKind::Tool) {
            let j = choose|j: int|
                0 <= j < children.len() && #[trigger] children[j].kind == TrajectoryKind::Tool;
            assert(turn[i + 1 + j].kind == TrajectoryKind::Tool);
        }
        if only_tools(turn, i, m) {
            let j = choose|j: int|
                i < j < i + 1 + m && (#[trigger] turn[j]).kind == TrajectoryKind::Tool;
            assert(children[j - i - 1].kind == TrajectoryKind::Tool);
            if has_kind(children, TrajectoryKind::Assistant) {
                let l = choose|l: int|
                    0 <= l < children.len() && #[trigger] children[l].kind
                        == TrajectoryKind::Assistant;
                assert(turn[i + 1 + l].kind == TrajectoryKind::Assistant);
            }
        }
        if has_kind(children, TrajectoryKind::Tool) && !has_kind(
            children,
            TrajectoryKind::Assistant,
        ) {
            assert forall|j: int| i < j < i + 1 + m implies (#[trigger] turn[j]).kind
                != TrajectoryKind::Assistant by {
                assert(children[j - i - 1].kind != TrajectoryKind::Assistant);
            }
        }
    }
    assert(placed(f, turn, front, at, i, i + 1)) by {
        assert forall|k: int| 0 <= k < front.len() implies stands_for(turn, #[trigger] front[k], at[k])
            && let_be(f, turn, front[k], at[k]) by {
            assert(front[k] == all[k]);
        }
    }
    assert(covers(f, turn, front, at, i, i + 1)) by {
        if wants_row(f, turn, i) {
            assert(at[0] == i);
            assert(front[0] == all[0]);
        }
        if wants_placeholder(f, turn, i) {
            let c = choose|c: int| #[trigger] has_children(turn, i, c) && only_tools(turn, i, c);
            one_count(turn, i, m, c);
            assert(front.len() > 0);
            assert(at[n - 1] == i);
            assert(front[n - 1] == all[n - 1]);
        }
    }
    placed_adds(
        f,
        turn,
        front,
        at,
        children_rows(f, children),
        rest,
        i,
        i + 1,
        end,
    );
    at + rest
}

proof fn turn_placed(f: LedgerFilter, turn: Seq<TrajectoryRowSummary>, i: int) -> (pos: Seq<int>)
    requires
        0 <= i <= turn.len() <= usize::MAX,
        settled(turn, i),
    ensures
        placed(f, turn, rows_from(f, turn, i), pos, i, turn.len() as int),
        covers(f, turn, rows_from(f, turn, i), pos, i, turn.len() as int),
    decreases turn.len() - i,
{
    let n = turn.len() as int;
    if i >= n {
        Seq::empty()
    } else if turn[i].kind == TrajectoryKind::Request {
        let end = children_end(turn, i + 1, turn[i].record_id);
        let first = request_placed(f, turn, i);
        children_are_counted(turn, i, i + 1);
        assert(settled(turn, end)) by {
            assert forall|q: int, c: int| 0 <= q < end && #[trigger] has_children(
                turn,
                q,
                c,
            ) implies q + 1 + c <= end by {
                if q == i {
                    one_count(turn, i, c, end - i - 1);
                } else if q > i && c > 0 {
                    assert(names(turn[q + 1], turn[q]));
                    assert(names(turn[q], turn[i]));
                }
            }
        }
        let rest = turn_placed(f, turn, end);
        placed_adds(
            f,
            turn,
            request_rows(f, turn[i], turn.subrange(i + 1, end)),
            first,
            rows_from(f, turn, end),
            rest,
            i,
            end,
            n,
        );
        first + rest
    } else {
        let own = own_rows(f, turn[i]);
        let at = Seq::new(own.len(), |k: int| i);
        assert(!is_in_family(turn, i));
        assert(settled(turn, i + 1)) by {
            assert forall|q: int, c: int| 0 <= q < i + 1 && #[trigger] has_children(
                turn,
                q,
                c,
            ) implies q + 1 + c <= i + 1 by {
                if q == i && c > 0 {
                    assert(names(turn[i + 1], turn[i]));
                }
            }
        }
        if own.len() > 0 {
            assert(at[0] == i);
            assert(stands_for(turn, own[0], i));
        }
        assert(covers(f, turn, own, at, i, i + 1));
        let rest = turn_placed(f, turn, i + 1);
        placed_adds(f, turn, own, at, rows_from(f, turn, i + 1), rest, i, i + 1, n);
        at + rest
    }
}

proof fn one_turn(records: Seq<TrajectoryRowSummary>, turn: u32)
    requires
        records.len() > 0,
        forall|i: int| 0 <= i < records.len() ==> (#[trigger] records[i]).turn_count == turn,
    ensures
        turn_order(records) == seq![turn],
        turn_records(records, turn) == records,
    decreases records.len(),
{
    reveal(Seq::filter);
    let head = records.drop_last();
    assert forall|i: int| 0 <= i < head.len() implies (#[trigger] head[i]).turn_count == turn by {
        assert(records[i].turn_count == turn);
    }
    assert(records[records.len() - 1].turn_count == turn);
    assert(head.push(records.last()) =~= records);
    if head.len() > 0 {
        one_turn(head, turn);
        assert(turn_order(head)[0] == turn);
        assert(turn_order(head).contains(turn));
    } else {
        assert(turn_order(head) =~= Seq::empty());
        assert(!turn_order(head).contains(turn));
        assert(turn_order(records) =~= seq![turn]);
        assert(turn_records(head, turn) =~= Seq::empty());
        assert(turn_records(records, turn) =~= records);
    }
}

/// The time that records took, all together.
pub open spec fn time_taken(records: Seq<TrajectoryRowSummary>) -> int
    decreases records.len(),
{
    if records.len() == 0 {
        0
    } else {
        time_taken(records.drop_last()) + (match records.last().duration_ms {
            Some(ms) => ms as int,
            None => 0,
        })
    }
}

proof fn durations_add_up(records: Seq<TrajectoryRowSummary>)
    requires
        forall|i: int|
            0 <= i < records.len() ==> ((#[trigger] records[i]).duration_ms matches Some(ms) ==> ms
                >= 0),
    ensures
        time_taken(records) >= 0,
        total_duration(records) is Some <==> exists|i: int|
            0 <= i < records.len() && (#[trigger] records[i]).duration_ms is Some,
        total_duration(records) matches Some(ms) ==> ms >= 0 && (time_taken(records) <= i64::MAX
            ==> ms == time_taken(records)),
        total_duration(records) is None ==> time_taken(records) == 0,
    decreases records.len(),
{
    if records.len() > 0 {
        let head = records.drop_last();
        let n = head.len() as int;
        assert forall|i: int| 0 <= i < head.len() implies ((
        #[trigger] head[i]).duration_ms matches Some(ms) ==> ms >= 0) by {
            assert(records[i] == head[i]);
        }
        assert(records[n] == records.last());
        durations_add_up(head);
        if exists|i: int| 0 <= i < head.len() && (#[trigger] head[i]).duration_ms is Some {
            let i = choose|i: int| 0 <= i < head.len() && (#[trigger] head[i]).duration_ms is Some;
            assert(records[i] == head[i]);
        }
        if exists|i: int| 0 <= i < records.len() && (#[trigger] records[i]).duration_ms is Some {
            let i = choose|i: int|
                0 <= i < records.len() && (#[trigger] records[i]).duration_ms is Some;
            if i < n {
                assert(head[i].duration_ms is Some);
            }
        }
    }
}

/// A turn stands under its divider, which counts its records and says whether it is folded. A folded turn shows
/// nothing else.
pub proof fn a_turn_has_its_divider(
    records: &[TrajectoryRowSummary],
    folded: &HashSet<u32>,
    show_tool_calls: bool,
    tokens: &[String],
    index: &HashMap<u128, String>,
    rows: Vec<TrajectoryLedgerRow>,
    turn: u32,
)
    requires
        call_ensures(build_ledger_rows, (records, folded, show_tool_calls, tokens, index), rows),
        0 < records@.len() <= usize::MAX,
        forall|i: int| 0 <= i < records@.len() ==> (#[trigger] records@[i]).turn_count == turn,
    ensures
        rows@.len() > 0,
        rows@[0].kind is TurnDivider,
        rows@[0].record_id is None,
        rows@[0].depth == 0,
        rows@[0].kind->TurnDivider_turn_count == turn,
        rows@[0].kind->TurnDivider_collapsed == folded@.contains(turn),
        rows@[0].kind->TurnDivider_record_count == records@.len(),
        folded@.contains(turn) ==> rows@.len() == 1,
        (forall|i: int|
            0 <= i < records@.len() ==> ((#[trigger] records@[i]).duration_ms matches Some(ms) ==> ms
                >= 0)) && time_taken(records@) <= i64::MAX ==> rows@[0].kind->TurnDivider_total_duration_ms
            == (if exists|i: int| 0 <= i < records@.len() && (#[trigger] records@[i]).duration_ms is Some {
            Some(time_taken(records@) as i64)
        } else {
            None
        }),
{
    let f = ledger_filter(folded@, show_tool_calls, views(tokens@), index_view(index@));
    one_turn(records@, turn);
    reveal_with_fuel(rows_of_turns, 2);
    let v = row_views(rows@);
    assert(v =~= turn_rows(f, turn, records@));
    assert(v.len() == rows@.len());
    assert(v[0] == rows@[0]@);
    assert(v[0] == divider(f, turn, records@));
    if forall|i: int|
        0 <= i < records@.len() ==> ((#[trigger] records@[i]).duration_ms matches Some(ms) ==> ms
            >= 0) {
        durations_add_up(records@);
    }
}

/// The rows below the divider stand for records, in the order of the records, each as deep and with as many
/// children as it has; the search and the switch for tool calls let them be.
pub proof fn rows_stand_as_the_records(
    records: &[TrajectoryRowSummary],
    folded: &HashSet<u32>,
    show_tool_calls: bool,
    tokens: &[String],
    index: &HashMap<u128, String>,
    rows: Vec<TrajectoryLedgerRow>,
    turn: u32,
) -> (pos: Seq<int>)
    requires
        call_ensures(build_ledger_rows, (records, folded, show_tool_calls, tokens, index), rows),
        0 < records@.len() <= usize::MAX,
        forall|i: int| 0 <= i < records@.len() ==> (#[trigger] records@[i]).turn_count == turn,
        !folded@.contains(turn),
    ensures
        pos.len() == rows@.len(),
        forall|k: int| 1 <= k < rows@.len() ==> 0 <= #[trigger] pos[k] < records@.len(),
        forall|k: int|
            1 <= k < rows@.len() ==> stands_for(records@, (#[trigger] rows@[k])@, pos[k]) && let_be(
                ledger_filter(folded@, show_tool_calls, views(tokens@), index_view(index@)),
                records@,
                rows@[k]@,
                pos[k],
            ),
        forall|k: int, l: int|
            1 <= k < l < rows@.len() ==> #[trigger] pos[k] <= #[trigger] pos[l] && (!(
            rows@[k].kind is ToolOnlyPlaceholder) && !(rows@[l].kind is ToolOnlyPlaceholder)
                ==> pos[k] < pos[l]),
        forall|p: int|
            0 <= p < records@.len() && #[trigger] wants_row(
                ledger_filter(folded@, show_tool_calls, views(tokens@), index_view(index@)),
                records@,
                p,
            ) ==> exists|k: int|
                1 <= k < rows@.len() && #[trigger] pos[k] == p && !(
                rows@[k].kind is ToolOnlyPlaceholder),
        forall|p: int|
            0 <= p < records@.len() && #[trigger] wants_placeholder(
                ledger_filter(folded@, show_tool_calls, views(tokens@), index_view(index@)),
                records@,
                p,
            ) ==> exists|k: int|
                1 <= k < rows@.len() && #[trigger] pos[k] == p
                    && rows@[k].kind is ToolOnlyPlaceholder,
{
    let f = ledger_filter(folded@, show_tool_calls, views(tokens@), index_view(index@));
    one_turn(records@, turn);
    reveal_with_fuel(rows_of_turns, 2);
    let v = row_views(rows@);
    let below = rows_from(f, records@, 0);
    assert(v =~= turn_rows(f, turn, records@));
    assert(v.len() == rows@.len());
    let under = turn_placed(f, records@, 0);
    let pos = seq![0int] + under;
    assert forall|k: int| 1 <= k < rows@.len() implies v[k] == below[k - 1] && #[trigger] pos[k]
        == under[k - 1] && v[k] == (#[trigger] rows@[k])@ by {}
    assert forall|k: int| 1 <= k < rows@.len() implies stands_for(
        records@,
        (#[trigger] rows@[k])@,
        pos[k],
    ) && let_be(f, records@, rows@[k]@, pos[k]) by {
        assert(v[k] == below[k - 1] && pos[k] == under[k - 1]);
    }
    assert forall|k: int, l: int| 1 <= k < l < rows@.len() implies #[trigger] pos[k]
        <= #[trigger] pos[l] && (!(rows@[k].kind is ToolOnlyPlaceholder) && !(
    rows@[l].kind is ToolOnlyPlaceholder) ==> pos[k] < pos[l]) by {
        assert(v[k] == below[k - 1] && pos[k] == under[k - 1] && v[k] == rows@[k]@);
        assert(v[l] == below[l - 1] && pos[l] == under[l - 1] && v[l] == rows@[l]@);
    }
    assert forall|p: int| 0 <= p < records@.len() && #[trigger] wants_row(
        f,
        records@,
        p,
    ) implies exists|k: int|
        1 <= k < rows@.len() && #[trigger] pos[k] == p && !(
        rows@[k].kind is ToolOnlyPlaceholder) by {
        let k = choose|k: int|
            0 <= k < below.len() && #[trigger] under[k] == p && !(
            below[k].kind is ToolOnlyPlaceholder);
        assert(v[k + 1] == below[k] && v[k + 1] == rows@[k + 1]@);
        assert(pos[k + 1] == p);
    }
    assert forall|p: int| 0 <= p < records@.len() && #[trigger] wants_placeholder(
        f,
        records@,
        p,
    ) implies exists|k: int|
        1 <= k < rows@.len() && #[trigger] pos[k] == p
            && rows@[k].kind is ToolOnlyPlaceholder by {
        let k = choose|k: int|
            0 <= k < below.len() && #[trigger] under[k] == p
                && below[k].kind is ToolOnlyPlaceholder;
        assert(v[k + 1] == below[k] && v[k + 1] == rows@[k + 1]@);
        assert(pos[k + 1] == p);
    }
    pos
}

/// What the ledger lets be is what a search for the same words finds.
pub proof fn the_ledger_searches_like_the_search(
    folded: &HashSet<u32>,
    show_tool_calls: bool,
    tokens: &[String],
    index: &HashMap<u128, String>,
    record: TrajectoryRowSummary,
    r: bool,
)
    requires
        call_ensures(matches_and_search, (record.record_id, tokens, index), r),
    ensures
        r <==> found(
            ledger_filter(folded@, show_tool_calls, views(tokens@), index_view(index@)),
            record,
        ),
        tokens@.len() == 0 ==> r,
{
    assert(views(tokens@).len() == tokens@.len());
}

// ---------------------------------------------------------------------------
// Many turns
// ---------------------------------------------------------------------------
/// The records of a turn.
pub open spec fn those_of(records: Seq<TrajectoryRowSummary>, turn: u32) -> Seq<
    TrajectoryRowSummary,
>
    decreases records.len(),
{
    if records.len() == 0 {
        Seq::empty()
    } else if records.last().turn_count == turn {
        those_of(records.drop_last(), turn).push(records.last())
    } else {
        those_of(records.drop_last(), turn)
    }
}

/// The records of all turns but one.
pub open spec fn those_not_of(records: Seq<TrajectoryRowSummary>, turn: u32) -> Seq<
    TrajectoryRowSummary,
>
    decreases records.len(),
{
    if records.len() == 0 {
        Seq::empty()
    } else if records.last().turn_count != turn {
        those_not_of(records.drop_last(), turn).push(records.last())
    } else {
        those_not_of(records.drop_last(), turn)
    }
}

proof fn turn_is_those(records: Seq<TrajectoryRowSummary>, turn: u32)
    ensures
        turn_records(records, turn) == those_of(records, turn),
        forall|i: int|
            0 <= i < those_of(records, turn).len() ==> (#[trigger] those_of(
                records,
                turn,
            )[i]).turn_count == turn,
    decreases records.len(),
{
    reveal(Seq::filter);
    if records.len() > 0 {
        turn_is_those(records.drop_last(), turn);
    }
}

proof fn others_keep_their_records(records: Seq<TrajectoryRowSummary>, turn: u32, other: u32)
    requires
        other != turn,
    ensures
        those_of(those_not_of(records, turn), other) == those_of(records, other),
    decreases records.len(),
{
    if records.len() > 0 {
        let head = records.drop_last();
        let last = records.last();
        others_keep_their_records(head, turn, other);
        let kept = those_not_of(head, turn);
        if last.turn_count != turn {
            assert(kept.push(last).drop_last() =~= kept);
        }
    }
}

proof fn first_turn_is_first(records: Seq<TrajectoryRowSummary>)
    requires
        records.len() > 0,
    ensures
        turn_order(records) == seq![records[0].turn_count] + turn_order(
            those_not_of(records, records[0].turn_count),
        ),
        !turn_order(those_not_of(records, records[0].turn_count)).contains(records[0].turn_count),
    decreases records.len(),
{
    let t = records[0].turn_count;
    let head = records.drop_last();
    let last = records.last();
    let kept = those_not_of(head, t);
    if head.len() > 0 {
        assert(head[0] == records[0]);
        first_turn_is_first(head);
        let order = turn_order(head);
        let rest = turn_order(kept);
        assert(order[0] == t);
        if last.turn_count == t {
            assert(order.contains(t));
        } else {
            let u = last.turn_count;
            assert(kept.push(last).drop_last() =~= kept);
            assert(order.contains(u) <==> rest.contains(u)) by {
                if order.contains(u) {
                    let k = order.index_of(u);
                    assert(rest[k - 1] == u);
                }
                if rest.contains(u) {
                    let k = rest.index_of(u);
                    assert(order[k + 1] == u);
                }
            }
            if !rest.contains(u) {
                assert(order.push(u) =~= seq![t] + rest.push(u));
                if rest.push(u).contains(t) {
                    let k = rest.push(u).index_of(t);
                    assert(rest[k] == t);
                }
            }
        }
    } else {
        assert(records[0] == last);
        assert(turn_order(head) =~= Seq::empty());
        assert(kept =~= Seq::empty());
        assert(!turn_order(head).contains(t));
        assert(turn_order(records) =~= seq![t]);
        assert(those_not_of(records, t) =~= Seq::empty());
        assert(turn_order(those_not_of(records, t)) =~= Seq::empty());
        assert(seq![t] + Seq::<u32>::empty() =~= seq![t]);
    }
}

proof fn rest_follows(f: LedgerFilter, records: Seq<TrajectoryRowSummary>, n: nat)
    requires
        records.len() > 0,
        n <= turn_order(those_not_of(records, records[0].turn_count)).len(),
    ensures
        ({
            let t = records[0].turn_count;
            rows_of_turns(f, records, n + 1) == turn_rows(f, t, those_of(records, t))
                + rows_of_turns(f, those_not_of(records, t), n)
        }),
    decreases n,
{
    let t = records[0].turn_count;
    let rest = those_not_of(records, t);
    first_turn_is_first(records);
    turn_is_those(records, t);
    let first = turn_rows(f, t, those_of(records, t));
    if n == 0 {
        reveal_with_fuel(rows_of_turns, 2);
        assert(turn_order(records)[0] == t);
        assert(rows_of_turns(f, records, 1) =~= first);
        assert(first + Seq::<LedgerRowView>::empty() =~= first);
    } else {
        rest_follows(f, records, (n - 1) as nat);
        let u = turn_order(rest)[n - 1];
        assert(turn_order(records)[n as int] == u);
        assert(turn_order(rest).contains(u));
        turn_is_those(records, u);
        turn_is_those(rest, u);
        others_keep_their_records(records, t, u);
        assert(rows_of_turns(f, records, n + 1) == rows_of_turns(f, records, n) + turn_rows(
            f,
            u,
            turn_records(records, u),
        ));
        assert(rows_of_turns(f, records, n + 1) =~= first + rows_of_turns(f, rest, n));
    }
}

/// The turn of the first record comes first, with all of its records, and behind it the ledger of the others.
pub proof fn turns_come_one_after_another(
    records: &[TrajectoryRowSummary],
    first: &[TrajectoryRowSummary],
    rest: &[TrajectoryRowSummary],
    folded: &HashSet<u32>,
    show_tool_calls: bool,
    tokens: &[String],
    index: &HashMap<u128, String>,
    rows: Vec<TrajectoryLedgerRow>,
    above: Vec<TrajectoryLedgerRow>,
    below: Vec<TrajectoryLedgerRow>,
)
    requires
        records@.len() > 0,
        first@ == those_of(records@, records@[0].turn_count),
        rest@ == those_not_of(records@, records@[0].turn_count),
        call_ensures(build_ledger_rows, (records, folded, show_tool_calls, tokens, index), rows),
        call_ensures(build_ledger_rows, (first, folded, show_tool_calls, tokens, index), above),
        call_ensures(build_ledger_rows, (rest, folded, show_tool_calls, tokens, index), below),
    ensures
        row_views(rows@) == row_views(above@) + row_views(below@),
{
    let f = ledger_filter(folded@, show_tool_calls, views(tokens@), index_view(index@));
    let t = records@[0].turn_count;
    first_turn_is_first(records@);
    rest_follows(f, records@, turn_order(rest@).len());
    turn_is_those(records@, t);
    first_stays(records@);
    one_turn(first@, t);
    reveal_with_fuel(rows_of_turns, 2);
    assert(ledger(f, first@) =~= turn_rows(f, t, first@));
}

proof fn first_stays(records: Seq<TrajectoryRowSummary>)
    requires
        records.len() > 0,
    ensures
        those_of(records, records[0].turn_count).len() > 0,
    decreases records.len(),
{
    let head = records.drop_last();
    if head.len() > 0 {
        assert(head[0] == records[0]);
        first_stays(head);
    } else {
        assert(records.last() == records[0]);
    }
}

/// Nothing is shown of no records.
pub proof fn no_records_no_rows(
    records: &[TrajectoryRowSummary],
    folded: &HashSet<u32>,
    show_tool_calls: bool,
    tokens: &[String],
    index: &HashMap<u128, String>,
    rows: Vec<TrajectoryLedgerRow>,
)
    requires
        records@.len() == 0,
        call_ensures(build_ledger_rows, (records, folded, show_tool_calls, tokens, index), rows),
    ensures
        rows@.len() == 0,
{
    assert(turn_order(records@).len() == 0);
    assert(row_views(rows@).len() == rows@.len());
}

/// Durations that are added up stop at the ends of what can be held.
pub proof fn sums_stop_at_the_ends(a: i64, b: i64, r: i64)
    requires
        call_ensures(saturating_add, (a, b), r),
    ensures
        i64::MIN <= a + b <= i64::MAX ==> r == a + b,
        a + b > i64::MAX ==> r == i64::MAX,
        a + b < i64::MIN ==> r == i64::MIN,
{
}

} // verus!
