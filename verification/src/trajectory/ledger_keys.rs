//! That no two rows of a ledger are alike, and that every record has its row.
use crate::ids::{hyphenated, hyphenated_tells_apart};
use crate::text::{decimal, decimal_tells_apart};
use crate::trajectory::ledger::{
    child_rows, children_end, children_rows, divider, is_child, ledger, own_rows, request_rows,
    rows_from, rows_of_turns, turn_order, turn_records, turn_rows, LedgerFilter, LedgerRowView,
};
use crate::trajectory::ledger_laws::{
    records_of_turn, row_turn, rows_are_of_their_turn, turn_order_lists_each_turn_once,
};
use crate::trajectory::record::{TrajectoryKind, TrajectoryRowSummary};
use crate::trajectory::state::has_record;
use crate::trajectory::state_laws::unique_ids;
use vstd::prelude::*;

verus! {

// ---------------------------------------------------------------------------
// Keys
// ---------------------------------------------------------------------------
/// Tells whether two rows stand for the same: for the same record, for the same step of nothing but tool
/// calls, or for the same turn.
pub open spec fn same_row(a: LedgerRowView, b: LedgerRowView) -> bool {
    &&& a.record_id == b.record_id
    &&& (a.kind is ToolOnlyPlaceholder) == (b.kind is ToolOnlyPlaceholder)
    &&& a.record_id is None ==> row_turn(a) == row_turn(b)
}

/// Tells whether the key of a row says what the row stands for.
pub open spec fn key_fits(row: LedgerRowView) -> bool {
    match row.record_id {
        None => row.kind is TurnDivider && row.key == "turn-divider-"@ + decimal(
            row_turn(row) as nat,
        ),
        Some(id) => if row.kind is ToolOnlyPlaceholder {
            row.key == "tool-only-placeholder-"@ + hyphenated(id)
        } else {
            ||| row.key == "system-"@ + hyphenated(id)
            ||| row.key == "context-"@ + hyphenated(id)
            ||| row.key == "user-"@ + hyphenated(id)
            ||| row.key == "assistant-"@ + hyphenated(id)
            ||| row.key == "tool-"@ + hyphenated(id)
            ||| row.key == "request-"@ + hyphenated(id)
        },
    }
}

proof fn tail_of_key(prefix: Seq<char>, id: u128)
    ensures
        (prefix + hyphenated(id)).len() == prefix.len() + 36,
        (prefix + hyphenated(id)).skip(prefix.len() as int) == hyphenated(id),
{
    assert((prefix + hyphenated(id)).skip(prefix.len() as int) =~= hyphenated(id));
}

/// The last characters of a row's key are the id of its record, and its length tells whether it stands for
/// a step of nothing but tool calls.
proof fn key_of_record(row: LedgerRowView)
    requires
        key_fits(row),
        row.record_id is Some,
    ensures
        row.key.len() >= 41,
        row.key.skip(row.key.len() - 36) == hyphenated(row.record_id->0),
        row.kind is ToolOnlyPlaceholder <==> row.key.len() == 58,
        !(row.key[0] == 't' && row.key[1] == 'u'),
{
    reveal_strlit("tool-only-placeholder-");
    reveal_strlit("system-");
    reveal_strlit("context-");
    reveal_strlit("user-");
    reveal_strlit("assistant-");
    reveal_strlit("tool-");
    reveal_strlit("request-");
    let id = row.record_id->0;
    tail_of_key("tool-only-placeholder-"@, id);
    tail_of_key("system-"@, id);
    tail_of_key("context-"@, id);
    tail_of_key("user-"@, id);
    tail_of_key("assistant-"@, id);
    tail_of_key("tool-"@, id);
    tail_of_key("request-"@, id);
}

/// Two rows with one key stand for the same.
proof fn keys_tell_apart(a: LedgerRowView, b: LedgerRowView)
    requires
        key_fits(a),
        key_fits(b),
        a.key == b.key,
    ensures
        same_row(a, b),
{
    reveal_strlit("turn-divider-");
    let head = "turn-divider-"@;
    if a.record_id is Some {
        key_of_record(a);
    }
    if b.record_id is Some {
        key_of_record(b);
    }
    if a.record_id is None {
        assert(a.key[0] == 't' && a.key[1] == 'u');
    }
    if b.record_id is None {
        assert(b.key[0] == 't' && b.key[1] == 'u');
    }
    if a.record_id is None && b.record_id is None {
        let x = row_turn(a) as nat;
        let y = row_turn(b) as nat;
        assert((head + decimal(x)).skip(head.len() as int) =~= decimal(x));
        assert((head + decimal(y)).skip(head.len() as int) =~= decimal(y));
        decimal_tells_apart(x, y);
    }
    if a.record_id is Some && b.record_id is Some {
        hyphenated_tells_apart(a.record_id->0, b.record_id->0);
    }
}

// ---------------------------------------------------------------------------
// Rows
// ---------------------------------------------------------------------------
/// Tells whether no two rows stand for the same.
pub open spec fn all_differ(rows: Seq<LedgerRowView>) -> bool {
    forall|i: int, j: int|
        0 <= i < j < rows.len() ==> !same_row(#[trigger] rows[i], #[trigger] rows[j])
}

/// Tells whether every row stands for a record of `part` and has a key that says so.
pub open spec fn all_made_of(rows: Seq<LedgerRowView>, part: Seq<TrajectoryRowSummary>) -> bool {
    forall|k: int|
        0 <= k < rows.len() ==> {
            &&& (#[trigger] rows[k]).record_id is Some
            &&& has_record(part, rows[k].record_id->0)
            &&& key_fits(rows[k])
        }
}

proof fn joined_has(a: Seq<TrajectoryRowSummary>, b: Seq<TrajectoryRowSummary>, id: u128)
    ensures
        has_record(a, id) || has_record(b, id) ==> has_record(a + b, id),
{
    if has_record(a, id) {
        let i = choose|i: int| 0 <= i < a.len() && #[trigger] a[i].record_id == id;
        assert((a + b)[i].record_id == id);
    }
    if has_record(b, id) {
        let i = choose|i: int| 0 <= i < b.len() && #[trigger] b[i].record_id == id;
        assert((a + b)[a.len() + i].record_id == id);
    }
}

proof fn unique_parts(a: Seq<TrajectoryRowSummary>, b: Seq<TrajectoryRowSummary>)
    requires
        unique_ids(a + b),
    ensures
        unique_ids(a),
        unique_ids(b),
{
    let all = a + b;
    assert forall|i: int, j: int| 0 <= i < j < a.len() implies (#[trigger] a[i]).record_id != (
    #[trigger] a[j]).record_id by {
        assert(all[i].record_id != all[j].record_id);
    }
    assert forall|i: int, j: int| 0 <= i < j < b.len() implies (#[trigger] b[i]).record_id != (
    #[trigger] b[j]).record_id by {
        assert(all[a.len() + i].record_id != all[a.len() + j].record_id);
    }
}

/// Rows made of two parts of a list without an id twice differ, where those of each part do.
proof fn made_of_both(
    a: Seq<LedgerRowView>,
    pa: Seq<TrajectoryRowSummary>,
    b: Seq<LedgerRowView>,
    pb: Seq<TrajectoryRowSummary>,
)
    requires
        unique_ids(pa + pb),
        all_made_of(a, pa),
        all_made_of(b, pb),
        all_differ(a),
        all_differ(b),
    ensures
        all_made_of(a + b, pa + pb),
        all_differ(a + b),
{
    let all = a + b;
    let part = pa + pb;
    assert forall|k: int| 0 <= k < all.len() implies {
        &&& (#[trigger] all[k]).record_id is Some
        &&& has_record(part, all[k].record_id->0)
        &&& key_fits(all[k])
    } by {
        if k < a.len() {
            assert(all[k] == a[k]);
        } else {
            assert(all[k] == b[k - a.len()]);
        }
        joined_has(pa, pb, all[k].record_id->0);
    }
    assert forall|i: int, j: int| 0 <= i < j < all.len() implies !same_row(
        #[trigger] all[i],
        #[trigger] all[j],
    ) by {
        if j < a.len() {
            assert(!same_row(a[i], a[j]));
        } else if i >= a.len() {
            assert(!same_row(b[i - a.len()], b[j - a.len()]));
        } else {
            let x = a[i].record_id->0;
            let y = b[j - a.len()].record_id->0;
            let k = choose|k: int| 0 <= k < pa.len() && #[trigger] pa[k].record_id == x;
            let l = choose|l: int| 0 <= l < pb.len() && #[trigger] pb[l].record_id == y;
            assert(has_record(pa, x) && has_record(pb, y));
            assert(part[k].record_id != part[pa.len() + l].record_id);
        }
    }
}

proof fn one_record(r: TrajectoryRowSummary, rows: Seq<LedgerRowView>)
    requires
        forall|k: int|
            0 <= k < rows.len() ==> (#[trigger] rows[k]).record_id == Some(r.record_id) && key_fits(
                rows[k],
            ),
    ensures
        all_made_of(rows, seq![r]),
{
    assert(seq![r][0].record_id == r.record_id);
    assert(has_record(seq![r], r.record_id));
}

proof fn children_made_of(f: LedgerFilter, children: Seq<TrajectoryRowSummary>)
    requires
        unique_ids(children),
    ensures
        all_made_of(children_rows(f, children), children),
        all_differ(children_rows(f, children)),
    decreases children.len(),
{
    if children.len() > 0 {
        let head = children.drop_last();
        let last = children.last();
        assert(children =~= head + seq![last]);
        unique_parts(head, seq![last]);
        children_made_of(f, head);
        one_record(last, child_rows(f, last));
        made_of_both(children_rows(f, head), head, child_rows(f, last), seq![last]);
    }
}

proof fn request_made_of(
    f: LedgerFilter,
    r: TrajectoryRowSummary,
    children: Seq<TrajectoryRowSummary>,
)
    requires
        unique_ids(seq![r] + children),
    ensures
        all_made_of(request_rows(f, r, children), seq![r] + children),
        all_differ(request_rows(f, r, children)),
{
    let all = request_rows(f, r, children);
    let kids = children_rows(f, children);
    let before = all.take(all.len() - kids.len());
    unique_parts(seq![r], children);
    children_made_of(f, children);
    assert(all =~= before + kids);
    one_record(r, before);
    made_of_both(before, seq![r], kids, children);
}

proof fn children_end_is_within(turn: Seq<TrajectoryRowSummary>, j: int, request: u128)
    requires
        0 <= j <= turn.len(),
    ensures
        j <= children_end(turn, j, request) <= turn.len(),
        forall|k: int|
            j <= k < children_end(turn, j, request) ==> is_child(#[trigger] turn[k], request),
    decreases turn.len() - j,
{
    if j < turn.len() && is_child(turn[j], request) {
        children_end_is_within(turn, j + 1, request);
    }
}

proof fn from_made_of(f: LedgerFilter, turn: Seq<TrajectoryRowSummary>, i: int)
    requires
        0 <= i <= turn.len(),
        unique_ids(turn.skip(i)),
    ensures
        all_made_of(rows_from(f, turn, i), turn.skip(i)),
        all_differ(rows_from(f, turn, i)),
    decreases turn.len() - i,
{
    if i < turn.len() {
        let r = turn[i];
        if r.kind == TrajectoryKind::Request {
            children_end_is_within(turn, i + 1, r.record_id);
            let end = children_end(turn, i + 1, r.record_id);
            let children = turn.subrange(i + 1, end);
            assert(turn.skip(i) =~= seq![r] + children + turn.skip(end));
            unique_parts(seq![r] + children, turn.skip(end));
            request_made_of(f, r, children);
            from_made_of(f, turn, end);
            made_of_both(
                request_rows(f, r, children),
                seq![r] + children,
                rows_from(f, turn, end),
                turn.skip(end),
            );
        } else {
            assert(turn.skip(i) =~= seq![r] + turn.skip(i + 1));
            unique_parts(seq![r], turn.skip(i + 1));
            from_made_of(f, turn, i + 1);
            one_record(r, own_rows(f, r));
            made_of_both(own_rows(f, r), seq![r], rows_from(f, turn, i + 1), turn.skip(i + 1));
        }
    }
}

// ---------------------------------------------------------------------------
// Turns
// ---------------------------------------------------------------------------
proof fn turn_has(records: Seq<TrajectoryRowSummary>, turn: u32, id: u128)
    ensures
        has_record(turn_records(records, turn), id) ==> exists|i: int|
            0 <= i < records.len() && (#[trigger] records[i]).record_id == id
                && records[i].turn_count == turn,
    decreases records.len(),
{
    reveal(Seq::filter);
    if records.len() > 0 && has_record(turn_records(records, turn), id) {
        let head = records.drop_last();
        let last = records.last();
        let group = turn_records(records, turn);
        let i = choose|i: int| 0 <= i < group.len() && #[trigger] group[i].record_id == id;
        if last.turn_count == turn && last.record_id == id {
            assert(records[records.len() - 1].record_id == id);
        } else {
            assert(turn_records(head, turn)[i].record_id == id);
            turn_has(head, turn, id);
            let k = choose|k: int|
                0 <= k < head.len() && (#[trigger] head[k]).record_id == id && head[k].turn_count
                    == turn;
            assert(records[k].record_id == id);
        }
    }
}

proof fn turn_is_unique(records: Seq<TrajectoryRowSummary>, turn: u32)
    requires
        unique_ids(records),
    ensures
        unique_ids(turn_records(records, turn)),
    decreases records.len(),
{
    reveal(Seq::filter);
    if records.len() > 0 {
        let head = records.drop_last();
        let last = records.last();
        let before = turn_records(head, turn);
        let group = turn_records(records, turn);
        assert(records =~= head + seq![last]);
        unique_parts(head, seq![last]);
        turn_is_unique(head, turn);
        if last.turn_count == turn {
            assert forall|i: int, j: int| 0 <= i < j < group.len() implies (
            #[trigger] group[i]).record_id != (#[trigger] group[j]).record_id by {
                if j < before.len() {
                    assert(before[i].record_id != before[j].record_id);
                } else {
                    let id = before[i].record_id;
                    assert(has_record(before, id));
                    turn_has(head, turn, id);
                    let k = choose|k: int|
                        0 <= k < head.len() && (#[trigger] head[k]).record_id == id
                            && head[k].turn_count == turn;
                    assert(records[k].record_id != records[records.len() - 1].record_id);
                }
            }
        }
    }
}

/// Tells whether a row stands for a record of its turn, or for its turn, and has a key that says so.
pub open spec fn row_fits(row: LedgerRowView, records: Seq<TrajectoryRowSummary>) -> bool {
    &&& key_fits(row)
    &&& row.record_id matches Some(id) ==> exists|i: int|
        0 <= i < records.len() && (#[trigger] records[i]).record_id == id && records[i].turn_count
            == row_turn(row)
}

proof fn turn_rows_fit(f: LedgerFilter, records: Seq<TrajectoryRowSummary>, turn: u32)
    requires
        unique_ids(records),
    ensures
        ({
            let rows = turn_rows(f, turn, turn_records(records, turn));
            &&& all_differ(rows)
            &&& forall|k: int| 0 <= k < rows.len() ==> row_fits(#[trigger] rows[k], records)
            &&& forall|k: int| 0 <= k < rows.len() ==> row_turn(#[trigger] rows[k]) == turn
        }),
{
    let group = turn_records(records, turn);
    let rows = turn_rows(f, turn, group);
    turn_is_unique(records, turn);
    assert(group.skip(0) =~= group);
    from_made_of(f, group, 0);
    rows_are_of_their_turn(f, records, turn);
    let rest = rows_from(f, group, 0);
    assert forall|k: int| 0 <= k < rows.len() implies row_fits(#[trigger] rows[k], records) by {
        if k > 0 {
            assert(rows[k] == rest[k - 1]);
            turn_has(records, turn, rows[k].record_id->0);
        } else {
            assert(rows[0] == divider(f, turn, group));
        }
    }
    assert forall|i: int, j: int| 0 <= i < j < rows.len() implies !same_row(
        #[trigger] rows[i],
        #[trigger] rows[j],
    ) by {
        assert(rows[j] == rest[j - 1]);
        if i > 0 {
            assert(rows[i] == rest[i - 1]);
        } else {
            assert(rows[0] == divider(f, turn, group));
        }
    }
}

proof fn turns_fit(f: LedgerFilter, records: Seq<TrajectoryRowSummary>, n: nat)
    requires
        unique_ids(records),
        n <= turn_order(records).len(),
    ensures
        ({
            let rows = rows_of_turns(f, records, n);
            &&& all_differ(rows)
            &&& forall|k: int| 0 <= k < rows.len() ==> row_fits(#[trigger] rows[k], records)
            &&& forall|k: int|
                0 <= k < rows.len() ==> turn_order(records).take(n as int).contains(
                    row_turn(#[trigger] rows[k]),
                )
        }),
    decreases n,
{
    if n > 0 {
        let order = turn_order(records);
        let turn = order[n - 1];
        let a = rows_of_turns(f, records, (n - 1) as nat);
        let b = turn_rows(f, turn, turn_records(records, turn));
        let rows = a + b;
        turns_fit(f, records, (n - 1) as nat);
        turn_rows_fit(f, records, turn);
        turn_order_lists_each_turn_once(records, turn);
        assert forall|k: int| 0 <= k < rows.len() implies row_fits(#[trigger] rows[k], records)
            && order.take(n as int).contains(row_turn(rows[k])) by {
            if k < a.len() {
                assert(rows[k] == a[k]);
                let m = order.take(n - 1).index_of(row_turn(a[k]));
                assert(order.take(n as int)[m] == row_turn(a[k]));
            } else {
                assert(rows[k] == b[k - a.len()]);
                assert(order.take(n as int)[n - 1] == turn);
            }
        }
        assert forall|i: int, j: int| 0 <= i < j < rows.len() implies !same_row(
            #[trigger] rows[i],
            #[trigger] rows[j],
        ) by {
            if j < a.len() {
                assert(!same_row(a[i], a[j]));
            } else if i >= a.len() {
                assert(!same_row(b[i - a.len()], b[j - a.len()]));
            } else {
                let x = a[i];
                let y = b[j - a.len()];
                assert(row_fits(x, records) && row_fits(y, records));
                let m = order.take(n - 1).index_of(row_turn(x));
                assert(order[m] != order[n - 1]);
                if x.record_id == y.record_id && x.record_id is Some {
                    let id = x.record_id->0;
                    let k = choose|k: int|
                        0 <= k < records.len() && (#[trigger] records[k]).record_id == id
                            && records[k].turn_count == row_turn(x);
                    let l = choose|l: int|
                        0 <= l < records.len() && (#[trigger] records[l]).record_id == id
                            && records[l].turn_count == row_turn(y);
                    assert(k == l) by {
                        if k < l {
                            assert(records[k].record_id != records[l].record_id);
                        } else if l < k {
                            assert(records[l].record_id != records[k].record_id);
                        }
                    }
                }
            }
        }
    }
}

/// No two rows of a ledger stand for the same, and no two have the same key, where no two records have
/// the same id.
pub proof fn row_keys_differ(f: LedgerFilter, records: Seq<TrajectoryRowSummary>, i: int, j: int)
    requires
        unique_ids(records),
        0 <= i < j < ledger(f, records).len(),
    ensures
        !same_row(ledger(f, records)[i], ledger(f, records)[j]),
        ledger(f, records)[i].key != ledger(f, records)[j].key,
{
    let rows = ledger(f, records);
    turns_fit(f, records, turn_order(records).len());
    assert(row_fits(rows[i], records) && row_fits(rows[j], records));
    if rows[i].key == rows[j].key {
        keys_tell_apart(rows[i], rows[j]);
    }
}

// ---------------------------------------------------------------------------
// Every record
// ---------------------------------------------------------------------------
/// Tells whether a ledger shows everything of a turn: it is not folded, tool calls are shown, and nothing is
/// searched for.
pub open spec fn shows_all(f: LedgerFilter, turn: u32) -> bool {
    !f.folded.contains(turn) && f.show_tool_calls && f.tokens.len() == 0
}

/// Tells whether a record of a turn goes without a row: it is context or a message of the user among the
/// children of a request.
pub open spec fn goes_without(turn: Seq<TrajectoryRowSummary>, k: int) -> bool {
    &&& turn[k].kind == TrajectoryKind::Context || turn[k].kind == TrajectoryKind::User
    &&& exists|i: int|
        0 <= i < k && (#[trigger] turn[i]).kind == TrajectoryKind::Request && k < children_end(
            turn,
            i + 1,
            turn[i].record_id,
        )
}

/// Tells whether a row is that of a record.
pub open spec fn is_row_of(row: LedgerRowView, id: u128) -> bool {
    row.record_id == Some(id) && !(row.kind is ToolOnlyPlaceholder)
}

/// Tells whether a record has a row.
pub open spec fn has_row(rows: Seq<LedgerRowView>, id: u128) -> bool {
    exists|k: int| 0 <= k < rows.len() && is_row_of(#[trigger] rows[k], id)
}

proof fn has_row_in_both(a: Seq<LedgerRowView>, b: Seq<LedgerRowView>, id: u128)
    ensures
        has_row(a, id) || has_row(b, id) ==> has_row(a + b, id),
{
    if has_row(a, id) {
        let k = choose|k: int| 0 <= k < a.len() && is_row_of(#[trigger] a[k], id);
        assert(is_row_of((a + b)[k], id));
    }
    if has_row(b, id) {
        let k = choose|k: int| 0 <= k < b.len() && is_row_of(#[trigger] b[k], id);
        assert(is_row_of((a + b)[a.len() + k], id));
    }
}

proof fn child_has_row(f: LedgerFilter, children: Seq<TrajectoryRowSummary>, k: int)
    requires
        f.show_tool_calls,
        f.tokens.len() == 0,
        0 <= k < children.len(),
        children[k].kind == TrajectoryKind::Assistant || children[k].kind == TrajectoryKind::Tool,
    ensures
        has_row(children_rows(f, children), children[k].record_id),
    decreases children.len(),
{
    let head = children.drop_last();
    let last = children.last();
    let id = children[k].record_id;
    if k < head.len() {
        child_has_row(f, head, k);
    } else {
        assert(is_row_of(child_rows(f, last)[0], id));
    }
    has_row_in_both(children_rows(f, head), child_rows(f, last), id);
}

proof fn record_has_row(f: LedgerFilter, turn: Seq<TrajectoryRowSummary>, i: int, k: int)
    requires
        f.show_tool_calls,
        f.tokens.len() == 0,
        0 <= i <= k < turn.len(),
        !goes_without(turn, k),
    ensures
        has_row(rows_from(f, turn, i), turn[k].record_id),
    decreases turn.len() - i,
{
    let r = turn[i];
    let id = turn[k].record_id;
    if r.kind == TrajectoryKind::Request {
        children_end_is_within(turn, i + 1, r.record_id);
        let end = children_end(turn, i + 1, r.record_id);
        let children = turn.subrange(i + 1, end);
        let rows = request_rows(f, r, children);
        let kids = children_rows(f, children);
        let before = rows.take(rows.len() - kids.len());
        assert(rows =~= before + kids);
        if k == i {
            assert(is_row_of(rows[0], id));
        } else if k < end {
            assert(is_child(turn[k], r.record_id));
            assert(children[k - i - 1] == turn[k]);
            child_has_row(f, children, k - i - 1);
            has_row_in_both(before, kids, id);
        } else {
            record_has_row(f, turn, end, k);
        }
        has_row_in_both(rows, rows_from(f, turn, end), id);
    } else {
        if k == i {
            assert(is_row_of(own_rows(f, r)[0], id));
        } else {
            record_has_row(f, turn, i + 1, k);
        }
        has_row_in_both(own_rows(f, r), rows_from(f, turn, i + 1), id);
    }
}

proof fn turn_has_row(f: LedgerFilter, records: Seq<TrajectoryRowSummary>, m: int, n: nat, id: u128)
    requires
        0 <= m < n <= turn_order(records).len(),
        ({
            let turn = turn_order(records)[m];
            has_row(turn_rows(f, turn, turn_records(records, turn)), id)
        }),
    ensures
        has_row(rows_of_turns(f, records, n), id),
    decreases n,
{
    let turn = turn_order(records)[n - 1];
    let before = rows_of_turns(f, records, (n - 1) as nat);
    if m < n - 1 {
        turn_has_row(f, records, m, (n - 1) as nat, id);
    }
    has_row_in_both(before, turn_rows(f, turn, turn_records(records, turn)), id);
}

/// A ledger that shows everything of a turn has exactly one row for each record of the turn, but for context
/// and messages of the user among the children of a request, which have none.
pub proof fn every_record_has_one_row(
    f: LedgerFilter,
    records: Seq<TrajectoryRowSummary>,
    turn: u32,
    k: int,
)
    requires
        unique_ids(records),
        shows_all(f, turn),
        0 <= k < turn_records(records, turn).len(),
        !goes_without(turn_records(records, turn), k),
    ensures
        ({
            let id = turn_records(records, turn)[k].record_id;
            let rows = ledger(f, records);
            &&& has_row(rows, id)
            &&& forall|i: int, j: int|
                0 <= i < rows.len() && 0 <= j < rows.len() && is_row_of(#[trigger] rows[i], id)
                    && is_row_of(#[trigger] rows[j], id) ==> i == j
        }),
{
    let group = turn_records(records, turn);
    let id = group[k].record_id;
    let rows = ledger(f, records);
    record_has_row(f, group, 0, k);
    has_row_in_both(seq![divider(f, turn, group)], rows_from(f, group, 0), id);
    rows_are_of_their_turn(f, records, turn);
    assert(has_record(group, id));
    turn_has(records, turn, id);
    let p = choose|p: int|
        0 <= p < records.len() && (#[trigger] records[p]).record_id == id && records[p].turn_count
            == turn;
    turn_order_lists_each_turn_once(records, turn);
    assert(records[p].turn_count == turn);
    let m = turn_order(records).index_of(turn);
    turn_has_row(f, records, m, turn_order(records).len(), id);
    turns_fit(f, records, turn_order(records).len());
    assert forall|i: int, j: int|
        0 <= i < rows.len() && 0 <= j < rows.len() && is_row_of(#[trigger] rows[i], id) && is_row_of(
            #[trigger] rows[j],
            id,
        ) implies i == j by {
        if i < j {
            assert(!same_row(rows[i], rows[j]));
        } else if j < i {
            assert(!same_row(rows[j], rows[i]));
        }
    }
}

} // verus!
