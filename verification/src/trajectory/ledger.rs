//! The ledger of a trajectory: one divider for each turn, and below it the turn's
//! records with the answers and tool calls of each request indented under it.
use crate::ids::{hyphenated, uuid_text};
use crate::text::{concat, decimal, decimal_text, views};
use crate::trajectory::record::{TrajectoryKind, TrajectoryRowSummary};
use crate::trajectory::search::{index_view, matches_and_search, search_matches};
use std::collections::{HashMap, HashSet};
use vstd::prelude::*;

verus! {

broadcast use vstd::std_specs::hash::group_hash_axioms;

/// What a row of the ledger shows.
#[derive(Debug)]
pub enum TrajectoryLedgerRowKind {
    System { record: TrajectoryRowSummary },
    TurnDivider {
        turn_count: u32,
        collapsed: bool,
        record_count: usize,
        total_duration_ms: Option<i64>,
    },
    StepRequest { record: TrajectoryRowSummary, children_count: usize },
    Assistant { record: TrajectoryRowSummary },
    Tool { record: TrajectoryRowSummary },
    Context { record: TrajectoryRowSummary },
    ToolOnlyPlaceholder {
        parent_record_id: Option<u128>,
        step: u32,
        turn_count: u32,
        duration_ms: Option<i64>,
    },
}

/// A row of the ledger.
#[derive(Debug)]
pub struct TrajectoryLedgerRow {
    pub key: String,
    pub record_id: Option<u128>,
    pub kind: TrajectoryLedgerRowKind,
    pub depth: u32,
}

/// The contents of a row of the ledger.
pub ghost struct LedgerRowView {
    pub key: Seq<char>,
    pub record_id: Option<u128>,
    pub kind: TrajectoryLedgerRowKind,
    pub depth: u32,
}

impl View for TrajectoryLedgerRow {
    type V = LedgerRowView;

    open spec fn view(&self) -> LedgerRowView {
        LedgerRowView {
            key: self.key@,
            record_id: self.record_id,
            kind: self.kind,
            depth: self.depth,
        }
    }
}

/// The contents of the rows of a ledger.
pub open spec fn row_views(rows: Seq<TrajectoryLedgerRow>) -> Seq<LedgerRowView> {
    Seq::new(rows.len(), |i: int| rows[i]@)
}

// ---------------------------------------------------------------------------
// Turns
// ---------------------------------------------------------------------------
/// The turns of a list of records, in the order in which they first occur.
pub open spec fn turn_order(records: Seq<TrajectoryRowSummary>) -> Seq<u32>
    decreases records.len(),
{
    if records.len() == 0 {
        Seq::empty()
    } else {
        let before = turn_order(records.drop_last());
        if before.contains(records.last().turn_count) {
            before
        } else {
            before.push(records.last().turn_count)
        }
    }
}

/// The records of one turn.
pub open spec fn turn_records(
    records: Seq<TrajectoryRowSummary>,
    turn: u32,
) -> Seq<TrajectoryRowSummary> {
    records.filter(|r: TrajectoryRowSummary| r.turn_count == turn)
}

/// A sum that stops at the bounds of its type.
pub open spec fn saturating_sum(a: i64, b: i64) -> i64 {
    if a + b > i64::MAX {
        i64::MAX
    } else if a + b < i64::MIN {
        i64::MIN
    } else {
        (a + b) as i64
    }
}

/// Adds two numbers, stopping at the bounds of their type.
pub fn saturating_add(a: i64, b: i64) -> (r: i64)
    ensures
        r == saturating_sum(a, b),
{
    let wide: i128 = a as i128 + b as i128;
    if wide > i64::MAX as i128 {
        i64::MAX
    } else if wide < i64::MIN as i128 {
        i64::MIN
    } else {
        wide as i64
    }
}

/// The sum of the durations that are known, or nothing where none is.
pub open spec fn total_duration(records: Seq<TrajectoryRowSummary>) -> Option<i64>
    decreases records.len(),
{
    if records.len() == 0 {
        None
    } else {
        match (total_duration(records.drop_last()), records.last().duration_ms) {
            (Some(sum), Some(ms)) => Some(saturating_sum(sum, ms)),
            (None, Some(ms)) => Some(ms),
            (sum, None) => sum,
        }
    }
}

// ---------------------------------------------------------------------------
// Rows
// ---------------------------------------------------------------------------
/// What decides which rows are shown.
pub ghost struct LedgerFilter {
    pub folded: Set<u32>,
    pub show_tool_calls: bool,
    pub tokens: Seq<Seq<char>>,
    pub index: Map<u128, Seq<char>>,
}

/// What the given switches and search decide by.
pub open spec fn ledger_filter(
    folded: Set<u32>,
    show_tool_calls: bool,
    tokens: Seq<Seq<char>>,
    index: Map<u128, Seq<char>>,
) -> LedgerFilter {
    LedgerFilter { folded, show_tool_calls, tokens, index }
}

/// Tells whether the search finds a record.
pub open spec fn found(f: LedgerFilter, r: TrajectoryRowSummary) -> bool {
    search_matches(r.record_id, f.tokens, f.index)
}

/// The row of a record, with a key made of `prefix` and the record's id.
pub open spec fn record_row(
    prefix: Seq<char>,
    r: TrajectoryRowSummary,
    kind: TrajectoryLedgerRowKind,
    depth: u32,
) -> LedgerRowView {
    LedgerRowView { key: prefix + hyphenated(r.record_id), record_id: Some(r.record_id), kind, depth }
}

/// The rows of a record that stands on its own.
pub open spec fn own_rows(f: LedgerFilter, r: TrajectoryRowSummary) -> Seq<LedgerRowView> {
    if !found(f, r) {
        Seq::empty()
    } else {
        match r.kind {
            TrajectoryKind::System => seq![
                record_row("system-"@, r, TrajectoryLedgerRowKind::System { record: r }, 1),
            ],
            TrajectoryKind::Context => seq![
                record_row("context-"@, r, TrajectoryLedgerRowKind::Context { record: r }, 1),
            ],
            TrajectoryKind::User => seq![
                record_row("user-"@, r, TrajectoryLedgerRowKind::Context { record: r }, 1),
            ],
            TrajectoryKind::Assistant => seq![
                record_row("assistant-"@, r, TrajectoryLedgerRowKind::Assistant { record: r }, 1),
            ],
            TrajectoryKind::Tool => if f.show_tool_calls {
                seq![record_row("tool-"@, r, TrajectoryLedgerRowKind::Tool { record: r }, 1)]
            } else {
                Seq::empty()
            },
            TrajectoryKind::Request => Seq::empty(),
        }
    }
}

/// Tells whether a record belongs to a request.
pub open spec fn is_child(r: TrajectoryRowSummary, request: u128) -> bool {
    r.kind != TrajectoryKind::Request && r.kind != TrajectoryKind::System && (r.parent_record_id
        == Some(request) || r.request_id == Some(request))
}

/// The end of the unbroken run of a request's children that starts at `j`.
pub open spec fn children_end(turn: Seq<TrajectoryRowSummary>, j: int, request: u128) -> int
    decreases turn.len() - j,
{
    if 0 <= j < turn.len() && is_child(turn[j], request) {
        children_end(turn, j + 1, request)
    } else {
        j
    }
}

/// The rows of a request's child.
pub open spec fn child_rows(f: LedgerFilter, r: TrajectoryRowSummary) -> Seq<LedgerRowView> {
    if r.kind == TrajectoryKind::Assistant && found(f, r) {
        seq![record_row("assistant-"@, r, TrajectoryLedgerRowKind::Assistant { record: r }, 2)]
    } else if r.kind == TrajectoryKind::Tool && f.show_tool_calls && found(f, r) {
        seq![record_row("tool-"@, r, TrajectoryLedgerRowKind::Tool { record: r }, 2)]
    } else {
        Seq::empty()
    }
}

/// The rows of a list of children.
pub open spec fn children_rows(
    f: LedgerFilter,
    children: Seq<TrajectoryRowSummary>,
) -> Seq<LedgerRowView>
    decreases children.len(),
{
    if children.len() == 0 {
        Seq::empty()
    } else {
        children_rows(f, children.drop_last()) + child_rows(f, children.last())
    }
}

/// Tells whether a record of the given kind is among the records.
pub open spec fn has_kind(records: Seq<TrajectoryRowSummary>, kind: TrajectoryKind) -> bool {
    exists|i: int| 0 <= i < records.len() && #[trigger] records[i].kind == kind
}

/// The rows of a request and its children: the request, a placeholder where it only
/// called tools, and its children.
pub open spec fn request_rows(
    f: LedgerFilter,
    r: TrajectoryRowSummary,
    children: Seq<TrajectoryRowSummary>,
) -> Seq<LedgerRowView> {
    let head = if found(f, r) {
        seq![
            record_row(
                "request-"@,
                r,
                TrajectoryLedgerRowKind::StepRequest {
                    record: r,
                    children_count: children.len() as usize,
                },
                1,
            ),
        ]
    } else {
        Seq::empty()
    };
    let placeholder = if has_kind(children, TrajectoryKind::Tool) && !has_kind(
        children,
        TrajectoryKind::Assistant,
    ) && f.show_tool_calls && f.tokens.len() == 0 {
        seq![
            record_row(
                "tool-only-placeholder-"@,
                r,
                TrajectoryLedgerRowKind::ToolOnlyPlaceholder {
                    parent_record_id: Some(r.record_id),
                    step: r.step,
                    turn_count: r.turn_count,
                    duration_ms: r.duration_ms,
                },
                2,
            ),
        ]
    } else {
        Seq::empty()
    };
    head + placeholder + children_rows(f, children)
}

/// The rows of a turn from its `i`-th record on.
pub open spec fn rows_from(
    f: LedgerFilter,
    turn: Seq<TrajectoryRowSummary>,
    i: int,
) -> Seq<LedgerRowView>
    decreases turn.len() - i,
{
    if i < 0 || i >= turn.len() {
        Seq::empty()
    } else if turn[i].kind == TrajectoryKind::Request {
        let end = children_end(turn, i + 1, turn[i].record_id);
        if i < end <= turn.len() {
            request_rows(f, turn[i], turn.subrange(i + 1, end)) + rows_from(f, turn, end)
        } else {
            Seq::empty()
        }
    } else {
        own_rows(f, turn[i]) + rows_from(f, turn, i + 1)
    }
}

/// The divider of a turn.
pub open spec fn divider(
    f: LedgerFilter,
    turn: u32,
    records: Seq<TrajectoryRowSummary>,
) -> LedgerRowView {
    LedgerRowView {
        key: "turn-divider-"@ + decimal(turn as nat),
        record_id: None,
        kind: TrajectoryLedgerRowKind::TurnDivider {
            turn_count: turn,
            collapsed: f.folded.contains(turn),
            record_count: records.len() as usize,
            total_duration_ms: total_duration(records),
        },
        depth: 0,
    }
}

/// The rows of a turn: its divider, and the rows of its records unless it is folded.
pub open spec fn turn_rows(
    f: LedgerFilter,
    turn: u32,
    records: Seq<TrajectoryRowSummary>,
) -> Seq<LedgerRowView> {
    seq![divider(f, turn, records)] + (if f.folded.contains(turn) {
        Seq::empty()
    } else {
        rows_from(f, records, 0)
    })
}

/// The rows of the first `n` turns.
pub open spec fn rows_of_turns(
    f: LedgerFilter,
    records: Seq<TrajectoryRowSummary>,
    n: nat,
) -> Seq<LedgerRowView>
    decreases n,
{
    if n == 0 {
        Seq::empty()
    } else {
        let turn = turn_order(records)[n - 1];
        rows_of_turns(f, records, (n - 1) as nat) + turn_rows(f, turn, turn_records(records, turn))
    }
}

/// The rows of the ledger.
pub open spec fn ledger(f: LedgerFilter, records: Seq<TrajectoryRowSummary>) -> Seq<
    LedgerRowView,
> {
    rows_of_turns(f, records, turn_order(records).len())
}

// ---------------------------------------------------------------------------
// Building the rows
// ---------------------------------------------------------------------------
fn collect_turns(records: &[TrajectoryRowSummary]) -> (r: Vec<u32>)
    ensures
        r@ == turn_order(records@),
{
    let mut turns: Vec<u32> = Vec::new();
    let mut seen: HashSet<u32> = HashSet::new();
    for i in 0..records.len()
        invariant
            turns@ == turn_order(records@.take(i as int)),
            forall|t: u32| seen@.contains(t) <==> turns@.contains(t),
    {
        let turn: u32 = records[i].turn_count;
        assert(records@.take(i as int + 1).drop_last() =~= records@.take(i as int));
        let ghost before = turns@;
        if !seen.contains(&turn) {
            seen.insert(turn);
            turns.push(turn);
            assert forall|t: u32| seen@.contains(t) <==> turns@.contains(t) by {
                if before.contains(t) {
                    assert(turns@[before.index_of(t)] == t);
                }
                if t == turn {
                    assert(turns@[before.len() as int] == t);
                }
                if turns@.contains(t) && t != turn {
                    assert(before[turns@.index_of(t)] == t);
                }
            }
        }
    }
    assert(records@.take(records@.len() as int) =~= records@);
    turns
}

fn collect_turn(records: &[TrajectoryRowSummary], turn: u32) -> (r: Vec<TrajectoryRowSummary>)
    ensures
        r@ == turn_records(records@, turn),
{
    let mut r: Vec<TrajectoryRowSummary> = Vec::new();
    proof {
        reveal(Seq::filter);
    }
    for i in 0..records.len()
        invariant
            r@ == turn_records(records@.take(i as int), turn),
    {
        proof {
            reveal(Seq::filter);
            assert(records@.take(i as int + 1).drop_last() =~= records@.take(i as int));
        }
        if records[i].turn_count == turn {
            r.push(records[i].clone());
        }
    }
    assert(records@.take(records@.len() as int) =~= records@);
    r
}

fn sum_durations(records: &[TrajectoryRowSummary]) -> (r: Option<i64>)
    ensures
        r == total_duration(records@),
{
    let mut sum: Option<i64> = None;
    for i in 0..records.len()
        invariant
            sum == total_duration(records@.take(i as int)),
    {
        assert(records@.take(i as int + 1).drop_last() =~= records@.take(i as int));
        sum = match (sum, records[i].duration_ms) {
            (Some(a), Some(b)) => Some(saturating_add(a, b)),
            (None, Some(b)) => Some(b),
            (a, None) => a,
        };
    }
    assert(records@.take(records@.len() as int) =~= records@);
    sum
}

fn push_record_row(
    rows: &mut Vec<TrajectoryLedgerRow>,
    prefix: &str,
    record: &TrajectoryRowSummary,
    kind: TrajectoryLedgerRowKind,
    depth: u32,
)
    ensures
        row_views(final(rows)@) == row_views(old(rows)@) + seq![
            record_row(prefix@, *record, kind, depth),
        ],
{
    let key = concat(prefix, uuid_text(record.record_id).as_str());
    rows.push(TrajectoryLedgerRow { key, record_id: Some(record.record_id), kind, depth });
    assert(row_views(rows@) =~= row_views(old(rows)@) + seq![
        record_row(prefix@, *record, kind, depth),
    ]);
}

fn any_of_kind(
    records: &[TrajectoryRowSummary],
    from: usize,
    to: usize,
    kind: TrajectoryKind,
) -> (r: bool)
    requires
        from <= to <= records@.len(),
    ensures
        r == has_kind(records@.subrange(from as int, to as int), kind),
{
    let ghost part = records@.subrange(from as int, to as int);
    for i in from..to
        invariant
            from <= i <= to <= records@.len(),
            part == records@.subrange(from as int, to as int),
            forall|k: int| 0 <= k < i - from ==> (#[trigger] part[k]).kind != kind,
    {
        assert(part[i - from] == records@[i as int]);
        if records[i].kind == kind {
            return true;
        }
    }
    false
}

/// The switches and the search that decide which rows the ledger shows.
pub struct LedgerSwitches<'a> {
    pub folded_turns: &'a HashSet<u32>,
    pub show_tool_calls: bool,
    pub search_tokens: &'a [String],
    pub search_index: &'a HashMap<u128, String>,
}

impl<'a> LedgerSwitches<'a> {
    /// What the switches and the search decide by.
    pub open spec fn filter(&self) -> LedgerFilter {
        ledger_filter(
            self.folded_turns@,
            self.show_tool_calls,
            views(self.search_tokens@),
            index_view(self.search_index@),
        )
    }

    fn finds(&self, record: &TrajectoryRowSummary) -> (r: bool)
        ensures
            r == found(self.filter(), *record),
    {
        matches_and_search(record.record_id, self.search_tokens, self.search_index)
    }

    fn push_own(&self, rows: &mut Vec<TrajectoryLedgerRow>, record: &TrajectoryRowSummary)
        requires
            record.kind != TrajectoryKind::Request,
        ensures
            row_views(final(rows)@) == row_views(old(rows)@) + own_rows(self.filter(), *record),
    {
        if self.finds(record) {
            match record.kind {
                TrajectoryKind::System => push_record_row(
                    rows,
                    "system-",
                    record,
                    TrajectoryLedgerRowKind::System { record: record.clone() },
                    1,
                ),
                TrajectoryKind::Context => push_record_row(
                    rows,
                    "context-",
                    record,
                    TrajectoryLedgerRowKind::Context { record: record.clone() },
                    1,
                ),
                TrajectoryKind::User => push_record_row(
                    rows,
                    "user-",
                    record,
                    TrajectoryLedgerRowKind::Context { record: record.clone() },
                    1,
                ),
                TrajectoryKind::Assistant => push_record_row(
                    rows,
                    "assistant-",
                    record,
                    TrajectoryLedgerRowKind::Assistant { record: record.clone() },
                    1,
                ),
                TrajectoryKind::Tool => {
                    if self.show_tool_calls {
                        push_record_row(
                            rows,
                            "tool-",
                            record,
                            TrajectoryLedgerRowKind::Tool { record: record.clone() },
                            1,
                        );
                    } else {
                        assert(row_views(rows@) =~= row_views(rows@) + Seq::empty());
                    }
                },
                TrajectoryKind::Request => {},
            }
        } else {
            assert(row_views(rows@) =~= row_views(rows@) + Seq::empty());
        }
    }

    fn push_child(&self, rows: &mut Vec<TrajectoryLedgerRow>, record: &TrajectoryRowSummary)
        ensures
            row_views(final(rows)@) == row_views(old(rows)@) + child_rows(self.filter(), *record),
    {
        let shown = self.finds(record);
        if record.kind == TrajectoryKind::Assistant && shown {
            push_record_row(
                rows,
                "assistant-",
                record,
                TrajectoryLedgerRowKind::Assistant { record: record.clone() },
                2,
            );
        } else if record.kind == TrajectoryKind::Tool && self.show_tool_calls && shown {
            push_record_row(
                rows,
                "tool-",
                record,
                TrajectoryLedgerRowKind::Tool { record: record.clone() },
                2,
            );
        } else {
            assert(row_views(rows@) =~= row_views(rows@) + Seq::empty());
        }
    }

    fn push_request(
        &self,
        rows: &mut Vec<TrajectoryLedgerRow>,
        turn: &[TrajectoryRowSummary],
        at: usize,
        end: usize,
    )
        requires
            at < end <= turn@.len(),
        ensures
            row_views(final(rows)@) == row_views(old(rows)@) + request_rows(
                self.filter(),
                turn@[at as int],
                turn@.subrange(at + 1, end as int),
            ),
    {
        let record = &turn[at];
        let ghost children = turn@.subrange(at + 1, end as int);
        let ghost start = row_views(rows@);
        let ghost f = self.filter();
        let ghost head = if found(f, *record) {
            seq![
                record_row(
                    "request-"@,
                    *record,
                    TrajectoryLedgerRowKind::StepRequest {
                        record: *record,
                        children_count: children.len() as usize,
                    },
                    1,
                ),
            ]
        } else {
            Seq::empty()
        };
        if self.finds(record) {
            push_record_row(
                rows,
                "request-",
                record,
                TrajectoryLedgerRowKind::StepRequest {
                    record: record.clone(),
                    children_count: end - at - 1,
                },
                1,
            );
        }
        assert(row_views(rows@) =~= start + head);
        let has_assistant = any_of_kind(turn, at + 1, end, TrajectoryKind::Assistant);
        let has_tools = any_of_kind(turn, at + 1, end, TrajectoryKind::Tool);
        let ghost placeholder = if has_kind(children, TrajectoryKind::Tool) && !has_kind(
            children,
            TrajectoryKind::Assistant,
        ) && f.show_tool_calls && f.tokens.len() == 0 {
            seq![
                record_row(
                    "tool-only-placeholder-"@,
                    *record,
                    TrajectoryLedgerRowKind::ToolOnlyPlaceholder {
                        parent_record_id: Some(record.record_id),
                        step: record.step,
                        turn_count: record.turn_count,
                        duration_ms: record.duration_ms,
                    },
                    2,
                ),
            ]
        } else {
            Seq::empty()
        };
        if has_tools && !has_assistant && self.show_tool_calls && self.search_tokens.len() == 0 {
            push_record_row(
                rows,
                "tool-only-placeholder-",
                record,
                TrajectoryLedgerRowKind::ToolOnlyPlaceholder {
                    parent_record_id: Some(record.record_id),
                    step: record.step,
                    turn_count: record.turn_count,
                    duration_ms: record.duration_ms,
                },
                2,
            );
        }
        assert(row_views(rows@) =~= start + head + placeholder);
        for i in at + 1..end
            invariant
                at + 1 <= i <= end <= turn@.len(),
                children == turn@.subrange(at + 1, end as int),
                f == self.filter(),
                row_views(rows@) == start + head + placeholder + children_rows(
                    f,
                    children.take(i - at - 1),
                ),
        {
            self.push_child(rows, &turn[i]);
            let ghost next = children.take(i - at);
            assert(next.drop_last() =~= children.take(i - at - 1));
            assert(next.last() == turn@[i as int]);
            assert(row_views(rows@) =~= start + head + placeholder + children_rows(f, next));
        }
        assert(children.take(end - at - 1) =~= children);
        assert(row_views(rows@) =~= start + (head + placeholder + children_rows(f, children)));
    }

    fn push_turn(
        &self,
        rows: &mut Vec<TrajectoryLedgerRow>,
        turn: u32,
        records: &[TrajectoryRowSummary],
    )
        ensures
            row_views(final(rows)@) == row_views(old(rows)@) + turn_rows(
                self.filter(),
                turn,
                records@,
            ),
    {
        let ghost start = row_views(rows@);
        let ghost f = self.filter();
        let collapsed = self.folded_turns.contains(&turn);
        let key = concat("turn-divider-", decimal_text(turn as u64).as_str());
        rows.push(
            TrajectoryLedgerRow {
                key,
                record_id: None,
                kind: TrajectoryLedgerRowKind::TurnDivider {
                    turn_count: turn,
                    collapsed,
                    record_count: records.len(),
                    total_duration_ms: sum_durations(records),
                },
                depth: 0,
            },
        );
        let ghost head = seq![divider(f, turn, records@)];
        assert(row_views(rows@) =~= start + head);
        if collapsed {
            assert(row_views(rows@) =~= start + (head + Seq::empty()));
            return ;
        }
        let mut i: usize = 0;
        while i < records.len()
            invariant
                i <= records@.len(),
                f == self.filter(),
                row_views(rows@) + rows_from(f, records@, i as int) == start + head + rows_from(
                    f,
                    records@,
                    0,
                ),
            decreases records@.len() - i,
        {
            let ghost before = row_views(rows@);
            if records[i].kind == TrajectoryKind::Request {
                let request: u128 = records[i].record_id;
                let mut j: usize = i + 1;
                while j < records.len() && records[j].kind != TrajectoryKind::Request
                    && records[j].kind != TrajectoryKind::System && (is_id(
                    records[j].parent_record_id,
                    request,
                ) || is_id(records[j].request_id, request))
                    invariant
                        i < j <= records@.len(),
                        children_end(records@, i + 1, request) == children_end(
                            records@,
                            j as int,
                            request,
                        ),
                    decreases records@.len() - j,
                {
                    j = j + 1;
                }
                assert(children_end(records@, i + 1, request) == j);
                self.push_request(rows, records, i, j);
                let ghost added = request_rows(
                    f,
                    records@[i as int],
                    records@.subrange(i + 1, j as int),
                );
                assert(before + (added + rows_from(f, records@, j as int)) =~= row_views(rows@)
                    + rows_from(f, records@, j as int));
                i = j;
            } else {
                self.push_own(rows, &records[i]);
                let ghost added = own_rows(f, records@[i as int]);
                assert(before + (added + rows_from(f, records@, i + 1)) =~= row_views(rows@)
                    + rows_from(f, records@, i + 1));
                i = i + 1;
            }
        }
        assert(row_views(rows@) + Seq::empty() =~= row_views(rows@));
        assert(start + head + rows_from(f, records@, 0) =~= start + (head + rows_from(
            f,
            records@,
            0,
        )));
    }

    /// The rows of the ledger of these records.
    pub fn build(&self, records: &[TrajectoryRowSummary]) -> (rows: Vec<TrajectoryLedgerRow>)
        ensures
            row_views(rows@) == ledger(self.filter(), records@),
    {
        let mut rows: Vec<TrajectoryLedgerRow> = Vec::new();
        let turns = collect_turns(records);
        assert(row_views(rows@) =~= Seq::empty());
        for n in 0..turns.len()
            invariant
                turns@ == turn_order(records@),
                row_views(rows@) == rows_of_turns(self.filter(), records@, n as nat),
        {
            let turn: u32 = turns[n];
            let group = collect_turn(records, turn);
            self.push_turn(&mut rows, turn, group.as_slice());
        }
        rows
    }
}

fn is_id(id: Option<u128>, wanted: u128) -> (r: bool)
    ensures
        r == (id == Some(wanted)),
{
    match id {
        Some(n) => n == wanted,
        None => false,
    }
}

/// The rows of the ledger of these records: one divider for each turn in the order in
/// which the turns first occur, and below each turn that is not folded the records that
/// the search finds.
pub fn build_ledger_rows(
    records: &[TrajectoryRowSummary],
    folded_turns: &HashSet<u32>,
    show_tool_calls: bool,
    search_tokens: &[String],
    search_index: &HashMap<u128, String>,
) -> (rows: Vec<TrajectoryLedgerRow>)
    ensures
        row_views(rows@) == ledger(
            ledger_filter(
                folded_turns@,
                show_tool_calls,
                views(search_tokens@),
                index_view(search_index@),
            ),
            records@,
        ),
{
    LedgerSwitches { folded_turns, show_tool_calls, search_tokens, search_index }.build(records)
}

} // verus!
