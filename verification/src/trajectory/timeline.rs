//! The timeline of a trajectory: one bar for each record, in the lane of the record.
use crate::text::opt_view;
use crate::trajectory::duration::{format_known_duration, known_duration};
use crate::trajectory::ledger::{saturating_add, saturating_sum};
use crate::trajectory::record::{
    TrajectoryKind, TrajectoryLane, TrajectoryRowSummary, TrajectoryStatus,
};
use std::collections::HashMap;
use vstd::prelude::*;

verus! {

broadcast use vstd::std_specs::hash::group_hash_axioms;

/// A share of the timeline's width, as a fraction.
#[derive(Clone, Copy, Debug, PartialEq, Eq, Structural)]
pub struct Ratio {
    pub numer: u128,
    pub denom: u128,
}

/// The bar of a record.
#[derive(Debug)]
pub struct TimelineSpan {
    pub record_id: u128,
    pub lane: TrajectoryLane,
    pub kind: TrajectoryKind,
    pub status: TrajectoryStatus,
    pub title: String,
    pub start_pct: Ratio,
    pub width_pct: Ratio,
    pub has_timing: bool,
    /// The duration in words, where it is known.
    pub duration_text: Option<String>,
}

/// The bars of a trajectory by lane, and the time that they span.
#[derive(Debug)]
pub struct TimelineLayout {
    pub input_spans: Vec<TimelineSpan>,
    pub model_spans: Vec<TimelineSpan>,
    pub tools_spans: Vec<TimelineSpan>,
    pub min_time_ms: i64,
    pub max_time_ms: i64,
    pub total_duration_ms: u64,
    pub has_any_timing: bool,
}

/// The contents of a bar.
pub ghost struct SpanView {
    pub record_id: u128,
    pub lane: TrajectoryLane,
    pub kind: TrajectoryKind,
    pub status: TrajectoryStatus,
    pub title: Seq<char>,
    pub start_pct: Ratio,
    pub width_pct: Ratio,
    pub has_timing: bool,
    pub duration_text: Option<Seq<char>>,
}

impl View for TimelineSpan {
    type V = SpanView;

    open spec fn view(&self) -> SpanView {
        SpanView {
            record_id: self.record_id,
            lane: self.lane,
            kind: self.kind,
            status: self.status,
            title: self.title@,
            start_pct: self.start_pct,
            width_pct: self.width_pct,
            has_timing: self.has_timing,
            duration_text: opt_view(self.duration_text),
        }
    }
}

/// The contents of the bars of a lane.
pub open spec fn span_views(spans: Seq<TimelineSpan>) -> Seq<SpanView> {
    Seq::new(spans.len(), |i: int| spans[i]@)
}

/// The contents of a timeline.
#[verifier::ext_equal]
pub ghost struct TimelineView {
    pub input_spans: Seq<SpanView>,
    pub model_spans: Seq<SpanView>,
    pub tools_spans: Seq<SpanView>,
    pub min_time_ms: i64,
    pub max_time_ms: i64,
    pub total_duration_ms: u64,
    pub has_any_timing: bool,
}

impl View for TimelineLayout {
    type V = TimelineView;

    open spec fn view(&self) -> TimelineView {
        TimelineView {
            input_spans: span_views(self.input_spans@),
            model_spans: span_views(self.model_spans@),
            tools_spans: span_views(self.tools_spans@),
            min_time_ms: self.min_time_ms,
            max_time_ms: self.max_time_ms,
            total_duration_ms: self.total_duration_ms,
            has_any_timing: self.has_any_timing,
        }
    }
}

impl Default for TimelineLayout {
    /// A timeline without bars.
    fn default() -> (r: Self)
        ensures
            r@ == timeline(Seq::empty()),
    {
        let r = TimelineLayout {
            input_spans: Vec::new(),
            model_spans: Vec::new(),
            tools_spans: Vec::new(),
            min_time_ms: 0,
            max_time_ms: 0,
            total_duration_ms: 0,
            has_any_timing: false,
        };
        assert(r@ =~= timeline(Seq::empty()));
        r
    }
}

// ---------------------------------------------------------------------------
// Times
// ---------------------------------------------------------------------------
/// The end of a record that started at `start`: when it completed, else its start and its
/// duration, else its start.
pub open spec fn end_time(r: TrajectoryRowSummary, start: i64) -> i64 {
    match (r.completed_at_ms, r.duration_ms) {
        (Some(end), _) => end,
        (None, Some(ms)) => saturating_sum(start, ms),
        (None, None) => start,
    }
}

/// The start and the end that a record states itself.
pub open spec fn own_times(r: TrajectoryRowSummary) -> Option<(i64, i64)> {
    match (r.started_at_ms, r.completed_at_ms) {
        (Some(start), _) => Some((start, end_time(r, start))),
        (None, Some(end)) => Some((end, end)),
        (None, None) => None,
    }
}

/// The earliest start and the latest end among the records, where any states its times.
pub open spec fn time_bounds(records: Seq<TrajectoryRowSummary>) -> Option<(i64, i64)>
    decreases records.len(),
{
    if records.len() == 0 {
        None
    } else {
        match (time_bounds(records.drop_last()), own_times(records.last())) {
            (Some(b), Some(t)) => Some(
                (
                    if t.0 < b.0 {
                        t.0
                    } else {
                        b.0
                    },
                    if t.1 > b.1 {
                        t.1
                    } else {
                        b.1
                    },
                ),
            ),
            (None, t) => t,
            (b, None) => b,
        }
    }
}

/// The start and the end of the last request with the given id that states its start.
pub open spec fn request_times(records: Seq<TrajectoryRowSummary>, id: u128) -> Option<(i64, i64)>
    decreases records.len(),
{
    if records.len() == 0 {
        None
    } else {
        let r = records.last();
        if r.kind == TrajectoryKind::Request && r.started_at_ms is Some && r.record_id == id {
            own_times(r)
        } else {
            request_times(records.drop_last(), id)
        }
    }
}

/// The request that a record belongs to.
pub open spec fn owner(r: TrajectoryRowSummary) -> Option<u128> {
    if r.parent_record_id is Some {
        r.parent_record_id
    } else {
        r.request_id
    }
}

/// The times that a record is drawn with: its own where it states its start, those of its
/// request where it is an answer, else the moment when it completed.
pub open spec fn drawn_times(
    records: Seq<TrajectoryRowSummary>,
    r: TrajectoryRowSummary,
) -> Option<(i64, i64)> {
    if r.started_at_ms is Some {
        own_times(r)
    } else if r.kind == TrajectoryKind::Assistant && owner(r) is Some && request_times(
        records,
        owner(r)->0,
    ) is Some {
        request_times(records, owner(r)->0)
    } else {
        own_times(r)
    }
}

// ---------------------------------------------------------------------------
// Bars
// ---------------------------------------------------------------------------

/// The bar of a record that starts `offset` into a span of `total` and lasts for `length`: at
/// least a fiftieth wide, and at most a fiftieth past the end.
pub open spec fn timed_bar(offset: int, length: int, total: int) -> (Ratio, Ratio) {
    let start = if offset < total {
        offset
    } else {
        total
    };
    let raw = if length < 0 {
        0
    } else if length < total {
        length
    } else {
        total
    };
    let wide = if 50 * raw > total {
        50 * raw
    } else {
        total
    };
    let room = 50 * (total - start) + total;
    (
        Ratio { numer: start as u128, denom: total as u128 },
        Ratio {
            numer: (if wide < room {
                wide
            } else {
                room
            }) as u128,
            denom: (50 * total) as u128,
        },
    )
}

/// The bar of the `i`-th of `total` records where no times are known: one behind the other, at
/// least a twenty-fifth wide.
pub open spec fn untimed_bar(i: int, total: int) -> (Ratio, Ratio) {
    (
        Ratio {
            numer: (if total > 1 {
                i
            } else {
                0
            }) as u128,
            denom: total as u128,
        },
        Ratio {
            numer: (if total < 25 {
                25int
            } else {
                total
            }) as u128,
            denom: (25 * total) as u128,
        },
    )
}

/// The time that a timeline spans: from the earliest start to the latest end, where there is
/// one that does not lie before it.
pub open spec fn spanned(records: Seq<TrajectoryRowSummary>) -> Option<(i64, i64)> {
    match time_bounds(records) {
        Some(b) => if b.0 <= b.1 {
            Some(b)
        } else {
            None
        },
        None => None,
    }
}

/// How long a timeline is: at least one millisecond.
pub open spec fn span_total(b: (i64, i64)) -> int {
    if b.1 - b.0 > 1 {
        b.1 - b.0
    } else {
        1
    }
}

/// The bar of the `i`-th record.
pub open spec fn span(records: Seq<TrajectoryRowSummary>, i: int) -> SpanView {
    let r = records[i];
    let bar = match spanned(records) {
        None => untimed_bar(i, records.len() as int),
        Some(b) => match drawn_times(records, r) {
            Some(t) => timed_bar(t.0 - b.0, t.1 - t.0, span_total(b)),
            None => timed_bar(0, 0, span_total(b)),
        },
    };
    SpanView {
        record_id: r.record_id,
        lane: r.lane,
        kind: r.kind,
        status: r.status,
        title: r.title@,
        start_pct: bar.0,
        width_pct: bar.1,
        has_timing: spanned(records) is Some && drawn_times(records, r) is Some,
        duration_text: known_duration(r.duration_ms),
    }
}

/// The bars of a lane among the first `n` records.
pub open spec fn lane_spans(
    records: Seq<TrajectoryRowSummary>,
    lane: TrajectoryLane,
    n: nat,
) -> Seq<SpanView>
    decreases n,
{
    if n == 0 {
        Seq::empty()
    } else {
        let before = lane_spans(records, lane, (n - 1) as nat);
        if records[n - 1].lane == lane {
            before.push(span(records, n - 1))
        } else {
            before
        }
    }
}

/// The timeline of a list of records.
pub open spec fn timeline(records: Seq<TrajectoryRowSummary>) -> TimelineView {
    let b = match spanned(records) {
        Some(b) => b,
        None => (0i64, 0i64),
    };
    TimelineView {
        input_spans: lane_spans(records, TrajectoryLane::Input, records.len()),
        model_spans: lane_spans(records, TrajectoryLane::Model, records.len()),
        tools_spans: lane_spans(records, TrajectoryLane::Tools, records.len()),
        min_time_ms: b.0,
        max_time_ms: b.1,
        total_duration_ms: (if spanned(records) is Some {
            span_total(b)
        } else {
            0
        }) as u64,
        has_any_timing: spanned(records) is Some,
    }
}

// ---------------------------------------------------------------------------
// Computing the layout
// ---------------------------------------------------------------------------
fn times_of(r: &TrajectoryRowSummary) -> (t: Option<(i64, i64)>)
    ensures
        t == own_times(*r),
{
    match (r.started_at_ms, r.completed_at_ms) {
        (Some(start), Some(end)) => Some((start, end)),
        (Some(start), None) => match r.duration_ms {
            Some(ms) => Some((start, saturating_add(start, ms))),
            None => Some((start, start)),
        },
        (None, Some(end)) => Some((end, end)),
        (None, None) => None,
    }
}

fn find_bounds(records: &[TrajectoryRowSummary]) -> (b: Option<(i64, i64)>)
    ensures
        b == time_bounds(records@),
{
    let mut bounds: Option<(i64, i64)> = None;
    for i in 0..records.len()
        invariant
            bounds == time_bounds(records@.take(i as int)),
    {
        assert(records@.take(i as int + 1).drop_last() =~= records@.take(i as int));
        bounds = match (bounds, times_of(&records[i])) {
            (Some(b), Some(t)) => Some(
                (
                    if t.0 < b.0 {
                        t.0
                    } else {
                        b.0
                    },
                    if t.1 > b.1 {
                        t.1
                    } else {
                        b.1
                    },
                ),
            ),
            (None, t) => t,
            (b, None) => b,
        };
    }
    assert(records@.take(records@.len() as int) =~= records@);
    bounds
}

fn collect_request_times(records: &[TrajectoryRowSummary]) -> (m: HashMap<u128, (i64, i64)>)
    ensures
        forall|id: u128|
            #![trigger m@.contains_key(id)]
            m@.contains_key(id) == request_times(records@, id) is Some && (m@.contains_key(id)
                ==> Some(m@[id]) == request_times(records@, id)),
{
    let mut m: HashMap<u128, (i64, i64)> = HashMap::new();
    for i in 0..records.len()
        invariant
            forall|id: u128|
                #![trigger m@.contains_key(id)]
                m@.contains_key(id) == request_times(records@.take(i as int), id) is Some && (
                m@.contains_key(id) ==> Some(m@[id]) == request_times(records@.take(i as int), id)),
    {
        let r = &records[i];
        assert(records@.take(i as int + 1).drop_last() =~= records@.take(i as int));
        if r.kind == TrajectoryKind::Request && r.started_at_ms.is_some() {
            if let Some(t) = times_of(r) {
                m.insert(r.record_id, t);
            }
        }
    }
    assert(records@.take(records@.len() as int) =~= records@);
    m
}

fn timed_span_bar(offset: u64, length: i128, total: u64) -> (bar: (Ratio, Ratio))
    requires
        total > 0,
        length <= u64::MAX,
    ensures
        bar == timed_bar(offset as int, length as int, total as int),
{
    let start: u64 = if offset < total {
        offset
    } else {
        total
    };
    let raw: u64 = if length < 0 {
        0
    } else if length < total as i128 {
        length as u64
    } else {
        total
    };
    let total: u128 = total as u128;
    let wide: u128 = if 50 * (raw as u128) > total {
        50 * (raw as u128)
    } else {
        total
    };
    let room: u128 = 50 * (total - start as u128) + total;
    (
        Ratio { numer: start as u128, denom: total },
        Ratio {
            numer: if wide < room {
                wide
            } else {
                room
            },
            denom: 50 * total,
        },
    )
}

proof fn drawn_times_start_late(records: Seq<TrajectoryRowSummary>, i: int)
    requires
        0 <= i < records.len(),
    ensures
        drawn_times(records, records[i]) is Some ==> time_bounds(records) is Some
            && (drawn_times(records, records[i])->0).0 >= (time_bounds(records)->0).0,
{
    own_times_start_late(records, i);
    if owner(records[i]) is Some {
        request_times_start_late(records, owner(records[i])->0);
    }
}

proof fn own_times_start_late(records: Seq<TrajectoryRowSummary>, i: int)
    requires
        0 <= i < records.len(),
    ensures
        own_times(records[i]) is Some ==> time_bounds(records) is Some && (own_times(
            records[i],
        )->0).0 >= (time_bounds(records)->0).0,
    decreases records.len(),
{
    if i < records.len() - 1 {
        own_times_start_late(records.drop_last(), i);
        assert(records.drop_last()[i] == records[i]);
    }
}

proof fn request_times_start_late(records: Seq<TrajectoryRowSummary>, id: u128)
    ensures
        request_times(records, id) is Some ==> time_bounds(records) is Some && (request_times(
            records,
            id,
        )->0).0 >= (time_bounds(records)->0).0,
    decreases records.len(),
{
    if records.len() > 0 {
        request_times_start_late(records.drop_last(), id);
    }
}

fn find_drawn_times(
    records: &[TrajectoryRowSummary],
    requests: &HashMap<u128, (i64, i64)>,
    r: &TrajectoryRowSummary,
) -> (t: Option<(i64, i64)>)
    requires
        forall|id: u128|
            #![trigger requests@.contains_key(id)]
            requests@.contains_key(id) == request_times(records@, id) is Some && (
            requests@.contains_key(id) ==> Some(requests@[id]) == request_times(records@, id)),
    ensures
        t == drawn_times(records@, *r),
{
    if r.started_at_ms.is_none() && r.kind == TrajectoryKind::Assistant {
        let owner: Option<u128> = if r.parent_record_id.is_some() {
            r.parent_record_id
        } else {
            r.request_id
        };
        if let Some(id) = owner {
            assert(requests@.contains_key(id) == (request_times(records@, id) is Some));
            if let Some(t) = requests.get(&id) {
                return Some(*t);
            }
        }
    }
    times_of(r)
}

fn make_span(
    r: &TrajectoryRowSummary,
    bar: (Ratio, Ratio),
    has_timing: bool,
) -> (s: TimelineSpan)
    ensures
        s.record_id == r.record_id,
        s.lane == r.lane,
        s.kind == r.kind,
        s.status == r.status,
        s.title == r.title,
        s.start_pct == bar.0,
        s.width_pct == bar.1,
        s.has_timing == has_timing,
        opt_view(s.duration_text) == known_duration(r.duration_ms),
{
    TimelineSpan {
        record_id: r.record_id,
        lane: r.lane,
        kind: r.kind,
        status: r.status,
        title: r.title.clone(),
        start_pct: bar.0,
        width_pct: bar.1,
        has_timing,
        duration_text: format_known_duration(r.duration_ms),
    }
}

/// Lays a list of records out on a timeline.
pub fn compute_timeline_layout(records: &[TrajectoryRowSummary]) -> (layout: TimelineLayout)
    ensures
        layout@ == timeline(records@),
{
    let bounds: Option<(i64, i64)> = match find_bounds(records) {
        Some(b) => if b.0 <= b.1 {
            Some(b)
        } else {
            None
        },
        None => None,
    };
    let requests = collect_request_times(records);
    let mut input_spans: Vec<TimelineSpan> = Vec::new();
    let mut model_spans: Vec<TimelineSpan> = Vec::new();
    let mut tools_spans: Vec<TimelineSpan> = Vec::new();
    assert(span_views(input_spans@) =~= Seq::empty());
    assert(span_views(model_spans@) =~= Seq::empty());
    assert(span_views(tools_spans@) =~= Seq::empty());
    let count: usize = records.len();
    for i in 0..records.len()
        invariant
            count == records@.len(),
            bounds == spanned(records@),
            forall|id: u128|
                #![trigger requests@.contains_key(id)]
                requests@.contains_key(id) == request_times(records@, id) is Some && (
                requests@.contains_key(id) ==> Some(requests@[id]) == request_times(records@, id)),
            span_views(input_spans@) == lane_spans(records@, TrajectoryLane::Input, i as nat),
            span_views(model_spans@) == lane_spans(records@, TrajectoryLane::Model, i as nat),
            span_views(tools_spans@) == lane_spans(records@, TrajectoryLane::Tools, i as nat),
    {
        let r = &records[i];
        let made: TimelineSpan = match bounds {
            None => {
                let start = Ratio {
                    numer: if count > 1 {
                        i as u128
                    } else {
                        0
                    },
                    denom: count as u128,
                };
                let width = Ratio {
                    numer: if count < 25 {
                        25
                    } else {
                        count as u128
                    },
                    denom: 25 * (count as u128),
                };
                make_span(r, (start, width), false)
            },
            Some(b) => {
                let total: u64 = total_ms(b);
                match find_drawn_times(records, &requests, r) {
                    Some(t) => {
                        proof {
                            drawn_times_start_late(records@, i as int);
                        }
                        let offset: u64 = (t.0 as i128 - b.0 as i128) as u64;
                        let length: i128 = t.1 as i128 - t.0 as i128;
                        make_span(r, timed_span_bar(offset, length, total), true)
                    },
                    None => make_span(r, timed_span_bar(0, 0, total), false),
                }
            },
        };
        assert(made@ == span(records@, i as int));
        let ghost inputs = input_spans@;
        let ghost models = model_spans@;
        let ghost tools = tools_spans@;
        match r.lane {
            TrajectoryLane::Input => {
                input_spans.push(made);
                assert(span_views(input_spans@) =~= span_views(inputs).push(made@));
            },
            TrajectoryLane::Model => {
                model_spans.push(made);
                assert(span_views(model_spans@) =~= span_views(models).push(made@));
            },
            TrajectoryLane::Tools => {
                tools_spans.push(made);
                assert(span_views(tools_spans@) =~= span_views(tools).push(made@));
            },
        }
    }
    let layout = match bounds {
        None => TimelineLayout {
            input_spans,
            model_spans,
            tools_spans,
            min_time_ms: 0,
            max_time_ms: 0,
            total_duration_ms: 0,
            has_any_timing: false,
        },
        Some(b) => TimelineLayout {
            input_spans,
            model_spans,
            tools_spans,
            min_time_ms: b.0,
            max_time_ms: b.1,
            total_duration_ms: total_ms(b),
            has_any_timing: true,
        },
    };
    layout
}

fn total_ms(b: (i64, i64)) -> (r: u64)
    requires
        b.0 <= b.1,
    ensures
        r == span_total(b),
        r > 0,
{
    let wide: u64 = (b.1 as i128 - b.0 as i128) as u64;
    if wide > 1 {
        wide
    } else {
        1
    }
}

// ---------------------------------------------------------------------------
// Laws
// ---------------------------------------------------------------------------
/// Every bar starts inside the timeline, has some width, and ends at most a twenty-fifth past
/// its end.
pub proof fn bars_stay_in_view(records: Seq<TrajectoryRowSummary>, i: int)
    requires
        0 <= i < records.len() <= u64::MAX,
    ensures
        span(records, i).start_pct.denom > 0,
        span(records, i).width_pct.denom > 0,
        span(records, i).start_pct.numer <= span(records, i).start_pct.denom,
        span(records, i).width_pct.numer > 0,
        25 * (span(records, i).start_pct.numer * span(records, i).width_pct.denom + span(
            records,
            i,
        ).width_pct.numer * span(records, i).start_pct.denom) <= 26 * (span(
            records,
            i,
        ).start_pct.denom * span(records, i).width_pct.denom),
{
    let s = span(records, i);
    drawn_times_start_late(records, i);
    match spanned(records) {
        None => {
            let n = records.len() as int;
            let start = s.start_pct.numer as int;
            let width = s.width_pct.numer as int;
            assert(25 * (start * (25 * n) + width * n) <= 26 * (n * (25 * n))) by (nonlinear_arith)
                requires
                    0 <= start < n,
                    n == 1 ==> start == 0,
                    width == (if n < 25 {
                        25int
                    } else {
                        n
                    }),
            ;
        },
        Some(b) => {
            let total = span_total(b);
            let start = s.start_pct.numer as int;
            let width = s.width_pct.numer as int;
            assert(s.start_pct.denom == total && s.width_pct.denom == 50 * total);
            assert(0 <= start <= total);
            assert(0 < width <= 50 * (total - start) + total);
            assert(25 * (start * (50 * total) + width * total) <= 26 * (total * (50 * total)))
                by (nonlinear_arith)
                requires
                    0 <= start <= total,
                    0 < width <= 50 * (total - start) + total,
                    total > 0,
            ;
        },
    }
}

/// Every record has one bar, in its own lane.
pub proof fn every_record_has_one_bar(records: Seq<TrajectoryRowSummary>, n: nat)
    requires
        n <= records.len(),
    ensures
        lane_spans(records, TrajectoryLane::Input, n).len() + lane_spans(
            records,
            TrajectoryLane::Model,
            n,
        ).len() + lane_spans(records, TrajectoryLane::Tools, n).len() == n,
        forall|lane: TrajectoryLane, k: int|
            0 <= k < lane_spans(records, lane, n).len() ==> (#[trigger] lane_spans(
                records,
                lane,
                n,
            )[k]).lane == lane,
    decreases n,
{
    if n > 0 {
        every_record_has_one_bar(records, (n - 1) as nat);
    }
}

/// An answer that does not state its start is drawn with the times of its request.
pub proof fn answers_reuse_their_request(
    records: Seq<TrajectoryRowSummary>,
    answer: TrajectoryRowSummary,
    request: u128,
)
    requires
        answer.kind == TrajectoryKind::Assistant,
        answer.started_at_ms is None,
        answer.parent_record_id == Some(request) || (answer.parent_record_id is None
            && answer.request_id == Some(request)),
        request_times(records, request) is Some,
    ensures
        drawn_times(records, answer) == request_times(records, request),
{
}

} // verus!
