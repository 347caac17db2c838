//! What a timeline promises of every list of records: whose bar is whose, where it begins and how wide
//! it is.
use crate::trajectory::record::{
    TrajectoryKind, TrajectoryLane, TrajectoryRowSummary,
};
use crate::trajectory::timeline::{
    compute_timeline_layout, drawn_times, lane_spans, own_times, request_times, span, span_views,
    spanned, time_bounds, TimelineLayout, TimelineSpan,
};
use vstd::prelude::*;

verus! {

/// The bars of a lane.
pub open spec fn bars_of(layout: TimelineLayout, lane: TrajectoryLane) -> Seq<TimelineSpan> {
    match lane {
        TrajectoryLane::Input => layout.input_spans@,
        TrajectoryLane::Model => layout.model_spans@,
        TrajectoryLane::Tools => layout.tools_spans@,
    }
}

/// How many of the first `n` records are in a lane.
pub open spec fn lane_count(records: Seq<TrajectoryRowSummary>, lane: TrajectoryLane, n: nat) -> nat
    decreases n,
{
    if n == 0 {
        0
    } else if records[n - 1].lane == lane {
        lane_count(records, lane, (n - 1) as nat) + 1
    } else {
        lane_count(records, lane, (n - 1) as nat)
    }
}

/// The bar of a record: the one that stands as far along its lane as the record does.
pub open spec fn bar_of(
    layout: TimelineLayout,
    records: Seq<TrajectoryRowSummary>,
    i: int,
) -> TimelineSpan {
    bars_of(layout, records[i].lane)[lane_count(records, records[i].lane, i as nat) as int]
}

/// Tells whether a record that began at `start` ended at `end`: it completed then, or lasted until then,
/// or nothing more is known of it than its start.
pub open spec fn ended_at(r: TrajectoryRowSummary, start: i64, end: i64) -> bool {
    match (r.completed_at_ms, r.duration_ms) {
        (Some(t), _) => t == end,
        (None, Some(ms)) => start + ms == end,
        (None, None) => start == end,
    }
}

proof fn lane_of_record(
    records: Seq<TrajectoryRowSummary>,
    lane: TrajectoryLane,
    n: nat,
    i: int,
)
    requires
        0 <= i < n <= records.len(),
    ensures
        lane_spans(records, lane, n).len() == lane_count(records, lane, n),
        records[i].lane == lane ==> lane_count(records, lane, i as nat) < lane_count(records, lane, n)
            && lane_spans(records, lane, n)[lane_count(records, lane, i as nat) as int] == span(
            records,
            i,
        ),
    decreases n,
{
    lane_is_counted(records, lane, (n - 1) as nat);
    lane_is_counted(records, lane, n);
    if i < n - 1 {
        lane_of_record(records, lane, (n - 1) as nat, i);
    }
}

proof fn lane_is_counted(records: Seq<TrajectoryRowSummary>, lane: TrajectoryLane, n: nat)
    ensures
        lane_spans(records, lane, n).len() == lane_count(records, lane, n),
    decreases n,
{
    if n > 0 {
        lane_is_counted(records, lane, (n - 1) as nat);
    }
}

proof fn bar_is_span(records: &[TrajectoryRowSummary], layout: TimelineLayout, i: int)
    requires
        call_ensures(compute_timeline_layout, (records,), layout),
        0 <= i < records@.len(),
    ensures
        lane_count(records@, records@[i].lane, i as nat) < bars_of(layout, records@[i].lane).len(),
        bar_of(layout, records@, i)@ == span(records@, i),
{
    let lane = records@[i].lane;
    lane_of_record(records@, lane, records@.len(), i);
    let k = lane_count(records@, lane, i as nat) as int;
    assert(span_views(bars_of(layout, lane)) == lane_spans(records@, lane, records@.len()));
    assert(span_views(bars_of(layout, lane)).len() == bars_of(layout, lane).len());
    assert(span_views(bars_of(layout, lane))[k] == bars_of(layout, lane)[k]@);
}

/// Every record has its bar, in its own lane and in the order of the records, with its id, its kind, its
/// status and its title.
pub proof fn every_record_has_its_bar(
    records: &[TrajectoryRowSummary],
    layout: TimelineLayout,
    i: int,
)
    requires
        call_ensures(compute_timeline_layout, (records,), layout),
        0 <= i < records@.len(),
    ensures
        forall|lane: TrajectoryLane|
            #[trigger] bars_of(layout, lane).len() == lane_count(records@, lane, records@.len()),
        lane_count(records@, records@[i].lane, i as nat) < bars_of(layout, records@[i].lane).len(),
        bar_of(layout, records@, i).record_id == records@[i].record_id,
        bar_of(layout, records@, i).lane == records@[i].lane,
        bar_of(layout, records@, i).kind == records@[i].kind,
        bar_of(layout, records@, i).status == records@[i].status,
        bar_of(layout, records@, i).title@ == records@[i].title@,
        bar_of(layout, records@, i).duration_text is Some <==> records@[i].duration_ms is Some
            && records@[i].duration_ms->0 >= 0,
{
    bar_is_span(records, layout, i);
    assert(bar_of(layout, records@, i)@ == span(records@, i));
    assert forall|lane: TrajectoryLane|
        #[trigger] bars_of(layout, lane).len() == lane_count(records@, lane, records@.len()) by {
        lane_is_counted(records@, lane, records@.len());
        assert(span_views(bars_of(layout, lane)).len() == bars_of(layout, lane).len());
    }
}

proof fn bounds_hold(records: Seq<TrajectoryRowSummary>, i: int)
    requires
        0 <= i < records.len(),
        own_times(records[i]) is Some,
    ensures
        time_bounds(records) is Some,
        (time_bounds(records)->0).0 <= (own_times(records[i])->0).0,
        (own_times(records[i])->0).1 <= (time_bounds(records)->0).1,
    decreases records.len(),
{
    if i < records.len() - 1 {
        assert(records.drop_last()[i] == records[i]);
        bounds_hold(records.drop_last(), i);
    }
}

proof fn bounds_are_met(records: Seq<TrajectoryRowSummary>) -> (r: (int, int))
    requires
        time_bounds(records) is Some,
    ensures
        0 <= r.0 < records.len(),
        0 <= r.1 < records.len(),
        own_times(records[r.0]) is Some,
        own_times(records[r.1]) is Some,
        (own_times(records[r.0])->0).0 == (time_bounds(records)->0).0,
        (own_times(records[r.1])->0).1 == (time_bounds(records)->0).1,
    decreases records.len(),
{
    let n = records.len() - 1;
    let head = records.drop_last();
    if time_bounds(head) is None {
        (n, n)
    } else {
        let (a, b) = bounds_are_met(head);
        assert(head[a] == records[a] && head[b] == records[b]);
        match own_times(records[n]) {
            None => (a, b),
            Some(t) => (
                if t.0 < (time_bounds(head)->0).0 {
                    n
                } else {
                    a
                },
                if t.1 > (time_bounds(head)->0).1 {
                    n
                } else {
                    b
                },
            ),
        }
    }
}

/// A timeline reaches from the earliest start to the latest end. It has times as soon as one record states
/// a start and an end that does not lie before it.
pub proof fn a_timeline_spans_its_records(
    records: &[TrajectoryRowSummary],
    layout: TimelineLayout,
    i: int,
    start: i64,
    end: i64,
)
    requires
        call_ensures(compute_timeline_layout, (records,), layout),
        0 <= i < records@.len(),
        records@[i].started_at_ms == Some(start),
        ended_at(records@[i], start, end),
        start <= end,
    ensures
        layout.has_any_timing,
        layout.min_time_ms <= start,
        end <= layout.max_time_ms,
        layout.total_duration_ms == (if layout.max_time_ms - layout.min_time_ms > 1 {
            layout.max_time_ms - layout.min_time_ms
        } else {
            1
        }),
        exists|k: int|
            0 <= k < records@.len() && ((#[trigger] records@[k]).started_at_ms == Some(
                layout.min_time_ms,
            ) || records@[k].started_at_ms is None && records@[k].completed_at_ms == Some(
                layout.min_time_ms,
            )),
{
    bounds_hold(records@, i);
    let (a, b) = bounds_are_met(records@);
    assert(own_times(records@[a]) is Some);
    assert(records@[a].started_at_ms == Some(layout.min_time_ms) || records@[a].started_at_ms is None
        && records@[a].completed_at_ms == Some(layout.min_time_ms));
}

/// The bar of a record begins as far along the timeline as the record began into the time that the timeline
/// spans, and is as wide as its own duration is of that time. A shorter one is drawn a fiftieth wide.
pub proof fn bars_follow_the_clock(
    records: &[TrajectoryRowSummary],
    layout: TimelineLayout,
    i: int,
    start: i64,
    end: i64,
)
    requires
        call_ensures(compute_timeline_layout, (records,), layout),
        0 <= i < records@.len(),
        records@[i].started_at_ms == Some(start),
        ended_at(records@[i], start, end),
        start <= end,
    ensures
        ({
            let bar = bar_of(layout, records@, i);
            let total = layout.total_duration_ms;
            &&& bar.has_timing
            &&& bar.start_pct.denom > 0
            &&& bar.width_pct.denom > 0
            &&& bar.start_pct.numer * total == bar.start_pct.denom * (start - layout.min_time_ms)
            &&& 50 * (end - start) >= total ==> bar.width_pct.numer * total == bar.width_pct.denom
                * (end - start)
            &&& 50 * (end - start) < total ==> bar.width_pct.numer * 50 == bar.width_pct.denom
        }),
{
    bar_is_span(records, layout, i);
    bounds_hold(records@, i);
    a_timeline_spans_its_records(records, layout, i, start, end);
    let bar = bar_of(layout, records@, i);
    let s = span(records@, i);
    let total = layout.total_duration_ms as int;
    assert(bar@ == s);
    assert(spanned(records@) is Some);
    assert(drawn_times(records@, records@[i]) == Some((start, end)));
    assert(bar.start_pct.denom == total);
    assert(bar.start_pct.numer == start - layout.min_time_ms);
    assert(bar.width_pct.denom == 50 * total);
    let length = end - start;
    if 50 * length >= total {
        assert(bar.width_pct.numer == 50 * length);
        assert((50 * length) * total == (50 * total) * length) by (nonlinear_arith);
    } else {
        assert(bar.width_pct.numer == total);
    }
    assert((start - layout.min_time_ms) * total == total * (start - layout.min_time_ms))
        by (nonlinear_arith);
}

/// Records that took equally long have equally wide bars, wherever they began, and one that took longer never
/// has a narrower one.
pub proof fn longer_records_have_wider_bars(
    records: &[TrajectoryRowSummary],
    layout: TimelineLayout,
    i: int,
    j: int,
    a: (i64, i64),
    b: (i64, i64),
)
    requires
        call_ensures(compute_timeline_layout, (records,), layout),
        0 <= i < records@.len(),
        0 <= j < records@.len(),
        records@[i].started_at_ms == Some(a.0),
        ended_at(records@[i], a.0, a.1),
        records@[j].started_at_ms == Some(b.0),
        ended_at(records@[j], b.0, b.1),
        a.0 <= a.1,
        b.0 <= b.1,
        a.1 - a.0 <= b.1 - b.0,
    ensures
        bar_of(layout, records@, i).width_pct.numer * bar_of(layout, records@, j).width_pct.denom
            <= bar_of(layout, records@, j).width_pct.numer * bar_of(
            layout,
            records@,
            i,
        ).width_pct.denom,
        a.1 - a.0 == b.1 - b.0 ==> bar_of(layout, records@, i).width_pct == bar_of(
            layout,
            records@,
            j,
        ).width_pct,
{
    bar_is_span(records, layout, i);
    bar_is_span(records, layout, j);
    bounds_hold(records@, i);
    bounds_hold(records@, j);
    let x = bar_of(layout, records@, i);
    let y = bar_of(layout, records@, j);
    assert(x@ == span(records@, i) && y@ == span(records@, j));
    assert(drawn_times(records@, records@[i]) == Some(a));
    assert(drawn_times(records@, records@[j]) == Some(b));
    assert(x.width_pct.denom == y.width_pct.denom);
    assert(x.width_pct.numer <= y.width_pct.numer);
    assert(x.width_pct.numer * y.width_pct.denom <= y.width_pct.numer * x.width_pct.denom)
        by (nonlinear_arith)
        requires
            x.width_pct.denom == y.width_pct.denom,
            x.width_pct.numer <= y.width_pct.numer,
    ;
}

proof fn only_request(records: Seq<TrajectoryRowSummary>, at: int)
    requires
        0 <= at < records.len(),
        records[at].kind == TrajectoryKind::Request,
        records[at].started_at_ms is Some,
        forall|k: int|
            0 <= k < records.len() && k != at ==> (#[trigger] records[k]).record_id
                != records[at].record_id,
    ensures
        request_times(records, records[at].record_id) == own_times(records[at]),
    decreases records.len(),
{
    if at < records.len() - 1 {
        let head = records.drop_last();
        assert(head[at] == records[at]);
        assert forall|k: int| 0 <= k < head.len() && k != at implies (#[trigger] head[k]).record_id
            != head[at].record_id by {
            assert(head[k] == records[k]);
        }
        only_request(head, at);
    }
}

/// An answer that does not state its start has the bar of its request: as far along, and as wide.
pub proof fn an_answer_is_drawn_as_its_request(
    records: &[TrajectoryRowSummary],
    layout: TimelineLayout,
    answer: int,
    request: int,
)
    requires
        call_ensures(compute_timeline_layout, (records,), layout),
        0 <= answer < records@.len(),
        0 <= request < records@.len(),
        records@[request].kind == TrajectoryKind::Request,
        records@[request].started_at_ms is Some,
        forall|k: int|
            0 <= k < records@.len() && k != request ==> (#[trigger] records@[k]).record_id
                != records@[request].record_id,
        records@[answer].kind == TrajectoryKind::Assistant,
        records@[answer].started_at_ms is None,
        records@[answer].parent_record_id == Some(records@[request].record_id) || (
        records@[answer].parent_record_id is None && records@[answer].request_id == Some(
            records@[request].record_id,
        )),
    ensures
        bar_of(layout, records@, answer).start_pct == bar_of(layout, records@, request).start_pct
            || !layout.has_any_timing,
        bar_of(layout, records@, answer).width_pct == bar_of(layout, records@, request).width_pct,
        bar_of(layout, records@, answer).has_timing == bar_of(layout, records@, request).has_timing,
{
    bar_is_span(records, layout, answer);
    bar_is_span(records, layout, request);
    only_request(records@, request);
    assert(bar_of(layout, records@, answer)@ == span(records@, answer));
    assert(bar_of(layout, records@, request)@ == span(records@, request));
}

/// Where no record states when it began or completed, the bars stand one behind the other in the order of the
/// records, all of one width.
pub proof fn without_times_bars_stand_in_a_row(
    records: &[TrajectoryRowSummary],
    layout: TimelineLayout,
    i: int,
)
    requires
        call_ensures(compute_timeline_layout, (records,), layout),
        0 <= i < records@.len() <= u64::MAX,
        forall|k: int|
            0 <= k < records@.len() ==> (#[trigger] records@[k]).started_at_ms is None
                && records@[k].completed_at_ms is None,
    ensures
        !layout.has_any_timing,
        ({
            let bar = bar_of(layout, records@, i);
            let n = records@.len();
            &&& !bar.has_timing
            &&& bar.start_pct.numer * n == bar.start_pct.denom * i
            &&& n <= 25 ==> bar.width_pct.numer * n == bar.width_pct.denom
            &&& n >= 25 ==> bar.width_pct.numer * 25 == bar.width_pct.denom
        }),
{
    bar_is_span(records, layout, i);
    if time_bounds(records@) is Some {
        let (a, b) = bounds_are_met(records@);
        assert(records@[a].started_at_ms is None);
    }
    let bar = bar_of(layout, records@, i);
    let n = records@.len() as int;
    assert(bar@ == span(records@, i));
    assert(bar.start_pct.denom == n);
    assert(bar.start_pct.numer == i);
    assert(bar.width_pct.denom == 25 * n);
    assert(i * n == n * i) by (nonlinear_arith);
}

} // verus!
