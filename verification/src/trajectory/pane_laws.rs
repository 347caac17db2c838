//! What the pane of a trajectory promises: what is loaded, what the keys do, what the rows, bars and details show.
use crate::label::LabelView;
use crate::text::{decimal, opt_view, views};
use crate::trajectory::duration::format_duration_or;
use crate::trajectory::inspector::{
    detail_body, detail_load_more, handle_tab_key, settle_detail, DetailBody, DetailExtent,
    DetailPane, DetailQuery, DetailSettled, InspectorModel, LoadMore, TabKey,
};
use crate::trajectory::ledger::{row_views, TrajectoryLedgerRow, TrajectoryLedgerRowKind};
use crate::trajectory::record::{
    allowed_sections_for_kind, TrajectoryDetailSection, TrajectoryRowSummary,
};
use crate::trajectory::state::{record_position, DetailKey, TrajectorySessionState};
use crate::trajectory::timeline::TimelineSpan;
use crate::trajectory::view::{
    bind_trajectory_search, render_prepared_ledger_row, span_tooltip, LedgerPane, LedgerRowModel,
    ListKeyOutcome, OlderPage, RowClick, SpanWords, TimelineModel, TrajectoryBanner,
    TrajectoryLoad, TrajectoryPane, TrajectoryToolbar,
};
use vstd::prelude::*;

verus! {

broadcast use vstd::std_specs::hash::group_hash_axioms;

// ---------------------------------------------------------------------------
// Loading
// ---------------------------------------------------------------------------
/// A trajectory is loaded once: while it is loading or loaded, it is not asked for again. After a failure it can be
/// asked for again.
pub proof fn a_trajectory_is_asked_for_once(
    s: &mut TrajectorySessionState,
    first: bool,
    t: &mut TrajectorySessionState,
    second: bool,
    u: &mut TrajectorySessionState,
    v: &mut TrajectorySessionState,
    third: bool,
)
    requires
        call_ensures(TrajectorySessionState::begin_load, (s,), first),
        *old(t) == *final(s),
        call_ensures(TrajectorySessionState::begin_load, (t,), second),
        call_ensures(TrajectorySessionState::retry_trajectory_load, (u,), ()),
        *old(v) == *final(u),
        call_ensures(TrajectorySessionState::begin_load, (v,), third),
    ensures
        first <==> old(s).loading_status is Initial,
        !second,
        first ==> final(s).loading_status is Loading,
        final(s).records@ == old(s).records@,
        third,
        final(u).error is None,
        final(u).records@ == old(u).records@,
{
    assert(old(s)@.loading_status == old(s).loading_status);
    assert(final(s)@.loading_status == final(s).loading_status);
    assert(final(u)@.loading_status == final(u).loading_status);
    assert(old(t)@.loading_status == old(t).loading_status);
    assert(final(s)@.records == final(s).records@ && old(s)@.records == old(s).records@);
    assert(final(u)@.records == final(u).records@ && old(u)@.records == old(u).records@);
    assert(final(u)@.error == opt_view(final(u).error));
}

/// What was loaded is shown, and what could not be loaded is told and leaves the records.
pub proof fn what_was_loaded_is_shown(
    s: &mut TrajectorySessionState,
    load: TrajectoryLoad,
    unexpected: &str,
)
    requires
        call_ensures(TrajectorySessionState::finish_load, (s, load, unexpected), ()),
    ensures
        load matches TrajectoryLoad::Page(page) ==> (page.generation >= old(s).generation ==> final(s).records@ == page.rows@ && final(s).loading_status is Ready && final(s).error is None
            && final(s).generation == page.generation && final(s).has_older == page.has_older
            && final(s).older_cursor == page.older),
        load matches TrajectoryLoad::Page(page) ==> (page.generation < old(s).generation ==> final(s)@ == old(s)@),
        !(load is Page) ==> final(s).records@ == old(s).records@ && final(s).loading_status is Error && final(s).error is Some,
        load matches TrajectoryLoad::Failed(error) ==> (final(s).error->0)@ == error@,
        load is Unexpected ==> (final(s).error->0)@ == unexpected@,
{
    let v = final(s)@;
    assert(v.records == final(s).records@ && old(s)@.records == old(s).records@);
    assert(v.loading_status == final(s).loading_status);
    assert(v.error == opt_view(final(s).error));
    assert(v.generation == final(s).generation && old(s)@.generation == old(s).generation);
    assert(v.has_older == final(s).has_older && v.older_cursor == final(s).older_cursor);
}

/// Older records are asked for near the top, where there are any, and once at a time.
pub proof fn older_records_are_asked_for_near_the_top(
    held: &TrajectorySessionState,
    top: usize,
    needs: bool,
    s: &mut TrajectorySessionState,
    begun: bool,
    t: &mut TrajectorySessionState,
    again: bool,
    u: &mut TrajectorySessionState,
)
    requires
        call_ensures(TrajectorySessionState::needs_older, (held, top), needs),
        call_ensures(TrajectorySessionState::begin_load_older, (s,), begun),
        *old(t) == *final(s),
        call_ensures(TrajectorySessionState::begin_load_older, (t,), again),
        call_ensures(TrajectorySessionState::finish_load_older, (u, None), ()),
    ensures
        needs <==> held.has_older && !held.loading_older && top <= 1,
        begun <==> !old(s).loading_older,
        final(s).loading_older,
        !again,
        final(s).records@ == old(s).records@,
        !final(u).loading_older,
        final(u).records@ == old(u).records@,
{
    assert(held@.has_older == held.has_older && held@.loading_older == held.loading_older);
    assert(old(s)@.loading_older == old(s).loading_older);
    assert(final(s)@.loading_older == final(s).loading_older);
    assert(final(u)@.loading_older == final(u).loading_older);
    assert(final(s)@.records == final(s).records@ && old(s)@.records == old(s).records@);
    assert(final(u)@.records == final(u).records@ && old(u)@.records == old(u).records@);
}

/// A page of older records does to the records what putting it before them does.
pub proof fn older_pages_are_put_before(
    s: &mut TrajectorySessionState,
    page: OlderPage,
    t: &mut TrajectorySessionState,
    r: Option<u128>,
)
    requires
        call_ensures(TrajectorySessionState::finish_load_older, (s, Some(page)), ()),
        *old(t) == *old(s),
        call_ensures(
            TrajectorySessionState::prepend_older_page,
            (t, page.rows, page.older, page.has_older),
            r,
        ),
    ensures
        final(s).records@ == final(t).records@,
        row_views(final(s).ledger_rows@) == row_views(final(t).ledger_rows@),
        final(s).older_cursor == page.older,
        final(s).has_older == page.has_older,
        !final(s).loading_older,
        final(s).selected_record_id == old(s).selected_record_id,
{
    assert(final(s)@.records == final(s).records@ && final(t)@.records == final(t).records@);
    assert(final(s)@.rows == row_views(final(s).ledger_rows@));
    assert(final(t)@.rows == row_views(final(t).ledger_rows@));
    assert(final(s)@.older_cursor == final(s).older_cursor);
    assert(final(s)@.has_older == final(s).has_older);
    assert(final(s)@.loading_older == final(s).loading_older);
    assert(final(s)@.selected_record_id == final(s).selected_record_id);
    assert(old(s)@.selected_record_id == old(s).selected_record_id);
}

/// The search field takes over what was searched for in a session when it turns to it, and is left alone while it
/// stays.
pub proof fn the_search_field_follows_the_session(
    bound: Option<u128>,
    session_id: u128,
    query: Option<&String>,
    r: Option<String>,
)
    requires
        call_ensures(bind_trajectory_search, (bound, session_id, query), r),
    ensures
        r is None <==> bound == Some(session_id),
        r is Some && query is Some ==> (r->0)@ == query->0@,
        r is Some && query is None ==> (r->0)@.len() == 0,
{
    assert(opt_view(r) is Some <==> r is Some);
}

// ---------------------------------------------------------------------------
// Keys
// ---------------------------------------------------------------------------
proof fn keys_differ()
    ensures
        "escape"@ != "up"@ && "escape"@ != "down"@ && "escape"@ != "home"@ && "escape"@ != "end"@,
        "enter"@ != "escape"@ && "enter"@ != "up"@ && "enter"@ != "down"@ && "enter"@ != "home"@
            && "enter"@ != "end"@,
        "space"@ != "escape"@ && "space"@ != "up"@ && "space"@ != "down"@ && "space"@ != "home"@
            && "space"@ != "end"@,
        "left"@ != "escape"@ && "left"@ != "up"@ && "left"@ != "down"@ && "left"@ != "home"@
            && "left"@ != "end"@ && "left"@ != "enter"@ && "left"@ != "space"@ && "left"@
            != "right"@,
        "right"@ != "escape"@ && "right"@ != "up"@ && "right"@ != "down"@ && "right"@ != "home"@
            && "right"@ != "end"@ && "right"@ != "enter"@ && "right"@ != "space"@,
        "down"@ != "escape"@ && "up"@ != "escape"@ && "home"@ != "escape"@ && "end"@ != "escape"@,
{
    reveal_strlit("escape");
    reveal_strlit("up");
    reveal_strlit("down");
    reveal_strlit("home");
    reveal_strlit("end");
    reveal_strlit("enter");
    reveal_strlit("space");
    reveal_strlit("left");
    reveal_strlit("right");
    assert("escape"@.len() == 6 && "up"@.len() == 2 && "down"@.len() == 4 && "home"@.len() == 4
        && "end"@.len() == 3 && "enter"@.len() == 5 && "space"@.len() == 5 && "left"@.len() == 4
        && "right"@.len() == 5);
    assert("down"@[0] == 'd' && "home"@[0] == 'h' && "left"@[0] == 'l');
    assert("enter"@[0] == 'e' && "space"@[0] == 's' && "right"@[0] == 'r');
}

/// The escape key closes the inspector first, then clears the search, and then is left to others.
pub proof fn escape_closes_before_it_clears(
    s: &mut TrajectorySessionState,
    key: &str,
    stepped: Option<usize>,
    r: ListKeyOutcome,
)
    requires
        call_ensures(TrajectorySessionState::handle_trajectory_list_key, (s, key, stepped), r),
        key@ == "escape"@,
    ensures
        old(s).inspector_open ==> r is Handled && !final(s).inspector_open && final(s).search_query@ == old(s).search_query@ && final(s).selected_record_id == old(
            s,
        ).selected_record_id,
        !old(s).inspector_open && old(s).search_query@.len() > 0 ==> r is SearchCleared && final(s).search_query@.len() == 0 && final(s).search_tokens@.len() == 0,
        !old(s).inspector_open && old(s).search_query@.len() == 0 ==> r is Ignored && final(s)@
            == old(s)@,
        final(s).records@ == old(s).records@,
{
    assert(old(s)@.inspector_open == old(s).inspector_open);
    assert(final(s)@.inspector_open == final(s).inspector_open);
    assert(old(s)@.search_query == old(s).search_query@);
    assert(final(s)@.search_query == final(s).search_query@);
    assert(final(s)@.search_tokens == views(final(s).search_tokens@));
    assert(views(final(s).search_tokens@).len() == final(s).search_tokens@.len());
    assert(final(s)@.selected_record_id == final(s).selected_record_id);
    assert(final(s)@.records == final(s).records@ && old(s)@.records == old(s).records@);
    reveal_with_fuel(crate::text::words, 2);
}

/// The enter key and the space bar turn over the turn whose divider is selected, and inspect the record whose row
/// is.
pub proof fn enter_opens_the_selected_row(
    s: &mut TrajectorySessionState,
    key: &str,
    stepped: Option<usize>,
    r: ListKeyOutcome,
    i: usize,
)
    requires
        call_ensures(TrajectorySessionState::handle_trajectory_list_key, (s, key, stepped), r),
        key@ == "enter"@ || key@ == "space"@,
        old(s).selected_row_index == Some(i),
        i < old(s).ledger_rows@.len(),
    ensures
        ({
            let row = old(s).ledger_rows@[i as int];
            &&& row.kind matches TrajectoryLedgerRowKind::TurnDivider { turn_count, .. } ==> r
                is Handled && (final(s).folded_turns@.contains(turn_count) <==> !old(
                s,
            ).folded_turns@.contains(turn_count))
            &&& !(row.kind is TurnDivider) && row.record_id is Some ==> r is Handled && final(s).inspector_open && final(s).selected_record_id == row.record_id && final(s).folded_turns@ == old(s).folded_turns@
            &&& !(row.kind is TurnDivider) && row.record_id is None ==> r is Ignored && final(s)@
                == old(s)@
        }),
{
    keys_differ();
    let rows = row_views(old(s).ledger_rows@);
    assert(old(s)@.rows == rows);
    assert(rows.len() == old(s).ledger_rows@.len());
    assert(rows[i as int] == old(s).ledger_rows@[i as int]@);
    assert(old(s)@.selected_row_index == old(s).selected_row_index);
    assert(final(s)@.folded_turns == final(s).folded_turns@);
    assert(old(s)@.folded_turns == old(s).folded_turns@);
    assert(final(s)@.inspector_open == final(s).inspector_open);
    assert(final(s)@.selected_record_id == final(s).selected_record_id);
}

/// The left arrow folds the turn whose divider is selected, the right arrow unfolds it, and neither does anything
/// else.
pub proof fn arrows_fold_the_selected_turn(
    s: &mut TrajectorySessionState,
    key: &str,
    stepped: Option<usize>,
    r: ListKeyOutcome,
    i: usize,
)
    requires
        call_ensures(TrajectorySessionState::handle_trajectory_list_key, (s, key, stepped), r),
        key@ == "left"@ || key@ == "right"@,
        old(s).selected_row_index == Some(i),
        i < old(s).ledger_rows@.len(),
    ensures
        ({
            let row = old(s).ledger_rows@[i as int];
            &&& !(row.kind is TurnDivider) ==> r is Ignored && final(s)@ == old(s)@
            &&& row.kind matches TrajectoryLedgerRowKind::TurnDivider { turn_count, collapsed, .. }
                ==> {
                let acts = collapsed == (key@ == "right"@);
                &&& r is Handled <==> acts
                &&& acts ==> (final(s).folded_turns@.contains(turn_count) <==> !old(
                    s,
                ).folded_turns@.contains(turn_count))
                &&& !acts ==> final(s)@ == old(s)@
            }
        }),
{
    keys_differ();
    let rows = row_views(old(s).ledger_rows@);
    assert(old(s)@.rows == rows);
    assert(rows.len() == old(s).ledger_rows@.len());
    assert(rows[i as int] == old(s).ledger_rows@[i as int]@);
    assert(old(s)@.selected_row_index == old(s).selected_row_index);
    assert(final(s)@.folded_turns == final(s).folded_turns@);
    assert(old(s)@.folded_turns == old(s).folded_turns@);
}

/// A key that moves the selection selects the row that it leads to.
pub proof fn step_keys_select_a_row(
    s: &mut TrajectorySessionState,
    key: &str,
    stepped: Option<usize>,
    r: ListKeyOutcome,
)
    requires
        call_ensures(TrajectorySessionState::handle_trajectory_list_key, (s, key, stepped), r),
        key@ == "up"@ || key@ == "down"@ || key@ == "home"@ || key@ == "end"@,
    ensures
        r is Handled <==> stepped is Some,
        stepped is None ==> r is Ignored && final(s)@ == old(s)@,
        stepped is Some && stepped->0 < old(s).ledger_rows@.len() ==> final(s).selected_row_index
            == stepped,
        final(s).folded_turns@ == old(s).folded_turns@,
        final(s).inspector_open == old(s).inspector_open,
{
    keys_differ();
    assert(old(s)@.rows == row_views(old(s).ledger_rows@));
    assert(row_views(old(s).ledger_rows@).len() == old(s).ledger_rows@.len());
    assert(final(s)@.selected_row_index == final(s).selected_row_index);
    assert(final(s)@.folded_turns == final(s).folded_turns@);
    assert(old(s)@.folded_turns == old(s).folded_turns@);
    assert(final(s)@.inspector_open == final(s).inspector_open);
    assert(old(s)@.inspector_open == old(s).inspector_open);
}

/// The button for turns folds all of them where none is folded, and else unfolds all.
pub proof fn the_button_folds_or_unfolds_all(
    s: &mut TrajectorySessionState,
    i: int,
    turn: u32,
)
    requires
        call_ensures(TrajectorySessionState::activate_turns_button, (s,), ()),
    ensures
        (forall|t: u32| !old(s).folded_turns@.contains(t)) ==> (0 <= i < old(s).records@.len()
            ==> final(s).folded_turns@.contains(old(s).records@[i].turn_count)),
        (exists|t: u32| old(s).folded_turns@.contains(t)) ==> !final(s).folded_turns@.contains(turn),
        final(s).records@ == old(s).records@,
{
    assert(final(s)@.folded_turns == final(s).folded_turns@);
    assert(old(s)@.folded_turns == old(s).folded_turns@);
    assert(final(s)@.records == final(s).records@ && old(s)@.records == old(s).records@);
    if forall|t: u32| !old(s).folded_turns@.contains(t) {
        assert(old(s).folded_turns@ =~= Set::<u32>::empty());
    }
    if 0 <= i < old(s).records@.len() {
        assert(old(s)@.records[i].turn_count == old(s).records@[i].turn_count);
    }
}

// ---------------------------------------------------------------------------
// What is shown
// ---------------------------------------------------------------------------
/// The details are shown while they are open and a record is chosen: beside the list where there is room, and in
/// its place where there is not.
pub proof fn details_stand_beside_the_list(
    s: &TrajectorySessionState,
    splits: bool,
    r: TrajectoryPane,
)
    requires
        call_ensures(TrajectorySessionState::render_trajectory, (s, splits), r),
    ensures
        r is Ledger <==> !s.inspector_open || s.selected_record_id is None,
        r is Split ==> splits,
        r is Details ==> !splits,
        r matches TrajectoryPane::Split(id) ==> s.selected_record_id == Some(id),
        r matches TrajectoryPane::Details(id) ==> s.selected_record_id == Some(id),
{
    assert(s@.inspector_open == s.inspector_open && s@.selected_record_id == s.selected_record_id);
}

/// A banner tells of loading, of what an old session lacks, and of errors; without any of these there is none.
pub proof fn banners_tell_what_is_wrong(
    s: &TrajectorySessionState,
    r: Option<TrajectoryBanner>,
)
    requires
        call_ensures(TrajectorySessionState::render_trajectory_banners, (s,), r),
    ensures
        ({
            let loading = s.loading_status is Loading && s.records@.len() == 0;
            &&& r == Some(TrajectoryBanner::Loading) <==> loading
            &&& r == Some(TrajectoryBanner::Legacy) <==> !loading && s.availability is Legacy
            &&& r == Some(TrajectoryBanner::MissingSnapshot) <==> !loading
                && s.availability is LegacyPartialMissingSnapshot
            &&& r is None <==> !loading && s.availability is Exact && s.error is None
        }),
{
    assert(s@.loading_status == s.loading_status && s@.records == s.records@);
    assert(s@.availability == s.availability);
    assert(s@.error == opt_view(s.error));
}

/// The list is empty once nothing was loaded, and asks for older records where they are needed.
pub proof fn the_list_asks_for_older_records(
    s: &TrajectorySessionState,
    top: usize,
    r: LedgerPane,
    needs: bool,
)
    requires
        call_ensures(TrajectorySessionState::render_trajectory_ledger, (s, top), r),
        call_ensures(TrajectorySessionState::needs_older, (s, top), needs),
    ensures
        r is Empty <==> s.records@.len() == 0 && s.loading_status is Ready,
        r matches LedgerPane::Rows { load_older } ==> (load_older is Some <==> needs) && (
        load_older matches Some(cursor) ==> cursor == s.older_cursor),
{
    assert(s@.loading_status == s.loading_status && s@.records == s.records@);
    assert(s@.older_cursor == s.older_cursor);
}

/// The tool bar shows the switches as they stand.
pub proof fn the_tool_bar_shows_the_switches(
    s: &TrajectorySessionState,
    r: TrajectoryToolbar,
    turn: u32,
)
    requires
        call_ensures(TrajectorySessionState::render_trajectory_toolbar, (s,), r),
    ensures
        r.durations_pressed == s.duration_projection,
        r.calls_pressed == s.show_tool_calls,
        s.folded_turns@.contains(turn) ==> r.turns_pressed && r.turns_label@
            == LabelView::Message("trajectory.unfold_all_turns"@),
        (forall|t: u32| !s.folded_turns@.contains(t)) ==> !r.turns_pressed && r.turns_label@
            == LabelView::Message("trajectory.fold_all_turns"@),
{
    assert(s@.folded_turns == s.folded_turns@);
    assert(s@.duration_projection == s.duration_projection);
    assert(s@.show_tool_calls == s.show_tool_calls);
    if forall|t: u32| !s.folded_turns@.contains(t) {
        assert(s.folded_turns@ =~= Set::<u32>::empty());
    }
}

/// The bars of the timeline stand where they were laid out, each at least wide enough to be seen and to be clicked,
/// and the bar of the chosen record is marked.
pub proof fn bars_stand_where_they_were_laid_out(
    s: &TrajectorySessionState,
    words: &SpanWords,
    r: TimelineModel,
    i: int,
)
    requires
        call_ensures(TrajectorySessionState::render_trajectory_timeline, (s, words), r),
        0 <= i < s.timeline_layout.model_spans@.len(),
    ensures
        r.model@.len() == s.timeline_layout.model_spans@.len(),
        r.input@.len() == s.timeline_layout.input_spans@.len(),
        r.tools@.len() == s.timeline_layout.tools_spans@.len(),
        ({
            let span = s.timeline_layout.model_spans@[i];
            let bar = r.model@[i];
            &&& bar.record_id == span.record_id
            &&& bar.left == span.start_pct
            &&& bar.selected <==> s.selected_record_id == Some(span.record_id)
            &&& bar.width.numer * 200 >= 3 * bar.width.denom
            &&& span.width_pct.numer * 200 >= 3 * span.width_pct.denom ==> bar.width
                == span.width_pct
            &&& span.width_pct.numer * 200 < 3 * span.width_pct.denom ==> bar.width.numer * 200 == 3
                * bar.width.denom
        }),
        r.says_no_timing <==> !s.timeline_layout.has_any_timing && s.records@.len() > 0,
{
    let spans = s@.timeline.model_spans;
    assert(s@.timeline == s.timeline_layout@);
    assert(spans[i] == s.timeline_layout.model_spans@[i]@);
    assert(crate::trajectory::view::shows_span(r.model@[i], spans[i], s@.selected_record_id, *words));
    assert(s@.selected_record_id == s.selected_record_id);
    assert(s@.records == s.records@);
}

/// The hint of a bar tells its title, its status and how long it took.
pub proof fn hints_tell_title_and_time(
    span: &TimelineSpan,
    selected: bool,
    words: &SpanWords,
    r: String,
)
    requires
        call_ensures(span_tooltip, (span, selected, words), r),
        span.status is Completed || span.status is Failed,
    ensures
        ({
            let status = if span.status is Completed {
                words.completed@
            } else {
                words.failed@
            };
            let time = if span.has_timing && span.duration_text is Some {
                (span.duration_text->0)@
            } else {
                words.no_timing@
            };
            r@ == span.title@ + " · "@ + status + " · "@ + time + " · "@ + (if selected {
                words.selected@
            } else {
                Seq::empty()
            })
        }),
{
    assert(opt_view(span.duration_text) is Some <==> span.duration_text is Some);
}

/// A row shows its record: a click on it chooses the record, or turns the turn over; how long it took is told where
/// durations are shown.
pub proof fn a_row_shows_its_record(
    row: &TrajectoryLedgerRow,
    selected: bool,
    durations: bool,
    no_timing: &str,
    r: LedgerRowModel,
    took: Option<i64>,
    told: String,
)
    requires
        call_ensures(render_prepared_ledger_row, (row, selected, durations, no_timing), r),
        call_ensures(format_duration_or, (took, no_timing), told),
    ensures
        r.selected == selected,
        r.indent == row.depth,
        row.kind matches TrajectoryLedgerRowKind::TurnDivider {
            turn_count,
            collapsed,
            record_count,
            total_duration_ms,
        } ==> r.click == RowClick::ToggleTurn(turn_count) && r.count == Some(record_count)
            && r.fold is Some && (r.fold->0).0@ == (if collapsed {
            "▶"@
        } else {
            "▼"@
        }) && r.badge@ == (LabelView::MessageWith {
            key: "trajectory.turn_divider"@,
            name: "turn"@,
            value: decimal(turn_count as nat),
        }) && (r.duration is Some <==> durations && total_duration_ms is Some) && (r.duration is Some
            && took == total_duration_ms ==> (r.duration->0)@ == told@),
        row.kind matches TrajectoryLedgerRowKind::StepRequest { record, children_count } ==> r.click
            == RowClick::SelectRecord(record.record_id) && r.badge@ == (LabelView::MessageWith {
            key: "trajectory.step"@,
            name: "step"@,
            value: decimal(record.step as nat),
        }) && (r.count is Some <==> children_count > 0) && (r.duration is Some <==> durations) && (
        durations && took == record.duration_ms ==> (r.duration->0)@ == told@),
        row.kind matches TrajectoryLedgerRowKind::Assistant { record } ==> r.click
            == RowClick::SelectRecord(record.record_id) && r.text is Some && (r.text->0)@
            == record.preview@ && (r.duration is Some <==> durations) && (durations && took
            == record.duration_ms ==> (r.duration->0)@ == told@),
        row.kind matches TrajectoryLedgerRowKind::Tool { record } ==> r.click
            == RowClick::SelectRecord(record.record_id) && r.text is Some && (r.text->0)@ == (
        if record.title@.len() > 0 {
            record.title@
        } else {
            record.preview@
        }) && r.status is Some && (r.status->0).0 == record.status && ((r.status->0).1 is Accent
            <==> record.status is Failed) && ((r.status->0).1 is Secondary
            <==> record.status is Completed) && (r.duration is Some <==> durations) && (durations
            && took == record.duration_ms ==> (r.duration->0)@ == told@),
        row.kind matches TrajectoryLedgerRowKind::Context { record } ==> r.click
            == RowClick::SelectRecord(record.record_id) && r.duration is None,
        row.kind matches TrajectoryLedgerRowKind::System { record } ==> r.click
            == RowClick::SelectRecord(record.record_id) && r.text is Some && (r.text->0)@
            == record.preview@,
        row.kind matches TrajectoryLedgerRowKind::ToolOnlyPlaceholder { parent_record_id, .. } ==> (
        parent_record_id matches Some(id) ==> r.click == RowClick::SelectRecord(id)),
{
    assert(opt_view(r.text) is Some <==> r.text is Some);
    assert(opt_view(r.duration) is Some <==> r.duration is Some);
    assert(r@.fold is Some <==> r.fold is Some);
}

/// The row at a place is that of the list, marked where it is the chosen one; a click does what its row says.
pub proof fn the_row_at_a_place_is_shown(
    s: &TrajectorySessionState,
    index: usize,
    no_timing: &str,
    r: Option<LedgerRowModel>,
    row: &TrajectoryLedgerRow,
    same: LedgerRowModel,
)
    requires
        call_ensures(TrajectorySessionState::render_trajectory_ledger_row, (s, index, no_timing), r),
        index < s.ledger_rows@.len() ==> *row == s.ledger_rows@[index as int],
        call_ensures(
            render_prepared_ledger_row,
            (row, s.selected_row_index == Some(index), s.duration_projection, no_timing),
            same,
        ),
    ensures
        r is Some <==> index < s.ledger_rows@.len(),
        r matches Some(model) ==> model@ == same@,
{
    assert(s@.rows == row_views(s.ledger_rows@));
    assert(row_views(s.ledger_rows@).len() == s.ledger_rows@.len());
    assert(s@.selected_row_index == s.selected_row_index);
    assert(s@.duration_projection == s.duration_projection);
    if index < s.ledger_rows@.len() {
        assert(row_views(s.ledger_rows@)[index as int] == s.ledger_rows@[index as int]@);
    }
}

/// A click on a divider turns its turn over, and a click on a record inspects it.
pub proof fn clicks_do_what_their_row_says(
    s: &mut TrajectorySessionState,
    click: RowClick,
    other: u32,
)
    requires
        call_ensures(TrajectorySessionState::click_row, (s, click), ()),
    ensures
        click matches RowClick::ToggleTurn(turn) ==> (final(s).folded_turns@.contains(turn)
            <==> !old(s).folded_turns@.contains(turn)) && (other != turn ==> (final(s).folded_turns@.contains(other) <==> old(s).folded_turns@.contains(other))),
        click matches RowClick::SelectRecord(id) ==> final(s).selected_record_id == Some(id)
            && final(s).inspector_open && final(s).folded_turns@ == old(s).folded_turns@,
        click is Nothing ==> final(s)@ == old(s)@,
        final(s).records@ == old(s).records@,
{
    assert(final(s)@.folded_turns == final(s).folded_turns@);
    assert(old(s)@.folded_turns == old(s).folded_turns@);
    assert(final(s)@.inspector_open == final(s).inspector_open);
    assert(final(s)@.selected_record_id == final(s).selected_record_id);
    assert(final(s)@.records == final(s).records@ && old(s)@.records == old(s).records@);
}

// ---------------------------------------------------------------------------
// Details
// ---------------------------------------------------------------------------
proof fn position_of_record(records: Seq<TrajectoryRowSummary>, id: u128, i: int, from: int)
    requires
        0 <= from <= i < records.len(),
        records[i].record_id == id,
        forall|k: int| 0 <= k < i ==> (#[trigger] records[k]).record_id != id,
    ensures
        record_position(records, id, from) == i,
    decreases i - from,
{
    if from < i {
        assert(records[from].record_id != id);
        position_of_record(records, id, i, from + 1);
    }
}

/// The details are those of the record, under a tab for each section that its kind offers, with the open one
/// marked; they are read on from where they were left.
pub proof fn details_are_those_of_the_record(
    s: &TrajectorySessionState,
    id: u128,
    r: Option<InspectorModel>,
    i: int,
    sections: Vec<TrajectoryDetailSection>,
    k: int,
)
    requires
        call_ensures(TrajectorySessionState::render_trajectory_inspector, (s, id), r),
        0 <= i < s.records@.len(),
        s.records@[i].record_id == id,
        forall|j: int| 0 <= j < i ==> (#[trigger] s.records@[j]).record_id != id,
        call_ensures(allowed_sections_for_kind, (s.records@[i].kind,), sections),
    ensures
        r is Some,
        (r->0).record == s.records@[i],
        (r->0).section == s.selected_section,
        (r->0).tabs@.len() == sections@.len(),
        0 <= k < sections@.len() ==> (r->0).tabs@[k].section == sections@[k] && ((
        r->0).tabs@[k].selected <==> sections@[k] == s.selected_section),
        ({
            let key = DetailKey { record_id: id, section: s.selected_section };
            if s.detail_cursors@.contains_key(key) {
                (r->0).cursor == s.detail_cursors@[key]
            } else {
                (r->0).cursor == 0
            }
        }),
{
    position_of_record(s.records@, id, i, 0);
    assert(s@.records == s.records@ && s@.selected_section == s.selected_section);
    assert(s@.detail_cursors == s.detail_cursors@);
    if 0 <= k < sections@.len() {
        assert((r->0).tabs@[k].section == sections@[k]);
    }
}

/// Reading on moves the place of one section of one record; the details are then asked for from there.
pub proof fn reading_on_moves_one_place(
    s: &mut TrajectorySessionState,
    id: u128,
    section: TrajectoryDetailSection,
    next: u64,
    other: DetailKey,
    later: &TrajectorySessionState,
    r: Option<InspectorModel>,
    i: int,
)
    requires
        call_ensures(
            TrajectorySessionState::advance_trajectory_detail,
            (s, id, section, next),
            (),
        ),
        *later == *final(s),
        call_ensures(TrajectorySessionState::render_trajectory_inspector, (later, id), r),
        0 <= i < old(s).records@.len(),
        old(s).records@[i].record_id == id,
        forall|j: int| 0 <= j < i ==> (#[trigger] old(s).records@[j]).record_id != id,
        old(s).selected_section == section,
    ensures
        r is Some,
        (r->0).cursor == next,
        other != (DetailKey { record_id: id, section }) ==> (final(s).detail_cursors@.contains_key(other) <==> old(s).detail_cursors@.contains_key(other)) && (
        old(s).detail_cursors@.contains_key(other) ==> final(s).detail_cursors@[other] == old(
            s,
        ).detail_cursors@[other]),
        final(s).records@ == old(s).records@,
{
    position_of_record(old(s).records@, id, i, 0);
    assert(old(s)@.records == old(s).records@ && final(s)@.records == final(s).records@);
    assert(old(s)@.detail_cursors == old(s).detail_cursors@);
    assert(final(s)@.detail_cursors == final(s).detail_cursors@);
    assert(old(s)@.selected_section == old(s).selected_section);
}

/// Choosing a section opens it; closing the details, or the escape key in them, keeps the record chosen.
pub proof fn sections_are_chosen_and_left(
    s: &mut TrajectorySessionState,
    section: TrajectoryDetailSection,
    t: &mut TrajectorySessionState,
    key: &str,
    r: bool,
    u: &mut TrajectorySessionState,
)
    requires
        call_ensures(
            TrajectorySessionState::select_trajectory_inspector_section,
            (s, section),
            (),
        ),
        call_ensures(TrajectorySessionState::handle_inspector_key, (t, key), r),
        call_ensures(TrajectorySessionState::close_trajectory_inspector, (u,), ()),
    ensures
        final(s).selected_section == section,
        final(s).selected_record_id == old(s).selected_record_id,
        final(s).inspector_open == old(s).inspector_open,
        r <==> key@ == "escape"@,
        r ==> !final(t).inspector_open,
        !r ==> final(t)@ == old(t)@,
        final(t).selected_record_id == old(t).selected_record_id,
        !final(u).inspector_open,
        final(u).selected_record_id == old(u).selected_record_id,
{
    assert(final(s)@.selected_section == final(s).selected_section);
    assert(final(s)@.selected_record_id == final(s).selected_record_id);
    assert(final(s)@.inspector_open == final(s).inspector_open);
    assert(old(s)@.inspector_open == old(s).inspector_open);
    assert(final(t)@.inspector_open == final(t).inspector_open);
    assert(final(t)@.selected_record_id == final(t).selected_record_id);
    assert(final(u)@.inspector_open == final(u).inspector_open);
    assert(final(u)@.selected_record_id == final(u).selected_record_id);
}

/// A tab is chosen by the enter key and the space bar, and left for the one that an arrow leads to; other keys are
/// left to others.
pub proof fn keys_choose_a_tab(
    section: TrajectoryDetailSection,
    key: &str,
    stepped: Option<TrajectoryDetailSection>,
    r: TabKey,
)
    requires
        call_ensures(handle_tab_key, (section, key, stepped), r),
    ensures
        key@ == "enter"@ || key@ == "space"@ ==> r == TabKey::Select(section),
        key@ == "left"@ || key@ == "right"@ ==> (stepped matches Some(next) ==> r
            == TabKey::Select(next)),
        key@ == "escape"@ ==> r is Ignored,
{
    keys_differ();
    reveal_strlit("escape");
    reveal_strlit("enter");
}

/// There is more to load while less was loaded than there is, and it begins where the part that was loaded ends.
pub proof fn more_begins_where_the_part_ends(extent: DetailExtent, r: Option<LoadMore>)
    requires
        call_ensures(detail_load_more, (extent,), r),
    ensures
        r is Some <==> extent.byte_length < extent.total_bytes,
        r matches Some(more) ==> more.next_offset == extent.offset + extent.byte_length && more.loaded
            == extent.byte_length && more.total == extent.total_bytes,
{
}

/// A detail is asked for where it is missing: the record, the section and the place that are shown; one that was
/// asked for is waited for, and one that came is shown, as a tree where it is JSON.
pub proof fn missing_details_are_asked_for(
    m: &InspectorModel,
    query: DetailQuery,
    no_timing: &str,
    r: DetailPane,
    told: String,
)
    requires
        query matches DetailQuery::Ready(loaded) ==> loaded.extent.byte_length
            < loaded.extent.total_bytes ==> loaded.extent.offset + loaded.extent.byte_length
            <= u64::MAX,
        call_ensures(InspectorModel::render_detail, (m, query, no_timing), r),
        call_ensures(format_duration_or, (m.record.duration_ms, no_timing), told),
    ensures
        query is Missing ==> r is Loading && r->fetch is Some && (r->fetch->0).record_id
            == m.record.record_id && (r->fetch->0).section == m.section && (r->fetch->0).offset
            == m.cursor,
        query is Pending ==> r is Loading && r->fetch is None,
        query matches DetailQuery::Ready(loaded) ==> r is Content && (r->Content_0).kind
            == m.record.kind && (r->Content_0).status == m.record.status && (
        r->Content_0).duration@ == told@ && ((r->Content_0).body is Tree <==> loaded.has_json) && ((
        r->Content_0).body is Text <==> !loaded.has_json && loaded.has_text) && ((
        r->Content_0).more is Some <==> loaded.extent.byte_length < loaded.extent.total_bytes),
{
}

/// What was answered is kept, and what was not is given up.
pub proof fn answers_are_kept(answered: bool, r: DetailSettled, json: bool, text: bool, b: DetailBody)
    requires
        call_ensures(settle_detail, (answered,), r),
        call_ensures(detail_body, (json, text), b),
    ensures
        r is Kept <==> answered,
        b is Tree <==> json,
        b is Nothing <==> !json && !text,
{
}

/// Clearing a search searches for nothing and keeps the records.
pub proof fn a_cleared_search_is_for_nothing(s: &mut TrajectorySessionState)
    requires
        call_ensures(TrajectorySessionState::clear_trajectory_search, (s,), ()),
    ensures
        final(s).search_query@.len() == 0,
        final(s).search_tokens@.len() == 0,
        final(s).records@ == old(s).records@,
{
    assert(final(s)@.search_query == final(s).search_query@);
    assert(final(s)@.search_tokens == views(final(s).search_tokens@));
    assert(views(final(s).search_tokens@).len() == final(s).search_tokens@.len());
    assert(final(s)@.records == final(s).records@ && old(s)@.records == old(s).records@);
    reveal_with_fuel(crate::text::words, 2);
}

/// A key on a row is one on the list with that row selected.
pub proof fn a_key_on_a_row_selects_it(
    s: &mut TrajectorySessionState,
    index: usize,
    key: &str,
    stepped: Option<usize>,
    r: ListKeyOutcome,
    t: &mut TrajectorySessionState,
    u: &mut TrajectorySessionState,
    q: ListKeyOutcome,
)
    requires
        call_ensures(TrajectorySessionState::handle_row_key, (s, index, key, stepped), r),
        *old(t) == *old(s),
        call_ensures(TrajectorySessionState::select_row_at_index, (t, index), ()),
        *old(u) == *final(t),
        call_ensures(TrajectorySessionState::handle_trajectory_list_key, (u, key, stepped), q),
    ensures
        final(s)@ == final(u)@,
        r == q,
{
}

} // verus!
