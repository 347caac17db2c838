//! What is promised of checkpoints, of what agents report, and of what they are started with and sent.
use crate::composer::picker_laws::can_use;
use crate::key_map::KeyMap;
use crate::label::Label;
use crate::protocol::DriverEvent;
use crate::providers::{
    provider_position, provider_position_finds, provider_views, ExternalProvider, ModelCatalog,
    ModelCatalogEntry, ReasoningEffortOption,
};
use crate::runtime::checkpoints::{
    flying_after, to_make, turn_position, without, CaptureOutcome, CaptureResult, TurnFinished,
    TurnOutcome,
};
use crate::runtime::options::{
    driver_start_request_for_session, effort_position, gated_reasoning_effort, options_of,
    provider_reasoning_effort, session_options, DriverStartOptions, SessionOptions, StartError,
};
use crate::runtime::prompt::{
    image_refs, is_blob, is_source, prompt_input_from_submission_with_text, PromptInput,
};
use crate::runtime::pump::{
    closed, due, drained, noted_all, no_changes, once, save, saves_now, settled, same_agent,
    DrainFlags, DrainTotals, EventPumpSchedule, RuntimeReports,
};
use crate::runtime::state::{PendingCheckpointCapture, SessionRuntime, Waku};
use crate::runtime::sending_laws::awaits_checkpoint;
use crate::runtime::task_laws::{first_task_is_found, only_task_changed, stands_first};
use crate::session::{
    AgentSession, CheckpointStatus, ComposerSubmission, MessageAttachment, Turn, TurnStatus,
};
use crate::text::{has_prefix, opt_view, str_view, trimmed};
use vstd::prelude::*;

verus! {

broadcast use vstd::std_specs::hash::group_hash_axioms;

// ---------------------------------------------------------------------------
// Checkpoints
// ---------------------------------------------------------------------------
/// A checkpoint is pending exactly where it is being made, or is listed to be.
pub proof fn a_checkpoint_is_pending_until_it_is_made(
    waku: &Waku,
    id: u128,
    turn: usize,
    r: bool,
)
    requires
        call_ensures(Waku::checkpoint_capture_pending, (waku, id, turn), r),
    ensures
        r <==> waku.checkpoint_captures_in_flight@.contains((id, turn)) || exists|k: int|
            0 <= k < waku.pending_checkpoint_captures@.len() && (
            #[trigger] waku.pending_checkpoint_captures@[k]).session_id == id
                && waku.pending_checkpoint_captures@[k].turn_count == turn,
{
}

/// The checkpoint behind a turn that is over is listed once, for the directory that the task works in; that of a
/// turn that is running is not.
pub proof fn the_checkpoint_of_a_finished_turn_is_listed(
    waku: &mut Waku,
    i: int,
    path: Option<String>,
)
    requires
        stands_first(old(waku).tasks.sessions@, i),
        call_ensures(
            crate::runtime::sync::TaskState::workspace_path_for_session,
            (&old(waku).tasks, &old(waku).tasks.sessions@[i]),
            path,
        ),
        call_ensures(
            Waku::capture_latest_turn_checkpoint_for,
            (waku, old(waku).tasks.sessions@[i].id),
            (),
        ),
    ensures
        ({
            let task = old(waku).tasks.sessions@[i];
            let before = old(waku).pending_checkpoint_captures@;
            let after = final(waku).pending_checkpoint_captures@;
            let lists = task.turns@.len() > 0 && task.turns@.last().status != TurnStatus::Running
                && !awaits_checkpoint(*old(waku), i) && path is Some;
            &&& lists ==> after.len() == before.len() + 1 && after.last().session_id == task.id
                && after.last().turn_count == task.turns@.last().turn_count
                && after.last().project_path@ == (path->0)@
            &&& !lists ==> after == before
            &&& forall|k: int| 0 <= k < before.len() ==> #[trigger] after[k] == before[k]
        }),
        final(waku).tasks == old(waku).tasks,
{
    first_task_is_found(old(waku).tasks.sessions@, i);
    let before = old(waku).pending_checkpoint_captures@;
    let after = final(waku).pending_checkpoint_captures@;
    assert(opt_view(path) is Some <==> path is Some);
    assert forall|k: int| 0 <= k < before.len() implies #[trigger] after[k] == before[k] by {
        if after.len() > before.len() {
            assert(after.drop_last()[k] == before[k]);
        }
    }
}

proof fn flying_and_made(
    flying: Seq<(u128, usize)>,
    captures: Seq<PendingCheckpointCapture>,
    p: (u128, usize),
)
    ensures
        flying_after(flying, captures).contains(p) <==> flying.contains(p) || exists|k: int|
            0 <= k < captures.len() && (#[trigger] captures[k]).session_id == p.0
                && captures[k].turn_count == p.1,
        (exists|k: int|
            0 <= k < to_make(flying, captures).len() && (#[trigger] to_make(
                flying,
                captures,
            )[k]).session_id == p.0 && to_make(flying, captures)[k].turn_count == p.1) <==> !flying.contains(p) && exists|
            k: int,
        |
            0 <= k < captures.len() && (#[trigger] captures[k]).session_id == p.0
                && captures[k].turn_count == p.1,
    decreases captures.len(),
{
    if captures.len() > 0 {
        let head = captures.drop_last();
        let c = captures.last();
        let q = (c.session_id, c.turn_count);
        let fb = flying_after(flying, head);
        let mb = to_make(flying, head);
        let fa = flying_after(flying, captures);
        let ma = to_make(flying, captures);
        flying_and_made(flying, head, p);
        assert(captures[captures.len() - 1] == c);
        let listed_head = exists|k: int|
            0 <= k < head.len() && (#[trigger] head[k]).session_id == p.0 && head[k].turn_count
                == p.1;
        let listed_all = exists|k: int|
            0 <= k < captures.len() && (#[trigger] captures[k]).session_id == p.0
                && captures[k].turn_count == p.1;
        assert(listed_all <==> listed_head || q == p) by {
            if listed_head {
                let k = choose|k: int|
                    0 <= k < head.len() && (#[trigger] head[k]).session_id == p.0
                        && head[k].turn_count == p.1;
                assert(captures[k] == head[k]);
            }
            if listed_all {
                let k = choose|k: int|
                    0 <= k < captures.len() && (#[trigger] captures[k]).session_id == p.0
                        && captures[k].turn_count == p.1;
                if k < head.len() {
                    assert(head[k].session_id == p.0);
                }
            }
        }
        if fb.contains(q) {
            assert(fa == fb && ma == mb);
        } else {
            assert(fa == fb.push(q) && ma == mb.push(c));
            if fa.contains(p) {
                let k = fa.index_of(p);
                if k < fb.len() {
                    assert(fb[k] == p);
                }
            }
            if fb.contains(p) {
                let k = fb.index_of(p);
                assert(fa[k] == p);
            }
            assert(fa[fb.len() as int] == q);
            assert(ma[mb.len() as int] == c);
            assert forall|k: int| 0 <= k < mb.len() implies #[trigger] ma[k] == mb[k] by {}
            if exists|k: int|
                0 <= k < mb.len() && (#[trigger] mb[k]).session_id == p.0 && mb[k].turn_count
                    == p.1 {
                let k = choose|k: int|
                    0 <= k < mb.len() && (#[trigger] mb[k]).session_id == p.0 && mb[k].turn_count
                        == p.1;
                assert(ma[k].session_id == p.0);
            }
            if exists|k: int|
                0 <= k < ma.len() && (#[trigger] ma[k]).session_id == p.0 && ma[k].turn_count
                    == p.1 {
                let k = choose|k: int|
                    0 <= k < ma.len() && (#[trigger] ma[k]).session_id == p.0 && ma[k].turn_count
                        == p.1;
                if k < mb.len() {
                    assert(mb[k].session_id == p.0);
                }
            }
        }
    }
}

/// Every checkpoint that is listed is made, unless it is being made already; from then on it is being made.
pub proof fn every_listed_checkpoint_is_made(
    waku: &mut Waku,
    r: Vec<PendingCheckpointCapture>,
    id: u128,
    turn: usize,
)
    requires
        call_ensures(Waku::start_pending_checkpoint_captures, (waku,), r),
    ensures
        ({
            let listed = exists|k: int|
                0 <= k < old(waku).pending_checkpoint_captures@.len() && (#[trigger] old(
                    waku,
                ).pending_checkpoint_captures@[k]).session_id == id && old(
                    waku,
                ).pending_checkpoint_captures@[k].turn_count == turn;
            let flying = old(waku).checkpoint_captures_in_flight@.contains((id, turn));
            let made = exists|k: int|
                0 <= k < r@.len() && (#[trigger] r@[k]).session_id == id && r@[k].turn_count == turn;
            &&& made <==> listed && !flying
            &&& final(waku).checkpoint_captures_in_flight@.contains((id, turn)) <==> listed || flying
        }),
        final(waku).pending_checkpoint_captures@.len() == 0,
        final(waku).tasks == old(waku).tasks,
{
    flying_and_made(
        old(waku).checkpoint_captures_in_flight@,
        old(waku).pending_checkpoint_captures@,
        (id, turn),
    );
}

proof fn turn_stands_at(turns: Seq<Turn>, t: int, i: int)
    requires
        0 <= i <= t < turns.len(),
        forall|k: int| 0 <= k < t ==> (#[trigger] turns[k]).turn_count != turns[t].turn_count,
    ensures
        turn_position(turns, turns[t].turn_count, i) == t,
    decreases t - i,
{
    if i < t {
        assert(turns[i].turn_count != turns[t].turn_count);
        turn_stands_at(turns, t, i + 1);
    }
}

proof fn without_is_without<T>(list: Seq<T>, item: T, x: T)
    ensures
        without(list, item).contains(x) <==> list.contains(x) && x != item,
    decreases list.len(),
{
    if list.len() > 0 {
        let head = list.drop_last();
        let before = without(head, item);
        let all = without(list, item);
        without_is_without(head, item, x);
        assert(list.contains(x) <==> head.contains(x) || x == list.last()) by {
            if list.contains(x) {
                let k = list.index_of(x);
                if k < head.len() {
                    assert(head[k] == x);
                }
            }
            if head.contains(x) {
                let k = head.index_of(x);
                assert(list[k] == x);
            }
            assert(list[list.len() - 1] == list.last());
        }
        if list.last() != item {
            if all.contains(x) {
                let k = all.index_of(x);
                if k < before.len() {
                    assert(before[k] == x);
                }
            }
            if before.contains(x) {
                let k = before.index_of(x);
                assert(all[k] == x);
            }
            assert(all[before.len() as int] == list.last());
        }
    }
}

/// A checkpoint that was made goes to the turn with its number, and to no other; one that could not be made
/// leaves an error there. It is no longer being made, and the queue goes on where it waited for it.
pub proof fn a_checkpoint_goes_to_its_turn(
    waku: &mut Waku,
    i: int,
    t: int,
    result: CaptureResult,
    r: CaptureOutcome,
)
    requires
        stands_first(old(waku).tasks.sessions@, i),
        0 <= t < old(waku).tasks.sessions@[i].turns@.len(),
        forall|k: int|
            0 <= k < t ==> (#[trigger] old(waku).tasks.sessions@[i].turns@[k]).turn_count != old(
                waku,
            ).tasks.sessions@[i].turns@[t].turn_count,
        call_ensures(
            Waku::finish_checkpoint_capture,
            (
                waku,
                old(waku).tasks.sessions@[i].id,
                old(waku).tasks.sessions@[i].turns@[t].turn_count,
                result,
            ),
            r,
        ),
    ensures
        ({
            let id = old(waku).tasks.sessions@[i].id;
            let before = old(waku).tasks.sessions@[i].turns@;
            let after = final(waku).tasks.sessions@[i].turns@;
            &&& only_task_changed(old(waku).tasks.sessions@, final(waku).tasks.sessions@, i)
            &&& after.len() == before.len()
            &&& forall|k: int|
                0 <= k < before.len() && k != t ==> #[trigger] after[k] == before[k]
            &&& after[t].id == before[t].id
            &&& after[t].status == before[t].status
            &&& result matches CaptureResult::Captured(made) ==> after[t].checkpoint == Some(made)
            &&& result is Failed ==> after[t].checkpoint is Some && (
            after[t].checkpoint->0).status == CheckpointStatus::Error
            &&& r.attached_turn == Some(before[t].id)
            &&& r.shown <==> old(waku).tasks.selected_session == Some(id)
            &&& r.resume_queue <==> old(waku).pending_queue_drains@.contains(id)
            &&& !final(waku).checkpoint_captures_in_flight@.contains((id, before[t].turn_count))
            &&& !final(waku).pending_queue_drains@.contains(id)
            &&& forall|other: u128|
                other != id ==> (#[trigger] final(waku).pending_queue_drains@.contains(other)
                    <==> old(waku).pending_queue_drains@.contains(other))
        }),
{
    let id = old(waku).tasks.sessions@[i].id;
    let before = old(waku).tasks.sessions@[i];
    let turn = before.turns@[t].turn_count;
    first_task_is_found(old(waku).tasks.sessions@, i);
    turn_stands_at(before.turns@, t, 0);
    without_is_without(old(waku).checkpoint_captures_in_flight@, (id, turn), (id, turn));
    without_is_without(old(waku).pending_queue_drains@, id, id);
    assert forall|other: u128| other != id implies (#[trigger] final(waku).pending_queue_drains@.contains(other) <==> old(waku).pending_queue_drains@.contains(other)) by {
        without_is_without(old(waku).pending_queue_drains@, id, other);
    }
}

/// What is told of a turn that ends is told of the turn that is running: its number, its provider, how it ended
/// and how long it took.
pub proof fn a_turn_that_ends_is_told_of(
    waku: &Waku,
    i: int,
    outcome: TurnOutcome,
    now: u64,
    r: Option<TurnFinished>,
)
    requires
        stands_first(waku.tasks.sessions@, i),
        call_ensures(
            Waku::active_turn_finished_event,
            (waku, waku.tasks.sessions@[i].id, outcome, now),
            r,
        ),
    ensures
        ({
            let task = waku.tasks.sessions@[i];
            &&& r is Some <==> task.turns@.len() > 0 && task.turns@.last().status
                == TurnStatus::Running
            &&& r is Some ==> (r->0).outcome == outcome && (r->0).turn_number
                == task.turns@.last().turn_count && (r->0).provider@ == task.provider@
            &&& r is Some && now >= task.turns@.last().started_at ==> (r->0).duration_seconds == now
                - task.turns@.last().started_at
            &&& r is Some && now < task.turns@.last().started_at ==> (r->0).duration_seconds == 0
        }),
{
    first_task_is_found(waku.tasks.sessions@, i);
}

// ---------------------------------------------------------------------------
// Reports
// ---------------------------------------------------------------------------
/// Tells whether a report is saved at once.
pub open spec fn is_saved_at_once(e: DriverEvent) -> bool {
    ||| e is Connected
    ||| e is AutoTitleUpdated
    ||| e is Permission
    ||| e is SteerAccepted
    ||| e is SteerRejected
    ||| e is TurnFinished
    ||| e is Error
    ||| e is ProcessExited
}

proof fn noted_is_any(flags: DrainFlags, events: Seq<DriverEvent>)
    ensures
        noted_all(flags, events).runtime_changed <==> flags.runtime_changed || exists|k: int|
            0 <= k < events.len() && !(#[trigger] events[k] is BackgroundWork),
        noted_all(flags, events).background_changed <==> flags.background_changed || exists|k: int|
            0 <= k < events.len() && #[trigger] events[k] is BackgroundWork
                && !events[k]->output_delta,
        noted_all(flags, events).markdown_changed <==> flags.markdown_changed || exists|k: int|
            0 <= k < events.len() && (#[trigger] events[k] is TextDelta
                || events[k] is ReasoningDelta),
        noted_all(flags, events).force_save <==> flags.force_save || exists|k: int|
            0 <= k < events.len() && is_saved_at_once(#[trigger] events[k]),
    decreases events.len(),
{
    if events.len() > 0 {
        let head = events.drop_last();
        noted_is_any(flags, head);
        assert forall|k: int| 0 <= k < head.len() implies #[trigger] head[k] == events[k] by {}
        assert(events[events.len() - 1] == events.last());
        let all = noted_all(flags, events);
        let before = noted_all(flags, head);
        if exists|k: int| 0 <= k < head.len() && !(#[trigger] head[k] is BackgroundWork) {
            let k = choose|k: int| 0 <= k < head.len() && !(#[trigger] head[k] is BackgroundWork);
            assert(!(events[k] is BackgroundWork));
        }
        if exists|k: int| 0 <= k < events.len() && !(#[trigger] events[k] is BackgroundWork) {
            let k = choose|k: int|
                0 <= k < events.len() && !(#[trigger] events[k] is BackgroundWork);
            if k < head.len() {
                assert(!(head[k] is BackgroundWork));
            }
        }
        if exists|k: int|
            0 <= k < head.len() && #[trigger] head[k] is BackgroundWork && !head[k]->output_delta {
            let k = choose|k: int|
                0 <= k < head.len() && #[trigger] head[k] is BackgroundWork
                    && !head[k]->output_delta;
            assert(events[k] is BackgroundWork);
        }
        if exists|k: int|
            0 <= k < events.len() && #[trigger] events[k] is BackgroundWork
                && !events[k]->output_delta {
            let k = choose|k: int|
                0 <= k < events.len() && #[trigger] events[k] is BackgroundWork
                    && !events[k]->output_delta;
            if k < head.len() {
                assert(head[k] is BackgroundWork);
            }
        }
        if exists|k: int|
            0 <= k < head.len() && (#[trigger] head[k] is TextDelta || head[k] is ReasoningDelta) {
            let k = choose|k: int|
                0 <= k < head.len() && (#[trigger] head[k] is TextDelta
                    || head[k] is ReasoningDelta);
            assert(events[k] is TextDelta || events[k] is ReasoningDelta);
        }
        if exists|k: int|
            0 <= k < events.len() && (#[trigger] events[k] is TextDelta
                || events[k] is ReasoningDelta) {
            let k = choose|k: int|
                0 <= k < events.len() && (#[trigger] events[k] is TextDelta
                    || events[k] is ReasoningDelta);
            if k < head.len() {
                assert(head[k] is TextDelta || head[k] is ReasoningDelta);
            }
        }
        if exists|k: int| 0 <= k < head.len() && is_saved_at_once(#[trigger] head[k]) {
            let k = choose|k: int| 0 <= k < head.len() && is_saved_at_once(#[trigger] head[k]);
            assert(is_saved_at_once(events[k]));
        }
        if exists|k: int| 0 <= k < events.len() && is_saved_at_once(#[trigger] events[k]) {
            let k = choose|k: int|
                0 <= k < events.len() && is_saved_at_once(#[trigger] events[k]);
            if k < head.len() {
                assert(is_saved_at_once(head[k]));
            }
        }
    }
}

/// What changed is told by what was reported: anything but work in the background changes the task, work in the
/// background changes itself but for its output, text and reasoning have to be laid out, and some reports are
/// saved at once.
pub proof fn reports_tell_what_changed(flags: &mut DrainFlags, events: &Vec<DriverEvent>)
    requires
        *old(flags) == (DrainFlags {
            runtime_changed: false,
            background_changed: false,
            markdown_changed: false,
            force_save: false,
        }),
        call_ensures(DrainFlags::note_all, (flags, events), ()),
    ensures
        final(flags).runtime_changed <==> exists|k: int|
            0 <= k < events@.len() && !(#[trigger] events@[k] is BackgroundWork),
        final(flags).background_changed <==> exists|k: int|
            0 <= k < events@.len() && #[trigger] events@[k] is BackgroundWork
                && !events@[k]->output_delta,
        final(flags).markdown_changed <==> exists|k: int|
            0 <= k < events@.len() && (#[trigger] events@[k] is TextDelta
                || events@[k] is ReasoningDelta),
        final(flags).force_save <==> exists|k: int|
            0 <= k < events@.len() && is_saved_at_once(#[trigger] events@[k]),
{
    noted_is_any(*old(flags), events@);
}

proof fn drained_is_any(
    runtimes: Map<u128, SessionRuntime>,
    reports: Seq<RuntimeReports>,
    selected: Option<u128>,
    i: int,
    k: int,
)
    requires
        0 <= i < reports.len(),
        0 <= k < reports[i].handled@.len(),
        runtimes.contains_key(reports[i].session_id),
    ensures
        !(reports[i].handled@[k] is BackgroundWork) ==> drained(
            runtimes,
            reports,
            selected,
        ).changed && drained(runtimes, reports, selected).persisted_state_changed,
        !(reports[i].handled@[k] is BackgroundWork) && selected == Some(reports[i].session_id)
            ==> drained(runtimes, reports, selected).selected_changed,
        is_saved_at_once(reports[i].handled@[k]) ==> drained(
            runtimes,
            reports,
            selected,
        ).force_save,
    decreases reports.len(),
{
    if i < reports.len() - 1 {
        assert(reports.drop_last()[i] == reports[i]);
        drained_is_any(runtimes, reports.drop_last(), selected, i, k);
    } else {
        noted_is_any(no_changes(), reports[i].handled@);
        assert(reports.last() == reports[i]);
    }
}

/// No report of an agent that is known is passed over: it changes what is shown and what is saved, and what has
/// been looked at is not looked at again. An agent that was let go of is gone; the others stay.
pub proof fn no_report_is_passed_over(
    waku: &mut Waku,
    reports: &Vec<RuntimeReports>,
    queues_go_on: bool,
    r: DrainTotals,
    i: int,
    k: int,
)
    requires
        call_ensures(Waku::drain_driver_events, (waku, reports, queues_go_on), r),
        0 <= i < reports@.len(),
        0 <= k < reports@[i].handled@.len(),
        old(waku).runtimes@.contains_key(reports@[i].session_id),
    ensures
        !(reports@[i].handled@[k] is BackgroundWork) ==> r.changed && r.persisted_state_changed,
        !(reports@[i].handled@[k] is BackgroundWork) && old(waku).tasks.selected_session == Some(
            reports@[i].session_id,
        ) ==> r.selected_changed,
        is_saved_at_once(reports@[i].handled@[k]) ==> r.force_save,
        queues_go_on ==> r.changed,
        final(waku).runtimes@.contains_key(reports@[i].session_id) <==> reports@[i].kept,
        reports@[i].kept ==> final(waku).runtimes@[reports@[i].session_id].pending_events@.len() == 0,
        reports@[i].kept && (reports@[i].handled@[k] is TextDelta
            || reports@[i].handled@[k] is ReasoningDelta) ==> final(waku).runtimes@[reports@[i].session_id].stream_remeasure_pending,
        final(waku).tasks == old(waku).tasks,
{
    drained_is_any(old(waku).runtimes@, reports@, old(waku).tasks.selected_session, i, k);
    noted_is_any(no_changes(), reports@[i].handled@);
    assert(settled(old(waku).runtimes@, final(waku).runtimes@, reports@[i]));
}

/// Agents that reported nothing stay as they are.
pub proof fn silent_agents_stay(
    waku: &mut Waku,
    reports: &Vec<RuntimeReports>,
    queues_go_on: bool,
    r: DrainTotals,
    id: u128,
)
    requires
        call_ensures(Waku::drain_driver_events, (waku, reports, queues_go_on), r),
        forall|i: int| 0 <= i < reports@.len() ==> (#[trigger] reports@[i]).session_id != id,
    ensures
        final(waku).runtimes@.contains_key(id) <==> old(waku).runtimes@.contains_key(id),
        final(waku).runtimes@.contains_key(id) ==> final(waku).runtimes@[id] == old(
            waku,
        ).runtimes@[id],
{
    assert(same_agent(old(waku).runtimes@, final(waku).runtimes@, id));
}

/// As long as anything is left to be looked at or laid out, the next frame looks again.
pub proof fn what_is_left_is_looked_at_next(
    waku: &Waku,
    output_delay: Option<u64>,
    r: EventPumpSchedule,
    id: u128,
)
    requires
        call_ensures(Waku::drain_event_pump, (waku, output_delay), r),
    ensures
        waku.runtimes@.contains_key(id) && (waku.runtimes@[id].pending_events@.len() > 0
            || waku.runtimes@[id].stream_remeasure_pending) ==> r == EventPumpSchedule::StreamFrame,
        waku.runtimes@.dom() =~= Set::<u128>::empty() ==> r == (match output_delay {
            Some(ms) => EventPumpSchedule::BackgroundOutput(ms),
            None => EventPumpSchedule::Idle,
        }),
{
    if waku.runtimes@.contains_key(id) {
        assert(crate::runtime::pump::is_behind(waku.runtimes@[id])
            || !crate::runtime::pump::is_behind(waku.runtimes@[id]));
    }
}

/// What is known stays unsaved only where saving failed, and then the user is told; it is saved at once where a
/// report asks for it, else not before the interval is over.
pub proof fn a_failed_save_is_told(
    dirty: &mut bool,
    daemon_error: Option<String>,
    app_error: Option<String>,
    r: Option<Label>,
    unsaved: bool,
    forced: bool,
    since: u64,
    interval: u64,
    now: bool,
)
    requires
        call_ensures(save, (dirty, daemon_error, app_error), r),
        call_ensures(saves_now, (unsaved, forced, since, interval), now),
    ensures
        r is Some <==> daemon_error is Some || app_error is Some,
        r is None ==> !*final(dirty),
        r is Some ==> *final(dirty) == *old(dirty),
        !unsaved ==> !now,
        unsaved && forced ==> now,
        unsaved && !forced ==> (now <==> since >= interval),
{
    assert(crate::label::opt_label(r) is Some <==> r is Some);
}

proof fn due_holds(waku: Waku, ids: Seq<u128>, waiting: bool, id: u128)
    ensures
        due(waku, ids, waiting).contains(id) <==> ids.contains(id)
            && crate::runtime::checkpoints::ending_under_way(waku, id) == waiting,
    decreases ids.len(),
{
    if ids.len() > 0 {
        let head = ids.drop_last();
        let before = due(waku, head, waiting);
        let all = due(waku, ids, waiting);
        due_holds(waku, head, waiting, id);
        assert(ids.contains(id) <==> head.contains(id) || id == ids.last()) by {
            if ids.contains(id) {
                let k = ids.index_of(id);
                if k < head.len() {
                    assert(head[k] == id);
                }
            }
            if head.contains(id) {
                let k = head.index_of(id);
                assert(ids[k] == id);
            }
            assert(ids[ids.len() - 1] == ids.last());
        }
        if all.len() > before.len() {
            if all.contains(id) {
                let k = all.index_of(id);
                if k < before.len() {
                    assert(before[k] == id);
                }
            }
            if before.contains(id) {
                let k = before.index_of(id);
                assert(all[k] == id);
            }
            assert(all[before.len() as int] == ids.last());
        }
    }
}

proof fn once_holds(ids: Seq<u128>, id: u128)
    ensures
        once(ids).contains(id) <==> ids.contains(id),
    decreases ids.len(),
{
    if ids.len() > 0 {
        let head = ids.drop_last();
        let before = once(head);
        let all = once(ids);
        once_holds(head, id);
        once_holds(head, ids.last());
        assert(ids.contains(id) <==> head.contains(id) || id == ids.last()) by {
            if ids.contains(id) {
                let k = ids.index_of(id);
                if k < head.len() {
                    assert(head[k] == id);
                }
            }
            if head.contains(id) {
                let k = head.index_of(id);
                assert(ids[k] == id);
            }
            assert(ids[ids.len() - 1] == ids.last());
        }
        if all.len() > before.len() {
            if all.contains(id) {
                let k = all.index_of(id);
                if k < before.len() {
                    assert(before[k] == id);
                }
            }
            if before.contains(id) {
                let k = before.index_of(id);
                assert(all[k] == id);
            }
            assert(all[before.len() as int] == ids.last());
        }
    }
}

/// A queue that is to go on goes on once the checkpoint behind the task's last turn is there, and waits until
/// then; none is forgotten.
pub proof fn queues_wait_for_their_checkpoint(waku: &mut Waku, i: int, r: Vec<u128>)
    requires
        stands_first(old(waku).tasks.sessions@, i),
        call_ensures(Waku::take_due_queue_drains, (waku,), r),
    ensures
        ({
            let id = old(waku).tasks.sessions@[i].id;
            let noted = old(waku).pending_queue_drains@.contains(id);
            &&& r@.contains(id) <==> noted && !awaits_checkpoint(*old(waku), i)
            &&& final(waku).pending_queue_drains@.contains(id) <==> noted && awaits_checkpoint(
                *old(waku),
                i,
            )
        }),
{
    let id = old(waku).tasks.sessions@[i].id;
    let ids = old(waku).pending_queue_drains@;
    first_task_is_found(old(waku).tasks.sessions@, i);
    due_holds(*old(waku), ids, true, id);
    due_holds(*old(waku), ids, false, id);
    once_holds(due(*old(waku), ids, true), id);
}

/// Idle agents are let go of, and no others.
pub proof fn idle_agents_are_let_go(waku: &mut Waku, idle: &Vec<u128>, r: Vec<u128>, id: u128)
    requires
        call_ensures(Waku::reap_idle_sessions, (waku, idle), r),
    ensures
        final(waku).runtimes@.contains_key(id) <==> old(waku).runtimes@.contains_key(id)
            && !idle@.contains(id),
        r@.contains(id) <==> old(waku).runtimes@.contains_key(id) && idle@.contains(id),
        final(waku).runtimes@.contains_key(id) ==> final(waku).runtimes@[id] == old(
            waku,
        ).runtimes@[id],
        final(waku).tasks == old(waku).tasks,
{
    closed_holds(old(waku).runtimes@.dom(), idle@, id);
}

proof fn closed_holds(known: Set<u128>, idle: Seq<u128>, id: u128)
    ensures
        closed(known, idle).contains(id) <==> known.contains(id) && idle.contains(id),
    decreases idle.len(),
{
    if idle.len() > 0 {
        let head = idle.drop_last();
        let before = closed(known, head);
        let all = closed(known, idle);
        closed_holds(known, head, id);
        assert(idle.contains(id) <==> head.contains(id) || id == idle.last()) by {
            if idle.contains(id) {
                let k = idle.index_of(id);
                if k < head.len() {
                    assert(head[k] == id);
                }
            }
            if head.contains(id) {
                let k = head.index_of(id);
                assert(idle[k] == id);
            }
            assert(idle[idle.len() - 1] == idle.last());
        }
        if all.len() > before.len() {
            if all.contains(id) {
                let k = all.index_of(id);
                if k < before.len() {
                    assert(before[k] == id);
                }
            }
            if before.contains(id) {
                let k = before.index_of(id);
                assert(all[k] == id);
            }
            assert(all[before.len() as int] == idle.last());
        }
    }
}

// ---------------------------------------------------------------------------
// Options
// ---------------------------------------------------------------------------
/// Tells whether a model can be told how hard to think, with this effort at this place of its list.
pub open spec fn lists_effort(entry: ModelCatalogEntry, effort: Seq<char>, e: int) -> bool {
    &&& entry.supported
    &&& entry.capabilities.reasoning_effort
    &&& 0 <= e < entry.reasoning_efforts@.len()
    &&& entry.reasoning_efforts@[e].id@ == effort
    &&& forall|d: int| 0 <= d < e ==> (#[trigger] entry.reasoning_efforts@[d]).id@ != effort
}

proof fn effort_stands_at(efforts: Seq<ReasoningEffortOption>, id: Seq<char>, e: int, i: int)
    requires
        0 <= i <= e < efforts.len(),
        efforts[e].id@ == id,
        forall|d: int| 0 <= d < e ==> (#[trigger] efforts[d]).id@ != id,
    ensures
        effort_position(efforts, id, i) == e,
    decreases e - i,
{
    if i < e {
        assert(efforts[i].id@ != id);
        effort_stands_at(efforts, id, e, i + 1);
    }
}

proof fn effort_is_listed(efforts: Seq<ReasoningEffortOption>, id: Seq<char>, i: int)
    requires
        0 <= i <= efforts.len(),
    ensures
        i <= effort_position(efforts, id, i) <= efforts.len(),
        effort_position(efforts, id, i) < efforts.len() ==> efforts[effort_position(
            efforts,
            id,
            i,
        )].id@ == id,
    decreases efforts.len() - i,
{
    if i < efforts.len() && efforts[i].id@ != id {
        effort_is_listed(efforts, id, i + 1);
    }
}

/// An effort that the model lists is passed on, under the name that the provider has for it.
pub proof fn a_listed_effort_is_passed_on(
    effort: &str,
    entry: &ModelCatalogEntry,
    e: int,
    r: Option<&str>,
    gated: Option<&str>,
)
    requires
        lists_effort(*entry, effort@, e),
        call_ensures(provider_reasoning_effort, (Some(effort), Some(entry)), r),
        call_ensures(gated_reasoning_effort, (Some(effort), Some(entry)), gated),
    ensures
        r is Some,
        (r->0)@ == entry.reasoning_efforts@[e].provider_value@,
        gated is Some,
        (gated->0)@ == effort@,
{
    effort_stands_at(entry.reasoning_efforts@, effort@, e, 0);
    assert(str_view(r) is Some);
}

/// An effort that the model does not list is not passed on, nor any of a model that is not known or cannot be
/// used.
pub proof fn an_unlisted_effort_is_not_passed_on(
    effort: &str,
    entry: Option<&ModelCatalogEntry>,
    r: Option<&str>,
)
    requires
        call_ensures(provider_reasoning_effort, (Some(effort), entry), r),
        entry is Some ==> !(entry->0).supported || !(entry->0).capabilities.reasoning_effort || forall|
            d: int,
        |
            0 <= d < (entry->0).reasoning_efforts@.len() ==> (
            #[trigger] (entry->0).reasoning_efforts@[d]).id@ != effort@,
    ensures
        r is None,
{
    assert(str_view(r) is Some <==> r is Some);
    if entry is Some {
        effort_is_listed((entry->0).reasoning_efforts@, effort@, 0);
    }
}

/// What an agent is told is what the task asks for: its modes and its context window as they are, the model only
/// where the provider lists it and it can be used.
pub proof fn options_are_what_the_task_asks_for(
    session: &AgentSession,
    catalogs: &KeyMap<String, ModelCatalog>,
    r: SessionOptions,
)
    requires
        call_ensures(session_options, (session, catalogs), r),
    ensures
        r.mode == session.runtime_mode,
        r.interaction_mode == session.interaction_mode,
        r.context_window is Some <==> session.context_window is Some,
        r.context_window is Some ==> (r.context_window->0)@ == (session.context_window->0)@,
        r.model is Some <==> session.model is Some && trimmed((session.model->0)@).len() > 0
            && can_use(catalogs@, session.provider@, trimmed((session.model->0)@)),
        r.model is Some ==> (r.model->0)@ == trimmed((session.model->0)@),
        r.model is None ==> r.reasoning_effort is None && r.service_tier is None,
        session.service_tier is None ==> r.service_tier is None,
        r.service_tier is Some ==> r.service_tier == session.service_tier,
        session.reasoning_effort is None ==> r.reasoning_effort is None,
{
    let v = options_of(*session, catalogs@);
    assert(r@ == v);
    assert(opt_view(r.model) == v.model);
    assert(opt_view(r.context_window) == v.context_window);
    assert(opt_view(r.reasoning_effort) == v.reasoning_effort);
    if session.model is Some {
        crate::text::trimming_again_changes_nothing((session.model->0)@);
    }
}

proof fn provider_is_found(list: Seq<ExternalProvider>, id: Seq<char>, p: int)
    requires
        0 <= p < list.len(),
        list[p].id@ == id,
        forall|k: int| 0 <= k < p ==> (#[trigger] list[k]).id@ != id,
    ensures
        provider_position(provider_views(list), id, 0) == p,
{
    let v = provider_views(list);
    provider_position_finds(v, id, 0);
    let at = provider_position(v, id, 0);
    stands_no_later(v, id, p, 0);
    assert(v[p] == list[p]@);
    if at < p {
        assert(v[at] == list[at]@);
        assert(list[at].id@ != id);
    }
}

proof fn stands_no_later(v: Seq<crate::providers::ProviderView>, id: Seq<char>, p: int, i: int)
    requires
        0 <= i <= p < v.len(),
        v[p].id == id,
    ensures
        provider_position(v, id, i) <= p,
    decreases p - i,
{
    if v[i].id != id {
        stands_no_later(v, id, p, i + 1);
    }
}

proof fn provider_is_not_found(list: Seq<ExternalProvider>, id: Seq<char>)
    requires
        forall|k: int| 0 <= k < list.len() ==> (#[trigger] list[k]).id@ != id,
    ensures
        provider_position(provider_views(list), id, 0) == list.len(),
{
    let v = provider_views(list);
    provider_position_finds(v, id, 0);
    let at = provider_position(v, id, 0);
    if at < v.len() {
        assert(v[at] == list[at]@);
    }
}

/// An agent is started for a provider that is built in or that the user set up, and that has a default model; in
/// the directory that was given, with what the task asks for. A built-in provider comes first.
pub proof fn an_agent_is_started_for_a_known_provider(
    session: &AgentSession,
    presets: &[ExternalProvider],
    customs: &[ExternalProvider],
    catalogs: &KeyMap<String, ModelCatalog>,
    cwd: String,
    p: int,
    r: Result<DriverStartOptions, StartError>,
    options: SessionOptions,
)
    requires
        0 <= p < customs@.len(),
        customs@[p].id@ == session.provider@,
        forall|k: int| 0 <= k < p ==> (#[trigger] customs@[k]).id@ != session.provider@,
        forall|k: int| 0 <= k < presets@.len() ==> (#[trigger] presets@[k]).id@ != session.provider@,
        call_ensures(
            driver_start_request_for_session,
            (session, presets, customs, catalogs, &None, cwd),
            r,
        ),
        call_ensures(session_options, (session, catalogs), options),
    ensures
        r is Ok <==> trimmed(customs@[p].default_model@).len() > 0,
        r is Ok ==> (r->Ok_0).provider@ == session.provider@ && (r->Ok_0).cwd@ == cwd@ && (
        r->Ok_0).options@ == options@,
        r is Err ==> r->Err_0 is NoDefaultModel,
{
    provider_is_found(customs@, session.provider@, p);
    provider_is_not_found(presets@, session.provider@);
    assert(provider_views(customs@)[p] == customs@[p]@);
}

/// Without a provider that is known no agent is started.
pub proof fn without_a_provider_no_agent_is_started(
    session: &AgentSession,
    presets: &[ExternalProvider],
    customs: &[ExternalProvider],
    catalogs: &KeyMap<String, ModelCatalog>,
    invalid: Option<String>,
    cwd: String,
    r: Result<DriverStartOptions, StartError>,
)
    requires
        forall|k: int| 0 <= k < customs@.len() ==> (#[trigger] customs@[k]).id@ != session.provider@,
        forall|k: int| 0 <= k < presets@.len() ==> (#[trigger] presets@[k]).id@ != session.provider@,
        call_ensures(
            driver_start_request_for_session,
            (session, presets, customs, catalogs, &invalid, cwd),
            r,
        ),
    ensures
        r is Err,
        r->Err_0 is NotConfigured,
        (r->Err_0->NotConfigured_0)@ == session.provider@,
{
    provider_is_not_found(customs@, session.provider@);
    provider_is_not_found(presets@, session.provider@);
    assert(r->Err_0@ is NotConfigured);
}

/// Options that change are numbered: what comes of older ones is told apart from what comes of the newest, and
/// the agent is started anew only where the newest could not be applied.
pub proof fn only_the_newest_options_restart(
    waku: &mut Waku,
    i: int,
    r: Option<(SessionOptions, u64)>,
    later: &Waku,
    generation: u64,
    applied: bool,
    restart: bool,
)
    requires
        stands_first(old(waku).tasks.sessions@, i),
        call_ensures(Waku::apply_session_options, (waku, old(waku).tasks.sessions@[i].id), r),
        *later == *final(waku),
        call_ensures(
            Waku::restarts_after_options,
            (later, old(waku).tasks.sessions@[i].id, generation, applied),
            restart,
        ),
    ensures
        r is Some <==> old(waku).runtimes@.contains_key(old(waku).tasks.sessions@[i].id),
        r is Some ==> (restart <==> generation == (r->0).1 && !applied),
        r is None ==> !restart,
        r is Some ==> (r->0).1 != old(
            waku,
        ).runtimes@[old(waku).tasks.sessions@[i].id].options_generation,
        final(waku).tasks == old(waku).tasks,
{
    first_task_is_found(old(waku).tasks.sessions@, i);
}

// ---------------------------------------------------------------------------
// Prompts
// ---------------------------------------------------------------------------
proof fn image_is_listed(list: Seq<MessageAttachment>, k: int)
    requires
        0 <= k < list.len(),
        list[k].is_image,
        list[k].blob_reference is Some,
        is_blob((list[k].blob_reference->0)@),
    ensures
        image_refs(list).contains((list[k].blob_reference->0)@),
    decreases list.len(),
{
    let head = list.drop_last();
    let before = image_refs(head);
    let all = image_refs(list);
    let reference = (list[k].blob_reference->0)@;
    if k < head.len() {
        assert(head[k] == list[k]);
        image_is_listed(head, k);
        let i = before.index_of(reference);
        assert(all[i] == reference);
    } else {
        assert(all[before.len() as int] == reference);
    }
}

/// An agent gets the text that it is to get; the transcript keeps what the user typed, where that is another one.
/// It gets every image that the daemon stored, and learns of every file where it came from.
pub proof fn an_agent_gets_what_was_sent(
    submission: &ComposerSubmission,
    text: String,
    r: PromptInput,
    k: int,
)
    requires
        call_ensures(prompt_input_from_submission_with_text, (submission, text), r),
        0 <= k < submission.attachments@.len(),
    ensures
        r.text@ == text@,
        submission.display_content is Some ==> r.display_text is Some && (r.display_text->0)@ == (
        submission.display_content->0)@,
        submission.display_content is None && text@ != submission.prompt@ ==> r.display_text is Some
            && (r.display_text->0)@ == submission.prompt@,
        submission.display_content is None && text@ == submission.prompt@ ==> r.display_text is None,
        r.sources@.len() == submission.attachments@.len(),
        r.sources@[k].mention@ == submission.attachments@[k].mention@,
        r.sources@[k].name@ == submission.attachments@[k].name@,
        r.sources@[k].is_dir == submission.attachments@[k].is_dir,
        r.sources@[k].is_image == submission.attachments@[k].is_image,
        ({
            let reference = submission.attachments@[k].blob_reference;
            let stored = reference is Some && has_prefix((reference->0)@, "wakuwaku-blob:"@);
            &&& stored ==> r.sources@[k].reference is Some && (r.sources@[k].reference->0)@ == (
            reference->0)@
            &&& stored && submission.attachments@[k].is_image ==> exists|j: int|
                0 <= j < r.attachments@.len() && (#[trigger] r.attachments@[j]) is Blob && (
                r.attachments@[j]->reference)@ == (reference->0)@
            &&& reference is Some && !stored && !has_prefix(
                (reference->0)@,
                "wakuwaku-attachment:"@,
            ) ==> r.sources@[k].reference is None
        }),
{
    let v = r@;
    let a = submission.attachments@[k];
    assert(v.display_text == opt_view(r.display_text));
    assert(v.sources.len() == r.sources@.len());
    assert(is_source(a, v.sources[k]));
    assert(v.sources[k] == r.sources@[k]@);
    assert(v.sources[k].reference == opt_view(r.sources@[k].reference));
    assert(submission@.display_content == opt_view(submission.display_content));
    if a.blob_reference is Some && a.is_image && is_blob((a.blob_reference->0)@) {
        image_is_listed(submission.attachments@, k);
        let reference = (a.blob_reference->0)@;
        let j = v.attachments.index_of(reference);
        assert(v.attachments[j] == (r.attachments@[j]->reference)@);
        assert(r.attachments@[j] is Blob);
    }
}

} // verus!
