//! What is promised round a turn: where it works, why it could not begin, and what is done behind it.
use crate::runtime::checkpoints::{event_to_track, find_turn, remove_id, turn_position, without, TurnFinished};
use crate::runtime::prompt::{
    is_source, prompt_input_from_submission, source_views, PromptImageRef, PromptInput,
};
use crate::runtime::pump::{
    latest_of, next_schedule, sweep_is_due, DrainFlags, DrainTotals, EventPumpSchedule,
};
use crate::runtime::rewind::EditSubmit;
use crate::runtime::state::Waku;
use crate::runtime::submit::{
    plan_workspace, turn_directory, PreparedAgent, ProjectlessWorktree, StartFailure, WorkspacePlan,
};
use crate::runtime::sync::TaskState;
use crate::runtime::task_laws::{first_task_is_found, stands_first};
use crate::session::{
    find_session, AgentSession, ComposerSubmission, Message, Project, QueuedMessage,
    SessionWorkspace, Turn,
};
use crate::text::{has_prefix, opt_view, trimmed};
use vstd::prelude::*;

verus! {

broadcast use vstd::std_specs::hash::group_hash_axioms;

/// A worktree is made for a task that is to get one, from the branch that was chosen, unless the task has no
/// project; any other task goes on where it works.
pub proof fn a_worktree_is_made_where_it_is_asked_for(
    workspace: SessionWorkspace,
    project: &Project,
    r: Result<WorkspacePlan, ProjectlessWorktree>,
)
    requires
        call_ensures(plan_workspace, (workspace, project), r),
    ensures
        r is Err <==> workspace is NewWorktree && project.projectless,
        r matches Ok(plan) ==> (workspace matches SessionWorkspace::NewWorktree { base_branch }
            ==> plan == (WorkspacePlan::CreateWorktree { base_branch })) && (!(
        workspace is NewWorktree) ==> plan == WorkspacePlan::Keep(workspace)),
{
}

/// A turn works in the worktree of its task, and without one in the directory of its project.
pub proof fn a_turn_works_where_its_task_does(
    workspace: &SessionWorkspace,
    project: &Project,
    r: String,
)
    requires
        call_ensures(turn_directory, (workspace, project), r),
    ensures
        *workspace matches SessionWorkspace::Worktree { path, branch } ==> r@ == path@,
        !(*workspace is Worktree) ==> r@ == project.path@,
{
}

/// A turn cannot begin where its agent is gone or could not be started; a fresh agent is no hindrance.
pub proof fn a_turn_needs_its_agent(
    waku: &Waku,
    id: u128,
    agent: &PreparedAgent,
    r: Option<StartFailure>,
)
    requires
        call_ensures(Waku::start_failure, (waku, id, agent), r),
    ensures
        *agent is Existing ==> (r is None <==> waku.runtimes@.contains_key(id)) && (r is Some
            ==> r->0 is AgentGone),
        *agent is Started ==> r is None,
        *agent matches PreparedAgent::Failed(reason) ==> r is Some && r->0 is NotStarted && (
        r->0)->NotStarted_0@ == reason@,
{
}

proof fn turn_found(turns: Seq<Turn>, turn: usize, i: int)
    requires
        0 <= i <= turns.len(),
    ensures
        i <= turn_position(turns, turn, i) <= turns.len(),
        turn_position(turns, turn, i) < turns.len() ==> turns[turn_position(
            turns,
            turn,
            i,
        )].turn_count == turn,
        forall|k: int|
            i <= k < turn_position(turns, turn, i) ==> (#[trigger] turns[k]).turn_count != turn,
    decreases turns.len() - i,
{
    if i < turns.len() && turns[i].turn_count != turn {
        turn_found(turns, turn, i + 1);
    }
}

/// A turn is found by its number, the first with it.
pub proof fn turns_are_found_by_their_number(turns: &Vec<Turn>, turn: usize, at: usize)
    requires
        call_ensures(find_turn, (turns, turn), at),
    ensures
        at < turns@.len() ==> turns@[at as int].turn_count == turn,
        forall|k: int| 0 <= k < at ==> (#[trigger] turns@[k]).turn_count != turn,
        at <= turns@.len(),
{
    turn_found(turns@, turn, 0);
}

/// Taking an id off a list takes it off wherever it stands and nothing else; it is told whether it was there.
pub proof fn an_id_is_taken_off(list: &mut Vec<u128>, id: u128, r: bool, other: u128)
    requires
        call_ensures(remove_id, (list, id), r),
    ensures
        r <==> old(list)@.contains(id),
        !final(list)@.contains(id),
        other != id ==> (final(list)@.contains(other) <==> old(list)@.contains(other)),
{
    without_holds(old(list)@, id, other);
    without_holds(old(list)@, id, id);
}

proof fn without_holds(list: Seq<u128>, id: u128, other: u128)
    ensures
        without(list, id).contains(other) <==> list.contains(other) && other != id,
    decreases list.len(),
{
    if list.len() > 0 {
        let head = list.drop_last();
        let last = list.last();
        let kept = without(head, id);
        without_holds(head, id, other);
        assert(list[list.len() - 1] == last);
        assert(without(list, id) == if last != id {
            kept.push(last)
        } else {
            kept
        });
        if list.contains(other) {
            let k = list.index_of(other);
            if k < head.len() {
                assert(head[k] == other);
            }
        }
        if head.contains(other) {
            let k = head.index_of(other);
            assert(list[k] == other);
        }
        if kept.push(last).contains(other) {
            let k = kept.push(last).index_of(other);
            if k < kept.len() {
                assert(kept[k] == other);
            }
        }
        if kept.contains(other) {
            let k = kept.index_of(other);
            assert(kept.push(last)[k] == other);
        }
        assert(kept.push(last)[kept.len() as int] == last);
    }
}

/// A queue that is put off is put off once, and those that were put off before stay before it.
pub proof fn a_queue_is_put_off_once(waku: &mut Waku, id: u128, k: int)
    requires
        call_ensures(Waku::defer_queue_drain, (waku, id), ()),
    ensures
        final(waku).pending_queue_drains@.contains(id),
        old(waku).pending_queue_drains@.contains(id) ==> final(waku).pending_queue_drains@ == old(
            waku,
        ).pending_queue_drains@,
        0 <= k < old(waku).pending_queue_drains@.len() ==> final(waku).pending_queue_drains@[k]
            == old(waku).pending_queue_drains@[k],
        final(waku).tasks == old(waku).tasks,
{
    let before = old(waku).pending_queue_drains@;
    if !before.contains(id) {
        assert(final(waku).pending_queue_drains@[before.len() as int] == id);
    }
}

/// What an agent says is drawn at once, its output after a while, and without either there is nothing to do; of
/// several results the last counts; and it is time to look for idle agents once the interval is over.
pub proof fn reports_are_drawn_in_time<T>(
    pending: bool,
    delay: Option<u64>,
    r: EventPumpSchedule,
    results: Vec<T>,
    last: Option<T>,
    since: u64,
    interval: u64,
    due: bool,
)
    requires
        call_ensures(next_schedule, (pending, delay), r),
        call_ensures(latest_of::<T>, (results,), last),
        call_ensures(sweep_is_due, (since, interval), due),
    ensures
        pending <==> r is StreamFrame,
        !pending && delay is Some ==> r == EventPumpSchedule::BackgroundOutput(delay->0),
        !pending && delay is None ==> r is Idle,
        last is Some <==> results@.len() > 0,
        last is Some ==> last->0 == results@[results@.len() - 1],
        due <==> since >= interval,
{
}

/// What changed in one task counts for all of them; only what changed in the shown one redraws the transcript.
pub proof fn changes_add_up(
    totals: &mut DrainTotals,
    flags: DrainFlags,
    shown: bool,
    follow_up: bool,
    r: bool,
)
    requires
        call_ensures(DrainTotals::total, (totals, flags, shown, follow_up), ()),
        call_ensures(DrainTotals::redraws, (*final(totals),), r),
    ensures
        flags.runtime_changed || flags.background_changed ==> final(totals).changed && r,
        final(totals).persisted_state_changed <==> old(totals).persisted_state_changed
            || flags.runtime_changed,
        final(totals).force_save <==> old(totals).force_save || flags.force_save,
        !shown ==> final(totals).selected_changed == old(totals).selected_changed,
        shown && flags.runtime_changed ==> final(totals).selected_changed,
        old(totals).changed ==> final(totals).changed,
        r <==> final(totals).changed || final(totals).selected_changed,
{
}

/// The end of a turn is tracked where the turn ended.
pub proof fn ends_are_tracked(event: Option<TurnFinished>, ended: bool, r: Option<TurnFinished>)
    requires
        call_ensures(event_to_track, (event, ended), r),
    ensures
        ended ==> r == event,
        !ended ==> r is None,
{
}

/// A message that is being edited is sent with its text and files; without either it is empty, and while the task
/// is being prepared, or without an edit, nothing is done.
pub proof fn an_edited_message_is_sent(waku: &Waku, prompt: &str, r: EditSubmit)
    requires
        call_ensures(Waku::submit_message_edit_prompt, (waku, prompt), r),
    ensures
        waku.message_edit is None ==> r is Ignored,
        waku.message_edit matches Some(edit) ==> (r is Ignored
            <==> waku.submission_preparations@.contains(edit.session_id)) && (r is Empty ==> trimmed(
            prompt@,
        ).len() == 0 && edit.attachments@.len() == 0) && (
        !waku.submission_preparations@.contains(edit.session_id) && trimmed(prompt@).len() == 0
            && edit.attachments@.len() == 0 ==> r is Empty) && (r matches EditSubmit::Send(s) ==> (
        edit.attachments@.len() == 0 ==> s.prompt@ == trimmed(prompt@)) && s.attachments@
            == edit.attachments@),
{
}

/// A picture that was stored is named by its reference, and a path is not.
pub proof fn stored_pictures_are_named(reference: &str, r: Option<PromptImageRef>)
    requires
        call_ensures(PromptImageRef::from_stored_reference, (reference,), r),
    ensures
        r is Some <==> has_prefix(reference@, "wakuwaku-blob:"@),
        r matches Some(PromptImageRef::Blob { reference: text }) ==> text@ == reference@,
{
}

/// A message that waits holds what was to be sent, and what is sent of it is what it holds.
pub proof fn waiting_keeps_a_message(
    s: ComposerSubmission,
    id: u128,
    m: QueuedMessage,
    t: ComposerSubmission,
    held: &QueuedMessage,
    shown: &str,
)
    requires
        call_ensures(ComposerSubmission::into_queued_message, (s, id), m),
        call_ensures(ComposerSubmission::from_queued_message, (m,), t),
        *held == m,
        call_ensures(QueuedMessage::visible_content, (held,), shown),
    ensures
        m.id == id,
        t.prompt == s.prompt,
        t.display_content == s.display_content,
        t.attachments == s.attachments,
        s.display_content is None ==> shown@ == s.prompt@,
        s.display_content matches Some(text) ==> shown@ == text@,
{
    assert(opt_view(m.display_content) is Some <==> m.display_content is Some);
}

/// A message shows its text, or what is to be shown in its place; a task is busy unless it rests, and works in a
/// worktree unless it works in place.
pub proof fn tasks_tell_of_themselves(
    m: &Message,
    shown: &str,
    s: &AgentSession,
    busy: bool,
    started: bool,
    w: &SessionWorkspace,
    local: bool,
    tree: bool,
    path: Option<&String>,
    sessions: &Vec<AgentSession>,
    id: u128,
    at: usize,
    i: int,
)
    requires
        call_ensures(Message::visible_content, (m,), shown),
        call_ensures(AgentSession::is_busy, (s,), busy),
        call_ensures(AgentSession::has_started, (s,), started),
        call_ensures(SessionWorkspace::is_local, (w,), local),
        call_ensures(SessionWorkspace::is_worktree, (w,), tree),
        call_ensures(SessionWorkspace::path, (w,), path),
        call_ensures(find_session, (sessions, id), at),
    ensures
        m.display_content is None ==> shown@ == m.content@,
        m.display_content matches Some(text) ==> shown@ == text@,
        busy <==> !(s.status is Idle) && !(s.status is Failed),
        started == s.started,
        local <==> *w is Local,
        tree <==> !local,
        path is Some <==> *w is Worktree,
        *w matches SessionWorkspace::Worktree { path: p, branch } ==> (path->0)@ == p@,
        stands_first(sessions@, i) && sessions@[i].id == id ==> at == i,
{
    assert(opt_view(m.display_content) is Some <==> m.display_content is Some);
    if stands_first(sessions@, i) && sessions@[i].id == id {
        first_task_is_found(sessions@, i);
    }
}

/// What the agent gets is what was written and nothing else is shown in its place, unless something was to be; every
/// stored picture goes with it, and every file is told of.
pub proof fn what_was_written_goes_to_the_agent(
    s: &ComposerSubmission,
    r: PromptInput,
    i: int,
)
    requires
        call_ensures(prompt_input_from_submission, (s,), r),
    ensures
        r.text@ == s.prompt@,
        s.display_content is None ==> r.display_text is None,
        s.display_content matches Some(text) ==> r.display_text is Some && (r.display_text->0)@
            == text@,
        r.sources@.len() == s.attachments@.len(),
        0 <= i < s.attachments@.len() ==> r.sources@[i].name@ == s.attachments@[i].name@
            && r.sources@[i].mention@ == s.attachments@[i].mention@ && r.sources@[i].is_dir
            == s.attachments@[i].is_dir && r.sources@[i].is_image == s.attachments@[i].is_image && (
        !s.attachments@[i].is_image ==> r.sources@[i].mime is None),
{
    assert(r@.text == r.text@);
    assert(opt_view(r.display_text) is Some <==> r.display_text is Some);
    assert(opt_view(s.display_content) is Some <==> s.display_content is Some);
    let v = source_views(r.sources@);
    assert(v.len() == r.sources@.len());
    if 0 <= i < s.attachments@.len() {
        assert(is_source(s.attachments@[i], v[i]));
        assert(v[i] == r.sources@[i]@);
        assert(opt_view(r.sources@[i].mime) is Some <==> r.sources@[i].mime is Some);
    }
}

/// The shown task works where it belongs; the end of a turn is under way while its checkpoint is being made.
pub proof fn the_shown_task_works_where_it_belongs(
    waku: &Waku,
    r: Option<String>,
    i: int,
    tasks: &TaskState,
    session: &AgentSession,
    place: Option<String>,
    pending: bool,
)
    requires
        call_ensures(Waku::selected_workspace_path, (waku,), r),
        *tasks == waku.tasks,
        *session == waku.tasks.sessions@[i],
        call_ensures(TaskState::workspace_path_for_session, (tasks, session), place),
        stands_first(waku.tasks.sessions@, i),
        waku.tasks.selected_session == Some(waku.tasks.sessions@[i].id),
        call_ensures(Waku::ending_checkpoint_pending, (waku, waku.tasks.sessions@[i].id), pending),
    ensures
        r is Some <==> place is Some,
        r is Some ==> (r->0)@ == (place->0)@,
        waku.tasks.sessions@[i].turns@.len() == 0 || waku.tasks.sessions@[i].turns@[
            waku.tasks.sessions@[i].turns@.len() - 1
        ].status is Running ==> !pending,
        waku.tasks.sessions@[i].turns@.len() > 0 && !(waku.tasks.sessions@[i].turns@[
            waku.tasks.sessions@[i].turns@.len() - 1
        ].status is Running) && waku.checkpoint_captures_in_flight@.contains(
            (
                waku.tasks.sessions@[i].id,
                waku.tasks.sessions@[i].turns@[
                    waku.tasks.sessions@[i].turns@.len() - 1
                ].turn_count,
            ),
        ) ==> pending,
{
    first_task_is_found(waku.tasks.sessions@, i);
    assert(opt_view(r) is Some <==> r is Some);
    assert(opt_view(place) is Some <==> place is Some);
}

} // verus!
