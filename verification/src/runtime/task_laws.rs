//! What the client promises of its tasks: which one is found, where it works, and what becomes of an agent
//! that is asked for.
use crate::protocol::SessionStatus;
use crate::runtime::state::{AttachAction, AttachResult, Waku};
use crate::runtime::state::interrupted;
use crate::runtime::sync::TaskState;
use crate::session::{
    project_position, session_position, session_position_finds, AgentSession, Project,
    SessionWorkspace, TurnStatus,
};
use vstd::prelude::*;

verus! {

broadcast use vstd::std_specs::hash::group_hash_axioms;

/// Tells whether a task is the first of a list with its id.
pub open spec fn stands_first(sessions: Seq<AgentSession>, i: int) -> bool {
    &&& 0 <= i < sessions.len()
    &&& forall|k: int| 0 <= k < i ==> (#[trigger] sessions[k]).id != sessions[i].id
}

/// Tells whether no task of a list has an id.
pub open spec fn is_absent(sessions: Seq<AgentSession>, id: u128) -> bool {
    forall|k: int| 0 <= k < sessions.len() ==> (#[trigger] sessions[k]).id != id
}

/// Tells whether a task is at rest: it is idle, or it has failed.
pub open spec fn at_rest(status: SessionStatus) -> bool {
    status == SessionStatus::Idle || status == SessionStatus::Failed
}

/// Tells whether two lists of tasks are the same but for one place.
pub open spec fn only_task_changed(
    before: Seq<AgentSession>,
    after: Seq<AgentSession>,
    i: int,
) -> bool {
    &&& after.len() == before.len()
    &&& forall|k: int| 0 <= k < before.len() && k != i ==> #[trigger] after[k] == before[k]
}

/// The first task with its id is the one that is found.
pub proof fn first_task_is_found(sessions: Seq<AgentSession>, i: int)
    requires
        stands_first(sessions, i),
    ensures
        session_position(sessions, sessions[i].id, 0) == i,
{
    session_position_finds(sessions, sessions[i].id, 0);
    let p = session_position(sessions, sessions[i].id, 0);
    if i < p {
        assert(sessions[i].id != sessions[i].id);
    }
}

/// A task that is absent is not found.
pub proof fn absent_task_is_not_found(sessions: Seq<AgentSession>, id: u128)
    requires
        is_absent(sessions, id),
    ensures
        session_position(sessions, id, 0) == sessions.len(),
{
    session_position_finds(sessions, id, 0);
}

/// A task that is found stands first.
pub proof fn found_task_stands_first(sessions: Seq<AgentSession>, id: u128)
    ensures
        session_position(sessions, id, 0) < sessions.len() ==> stands_first(
            sessions,
            session_position(sessions, id, 0),
        ) && sessions[session_position(sessions, id, 0)].id == id,
        session_position(sessions, id, 0) >= sessions.len() ==> is_absent(sessions, id),
{
    session_position_finds(sessions, id, 0);
}

/// The task with an id is the first one that has it; there is none where no task has.
pub proof fn tasks_are_found_by_their_ids(waku: &Waku, id: u128, r: Option<&AgentSession>)
    requires
        call_ensures(Waku::session, (waku, id), r),
    ensures
        r is None <==> is_absent(waku.tasks.sessions@, id),
        r is Some ==> (r->0).id == id,
        r is Some ==> exists|i: int| #[trigger]
            stands_first(waku.tasks.sessions@, i) && waku.tasks.sessions@[i] == *(r->0),
{
    found_task_stands_first(waku.tasks.sessions@, id);
    let p = session_position(waku.tasks.sessions@, id, 0);
    if r is None {
        assert(p >= waku.tasks.sessions@.len());
    } else {
        assert(waku.tasks.sessions@[p].id == id);
    }
}

/// The task that is shown is the one that was selected.
pub proof fn the_selected_task_is_shown(waku: &Waku, r: Option<&AgentSession>)
    requires
        call_ensures(Waku::selected_session, (waku,), r),
    ensures
        r is Some ==> waku.tasks.selected_session == Some((r->0).id),
        waku.tasks.selected_session matches Some(id) ==> (r is None <==> is_absent(
            waku.tasks.sessions@,
            id,
        )),
        waku.tasks.selected_session is None ==> r is None,
{
    if let Some(id) = waku.tasks.selected_session {
        found_task_stands_first(waku.tasks.sessions@, id);
        let p = session_position(waku.tasks.sessions@, id, 0);
        if p < waku.tasks.sessions@.len() {
            assert(waku.tasks.sessions@[p].id == id);
        }
    }
}

proof fn project_is_found(projects: Seq<Project>, id: u128, i: int)
    requires
        0 <= i <= projects.len(),
    ensures
        i <= project_position(projects, id, i) <= projects.len(),
        project_position(projects, id, i) < projects.len() ==> projects[project_position(
            projects,
            id,
            i,
        )].id == id,
        forall|k: int|
            i <= k < project_position(projects, id, i) ==> (#[trigger] projects[k]).id != id,
    decreases projects.len() - i,
{
    if i < projects.len() && projects[i].id != id {
        project_is_found(projects, id, i + 1);
    }
}

/// A task with a worktree works there, and any other in the directory of its project; without its project it
/// works nowhere.
pub proof fn tasks_work_where_they_belong(
    tasks: &TaskState,
    session: &AgentSession,
    r: Option<String>,
)
    requires
        call_ensures(TaskState::workspace_path_for_session, (tasks, session), r),
    ensures
        r is Some <==> exists|i: int|
            0 <= i < tasks.projects@.len() && (#[trigger] tasks.projects@[i]).id
                == session.project_id,
        r is Some ==> match session.workspace {
            SessionWorkspace::Worktree { path, .. } => (r->0)@ == path@,
            _ => exists|i: int|
                0 <= i < tasks.projects@.len() && (#[trigger] tasks.projects@[i]).id
                    == session.project_id && (r->0)@ == tasks.projects@[i].path@,
        },
{
    let projects = tasks.projects@;
    project_is_found(projects, session.project_id, 0);
    let p = project_position(projects, session.project_id, 0);
    if p < projects.len() {
        assert(projects[p].id == session.project_id);
        assert(r is Some);
        if !(session.workspace is Worktree) {
            assert((r->0)@ == projects[p].path@);
        }
    } else {
        assert(r is None);
    }
}

/// The project that is shown is the one that was selected.
pub proof fn the_selected_project_is_shown(waku: &Waku, r: Option<&Project>)
    requires
        call_ensures(Waku::selected_project, (waku,), r),
    ensures
        r is Some ==> waku.tasks.selected_project == Some((r->0).id) && exists|i: int|
            0 <= i < waku.tasks.projects@.len() && #[trigger] waku.tasks.projects@[i] == *(r->0),
        r is None ==> (waku.tasks.selected_project matches Some(id) ==> forall|i: int|
            0 <= i < waku.tasks.projects@.len() ==> (#[trigger] waku.tasks.projects@[i]).id != id),
{
    if let Some(id) = waku.tasks.selected_project {
        project_is_found(waku.tasks.projects@, id, 0);
    }
}

/// An agent is asked for where it is neither known nor asked for already, and from then on it has been asked
/// for. Nothing else changes.
pub proof fn agents_are_asked_for_once(waku: &mut Waku, id: u128, r: bool)
    requires
        call_ensures(Waku::start_runtime_attachment, (waku, id), r),
    ensures
        r <==> !old(waku).runtimes@.contains_key(id) && !old(waku).runtime_attach_pending@.contains(
            id,
        ),
        forall|k: u128| #[trigger]
            final(waku).runtime_attach_pending@.contains(k) <==> old(
                waku,
            ).runtime_attach_pending@.contains(k) || (r && k == id),
        final(waku).tasks == old(waku).tasks,
        final(waku).runtimes == old(waku).runtimes,
        final(waku).submission_preparations == old(waku).submission_preparations,
{
}

/// An agent that was asked for is taken over with the task as the daemon has it, where the task is listed and
/// has no agent yet: it replaces that task and no other.
pub proof fn an_agent_that_is_found_is_taken_over(
    waku: &mut Waku,
    i: int,
    session: AgentSession,
    r: AttachAction,
)
    requires
        stands_first(old(waku).tasks.sessions@, i),
        call_ensures(
            Waku::finish_runtime_attachment,
            (waku, old(waku).tasks.sessions@[i].id, AttachResult::Attached(session)),
            r,
        ),
        old(waku).runtime_attach_pending@.contains(old(waku).tasks.sessions@[i].id),
        !old(waku).runtimes@.contains_key(old(waku).tasks.sessions@[i].id),
    ensures
        r == (AttachAction::Install {
            shown: old(waku).tasks.selected_session == Some(old(waku).tasks.sessions@[i].id),
        }),
        only_task_changed(old(waku).tasks.sessions@, final(waku).tasks.sessions@, i),
        final(waku).tasks.sessions@[i] == session,
        !final(waku).runtime_attach_pending@.contains(old(waku).tasks.sessions@[i].id),
        !final(waku).runtime_attach_misses@.contains_key(old(waku).tasks.sessions@[i].id),
{
    first_task_is_found(old(waku).tasks.sessions@, i);
}

/// What was not asked for, or no longer, changes no task.
pub proof fn unasked_agents_change_nothing(
    waku: &mut Waku,
    id: u128,
    result: AttachResult,
    r: AttachAction,
)
    requires
        call_ensures(Waku::finish_runtime_attachment, (waku, id, result), r),
        !old(waku).runtime_attach_pending@.contains(id),
    ensures
        r == AttachAction::Done,
        final(waku).tasks == old(waku).tasks,
        final(waku).runtime_attach_pending@ == old(waku).runtime_attach_pending@,
        final(waku).runtime_attach_misses@ == old(waku).runtime_attach_misses@,
{
    assert(final(waku).runtime_attach_pending@ =~= old(waku).runtime_attach_pending@);
}

/// The agent of a task at work that is not found is asked for again, a quarter of a second later, until it was
/// missed four times in a row; then the turn is ended. For a task at rest nothing is done.
pub proof fn a_missing_agent_is_asked_for_four_times(
    waku: &mut Waku,
    i: int,
    r: AttachAction,
)
    requires
        stands_first(old(waku).tasks.sessions@, i),
        call_ensures(
            Waku::finish_runtime_attachment,
            (waku, old(waku).tasks.sessions@[i].id, AttachResult::Missing),
            r,
        ),
        old(waku).runtime_attach_pending@.contains(old(waku).tasks.sessions@[i].id),
    ensures
        final(waku).tasks == old(waku).tasks,
        ({
            let id = old(waku).tasks.sessions@[i].id;
            let before = old(waku).runtime_attach_misses@;
            let after = final(waku).runtime_attach_misses@;
            let missed: int = if before.contains_key(id) {
                before[id] as int
            } else {
                0
            };
            if at_rest(old(waku).tasks.sessions@[i].status) {
                r == AttachAction::Done && !after.contains_key(id)
            } else if missed < 3 {
                r == AttachAction::RetryAfter(250) && after.contains_key(id) && after[id] == missed
                    + 1
            } else {
                r == AttachAction::Interrupt && !after.contains_key(id)
            }
        }),
{
    first_task_is_found(old(waku).tasks.sessions@, i);
}

/// A turn that has no agent is ended: the task is idle, its last turn is interrupted and nothing of it is
/// written any more. What was said stays, and no other task changes.
pub proof fn a_turn_without_an_agent_is_ended(waku: &mut Waku, i: int, now: u64, r: bool)
    requires
        stands_first(old(waku).tasks.sessions@, i),
        call_ensures(
            Waku::interrupt_orphaned_runtime,
            (waku, old(waku).tasks.sessions@[i].id, now),
            r,
        ),
    ensures
        at_rest(old(waku).tasks.sessions@[i].status) ==> !r && final(waku).tasks == old(waku).tasks
            && final(waku).pending_checkpoint_captures@ == old(waku).pending_checkpoint_captures@,
        !at_rest(old(waku).tasks.sessions@[i].status) ==> r && ({
            let before = old(waku).tasks.sessions@[i];
            let after = final(waku).tasks.sessions@[i];
            &&& only_task_changed(old(waku).tasks.sessions@, final(waku).tasks.sessions@, i)
            &&& after.status == SessionStatus::Idle
            &&& after.id == before.id
            &&& after.turns@.len() == before.turns@.len()
            &&& before.turns@.len() > 0 && before.turns@.last().status == TurnStatus::Running
                ==> after.turns@.last().status == TurnStatus::Interrupted
                && after.turns@.last().completed_at == Some(now) && after.turns@.last().id
                == before.turns@.last().id
            &&& forall|k: int|
                0 <= k < before.turns@.len() - 1 ==> #[trigger] after.turns@[k] == before.turns@[k]
            &&& after.messages@.len() == before.messages@.len()
            &&& forall|k: int|
                0 <= k < before.messages@.len() ==> !(#[trigger] after.messages@[k]).streaming
                    && after.messages@[k].content == before.messages@[k].content
                    && after.messages@[k].role == before.messages@[k].role
                    && after.messages@[k].id == before.messages@[k].id
            &&& after.queued_messages == before.queued_messages
        }),
{
    let sessions = old(waku).tasks.sessions@;
    let id = sessions[i].id;
    first_task_is_found(sessions, i);
    if !at_rest(sessions[i].status) {
        let after = final(waku).tasks.task(id);
        assert(final(waku).tasks.sessions@ == sessions.update(i, after));
        assert(final(waku).tasks.sessions@[i] == after);
        assert(interrupted(sessions[i], after, now));
    }
}

} // verus!
