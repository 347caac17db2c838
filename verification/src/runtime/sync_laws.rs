//! What taking over the daemon's tasks promises: which tasks stay, what they take over, which one is shown next
//! and which agents are asked for.
use crate::runtime::remote::{remote_applied, RemoteSync};
use crate::runtime::state::Waku;
use crate::runtime::sync::{
    attachable, dropped, kept, latest, merged_all, merged_one, merged_row, NextSelection,
    RemoteTaskStateSnapshot, SyncOutcome, TaskState,
};
use crate::runtime::task_laws::{at_rest, is_absent};
use crate::session::{
    lists_session, project_position, session_position, session_position_finds, AgentSession,
    Project,
};
use std::collections::HashSet;
use vstd::prelude::*;

verus! {

broadcast use vstd::std_specs::hash::group_hash_axioms;

/// Tells whether the tasks of a list all have different ids.
pub open spec fn ids_differ(sessions: Seq<AgentSession>) -> bool {
    forall|a: int, b: int|
        0 <= a < b < sessions.len() ==> (#[trigger] sessions[a]).id != (#[trigger] sessions[b]).id
}

/// Tells whether a task is a local one with what the daemon knows of it: its name, its project, its model and
/// its times are the daemon's; what was said in it, its turns and its queue are local; and so is its state while
/// its agent runs here.
pub open spec fn follows(
    after: AgentSession,
    local: AgentSession,
    remote: AgentSession,
    running: bool,
) -> bool {
    &&& after.id == local.id
    &&& after.title == remote.title
    &&& after.auto_title == remote.auto_title
    &&& after.project_id == remote.project_id
    &&& after.provider == remote.provider
    &&& after.model == remote.model
    &&& after.created_at == remote.created_at
    &&& after.last_reply_at == remote.last_reply_at
    &&& after.status == (if running {
        local.status
    } else {
        remote.status
    })
    &&& after.updated_at == (if running {
        local.updated_at
    } else {
        remote.updated_at
    })
    &&& after.messages == local.messages
    &&& after.turns == local.turns
    &&& after.transcript_blocks == local.transcript_blocks
    &&& after.queued_messages == local.queued_messages
    &&& after.workspace == local.workspace
    &&& after.runtime_mode == local.runtime_mode
    &&& after.interaction_mode == local.interaction_mode
    &&& after.started == local.started
    &&& after.detail_loaded == local.detail_loaded
}

proof fn found_where_it_stands(sessions: Seq<AgentSession>, k: int)
    requires
        ids_differ(sessions),
        0 <= k < sessions.len(),
    ensures
        session_position(sessions, sessions[k].id, 0) == k,
{
    let id = sessions[k].id;
    session_position_finds(sessions, id, 0);
    let p = session_position(sessions, id, 0);
    if p < k {
        assert(sessions[p].id != sessions[k].id);
    } else if k < p {
        assert(sessions[k].id != id);
    }
}

proof fn merged_is_as_told(
    local: Seq<AgentSession>,
    remote: Seq<AgentSession>,
    running: Set<u128>,
)
    requires
        ids_differ(local),
        ids_differ(remote),
    ensures
        ids_differ(merged_all(local, remote, running)),
        merged_all(local, remote, running).len() >= local.len(),
        forall|k: int|
            0 <= k < local.len() ==> (#[trigger] merged_all(local, remote, running)[k]).id
                == local[k].id,
        forall|k: int|
            0 <= k < local.len() && !lists_session(remote, local[k].id) ==> (#[trigger] merged_all(
                local,
                remote,
                running,
            )[k]) == local[k],
        forall|k: int, j: int|
            0 <= k < local.len() && 0 <= j < remote.len() && local[k].id == remote[j].id ==> follows(
                #[trigger] merged_all(local, remote, running)[k],
                local[k],
                #[trigger] remote[j],
                running.contains(remote[j].id),
            ),
        forall|j: int|
            0 <= j < remote.len() && !lists_session(local, (#[trigger] remote[j]).id) ==> exists|
                k: int,
            |
                local.len() <= k < merged_all(local, remote, running).len() && merged_all(
                    local,
                    remote,
                    running,
                )[k] == remote[j],
        forall|k: int|
            local.len() <= k < merged_all(local, remote, running).len() ==> exists|j: int|
                0 <= j < remote.len() && remote[j] == #[trigger] merged_all(
                    local,
                    remote,
                    running,
                )[k],
    decreases remote.len(),
{
    let all = merged_all(local, remote, running);
    if remote.len() > 0 {
        let head = remote.drop_last();
        let last = remote.last();
        let n = remote.len() - 1;
        let mid = merged_all(local, head, running);
        assert forall|a: int, b: int| 0 <= a < b < head.len() implies (#[trigger] head[a]).id != (
        #[trigger] head[b]).id by {
            assert(remote[a].id != remote[b].id);
        }
        merged_is_as_told(local, head, running);
        assert forall|j: int| 0 <= j < head.len() implies (#[trigger] head[j]).id != last.id by {
            assert(remote[j].id != remote[n].id);
        }
        assert(all == merged_one(mid, last, running));
        session_position_finds(mid, last.id, 0);
        let at = session_position(mid, last.id, 0);
        if at < mid.len() {
            if at >= local.len() {
                let j = choose|j: int| 0 <= j < head.len() && head[j] == mid[at];
                assert(head[j].id != last.id);
            }
            assert(mid[at].id == local[at].id);
            assert(!lists_session(head, local[at].id)) by {
                if lists_session(head, local[at].id) {
                    let j = choose|j: int|
                        0 <= j < head.len() && (#[trigger] head[j]).id == local[at].id;
                    assert(head[j].id != last.id);
                }
            }
            assert(mid[at] == local[at]);
            assert(all == mid.update(at, merged_row(mid[at], last, running.contains(last.id))));
            assert(all[at].id == local[at].id);
        } else {
            assert(all == mid.push(last));
            assert forall|k: int| 0 <= k < mid.len() implies (#[trigger] mid[k]).id != last.id by {}
        }
        assert(ids_differ(all)) by {
            assert forall|a: int, b: int| 0 <= a < b < all.len() implies (#[trigger] all[a]).id != (
            #[trigger] all[b]).id by {
                if b < mid.len() {
                    assert(mid[a].id != mid[b].id);
                } else {
                    assert(mid[a].id != last.id);
                }
            }
        }
        assert forall|k: int| 0 <= k < local.len() implies (#[trigger] all[k]).id == local[k].id by {
            assert(mid[k].id == local[k].id);
        }
        assert forall|k: int|
            0 <= k < local.len() && !lists_session(remote, local[k].id) implies (#[trigger] all[k])
            == local[k] by {
            if lists_session(head, local[k].id) {
                let j = choose|j: int|
                    0 <= j < head.len() && (#[trigger] head[j]).id == local[k].id;
                assert(remote[j].id == local[k].id);
            }
            assert(mid[k] == local[k]);
            assert(remote[n].id != local[k].id);
        }
        assert forall|k: int, j: int|
            0 <= k < local.len() && 0 <= j < remote.len() && local[k].id == remote[j].id implies follows(
            #[trigger] all[k],
            local[k],
            #[trigger] remote[j],
            running.contains(remote[j].id),
        ) by {
            if j < head.len() {
                assert(head[j] == remote[j]);
                assert(follows(mid[k], local[k], head[j], running.contains(head[j].id)));
                assert(all[k] == mid[k]) by {
                    if at == k {
                        assert(mid[at].id == last.id);
                        assert(head[j].id != last.id);
                    }
                }
            } else {
                found_where_it_stands(mid, k);
                assert(mid[k].id == local[k].id);
                assert(at == k);
            }
        }
        assert forall|j: int|
            0 <= j < remote.len() && !lists_session(local, (#[trigger] remote[j]).id) implies exists|
            k: int,
        | local.len() <= k < all.len() && all[k] == remote[j] by {
            if j < head.len() {
                assert(head[j] == remote[j]);
                let k = choose|k: int| local.len() <= k < mid.len() && mid[k] == head[j];
                assert(all[k] == remote[j]) by {
                    if at == k {
                        assert(head[j].id != last.id);
                    }
                }
            } else {
                if at < mid.len() {
                    assert(local[at].id == last.id);
                }
                assert(all[mid.len() as int] == last);
            }
        }
        assert forall|k: int| local.len() <= k < all.len() implies exists|j: int|
            0 <= j < remote.len() && remote[j] == #[trigger] all[k] by {
            if k < mid.len() {
                assert(all[k] == mid[k]);
                let j = choose|j: int| 0 <= j < head.len() && head[j] == mid[k];
                assert(remote[j] == all[k]);
            } else {
                assert(remote[n] == all[k]);
            }
        }
    }
}

proof fn kept_holds(local: Seq<AgentSession>, remote: Seq<AgentSession>)
    requires
        ids_differ(local),
    ensures
        ids_differ(kept(local, remote)),
        forall|m: AgentSession| #[trigger]
            kept(local, remote).contains(m) <==> local.contains(m) && (!m.started || lists_session(
                remote,
                m.id,
            )),
    decreases local.len(),
{
    if local.len() > 0 {
        let head = local.drop_last();
        let last = local.last();
        let before = kept(head, remote);
        let all = kept(local, remote);
        assert forall|a: int, b: int| 0 <= a < b < head.len() implies (#[trigger] head[a]).id != (
        #[trigger] head[b]).id by {
            assert(local[a].id != local[b].id);
        }
        kept_holds(head, remote);
        assert forall|m: AgentSession| #[trigger] all.contains(m) <==> local.contains(m) && (
        !m.started || lists_session(remote, m.id)) by {
            assert(local.contains(m) <==> head.contains(m) || m == last) by {
                if local.contains(m) {
                    let k = local.index_of(m);
                    if k < head.len() {
                        assert(head[k] == m);
                    }
                }
                if head.contains(m) {
                    let k = head.index_of(m);
                    assert(local[k] == m);
                }
                assert(local[local.len() - 1] == last);
            }
            if all.len() > before.len() {
                if all.contains(m) {
                    let k = all.index_of(m);
                    if k < before.len() {
                        assert(before[k] == m);
                    }
                }
                if before.contains(m) {
                    let k = before.index_of(m);
                    assert(all[k] == m);
                }
                assert(all[before.len() as int] == last);
            }
        }
        assert forall|a: int, b: int| 0 <= a < b < all.len() implies (#[trigger] all[a]).id != (
        #[trigger] all[b]).id by {
            if b < before.len() {
                assert(before[a].id != before[b].id);
            } else {
                assert(before.contains(before[a]));
                let k = head.index_of(before[a]);
                assert(local[k].id != local[local.len() - 1].id);
            }
        }
    }
}

/// A task that the daemon has is listed afterwards. One that was here takes over what the daemon knows of it and
/// keeps what is local; one that was not is the daemon's.
pub proof fn the_daemons_tasks_are_listed(
    tasks: &mut TaskState,
    snapshot: RemoteTaskStateSnapshot,
    running: &HashSet<u128>,
    r: SyncOutcome,
    j: int,
)
    requires
        ids_differ(old(tasks).sessions@),
        ids_differ(snapshot.sessions@),
        0 <= j < snapshot.sessions@.len(),
        call_ensures(TaskState::apply_remote_task_state, (tasks, snapshot, running), r),
    ensures
        ids_differ(final(tasks).sessions@),
        final(tasks).projects == snapshot.projects,
        is_absent(old(tasks).sessions@, snapshot.sessions@[j].id) ==> final(tasks).sessions@.contains(snapshot.sessions@[j]),
        forall|l: int|
            0 <= l < old(tasks).sessions@.len() && (#[trigger] old(tasks).sessions@[l]).id
                == snapshot.sessions@[j].id ==> exists|k: int|
                0 <= k < final(tasks).sessions@.len() && follows(
                    #[trigger] final(tasks).sessions@[k],
                    old(tasks).sessions@[l],
                    snapshot.sessions@[j],
                    running@.contains(snapshot.sessions@[j].id),
                ),
{
    let local = old(tasks).sessions@;
    let remote = snapshot.sessions@;
    let stay = kept(local, remote);
    let after = final(tasks).sessions@;
    kept_holds(local, remote);
    merged_is_as_told(stay, remote, running@);
    if is_absent(local, remote[j].id) {
        assert(!lists_session(stay, remote[j].id)) by {
            if lists_session(stay, remote[j].id) {
                let k = choose|k: int|
                    0 <= k < stay.len() && (#[trigger] stay[k]).id == remote[j].id;
                assert(stay.contains(stay[k]));
                let l = local.index_of(stay[k]);
                assert(local[l].id != remote[j].id);
            }
        }
        let k = choose|k: int| stay.len() <= k < after.len() && after[k] == remote[j];
        assert(after.contains(remote[j]));
    }
    assert forall|l: int|
        0 <= l < local.len() && (#[trigger] local[l]).id == remote[j].id implies exists|k: int|
        0 <= k < after.len() && follows(
            #[trigger] after[k],
            local[l],
            remote[j],
            running@.contains(remote[j].id),
        ) by {
        assert(local.contains(local[l]));
        assert(lists_session(remote, local[l].id)) by {
            assert(remote[j].id == local[l].id);
        }
        assert(stay.contains(local[l]));
        let k = stay.index_of(local[l]);
        assert(follows(after[k], stay[k], remote[j], running@.contains(remote[j].id)));
    }
}

/// A task that the daemon does not have is gone, unless nothing was ever sent in it: then it stays as it is. What
/// is gone is told, and nothing else is listed than what the daemon has and what stays.
pub proof fn only_unsent_tasks_stay(
    tasks: &mut TaskState,
    snapshot: RemoteTaskStateSnapshot,
    running: &HashSet<u128>,
    r: SyncOutcome,
    l: int,
)
    requires
        ids_differ(old(tasks).sessions@),
        ids_differ(snapshot.sessions@),
        0 <= l < old(tasks).sessions@.len(),
        is_absent(snapshot.sessions@, old(tasks).sessions@[l].id),
        call_ensures(TaskState::apply_remote_task_state, (tasks, snapshot, running), r),
    ensures
        !old(tasks).sessions@[l].started ==> final(tasks).sessions@.contains(
            old(tasks).sessions@[l],
        ) && !r.removed@.contains(old(tasks).sessions@[l].id),
        old(tasks).sessions@[l].started ==> is_absent(
            final(tasks).sessions@,
            old(tasks).sessions@[l].id,
        ) && r.removed@.contains(old(tasks).sessions@[l].id),
{
    let local = old(tasks).sessions@;
    let remote = snapshot.sessions@;
    let stay = kept(local, remote);
    let after = final(tasks).sessions@;
    let task = local[l];
    kept_holds(local, remote);
    merged_is_as_told(stay, remote, running@);
    dropped_holds(local, remote, l);
    assert(local.contains(task));
    assert(!lists_session(remote, task.id));
    if !task.started {
        assert(stay.contains(task));
        let k = stay.index_of(task);
        assert(after[k] == stay[k]);
        assert(after.contains(task));
    } else {
        assert forall|k: int| 0 <= k < after.len() implies (#[trigger] after[k]).id != task.id by {
            if k < stay.len() {
                assert(after[k].id == stay[k].id);
                assert(stay.contains(stay[k]));
                let m = local.index_of(stay[k]);
                if stay[k].id == task.id {
                    if m < l {
                        assert(local[m].id != local[l].id);
                    } else if l < m {
                        assert(local[l].id != local[m].id);
                    }
                }
            } else {
                let j = choose|j: int| 0 <= j < remote.len() && remote[j] == after[k];
                assert(remote[j].id != task.id);
            }
        }
    }
}

proof fn dropped_holds(local: Seq<AgentSession>, remote: Seq<AgentSession>, l: int)
    requires
        ids_differ(local),
        0 <= l < local.len(),
    ensures
        dropped(local, remote).contains(local[l].id) <==> local[l].started && !lists_session(
            remote,
            local[l].id,
        ),
        forall|k: int|
            0 <= k < dropped(local, remote).len() ==> lists_session(
                local,
                #[trigger] dropped(local, remote)[k],
            ),
    decreases local.len(),
{
    let head = local.drop_last();
    let before = dropped(head, remote);
    let all = dropped(local, remote);
    let last = local.last();
    assert(local[local.len() - 1] == last);
    assert forall|a: int, b: int| 0 <= a < b < head.len() implies (#[trigger] head[a]).id != (
    #[trigger] head[b]).id by {
        assert(local[a].id != local[b].id);
    }
    if head.len() > 0 {
        let i = if l < head.len() {
            l
        } else {
            0
        };
        dropped_holds(head, remote, i);
    }
    assert forall|k: int| 0 <= k < all.len() implies lists_session(local, #[trigger] all[k]) by {
        if k < before.len() {
            assert(lists_session(head, before[k]));
            let j = choose|j: int| 0 <= j < head.len() && (#[trigger] head[j]).id == before[k];
            assert(local[j].id == all[k]);
        } else {
            assert(local[local.len() - 1].id == all[k]);
        }
    }
    if l < head.len() {
        assert(head[l] == local[l]);
        assert(local[l].id != local[local.len() - 1].id);
        if all.contains(local[l].id) {
            let k = all.index_of(local[l].id);
            if k < before.len() {
                assert(before[k] == local[l].id);
            }
        }
        if before.contains(local[l].id) {
            let k = before.index_of(local[l].id);
            assert(all[k] == local[l].id);
        }
    } else {
        if before.contains(last.id) {
            let k = before.index_of(last.id);
            assert(lists_session(head, before[k]));
            let j = choose|j: int| 0 <= j < head.len() && (#[trigger] head[j]).id == before[k];
            assert(local[j].id != local[local.len() - 1].id);
        }
        if all.len() > before.len() {
            assert(all[before.len() as int] == last.id);
        }
    }
}

proof fn latest_is_latest(sessions: Seq<AgentSession>, project: Option<u128>)
    ensures
        match latest(sessions, project) {
            Some(k) => {
                &&& 0 <= k < sessions.len()
                &&& project is None || sessions[k].project_id == project->0
                &&& forall|j: int|
                    0 <= j < sessions.len() && (project is None || (
                    #[trigger] sessions[j]).project_id == project->0) ==> sessions[j].updated_at
                        <= sessions[k].updated_at
            },
            None => forall|j: int|
                0 <= j < sessions.len() ==> !(project is None || (
                #[trigger] sessions[j]).project_id == project->0),
        },
    decreases sessions.len(),
{
    if sessions.len() > 0 {
        let head = sessions.drop_last();
        latest_is_latest(head, project);
        assert forall|j: int| 0 <= j < head.len() implies #[trigger] head[j] == sessions[j] by {}
        if let Some(k) = latest(sessions, project) {
            assert forall|j: int|
                0 <= j < sessions.len() && (project is None || (#[trigger] sessions[j]).project_id
                    == project->0) implies sessions[j].updated_at <= sessions[k].updated_at by {
                if j < head.len() {
                    assert(head[j] == sessions[j]);
                }
            }
        } else {
            assert forall|j: int| 0 <= j < sessions.len() implies !(project is None || (
            #[trigger] sessions[j]).project_id == project->0) by {
                if j < head.len() {
                    assert(head[j] == sessions[j]);
                }
            }
        }
    }
}

/// The task that is shown stays as long as it is listed. Else the task of the project that changed last comes in
/// its place, or, where the project has none, the one that changed last of all.
pub proof fn the_next_task_is_the_latest(
    tasks: &mut TaskState,
    snapshot: RemoteTaskStateSnapshot,
    running: &HashSet<u128>,
    r: SyncOutcome,
)
    requires
        call_ensures(TaskState::apply_remote_task_state, (tasks, snapshot, running), r),
    ensures
        r.next == NextSelection::Keep <==> old(tasks).selected_session is None || !is_absent(
            final(tasks).sessions@,
            old(tasks).selected_session->0,
        ),
        r.next == NextSelection::Keep ==> final(tasks).selected_session == old(
            tasks,
        ).selected_session,
        r.next matches NextSelection::Select(id) ==> exists|k: int|
            0 <= k < final(tasks).sessions@.len() && (#[trigger] final(tasks).sessions@[k]).id == id
                && forall|j: int|
                0 <= j < final(tasks).sessions@.len() && (old(tasks).selected_project is None || (
                #[trigger] final(tasks).sessions@[j]).project_id == old(
                    tasks,
                ).selected_project->0) ==> final(tasks).sessions@[j].updated_at <= final(tasks).sessions@[k].updated_at,
        !(r.next is Select) && r.next != NextSelection::Keep ==> final(tasks).sessions@.len() == 0,
        r.next matches NextSelection::CreateIn(id) ==> final(tasks).selected_project == Some(id)
            && exists|p: int|
            0 <= p < snapshot.projects@.len() && (#[trigger] snapshot.projects@[p]).id == id,
        r.next == NextSelection::Nothing ==> snapshot.projects@.len() == 0,
{
    let sessions = final(tasks).sessions@;
    let project = old(tasks).selected_project;
    latest_is_latest(sessions, project);
    latest_is_latest(sessions, None);
    if let Some(id) = old(tasks).selected_session {
        assert(lists_session(sessions, id) <==> !is_absent(sessions, id));
    }
    if r.next is Select {
        let k = if latest(sessions, project) is Some {
            latest(sessions, project)->0
        } else {
            latest(sessions, None)->0
        };
        assert(sessions[k].id == r.next->Select_0);
    }
    if !(r.next is Select) && r.next != NextSelection::Keep && sessions.len() > 0 {
        assert(latest(sessions, None) is None);
        assert(sessions[0].project_id == sessions[0].project_id);
    }
    if r.next is CreateIn {
        if project is Some {
            position_of_project(snapshot.projects@, project->0, 0);
        }
        if snapshot.projects@.len() > 0 {
            assert(snapshot.projects@[0].id == snapshot.projects@[0].id);
        }
    }
}

proof fn position_of_project(projects: Seq<Project>, id: u128, i: int)
    requires
        0 <= i <= projects.len(),
    ensures
        project_position(projects, id, i) < projects.len() ==> 0 <= project_position(
            projects,
            id,
            i,
        ) && projects[project_position(projects, id, i)].id == id,
    decreases projects.len() - i,
{
    if i < projects.len() && projects[i].id != id {
        position_of_project(projects, id, i + 1);
    }
}

proof fn attachable_holds(sessions: Seq<AgentSession>, selected: Option<u128>, id: u128)
    ensures
        attachable(sessions, selected).contains(id) <==> exists|k: int|
            0 <= k < sessions.len() && (#[trigger] sessions[k]).id == id && (!at_rest(
                sessions[k].status,
            ) || selected == Some(id) && sessions[k].started),
    decreases sessions.len(),
{
    if sessions.len() > 0 {
        let head = sessions.drop_last();
        let last = sessions.last();
        let before = attachable(head, selected);
        let all = attachable(sessions, selected);
        attachable_holds(head, selected, id);
        assert(sessions[sessions.len() - 1] == last);
        if before.contains(id) {
            let j = choose|k: int|
                0 <= k < head.len() && (#[trigger] head[k]).id == id && (!at_rest(head[k].status)
                    || selected == Some(id) && head[k].started);
            assert(sessions[j] == head[j]);
            let i = before.index_of(id);
            assert(all[i] == id);
        }
        if all.contains(id) && !before.contains(id) {
            let i = all.index_of(id);
            if i < before.len() {
                assert(before[i] == id);
            }
            assert(sessions[sessions.len() - 1].id == id);
        }
        if exists|k: int|
            0 <= k < sessions.len() && (#[trigger] sessions[k]).id == id && (!at_rest(
                sessions[k].status,
            ) || selected == Some(id) && sessions[k].started) {
            let j = choose|k: int|
                0 <= k < sessions.len() && (#[trigger] sessions[k]).id == id && (!at_rest(
                    sessions[k].status,
                ) || selected == Some(id) && sessions[k].started);
            if j < head.len() {
                assert(head[j].id == id);
            } else {
                assert(all[before.len() as int] == id);
            }
        }
    }
}

/// The agents that are asked for are those of the tasks at work, and that of the task that is shown, where
/// something was sent in it.
pub proof fn agents_of_tasks_at_work_are_wanted(
    tasks: &mut TaskState,
    snapshot: RemoteTaskStateSnapshot,
    running: &HashSet<u128>,
    r: SyncOutcome,
    id: u128,
)
    requires
        call_ensures(TaskState::apply_remote_task_state, (tasks, snapshot, running), r),
    ensures
        r.attach@.contains(id) <==> exists|k: int|
            0 <= k < final(tasks).sessions@.len() && (#[trigger] final(tasks).sessions@[k]).id == id
                && (!at_rest(final(tasks).sessions@[k].status) || old(tasks).selected_session
                == Some(id) && final(tasks).sessions@[k].started),
{
    attachable_holds(final(tasks).sessions@, old(tasks).selected_session, id);
}

/// What belongs to tasks that are gone is let go, and nothing else: the agents of the others stay. An agent is
/// asked for where a task wants one that is neither known nor asked for.
pub proof fn only_agents_of_gone_tasks_are_let_go(
    waku: &mut Waku,
    snapshot: RemoteTaskStateSnapshot,
    r: RemoteSync,
    id: u128,
)
    requires
        call_ensures(Waku::apply_remote_task_state, (waku, snapshot), r),
    ensures
        final(waku).runtimes@.contains_key(id) <==> old(waku).runtimes@.contains_key(id)
            && !r.outcome.removed@.contains(id),
        final(waku).runtimes@.contains_key(id) ==> final(waku).runtimes@[id] == old(
            waku,
        ).runtimes@[id],
        r.ask@.contains(id) <==> r.outcome.attach@.contains(id) && !final(waku).runtimes@.contains_key(id) && !(old(waku).runtime_attach_pending@.contains(id)
            && !r.outcome.removed@.contains(id)),
        final(waku).runtime_attach_pending@.contains(id) <==> r.ask@.contains(id) || old(
            waku,
        ).runtime_attach_pending@.contains(id) && !r.outcome.removed@.contains(id),
        final(waku).tasks.projects == snapshot.projects,
{
    let gone = r.outcome.removed@.to_set();
    let known = old(waku).runtimes@.remove_keys(gone);
    let pending = old(waku).runtime_attach_pending@.difference(gone);
    assert(remote_applied(*old(waku), *final(waku), snapshot, r));
    asked_holds(known.dom(), pending, r.outcome.attach@, id);
}

proof fn asked_holds(known: Set<u128>, pending: Set<u128>, ids: Seq<u128>, id: u128)
    ensures
        crate::runtime::remote::asked_for(known, pending, ids).contains(id) <==> ids.contains(id)
            && !known.contains(id) && !pending.contains(id),
    decreases ids.len(),
{
    if ids.len() > 0 {
        let head = ids.drop_last();
        let before = crate::runtime::remote::asked_for(known, pending, head);
        let all = crate::runtime::remote::asked_for(known, pending, ids);
        asked_holds(known, pending, head, id);
        assert(ids.contains(id) <==> head.contains(id) || id == ids.last()) by {
            if ids.contains(id) {
                let k = ids.index_of(id);
                if k < head.len() {
                    assert(head[k] == id);
                }
            }
            if head.contains(id) {
                let k = head.index_of(id);
                assert(ids[k] == id);
            }
            assert(ids[ids.len() - 1] == ids.last());
        }
        if all.contains(id) {
            let k = all.index_of(id);
            if k < before.len() {
                assert(before[k] == id);
            }
        }
        if before.contains(id) {
            let k = before.index_of(id);
            assert(all[k] == id);
        }
        if all.len() > before.len() {
            assert(all[before.len() as int] == ids.last());
        }
    }
}

/// Of several answers of the daemon the last one counts; one that failed changes nothing.
pub proof fn the_last_answer_counts(
    waku: &mut Waku,
    results: Vec<Result<RemoteTaskStateSnapshot, String>>,
    r: Option<Result<RemoteSync, String>>,
)
    requires
        call_ensures(Waku::drain_task_state_sync_events, (waku, results), r),
    ensures
        results@.len() == 0 ==> r is None && *final(waku) == *old(waku),
        results@.len() > 0 && results@.last() is Err ==> *final(waku) == *old(waku) && r is Some
            && r->0 is Err && ((r->0)->Err_0)@ == (results@.last()->Err_0)@,
        results@.len() > 0 && results@.last() is Ok ==> r is Some && r->0 is Ok && final(waku).tasks.projects == (results@.last()->Ok_0).projects,
{
}

} // verus!
