//! Keeping the list of tasks like the daemon's: which tasks are new, which are gone, which one is shown.
use crate::protocol::busy;
use crate::session::{
    find_project, find_session, lists_session, project_position, session_position,
    session_position_finds, AgentSession, Project,
};
use std::collections::HashSet;
use vstd::prelude::*;

verus! {

broadcast use vstd::std_specs::hash::group_hash_axioms;

// ---------------------------------------------------------------------------
// Merging
// ---------------------------------------------------------------------------
/// A task of the list with what the daemon says of it. The daemon lists no transcript, so that stays;
/// and an agent that this client drives itself knows better how the task stands.
pub open spec fn merged_row(local: AgentSession, remote: AgentSession, running: bool) -> AgentSession {
    AgentSession {
        title: remote.title,
        auto_title: remote.auto_title,
        project_id: remote.project_id,
        provider: remote.provider,
        model: remote.model,
        created_at: remote.created_at,
        last_reply_at: remote.last_reply_at,
        status: if running {
            local.status
        } else {
            remote.status
        },
        updated_at: if running {
            local.updated_at
        } else {
            remote.updated_at
        },
        ..local
    }
}

/// The list with one task of the daemon: in its place where it is listed, else at the end.
pub open spec fn merged_one(
    local: Seq<AgentSession>,
    remote: AgentSession,
    running: Set<u128>,
) -> Seq<AgentSession> {
    let at = session_position(local, remote.id, 0);
    if at < local.len() {
        local.update(at, merged_row(local[at], remote, running.contains(remote.id)))
    } else {
        local.push(remote)
    }
}

/// The list with the tasks of the daemon, one behind the other.
pub open spec fn merged_all(
    local: Seq<AgentSession>,
    remote: Seq<AgentSession>,
    running: Set<u128>,
) -> Seq<AgentSession>
    decreases remote.len(),
{
    if remote.len() == 0 {
        local
    } else {
        merged_one(merged_all(local, remote.drop_last(), running), remote.last(), running)
    }
}

/// Tells whether a task stays in the list: one that has been started only while the daemon lists it.
pub open spec fn stays(remote: Seq<AgentSession>, session: AgentSession) -> bool {
    !session.started || lists_session(remote, session.id)
}

/// The tasks that stay in the list.
pub open spec fn kept(local: Seq<AgentSession>, remote: Seq<AgentSession>) -> Seq<AgentSession>
    decreases local.len(),
{
    if local.len() == 0 {
        Seq::empty()
    } else if stays(remote, local.last()) {
        kept(local.drop_last(), remote).push(local.last())
    } else {
        kept(local.drop_last(), remote)
    }
}

/// The ids of the tasks that leave the list.
pub open spec fn dropped(local: Seq<AgentSession>, remote: Seq<AgentSession>) -> Seq<u128>
    decreases local.len(),
{
    if local.len() == 0 {
        Seq::empty()
    } else if stays(remote, local.last()) {
        dropped(local.drop_last(), remote)
    } else {
        dropped(local.drop_last(), remote).push(local.last().id)
    }
}

fn merge_row(local: AgentSession, remote: AgentSession, running: bool) -> (r: AgentSession)
    ensures
        r == merged_row(local, remote, running),
{
    let mut row = local;
    row.title = remote.title;
    row.auto_title = remote.auto_title;
    row.project_id = remote.project_id;
    row.provider = remote.provider;
    row.model = remote.model;
    row.created_at = remote.created_at;
    row.last_reply_at = remote.last_reply_at;
    if !running {
        row.status = remote.status;
        row.updated_at = remote.updated_at;
    }
    row
}

/// Merges the daemon's list of tasks into the client's, and gives the ids of the tasks that are gone.
/// `running` are the tasks whose agents this client drives.
pub fn merge_remote_session_catalog(
    local: &mut Vec<AgentSession>,
    remote: Vec<AgentSession>,
    running: &HashSet<u128>,
) -> (r: Vec<u128>)
    ensures
        final(local)@ == merged_all(kept(old(local)@, remote@), remote@, running@),
        r@ == dropped(old(local)@, remote@),
{
    let ghost before = local@;
    let ghost theirs = remote@;
    let mut all: Vec<AgentSession> = Vec::new();
    std::mem::swap(&mut all, local);
    let mut removed: Vec<u128> = Vec::new();
    assert(before.take(0) =~= Seq::empty());
    for session in it: all.into_iter()
        invariant
            it.seq() == before,
            theirs == remote@,
            local@ == kept(before.take(it.index()), theirs),
            removed@ == dropped(before.take(it.index()), theirs),
    {
        assert(before.take(it.index() + 1).drop_last() =~= before.take(it.index()));
        if session.has_started() && find_session(&remote, session.id) >= remote.len() {
            removed.push(session.id);
        } else {
            local.push(session);
        }
    }
    assert(before.take(before.len() as int) =~= before);
    let ghost start = local@;
    assert(theirs.take(0) =~= Seq::empty());
    for row in it: remote.into_iter()
        invariant
            it.seq() == theirs,
            local@ == merged_all(start, theirs.take(it.index()), running@),
    {
        assert(theirs.take(it.index() + 1).drop_last() =~= theirs.take(it.index()));
        let at: usize = find_session(local, row.id);
        if at < local.len() {
            let ghost now = local@;
            let driven = running.contains(&row.id);
            let old_row = local.remove(at);
            let new_row = merge_row(old_row, row, driven);
            local.insert(at, new_row);
            assert(local@ =~= now.update(at as int, new_row));
        } else {
            local.push(row);
        }
    }
    assert(theirs.take(theirs.len() as int) =~= theirs);
    removed
}

// ---------------------------------------------------------------------------
// What follows
// ---------------------------------------------------------------------------
/// Tells whether a client wants to hear from the agent of a task: it is at work, or the task is shown.
pub open spec fn wants_agent(session: AgentSession, selected: Option<u128>) -> bool {
    busy(session.status) || (selected == Some(session.id) && session.started)
}

/// The tasks whose agents the client wants to hear from.
pub open spec fn attachable(sessions: Seq<AgentSession>, selected: Option<u128>) -> Seq<u128>
    decreases sessions.len(),
{
    if sessions.len() == 0 {
        Seq::empty()
    } else if wants_agent(sessions.last(), selected) {
        attachable(sessions.drop_last(), selected).push(sessions.last().id)
    } else {
        attachable(sessions.drop_last(), selected)
    }
}

fn list_attachable(sessions: &Vec<AgentSession>, selected: Option<u128>) -> (r: Vec<u128>)
    ensures
        r@ == attachable(sessions@, selected),
{
    let mut r: Vec<u128> = Vec::new();
    for i in 0..sessions.len()
        invariant
            r@ == attachable(sessions@.take(i as int), selected),
    {
        assert(sessions@.take(i as int + 1).drop_last() =~= sessions@.take(i as int));
        let shown = match selected {
            Some(id) => id == sessions[i].id,
            None => false,
        };
        if sessions[i].is_busy() || (shown && sessions[i].has_started()) {
            r.push(sessions[i].id);
        }
    }
    assert(sessions@.take(sessions@.len() as int) =~= sessions@);
    r
}

/// Tells whether a task is one of a project, where one is given.
pub open spec fn belongs(session: AgentSession, project: Option<u128>) -> bool {
    project is None || session.project_id == project->0
}

/// Where the task that changed last stands among those of a project; of several, the last one.
pub open spec fn latest(sessions: Seq<AgentSession>, project: Option<u128>) -> Option<int>
    decreases sessions.len(),
{
    if sessions.len() == 0 {
        None
    } else {
        let before = latest(sessions.drop_last(), project);
        if !belongs(sessions.last(), project) {
            before
        } else if before is Some && sessions[before->0].updated_at > sessions.last().updated_at {
            before
        } else {
            Some(sessions.len() - 1)
        }
    }
}

proof fn latest_is_listed(sessions: Seq<AgentSession>, project: Option<u128>)
    ensures
        latest(sessions, project) is Some ==> 0 <= latest(sessions, project)->0 < sessions.len()
            && belongs(sessions[latest(sessions, project)->0], project),
        latest(sessions, project) is Some ==> forall|i: int|
            0 <= i < sessions.len() && belongs(#[trigger] sessions[i], project)
                ==> sessions[i].updated_at <= sessions[latest(sessions, project)->0].updated_at,
        latest(sessions, project) is None ==> forall|i: int|
            0 <= i < sessions.len() ==> !belongs(#[trigger] sessions[i], project),
    decreases sessions.len(),
{
    if sessions.len() > 0 {
        latest_is_listed(sessions.drop_last(), project);
        assert forall|i: int| 0 <= i < sessions.len() - 1 implies sessions[i]
            == sessions.drop_last()[i] by {}
    }
}

fn find_latest(sessions: &Vec<AgentSession>, project: Option<u128>) -> (r: Option<usize>)
    ensures
        match r {
            Some(i) => latest(sessions@, project) == Some(i as int) && i < sessions@.len(),
            None => latest(sessions@, project) is None,
        },
{
    let mut best: Option<usize> = None;
    for i in 0..sessions.len()
        invariant
            match best {
                Some(b) => latest(sessions@.take(i as int), project) == Some(b as int) && b < i,
                None => latest(sessions@.take(i as int), project) is None,
            },
    {
        assert(sessions@.take(i as int + 1).drop_last() =~= sessions@.take(i as int));
        let counts = match project {
            Some(id) => sessions[i].project_id == id,
            None => true,
        };
        if counts {
            let stays = match best {
                Some(b) => sessions[b].updated_at > sessions[i].updated_at,
                None => false,
            };
            if !stays {
                best = Some(i);
            }
        }
    }
    assert(sessions@.take(sessions@.len() as int) =~= sessions@);
    best
}

/// What is shown next.
#[derive(Clone, Copy, Debug, PartialEq, Eq, Structural)]
pub enum NextSelection {
    /// What is shown.
    Keep,
    /// The task with this id.
    Select(u128),
    /// A new task in this project.
    CreateIn(u128),
    /// Nothing.
    Nothing,
}

/// What is shown next, where the task that was shown is gone: the task of the same project that changed
/// last, else the one of any project, else a new one.
pub open spec fn next_selection(
    sessions: Seq<AgentSession>,
    projects: Seq<Project>,
    selected: Option<u128>,
    project: Option<u128>,
) -> NextSelection {
    if selected is None || lists_session(sessions, selected->0) {
        NextSelection::Keep
    } else if latest(sessions, project) is Some {
        NextSelection::Select(sessions[latest(sessions, project)->0].id)
    } else if latest(sessions, None) is Some {
        NextSelection::Select(sessions[latest(sessions, None)->0].id)
    } else if project is Some && project_position(projects, project->0, 0) < projects.len() {
        NextSelection::CreateIn(project->0)
    } else if projects.len() > 0 {
        NextSelection::CreateIn(projects[0].id)
    } else {
        NextSelection::Nothing
    }
}

fn choose_next(
    sessions: &Vec<AgentSession>,
    projects: &Vec<Project>,
    selected: Option<u128>,
    project: Option<u128>,
) -> (r: NextSelection)
    ensures
        r == next_selection(sessions@, projects@, selected, project),
{
    let id: u128 = match selected {
        Some(id) => id,
        None => return NextSelection::Keep,
    };
    if find_session(sessions, id) < sessions.len() {
        return NextSelection::Keep;
    }
    if let Some(i) = find_latest(sessions, project) {
        return NextSelection::Select(sessions[i].id);
    }
    if let Some(i) = find_latest(sessions, None) {
        return NextSelection::Select(sessions[i].id);
    }
    if let Some(p) = project {
        if find_project(projects, p) < projects.len() {
            return NextSelection::CreateIn(p);
        }
    }
    if projects.len() > 0 {
        NextSelection::CreateIn(projects[0].id)
    } else {
        NextSelection::Nothing
    }
}

/// The tasks and projects of the client.
#[derive(Debug)]
pub struct TaskState {
    pub sessions: Vec<AgentSession>,
    pub projects: Vec<Project>,
    pub selected_session: Option<u128>,
    pub selected_project: Option<u128>,
}

/// The tasks and projects of the daemon.
#[derive(Debug)]
pub struct RemoteTaskStateSnapshot {
    pub projects: Vec<Project>,
    pub sessions: Vec<AgentSession>,
}

/// The daemon's tasks as they come: it lists no transcripts.
pub open spec fn without_detail(sessions: Seq<AgentSession>) -> Seq<AgentSession> {
    Seq::new(
        sessions.len(),
        |i: int| AgentSession { detail_loaded: false, ..sessions[i] },
    )
}

/// The tasks and projects of the daemon, of which no transcript has been loaded.
pub fn remote_task_state(projects: Vec<Project>, sessions: Vec<AgentSession>) -> (r:
    RemoteTaskStateSnapshot)
    ensures
        r.projects == projects,
        r.sessions@ == without_detail(sessions@),
{
    let ghost all = sessions@;
    let mut listed: Vec<AgentSession> = Vec::new();
    for session in it: sessions.into_iter()
        invariant
            it.seq() == all,
            listed@ == without_detail(all).take(it.index()),
    {
        let mut row = session;
        row.detail_loaded = false;
        listed.push(row);
        assert(without_detail(all).take(it.index() + 1) =~= without_detail(all).take(
            it.index(),
        ).push(row));
    }
    assert(without_detail(all).take(all.len() as int) =~= without_detail(all));
    RemoteTaskStateSnapshot { projects, sessions: listed }
}

/// What is to be done once the daemon's list has been merged.
#[derive(Debug)]
pub struct SyncOutcome {
    /// The tasks that are gone.
    pub removed: Vec<u128>,
    /// The tasks whose agents the client wants to hear from.
    pub attach: Vec<u128>,
    pub next: NextSelection,
}

/// The task that is shown while the next one is chosen: none, where the one that was is gone.
pub open spec fn selected_after(next: NextSelection, selected: Option<u128>) -> Option<u128> {
    if next == NextSelection::Keep {
        selected
    } else {
        None
    }
}

/// The project that is shown once the next task has been chosen.
pub open spec fn project_after(next: NextSelection, project: Option<u128>) -> Option<u128> {
    match next {
        NextSelection::CreateIn(id) => Some(id),
        _ => project,
    }
}

impl TaskState {
    /// Takes over the daemon's tasks and projects, and says what is to be done then. `running` are the
    /// tasks whose agents this client drives.
    pub fn apply_remote_task_state(
        &mut self,
        snapshot: RemoteTaskStateSnapshot,
        running: &HashSet<u128>,
    ) -> (r: SyncOutcome)
        ensures
            final(self).sessions@ == merged_all(
                kept(old(self).sessions@, snapshot.sessions@),
                snapshot.sessions@,
                running@,
            ),
            final(self).projects == snapshot.projects,
            r.removed@ == dropped(old(self).sessions@, snapshot.sessions@),
            r.attach@ == attachable(final(self).sessions@, old(self).selected_session),
            r.next == next_selection(
                final(self).sessions@,
                snapshot.projects@,
                old(self).selected_session,
                old(self).selected_project,
            ),
            final(self).selected_session == selected_after(r.next, old(self).selected_session),
            final(self).selected_project == project_after(r.next, old(self).selected_project),
    {
        let removed = merge_remote_session_catalog(&mut self.sessions, snapshot.sessions, running);
        self.projects = snapshot.projects;
        let attach = list_attachable(&self.sessions, self.selected_session);
        let next = choose_next(
            &self.sessions,
            &self.projects,
            self.selected_session,
            self.selected_project,
        );
        match next {
            NextSelection::Keep => {},
            NextSelection::CreateIn(project) => {
                self.selected_session = None;
                self.selected_project = Some(project);
            },
            _ => {
                self.selected_session = None;
            },
        }
        SyncOutcome { removed, attach, next }
    }
}

// ---------------------------------------------------------------------------
// Laws
// ---------------------------------------------------------------------------
proof fn merged_one_lists(local: Seq<AgentSession>, remote: AgentSession, running: Set<u128>, id: u128)
    ensures
        lists_session(merged_one(local, remote, running), id) <==> lists_session(local, id)
            || remote.id == id,
{
    let after = merged_one(local, remote, running);
    let at = session_position(local, remote.id, 0);
    session_position_finds(local, remote.id, 0);
    if lists_session(local, id) {
        let i = choose|i: int| 0 <= i < local.len() && (#[trigger] local[i]).id == id;
        assert(after[i].id == id);
    }
    if remote.id == id {
        if at < local.len() {
            assert(after[at].id == id);
        } else {
            assert(after[local.len() as int].id == id);
        }
    }
    if lists_session(after, id) {
        let i = choose|i: int| 0 <= i < after.len() && (#[trigger] after[i]).id == id;
        if i < local.len() {
            assert(local[i].id == id);
        }
    }
}

proof fn merged_all_lists(
    local: Seq<AgentSession>,
    remote: Seq<AgentSession>,
    running: Set<u128>,
    id: u128,
)
    ensures
        lists_session(merged_all(local, remote, running), id) <==> lists_session(local, id)
            || lists_session(remote, id),
    decreases remote.len(),
{
    if remote.len() > 0 {
        let head = remote.drop_last();
        merged_all_lists(local, head, running, id);
        merged_one_lists(merged_all(local, head, running), remote.last(), running, id);
        if lists_session(remote, id) && remote.last().id != id {
            let i = choose|i: int| 0 <= i < remote.len() && (#[trigger] remote[i]).id == id;
            assert(head[i].id == id);
        }
        if lists_session(head, id) {
            let i = choose|i: int| 0 <= i < head.len() && (#[trigger] head[i]).id == id;
            assert(remote[i].id == id);
        }
        if remote.last().id == id {
            assert(remote[remote.len() - 1].id == id);
        }
    }
}

proof fn kept_lists(local: Seq<AgentSession>, remote: Seq<AgentSession>, id: u128)
    ensures
        lists_session(kept(local, remote), id) <==> exists|i: int|
            0 <= i < local.len() && (#[trigger] local[i]).id == id && stays(remote, local[i]),
    decreases local.len(),
{
    if local.len() > 0 {
        let head = local.drop_last();
        kept_lists(head, remote, id);
        let k = kept(local, remote);
        let before = kept(head, remote);
        if lists_session(k, id) {
            let i = choose|i: int| 0 <= i < k.len() && (#[trigger] k[i]).id == id;
            if i < before.len() {
                assert(before[i].id == id);
                let j = choose|j: int|
                    0 <= j < head.len() && (#[trigger] head[j]).id == id && stays(remote, head[j]);
                assert(local[j].id == id);
            } else {
                assert(local[local.len() - 1].id == id);
            }
        }
        if exists|i: int|
            0 <= i < local.len() && (#[trigger] local[i]).id == id && stays(remote, local[i]) {
            let i = choose|i: int|
                0 <= i < local.len() && (#[trigger] local[i]).id == id && stays(remote, local[i]);
            if i < head.len() {
                assert(head[i].id == id);
                let j = choose|j: int| 0 <= j < before.len() && (#[trigger] before[j]).id == id;
                assert(k[j].id == id);
            } else {
                assert(k[k.len() - 1].id == id);
            }
        }
    }
}

/// Once the lists have been merged, a task is listed where the daemon lists it, or where the client
/// lists it and nothing has been sent in it yet, and nowhere else.
pub proof fn merged_list_holds(
    local: Seq<AgentSession>,
    remote: Seq<AgentSession>,
    running: Set<u128>,
    id: u128,
)
    ensures
        lists_session(merged_all(kept(local, remote), remote, running), id) <==> lists_session(
            remote,
            id,
        ) || exists|i: int|
            0 <= i < local.len() && (#[trigger] local[i]).id == id && !local[i].started,
{
    merged_all_lists(kept(local, remote), remote, running, id);
    kept_lists(local, remote, id);
    if exists|i: int|
        0 <= i < local.len() && (#[trigger] local[i]).id == id && stays(remote, local[i]) {
        let i = choose|i: int|
            0 <= i < local.len() && (#[trigger] local[i]).id == id && stays(remote, local[i]);
        assert(local[i].id == id);
    }
}

/// A task that leaves the list had been started and is not one that the daemon lists.
pub proof fn dropped_tasks_are_gone(local: Seq<AgentSession>, remote: Seq<AgentSession>)
    ensures
        forall|k: int|
            0 <= k < dropped(local, remote).len() ==> !lists_session(
                remote,
                #[trigger] dropped(local, remote)[k],
            ),
    decreases local.len(),
{
    if local.len() > 0 {
        let before = dropped(local.drop_last(), remote);
        dropped_tasks_are_gone(local.drop_last(), remote);
        assert forall|k: int| 0 <= k < dropped(local, remote).len() implies !lists_session(
            remote,
            #[trigger] dropped(local, remote)[k],
        ) by {
            if k < before.len() {
                assert(before[k] == dropped(local, remote)[k]);
            }
        }
    }
}

/// The daemon's list changes nothing of a task's transcript, turns and queue, nor of what the user set
/// for its agent; and of a task whose agent this client drives not how it stands.
pub proof fn merging_keeps_the_transcript(local: AgentSession, remote: AgentSession, running: bool)
    ensures
        merged_row(local, remote, running).id == local.id,
        merged_row(local, remote, running).messages == local.messages,
        merged_row(local, remote, running).transcript_blocks == local.transcript_blocks,
        merged_row(local, remote, running).turns == local.turns,
        merged_row(local, remote, running).queued_messages == local.queued_messages,
        merged_row(local, remote, running).workspace == local.workspace,
        running ==> merged_row(local, remote, running).status == local.status
            && merged_row(local, remote, running).updated_at == local.updated_at,
        !running ==> merged_row(local, remote, running).status == remote.status,
{
}

/// The task that is shown next is one of the list.
pub proof fn next_task_is_listed(
    sessions: Seq<AgentSession>,
    projects: Seq<Project>,
    selected: Option<u128>,
    project: Option<u128>,
)
    ensures
        match next_selection(sessions, projects, selected, project) {
            NextSelection::Keep => selected is None || lists_session(sessions, selected->0),
            NextSelection::Select(id) => lists_session(sessions, id),
            NextSelection::CreateIn(id) => sessions.len() == 0 && exists|i: int|
                0 <= i < projects.len() && (#[trigger] projects[i]).id == id,
            NextSelection::Nothing => sessions.len() == 0 && projects.len() == 0,
        },
{
    latest_is_listed(sessions, project);
    latest_is_listed(sessions, None);
    match next_selection(sessions, projects, selected, project) {
        NextSelection::Select(id) => {
            if latest(sessions, project) is Some {
                assert(sessions[latest(sessions, project)->0].id == id);
            } else {
                assert(sessions[latest(sessions, None)->0].id == id);
            }
        },
        NextSelection::CreateIn(id) => {
            if sessions.len() > 0 {
                assert(belongs(sessions[0], None));
            }
            if project is Some && project_position(projects, project->0, 0) < projects.len() {
                project_found(projects, project->0, 0);
            } else {
                assert(projects[0].id == id);
            }
        },
        NextSelection::Nothing => {
            if sessions.len() > 0 {
                assert(belongs(sessions[0], None));
            }
        },
        NextSelection::Keep => {},
    }
}

proof fn project_found(projects: Seq<Project>, id: u128, i: int)
    requires
        0 <= i,
        project_position(projects, id, i) < projects.len(),
    ensures
        exists|k: int| 0 <= k < projects.len() && (#[trigger] projects[k]).id == id,
    decreases projects.len() - i,
{
    if i < projects.len() && projects[i].id != id {
        project_found(projects, id, i + 1);
    }
}

/// The task that is shown next is one that changed last: of the project that was shown, where it has
/// one.
pub proof fn next_task_changed_last(sessions: Seq<AgentSession>, project: Option<u128>)
    ensures
        latest(sessions, project) is Some ==> forall|i: int|
            0 <= i < sessions.len() && belongs(#[trigger] sessions[i], project)
                ==> sessions[i].updated_at <= sessions[latest(sessions, project)->0].updated_at,
{
    latest_is_listed(sessions, project);
}

} // verus!
