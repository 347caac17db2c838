//! The desktop client's knowledge of its tasks and agents, and how it comes by the agents of tasks that
//! are at work.
use crate::key_map::KeyMap;
use crate::protocol::{busy, DriverEvent, SessionStatus};
use crate::providers::{
    find_provider, provider_position, provider_views, ExternalProvider, ModelCatalog,
    ProviderAuthStatus,
};
use crate::runtime::sync::TaskState;
use crate::session::{
    find_project, find_session, project_position, session_position, worktree_path, Activity,
    AgentSession, ComposerSubmission, Message, MessageAttachment, Project, TranscriptBlock, Turn,
    TurnStatus,
};
use crate::text::{opt_view, trim, trimmed};
use std::collections::{HashMap, HashSet};
use vstd::prelude::*;

verus! {

broadcast use vstd::std_specs::hash::group_hash_axioms;

/// An agent that this client drives.
#[derive(Debug)]
pub struct SessionRuntime {
    /// The agent takes messages in the middle of a turn.
    pub supports_steer: bool,
    /// How often the options of the agent have been changed.
    pub options_generation: u64,
    /// The messages that went to the agent in the middle of a turn and that it has not answered for.
    pub pending_steers: Vec<ComposerSubmission>,
    /// What the agent has reported and what has not been looked at.
    pub pending_events: Vec<DriverEvent>,
    /// The transcript has to be measured once more.
    pub stream_remeasure_pending: bool,
    /// The agent waits for a permission or an answer.
    pub waits_for_user: bool,
}

/// A checkpoint that is to be made.
#[derive(Debug)]
pub struct PendingCheckpointCapture {
    pub session_id: u128,
    pub turn_count: usize,
    pub project_path: String,
}

/// A message of the past that the user edits.
#[derive(Debug)]
pub struct MessageEdit {
    pub session_id: u128,
    pub message_id: u128,
    pub turn_count: usize,
    pub attachments: Vec<MessageAttachment>,
}

/// The desktop client.
#[derive(Debug)]
pub struct Waku {
    pub tasks: TaskState,
    /// The providers that are built in.
    pub presets: Vec<ExternalProvider>,
    pub external_providers: Vec<ExternalProvider>,
    pub auth_statuses: KeyMap<String, ProviderAuthStatus>,
    pub model_catalogs: KeyMap<String, ModelCatalog>,
    /// The agents that this client drives, by their tasks.
    pub runtimes: HashMap<u128, SessionRuntime>,
    /// The tasks whose agents have been asked for.
    pub runtime_attach_pending: HashSet<u128>,
    /// How often the agent of a task was asked for in vain.
    pub runtime_attach_misses: HashMap<u128, u8>,
    /// The tasks that are being made ready for a prompt.
    pub submission_preparations: HashSet<u128>,
    /// The tasks that are being forked, with the turn.
    pub response_fork_preparations: HashMap<u128, usize>,
    pub pending_checkpoint_captures: Vec<PendingCheckpointCapture>,
    /// The checkpoints that are being made.
    pub checkpoint_captures_in_flight: Vec<(u128, usize)>,
    /// The tasks whose queues are to go on.
    pub pending_queue_drains: Vec<u128>,
    pub message_edit: Option<MessageEdit>,
    /// The files that are staged for the next prompt.
    pub composer_attachments: Vec<MessageAttachment>,
    /// The handle of the composer's field, by which the window gives it the keyboard.
    pub composer_handle: u64,
}

// ---------------------------------------------------------------------------
// What is shown
// ---------------------------------------------------------------------------
impl Waku {
    /// The handle of the composer's field.
    pub fn composer_focus(&self) -> (r: u64)
        ensures
            r == self.composer_handle,
    {
        self.composer_handle
    }

    /// The project that is shown.
    pub fn selected_project(&self) -> (r: Option<&Project>)
        ensures
            match r {
                Some(p) => self.tasks.selected_project is Some && project_position(
                    self.tasks.projects@,
                    self.tasks.selected_project->0,
                    0,
                ) < self.tasks.projects@.len() && *p == self.tasks.projects@[project_position(
                    self.tasks.projects@,
                    self.tasks.selected_project->0,
                    0,
                )],
                None => self.tasks.selected_project is None || project_position(
                    self.tasks.projects@,
                    self.tasks.selected_project->0,
                    0,
                ) >= self.tasks.projects@.len(),
            },
    {
        match self.tasks.selected_project {
            Some(id) => {
                let at: usize = find_project(&self.tasks.projects, id);
                if at < self.tasks.projects.len() {
                    Some(&self.tasks.projects[at])
                } else {
                    None
                }
            },
            None => None,
        }
    }

    /// The task with an id.
    pub fn session(&self, id: u128) -> (r: Option<&AgentSession>)
        ensures
            match r {
                Some(s) => self.tasks.lists(id) && *s == self.tasks.task(id),
                None => !self.tasks.lists(id),
            },
    {
        let at: usize = find_session(&self.tasks.sessions, id);
        if at < self.tasks.sessions.len() {
            Some(&self.tasks.sessions[at])
        } else {
            None
        }
    }

    /// The provider with an id among those that the user has set up.
    pub fn configured_provider(&self, provider: &str) -> (r: Option<&ExternalProvider>)
        ensures
            ({
                let at = provider_position(
                    provider_views(self.external_providers@),
                    provider@,
                    0,
                );
                match r {
                    Some(p) => at < self.external_providers@.len() && *p
                        == self.external_providers@[at],
                    None => at >= self.external_providers@.len(),
                }
            }),
    {
        let at: usize = find_provider(self.external_providers.as_slice(), provider);
        if at < self.external_providers.len() {
            Some(&self.external_providers[at])
        } else {
            None
        }
    }

    /// The task that is shown.
    pub fn selected_session(&self) -> (r: Option<&AgentSession>)
        ensures
            match r {
                Some(s) => self.tasks.selected_session is Some && self.tasks.lists(
                    self.tasks.selected_session->0,
                ) && *s == self.tasks.task(self.tasks.selected_session->0),
                None => self.tasks.selected_session is None || !self.tasks.lists(
                    self.tasks.selected_session->0,
                ),
            },
    {
        match self.tasks.selected_session {
            Some(id) => self.session(id),
            None => None,
        }
    }
}

impl TaskState {
    /// Where the first task with an id stands.
    pub open spec fn place(&self, id: u128) -> int {
        session_position(self.sessions@, id, 0)
    }

    /// Tells whether there is a task with an id.
    pub open spec fn lists(&self, id: u128) -> bool {
        self.place(id) < self.sessions@.len()
    }

    /// The first task with an id.
    pub open spec fn task(&self, id: u128) -> AgentSession {
        self.sessions@[self.place(id)]
    }

    /// Tells whether another state of the tasks is this one but for the task with an id, which has
    /// become `task`.
    pub open spec fn with_task(&self, id: u128, task: AgentSession, after: TaskState) -> bool {
        &&& after == (TaskState { sessions: after.sessions, ..*self })
        &&& after.sessions@ == self.sessions@.update(self.place(id), task)
    }

    /// The directory that a task works in: its worktree, else that of its project, which has to be
    /// known.
    pub open spec fn workspace_path(&self, session: AgentSession) -> Option<Seq<char>> {
        let at = project_position(self.projects@, session.project_id, 0);
        if at >= self.projects@.len() {
            None
        } else if worktree_path(session.workspace) is Some {
            worktree_path(session.workspace)
        } else {
            Some(self.projects@[at].path@)
        }
    }

    /// The directory that a task works in.
    pub fn workspace_path_for_session(&self, session: &AgentSession) -> (r: Option<String>)
        ensures
            opt_view(r) == self.workspace_path(*session),
    {
        let at: usize = find_project(&self.projects, session.project_id);
        if at >= self.projects.len() {
            return None;
        }
        match session.workspace.path() {
            Some(path) => Some(path.clone()),
            None => Some(self.projects[at].path.clone()),
        }
    }
}

impl Waku {
    /// The directory that the task that is shown works in.
    pub fn selected_workspace_path(&self) -> (r: Option<String>)
        ensures
            opt_view(r) == (if self.tasks.selected_session is Some && self.tasks.lists(
                self.tasks.selected_session->0,
            ) {
                self.tasks.workspace_path(self.tasks.task(self.tasks.selected_session->0))
            } else {
                None
            }),
    {
        match self.selected_session() {
            Some(session) => self.tasks.workspace_path_for_session(session),
            None => None,
        }
    }
}

// ---------------------------------------------------------------------------
// Agents that are asked for
// ---------------------------------------------------------------------------
/// How often the agent of a task that is at work is asked for.
pub const MAX_ATTACH_MISSES: u8 = 4;

/// How long to wait before the agent of a task is asked for once more, in milliseconds.
pub const ATTACH_RETRY_MS: u64 = 250;

/// What came of asking for the agent of a task.
#[derive(Debug)]
pub enum AttachResult {
    /// The agent, with the task as the daemon has it.
    Attached(AgentSession),
    /// There is no agent.
    Missing,
    /// Asking failed.
    Failed,
}

/// What is done with what came of asking for an agent.
#[derive(Clone, Copy, Debug, PartialEq, Eq, Structural)]
pub enum AttachAction {
    /// Nothing.
    Done,
    /// The agent is taken over; where the task is shown, its transcript is laid out anew.
    Install { shown: bool },
    /// The agent is asked for once more, after this many milliseconds.
    RetryAfter(u64),
    /// The task is at work and there is no agent: the turn is over.
    Interrupt,
    /// The failure is reported.
    Report,
}

/// How often the agent of a task was asked for in vain.
pub open spec fn misses_of(misses: Map<u128, u8>, id: u128) -> int {
    if misses.contains_key(id) {
        misses[id] as int
    } else {
        0
    }
}

/// What is done with what came of asking for the agent of a task.
pub open spec fn attach_action(waku: Waku, id: u128, result: AttachResult) -> AttachAction {
    if !waku.runtime_attach_pending@.contains(id) {
        AttachAction::Done
    } else {
        match result {
            AttachResult::Attached(_) => if waku.tasks.lists(id)
                && !waku.runtimes@.contains_key(id) {
                AttachAction::Install { shown: waku.tasks.selected_session == Some(id) }
            } else {
                AttachAction::Done
            },
            AttachResult::Missing => if !(waku.tasks.lists(id) && busy(waku.tasks.task(id).status)) {
                AttachAction::Done
            } else if misses_of(waku.runtime_attach_misses@, id) + 1 < MAX_ATTACH_MISSES {
                AttachAction::RetryAfter(ATTACH_RETRY_MS)
            } else {
                AttachAction::Interrupt
            },
            AttachResult::Failed => AttachAction::Report,
        }
    }
}

/// How often each agent was asked for in vain, afterwards: a count goes on only while it is asked for
/// once more.
pub open spec fn misses_after(waku: Waku, id: u128, result: AttachResult) -> Map<u128, u8> {
    let misses = waku.runtime_attach_misses@;
    if !waku.runtime_attach_pending@.contains(id) || result is Failed {
        misses
    } else if attach_action(waku, id, result) is RetryAfter {
        misses.insert(id, (misses_of(misses, id) + 1) as u8)
    } else {
        misses.remove(id)
    }
}

impl Waku {
    /// Tells whether the agent of a task is to be asked for: it is not known, and has not been asked for.
    /// From then on it has.
    pub fn start_runtime_attachment(&mut self, id: u128) -> (r: bool)
        ensures
            r == (!old(self).runtimes@.contains_key(id)
                && !old(self).runtime_attach_pending@.contains(id)),
            *final(self) == (Waku {
                runtime_attach_pending: final(self).runtime_attach_pending,
                ..*old(self)
            }),
            final(self).runtime_attach_pending@ == (if r {
                old(self).runtime_attach_pending@.insert(id)
            } else {
                old(self).runtime_attach_pending@
            }),
    {
        if self.runtimes.contains_key(&id) || self.runtime_attach_pending.contains(&id) {
            return false;
        }
        self.runtime_attach_pending.insert(id);
        true
    }

    /// Takes what came of asking for the agent of a task, and says what is done with it. An agent that
    /// was not asked for, or no longer, changes nothing.
    pub fn finish_runtime_attachment(&mut self, id: u128, result: AttachResult) -> (r: AttachAction)
        ensures
            r == attach_action(*old(self), id, result),
            *final(self) == (Waku {
                tasks: final(self).tasks,
                runtime_attach_pending: final(self).runtime_attach_pending,
                runtime_attach_misses: final(self).runtime_attach_misses,
                ..*old(self)
            }),
            final(self).runtime_attach_pending@ == old(self).runtime_attach_pending@.remove(id),
            final(self).runtime_attach_misses@ == misses_after(*old(self), id, result),
            r is Install ==> old(self).tasks.with_task(id, result->0, final(self).tasks),
            !(r is Install) ==> final(self).tasks == old(self).tasks,
    {
        if !self.runtime_attach_pending.contains(&id) {
            assert(self.runtime_attach_pending@ =~= self.runtime_attach_pending@.remove(id));
            return AttachAction::Done;
        }
        self.runtime_attach_pending.remove(&id);
        match result {
            AttachResult::Attached(session) => {
                self.runtime_attach_misses.remove(&id);
                let at: usize = find_session(&self.tasks.sessions, id);
                if at < self.tasks.sessions.len() && !self.runtimes.contains_key(&id) {
                    self.tasks.sessions.set(at, session);
                    let shown = match self.tasks.selected_session {
                        Some(s) => s == id,
                        None => false,
                    };
                    AttachAction::Install { shown }
                } else {
                    AttachAction::Done
                }
            },
            AttachResult::Missing => {
                let at: usize = find_session(&self.tasks.sessions, id);
                let at_work = at < self.tasks.sessions.len() && self.tasks.sessions[at].is_busy();
                if !at_work {
                    self.runtime_attach_misses.remove(&id);
                    return AttachAction::Done;
                }
                let so_far: u8 = match self.runtime_attach_misses.get(&id) {
                    Some(n) => *n,
                    None => 0,
                };
                if so_far < MAX_ATTACH_MISSES - 1 {
                    self.runtime_attach_misses.insert(id, so_far + 1);
                    AttachAction::RetryAfter(ATTACH_RETRY_MS)
                } else {
                    self.runtime_attach_misses.remove(&id);
                    AttachAction::Interrupt
                }
            },
            AttachResult::Failed => AttachAction::Report,
        }
    }
}

// ---------------------------------------------------------------------------
// A turn without an agent
// ---------------------------------------------------------------------------
/// The turns with the last one ended, where it was running.
pub open spec fn interrupted_turns(turns: Seq<Turn>, now: u64) -> Seq<Turn> {
    if turns.len() > 0 && turns.last().status == TurnStatus::Running {
        turns.update(
            turns.len() - 1,
            Turn {
                status: TurnStatus::Interrupted,
                completed_at: Some(now),
                ..turns.last()
            },
        )
    } else {
        turns
    }
}

/// The messages, none of which is being written any more.
pub open spec fn settled_messages(messages: Seq<Message>) -> Seq<Message> {
    Seq::new(messages.len(), |i: int| Message { streaming: false, ..messages[i] })
}

/// What an agent did, of which nothing goes on: thoughts that hold nothing are dropped.
pub open spec fn settled_activities(activities: Seq<Activity>) -> Seq<Activity>
    decreases activities.len(),
{
    if activities.len() == 0 {
        Seq::empty()
    } else {
        let before = settled_activities(activities.drop_last());
        let a = activities.last();
        if a.reasoning is Some && trimmed(a.reasoning->0@).len() == 0 {
            before
        } else {
            before.push(Activity { complete: true, ..a })
        }
    }
}

/// The blocks of a transcript, of which nothing goes on: those that hold nothing are dropped.
pub open spec fn settled_blocks(blocks: Seq<Seq<Activity>>) -> Seq<Seq<Activity>>
    decreases blocks.len(),
{
    if blocks.len() == 0 {
        Seq::empty()
    } else {
        let before = settled_blocks(blocks.drop_last());
        let b = settled_activities(blocks.last());
        if b.len() == 0 {
            before
        } else {
            before.push(b)
        }
    }
}

/// The contents of the blocks of a transcript.
pub open spec fn block_views(blocks: Seq<TranscriptBlock>) -> Seq<Seq<Activity>> {
    Seq::new(blocks.len(), |i: int| blocks[i].activities@)
}

/// Tells whether a task is another one whose turn was ended because there is no agent.
pub open spec fn interrupted(before: AgentSession, after: AgentSession, now: u64) -> bool {
    &&& after == (AgentSession {
        status: SessionStatus::Idle,
        turns: after.turns,
        messages: after.messages,
        transcript_blocks: after.transcript_blocks,
        ..before
    })
    &&& after.turns@ == interrupted_turns(before.turns@, now)
    &&& after.messages@ == settled_messages(before.messages@)
    &&& block_views(after.transcript_blocks@) == settled_blocks(
        block_views(before.transcript_blocks@),
    )
}

fn settle_messages(messages: Vec<Message>) -> (r: Vec<Message>)
    ensures
        r@ == settled_messages(messages@),
{
    let ghost all = messages@;
    let mut r: Vec<Message> = Vec::new();
    for message in it: messages.into_iter()
        invariant
            it.seq() == all,
            r@ == settled_messages(all).take(it.index()),
    {
        let mut m = message;
        m.streaming = false;
        r.push(m);
        assert(settled_messages(all).take(it.index() + 1) =~= settled_messages(all).take(
            it.index(),
        ).push(m));
    }
    assert(settled_messages(all).take(all.len() as int) =~= settled_messages(all));
    r
}

fn settle_activities(activities: Vec<Activity>) -> (r: Vec<Activity>)
    ensures
        r@ == settled_activities(activities@),
{
    let ghost all = activities@;
    let mut r: Vec<Activity> = Vec::new();
    assert(all.take(0) =~= Seq::empty());
    for activity in it: activities.into_iter()
        invariant
            it.seq() == all,
            r@ == settled_activities(all.take(it.index())),
    {
        assert(all.take(it.index() + 1).drop_last() =~= all.take(it.index()));
        let empty = match &activity.reasoning {
            Some(text) => trim(text.as_str()).as_str().is_empty(),
            None => false,
        };
        if !empty {
            let mut a = activity;
            a.complete = true;
            r.push(a);
        }
    }
    assert(all.take(all.len() as int) =~= all);
    r
}

fn settle_blocks(blocks: Vec<TranscriptBlock>) -> (r: Vec<TranscriptBlock>)
    ensures
        block_views(r@) == settled_blocks(block_views(blocks@)),
{
    let ghost items = blocks@;
    let ghost all = block_views(items);
    let mut r: Vec<TranscriptBlock> = Vec::new();
    assert(all.take(0) =~= Seq::empty());
    assert(block_views(r@) =~= Seq::empty());
    for block in it: blocks.into_iter()
        invariant
            it.seq() == items,
            all == block_views(items),
            block_views(r@) == settled_blocks(all.take(it.index())),
    {
        assert(all.take(it.index() + 1).drop_last() =~= all.take(it.index()));
        assert(all.take(it.index() + 1).last() == block.activities@);
        let ghost before = r@;
        let activities = settle_activities(block.activities);
        if activities.len() > 0 {
            let b = TranscriptBlock { activities };
            r.push(b);
            assert(block_views(r@) =~= block_views(before).push(b.activities@));
        }
    }
    assert(all.take(all.len() as int) =~= all);
    r
}

/// Where the last project with an id stands, from `i` downwards, or -1.
pub open spec fn last_project(projects: Seq<Project>, id: u128, i: int) -> int
    decreases i,
{
    if i <= 0 || i > projects.len() {
        -1
    } else if projects[i - 1].id == id {
        i - 1
    } else {
        last_project(projects, id, i - 1)
    }
}

/// The directory whose files a task has changed: its worktree, else that of its project.
pub open spec fn changed_path(session: AgentSession, projects: Seq<Project>) -> Option<Seq<char>> {
    let at = last_project(projects, session.project_id, projects.len() as int);
    if worktree_path(session.workspace) is Some {
        worktree_path(session.workspace)
    } else if at >= 0 {
        Some(projects[at].path@)
    } else {
        None
    }
}

fn find_changed_path(session: &AgentSession, projects: &Vec<Project>) -> (r: Option<String>)
    ensures
        opt_view(r) == changed_path(*session, projects@),
{
    if let Some(path) = session.workspace.path() {
        return Some(path.clone());
    }
    let mut i: usize = projects.len();
    while i > 0
        invariant
            i <= projects@.len(),
            last_project(projects@, session.project_id, projects@.len() as int) == last_project(
                projects@,
                session.project_id,
                i as int,
            ),
            worktree_path(session.workspace) is None,
        decreases i,
    {
        if projects[i - 1].id == session.project_id {
            return Some(projects[i - 1].path.clone());
        }
        i = i - 1;
    }
    None
}

/// The checkpoint that is to be made of a turn that was ended, if there is one: the number of the turn
/// and the directory.
pub open spec fn interrupted_capture(session: AgentSession, projects: Seq<Project>) -> Option<
    (usize, Seq<char>),
> {
    if session.turns@.len() > 0 && session.turns@.last().status == TurnStatus::Running
        && changed_path(session, projects) is Some {
        Some((session.turns@.last().turn_count, changed_path(session, projects)->0))
    } else {
        None
    }
}

impl Waku {
    /// Ends the turn of a task that is at work without an agent. Tells whether what is known of the tasks
    /// is to be saved, which it is but for a task that is not at work.
    pub fn interrupt_orphaned_runtime(&mut self, id: u128, now: u64) -> (r: bool)
        ensures
            r == !(old(self).tasks.lists(id) && !busy(old(self).tasks.task(id).status)),
            *final(self) == (Waku {
                tasks: final(self).tasks,
                pending_checkpoint_captures: final(self).pending_checkpoint_captures,
                ..*old(self)
            }),
            if old(self).tasks.lists(id) && busy(old(self).tasks.task(id).status) {
                &&& final(self).tasks.lists(id)
                &&& old(self).tasks.with_task(id, final(self).tasks.task(id), final(self).tasks)
                &&& interrupted(old(self).tasks.task(id), final(self).tasks.task(id), now)
                &&& match interrupted_capture(old(self).tasks.task(id), old(self).tasks.projects@) {
                    Some((turn_count, path)) => {
                        let captures = final(self).pending_checkpoint_captures@;
                        &&& captures.len() == old(self).pending_checkpoint_captures@.len() + 1
                        &&& captures.drop_last() == old(self).pending_checkpoint_captures@
                        &&& captures.last().session_id == id
                        &&& captures.last().turn_count == turn_count
                        &&& captures.last().project_path@ == path
                    },
                    None => final(self).pending_checkpoint_captures@ == old(
                        self,
                    ).pending_checkpoint_captures@,
                }
            } else {
                &&& final(self).tasks == old(self).tasks
                &&& final(self).pending_checkpoint_captures@ == old(
                    self,
                ).pending_checkpoint_captures@
            },
    {
        let at: usize = find_session(&self.tasks.sessions, id);
        if at >= self.tasks.sessions.len() {
            return true;
        }
        if !self.tasks.sessions[at].is_busy() {
            return false;
        }
        let ghost tasks = self.tasks.sessions@;
        let ghost captures = self.pending_checkpoint_captures@;
        let mut session = self.tasks.sessions.remove(at);
        let ghost before = session;
        session.status = SessionStatus::Idle;
        let count: usize = session.turns.len();
        let mut turns: Vec<Turn> = Vec::new();
        std::mem::swap(&mut turns, &mut session.turns);
        if count > 0 && turns[count - 1].status == TurnStatus::Running {
            let mut turn = turns.remove(count - 1);
            turn.status = TurnStatus::Interrupted;
            turn.completed_at = Some(now);
            let turn_count: usize = turn.turn_count;
            turns.push(turn);
            assert(turns@ =~= interrupted_turns(before.turns@, now));
            if let Some(project_path) = find_changed_path(&session, &self.tasks.projects) {
                self.pending_checkpoint_captures.push(
                    PendingCheckpointCapture { session_id: id, turn_count, project_path },
                );
                assert(self.pending_checkpoint_captures@.drop_last() =~= captures);
            }
        }
        session.turns = turns;
        let mut messages: Vec<Message> = Vec::new();
        std::mem::swap(&mut messages, &mut session.messages);
        session.messages = settle_messages(messages);
        let mut blocks: Vec<TranscriptBlock> = Vec::new();
        std::mem::swap(&mut blocks, &mut session.transcript_blocks);
        session.transcript_blocks = settle_blocks(blocks);
        self.tasks.sessions.insert(at, session);
        proof {
            assert(self.tasks.sessions@ =~= tasks.update(at as int, session));
            place_stays(tasks, id, session, 0);
        }
        true
    }
}

/// A task that is replaced by another one with the same id stands where it stood.
pub proof fn place_stays(sessions: Seq<AgentSession>, id: u128, task: AgentSession, i: int)
    requires
        0 <= i <= session_position(sessions, id, 0) < sessions.len(),
        task.id == id,
        session_position(sessions, id, 0) == session_position(sessions, id, i),
    ensures
        session_position(sessions.update(session_position(sessions, id, 0), task), id, i)
            == session_position(sessions, id, 0),
    decreases sessions.len() - i,
{
    let at = session_position(sessions, id, 0);
    let after = sessions.update(at, task);
    if i < at {
        place_stays(sessions, id, task, i + 1);
    }
}

// ---------------------------------------------------------------------------
// Laws
// ---------------------------------------------------------------------------
/// The agent of a task that is at work is asked for a bounded number of times: each time in vain counts
/// up, and at the bound the turn is ended.
pub proof fn asking_ends(waku: Waku, id: u128)
    requires
        waku.runtime_attach_pending@.contains(id),
        waku.tasks.lists(id),
        busy(waku.tasks.task(id).status),
    ensures
        match attach_action(waku, id, AttachResult::Missing) {
            AttachAction::RetryAfter(ms) => ms == ATTACH_RETRY_MS && misses_of(
                misses_after(waku, id, AttachResult::Missing),
                id,
            ) == misses_of(waku.runtime_attach_misses@, id) + 1 && misses_of(
                misses_after(waku, id, AttachResult::Missing),
                id,
            ) < MAX_ATTACH_MISSES,
            AttachAction::Interrupt => misses_of(waku.runtime_attach_misses@, id) + 1
                >= MAX_ATTACH_MISSES && misses_of(
                misses_after(waku, id, AttachResult::Missing),
                id,
            ) == 0,
            _ => false,
        },
{
}

/// An agent that is known is never replaced by one that is attached.
pub proof fn known_agents_stay(waku: Waku, id: u128, session: AgentSession)
    requires
        waku.runtimes@.contains_key(id),
    ensures
        attach_action(waku, id, AttachResult::Attached(session)) == AttachAction::Done,
{
}

/// Once a turn has been ended for want of an agent, the task is idle and nothing in it goes on.
pub proof fn nothing_goes_on(before: AgentSession, after: AgentSession, now: u64)
    requires
        interrupted(before, after, now),
    ensures
        !busy(after.status),
        after.turns@.len() == before.turns@.len(),
        after.turns@.len() > 0 ==> after.turns@.last().status != TurnStatus::Running,
        forall|i: int|
            0 <= i < after.messages@.len() ==> !(#[trigger] after.messages@[i]).streaming,
        forall|b: int, a: int|
            0 <= b < after.transcript_blocks@.len() && 0 <= a
                < after.transcript_blocks@[b].activities@.len() ==> (
            #[trigger] after.transcript_blocks@[b].activities@[a]).complete,
{
    blocks_complete(block_views(before.transcript_blocks@));
    assert forall|b: int, a: int|
        0 <= b < after.transcript_blocks@.len() && 0 <= a
            < after.transcript_blocks@[b].activities@.len() implies (
    #[trigger] after.transcript_blocks@[b].activities@[a]).complete by {
        assert(block_views(after.transcript_blocks@)[b][a].complete);
    }
}

proof fn activities_complete(activities: Seq<Activity>)
    ensures
        forall|a: int|
            0 <= a < settled_activities(activities).len() ==> (
            #[trigger] settled_activities(activities)[a]).complete,
    decreases activities.len(),
{
    if activities.len() > 0 {
        let before = settled_activities(activities.drop_last());
        activities_complete(activities.drop_last());
        assert forall|a: int| 0 <= a < settled_activities(activities).len() implies (
        #[trigger] settled_activities(activities)[a]).complete by {
            if a < before.len() {
                assert(before[a].complete);
            }
        }
    }
}

proof fn blocks_complete(blocks: Seq<Seq<Activity>>)
    ensures
        forall|b: int, a: int|
            0 <= b < settled_blocks(blocks).len() && 0 <= a < settled_blocks(blocks)[b].len() ==> (
            #[trigger] settled_blocks(blocks)[b][a]).complete,
        forall|b: int|
            0 <= b < settled_blocks(blocks).len() ==> (#[trigger] settled_blocks(blocks)[b]).len()
                > 0,
    decreases blocks.len(),
{
    if blocks.len() > 0 {
        let before = settled_blocks(blocks.drop_last());
        let all = settled_blocks(blocks);
        blocks_complete(blocks.drop_last());
        activities_complete(blocks.last());
        assert forall|b: int, a: int| 0 <= b < all.len() && 0 <= a < all[b].len() implies (
        #[trigger] all[b][a]).complete by {
            if b < before.len() {
                assert(before[b][a].complete);
            }
        }
        assert forall|b: int| 0 <= b < all.len() implies (#[trigger] all[b]).len() > 0 by {
            if b < before.len() {
                assert(before[b].len() > 0);
            }
        }
    }
}

} // verus!
