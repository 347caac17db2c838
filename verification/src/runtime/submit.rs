//! Beginning a turn: whether a submission begins one, what is made ready for it, and what comes of that.
use crate::composer::attachments::{restore_composer_submission, restored_text};
use crate::protocol::{busy, DriverEvent, SessionStatus};
use crate::label::{opt_label, Label, LabelView};
use crate::runtime::checkpoints::{
    active_event, ending_under_way, event_to_track, latest_listed, TurnFinished, TurnOutcome,
};
use crate::runtime::options::{
    driver_start_request_for_session, options_of, session_options, start_refusal,
    DriverStartOptions, StartError,
};
use crate::runtime::queue::enqueued;
use crate::runtime::state::{SessionRuntime, Waku};
use crate::session::{
    find_project, find_session, project_position, visible_text, worktree_path, AgentSession,
    ComposerSubmission, Project, SessionWorkspace, SubmissionView, TurnStatus,
};
use crate::providers::provider_views;
use crate::text::{opt_view, same_opt_text, same_text, trim, trimmed};
use vstd::prelude::*;

verus! {

broadcast use vstd::std_specs::hash::group_hash_axioms;

// ---------------------------------------------------------------------------
// Whether a turn begins
// ---------------------------------------------------------------------------
/// A turn that is about to begin, with what is told of it.
#[derive(Debug)]
pub struct PlannedTurn {
    pub session_id: u128,
    pub submission: ComposerSubmission,
    /// The turn's number, from one.
    pub turn_number: usize,
    pub provider: String,
    pub model: String,
    /// "worktree" or "local".
    pub workspace_kind: &'static str,
    pub projectless: bool,
    pub attachment_count: usize,
    /// There is text to be read.
    pub has_input: bool,
    pub project: Project,
    pub workspace: SessionWorkspace,
    /// The task is shown.
    pub shown: bool,
    /// What the agent is started with, where the task has none.
    pub start: Option<Result<DriverStartOptions, StartError>>,
}

/// What is done with a submission for a task.
#[derive(Debug)]
pub enum SubmitDecision {
    /// Nothing.
    Ignored,
    /// It waits in the queue; `save` is not set where it held no text and was dropped.
    Queued { save: bool },
    /// The task's project is not known. The text goes back into the composer, where the task is shown.
    NoProject { restored: Option<String> },
    /// It begins a turn.
    Begin(PlannedTurn),
}

/// What becomes of a submission for a task.
#[derive(Clone, Copy, Debug, PartialEq, Eq, Structural)]
pub enum SubmitKind {
    Ignored,
    QueuedForCheckpoint,
    Queued,
    NoProject,
    Begin,
}

/// What becomes of a submission for a task: it waits for the checkpoint behind the last turn and for the
/// agent, and cannot go on without the task's project.
pub open spec fn submit_kind(waku: Waku, id: u128) -> SubmitKind {
    if waku.response_fork_preparations@.contains_key(id) || !waku.tasks.lists(id) {
        SubmitKind::Ignored
    } else if ending_under_way(waku, id) {
        SubmitKind::QueuedForCheckpoint
    } else if busy(waku.tasks.task(id).status) {
        SubmitKind::Queued
    } else if project_position(waku.tasks.projects@, waku.tasks.task(id).project_id, 0)
        >= waku.tasks.projects@.len() {
        SubmitKind::NoProject
    } else {
        SubmitKind::Begin
    }
}

/// Tells whether the agent of a task is started with what it should be.
pub open spec fn starts_with_options(
    waku: Waku,
    task: AgentSession,
    invalid: Option<Seq<char>>,
    start: Option<Result<DriverStartOptions, StartError>>,
) -> bool {
    let refusal = start_refusal(
        provider_views(waku.presets@),
        provider_views(waku.external_providers@),
        task.provider@,
        invalid,
    );
    match start {
        None => waku.runtimes@.contains_key(task.id),
        Some(Ok(options)) => {
            &&& !waku.runtimes@.contains_key(task.id)
            &&& refusal is None
            &&& options.provider == task.provider
            &&& options.options@ == options_of(task, waku.model_catalogs@)
            &&& options.cwd@ == (match waku.tasks.workspace_path(task) {
                Some(path) => path,
                None => Seq::empty(),
            })
        },
        Some(Err(e)) => !waku.runtimes@.contains_key(task.id) && refusal == Some(e@),
    }
}

/// Tells whether a turn is the one that a submission begins.
pub open spec fn is_planned(
    waku: Waku,
    id: u128,
    submission: SubmissionView,
    invalid: Option<Seq<char>>,
    turn: PlannedTurn,
) -> bool {
    let task = waku.tasks.task(id);
    let options = options_of(task, waku.model_catalogs@);
    let project = waku.tasks.projects@[project_position(waku.tasks.projects@, task.project_id, 0)];
    &&& turn.session_id == id
    &&& turn.submission@ == submission
    &&& turn.turn_number == task.turns@.len() + 1
    &&& turn.provider@ == task.provider@
    &&& turn.model@ == (match options.model {
        Some(model) => model,
        None => "default"@,
    })
    &&& turn.workspace_kind@ == (if task.workspace is Local {
        "local"@
    } else {
        "worktree"@
    })
    &&& turn.projectless == project.projectless
    &&& turn.attachment_count == submission.attachments.len()
    &&& turn.has_input == (trimmed(visible_text(submission.prompt, submission.display_content)).len()
        > 0)
    &&& turn.project == project
    &&& turn.workspace == task.workspace
    &&& turn.shown == (waku.tasks.selected_session == Some(id))
    &&& starts_with_options(waku, task, invalid, turn.start)
}

/// Tells whether a submission for a task was dealt with as it should be.
pub open spec fn decided(
    before: Waku,
    after: Waku,
    id: u128,
    submission: SubmissionView,
    invalid: Option<Seq<char>>,
    message_id: u128,
    now: u64,
    r: SubmitDecision,
) -> bool {
    let kind = submit_kind(before, id);
    let queues = kind == SubmitKind::Queued || kind == SubmitKind::QueuedForCheckpoint;
    let restores = kind == SubmitKind::NoProject && before.tasks.selected_session == Some(id);
    &&& after == (Waku {
        tasks: after.tasks,
        pending_queue_drains: after.pending_queue_drains,
        composer_attachments: after.composer_attachments,
        ..before
    })
    &&& if queues {
        &&& r == (SubmitDecision::Queued { save: trimmed(submission.prompt).len() > 0 })
        &&& enqueued(before.tasks, after.tasks, id, submission, message_id, now)
    } else {
        after.tasks == before.tasks
    }
    &&& if kind == SubmitKind::QueuedForCheckpoint && !before.pending_queue_drains@.contains(id) {
        after.pending_queue_drains@ == before.pending_queue_drains@.push(id)
    } else {
        after.pending_queue_drains@ == before.pending_queue_drains@
    }
    &&& if restores {
        after.composer_attachments@ == submission.attachments
    } else {
        after.composer_attachments == before.composer_attachments
    }
    &&& match kind {
        SubmitKind::Ignored => r is Ignored,
        SubmitKind::NoProject => r is NoProject && opt_view(r->restored) == (if restores {
            Some(restored_text(submission))
        } else {
            None
        }),
        SubmitKind::Begin => r is Begin && is_planned(before, id, submission, invalid, r->Begin_0),
        _ => true,
    }
}

impl Waku {
    fn plan_turn(&self, place: usize, at: usize, submission: ComposerSubmission, invalid: &Option<
        String,
    >) -> (r: PlannedTurn)
        requires
            place < self.tasks.sessions@.len(),
            self.tasks.place(self.tasks.sessions@[place as int].id) == place,
            at == project_position(
                self.tasks.projects@,
                self.tasks.sessions@[place as int].project_id,
                0,
            ),
            at < self.tasks.projects@.len(),
            self.tasks.sessions@[place as int].turns@.len() < usize::MAX,
        ensures
            is_planned(
                *self,
                self.tasks.sessions@[place as int].id,
                submission@,
                opt_view(*invalid),
                r,
            ),
    {
        let session = &self.tasks.sessions[place];
        let shown_text = match &submission.display_content {
            Some(text) => text.as_str(),
            None => submission.prompt.as_str(),
        };
        let has_input = !trim(shown_text).as_str().is_empty();
        let model = match session_options(session, &self.model_catalogs).model {
            Some(model) => model,
            None => "default".to_string(),
        };
        let start = if self.runtimes.contains_key(&session.id) {
            None
        } else {
            let cwd = match self.tasks.workspace_path_for_session(session) {
                Some(path) => path,
                None => String::new(),
            };
            assert(cwd@ =~= (match self.tasks.workspace_path(*session) {
                Some(path) => path,
                None => Seq::<char>::empty(),
            }));
            Some(
                driver_start_request_for_session(
                    session,
                    self.presets.as_slice(),
                    self.external_providers.as_slice(),
                    &self.model_catalogs,
                    invalid,
                    cwd,
                ),
            )
        };
        let shown = match self.tasks.selected_session {
            Some(s) => s == session.id,
            None => false,
        };
        let attachment_count: usize = submission.attachments.len();
        PlannedTurn {
            session_id: session.id,
            submission,
            turn_number: session.turns.len() + 1,
            provider: session.provider.clone(),
            model,
            workspace_kind: if session.workspace.is_worktree() {
                "worktree"
            } else {
                "local"
            },
            projectless: self.tasks.projects[at].projectless,
            attachment_count,
            has_input,
            project: self.tasks.projects[at].clone(),
            workspace: session.workspace.clone(),
            shown,
            start,
        }
    }

    /// Decides what becomes of a submission for a task. `invalid` is the reason why the id of the task's
    /// provider is not one, where it is not; `message_id` the id that the submission has in a queue.
    pub fn submit_submission_for_session(
        &mut self,
        id: u128,
        submission: ComposerSubmission,
        invalid: &Option<String>,
        message_id: u128,
        now: u64,
    ) -> (r: SubmitDecision)
        requires
            old(self).tasks.lists(id) ==> old(self).tasks.task(id).turns@.len() < usize::MAX,
        ensures
            decided(
                *old(self),
                *final(self),
                id,
                submission@,
                opt_view(*invalid),
                message_id,
                now,
                r,
            ),
    {
        if self.response_fork_preparations.contains_key(&id) {
            return SubmitDecision::Ignored;
        }
        let place: usize = find_session(&self.tasks.sessions, id);
        if place >= self.tasks.sessions.len() {
            return SubmitDecision::Ignored;
        }
        if self.ending_checkpoint_pending(id) {
            let save = self.tasks.enqueue_follow_up_submission(id, submission, message_id, now);
            self.defer_queue_drain(id);
            return SubmitDecision::Queued { save };
        }
        if self.tasks.sessions[place].is_busy() {
            let save = self.tasks.enqueue_follow_up_submission(id, submission, message_id, now);
            return SubmitDecision::Queued { save };
        }
        let project_id: u128 = self.tasks.sessions[place].project_id;
        let at: usize = find_project(&self.tasks.projects, project_id);
        if at >= self.tasks.projects.len() {
            let shown = match self.tasks.selected_session {
                Some(s) => s == id,
                None => false,
            };
            let restored = if shown {
                Some(restore_composer_submission(submission, &mut self.composer_attachments))
            } else {
                None
            };
            return SubmitDecision::NoProject { restored };
        }
        SubmitDecision::Begin(self.plan_turn(place, at, submission, invalid))
    }

    /// Begins a turn: `session` is the task with its title and the turn added to it.
    pub fn begin_submission(&mut self, id: u128, session: AgentSession, now: u64)
        ensures
            *final(self) == (Waku {
                tasks: final(self).tasks,
                submission_preparations: final(self).submission_preparations,
                message_edit: final(self).message_edit,
                ..*old(self)
            }),
            if old(self).tasks.lists(id) {
                old(self).tasks.with_task(
                    id,
                    AgentSession { status: SessionStatus::Connecting, updated_at: now, ..session },
                    final(self).tasks,
                )
            } else {
                final(self).tasks == old(self).tasks
            },
            final(self).submission_preparations@ == old(self).submission_preparations@.insert(id),
            final(self).message_edit == (if old(self).tasks.selected_session == Some(id) {
                None
            } else {
                old(self).message_edit
            }),
    {
        let place: usize = find_session(&self.tasks.sessions, id);
        if place < self.tasks.sessions.len() {
            let mut task = session;
            task.status = SessionStatus::Connecting;
            task.updated_at = now;
            self.tasks.sessions.set(place, task);
        }
        self.submission_preparations.insert(id);
        let shown = match self.tasks.selected_session {
            Some(s) => s == id,
            None => false,
        };
        if shown {
            self.message_edit = None;
        }
    }
}

// ---------------------------------------------------------------------------
// Making ready
// ---------------------------------------------------------------------------
/// What is made ready before a turn.
#[derive(Debug, PartialEq, Eq)]
pub enum WorkspacePlan {
    /// The worktree is made first, from this branch.
    CreateWorktree { base_branch: Option<String> },
    /// The task works where it does.
    Keep(SessionWorkspace),
}

/// A task without a project cannot have a worktree.
#[derive(Clone, Copy, Debug, PartialEq, Eq, Structural)]
pub struct ProjectlessWorktree;

impl ProjectlessWorktree {
    /// What the user is told of it.
    pub fn message(self) -> (r: &'static str)
        ensures
            r@ == "a projectless task cannot create a Git worktree"@,
    {
        "a projectless task cannot create a Git worktree"
    }
}

/// What is made ready before a turn: a worktree that is still to be made, where the task has a project.
pub fn plan_workspace(workspace: SessionWorkspace, project: &Project) -> (r: Result<
    WorkspacePlan,
    ProjectlessWorktree,
>)
    ensures
        match workspace {
            SessionWorkspace::NewWorktree { base_branch } => if project.projectless {
                r is Err
            } else {
                r is Ok && r->Ok_0 == (WorkspacePlan::CreateWorktree { base_branch })
            },
            _ => r is Ok && r->Ok_0 == WorkspacePlan::Keep(workspace),
        },
{
    match workspace {
        SessionWorkspace::NewWorktree { base_branch } => if project.projectless {
            Err(ProjectlessWorktree)
        } else {
            Ok(WorkspacePlan::CreateWorktree { base_branch })
        },
        other => Ok(WorkspacePlan::Keep(other)),
    }
}

/// The directory that a turn works in.
pub fn turn_directory(workspace: &SessionWorkspace, project: &Project) -> (r: String)
    ensures
        r@ == (match worktree_path(*workspace) {
            Some(path) => path,
            None => project.path@,
        }),
{
    match workspace.path() {
        Some(path) => path.clone(),
        None => project.path.clone(),
    }
}

/// The contents of where a task works.
pub ghost enum WorkspaceView {
    Local,
    NewWorktree { base_branch: Option<Seq<char>> },
    Worktree { path: Seq<char>, branch: Seq<char> },
}

/// The contents of where a task works.
pub open spec fn workspace_view(w: SessionWorkspace) -> WorkspaceView {
    match w {
        SessionWorkspace::Local => WorkspaceView::Local,
        SessionWorkspace::NewWorktree { base_branch } => WorkspaceView::NewWorktree {
            base_branch: opt_view(base_branch),
        },
        SessionWorkspace::Worktree { path, branch } => WorkspaceView::Worktree {
            path: path@,
            branch: branch@,
        },
    }
}

fn same_workspace(a: &SessionWorkspace, b: &SessionWorkspace) -> (r: bool)
    ensures
        r == (workspace_view(*a) == workspace_view(*b)),
{
    match (a, b) {
        (SessionWorkspace::Local, SessionWorkspace::Local) => true,
        (
            SessionWorkspace::NewWorktree { base_branch: x },
            SessionWorkspace::NewWorktree { base_branch: y },
        ) => same_opt_text(x, y),
        (
            SessionWorkspace::Worktree { path: p, branch: x },
            SessionWorkspace::Worktree { path: q, branch: y },
        ) => same_text(p.as_str(), q.as_str()) && same_text(x.as_str(), y.as_str()),
        _ => false,
    }
}

// ---------------------------------------------------------------------------
// What comes of it
// ---------------------------------------------------------------------------
/// The agent of a turn that is ready.
#[derive(Debug)]
pub enum PreparedAgent {
    /// The one that the task has.
    Existing,
    /// One that was started.
    Started { supports_steer: bool },
    /// None: it could not be started, for this reason.
    Failed(String),
}

/// What was made ready for a turn.
#[derive(Debug)]
pub struct PreparedSubmission {
    /// Where the task works.
    pub workspace: SessionWorkspace,
    /// What the user is told of the checkpoint before the turn, where it could not be made.
    pub checkpoint_warning: Option<String>,
    pub agent: PreparedAgent,
}

/// A task whose agent did not start: what was said in it ends with why, and its turn has ended as failed.
#[derive(Debug)]
pub struct FailedTurn {
    pub session: AgentSession,
    /// There was a turn to be ended.
    pub ended: bool,
}

/// Why a turn that is ready cannot go to an agent.
#[derive(Debug, PartialEq, Eq)]
pub enum StartFailure {
    /// The task's agent is gone.
    AgentGone,
    /// The agent could not be started, for this reason.
    NotStarted(String),
}

impl StartFailure {
    /// The reason.
    pub fn reason(&self) -> (r: Label)
        ensures
            r@ == (match self {
                StartFailure::AgentGone => LabelView::Message(
                    "errors.prepared_runtime_unavailable"@,
                ),
                StartFailure::NotStarted(reason) => LabelView::Plain(reason@),
            }),
    {
        match self {
            StartFailure::AgentGone => Label::Message("errors.prepared_runtime_unavailable"),
            StartFailure::NotStarted(reason) => Label::Plain(reason.clone()),
        }
    }
}

/// What the task says of an agent that did not start; `reason` is the reason in words.
pub fn start_failure_message(reason: String) -> (r: Label)
    ensures
        r@ == (LabelView::MessageWith { key: "errors.start_agent"@, name: "error"@, value: reason@ }),
{
    Label::MessageWith { key: "errors.start_agent", name: "error", value: reason }
}

/// What is done once a turn is ready. `refresh` is set where the task is shown and works elsewhere now;
/// `warning` is what the user is told, where the task is shown.
#[derive(Debug, PartialEq, Eq)]
pub enum StartAction {
    /// Nothing: the turn is no longer wanted.
    Dropped,
    /// The prompt goes to the agent.
    Prompt { refresh: bool, warning: Option<String> },
    /// The turn has failed, and this is told of it.
    Failed {
        refresh: bool,
        warning: Option<String>,
        failure: StartFailure,
        event: Option<TurnFinished>,
    },
}

/// Tells whether the turn of a task is the one that was made ready: the agent has not begun it.
pub open spec fn can_start(waku: Waku, id: u128) -> bool {
    &&& waku.tasks.lists(id)
    &&& waku.tasks.task(id).status == SessionStatus::Connecting
    &&& waku.tasks.task(id).turns@.len() > 0
    &&& waku.tasks.task(id).turns@.last().status == TurnStatus::Running
    &&& !waku.tasks.task(id).turns@.last().provider_turn_started
}

/// Tells whether an agent is ready for a new prompt: nothing of the last turn is left with it.
pub open spec fn is_fresh(r: SessionRuntime) -> bool {
    r.pending_steers@.len() == 0 && !r.stream_remeasure_pending && !r.waits_for_user
}

/// Those of some reports that are about work in the background.
pub open spec fn background_reports(events: Seq<DriverEvent>) -> Seq<DriverEvent> {
    events.filter(|event: DriverEvent| event is BackgroundWork)
}

fn keep_background(events: Vec<DriverEvent>) -> (r: Vec<DriverEvent>)
    ensures
        r@ == background_reports(events@),
{
    let ghost all = events@;
    let mut r: Vec<DriverEvent> = Vec::new();
    proof {
        reveal(Seq::filter);
        assert(all.take(0) =~= Seq::empty());
    }
    for event in it: events.into_iter()
        invariant
            it.seq() == all,
            r@ == background_reports(all.take(it.index())),
    {
        proof {
            reveal(Seq::filter);
            assert(all.take(it.index() + 1).drop_last() =~= all.take(it.index()));
        }
        let background = match &event {
            DriverEvent::BackgroundWork { .. } => true,
            _ => false,
        };
        if background {
            r.push(event);
        }
    }
    assert(all.take(all.len() as int) =~= all);
    r
}

/// Tells whether the agents are those before a prompt goes to the agent of a task. Of what the agent
/// reported before, only what is about work in the background is still looked at.
pub open spec fn agents_ready(
    before: Map<u128, SessionRuntime>,
    after: Map<u128, SessionRuntime>,
    id: u128,
    agent: PreparedAgent,
) -> bool {
    let base = match agent {
        PreparedAgent::Started { supports_steer } => Some(
            (supports_steer, 0u64, Seq::<DriverEvent>::empty()),
        ),
        _ => if before.contains_key(id) {
            Some(
                (
                    before[id].supports_steer,
                    before[id].options_generation,
                    background_reports(before[id].pending_events@),
                ),
            )
        } else {
            None
        },
    };
    match base {
        Some((steer, generation, events)) => {
            &&& after.contains_key(id)
            &&& after == before.insert(id, after[id])
            &&& is_fresh(after[id])
            &&& after[id].supports_steer == steer
            &&& after[id].options_generation == generation
            &&& after[id].pending_events@ == events
        },
        None => after == before,
    }
}

/// Why a turn that is ready cannot go to an agent, if it cannot.
pub open spec fn start_failure_of(waku: Waku, id: u128, agent: PreparedAgent) -> Option<StartFailure> {
    match agent {
        PreparedAgent::Existing => if waku.runtimes@.contains_key(id) {
            None
        } else {
            Some(StartFailure::AgentGone)
        },
        PreparedAgent::Started { .. } => None,
        PreparedAgent::Failed(reason) => Some(StartFailure::NotStarted(reason)),
    }
}

/// The task whose turn is ready: it works where was made ready for it. Without an agent it has failed, and is
/// the one with the turn ended, where that is given.
pub open spec fn ready_task(
    waku: Waku,
    id: u128,
    ready: PreparedSubmission,
    failed: Option<FailedTurn>,
) -> AgentSession {
    let task = waku.tasks.task(id);
    if start_failure_of(waku, id, ready.agent) is None {
        AgentSession { workspace: ready.workspace, ..task }
    } else {
        AgentSession {
            workspace: ready.workspace,
            status: SessionStatus::Failed,
            ..match failed {
                Some(turn) => turn.session,
                None => task,
            }
        }
    }
}

/// Tells whether a turn that is ready was dealt with as it should be.
pub open spec fn prepared(
    before: Waku,
    after: Waku,
    id: u128,
    ready: PreparedSubmission,
    failed: Option<FailedTurn>,
    now: u64,
    r: StartAction,
) -> bool {
    let shown = before.tasks.selected_session == Some(id);
    let refresh = shown && workspace_view(before.tasks.task(id).workspace) != workspace_view(
        ready.workspace,
    );
    let warning = if shown {
        ready.checkpoint_warning
    } else {
        None
    };
    &&& after == (Waku {
        tasks: after.tasks,
        runtimes: after.runtimes,
        submission_preparations: after.submission_preparations,
        pending_checkpoint_captures: after.pending_checkpoint_captures,
        ..before
    })
    &&& after.submission_preparations@ == before.submission_preparations@.remove(id)
    &&& if before.submission_preparations@.contains(id) && can_start(before, id) {
        &&& before.tasks.with_task(id, ready_task(before, id, ready, failed), after.tasks)
        &&& agents_ready(before.runtimes@, after.runtimes@, id, ready.agent)
        &&& match start_failure_of(before, id, ready.agent) {
            None => {
                &&& r == (StartAction::Prompt { refresh, warning })
                &&& after.pending_checkpoint_captures == before.pending_checkpoint_captures
            },
            Some(failure) => {
                &&& r == (StartAction::Failed {
                    refresh,
                    warning,
                    failure,
                    event: if failed is Some && (failed->0).ended {
                        active_event(before, id, TurnOutcome::StartFailed, now)
                    } else {
                        None
                    },
                })
                &&& latest_listed(
                    Waku {
                        pending_checkpoint_captures: before.pending_checkpoint_captures,
                        ..after
                    },
                    id,
                    after.pending_checkpoint_captures@,
                )
            },
        }
    } else {
        &&& r is Dropped
        &&& after.tasks == before.tasks
        &&& after.runtimes == before.runtimes
        &&& after.pending_checkpoint_captures == before.pending_checkpoint_captures
    }
}

/// What comes of a turn that could not be made ready.
#[derive(Debug)]
pub struct FailedPreparation {
    /// What the composer's field holds, where the task is shown.
    pub restored: Option<String>,
    /// What the user is told, where the task is shown.
    pub told: Option<Label>,
    /// What is told of the turn.
    pub event: Option<TurnFinished>,
}

impl Waku {
    fn ready_agent(&mut self, id: u128, agent: &PreparedAgent)
        ensures
            *final(self) == (Waku { runtimes: final(self).runtimes, ..*old(self) }),
            agents_ready(old(self).runtimes@, final(self).runtimes@, id, *agent),
    {
        let ghost runtimes = self.runtimes@;
        let known = self.runtimes.remove(&id);
        let base: Option<(bool, u64, Vec<DriverEvent>)> = match agent {
            PreparedAgent::Started { supports_steer } => Some((*supports_steer, 0, Vec::new())),
            _ => match known {
                Some(runtime) => Some(
                    (
                        runtime.supports_steer,
                        runtime.options_generation,
                        keep_background(runtime.pending_events),
                    ),
                ),
                None => None,
            },
        };
        if let Some((supports_steer, options_generation, pending_events)) = base {
            let runtime = SessionRuntime {
                supports_steer,
                options_generation,
                pending_steers: Vec::new(),
                pending_events,
                stream_remeasure_pending: false,
                waits_for_user: false,
            };
            self.runtimes.insert(id, runtime);
            assert(self.runtimes@ =~= runtimes.insert(id, runtime));
        } else {
            assert(self.runtimes@ =~= runtimes);
        }
    }

    /// Why a turn that is ready cannot go to an agent, if it cannot.
    pub fn start_failure(&self, id: u128, agent: &PreparedAgent) -> (r: Option<StartFailure>)
        ensures
            r == start_failure_of(*self, id, *agent),
    {
        match agent {
            PreparedAgent::Existing => if self.runtimes.contains_key(&id) {
                None
            } else {
                Some(StartFailure::AgentGone)
            },
            PreparedAgent::Started { .. } => None,
            PreparedAgent::Failed(reason) => Some(StartFailure::NotStarted(reason.clone())),
        }
    }

    /// Takes a turn that is ready, and says what is done then. `failed` is the task with the turn ended, where
    /// the turn cannot go to an agent; the checkpoint behind such a turn is listed to be made.
    pub fn finish_submission_preparation(
        &mut self,
        id: u128,
        ready: PreparedSubmission,
        failed: Option<FailedTurn>,
        now: u64,
    ) -> (r: StartAction)
        ensures
            prepared(*old(self), *final(self), id, ready, failed, now, r),
    {
        let wanted = self.submission_preparations.contains(&id);
        self.submission_preparations.remove(&id);
        assert(self.submission_preparations@ =~= old(self).submission_preparations@.remove(id));
        let place: usize = find_session(&self.tasks.sessions, id);
        if !wanted || place >= self.tasks.sessions.len() {
            return StartAction::Dropped;
        }
        let n: usize = self.tasks.sessions[place].turns.len();
        let startable = self.tasks.sessions[place].status == SessionStatus::Connecting && n > 0
            && self.tasks.sessions[place].turns[n - 1].status == TurnStatus::Running
            && !self.tasks.sessions[place].turns[n - 1].provider_turn_started;
        if !startable {
            return StartAction::Dropped;
        }
        let shown = match self.tasks.selected_session {
            Some(s) => s == id,
            None => false,
        };
        let refresh = shown && !same_workspace(
            &self.tasks.sessions[place].workspace,
            &ready.workspace,
        );
        let warning = if shown {
            ready.checkpoint_warning
        } else {
            None
        };
        let failure = self.start_failure(id, &ready.agent);
        let event = self.active_turn_finished_event(id, TurnOutcome::StartFailed, now);
        let ghost tasks = self.tasks.sessions@;
        let mut session = self.tasks.sessions.remove(place);
        let mut ended = false;
        if failure.is_some() {
            if let Some(turn) = failed {
                session = turn.session;
                ended = turn.ended;
            }
            session.status = SessionStatus::Failed;
        }
        session.workspace = ready.workspace;
        self.tasks.sessions.insert(place, session);
        assert(self.tasks.sessions@ =~= tasks.update(place as int, session));
        self.ready_agent(id, &ready.agent);
        match failure {
            None => StartAction::Prompt { refresh, warning },
            Some(failure) => {
                self.capture_latest_turn_checkpoint_for(id);
                StartAction::Failed {
                    refresh,
                    warning,
                    failure,
                    event: event_to_track(event, ended),
                }
            },
        }
    }

    /// Takes back a turn that could not be made ready, for this reason: `unwound` is the task without the
    /// turn, where it is still waiting for it. Where the task is shown, the submission goes back into the
    /// composer.
    pub fn fail_submission_preparation(
        &mut self,
        id: u128,
        unwound: Option<AgentSession>,
        submission: ComposerSubmission,
        error: String,
        now: u64,
    ) -> (r: FailedPreparation)
        ensures
            *final(self) == (Waku {
                tasks: final(self).tasks,
                submission_preparations: final(self).submission_preparations,
                composer_attachments: final(self).composer_attachments,
                ..*old(self)
            }),
            final(self).submission_preparations@ == old(self).submission_preparations@.remove(id),
            ({
                let wanted = old(self).submission_preparations@.contains(id);
                let shown = old(self).tasks.selected_session == Some(id);
                &&& r.event == (if wanted {
                    active_event(*old(self), id, TurnOutcome::PreparationFailed, now)
                } else {
                    None
                })
                &&& if wanted && unwound is Some && old(self).tasks.lists(id) && old(
                    self,
                ).tasks.task(id).status == SessionStatus::Connecting {
                    old(self).tasks.with_task(
                        id,
                        AgentSession { status: SessionStatus::Idle, ..unwound->0 },
                        final(self).tasks,
                    )
                } else {
                    final(self).tasks == old(self).tasks
                }
                &&& if wanted && shown {
                    &&& opt_view(r.restored) == Some(restored_text(submission@))
                    &&& opt_label(r.told) == Some(
                        (LabelView::MessageWith {
                            key: "errors.create_worktree"@,
                            name: "error"@,
                            value: error@,
                        }),
                    )
                    &&& final(self).composer_attachments@ == submission@.attachments
                } else {
                    &&& r.restored is None
                    &&& r.told is None
                    &&& final(self).composer_attachments == old(self).composer_attachments
                }
            }),
    {
        let wanted = self.submission_preparations.contains(&id);
        self.submission_preparations.remove(&id);
        assert(self.submission_preparations@ =~= old(self).submission_preparations@.remove(id));
        if !wanted {
            return FailedPreparation { restored: None, told: None, event: None };
        }
        let event = self.active_turn_finished_event(id, TurnOutcome::PreparationFailed, now);
        let place: usize = find_session(&self.tasks.sessions, id);
        if place < self.tasks.sessions.len() && self.tasks.sessions[place].status
            == SessionStatus::Connecting {
            if let Some(session) = unwound {
                let mut task = session;
                task.status = SessionStatus::Idle;
                self.tasks.sessions.set(place, task);
            }
        }
        let shown = match self.tasks.selected_session {
            Some(s) => s == id,
            None => false,
        };
        if shown {
            FailedPreparation {
                restored: Some(
                    restore_composer_submission(submission, &mut self.composer_attachments),
                ),
                told: Some(
                    Label::MessageWith {
                        key: "errors.create_worktree",
                        name: "error",
                        value: error,
                    },
                ),
                event,
            }
        } else {
            FailedPreparation { restored: None, told: None, event }
        }
    }
}

// ---------------------------------------------------------------------------
// Laws
// ---------------------------------------------------------------------------
/// A submission for a task that is there is never lost: it begins a turn, waits in the queue (where it
/// holds text), or goes back into the composer of the task that is shown.
pub proof fn submissions_are_not_lost(waku: Waku, id: u128)
    requires
        waku.tasks.lists(id),
        !waku.response_fork_preparations@.contains_key(id),
    ensures
        submit_kind(waku, id) != SubmitKind::Ignored,
        submit_kind(waku, id) == SubmitKind::Begin ==> !busy(waku.tasks.task(id).status)
            && !ending_under_way(waku, id),
{
}

/// A turn that is ready leaves no task waiting: it is no longer made ready, whatever came of it, and
/// what comes of making it ready a second time changes nothing.
pub proof fn a_turn_is_made_ready_once(
    before: Waku,
    after: Waku,
    again: Waku,
    id: u128,
    ready: PreparedSubmission,
    failed: Option<FailedTurn>,
    now: u64,
    first: StartAction,
    second: StartAction,
)
    requires
        prepared(before, after, id, ready, failed, now, first),
        prepared(after, again, id, ready, failed, now, second),
    ensures
        !after.submission_preparations@.contains(id),
        second is Dropped,
        again.tasks == after.tasks,
        again.runtimes == after.runtimes,
        again.pending_checkpoint_captures == after.pending_checkpoint_captures,
{
}

} // verus!
