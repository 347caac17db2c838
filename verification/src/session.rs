//! Tasks and projects, as the desktop client knows them.
use crate::protocol::{
    busy, InteractionMode, MessageRole, RuntimeMode, ServiceTier, SessionStatus,
};
use crate::text::{copy_opt_text, opt_view};
use vstd::prelude::*;

verus! {

// ---------------------------------------------------------------------------
// Attachments and submissions
// ---------------------------------------------------------------------------
/// A file that goes along with a message.
#[derive(Debug)]
pub struct MessageAttachment {
    pub path: String,
    /// What the prompt calls it.
    pub mention: String,
    pub name: String,
    pub is_dir: bool,
    pub is_image: bool,
    /// Where the daemon stored it.
    pub blob_reference: Option<String>,
}

impl Clone for MessageAttachment {
    fn clone(&self) -> (r: Self)
        ensures
            r == *self,
    {
        MessageAttachment {
            path: self.path.clone(),
            mention: self.mention.clone(),
            name: self.name.clone(),
            is_dir: self.is_dir,
            is_image: self.is_image,
            blob_reference: copy_opt_text(&self.blob_reference),
        }
    }
}

/// A copy of a list of attachments.
pub fn copy_attachments(list: &Vec<MessageAttachment>) -> (r: Vec<MessageAttachment>)
    ensures
        r@ == list@,
{
    let mut r: Vec<MessageAttachment> = Vec::new();
    for i in 0..list.len()
        invariant
            r@ == list@.take(i as int),
    {
        r.push(list[i].clone());
        assert(list@.take(i as int + 1) =~= list@.take(i as int).push(list@[i as int]));
    }
    assert(list@.take(list@.len() as int) =~= list@);
    r
}

/// What the user sends.
#[derive(Debug)]
pub struct ComposerSubmission {
    /// What the agent gets to read.
    pub prompt: String,
    /// What the transcript shows, where that is something else.
    pub display_content: Option<String>,
    pub attachments: Vec<MessageAttachment>,
}

/// The contents of a submission.
pub ghost struct SubmissionView {
    pub prompt: Seq<char>,
    pub display_content: Option<Seq<char>>,
    pub attachments: Seq<MessageAttachment>,
}

impl View for ComposerSubmission {
    type V = SubmissionView;

    open spec fn view(&self) -> SubmissionView {
        SubmissionView {
            prompt: self.prompt@,
            display_content: opt_view(self.display_content),
            attachments: self.attachments@,
        }
    }
}

impl Clone for ComposerSubmission {
    fn clone(&self) -> (r: Self)
        ensures
            r@ == self@,
    {
        ComposerSubmission {
            prompt: self.prompt.clone(),
            display_content: copy_opt_text(&self.display_content),
            attachments: copy_attachments(&self.attachments),
        }
    }
}

impl ComposerSubmission {
    /// A submission of nothing but text.
    pub fn plain(prompt: String) -> (r: Self)
        ensures
            r.prompt == prompt,
            r.display_content is None,
            r.attachments@.len() == 0,
    {
        ComposerSubmission { prompt, display_content: None, attachments: Vec::new() }
    }

    /// The submission that a message in the queue came from.
    pub fn from_queued_message(message: QueuedMessage) -> (r: Self)
        ensures
            r.prompt == message.content,
            r.display_content == message.display_content,
            r.attachments == message.attachments,
    {
        ComposerSubmission {
            prompt: message.content,
            display_content: message.display_content,
            attachments: message.attachments,
        }
    }

    /// The submission as a message in the queue.
    pub fn into_queued_message(self, id: u128) -> (r: QueuedMessage)
        ensures
            r.id == id,
            r.content == self.prompt,
            r.display_content == self.display_content,
            r.attachments == self.attachments,
    {
        QueuedMessage {
            id,
            content: self.prompt,
            display_content: self.display_content,
            attachments: self.attachments,
        }
    }
}

/// A message that waits for the agent to finish.
#[derive(Debug)]
pub struct QueuedMessage {
    pub id: u128,
    pub content: String,
    pub display_content: Option<String>,
    pub attachments: Vec<MessageAttachment>,
}

/// What is shown of a text that may have another one to be shown.
pub open spec fn visible_text(content: Seq<char>, display_content: Option<Seq<char>>) -> Seq<char> {
    match display_content {
        Some(text) => text,
        None => content,
    }
}

impl QueuedMessage {
    /// What is shown of the message.
    pub fn visible_content(&self) -> (r: &str)
        ensures
            r@ == visible_text(self.content@, opt_view(self.display_content)),
    {
        match &self.display_content {
            Some(text) => text.as_str(),
            None => self.content.as_str(),
        }
    }
}

// ---------------------------------------------------------------------------
// Turns and messages
// ---------------------------------------------------------------------------
/// How a turn stands.
#[derive(Clone, Copy, Debug, PartialEq, Eq, Structural)]
pub enum TurnStatus {
    Running,
    Completed,
    Interrupted,
    Failed,
}

/// Whether a checkpoint could be made.
#[derive(Clone, Copy, Debug, PartialEq, Eq, Structural)]
pub enum CheckpointStatus {
    Ready,
    Error,
}

/// The state of the files behind a turn.
#[derive(Debug)]
pub struct Checkpoint {
    pub turn_count: usize,
    pub git_ref: String,
    pub status: CheckpointStatus,
    pub files: Vec<String>,
    pub additions: u64,
    pub deletions: u64,
    pub created_at: u64,
}

/// One exchange of a task.
#[derive(Debug)]
pub struct Turn {
    pub id: u128,
    /// The turn's number, from one.
    pub turn_count: usize,
    pub status: TurnStatus,
    pub started_at: u64,
    pub completed_at: Option<u64>,
    /// The agent has begun the turn.
    pub provider_turn_started: bool,
    pub checkpoint: Option<Checkpoint>,
}

/// A message of a task.
#[derive(Debug)]
pub struct Message {
    pub id: u128,
    pub turn_id: Option<u128>,
    pub role: MessageRole,
    pub content: String,
    pub display_content: Option<String>,
    pub attachments: Vec<MessageAttachment>,
    pub streaming: bool,
}

impl Message {
    /// What is shown of the message.
    pub fn visible_content(&self) -> (r: &str)
        ensures
            r@ == visible_text(self.content@, opt_view(self.display_content)),
    {
        match &self.display_content {
            Some(text) => text.as_str(),
            None => self.content.as_str(),
        }
    }
}

/// How much of what a model can take in is used.
#[derive(Clone, Copy, Debug, PartialEq, Eq, Structural)]
pub struct ContextUsage {
    pub tokens: u64,
    /// How much the model can take in, where that is known.
    pub window: Option<u64>,
}

/// Something that an agent did in a turn.
#[derive(Debug)]
pub struct Activity {
    /// The thoughts, where the activity is thinking.
    pub reasoning: Option<String>,
    pub complete: bool,
}

/// What an agent did, one thing behind the other.
#[derive(Debug)]
pub struct TranscriptBlock {
    pub activities: Vec<Activity>,
}

// ---------------------------------------------------------------------------
// Projects and sessions
// ---------------------------------------------------------------------------
/// A directory that tasks work in.
#[derive(Debug)]
pub struct Project {
    pub id: u128,
    pub path: String,
    pub display_name: String,
    /// The project stands for tasks without one.
    pub projectless: bool,
}

impl Clone for Project {
    fn clone(&self) -> (r: Self)
        ensures
            r == *self,
    {
        Project {
            id: self.id,
            path: self.path.clone(),
            display_name: self.display_name.clone(),
            projectless: self.projectless,
        }
    }
}

/// Where a task works.
#[derive(Debug, PartialEq, Eq)]
pub enum SessionWorkspace {
    /// In the project's own directory.
    Local,
    /// In a worktree that the first prompt makes.
    NewWorktree { base_branch: Option<String> },
    /// In this worktree.
    Worktree { path: String, branch: String },
}

impl Clone for SessionWorkspace {
    fn clone(&self) -> (r: Self)
        ensures
            r == *self,
    {
        match self {
            SessionWorkspace::Local => SessionWorkspace::Local,
            SessionWorkspace::NewWorktree { base_branch } => SessionWorkspace::NewWorktree {
                base_branch: copy_opt_text(base_branch),
            },
            SessionWorkspace::Worktree { path, branch } => SessionWorkspace::Worktree {
                path: path.clone(),
                branch: branch.clone(),
            },
        }
    }
}

/// The directory of a worktree.
pub open spec fn worktree_path(workspace: SessionWorkspace) -> Option<Seq<char>> {
    match workspace {
        SessionWorkspace::Worktree { path, .. } => Some(path@),
        _ => None,
    }
}

impl SessionWorkspace {
    /// Tells whether the task works in the project's own directory.
    pub fn is_local(&self) -> (r: bool)
        ensures
            r == (*self is Local),
    {
        match self {
            SessionWorkspace::Local => true,
            _ => false,
        }
    }

    /// Tells whether the task works in a worktree, or will.
    pub fn is_worktree(&self) -> (r: bool)
        ensures
            r == !(*self is Local),
    {
        !self.is_local()
    }

    /// The directory of the worktree, where there is one.
    pub fn path(&self) -> (r: Option<&String>)
        ensures
            match r {
                Some(p) => worktree_path(*self) == Some(p@),
                None => worktree_path(*self) is None,
            },
    {
        match self {
            SessionWorkspace::Worktree { path, .. } => Some(path),
            _ => None,
        }
    }
}

/// A task.
#[derive(Debug)]
pub struct AgentSession {
    pub id: u128,
    pub project_id: u128,
    pub title: String,
    pub auto_title: Option<String>,
    pub provider: String,
    pub model: Option<String>,
    pub runtime_mode: RuntimeMode,
    pub interaction_mode: InteractionMode,
    pub reasoning_effort: Option<String>,
    pub service_tier: Option<ServiceTier>,
    pub context_window: Option<String>,
    pub workspace: SessionWorkspace,
    pub status: SessionStatus,
    pub created_at: u64,
    pub updated_at: u64,
    pub last_reply_at: Option<u64>,
    /// Something has been sent in the task.
    pub started: bool,
    /// The transcript has been loaded.
    pub detail_loaded: bool,
    pub messages: Vec<Message>,
    pub transcript_blocks: Vec<TranscriptBlock>,
    pub turns: Vec<Turn>,
    pub queued_messages: Vec<QueuedMessage>,
    pub context_usage: Option<ContextUsage>,
}

impl AgentSession {
    /// Tells whether something has been sent in the task.
    pub fn has_started(&self) -> (r: bool)
        ensures
            r == self.started,
    {
        self.started
    }

    /// Tells whether the task is in the middle of a turn.
    pub fn is_busy(&self) -> (r: bool)
        ensures
            r == busy(self.status),
    {
        self.status.is_busy()
    }
}

/// Where the first task with an id stands, from `i` on, or the number of tasks.
pub open spec fn session_position(sessions: Seq<AgentSession>, id: u128, i: int) -> int
    decreases sessions.len() - i,
{
    if i < 0 || i >= sessions.len() {
        sessions.len() as int
    } else if sessions[i].id == id {
        i
    } else {
        session_position(sessions, id, i + 1)
    }
}

/// Tells whether a task is in a list.
pub open spec fn lists_session(sessions: Seq<AgentSession>, id: u128) -> bool {
    exists|i: int| 0 <= i < sessions.len() && (#[trigger] sessions[i]).id == id
}

/// Finds the first task with an id.
pub fn find_session(sessions: &Vec<AgentSession>, id: u128) -> (at: usize)
    ensures
        at == session_position(sessions@, id, 0),
        at <= sessions@.len(),
        at < sessions@.len() ==> sessions@[at as int].id == id,
        at < sessions@.len() <==> lists_session(sessions@, id),
{
    let mut i: usize = 0;
    while i < sessions.len()
        invariant
            i <= sessions@.len(),
            session_position(sessions@, id, 0) == session_position(sessions@, id, i as int),
            forall|k: int| 0 <= k < i ==> (#[trigger] sessions@[k]).id != id,
        decreases sessions@.len() - i,
    {
        if sessions[i].id == id {
            return i;
        }
        i = i + 1;
    }
    i
}

/// A task that is found has the id, and none before it has.
pub proof fn session_position_finds(sessions: Seq<AgentSession>, id: u128, i: int)
    requires
        0 <= i <= sessions.len(),
    ensures
        i <= session_position(sessions, id, i) <= sessions.len(),
        session_position(sessions, id, i) < sessions.len() ==> sessions[session_position(
            sessions,
            id,
            i,
        )].id == id,
        forall|k: int|
            i <= k < session_position(sessions, id, i) ==> (#[trigger] sessions[k]).id != id,
    decreases sessions.len() - i,
{
    if i < sessions.len() && sessions[i].id != id {
        session_position_finds(sessions, id, i + 1);
    }
}

/// Where the first project with an id stands, from `i` on, or the number of projects.
pub open spec fn project_position(projects: Seq<Project>, id: u128, i: int) -> int
    decreases projects.len() - i,
{
    if i < 0 || i >= projects.len() {
        projects.len() as int
    } else if projects[i].id == id {
        i
    } else {
        project_position(projects, id, i + 1)
    }
}

/// Finds the first project with an id.
pub fn find_project(projects: &Vec<Project>, id: u128) -> (at: usize)
    ensures
        at == project_position(projects@, id, 0),
        at <= projects@.len(),
{
    let mut i: usize = 0;
    while i < projects.len()
        invariant
            i <= projects@.len(),
            project_position(projects@, id, 0) == project_position(projects@, id, i as int),
        decreases projects@.len() - i,
    {
        if projects[i].id == id {
            return i;
        }
        i = i + 1;
    }
    i
}

} // verus!
