//! The browser client: which task is shown, and what the user and the daemon do to it.
use crate::ids::{hyphenated, uuid_text};
use crate::protocol::{
    busy, InteractionMode, MessageRole, RuntimeMode, SequencedEvent, SequencedPayload, ServiceTier,
    SessionStatus,
};
use crate::text::{concat, copy_opt_text, decimal, decimal_text, opt_view, trim, trimmed};
use crate::web::reduce::{
    applied, fresh_transcript, hydrated, reduce_event, web_event, MessageView, SessionSnapshot,
    TranscriptState, TranscriptView, WebEvent, WebMessage,
};
use vstd::prelude::*;

verus! {

/// A project, as the browser knows it.
#[derive(Debug)]
pub struct WebProject {
    pub id: u128,
    pub name: String,
    pub path: String,
}

impl Clone for WebProject {
    fn clone(&self) -> (r: Self)
        ensures
            r == *self,
    {
        WebProject { id: self.id, name: self.name.clone(), path: self.path.clone() }
    }
}

/// A task, as the browser knows it.
#[derive(Debug)]
pub struct WebSession {
    pub id: u128,
    pub project_id: u128,
    pub title: String,
    pub auto_title: Option<String>,
    pub status: SessionStatus,
    pub provider: String,
    pub model: Option<String>,
    pub runtime_mode: RuntimeMode,
    pub interaction_mode: InteractionMode,
    pub reasoning_effort: Option<String>,
    pub service_tier: Option<ServiceTier>,
    pub context_window: Option<String>,
}

impl Clone for WebSession {
    fn clone(&self) -> (r: Self)
        ensures
            r == *self,
    {
        WebSession {
            id: self.id,
            project_id: self.project_id,
            title: self.title.clone(),
            auto_title: self.auto_title.clone(),
            status: self.status,
            provider: self.provider.clone(),
            model: self.model.clone(),
            runtime_mode: self.runtime_mode,
            interaction_mode: self.interaction_mode,
            reasoning_effort: self.reasoning_effort.clone(),
            service_tier: self.service_tier,
            context_window: self.context_window.clone(),
        }
    }
}

/// The browser client.
pub struct WebApp {
    /// There is a connection to the daemon.
    pub has_client: bool,
    pub connecting: bool,
    pub error: Option<String>,
    pub projects: Vec<WebProject>,
    pub sessions: Vec<WebSession>,
    pub default_cwd: String,
    pub selected_session_id: Option<u128>,
    pub selected_session: Option<WebSession>,
    pub runtime_id: Option<u128>,
    pub supports_steer: bool,
    pub transcript: TranscriptState,
}

/// The contents of the browser client.
#[verifier::ext_equal]
pub ghost struct WebAppView {
    pub has_client: bool,
    pub connecting: bool,
    pub error: Option<Seq<char>>,
    pub projects: Seq<WebProject>,
    pub sessions: Seq<WebSession>,
    pub default_cwd: Seq<char>,
    pub selected_session_id: Option<u128>,
    pub selected_session: Option<WebSession>,
    pub runtime_id: Option<u128>,
    pub supports_steer: bool,
    pub transcript: TranscriptView,
}

impl View for WebApp {
    type V = WebAppView;

    open spec fn view(&self) -> WebAppView {
        WebAppView {
            has_client: self.has_client,
            connecting: self.connecting,
            error: opt_view(self.error),
            projects: self.projects@,
            sessions: self.sessions@,
            default_cwd: self.default_cwd@,
            selected_session_id: self.selected_session_id,
            selected_session: self.selected_session,
            runtime_id: self.runtime_id,
            supports_steer: self.supports_steer,
            transcript: self.transcript@,
        }
    }
}

/// The address that the field for it starts with.
pub fn default_address() -> (r: &'static str)
    ensures
        r@ == "127.0.0.1:34123"@,
{
    "127.0.0.1:34123"
}

/// The provider of a task that is started in the browser.
pub fn default_provider() -> (r: &'static str)
    ensures
        r@ == "openai-codex"@,
{
    "openai-codex"
}

/// A client that was just opened.
pub open spec fn fresh_app() -> WebAppView {
    WebAppView {
        has_client: false,
        connecting: false,
        error: None,
        projects: Seq::empty(),
        sessions: Seq::empty(),
        default_cwd: Seq::empty(),
        selected_session_id: None,
        selected_session: None,
        runtime_id: None,
        supports_steer: false,
        transcript: fresh_transcript(),
    }
}

/// The client with an error shown.
pub open spec fn erring(a: WebAppView, error: Seq<char>) -> WebAppView {
    WebAppView { error: Some(error), ..a }
}

/// The client with no task shown.
pub open spec fn unselected(a: WebAppView) -> WebAppView {
    WebAppView {
        selected_session_id: None,
        selected_session: None,
        runtime_id: None,
        supports_steer: false,
        transcript: fresh_transcript(),
        error: None,
        ..a
    }
}

/// The first task with an id, from `i` on, or the number of tasks.
pub open spec fn session_position(sessions: Seq<WebSession>, id: u128, i: int) -> int
    decreases sessions.len() - i,
{
    if i < 0 || i >= sessions.len() {
        sessions.len() as int
    } else if sessions[i].id == id {
        i
    } else {
        session_position(sessions, id, i + 1)
    }
}

/// The task with an id, if there is one.
pub open spec fn session_of(sessions: Seq<WebSession>, id: u128) -> Option<WebSession> {
    let at = session_position(sessions, id, 0);
    if at < sessions.len() {
        Some(sessions[at])
    } else {
        None
    }
}

/// The tasks with another in the place of the one with its id.
pub open spec fn session_replaced(sessions: Seq<WebSession>, s: WebSession) -> Seq<WebSession> {
    let at = session_position(sessions, s.id, 0);
    if at < sessions.len() {
        sessions.update(at, s)
    } else {
        sessions
    }
}

/// The client after a task was chosen and before it is loaded.
pub open spec fn attaching(a: WebAppView, id: u128) -> WebAppView {
    WebAppView {
        selected_session_id: Some(id),
        selected_session: session_of(a.sessions, id),
        runtime_id: None,
        supports_steer: false,
        transcript: fresh_transcript(),
        error: None,
        ..a
    }
}

/// A task after an event.
pub open spec fn session_after(s: WebSession, event: WebEvent) -> WebSession {
    match event {
        WebEvent::AutoTitleUpdated(title) => WebSession { auto_title: title, ..s },
        WebEvent::TurnStarted => WebSession { status: SessionStatus::Working, ..s },
        WebEvent::TextDelta(_) => WebSession { status: SessionStatus::Working, ..s },
        WebEvent::ReasoningDelta(_) => WebSession { status: SessionStatus::Working, ..s },
        WebEvent::TurnFinished { .. } => WebSession { status: SessionStatus::Idle, ..s },
        WebEvent::Error(_) => WebSession { status: SessionStatus::Failed, ..s },
        WebEvent::Connected => s,
    }
}

/// The client after an event of the task that is shown.
pub open spec fn event_applied(a: WebAppView, id: u128, event: WebEvent) -> WebAppView {
    let at = session_position(a.sessions, id, 0);
    WebAppView {
        selected_session: match a.selected_session {
            Some(s) => Some(session_after(s, event)),
            None => None,
        },
        sessions: if at < a.sessions.len() {
            a.sessions.update(at, session_after(a.sessions[at], event))
        } else {
            a.sessions
        },
        transcript: applied(a.transcript, event),
        ..a
    }
}

/// The event of the transcript that a numbered event stands for, where it is of the task that is shown.
pub open spec fn relevant(a: WebAppView, e: SequencedEvent) -> Option<WebEvent> {
    if a.selected_session_id != Some(e.session_id) {
        None
    } else {
        match e.payload {
            SequencedPayload::Driver { event: Some(driver) } => web_event(driver),
            _ => None,
        }
    }
}

/// What is to be done about a prompt.
#[derive(Debug)]
pub enum PromptAction {
    Nothing,
    /// Send it to the runtime; `steer` where it is to change the turn that is running.
    Send { session_id: u128, runtime_id: u128, prompt: String, steer: bool },
    /// Start the task that is shown with it.
    StartExisting(String),
    /// Start a new task with it.
    StartNew(String),
}

/// The transcript with a message of the user at its end.
pub open spec fn asked(t: TranscriptView, prompt: Seq<char>) -> TranscriptView {
    TranscriptView {
        messages: t.messages.push(MessageView { role: MessageRole::User, content: prompt }),
        error: None,
        ..t
    }
}

/// Tells whether the client after a prompt, and what is to be done about it, are right.
pub open spec fn prompts(
    a: WebAppView,
    next: WebAppView,
    typed: Seq<char>,
    steer: bool,
    action: PromptAction,
) -> bool {
    let prompt = trimmed(typed);
    if prompt.len() == 0 {
        next == a && action is Nothing
    } else if !a.has_client {
        next == erring(a, "Connect to a WakuWaku daemon first."@) && action is Nothing
    } else {
        match (a.selected_session_id, a.runtime_id) {
            (Some(session), Some(runtime)) => {
                &&& next == (WebAppView { transcript: asked(a.transcript, prompt), ..a })
                &&& action matches PromptAction::Send { session_id, runtime_id, prompt: p, steer: s }
                    && session_id == session && runtime_id == runtime && p@ == prompt && s == steer
            },
            (Some(_), None) => if steer {
                next == erring(a, "The selected task has no running runtime."@)
                    && action is Nothing
            } else {
                next == a && if a.selected_session is Some {
                    action matches PromptAction::StartExisting(p) && p@ == prompt
                } else {
                    action matches PromptAction::StartNew(p) && p@ == prompt
                }
            },
            (None, _) => if steer {
                next == a && action is Nothing
            } else {
                next == a && (action matches PromptAction::StartNew(p) && p@ == prompt)
            },
        }
    }
}

// ---------------------------------------------------------------------------
// Starting a task
// ---------------------------------------------------------------------------
/// The project of a task that is to be started.
#[derive(Debug)]
pub enum ProjectChoice {
    /// One that is known.
    Known(WebProject),
    /// One that is made of a directory, with the given id where there is one.
    FromPath { path: String, id: Option<u128> },
}

/// The directory that a project is made of where none is known.
pub open spec fn fallback_path(a: WebAppView) -> Seq<char> {
    if a.default_cwd.len() == 0 {
        "."@
    } else {
        a.default_cwd
    }
}

/// The first project with an id, from `i` on, or the number of projects.
pub open spec fn project_position(projects: Seq<WebProject>, id: u128, i: int) -> int
    decreases projects.len() - i,
{
    if i < 0 || i >= projects.len() {
        projects.len() as int
    } else if projects[i].id == id {
        i
    } else {
        project_position(projects, id, i + 1)
    }
}

/// The options that an agent is started with.
#[derive(Debug)]
pub struct StartOptions {
    pub provider: String,
    pub cwd: String,
    pub mode: &'static str,
    pub interaction_mode: &'static str,
    pub model: Option<String>,
    pub reasoning_effort: Option<String>,
    pub service_tier: Option<ServiceTier>,
    pub context_window: Option<String>,
}

/// The name of a mode on the wire.
pub open spec fn mode_name(mode: RuntimeMode) -> Seq<char> {
    match mode {
        RuntimeMode::Ask => "ask"@,
        RuntimeMode::AutoAcceptEdits => "autoAcceptEdits"@,
        RuntimeMode::FullAccess => "fullAccess"@,
    }
}

/// The name of an interaction on the wire.
pub open spec fn interaction_name(mode: InteractionMode) -> Seq<char> {
    match mode {
        InteractionMode::Build => "build"@,
        InteractionMode::Plan => "plan"@,
    }
}

/// Tells whether options are those of a task and a project.
pub open spec fn options_of(o: StartOptions, s: WebSession, p: WebProject) -> bool {
    &&& o.provider == s.provider
    &&& o.cwd == p.path
    &&& o.mode@ == mode_name(s.runtime_mode)
    &&& o.interaction_mode@ == interaction_name(s.interaction_mode)
    &&& o.model == s.model
    &&& o.reasoning_effort == s.reasoning_effort
    &&& o.service_tier == s.service_tier
    &&& o.context_window == s.context_window
}

/// The options that an agent is started with.
pub fn start_options(session: &WebSession, project: &WebProject) -> (r: StartOptions)
    ensures
        options_of(r, *session, *project),
{
    StartOptions {
        provider: session.provider.clone(),
        cwd: project.path.clone(),
        mode: match session.runtime_mode {
            RuntimeMode::Ask => "ask",
            RuntimeMode::AutoAcceptEdits => "autoAcceptEdits",
            RuntimeMode::FullAccess => "fullAccess",
        },
        interaction_mode: match session.interaction_mode {
            InteractionMode::Build => "build",
            InteractionMode::Plan => "plan",
        },
        model: session.model.clone(),
        reasoning_effort: session.reasoning_effort.clone(),
        service_tier: session.service_tier,
        context_window: session.context_window.clone(),
    }
}

/// What is saved before a task is started, and how it is started.
#[derive(Debug)]
pub struct StartPlan {
    pub projects: Vec<WebProject>,
    pub sessions: Vec<WebSession>,
    /// The tasks that are in the middle of a turn.
    pub busy: Vec<u128>,
    pub options: StartOptions,
}

/// The tasks without those of an id.
pub open spec fn sessions_without(sessions: Seq<WebSession>, id: u128) -> Seq<WebSession> {
    sessions.filter(|s: WebSession| s.id != id)
}

/// The ids of the tasks that are in the middle of a turn.
pub open spec fn busy_ids(sessions: Seq<WebSession>) -> Seq<u128>
    decreases sessions.len(),
{
    if sessions.len() == 0 {
        Seq::empty()
    } else if busy(sessions.last().status) {
        busy_ids(sessions.drop_last()).push(sessions.last().id)
    } else {
        busy_ids(sessions.drop_last())
    }
}

/// The projects with another at their end, unless one with its id is known.
pub open spec fn projects_with(projects: Seq<WebProject>, p: WebProject) -> Seq<WebProject> {
    if project_position(projects, p.id, 0) < projects.len() {
        projects
    } else {
        projects.push(p)
    }
}

fn copy_projects(list: &Vec<WebProject>) -> (r: Vec<WebProject>)
    ensures
        r@ == list@,
{
    let mut r: Vec<WebProject> = Vec::new();
    for i in 0..list.len()
        invariant
            r@ == list@.take(i as int),
    {
        r.push(list[i].clone());
        assert(list@.take(i as int + 1) =~= list@.take(i as int).push(list@[i as int]));
    }
    assert(list@.take(list@.len() as int) =~= list@);
    r
}

fn copy_sessions(list: &Vec<WebSession>) -> (r: Vec<WebSession>)
    ensures
        r@ == list@,
{
    let mut r: Vec<WebSession> = Vec::new();
    for i in 0..list.len()
        invariant
            r@ == list@.take(i as int),
    {
        r.push(list[i].clone());
        assert(list@.take(i as int + 1) =~= list@.take(i as int).push(list@[i as int]));
    }
    assert(list@.take(list@.len() as int) =~= list@);
    r
}

fn drop_session(list: &Vec<WebSession>, id: u128) -> (r: Vec<WebSession>)
    ensures
        r@ == sessions_without(list@, id),
{
    let mut r: Vec<WebSession> = Vec::new();
    proof {
        reveal(Seq::filter);
    }
    for i in 0..list.len()
        invariant
            r@ == sessions_without(list@.take(i as int), id),
    {
        proof {
            reveal(Seq::filter);
            assert(list@.take(i as int + 1).drop_last() =~= list@.take(i as int));
        }
        if list[i].id != id {
            r.push(list[i].clone());
        }
    }
    assert(list@.take(list@.len() as int) =~= list@);
    r
}

fn collect_busy(list: &Vec<WebSession>) -> (r: Vec<u128>)
    ensures
        r@ == busy_ids(list@),
{
    let mut r: Vec<u128> = Vec::new();
    for i in 0..list.len()
        invariant
            r@ == busy_ids(list@.take(i as int)),
    {
        assert(list@.take(i as int + 1).drop_last() =~= list@.take(i as int));
        if list[i].status.is_busy() {
            r.push(list[i].id);
        }
    }
    assert(list@.take(list@.len() as int) =~= list@);
    r
}

fn find_session(sessions: &Vec<WebSession>, id: u128) -> (at: usize)
    ensures
        at == session_position(sessions@, id, 0),
        at <= sessions@.len(),
{
    let mut i: usize = 0;
    while i < sessions.len() && sessions[i].id != id
        invariant
            i <= sessions@.len(),
            session_position(sessions@, id, 0) == session_position(sessions@, id, i as int),
        decreases sessions@.len() - i,
    {
        i = i + 1;
    }
    i
}

fn find_project(projects: &Vec<WebProject>, id: u128) -> (at: usize)
    ensures
        at == project_position(projects@, id, 0),
        at <= projects@.len(),
{
    let mut i: usize = 0;
    while i < projects.len() && projects[i].id != id
        invariant
            i <= projects@.len(),
            project_position(projects@, id, 0) == project_position(projects@, id, i as int),
        decreases projects@.len() - i,
    {
        i = i + 1;
    }
    i
}

fn advance_session(session: &WebSession, event: &WebEvent) -> (r: WebSession)
    ensures
        r == session_after(*session, *event),
{
    let mut r = session.clone();
    match event {
        WebEvent::AutoTitleUpdated(title) => {
            r.auto_title = title.clone();
        },
        WebEvent::TurnStarted => {
            r.status = SessionStatus::Working;
        },
        WebEvent::TextDelta(_) => {
            r.status = SessionStatus::Working;
        },
        WebEvent::ReasoningDelta(_) => {
            r.status = SessionStatus::Working;
        },
        WebEvent::TurnFinished { .. } => {
            r.status = SessionStatus::Idle;
        },
        WebEvent::Error(_) => {
            r.status = SessionStatus::Failed;
        },
        WebEvent::Connected => {},
    }
    r
}

/// What came of loading the tasks.
pub enum TaskStateLoad {
    Loaded { projects: Vec<WebProject>, sessions: Vec<WebSession>, default_cwd: String },
    Invalid,
    Failed(String),
}

/// What came of attaching to a task.
pub enum AttachLoad {
    Runtime { runtime_id: Option<u128>, supports_steer: bool },
    Invalid,
    Failed(String),
}

/// What came of loading a task.
pub enum SessionLoad {
    Loaded { session: WebSession, snapshot: SessionSnapshot },
    Missing,
    Invalid,
    Failed(String),
}

/// What came of starting a task.
pub enum StartLoad {
    Started { supports_steer: bool },
    Invalid,
    Failed(String),
}

/// A task that was started.
pub struct StartedTask {
    pub projects: Vec<WebProject>,
    pub session: WebSession,
    /// The title that the task is shown with.
    pub title: String,
    pub runtime_id: u128,
    pub prompt: String,
}

/// The client after its task was started.
pub open spec fn task_started(a: WebAppView, t: StartedTask, supports_steer: bool) -> WebAppView {
    WebAppView {
        projects: t.projects@,
        sessions: sessions_without(a.sessions, t.session.id).push(t.session),
        selected_session_id: Some(t.session.id),
        selected_session: Some(t.session),
        runtime_id: Some(t.runtime_id),
        supports_steer,
        transcript: TranscriptView {
            connected: true,
            title: Some(t.title@),
            ..asked(a.transcript, t.prompt@)
        },
        ..a
    }
}

impl WebApp {
    /// A client that was just opened.
    pub fn new() -> (r: Self)
        ensures
            r@ == fresh_app(),
    {
        let r = WebApp {
            has_client: false,
            connecting: false,
            error: None,
            projects: Vec::new(),
            sessions: Vec::new(),
            default_cwd: String::new(),
            selected_session_id: None,
            selected_session: None,
            runtime_id: None,
            supports_steer: false,
            transcript: TranscriptState::default(),
        };
        assert(r@ =~= fresh_app());
        r
    }

    /// Starts to connect to an address, and gives the address to connect to. While there is a
    /// connection, or one is being made, nothing happens.
    pub fn connect(&mut self, address: &str) -> (r: Option<String>)
        ensures
            if old(self)@.connecting || old(self)@.has_client {
                r is None && final(self)@ == old(self)@
            } else if trimmed(address@).len() == 0 {
                r is None && final(self)@ == erring(old(self)@, "Enter a daemon address."@)
            } else {
                opt_view(r) == Some(trimmed(address@)) && final(self)@ == (WebAppView {
                    connecting: true,
                    error: None,
                    ..old(self)@
                })
            },
    {
        if self.connecting || self.has_client {
            return None;
        }
        let address = trim(address);
        if address.as_str().is_empty() {
            self.error = Some("Enter a daemon address.".to_string());
            return None;
        }
        self.connecting = true;
        self.error = None;
        Some(address)
    }

    /// Ends connecting, and tells whether the tasks are to be loaded.
    pub fn finish_connect(&mut self, result: Result<(), String>) -> (r: bool)
        ensures
            r == (result is Ok),
            final(self)@ == (match result {
                Ok(_) => WebAppView {
                    connecting: false,
                    has_client: true,
                    error: None,
                    ..old(self)@
                },
                Err(error) => WebAppView { connecting: false, error: Some(error@), ..old(self)@ },
            }),
    {
        self.connecting = false;
        match result {
            Ok(_) => {
                self.has_client = true;
                self.error = None;
                true
            },
            Err(error) => {
                self.error = Some(error);
                false
            },
        }
    }

    /// Takes the tasks in.
    pub fn load_task_state(&mut self, load: TaskStateLoad)
        ensures
            final(self)@ == (match load {
                TaskStateLoad::Loaded { projects, sessions, default_cwd } => WebAppView {
                    projects: projects@,
                    sessions: sessions@,
                    default_cwd: default_cwd@,
                    error: None,
                    ..old(self)@
                },
                TaskStateLoad::Invalid => erring(
                    old(self)@,
                    "Daemon returned invalid task state."@,
                ),
                TaskStateLoad::Failed(error) => erring(old(self)@, error@),
            }),
    {
        match load {
            TaskStateLoad::Loaded { projects, sessions, default_cwd } => {
                self.projects = projects;
                self.sessions = sessions;
                self.default_cwd = default_cwd;
                self.error = None;
            },
            TaskStateLoad::Invalid => {
                self.error = Some("Daemon returned invalid task state.".to_string());
            },
            TaskStateLoad::Failed(error) => {
                self.error = Some(error);
            },
        }
    }

    /// Shows a task, and tells whether it is to be attached to.
    pub fn attach_session(&mut self, session_id: u128) -> (r: bool)
        ensures
            r == old(self)@.has_client,
            final(self)@ == (if r {
                attaching(old(self)@, session_id)
            } else {
                old(self)@
            }),
    {
        if !self.has_client {
            return false;
        }
        self.selected_session_id = Some(session_id);
        let at: usize = find_session(&self.sessions, session_id);
        self.selected_session =
        if at < self.sessions.len() {
            Some(self.sessions[at].clone())
        } else {
            None
        };
        self.runtime_id = None;
        self.supports_steer = false;
        self.transcript = TranscriptState::default();
        self.error = None;
        assert(self@ =~= attaching(old(self)@, session_id));
        true
    }

    /// Takes the runtime of the task in, and tells whether the task is to be loaded.
    pub fn finish_attach(&mut self, load: AttachLoad) -> (r: bool)
        ensures
            r == (load is Runtime),
            final(self)@ == (match load {
                AttachLoad::Runtime { runtime_id, supports_steer } => WebAppView {
                    runtime_id,
                    supports_steer,
                    ..old(self)@
                },
                AttachLoad::Invalid => erring(
                    old(self)@,
                    "Daemon returned invalid runtime attachment."@,
                ),
                AttachLoad::Failed(error) => erring(old(self)@, error@),
            }),
    {
        match load {
            AttachLoad::Runtime { runtime_id, supports_steer } => {
                self.runtime_id = runtime_id;
                self.supports_steer = supports_steer;
                true
            },
            AttachLoad::Invalid => {
                self.error = Some("Daemon returned invalid runtime attachment.".to_string());
                false
            },
            AttachLoad::Failed(error) => {
                self.error = Some(error);
                false
            },
        }
    }

    /// Takes the task in.
    pub fn finish_hydrate(&mut self, load: SessionLoad)
        ensures
            final(self)@ == (match load {
                SessionLoad::Loaded { session, snapshot } => WebAppView {
                    selected_session: Some(session),
                    sessions: session_replaced(old(self)@.sessions, session),
                    transcript: hydrated(snapshot),
                    error: None,
                    ..old(self)@
                },
                SessionLoad::Missing => erring(
                    old(self)@,
                    "The selected session no longer exists."@,
                ),
                SessionLoad::Invalid => erring(
                    old(self)@,
                    "Daemon returned invalid session data."@,
                ),
                SessionLoad::Failed(error) => erring(old(self)@, error@),
            }),
    {
        match load {
            SessionLoad::Loaded { session, snapshot } => {
                let at: usize = find_session(&self.sessions, session.id);
                if at < self.sessions.len() {
                    self.sessions[at] = session.clone();
                    assert(self.sessions@ =~= session_replaced(old(self)@.sessions, session));
                }
                self.selected_session = Some(session);
                self.transcript.hydrate(&snapshot);
                self.error = None;
            },
            SessionLoad::Missing => {
                self.error = Some("The selected session no longer exists.".to_string());
            },
            SessionLoad::Invalid => {
                self.error = Some("Daemon returned invalid session data.".to_string());
            },
            SessionLoad::Failed(error) => {
                self.error = Some(error);
            },
        }
    }

    /// Follows an event, and tells whether it changed anything. An event of another task does not.
    pub fn apply_event(&mut self, event: &SequencedEvent) -> (r: bool)
        ensures
            match relevant(old(self)@, *event) {
                Some(reduced) => r && final(self)@ == event_applied(
                    old(self)@,
                    event.session_id,
                    reduced,
                ),
                None => !r && final(self)@ == old(self)@,
            },
    {
        let shown: u128 = match self.selected_session_id {
            Some(id) => id,
            None => return false,
        };
        if shown != event.session_id {
            return false;
        }
        let reduced = match reduce_event(event) {
            Some(reduced) => reduced,
            None => return false,
        };
        let ghost what = reduced;
        let next: Option<WebSession> = match &self.selected_session {
            Some(session) => Some(advance_session(session, &reduced)),
            None => None,
        };
        self.selected_session = next;
        let at: usize = find_session(&self.sessions, shown);
        if at < self.sessions.len() {
            let row = advance_session(&self.sessions[at], &reduced);
            self.sessions[at] = row;
        }
        self.transcript.apply(reduced);
        assert(self@ =~= event_applied(old(self)@, event.session_id, what));
        true
    }

    /// Answers a prompt of the user.
    pub fn submit_prompt(&mut self, prompt: &str, steer: bool) -> (r: PromptAction)
        ensures
            prompts(old(self)@, final(self)@, prompt@, steer, r),
    {
        let prompt = trim(prompt);
        if prompt.as_str().is_empty() {
            return PromptAction::Nothing;
        }
        if !self.has_client {
            self.error = Some("Connect to a WakuWaku daemon first.".to_string());
            return PromptAction::Nothing;
        }
        match (self.selected_session_id, self.runtime_id) {
            (Some(session_id), Some(runtime_id)) => {
                self.transcript.messages.push(WebMessage::new(MessageRole::User, prompt.clone()));
                self.transcript.error = None;
                assert(self@.transcript =~= asked(old(self)@.transcript, prompt@));
                assert(self@ =~= (WebAppView {
                    transcript: asked(old(self)@.transcript, prompt@),
                    ..old(self)@
                }));
                PromptAction::Send { session_id, runtime_id, prompt, steer }
            },
            (Some(_), None) => if steer {
                self.error = Some("The selected task has no running runtime.".to_string());
                PromptAction::Nothing
            } else if self.selected_session.is_some() {
                PromptAction::StartExisting(prompt)
            } else {
                PromptAction::StartNew(prompt)
            },
            (None, _) => if steer {
                PromptAction::Nothing
            } else {
                PromptAction::StartNew(prompt)
            },
        }
    }

    /// Answers a prompt that is to change the turn that is running. Where the runtime cannot be steered,
    /// nothing happens.
    pub fn submit_steer(&mut self, prompt: &str) -> (r: PromptAction)
        ensures
            if old(self)@.supports_steer {
                prompts(old(self)@, final(self)@, prompt@, true, r)
            } else {
                final(self)@ == old(self)@ && r is Nothing
            },
    {
        if self.supports_steer {
            self.submit_prompt(prompt, true)
        } else {
            PromptAction::Nothing
        }
    }

    /// Shows that a prompt could not be sent.
    pub fn prompt_failed(&mut self, message: String)
        ensures
            final(self)@ == (WebAppView {
                error: Some(message@),
                transcript: TranscriptView {
                    error: Some(message@),
                    ..old(self)@.transcript
                },
                ..old(self)@
            }),
    {
        self.error = Some(message.clone());
        self.transcript.error = Some(message);
    }

    /// The project of a new task: the first that is known, or one made of the default directory.
    pub fn new_task_project(&self) -> (r: ProjectChoice)
        ensures
            if self@.projects.len() > 0 {
                r matches ProjectChoice::Known(p) && p == self@.projects[0]
            } else {
                r matches ProjectChoice::FromPath { path, id } && path@ == fallback_path(self@)
                    && id is None
            },
    {
        if self.projects.len() > 0 {
            ProjectChoice::Known(self.projects[0].clone())
        } else {
            ProjectChoice::FromPath { path: self.project_path(), id: None }
        }
    }

    fn project_path(&self) -> (r: String)
        ensures
            r@ == fallback_path(self@),
    {
        if self.default_cwd.as_str().is_empty() {
            ".".to_string()
        } else {
            self.default_cwd.clone()
        }
    }

    /// The project of a task: the one that it names, or one made of the default directory with the id
    /// that the task names.
    pub fn project_for_session(&self, session: &WebSession) -> (r: ProjectChoice)
        ensures
            ({
                let at = project_position(self@.projects, session.project_id, 0);
                if at < self@.projects.len() {
                    r matches ProjectChoice::Known(p) && p == self@.projects[at]
                } else {
                    r matches ProjectChoice::FromPath { path, id } && path@ == fallback_path(
                        self@,
                    ) && id == Some(session.project_id)
                }
            }),
    {
        let at: usize = find_project(&self.projects, session.project_id);
        if at < self.projects.len() {
            ProjectChoice::Known(self.projects[at].clone())
        } else {
            ProjectChoice::FromPath { path: self.project_path(), id: Some(session.project_id) }
        }
    }

    /// How a new task is saved and started: it and its project join those that are known.
    pub fn start_new_task(&self, project: &WebProject, session: &WebSession) -> (r: StartPlan)
        ensures
            r.projects@ == projects_with(self@.projects, *project),
            r.sessions@ == sessions_without(self@.sessions, session.id).push(*session),
            r.busy@ == busy_ids(r.sessions@),
            options_of(r.options, *session, *project),
    {
        let mut projects = copy_projects(&self.projects);
        if find_project(&self.projects, project.id) >= self.projects.len() {
            projects.push(project.clone());
        }
        let mut sessions = drop_session(&self.sessions, session.id);
        sessions.push(session.clone());
        let busy = collect_busy(&sessions);
        StartPlan { projects, sessions, busy, options: start_options(session, project) }
    }

    /// How a task that is known is saved and started.
    pub fn start_existing_task(&self, project: &WebProject, session: &WebSession) -> (r: StartPlan)
        ensures
            r.projects@ == self@.projects,
            r.sessions@ == self@.sessions,
            r.busy@ == busy_ids(self@.sessions),
            options_of(r.options, *session, *project),
    {
        let sessions = copy_sessions(&self.sessions);
        let busy = collect_busy(&sessions);
        StartPlan {
            projects: copy_projects(&self.projects),
            sessions,
            busy,
            options: start_options(session, project),
        }
    }

    /// Takes the start of a task in, and tells whether its prompt is to be sent and its events are to be
    /// followed.
    pub fn finish_start(&mut self, task: StartedTask, load: StartLoad) -> (r: bool)
        ensures
            r == (load is Started),
            final(self)@ == (match load {
                StartLoad::Started { supports_steer } => task_started(
                    old(self)@,
                    task,
                    supports_steer,
                ),
                StartLoad::Invalid => erring(
                    old(self)@,
                    "Daemon returned invalid start response."@,
                ),
                StartLoad::Failed(error) => erring(old(self)@, error@),
            }),
    {
        match load {
            StartLoad::Started { supports_steer } => {
                let ghost t = task;
                self.projects = task.projects;
                let mut sessions = drop_session(&self.sessions, task.session.id);
                sessions.push(task.session.clone());
                self.sessions = sessions;
                self.selected_session_id = Some(task.session.id);
                self.selected_session = Some(task.session);
                self.runtime_id = Some(task.runtime_id);
                self.supports_steer = supports_steer;
                self.transcript.connected = true;
                self.transcript.title = Some(task.title);
                self.transcript.messages.push(WebMessage::new(MessageRole::User, task.prompt));
                self.transcript.error = None;
                assert(self@.transcript =~= task_started(old(self)@, t, supports_steer).transcript);
                assert(self@ =~= task_started(old(self)@, t, supports_steer));
                true
            },
            StartLoad::Invalid => {
                self.error = Some("Daemon returned invalid start response.".to_string());
                false
            },
            StartLoad::Failed(error) => {
                self.error = Some(error);
                false
            },
        }
    }

    /// Shows no task, so that a new one can be started.
    pub fn new_task(&mut self)
        ensures
            final(self)@ == unselected(old(self)@),
    {
        self.selected_session_id = None;
        self.selected_session = None;
        self.runtime_id = None;
        self.supports_steer = false;
        self.transcript = TranscriptState::default();
        self.error = None;
    }
}

// ---------------------------------------------------------------------------
// What is shown
// ---------------------------------------------------------------------------
/// The page that connects to a daemon.
#[derive(Debug)]
pub struct ConnectPage {
    /// What the button says.
    pub label: &'static str,
    pub error: Option<String>,
}

/// The page for the tasks.
#[derive(Debug)]
pub struct WorkspacePage {
    pub title: String,
    pub tasks: Vec<SessionRow>,
    pub transcript: Vec<TranscriptRow>,
    pub error: Option<String>,
}

/// A row of the transcript.
#[derive(Debug)]
pub struct TranscriptRow {
    pub element_id: String,
    pub label: &'static str,
    pub text: String,
    /// The text is still being written.
    pub streaming: bool,
}

/// The contents of a row of the transcript.
pub ghost struct TranscriptRowView {
    pub element_id: Seq<char>,
    pub label: Seq<char>,
    pub text: Seq<char>,
    pub streaming: bool,
}

impl View for TranscriptRow {
    type V = TranscriptRowView;

    open spec fn view(&self) -> TranscriptRowView {
        TranscriptRowView {
            element_id: self.element_id@,
            label: self.label@,
            text: self.text@,
            streaming: self.streaming,
        }
    }
}

/// Who a message is from, in words.
pub open spec fn role_label(role: MessageRole) -> Seq<char> {
    match role {
        MessageRole::User => "You"@,
        MessageRole::Assistant => "Assistant"@,
        MessageRole::System => "System"@,
    }
}

/// The row of the `i`-th message: an answer is still being written while a turn is in progress.
pub open spec fn message_row(t: TranscriptView, i: int) -> TranscriptRowView {
    TranscriptRowView {
        element_id: "web-message-"@ + decimal(i as nat),
        label: role_label(t.messages[i].role),
        text: t.messages[i].content,
        streaming: t.turn_in_progress && t.messages[i].role == MessageRole::Assistant,
    }
}

/// The rows of a transcript: its messages, and its reasoning where there is any.
pub open spec fn render_transcript(t: TranscriptView) -> Seq<TranscriptRowView> {
    Seq::new(t.messages.len(), |i: int| message_row(t, i)) + (if t.reasoning.len() > 0 {
        seq![
            TranscriptRowView {
                element_id: "web-reasoning"@,
                label: "Reasoning"@,
                text: t.reasoning,
                streaming: t.turn_in_progress,
            },
        ]
    } else {
        Seq::empty()
    })
}

/// The contents of the rows of a transcript.
pub open spec fn transcript_row_views(rows: Seq<TranscriptRow>) -> Seq<TranscriptRowView> {
    Seq::new(rows.len(), |i: int| rows[i]@)
}

/// A task in the list of tasks.
#[derive(Debug)]
pub struct SessionRow {
    pub element_id: String,
    pub session_id: u128,
    pub active: bool,
}

/// Tells whether rows show the tasks, the selected one marked.
pub open spec fn shows_tasks(rows: Seq<SessionRow>, a: WebAppView) -> bool {
    &&& rows.len() == a.sessions.len()
    &&& forall|i: int|
        0 <= i < rows.len() ==> {
            &&& (#[trigger] rows[i]).element_id@ == "session-"@ + hyphenated(a.sessions[i].id)
            &&& rows[i].session_id == a.sessions[i].id
            &&& rows[i].active == (a.selected_session_id == Some(a.sessions[i].id))
        }
}

/// The title of the task that is shown, given the title that it has in the list.
pub open spec fn shown_title(a: WebAppView, listed: Option<Seq<char>>) -> Seq<char> {
    match (a.transcript.title, a.selected_session, listed) {
        (Some(title), _, _) => title,
        (None, Some(_), Some(title)) => title,
        _ => "New task"@,
    }
}

impl WebApp {
    /// The rows of the transcript. Where there are none, the user is asked to select a task or to start
    /// one.
    pub fn render_transcript(&self) -> (rows: Vec<TranscriptRow>)
        ensures
            transcript_row_views(rows@) == render_transcript(self@.transcript),
    {
        let mut rows: Vec<TranscriptRow> = Vec::new();
        for i in 0..self.transcript.messages.len()
            invariant
                rows@.len() == i,
                forall|k: int|
                    0 <= k < i ==> (#[trigger] rows@[k])@ == message_row(self@.transcript, k),
        {
            let message = &self.transcript.messages[i];
            assert(self@.transcript.messages[i as int] == message@);
            let row = TranscriptRow {
                element_id: concat("web-message-", decimal_text(i as u64).as_str()),
                label: match message.role {
                    MessageRole::User => "You",
                    MessageRole::Assistant => "Assistant",
                    MessageRole::System => "System",
                },
                text: message.content.clone(),
                streaming: self.transcript.turn_in_progress && message.role
                    == MessageRole::Assistant,
            };
            rows.push(row);
        }
        if !self.transcript.reasoning.as_str().is_empty() {
            rows.push(
                TranscriptRow {
                    element_id: "web-reasoning".to_string(),
                    label: "Reasoning",
                    text: self.transcript.reasoning.clone(),
                    streaming: self.transcript.turn_in_progress,
                },
            );
        }
        assert(transcript_row_views(rows@) =~= render_transcript(self@.transcript));
        rows
    }

    /// The page that connects to a daemon.
    pub fn render_connect(&self) -> (r: ConnectPage)
        ensures
            r.label@ == (if self@.connecting {
                "Connecting…"@
            } else {
                "Connect"@
            }),
            opt_view(r.error) == self@.error,
    {
        ConnectPage {
            label: if self.connecting {
                "Connecting…"
            } else {
                "Connect"
            },
            error: copy_opt_text(&self.error),
        }
    }

    /// The page for the tasks. `listed_title` is the title that the shown task has in the list.
    pub fn render_workspace(&self, listed_title: Option<String>) -> (r: WorkspacePage)
        ensures
            r.title@ == shown_title(self@, opt_view(listed_title)),
            shows_tasks(r.tasks@, self@),
            transcript_row_views(r.transcript@) == render_transcript(self@.transcript),
            opt_view(r.error) == self@.error,
    {
        WorkspacePage {
            title: self.workspace_title(listed_title),
            tasks: self.session_rows(),
            transcript: self.render_transcript(),
            error: copy_opt_text(&self.error),
        }
    }

    /// The title of the task that is shown, given the title that it would have in the list.
    pub fn workspace_title(&self, listed_title: Option<String>) -> (r: String)
        ensures
            r@ == shown_title(self@, opt_view(listed_title)),
    {
        match &self.transcript.title {
            Some(title) => title.clone(),
            None => match (&self.selected_session, listed_title) {
                (Some(_), Some(title)) => title,
                _ => "New task".to_string(),
            },
        }
    }

    /// The rows of the list of tasks.
    pub fn session_rows(&self) -> (rows: Vec<SessionRow>)
        ensures
            shows_tasks(rows@, self@),
    {
        let mut rows: Vec<SessionRow> = Vec::new();
        for i in 0..self.sessions.len()
            invariant
                rows@.len() == i,
                forall|k: int|
                    0 <= k < i ==> {
                        &&& (#[trigger] rows@[k]).element_id@ == "session-"@ + hyphenated(
                            self@.sessions[k].id,
                        )
                        &&& rows@[k].session_id == self@.sessions[k].id
                        &&& rows@[k].active == (self@.selected_session_id == Some(
                            self@.sessions[k].id,
                        ))
                    },
        {
            let id: u128 = self.sessions[i].id;
            let active = match self.selected_session_id {
                Some(selected) => selected == id,
                None => false,
            };
            rows.push(
                SessionRow {
                    element_id: concat("session-", uuid_text(id).as_str()),
                    session_id: id,
                    active,
                },
            );
        }
        rows
    }
}

// ---------------------------------------------------------------------------
// Laws
// ---------------------------------------------------------------------------
/// An event of a task that is not shown changes nothing.
pub proof fn events_of_other_tasks_change_nothing(a: WebAppView, e: SequencedEvent)
    requires
        a.selected_session_id != Some(e.session_id),
    ensures
        relevant(a, e) is None,
{
}

/// The task that is shown and its row in the list have the same status after an event that speaks of
/// the status.
pub proof fn shown_task_and_its_row_agree(a: WebAppView, id: u128, event: WebEvent)
    requires
        a.selected_session is Some,
        session_position(a.sessions, id, 0) < a.sessions.len(),
        !(event is Connected) && !(event is AutoTitleUpdated),
    ensures
        event_applied(a, id, event).selected_session->0.status == event_applied(
            a,
            id,
            event,
        ).sessions[session_position(a.sessions, id, 0)].status,
{
    position_in_range(a.sessions, id, 0);
}

proof fn position_in_range(sessions: Seq<WebSession>, id: u128, i: int)
    requires
        0 <= i <= sessions.len(),
    ensures
        i <= session_position(sessions, id, i) <= sessions.len(),
    decreases sessions.len() - i,
{
    if i < sessions.len() && sessions[i].id != id {
        position_in_range(sessions, id, i + 1);
    }
}

/// A prompt of nothing but white space changes nothing and calls for nothing.
pub proof fn blank_prompts_are_ignored(
    a: WebAppView,
    next: WebAppView,
    typed: Seq<char>,
    steer: bool,
    action: PromptAction,
)
    requires
        prompts(a, next, typed, steer, action),
        trimmed(typed).len() == 0,
    ensures
        next == a,
        action is Nothing,
{
}

/// A task that was started is shown, with its prompt as the last message, and stands once in the list.
pub proof fn started_task_is_shown(a: WebAppView, t: StartedTask, supports_steer: bool)
    ensures
        task_started(a, t, supports_steer).selected_session_id == Some(t.session.id),
        task_started(a, t, supports_steer).transcript.messages.last().content == t.prompt@,
        task_started(a, t, supports_steer).transcript.messages.last().role == MessageRole::User,
        task_started(a, t, supports_steer).sessions.last() == t.session,
        forall|i: int|
            0 <= i < task_started(a, t, supports_steer).sessions.len() - 1 ==> (
            #[trigger] task_started(a, t, supports_steer).sessions[i]).id != t.session.id,
{
    let kept = sessions_without(a.sessions, t.session.id);
    let all = task_started(a, t, supports_steer).sessions;
    assert forall|i: int| 0 <= i < all.len() - 1 implies (#[trigger] all[i]).id != t.session.id by {
        assert(all[i] == kept[i]);
        a.sessions.lemma_filter_pred(|s: WebSession| s.id != t.session.id, i);
    }
}

} // verus!
