//! What the browser promises: which task is shown, what becomes of a prompt and of an event, and what the page
//! says.
use crate::protocol::{
    DriverEvent, MessageRole, SequencedEvent, SequencedPayload, SessionStatus,
};
use crate::text::{opt_view, trimmed};
use crate::web::app::{
    busy_ids, project_position, session_position, start_options, transcript_row_views, AttachLoad,
    ConnectPage, ProjectChoice, WorkspacePage,
    PromptAction, SessionLoad, SessionRow, StartLoad, StartOptions, StartPlan, StartedTask,
    TaskStateLoad, TranscriptRow, WebApp, WebProject, WebSession,
};
use crate::web::reduce::message_views;
use vstd::prelude::*;

verus! {

/// Tells whether a task is the first of a list with its id.
pub open spec fn is_first(sessions: Seq<WebSession>, i: int) -> bool {
    &&& 0 <= i < sessions.len()
    &&& forall|k: int| 0 <= k < i ==> (#[trigger] sessions[k]).id != sessions[i].id
}

proof fn first_is_found(sessions: Seq<WebSession>, i: int, from: int)
    requires
        is_first(sessions, i),
        0 <= from <= i,
    ensures
        session_position(sessions, sessions[i].id, from) == i,
    decreases i - from,
{
    if from < i {
        assert(sessions[from].id != sessions[i].id);
        first_is_found(sessions, i, from + 1);
    }
}

/// A connection is asked for once at a time, at the address without white space around it; none without one.
pub proof fn connecting_asks_for_an_address(app: &mut WebApp, address: &str, r: Option<String>)
    requires
        call_ensures(WebApp::connect, (app, address), r),
    ensures
        r is Some <==> !old(app).connecting && !old(app).has_client && trimmed(address@).len() > 0,
        r is Some ==> (r->0)@ == trimmed(address@) && final(app).connecting && final(app).error is None,
        old(app).connecting || old(app).has_client ==> final(app)@ == old(app)@,
        !old(app).connecting && !old(app).has_client && trimmed(address@).len() == 0 ==> final(app).error is Some && !final(app).connecting,
        final(app).sessions@ == old(app).sessions@,
{
    assert(opt_view(r) is Some <==> r is Some);
    assert(final(app)@.connecting == final(app).connecting);
    assert(final(app)@.error is None <==> final(app).error is None);
    assert(old(app)@.connecting == old(app).connecting);
    assert(final(app)@.sessions == final(app).sessions@);
}

/// A connection that was made is there, and one that failed is told of; either way it is no longer being made.
pub proof fn connecting_ends(app: &mut WebApp, result: Result<(), String>, r: bool)
    requires
        call_ensures(WebApp::finish_connect, (app, result), r),
    ensures
        r <==> result is Ok,
        !final(app).connecting,
        result is Ok ==> final(app).has_client && final(app).error is None,
        result is Err ==> final(app).error is Some && (final(app).error->0)@ == (result->Err_0)@
            && final(app).has_client == old(app).has_client,
{
    assert(final(app)@.connecting == final(app).connecting);
    assert(final(app)@.has_client == final(app).has_client);
    assert(final(app)@.error == opt_view(final(app).error));
    assert(old(app)@.has_client == old(app).has_client);
}

/// The tasks and projects are those that the daemon gave; what could not be loaded leaves them and is told.
pub proof fn the_daemons_tasks_are_shown(app: &mut WebApp, load: TaskStateLoad)
    requires
        call_ensures(WebApp::load_task_state, (app, load), ()),
    ensures
        load matches TaskStateLoad::Loaded { projects, sessions, default_cwd } ==> final(app).sessions@ == sessions@ && final(app).projects@ == projects@ && final(app).default_cwd@ == default_cwd@ && final(app).error is None,
        !(load is Loaded) ==> final(app).sessions@ == old(app).sessions@ && final(app).projects@
            == old(app).projects@ && final(app).error is Some,
        load matches TaskStateLoad::Failed(error) ==> (final(app).error->0)@ == error@,
        final(app).selected_session_id == old(app).selected_session_id,
{
    assert(final(app)@.sessions == final(app).sessions@);
    assert(final(app)@.projects == final(app).projects@);
    assert(final(app)@.error == opt_view(final(app).error));
    assert(final(app)@.default_cwd == final(app).default_cwd@);
    assert(old(app)@.sessions == old(app).sessions@ && old(app)@.projects == old(app).projects@);
    assert(final(app)@.selected_session_id == final(app).selected_session_id);
}

/// A task that is chosen is shown, with nothing of the one before: its transcript is empty until it is loaded.
pub proof fn a_chosen_task_is_shown(app: &mut WebApp, i: int, r: bool)
    requires
        is_first(old(app).sessions@, i),
        call_ensures(WebApp::attach_session, (app, old(app).sessions@[i].id), r),
    ensures
        r <==> old(app).has_client,
        !r ==> final(app)@ == old(app)@,
        r ==> final(app).selected_session_id == Some(old(app).sessions@[i].id) && final(app).selected_session == Some(old(app).sessions@[i]) && final(app).runtime_id is None && final(app).transcript.messages@.len() == 0 && final(app).transcript.reasoning@.len() == 0 && final(app).error is None,
        final(app).sessions@ == old(app).sessions@,
{
    first_is_found(old(app).sessions@, i, 0);
    assert(old(app)@.sessions == old(app).sessions@ && final(app)@.sessions == final(app).sessions@);
    assert(final(app)@.selected_session == final(app).selected_session);
    assert(final(app)@.selected_session_id == final(app).selected_session_id);
    assert(final(app)@.transcript == final(app).transcript@);
    assert(final(app)@.error == opt_view(final(app).error));
    assert(message_views(final(app).transcript.messages@).len() == final(app).transcript.messages@.len());
}

/// A task that was loaded shows its conversation, message by message, and its row in the list is the one that was
/// loaded; the other rows stay.
pub proof fn a_loaded_task_shows_its_conversation(
    app: &mut WebApp,
    load: SessionLoad,
    i: int,
)
    requires
        call_ensures(WebApp::finish_hydrate, (app, load), ()),
        load is Loaded,
        is_first(old(app).sessions@, i),
        old(app).sessions@[i].id == (load->session).id,
    ensures
        final(app).selected_session == Some(load->session),
        final(app).sessions@.len() == old(app).sessions@.len(),
        final(app).sessions@[i] == load->session,
        forall|k: int|
            0 <= k < old(app).sessions@.len() && k != i ==> #[trigger] final(app).sessions@[k]
                == old(app).sessions@[k],
        final(app).transcript.messages@.len() == (load->snapshot).messages@.len(),
        forall|k: int|
            0 <= k < (load->snapshot).messages@.len() ==> (#[trigger] final(app).transcript.messages@[k]).role == (load->snapshot).messages@[k].role && final(app).transcript.messages@[k].content@ == (load->snapshot).messages@[k].content@,
        final(app).error is None,
{
    first_is_found(old(app).sessions@, i, 0);
    assert(old(app)@.sessions == old(app).sessions@ && final(app)@.sessions == final(app).sessions@);
    assert(final(app)@.selected_session == final(app).selected_session);
    assert(final(app)@.error == opt_view(final(app).error));
    let shown = message_views(final(app).transcript.messages@);
    let given = message_views((load->snapshot).messages@);
    assert(final(app)@.transcript == final(app).transcript@);
    assert(shown == given);
    assert(shown.len() == final(app).transcript.messages@.len());
    assert(given.len() == (load->snapshot).messages@.len());
    assert forall|k: int| 0 <= k < (load->snapshot).messages@.len() implies (#[trigger] final(app).transcript.messages@[k]).role == (load->snapshot).messages@[k].role && final(app).transcript.messages@[k].content@ == (load->snapshot).messages@[k].content@ by {
        assert(shown[k] == final(app).transcript.messages@[k]@);
        assert(given[k] == (load->snapshot).messages@[k]@);
    }
}

/// What could not be loaded leaves the tasks and the transcript as they are, and is told.
pub proof fn what_is_not_loaded_is_told(
    app: &mut WebApp,
    load: SessionLoad,
    other: &mut WebApp,
    attach: AttachLoad,
    r: bool,
)
    requires
        call_ensures(WebApp::finish_hydrate, (app, load), ()),
        !(load is Loaded),
        call_ensures(WebApp::finish_attach, (other, attach), r),
    ensures
        final(app).error is Some,
        final(app)@.transcript == old(app)@.transcript,
        final(app)@.sessions == old(app)@.sessions,
        r <==> attach is Runtime,
        attach matches AttachLoad::Runtime { runtime_id, supports_steer } ==> final(other).runtime_id == runtime_id && final(other).supports_steer == supports_steer,
        !r ==> final(other).error is Some && final(other).runtime_id == old(other).runtime_id,
        final(other)@.transcript == old(other)@.transcript,
{
    assert(final(app)@.error == opt_view(final(app).error));
    assert(final(other)@.error == opt_view(final(other).error));
    assert(final(other)@.runtime_id == final(other).runtime_id);
    assert(old(other)@.runtime_id == old(other).runtime_id);
    assert(final(other)@.supports_steer == final(other).supports_steer);
}

/// Events of another task than the one shown, and events of trajectories, change nothing.
pub proof fn only_events_of_the_shown_task_count(app: &mut WebApp, event: &SequencedEvent, r: bool)
    requires
        call_ensures(WebApp::apply_event, (app, event), r),
        old(app).selected_session_id != Some(event.session_id) || event.payload is Trajectory,
    ensures
        !r,
        final(app)@ == old(app)@,
{
    assert(old(app)@.selected_session_id == old(app).selected_session_id);
}

/// Text of the task that is shown comes to the end of its last answer, and its row says that it is at work; a turn
/// that finished makes the row idle, and an error makes it failed. The other rows stay.
pub proof fn the_row_follows_the_events(
    app: &mut WebApp,
    event: &SequencedEvent,
    driver: DriverEvent,
    i: int,
    r: bool,
)
    requires
        is_first(old(app).sessions@, i),
        old(app).selected_session_id == Some(old(app).sessions@[i].id),
        event.session_id == old(app).sessions@[i].id,
        event.payload == (SequencedPayload::Driver { event: Some(driver) }),
        call_ensures(WebApp::apply_event, (app, event), r),
    ensures
        final(app).sessions@.len() == old(app).sessions@.len(),
        forall|k: int|
            0 <= k < old(app).sessions@.len() && k != i ==> #[trigger] final(app).sessions@[k]
                == old(app).sessions@[k],
        driver is TextDelta || driver is ReasoningDelta || driver is TurnStarted ==> r && final(app).sessions@[i].status == SessionStatus::Working,
        driver is TurnFinished ==> r && final(app).sessions@[i].status == SessionStatus::Idle
            && !final(app).transcript.turn_in_progress,
        driver is Error ==> r && final(app).sessions@[i].status == SessionStatus::Failed,
        driver matches DriverEvent::AutoTitleUpdated(title) ==> r && final(app).sessions@[i].auto_title == title && final(app).sessions@[i].status == old(
            app,
        ).sessions@[i].status,
        driver matches DriverEvent::TextDelta(text) ==> final(app).transcript.messages@.len() > 0 && final(app).transcript.messages@.last().role
            == MessageRole::Assistant && ({
            let n = old(app).transcript.messages@.len() as int;
            let last = final(app).transcript.messages@.last().content@;
            if n > 0 && old(app).transcript.messages@[n - 1].role == MessageRole::Assistant {
                last == old(app).transcript.messages@[n - 1].content@ + text@
            } else {
                last == text@
            }
        }),
        final(app).sessions@[i].id == old(app).sessions@[i].id,
        final(app).sessions@[i].title == old(app).sessions@[i].title,
{
    first_is_found(old(app).sessions@, i, 0);
    assert(old(app)@.sessions == old(app).sessions@ && final(app)@.sessions == final(app).sessions@);
    assert(old(app)@.selected_session_id == old(app).selected_session_id);
    assert(final(app)@.transcript == final(app).transcript@);
    assert(old(app)@.transcript == old(app).transcript@);
    assert(final(app)@.transcript.turn_in_progress == final(app).transcript.turn_in_progress);
    if let DriverEvent::TextDelta(text) = driver {
        let before = message_views(old(app).transcript.messages@);
        let after = message_views(final(app).transcript.messages@);
        let n = old(app).transcript.messages@.len() as int;
        assert(before.len() == n);
        assert(after.len() == final(app).transcript.messages@.len());
        assert(after == final(app)@.transcript.messages);
        assert(before == old(app)@.transcript.messages);
        if n > 0 {
            assert(before[n - 1] == old(app).transcript.messages@[n - 1]@);
        }
        assert(after.last() == final(app).transcript.messages@.last()@);
        assert(Seq::<char>::empty() + text@ =~= text@);
    }
}

/// A prompt with text goes to the agent of the task that is shown, and stands at the end of the transcript; without
/// an agent the task is started, and without a task a new one is. A blank one goes nowhere.
pub proof fn a_prompt_goes_to_the_shown_task(
    app: &mut WebApp,
    prompt: &str,
    steer: bool,
    r: PromptAction,
)
    requires
        call_ensures(WebApp::submit_prompt, (app, prompt, steer), r),
    ensures
        ({
            let text = trimmed(prompt@);
            let sends = text.len() > 0 && old(app).has_client;
            let before = old(app).transcript.messages@;
            let after = final(app).transcript.messages@;
            &&& text.len() == 0 ==> r is Nothing && final(app)@ == old(app)@
            &&& text.len() > 0 && !old(app).has_client ==> r is Nothing && final(app).error is Some
            &&& sends && old(app).selected_session_id is Some && old(app).runtime_id is Some ==> {
                &&& r is Send
                &&& r->session_id == old(app).selected_session_id->0
                &&& r->runtime_id == old(app).runtime_id->0
                &&& (r->prompt)@ == text
                &&& r->steer == steer
                &&& after.len() == before.len() + 1
                &&& after.last().role == MessageRole::User
                &&& after.last().content@ == text
                &&& forall|k: int|
                    0 <= k < before.len() ==> (#[trigger] after[k]).role == before[k].role
                        && after[k].content@ == before[k].content@
            }
            &&& sends && !steer && old(app).selected_session_id is None ==> r is StartNew && (
            r->StartNew_0)@ == text && final(app)@ == old(app)@
            &&& sends && !steer && old(app).selected_session_id is Some && old(
                app,
            ).runtime_id is None && old(app).selected_session is Some ==> r is StartExisting && (
            r->StartExisting_0)@ == text && final(app)@ == old(app)@
            &&& sends && steer && old(app).selected_session_id is Some && old(
                app,
            ).runtime_id is None ==> r is Nothing && final(app).error is Some
        }),
{
    let before = message_views(old(app).transcript.messages@);
    let after = message_views(final(app).transcript.messages@);
    assert(old(app)@.transcript == old(app).transcript@);
    assert(final(app)@.transcript == final(app).transcript@);
    assert(final(app)@.error == opt_view(final(app).error));
    assert(before.len() == old(app).transcript.messages@.len());
    assert(after.len() == final(app).transcript.messages@.len());
    assert(old(app)@.has_client == old(app).has_client);
    assert(old(app)@.selected_session_id == old(app).selected_session_id);
    assert(old(app)@.runtime_id == old(app).runtime_id);
    assert(old(app)@.selected_session == old(app).selected_session);
    if trimmed(prompt@).len() > 0 && old(app).has_client && old(app).selected_session_id is Some
        && old(app).runtime_id is Some {
        assert(after == final(app)@.transcript.messages);
        assert(after.last() == final(app).transcript.messages@.last()@);
        assert forall|k: int| 0 <= k < before.len() implies (#[trigger] final(app).transcript.messages@[k]).role == old(app).transcript.messages@[k].role && final(app).transcript.messages@[k].content@ == old(app).transcript.messages@[k].content@ by {
            assert(after[k] == before[k]);
        }
    }
}

proof fn busy_holds(sessions: Seq<WebSession>, id: u128)
    ensures
        busy_ids(sessions).contains(id) <==> exists|k: int|
            0 <= k < sessions.len() && (#[trigger] sessions[k]).id == id && sessions[k].status
                != SessionStatus::Idle && sessions[k].status != SessionStatus::Failed,
    decreases sessions.len(),
{
    if sessions.len() > 0 {
        let head = sessions.drop_last();
        let before = busy_ids(head);
        let all = busy_ids(sessions);
        busy_holds(head, id);
        assert(sessions[sessions.len() - 1] == sessions.last());
        if before.contains(id) {
            let j = choose|k: int|
                0 <= k < head.len() && (#[trigger] head[k]).id == id && head[k].status
                    != SessionStatus::Idle && head[k].status != SessionStatus::Failed;
            assert(sessions[j] == head[j]);
            let i = before.index_of(id);
            assert(all[i] == id);
        }
        if all.contains(id) && !before.contains(id) {
            let i = all.index_of(id);
            if i < before.len() {
                assert(before[i] == id);
            }
            assert(sessions[sessions.len() - 1].id == id);
        }
        if exists|k: int|
            0 <= k < sessions.len() && (#[trigger] sessions[k]).id == id && sessions[k].status
                != SessionStatus::Idle && sessions[k].status != SessionStatus::Failed {
            let j = choose|k: int|
                0 <= k < sessions.len() && (#[trigger] sessions[k]).id == id && sessions[k].status
                    != SessionStatus::Idle && sessions[k].status != SessionStatus::Failed;
            if j < head.len() {
                assert(head[j].id == id);
            } else {
                assert(all[before.len() as int] == id);
            }
        }
    }
}

/// A new task is started with its own settings in the directory of its project, and stands at the end of the
/// list; the project is listed. Those at work are told.
pub proof fn a_new_task_is_listed_last(
    app: &WebApp,
    project: &WebProject,
    session: &WebSession,
    r: StartPlan,
    id: u128,
)
    requires
        call_ensures(WebApp::start_new_task, (app, project, session), r),
        forall|k: int|
            0 <= k < app.sessions@.len() ==> (#[trigger] app.sessions@[k]).id != session.id,
    ensures
        r.sessions@.len() == app.sessions@.len() + 1,
        r.sessions@.last() == *session,
        forall|k: int|
            0 <= k < app.sessions@.len() ==> #[trigger] r.sessions@[k] == app.sessions@[k],
        exists|k: int| 0 <= k < r.projects@.len() && (#[trigger] r.projects@[k]).id == project.id,
        r.projects@.len() >= app.projects@.len(),
        forall|k: int|
            0 <= k < app.projects@.len() ==> #[trigger] r.projects@[k] == app.projects@[k],
        r.busy@.contains(id) <==> exists|k: int|
            0 <= k < r.sessions@.len() && (#[trigger] r.sessions@[k]).id == id
                && r.sessions@[k].status != SessionStatus::Idle && r.sessions@[k].status
                != SessionStatus::Failed,
        r.options.provider@ == session.provider@,
        r.options.cwd@ == project.path@,
        r.options.model == session.model,
        r.options.reasoning_effort == session.reasoning_effort,
        r.options.service_tier == session.service_tier,
        r.options.context_window == session.context_window,
{
    assert(app@.sessions == app.sessions@ && app@.projects == app.projects@);
    all_stay(app.sessions@, session.id);
    busy_holds(r.sessions@, id);
    position_of_project(app.projects@, project.id, 0);
    let at = project_position(app.projects@, project.id, 0);
    if at < app.projects@.len() {
        assert(r.projects@[at].id == project.id);
    } else {
        assert(r.projects@[app.projects@.len() as int].id == project.id);
    }
}

proof fn all_stay(sessions: Seq<WebSession>, id: u128)
    requires
        forall|k: int| 0 <= k < sessions.len() ==> (#[trigger] sessions[k]).id != id,
    ensures
        crate::web::app::sessions_without(sessions, id) == sessions,
    decreases sessions.len(),
{
    reveal(Seq::filter);
    if sessions.len() > 0 {
        let head = sessions.drop_last();
        assert forall|k: int| 0 <= k < head.len() implies (#[trigger] head[k]).id != id by {
            assert(sessions[k].id != id);
        }
        all_stay(head, id);
        assert(sessions[sessions.len() - 1].id != id);
        assert(head.push(sessions.last()) =~= sessions);
    } else {
        assert(crate::web::app::sessions_without(sessions, id) =~= sessions);
    }
}

proof fn position_of_project(projects: Seq<WebProject>, id: u128, i: int)
    requires
        0 <= i <= projects.len(),
    ensures
        i <= project_position(projects, id, i) <= projects.len(),
        project_position(projects, id, i) < projects.len() ==> projects[project_position(
            projects,
            id,
            i,
        )].id == id,
        forall|k: int|
            i <= k < project_position(projects, id, i) ==> (#[trigger] projects[k]).id != id,
    decreases projects.len() - i,
{
    if i < projects.len() && projects[i].id != id {
        position_of_project(projects, id, i + 1);
    }
}

/// A task is started in its own project; a new one in the first project, or where there is none in the directory
/// of the daemon.
pub proof fn a_task_is_started_in_its_project(
    app: &WebApp,
    session: &WebSession,
    r: ProjectChoice,
    fresh: ProjectChoice,
)
    requires
        call_ensures(WebApp::project_for_session, (app, session), r),
        call_ensures(WebApp::new_task_project, (app,), fresh),
    ensures
        r matches ProjectChoice::Known(p) ==> p.id == session.project_id && app.projects@.contains(p),
        r matches ProjectChoice::FromPath { path, id } ==> id == Some(session.project_id) && (forall|
            k: int,
        |
            0 <= k < app.projects@.len() ==> (#[trigger] app.projects@[k]).id != session.project_id)
            && (app.default_cwd@.len() > 0 ==> path@ == app.default_cwd@),
        app.projects@.len() > 0 ==> fresh == ProjectChoice::Known(app.projects@[0]),
        app.projects@.len() == 0 ==> fresh is FromPath && (app.default_cwd@.len() > 0 ==> (
        fresh->path)@ == app.default_cwd@),
{
    assert(app@.projects == app.projects@ && app@.default_cwd == app.default_cwd@);
    position_of_project(app.projects@, session.project_id, 0);
    let at = project_position(app.projects@, session.project_id, 0);
    if at < app.projects@.len() {
        assert(app.projects@.contains(app.projects@[at]));
    }
}

/// A task that was started is shown, with its agent and with the prompt at the end of the transcript, and stands
/// last in the list; one that could not be started is told of.
pub proof fn a_started_task_is_shown(app: &mut WebApp, task: StartedTask, load: StartLoad, r: bool)
    requires
        call_ensures(WebApp::finish_start, (app, task, load), r),
    ensures
        r <==> load is Started,
        !r ==> final(app).error is Some && final(app)@.sessions == old(app)@.sessions && final(app)@.transcript == old(app)@.transcript,
        load matches StartLoad::Started { supports_steer } ==> {
            &&& final(app).selected_session_id == Some(task.session.id)
            &&& final(app).selected_session == Some(task.session)
            &&& final(app).runtime_id == Some(task.runtime_id)
            &&& final(app).supports_steer == supports_steer
            &&& final(app).projects@ == task.projects@
            &&& final(app).sessions@.len() > 0
            &&& final(app).sessions@.last() == task.session
            &&& final(app).transcript.messages@.len() == old(app).transcript.messages@.len() + 1
            &&& final(app).transcript.messages@.last().role == MessageRole::User
            &&& final(app).transcript.messages@.last().content@ == task.prompt@
            &&& final(app).transcript.title is Some
            &&& (final(app).transcript.title->0)@ == task.title@
        },
{
    assert(final(app)@.error == opt_view(final(app).error));
    assert(final(app)@.transcript == final(app).transcript@);
    assert(old(app)@.transcript == old(app).transcript@);
    assert(final(app)@.sessions == final(app).sessions@);
    assert(final(app)@.projects == final(app).projects@);
    if load is Started {
        let before = message_views(old(app).transcript.messages@);
        let after = message_views(final(app).transcript.messages@);
        assert(before.len() == old(app).transcript.messages@.len());
        assert(after.len() == final(app).transcript.messages@.len());
        assert(after == final(app)@.transcript.messages);
        assert(after.last() == final(app).transcript.messages@.last()@);
        assert(final(app)@.transcript.title == opt_view(final(app).transcript.title));
        assert(final(app)@.selected_session == final(app).selected_session);
        assert(final(app)@.selected_session_id == final(app).selected_session_id);
        assert(final(app)@.runtime_id == final(app).runtime_id);
        assert(final(app)@.supports_steer == final(app).supports_steer);
    }
}

/// The page shows every message in its order, with who said it, and the reasoning behind them where there is any;
/// an answer is marked while the turn is in progress.
pub proof fn the_page_shows_every_message(app: &WebApp, rows: Vec<TranscriptRow>, i: int)
    requires
        call_ensures(WebApp::render_transcript, (app,), rows),
        0 <= i < app.transcript.messages@.len(),
    ensures
        rows@.len() == app.transcript.messages@.len() + (if app.transcript.reasoning@.len() > 0 {
            1int
        } else {
            0
        }),
        rows@[i].text@ == app.transcript.messages@[i].content@,
        rows@[i].label@ == (match app.transcript.messages@[i].role {
            MessageRole::User => "You"@,
            MessageRole::Assistant => "Assistant"@,
            MessageRole::System => "System"@,
        }),
        rows@[i].streaming <==> app.transcript.turn_in_progress && app.transcript.messages@[i].role
            == MessageRole::Assistant,
        app.transcript.reasoning@.len() > 0 ==> rows@.last().text@ == app.transcript.reasoning@,
{
    let v = transcript_row_views(rows@);
    let t = app@.transcript;
    assert(t == app.transcript@);
    assert(t.messages == message_views(app.transcript.messages@));
    assert(t.messages.len() == app.transcript.messages@.len());
    assert(v.len() == rows@.len());
    assert(v == crate::web::app::render_transcript(t));
    assert(t.messages[i] == app.transcript.messages@[i]@);
    assert(v[i] == rows@[i]@);
    assert(v[i] == crate::web::app::message_row(t, i));
    if t.reasoning.len() > 0 {
        assert(v.last() == rows@.last()@);
    }
}

/// The list shows every task in its order, and marks the one that is shown.
pub proof fn the_list_shows_every_task(app: &WebApp, rows: Vec<SessionRow>, i: int)
    requires
        call_ensures(WebApp::session_rows, (app,), rows),
        0 <= i < app.sessions@.len(),
    ensures
        rows@.len() == app.sessions@.len(),
        rows@[i].session_id == app.sessions@[i].id,
        rows@[i].active <==> app.selected_session_id == Some(app.sessions@[i].id),
{
    assert(app@.sessions == app.sessions@);
    assert(app@.selected_session_id == app.selected_session_id);
    assert(rows@[i].session_id == app@.sessions[i].id);
}

/// A task is started with what it asks for, under the names of the protocol, in the directory of its project; the
/// lists stay as they are for a task that is there already.
pub proof fn a_task_is_started_with_what_it_asks_for(
    app: &WebApp,
    project: &WebProject,
    session: &WebSession,
    r: StartPlan,
    options: StartOptions,
    id: u128,
)
    requires
        call_ensures(WebApp::start_existing_task, (app, project, session), r),
        call_ensures(start_options, (session, project), options),
    ensures
        r.sessions@ == app.sessions@,
        r.projects@ == app.projects@,
        r.busy@.contains(id) <==> exists|k: int|
            0 <= k < app.sessions@.len() && (#[trigger] app.sessions@[k]).id == id
                && app.sessions@[k].status != SessionStatus::Idle && app.sessions@[k].status
                != SessionStatus::Failed,
        r.options.provider == session.provider,
        r.options.model == session.model,
        r.options.cwd@ == project.path@,
        options.provider == session.provider,
        options.cwd == project.path,
        options.model == session.model,
        options.reasoning_effort == session.reasoning_effort,
        options.service_tier == session.service_tier,
        options.context_window == session.context_window,
        session.runtime_mode is Ask ==> options.mode@ == "ask"@,
        session.runtime_mode is AutoAcceptEdits ==> options.mode@ == "autoAcceptEdits"@,
        session.runtime_mode is FullAccess ==> options.mode@ == "fullAccess"@,
        session.interaction_mode is Build ==> options.interaction_mode@ == "build"@,
        session.interaction_mode is Plan ==> options.interaction_mode@ == "plan"@,
{
    assert(app@.sessions == app.sessions@ && app@.projects == app.projects@);
    busy_holds(app.sessions@, id);
}

/// A new task begins with nothing shown, and keeps the list of the others.
pub proof fn a_new_task_begins_with_nothing(app: &mut WebApp)
    requires
        call_ensures(WebApp::new_task, (app,), ()),
    ensures
        final(app).selected_session_id is None,
        final(app).selected_session is None,
        final(app).runtime_id is None,
        !final(app).supports_steer,
        final(app).transcript.messages@.len() == 0,
        final(app).transcript.reasoning@.len() == 0,
        final(app).error is None,
        final(app).sessions@ == old(app).sessions@,
        final(app).projects@ == old(app).projects@,
        final(app).has_client == old(app).has_client,
{
    assert(final(app)@.sessions == final(app).sessions@ && old(app)@.sessions == old(app).sessions@);
    assert(final(app)@.projects == final(app).projects@ && old(app)@.projects == old(app).projects@);
    assert(final(app)@.selected_session_id == final(app).selected_session_id);
    assert(final(app)@.selected_session == final(app).selected_session);
    assert(final(app)@.runtime_id == final(app).runtime_id);
    assert(final(app)@.supports_steer == final(app).supports_steer);
    assert(final(app)@.error == opt_view(final(app).error));
    assert(final(app)@.has_client == final(app).has_client);
    assert(old(app)@.has_client == old(app).has_client);
    assert(final(app)@.transcript == final(app).transcript@);
    assert(message_views(final(app).transcript.messages@).len() == final(app).transcript.messages@.len());
}

/// A message can be put into a running turn only where the agent takes it; it then goes the way of any prompt.
pub proof fn only_willing_agents_are_steered(
    app: &mut WebApp,
    prompt: &str,
    r: PromptAction,
    other: &mut WebApp,
    s: PromptAction,
)
    requires
        call_ensures(WebApp::submit_steer, (app, prompt), r),
        *old(other) == *old(app),
        call_ensures(WebApp::submit_prompt, (other, prompt, true), s),
        s is Send || s is Nothing,
    ensures
        !old(app).supports_steer ==> r is Nothing && final(app)@ == old(app)@,
        old(app).supports_steer && trimmed(prompt@).len() > 0 && old(app).has_client && old(
            app,
        ).selected_session_id is Some && old(app).runtime_id is Some ==> r is Send && (r->prompt)@
            == trimmed(prompt@) && r->steer && r->runtime_id == old(app).runtime_id->0,
{
    assert(old(app)@.supports_steer == old(app).supports_steer);
    assert(old(app)@.has_client == old(app).has_client);
    assert(old(app)@.selected_session_id == old(app).selected_session_id);
    assert(old(app)@.runtime_id == old(app).runtime_id);
}

/// A prompt that could not be sent is told of, and leaves what was said.
pub proof fn a_prompt_that_failed_is_told(app: &mut WebApp, message: String)
    requires
        call_ensures(WebApp::prompt_failed, (app, message), ()),
    ensures
        final(app).error is Some,
        (final(app).error->0)@ == message@,
        final(app).transcript.error is Some,
        (final(app).transcript.error->0)@ == message@,
        final(app).transcript.messages@.len() == old(app).transcript.messages@.len(),
        final(app).sessions@ == old(app).sessions@,
{
    assert(final(app)@.error == opt_view(final(app).error));
    assert(final(app)@.transcript == final(app).transcript@);
    assert(old(app)@.transcript == old(app).transcript@);
    assert(final(app)@.transcript.error == opt_view(final(app).transcript.error));
    assert(final(app)@.sessions == final(app).sessions@ && old(app)@.sessions == old(app).sessions@);
    assert(message_views(final(app).transcript.messages@).len() == final(app).transcript.messages@.len());
    assert(message_views(old(app).transcript.messages@).len() == old(
        app,
    ).transcript.messages@.len());
}

/// The page is called by the title of the task, failing that by the one in the list, and a new task by neither.
pub proof fn the_page_is_called_by_its_task(
    app: &WebApp,
    listed: Option<String>,
    r: String,
    page: WorkspacePage,
    connect: ConnectPage,
)
    requires
        call_ensures(WebApp::workspace_title, (app, listed), r),
        call_ensures(WebApp::render_workspace, (app, listed), page),
        call_ensures(WebApp::render_connect, (app,), connect),
    ensures
        app.transcript.title matches Some(title) ==> r@ == title@,
        app.transcript.title is None && app.selected_session is Some && listed is Some ==> r@ == (
        listed->0)@,
        app.transcript.title is None && (app.selected_session is None || listed is None) ==> r@
            == "New task"@,
        page.title@ == r@,
        page.tasks@.len() == app.sessions@.len(),
        page.error is Some <==> app.error is Some,
        app.error matches Some(e) ==> (page.error->0)@ == e@ && connect.error is Some && (
        connect.error->0)@ == e@,
        app.connecting ==> connect.label@ == "Connecting…"@,
        !app.connecting ==> connect.label@ == "Connect"@,
{
    assert(app@.transcript == app.transcript@);
    assert(app@.transcript.title == opt_view(app.transcript.title));
    assert(opt_view(listed) is Some <==> listed is Some);
    assert(app@.selected_session == app.selected_session);
    assert(app@.sessions == app.sessions@);
    assert(app@.error == opt_view(app.error));
    assert(opt_view(page.error) is Some <==> page.error is Some);
    assert(opt_view(connect.error) is Some <==> connect.error is Some);
    assert(app@.connecting == app.connecting);
}

} // verus!
