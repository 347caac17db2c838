use std::collections::{HashMap, HashSet};
use waku::key_map::KeyMap;
use waku::label::Label;
use waku::protocol::{DriverEvent, InteractionMode, MessageRole, RuntimeMode, SessionStatus};
use waku::runtime::checkpoints::{event_to_track, CaptureResult, TurnFinished, TurnOutcome};
use waku::runtime::pump::{
    latest_of, next_schedule, save, saves_now, sweep_is_due, DrainFlags,
    EventPumpSchedule, RuntimeReports,
};
use waku::runtime::queue::SubmitAction;
use waku::runtime::rewind::{
    EditCancel, EditSubmit, ForkAction, ForkRefusal, ForkResult, RewindAction, RewindRefusal,
};
use waku::runtime::state::{AttachAction, AttachResult, PendingCheckpointCapture, SessionRuntime, Waku};
use waku::runtime::submit::{
    plan_workspace, start_failure_message, turn_directory, FailedTurn, PreparedAgent,
    PreparedSubmission, StartAction, StartFailure, SubmitDecision, WorkspacePlan,
};
use waku::runtime::sync::{
    merge_remote_session_catalog, remote_task_state, NextSelection, TaskState,
};
use waku::session::{
    Activity, AgentSession, Checkpoint, CheckpointStatus, ComposerSubmission, ContextUsage, Message,
    MessageAttachment, Project, SessionWorkspace, TranscriptBlock, Turn, TurnStatus,
};
use waku::settings::pages::SettingsPage;
use waku::usage_meter::toggle_usage_panel_action;

fn session(id: u128) -> AgentSession {
    AgentSession {
        id,
        project_id: 100,
        title: format!("task {id}"),
        auto_title: None,
        provider: "openai-responses".into(),
        model: None,
        runtime_mode: RuntimeMode::Ask,
        interaction_mode: InteractionMode::Build,
        reasoning_effort: None,
        service_tier: None,
        context_window: None,
        workspace: SessionWorkspace::Local,
        status: SessionStatus::Idle,
        created_at: 0,
        updated_at: 0,
        last_reply_at: None,
        started: true,
        detail_loaded: true,
        messages: Vec::new(),
        transcript_blocks: Vec::new(),
        turns: Vec::new(),
        queued_messages: Vec::new(),
        context_usage: None,
    }
}

fn turn(id: u128, turn_count: usize, status: TurnStatus) -> Turn {
    Turn {
        id,
        turn_count,
        status,
        started_at: 10,
        completed_at: None,
        provider_turn_started: false,
        checkpoint: None,
    }
}

fn message(id: u128, turn_id: Option<u128>, content: &str) -> Message {
    Message {
        id,
        turn_id,
        role: MessageRole::User,
        content: content.to_string(),
        display_content: None,
        attachments: Vec::new(),
        streaming: false,
    }
}

fn project(id: u128) -> Project {
    Project { id, path: format!("/p/{id}"), display_name: format!("P{id}"), projectless: false }
}

fn agent() -> SessionRuntime {
    SessionRuntime {
        supports_steer: true,
        options_generation: 0,
        pending_steers: Vec::new(),
        pending_events: Vec::new(),
        stream_remeasure_pending: false,
        waits_for_user: false,
    }
}

fn waku(sessions: Vec<AgentSession>) -> Waku {
    Waku {
        tasks: TaskState {
            selected_session: sessions.first().map(|s| s.id),
            sessions,
            projects: vec![project(100)],
            selected_project: Some(100),
        },
        presets: Vec::new(),
        external_providers: Vec::new(),
        auth_statuses: KeyMap::new(),
        model_catalogs: KeyMap::new(),
        runtimes: HashMap::new(),
        runtime_attach_pending: HashSet::new(),
        runtime_attach_misses: HashMap::new(),
        submission_preparations: HashSet::new(),
        response_fork_preparations: HashMap::new(),
        pending_checkpoint_captures: Vec::new(),
        checkpoint_captures_in_flight: Vec::new(),
        pending_queue_drains: Vec::new(),
        message_edit: None,
        composer_attachments: Vec::new(),
        composer_handle: 7,
    }
}

fn begun(id: u128) -> AgentSession {
    let mut task = session(id);
    task.turns.push(turn(30, 1, TurnStatus::Running));
    task
}

fn ready(workspace: SessionWorkspace, agent: PreparedAgent) -> PreparedSubmission {
    PreparedSubmission { workspace, checkpoint_warning: Some("no room".into()), agent }
}

fn plain(text: &str) -> ComposerSubmission {
    ComposerSubmission::plain(text.to_string())
}

// ---------------------------------------------------------------------------
// What is shown
// ---------------------------------------------------------------------------
#[test]
fn what_is_shown() {
    let mut client = waku(vec![session(1), session(2)]);
    assert_eq!(client.composer_focus(), 7);
    assert_eq!(client.selected_session().unwrap().id, 1);
    assert_eq!(client.selected_project().unwrap().id, 100);
    assert_eq!(client.selected_workspace_path().as_deref(), Some("/p/100"));
    assert!(client.configured_provider("mine").is_none());
    client.tasks.sessions[0].workspace =
        SessionWorkspace::Worktree { path: "/w".into(), branch: "b".into() };
    assert_eq!(client.selected_workspace_path().as_deref(), Some("/w"));
    client.tasks.sessions[0].workspace = SessionWorkspace::NewWorktree { base_branch: None };
    assert_eq!(client.selected_workspace_path().as_deref(), Some("/p/100"));
    client.tasks.sessions[0].project_id = 5;
    assert_eq!(client.selected_workspace_path(), None);
    client.tasks.selected_session = Some(9);
    assert!(client.selected_session().is_none());
}

#[test]
fn the_meter_says_what_the_task_uses() {
    let mut client = waku(vec![session(1)]);
    assert!(!client.usage_meter_available());
    assert_eq!(client.render_usage_meter(0), None);
    client.tasks.sessions[0].context_usage =
        Some(ContextUsage { tokens: 64_000, window: Some(128_000) });
    assert!(client.usage_meter_available());
    assert_eq!(client.render_usage_meter(50).as_deref(), Some("50% · 64000 / 128000"));
    client.tasks.sessions[0].context_usage = Some(ContextUsage { tokens: 12, window: Some(0) });
    assert_eq!(client.render_usage_meter(0).as_deref(), Some("12 tokens"));
    client.tasks.sessions[0].context_usage = Some(ContextUsage { tokens: 12, window: None });
    assert_eq!(client.render_usage_meter(0).as_deref(), Some("12 tokens"));
    let mut page = None;
    toggle_usage_panel_action(&mut page);
    assert_eq!(page, Some(SettingsPage::Usage));
}

// ---------------------------------------------------------------------------
// The daemon's list of tasks
// ---------------------------------------------------------------------------
#[test]
fn merging_keeps_drafts_and_drops_what_the_daemon_forgot() {
    let mut draft = session(3);
    draft.started = false;
    let mut local = vec![session(1), session(2), draft];
    local[0].messages.push(message(50, None, "kept"));
    let mut renamed = session(1);
    renamed.title = "renamed".into();
    renamed.status = SessionStatus::Working;
    renamed.updated_at = 77;
    let removed =
        merge_remote_session_catalog(&mut local, vec![renamed, session(4)], &HashSet::new());
    assert_eq!(removed, vec![2]);
    let ids: Vec<u128> = local.iter().map(|s| s.id).collect();
    assert_eq!(ids, vec![1, 3, 4]);
    assert_eq!(local[0].title, "renamed");
    assert_eq!(local[0].status, SessionStatus::Working);
    assert_eq!(local[0].updated_at, 77);
    assert_eq!(local[0].messages.len(), 1);
}

#[test]
fn an_agent_of_this_client_knows_better() {
    let mut local = vec![session(1)];
    let mut remote = session(1);
    remote.status = SessionStatus::Failed;
    remote.updated_at = 9;
    remote.title = "new".into();
    let running = HashSet::from([1u128]);
    merge_remote_session_catalog(&mut local, vec![remote], &running);
    assert_eq!(local[0].status, SessionStatus::Idle);
    assert_eq!(local[0].updated_at, 0);
    assert_eq!(local[0].title, "new");
}

#[test]
fn a_task_that_is_gone_makes_room_for_the_one_that_changed_last() {
    let mut client = waku(vec![session(1)]);
    let mut older = session(2);
    older.updated_at = 5;
    let mut newer = session(3);
    newer.updated_at = 8;
    newer.status = SessionStatus::Working;
    let snapshot = remote_task_state(vec![project(100)], vec![older, newer]);
    assert!(snapshot.sessions.iter().all(|s| !s.detail_loaded));
    let outcome = client.tasks.apply_remote_task_state(snapshot, &HashSet::new());
    assert_eq!(outcome.removed, vec![1]);
    assert_eq!(outcome.next, NextSelection::Select(3));
    assert_eq!(client.tasks.selected_session, None);

    client.tasks.selected_session = Some(3);
    let outcome = client
        .tasks
        .apply_remote_task_state(remote_task_state(vec![project(7)], Vec::new()), &HashSet::new());
    assert_eq!(outcome.next, NextSelection::CreateIn(7));
    let mut nothing = waku(vec![session(1)]);
    let outcome = nothing
        .tasks
        .apply_remote_task_state(remote_task_state(Vec::new(), Vec::new()), &HashSet::new());
    assert_eq!(outcome.next, NextSelection::Nothing);
}

#[test]
fn tasks_that_are_gone_take_their_agents_along() {
    let mut client = waku(vec![session(1), session(2)]);
    client.runtimes.insert(1, agent());
    client.runtimes.insert(2, agent());
    client.runtime_attach_misses.insert(2, 1);
    client.runtime_attach_pending.insert(2);
    let mut busy = session(3);
    busy.status = SessionStatus::Working;
    let sync = client.apply_remote_task_state(remote_task_state(
        vec![project(100)],
        vec![session(1), busy],
    ));
    assert!(sync.refresh_accounts);
    assert_eq!(sync.outcome.removed, vec![2]);
    assert_eq!(sync.ask, vec![3]);
    assert!(client.runtimes.contains_key(&1) && !client.runtimes.contains_key(&2));
    assert!(client.runtime_attach_misses.is_empty());
    assert!(client.runtime_attach_pending.contains(&3));
    assert!(!client.runtime_attach_pending.contains(&2));
}

#[test]
fn only_the_last_answer_about_the_tasks_counts() {
    let mut client = waku(vec![session(1)]);
    assert!(client.drain_task_state_sync_events(Vec::new()).is_none());
    let good = || Ok(remote_task_state(vec![project(100)], Vec::new()));
    let told = client.drain_task_state_sync_events(vec![good(), Err("down".to_string())]);
    assert_eq!(told.unwrap().unwrap_err(), "down");
    assert_eq!(client.tasks.sessions.len(), 1);
    assert!(client.drain_task_state_sync_events(vec![Err("x".to_string()), good()]).unwrap().is_ok());
    assert!(client.tasks.sessions.is_empty());
}

// ---------------------------------------------------------------------------
// Agents that are asked for
// ---------------------------------------------------------------------------
#[test]
fn asking_in_vain_ends_with_an_interruption() {
    let mut client = waku(vec![session(1)]);
    client.tasks.sessions[0].status = SessionStatus::Working;
    let mut retries = 0;
    loop {
        assert!(client.start_runtime_attachment(1));
        assert!(!client.start_runtime_attachment(1));
        match client.finish_runtime_attachment(1, AttachResult::Missing) {
            AttachAction::RetryAfter(_) => retries += 1,
            action => {
                assert_eq!(action, AttachAction::Interrupt);
                break;
            }
        }
    }
    assert!(retries > 0);
    assert!(client.runtime_attach_misses.is_empty());

    client.tasks.sessions[0].turns.push(turn(30, 1, TurnStatus::Running));
    client.tasks.sessions[0].messages.push(Message { streaming: true, ..message(40, None, "x") });
    client.tasks.sessions[0].transcript_blocks.push(TranscriptBlock {
        activities: vec![Activity { reasoning: None, complete: false }],
    });
    assert!(client.interrupt_orphaned_runtime(1, 99));
    let task = &client.tasks.sessions[0];
    assert_eq!(task.status, SessionStatus::Idle);
    assert_eq!(task.turns[0].status, TurnStatus::Interrupted);
    assert_eq!(task.turns[0].completed_at, Some(99));
    assert!(!task.messages[0].streaming);
    assert!(task.transcript_blocks[0].activities[0].complete);
    assert_eq!(client.pending_checkpoint_captures.len(), 1);
    assert_eq!(client.pending_checkpoint_captures[0].turn_count, 1);
    assert_eq!(client.pending_checkpoint_captures[0].project_path, "/p/100");
}

#[test]
fn an_agent_is_taken_over_once() {
    let mut client = waku(vec![session(1)]);
    assert_eq!(
        client.finish_runtime_attachment(1, AttachResult::Attached(session(1))),
        AttachAction::Done
    );
    assert!(client.start_runtime_attachment(1));
    assert_eq!(
        client.finish_runtime_attachment(1, AttachResult::Attached(session(1))),
        AttachAction::Install { shown: true }
    );
    assert!(client.start_runtime_attachment(1));
    assert_eq!(client.finish_runtime_attachment(1, AttachResult::Failed), AttachAction::Report);
    client.runtimes.insert(1, agent());
    assert!(!client.start_runtime_attachment(1));
}

// ---------------------------------------------------------------------------
// Checkpoints
// ---------------------------------------------------------------------------
#[test]
fn a_checkpoint_is_made_once_and_lets_the_queue_go_on() {
    let mut client = waku(vec![session(1)]);
    client.tasks.sessions[0].turns.push(turn(30, 1, TurnStatus::Completed));
    assert!(!client.ending_checkpoint_pending(1));
    client.capture_latest_turn_checkpoint_for(1);
    client.capture_latest_turn_checkpoint_for(1);
    assert_eq!(client.pending_checkpoint_captures.len(), 1);
    assert!(client.checkpoint_capture_pending(1, 1));
    assert!(client.ending_checkpoint_pending(1));
    client.pending_checkpoint_captures.push(PendingCheckpointCapture {
        session_id: 1,
        turn_count: 1,
        project_path: "/elsewhere".into(),
    });
    let started = client.start_pending_checkpoint_captures();
    assert_eq!(started.len(), 1);
    assert_eq!(started[0].project_path, "/p/100");
    assert!(client.ending_checkpoint_pending(1));
    client.defer_queue_drain(1);
    client.defer_queue_drain(1);
    assert_eq!(client.pending_queue_drains, vec![1]);
    assert!(client.take_due_queue_drains().is_empty());
    assert_eq!(client.pending_queue_drains, vec![1]);
    let outcome = client.finish_checkpoint_capture(
        1,
        1,
        CaptureResult::Captured(Checkpoint {
            turn_count: 1,
            git_ref: "refs/x".into(),
            status: CheckpointStatus::Ready,
            files: vec!["a".into()],
            additions: 1,
            deletions: 2,
            created_at: 3,
        }),
    );
    assert_eq!(outcome.attached_turn, Some(30));
    assert!(outcome.shown && outcome.resume_queue);
    assert!(client.pending_queue_drains.is_empty());
    assert!(!client.ending_checkpoint_pending(1));
    assert_eq!(client.tasks.sessions[0].turns[0].checkpoint.as_ref().unwrap().git_ref, "refs/x");
}

#[test]
fn a_checkpoint_that_failed_is_kept_as_such() {
    let mut client = waku(vec![session(1)]);
    client.tasks.sessions[0].turns.push(turn(30, 1, TurnStatus::Failed));
    let outcome = client.finish_checkpoint_capture(
        1,
        1,
        CaptureResult::Failed { git_ref: "refs/y".into(), now: 5 },
    );
    assert_eq!(outcome.attached_turn, Some(30));
    assert!(!outcome.resume_queue);
    let checkpoint = client.tasks.sessions[0].turns[0].checkpoint.as_ref().unwrap();
    assert_eq!(checkpoint.status, CheckpointStatus::Error);
    assert_eq!(checkpoint.git_ref, "refs/y");
    assert_eq!(checkpoint.created_at, 5);
    assert!(checkpoint.files.is_empty());
    let outcome = client.finish_checkpoint_capture(
        9,
        1,
        CaptureResult::Failed { git_ref: "refs/y".into(), now: 5 },
    );
    assert_eq!(outcome.attached_turn, None);
}

#[test]
fn the_end_of_a_turn_is_reported_where_it_ended() {
    let mut client = waku(vec![session(1)]);
    assert!(client.active_turn_finished_event(1, TurnOutcome::Completed, 25).is_none());
    client.tasks.sessions[0].turns.push(turn(30, 3, TurnStatus::Running));
    let event = client.active_turn_finished_event(1, TurnOutcome::Cancelled, 25).unwrap();
    assert_eq!(event.turn_number, 3);
    assert_eq!(event.duration_seconds, 15);
    assert_eq!(event.provider, "openai-responses");
    assert_eq!(event.outcome, TurnOutcome::Cancelled);
    let early = client.active_turn_finished_event(1, TurnOutcome::Failed, 5);
    assert_eq!(early.as_ref().unwrap().duration_seconds, 0);
    assert!(event_to_track(early, false).is_none());
    assert!(event_to_track(Some(event), true).is_some());
}

// ---------------------------------------------------------------------------
// The queue
// ---------------------------------------------------------------------------
#[test]
fn taking_a_message_back_undoes_queueing() {
    let mut client = waku(vec![session(1)]);
    assert!(client.tasks.enqueue_follow_up_submission(1, plain("one"), 61, 5));
    assert!(client.tasks.enqueue_follow_up_submission(1, plain("two"), 62, 6));
    assert!(!client.tasks.enqueue_follow_up_submission(1, plain("  "), 63, 7));
    assert_eq!(client.tasks.sessions[0].queued_messages.len(), 2);
    let taken = client.tasks.take_queued_message(1, 62).unwrap();
    assert_eq!(taken.content, "two");
    assert_eq!(client.tasks.sessions[0].queued_messages.len(), 1);
    assert!(client.tasks.take_queued_message(1, 62).is_none());
    client.tasks.remove_queued_message(1, 61);
    assert!(client.tasks.sessions[0].queued_messages.is_empty());
}

#[test]
fn editing_a_queued_message_puts_it_back_into_the_composer() {
    let mut client = waku(vec![session(1)]);
    let file = MessageAttachment {
        path: "/a".into(),
        mention: "a".into(),
        name: "a".into(),
        is_dir: false,
        is_image: false,
        blob_reference: None,
    };
    client.tasks.enqueue_follow_up_submission(
        1,
        ComposerSubmission {
            prompt: "look @a".into(),
            display_content: Some("look".into()),
            attachments: vec![file],
        },
        61,
        5,
    );
    assert_eq!(client.edit_queued_message(1, 61).as_deref(), Some("look"));
    assert_eq!(client.composer_attachments.len(), 1);
    assert!(client.tasks.sessions[0].queued_messages.is_empty());
    assert_eq!(client.edit_queued_message(1, 61), None);
}

#[test]
fn the_first_message_of_a_queue_is_served_first() {
    let mut client = waku(vec![session(1)]);
    client.tasks.enqueue_follow_up_submission(1, plain("one"), 61, 5);
    client.tasks.enqueue_follow_up_submission(1, plain("two"), 62, 6);
    client.tasks.sessions[0].status = SessionStatus::Working;
    assert!(client.drain_queued_message(1).is_none());
    client.tasks.sessions[0].status = SessionStatus::Idle;
    assert_eq!(client.drain_queued_message(1).unwrap().prompt, "one");
    assert_eq!(client.drain_queued_message(1).unwrap().prompt, "two");
    assert!(client.drain_queued_message(1).is_none());
}

#[test]
fn submissions_go_where_the_task_stands() {
    let mut client = waku(vec![session(1)]);
    assert!(matches!(
        client.submit_composer_submission(plain("go"), 70, 1),
        SubmitAction::Begin { session_id: 1, .. }
    ));
    client.tasks.sessions[0].status = SessionStatus::Working;
    assert!(matches!(
        client.submit_composer_submission(plain("go"), 71, 1),
        SubmitAction::Queued { save: true }
    ));
    assert!(matches!(
        client.steer_composer_submission(plain("turn left"), 72, 1),
        SubmitAction::Queued { save: true }
    ));
    client.runtimes.insert(1, agent());
    assert!(client.can_steer(&client.tasks.sessions[0]));
    match client.steer_composer_submission(plain("turn left"), 73, 1) {
        SubmitAction::Steered { session_id, input } => {
            assert_eq!(session_id, 1);
            assert_eq!(input.text, "turn left");
        }
        other => panic!("{other:?}"),
    }
    assert_eq!(client.runtimes[&1].pending_steers.len(), 1);
    assert!(matches!(client.steer_queued_message(1, 71, 74, 1), SubmitAction::Steered { .. }));
    assert!(matches!(client.steer_queued_message(1, 71, 75, 1), SubmitAction::Ignored));
    client.response_fork_preparations.insert(1, 1);
    assert!(matches!(
        client.submit_composer_submission(plain("go"), 76, 1),
        SubmitAction::Ignored
    ));
}

// ---------------------------------------------------------------------------
// Turns
// ---------------------------------------------------------------------------
#[test]
fn a_turn_is_planned_begun_and_made_ready() {
    let mut client = waku(vec![session(1)]);
    let planned = match client.submit_submission_for_session(1, plain("go"), &None, 80, 5) {
        SubmitDecision::Begin(planned) => planned,
        other => panic!("{other:?}"),
    };
    assert_eq!(planned.turn_number, 1);
    assert_eq!(planned.workspace_kind, "local");
    assert_eq!(planned.attachment_count, 0);
    assert!(planned.has_input && planned.shown && !planned.projectless);
    assert_eq!(
        planned.start.unwrap().unwrap_err().message(),
        "provider openai-responses is not configured"
    );
    client.begin_submission(1, begun(1), 6);
    assert_eq!(client.tasks.sessions[0].status, SessionStatus::Connecting);
    assert_eq!(client.tasks.sessions[0].updated_at, 6);
    assert!(client.submission_preparations.contains(&1));
    let worktree = SessionWorkspace::Worktree { path: "/w".into(), branch: "b".into() };
    assert_eq!(
        client.finish_submission_preparation(
            1,
            ready(worktree, PreparedAgent::Started { supports_steer: false }),
            None,
            9
        ),
        StartAction::Prompt { refresh: true, warning: Some("no room".into()) }
    );
    assert!(client.runtimes.contains_key(&1));
    assert_eq!(client.tasks.sessions[0].status, SessionStatus::Connecting);
    assert!(client.pending_checkpoint_captures.is_empty());
    assert_eq!(
        client.finish_submission_preparation(
            1,
            ready(SessionWorkspace::Local, PreparedAgent::Existing),
            None,
            9
        ),
        StartAction::Dropped
    );
}

#[test]
fn an_agent_that_does_not_start_fails_the_turn() {
    let mut client = waku(vec![session(1)]);
    client.begin_submission(1, begun(1), 6);
    let started_at = client.tasks.sessions[0].turns[0].started_at;
    let not_started = PreparedAgent::Failed("no key".into());
    let failure = client.start_failure(1, &not_started).unwrap();
    assert!(matches!(failure.reason(), Label::Plain(text) if text == "no key"));
    let mut ended = begun(1);
    ended.messages.push(Message {
        id: 40,
        turn_id: Some(30),
        role: MessageRole::Assistant,
        content: "The agent did not start: no key".into(),
        display_content: None,
        attachments: Vec::new(),
        streaming: false,
    });
    ended.turns[0].status = TurnStatus::Failed;
    assert_eq!(
        client.finish_submission_preparation(
            1,
            ready(SessionWorkspace::Local, not_started),
            Some(FailedTurn { session: ended, ended: true }),
            started_at + 4
        ),
        StartAction::Failed {
            refresh: false,
            warning: Some("no room".into()),
            failure: StartFailure::NotStarted("no key".into()),
            event: Some(TurnFinished {
                provider: "openai-responses".into(),
                turn_number: 1,
                outcome: TurnOutcome::StartFailed,
                duration_seconds: 4,
            }),
        }
    );
    let task = &client.tasks.sessions[0];
    assert_eq!(task.status, SessionStatus::Failed);
    assert_eq!(task.turns[0].status, TurnStatus::Failed);
    assert_eq!(task.messages[0].content, "The agent did not start: no key");
    assert_eq!(client.pending_checkpoint_captures.len(), 1);
    assert_eq!(client.pending_checkpoint_captures[0].turn_count, 1);
    assert!(!client.submission_preparations.contains(&1));
}

#[test]
fn an_agent_that_is_gone_fails_the_turn() {
    let mut client = waku(vec![session(1), session(2)]);
    client.begin_submission(2, begun(2), 6);
    assert_eq!(
        client.finish_submission_preparation(
            2,
            ready(SessionWorkspace::Local, PreparedAgent::Existing),
            None,
            9
        ),
        StartAction::Failed {
            refresh: false,
            warning: None,
            failure: StartFailure::AgentGone,
            event: None,
        }
    );
    assert_eq!(client.tasks.sessions[1].status, SessionStatus::Failed);
    assert!(client.pending_checkpoint_captures.is_empty());
    assert!(matches!(
        StartFailure::AgentGone.reason(),
        Label::Message("errors.prepared_runtime_unavailable")
    ));
    assert!(matches!(
        start_failure_message("gone".into()),
        Label::MessageWith { key: "errors.start_agent", name: "error", value } if value == "gone"
    ));
}

#[test]
fn old_reports_are_dropped_before_a_turn() {
    let mut client = waku(vec![session(1)]);
    let background = || DriverEvent::BackgroundWork { output_delta: true };
    client.runtimes.insert(
        1,
        SessionRuntime {
            pending_events: vec![background(), DriverEvent::TurnStarted, background()],
            stream_remeasure_pending: true,
            ..agent()
        },
    );
    client.begin_submission(1, begun(1), 6);
    assert_eq!(
        client.finish_submission_preparation(
            1,
            ready(SessionWorkspace::Local, PreparedAgent::Existing),
            None,
            9
        ),
        StartAction::Prompt { refresh: false, warning: Some("no room".into()) }
    );
    let left = &client.runtimes[&1];
    assert_eq!(left.pending_events.len(), 2);
    assert!(left.pending_events.iter().all(|e| matches!(e, DriverEvent::BackgroundWork { .. })));
    assert!(!left.stream_remeasure_pending);
}

#[test]
fn a_failed_preparation_gives_the_text_back() {
    let mut client = waku(vec![session(1)]);
    client.begin_submission(1, begun(1), 6);
    let back = client.fail_submission_preparation(
        1,
        Some(session(1)),
        plain("go"),
        "disk full".into(),
        0,
    );
    assert_eq!(back.restored.as_deref(), Some("go"));
    assert!(matches!(
        back.told,
        Some(Label::MessageWith { key: "errors.create_worktree", name: "error", value })
            if value == "disk full"
    ));
    let event = back.event.unwrap();
    assert_eq!(event.outcome, TurnOutcome::PreparationFailed);
    assert_eq!(event.duration_seconds, 0);
    assert_eq!(client.tasks.sessions[0].status, SessionStatus::Idle);
    let again =
        client.fail_submission_preparation(1, Some(session(1)), plain("go"), "late".into(), 0);
    assert!(again.restored.is_none() && again.told.is_none() && again.event.is_none());
}

#[test]
fn submissions_wait_or_come_back() {
    let mut client = waku(vec![session(1)]);
    client.tasks.sessions[0].status = SessionStatus::Working;
    assert!(matches!(
        client.submit_submission_for_session(1, plain("go"), &None, 80, 5),
        SubmitDecision::Queued { save: true }
    ));
    client.tasks.sessions[0].status = SessionStatus::Idle;
    client.tasks.sessions[0].turns.push(turn(30, 1, TurnStatus::Completed));
    client.capture_latest_turn_checkpoint_for(1);
    assert!(matches!(
        client.submit_submission_for_session(1, plain("go"), &None, 81, 5),
        SubmitDecision::Queued { save: true }
    ));
    assert_eq!(client.pending_queue_drains, vec![1]);
    client.pending_checkpoint_captures.clear();
    client.tasks.projects.clear();
    match client.submit_submission_for_session(1, plain("go"), &None, 82, 5) {
        SubmitDecision::NoProject { restored } => assert_eq!(restored.as_deref(), Some("go")),
        other => panic!("{other:?}"),
    }
    assert!(matches!(
        client.submit_submission_for_session(9, plain("go"), &None, 83, 5),
        SubmitDecision::Ignored
    ));
}

#[test]
fn worktrees_want_a_project() {
    let here = project(1);
    let nowhere = Project { projectless: true, ..project(2) };
    let wanted = || SessionWorkspace::NewWorktree { base_branch: Some("main".into()) };
    assert_eq!(
        plan_workspace(wanted(), &here).ok(),
        Some(WorkspacePlan::CreateWorktree { base_branch: Some("main".into()) })
    );
    assert_eq!(
        plan_workspace(wanted(), &nowhere).unwrap_err().message(),
        "a projectless task cannot create a Git worktree"
    );
    assert_eq!(
        plan_workspace(SessionWorkspace::Local, &nowhere).ok(),
        Some(WorkspacePlan::Keep(SessionWorkspace::Local))
    );
    assert_eq!(turn_directory(&SessionWorkspace::Local, &here), "/p/1");
    let worktree = SessionWorkspace::Worktree { path: "/w".into(), branch: "b".into() };
    assert_eq!(turn_directory(&worktree, &here), "/w");
}

// ---------------------------------------------------------------------------
// Forks and rewinds
// ---------------------------------------------------------------------------
#[test]
fn one_fork_at_a_time_through_the_client() {
    let mut client = waku(vec![session(1)]);
    client.tasks.sessions[0].turns.push(turn(30, 1, TurnStatus::Completed));
    assert_eq!(client.fork_session_from_response(9, 1), Err(ForkRefusal::Unavailable));
    assert_eq!(client.fork_session_from_response(1, 2), Err(ForkRefusal::CannotFork));
    assert_eq!(client.fork_session_from_response(1, 1), Ok(()));
    assert_eq!(client.fork_session_from_response(1, 1), Err(ForkRefusal::CannotFork));
    let result = ForkResult::Forked { session: session(5), checkpoint_warning: None };
    assert!(matches!(client.finish_response_fork(1, 2, result), ForkAction::Dropped));
    let result = ForkResult::Forked { session: session(5), checkpoint_warning: None };
    assert!(matches!(
        client.finish_response_fork(1, 1, result),
        ForkAction::Show { session_id: 5, .. }
    ));
    assert_eq!(client.tasks.sessions.len(), 2);
    assert_eq!(client.fork_session_from_response(1, 1), Ok(()));
    match client.finish_response_fork(1, 1, ForkResult::Failed("no".into())) {
        ForkAction::Failed(error) => assert_eq!(error, "no"),
        other => panic!("{other:?}"),
    }
    assert!(matches!(
        ForkRefusal::CannotFork.label(),
        Label::Message("session.response_cannot_fork")
    ));
    assert!(matches!(
        ForkRefusal::Unavailable.label(),
        Label::Message("session.response_unavailable")
    ));
}

fn edited() -> Waku {
    let mut client = waku(vec![session(1)]);
    client.tasks.sessions[0].turns.push(turn(30, 1, TurnStatus::Completed));
    client.tasks.sessions[0].messages.push(message(40, Some(30), "before"));
    client
}

#[test]
fn a_message_is_edited_and_sent_again() {
    let mut client = edited();
    assert!(client.begin_message_edit(1, 41, 1).is_none());
    let start = client.begin_message_edit(1, 40, 1).unwrap();
    assert_eq!(start.message_index, 0);
    assert_eq!(start.text, "before");
    assert!(matches!(client.submit_message_edit_prompt("  "), EditSubmit::Empty));
    let sent = match client.submit_message_edit_prompt("after") {
        EditSubmit::Send(sent) => sent,
        other => panic!("{other:?}"),
    };
    let edit = client.message_edit.take().unwrap();
    let rewind = client.start_message_rewind(&edit, &sent, 9).unwrap();
    assert_eq!(rewind.original.content, "before");
    assert_eq!(rewind.previous_status, SessionStatus::Idle);
    assert_eq!(client.tasks.sessions[0].messages[0].content, "after");
    assert!(client.submission_preparations.contains(&1));
    let action = client.fail_message_rewind(
        edit,
        rewind.original,
        rewind.previous_status,
        "no".into(),
    );
    match action {
        RewindAction::Failed { error, message_index } => {
            assert_eq!(error, "no");
            assert_eq!(message_index, Some(0));
        }
        other => panic!("{other:?}"),
    }
    assert_eq!(client.tasks.sessions[0].messages[0].content, "before");
    assert_eq!(client.tasks.sessions[0].status, SessionStatus::Idle);
    assert!(client.message_edit.is_some());
    assert_eq!(
        client.cancel_message_edit(),
        EditCancel::Cancelled { message_index: Some(0) }
    );
    assert_eq!(client.cancel_message_edit(), EditCancel::Nothing);
    assert!(matches!(client.submit_message_edit_prompt("x"), EditSubmit::Ignored));
}

#[test]
fn a_finished_rewind_lets_the_agent_go() {
    let mut client = edited();
    client.runtimes.insert(1, agent());
    client.begin_message_edit(1, 40, 1).unwrap();
    let edit = client.message_edit.take().unwrap();
    client.start_message_rewind(&edit, &plain("after"), 9).unwrap();
    match client.finish_message_rewind(1, 1, session(1), None) {
        RewindAction::Resubmit { told, turn_text, warning } => {
            assert!(told.is_some());
            assert_eq!(turn_text, "1");
            assert_eq!(warning, None);
        }
        other => panic!("{other:?}"),
    }
    assert!(client.runtimes.is_empty());
    assert!(client.tasks.sessions[0].messages.is_empty());
    assert!(matches!(
        client.finish_message_rewind(1, 1, session(1), None),
        RewindAction::Dropped
    ));
}

#[test]
fn rewinds_that_cannot_begin() {
    let mut client = edited();
    client.begin_message_edit(1, 40, 1).unwrap();
    let mut edit = client.message_edit.take().unwrap();
    client.tasks.sessions[0].status = SessionStatus::Working;
    assert_eq!(
        client.start_message_rewind(&edit, &plain("x"), 9).err(),
        Some(RewindRefusal::SelectFirst)
    );
    client.tasks.sessions[0].status = SessionStatus::Idle;
    edit.message_id = 41;
    assert_eq!(
        client.start_message_rewind(&edit, &plain("x"), 9).err(),
        Some(RewindRefusal::Unavailable)
    );
    edit.session_id = 9;
    assert_eq!(
        client.start_message_rewind(&edit, &plain("x"), 9).err(),
        Some(RewindRefusal::Unavailable)
    );
    assert!(matches!(
        RewindRefusal::SelectFirst.label(),
        Label::Message("session.select_before_rewind")
    ));
    assert!(matches!(
        RewindRefusal::Unavailable.label(),
        Label::Message("session.message_unavailable")
    ));
}

// ---------------------------------------------------------------------------
// Reports
// ---------------------------------------------------------------------------
#[test]
fn reports_say_what_changed() {
    let output = || DriverEvent::BackgroundWork { output_delta: true };
    let mut flags = DrainFlags::new();
    flags.note_all(&vec![output(), output()]);
    assert_eq!(flags, DrainFlags::new());
    flags.note(&DriverEvent::BackgroundWork { output_delta: false });
    assert!(flags.background_changed && !flags.runtime_changed);
    flags.note(&DriverEvent::ReasoningDelta("hm".into()));
    assert!(flags.runtime_changed && flags.markdown_changed && !flags.force_save);
    flags.note(&DriverEvent::ProcessExited);
    assert!(flags.force_save);
}

#[test]
fn a_round_adds_up_what_the_agents_reported() {
    let round = || {
        vec![
            RuntimeReports { session_id: 1, handled: Vec::new(), kept: true },
            RuntimeReports {
                session_id: 2,
                handled: vec![DriverEvent::TextDelta("a".into())],
                kept: true,
            },
            RuntimeReports { session_id: 9, handled: vec![DriverEvent::Connected], kept: true },
        ]
    };
    let client = || {
        let mut client = waku(vec![session(1), session(2)]);
        client.runtimes.insert(1, SessionRuntime { stream_remeasure_pending: true, ..agent() });
        client.runtimes.insert(
            2,
            SessionRuntime { pending_events: vec![DriverEvent::TurnStarted], ..agent() },
        );
        client.tasks.selected_session = Some(1);
        client
    };
    let mut one = client();
    assert_eq!(one.drain_event_pump(Some(5)), EventPumpSchedule::StreamFrame);
    let shown = one.drain_driver_events(&round(), false);
    assert!(shown.changed && shown.persisted_state_changed && shown.selected_changed);
    assert!(!shown.force_save);
    assert!(!one.runtimes[&1].stream_remeasure_pending);
    assert!(one.runtimes[&2].stream_remeasure_pending);
    assert!(one.runtimes[&2].pending_events.is_empty());
    assert!(!one.runtimes.contains_key(&9));
    let mut other = client();
    other.tasks.selected_session = Some(3);
    let totals = other.drain_driver_events(&round(), false);
    assert!(totals.changed && !totals.selected_changed);
    let gone = RuntimeReports {
        session_id: 2,
        handled: vec![DriverEvent::ProcessExited],
        kept: false,
    };
    let last = other.drain_driver_events(&vec![gone], false);
    assert!(last.force_save);
    assert!(!other.runtimes.contains_key(&2));
    assert_eq!(other.drain_event_pump(Some(5)), EventPumpSchedule::BackgroundOutput(5));
    assert!(!other.drain_driver_events(&Vec::new(), false).redraws());
    assert!(other.drain_driver_events(&Vec::new(), true).redraws());
}

#[test]
fn saving_waits_unless_it_must_not() {
    assert!(saves_now(true, true, 0, 1000));
    assert!(saves_now(true, false, 1000, 1000));
    assert!(!saves_now(true, false, 999, 1000));
    assert!(!saves_now(false, true, 5000, 1000));
    let mut dirty = true;
    match save(&mut dirty, Some("daemon".into()), Some("disk".into())) {
        Some(Label::MessageWith { key, name, value }) => {
            assert_eq!((key, name, value.as_str()), ("errors.save_local_state", "error", "daemon"));
        }
        other => panic!("{other:?}"),
    }
    assert!(dirty);
    assert!(save(&mut dirty, None, Some("disk".into())).is_some());
    assert!(dirty);
    assert!(save(&mut dirty, None, None).is_none());
    assert!(!dirty);
}

#[test]
fn when_to_look_again() {
    assert_eq!(next_schedule(true, Some(5)), EventPumpSchedule::StreamFrame);
    assert_eq!(next_schedule(false, Some(5)), EventPumpSchedule::BackgroundOutput(5));
    assert_eq!(next_schedule(false, None), EventPumpSchedule::Idle);
    assert_eq!(latest_of(vec![1, 2, 3]), Some(3));
    assert_eq!(latest_of(Vec::<u8>::new()), None);
    assert!(sweep_is_due(60_000, 60_000));
    assert!(!sweep_is_due(59_999, 60_000));
}

#[test]
fn options_are_numbered_and_idle_agents_let_go() {
    let mut client = waku(vec![session(1), session(2)]);
    assert!(client.apply_session_options(1).is_none());
    client.runtimes.insert(1, agent());
    client.runtimes.insert(2, agent());
    let (_, first) = client.apply_session_options(1).unwrap();
    let (_, second) = client.apply_session_options(1).unwrap();
    assert_eq!((first, second), (1, 2));
    assert!(!client.restarts_after_options(1, first, false));
    assert!(client.restarts_after_options(1, second, false));
    assert!(!client.restarts_after_options(1, second, true));
    assert_eq!(client.reap_idle_sessions(&vec![2, 3, 2]), vec![2]);
    assert!(client.runtimes.contains_key(&1));
}
