use waku::protocol::{
    DriverEvent, InteractionMode, MessageRole, RuntimeMode, SequencedEvent, SequencedPayload,
    SessionStatus,
};
use waku::web::app::{
    default_address, default_provider, start_options, AttachLoad, ProjectChoice,
    PromptAction, SessionLoad, StartLoad, StartedTask, TaskStateLoad, WebApp, WebProject,
    WebSession,
};
use waku::web::client::{
    connect_outcome, ClientAction, HandshakeEnd, ReplayCursor, ServerMessage, SocketFault,
    WebDaemonClient,
};
use waku::web::daemon_url::{check_url, daemon_url, normalize_address, DaemonUrlError, UrlParts};
use waku::web::reduce::{reduce_event, SessionSnapshot, TranscriptState, WebEvent, WebMessage};

// ---------------------------------------------------------------------------
// Addresses
// ---------------------------------------------------------------------------
#[test]
fn addresses_become_endpoints() {
    for (address, url) in [
        ("127.0.0.1:34123", "ws://127.0.0.1:34123/v1"),
        (" Example.com ", "ws://example.com/v1"),
        ("http://host:1/x?y#z", "ws://host:1/v1"),
        ("https://host", "wss://host/v1"),
        ("WSS://host", "wss://host/v1"),
        ("ws://[::1]:9", "ws://[::1]:9/v1"),
    ] {
        assert_eq!(daemon_url(address, false).as_deref(), Ok(url), "{address}");
        assert_eq!(daemon_url(url, false).as_deref(), Ok(url), "{address}");
    }
    assert_eq!(daemon_url("wss://host", true).as_deref(), Ok("wss://host/v1"));
}

#[test]
fn a_host_that_is_too_long_to_be_read_again_is_still_written() {
    let label: String = (0..1000).map(|i| char::from_u32(0x4e00 + 20 * i).unwrap()).collect();
    let url = daemon_url(&label, false).unwrap();
    assert!(url.starts_with("ws://xn--") && url.ends_with("/v1"));
    assert!(url.len() > 2004);
    assert_eq!(daemon_url(&url, false), Err(DaemonUrlError::Invalid));

    let short: String = label.chars().take(10).collect();
    let url = daemon_url(&short, false).unwrap();
    assert!(url.starts_with("ws://xn--") && url.ends_with("/v1"));
    assert_eq!(daemon_url(&url, false).as_deref(), Ok(url.as_str()));
}

#[test]
fn addresses_that_cannot_be_used() {
    for (address, secure, error) in [
        ("  ", false, DaemonUrlError::AddressRequired),
        ("ftp://host", false, DaemonUrlError::UnsupportedScheme),
        ("host", true, DaemonUrlError::ExplicitSecureRequired),
        ("ws://host", true, DaemonUrlError::SecureRequired),
        ("ws://", false, DaemonUrlError::Invalid),
        ("ws://ho st", false, DaemonUrlError::Invalid),
        ("ws://user@host", false, DaemonUrlError::HostAndNoCredentials),
        ("ws://user:word@host", false, DaemonUrlError::HostAndNoCredentials),
    ] {
        assert_eq!(daemon_url(address, secure), Err(error), "{address}");
    }
    assert_eq!(
        DaemonUrlError::SecureRequired.message(),
        "This secure WakuWaku page requires a wss:// daemon URL"
    );
    assert_eq!(DaemonUrlError::AddressRequired.message(), "WakuWaku daemon address is required");
    assert_eq!(normalize_address("HTTPS://Host/p", false).as_deref(), Ok("wss://Host/p"));
    let parts = |scheme: &str, host: Option<&str>| UrlParts {
        scheme: scheme.into(),
        host: host.map(str::to_string),
        username: String::new(),
        password: None,
        path: "/".into(),
        query: None,
        fragment: None,
    };
    assert_eq!(check_url(&parts("ws", Some("h")), false), Ok(()));
    assert_eq!(
        check_url(&parts("wss", None), false),
        Err(DaemonUrlError::HostAndNoCredentials)
    );
    assert_eq!(
        check_url(&parts("http", Some("h")), false),
        Err(DaemonUrlError::UnsupportedScheme)
    );
}

// ---------------------------------------------------------------------------
// The connection
// ---------------------------------------------------------------------------
fn event(session_id: u128, epoch: u128, sequence: u64, payload: DriverEvent) -> SequencedEvent {
    SequencedEvent {
        session_id,
        runtime_id: 9,
        epoch,
        sequence,
        payload: SequencedPayload::Driver { event: Some(payload) },
    }
}

fn connected_client() -> WebDaemonClient {
    let mut client = WebDaemonClient::connect(3, &Vec::new());
    assert!(!client.connected(true));
    assert!(matches!(
        client.handle_message(ServerMessage::Hello { protocol_version: 3 }),
        ClientAction::HandshakeDone
    ));
    assert!(client.connected(true));
    assert!(!client.connected(false));
    client
}

#[test]
fn handshakes_want_the_same_protocol() {
    connected_client();
    let failure = |message: ServerMessage| {
        let mut client = WebDaemonClient::connect(3, &Vec::new());
        match client.handle_message(message) {
            ClientAction::Fail(failure) => {
                assert!(failure.handshake);
                failure.message
            }
            _ => panic!("the handshake must fail"),
        }
    };
    assert_eq!(
        failure(ServerMessage::Hello { protocol_version: 4 }),
        "daemon protocol 4 does not match client protocol 3"
    );
    assert_eq!(
        failure(ServerMessage::Rejected { message: "no".into() }),
        "daemon rejected connection: no"
    );
    assert_eq!(
        failure(ServerMessage::TaskStateChanged),
        "WakuWaku daemon sent an invalid handshake response"
    );
    assert_eq!(connect_outcome(HandshakeEnd::Done, true), Ok(()));
    assert_eq!(
        connect_outcome(HandshakeEnd::Done, false),
        Err("WakuWaku daemon disconnected during handshake".to_string())
    );
    assert_eq!(
        connect_outcome(HandshakeEnd::Cancelled, true),
        Err("WakuWaku daemon handshake was cancelled".to_string())
    );
    assert_eq!(connect_outcome(HandshakeEnd::Failed("x".into()), true), Err("x".to_string()));
}

#[test]
fn requests_are_answered_or_fail_together() {
    let mut client = connected_client();
    assert_eq!(client.request(1, false), Err("WakuWaku daemon is disconnected"));
    assert_eq!(client.request(1, true), Ok(()));
    assert_eq!(client.request(2, true), Ok(()));
    assert!(matches!(
        client.handle_message(ServerMessage::Response { request_id: 1 }),
        ClientAction::Resolve(1)
    ));
    assert!(matches!(
        client.handle_message(ServerMessage::Response { request_id: 1 }),
        ClientAction::Nothing
    ));
    assert_eq!(client.request(3, true), Ok(()));
    client.remove_pending(3);
    match client.handle_message(ServerMessage::ShuttingDown) {
        ClientAction::Fail(failure) => {
            assert_eq!(failure.message, "WakuWaku daemon is shutting down");
            assert_eq!(failure.requests, vec![2]);
        }
        _ => panic!("the connection must fail"),
    }
    assert!(!client.connected(true));
    assert!(matches!(client.socket_failed(SocketFault::Closed), ClientAction::Nothing));
}

#[test]
fn faults_of_the_socket_are_told_apart() {
    let fault = |fault: SocketFault| match connected_client().socket_failed(fault) {
        ClientAction::Fail(failure) => (failure.message, failure.close),
        _ => panic!("the connection must fail"),
    };
    assert_eq!(
        fault(SocketFault::Request("x".into())),
        ("could not send WakuWaku request: x".to_string(), Some((1011, "send failed")))
    );
    assert_eq!(
        fault(SocketFault::Hello("x".into())),
        ("could not send WakuWaku handshake: x".to_string(), Some((1002, "handshake failed")))
    );
    assert_eq!(fault(SocketFault::NotText).1, Some((1002, "text messages required")));
    assert_eq!(fault(SocketFault::Broken).1, None);
    match connected_client().handle_unreadable("eof") {
        ClientAction::Fail(failure) => {
            assert_eq!(failure.message, "WakuWaku daemon sent invalid JSON: eof");
        }
        _ => panic!("the connection must fail"),
    }
}

#[test]
fn events_are_handed_on_once_and_held_until_someone_listens() {
    let mut client = connected_client();
    let text = |n: u64| event(1, 5, n, DriverEvent::TextDelta(format!("{n}")));
    match client.accept_event(text(1)) {
        ClientAction::Deliver(held, to) => {
            assert!(to.is_empty());
            client.settle_event(held, to);
        }
        _ => panic!("the event is new"),
    }
    assert!(matches!(client.accept_event(text(1)), ClientAction::Nothing));
    let held = client.subscribe(1, 9, 70);
    assert_eq!(held.len(), 1);
    assert_eq!(held[0].sequence, 1);
    assert!(client.subscribe(1, 9, 71).is_empty());
    match client.accept_event(text(2)) {
        ClientAction::Deliver(next, to) => {
            assert_eq!(to, vec![70, 71]);
            client.settle_event(next, vec![71]);
        }
        _ => panic!("the event is new"),
    }
    match client.accept_event(event(1, 6, 1, DriverEvent::TurnStarted)) {
        ClientAction::Deliver(_, to) => assert_eq!(to, vec![71]),
        _ => panic!("another epoch counts anew"),
    }
}

#[test]
fn a_connection_goes_on_where_it_was_left() {
    let cursor = ReplayCursor { session_id: 1, runtime_id: 9, epoch: 5, sequence: 10 };
    let mut client = WebDaemonClient::connect(3, &vec![cursor]);
    client.handle_message(ServerMessage::Hello { protocol_version: 3 });
    assert!(matches!(
        client.accept_event(event(1, 5, 10, DriverEvent::TurnStarted)),
        ClientAction::Nothing
    ));
    assert!(matches!(
        client.accept_event(event(1, 5, 11, DriverEvent::TurnStarted)),
        ClientAction::Deliver(..)
    ));
}

#[test]
fn only_so_many_events_are_held() {
    let mut client = connected_client();
    for n in 1..=5000u64 {
        if let ClientAction::Deliver(held, to) =
            client.accept_event(event(1, 5, n, DriverEvent::Other))
        {
            client.settle_event(held, to);
        }
    }
    let held = client.subscribe(1, 9, 70);
    assert!(held.len() < 5000);
    assert_eq!(held.last().unwrap().sequence, 5000);
}

// ---------------------------------------------------------------------------
// The transcript
// ---------------------------------------------------------------------------
#[test]
fn events_make_a_transcript() {
    let mut transcript = TranscriptState::default();
    transcript.apply(WebEvent::TurnStarted);
    assert!(transcript.turn_in_progress);
    transcript.apply(WebEvent::ReasoningDelta("hm".into()));
    transcript.apply(WebEvent::TextDelta("a".into()));
    transcript.apply(WebEvent::TextDelta("b".into()));
    assert_eq!(transcript.messages.last().unwrap().content, "ab");
    assert_eq!(transcript.messages.last().unwrap().role, MessageRole::Assistant);
    assert_eq!(transcript.reasoning, "hm");
    transcript.apply(WebEvent::TurnFinished { success: true, summary: Some("done".into()) });
    assert!(!transcript.turn_in_progress);
    assert_eq!(transcript.last_result.as_ref().unwrap().summary.as_deref(), Some("done"));
    transcript.apply(WebEvent::AutoTitleUpdated(Some("Title".into())));
    assert_eq!(transcript.title.as_deref(), Some("Title"));
    transcript.apply(WebEvent::Connected);
    assert!(transcript.connected);
    transcript.apply(WebEvent::Error("no".into()));
    assert_eq!(transcript.error.as_deref(), Some("no"));
    transcript.hydrate(&SessionSnapshot {
        title: "T".into(),
        status: SessionStatus::Working,
        messages: vec![WebMessage::new(MessageRole::User, "q".into())],
    });
    assert_eq!(transcript.messages.len(), 1);
    assert!(transcript.turn_in_progress);
}

#[test]
fn events_that_mean_nothing_to_a_page() {
    assert!(reduce_event(&event(1, 1, 1, DriverEvent::Permission)).is_none());
    assert!(matches!(
        reduce_event(&event(1, 1, 1, DriverEvent::TextDelta("x".into()))),
        Some(WebEvent::TextDelta(_))
    ));
}

// ---------------------------------------------------------------------------
// The page
// ---------------------------------------------------------------------------
fn web_session(id: u128) -> WebSession {
    WebSession {
        id,
        project_id: 4,
        title: format!("task {id}"),
        auto_title: None,
        status: SessionStatus::Idle,
        provider: "openai-codex".into(),
        model: None,
        runtime_mode: RuntimeMode::AutoAcceptEdits,
        interaction_mode: InteractionMode::Plan,
        reasoning_effort: None,
        service_tier: None,
        context_window: None,
    }
}

fn web_project() -> WebProject {
    WebProject { id: 4, name: "P".into(), path: "/p".into() }
}

fn app() -> WebApp {
    let mut app = WebApp::new();
    assert_eq!(app.connect(" host ").as_deref(), Some("host"));
    assert_eq!(app.connect("host"), None);
    assert!(app.finish_connect(Ok(())));
    app.load_task_state(TaskStateLoad::Loaded {
        projects: vec![web_project()],
        sessions: vec![web_session(1), web_session(2)],
        default_cwd: "/cwd".into(),
    });
    app
}

#[test]
fn a_page_connects_and_loads() {
    assert_eq!(default_address(), "127.0.0.1:34123");
    assert_eq!(default_provider(), "openai-codex");
    let mut app = WebApp::new();
    assert_eq!(app.render_connect().label, "Connect");
    assert_eq!(app.connect("  "), None);
    assert_eq!(app.error.as_deref(), Some("Enter a daemon address."));
    assert_eq!(app.render_connect().error.as_deref(), Some("Enter a daemon address."));
    assert!(matches!(app.submit_prompt("go", false), PromptAction::Nothing));
    assert_eq!(app.error.as_deref(), Some("Connect to a WakuWaku daemon first."));
    app.connect("host");
    assert_eq!(app.render_connect().label, "Connecting…");
    assert!(!app.finish_connect(Err("down".into())));
    assert_eq!(app.error.as_deref(), Some("down"));
    app.load_task_state(TaskStateLoad::Invalid);
    assert_eq!(app.error.as_deref(), Some("Daemon returned invalid task state."));
}

#[test]
fn a_task_is_shown_and_followed() {
    let mut app = app();
    assert!(app.attach_session(1));
    assert!(app.finish_attach(AttachLoad::Runtime { runtime_id: Some(9), supports_steer: true }));
    app.finish_hydrate(SessionLoad::Loaded {
        session: web_session(1),
        snapshot: SessionSnapshot {
            title: "T".into(),
            status: SessionStatus::Idle,
            messages: vec![WebMessage::new(MessageRole::User, "q".into())],
        },
    });
    assert!(app.apply_event(&event(1, 1, 1, DriverEvent::TurnStarted)));
    assert_eq!(app.sessions[0].status, SessionStatus::Working);
    assert_eq!(app.selected_session.as_ref().unwrap().status, SessionStatus::Working);
    assert!(!app.apply_event(&event(2, 1, 1, DriverEvent::TurnStarted)));
    assert_eq!(app.sessions[1].status, SessionStatus::Idle);
    match app.submit_steer(" left ") {
        PromptAction::Send { session_id: 1, runtime_id: 9, prompt, steer: true } => {
            assert_eq!(prompt, "left");
        }
        other => panic!("{other:?}"),
    }
    let rows = app.render_transcript();
    assert_eq!(rows[0].label, "You");
    assert_eq!(rows[0].element_id, "web-message-0");
    assert_eq!(rows.last().unwrap().text, "left");
    let sessions = app.session_rows();
    assert!(sessions[0].active && !sessions[1].active);
    assert_eq!(sessions[0].element_id, "session-00000000-0000-0000-0000-000000000001");
    app.prompt_failed("lost".into());
    assert_eq!(app.transcript.error.as_deref(), Some("lost"));
    app.finish_hydrate(SessionLoad::Missing);
    assert_eq!(app.error.as_deref(), Some("The selected session no longer exists."));
    app.finish_hydrate(SessionLoad::Invalid);
    assert_eq!(app.error.as_deref(), Some("Daemon returned invalid session data."));
    assert!(!app.finish_attach(AttachLoad::Invalid));
    assert_eq!(app.error.as_deref(), Some("Daemon returned invalid runtime attachment."));
    app.new_task();
    assert_eq!(app.selected_session_id, None);
    assert_eq!(app.workspace_title(None), "New task");
    let page = app.render_workspace(None);
    assert_eq!(page.title, "New task");
    assert_eq!(page.tasks.len(), 2);
    assert!(page.transcript.is_empty() && page.error.is_none());
}

#[test]
fn prompts_start_tasks() {
    let mut app = app();
    assert!(matches!(app.submit_prompt("  ", false), PromptAction::Nothing));
    assert!(matches!(app.submit_prompt("go", false), PromptAction::StartNew(p) if p == "go"));
    assert!(app.attach_session(2));
    assert!(matches!(app.submit_prompt("go", true), PromptAction::Nothing));
    assert_eq!(app.error.as_deref(), Some("The selected task has no running runtime."));
    assert!(matches!(app.submit_prompt("go", false), PromptAction::StartExisting(_)));
    assert!(matches!(app.new_task_project(), ProjectChoice::Known(p) if p.id == 4));
    let mut stray = web_session(3);
    stray.project_id = 8;
    match app.project_for_session(&stray) {
        ProjectChoice::FromPath { path, id } => {
            assert_eq!((path.as_str(), id), ("/cwd", Some(8)));
        }
        other => panic!("{other:?}"),
    }
    let plan = app.start_new_task(&web_project(), &web_session(3));
    assert_eq!(plan.projects.len(), 1);
    assert_eq!(plan.sessions.len(), 3);
    assert!(plan.busy.is_empty());
    assert_eq!(plan.options.cwd, "/p");
    assert_eq!(plan.options.mode, "autoAcceptEdits");
    assert_eq!(plan.options.interaction_mode, "plan");
    assert_eq!(start_options(&web_session(1), &web_project()).provider, "openai-codex");
    assert_eq!(app.start_existing_task(&web_project(), &web_session(2)).sessions.len(), 2);
    let started = |id: u128| StartedTask {
        projects: vec![web_project()],
        session: web_session(id),
        title: "Go".into(),
        runtime_id: 77,
        prompt: "go".into(),
    };
    assert!(!app.finish_start(started(3), StartLoad::Invalid));
    assert_eq!(app.error.as_deref(), Some("Daemon returned invalid start response."));
    assert!(app.finish_start(started(3), StartLoad::Started { supports_steer: true }));
    assert_eq!(app.selected_session_id, Some(3));
    assert_eq!(app.runtime_id, Some(77));
    assert_eq!(app.transcript.messages.last().unwrap().content, "go");
}
