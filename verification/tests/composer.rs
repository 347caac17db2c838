use std::collections::{HashMap, HashSet};
use waku::composer::attachments::{
    dropped_file_mention, file_upload, is_image_attachment_path, merged_submission,
    pasted_image_name, plan_upload, restore_composer_submission, split_clipboard,
    stage_attachment_paths, stage_daemon_attachment, stage_pasted_attachments, stage_stored,
    submission_with_attachments, AttachmentUpload, ClipboardEntry, DirectoryUpload, PathKind,
    StageOutcome, StoredAttachment, StoredBlob, UploadError, UploadLimits, UploadPlan, WalkStep,
};
use waku::composer::branches::{
    render_branch_selector, selected_branch, visible_branch_entries, BranchEntry,
    BranchPickerMode, BranchPickerState, BranchSnapshot, PickerFocus,
};
use waku::composer::controls::{
    composer_submit_action, render_access_control, render_composer, render_fast_mode_control,
    render_interaction_mode_control, render_reasoning_effort_control, render_submit,
    ComposerSubmitAction,
};
use waku::composer::model_control::{
    drop_incompatible_session_model, reconcile_composer_provider_selection,
    render_provider_model_control, reveal_selected_picker_model, toggle_model_picker, ModelPicker,
    ReconcileAction,
};
use waku::composer::picker_rows::{ModelPickerRowsCache, ModelPickerTab};
use waku::composer::questions::{
    render_permission, render_user_input, PendingPermission, PendingUserInput, PermissionOption,
    Question, QuestionOption, RequestCard,
};
use waku::composer::workspace::{
    attachment_tile, remove_attachment, render_composer_attachments, render_queued_messages,
    render_workspace_footer, tile_key, TileKey, TileKind,
};
use waku::key_map::KeyMap;
use waku::label::Label;
use waku::protocol::{InteractionMode, RuntimeMode, ServiceTier, SessionStatus};
use waku::providers::{
    CatalogSource, ExternalProvider, ModelCapabilities, ModelCatalog, ModelCatalogEntry,
    ReasoningEffortOption,
};
use waku::runtime::state::{SessionRuntime, Waku};
use waku::runtime::sync::TaskState;
use waku::session::{
    AgentSession, MessageAttachment, Project, QueuedMessage, SessionWorkspace,
};

fn session(id: u128) -> AgentSession {
    AgentSession {
        id,
        project_id: 100,
        title: "t".into(),
        auto_title: None,
        provider: "mine".into(),
        model: Some("m1".into()),
        runtime_mode: RuntimeMode::Ask,
        interaction_mode: InteractionMode::Build,
        reasoning_effort: Some("high".into()),
        service_tier: None,
        context_window: None,
        workspace: SessionWorkspace::Local,
        status: SessionStatus::Idle,
        created_at: 0,
        updated_at: 0,
        last_reply_at: None,
        started: false,
        detail_loaded: true,
        messages: Vec::new(),
        transcript_blocks: Vec::new(),
        turns: Vec::new(),
        queued_messages: Vec::new(),
        context_usage: None,
    }
}

fn provider(id: &str) -> ExternalProvider {
    ExternalProvider {
        id: id.into(),
        name: "Mine".into(),
        base_url: "https://example.test/v1".into(),
        api_format: "openai-chat".into(),
        api_key_env: None,
        headers: Vec::new(),
        models: Vec::new(),
        default_model: "m1".into(),
        context_window: 1000,
        max_output_tokens: 100,
    }
}

fn model(id: &str) -> ModelCatalogEntry {
    ModelCatalogEntry {
        id: id.into(),
        name: id.into(),
        reasoning_efforts: vec![
            ReasoningEffortOption {
                id: "low".into(),
                provider_value: "l".into(),
                label: "Quick".into(),
            },
            ReasoningEffortOption {
                id: "high".into(),
                provider_value: "h".into(),
                label: "Thorough".into(),
            },
        ],
        default_reasoning_effort: Some("low".into()),
        capabilities: ModelCapabilities { service_tier: true, reasoning_effort: true },
        supported: true,
        unsupported_reason: None,
    }
}

fn catalogs() -> KeyMap<String, ModelCatalog> {
    let mut all = KeyMap::new();
    all.insert(
        "mine".to_string(),
        ModelCatalog {
            provider: "mine".into(),
            source: CatalogSource::Live,
            models: vec![model("m1"), model("m2")],
        },
    );
    all
}

fn waku() -> Waku {
    Waku {
        tasks: TaskState {
            sessions: vec![session(1)],
            projects: vec![
                Project {
                    id: 100,
                    path: "/p".into(),
                    display_name: "P".into(),
                    projectless: false,
                },
                Project {
                    id: 101,
                    path: "/".into(),
                    display_name: "None".into(),
                    projectless: true,
                },
            ],
            selected_session: Some(1),
            selected_project: Some(100),
        },
        presets: Vec::new(),
        external_providers: vec![provider("mine")],
        auth_statuses: KeyMap::new(),
        model_catalogs: catalogs(),
        runtimes: HashMap::new(),
        runtime_attach_pending: HashSet::new(),
        runtime_attach_misses: HashMap::new(),
        submission_preparations: HashSet::new(),
        response_fork_preparations: HashMap::new(),
        pending_checkpoint_captures: Vec::new(),
        checkpoint_captures_in_flight: Vec::new(),
        pending_queue_drains: Vec::new(),
        message_edit: None,
        composer_attachments: Vec::new(),
        composer_handle: 0,
    }
}

fn file(mention: &str) -> MessageAttachment {
    MessageAttachment {
        path: format!("/store/{mention}"),
        mention: mention.into(),
        name: mention.into(),
        is_dir: false,
        is_image: false,
        blob_reference: None,
    }
}

// ---------------------------------------------------------------------------
// Attachments
// ---------------------------------------------------------------------------
const LIMITS: UploadLimits = UploadLimits { max_bytes: 10, max_files: 2 };

fn encoded(bytes: &[u8]) -> String {
    match file_upload(&bytes.to_vec()) {
        AttachmentUpload::File { data_base64 } => data_base64,
        other => panic!("{other:?}"),
    }
}

#[test]
fn files_go_out_in_base64() {
    assert_eq!(encoded(b""), "");
    assert_eq!(encoded(b"f"), "Zg==");
    assert_eq!(encoded(b"fo"), "Zm8=");
    assert_eq!(encoded(b"foo"), "Zm9v");
    assert_eq!(encoded(b"foob"), "Zm9vYg==");
    assert_eq!(encoded(&[0xfb, 0xff, 0xfe]), "+//+");
}

#[test]
fn paths_are_looked_at_before_they_are_read() {
    let name = || Some("a".to_string());
    assert_eq!(plan_upload(PathKind::File, &name(), 10, LIMITS), Ok(UploadPlan::ReadFile));
    assert_eq!(plan_upload(PathKind::File, &name(), 11, LIMITS), Err(UploadError::FileTooLarge));
    assert_eq!(
        plan_upload(PathKind::Directory, &name(), 99, LIMITS),
        Ok(UploadPlan::WalkDirectory)
    );
    assert_eq!(plan_upload(PathKind::Symlink, &None, 0, LIMITS), Err(UploadError::Symlink));
    assert_eq!(plan_upload(PathKind::File, &None, 0, LIMITS), Err(UploadError::NoFileName));
    assert_eq!(
        plan_upload(PathKind::Other, &name(), 0, LIMITS),
        Err(UploadError::NotAFileOrDirectory)
    );
    assert_eq!(
        UploadError::Symlink.message("/a"),
        "symbolic-link attachments are not supported: /a"
    );
    assert_eq!(UploadError::NoFileName.message("/a"), "attachment has no file name: /a");
    assert_eq!(UploadError::FileTooLarge.message("/a"), "attachment is larger than 32 MB: /a");
    assert_eq!(
        UploadError::NotAFileOrDirectory.message("/a"),
        "attachment is not a file or directory: /a"
    );
    assert_eq!(
        UploadError::TooManyFiles { max_files: 5 }.message("/a"),
        "attachment directory contains more than 5 files"
    );
    assert_eq!(
        UploadError::DirectoryTooLarge.message("/a"),
        "attachment directory is larger than 32 MB"
    );
}

#[test]
fn directories_stay_within_their_limits() {
    let mut walk = DirectoryUpload::new();
    assert_eq!(walk.meet(PathKind::Symlink, 99, LIMITS), Ok(WalkStep::Skip));
    assert_eq!(walk.meet(PathKind::Directory, 99, LIMITS), Ok(WalkStep::Descend));
    assert_eq!(walk.meet(PathKind::File, 6, LIMITS), Ok(WalkStep::Read));
    walk.add("a".into(), &b"foobar".to_vec());
    assert_eq!(walk.meet(PathKind::File, 4, LIMITS), Ok(WalkStep::Read));
    walk.add("b".into(), &b"foob".to_vec());
    assert_eq!(
        walk.meet(PathKind::File, 0, LIMITS),
        Err(UploadError::TooManyFiles { max_files: 2 })
    );
    match walk.finish() {
        AttachmentUpload::Directory { entries } => {
            assert_eq!(entries.len(), 2);
            assert_eq!(entries[0].relative_path, "a");
            assert_eq!(entries[0].data_base64, "Zm9vYmFy");
        }
        other => panic!("{other:?}"),
    }
    let mut walk = DirectoryUpload::new();
    assert_eq!(walk.meet(PathKind::File, 11, LIMITS), Err(UploadError::DirectoryTooLarge));
}

#[test]
fn images_and_mentions() {
    assert!(is_image_attachment_path(Some("PNG")));
    assert!(is_image_attachment_path(Some("ppm")));
    assert!(!is_image_attachment_path(Some("rs")));
    assert!(!is_image_attachment_path(None));
    assert_eq!(dropped_file_mention(Some("src/a.rs"), "/p/src/a.rs", false), "src/a.rs");
    assert_eq!(dropped_file_mention(Some(""), "/p", true), "/p/");
    assert_eq!(dropped_file_mention(None, "/x/", true), "/x/");
    assert_eq!(pasted_image_name(Some("jpg"), 0, 1), "image.jpg");
    assert_eq!(pasted_image_name(None, 1, 2), "image-2.png");
    let (paths, images) = split_clipboard(vec![
        ClipboardEntry::Text,
        ClipboardEntry::Image { bytes: Vec::new() },
        ClipboardEntry::Image { bytes: vec![1] },
        ClipboardEntry::Paths(vec!["/a".into(), "/b".into()]),
    ]);
    assert_eq!(paths, vec!["/a", "/b"]);
    assert_eq!(images, vec![vec![1]]);
}

#[test]
fn files_are_staged_once_each() {
    let stored = |path: &str| StoredAttachment {
        path: path.into(),
        name: "a".into(),
        is_dir: false,
        is_image: false,
        reference: format!("wakuwaku-attachment:{path}"),
    };
    let mut files = Vec::new();
    assert!(stage_daemon_attachment(&mut files, stored("/a")));
    assert!(!stage_daemon_attachment(&mut files, stored("/a")));
    assert!(stage_stored(&mut files, vec![stored("/a"), stored("/b")]));
    assert!(!stage_stored(&mut files, vec![stored("/b")]));
    assert_eq!(files.len(), 2);
    assert!(remove_attachment(&mut files, 0));
    assert!(!remove_attachment(&mut files, 7));
    assert_eq!(files.len(), 1);
}

#[test]
fn answers_about_files_are_for_the_draft_that_is_shown() {
    let stored = || StoredAttachment {
        path: "/a".into(),
        name: "a".into(),
        is_dir: false,
        is_image: false,
        reference: "wakuwaku-attachment:a".into(),
    };
    let mut files = Vec::new();
    let late = stage_attachment_paths(&mut files, false, Ok(vec![stored()]));
    assert!(matches!(late, StageOutcome::Nothing));
    assert!(files.is_empty());
    let new = stage_attachment_paths(&mut files, true, Ok(vec![stored()]));
    assert!(matches!(new, StageOutcome::SaveDraft));
    let again = stage_attachment_paths(&mut files, true, Ok(vec![stored()]));
    assert!(matches!(again, StageOutcome::Nothing));
    match stage_attachment_paths(&mut files, false, Err("too large".into())) {
        StageOutcome::Tell(Label::Plain(text)) => assert_eq!(text, "too large"),
        other => panic!("{:?}", other),
    }
    let blob = |path: &str, extension: Option<&str>| StoredBlob {
        path: path.into(),
        extension: extension.map(|e| e.to_string()),
        reference: format!("wakuwaku-blob:{path}"),
    };
    let images = vec![blob("/x.gif", Some("gif")), blob("/y", None)];
    let pasted = stage_pasted_attachments(&mut files, true, Ok(images));
    assert!(matches!(pasted, StageOutcome::SaveDraft));
    assert_eq!(files.len(), 3);
    assert_eq!(files[1].name, "image-1.gif");
    assert_eq!(files[2].name, "image-2.png");
    assert!(files[2].is_image && !files[2].is_dir);
    match stage_pasted_attachments(&mut files, true, Err("full".into())) {
        StageOutcome::Tell(Label::MessageWith { key, value, .. }) => {
            assert_eq!(key, "errors.store_pasted_image");
            assert_eq!(value, "full");
        }
        other => panic!("{:?}", other),
    }
    assert_eq!(files.len(), 3);
}

#[test]
fn prompts_mention_their_files() {
    assert_eq!(merged_submission("  ", &Vec::new()), None);
    assert_eq!(merged_submission(" hi ", &Vec::new()).as_deref(), Some("hi"));
    assert_eq!(merged_submission("", &vec!["a".into(), "b/".into()]).as_deref(), Some("@a @b/"));
    assert_eq!(merged_submission("hi", &vec!["a".into()]).as_deref(), Some("hi @a"));
    let mut files = vec![file("a")];
    let sent = submission_with_attachments("hi", &mut files).unwrap();
    assert!(files.is_empty());
    assert_eq!(sent.prompt, "hi @a");
    assert_eq!(sent.display_content.as_deref(), Some("hi"));
    let text = restore_composer_submission(sent, &mut files);
    assert_eq!(text, "hi");
    let again = submission_with_attachments(&text, &mut files).unwrap();
    assert_eq!(again.prompt, "hi @a");
    assert!(submission_with_attachments(" ", &mut files).is_none());
}

// ---------------------------------------------------------------------------
// Questions
// ---------------------------------------------------------------------------
fn question(id: &str) -> Question {
    Question {
        id: id.into(),
        header: "Header".into(),
        question: "Which?".into(),
        options: vec![
            QuestionOption { label: "A".into(), description: None },
            QuestionOption { label: "B".into(), description: Some("b".into()) },
        ],
    }
}

#[test]
fn questions_are_asked_one_by_one() {
    let mut pending = PendingUserInput {
        request_id: "r".into(),
        questions: vec![question("q1"), question("q2")],
        question_index: 0,
        selections: KeyMap::new(),
        custom_answers: KeyMap::new(),
    };
    let card = render_user_input(&pending).unwrap();
    assert_eq!(card.id, "user-input-r");
    assert!(!card.can_continue && card.back_id.is_none());
    assert_eq!(card.answers[1].id, "user-input-r-0-option-1");
    assert!(matches!(card.continue_label, Label::Message("user_input.next")));
    pending.selections.insert("q1".into(), vec!["B".into()]);
    let card = render_user_input(&pending).unwrap();
    assert!(card.can_continue && card.answers[1].selected && !card.answers[0].selected);
    pending.question_index = 1;
    pending.custom_answers.insert("q2".into(), "  mine ".into());
    let card = render_user_input(&pending).unwrap();
    assert!(card.can_continue && card.has_custom);
    assert_eq!(card.back_id.as_deref(), Some("user-input-r-1-back"));
    assert!(matches!(card.continue_label, Label::Message("user_input.submit")));
    pending.question_index = 2;
    assert!(render_user_input(&pending).is_none());
    assert!(matches!(render_permission(&Some(pending), &None), Some(RequestCard::Question(None))));
}

#[test]
fn permissions_have_a_button_for_each_option() {
    let permission = PendingPermission {
        request_id: "r".into(),
        title: "Run?".into(),
        detail: "rm".into(),
        options: vec![PermissionOption { id: "yes".into(), label: "Yes".into(), allow: true }],
    };
    match render_permission(&None, &Some(permission)) {
        Some(RequestCard::Permission { title, buttons, .. }) => {
            assert_eq!(title, "Run?");
            assert_eq!(buttons[0].id, "permission-r-yes");
            assert!(buttons[0].allow);
        }
        other => panic!("{other:?}"),
    }
    assert!(render_permission(&None, &None).is_none());
}

// ---------------------------------------------------------------------------
// Controls
// ---------------------------------------------------------------------------
#[test]
fn the_button_sends_waits_or_stops() {
    assert_eq!(composer_submit_action(None, false), ComposerSubmitAction::Send);
    assert_eq!(
        composer_submit_action(Some(SessionStatus::Working), false),
        ComposerSubmitAction::Stop
    );
    assert_eq!(
        composer_submit_action(Some(SessionStatus::Idle), false),
        ComposerSubmitAction::Send
    );
    let idle = render_submit(Some(SessionStatus::Idle), false, " ", 1, true);
    assert!(idle.has_draft && idle.shows_attachments);
    let mut client = waku();
    assert_eq!(render_composer(&client, "x", false).action, ComposerSubmitAction::Send);
    client.tasks.sessions[0].status = SessionStatus::Working;
    assert_eq!(render_composer(&client, "x", false).action, ComposerSubmitAction::Stop);
}

#[test]
fn controls_offer_what_the_model_can_do() {
    let catalogs = catalogs();
    let task = session(1);
    let effort = render_reasoning_effort_control(Some(&task), &catalogs).unwrap();
    assert_eq!(effort.label, "Thorough");
    assert_eq!(effort.items.len(), 2);
    assert!(effort.items[1].selected);
    let fast = render_fast_mode_control(Some(&task), &catalogs).unwrap();
    assert!(!fast.enabled);
    assert_eq!(fast.next, Some(ServiceTier::Priority));
    let mut unknown = session(1);
    unknown.model = Some("m9".into());
    assert!(render_reasoning_effort_control(Some(&unknown), &catalogs).is_none());
    assert!(render_fast_mode_control(Some(&unknown), &catalogs).is_none());
    let access = render_access_control(
        Some(&task),
        &vec![RuntimeMode::Ask, RuntimeMode::AutoAcceptEdits, RuntimeMode::FullAccess],
    );
    assert_eq!(access.selected, RuntimeMode::Ask);
    assert_eq!(access.items.iter().filter(|(_, selected)| *selected).count(), 1);
    let mode = render_interaction_mode_control(Some(&task));
    assert_eq!((mode.mode, mode.next), (InteractionMode::Build, InteractionMode::Plan));
}

// ---------------------------------------------------------------------------
// The model
// ---------------------------------------------------------------------------
fn picker() -> ModelPicker {
    ModelPicker {
        rows: ModelPickerRowsCache { key: None, rows: std::rc::Rc::new(Vec::new()) },
        laid_out: Vec::new(),
        highlight: None,
        catalog_generation: 0,
        auth_generation: 0,
        favorite_generation: 0,
        favorites: Vec::new(),
        tab: ModelPickerTab::All,
        last_provider: "mine".into(),
        last_model: Some("m1".into()),
    }
}

#[test]
fn the_picker_lists_and_confirms_models() {
    let client = waku();
    let mut picker = picker();
    let task = session(1);
    let control =
        render_provider_model_control(&client, &mut picker, Some(&task), "", true, false).unwrap();
    assert_eq!(control.label, "Mine · m1");
    assert_eq!(control.rows.len(), 2);
    assert!(control.rows[0].selected);
    assert_eq!(reveal_selected_picker_model(&client, &picker), Some(0));
    let mut search = "m2".to_string();
    picker.highlight = Some(1);
    let closed = toggle_model_picker(&client, &mut picker, false, &mut search);
    assert_eq!((closed.focus, closed.reveal), (PickerFocus::Composer, None));
    assert_eq!((picker.highlight, search.as_str()), (Some(1), "m2"));
    let opened = toggle_model_picker(&client, &mut picker, true, &mut search);
    assert_eq!((opened.focus, opened.reveal), (PickerFocus::Search, Some(0)));
    assert_eq!((picker.highlight, search.as_str()), (None, ""));
    assert_eq!(picker.move_model_picker_highlight("end", 2), Some(1));
    assert_eq!(
        picker.confirm_model_picker_selection(&control.rows),
        Some(("mine".to_string(), "m2".to_string()))
    );
    assert!(!picker.sync_model_picker_rows(&control.rows) || picker.laid_out.len() == 2);
    picker.bump_catalog_generation();
    picker.bump_auth_generation();
    assert_eq!((picker.catalog_generation, picker.auth_generation), (1, 1));
}

#[test]
fn choices_that_no_longer_work_are_mended() {
    let mut client = waku();
    let mut picker = picker();
    assert!(matches!(
        reconcile_composer_provider_selection(&mut client, &mut picker),
        ReconcileAction::Choose { .. }
    ));
    client.tasks.sessions[0].model = Some("m9".into());
    match reconcile_composer_provider_selection(&mut client, &mut picker) {
        ReconcileAction::Choose { provider, model } => {
            assert_eq!((provider.as_str(), model.as_str()), ("mine", "m1"));
        }
        other => panic!("{other:?}"),
    }
    client.tasks.sessions[0].model = Some("m1".into());
    assert!(!drop_incompatible_session_model(&mut client, &mut picker));
    client.external_providers.clear();
    assert!(matches!(
        reconcile_composer_provider_selection(&mut client, &mut picker),
        ReconcileAction::Nothing
    ));
}

// ---------------------------------------------------------------------------
// Branches
// ---------------------------------------------------------------------------
fn branch(name: &str, elsewhere: bool) -> BranchEntry {
    BranchEntry { name: name.into(), checked_out_elsewhere: elsewhere }
}

fn snapshot() -> BranchSnapshot {
    BranchSnapshot {
        current: Some("main".into()),
        display: Some("main".into()),
        default_branch: Some("main".into()),
        branches: vec![branch("topic", false), branch("main", false), branch("alt", true)],
    }
}

#[test]
fn the_selected_branch_comes_first() {
    let entries = visible_branch_entries(&snapshot().branches, "main", "");
    assert_eq!(entries[0].name, "main");
    assert_eq!(entries.len(), 3);
    let found = visible_branch_entries(&snapshot().branches, "main", "to");
    assert_eq!(found.len(), 1);
    assert_eq!(
        selected_branch(&SessionWorkspace::Local, &snapshot(), "detached"),
        "main"
    );
    let nowhere = BranchSnapshot { current: None, display: None, ..snapshot() };
    assert_eq!(selected_branch(&SessionWorkspace::Local, &nowhere, "detached"), "detached");
}

#[test]
fn branches_in_use_elsewhere_cannot_be_chosen() {
    let state = BranchPickerState {
        open: true,
        mode: BranchPickerMode::Browse,
        highlight: None,
        operation_pending: false,
    };
    let client = waku();
    let branches = snapshot();
    let shown = |client: &Waku, state| {
        render_branch_selector(client, Some(&branches), state, "", "detached")
    };
    let picker = shown(&client, state).unwrap().picker.unwrap();
    let alt = picker.rows.iter().find(|row| row.entry.name == "alt").unwrap();
    assert!(alt.disabled);
    assert!(picker.rows.iter().any(|row| row.selected && row.entry.name == "main"));
    let closed = BranchPickerState { open: false, ..state };
    assert!(shown(&client, closed).unwrap().picker.unwrap().rows.is_empty());
    let busy = BranchPickerState { operation_pending: true, ..state };
    let control = shown(&client, busy).unwrap();
    assert!(!control.enabled && control.picker.is_none());
    assert!(matches!(control.label, Label::Message("branches.switching")));
}

#[test]
fn the_branch_of_a_task_has_to_be_known() {
    let mut state = BranchPickerState {
        open: false,
        mode: BranchPickerMode::Create,
        highlight: Some(2),
        operation_pending: false,
    };
    let branches = snapshot();
    assert!(render_branch_selector(&waku(), None, state, "", "detached").is_none());
    let mut nothing = waku();
    nothing.tasks.selected_session = None;
    assert!(render_branch_selector(&nothing, Some(&branches), state, "", "detached").is_none());
    let mut loose = waku();
    for project in loose.tasks.projects.iter_mut() {
        project.projectless = true;
    }
    assert!(render_branch_selector(&loose, Some(&branches), state, "", "detached").is_none());
    let mut lost = waku();
    lost.tasks.projects.clear();
    assert!(render_branch_selector(&lost, Some(&branches), state, "", "detached").is_none());
    let (mut search, mut create) = ("a".to_string(), "b".to_string());
    let closed = state.toggle_branch_picker(false, &mut search, &mut create, "P".into());
    assert_eq!(closed.focus, PickerFocus::Composer);
    assert!(closed.placeholder.is_none() && !closed.refresh);
    assert_eq!((state.mode, state.highlight), (BranchPickerMode::Browse, Some(2)));
    assert_eq!((search.as_str(), create.as_str()), ("a", "b"));
    state.mode = BranchPickerMode::Create;
    let opened = state.toggle_branch_picker(true, &mut search, &mut create, "P".into());
    assert!(state.open && opened.refresh);
    assert_eq!((state.mode, state.highlight), (BranchPickerMode::Browse, None));
    assert_eq!((search.as_str(), create.as_str()), ("", ""));
    match opened.placeholder {
        Some(Label::MessageWith { key, name, value }) => {
            assert_eq!((key, name, value.as_str()), ("branches.search_project", "project", "P"));
        }
        other => panic!("{other:?}"),
    }
}

// ---------------------------------------------------------------------------
// Below the composer
// ---------------------------------------------------------------------------
#[test]
fn queued_messages_are_listed() {
    let mut client = waku();
    assert!(render_queued_messages(&client).map_or(true, |rows| rows.is_empty()));
    client.tasks.sessions[0].queued_messages.push(QueuedMessage {
        id: 7,
        content: "next @a".into(),
        display_content: Some("next".into()),
        attachments: vec![file("a")],
    });
    client.tasks.sessions[0].queued_messages.push(QueuedMessage {
        id: 8,
        content: "@a @b".into(),
        display_content: Some(String::new()),
        attachments: vec![file("a"), file("b")],
    });
    let rows = render_queued_messages(&client).unwrap();
    assert_eq!(rows[0].content, "next");
    assert_eq!(rows[0].id, "queued-message-00000000-0000-0000-0000-000000000007");
    assert_eq!(rows[1].content, "a, b");
    assert!(!rows[0].steerable);
    client.tasks.sessions[0].status = SessionStatus::Working;
    client.runtimes.insert(
        1,
        SessionRuntime {
            supports_steer: true,
            options_generation: 0,
            pending_steers: Vec::new(),
            pending_events: Vec::new(),
            stream_remeasure_pending: false,
            waits_for_user: false,
        },
    );
    assert!(render_queued_messages(&client).unwrap()[0].steerable);
}

#[test]
fn tiles_show_what_files_are() {
    let mut image = file("a.png");
    image.is_image = true;
    assert_eq!(attachment_tile(&image, 0, true).kind, TileKind::Picture);
    assert_eq!(attachment_tile(&image, 0, false).kind, TileKind::ImageIcon);
    let mut folder = file("src/");
    folder.is_dir = true;
    assert_eq!(attachment_tile(&folder, 0, false).kind, TileKind::Folder);
    let tile = attachment_tile(&file("a"), 3, false);
    assert_eq!(tile.kind, TileKind::File);
    assert_eq!(tile.id, "composer-attachment-3");
    assert_eq!(tile.tooltip, "@a");
    let tiles = render_composer_attachments(&vec![image, file("b")], &vec![true, false]);
    assert_eq!(tiles.len(), 2);
    assert_eq!(tiles[0].kind, TileKind::Picture);
    assert_eq!(tiles[1].id, "composer-attachment-1");
    assert_eq!(tile_key(TileKind::Picture, "space", false), TileKey::Preview);
    assert_eq!(tile_key(TileKind::ImageIcon, "space", false), TileKey::Nothing);
    assert_eq!(tile_key(TileKind::File, "f10", true), TileKey::Menu);
    assert_eq!(tile_key(TileKind::File, "f10", false), TileKey::Nothing);
}

#[test]
fn the_footer_names_the_project_and_the_workspace() {
    let mut client = waku();
    let footer = render_workspace_footer(&client);
    assert!(footer.can_configure && footer.local_selected && !footer.worktree_selected);
    assert_eq!(footer.workspace_icon, "icons/laptop.svg");
    assert!(matches!(footer.workspace_label, Label::Message("workspace.local")));
    assert!(footer.projects.iter().any(|p| p.id == 100 && p.selected));
    client.tasks.sessions[0].workspace = SessionWorkspace::NewWorktree { base_branch: None };
    let footer = render_workspace_footer(&client);
    assert!(footer.worktree_selected);
    assert_eq!(footer.workspace_icon, "icons/fork.svg");
}
