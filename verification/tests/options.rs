use waku::key_map::KeyMap;
use waku::protocol::{InteractionMode, RuntimeMode, ServiceTier, SessionStatus};
use waku::providers::{
    CatalogSource, ExternalProvider, ModelCapabilities, ModelCatalog, ModelCatalogEntry,
    ReasoningEffortOption,
};
use waku::runtime::options::{
    catalog_allows_reasoning_effort, catalog_allows_service_tier, catalog_entry_for,
    driver_start_request_for_session, gated_reasoning_effort, gated_service_tier,
    model_display_name, model_for_session, provider_endpoint_for_start, provider_reasoning_effort,
    reasoning_effort_for_session, service_tier_for_session, session_options, StartError,
};
use waku::runtime::prompt::{
    prompt_input_from_submission, prompt_input_from_submission_with_text, PromptAttachmentSource,
    PromptImageRef,
};
use waku::session::{AgentSession, ComposerSubmission, MessageAttachment, SessionWorkspace};

fn entry(service_tier: bool, supported: bool) -> ModelCatalogEntry {
    ModelCatalogEntry {
        id: "gpt-5".into(),
        name: "gpt-5".into(),
        reasoning_efforts: Vec::new(),
        default_reasoning_effort: None,
        capabilities: ModelCapabilities { service_tier, reasoning_effort: true },
        supported,
        unsupported_reason: if supported { None } else { Some("NonChat".into()) },
    }
}

#[test]
fn official_openai_catalog_entry_keeps_the_selected_tier() {
    assert_eq!(
        gated_service_tier(
            Some(ServiceTier::Priority),
            catalog_allows_service_tier(Some(&entry(true, true)))
        ),
        Some(ServiceTier::Priority)
    );
}

#[test]
fn openai_compatible_catalog_entry_clears_the_tier() {
    assert_eq!(
        gated_service_tier(
            Some(ServiceTier::Flex),
            catalog_allows_service_tier(Some(&entry(false, true)))
        ),
        None
    );
}

fn efforts() -> Vec<ReasoningEffortOption> {
    vec![
        ReasoningEffortOption {
            id: "low".into(),
            provider_value: "provider-fast".into(),
            label: "Quick".into(),
        },
        ReasoningEffortOption {
            id: "high".into(),
            provider_value: "provider-deep".into(),
            label: "Thorough".into(),
        },
    ]
}

#[test]
fn reasoning_effort_requires_a_supported_catalog_choice() {
    let mut model = entry(false, true);
    model.reasoning_efforts = efforts();
    assert!(catalog_allows_reasoning_effort(Some(&model)));
    assert_eq!(gated_reasoning_effort(Some("high"), Some(&model)), Some("high"));
    assert_eq!(provider_reasoning_effort(Some("high"), Some(&model)), Some("provider-deep"));
    assert_eq!(gated_reasoning_effort(Some("medium"), Some(&model)), None);
    assert_eq!(provider_reasoning_effort(Some("medium"), Some(&model)), None);
    model.supported = false;
    assert!(!catalog_allows_reasoning_effort(Some(&model)));
}

#[test]
fn missing_or_unsupported_catalog_entry_clears_the_tier() {
    assert_eq!(
        gated_service_tier(Some(ServiceTier::Flex), catalog_allows_service_tier(None)),
        None
    );
    assert_eq!(
        gated_service_tier(
            Some(ServiceTier::Priority),
            catalog_allows_service_tier(Some(&entry(true, false)))
        ),
        None
    );
}

fn endpoint(id: &str, name: &str, base_url: &str, default_model: &str) -> ExternalProvider {
    ExternalProvider {
        id: id.to_string(),
        name: name.to_string(),
        base_url: base_url.to_string(),
        api_format: "openai-responses".to_string(),
        api_key_env: None,
        headers: Vec::new(),
        models: Vec::new(),
        default_model: default_model.to_string(),
        context_window: 128_000,
        max_output_tokens: 16_384,
    }
}

fn presets() -> Vec<ExternalProvider> {
    vec![
        endpoint("openai-responses", "OpenAI", "https://api.openai.com/v1", "gpt-5"),
        endpoint("opencode-go", "OpenCode Go", "https://opencode.ai/zen/go/v1", "kimi-k2.7-code"),
        endpoint("xai-oauth", "xAI", "https://api.x.ai/v1", "grok-4.5"),
    ]
}

#[test]
fn every_builtin_preset_starts_without_a_custom_endpoint() {
    for preset in presets() {
        let endpoint = provider_endpoint_for_start(&presets(), &preset.id, &[])
            .unwrap_or_else(|| panic!("{} must start without a custom endpoint", preset.id));
        assert_eq!(endpoint.id, preset.id);
        assert!(!endpoint.default_model.trim().is_empty(), "{}", preset.id);
        assert!(endpoint.base_url.starts_with("https://"), "{}", preset.id);
    }
}

#[test]
fn unknown_provider_is_not_an_install_or_binary_error() {
    assert!(provider_endpoint_for_start(&presets(), "mystery-cli", &[]).is_none());
    let message = StartError::NotConfigured("mystery-cli".to_string()).message();
    assert_eq!(message, "provider mystery-cli is not configured");
    assert!(!message.contains("installed"));
    assert!(!message.contains("尚未安装"));
    assert!(!message.contains("could not be found"));
}

#[test]
fn custom_endpoints_still_start_by_id() {
    let custom = endpoint("corp", "Corp", "https://example.test/v1", "local-model");
    let endpoint = provider_endpoint_for_start(&presets(), "corp", &[custom]).expect("custom");
    assert_eq!(endpoint.default_model, "local-model");
}

#[test]
fn a_builtin_comes_before_a_custom_with_its_id() {
    let custom = endpoint("opencode-go", "Mine", "https://example.test/v1", "local-model");
    let found = provider_endpoint_for_start(&presets(), "opencode-go", &[custom]).unwrap();
    assert_eq!(found.name, "OpenCode Go");
}

fn session(provider: &str, model: Option<&str>) -> AgentSession {
    AgentSession {
        id: 1,
        project_id: 2,
        title: "t".into(),
        auto_title: None,
        provider: provider.into(),
        model: model.map(str::to_string),
        runtime_mode: RuntimeMode::Ask,
        interaction_mode: InteractionMode::Plan,
        reasoning_effort: Some("high".into()),
        service_tier: Some(ServiceTier::Flex),
        context_window: Some("1m".into()),
        workspace: SessionWorkspace::Local,
        status: SessionStatus::Idle,
        created_at: 0,
        updated_at: 0,
        last_reply_at: None,
        started: false,
        detail_loaded: false,
        messages: Vec::new(),
        transcript_blocks: Vec::new(),
        turns: Vec::new(),
        queued_messages: Vec::new(),
        context_usage: None,
    }
}

fn catalogs() -> KeyMap<String, ModelCatalog> {
    let mut known = entry(true, true);
    known.reasoning_efforts = efforts();
    let mut all = KeyMap::new();
    all.insert(
        "openai-responses".to_string(),
        ModelCatalog {
            provider: "openai-responses".into(),
            source: CatalogSource::Live,
            models: vec![known],
        },
    );
    all
}

#[test]
fn options_of_a_known_model_are_sent() {
    let catalogs = catalogs();
    let task = session("openai-responses", Some("gpt-5"));
    assert!(catalog_entry_for(&catalogs, &task.provider, "gpt-5").is_some());
    assert_eq!(model_for_session(&task, &catalogs), Some("gpt-5"));
    assert_eq!(service_tier_for_session(&task, &catalogs), Some(ServiceTier::Flex));
    assert_eq!(reasoning_effort_for_session(&task, &catalogs), Some("provider-deep".to_string()));
    let options = session_options(&task, &catalogs);
    assert_eq!(options.mode, RuntimeMode::Ask);
    assert_eq!(options.interaction_mode, InteractionMode::Plan);
    assert_eq!(options.model.as_deref(), Some("gpt-5"));
    assert_eq!(options.reasoning_effort.as_deref(), Some("provider-deep"));
    assert_eq!(options.service_tier, Some(ServiceTier::Flex));
    assert_eq!(options.context_window.as_deref(), Some("1m"));
}

#[test]
fn nothing_is_asked_of_a_model_that_nobody_knows() {
    let catalogs = catalogs();
    let task = session("openai-responses", Some("gpt-4"));
    assert!(catalog_entry_for(&catalogs, &task.provider, "gpt-4").is_none());
    assert_eq!(model_for_session(&task, &catalogs), None);
    let options = session_options(&task, &catalogs);
    assert_eq!(options.model, None);
    assert_eq!(options.reasoning_effort, None);
    assert_eq!(options.service_tier, None);
}

#[test]
fn names_of_models() {
    let customs = vec![endpoint("corp", "Corp", "https://example.test/v1", "m")];
    assert_eq!(model_display_name(&presets(), &customs, "corp", Some("m")), "Corp · m");
    assert_eq!(model_display_name(&presets(), &customs, "corp", Some("  ")), "Corp");
    assert_eq!(model_display_name(&presets(), &customs, "opencode-go", None), "OpenCode Go");
}

#[test]
fn starting_says_what_is_missing() {
    let catalogs = catalogs();
    let start = driver_start_request_for_session(
        &session("openai-responses", Some("gpt-5")),
        &presets(),
        &[],
        &catalogs,
        &None,
        "/work".to_string(),
    )
    .unwrap();
    assert_eq!(start.provider, "openai-responses");
    assert_eq!(start.cwd, "/work");
    assert_eq!(start.options.model.as_deref(), Some("gpt-5"));

    let refused = |provider: &str, customs: &[ExternalProvider], invalid: Option<&str>| {
        driver_start_request_for_session(
            &session(provider, None),
            &presets(),
            customs,
            &catalogs,
            &invalid.map(str::to_string),
            "/work".to_string(),
        )
        .unwrap_err()
        .message()
    };
    assert_eq!(refused("nobody", &[], None), "provider nobody is not configured");
    assert_eq!(refused("xai-oauth", &[], Some("bad id")), "bad id");
    let empty = [endpoint("corp", "Corp", "https://example.test/v1", "  ")];
    assert_eq!(refused("corp", &empty, None), "provider \"corp\" has no default model");
    let quoted = [endpoint("co\"rp", "Corp", "https://example.test/v1", "")];
    assert_eq!(refused("co\"rp", &quoted, None), "provider \"co\\\"rp\" has no default model");
}

fn attachment(reference: &str, mention: &str, name: &str, is_image: bool) -> MessageAttachment {
    MessageAttachment {
        path: "/var/wakuwaku/attachments/secret/file".to_string(),
        mention: mention.to_owned(),
        name: name.to_owned(),
        is_dir: false,
        is_image,
        blob_reference: Some(reference.to_owned()),
    }
}

#[test]
fn submission_keeps_display_text_and_safe_source_metadata() {
    let submission = ComposerSubmission {
        prompt: "see @notes.md".into(),
        display_content: Some("see".into()),
        attachments: vec![attachment(
            "wakuwaku-attachment:notes",
            "notes.md",
            "notes.md",
            false,
        )],
    };
    let input = prompt_input_from_submission(&submission);
    assert_eq!(input.text, "see @notes.md");
    assert_eq!(input.display_text.as_deref(), Some("see"));
    assert!(input.attachments.is_empty());
    assert_eq!(
        input.sources,
        vec![PromptAttachmentSource {
            reference: Some("wakuwaku-attachment:notes".into()),
            mention: "notes.md".into(),
            name: "notes.md".into(),
            is_dir: false,
            is_image: false,
            mime: None,
        }]
    );
    let source = &input.sources[0];
    let json = serde_json::to_string(&(
        &input.text,
        &input.display_text,
        (&source.reference, &source.mention, &source.name, &source.mime),
    ))
    .unwrap();
    assert!(!json.contains("/var/waku"));
    assert!(!json.contains("base64"));
    let all = format!("{input:?}");
    assert!(!all.contains("/var/waku"));
    assert!(!all.contains("base64"));
}

#[test]
fn image_blob_stays_provider_facing_and_source_carries_mime() {
    let submission = ComposerSubmission {
        prompt: "inspect @shot.png".into(),
        display_content: Some("inspect".into()),
        attachments: vec![attachment("wakuwaku-blob:shot.png", "shot.png", "shot.png", true)],
    };
    let input = prompt_input_from_submission(&submission);
    assert_eq!(
        input.attachments,
        vec![PromptImageRef::Blob { reference: "wakuwaku-blob:shot.png".into() }]
    );
    assert_eq!(input.sources[0].mime.as_deref(), Some("image/png"));
    assert_eq!(input.sources[0].reference.as_deref(), Some("wakuwaku-blob:shot.png"));
}

#[test]
fn expanded_provider_text_keeps_typed_display_text() {
    let submission = ComposerSubmission::plain("/review the diff".into());
    let input = prompt_input_from_submission_with_text(
        &submission,
        "Review the staged diff carefully".into(),
    );
    assert_eq!(input.text, "Review the staged diff carefully");
    assert_eq!(input.display_text.as_deref(), Some("/review the diff"));
}

#[test]
fn host_path_and_data_url_are_not_provider_image_refs() {
    let submission = ComposerSubmission {
        prompt: "bad".into(),
        display_content: None,
        attachments: vec![
            attachment("/tmp/photo.png", "photo.png", "photo.png", true),
            attachment("data:image/png;base64,aaaa", "photo.png", "photo.png", true),
        ],
    };
    let input = prompt_input_from_submission(&submission);
    assert!(input.attachments.is_empty());
    assert!(input.sources.iter().all(|source| source.reference.is_none()));
    assert_eq!(input.sources[0].mention, "photo.png");
    assert_eq!(input.sources[0].mime.as_deref(), Some("image/png"));
}

#[test]
fn text_that_was_not_made_into_another_has_no_second_form() {
    let input = prompt_input_from_submission(&ComposerSubmission::plain("hello".into()));
    assert_eq!(input.text, "hello");
    assert_eq!(input.display_text, None);
}
