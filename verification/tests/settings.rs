use uuid::Uuid;
use waku::composer::picker_rows::FavoriteModel;
use waku::key_map::KeyMap;
use waku::label::Label;
use waku::protocol::{InteractionMode, RuntimeMode, SessionStatus};
use waku::providers::{CatalogSource, ExternalProvider, ModelCatalog, ProviderAuthStatus};
use waku::session::{AgentSession, SessionWorkspace};
use waku::settings::auth::{
    accepts_generation, auth_phase_summary, auth_phase_url, login_method_label,
    preset_login_methods, render_builtin_provider_card, render_builtin_provider_cards, AuthAnswer,
    AuthPhase, AuthState, CatalogState, LoginAnswer, LoginMethod, MethodNumbers,
};
use waku::settings::daemon::{
    daemon_exposure_fields_dirty, daemon_exposure_from_fields, invalid_settings,
    render_daemon_settings, DaemonExposureSettings, DaemonFields, DaemonPage, DaemonState, ExposureAction,
};
use waku::settings::pages::{
    cycle_settings_page, escape_search, render_settings_content, render_settings_sidebar,
    settings_pages, settings_search_query, visible_settings_pages, AppearanceSettings,
    EscapeSearch, GeneralSettings, PageText,
    SettingsPage, UsageViewMode,
};
use waku::settings::provider_form::{
    parse_provider_draft_policy, render_provider_form, render_providers_settings, DraftError,
    ProviderChecks, ProviderDraft, ProviderSettings, SaveError,
};
use waku::text_set::TextSet;

// ---------------------------------------------------------------------------
// Accounts
// ---------------------------------------------------------------------------
fn nil() -> u128 {
    Uuid::nil().as_u128()
}

fn device() -> AuthPhase {
    AuthPhase::AwaitingDevice {
        login_id: nil(),
        provider: "openai-codex".into(),
        user_code: "CODE".into(),
        verification_url: "https://device".into(),
        instructions: "verify".into(),
    }
}

#[test]
fn browser_and_device_phases_provide_system_urls() {
    let browser = AuthPhase::AwaitingBrowser {
        login_id: nil(),
        provider: "openai-codex".into(),
        url: "https://browser".into(),
    };
    assert_eq!(auth_phase_url(&browser), Some("https://browser"));
    assert_eq!(auth_phase_url(&device()), Some("https://device"));
    assert_eq!(auth_phase_url(&AuthPhase::Idle), None);
}

#[test]
fn stale_auth_and_catalog_generations_are_discarded() {
    assert!(accepts_generation(7, 7));
    assert!(!accepts_generation(8, 7));
}

#[test]
fn codex_exposes_explicit_browser_and_device_login() {
    assert_eq!(
        preset_login_methods("openai-codex"),
        [LoginMethod::OauthBrowser, LoginMethod::OauthDevice]
    );
    assert_eq!(preset_login_methods("xai-oauth"), [LoginMethod::OauthDevice]);
    assert_eq!(preset_login_methods("xai"), [LoginMethod::ApiKey]);
}

#[test]
fn auth_phases_are_scoped_to_the_login_owner() {
    let phase = device();
    assert_eq!(phase.provider(), Some("openai-codex"));
    assert_ne!(phase.provider(), Some("xai-oauth"));
}

#[test]
fn failed_login_always_carries_login_id_and_provider() {
    let phase = AuthPhase::Failed {
        login_id: nil(),
        provider: "openai-codex".into(),
        message: "loopback unavailable".into(),
    };
    assert_eq!(phase.login_id(), Some(nil()));
    assert_eq!(phase.provider(), Some("openai-codex"));
}

fn plain(label: &Label) -> &str {
    match label {
        Label::Plain(text) => text,
        other => panic!("{other:?}"),
    }
}

#[test]
fn attempts_are_summed_up() {
    assert_eq!(plain(&auth_phase_summary(&device())), "Code CODE at https://device");
    let browser =
        AuthPhase::AwaitingBrowser { login_id: 1, provider: "p".into(), url: "https://b".into() };
    assert_eq!(plain(&auth_phase_summary(&browser)), "Opening browser: https://b");
    let done = AuthPhase::Completed { login_id: 1, provider: "p".into() };
    assert!(matches!(auth_phase_summary(&done), Label::Message("providers.connected")));
    assert_eq!(plain(&auth_phase_summary(&AuthPhase::Idle)), "");
    assert!(matches!(
        login_method_label(LoginMethod::OauthDevice),
        Label::Message("providers.use_device_code")
    ));
    assert!(matches!(login_method_label(LoginMethod::ApiKey), Label::Message("providers.connect")));
    assert!(matches!(
        login_method_label(LoginMethod::OauthBrowser),
        Label::Message("providers.sign_in")
    ));
}

fn auth() -> AuthState {
    AuthState {
        generation: 0,
        pending: TextSet::new(),
        statuses: KeyMap::new(),
        phases: Vec::new(),
        errors: KeyMap::new(),
    }
}

fn status(provider: &str) -> ProviderAuthStatus {
    ProviderAuthStatus {
        provider: provider.into(),
        method: "oauth".into(),
        connected: true,
        email: None,
        relogin_required: false,
    }
}

#[test]
fn late_answers_change_nothing() {
    let mut state = auth();
    let first = state.begin_refresh();
    let second = state.begin_refresh();
    let answer = || AuthAnswer::Status { statuses: vec![status("xai")], phases: vec![device()] };
    assert!(!state.finish_refresh(first, answer()));
    assert!(state.statuses.is_empty());
    assert!(state.finish_refresh(second, answer()));
    assert!(state.statuses.contains_key(&"xai".to_string()));
    assert_eq!(state.phases.len(), 1);
    assert!(state.finish_refresh(second, AuthAnswer::Invalid));
    assert_eq!(state.errors.get(&"all".to_string()).unwrap(), "invalid auth status response");
    assert!(state.finish_refresh(second, AuthAnswer::Failed("down".into())));
    assert_eq!(state.errors.get(&"all".to_string()).unwrap(), "down");
    assert!(state.finish_refresh(second, answer()));
    assert!(state.errors.is_empty());
}

#[test]
fn signing_in_takes_a_page_a_code_or_a_key() {
    let mut state = auth();
    let asked = state.start_provider_login(&"openai-codex".to_string());
    assert!(state.pending.contains("openai-codex"));
    let page = state.finish_provider_login("openai-codex", asked, LoginAnswer::Phase(device()));
    assert_eq!(page.as_deref(), Some("https://device"));
    assert!(!state.pending.contains("openai-codex"));
    assert_eq!(state.finish_provider_login("xai", asked, LoginAnswer::Invalid), None);
    assert_eq!(state.errors.get(&"all".to_string()).unwrap(), "invalid login response");
    state.account_request_failed("gone".into());
    assert_eq!(state.errors.get(&"all".to_string()).unwrap(), "gone");
    state.phases.push(AuthPhase::AwaitingApiKey {
        login_id: 5,
        provider: "xai".into(),
        instructions: "paste it".into(),
    });
    assert_eq!(state.complete_api_key_login("xai", "  sk-1 "), Some((5, "sk-1".to_string())));
    assert_eq!(state.complete_api_key_login("xai", "  "), None);
    assert_eq!(state.complete_api_key_login("anthropic", "sk-1"), None);
}

#[test]
fn catalogs_of_several_providers_stay_apart() {
    let mut state = CatalogState {
        generation: u64::MAX,
        pending: TextSet::new(),
        catalogs: KeyMap::new(),
        errors: KeyMap::new(),
    };
    let asked = state.begin_refresh(&vec!["a".to_string(), "b".to_string()]);
    assert_eq!(asked, 0);
    assert!(state.pending.contains("a") && state.pending.contains("b"));
    let catalog = |id: &str| ModelCatalog {
        provider: id.into(),
        source: CatalogSource::Live,
        models: Vec::new(),
    };
    assert!(!state.finish_refresh(7, Ok(vec![catalog("a")])));
    assert!(state.finish_refresh(asked, Ok(vec![catalog("a"), catalog("b")])));
    assert!(state.catalogs.contains_key(&"a".to_string()));
    assert!(state.catalogs.contains_key(&"b".to_string()));
    assert!(!state.pending.contains("a"));
    assert!(state.finish_refresh(asked, Err("down".into())));
    assert_eq!(state.errors.get(&"all".to_string()).unwrap(), "down");
    assert!(state.catalogs.contains_key(&"a".to_string()));
}

fn provider(id: &str, name: &str) -> ExternalProvider {
    ExternalProvider {
        id: id.into(),
        name: name.into(),
        base_url: "https://example.test/v1".into(),
        api_format: "openai-chat".into(),
        api_key_env: Some("KEY".into()),
        headers: vec![("X-A".into(), "1".into()), ("X-B".into(), "2".into())],
        models: vec!["m1".into(), "m2".into()],
        default_model: "m1".into(),
        context_window: 1000,
        max_output_tokens: 100,
    }
}

#[test]
fn cards_of_builtin_providers() {
    let mut state = auth();
    state.statuses.insert("openai-codex".into(), status("openai-codex"));
    state.phases.push(device());
    let presets = vec![provider("openai-codex", "Codex"), provider("xai", "xAI")];
    let numbers = MethodNumbers { api_key: 4, oauth_browser: 5, oauth_device: 6 };
    let cards = render_builtin_provider_cards(&presets, &state, numbers);
    assert_eq!(cards.len(), 2);
    assert_eq!(plain(&cards[0].status), "oauth");
    assert_eq!(cards[0].cancel, Some(nil()));
    assert!(!cards[0].wants_key);
    assert_eq!(cards[0].logins.len(), 2);
    assert_eq!(cards[0].logins[0].id, "login-provider-openai-codex-5");
    assert_eq!(cards[0].logins[1].id, "login-provider-openai-codex-6");
    assert_eq!(cards[0].logout_id, "logout-provider-openai-codex");
    let xai = render_builtin_provider_card(&presets[1], &state, numbers);
    assert!(matches!(xai.status, Label::Message("providers.not_authenticated")));
    assert!(xai.summary.is_none() && xai.cancel.is_none());
    assert_eq!(xai.logins[0].id, "login-provider-xai-4");
}

// ---------------------------------------------------------------------------
// The user's providers
// ---------------------------------------------------------------------------
fn draft() -> ProviderDraft {
    ProviderDraft {
        id: " corp ".into(),
        name: " Corp ".into(),
        base_url: " https://example.test/v1 ".into(),
        api_key_env: "  ".into(),
        headers: "X-A: 1\n\n X-B : two ".into(),
        models: "m1, m2 ,, ".into(),
        default_model: " m2 ".into(),
        context_window: " 128000 ".into(),
        max_output_tokens: "16384".into(),
    }
}

fn checks() -> ProviderChecks {
    ProviderChecks { draft_error: None, id_valid: true, editing_valid: false, provider_error: None }
}

fn settings() -> ProviderSettings {
    ProviderSettings {
        providers: Vec::new(),
        last_provider: String::new(),
        expanded: None,
        api_format: "openai-chat".into(),
    }
}

#[test]
fn what_was_typed_is_read() {
    let p = parse_provider_draft_policy(&draft(), "openai-chat").unwrap();
    assert_eq!(p.id, "corp");
    assert_eq!(p.name, "Corp");
    assert_eq!(p.base_url, "https://example.test/v1");
    assert_eq!(p.api_key_env, None);
    assert_eq!(p.models, vec!["m1", "m2"]);
    assert_eq!(p.default_model, "m2");
    assert_eq!((p.context_window, p.max_output_tokens), (128_000, 16_384));
    let headers: Vec<(&str, &str)> =
        p.headers.iter().map(|(name, value)| (name.as_str(), value.as_str())).collect();
    assert_eq!(headers, vec![("X-A", "1"), ("X-B", "two")]);
}

#[test]
fn what_cannot_be_used_is_named() {
    let refused = |change: &dyn Fn(&mut ProviderDraft)| {
        let mut d = draft();
        change(&mut d);
        parse_provider_draft_policy(&d, "openai-chat").unwrap_err()
    };
    assert_eq!(refused(&|d| d.models = "m1, M1".into()), DraftError::DuplicateModels);
    assert_eq!(refused(&|d| d.context_window = "many".into()), DraftError::InvalidContextWindow);
    assert_eq!(
        refused(&|d| d.context_window = "18446744073709551616".into()),
        DraftError::InvalidContextWindow
    );
    assert_eq!(
        refused(&|d| d.max_output_tokens = "".into()),
        DraftError::InvalidMaxOutputTokens
    );
    assert_eq!(refused(&|d| d.headers = "no colon".into()), DraftError::InvalidHeaderFormat);
    for headers in ["a: 1\nA: 2", ": 1", "a:", "Authorization: x", "HOST: x", "x-api-key: x"] {
        assert_eq!(refused(&|d| d.headers = headers.into()), DraftError::InvalidHeaders);
    }
    assert_eq!(
        refused(&|d| d.headers = "host: x\nno colon".into()),
        DraftError::InvalidHeaders
    );
    assert_eq!(DraftError::DuplicateModels.key(), "providers.duplicate_models");
    assert_eq!(DraftError::InvalidContextWindow.key(), "providers.invalid_context_window");
    assert_eq!(DraftError::InvalidMaxOutputTokens.key(), "providers.invalid_max_output_tokens");
    assert_eq!(DraftError::InvalidHeaderFormat.key(), "providers.invalid_header_format");
    assert_eq!(DraftError::InvalidHeaders.key(), "providers.invalid_headers");
}

#[test]
fn providers_are_saved_and_found_again() {
    let mut state = settings();
    assert!(state.save_provider("corp", &draft(), &checks()).is_ok());
    assert_eq!(state.providers.len(), 1);
    assert_eq!(state.expanded.as_deref(), Some("corp"));
    assert_eq!(state.last_provider, "corp");
    let mut renamed = draft();
    renamed.name = "Corp 2".into();
    let known = ProviderChecks { editing_valid: true, ..checks() };
    assert!(state.save_provider("corp", &renamed, &known).is_ok());
    assert_eq!(state.providers.len(), 1);
    assert_eq!(state.providers[0].name, "Corp 2");
    match state.save_provider("other", &draft(), &checks()) {
        Err(e) => {
            assert!(matches!(e, SaveError::DuplicateId));
            assert!(matches!(e.label(), Label::Message("providers.duplicate_id")));
        }
        Ok(()) => panic!("the id is taken"),
    }
}

#[test]
fn providers_that_are_not_saved() {
    let mut state = settings();
    let mut tried = |d: &ProviderDraft, c: &ProviderChecks, editing: &str| {
        let e = state.save_provider(editing, d, c).unwrap_err();
        assert!(state.providers.is_empty());
        e
    };
    let odd = ProviderChecks { draft_error: Some("odd".into()), ..checks() };
    assert_eq!(plain(&tried(&draft(), &odd, "corp").label()), "odd");
    let late = ProviderChecks { provider_error: Some("late".into()), ..checks() };
    assert_eq!(plain(&tried(&draft(), &late, "corp").label()), "late");
    let bad_id = ProviderChecks { id_valid: false, ..checks() };
    assert!(matches!(tried(&draft(), &bad_id, "corp"), SaveError::InvalidConfiguration));
    let moved = ProviderChecks { editing_valid: true, ..checks() };
    assert!(matches!(tried(&draft(), &moved, "else"), SaveError::InvalidConfiguration));
    let mut nameless = draft();
    nameless.name = " ".into();
    assert!(matches!(tried(&nameless, &checks(), "corp"), SaveError::InvalidConfiguration));
    let mut unlisted = draft();
    unlisted.default_model = "m3".into();
    let e = tried(&unlisted, &checks(), "corp");
    assert!(matches!(e.label(), Label::Message("providers.invalid_configuration")));
    let mut doubled = draft();
    doubled.models = "a,a".into();
    assert!(matches!(
        tried(&doubled, &odd, "corp").label(),
        Label::Message("providers.duplicate_models")
    ));
}

fn task(provider: &str) -> AgentSession {
    AgentSession {
        id: 1,
        project_id: 2,
        title: "t".into(),
        auto_title: None,
        provider: provider.into(),
        model: None,
        runtime_mode: RuntimeMode::Ask,
        interaction_mode: InteractionMode::Build,
        reasoning_effort: None,
        service_tier: None,
        context_window: None,
        workspace: SessionWorkspace::Local,
        status: SessionStatus::Idle,
        created_at: 0,
        updated_at: 0,
        last_reply_at: None,
        started: false,
        detail_loaded: false,
        messages: Vec::new(),
        transcript_blocks: Vec::new(),
        turns: Vec::new(),
        queued_messages: Vec::new(),
        context_usage: None,
    }
}

#[test]
fn providers_in_use_are_kept() {
    let mut state = settings();
    state.providers = vec![provider("a", "A"), provider("b", "B")];
    state.last_provider = "b".into();
    state.expanded = Some("a".into());
    assert!(!state.delete_provider("b", &Vec::new(), &Vec::new()));
    assert!(!state.delete_provider("a", &vec![task("a")], &Vec::new()));
    let mark = FavoriteModel { provider: "a".into(), model: "m".into() };
    assert!(!state.delete_provider("a", &Vec::new(), &vec![mark]));
    assert_eq!(state.providers.len(), 2);
    assert!(state.delete_provider("a", &vec![task("b")], &Vec::new()));
    assert_eq!(state.providers.len(), 1);
    assert_eq!(state.expanded, None);
}

#[test]
fn fields_hold_what_is_known() {
    let mut state = settings();
    state.providers = vec![provider("corp", "Corp")];
    state.api_format = "anthropic".into();
    let d = state.begin_provider_edit(&Some("corp".to_string()), "openai-responses");
    assert_eq!(state.api_format, "openai-chat");
    assert_eq!(state.expanded.as_deref(), Some("corp"));
    assert_eq!(d.headers, "X-A: 1\nX-B: 2");
    assert_eq!(d.models, "m1, m2");
    assert_eq!(d.api_key_env, "KEY");
    assert_eq!(d.context_window, "1000");
    let again = parse_provider_draft_policy(&d, "openai-chat").unwrap();
    assert_eq!(again.models, state.providers[0].models);
    assert_eq!(again.headers, state.providers[0].headers);
    state.providers[0].models.clear();
    let d = state.open_provider_form(&"corp".to_string(), "openai-responses");
    assert_eq!(d.models, "m1");
    let blank = state.cancel_provider_edit();
    assert_eq!(state.expanded, None);
    assert!(blank.id.is_empty() && blank.models.is_empty() && blank.context_window.is_empty());
}

#[test]
fn new_providers_get_ids_of_their_own() {
    let mut state = settings();
    let first = state.begin_provider_edit(&None, "openai-responses");
    let second = state.begin_provider_edit(&None, "openai-responses");
    assert_ne!(first.id, second.id);
    assert_eq!(state.expanded.as_deref(), Some(second.id.as_str()));
    assert_eq!(state.api_format, "openai-responses");
    let hex = first.id.strip_prefix("provider-").unwrap();
    assert_eq!(hex.len(), 32);
    let id = Uuid::parse_str(hex).unwrap();
    assert_eq!(id.get_version_num(), 4);
    assert_eq!(id.simple().to_string(), hex);
    assert_eq!(first.context_window, "128000");
    assert_eq!(first.max_output_tokens, "16384");
    assert!(first.name.is_empty());
}

#[test]
fn protocols_go_round() {
    let formats: Vec<String> = vec!["a".into(), "b".into(), "c".into()];
    let mut state = settings();
    state.api_format = "b".into();
    state.next_api_format(&formats);
    assert_eq!(state.api_format, "c");
    state.next_api_format(&formats);
    assert_eq!(state.api_format, "a");
    state.api_format = "unknown".into();
    state.next_api_format(&formats);
    assert_eq!(state.api_format, "b");
    state.next_api_format(&vec!["only".to_string()]);
    assert_eq!(state.api_format, "only");
}

#[test]
fn the_page_lists_providers_and_shows_a_form() {
    let mut state = settings();
    let page = render_providers_settings(&state);
    assert!(page.none && page.rows.is_empty() && page.form.is_none());
    state.providers = vec![provider("corp", "Corp")];
    state.expanded = Some("corp".into());
    let page = render_providers_settings(&state);
    assert_eq!(page.rows[0].label, "Corp · m1");
    assert_eq!(page.rows[0].detail, "corp · openai-chat");
    assert_eq!(page.rows[0].edit_id, "edit-provider-corp");
    assert_eq!(page.rows[0].delete_id, "delete-provider-corp");
    assert!(page.rows[0].editing);
    let form = page.form.unwrap();
    assert_eq!(form.fixed_id.as_deref(), Some("corp"));
    assert_eq!(form.fields.len(), 8);
    assert_eq!(form.fields[3].label_key, "providers.models");
    assert_eq!(form.fields[3].count, Some(2));
    let new = render_provider_form(&state, "fresh");
    assert_eq!(new.fixed_id, None);
    assert_eq!(new.fields[0].id, "provider-id");
    assert_eq!(new.fields.len(), 9);
}

// ---------------------------------------------------------------------------
// The daemon
// ---------------------------------------------------------------------------
fn exposure() -> DaemonExposureSettings {
    DaemonExposureSettings {
        enabled: true,
        port: 4000,
        token: "t0".into(),
        allowed_origins: vec!["https://a".into()],
    }
}

fn daemon() -> DaemonState {
    DaemonState {
        exposure: exposure(),
        remote: false,
        reconfigure_pending: false,
        token_revealed: false,
    }
}

fn fields(port: &str) -> DaemonFields {
    DaemonFields { port: port.into(), origins: Ok(vec!["https://a".into()]) }
}

#[test]
fn ports_are_numbers_that_can_be_used() {
    assert_eq!(daemon_exposure_from_fields(&exposure(), &fields(" 65535 ")).unwrap().port, 65535);
    for port in ["0", "65536", "", "-1", "x"] {
        let e = daemon_exposure_from_fields(&exposure(), &fields(port)).unwrap_err();
        assert!(matches!(e.label(), Label::Message("daemon.invalid_port")));
    }
    let odd = DaemonFields { port: "1".into(), origins: Err("bad origin".into()) };
    let e = daemon_exposure_from_fields(&exposure(), &odd).unwrap_err();
    assert_eq!(plain(&e.label()), "bad origin");
    match invalid_settings("bad origin".into()) {
        Label::MessageWith { key, name, value } => {
            assert_eq!((key, name), ("daemon.invalid_settings", "error"));
            assert_eq!(value, "bad origin");
        }
        other => panic!("{:?}", other),
    }
    assert_eq!(daemon_exposure_from_fields(&exposure(), &fields("+80")).unwrap().port, 80);
    assert!(!daemon_exposure_fields_dirty(&exposure(), &fields("4000")));
    assert!(daemon_exposure_fields_dirty(&exposure(), &fields("4001")));
    assert!(daemon_exposure_fields_dirty(&exposure(), &fields("x")));
}

#[test]
fn the_daemon_is_started_anew_only_at_rest() {
    let mut state = daemon();
    let mut busy = task("a");
    busy.status = SessionStatus::Working;
    assert!(matches!(
        state.apply_daemon_exposure_fields(&fields("4001"), &vec![busy]),
        Ok(ExposureAction::Refuse("daemon.stop_active_tasks"))
    ));
    assert!(matches!(
        state.apply_daemon_exposure_fields(&fields("4000"), &Vec::new()),
        Ok(ExposureAction::Nothing)
    ));
    let wanted = match state.apply_daemon_exposure_fields(&fields("4001"), &Vec::new()) {
        Ok(ExposureAction::Restart(wanted)) => wanted,
        other => panic!("{other:?}"),
    };
    assert_eq!(wanted.port, 4001);
    assert!(state.reconfigure_pending);
    assert!(matches!(
        state.set_daemon_exposure_enabled(false, &fields("4000"), &Vec::new()),
        Ok(ExposureAction::Nothing)
    ));
    let outcome = state.finish_daemon_reconfigure(wanted, None);
    assert!(matches!(outcome.told, Label::Message("daemon.settings_applied")));
    assert_eq!(state.exposure.port, 4001);
    assert!(!state.reconfigure_pending);
}

#[test]
fn a_daemon_elsewhere_is_left_alone() {
    let mut state = daemon();
    state.remote = true;
    assert!(matches!(
        state.set_daemon_exposure_enabled(false, &fields("4000"), &Vec::new()),
        Ok(ExposureAction::Refuse("daemon.external_description"))
    ));
    assert!(matches!(
        render_daemon_settings(&state, &fields("4000"), "host", false, false),
        DaemonPage::External
    ));
}

#[test]
fn a_restart_that_failed_keeps_the_settings() {
    let mut state = daemon();
    state.reconfigure_pending = true;
    let mut wanted = exposure();
    wanted.port = 9;
    let outcome = state.finish_daemon_reconfigure(wanted, Some("no".into()));
    match outcome.told {
        Label::MessageWith { key, value, .. } => {
            assert_eq!((key, value.as_str()), ("daemon.restart_failed", "no"));
        }
        other => panic!("{other:?}"),
    }
    assert_eq!(state.exposure.port, 4000);
    assert!(!state.reconfigure_pending);
}

#[test]
fn tokens_are_hidden_until_they_are_asked_for() {
    let mut state = daemon();
    let card = |state: &DaemonState| {
        match render_daemon_settings(state, &fields("4000"), "host", true, false) {
            DaemonPage::Own { connection: Some(card), .. } => card,
            other => panic!("{other:?}"),
        }
    };
    let hidden = card(&state);
    assert_eq!(hidden.url.text, "ws://host:4000");
    assert_eq!(hidden.url.icon, "icons/check.svg");
    assert_eq!(hidden.token.icon, "icons/copy.svg");
    assert!(!hidden.token_text.contains("t0"));
    assert!(!hidden.can_apply);
    state.toggle_token();
    assert_eq!(card(&state).token_text, "t0");
    match state.regenerate_daemon_token(&fields("4000"), "t1".into(), &Vec::new()) {
        Ok(ExposureAction::Restart(wanted)) => assert_eq!(wanted.token, "t1"),
        other => panic!("{other:?}"),
    }
    assert!(!state.token_revealed);
    let mut off = daemon();
    off.exposure.enabled = false;
    match render_daemon_settings(&off, &fields("4000"), "host", false, false) {
        DaemonPage::Own { enabled, connection, status, .. } => {
            assert!(!enabled && connection.is_none());
            assert_eq!(status, "daemon.status_local");
        }
        other => panic!("{other:?}"),
    }
    assert!(matches!(
        off.apply_daemon_exposure(
            DaemonExposureSettings { enabled: false, port: 5, ..exposure() },
            &Vec::new()
        ),
        ExposureAction::Save
    ));
    assert_eq!(off.exposure.port, 5);
}

// ---------------------------------------------------------------------------
// Pages
// ---------------------------------------------------------------------------
fn texts() -> Vec<PageText> {
    settings_pages()
        .into_iter()
        .map(|page| PageText {
            page,
            label: format!("{page:?}"),
            keywords: match page {
                SettingsPage::Appearance => "Theme colour".into(),
                _ => String::new(),
            },
        })
        .collect()
}

#[test]
fn pages_are_listed_searched_and_stepped_through() {
    let all = visible_settings_pages(&texts(), "", None);
    assert_eq!(all.len(), 6);
    assert_eq!(all[0].id, "settings-tab-general");
    assert!(all[0].selected);
    let query = settings_search_query("  THEME ");
    assert_eq!(query, "theme");
    let found = visible_settings_pages(&texts(), &query, Some(SettingsPage::Usage));
    assert_eq!(found.len(), 1);
    assert_eq!(found[0].page, SettingsPage::Appearance);
    assert_eq!(render_settings_sidebar(&texts(), " Theme", None).len(), 1);
    assert!(!found[0].selected);
    let step = |search: &str, current: Option<SettingsPage>, key: &str| {
        cycle_settings_page(&texts(), search, current, key)
    };
    assert_eq!(step("", Some(SettingsPage::Daemon), "down"), Some(SettingsPage::General));
    assert_eq!(step("", Some(SettingsPage::General), "up"), Some(SettingsPage::Daemon));
    assert_eq!(step("", Some(SettingsPage::Usage), "left"), None);
    assert_eq!(step("nothing", None, "down"), None);
    assert_eq!(escape_search("x"), EscapeSearch::Clear);
    assert_eq!(escape_search(""), EscapeSearch::Leave);
}

#[test]
fn pages_have_names_icons_and_a_layout() {
    for page in settings_pages() {
        assert!(page.label_key().starts_with("settings."));
        assert_eq!(page.keywords_key(), format!("{}_keywords", page.label_key()));
        assert!(page.icon().starts_with("icons/"));
    }
    let layout = render_settings_content(Some(SettingsPage::Skills), UsageViewMode::Overview, true);
    assert!(layout.bare && !layout.marks_scroll);
    let layout = render_settings_content(Some(SettingsPage::Usage), UsageViewMode::Monthly, true);
    assert!(layout.fills_viewport && layout.wide && !layout.marks_scroll);
    let layout = render_settings_content(None, UsageViewMode::Monthly, true);
    assert!(!layout.wide && layout.marks_scroll);
}

#[test]
fn switches_switch() {
    let mut general = GeneralSettings {
        analytics_enabled: false,
        automatic_updates_enabled: true,
        updater_available: false,
    };
    let page = general.render_general_settings();
    assert!(!page.analytics.on);
    assert!(page.updates.is_none());
    general.set_analytics_enabled(true);
    general.updater_available = true;
    let page = general.render_general_settings();
    assert!(page.analytics.on);
    assert_eq!(page.analytics.id, "anonymous-analytics-toggle");
    assert_eq!(page.updates.unwrap().id, "automatic-updates-toggle");
    assert!(page.updates.unwrap().on);
}

#[test]
fn the_appearance_is_chosen_from_lists() {
    let mut chosen = AppearanceSettings { theme: 1, language: 0 };
    assert!(!chosen.set_theme_preference(1));
    assert!(chosen.set_theme_preference(2));
    assert!(!chosen.set_language(0));
    assert!(chosen.set_language(1));
    let themes = vec!["System".to_string(), "Light".to_string(), "Dark".to_string()];
    let languages = vec!["English".to_string(), "Deutsch".to_string()];
    let page = chosen.render_appearance_settings(&themes, &languages);
    assert_eq!(page.theme.label, "Dark");
    let marks: Vec<bool> = page.theme.items.iter().map(|item| item.selected).collect();
    assert_eq!(marks, vec![false, false, true]);
    assert_eq!(page.language.label, "Deutsch");
    assert_eq!(page.language.items[0].label, "English");
    assert!(page.language.items[1].selected);
}
