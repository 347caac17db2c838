use std::rc::Rc;
use waku::composer::picker::{
    catalog_entry_selectable, catalog_model_ids, catalog_refresh_providers, catalog_supports_model,
    composer_needs_configure_first, first_compatible_picker_model, picker_provider_endpoints,
    preferred_supported_model, send_provider_model, suggested_picker_provider,
    suggested_picker_selection, PickerChoice,
};
use waku::composer::picker_rows::{
    cached_model_picker_rows, labeled_model_picker_rows, model_picker_list_height,
    next_model_picker_highlight, next_picker_highlight, visible_picker_models, FavoriteModel,
    ModelPickerRowsCache, ModelPickerRowsCacheInputs, ModelPickerRowsCacheKey, ModelPickerTab,
};
use waku::key_map::KeyMap;
use waku::providers::{
    CatalogSource, ExternalProvider, ModelCapabilities, ModelCatalog, ModelCatalogEntry,
    ProviderAuthStatus,
};

const OPENAI_RESPONSES: &str = "openai-responses";
const OPENCODE_GO: &str = "opencode-go";
const XAI_OAUTH: &str = "xai-oauth";
const GO_DEFAULT_MODEL: &str = "kimi-k2.7-code";

fn endpoint(id: &str, name: &str, default_model: &str, models: &[&str]) -> ExternalProvider {
    ExternalProvider {
        id: id.to_string(),
        name: name.to_string(),
        base_url: "https://example.test/v1".to_string(),
        api_format: "openai-responses".to_string(),
        api_key_env: None,
        headers: Vec::new(),
        models: models.iter().map(|m| m.to_string()).collect(),
        default_model: default_model.to_string(),
        context_window: 128_000,
        max_output_tokens: 16_384,
    }
}

fn presets() -> Vec<ExternalProvider> {
    vec![
        endpoint(OPENAI_RESPONSES, "OpenAI", "gpt-5.2", &[]),
        endpoint(OPENCODE_GO, "OpenCode Go", GO_DEFAULT_MODEL, &[]),
        endpoint(XAI_OAUTH, "xAI", "grok-4.5", &[]),
    ]
}

fn catalog_for(
    provider: &str,
    source: CatalogSource,
    ids: &[&str],
    supported: bool,
) -> ModelCatalog {
    ModelCatalog {
        provider: provider.to_string(),
        source,
        models: ids
            .iter()
            .map(|id| ModelCatalogEntry {
                id: id.to_string(),
                name: id.to_string(),
                reasoning_efforts: Vec::new(),
                default_reasoning_effort: None,
                capabilities: ModelCapabilities { service_tier: true, reasoning_effort: true },
                supported,
                unsupported_reason: None,
            })
            .collect(),
    }
}

fn xai_oauth_seed() -> ModelCatalog {
    catalog_for(XAI_OAUTH, CatalogSource::Seed, &["grok-4.5", "grok-4.6"], true)
}

fn catalog(source: CatalogSource, ids: &[&str]) -> ModelCatalog {
    catalog_for(OPENAI_RESPONSES, source, ids, true)
}

fn status(id: &str, method: &str, connected: bool) -> ProviderAuthStatus {
    ProviderAuthStatus {
        provider: id.to_string(),
        method: method.to_string(),
        connected,
        email: None,
        relogin_required: false,
    }
}

fn statuses(list: Vec<ProviderAuthStatus>) -> KeyMap<String, ProviderAuthStatus> {
    let mut all = KeyMap::new();
    for status in list {
        all.insert(status.provider.clone(), status);
    }
    all
}

fn go_and_xai() -> KeyMap<String, ProviderAuthStatus> {
    statuses(vec![
        status(OPENCODE_GO, "stored_api_key", true),
        status(XAI_OAUTH, "oauth", true),
    ])
}

fn catalogs(list: Vec<ModelCatalog>) -> KeyMap<String, ModelCatalog> {
    let mut all = KeyMap::new();
    for catalog in list {
        all.insert(catalog.provider.clone(), catalog);
    }
    all
}

fn choice(provider: &str, model: &str) -> Option<PickerChoice> {
    Some(PickerChoice { provider: provider.to_string(), model: Some(model.to_string()) })
}

fn pair(provider: &str, model: &str) -> Option<(String, String)> {
    Some((provider.to_string(), model.to_string()))
}

#[test]
fn live_empty_catalog_is_authoritative_and_hides_manual() {
    let live = catalog(CatalogSource::Live, &[]);
    assert!(catalog_model_ids(Some(&live), &vec!["manual".into()], "default").is_empty());
}

#[test]
fn seed_empty_catalog_is_authoritative() {
    let seed = catalog(CatalogSource::Seed, &[]);
    assert!(catalog_model_ids(Some(&seed), &vec!["manual".into()], "default").is_empty());
}

#[test]
fn cache_empty_catalog_is_authoritative() {
    let cached = catalog(CatalogSource::Cache, &[]);
    assert!(catalog_model_ids(Some(&cached), &vec!["manual".into()], "default").is_empty());
}

#[test]
fn missing_catalog_falls_back_to_manual_models() {
    assert_eq!(catalog_model_ids(None, &vec!["manual".into()], "default"), vec!["manual"]);
}

#[test]
fn missing_catalog_without_manual_models_offers_nothing() {
    assert!(catalog_model_ids(None, &Vec::new(), "default").is_empty());
}

#[test]
fn unsupported_catalog_rows_cannot_be_selected() {
    let mut entry = catalog(CatalogSource::Live, &["grok-imagine-1"]).models;
    entry[0].supported = false;
    assert!(!catalog_entry_selectable(entry.first()));
    assert!(catalog_entry_selectable(None));
}

#[test]
fn connected_go_and_xai_populate_picker_without_custom_providers() {
    let statuses = go_and_xai();
    let providers = picker_provider_endpoints(&presets(), &[], &statuses);
    assert!(!composer_needs_configure_first(&providers));
    assert_eq!(
        catalog_refresh_providers(&presets(), &[], &statuses),
        vec![OPENCODE_GO, XAI_OAUTH]
    );
    let catalogs = catalogs(vec![
        catalog_for(OPENCODE_GO, CatalogSource::Live, &["kimi-k2.7-code", "gemini-3-flash"], true),
        catalog_for(XAI_OAUTH, CatalogSource::Live, &["grok-4.6", "grok-imagine-1"], true),
    ]);
    let models = visible_picker_models(
        &presets(),
        &providers,
        &catalogs,
        &[],
        &None,
        &ModelPickerTab::All,
        "",
    );
    let ids: Vec<(&str, &str)> =
        models.iter().map(|m| (m.provider.as_str(), m.id.as_str())).collect();
    assert!(ids.contains(&(OPENCODE_GO, "kimi-k2.7-code")));
    assert!(ids.contains(&(XAI_OAUTH, "grok-4.6")));
}

#[test]
fn connected_status_without_catalog_does_not_invent_builtin_models() {
    let statuses = statuses(vec![status(OPENCODE_GO, "stored_api_key", true)]);
    let providers = picker_provider_endpoints(&presets(), &[], &statuses);
    let models = visible_picker_models(
        &presets(),
        &providers,
        &KeyMap::new(),
        &[],
        &None,
        &ModelPickerTab::All,
        "",
    );
    assert!(models.is_empty());
    assert_ne!(
        providers[0].default_model, "",
        "presets still have a default; the picker must not invent it"
    );
}

#[test]
fn live_empty_connected_catalog_stays_empty() {
    let statuses = statuses(vec![status(OPENCODE_GO, "stored_api_key", true)]);
    let providers = picker_provider_endpoints(&presets(), &[], &statuses);
    let catalogs = catalogs(vec![catalog_for(OPENCODE_GO, CatalogSource::Live, &[], true)]);
    let models = visible_picker_models(
        &presets(),
        &providers,
        &catalogs,
        &[],
        &None,
        &ModelPickerTab::All,
        "",
    );
    assert!(models.is_empty());
}

#[test]
fn disconnected_builtin_is_not_a_configured_provider() {
    let statuses = statuses(vec![status(OPENCODE_GO, "none", false)]);
    let providers = picker_provider_endpoints(&presets(), &[], &statuses);
    assert!(composer_needs_configure_first(&providers));
}

#[test]
fn startup_retargets_unconfigured_default_to_connected_catalog() {
    let providers = picker_provider_endpoints(&presets(), &[], &go_and_xai());
    assert_eq!(
        suggested_picker_provider(Some(&"openai-responses".to_string()), &providers),
        Some(OPENCODE_GO.to_string())
    );
    let catalogs = catalogs(vec![catalog_for(
        OPENCODE_GO,
        CatalogSource::Cache,
        &["minimax-m3", "kimi-k2.7-code"],
        true,
    )]);
    let selection = suggested_picker_selection(
        &None,
        &"openai-responses".to_string(),
        &None,
        &providers,
        &catalogs,
    );
    assert_eq!(selection, pair(OPENCODE_GO, GO_DEFAULT_MODEL));
}

#[test]
fn long_connected_go_catalog_stays_complete_and_height_capped() {
    let statuses = statuses(vec![status(OPENCODE_GO, "stored_api_key", true)]);
    let providers = picker_provider_endpoints(&presets(), &[], &statuses);
    let ids: Vec<String> = (0..25).map(|index| format!("go-model-{index}")).collect();
    let id_refs: Vec<&str> = ids.iter().map(String::as_str).collect();
    let catalogs = catalogs(vec![catalog_for(OPENCODE_GO, CatalogSource::Live, &id_refs, true)]);
    let models = visible_picker_models(
        &presets(),
        &providers,
        &catalogs,
        &[],
        &None,
        &ModelPickerTab::All,
        "",
    );
    assert_eq!(models.len(), 25);
    let tenths = model_picker_list_height(models.len(), 320);
    assert_eq!(tenths as f32 / 10.0, 260.0);
}

#[test]
fn short_lists_are_as_high_as_their_rows() {
    assert_eq!(model_picker_list_height(0, 320), 0);
    assert_eq!(model_picker_list_height(3, 320), 960);
    assert_eq!(model_picker_list_height(usize::MAX, u32::MAX), 2600);
}

#[test]
fn connected_xai_oauth_seed_search_gr_lists_supported_grok() {
    let statuses = statuses(vec![status(XAI_OAUTH, "oauth", true)]);
    let providers = picker_provider_endpoints(&presets(), &[], &statuses);
    let seed = xai_oauth_seed();
    assert!(seed.models.iter().any(|entry| entry.id.contains("grok") && entry.supported));
    let models = visible_picker_models(
        &presets(),
        &providers,
        &catalogs(vec![seed]),
        &[],
        &None,
        &ModelPickerTab::All,
        "gr",
    );
    assert!(models.iter().any(|m| m.provider == XAI_OAUTH && m.id.contains("grok")));
}

#[test]
fn search_gr_finds_xai_oauth_even_when_session_is_locked_to_go() {
    let providers = picker_provider_endpoints(&presets(), &[], &go_and_xai());
    let catalogs = catalogs(vec![
        catalog_for(OPENCODE_GO, CatalogSource::Live, &["kimi-k2.7-code"], true),
        xai_oauth_seed(),
    ]);
    let models = visible_picker_models(
        &presets(),
        &providers,
        &catalogs,
        &[],
        &Some(OPENCODE_GO.to_string()),
        &ModelPickerTab::All,
        "gr",
    );
    assert!(models.iter().any(|m| m.provider == XAI_OAUTH && m.id.contains("grok")));
}

#[test]
fn go_k2_stays_when_xai_oauth_connects() {
    let providers = picker_provider_endpoints(&presets(), &[], &go_and_xai());
    let catalogs = catalogs(vec![
        catalog_for(
            OPENCODE_GO,
            CatalogSource::Live,
            &["kimi-k2.7-code", "kimi-k2.6", "kimi-k2.5"],
            true,
        ),
        catalog_for(XAI_OAUTH, CatalogSource::Live, &["grok-4.5", "grok-4.6"], true),
    ]);
    let selection = suggested_picker_selection(
        &choice(OPENCODE_GO, "kimi-k2.7-code"),
        &XAI_OAUTH.to_string(),
        &Some("grok-4.5".to_string()),
        &providers,
        &catalogs,
    );
    assert_eq!(selection, pair(OPENCODE_GO, "kimi-k2.7-code"));
    assert_eq!(
        send_provider_model(
            &OPENCODE_GO.to_string(),
            Some(&"kimi-k2.7-code".to_string()),
            &catalogs
        ),
        pair(OPENCODE_GO, "kimi-k2.7-code")
    );
}

#[test]
fn stale_xai_plus_go_model_snaps_to_supported_grok() {
    let providers = picker_provider_endpoints(&presets(), &[], &go_and_xai());
    let catalogs = catalogs(vec![
        catalog_for(OPENCODE_GO, CatalogSource::Live, &["kimi-k2.7-code"], true),
        catalog_for(XAI_OAUTH, CatalogSource::Live, &["grok-4.5", "grok-4.6"], true),
    ]);
    let xai = XAI_OAUTH.to_string();
    let selection = suggested_picker_selection(
        &choice(XAI_OAUTH, "kimi-k2.7-code"),
        &xai,
        &Some("kimi-k2.7-code".to_string()),
        &providers,
        &catalogs,
    );
    assert_eq!(selection, pair(XAI_OAUTH, "grok-4.5"));
    assert!(send_provider_model(&xai, Some(&"kimi-k2.7-code".to_string()), &catalogs).is_none());
    assert_eq!(
        send_provider_model(&xai, Some(&"grok-4.5".to_string()), &catalogs),
        pair(XAI_OAUTH, "grok-4.5")
    );
    assert!(!catalog_supports_model(catalogs.get(&xai), "kimi-k2.7-code"));
}

#[test]
fn persisted_last_pair_cannot_carry_model_across_providers() {
    let statuses = statuses(vec![status(XAI_OAUTH, "oauth", true)]);
    let providers = picker_provider_endpoints(&presets(), &[], &statuses);
    let catalogs =
        catalogs(vec![catalog_for(XAI_OAUTH, CatalogSource::Seed, &["grok-4.5"], true)]);
    let selection = suggested_picker_selection(
        &None,
        &XAI_OAUTH.to_string(),
        &Some("kimi-k2.7-code".to_string()),
        &providers,
        &catalogs,
    );
    assert_eq!(selection, pair(XAI_OAUTH, "grok-4.5"));
}

fn picker_inputs(
    catalog_generation: u64,
    auth_generation: u64,
    favorite_generation: u64,
    locked: Option<&str>,
    query: &str,
    selected: Option<PickerChoice>,
) -> ModelPickerRowsCacheInputs {
    ModelPickerRowsCacheInputs {
        catalog_generation,
        auth_generation,
        favorite_generation,
        locked_provider: locked.map(str::to_string),
        selected_tab: ModelPickerTab::All,
        query: query.to_string(),
        selected,
    }
}

fn picker_key(
    catalog_generation: u64,
    auth_generation: u64,
    favorite_generation: u64,
    locked: Option<&str>,
    query: &str,
    selected: Option<PickerChoice>,
) -> ModelPickerRowsCacheKey {
    ModelPickerRowsCacheKey::new(&picker_inputs(
        catalog_generation,
        auth_generation,
        favorite_generation,
        locked,
        query,
        selected,
    ))
}

#[test]
fn picker_row_cache_key_stays_put_when_generations_and_view_do() {
    let first =
        picker_key(1, 2, 3, Some(OPENCODE_GO), "", choice(OPENCODE_GO, "kimi-k2.7-code"));
    let second =
        picker_key(1, 2, 3, Some(OPENCODE_GO), "", choice(OPENCODE_GO, "kimi-k2.7-code"));
    assert_eq!(first, second);
    assert!(first.matches(&picker_inputs(
        1,
        2,
        3,
        Some(OPENCODE_GO),
        "",
        choice(OPENCODE_GO, "kimi-k2.7-code")
    )));
}

#[test]
fn picker_row_cache_key_moves_when_catalog_auth_or_favorite_generation_changes() {
    let baseline = picker_key(1, 1, 1, None, "", None);
    assert_ne!(picker_key(2, 1, 1, None, "", None), baseline);
    assert_ne!(picker_key(1, 2, 1, None, "", None), baseline);
    assert_ne!(picker_key(1, 1, 2, None, "", None), baseline);
    assert!(!baseline.matches(&picker_inputs(2, 1, 1, None, "", None)));
    assert!(!baseline.matches(&picker_inputs(1, 2, 1, None, "", None)));
    assert!(!baseline.matches(&picker_inputs(1, 1, 2, None, "", None)));
}

#[test]
fn picker_row_cache_key_moves_with_search_lock_or_selection() {
    let baseline = picker_key(1, 1, 1, None, "", None);
    assert_ne!(picker_key(1, 1, 1, None, "gr", None), baseline);
    assert_ne!(picker_key(1, 1, 1, Some(OPENCODE_GO), "", None), baseline);
    assert_ne!(
        picker_key(1, 1, 1, None, "", choice(OPENCODE_GO, "kimi-k2.7-code")),
        baseline
    );
    assert!(!baseline.matches(&picker_inputs(1, 1, 1, None, "gr", None)));
    assert!(!baseline.matches(&picker_inputs(1, 1, 1, Some(OPENCODE_GO), "", None)));
    assert!(!baseline.matches(&picker_inputs(
        1,
        1,
        1,
        None,
        "",
        choice(OPENCODE_GO, "kimi-k2.7-code")
    )));
}

#[test]
fn picker_row_cache_reuses_snapshot_until_generation_changes() {
    let providers = picker_provider_endpoints(&presets(), &[], &go_and_xai());
    let catalogs = catalogs(vec![
        catalog_for(OPENCODE_GO, CatalogSource::Live, &["kimi-k2.7-code", "gemini-3-flash"], true),
        catalog_for(XAI_OAUTH, CatalogSource::Live, &["grok-4.6"], true),
    ]);
    let selected = || choice(OPENCODE_GO, "kimi-k2.7-code");
    let mut cache = ModelPickerRowsCache { key: None, rows: Rc::new(Vec::new()) };
    let mut builds = 0;
    let rows = || {
        labeled_model_picker_rows(
            &presets(),
            &providers,
            &catalogs,
            &[],
            &Some(OPENCODE_GO.to_string()),
            &ModelPickerTab::All,
            "",
            &selected(),
        )
    };
    let first = cached_model_picker_rows(
        &mut cache,
        &picker_inputs(1, 1, 1, Some(OPENCODE_GO), "", selected()),
        || {
            builds += 1;
            rows()
        },
    );
    assert_eq!(first.len(), 2);
    assert_eq!(first[0].label, "OpenCode Go · kimi-k2.7-code");
    assert!(first[0].selected);
    assert!(!first[1].selected);
    let second = cached_model_picker_rows(
        &mut cache,
        &picker_inputs(1, 1, 1, Some(OPENCODE_GO), "", selected()),
        || panic!("same generation must reuse the snapshot"),
    );
    assert!(Rc::ptr_eq(&first, &second));
    assert_eq!(builds, 1);
    let after_catalog = cached_model_picker_rows(
        &mut cache,
        &picker_inputs(2, 1, 1, Some(OPENCODE_GO), "", selected()),
        || {
            builds += 1;
            rows()
        },
    );
    assert!(!Rc::ptr_eq(&first, &after_catalog));
    assert_eq!(builds, 2);
    let after_auth = cached_model_picker_rows(
        &mut cache,
        &picker_inputs(2, 2, 1, Some(OPENCODE_GO), "", selected()),
        || {
            builds += 1;
            rows()
        },
    );
    assert!(!Rc::ptr_eq(&after_catalog, &after_auth));
    assert_eq!(builds, 3);
    let after_favorite = cached_model_picker_rows(
        &mut cache,
        &picker_inputs(2, 2, 2, Some(OPENCODE_GO), "", selected()),
        || {
            builds += 1;
            rows()
        },
    );
    assert!(!Rc::ptr_eq(&after_auth, &after_favorite));
    assert_eq!(builds, 4);
}

#[test]
fn a_reason_stands_behind_a_model_that_cannot_be_used() {
    let custom = vec![endpoint("mine", "Mine", "m1", &[])];
    let mut known = catalog_for("mine", CatalogSource::Live, &["m1", "pic"], true);
    known.models[1].supported = false;
    known.models[1].unsupported_reason = Some("NonChat".to_string());
    let rows = labeled_model_picker_rows(
        &presets(),
        &custom,
        &catalogs(vec![known]),
        &[FavoriteModel { provider: "mine".to_string(), model: "m1".to_string() }],
        &None,
        &ModelPickerTab::All,
        "",
        &None,
    );
    assert_eq!(rows[0].label, "Mine · m1");
    assert!(rows[0].supported && rows[0].favorite && !rows[0].selected);
    assert_eq!(rows[1].label, "Mine · pic (NonChat)");
    assert!(!rows[1].supported && !rows[1].favorite);
}

#[test]
fn marked_models_come_in_the_order_of_the_marks() {
    let custom = vec![endpoint("mine", "Mine", "a", &["a", "b", "c"])];
    let marks = [
        FavoriteModel { provider: "mine".to_string(), model: "c".to_string() },
        FavoriteModel { provider: "mine".to_string(), model: "a".to_string() },
    ];
    let models = visible_picker_models(
        &presets(),
        &custom,
        &KeyMap::new(),
        &marks,
        &None,
        &ModelPickerTab::Favorites,
        "",
    );
    let ids: Vec<&str> = models.iter().map(|m| m.id.as_str()).collect();
    assert_eq!(ids, vec!["c", "a"]);
}

#[test]
fn marks_make_no_difference_to_a_search() {
    let custom = vec![endpoint("mine", "Mine", "a", &["a1", "b", "a2"])];
    let marks = [FavoriteModel { provider: "mine".to_string(), model: "a2".to_string() }];
    let found = |marks: &[FavoriteModel]| -> Vec<String> {
        visible_picker_models(
            &presets(),
            &custom,
            &KeyMap::new(),
            marks,
            &None,
            &ModelPickerTab::Favorites,
            "a",
        )
        .into_iter()
        .map(|m| m.id)
        .collect()
    };
    assert_eq!(found(&marks), vec!["a1", "a2"]);
    assert_eq!(found(&[]), vec!["a1", "a2"]);
}

#[test]
fn every_word_of_a_search_must_occur() {
    let custom = vec![endpoint("mine", "My Gateway", "a", &["alpha", "beta"])];
    let found = |query: &str| {
        visible_picker_models(
            &presets(),
            &custom,
            &KeyMap::new(),
            &[],
            &Some("other".to_string()),
            &ModelPickerTab::Provider("other".to_string()),
            query,
        )
        .len()
    };
    assert_eq!(found("gateway alp"), 1);
    assert_eq!(found("mine"), 2);
    assert_eq!(found("mine gamma"), 0);
    assert_eq!(found(""), 0);
}

#[test]
fn customs_with_the_id_of_a_builtin_are_left_out() {
    let customs = vec![
        endpoint(OPENCODE_GO, "Mine", "x", &["x"]),
        endpoint("mine", "Mine", "x", &["x"]),
    ];
    assert_eq!(catalog_refresh_providers(&presets(), &customs, &KeyMap::new()), vec!["mine"]);
}

#[test]
fn a_default_that_cannot_be_used_gives_way_to_the_first_that_can() {
    let provider = endpoint("mine", "Mine", "a", &[]);
    let mut known = catalog_for("mine", CatalogSource::Live, &["a", "b", "c"], true);
    known.models[0].supported = false;
    assert_eq!(preferred_supported_model(&provider, Some(&known)), Some("b".to_string()));
    assert_eq!(preferred_supported_model(&provider, None), None);
    assert_eq!(
        first_compatible_picker_model(&[provider], &catalogs(vec![known])),
        pair("mine", "b")
    );
}

#[test]
fn a_configured_choice_without_models_suggests_nothing() {
    let providers = picker_provider_endpoints(&presets(), &[], &go_and_xai());
    let catalogs =
        catalogs(vec![catalog_for(XAI_OAUTH, CatalogSource::Live, &["grok-4.5"], true)]);
    assert_eq!(
        suggested_picker_selection(
            &choice(OPENCODE_GO, "kimi-k2.7-code"),
            &XAI_OAUTH.to_string(),
            &None,
            &providers,
            &catalogs
        ),
        None
    );
    assert!(!catalog_supports_model(catalogs.get(&XAI_OAUTH.to_string()), "  "));
    assert!(catalog_supports_model(catalogs.get(&XAI_OAUTH.to_string()), " grok-4.5 "));
    assert_eq!(send_provider_model(&XAI_OAUTH.to_string(), None, &catalogs), None);
}

#[test]
fn the_cursor_goes_round_the_list() {
    assert_eq!(next_picker_highlight(None, 3, "down"), Some(0));
    assert_eq!(next_picker_highlight(None, 3, "up"), Some(2));
    assert_eq!(next_picker_highlight(Some(2), 3, "down"), Some(0));
    assert_eq!(next_picker_highlight(Some(0), 3, "up"), Some(2));
    assert_eq!(next_picker_highlight(Some(0), 0, "up"), None);
    assert_eq!(next_picker_highlight(Some(0), 3, "left"), None);
    assert_eq!(next_model_picker_highlight(Some(1), 3, "home"), Some(0));
    assert_eq!(next_model_picker_highlight(Some(1), 3, "end"), Some(2));
    assert_eq!(next_model_picker_highlight(None, 0, "end"), None);
    assert_eq!(next_model_picker_highlight(Some(1), 3, "down"), Some(2));
}
