//! What an agent is started with: the model and the options that its provider allows.
use crate::composer::picker::{
    catalog_supports_model, send_provider_model, sendable, supports,
};
use crate::key_map::KeyMap;
use crate::protocol::{InteractionMode, RuntimeMode, ServiceTier};
use crate::providers::{
    catalog_of, deref, entry_of, find_entry, find_provider, provider_position, provider_views,
    ExternalProvider, ModelCatalog, ModelCatalogEntry, ProviderView, ReasoningEffortOption,
};
use crate::session::AgentSession;
use crate::text::{concat3, copy_opt_text, opt_view, same_text, str_view, trim, trimmed};
use vstd::prelude::*;

verus! {

// ---------------------------------------------------------------------------
// What a model allows
// ---------------------------------------------------------------------------
/// What is known of a model.
pub fn catalog_entry_for<'a>(
    catalogs: &'a KeyMap<String, ModelCatalog>,
    provider: &String,
    model: &str,
) -> (r: Option<&'a ModelCatalogEntry>)
    ensures
        deref(r) == entry_of(catalog_of(catalogs@, provider@), model@),
{
    find_entry(catalogs.get(provider), model)
}

/// Tells whether a model that can be used can be asked for a service tier.
pub open spec fn allows_tier(entry: Option<ModelCatalogEntry>) -> bool {
    entry is Some && entry->0.supported && entry->0.capabilities.service_tier
}

/// Tells whether a model can be asked for a service tier.
pub fn catalog_allows_service_tier(entry: Option<&ModelCatalogEntry>) -> (r: bool)
    ensures
        r == allows_tier(deref(entry)),
{
    match entry {
        Some(e) => e.supported && e.capabilities.service_tier,
        None => false,
    }
}

/// Tells whether a model that can be used offers a choice of efforts.
pub open spec fn allows_effort(entry: Option<ModelCatalogEntry>) -> bool {
    entry is Some && entry->0.supported && entry->0.capabilities.reasoning_effort
        && entry->0.reasoning_efforts@.len() > 0
}

/// Tells whether a model offers a choice of efforts.
pub fn catalog_allows_reasoning_effort(entry: Option<&ModelCatalogEntry>) -> (r: bool)
    ensures
        r == allows_effort(deref(entry)),
{
    match entry {
        Some(e) => e.supported && e.capabilities.reasoning_effort && e.reasoning_efforts.len() > 0,
        None => false,
    }
}

/// Where the first effort with an id stands, from `i` on, or the number of efforts.
pub open spec fn effort_position(
    efforts: Seq<ReasoningEffortOption>,
    id: Seq<char>,
    i: int,
) -> int
    decreases efforts.len() - i,
{
    if i < 0 || i >= efforts.len() {
        efforts.len() as int
    } else if efforts[i].id@ == id {
        i
    } else {
        effort_position(efforts, id, i + 1)
    }
}

/// Finds the first effort with an id.
pub fn find_effort(efforts: &Vec<ReasoningEffortOption>, id: &str) -> (at: usize)
    ensures
        at == effort_position(efforts@, id@, 0),
        at <= efforts@.len(),
        at < efforts@.len() ==> efforts@[at as int].id@ == id@,
{
    let mut i: usize = 0;
    while i < efforts.len()
        invariant
            i <= efforts@.len(),
            effort_position(efforts@, id@, 0) == effort_position(efforts@, id@, i as int),
        decreases efforts@.len() - i,
    {
        if same_text(efforts[i].id.as_str(), id) {
            return i;
        }
        i = i + 1;
    }
    i
}

/// Tells whether a model offers an effort.
pub open spec fn offers_effort(entry: Option<ModelCatalogEntry>, effort: Seq<char>) -> bool {
    allows_effort(entry) && effort_position(entry->0.reasoning_efforts@, effort, 0)
        < entry->0.reasoning_efforts@.len()
}

/// The effort that was chosen, where the model offers it.
pub fn gated_reasoning_effort<'a>(
    effort: Option<&'a str>,
    entry: Option<&ModelCatalogEntry>,
) -> (r: Option<&'a str>)
    ensures
        r == (if effort is Some && offers_effort(deref(entry), effort->0@) {
            effort
        } else {
            None
        }),
{
    match (effort, entry) {
        (Some(id), Some(e)) => {
            if catalog_allows_reasoning_effort(entry) && find_effort(&e.reasoning_efforts, id)
                < e.reasoning_efforts.len() {
                Some(id)
            } else {
                None
            }
        },
        _ => None,
    }
}

/// What the provider calls the effort that was chosen, where the model offers it.
pub open spec fn effort_sent(effort: Option<Seq<char>>, entry: Option<ModelCatalogEntry>) -> Option<
    Seq<char>,
> {
    if effort is Some && offers_effort(entry, effort->0) {
        let efforts = entry->0.reasoning_efforts@;
        Some(efforts[effort_position(efforts, effort->0, 0)].provider_value@)
    } else {
        None
    }
}

/// What the provider calls the effort that was chosen, where the model offers it.
pub fn provider_reasoning_effort<'a>(
    effort: Option<&str>,
    entry: Option<&'a ModelCatalogEntry>,
) -> (r: Option<&'a str>)
    ensures
        str_view(r) == effort_sent(str_view(effort), deref(entry)),
{
    match (effort, entry) {
        (Some(id), Some(e)) => {
            let at: usize = find_effort(&e.reasoning_efforts, id);
            if catalog_allows_reasoning_effort(entry) && at < e.reasoning_efforts.len() {
                Some(e.reasoning_efforts[at].provider_value.as_str())
            } else {
                None
            }
        },
        _ => None,
    }
}

/// The service tier that was chosen, where it can be asked for.
pub fn gated_service_tier(tier: Option<ServiceTier>, catalog_allows: bool) -> (r: Option<
    ServiceTier,
>)
    ensures
        r == (if catalog_allows {
            tier
        } else {
            None
        }),
{
    if catalog_allows {
        tier
    } else {
        None
    }
}

// ---------------------------------------------------------------------------
// What a task asks for
// ---------------------------------------------------------------------------
/// The model of a task, where its provider lists it and it can be used.
pub open spec fn session_model(
    provider: Seq<char>,
    model: Option<Seq<char>>,
    catalogs: Map<Seq<char>, ModelCatalog>,
) -> Option<Seq<char>> {
    if model is Some && supports(catalog_of(catalogs, provider), model->0) {
        model
    } else {
        None
    }
}

/// The model of a task, where its provider lists it and it can be used.
pub fn model_for_session<'a>(
    session: &'a AgentSession,
    catalogs: &KeyMap<String, ModelCatalog>,
) -> (r: Option<&'a str>)
    ensures
        str_view(r) == session_model(session.provider@, opt_view(session.model), catalogs@),
{
    match &session.model {
        Some(model) => {
            if catalog_supports_model(catalogs.get(&session.provider), model.as_str()) {
                Some(model.as_str())
            } else {
                None
            }
        },
        None => None,
    }
}

/// What is known of the model of a task.
pub open spec fn session_entry(
    provider: Seq<char>,
    model: Option<Seq<char>>,
    catalogs: Map<Seq<char>, ModelCatalog>,
) -> Option<ModelCatalogEntry> {
    match session_model(provider, model, catalogs) {
        Some(m) => entry_of(catalog_of(catalogs, provider), m),
        None => None,
    }
}

fn entry_for_session<'a>(
    session: &AgentSession,
    catalogs: &'a KeyMap<String, ModelCatalog>,
) -> (r: Option<&'a ModelCatalogEntry>)
    ensures
        deref(r) == session_entry(session.provider@, opt_view(session.model), catalogs@),
{
    match model_for_session(session, catalogs) {
        Some(model) => catalog_entry_for(catalogs, &session.provider, model),
        None => None,
    }
}

/// The service tier of a task, where its model can be asked for one.
pub fn service_tier_for_session(
    session: &AgentSession,
    catalogs: &KeyMap<String, ModelCatalog>,
) -> (r: Option<ServiceTier>)
    ensures
        r == (if allows_tier(
            session_entry(session.provider@, opt_view(session.model), catalogs@),
        ) {
            session.service_tier
        } else {
            None
        }),
{
    gated_service_tier(
        session.service_tier,
        catalog_allows_service_tier(entry_for_session(session, catalogs)),
    )
}

/// What the provider calls the effort of a task, where its model offers that effort.
pub fn reasoning_effort_for_session(
    session: &AgentSession,
    catalogs: &KeyMap<String, ModelCatalog>,
) -> (r: Option<String>)
    ensures
        opt_view(r) == effort_sent(
            opt_view(session.reasoning_effort),
            session_entry(session.provider@, opt_view(session.model), catalogs@),
        ),
{
    let effort = match &session.reasoning_effort {
        Some(e) => Some(e.as_str()),
        None => None,
    };
    match provider_reasoning_effort(effort, entry_for_session(session, catalogs)) {
        Some(value) => Some(value.to_string()),
        None => None,
    }
}

/// What is asked of an agent.
#[derive(Debug)]
pub struct SessionOptions {
    pub mode: RuntimeMode,
    pub interaction_mode: InteractionMode,
    pub model: Option<String>,
    pub reasoning_effort: Option<String>,
    pub service_tier: Option<ServiceTier>,
    pub context_window: Option<String>,
}

/// The contents of what is asked of an agent.
pub ghost struct OptionsView {
    pub mode: RuntimeMode,
    pub interaction_mode: InteractionMode,
    pub model: Option<Seq<char>>,
    pub reasoning_effort: Option<Seq<char>>,
    pub service_tier: Option<ServiceTier>,
    pub context_window: Option<Seq<char>>,
}

impl View for SessionOptions {
    type V = OptionsView;

    open spec fn view(&self) -> OptionsView {
        OptionsView {
            mode: self.mode,
            interaction_mode: self.interaction_mode,
            model: opt_view(self.model),
            reasoning_effort: opt_view(self.reasoning_effort),
            service_tier: self.service_tier,
            context_window: opt_view(self.context_window),
        }
    }
}

/// What a task asks of its agent: only what its model allows.
pub open spec fn options_of(session: AgentSession, catalogs: Map<Seq<char>, ModelCatalog>) -> OptionsView {
    let entry = session_entry(session.provider@, opt_view(session.model), catalogs);
    OptionsView {
        mode: session.runtime_mode,
        interaction_mode: session.interaction_mode,
        model: match sendable(session.provider@, opt_view(session.model), catalogs) {
            Some(pair) => Some(pair.1),
            None => None,
        },
        reasoning_effort: effort_sent(opt_view(session.reasoning_effort), entry),
        service_tier: if allows_tier(entry) {
            session.service_tier
        } else {
            None
        },
        context_window: opt_view(session.context_window),
    }
}

/// What a task asks of its agent.
pub fn session_options(
    session: &AgentSession,
    catalogs: &KeyMap<String, ModelCatalog>,
) -> (r: SessionOptions)
    ensures
        r@ == options_of(*session, catalogs@),
{
    let model = match &session.model {
        Some(m) => Some(m),
        None => None,
    };
    let sent = match send_provider_model(&session.provider, model, catalogs) {
        Some((_, m)) => Some(m),
        None => None,
    };
    SessionOptions {
        mode: session.runtime_mode,
        interaction_mode: session.interaction_mode,
        model: sent,
        reasoning_effort: reasoning_effort_for_session(session, catalogs),
        service_tier: service_tier_for_session(session, catalogs),
        context_window: copy_opt_text(&session.context_window),
    }
}

// ---------------------------------------------------------------------------
// The provider
// ---------------------------------------------------------------------------
/// What a provider is called: as the user named it, else as it is built in, else its id.
pub open spec fn endpoint_name(
    presets: Seq<ProviderView>,
    customs: Seq<ProviderView>,
    id: Seq<char>,
) -> Seq<char> {
    let own = provider_position(customs, id, 0);
    let built_in = provider_position(presets, id, 0);
    if own < customs.len() {
        customs[own].name
    } else if built_in < presets.len() {
        presets[built_in].name
    } else {
        id
    }
}

/// What a choice of a provider and a model is called.
pub fn model_display_name(
    presets: &[ExternalProvider],
    customs: &[ExternalProvider],
    provider: &str,
    model: Option<&str>,
) -> (r: String)
    ensures
        r@ == ({
            let name = endpoint_name(provider_views(presets@), provider_views(customs@), provider@);
            if model is Some && trimmed(model->0@).len() > 0 {
                name + " · "@ + model->0@
            } else {
                name
            }
        }),
{
    let own: usize = find_provider(customs, provider);
    let built_in: usize = find_provider(presets, provider);
    let name = if own < customs.len() {
        assert(provider_views(customs@)[own as int] == customs@[own as int]@);
        customs[own].name.as_str()
    } else if built_in < presets.len() {
        assert(provider_views(presets@)[built_in as int] == presets@[built_in as int]@);
        presets[built_in].name.as_str()
    } else {
        provider
    };
    match model {
        Some(m) => {
            if trim(m).as_str().is_empty() {
                name.to_string()
            } else {
                concat3(name, " · ", m)
            }
        },
        None => name.to_string(),
    }
}

/// The provider that an agent is started on: one that is built in, else one of the user's own.
pub open spec fn start_endpoint(
    presets: Seq<ProviderView>,
    customs: Seq<ProviderView>,
    id: Seq<char>,
) -> Option<ProviderView> {
    let built_in = provider_position(presets, id, 0);
    let own = provider_position(customs, id, 0);
    if built_in < presets.len() {
        Some(presets[built_in])
    } else if own < customs.len() {
        Some(customs[own])
    } else {
        None
    }
}

/// The provider that an agent is started on. `presets` are the ones that are built in.
pub fn provider_endpoint_for_start(
    presets: &[ExternalProvider],
    provider: &str,
    customs: &[ExternalProvider],
) -> (r: Option<ExternalProvider>)
    ensures
        match r {
            Some(p) => start_endpoint(
                provider_views(presets@),
                provider_views(customs@),
                provider@,
            ) == Some(p@),
            None => start_endpoint(
                provider_views(presets@),
                provider_views(customs@),
                provider@,
            ) is None,
        },
{
    let built_in: usize = find_provider(presets, provider);
    if built_in < presets.len() {
        assert(provider_views(presets@)[built_in as int] == presets@[built_in as int]@);
        return Some(presets[built_in].clone());
    }
    let own: usize = find_provider(customs, provider);
    if own < customs.len() {
        assert(provider_views(customs@)[own as int] == customs@[own as int]@);
        return Some(customs[own].clone());
    }
    None
}

/// What an agent is started with.
#[derive(Debug)]
pub struct DriverStartOptions {
    pub provider: String,
    pub cwd: String,
    pub options: SessionOptions,
}

/// Why an agent cannot be started.
#[derive(Debug)]
pub enum StartError {
    /// There is no such provider.
    NotConfigured(String),
    /// The provider's id is not one: with the reason.
    InvalidId(String),
    /// The provider has no default model.
    NoDefaultModel(String),
}

/// The contents of the reason why an agent cannot be started.
pub ghost enum StartErrorView {
    NotConfigured(Seq<char>),
    InvalidId(Seq<char>),
    NoDefaultModel(Seq<char>),
}

impl View for StartError {
    type V = StartErrorView;

    open spec fn view(&self) -> StartErrorView {
        match self {
            StartError::NotConfigured(id) => StartErrorView::NotConfigured(id@),
            StartError::InvalidId(reason) => StartErrorView::InvalidId(reason@),
            StartError::NoDefaultModel(id) => StartErrorView::NoDefaultModel(id@),
        }
    }
}

/// Why an agent cannot be started on a provider, if it cannot. `invalid` is the reason why the
/// provider's id is not one.
pub open spec fn start_refusal(
    presets: Seq<ProviderView>,
    customs: Seq<ProviderView>,
    id: Seq<char>,
    invalid: Option<Seq<char>>,
) -> Option<StartErrorView> {
    match start_endpoint(presets, customs, id) {
        None => Some(StartErrorView::NotConfigured(id)),
        Some(endpoint) => if invalid is Some {
            Some(StartErrorView::InvalidId(invalid->0))
        } else if trimmed(endpoint.default_model).len() == 0 {
            Some(StartErrorView::NoDefaultModel(endpoint.id))
        } else {
            None
        },
    }
}

/// What the agent of a task is started with. `invalid` is the reason why the id of the task's provider
/// is not one, where it is not.
pub fn driver_start_request_for_session(
    session: &AgentSession,
    presets: &[ExternalProvider],
    customs: &[ExternalProvider],
    catalogs: &KeyMap<String, ModelCatalog>,
    invalid: &Option<String>,
    cwd: String,
) -> (r: Result<DriverStartOptions, StartError>)
    ensures
        match r {
            Ok(start) => start_refusal(
                provider_views(presets@),
                provider_views(customs@),
                session.provider@,
                opt_view(*invalid),
            ) is None && start.provider == session.provider && start.cwd == cwd
                && start.options@ == options_of(*session, catalogs@),
            Err(e) => start_refusal(
                provider_views(presets@),
                provider_views(customs@),
                session.provider@,
                opt_view(*invalid),
            ) == Some(e@),
        },
{
    let endpoint = match provider_endpoint_for_start(presets, session.provider.as_str(), customs) {
        Some(endpoint) => endpoint,
        None => return Err(StartError::NotConfigured(session.provider.clone())),
    };
    if let Some(reason) = invalid {
        return Err(StartError::InvalidId(reason.clone()));
    }
    if trim(endpoint.default_model.as_str()).as_str().is_empty() {
        return Err(StartError::NoDefaultModel(endpoint.id));
    }
    Ok(
        DriverStartOptions {
            provider: session.provider.clone(),
            cwd,
            options: session_options(session, catalogs),
        },
    )
}

/// How std's `Debug` writes a text: in quotes, with some characters escaped.
pub uninterp spec fn debug_text(s: Seq<char>) -> Seq<char>;

/// The `Debug` form of a `str` of std. Which characters are escaped follows Unicode's tables, so the
/// form is named here and not spelled out.
#[verifier::external_body]
fn debug_form(s: &str) -> (r: String)
    ensures
        r@ == debug_text(s@),
{
    format!("{s:?}")
}

/// What the user is told of an agent that cannot be started.
pub open spec fn start_error_text(e: StartErrorView) -> Seq<char> {
    match e {
        StartErrorView::NotConfigured(id) => "provider "@ + id + " is not configured"@,
        StartErrorView::InvalidId(reason) => reason,
        StartErrorView::NoDefaultModel(id) => "provider "@ + debug_text(id)
            + " has no default model"@,
    }
}

impl StartError {
    /// What the user is told of it.
    pub fn message(&self) -> (r: String)
        ensures
            r@ == start_error_text(self@),
    {
        match self {
            StartError::NotConfigured(id) => concat3("provider ", id.as_str(), " is not configured"),
            StartError::InvalidId(reason) => reason.clone(),
            StartError::NoDefaultModel(id) => concat3(
                "provider ",
                debug_form(id.as_str()).as_str(),
                " has no default model",
            ),
        }
    }
}

// ---------------------------------------------------------------------------
// Laws
// ---------------------------------------------------------------------------
/// Without a model that its provider lists and that can be used, a task asks for no model, no effort
/// and no service tier.
pub proof fn nothing_is_asked_of_an_unknown_model(
    session: AgentSession,
    catalogs: Map<Seq<char>, ModelCatalog>,
)
    requires
        session_model(session.provider@, opt_view(session.model), catalogs) is None,
    ensures
        options_of(session, catalogs).model is None,
        options_of(session, catalogs).reasoning_effort is None,
        options_of(session, catalogs).service_tier is None,
{
    crate::composer::picker::only_usable_is_sent(
        session.provider@,
        opt_view(session.model),
        catalogs,
    );
    if session.model is Some {
        crate::text::trimming_again_changes_nothing(session.model->0@);
    }
}

/// A provider that is built in can be started on without one of the user's own, and one of the user's
/// own with the same id is passed over.
pub proof fn built_in_provider_comes_first(
    presets: Seq<ProviderView>,
    customs: Seq<ProviderView>,
    id: Seq<char>,
)
    requires
        provider_position(presets, id, 0) < presets.len(),
    ensures
        start_endpoint(presets, customs, id) == start_endpoint(presets, Seq::empty(), id),
        start_endpoint(presets, customs, id) is Some,
{
}

/// The effort that goes out is one that the model lists, under the id that was chosen.
pub proof fn effort_sent_is_listed(effort: Seq<char>, entry: ModelCatalogEntry)
    ensures
        match effort_sent(Some(effort), Some(entry)) {
            Some(value) => exists|i: int|
                0 <= i < entry.reasoning_efforts@.len() && (
                #[trigger] entry.reasoning_efforts@[i]).id@ == effort
                    && entry.reasoning_efforts@[i].provider_value@ == value,
            None => !allows_effort(Some(entry)) || forall|i: int|
                0 <= i < entry.reasoning_efforts@.len() ==> (
                #[trigger] entry.reasoning_efforts@[i]).id@ != effort,
        },
{
    effort_position_finds(entry.reasoning_efforts@, effort, 0);
}

proof fn effort_position_finds(efforts: Seq<ReasoningEffortOption>, id: Seq<char>, i: int)
    requires
        0 <= i <= efforts.len(),
    ensures
        i <= effort_position(efforts, id, i) <= efforts.len(),
        effort_position(efforts, id, i) < efforts.len() ==> efforts[effort_position(
            efforts,
            id,
            i,
        )].id@ == id,
        forall|k: int|
            i <= k < effort_position(efforts, id, i) ==> (#[trigger] efforts[k]).id@ != id,
    decreases efforts.len() - i,
{
    if i < efforts.len() && efforts[i].id@ != id {
        effort_position_finds(efforts, id, i + 1);
    }
}

} // verus!
