//! The picker of models: which providers and models it offers, which one it suggests, and how its rows
//! read.
use crate::key_map::KeyMap;
use crate::providers::{
    catalog_of, deref, find_provider, has_supported, lists_provider, lists_supported,
    provider_position, provider_views, ExternalProvider, ModelCatalog, ModelCatalogEntry,
    ProviderAuthStatus, ProviderView,
};
use crate::text::{copy_texts, opt_view, trim, trimmed, trimming_again_changes_nothing, views};
use vstd::prelude::*;

verus! {

// ---------------------------------------------------------------------------
// Providers
// ---------------------------------------------------------------------------
/// Tells whether the user is signed in to a provider.
pub open spec fn is_connected(
    statuses: Map<Seq<char>, ProviderAuthStatus>,
    id: Seq<char>,
) -> bool {
    statuses.contains_key(id) && statuses[id].connected
}

/// The providers that the picker offers: the built-in ones that the user is signed in to, and the
/// user's own that are not built in.
pub open spec fn picker_providers(
    presets: Seq<ProviderView>,
    customs: Seq<ProviderView>,
    statuses: Map<Seq<char>, ProviderAuthStatus>,
) -> Seq<ProviderView> {
    presets.filter(|p: ProviderView| is_connected(statuses, p.id)) + customs.filter(
        |c: ProviderView| !lists_provider(presets, c.id),
    )
}

/// The providers that the picker offers. `presets` are the built-in ones. That a provider is offered
/// does not say that its models are known.
pub fn picker_provider_endpoints(
    presets: &[ExternalProvider],
    customs: &[ExternalProvider],
    statuses: &KeyMap<String, ProviderAuthStatus>,
) -> (r: Vec<ExternalProvider>)
    ensures
        provider_views(r@) == picker_providers(
            provider_views(presets@),
            provider_views(customs@),
            statuses@,
        ),
{
    let mut r: Vec<ExternalProvider> = Vec::new();
    let ghost known = provider_views(presets@);
    let ghost own = provider_views(customs@);
    let ghost signed = |p: ProviderView| is_connected(statuses@, p.id);
    let ghost foreign = |c: ProviderView| !lists_provider(known, c.id);
    proof {
        reveal(Seq::filter);
        assert(provider_views(r@) =~= known.take(0).filter(signed));
    }
    for i in 0..presets.len()
        invariant
            known == provider_views(presets@),
            signed == |p: ProviderView| is_connected(statuses@, p.id),
            provider_views(r@) == known.take(i as int).filter(signed),
    {
        let connected = match statuses.get(&presets[i].id) {
            Some(status) => status.connected,
            None => false,
        };
        let ghost before = r@;
        proof {
            reveal(Seq::filter);
            assert(known.take(i as int + 1).drop_last() =~= known.take(i as int));
            assert(known[i as int] == presets@[i as int]@);
        }
        if connected {
            r.push(presets[i].clone());
            assert(provider_views(r@) =~= provider_views(before).push(known[i as int]));
        }
    }
    proof {
        reveal(Seq::filter);
        assert(known.take(presets@.len() as int) =~= known);
        assert(own.take(0).filter(foreign) =~= Seq::empty());
        assert(provider_views(r@) =~= known.filter(signed) + own.take(0).filter(foreign));
    }
    for i in 0..customs.len()
        invariant
            known == provider_views(presets@),
            own == provider_views(customs@),
            foreign == |c: ProviderView| !lists_provider(known, c.id),
            provider_views(r@) == known.filter(signed) + own.take(i as int).filter(foreign),
    {
        let ghost before = r@;
        let ghost so_far = own.take(i as int).filter(foreign);
        proof {
            reveal(Seq::filter);
            assert(own.take(i as int + 1).drop_last() =~= own.take(i as int));
            assert(own[i as int] == customs@[i as int]@);
        }
        if find_provider(presets, customs[i].id.as_str()) >= presets.len() {
            r.push(customs[i].clone());
            assert(provider_views(r@) =~= provider_views(before).push(own[i as int]));
            assert(provider_views(r@) =~= known.filter(signed) + so_far.push(own[i as int]));
        }
    }
    assert(own.take(customs@.len() as int) =~= own);
    r
}

/// The ids of the providers that the picker offers, whose models are to be asked for.
pub fn catalog_refresh_providers(
    presets: &[ExternalProvider],
    customs: &[ExternalProvider],
    statuses: &KeyMap<String, ProviderAuthStatus>,
) -> (r: Vec<String>)
    ensures
        views(r@) == picker_providers(
            provider_views(presets@),
            provider_views(customs@),
            statuses@,
        ).map_values(|p: ProviderView| p.id),
{
    let providers = picker_provider_endpoints(presets, customs, statuses);
    let mut r: Vec<String> = Vec::new();
    for i in 0..providers.len()
        invariant
            r@.len() == i,
            forall|k: int| 0 <= k < i ==> (#[trigger] r@[k])@ == provider_views(providers@)[k].id,
    {
        r.push(providers[i].id.clone());
    }
    assert(views(r@) =~= provider_views(providers@).map_values(|p: ProviderView| p.id));
    r
}

/// Tells whether a provider has to be set up before anything can be sent.
pub fn composer_needs_configure_first(providers: &[ExternalProvider]) -> (r: bool)
    ensures
        r == (providers@.len() == 0),
{
    providers.len() == 0
}

/// The provider to turn to where the current one is not offered: the first that is.
pub open spec fn next_provider(current: Option<Seq<char>>, providers: Seq<ProviderView>) -> Option<
    Seq<char>,
> {
    if current is Some && lists_provider(providers, current->0) {
        None
    } else if providers.len() > 0 {
        Some(providers[0].id)
    } else {
        None
    }
}

/// The provider to turn to where the current one is not offered.
pub fn suggested_picker_provider(
    current: Option<&String>,
    providers: &[ExternalProvider],
) -> (r: Option<String>)
    ensures
        opt_view(r) == next_provider(
            (match current {
                Some(id) => Some(id@),
                None => None,
            }),
            provider_views(providers@),
        ),
{
    if let Some(id) = current {
        if find_provider(providers, id.as_str()) < providers.len() {
            return None;
        }
    }
    if providers.len() > 0 {
        assert(provider_views(providers@)[0].id == providers@[0].id@);
        Some(providers[0].id.clone())
    } else {
        None
    }
}

// ---------------------------------------------------------------------------
// Models that can be used
// ---------------------------------------------------------------------------
/// The first model from `i` on that can be used, if there is one.
pub open spec fn first_supported(models: Seq<ModelCatalogEntry>, i: int) -> Option<Seq<char>>
    decreases models.len() - i,
{
    if i < 0 || i >= models.len() {
        None
    } else if models[i].supported {
        Some(models[i].id@)
    } else {
        first_supported(models, i + 1)
    }
}

/// The model of a provider to use where none is chosen: its default where it can be used, else the
/// first that can. Without a list of models there is none.
pub open spec fn preferred_model(default: Seq<char>, catalog: Option<ModelCatalog>) -> Option<
    Seq<char>,
> {
    match catalog {
        None => None,
        Some(c) => if lists_supported(c.models@, default) {
            Some(default)
        } else {
            first_supported(c.models@, 0)
        },
    }
}

/// The model of a provider to use where none is chosen.
pub fn preferred_supported_model(
    provider: &ExternalProvider,
    catalog: Option<&ModelCatalog>,
) -> (r: Option<String>)
    ensures
        opt_view(r) == preferred_model(provider@.default_model, deref(catalog)),
{
    let known = match catalog {
        Some(c) => c,
        None => return None,
    };
    if has_supported(&known.models, provider.default_model.as_str()) {
        return Some(provider.default_model.clone());
    }
    let mut i: usize = 0;
    while i < known.models.len()
        invariant
            i <= known.models@.len(),
            preferred_model(provider@.default_model, deref(catalog)) == first_supported(
                known.models@,
                i as int,
            ),
        decreases known.models@.len() - i,
    {
        if known.models[i].supported {
            return Some(known.models[i].id.clone());
        }
        i = i + 1;
    }
    None
}

/// The contents of a provider and a model.
pub open spec fn pair_view(p: Option<(String, String)>) -> Option<(Seq<char>, Seq<char>)> {
    match p {
        Some(pair) => Some((pair.0@, pair.1@)),
        None => None,
    }
}

/// The first provider from `i` on with a model that can be used, and that model.
pub open spec fn first_compatible(
    providers: Seq<ProviderView>,
    catalogs: Map<Seq<char>, ModelCatalog>,
    i: int,
) -> Option<(Seq<char>, Seq<char>)>
    decreases providers.len() - i,
{
    if i < 0 || i >= providers.len() {
        None
    } else {
        match preferred_model(
            providers[i].default_model,
            catalog_of(catalogs, providers[i].id),
        ) {
            Some(model) => Some((providers[i].id, model)),
            None => first_compatible(providers, catalogs, i + 1),
        }
    }
}

/// The first provider with a model that can be used, and that model.
pub fn first_compatible_picker_model(
    providers: &[ExternalProvider],
    catalogs: &KeyMap<String, ModelCatalog>,
) -> (r: Option<(String, String)>)
    ensures
        pair_view(r) == first_compatible(provider_views(providers@), catalogs@, 0),
{
    let mut i: usize = 0;
    while i < providers.len()
        invariant
            i <= providers@.len(),
            first_compatible(provider_views(providers@), catalogs@, 0) == first_compatible(
                provider_views(providers@),
                catalogs@,
                i as int,
            ),
        decreases providers@.len() - i,
    {
        assert(provider_views(providers@)[i as int] == providers@[i as int]@);
        if let Some(model) = preferred_supported_model(
            &providers[i],
            catalogs.get(&providers[i].id),
        ) {
            return Some((providers[i].id.clone(), model));
        }
        i = i + 1;
    }
    None
}

/// Tells whether a model, given with or without white space around it, is listed and can be used.
pub open spec fn supports(catalog: Option<ModelCatalog>, model: Seq<char>) -> bool {
    trimmed(model).len() > 0 && catalog is Some && lists_supported(
        catalog->0.models@,
        trimmed(model),
    )
}

/// Tells whether a model is listed and can be used.
pub fn catalog_supports_model(catalog: Option<&ModelCatalog>, model: &str) -> (r: bool)
    ensures
        r == supports(deref(catalog), model@),
{
    let model = trim(model);
    if model.as_str().is_empty() {
        return false;
    }
    match catalog {
        Some(c) => has_supported(&c.models, model.as_str()),
        None => false,
    }
}

/// What is sent of a choice of a provider and a model: both, where the model is listed and can be used.
pub open spec fn sendable(
    provider: Seq<char>,
    model: Option<Seq<char>>,
    catalogs: Map<Seq<char>, ModelCatalog>,
) -> Option<(Seq<char>, Seq<char>)> {
    match model {
        Some(m) => if supports(catalog_of(catalogs, provider), trimmed(m)) {
            Some((provider, trimmed(m)))
        } else {
            None
        },
        None => None,
    }
}

/// What is sent of a choice of a provider and a model.
pub fn send_provider_model(
    provider: &String,
    model: Option<&String>,
    catalogs: &KeyMap<String, ModelCatalog>,
) -> (r: Option<(String, String)>)
    ensures
        pair_view(r) == sendable(
            provider@,
            (match model {
                Some(m) => Some(m@),
                None => None,
            }),
            catalogs@,
        ),
{
    let model = match model {
        Some(m) => trim(m.as_str()),
        None => return None,
    };
    if catalog_supports_model(catalogs.get(provider), model.as_str()) {
        Some((provider.clone(), model))
    } else {
        None
    }
}

// ---------------------------------------------------------------------------
// The suggestion
// ---------------------------------------------------------------------------
/// What a choice comes to among the providers that are offered: the chosen model where it can be used,
/// else the one that its provider prefers.
pub open spec fn resolved(
    id: Seq<char>,
    model: Option<Seq<char>>,
    providers: Seq<ProviderView>,
    catalogs: Map<Seq<char>, ModelCatalog>,
) -> Option<(Seq<char>, Seq<char>)> {
    let at = provider_position(providers, id, 0);
    let catalog = catalog_of(catalogs, id);
    if at >= providers.len() {
        None
    } else if model is Some && supports(catalog, trimmed(model->0)) {
        Some((id, trimmed(model->0)))
    } else {
        match preferred_model(providers[at].default_model, catalog) {
            Some(m) => Some((id, m)),
            None => None,
        }
    }
}

fn resolve(
    id: &String,
    model: Option<&String>,
    providers: &[ExternalProvider],
    catalogs: &KeyMap<String, ModelCatalog>,
) -> (r: Option<(String, String)>)
    ensures
        pair_view(r) == resolved(
            id@,
            (match model {
                Some(m) => Some(m@),
                None => None,
            }),
            provider_views(providers@),
            catalogs@,
        ),
{
    let at: usize = find_provider(providers, id.as_str());
    if at >= providers.len() {
        return None;
    }
    assert(provider_views(providers@)[at as int] == providers@[at as int]@);
    let catalog = catalogs.get(id);
    if let Some(m) = model {
        let m = trim(m.as_str());
        if catalog_supports_model(catalog, m.as_str()) {
            return Some((id.clone(), m));
        }
    }
    match preferred_supported_model(&providers[at], catalog) {
        Some(m) => Some((id.clone(), m)),
        None => None,
    }
}

/// The provider and the model that the picker suggests: what the session's choice comes to; else, where
/// its provider is not offered, what the last choice comes to; else the first provider with a model
/// that can be used.
pub open spec fn suggestion(
    selected: Option<(Seq<char>, Option<Seq<char>>)>,
    last_provider: Seq<char>,
    last_model: Option<Seq<char>>,
    providers: Seq<ProviderView>,
    catalogs: Map<Seq<char>, ModelCatalog>,
) -> Option<(Seq<char>, Seq<char>)> {
    let chosen = match selected {
        Some(s) => resolved(s.0, s.1, providers, catalogs),
        None => None,
    };
    let current = match selected {
        Some(s) => s.0,
        None => last_provider,
    };
    let last = resolved(last_provider, last_model, providers, catalogs);
    let next = match next_provider(Some(current), providers) {
        Some(first) => resolved(first, None, providers, catalogs),
        None => None,
    };
    if chosen is Some {
        chosen
    } else if selected is Some && lists_provider(providers, (selected->0).0) {
        None
    } else if last is Some {
        last
    } else if next is Some {
        next
    } else {
        first_compatible(providers, catalogs, 0)
    }
}

/// A choice of a provider and perhaps a model.
#[derive(Debug, PartialEq, Eq)]
pub struct PickerChoice {
    pub provider: String,
    pub model: Option<String>,
}

/// The contents of a choice.
pub open spec fn choice_view(c: Option<PickerChoice>) -> Option<(Seq<char>, Option<Seq<char>>)> {
    match c {
        Some(choice) => Some((choice.provider@, opt_view(choice.model))),
        None => None,
    }
}

fn as_reference(o: &Option<String>) -> (r: Option<&String>)
    ensures
        opt_view(*o) == (match r {
            Some(v) => Some(v@),
            None => None,
        }),
{
    match o {
        Some(v) => Some(v),
        None => None,
    }
}

/// The provider and the model that the picker suggests.
pub fn suggested_picker_selection(
    selected: &Option<PickerChoice>,
    last_provider: &String,
    last_model: &Option<String>,
    providers: &[ExternalProvider],
    catalogs: &KeyMap<String, ModelCatalog>,
) -> (r: Option<(String, String)>)
    ensures
        pair_view(r) == suggestion(
            choice_view(*selected),
            last_provider@,
            opt_view(*last_model),
            provider_views(providers@),
            catalogs@,
        ),
{
    if let Some(choice) = selected {
        let pair = resolve(&choice.provider, as_reference(&choice.model), providers, catalogs);
        if pair.is_some() {
            return pair;
        }
        if find_provider(providers, choice.provider.as_str()) < providers.len() {
            return None;
        }
    }
    let pair = resolve(last_provider, as_reference(last_model), providers, catalogs);
    if pair.is_some() {
        return pair;
    }
    let current = match selected {
        Some(choice) => &choice.provider,
        None => last_provider,
    };
    if let Some(first) = suggested_picker_provider(Some(current), providers) {
        let pair = resolve(&first, None, providers, catalogs);
        if pair.is_some() {
            return pair;
        }
    }
    first_compatible_picker_model(providers, catalogs)
}

// ---------------------------------------------------------------------------
// The models of the picker
// ---------------------------------------------------------------------------
/// The models of a provider: those that are known, even where they are none, else those that the user
/// listed for it, and no others.
pub open spec fn model_ids(catalog: Option<ModelCatalog>, manual: Seq<Seq<char>>) -> Seq<Seq<char>> {
    match catalog {
        Some(c) => Seq::new(c.models@.len(), |i: int| c.models@[i].id@),
        None => manual,
    }
}

/// The models of a provider. Where they are not known and the user listed none, there are none: the
/// default model is not put up in their place.
pub fn catalog_model_ids(
    catalog: Option<&ModelCatalog>,
    manual: &Vec<String>,
    _default_model: &str,
) -> (r: Vec<String>)
    ensures
        views(r@) == model_ids(deref(catalog), views(manual@)),
{
    match catalog {
        Some(c) => {
            let mut r: Vec<String> = Vec::new();
            for i in 0..c.models.len()
                invariant
                    r@.len() == i,
                    forall|k: int| 0 <= k < i ==> (#[trigger] r@[k])@ == c.models@[k].id@,
            {
                r.push(c.models[i].id.clone());
            }
            assert(views(r@) =~= model_ids(deref(catalog), views(manual@)));
            r
        },
        None => copy_texts(manual),
    }
}

/// Tells whether a row can be chosen: a model that is not known to be unusable can.
pub fn catalog_entry_selectable(entry: Option<&ModelCatalogEntry>) -> (r: bool)
    ensures
        r == (entry is None || entry->0.supported),
{
    match entry {
        Some(e) => e.supported,
        None => true,
    }
}

// ---------------------------------------------------------------------------
// Laws
// ---------------------------------------------------------------------------
proof fn first_supported_is_listed(models: Seq<ModelCatalogEntry>, i: int)
    requires
        0 <= i,
    ensures
        first_supported(models, i) is Some ==> lists_supported(
            models,
            first_supported(models, i)->0,
        ),
    decreases models.len() - i,
{
    if i < models.len() && !models[i].supported {
        first_supported_is_listed(models, i + 1);
    }
}

/// Tells whether a choice names a provider that is offered and a model that this provider lists and
/// that can be used.
pub open spec fn usable(
    choice: (Seq<char>, Seq<char>),
    providers: Seq<ProviderView>,
    catalogs: Map<Seq<char>, ModelCatalog>,
) -> bool {
    &&& lists_provider(providers, choice.0)
    &&& catalog_of(catalogs, choice.0) is Some
    &&& lists_supported(catalog_of(catalogs, choice.0)->0.models@, choice.1)
}

proof fn first_compatible_is_usable(
    providers: Seq<ProviderView>,
    catalogs: Map<Seq<char>, ModelCatalog>,
    i: int,
)
    requires
        0 <= i,
    ensures
        first_compatible(providers, catalogs, i) is Some ==> usable(
            first_compatible(providers, catalogs, i)->0,
            providers,
            catalogs,
        ),
    decreases providers.len() - i,
{
    if i < providers.len() {
        let catalog = catalog_of(catalogs, providers[i].id);
        if catalog is Some {
            first_supported_is_listed(catalog->0.models@, 0);
        }
        listed_where_it_stands(providers, i);
        first_compatible_is_usable(providers, catalogs, i + 1);
    }
}

proof fn listed_where_it_stands(providers: Seq<ProviderView>, i: int)
    requires
        0 <= i < providers.len(),
    ensures
        lists_provider(providers, providers[i].id),
{
    found_before(providers, i, 0);
}

proof fn found_before(providers: Seq<ProviderView>, i: int, from: int)
    requires
        0 <= from <= i < providers.len(),
    ensures
        provider_position(providers, providers[i].id, from) < providers.len(),
    decreases i - from,
{
    if providers[from].id != providers[i].id {
        found_before(providers, i, from + 1);
    }
}

proof fn resolved_is_usable(
    id: Seq<char>,
    model: Option<Seq<char>>,
    providers: Seq<ProviderView>,
    catalogs: Map<Seq<char>, ModelCatalog>,
)
    ensures
        resolved(id, model, providers, catalogs) is Some ==> usable(
            resolved(id, model, providers, catalogs)->0,
            providers,
            catalogs,
        ),
{
    let catalog = catalog_of(catalogs, id);
    if catalog is Some {
        first_supported_is_listed(catalog->0.models@, 0);
    }
    if model is Some {
        trimming_again_changes_nothing(model->0);
    }
}

/// Whatever was chosen before, the picker suggests only a model that a provider on offer lists itself
/// and that can be used: a model never goes over from one provider to another.
pub proof fn suggestion_is_usable(
    selected: Option<(Seq<char>, Option<Seq<char>>)>,
    last_provider: Seq<char>,
    last_model: Option<Seq<char>>,
    providers: Seq<ProviderView>,
    catalogs: Map<Seq<char>, ModelCatalog>,
)
    ensures
        suggestion(selected, last_provider, last_model, providers, catalogs) is Some ==> usable(
            suggestion(selected, last_provider, last_model, providers, catalogs)->0,
            providers,
            catalogs,
        ),
{
    if let Some(s) = selected {
        resolved_is_usable(s.0, s.1, providers, catalogs);
    }
    resolved_is_usable(last_provider, last_model, providers, catalogs);
    let current = match selected {
        Some(s) => s.0,
        None => last_provider,
    };
    if let Some(first) = next_provider(Some(current), providers) {
        resolved_is_usable(first, None, providers, catalogs);
    }
    first_compatible_is_usable(providers, catalogs, 0);
}

/// A choice that can be used is kept, whatever was chosen last.
pub proof fn usable_choice_stays(
    provider: Seq<char>,
    model: Seq<char>,
    last_provider: Seq<char>,
    last_model: Option<Seq<char>>,
    providers: Seq<ProviderView>,
    catalogs: Map<Seq<char>, ModelCatalog>,
)
    requires
        usable((provider, trimmed(model)), providers, catalogs),
        trimmed(model).len() > 0,
    ensures
        suggestion(
            Some((provider, Some(model))),
            last_provider,
            last_model,
            providers,
            catalogs,
        ) == Some((provider, trimmed(model))),
        sendable(provider, Some(model), catalogs) == Some((provider, trimmed(model))),
{
    trimming_again_changes_nothing(model);
}

/// What is sent can be used: the model is one that the provider lists.
pub proof fn only_usable_is_sent(
    provider: Seq<char>,
    model: Option<Seq<char>>,
    catalogs: Map<Seq<char>, ModelCatalog>,
)
    ensures
        match sendable(provider, model, catalogs) {
            Some(sent) => sent.0 == provider && model is Some && sent.1 == trimmed(model->0)
                && catalog_of(catalogs, provider) is Some && lists_supported(
                catalog_of(catalogs, provider)->0.models@,
                sent.1,
            ),
            None => model is Some ==> !supports(catalog_of(catalogs, provider), model->0),
        },
{
    if model is Some {
        trimming_again_changes_nothing(model->0);
    }
}

/// A provider that is set up and has no model that can be used is not left for another one.
pub proof fn provider_on_offer_is_not_left(
    provider: Seq<char>,
    model: Option<Seq<char>>,
    last_provider: Seq<char>,
    last_model: Option<Seq<char>>,
    providers: Seq<ProviderView>,
    catalogs: Map<Seq<char>, ModelCatalog>,
)
    requires
        lists_provider(providers, provider),
    ensures
        match suggestion(
            Some((provider, model)),
            last_provider,
            last_model,
            providers,
            catalogs,
        ) {
            Some(choice) => choice.0 == provider,
            None => true,
        },
{
}

} // verus!
