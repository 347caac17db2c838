//! What an agent's options promise: the model, the effort and the tier that are sent are ones that the provider
//! lists, and a provider is found by its id.
use crate::composer::picker::{catalog_entry_selectable, catalog_supports_model};
use crate::key_map::KeyMap;
use crate::protocol::ServiceTier;
use crate::providers::{
    deref, entry_position, find_provider, has_supported, lists_supported, provider_position,
    provider_views, ExternalProvider, ModelCatalog, ModelCatalogEntry, ProviderView,
    ReasoningEffortOption,
};
use crate::runtime::options::{
    catalog_allows_reasoning_effort, catalog_allows_service_tier, catalog_entry_for,
    effort_position, gated_service_tier, model_display_name, model_for_session,
    provider_endpoint_for_start, reasoning_effort_for_session, service_tier_for_session,
};
use crate::runtime::state::Waku;
use crate::session::AgentSession;
use crate::text::{opt_view, str_view, trimmed};
use vstd::prelude::*;

verus! {

/// Tells whether an entry is the first of a list with its id.
pub open spec fn is_first_entry(models: Seq<ModelCatalogEntry>, i: int) -> bool {
    &&& 0 <= i < models.len()
    &&& forall|k: int| 0 <= k < i ==> (#[trigger] models[k]).id@ != models[i].id@
}

proof fn entry_found(models: Seq<ModelCatalogEntry>, id: Seq<char>, i: int)
    requires
        0 <= i <= models.len(),
    ensures
        i <= entry_position(models, id, i) <= models.len(),
        entry_position(models, id, i) < models.len() ==> models[entry_position(
            models,
            id,
            i,
        )].id@ == id,
        forall|k: int|
            i <= k < entry_position(models, id, i) ==> (#[trigger] models[k]).id@ != id,
    decreases models.len() - i,
{
    if i < models.len() && models[i].id@ != id {
        entry_found(models, id, i + 1);
    }
}

/// The entry of a model is the first one with its id in the catalog of its provider.
pub proof fn models_are_found_by_their_ids(
    catalogs: &KeyMap<String, ModelCatalog>,
    provider: &String,
    model: &str,
    r: Option<&ModelCatalogEntry>,
    i: int,
)
    requires
        call_ensures(catalog_entry_for, (catalogs, provider, model), r),
    ensures
        !catalogs@.contains_key(provider@) ==> r is None,
        catalogs@.contains_key(provider@) && is_first_entry(catalogs@[provider@].models@, i)
            && catalogs@[provider@].models@[i].id@ == model@ ==> r is Some && *(r->0)
            == catalogs@[provider@].models@[i],
        r is Some ==> (r->0).id@ == model@,
{
    assert(deref(r) is Some <==> r is Some);
    if catalogs@.contains_key(provider@) {
        let models = catalogs@[provider@].models@;
        entry_found(models, model@, 0);
        let at = entry_position(models, model@, 0);
        if is_first_entry(models, i) && models[i].id@ == model@ {
            if at < i {
                assert(models[at].id@ != models[i].id@);
            }
        }
    }
}

/// Tells whether a catalog lists a model as one that can be used.
pub open spec fn lists_usable(models: Seq<ModelCatalogEntry>, id: Seq<char>) -> bool {
    exists|i: int| 0 <= i < models.len() && (#[trigger] models[i]).id@ == id && models[i].supported
}

/// A model is supported where its catalog lists it, without white space around it, as one that can be used.
pub proof fn supported_models_are_listed(
    catalog: Option<&ModelCatalog>,
    model: &str,
    r: bool,
    models: &Vec<ModelCatalogEntry>,
    listed: bool,
    entry: Option<&ModelCatalogEntry>,
    selectable: bool,
)
    requires
        call_ensures(catalog_supports_model, (catalog, model), r),
        call_ensures(has_supported, (models, model), listed),
        call_ensures(catalog_entry_selectable, (entry,), selectable),
    ensures
        r <==> trimmed(model@).len() > 0 && catalog is Some && lists_usable(
            (catalog->0).models@,
            trimmed(model@),
        ),
        listed <==> lists_usable(models@, model@),
        selectable <==> entry is None || (entry->0).supported,
{
    if catalog is Some {
        assert(lists_supported((catalog->0).models@, trimmed(model@)) <==> lists_usable(
            (catalog->0).models@,
            trimmed(model@),
        ));
    }
    assert(lists_supported(models@, model@) <==> lists_usable(models@, model@));
}

/// The model of a task is the one that it asks for, where the provider lists it as one that can be used; else it has
/// none.
pub proof fn a_task_has_the_model_it_asks_for(
    session: &AgentSession,
    catalogs: &KeyMap<String, ModelCatalog>,
    r: Option<&str>,
)
    requires
        call_ensures(model_for_session, (session, catalogs), r),
    ensures
        r is Some <==> session.model is Some && trimmed((session.model->0)@).len() > 0
            && catalogs@.contains_key(session.provider@) && lists_usable(
            catalogs@[session.provider@].models@,
            trimmed((session.model->0)@),
        ),
        r is Some ==> (r->0)@ == (session.model->0)@,
{
    assert(str_view(r) is Some <==> r is Some);
    assert(opt_view(session.model) is Some <==> session.model is Some);
    if session.model is Some && catalogs@.contains_key(session.provider@) {
        let models = catalogs@[session.provider@].models@;
        let id = trimmed((session.model->0)@);
        assert(lists_supported(models, id) <==> lists_usable(models, id));
    }
}

/// What a model allows is what its entry says, and nothing is allowed of one that cannot be used.
pub proof fn entries_say_what_is_allowed(
    entry: Option<&ModelCatalogEntry>,
    tier: bool,
    effort: bool,
    wanted: Option<ServiceTier>,
    allowed: bool,
    r: Option<ServiceTier>,
)
    requires
        call_ensures(catalog_allows_service_tier, (entry,), tier),
        call_ensures(catalog_allows_reasoning_effort, (entry,), effort),
        call_ensures(gated_service_tier, (wanted, allowed), r),
    ensures
        tier <==> entry is Some && (entry->0).supported && (entry->0).capabilities.service_tier,
        effort <==> entry is Some && (entry->0).supported && (
        entry->0).capabilities.reasoning_effort && (entry->0).reasoning_efforts@.len() > 0,
        allowed ==> r == wanted,
        !allowed ==> r is None,
{
}

/// A task gets the tier and the effort that it asks for where its model allows them, the effort in the words of
/// the provider; else it gets none.
pub proof fn a_task_gets_what_its_model_allows(
    session: &AgentSession,
    catalogs: &KeyMap<String, ModelCatalog>,
    tier: Option<ServiceTier>,
    effort: Option<String>,
    model: Option<&str>,
    entry: Option<&ModelCatalogEntry>,
    k: int,
)
    requires
        call_ensures(service_tier_for_session, (session, catalogs), tier),
        call_ensures(reasoning_effort_for_session, (session, catalogs), effort),
        call_ensures(model_for_session, (session, catalogs), model),
        model matches Some(m) ==> call_ensures(
            catalog_entry_for,
            (catalogs, &session.provider, m),
            entry,
        ),
    ensures
        model is None ==> tier is None && effort is None,
        model is Some && entry is None ==> tier is None && effort is None,
        model is Some && entry is Some ==> ({
            let e = *(entry->0);
            let efforts = e.reasoning_efforts@;
            &&& e.supported && e.capabilities.service_tier ==> tier == session.service_tier
            &&& !e.supported || !e.capabilities.service_tier ==> tier is None
            &&& !e.supported || !e.capabilities.reasoning_effort || session.reasoning_effort is None
                ==> effort is None
            &&& e.supported && e.capabilities.reasoning_effort && session.reasoning_effort is Some
                && 0 <= k < efforts.len() && efforts[k].id@ == (session.reasoning_effort->0)@ && (
            forall|j: int|
                0 <= j < k ==> (#[trigger] efforts[j]).id@ != (session.reasoning_effort->0)@)
                ==> effort is Some && (effort->0)@ == efforts[k].provider_value@
            &&& (session.reasoning_effort is Some && forall|j: int|
                0 <= j < efforts.len() ==> (#[trigger] efforts[j]).id@ != (
                session.reasoning_effort->0)@) ==> effort is None
        }),
{
    assert(str_view(model) is Some <==> model is Some);
    assert(opt_view(effort) is Some <==> effort is Some);
    assert(opt_view(session.reasoning_effort) is Some <==> session.reasoning_effort is Some);
    assert(deref(entry) is Some <==> entry is Some);
    if model is Some && entry is Some && session.reasoning_effort is Some {
        let efforts = (entry->0).reasoning_efforts@;
        let id = (session.reasoning_effort->0)@;
        effort_is_found(efforts, id, 0);
        let at = effort_position(efforts, id, 0);
        if 0 <= k < efforts.len() && efforts[k].id@ == id && at < k {
            assert(efforts[at].id@ == id);
        }
    }
}

proof fn effort_is_found(
    efforts: Seq<ReasoningEffortOption>,
    id: Seq<char>,
    i: int,
)
    requires
        0 <= i <= efforts.len(),
    ensures
        i <= effort_position(efforts, id, i) <= efforts.len(),
        effort_position(efforts, id, i) < efforts.len() ==> efforts[effort_position(
            efforts,
            id,
            i,
        )].id@ == id,
        forall|k: int|
            i <= k < effort_position(efforts, id, i) ==> (#[trigger] efforts[k]).id@ != id,
    decreases efforts.len() - i,
{
    if i < efforts.len() && efforts[i].id@ != id {
        effort_is_found(efforts, id, i + 1);
    }
}

/// Tells whether a provider is the first of a list with its id.
pub open spec fn is_first_provider(list: Seq<ExternalProvider>, i: int) -> bool {
    &&& 0 <= i < list.len()
    &&& forall|k: int| 0 <= k < i ==> (#[trigger] list[k]).id@ != list[i].id@
}

/// Tells whether no provider of a list has an id.
pub open spec fn no_provider(list: Seq<ExternalProvider>, id: Seq<char>) -> bool {
    forall|k: int| 0 <= k < list.len() ==> (#[trigger] list[k]).id@ != id
}

proof fn provider_position_is_first(list: Seq<ProviderView>, id: Seq<char>, i: int)
    requires
        0 <= i <= list.len(),
    ensures
        i <= provider_position(list, id, i) <= list.len(),
        provider_position(list, id, i) < list.len() ==> list[provider_position(
            list,
            id,
            i,
        )].id == id,
        forall|k: int| i <= k < provider_position(list, id, i) ==> (#[trigger] list[k]).id != id,
    decreases list.len() - i,
{
    if i < list.len() && list[i].id != id {
        provider_position_is_first(list, id, i + 1);
    }
}

proof fn provider_found(list: Seq<ExternalProvider>, id: Seq<char>, i: int)
    ensures
        is_first_provider(list, i) && list[i].id@ == id ==> provider_position(
            provider_views(list),
            id,
            0,
        ) == i,
        no_provider(list, id) ==> provider_position(provider_views(list), id, 0) == list.len(),
        provider_views(list).len() == list.len(),
        0 <= i < list.len() ==> provider_views(list)[i] == list[i]@,
{
    let v = provider_views(list);
    provider_position_is_first(v, id, 0);
    let at = provider_position(v, id, 0);
    assert forall|k: int| 0 <= k < v.len() implies (#[trigger] v[k]).id == list[k].id@ by {}
    if is_first_provider(list, i) && list[i].id@ == id {
        assert(v[i].id == id);
        if at < i {
            assert(v[at].id == list[at].id@);
        }
        if i < at {
            assert(v[i].id != id);
        }
    }
    if no_provider(list, id) && at < v.len() {
        assert(v[at].id == list[at].id@);
    }
}

/// A provider is found by its id, and the first with it counts.
pub proof fn providers_are_found_by_their_ids(
    list: &[ExternalProvider],
    id: &str,
    at: usize,
    waku: &Waku,
    r: Option<&ExternalProvider>,
    i: int,
)
    requires
        call_ensures(find_provider, (list, id), at),
        waku.external_providers@ == list@,
        call_ensures(Waku::configured_provider, (waku, id), r),
    ensures
        is_first_provider(list@, i) && list@[i].id@ == id@ ==> at == i && r is Some && *(r->0)
            == list@[i],
        no_provider(list@, id@) ==> at == list@.len() && r is None,
{
    provider_found(list@, id@, i);
}

/// An agent is started at the built-in provider with its id, and at one of the user's own where none is built in.
pub proof fn agents_are_started_at_their_provider(
    presets: &[ExternalProvider],
    id: &str,
    customs: &[ExternalProvider],
    r: Option<ExternalProvider>,
    i: int,
)
    requires
        call_ensures(provider_endpoint_for_start, (presets, id, customs), r),
    ensures
        is_first_provider(presets@, i) && presets@[i].id@ == id@ ==> r is Some && (r->0)@
            == presets@[i]@,
        no_provider(presets@, id@) && is_first_provider(customs@, i) && customs@[i].id@ == id@
            ==> r is Some && (r->0)@ == customs@[i]@,
        no_provider(presets@, id@) && no_provider(customs@, id@) ==> r is None,
{
    provider_found(presets@, id@, i);
    provider_found(customs@, id@, i);
}

/// A model is called by the name of its provider and its own; the user's own provider gives the name where it has
/// the id, and an id that nobody has stands for itself.
pub proof fn models_are_called_by_their_provider(
    presets: &[ExternalProvider],
    customs: &[ExternalProvider],
    id: &str,
    model: Option<&str>,
    r: String,
    i: int,
    name: Seq<char>,
)
    requires
        call_ensures(model_display_name, (presets, customs, id, model), r),
        is_first_provider(customs@, i) && customs@[i].id@ == id@ && name == customs@[i].name@
            || no_provider(customs@, id@) && is_first_provider(presets@, i) && presets@[i].id@
            == id@ && name == presets@[i].name@ || no_provider(customs@, id@) && no_provider(
            presets@,
            id@,
        ) && name == id@,
    ensures
        model is Some && trimmed((model->0)@).len() > 0 ==> r@ == name + " · "@ + (model->0)@,
        model is None || trimmed((model->0)@).len() == 0 ==> r@ == name,
{
    provider_found(presets@, id@, i);
    provider_found(customs@, id@, i);
}

} // verus!
