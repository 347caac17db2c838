//! What the picker of models promises while it is at work: where the keys lead, what is confirmed, what is kept,
//! and how the choice follows what is offered.
use crate::composer::model_control::{
    chosen_row, drop_incompatible_session_model, reconcile_composer_provider_selection,
    render_provider_model_control, reveal_selected_picker_model, shown_choice, toggle_model_picker, ModelControl, ModelPicker,
    ModelPickerOpened, ReconcileAction,
};
use crate::composer::picker::{
    catalog_refresh_providers, choice_view, composer_needs_configure_first, first_compatible,
    first_compatible_picker_model, pair_view, preferred_model, preferred_supported_model,
    picker_provider_endpoints, picker_providers, suggested_picker_selection, suggestion,
    PickerChoice,
};
use crate::composer::picker_rows::{
    can_step, labeled_model_picker_rows, model_picker_list_height, model_views,
    next_model_picker_highlight, next_picker_highlight, row_views, visible_picker_models,
    FavoriteModel, ModelPickerListRow, ModelPickerTab, PickerModel, PickerModelView,
};
use crate::key_map::KeyMap;
use crate::providers::{
    catalog_of, provider_views, ExternalProvider, ModelCatalog, ProviderAuthStatus, ProviderView,
};
use crate::runtime::option_laws::lists_usable;
use crate::runtime::options::model_for_session;
use crate::runtime::state::Waku;
use crate::runtime::task_laws::{first_task_is_found, only_task_changed, stands_first};
use crate::session::AgentSession;
use crate::text::{opt_view, str_view, trimmed, views};
use std::rc::Rc;
use vstd::prelude::*;

verus! {

proof fn arrows_differ()
    ensures
        "down"@ != "up"@ && "down"@ != "home"@ && "down"@ != "end"@ && "up"@ != "home"@ && "up"@
            != "end"@ && "home"@ != "end"@,
{
    reveal_strlit("down");
    reveal_strlit("up");
    reveal_strlit("home");
    reveal_strlit("end");
    assert("down"@.len() == 4 && "up"@.len() == 2 && "home"@.len() == 4 && "end"@.len() == 3);
    assert("down"@[0] == 'd' && "home"@[0] == 'h');
}

proof fn round_the_end(i: int, n: int)
    requires
        0 <= i < n,
    ensures
        (i + 1) % n == (if i + 1 < n {
            i + 1
        } else {
            0
        }),
        (i + n - 1) % n == (if i > 0 {
            i - 1
        } else {
            n - 1
        }),
{
    assert((i + 1) % n == (if i + 1 < n {
        i + 1
    } else {
        0
    })) by (nonlinear_arith)
        requires
            0 <= i < n,
    ;
    assert((i + n - 1) % n == (if i > 0 {
        i - 1
    } else {
        n - 1
    })) by (nonlinear_arith)
        requires
            0 <= i < n,
    ;
}

/// The arrows lead to the next row and to the one before, and round at the ends; the first press begins at the end
/// that it comes from. In the list of models the home and end keys lead to the ends.
pub proof fn arrows_lead_round_the_list(
    current: Option<usize>,
    len: usize,
    key: &str,
    r: Option<usize>,
    s: Option<usize>,
)
    requires
        can_step(current, len, key@),
        call_ensures(next_picker_highlight, (current, len, key), r),
        call_ensures(next_model_picker_highlight, (current, len, key), s),
        current matches Some(i) ==> i < len,
    ensures
        len == 0 ==> r is None && s is None,
        len > 0 && key@ == "down"@ ==> r == s && r == Some(
            match current {
                Some(i) => if i + 1 < len {
                    (i + 1) as usize
                } else {
                    0
                },
                None => 0,
            },
        ),
        len > 0 && key@ == "up"@ ==> r == s && r == Some(
            match current {
                Some(i) => if i > 0 {
                    (i - 1) as usize
                } else {
                    (len - 1) as usize
                },
                None => (len - 1) as usize,
            },
        ),
        len > 0 && key@ == "home"@ ==> s == Some(0usize) && r is None,
        len > 0 && key@ == "end"@ ==> s == Some((len - 1) as usize) && r is None,
        key@ != "down"@ && key@ != "up"@ ==> r is None,
{
    arrows_differ();
    if let Some(i) = current {
        if len > 0 {
            round_the_end(i as int, len as int);
        }
    }
}

/// The list is as high as its rows, up to its limit.
pub proof fn the_list_is_as_high_as_its_rows(rows: usize, height: u32, r: u32)
    requires
        call_ensures(model_picker_list_height, (rows, height), r),
    ensures
        r <= 2600,
        rows * height <= 2600 ==> r == rows * height,
        rows * height > 2600 ==> r == 2600,
{
}

/// The highlight moves to where the key leads and stays where it leads nowhere; nothing else of the picker changes.
pub proof fn keys_move_the_highlight(
    p: &mut ModelPicker,
    key: &str,
    len: usize,
    r: Option<usize>,
    s: Option<usize>,
)
    requires
        can_step(old(p).highlight, len, key@),
        call_ensures(ModelPicker::move_model_picker_highlight, (p, key, len), r),
        call_ensures(next_model_picker_highlight, (old(p).highlight, len, key), s),
    ensures
        r == s,
        r is Some ==> final(p).highlight == r,
        r is None ==> final(p).highlight == old(p).highlight,
        final(p).favorites == old(p).favorites,
        final(p).last_provider == old(p).last_provider,
        final(p).last_model == old(p).last_model,
        final(p).rows == old(p).rows,
{
}

/// What is confirmed is the highlighted row, or the first without a highlight, where it can be used.
pub proof fn the_highlighted_model_is_confirmed(
    p: &ModelPicker,
    rows: &Vec<ModelPickerListRow>,
    r: Option<(String, String)>,
)
    requires
        call_ensures(ModelPicker::confirm_model_picker_selection, (p, rows), r),
    ensures
        ({
            let at = match p.highlight {
                Some(i) => i as int,
                None => 0,
            };
            &&& r is Some <==> at < rows@.len() && rows@[at].supported
            &&& r is Some ==> (r->0).0@ == rows@[at].provider@ && (r->0).1@ == rows@[at].model_id@
        }),
{
}

/// New catalogs and new accounts make the rows that were kept out of date, and change nothing else.
pub proof fn kept_rows_go_out_of_date(p: &mut ModelPicker, q: &mut ModelPicker)
    requires
        call_ensures(ModelPicker::bump_catalog_generation, (p,), ()),
        call_ensures(ModelPicker::bump_auth_generation, (q,), ()),
    ensures
        final(p).catalog_generation != old(p).catalog_generation,
        final(p).auth_generation == old(p).auth_generation,
        final(p).rows == old(p).rows,
        final(p).favorites == old(p).favorites,
        final(q).auth_generation != old(q).auth_generation,
        final(q).catalog_generation == old(q).catalog_generation,
        final(q).rows == old(q).rows,
{
}

/// The rows are laid out again exactly where others stand there than before.
pub proof fn rows_are_laid_out_where_they_change(
    p: &mut ModelPicker,
    rows: &Vec<ModelPickerListRow>,
    r: bool,
    q: &mut ModelPicker,
    again: bool,
    i: int,
)
    requires
        call_ensures(ModelPicker::sync_model_picker_rows, (p, rows), r),
        *old(q) == *final(p),
        call_ensures(ModelPicker::sync_model_picker_rows, (q, rows), again),
    ensures
        !again,
        final(p).laid_out@.len() == rows@.len(),
        0 <= i < rows@.len() ==> final(p).laid_out@[i].0@ == rows@[i].provider@ && final(p).laid_out@[i].1@ == rows@[i].model_id@,
        old(p).laid_out@.len() != rows@.len() ==> r,
        0 <= i < rows@.len() && i < old(p).laid_out@.len() && old(p).laid_out@[i].1@
            != rows@[i].model_id@ ==> r,
        final(p).highlight == old(p).highlight,
{
    let ids = crate::composer::model_control::row_ids(rows@);
    let was = crate::providers::pair_views(old(p).laid_out@);
    let now = crate::providers::pair_views(final(p).laid_out@);
    assert(ids.len() == rows@.len() && was.len() == old(p).laid_out@.len() && now.len() == final(p).laid_out@.len());
    if 0 <= i < rows@.len() {
        assert(now[i] == ids[i]);
        assert(now[i] == (final(p).laid_out@[i].0@, final(p).laid_out@[i].1@));
        if i < was.len() {
            assert(was[i] == (old(p).laid_out@[i].0@, old(p).laid_out@[i].1@));
        }
    }
}

/// The control is there where a provider is on offer, and shows the provider of the task. It shows rows while it is
/// open, and none while it is not; a highlight that leads nowhere is left out.
pub proof fn the_control_shows_the_provider_of_the_task(
    waku: &Waku,
    picker: &mut ModelPicker,
    session: &AgentSession,
    search: &str,
    open: bool,
    pending: bool,
    r: Option<ModelControl>,
    presets: &[ExternalProvider],
    customs: &[ExternalProvider],
    statuses: &KeyMap<String, ProviderAuthStatus>,
    offered: Vec<ExternalProvider>,
)
    requires
        call_ensures(
            render_provider_model_control,
            (waku, picker, Some(session), search, open, pending),
            r,
        ),
        presets@ == waku.presets@,
        customs@ == waku.external_providers@,
        statuses@ == waku.auth_statuses@,
        call_ensures(picker_provider_endpoints, (presets, customs, statuses), offered),
    ensures
        r is Some <==> offered@.len() > 0,
        r matches Some(c) ==> {
            &&& c.provider@ == session.provider@
            &&& !open ==> c.rows@.len() == 0 && !c.relayout && *final(picker) == *old(picker)
            &&& c.highlight is Some ==> c.highlight == old(picker).highlight && c.highlight->0
                < c.rows@.len()
            &&& old(picker).highlight is Some && old(picker).highlight->0 < c.rows@.len()
                ==> c.highlight == old(picker).highlight
            &&& open ==> final(picker).favorites == old(picker).favorites && final(picker).laid_out@.len() == c.rows@.len()
        },
{
    assert(provider_views(offered@).len() == offered@.len());
    if r is Some && open {
        let now = crate::providers::pair_views(final(picker).laid_out@);
        let ids = crate::composer::model_control::row_ids(r->0.rows@);
        assert(now.len() == final(picker).laid_out@.len());
        assert(ids.len() == r->0.rows@.len());
    }
}

/// Opening the picker starts a new search, without a highlight; closing it goes back to the composer and keeps what
/// was typed.
pub proof fn opening_the_picker_starts_a_search(
    waku: &Waku,
    picker: &mut ModelPicker,
    open: bool,
    search: &mut String,
    r: ModelPickerOpened,
)
    requires
        call_ensures(toggle_model_picker, (waku, picker, open, search), r),
    ensures
        open ==> final(search)@.len() == 0 && final(picker).highlight is None && r.focus is Search,
        !open ==> final(search)@ == old(search)@ && *final(picker) == *old(picker)
            && r.focus is Composer && r.reveal is None,
        final(picker).favorites == old(picker).favorites,
        final(picker).last_model == old(picker).last_model,
{
}

/// A model that the shown task asks for and that its provider does not list is dropped from the task, and from what
/// was used last where it is the same; any other choice stays.
pub proof fn a_model_that_is_gone_is_dropped(
    waku: &mut Waku,
    picker: &mut ModelPicker,
    r: bool,
    i: int,
)
    requires
        call_ensures(drop_incompatible_session_model, (waku, picker), r),
        stands_first(old(waku).tasks.sessions@, i),
        old(waku).tasks.selected_session == Some(old(waku).tasks.sessions@[i].id),
    ensures
        ({
            let task = old(waku).tasks.sessions@[i];
            let now = final(waku).tasks.sessions@[i];
            let catalogs = old(waku).model_catalogs@;
            let listed = task.model is Some && trimmed((task.model->0)@).len() > 0
                && catalogs.contains_key(task.provider@) && lists_usable(
                catalogs[task.provider@].models@,
                trimmed((task.model->0)@),
            );
            &&& r <==> task.model is Some && !listed
            &&& r ==> now.model is None && now.provider == task.provider && now.messages
                == task.messages && now.id == task.id && only_task_changed(
                old(waku).tasks.sessions@,
                final(waku).tasks.sessions@,
                i,
            )
            &&& r && old(picker).last_provider@ == task.provider@ && old(
                picker,
            ).last_model is Some && (old(picker).last_model->0)@ == (task.model->0)@ ==> final(picker).last_model is None
            &&& r && old(picker).last_provider@ != task.provider@ ==> final(picker).last_model
                == old(picker).last_model
            &&& !r ==> *final(waku) == *old(waku) && *final(picker) == *old(picker)
        }),
{
    let task = old(waku).tasks.sessions@[i];
    let catalogs = old(waku).model_catalogs@;
    first_task_is_found(old(waku).tasks.sessions@, i);
    assert(opt_view(task.model) is Some <==> task.model is Some);
    assert(opt_view(old(picker).last_model) is Some <==> old(picker).last_model is Some);
    if task.model is Some && catalogs.contains_key(task.provider@) {
        let id = trimmed((task.model->0)@);
        let models = catalogs[task.provider@].models@;
        assert(crate::providers::lists_supported(models, id) <==> lists_usable(models, id));
    }
}

/// The choice follows what is suggested: it is made in the shown task, or kept for the next one where none is
/// shown. Where no provider is on offer, nothing is done.
pub proof fn the_choice_follows_the_suggestion(
    waku: &mut Waku,
    picker: &mut ModelPicker,
    r: ReconcileAction,
    presets: &[ExternalProvider],
    customs: &[ExternalProvider],
    statuses: &KeyMap<String, ProviderAuthStatus>,
    offered: Vec<ExternalProvider>,
    selected: Option<PickerChoice>,
    providers: &[ExternalProvider],
    catalogs: &KeyMap<String, ModelCatalog>,
    last_provider: String,
    last_model: Option<String>,
    suggested: Option<(String, String)>,
)
    requires
        call_ensures(reconcile_composer_provider_selection, (waku, picker), r),
        presets@ == old(waku).presets@,
        customs@ == old(waku).external_providers@,
        statuses@ == old(waku).auth_statuses@,
        call_ensures(picker_provider_endpoints, (presets, customs, statuses), offered),
        providers@ == offered@,
        catalogs@ == old(waku).model_catalogs@,
        choice_view(selected) == shown_choice(*old(waku)),
        last_provider == old(picker).last_provider,
        last_model == old(picker).last_model,
        call_ensures(
            suggested_picker_selection,
            (&selected, &last_provider, &last_model, providers, catalogs),
            suggested,
        ),
    ensures
        offered@.len() == 0 ==> r is Nothing && *final(waku) == *old(waku) && *final(picker) == *old(
            picker,
        ),
        offered@.len() > 0 && suggested is Some && selected is Some ==> r is Choose && (
        r->provider)@ == (suggested->0).0@ && (r->model)@ == (suggested->0).1@,
        offered@.len() > 0 && suggested is Some && selected is None ==> r is SaveLast && final(picker).last_provider@ == (suggested->0).0@ && final(picker).last_model is Some && (final(picker).last_model->0)@ == (suggested->0).1@ && final(picker).tab is Provider && final(picker).tab->Provider_0@ == (suggested->0).0@,
        suggested is Some ==> *final(waku) == *old(waku),
{
    assert(provider_views(offered@).len() == offered@.len());
    assert(provider_views(offered@) == picker_providers(
        provider_views(presets@),
        provider_views(customs@),
        statuses@,
    ));
    assert(pair_view(suggested) == suggestion(
        choice_view(selected),
        last_provider@,
        opt_view(last_model),
        provider_views(providers@),
        catalogs@,
    ));
    assert(pair_view(suggested) is Some <==> suggested is Some);
    assert(choice_view(selected) is Some <==> selected is Some);
    assert(opt_view(final(picker).last_model) is Some <==> final(picker).last_model is Some);
}

/// The catalogs that are asked for are those of the providers on offer, in their order; without any the user is
/// asked to set one up.
pub proof fn catalogs_of_what_is_offered_are_asked_for(
    presets: &[ExternalProvider],
    customs: &[ExternalProvider],
    statuses: &KeyMap<String, ProviderAuthStatus>,
    offered: Vec<ExternalProvider>,
    providers: &[ExternalProvider],
    r: Vec<String>,
    needed: bool,
    i: int,
)
    requires
        call_ensures(picker_provider_endpoints, (presets, customs, statuses), offered),
        call_ensures(catalog_refresh_providers, (presets, customs, statuses), r),
        providers@ == offered@,
        call_ensures(composer_needs_configure_first, (providers,), needed),
    ensures
        r@.len() == offered@.len(),
        0 <= i < offered@.len() ==> r@[i]@ == offered@[i].id@,
        needed <==> offered@.len() == 0,
{
    let v = provider_views(offered@);
    assert(v.len() == offered@.len());
    assert(views(r@) == v.map_values(|p: ProviderView| p.id));
    assert(views(r@).len() == r@.len());
    if 0 <= i < offered@.len() {
        assert(views(r@)[i] == r@[i]@);
        assert(v[i] == offered@[i]@);
    }
}

proof fn first_usable(
    providers: Seq<ProviderView>,
    catalogs: Map<Seq<char>, ModelCatalog>,
    i: int,
    from: int,
)
    requires
        0 <= from <= i < providers.len(),
        preferred_model(
            providers[i].default_model,
            catalog_of(catalogs, providers[i].id),
        ) is Some,
        forall|j: int|
            0 <= j < i ==> preferred_model(
                (#[trigger] providers[j]).default_model,
                catalog_of(catalogs, providers[j].id),
            ) is None,
    ensures
        first_compatible(providers, catalogs, from) == Some(
            (
                providers[i].id,
                preferred_model(
                    providers[i].default_model,
                    catalog_of(catalogs, providers[i].id),
                )->0,
            ),
        ),
    decreases i - from,
{
    if from < i {
        assert(preferred_model(
            providers[from].default_model,
            catalog_of(catalogs, providers[from].id),
        ) is None);
        first_usable(providers, catalogs, i, from + 1);
    }
}

/// The first model to use is the one that the first provider with any prefers.
pub proof fn the_first_provider_with_a_model_is_used(
    providers: &[ExternalProvider],
    catalogs: &KeyMap<String, ModelCatalog>,
    r: Option<(String, String)>,
    i: int,
    provider: &ExternalProvider,
    catalog: &ModelCatalog,
    model: Option<String>,
)
    requires
        call_ensures(first_compatible_picker_model, (providers, catalogs), r),
        0 <= i < providers@.len(),
        *provider == providers@[i],
        catalogs@.contains_key(provider.id@),
        *catalog == catalogs@[provider.id@],
        call_ensures(preferred_supported_model, (provider, Some(catalog)), model),
        model is Some,
        forall|j: int|
            0 <= j < i ==> !catalogs@.contains_key((#[trigger] providers@[j]).id@),
    ensures
        r is Some,
        (r->0).0@ == provider.id@,
        (r->0).1@ == (model->0)@,
{
    let v = provider_views(providers@);
    assert(v.len() == providers@.len());
    assert(v[i] == providers@[i]@);
    assert(opt_view(model) is Some <==> model is Some);
    assert forall|j: int| 0 <= j < i implies preferred_model(
        (#[trigger] v[j]).default_model,
        catalog_of(catalogs@, v[j].id),
    ) is None by {
        assert(v[j] == providers@[j]@);
        assert(!catalogs@.contains_key(providers@[j].id@));
    }
    first_usable(v, catalogs@, i, 0);
}

/// Rows that were kept are handed out again while nothing that they hang on has changed; after a change they are
/// made anew, as the list of models makes them.
pub proof fn kept_rows_are_handed_out_again(
    p: &mut ModelPicker,
    presets: &[ExternalProvider],
    providers: &[ExternalProvider],
    catalogs: &KeyMap<String, ModelCatalog>,
    locked: &Option<String>,
    query: &String,
    selected: &Option<PickerChoice>,
    r: Rc<Vec<ModelPickerListRow>>,
    q: &mut ModelPicker,
    again: Rc<Vec<ModelPickerListRow>>,
    favorites: &[FavoriteModel],
    all: &ModelPickerTab,
    text: &str,
    built: Vec<ModelPickerListRow>,
)
    requires
        call_ensures(
            ModelPicker::model_picker_rows_cached,
            (p, presets, providers, catalogs, locked, query, selected),
            r,
        ),
        *old(q) == *final(p),
        call_ensures(
            ModelPicker::model_picker_rows_cached,
            (q, presets, providers, catalogs, locked, query, selected),
            again,
        ),
        favorites@ == old(p).favorites@,
        *all is All,
        text@ == query@,
        call_ensures(
            labeled_model_picker_rows,
            (presets, providers, catalogs, favorites, locked, all, text, selected),
            built,
        ),
    ensures
        again == r,
        old(p).rows.key is None ==> row_views(r@) == row_views(built@),
        old(p).rows.key matches Some(key) ==> (key.query@ != query@ || key.catalog_generation
            != old(p).catalog_generation || key.auth_generation != old(p).auth_generation
            || key.favorite_generation != old(p).favorite_generation ==> row_views(r@)
            == row_views(built@)),
        final(p).highlight == old(p).highlight,
        final(p).favorites == old(p).favorites,
{
}

proof fn chosen_row_is_found(
    models: Seq<PickerModelView>,
    provider: Seq<char>,
    model: Seq<char>,
    i: int,
    from: int,
)
    requires
        0 <= from <= i < models.len(),
        models[i].provider == provider,
        models[i].id == model,
        forall|j: int|
            0 <= j < i ==> !((#[trigger] models[j]).provider == provider && models[j].id == model),
    ensures
        chosen_row(models, provider, Some(model), from) == i,
    decreases i - from,
{
    if from < i {
        assert(!(models[from].provider == provider && models[from].id == model));
        chosen_row_is_found(models, provider, model, i, from + 1);
    }
}

/// The picker opens at the model of the shown task.
pub proof fn the_picker_opens_at_the_model_of_the_task(
    waku: &Waku,
    picker: &ModelPicker,
    r: Option<usize>,
    at: int,
    presets: &[ExternalProvider],
    customs: &[ExternalProvider],
    statuses: &KeyMap<String, ProviderAuthStatus>,
    offered: Vec<ExternalProvider>,
    providers: &[ExternalProvider],
    catalogs: &KeyMap<String, ModelCatalog>,
    favorites: &[FavoriteModel],
    locked: &Option<String>,
    all: &ModelPickerTab,
    none: &str,
    models: Vec<PickerModel>,
    session: &AgentSession,
    model: Option<&str>,
    i: int,
)
    requires
        call_ensures(reveal_selected_picker_model, (waku, picker), r),
        stands_first(waku.tasks.sessions@, at),
        waku.tasks.selected_session == Some(waku.tasks.sessions@[at].id),
        *session == waku.tasks.sessions@[at],
        presets@ == waku.presets@,
        customs@ == waku.external_providers@,
        statuses@ == waku.auth_statuses@,
        call_ensures(picker_provider_endpoints, (presets, customs, statuses), offered),
        providers@ == offered@,
        catalogs@ == waku.model_catalogs@,
        favorites@ == picker.favorites@,
        *locked == Some(session.provider),
        *all is All,
        none@.len() == 0,
        call_ensures(
            visible_picker_models,
            (presets, providers, catalogs, favorites, locked, all, none),
            models,
        ),
        call_ensures(model_for_session, (session, catalogs), model),
        model is Some,
        0 <= i < models@.len() <= usize::MAX,
        models@[i].provider@ == session.provider@,
        models@[i].id@ == (model->0)@,
        forall|j: int|
            0 <= j < i ==> !((#[trigger] models@[j]).provider@ == session.provider@ && models@[j].id@
                == (model->0)@),
    ensures
        r == Some(i as usize),
{
    first_task_is_found(waku.tasks.sessions@, at);
    assert(str_view(model) is Some <==> model is Some);
    assert(none@ =~= Seq::empty());
    let v = model_views(models@);
    assert(v.len() == models@.len());
    assert(v[i] == models@[i]@);
    assert forall|j: int| 0 <= j < i implies !((#[trigger] v[j]).provider == session.provider@
        && v[j].id == (model->0)@) by {
        assert(v[j] == models@[j]@);
    }
    chosen_row_is_found(v, session.provider@, (model->0)@, i, 0);
}

} // verus!
