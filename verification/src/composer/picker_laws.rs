//! What the picker of models promises: which models it shows in each tab and for a search, what its rows say,
//! and what is suggested and sent.
use crate::composer::picker::{
    choice_view, first_supported, pair_view, picker_provider_endpoints, preferred_supported_model,
    send_provider_model, suggested_picker_provider, suggested_picker_selection, suggestion,
    suggestion_is_usable, usable, PickerChoice,
};
use crate::composer::picker_rows::{
    by_place, favorite_rank, insert_by_place, labeled_model_picker_rows, model_views, offered_ids,
    row_of, row_views, searchable, shown, shown_of, shows, visible_picker_models, FavoriteModel,
    ModelPickerListRow, ModelPickerTab, PickerModel, PickerModelView,
};
use crate::key_map::KeyMap;
use crate::providers::{
    catalog_of, entry_position, lists_provider, lists_supported, provider_position,
    provider_position_finds, provider_views, ExternalProvider, ModelCatalog, ModelCatalogEntry,
    ProviderAuthStatus, ProviderView,
};
use crate::text::{
    ascii_lowered, occurs_in, opt_view, trimmed, trimming_again_changes_nothing, views, words,
};
use vstd::prelude::*;

verus! {

/// Tells whether a provider offers a model: one that its catalog lists, or without a catalog one that the user
/// listed, where the provider is not built in.
pub open spec fn offers(
    presets: Seq<ExternalProvider>,
    provider: ExternalProvider,
    catalogs: Map<Seq<char>, ModelCatalog>,
    model: Seq<char>,
) -> bool {
    if catalogs.contains_key(provider.id@) {
        exists|i: int|
            0 <= i < catalogs[provider.id@].models@.len() && (
            #[trigger] catalogs[provider.id@].models@[i]).id@ == model
    } else {
        &&& forall|i: int| 0 <= i < presets.len() ==> (#[trigger] presets[i]).id@ != provider.id@
        &&& exists|i: int|
            0 <= i < provider.models@.len() && (#[trigger] provider.models@[i])@ == model
    }
}

/// Tells whether a model is in a list.
pub open spec fn is_shown(r: Seq<PickerModel>, provider: Seq<char>, model: Seq<char>) -> bool {
    exists|k: int|
        0 <= k < r.len() && (#[trigger] r[k]).provider@ == provider && r[k].id@ == model
}

proof fn listed_or_not(list: Seq<ExternalProvider>, id: Seq<char>)
    ensures
        lists_provider(provider_views(list), id) <==> exists|i: int|
            0 <= i < list.len() && (#[trigger] list[i]).id@ == id,
{
    let v = provider_views(list);
    provider_position_finds(v, id, 0);
    let at = provider_position(v, id, 0);
    if at < v.len() {
        assert(v[at] == list[at]@);
        assert(list[at].id@ == id);
    }
    if exists|i: int| 0 <= i < list.len() && (#[trigger] list[i]).id@ == id {
        let i = choose|i: int| 0 <= i < list.len() && (#[trigger] list[i]).id@ == id;
        assert(v[i] == list[i]@);
        comes_no_later(v, id, i, 0);
    }
}

proof fn comes_no_later(list: Seq<ProviderView>, id: Seq<char>, k: int, i: int)
    requires
        0 <= i <= k < list.len(),
        list[k].id == id,
    ensures
        provider_position(list, id, i) <= k,
    decreases k - i,
{
    if list[i].id != id {
        comes_no_later(list, id, k, i + 1);
    }
}

proof fn offered_is_listed(
    presets: Seq<ExternalProvider>,
    p: ExternalProvider,
    catalogs: Map<Seq<char>, ModelCatalog>,
    model: Seq<char>,
)
    ensures
        offered_ids(provider_views(presets), p@, catalog_of(catalogs, p.id@)).contains(model)
            <==> offers(presets, p, catalogs, model),
{
    let ids = offered_ids(provider_views(presets), p@, catalog_of(catalogs, p.id@));
    listed_or_not(presets, p.id@);
    if catalogs.contains_key(p.id@) {
        let models = catalogs[p.id@].models@;
        assert(ids == Seq::new(models.len(), |i: int| models[i].id@));
        if ids.contains(model) {
            let i = ids.index_of(model);
            assert(catalogs[p.id@].models@[i].id@ == model);
        }
        if offers(presets, p, catalogs, model) {
            let i = choose|i: int|
                0 <= i < catalogs[p.id@].models@.len() && (
                #[trigger] catalogs[p.id@].models@[i]).id@ == model;
            assert(ids[i] == model);
        }
    } else if !lists_provider(provider_views(presets), p.id@) {
        assert(ids == views(p.models@));
        if ids.contains(model) {
            let i = ids.index_of(model);
            assert(p.models@[i]@ == model);
        }
        if offers(presets, p, catalogs, model) {
            let i = choose|i: int|
                0 <= i < p.models@.len() && (#[trigger] p.models@[i])@ == model;
            assert(ids[i] == model);
        }
    }
}

proof fn shown_of_holds(
    favorites: Seq<FavoriteModel>,
    tab: ModelPickerTab,
    query: Seq<char>,
    p: ProviderView,
    ids: Seq<Seq<char>>,
    m: PickerModelView,
)
    ensures
        shown_of(favorites, tab, query, p, ids).contains(m) <==> m.provider == p.id && ids.contains(
            m.id,
        ) && shows(favorites, tab, query, p, m.id) && m.rank == favorite_rank(
            favorites,
            p.id,
            m.id,
            0,
        ),
    decreases ids.len(),
{
    let all = shown_of(favorites, tab, query, p, ids);
    if ids.len() == 0 {
    } else {
        let head = ids.drop_last();
        let before = shown_of(favorites, tab, query, p, head);
        shown_of_holds(favorites, tab, query, p, head, m);
        let last = PickerModelView {
            provider: p.id,
            id: ids.last(),
            rank: favorite_rank(favorites, p.id, ids.last(), 0),
        };
        assert(ids.contains(m.id) <==> head.contains(m.id) || m.id == ids.last()) by {
            if ids.contains(m.id) {
                let i = ids.index_of(m.id);
                if i < head.len() {
                    assert(head[i] == m.id);
                }
            }
            if head.contains(m.id) {
                let i = head.index_of(m.id);
                assert(ids[i] == m.id);
            }
            assert(ids[ids.len() - 1] == ids.last());
        }
        if shows(favorites, tab, query, p, ids.last()) {
            pushed_holds(before, last, m);
        }
    }
}

proof fn pushed_holds(s: Seq<PickerModelView>, a: PickerModelView, m: PickerModelView)
    ensures
        s.push(a).contains(m) <==> s.contains(m) || m == a,
{
    if s.push(a).contains(m) {
        let i = s.push(a).index_of(m);
        if i < s.len() {
            assert(s[i] == m);
        }
    }
    if s.contains(m) {
        let i = s.index_of(m);
        assert(s.push(a)[i] == m);
    }
    assert(s.push(a)[s.len() as int] == a);
}

proof fn added_holds(s: Seq<PickerModelView>, t: Seq<PickerModelView>, m: PickerModelView)
    ensures
        (s + t).contains(m) <==> s.contains(m) || t.contains(m),
{
    if (s + t).contains(m) {
        let i = (s + t).index_of(m);
        if i < s.len() {
            assert(s[i] == m);
        } else {
            assert(t[i - s.len()] == m);
        }
    }
    if s.contains(m) {
        let i = s.index_of(m);
        assert((s + t)[i] == m);
    }
    if t.contains(m) {
        let i = t.index_of(m);
        assert((s + t)[s.len() + i] == m);
    }
}

proof fn placed_holds(s: Seq<PickerModelView>, a: PickerModelView, m: PickerModelView)
    ensures
        insert_by_place(s, a).contains(m) <==> s.contains(m) || m == a,
    decreases s.len(),
{
    if s.len() == 0 || s.last().rank <= a.rank {
        pushed_holds(s, a, m);
    } else {
        placed_holds(s.drop_last(), a, m);
        pushed_holds(insert_by_place(s.drop_last(), a), s.last(), m);
        pushed_holds(s.drop_last(), s.last(), m);
        assert(s.drop_last().push(s.last()) =~= s);
    }
}

proof fn by_place_holds(s: Seq<PickerModelView>, m: PickerModelView)
    ensures
        by_place(s).contains(m) <==> s.contains(m),
    decreases s.len(),
{
    if s.len() > 0 {
        by_place_holds(s.drop_last(), m);
        placed_holds(by_place(s.drop_last()), s.last(), m);
        pushed_holds(s.drop_last(), s.last(), m);
        assert(s.drop_last().push(s.last()) =~= s);
    }
}

/// Tells whether a provider may show its models: a session that is bound to another one shows none of them but
/// for a search.
pub open spec fn is_open(locked: Option<String>, query: Seq<char>, id: Seq<char>) -> bool {
    query.len() > 0 || locked is None || (locked->0)@ == id
}

proof fn shown_holds(
    presets: Seq<ExternalProvider>,
    providers: Seq<ExternalProvider>,
    catalogs: Map<Seq<char>, ModelCatalog>,
    favorites: Seq<FavoriteModel>,
    locked: Option<String>,
    tab: ModelPickerTab,
    query: Seq<char>,
    m: PickerModelView,
)
    ensures
        shown(
            provider_views(presets),
            provider_views(providers),
            catalogs,
            favorites,
            opt_view(locked),
            tab,
            query,
        ).contains(m) <==> m.rank == favorite_rank(favorites, m.provider, m.id, 0) && exists|j: int|
            0 <= j < providers.len() && (#[trigger] providers[j]).id@ == m.provider && is_open(
                locked,
                query,
                m.provider,
            ) && offers(presets, providers[j], catalogs, m.id) && shows(
                favorites,
                tab,
                query,
                providers[j]@,
                m.id,
            ),
    decreases providers.len(),
{
    let known = provider_views(presets);
    let all = provider_views(providers);
    let whole = shown(known, all, catalogs, favorites, opt_view(locked), tab, query);
    if providers.len() == 0 {
        assert(whole =~= Seq::empty());
    } else {
        let head = providers.drop_last();
        let p = providers.last();
        shown_holds(presets, head, catalogs, favorites, locked, tab, query, m);
        assert(all.drop_last() =~= provider_views(head));
        assert(all.last() == p@);
        let before = shown(
            known,
            provider_views(head),
            catalogs,
            favorites,
            opt_view(locked),
            tab,
            query,
        );
        let ids = offered_ids(known, p@, catalog_of(catalogs, p.id@));
        offered_is_listed(presets, p, catalogs, m.id);
        shown_of_holds(favorites, tab, query, p@, ids, m);
        added_holds(before, shown_of(favorites, tab, query, p@, ids), m);
        assert(opt_view(locked) is None <==> locked is None);
        assert forall|j: int| 0 <= j < head.len() implies #[trigger] head[j] == providers[j] by {}
        if before.contains(m) {
            let j = choose|j: int|
                0 <= j < head.len() && (#[trigger] head[j]).id@ == m.provider && is_open(
                    locked,
                    query,
                    m.provider,
                ) && offers(presets, head[j], catalogs, m.id) && shows(
                    favorites,
                    tab,
                    query,
                    head[j]@,
                    m.id,
                );
            assert(providers[j] == head[j]);
        }
        if m.rank == favorite_rank(favorites, m.provider, m.id, 0) && exists|j: int|
            0 <= j < providers.len() && (#[trigger] providers[j]).id@ == m.provider && is_open(
                locked,
                query,
                m.provider,
            ) && offers(presets, providers[j], catalogs, m.id) && shows(
                favorites,
                tab,
                query,
                providers[j]@,
                m.id,
            ) {
            let j = choose|j: int|
                0 <= j < providers.len() && (#[trigger] providers[j]).id@ == m.provider && is_open(
                    locked,
                    query,
                    m.provider,
                ) && offers(presets, providers[j], catalogs, m.id) && shows(
                    favorites,
                    tab,
                    query,
                    providers[j]@,
                    m.id,
                );
            if j < head.len() {
                assert(head[j].id@ == m.provider);
            }
        }
        if whole.contains(m) && !before.contains(m) {
            assert(providers[providers.len() - 1].id@ == m.provider);
        }
    }
}

proof fn visible_holds(
    presets: &[ExternalProvider],
    providers: &[ExternalProvider],
    catalogs: &KeyMap<String, ModelCatalog>,
    favorites: &[FavoriteModel],
    locked: Option<String>,
    tab: ModelPickerTab,
    query: &str,
    r: Vec<PickerModel>,
    provider: Seq<char>,
    model: Seq<char>,
)
    requires
        call_ensures(
            visible_picker_models,
            (presets, providers, catalogs, favorites, &locked, &tab, query),
            r,
        ),
    ensures
        is_shown(r@, provider, model) <==> exists|j: int|
            0 <= j < providers@.len() && (#[trigger] providers@[j]).id@ == provider && is_open(
                locked,
                query@,
                provider,
            ) && offers(presets@, providers@[j], catalogs@, model) && shows(
                favorites@,
                tab,
                query@,
                providers@[j]@,
                model,
            ),
{
    let all = shown(
        provider_views(presets@),
        provider_views(providers@),
        catalogs@,
        favorites@,
        opt_view(locked),
        tab,
        query@,
    );
    let v = model_views(r@);
    let m = PickerModelView {
        provider,
        id: model,
        rank: favorite_rank(favorites@, provider, model, 0),
    };
    shown_holds(presets@, providers@, catalogs@, favorites@, locked, tab, query@, m);
    by_place_holds(all, m);
    assert(v.contains(m) <==> all.contains(m));
    if is_shown(r@, provider, model) {
        let k = choose|k: int|
            0 <= k < r@.len() && (#[trigger] r@[k]).provider@ == provider && r@[k].id@ == model;
        let n = r@[k]@;
        shown_holds(presets@, providers@, catalogs@, favorites@, locked, tab, query@, n);
        by_place_holds(all, n);
        assert(v[k] == n);
        assert(v.contains(n));
        assert(all.contains(n));
    }
    if v.contains(m) {
        let k = v.index_of(m);
        assert(r@[k]@ == m);
        assert(r@[k].provider@ == provider);
    }
}

/// The tab of a provider shows the models of that provider and of no other, and all that it offers, where the
/// session is not bound to another one.
pub proof fn the_tab_of_a_provider_shows_its_models(
    presets: &[ExternalProvider],
    providers: &[ExternalProvider],
    catalogs: &KeyMap<String, ModelCatalog>,
    favorites: &[FavoriteModel],
    locked: Option<String>,
    id: String,
    query: &str,
    r: Vec<PickerModel>,
)
    requires
        query@.len() == 0,
        call_ensures(
            visible_picker_models,
            (
                presets,
                providers,
                catalogs,
                favorites,
                &locked,
                &ModelPickerTab::Provider(id),
                query,
            ),
            r,
        ),
    ensures
        forall|k: int| 0 <= k < r@.len() ==> (#[trigger] r@[k]).provider@ == id@,
        forall|k: int|
            0 <= k < r@.len() ==> exists|j: int|
                0 <= j < providers@.len() && (#[trigger] providers@[j]).id@ == id@ && offers(
                    presets@,
                    providers@[j],
                    catalogs@,
                    (#[trigger] r@[k]).id@,
                ),
        forall|j: int, model: Seq<char>|
            0 <= j < providers@.len() && providers@[j].id@ == id@ && (locked is None || (
            locked->0)@ == id@) && #[trigger] offers(presets@, providers@[j], catalogs@, model)
                ==> is_shown(r@, id@, model),
        locked is Some && (locked->0)@ != id@ ==> r@.len() == 0,
{
    let tab = ModelPickerTab::Provider(id);
    assert forall|k: int| 0 <= k < r@.len() implies (#[trigger] r@[k]).provider@ == id@ && is_open(
        locked,
        query@,
        id@,
    ) && exists|j: int|
        0 <= j < providers@.len() && (#[trigger] providers@[j]).id@ == id@ && offers(
            presets@,
            providers@[j],
            catalogs@,
            r@[k].id@,
        ) by {
        visible_holds(
            presets,
            providers,
            catalogs,
            favorites,
            locked,
            tab,
            query,
            r,
            r@[k].provider@,
            r@[k].id@,
        );
        assert(is_shown(r@, r@[k].provider@, r@[k].id@));
    }
    if locked is Some && (locked->0)@ != id@ && r@.len() > 0 {
        assert(r@[0].provider@ == id@);
        assert(is_open(locked, query@, id@));
    }
    assert forall|j: int, model: Seq<char>|
        0 <= j < providers@.len() && providers@[j].id@ == id@ && (locked is None || (locked->0)@
            == id@) && #[trigger] offers(presets@, providers@[j], catalogs@, model) implies is_shown(
        r@,
        id@,
        model,
    ) by {
        visible_holds(
            presets,
            providers,
            catalogs,
            favorites,
            locked,
            tab,
            query,
            r,
            id@,
            model,
        );
        assert(providers@[j].id@ == id@);
        assert(shows(favorites@, tab, query@, providers@[j]@, model));
    }
}

/// The tab for all shows every model that a provider offers, and no model under a provider that does not offer
/// it. A session that is bound to a provider shows that provider's alone.
pub proof fn the_tab_for_all_shows_what_is_offered(
    presets: &[ExternalProvider],
    providers: &[ExternalProvider],
    catalogs: &KeyMap<String, ModelCatalog>,
    favorites: &[FavoriteModel],
    locked: Option<String>,
    query: &str,
    r: Vec<PickerModel>,
    provider: Seq<char>,
    model: Seq<char>,
)
    requires
        query@.len() == 0,
        call_ensures(
            visible_picker_models,
            (presets, providers, catalogs, favorites, &locked, &ModelPickerTab::All, query),
            r,
        ),
    ensures
        is_shown(r@, provider, model) <==> (locked is None || (locked->0)@ == provider) && exists|
            j: int,
        |
            0 <= j < providers@.len() && (#[trigger] providers@[j]).id@ == provider && offers(
                presets@,
                providers@[j],
                catalogs@,
                model,
            ),
{
    visible_holds(
        presets,
        providers,
        catalogs,
        favorites,
        locked,
        ModelPickerTab::All,
        query,
        r,
        provider,
        model,
    );
}

/// The tab for the marked models shows those that the user marked and that are offered, and no others.
pub proof fn the_tab_of_favorites_shows_what_is_marked(
    presets: &[ExternalProvider],
    providers: &[ExternalProvider],
    catalogs: &KeyMap<String, ModelCatalog>,
    favorites: &[FavoriteModel],
    locked: Option<String>,
    query: &str,
    r: Vec<PickerModel>,
    provider: Seq<char>,
    model: Seq<char>,
)
    requires
        query@.len() == 0,
        call_ensures(
            visible_picker_models,
            (presets, providers, catalogs, favorites, &locked, &ModelPickerTab::Favorites, query),
            r,
        ),
    ensures
        is_shown(r@, provider, model) <==> (locked is None || (locked->0)@ == provider) && (exists|
            j: int,
        |
            0 <= j < providers@.len() && (#[trigger] providers@[j]).id@ == provider && offers(
                presets@,
                providers@[j],
                catalogs@,
                model,
            )) && exists|f: int|
            0 <= f < favorites@.len() && (#[trigger] favorites@[f]).provider@ == provider
                && favorites@[f].model@ == model,
{
    visible_holds(
        presets,
        providers,
        catalogs,
        favorites,
        locked,
        ModelPickerTab::Favorites,
        query,
        r,
        provider,
        model,
    );
}

/// A search finds a model exactly where each of its words stands in the provider's name and id and the model's
/// id, capitals or not. The tab and the session's provider make no difference.
pub proof fn a_search_finds_by_every_word(
    presets: &[ExternalProvider],
    providers: &[ExternalProvider],
    catalogs: &KeyMap<String, ModelCatalog>,
    favorites: &[FavoriteModel],
    locked: Option<String>,
    tab: ModelPickerTab,
    query: &str,
    r: Vec<PickerModel>,
    provider: Seq<char>,
    model: Seq<char>,
)
    requires
        query@.len() > 0,
        call_ensures(
            visible_picker_models,
            (presets, providers, catalogs, favorites, &locked, &tab, query),
            r,
        ),
    ensures
        is_shown(r@, provider, model) <==> exists|j: int|
            0 <= j < providers@.len() && (#[trigger] providers@[j]).id@ == provider && offers(
                presets@,
                providers@[j],
                catalogs@,
                model,
            ) && forall|w: int|
                0 <= w < words(query@).len() ==> occurs_in(
                    ascii_lowered(
                        providers@[j].name@ + seq![' '] + provider + seq![' '] + model,
                    ),
                    #[trigger] words(query@)[w],
                ),
{
    visible_holds(
        presets,
        providers,
        catalogs,
        favorites,
        locked,
        tab,
        query,
        r,
        provider,
        model,
    );
    reveal_strlit(" ");
    assert(" "@ =~= seq![' ']);
    assert forall|j: int| 0 <= j < providers@.len() && (#[trigger] providers@[j]).id@ == provider
        implies searchable(providers@[j]@, model) == ascii_lowered(
        providers@[j].name@ + seq![' '] + provider + seq![' '] + model,
    ) by {}
}

// ---------------------------------------------------------------------------
// Rows
// ---------------------------------------------------------------------------
/// The rows are those of the models that are shown, in their order. Each says its provider's name and its
/// model, whether the user marked it, and whether it is the one that is chosen.
pub proof fn rows_say_what_is_shown(
    presets: &[ExternalProvider],
    providers: &[ExternalProvider],
    catalogs: &KeyMap<String, ModelCatalog>,
    favorites: &[FavoriteModel],
    locked: Option<String>,
    tab: ModelPickerTab,
    query: &str,
    selected: Option<PickerChoice>,
    models: Vec<PickerModel>,
    rows: Vec<ModelPickerListRow>,
    k: int,
)
    requires
        call_ensures(
            visible_picker_models,
            (presets, providers, catalogs, favorites, &locked, &tab, query),
            models,
        ),
        call_ensures(
            labeled_model_picker_rows,
            (presets, providers, catalogs, favorites, &locked, &tab, query, &selected),
            rows,
        ),
        0 <= k < models@.len(),
    ensures
        rows@.len() == models@.len(),
        rows@[k].provider@ == models@[k].provider@,
        rows@[k].model_id@ == models@[k].id@,
        rows@[k].favorite <==> exists|f: int|
            0 <= f < favorites@.len() && (#[trigger] favorites@[f]).provider@
                == models@[k].provider@ && favorites@[f].model@ == models@[k].id@,
        rows@[k].selected <==> selected is Some && (selected->0).provider@ == models@[k].provider@
            && (selected->0).model is Some && ((selected->0).model->0)@ == models@[k].id@,
        !catalogs@.contains_key(models@[k].provider@) ==> rows@[k].supported,
        forall|e: int|
            catalogs@.contains_key(models@[k].provider@) && 0 <= e < catalogs@[
                models@[k].provider@
            ].models@.len() && (#[trigger] catalogs@[models@[k].provider@].models@[e]).id@
                == models@[k].id@ && (forall|d: int|
                0 <= d < e ==> (#[trigger] catalogs@[models@[k].provider@].models@[d]).id@
                    != models@[k].id@) ==> rows@[k].supported
                == catalogs@[models@[k].provider@].models@[e].supported,
{
    let v = model_views(models@);
    let w = row_views(rows@);
    assert(v.len() == models@.len() && w.len() == rows@.len());
    assert(v[k] == models@[k]@ && w.len() == v.len());
    assert(w[k] == rows@[k]@);
    let sel = choice_view(selected);
    assert(w[k] == row_of(v[k], provider_views(providers@), catalogs@, favorites@, sel));
    if selected is Some && (selected->0).model is Some {
        assert(sel == Some(((selected->0).provider@, Some(((selected->0).model->0)@))));
    }
    let id = models@[k].provider@;
    if catalogs@.contains_key(id) {
        assert forall|e: int|
            0 <= e < catalogs@[id].models@.len() && (#[trigger] catalogs@[id].models@[e]).id@
                == models@[k].id@ && (forall|d: int|
                0 <= d < e ==> (#[trigger] catalogs@[id].models@[d]).id@ != models@[k].id@) implies
            rows@[k].supported == catalogs@[id].models@[e].supported by {
            entry_stands_at(catalogs@[id].models@, models@[k].id@, e, 0);
        }
    }
}

proof fn entry_stands_at(models: Seq<ModelCatalogEntry>, id: Seq<char>, e: int, i: int)
    requires
        0 <= i <= e < models.len(),
        models[e].id@ == id,
        forall|d: int| 0 <= d < e ==> (#[trigger] models[d]).id@ != id,
    ensures
        entry_position(models, id, i) == e,
    decreases e - i,
{
    if i < e {
        assert(models[i].id@ != id);
        entry_stands_at(models, id, e, i + 1);
    }
}

// ---------------------------------------------------------------------------
// Suggesting and sending
// ---------------------------------------------------------------------------
/// Tells whether a provider lists a model that can be used.
pub open spec fn can_use(
    catalogs: Map<Seq<char>, ModelCatalog>,
    provider: Seq<char>,
    model: Seq<char>,
) -> bool {
    catalogs.contains_key(provider) && exists|e: int|
        0 <= e < catalogs[provider].models@.len() && (
        #[trigger] catalogs[provider].models@[e]).id@ == model
            && catalogs[provider].models@[e].supported
}

proof fn listed_is_usable(
    catalogs: Map<Seq<char>, ModelCatalog>,
    provider: Seq<char>,
    model: Seq<char>,
)
    ensures
        can_use(catalogs, provider, model) <==> catalog_of(catalogs, provider) is Some
            && lists_supported(catalog_of(catalogs, provider)->0.models@, model),
{
}

/// The picker suggests only a model that a provider on offer lists itself and that can be used.
pub proof fn suggestions_can_be_used(
    selected: Option<PickerChoice>,
    last_provider: String,
    last_model: Option<String>,
    providers: &[ExternalProvider],
    catalogs: &KeyMap<String, ModelCatalog>,
    r: Option<(String, String)>,
)
    requires
        call_ensures(
            suggested_picker_selection,
            (&selected, &last_provider, &last_model, providers, catalogs),
            r,
        ),
    ensures
        r is Some ==> can_use(catalogs@, (r->0).0@, (r->0).1@) && exists|j: int|
            0 <= j < providers@.len() && (#[trigger] providers@[j]).id@ == (r->0).0@,
        ({
            let on_offer = selected is Some && exists|j: int|
                0 <= j < providers@.len() && (#[trigger] providers@[j]).id@ == (
                selected->0).provider@;
            &&& on_offer && r is Some ==> (r->0).0@ == (selected->0).provider@
            &&& on_offer && (selected->0).model is Some && trimmed(
                ((selected->0).model->0)@,
            ).len() > 0 && can_use(
                catalogs@,
                (selected->0).provider@,
                trimmed(((selected->0).model->0)@),
            ) ==> r is Some && (r->0).1@ == trimmed(((selected->0).model->0)@)
        }),
{
    let s = choice_view(selected);
    let all = provider_views(providers@);
    suggestion_is_usable(s, last_provider@, opt_view(last_model), all, catalogs@);
    assert(pair_view(r) == suggestion(s, last_provider@, opt_view(last_model), all, catalogs@));
    if r is Some {
        listed_or_not(providers@, (r->0).0@);
        assert(usable(((r->0).0@, (r->0).1@), all, catalogs@));
        listed_is_usable(catalogs@, (r->0).0@, (r->0).1@);
    }
    if selected is Some {
        listed_or_not(providers@, (selected->0).provider@);
        if let Some(m) = (selected->0).model {
            trimming_again_changes_nothing(m@);
            listed_is_usable(catalogs@, (selected->0).provider@, trimmed(m@));
        }
    }
}

/// What is sent is the provider with the model that was chosen, where the provider lists it and it can be used;
/// else nothing.
pub proof fn only_listed_models_are_sent(
    provider: String,
    model: Option<&String>,
    catalogs: &KeyMap<String, ModelCatalog>,
    r: Option<(String, String)>,
)
    requires
        call_ensures(send_provider_model, (&provider, model, catalogs), r),
    ensures
        r is Some <==> model is Some && trimmed((model->0)@).len() > 0 && can_use(
            catalogs@,
            provider@,
            trimmed((model->0)@),
        ),
        r is Some ==> (r->0).0@ == provider@ && (r->0).1@ == trimmed((model->0)@),
{
    if model is Some {
        trimming_again_changes_nothing((model->0)@);
        listed_is_usable(catalogs@, provider@, trimmed((model->0)@));
    }
    assert(pair_view(r) is Some <==> r is Some);
}

proof fn first_is_first(models: Seq<ModelCatalogEntry>, e: int, i: int)
    requires
        0 <= i <= e < models.len(),
        models[e].supported,
        forall|d: int| 0 <= d < e ==> !(#[trigger] models[d]).supported,
    ensures
        first_supported(models, i) == Some(models[e].id@),
    decreases e - i,
{
    if i < e {
        assert(!models[i].supported);
        first_is_first(models, e, i + 1);
    }
}

/// A provider's default model comes first where it can be used; else the first model of its list that can.
pub proof fn the_default_comes_first(
    provider: &ExternalProvider,
    catalog: &ModelCatalog,
    e: int,
    r: Option<String>,
)
    requires
        call_ensures(preferred_supported_model, (provider, Some(catalog)), r),
        0 <= e < catalog.models@.len(),
        catalog.models@[e].supported,
        forall|d: int| 0 <= d < e ==> !(#[trigger] catalog.models@[d]).supported,
    ensures
        r is Some,
        (r->0)@ == (if exists|d: int|
            0 <= d < catalog.models@.len() && (#[trigger] catalog.models@[d]).id@
                == provider.default_model@ && catalog.models@[d].supported {
            provider.default_model@
        } else {
            catalog.models@[e].id@
        }),
{
    first_is_first(catalog.models@, e, 0);
}

/// A provider on offer stays; else the first one on offer is turned to.
pub proof fn the_first_provider_is_turned_to(
    current: Option<&String>,
    providers: &[ExternalProvider],
    r: Option<String>,
)
    requires
        call_ensures(suggested_picker_provider, (current, providers), r),
    ensures
        ({
            let on_offer = current is Some && exists|j: int|
                0 <= j < providers@.len() && (#[trigger] providers@[j]).id@ == (current->0)@;
            &&& on_offer ==> r is None
            &&& !on_offer && providers@.len() > 0 ==> r is Some && (r->0)@ == providers@[0].id@
            &&& providers@.len() == 0 ==> r is None
        }),
{
    if current is Some {
        listed_or_not(providers@, (current->0)@);
    }
    if providers@.len() > 0 {
        assert(provider_views(providers@)[0] == providers@[0]@);
    }
}

/// The picker offers the built-in providers that the user is signed in to, and the user's own that are not built
/// in; nothing else.
pub proof fn providers_on_offer(
    presets: &[ExternalProvider],
    customs: &[ExternalProvider],
    statuses: &KeyMap<String, ProviderAuthStatus>,
    r: Vec<ExternalProvider>,
)
    requires
        call_ensures(picker_provider_endpoints, (presets, customs, statuses), r),
    ensures
        forall|i: int|
            0 <= i < presets@.len() && statuses@.contains_key((#[trigger] presets@[i]).id@)
                && statuses@[presets@[i].id@].connected ==> exists|k: int|
                0 <= k < r@.len() && (#[trigger] r@[k])@ == presets@[i]@,
        forall|i: int|
            0 <= i < customs@.len() && (forall|j: int|
                0 <= j < presets@.len() ==> (#[trigger] presets@[j]).id@ != customs@[i].id@)
                ==> exists|k: int| 0 <= k < r@.len() && (#[trigger] r@[k])@ == (
            #[trigger] customs@[i])@,
        forall|k: int|
            0 <= k < r@.len() ==> (exists|i: int|
                0 <= i < presets@.len() && (#[trigger] presets@[i])@ == (#[trigger] r@[k])@
                    && statuses@.contains_key(r@[k].id@) && statuses@[r@[k].id@].connected) || (
            exists|i: int|
                0 <= i < customs@.len() && (#[trigger] customs@[i])@ == r@[k]@ && forall|j: int|
                    0 <= j < presets@.len() ==> (#[trigger] presets@[j]).id@ != r@[k].id@),
{
    let known = provider_views(presets@);
    let own = provider_views(customs@);
    let signed = |p: ProviderView| crate::composer::picker::is_connected(statuses@, p.id);
    let foreign = |c: ProviderView| !lists_provider(known, c.id);
    let v = provider_views(r@);
    let a = known.filter(signed);
    let b = own.filter(foreign);
    assert(v == a + b);
    assert(v.len() == r@.len());
    assert forall|i: int|
        0 <= i < presets@.len() && statuses@.contains_key((#[trigger] presets@[i]).id@)
            && statuses@[presets@[i].id@].connected implies exists|k: int|
        0 <= k < r@.len() && (#[trigger] r@[k])@ == presets@[i]@ by {
        assert(known[i] == presets@[i]@);
        known.lemma_filter_contains(signed, i);
        assert(a.contains(known[i]));
        let k = a.index_of(known[i]);
        assert(v[k] == known[i]);
        assert(r@[k]@ == presets@[i]@);
    }
    assert forall|i: int|
        0 <= i < customs@.len() && (forall|j: int|
            0 <= j < presets@.len() ==> (#[trigger] presets@[j]).id@ != customs@[i].id@) implies
        exists|k: int| 0 <= k < r@.len() && (#[trigger] r@[k])@ == (#[trigger] customs@[i])@ by {
        assert(own[i] == customs@[i]@);
        listed_or_not(presets@, customs@[i].id@);
        own.lemma_filter_contains(foreign, i);
        assert(b.contains(own[i]));
        let k = b.index_of(own[i]);
        assert(v[a.len() + k] == own[i]);
        assert(r@[a.len() + k]@ == customs@[i]@);
    }
    assert forall|k: int| 0 <= k < r@.len() implies (exists|i: int|
        0 <= i < presets@.len() && (#[trigger] presets@[i])@ == (#[trigger] r@[k])@
            && statuses@.contains_key(r@[k].id@) && statuses@[r@[k].id@].connected) || (exists|
        i: int,
    |
        0 <= i < customs@.len() && (#[trigger] customs@[i])@ == r@[k]@ && forall|j: int|
            0 <= j < presets@.len() ==> (#[trigger] presets@[j]).id@ != r@[k].id@) by {
        assert(v[k] == r@[k]@);
        if k < a.len() {
            assert(a.contains(v[k]));
            known.lemma_filter_contains_rev(signed, v[k]);
            known.lemma_filter_pred(signed, k);
            let i = known.index_of(v[k]);
            assert(presets@[i]@ == r@[k]@);
        } else {
            assert(b[k - a.len()] == v[k]);
            assert(b.contains(v[k]));
            own.lemma_filter_contains_rev(foreign, v[k]);
            own.lemma_filter_pred(foreign, k - a.len());
            let i = own.index_of(v[k]);
            assert(customs@[i]@ == r@[k]@);
            listed_or_not(presets@, r@[k].id@);
        }
    }
}

} // verus!
