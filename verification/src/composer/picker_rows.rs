//! The rows of the picker of models: which models it shows, in which order, what each row says, and
//! where the keyboard's cursor goes.
use crate::composer::picker::{
    catalog_entry_selectable, catalog_model_ids, choice_view, model_ids, PickerChoice,
};
use crate::key_map::KeyMap;
use crate::providers::{
    catalog_of, entry_of, find_entry, find_provider, lists_provider, provider_position,
    provider_views, ExternalProvider, ModelCatalog, ModelCatalogEntry, ProviderView,
};
use crate::sorting::{insert_ranked, ranked, sort_ranked, Ranked};
use crate::text::{
    all_occur, ascii_lowered, concat3, contains_all, copy_opt_text, opt_view, same_opt_text,
    same_text, split_words, to_ascii_lower, views, words,
};
use std::rc::Rc;
use vstd::prelude::*;

verus! {

// ---------------------------------------------------------------------------
// Which models are shown
// ---------------------------------------------------------------------------
/// A model that the user marked.
#[derive(Debug)]
pub struct FavoriteModel {
    pub provider: String,
    pub model: String,
}

/// The models that the picker shows.
#[derive(Debug, PartialEq, Eq)]
pub enum ModelPickerTab {
    All,
    Favorites,
    Provider(String),
}

impl Clone for ModelPickerTab {
    fn clone(&self) -> (r: Self)
        ensures
            r == *self,
    {
        match self {
            ModelPickerTab::All => ModelPickerTab::All,
            ModelPickerTab::Favorites => ModelPickerTab::Favorites,
            ModelPickerTab::Provider(id) => ModelPickerTab::Provider(id.clone()),
        }
    }
}

/// Where a model stands among those that the user marked, from `i` on, or the largest number.
pub open spec fn favorite_rank(
    favorites: Seq<FavoriteModel>,
    provider: Seq<char>,
    model: Seq<char>,
    i: int,
) -> usize
    decreases favorites.len() - i,
{
    if i < 0 || i >= favorites.len() {
        usize::MAX
    } else if favorites[i].provider@ == provider && favorites[i].model@ == model {
        i as usize
    } else {
        favorite_rank(favorites, provider, model, i + 1)
    }
}

/// Tells whether the user marked a model.
pub open spec fn is_favorite(
    favorites: Seq<FavoriteModel>,
    provider: Seq<char>,
    model: Seq<char>,
) -> bool {
    exists|i: int|
        0 <= i < favorites.len() && (#[trigger] favorites[i]).provider@ == provider
            && favorites[i].model@ == model
}

fn rank_favorite(favorites: &[FavoriteModel], provider: &str, model: &str) -> (r: (usize, bool))
    ensures
        r.0 == favorite_rank(favorites@, provider@, model@, 0),
        r.1 == is_favorite(favorites@, provider@, model@),
{
    let mut i: usize = 0;
    while i < favorites.len()
        invariant
            i <= favorites@.len(),
            favorite_rank(favorites@, provider@, model@, 0) == favorite_rank(
                favorites@,
                provider@,
                model@,
                i as int,
            ),
            forall|k: int|
                0 <= k < i ==> !((#[trigger] favorites@[k]).provider@ == provider@
                    && favorites@[k].model@ == model@),
        decreases favorites@.len() - i,
    {
        if same_text(favorites[i].provider.as_str(), provider) && same_text(
            favorites[i].model.as_str(),
            model,
        ) {
            assert(favorites@[i as int].provider@ == provider@);
            return (i, true);
        }
        i = i + 1;
    }
    (usize::MAX, false)
}

/// A model that the picker shows, with its place among those that the user marked.
#[derive(Debug)]
pub struct PickerModel {
    pub provider: String,
    pub id: String,
    pub rank: usize,
}

/// The contents of a model that the picker shows.
pub ghost struct PickerModelView {
    pub provider: Seq<char>,
    pub id: Seq<char>,
    pub rank: usize,
}

impl View for PickerModel {
    type V = PickerModelView;

    open spec fn view(&self) -> PickerModelView {
        PickerModelView { provider: self.provider@, id: self.id@, rank: self.rank }
    }
}

impl Ranked for PickerModel {
    open spec fn ranks_before(self, other: Self) -> bool {
        self.rank <= other.rank
    }

    fn may_precede(&self, other: &Self) -> (r: bool) {
        self.rank <= other.rank
    }
}

/// The contents of a list of models.
pub open spec fn model_views(list: Seq<PickerModel>) -> Seq<PickerModelView> {
    Seq::new(list.len(), |i: int| list[i]@)
}

/// A list of models with one more behind the last whose place is no later.
pub open spec fn insert_by_place(s: Seq<PickerModelView>, m: PickerModelView) -> Seq<
    PickerModelView,
>
    decreases s.len(),
{
    if s.len() == 0 || s.last().rank <= m.rank {
        s.push(m)
    } else {
        insert_by_place(s.drop_last(), m).push(s.last())
    }
}

/// The models by their place among those that the user marked; those of one place as they were.
pub open spec fn by_place(s: Seq<PickerModelView>) -> Seq<PickerModelView>
    decreases s.len(),
{
    if s.len() == 0 {
        s
    } else {
        insert_by_place(by_place(s.drop_last()), s.last())
    }
}

proof fn insert_keeps_views(s: Seq<PickerModel>, m: PickerModel)
    ensures
        model_views(insert_ranked(s, m)) == insert_by_place(model_views(s), m@),
    decreases s.len(),
{
    let v = model_views(s);
    if s.len() == 0 || s.last().ranks_before(m) {
        assert(model_views(s.push(m)) =~= v.push(m@));
    } else {
        insert_keeps_views(s.drop_last(), m);
        assert(model_views(s.drop_last()) =~= v.drop_last());
        assert(model_views(insert_ranked(s.drop_last(), m).push(s.last())) =~= model_views(
            insert_ranked(s.drop_last(), m),
        ).push(v.last()));
    }
}

proof fn ranked_keeps_views(s: Seq<PickerModel>)
    ensures
        model_views(ranked(s)) == by_place(model_views(s)),
    decreases s.len(),
{
    let v = model_views(s);
    if s.len() == 0 {
        assert(model_views(s) =~= by_place(v));
    } else {
        ranked_keeps_views(s.drop_last());
        insert_keeps_views(ranked(s.drop_last()), s.last());
        assert(model_views(s.drop_last()) =~= v.drop_last());
    }
}

/// The models that a provider puts up: those that are known of it; of a provider that is not built in,
/// those that the user listed, where none are known.
pub open spec fn offered_ids(
    presets: Seq<ProviderView>,
    provider: ProviderView,
    catalog: Option<ModelCatalog>,
) -> Seq<Seq<char>> {
    if catalog is Some || !lists_provider(presets, provider.id) {
        model_ids(catalog, provider.models)
    } else {
        Seq::empty()
    }
}

/// What a search looks through: the provider's name, its id and the model, in small letters.
pub open spec fn searchable(provider: ProviderView, model: Seq<char>) -> Seq<char> {
    ascii_lowered(provider.name + " "@ + provider.id + " "@ + model)
}

/// Tells whether a model is shown. A search looks at every model; without one the tab decides.
pub open spec fn shows(
    favorites: Seq<FavoriteModel>,
    tab: ModelPickerTab,
    query: Seq<char>,
    provider: ProviderView,
    model: Seq<char>,
) -> bool {
    if query.len() > 0 {
        all_occur(searchable(provider, model), words(query))
    } else {
        match tab {
            ModelPickerTab::All => true,
            ModelPickerTab::Favorites => is_favorite(favorites, provider.id, model),
            ModelPickerTab::Provider(id) => id@ == provider.id,
        }
    }
}

/// Those of a provider's models that are shown.
pub open spec fn shown_of(
    favorites: Seq<FavoriteModel>,
    tab: ModelPickerTab,
    query: Seq<char>,
    provider: ProviderView,
    ids: Seq<Seq<char>>,
) -> Seq<PickerModelView>
    decreases ids.len(),
{
    if ids.len() == 0 {
        Seq::empty()
    } else {
        let before = shown_of(favorites, tab, query, provider, ids.drop_last());
        if shows(favorites, tab, query, provider, ids.last()) {
            before.push(
                PickerModelView {
                    provider: provider.id,
                    id: ids.last(),
                    rank: favorite_rank(favorites, provider.id, ids.last(), 0),
                },
            )
        } else {
            before
        }
    }
}

/// Those models that are shown, in the order of the providers. A session that is bound to a provider
/// shows only its models, but for a search.
pub open spec fn shown(
    presets: Seq<ProviderView>,
    providers: Seq<ProviderView>,
    catalogs: Map<Seq<char>, ModelCatalog>,
    favorites: Seq<FavoriteModel>,
    locked: Option<Seq<char>>,
    tab: ModelPickerTab,
    query: Seq<char>,
) -> Seq<PickerModelView>
    decreases providers.len(),
{
    if providers.len() == 0 {
        Seq::empty()
    } else {
        let p = providers.last();
        let before = shown(presets, providers.drop_last(), catalogs, favorites, locked, tab, query);
        if query.len() > 0 || locked is None || locked->0 == p.id {
            before + shown_of(
                favorites,
                tab,
                query,
                p,
                offered_ids(presets, p, catalog_of(catalogs, p.id)),
            )
        } else {
            before
        }
    }
}

/// The models that the picker shows. Those that the user marked come in the order of the marks.
pub open spec fn visible_models(
    presets: Seq<ProviderView>,
    providers: Seq<ProviderView>,
    catalogs: Map<Seq<char>, ModelCatalog>,
    favorites: Seq<FavoriteModel>,
    locked: Option<Seq<char>>,
    tab: ModelPickerTab,
    query: Seq<char>,
) -> Seq<PickerModelView> {
    let all = shown(presets, providers, catalogs, favorites, locked, tab, query);
    if query.len() == 0 && tab is Favorites {
        by_place(all)
    } else {
        all
    }
}

fn shows_model(
    favorites: &[FavoriteModel],
    tab: &ModelPickerTab,
    query: &str,
    tokens: &Vec<String>,
    provider: &ExternalProvider,
    model: &str,
    marked: bool,
) -> (r: bool)
    requires
        views(tokens@) == words(query@),
        marked == is_favorite(favorites@, provider@.id, model@),
    ensures
        r == shows(favorites@, *tab, query@, provider@, model@),
{
    if !query.is_empty() {
        let names = concat3(provider.name.as_str(), " ", provider.id.as_str());
        let all = concat3(names.as_str(), " ", model);
        assert(all@ =~= provider@.name + " "@ + provider@.id + " "@ + model@);
        contains_all(to_ascii_lower(all.as_str()).as_str(), tokens)
    } else {
        match tab {
            ModelPickerTab::All => true,
            ModelPickerTab::Favorites => marked,
            ModelPickerTab::Provider(id) => same_text(id.as_str(), provider.id.as_str()),
        }
    }
}

fn push_shown(
    models: &mut Vec<PickerModel>,
    favorites: &[FavoriteModel],
    tab: &ModelPickerTab,
    query: &str,
    tokens: &Vec<String>,
    provider: &ExternalProvider,
    ids: &Vec<String>,
)
    requires
        views(tokens@) == words(query@),
    ensures
        model_views(final(models)@) == model_views(old(models)@) + shown_of(
            favorites@,
            *tab,
            query@,
            provider@,
            views(ids@),
        ),
{
    let ghost start = model_views(models@);
    let ghost all = views(ids@);
    assert(start + shown_of(favorites@, *tab, query@, provider@, all.take(0)) =~= start);
    for i in 0..ids.len()
        invariant
            views(tokens@) == words(query@),
            all == views(ids@),
            model_views(models@) == start + shown_of(
                favorites@,
                *tab,
                query@,
                provider@,
                all.take(i as int),
            ),
    {
        let ghost before = models@;
        let ghost so_far = shown_of(favorites@, *tab, query@, provider@, all.take(i as int));
        proof {
            assert(all.take(i as int + 1).drop_last() =~= all.take(i as int));
            assert(all.take(i as int + 1).last() == ids@[i as int]@);
        }
        let (rank, marked) = rank_favorite(favorites, provider.id.as_str(), ids[i].as_str());
        if shows_model(favorites, tab, query, tokens, provider, ids[i].as_str(), marked) {
            let m = PickerModel { provider: provider.id.clone(), id: ids[i].clone(), rank };
            models.push(m);
            assert(model_views(models@) =~= model_views(before).push(m@));
            assert(start + so_far.push(m@) =~= (start + so_far).push(m@));
        }
    }
    assert(all.take(all.len() as int) =~= all);
}

fn matches_lock(locked: &Option<String>, id: &str) -> (r: bool)
    ensures
        r == (opt_view(*locked) is None || opt_view(*locked)->0 == id@),
{
    match locked {
        Some(l) => same_text(l.as_str(), id),
        None => true,
    }
}

/// The models that the picker shows. `presets` are the providers that are built in, `locked_provider`
/// the one that the session is bound to.
pub fn visible_picker_models(
    presets: &[ExternalProvider],
    providers: &[ExternalProvider],
    catalogs: &KeyMap<String, ModelCatalog>,
    favorites: &[FavoriteModel],
    locked_provider: &Option<String>,
    selected_tab: &ModelPickerTab,
    normalized_query: &str,
) -> (r: Vec<PickerModel>)
    ensures
        model_views(r@) == visible_models(
            provider_views(presets@),
            provider_views(providers@),
            catalogs@,
            favorites@,
            opt_view(*locked_provider),
            *selected_tab,
            normalized_query@,
        ),
{
    let tokens = split_words(normalized_query);
    let searching = !normalized_query.is_empty();
    let mut models: Vec<PickerModel> = Vec::new();
    let ghost known = provider_views(presets@);
    let ghost all = provider_views(providers@);
    let ghost locked = opt_view(*locked_provider);
    assert(model_views(models@) =~= Seq::empty());
    for i in 0..providers.len()
        invariant
            views(tokens@) == words(normalized_query@),
            searching == (normalized_query@.len() > 0),
            known == provider_views(presets@),
            all == provider_views(providers@),
            locked == opt_view(*locked_provider),
            model_views(models@) == shown(
                known,
                all.take(i as int),
                catalogs@,
                favorites@,
                locked,
                *selected_tab,
                normalized_query@,
            ),
    {
        let provider = &providers[i];
        proof {
            assert(all.take(i as int + 1).drop_last() =~= all.take(i as int));
            assert(all.take(i as int + 1).last() == provider@);
        }
        if searching || matches_lock(locked_provider, provider.id.as_str()) {
            let catalog = catalogs.get(&provider.id);
            let built_in = find_provider(presets, provider.id.as_str()) < presets.len();
            let ids = if catalog.is_some() || !built_in {
                catalog_model_ids(catalog, &provider.models, provider.default_model.as_str())
            } else {
                Vec::new()
            };
            assert(views(ids@) =~= offered_ids(known, provider@, catalog_of(catalogs@, provider@.id)));
            push_shown(
                &mut models,
                favorites,
                selected_tab,
                normalized_query,
                &tokens,
                provider,
                &ids,
            );
        }
    }
    assert(all.take(all.len() as int) =~= all);
    let marked_only = match selected_tab {
        ModelPickerTab::Favorites => true,
        _ => false,
    };
    if !searching && marked_only {
        proof {
            ranked_keeps_views(models@);
        }
        sort_ranked(&mut models);
    }
    models
}

// ---------------------------------------------------------------------------
// What the rows say
// ---------------------------------------------------------------------------
/// A row of the picker.
#[derive(Debug)]
pub struct ModelPickerListRow {
    pub provider: String,
    pub model_id: String,
    pub label: String,
    pub supported: bool,
    pub favorite: bool,
    pub selected: bool,
}

/// The contents of a row.
pub ghost struct RowView {
    pub provider: Seq<char>,
    pub model_id: Seq<char>,
    pub label: Seq<char>,
    pub supported: bool,
    pub favorite: bool,
    pub selected: bool,
}

impl View for ModelPickerListRow {
    type V = RowView;

    open spec fn view(&self) -> RowView {
        RowView {
            provider: self.provider@,
            model_id: self.model_id@,
            label: self.label@,
            supported: self.supported,
            favorite: self.favorite,
            selected: self.selected,
        }
    }
}

/// The contents of a list of rows.
pub open spec fn row_views(rows: Seq<ModelPickerListRow>) -> Seq<RowView> {
    Seq::new(rows.len(), |i: int| rows[i]@)
}

/// The name of a provider, or its id where the provider is not on offer.
pub open spec fn provider_name(providers: Seq<ProviderView>, id: Seq<char>) -> Seq<char> {
    let at = provider_position(providers, id, 0);
    if at < providers.len() {
        providers[at].name
    } else {
        id
    }
}

/// What a row says: the provider, the model, and why the model cannot be used.
pub open spec fn row_label(
    name: Seq<char>,
    model: Seq<char>,
    entry: Option<ModelCatalogEntry>,
) -> Seq<char> {
    let text = name + " · "@ + model;
    if entry is Some && entry->0.unsupported_reason is Some {
        text + " ("@ + entry->0.unsupported_reason->0@ + ")"@
    } else {
        text
    }
}

/// The row of a model.
pub open spec fn row_of(
    m: PickerModelView,
    providers: Seq<ProviderView>,
    catalogs: Map<Seq<char>, ModelCatalog>,
    favorites: Seq<FavoriteModel>,
    selected: Option<(Seq<char>, Option<Seq<char>>)>,
) -> RowView {
    let entry = entry_of(catalog_of(catalogs, m.provider), m.id);
    RowView {
        provider: m.provider,
        model_id: m.id,
        label: row_label(provider_name(providers, m.provider), m.id, entry),
        supported: entry is None || entry->0.supported,
        favorite: is_favorite(favorites, m.provider, m.id),
        selected: selected == Some((m.provider, Some(m.id))),
    }
}

fn label_row(
    m: PickerModel,
    providers: &[ExternalProvider],
    catalogs: &KeyMap<String, ModelCatalog>,
    favorites: &[FavoriteModel],
    selected: &Option<PickerChoice>,
) -> (r: ModelPickerListRow)
    ensures
        r@ == row_of(
            m@,
            provider_views(providers@),
            catalogs@,
            favorites@,
            choice_view(*selected),
        ),
{
    let at: usize = find_provider(providers, m.provider.as_str());
    let name = if at < providers.len() {
        assert(provider_views(providers@)[at as int] == providers@[at as int]@);
        providers[at].name.as_str()
    } else {
        m.provider.as_str()
    };
    let entry = find_entry(catalogs.get(&m.provider), m.id.as_str());
    let plain = concat3(name, " · ", m.id.as_str());
    let label = match entry {
        Some(e) => match &e.unsupported_reason {
            Some(reason) => {
                let opened = concat3(plain.as_str(), " (", reason.as_str());
                let closed = concat3(opened.as_str(), ")", "");
                assert(closed@ =~= plain@ + " ("@ + reason@ + ")"@) by {
                    reveal_strlit("");
                }
                closed
            },
            None => plain,
        },
        None => plain,
    };
    let (_, favorite) = rank_favorite(favorites, m.provider.as_str(), m.id.as_str());
    let chosen = match selected {
        Some(choice) => match &choice.model {
            Some(model) => same_text(choice.provider.as_str(), m.provider.as_str()) && same_text(
                model.as_str(),
                m.id.as_str(),
            ),
            None => false,
        },
        None => false,
    };
    let supported = catalog_entry_selectable(entry);
    ModelPickerListRow {
        provider: m.provider.clone(),
        model_id: m.id.clone(),
        label,
        supported,
        favorite,
        selected: chosen,
    }
}

/// The rows of the picker.
pub open spec fn picker_rows(
    presets: Seq<ProviderView>,
    providers: Seq<ProviderView>,
    catalogs: Map<Seq<char>, ModelCatalog>,
    favorites: Seq<FavoriteModel>,
    locked: Option<Seq<char>>,
    tab: ModelPickerTab,
    query: Seq<char>,
    selected: Option<(Seq<char>, Option<Seq<char>>)>,
) -> Seq<RowView> {
    visible_models(presets, providers, catalogs, favorites, locked, tab, query).map_values(
        |m: PickerModelView| row_of(m, providers, catalogs, favorites, selected),
    )
}

/// The rows of the picker, one for each model that it shows.
pub fn labeled_model_picker_rows(
    presets: &[ExternalProvider],
    providers: &[ExternalProvider],
    catalogs: &KeyMap<String, ModelCatalog>,
    favorites: &[FavoriteModel],
    locked_provider: &Option<String>,
    selected_tab: &ModelPickerTab,
    query: &str,
    selected: &Option<PickerChoice>,
) -> (r: Vec<ModelPickerListRow>)
    ensures
        row_views(r@) == picker_rows(
            provider_views(presets@),
            provider_views(providers@),
            catalogs@,
            favorites@,
            opt_view(*locked_provider),
            *selected_tab,
            query@,
            choice_view(*selected),
        ),
{
    let models = visible_picker_models(
        presets,
        providers,
        catalogs,
        favorites,
        locked_provider,
        selected_tab,
        query,
    );
    let ghost items = models@;
    let ghost all = model_views(items);
    let ghost make = |m: PickerModelView|
        row_of(m, provider_views(providers@), catalogs@, favorites@, choice_view(*selected));
    let mut rows: Vec<ModelPickerListRow> = Vec::new();
    for m in it: models.into_iter()
        invariant
            it.seq() == items,
            all == model_views(items),
            make == |m: PickerModelView|
                row_of(m, provider_views(providers@), catalogs@, favorites@, choice_view(*selected)),
            rows@.len() == it.index(),
            forall|k: int| 0 <= k < it.index() ==> (#[trigger] rows@[k])@ == make(all[k]),
    {
        assert(all[it.index()] == m@);
        rows.push(label_row(m, providers, catalogs, favorites, selected));
    }
    assert(row_views(rows@) =~= all.map_values(make));
    rows
}

// ---------------------------------------------------------------------------
// Rows that are kept
// ---------------------------------------------------------------------------
/// What the rows of the picker are made from.
#[derive(Debug)]
pub struct ModelPickerRowsCacheInputs {
    pub catalog_generation: u64,
    pub auth_generation: u64,
    pub favorite_generation: u64,
    pub locked_provider: Option<String>,
    pub selected_tab: ModelPickerTab,
    pub query: String,
    pub selected: Option<PickerChoice>,
}

/// What the rows that are kept were made from.
#[derive(Debug, PartialEq, Eq)]
pub struct ModelPickerRowsCacheKey {
    pub catalog_generation: u64,
    pub auth_generation: u64,
    pub favorite_generation: u64,
    pub query: String,
    pub locked: Option<String>,
    pub tab: ModelPickerTab,
    pub selected: Option<PickerChoice>,
}

/// The tab of the picker, over contents.
pub ghost enum TabView {
    All,
    Favorites,
    Provider(Seq<char>),
}

impl View for ModelPickerTab {
    type V = TabView;

    open spec fn view(&self) -> TabView {
        match self {
            ModelPickerTab::All => TabView::All,
            ModelPickerTab::Favorites => TabView::Favorites,
            ModelPickerTab::Provider(id) => TabView::Provider(id@),
        }
    }
}

/// The contents of a key.
pub ghost struct CacheKeyView {
    pub catalog_generation: u64,
    pub auth_generation: u64,
    pub favorite_generation: u64,
    pub query: Seq<char>,
    pub locked: Option<Seq<char>>,
    pub tab: TabView,
    pub selected: Option<(Seq<char>, Option<Seq<char>>)>,
}

impl View for ModelPickerRowsCacheInputs {
    type V = CacheKeyView;

    open spec fn view(&self) -> CacheKeyView {
        CacheKeyView {
            catalog_generation: self.catalog_generation,
            auth_generation: self.auth_generation,
            favorite_generation: self.favorite_generation,
            query: self.query@,
            locked: opt_view(self.locked_provider),
            tab: self.selected_tab@,
            selected: choice_view(self.selected),
        }
    }
}

impl View for ModelPickerRowsCacheKey {
    type V = CacheKeyView;

    open spec fn view(&self) -> CacheKeyView {
        CacheKeyView {
            catalog_generation: self.catalog_generation,
            auth_generation: self.auth_generation,
            favorite_generation: self.favorite_generation,
            query: self.query@,
            locked: opt_view(self.locked),
            tab: self.tab@,
            selected: choice_view(self.selected),
        }
    }
}

fn same_tab(a: &ModelPickerTab, b: &ModelPickerTab) -> (r: bool)
    ensures
        r == (a@ == b@),
{
    match (a, b) {
        (ModelPickerTab::All, ModelPickerTab::All) => true,
        (ModelPickerTab::Favorites, ModelPickerTab::Favorites) => true,
        (ModelPickerTab::Provider(x), ModelPickerTab::Provider(y)) => same_text(
            x.as_str(),
            y.as_str(),
        ),
        _ => false,
    }
}

fn same_choice(a: &Option<PickerChoice>, b: &Option<PickerChoice>) -> (r: bool)
    ensures
        r == (choice_view(*a) == choice_view(*b)),
{
    match (a, b) {
        (Some(x), Some(y)) => same_text(x.provider.as_str(), y.provider.as_str()) && same_opt_text(
            &x.model,
            &y.model,
        ),
        (None, None) => true,
        _ => false,
    }
}

impl ModelPickerRowsCacheKey {
    /// The key of rows made from these inputs.
    pub fn new(inputs: &ModelPickerRowsCacheInputs) -> (r: Self)
        ensures
            r@ == inputs@,
    {
        ModelPickerRowsCacheKey {
            catalog_generation: inputs.catalog_generation,
            auth_generation: inputs.auth_generation,
            favorite_generation: inputs.favorite_generation,
            query: inputs.query.clone(),
            locked: copy_opt_text(&inputs.locked_provider),
            tab: inputs.selected_tab.clone(),
            selected: match &inputs.selected {
                Some(choice) => Some(
                    PickerChoice {
                        provider: choice.provider.clone(),
                        model: copy_opt_text(&choice.model),
                    },
                ),
                None => None,
            },
        }
    }

    /// Tells whether rows made from these inputs would be the same: nothing that they are made from
    /// has changed.
    pub fn matches(&self, inputs: &ModelPickerRowsCacheInputs) -> (r: bool)
        ensures
            r == (self@ == inputs@),
    {
        self.catalog_generation == inputs.catalog_generation && self.auth_generation
            == inputs.auth_generation && self.favorite_generation == inputs.favorite_generation
            && same_text(self.query.as_str(), inputs.query.as_str()) && same_opt_text(
            &self.locked,
            &inputs.locked_provider,
        ) && same_tab(&self.tab, &inputs.selected_tab) && same_choice(
            &self.selected,
            &inputs.selected,
        )
    }
}

/// The rows of the picker as they were made last, and what they were made from.
#[derive(Debug)]
pub struct ModelPickerRowsCache {
    pub key: Option<ModelPickerRowsCacheKey>,
    pub rows: Rc<Vec<ModelPickerListRow>>,
}

/// Tells whether rows are kept that were made from these inputs.
pub open spec fn kept_for(
    key: Option<ModelPickerRowsCacheKey>,
    inputs: ModelPickerRowsCacheInputs,
) -> bool {
    key is Some && key->0@ == inputs@
}

/// `Rc::clone` of std: another handle to the same rows.
#[verifier::external_body]
fn share(rows: &Rc<Vec<ModelPickerListRow>>) -> (r: Rc<Vec<ModelPickerListRow>>)
    ensures
        r == *rows,
{
    Rc::clone(rows)
}

/// The rows of the picker: those that are kept, where nothing that they are made from has changed, else
/// those that `build` makes, which are kept from then on.
pub fn cached_model_picker_rows<F: FnOnce() -> Vec<ModelPickerListRow>>(
    cache: &mut ModelPickerRowsCache,
    inputs: &ModelPickerRowsCacheInputs,
    build: F,
) -> (r: Rc<Vec<ModelPickerListRow>>)
    requires
        !kept_for(old(cache).key, *inputs) ==> build.requires(()),
    ensures
        r == final(cache).rows,
        kept_for(final(cache).key, *inputs),
        kept_for(old(cache).key, *inputs) ==> *final(cache) == *old(cache),
        !kept_for(old(cache).key, *inputs) ==> build.ensures((), *r),
{
    let hit = match &cache.key {
        Some(key) => key.matches(inputs),
        None => false,
    };
    if !hit {
        cache.rows = Rc::new(build());
        cache.key = Some(ModelPickerRowsCacheKey::new(inputs));
    }
    share(&cache.rows)
}

// ---------------------------------------------------------------------------
// The keyboard's cursor
// ---------------------------------------------------------------------------
/// Where the cursor of a list goes on a key, round both ends. Without a cursor, `down` begins at the
/// first row and `up` at the last.
pub open spec fn stepped(current: Option<usize>, len: usize, key: Seq<char>) -> Option<int> {
    if len == 0 {
        None
    } else if key == "down"@ {
        Some(
            match current {
                Some(i) => (i + 1) % len as int,
                None => 0,
            },
        )
    } else if key == "up"@ {
        Some(
            match current {
                Some(i) => (i + len - 1) % len as int,
                None => len - 1,
            },
        )
    } else {
        None
    }
}

/// Tells whether the step of the cursor stays within the numbers of a machine.
pub open spec fn can_step(current: Option<usize>, len: usize, key: Seq<char>) -> bool {
    current is Some && len > 0 ==> {
        &&& key == "down"@ ==> current->0 < usize::MAX
        &&& key == "up"@ ==> current->0 + len <= usize::MAX
    }
}

/// Tells whether an optional position is the given one.
pub open spec fn is_position(r: Option<usize>, p: Option<int>) -> bool {
    match r {
        Some(i) => p == Some(i as int),
        None => p is None,
    }
}

/// Where the cursor of a list goes on a key. `None` where the key does not move it.
pub fn next_picker_highlight(current: Option<usize>, len: usize, key: &str) -> (r: Option<usize>)
    requires
        can_step(current, len, key@),
    ensures
        is_position(r, stepped(current, len, key@)),
{
    if len == 0 {
        return None;
    }
    if same_text(key, "down") {
        match current {
            Some(i) => Some((i + 1) % len),
            None => Some(0),
        }
    } else if same_text(key, "up") {
        match current {
            Some(i) => Some((i + len - 1) % len),
            None => Some(len - 1),
        }
    } else {
        None
    }
}

/// Where the cursor of the picker goes on a key: `home` and `end` go to the ends.
pub open spec fn picker_stepped(current: Option<usize>, len: usize, key: Seq<char>) -> Option<int> {
    if key == "home"@ && len > 0 {
        Some(0)
    } else if key == "end"@ && len > 0 {
        Some(len - 1)
    } else {
        stepped(current, len, key)
    }
}

/// Where the cursor of the picker goes on a key. `None` where the key does not move it.
pub fn next_model_picker_highlight(current: Option<usize>, len: usize, key: &str) -> (r: Option<
    usize,
>)
    requires
        can_step(current, len, key@),
    ensures
        is_position(r, picker_stepped(current, len, key@)),
{
    if len > 0 && same_text(key, "home") {
        Some(0)
    } else if len > 0 && same_text(key, "end") {
        Some(len - 1)
    } else {
        next_picker_highlight(current, len, key)
    }
}

/// The height of the picker's list, in tenths of a pixel: that of its rows, up to a limit.
pub open spec fn list_height(row_count: nat, row_height: nat) -> nat {
    if row_count * row_height < 2600 {
        row_count * row_height
    } else {
        2600
    }
}

/// The height of the picker's list, given that of a row, in tenths of a pixel.
pub fn model_picker_list_height(row_count: usize, row_height: u32) -> (r: u32)
    ensures
        r == list_height(row_count as nat, row_height as nat),
{
    assert(row_count * row_height <= u64::MAX * u32::MAX) by (nonlinear_arith)
        requires
            row_count <= u64::MAX,
            row_height <= u32::MAX,
    ;
    let height: u128 = (row_count as u128) * (row_height as u128);
    if height < 2600 {
        height as u32
    } else {
        2600
    }
}

// ---------------------------------------------------------------------------
// Laws
// ---------------------------------------------------------------------------
/// The cursor stays on a row of the list.
pub proof fn cursor_stays_in_list(current: Option<usize>, len: usize, key: Seq<char>)
    ensures
        picker_stepped(current, len, key) is Some ==> 0 <= picker_stepped(current, len, key)->0
            < len,
{
    if len > 0 {
        if let Some(i) = current {
            vstd::arithmetic::div_mod::lemma_mod_bound(i + 1, len as int);
            vstd::arithmetic::div_mod::lemma_mod_bound(i + len - 1, len as int);
        }
    }
}

/// `up` brings the cursor back from where `down` took it, and the other way round.
pub proof fn up_undoes_down(i: usize, len: usize)
    requires
        i < len,
    ensures
        0 <= stepped(Some(i), len, "down"@)->0 < len,
        stepped(Some(stepped(Some(i), len, "down"@)->0 as usize), len, "up"@) == Some(i as int),
        0 <= stepped(Some(i), len, "up"@)->0 < len,
        stepped(Some(stepped(Some(i), len, "up"@)->0 as usize), len, "down"@) == Some(i as int),
{
    reveal_strlit("up");
    reveal_strlit("down");
    assert("up"@.len() == 2 && "down"@.len() == 4);
    let n = len as int;
    let i = i as int;
    if i + 1 < n {
        assert((i + 1) % n == i + 1) by {
            vstd::arithmetic::div_mod::lemma_small_mod((i + 1) as nat, n as nat);
        }
        wraps(i, n);
    } else {
        wraps(0, n);
        vstd::arithmetic::div_mod::lemma_small_mod((n - 1) as nat, n as nat);
    }
    if i > 0 {
        wraps(i - 1, n);
        vstd::arithmetic::div_mod::lemma_small_mod(i as nat, n as nat);
    } else {
        vstd::arithmetic::div_mod::lemma_small_mod((n - 1) as nat, n as nat);
        wraps(0, n);
    }
}

proof fn wraps(k: int, n: int)
    requires
        0 <= k < n,
    ensures
        (k + n) % n == k,
{
    vstd::arithmetic::div_mod::lemma_small_mod(k as nat, n as nat);
    vstd::arithmetic::div_mod::lemma_mod_add_multiples_vanish(k, n);
}

/// A provider whose models are not known puts up those that the user listed for it, and none where it is
/// built in: its default is never put up in their place.
pub proof fn no_model_is_made_up(presets: Seq<ProviderView>, provider: ProviderView)
    ensures
        offered_ids(presets, provider, None) == (if lists_provider(presets, provider.id) {
            Seq::<Seq<char>>::empty()
        } else {
            provider.models
        }),
{
}

/// What is known of a provider's models decides, even where it is that there are none: what the user
/// listed is not shown beside it.
pub proof fn known_models_decide(
    presets: Seq<ProviderView>,
    provider: ProviderView,
    catalog: ModelCatalog,
)
    ensures
        offered_ids(presets, provider, Some(catalog)) == Seq::new(
            catalog.models@.len(),
            |i: int| catalog.models@[i].id@,
        ),
{
}

/// A search goes over every provider: the one that the session is bound to makes no difference to it,
/// nor does the tab.
pub proof fn search_ignores_lock_and_tab(
    presets: Seq<ProviderView>,
    providers: Seq<ProviderView>,
    catalogs: Map<Seq<char>, ModelCatalog>,
    favorites: Seq<FavoriteModel>,
    locked: Option<Seq<char>>,
    tab: ModelPickerTab,
    query: Seq<char>,
)
    requires
        query.len() > 0,
    ensures
        visible_models(presets, providers, catalogs, favorites, locked, tab, query)
            == visible_models(
            presets,
            providers,
            catalogs,
            favorites,
            None,
            ModelPickerTab::All,
            query,
        ),
    decreases providers.len(),
{
    if providers.len() > 0 {
        let p = providers.last();
        search_ignores_lock_and_tab(
            presets,
            providers.drop_last(),
            catalogs,
            favorites,
            locked,
            tab,
            query,
        );
        search_ignores_tab(
            favorites,
            tab,
            query,
            p,
            offered_ids(presets, p, catalog_of(catalogs, p.id)),
        );
    }
}

proof fn search_ignores_tab(
    favorites: Seq<FavoriteModel>,
    tab: ModelPickerTab,
    query: Seq<char>,
    provider: ProviderView,
    ids: Seq<Seq<char>>,
)
    requires
        query.len() > 0,
    ensures
        shown_of(favorites, tab, query, provider, ids) == shown_of(
            favorites,
            ModelPickerTab::All,
            query,
            provider,
            ids,
        ),
    decreases ids.len(),
{
    if ids.len() > 0 {
        search_ignores_tab(favorites, tab, query, provider, ids.drop_last());
    }
}

/// The models of a list, each with its provider.
pub open spec fn model_names(models: Seq<PickerModelView>) -> Seq<(Seq<char>, Seq<char>)> {
    Seq::new(models.len(), |i: int| (models[i].provider, models[i].id))
}

proof fn found_ignores_favorites(
    favorites: Seq<FavoriteModel>,
    others: Seq<FavoriteModel>,
    tab: ModelPickerTab,
    query: Seq<char>,
    provider: ProviderView,
    ids: Seq<Seq<char>>,
)
    requires
        query.len() > 0,
    ensures
        model_names(shown_of(favorites, tab, query, provider, ids)) == model_names(
            shown_of(others, tab, query, provider, ids),
        ),
    decreases ids.len(),
{
    if ids.len() > 0 {
        found_ignores_favorites(favorites, others, tab, query, provider, ids.drop_last());
        let a = shown_of(favorites, tab, query, provider, ids.drop_last());
        let b = shown_of(others, tab, query, provider, ids.drop_last());
        assert(model_names(a).len() == model_names(b).len());
        assert forall|i: int| 0 <= i < a.len() implies a[i].provider == b[i].provider && a[i].id
            == b[i].id by {
            assert(model_names(a)[i] == model_names(b)[i]);
        }
    }
    assert(model_names(shown_of(favorites, tab, query, provider, ids)) =~= model_names(
        shown_of(others, tab, query, provider, ids),
    ));
}

/// What a search finds does not depend on what the user marked.
pub proof fn search_ignores_favorites(
    presets: Seq<ProviderView>,
    providers: Seq<ProviderView>,
    catalogs: Map<Seq<char>, ModelCatalog>,
    favorites: Seq<FavoriteModel>,
    others: Seq<FavoriteModel>,
    locked: Option<Seq<char>>,
    tab: ModelPickerTab,
    query: Seq<char>,
)
    requires
        query.len() > 0,
    ensures
        model_names(visible_models(presets, providers, catalogs, favorites, locked, tab, query))
            == model_names(
            visible_models(presets, providers, catalogs, others, locked, tab, query),
        ),
    decreases providers.len(),
{
    if providers.len() > 0 {
        let p = providers.last();
        let head = providers.drop_last();
        let ids = offered_ids(presets, p, catalog_of(catalogs, p.id));
        search_ignores_favorites(
            presets,
            head,
            catalogs,
            favorites,
            others,
            locked,
            tab,
            query,
        );
        found_ignores_favorites(favorites, others, tab, query, p, ids);
        let a = shown(presets, head, catalogs, favorites, locked, tab, query);
        let b = shown(presets, head, catalogs, others, locked, tab, query);
        let c = shown_of(favorites, tab, query, p, ids);
        let d = shown_of(others, tab, query, p, ids);
        assert(model_names(a + c) =~= model_names(a) + model_names(c));
        assert(model_names(b + d) =~= model_names(b) + model_names(d));
    }
}

proof fn insert_by_place_is_in_place(s: Seq<PickerModelView>, m: PickerModelView)
    requires
        forall|i: int, j: int| 0 <= i < j < s.len() ==> (#[trigger] s[i]).rank <= (#[trigger] s[j]).rank,
    ensures
        insert_by_place(s, m).len() == s.len() + 1,
        forall|i: int, j: int|
            0 <= i < j < s.len() + 1 ==> (#[trigger] insert_by_place(s, m)[i]).rank <= (
            #[trigger] insert_by_place(s, m)[j]).rank,
        forall|i: int|
            0 <= i < s.len() + 1 ==> (#[trigger] insert_by_place(s, m)[i]).rank <= (if s.len() > 0
                && s.last().rank > m.rank {
                s.last().rank
            } else {
                m.rank
            }),
    decreases s.len(),
{
    if s.len() > 0 && s.last().rank > m.rank {
        insert_by_place_is_in_place(s.drop_last(), m);
    }
}

/// The models that the user marked come in the order of the marks.
pub proof fn favorites_come_in_order(s: Seq<PickerModelView>)
    ensures
        by_place(s).len() == s.len(),
        forall|i: int, j: int|
            0 <= i < j < s.len() ==> (#[trigger] by_place(s)[i]).rank <= (
            #[trigger] by_place(s)[j]).rank,
    decreases s.len(),
{
    if s.len() > 0 {
        favorites_come_in_order(s.drop_last());
        insert_by_place_is_in_place(by_place(s.drop_last()), s.last());
    }
}

/// The picker's list is never higher than its limit, and one with more rows is not lower.
pub proof fn list_height_is_capped(fewer: nat, more: nat, row_height: nat)
    requires
        fewer <= more,
    ensures
        list_height(fewer, row_height) <= list_height(more, row_height) <= 2600,
{
    assert(fewer * row_height <= more * row_height) by (nonlinear_arith)
        requires
            fewer <= more,
    ;
}

} // verus!
