//! The picker of models at work: what it shows while it is open, what is chosen in it, and how the choice
//! follows what the providers offer.
use crate::composer::branches::PickerFocus;
use crate::composer::picker::{
    catalog_supports_model, choice_view, composer_needs_configure_first, picker_provider_endpoints,
    picker_providers, suggested_picker_selection, suggestion, supports, PickerChoice,
};
use crate::composer::picker_rows::{
    cached_model_picker_rows, can_step, is_position, labeled_model_picker_rows, model_views,
    next_model_picker_highlight, picker_rows, picker_stepped, row_views, visible_models,
    visible_picker_models, CacheKeyView, FavoriteModel, ModelPickerListRow, ModelPickerRowsCache,
    ModelPickerRowsCacheInputs, ModelPickerTab, PickerModel, PickerModelView, RowView, TabView,
};
use crate::composer::workspace::shown_task;
use crate::key_map::KeyMap;
use crate::label::{Label, LabelView};
use crate::providers::{
    catalog_of, deref, pair_views, provider_views, ExternalProvider, ModelCatalog, ProviderView,
};
use crate::runtime::options::{
    endpoint_name, model_display_name, model_for_session, session_model,
};
use crate::runtime::state::Waku;
use crate::session::{find_session, AgentSession};
use crate::text::{
    ascii_lowered, copy_opt_text, opt_view, same_opt_text, same_text, str_view, to_ascii_lower, trim,
    trimmed,
};
use std::rc::Rc;
use vstd::prelude::*;

verus! {

/// The picker of models.
#[derive(Debug)]
pub struct ModelPicker {
    pub rows: ModelPickerRowsCache,
    /// The provider and the model of each row that was laid out last.
    pub laid_out: Vec<(String, String)>,
    /// Where the keyboard's cursor is.
    pub highlight: Option<usize>,
    pub catalog_generation: u64,
    pub auth_generation: u64,
    pub favorite_generation: u64,
    pub favorites: Vec<FavoriteModel>,
    pub tab: ModelPickerTab,
    /// What was chosen last.
    pub last_provider: String,
    pub last_model: Option<String>,
}

// ---------------------------------------------------------------------------
// The rows
// ---------------------------------------------------------------------------
impl ModelPicker {
    /// Notes that what is known of the providers' models has changed.
    pub fn bump_catalog_generation(&mut self)
        ensures
            *final(self) == (ModelPicker {
                catalog_generation: old(self).catalog_generation.wrapping_add(1),
                ..*old(self)
            }),
    {
        self.catalog_generation = self.catalog_generation.wrapping_add(1);
    }

    /// Notes that what is known of the user's accounts has changed.
    pub fn bump_auth_generation(&mut self)
        ensures
            *final(self) == (ModelPicker {
                auth_generation: old(self).auth_generation.wrapping_add(1),
                ..*old(self)
            }),
    {
        self.auth_generation = self.auth_generation.wrapping_add(1);
    }

    fn cache_inputs(
        &self,
        locked_provider: &Option<String>,
        query: &String,
        selected: &Option<PickerChoice>,
    ) -> (r: ModelPickerRowsCacheInputs)
        ensures
            r@ == rows_key(*self, opt_view(*locked_provider), query@, choice_view(*selected)),
    {
        ModelPickerRowsCacheInputs {
            catalog_generation: self.catalog_generation,
            auth_generation: self.auth_generation,
            favorite_generation: self.favorite_generation,
            locked_provider: copy_opt_text(locked_provider),
            selected_tab: ModelPickerTab::All,
            query: query.clone(),
            selected: match selected {
                Some(choice) => Some(
                    PickerChoice {
                        provider: choice.provider.clone(),
                        model: copy_opt_text(&choice.model),
                    },
                ),
                None => None,
            },
        }
    }

    /// The rows of the picker, made anew only where what they are made from has changed.
    pub fn model_picker_rows_cached(
        &mut self,
        presets: &[ExternalProvider],
        providers: &[ExternalProvider],
        catalogs: &KeyMap<String, ModelCatalog>,
        locked_provider: &Option<String>,
        query: &String,
        selected: &Option<PickerChoice>,
    ) -> (r: Rc<Vec<ModelPickerListRow>>)
        ensures
            *final(self) == (ModelPicker { rows: final(self).rows, ..*old(self) }),
            r == final(self).rows.rows,
            ({
                let key = rows_key(
                    *old(self),
                    opt_view(*locked_provider),
                    query@,
                    choice_view(*selected),
                );
                &&& holds_key(final(self).rows, key)
                &&& if holds_key(old(self).rows, key) {
                    final(self).rows == old(self).rows
                } else {
                    row_views(r@) == picker_rows(
                        provider_views(presets@),
                        provider_views(providers@),
                        catalogs@,
                        old(self).favorites@,
                        opt_view(*locked_provider),
                        ModelPickerTab::All,
                        query@,
                        choice_view(*selected),
                    )
                }
            }),
    {
        let inputs = self.cache_inputs(locked_provider, query, selected);
        let favorites = &self.favorites;
        let tab = ModelPickerTab::All;
        let build = || -> (rows: Vec<ModelPickerListRow>)
            ensures
                row_views(rows@) == picker_rows(
                    provider_views(presets@),
                    provider_views(providers@),
                    catalogs@,
                    favorites@,
                    opt_view(*locked_provider),
                    tab,
                    query@,
                    choice_view(*selected),
                ),
            {
                labeled_model_picker_rows(
                    presets,
                    providers,
                    catalogs,
                    favorites.as_slice(),
                    locked_provider,
                    &tab,
                    query.as_str(),
                    selected,
                )
            };
        cached_model_picker_rows(&mut self.rows, &inputs, build)
    }

    /// Tells whether the rows have to be laid out anew: they are for other models than last time. They
    /// are laid out from then on.
    pub fn sync_model_picker_rows(&mut self, rows: &Vec<ModelPickerListRow>) -> (r: bool)
        ensures
            *final(self) == (ModelPicker { laid_out: final(self).laid_out, ..*old(self) }),
            pair_views(final(self).laid_out@) == row_ids(rows@),
            r == (pair_views(old(self).laid_out@) != row_ids(rows@)),
    {
        let same = self.rows_are_laid_out(rows);
        if same {
            return false;
        }
        let mut ids: Vec<(String, String)> = Vec::new();
        for i in 0..rows.len()
            invariant
                ids@.len() == i,
                forall|k: int|
                    0 <= k < i ==> (#[trigger] ids@[k]).0 == rows@[k].provider && ids@[k].1
                        == rows@[k].model_id,
        {
            ids.push((rows[i].provider.clone(), rows[i].model_id.clone()));
        }
        assert(pair_views(ids@) =~= row_ids(rows@));
        self.laid_out = ids;
        true
    }

    fn rows_are_laid_out(&self, rows: &Vec<ModelPickerListRow>) -> (r: bool)
        ensures
            r == (pair_views(self.laid_out@) == row_ids(rows@)),
    {
        let ghost a = pair_views(self.laid_out@);
        let ghost b = row_ids(rows@);
        if self.laid_out.len() != rows.len() {
            assert(a.len() != b.len());
            return false;
        }
        for i in 0..rows.len()
            invariant
                a == pair_views(self.laid_out@),
                b == row_ids(rows@),
                a.len() == b.len(),
                forall|k: int| 0 <= k < i ==> a[k] == b[k],
        {
            assert(a[i as int] == (self.laid_out@[i as int].0@, self.laid_out@[i as int].1@));
            if !same_text(self.laid_out[i].0.as_str(), rows[i].provider.as_str()) || !same_text(
                self.laid_out[i].1.as_str(),
                rows[i].model_id.as_str(),
            ) {
                assert(a[i as int] != b[i as int]);
                return false;
            }
        }
        assert(a =~= b);
        true
    }

    /// Moves the keyboard's cursor, and gives the row that it is on then. `None` where the key does not
    /// move it.
    pub fn move_model_picker_highlight(&mut self, key: &str, len: usize) -> (r: Option<usize>)
        requires
            can_step(old(self).highlight, len, key@),
        ensures
            *final(self) == (ModelPicker { highlight: final(self).highlight, ..*old(self) }),
            is_position(r, picker_stepped(old(self).highlight, len, key@)),
            final(self).highlight == (if r is Some {
                r
            } else {
                old(self).highlight
            }),
    {
        let next = next_model_picker_highlight(self.highlight, len, key);
        if let Some(at) = next {
            self.highlight = Some(at);
        }
        next
    }

    /// What is chosen with the row that the keyboard's cursor is on, or with the first: nothing, where
    /// there is no such row or its model cannot be used.
    pub fn confirm_model_picker_selection(&self, rows: &Vec<ModelPickerListRow>) -> (r: Option<
        (String, String),
    >)
        ensures
            r == ({
                let at = match self.highlight {
                    Some(i) => i as int,
                    None => 0,
                };
                if at < rows@.len() && rows@[at].supported {
                    Some((rows@[at].provider, rows@[at].model_id))
                } else {
                    None
                }
            }),
    {
        let at: usize = match self.highlight {
            Some(i) => i,
            None => 0,
        };
        if at < rows.len() && rows[at].supported {
            Some((rows[at].provider.clone(), rows[at].model_id.clone()))
        } else {
            None
        }
    }
}

/// What the rows of the picker are made from.
pub open spec fn rows_key(
    picker: ModelPicker,
    locked: Option<Seq<char>>,
    query: Seq<char>,
    selected: Option<(Seq<char>, Option<Seq<char>>)>,
) -> CacheKeyView {
    CacheKeyView {
        catalog_generation: picker.catalog_generation,
        auth_generation: picker.auth_generation,
        favorite_generation: picker.favorite_generation,
        query,
        locked,
        tab: TabView::All,
        selected,
    }
}

/// Tells whether rows are kept that were made from this.
pub open spec fn holds_key(cache: ModelPickerRowsCache, key: CacheKeyView) -> bool {
    cache.key is Some && cache.key->0@ == key
}

/// The provider and the model of each row.
pub open spec fn row_ids(rows: Seq<ModelPickerListRow>) -> Seq<(Seq<char>, Seq<char>)> {
    Seq::new(rows.len(), |i: int| (rows[i].provider@, rows[i].model_id@))
}

// ---------------------------------------------------------------------------
// The control
// ---------------------------------------------------------------------------
/// What the picker shows in place of rows.
pub open spec fn empty_label(searching: bool, pending: bool) -> LabelView {
    LabelView::Message(
        if searching {
            "models.none_found"@
        } else if pending {
            "models.catalog_loading"@
        } else {
            "models.favorite_hint"@
        },
    )
}

/// The control that opens the picker, and the picker where it is open.
#[derive(Debug)]
pub struct ModelControl {
    /// The provider of the task that is shown, or the first on offer.
    pub provider: String,
    pub label: String,
    /// The rows, where the picker is open.
    pub rows: Rc<Vec<ModelPickerListRow>>,
    /// What stands in place of rows.
    pub empty: Label,
    /// The row that the keyboard's cursor is on.
    pub highlight: Option<usize>,
    /// The rows have to be laid out anew.
    pub relayout: bool,
}

/// What a picker searches for: what was typed, without white space around it and in small letters.
pub open spec fn search_of(text: Seq<char>) -> Seq<char> {
    ascii_lowered(trimmed(text))
}

/// The provider of a task that is bound to it: one in which something has been said.
pub open spec fn locked_to(session: Option<AgentSession>) -> Option<Seq<char>> {
    if session is Some && session->0.messages@.len() > 0 {
        Some(session->0.provider@)
    } else {
        None
    }
}

/// The provider of the task that is shown, or the first on offer.
pub open spec fn control_provider(session: Option<AgentSession>, providers: Seq<ProviderView>) -> Seq<char> {
    match session {
        Some(s) => s.provider@,
        None => providers[0].id,
    }
}

/// The model of the task that is shown, where it can be used.
pub open spec fn control_model(
    session: Option<AgentSession>,
    catalogs: Map<Seq<char>, ModelCatalog>,
) -> Option<Seq<char>> {
    match session {
        Some(s) => session_model(s.provider@, opt_view(s.model), catalogs),
        None => None,
    }
}

/// What the control says.
pub open spec fn control_label(
    presets: Seq<ProviderView>,
    customs: Seq<ProviderView>,
    provider: Seq<char>,
    model: Option<Seq<char>>,
) -> Seq<char> {
    let name = endpoint_name(presets, customs, provider);
    if model is Some && trimmed(model->0).len() > 0 {
        name + " · "@ + model->0
    } else {
        name
    }
}

/// The rows that the open picker holds, where they are made anew.
pub open spec fn open_rows(
    waku: Waku,
    favorites: Seq<FavoriteModel>,
    session: Option<AgentSession>,
    search: Seq<char>,
) -> Seq<RowView> {
    let presets = provider_views(waku.presets@);
    let providers = picker_providers(
        presets,
        provider_views(waku.external_providers@),
        waku.auth_statuses@,
    );
    picker_rows(
        presets,
        providers,
        waku.model_catalogs@,
        favorites,
        locked_to(session),
        ModelPickerTab::All,
        search_of(search),
        Some(
            (
                control_provider(session, providers),
                control_model(session, waku.model_catalogs@),
            ),
        ),
    )
}

/// What the rows of the open picker are made from.
pub open spec fn open_key(
    waku: Waku,
    picker: ModelPicker,
    session: Option<AgentSession>,
    search: Seq<char>,
) -> CacheKeyView {
    let providers = picker_providers(
        provider_views(waku.presets@),
        provider_views(waku.external_providers@),
        waku.auth_statuses@,
    );
    rows_key(
        picker,
        locked_to(session),
        search_of(search),
        Some(
            (
                control_provider(session, providers),
                control_model(session, waku.model_catalogs@),
            ),
        ),
    )
}

/// The control that opens the picker. `None` where no provider is set up: that comes first. `open` is set
/// where the picker is open, `pending` where models are still asked for.
pub fn render_provider_model_control(
    waku: &Waku,
    picker: &mut ModelPicker,
    session: Option<&AgentSession>,
    search: &str,
    open: bool,
    pending: bool,
) -> (r: Option<ModelControl>)
    ensures
        ({
            let presets = provider_views(waku.presets@);
            let customs = provider_views(waku.external_providers@);
            let providers = picker_providers(presets, customs, waku.auth_statuses@);
            let provider = control_provider(deref(session), providers);
            if providers.len() == 0 {
                &&& r is None
                &&& *final(picker) == *old(picker)
            } else {
                &&& r is Some
                &&& r->0.provider@ == provider
                &&& r->0.label@ == control_label(
                    presets,
                    customs,
                    provider,
                    control_model(deref(session), waku.model_catalogs@),
                )
                &&& r->0.empty@ == empty_label(search_of(search@).len() > 0, pending)
                &&& r->0.highlight == (if old(picker).highlight is Some && old(picker).highlight->0
                    < r->0.rows@.len() {
                    old(picker).highlight
                } else {
                    None
                })
                &&& if open {
                    &&& *final(picker) == (ModelPicker {
                        rows: final(picker).rows,
                        laid_out: final(picker).laid_out,
                        ..*old(picker)
                    })
                    &&& r->0.rows == final(picker).rows.rows
                    &&& if holds_key(
                        old(picker).rows,
                        open_key(*waku, *old(picker), deref(session), search@),
                    ) {
                        final(picker).rows == old(picker).rows
                    } else {
                        row_views(r->0.rows@) == open_rows(
                            *waku,
                            old(picker).favorites@,
                            deref(session),
                            search@,
                        )
                    }
                    &&& pair_views(final(picker).laid_out@) == row_ids(r->0.rows@)
                    &&& r->0.relayout == (pair_views(old(picker).laid_out@) != row_ids(
                        r->0.rows@,
                    ))
                } else {
                    &&& *final(picker) == *old(picker)
                    &&& r->0.rows@.len() == 0
                    &&& !r->0.relayout
                }
            }
        }),
{
    let presets = waku.presets.as_slice();
    let customs = waku.external_providers.as_slice();
    let providers = picker_provider_endpoints(presets, customs, &waku.auth_statuses);
    assert(provider_views(providers@).len() == providers@.len());
    if composer_needs_configure_first(providers.as_slice()) {
        return None;
    }
    assert(provider_views(providers@)[0].id == providers@[0].id@);
    let provider = match session {
        Some(s) => s.provider.clone(),
        None => providers[0].id.clone(),
    };
    let model = match session {
        Some(s) => match model_for_session(s, &waku.model_catalogs) {
            Some(m) => Some(m.to_string()),
            None => None,
        },
        None => None,
    };
    let model_text = match &model {
        Some(m) => Some(m.as_str()),
        None => None,
    };
    let label = model_display_name(presets, customs, provider.as_str(), model_text);
    let query = to_ascii_lower(trim(search).as_str());
    let searching = !query.as_str().is_empty();
    let (rows, relayout) = if open {
        let locked = match session {
            Some(s) => if s.messages.len() > 0 {
                Some(s.provider.clone())
            } else {
                None
            },
            None => None,
        };
        let selected = Some(PickerChoice { provider: provider.clone(), model });
        let rows = picker.model_picker_rows_cached(
            presets,
            providers.as_slice(),
            &waku.model_catalogs,
            &locked,
            &query,
            &selected,
        );
        let relayout = picker.sync_model_picker_rows(&rows);
        (rows, relayout)
    } else {
        (Rc::new(Vec::new()), false)
    };
    let highlight: Option<usize> = match picker.highlight {
        Some(at) => if at < rows.len() {
            Some(at)
        } else {
            None
        },
        None => None,
    };
    let empty = Label::Message(
        if searching {
            "models.none_found"
        } else if pending {
            "models.catalog_loading"
        } else {
            "models.favorite_hint"
        },
    );
    Some(ModelControl { provider, label, rows, empty, highlight, relayout })
}

/// Where the model of a task stands among those that are shown, from `i` on; the first, where it is not.
pub open spec fn chosen_row(
    models: Seq<PickerModelView>,
    provider: Seq<char>,
    model: Option<Seq<char>>,
    i: int,
) -> int
    decreases models.len() - i,
{
    if i < 0 || i >= models.len() {
        0
    } else if models[i].provider == provider && model == Some(models[i].id) {
        i
    } else {
        chosen_row(models, provider, model, i + 1)
    }
}

fn find_chosen_row(models: &Vec<PickerModel>, provider: &str, model: Option<&str>) -> (r: usize)
    ensures
        r == chosen_row(model_views(models@), provider@, str_view(model), 0),
{
    let ghost all = model_views(models@);
    let mut i: usize = 0;
    while i < models.len()
        invariant
            i <= models@.len(),
            all == model_views(models@),
            chosen_row(all, provider@, str_view(model), 0) == chosen_row(
                all,
                provider@,
                str_view(model),
                i as int,
            ),
        decreases models@.len() - i,
    {
        assert(all[i as int] == models@[i as int]@);
        let same_model = match model {
            Some(m) => same_text(m, models[i].id.as_str()),
            None => false,
        };
        if same_text(models[i].provider.as_str(), provider) && same_model {
            return i;
        }
        i = i + 1;
    }
    0
}

/// The row to be in sight when the picker opens: that of the model of a task, or the first.
pub open spec fn revealed_row(waku: Waku, picker: ModelPicker, session: AgentSession) -> usize {
    let presets = provider_views(waku.presets@);
    let models = visible_models(
        presets,
        picker_providers(presets, provider_views(waku.external_providers@), waku.auth_statuses@),
        waku.model_catalogs@,
        picker.favorites@,
        Some(session.provider@),
        ModelPickerTab::All,
        Seq::empty(),
    );
    chosen_row(
        models,
        session.provider@,
        session_model(session.provider@, opt_view(session.model), waku.model_catalogs@),
        0,
    ) as usize
}

/// The row to be in sight when the picker opens: that of the model of the task that is shown. `None` where no
/// task is shown.
pub fn reveal_selected_picker_model(waku: &Waku, picker: &ModelPicker) -> (r: Option<usize>)
    ensures
        r == (match shown_task(*waku) {
            Some(task) => Some(revealed_row(*waku, *picker, task)),
            None => None,
        }),
{
    let session: &AgentSession = match waku.selected_session() {
        Some(s) => s,
        None => return None,
    };
    let presets = waku.presets.as_slice();
    let providers = picker_provider_endpoints(
        presets,
        waku.external_providers.as_slice(),
        &waku.auth_statuses,
    );
    let locked = Some(session.provider.clone());
    let tab = ModelPickerTab::All;
    let query = String::new();
    assert(query@ =~= Seq::<char>::empty());
    let models = visible_picker_models(
        presets,
        providers.as_slice(),
        &waku.model_catalogs,
        picker.favorites.as_slice(),
        &locked,
        &tab,
        query.as_str(),
    );
    let row: usize = find_chosen_row(
        &models,
        session.provider.as_str(),
        model_for_session(session, &waku.model_catalogs),
    );
    Some(row)
}

/// What is done when the picker of models opens or closes.
#[derive(Clone, Copy, Debug, PartialEq, Eq, Structural)]
pub struct ModelPickerOpened {
    pub focus: PickerFocus,
    /// The row that is brought into sight.
    pub reveal: Option<usize>,
}

/// Opens or closes the picker of models. When it opens, nothing is pointed at, the field for a search is
/// empty, and the model of the task that is shown is in sight.
pub fn toggle_model_picker(waku: &Waku, picker: &mut ModelPicker, open: bool, search: &mut String) -> (r:
    ModelPickerOpened)
    ensures
        *final(picker) == (ModelPicker {
            highlight: if open {
                None
            } else {
                old(picker).highlight
            },
            ..*old(picker)
        }),
        final(search)@ == (if open {
            Seq::empty()
        } else {
            old(search)@
        }),
        r == (if open {
            ModelPickerOpened {
                focus: PickerFocus::Search,
                reveal: match shown_task(*waku) {
                    Some(task) => Some(revealed_row(*waku, *old(picker), task)),
                    None => None,
                },
            }
        } else {
            ModelPickerOpened { focus: PickerFocus::Composer, reveal: None }
        }),
{
    if open {
        picker.highlight = None;
        *search = String::new();
        let reveal: Option<usize> = reveal_selected_picker_model(waku, picker);
        ModelPickerOpened { focus: PickerFocus::Search, reveal }
    } else {
        ModelPickerOpened { focus: PickerFocus::Composer, reveal: None }
    }
}

// ---------------------------------------------------------------------------
// Following what is offered
// ---------------------------------------------------------------------------
/// What is done so that the choice follows what the providers offer.
#[derive(Debug)]
pub enum ReconcileAction {
    /// Nothing.
    Nothing,
    /// The task that is shown gets this model.
    Choose { provider: String, model: String },
    /// What was chosen last has changed, and is saved.
    SaveLast,
    /// The model of the task that is shown was dropped. That is saved.
    SaveDropped,
}

/// The choice of the task that is shown.
pub open spec fn shown_choice(waku: Waku) -> Option<(Seq<char>, Option<Seq<char>>)> {
    if waku.tasks.selected_session is Some && waku.tasks.lists(waku.tasks.selected_session->0) {
        let task = waku.tasks.task(waku.tasks.selected_session->0);
        Some((task.provider@, opt_view(task.model)))
    } else {
        None
    }
}

/// What the picker suggests now.
pub open spec fn current_suggestion(waku: Waku, picker: ModelPicker) -> Option<
    (Seq<char>, Seq<char>),
> {
    suggestion(
        shown_choice(waku),
        picker.last_provider@,
        opt_view(picker.last_model),
        picker_providers(
            provider_views(waku.presets@),
            provider_views(waku.external_providers@),
            waku.auth_statuses@,
        ),
        waku.model_catalogs@,
    )
}

/// Tells whether the task that is shown has a model that its provider does not list or that cannot be
/// used.
pub open spec fn has_incompatible_model(waku: Waku) -> bool {
    shown_choice(waku) is Some && (shown_choice(waku)->0).1 is Some && !supports(
        catalog_of(waku.model_catalogs@, (shown_choice(waku)->0).0),
        (shown_choice(waku)->0).1->0,
    )
}

/// Tells whether the model of the task that is shown was dropped.
pub open spec fn model_dropped(
    before: Waku,
    after: Waku,
    picker: ModelPicker,
    picker_after: ModelPicker,
) -> bool {
    let id = before.tasks.selected_session->0;
    let task = before.tasks.task(id);
    &&& after == (Waku { tasks: after.tasks, ..before })
    &&& before.tasks.with_task(id, AgentSession { model: None, ..task }, after.tasks)
    &&& picker_after == (ModelPicker {
        last_model: if picker.last_provider@ == task.provider@ && opt_view(picker.last_model)
            == opt_view(task.model) {
            None
        } else {
            picker.last_model
        },
        ..picker
    })
}

/// Drops the model of the task that is shown, where its provider does not list it or it cannot be used,
/// and tells whether it did.
pub fn drop_incompatible_session_model(waku: &mut Waku, picker: &mut ModelPicker) -> (r: bool)
    ensures
        r == has_incompatible_model(*old(waku)),
        if r {
            model_dropped(*old(waku), *final(waku), *old(picker), *final(picker))
        } else {
            *final(waku) == *old(waku) && *final(picker) == *old(picker)
        },
{
    let id: u128 = match waku.tasks.selected_session {
        Some(id) => id,
        None => return false,
    };
    let place: usize = find_session(&waku.tasks.sessions, id);
    if place >= waku.tasks.sessions.len() {
        return false;
    }
    let unusable = match &waku.tasks.sessions[place].model {
        Some(model) => !catalog_supports_model(
            waku.model_catalogs.get(&waku.tasks.sessions[place].provider),
            model.as_str(),
        ),
        None => false,
    };
    if !unusable {
        return false;
    }
    let was_last = same_text(
        picker.last_provider.as_str(),
        waku.tasks.sessions[place].provider.as_str(),
    ) && same_opt_text(&picker.last_model, &waku.tasks.sessions[place].model);
    let ghost tasks = waku.tasks.sessions@;
    let mut session = waku.tasks.sessions.remove(place);
    session.model = None;
    waku.tasks.sessions.insert(place, session);
    assert(waku.tasks.sessions@ =~= tasks.update(place as int, session));
    if was_last {
        picker.last_model = None;
    }
    true
}

/// Tells whether the choice was made to follow what the providers offer, as it should be.
pub open spec fn reconciled(
    before: Waku,
    after: Waku,
    picker: ModelPicker,
    picker_after: ModelPicker,
    r: ReconcileAction,
) -> bool {
    let providers = picker_providers(
        provider_views(before.presets@),
        provider_views(before.external_providers@),
        before.auth_statuses@,
    );
    if providers.len() == 0 {
        r is Nothing && after == before && picker_after == picker
    } else {
        match current_suggestion(before, picker) {
            Some((provider, model)) => {
                &&& after == before
                &&& if shown_choice(before) is Some {
                    &&& r is Choose
                    &&& r->provider@ == provider
                    &&& r->model@ == model
                    &&& picker_after == picker
                } else {
                    &&& r is SaveLast
                    &&& picker_after == (ModelPicker {
                        last_provider: picker_after.last_provider,
                        last_model: picker_after.last_model,
                        tab: picker_after.tab,
                        ..picker
                    })
                    &&& picker_after.last_provider@ == provider
                    &&& opt_view(picker_after.last_model) == Some(model)
                    &&& picker_after.tab is Provider
                    &&& picker_after.tab->Provider_0@ == provider
                }
            },
            None => if has_incompatible_model(before) {
                r is SaveDropped && model_dropped(before, after, picker, picker_after)
            } else {
                r is Nothing && after == before && picker_after == picker
            },
        }
    }
}

fn choice_of_shown(waku: &Waku) -> (r: Option<PickerChoice>)
    ensures
        choice_view(r) == shown_choice(*waku),
{
    match waku.selected_session() {
        Some(session) => Some(
            PickerChoice {
                provider: session.provider.clone(),
                model: copy_opt_text(&session.model),
            },
        ),
        None => None,
    }
}

/// Makes the choice follow what the providers offer: the task that is shown gets what the picker
/// suggests; without a task, what was chosen last does. Where nothing is suggested, a model that cannot
/// be used is dropped.
pub fn reconcile_composer_provider_selection(waku: &mut Waku, picker: &mut ModelPicker) -> (r:
    ReconcileAction)
    ensures
        reconciled(*old(waku), *final(waku), *old(picker), *final(picker), r),
{
    let providers = picker_provider_endpoints(
        waku.presets.as_slice(),
        waku.external_providers.as_slice(),
        &waku.auth_statuses,
    );
    assert(provider_views(providers@).len() == providers@.len());
    if providers.len() == 0 {
        return ReconcileAction::Nothing;
    }
    let selected = choice_of_shown(waku);
    let suggested = suggested_picker_selection(
        &selected,
        &picker.last_provider,
        &picker.last_model,
        providers.as_slice(),
        &waku.model_catalogs,
    );
    match suggested {
        Some((provider, model)) => {
            if selected.is_some() {
                ReconcileAction::Choose { provider, model }
            } else {
                picker.last_provider = provider.clone();
                picker.last_model = Some(model);
                picker.tab = ModelPickerTab::Provider(provider);
                ReconcileAction::SaveLast
            }
        },
        None => if drop_incompatible_session_model(waku, picker) {
            ReconcileAction::SaveDropped
        } else {
            ReconcileAction::Nothing
        },
    }
}

} // verus!
