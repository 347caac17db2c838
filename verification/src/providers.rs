//! Providers of models, what is known of their models, and whether the user is signed in to them.
use crate::key_map::MapKey;
use crate::text::{copy_opt_text, copy_texts, opt_view, same_text, views};
use vstd::prelude::*;

verus! {

impl MapKey for String {
    type Id = Seq<char>;

    open spec fn id(&self) -> Seq<char> {
        self@
    }

    fn same_key(&self, other: &Self) -> (r: bool) {
        same_text(self.as_str(), other.as_str())
    }
}

/// The value behind an optional reference.
pub open spec fn deref<T>(o: Option<&T>) -> Option<T> {
    match o {
        Some(v) => Some(*v),
        None => None,
    }
}

/// A provider of models.
#[derive(Debug)]
pub struct ExternalProvider {
    pub id: String,
    pub name: String,
    pub base_url: String,
    /// The protocol that the provider speaks, by its name.
    pub api_format: String,
    /// The variable of the environment that holds the key.
    pub api_key_env: Option<String>,
    /// What goes with each request, by name.
    pub headers: Vec<(String, String)>,
    /// The models that the user listed.
    pub models: Vec<String>,
    pub default_model: String,
    pub context_window: u64,
    pub max_output_tokens: u64,
}

/// The contents of a provider.
pub ghost struct ProviderView {
    pub id: Seq<char>,
    pub name: Seq<char>,
    pub base_url: Seq<char>,
    pub api_format: Seq<char>,
    pub api_key_env: Option<Seq<char>>,
    pub headers: Seq<(Seq<char>, Seq<char>)>,
    pub models: Seq<Seq<char>>,
    pub default_model: Seq<char>,
    pub context_window: u64,
    pub max_output_tokens: u64,
}

/// The contents of some pairs of texts.
pub open spec fn pair_views(list: Seq<(String, String)>) -> Seq<(Seq<char>, Seq<char>)> {
    Seq::new(list.len(), |i: int| (list[i].0@, list[i].1@))
}

fn copy_pairs(list: &Vec<(String, String)>) -> (r: Vec<(String, String)>)
    ensures
        pair_views(r@) == pair_views(list@),
{
    let mut r: Vec<(String, String)> = Vec::new();
    for i in 0..list.len()
        invariant
            r@.len() == i,
            forall|k: int| 0 <= k < i ==> #[trigger] r@[k] == list@[k],
    {
        r.push((list[i].0.clone(), list[i].1.clone()));
    }
    assert(pair_views(r@) =~= pair_views(list@));
    r
}

impl View for ExternalProvider {
    type V = ProviderView;

    open spec fn view(&self) -> ProviderView {
        ProviderView {
            id: self.id@,
            name: self.name@,
            base_url: self.base_url@,
            api_format: self.api_format@,
            api_key_env: opt_view(self.api_key_env),
            headers: pair_views(self.headers@),
            models: views(self.models@),
            default_model: self.default_model@,
            context_window: self.context_window,
            max_output_tokens: self.max_output_tokens,
        }
    }
}

impl Clone for ExternalProvider {
    fn clone(&self) -> (r: Self)
        ensures
            r@ == self@,
    {
        ExternalProvider {
            id: self.id.clone(),
            name: self.name.clone(),
            base_url: self.base_url.clone(),
            api_format: self.api_format.clone(),
            api_key_env: copy_opt_text(&self.api_key_env),
            headers: copy_pairs(&self.headers),
            models: copy_texts(&self.models),
            default_model: self.default_model.clone(),
            context_window: self.context_window,
            max_output_tokens: self.max_output_tokens,
        }
    }
}

/// The contents of a list of providers.
pub open spec fn provider_views(list: Seq<ExternalProvider>) -> Seq<ProviderView> {
    Seq::new(list.len(), |i: int| list[i]@)
}

/// Where what is known of a provider's models comes from.
#[derive(Clone, Copy, Debug, PartialEq, Eq, Structural)]
pub enum CatalogSource {
    Live,
    Cache,
    Seed,
}

/// What can be asked of a model.
#[derive(Clone, Copy, Debug, PartialEq, Eq, Structural)]
pub struct ModelCapabilities {
    pub service_tier: bool,
    pub reasoning_effort: bool,
}

/// An effort that a model can be asked for.
#[derive(Debug)]
pub struct ReasoningEffortOption {
    pub id: String,
    /// What the provider calls it.
    pub provider_value: String,
    pub label: String,
}

/// A model of a provider.
#[derive(Debug)]
pub struct ModelCatalogEntry {
    pub id: String,
    pub name: String,
    pub reasoning_efforts: Vec<ReasoningEffortOption>,
    pub default_reasoning_effort: Option<String>,
    pub capabilities: ModelCapabilities,
    pub supported: bool,
    /// Why the model cannot be used, in a word.
    pub unsupported_reason: Option<String>,
}

/// The models of a provider.
#[derive(Debug)]
pub struct ModelCatalog {
    pub provider: String,
    pub source: CatalogSource,
    pub models: Vec<ModelCatalogEntry>,
}

/// Whether the user is signed in to a provider.
#[derive(Debug)]
pub struct ProviderAuthStatus {
    pub provider: String,
    /// How the user is signed in, in a word.
    pub method: String,
    pub connected: bool,
    pub email: Option<String>,
    pub relogin_required: bool,
}

/// The models that are known of a provider, if any are.
pub open spec fn catalog_of(catalogs: Map<Seq<char>, ModelCatalog>, id: Seq<char>) -> Option<
    ModelCatalog,
> {
    if catalogs.contains_key(id) {
        Some(catalogs[id])
    } else {
        None
    }
}

/// The first model with an id, from `i` on, or the number of models.
pub open spec fn entry_position(models: Seq<ModelCatalogEntry>, id: Seq<char>, i: int) -> int
    decreases models.len() - i,
{
    if i < 0 || i >= models.len() {
        models.len() as int
    } else if models[i].id@ == id {
        i
    } else {
        entry_position(models, id, i + 1)
    }
}

/// The first model with an id, if there is one.
pub open spec fn entry_of(catalog: Option<ModelCatalog>, id: Seq<char>) -> Option<
    ModelCatalogEntry,
> {
    match catalog {
        Some(c) => {
            let at = entry_position(c.models@, id, 0);
            if at < c.models@.len() {
                Some(c.models@[at])
            } else {
                None
            }
        },
        None => None,
    }
}

/// Finds the first model with an id.
pub fn find_entry<'a>(catalog: Option<&'a ModelCatalog>, id: &str) -> (r: Option<
    &'a ModelCatalogEntry,
>)
    ensures
        deref(r) == entry_of(deref(catalog), id@),
{
    let known: &'a ModelCatalog = match catalog {
        Some(c) => c,
        None => return None,
    };
    let mut i: usize = 0;
    while i < known.models.len()
        invariant
            catalog == Some(known),
            i <= known.models@.len(),
            entry_position(known.models@, id@, 0) == entry_position(known.models@, id@, i as int),
        decreases known.models@.len() - i,
    {
        if same_text(known.models[i].id.as_str(), id) {
            return Some(&known.models[i]);
        }
        i = i + 1;
    }
    None
}

/// Tells whether a model with exactly this id is among the models and can be used.
pub open spec fn lists_supported(models: Seq<ModelCatalogEntry>, id: Seq<char>) -> bool {
    exists|i: int| 0 <= i < models.len() && (#[trigger] models[i]).id@ == id && models[i].supported
}

/// Tells whether a model with exactly this id is among the models and can be used.
pub fn has_supported(models: &Vec<ModelCatalogEntry>, id: &str) -> (r: bool)
    ensures
        r == lists_supported(models@, id@),
{
    for i in 0..models.len()
        invariant
            forall|k: int|
                0 <= k < i ==> !((#[trigger] models@[k]).id@ == id@ && models@[k].supported),
    {
        if models[i].supported && same_text(models[i].id.as_str(), id) {
            assert(models@[i as int].id@ == id@);
            return true;
        }
    }
    false
}

/// Where the first provider with an id stands, from `i` on, or the number of providers.
pub open spec fn provider_position(list: Seq<ProviderView>, id: Seq<char>, i: int) -> int
    decreases list.len() - i,
{
    if i < 0 || i >= list.len() {
        list.len() as int
    } else if list[i].id == id {
        i
    } else {
        provider_position(list, id, i + 1)
    }
}

/// Tells whether a provider with an id is in a list.
pub open spec fn lists_provider(list: Seq<ProviderView>, id: Seq<char>) -> bool {
    provider_position(list, id, 0) < list.len()
}

/// Finds the first provider with an id.
pub fn find_provider(list: &[ExternalProvider], id: &str) -> (at: usize)
    ensures
        at == provider_position(provider_views(list@), id@, 0),
        at <= list@.len(),
{
    let mut i: usize = 0;
    while i < list.len()
        invariant
            i <= list@.len(),
            provider_position(provider_views(list@), id@, 0) == provider_position(
                provider_views(list@),
                id@,
                i as int,
            ),
        decreases list@.len() - i,
    {
        assert(provider_views(list@)[i as int].id == list@[i as int].id@);
        if same_text(list[i].id.as_str(), id) {
            return i;
        }
        i = i + 1;
    }
    i
}

/// A provider that is found has the id and is in the list.
pub proof fn provider_position_finds(list: Seq<ProviderView>, id: Seq<char>, i: int)
    requires
        0 <= i <= list.len(),
    ensures
        i <= provider_position(list, id, i) <= list.len(),
        provider_position(list, id, i) < list.len() ==> list[provider_position(
            list,
            id,
            i,
        )].id == id,
    decreases list.len() - i,
{
    if i < list.len() && list[i].id != id {
        provider_position_finds(list, id, i + 1);
    }
}

} // verus!
