//! The user's own providers: editing, saving and deleting them.
use crate::composer::picker_rows::FavoriteModel;
use crate::ids::{is_v4, new_v4, simple, simple_text};
use crate::label::{Label, LabelView};
use crate::providers::{
    find_provider, pair_views, provider_position, provider_position_finds, provider_views,
    ExternalProvider, ProviderView,
};
use crate::session::AgentSession;
use crate::text::{
    ascii_lowered, concat, concat3, contains_text, copy_texts, decimal, decimal_text, first_index,
    is_some_text, join, joined, opt_view, parse_decimal, parsed, parts, same_text, split,
    split_once, to_ascii_lower, trim, trimmed, views,
};
use vstd::prelude::*;

verus! {

// ---------------------------------------------------------------------------
// What was typed
// ---------------------------------------------------------------------------
/// What stands in the fields for a provider.
#[derive(Debug)]
pub struct ProviderDraft {
    pub id: String,
    pub name: String,
    pub base_url: String,
    pub api_key_env: String,
    /// A line for each header, with a colon between its name and its value.
    pub headers: String,
    /// The models, with commas between them.
    pub models: String,
    pub default_model: String,
    pub context_window: String,
    pub max_output_tokens: String,
}

/// Why what was typed cannot be used.
#[derive(Clone, Copy, Debug, PartialEq, Eq, Structural)]
pub enum DraftError {
    DuplicateModels,
    InvalidContextWindow,
    InvalidMaxOutputTokens,
    InvalidHeaderFormat,
    InvalidHeaders,
}

/// The key of what the user is told of what cannot be used.
pub open spec fn draft_error_key(e: DraftError) -> Seq<char> {
    match e {
        DraftError::DuplicateModels => "providers.duplicate_models"@,
        DraftError::InvalidContextWindow => "providers.invalid_context_window"@,
        DraftError::InvalidMaxOutputTokens => "providers.invalid_max_output_tokens"@,
        DraftError::InvalidHeaderFormat => "providers.invalid_header_format"@,
        DraftError::InvalidHeaders => "providers.invalid_headers"@,
    }
}

impl DraftError {
    /// The key of what the user is told of it.
    pub fn key(self) -> (r: &'static str)
        ensures
            r@ == draft_error_key(self),
    {
        match self {
            DraftError::DuplicateModels => "providers.duplicate_models",
            DraftError::InvalidContextWindow => "providers.invalid_context_window",
            DraftError::InvalidMaxOutputTokens => "providers.invalid_max_output_tokens",
            DraftError::InvalidHeaderFormat => "providers.invalid_header_format",
            DraftError::InvalidHeaders => "providers.invalid_headers",
        }
    }
}

/// Those of some texts that hold more than white space, without the white space around them.
pub open spec fn filled(list: Seq<Seq<char>>) -> Seq<Seq<char>>
    decreases list.len(),
{
    if list.len() == 0 {
        Seq::empty()
    } else {
        let before = filled(list.drop_last());
        if trimmed(list.last()).len() == 0 {
            before
        } else {
            before.push(trimmed(list.last()))
        }
    }
}

fn keep_filled(list: &Vec<String>) -> (r: Vec<String>)
    ensures
        views(r@) == filled(views(list@)),
{
    let ghost all = views(list@);
    let mut r: Vec<String> = Vec::new();
    assert(all.take(0) =~= Seq::empty());
    assert(views(r@) =~= Seq::empty());
    for i in 0..list.len()
        invariant
            all == views(list@),
            views(r@) == filled(all.take(i as int)),
    {
        assert(all.take(i as int + 1).drop_last() =~= all.take(i as int));
        assert(all.take(i as int + 1).last() == list@[i as int]@);
        let ghost before = r@;
        let text = trim(list[i].as_str());
        if !text.as_str().is_empty() {
            r.push(text);
            assert(views(r@) =~= views(before).push(text@));
        }
    }
    assert(all.take(all.len() as int) =~= all);
    r
}

/// The models that were typed.
pub open spec fn typed_models(text: Seq<char>) -> Seq<Seq<char>> {
    filled(parts(text, ','))
}

/// Tells whether a text stands in a list twice, capitals or not.
pub open spec fn has_duplicates(list: Seq<Seq<char>>) -> bool {
    exists|i: int, j: int|
        0 <= i < j < list.len() && ascii_lowered(#[trigger] list[i]) == ascii_lowered(
            #[trigger] list[j],
        )
}

fn stands_twice(list: &Vec<String>) -> (r: bool)
    ensures
        r == has_duplicates(views(list@)),
{
    let ghost all = views(list@);
    for j in 0..list.len()
        invariant
            all == views(list@),
            forall|a: int, b: int|
                0 <= a < b < j ==> ascii_lowered(#[trigger] all[a]) != ascii_lowered(
                    #[trigger] all[b],
                ),
    {
        let later = to_ascii_lower(list[j].as_str());
        for i in 0..j
            invariant
                j < list@.len(),
                all == views(list@),
                later@ == ascii_lowered(all[j as int]),
                forall|a: int| 0 <= a < i ==> ascii_lowered(#[trigger] all[a]) != later@,
        {
            let earlier = to_ascii_lower(list[i].as_str());
            if same_text(earlier.as_str(), later.as_str()) {
                assert(ascii_lowered(all[i as int]) == ascii_lowered(all[j as int]));
                return true;
            }
        }
    }
    false
}

// ---------------------------------------------------------------------------
// Headers
// ---------------------------------------------------------------------------
/// The headers that the program sets itself.
pub open spec fn is_reserved(name: Seq<char>) -> bool {
    name == "authorization"@ || name == "x-api-key"@ || name == "host"@ || name
        == "content-length"@ || name == "content-type"@ || name == "anthropic-version"@
}

/// The name of a header in a line.
pub open spec fn header_name(line: Seq<char>) -> Seq<char> {
    trimmed(line.take(first_index(line, ':', 0)))
}

/// The value of a header in a line.
pub open spec fn header_value(line: Seq<char>) -> Seq<char> {
    trimmed(line.skip(first_index(line, ':', 0) + 1))
}

/// Tells whether a header with a name is among some, capitals or not.
pub open spec fn names_header(headers: Seq<(Seq<char>, Seq<char>)>, name: Seq<char>) -> bool {
    exists|i: int|
        0 <= i < headers.len() && ascii_lowered((#[trigger] headers[i]).0) == ascii_lowered(name)
}

/// The headers with that of one more line. A line that holds nothing is passed over.
pub open spec fn with_header(headers: Seq<(Seq<char>, Seq<char>)>, line: Seq<char>) -> Result<
    Seq<(Seq<char>, Seq<char>)>,
    DraftError,
> {
    if trimmed(line).len() == 0 {
        Ok(headers)
    } else if !line.contains(':') {
        Err(DraftError::InvalidHeaderFormat)
    } else if header_name(line).len() == 0 || header_value(line).len() == 0 || names_header(
        headers,
        header_name(line),
    ) || is_reserved(ascii_lowered(header_name(line))) {
        Err(DraftError::InvalidHeaders)
    } else {
        Ok(headers.push((header_name(line), header_value(line))))
    }
}

/// The headers of some lines. The first line that cannot be used decides.
pub open spec fn headers_of(lines: Seq<Seq<char>>) -> Result<
    Seq<(Seq<char>, Seq<char>)>,
    DraftError,
>
    decreases lines.len(),
{
    if lines.len() == 0 {
        Ok(Seq::empty())
    } else {
        match headers_of(lines.drop_last()) {
            Ok(headers) => with_header(headers, lines.last()),
            Err(e) => Err(e),
        }
    }
}

/// The headers that were typed.
pub open spec fn typed_headers(text: Seq<char>) -> Result<Seq<(Seq<char>, Seq<char>)>, DraftError> {
    headers_of(parts(text, '\n'))
}

fn header_is_named(headers: &Vec<(String, String)>, lower: &str) -> (r: bool)
    ensures
        r == exists|i: int|
            0 <= i < headers@.len() && ascii_lowered((#[trigger] pair_views(headers@)[i]).0)
                == lower@,
{
    let ghost all = pair_views(headers@);
    for i in 0..headers.len()
        invariant
            all == pair_views(headers@),
            forall|k: int| 0 <= k < i ==> ascii_lowered((#[trigger] all[k]).0) != lower@,
    {
        let name = to_ascii_lower(headers[i].0.as_str());
        assert(all[i as int].0 == headers@[i as int].0@);
        if same_text(name.as_str(), lower) {
            return true;
        }
    }
    false
}

fn reserved_name(lower: &str) -> (r: bool)
    ensures
        r == is_reserved(lower@),
{
    same_text(lower, "authorization") || same_text(lower, "x-api-key") || same_text(lower, "host")
        || same_text(lower, "content-length") || same_text(lower, "content-type") || same_text(
        lower,
        "anthropic-version",
    )
}

fn add_header(headers: &mut Vec<(String, String)>, line: &str) -> (r: Result<(), DraftError>)
    ensures
        match with_header(pair_views(old(headers)@), line@) {
            Ok(all) => r is Ok && pair_views(final(headers)@) == all,
            Err(e) => r == Err::<(), DraftError>(e),
        },
{
    if trim(line).as_str().is_empty() {
        return Ok(());
    }
    let (left, right) = match split_once(line, ':') {
        Some(sides) => sides,
        None => return Err(DraftError::InvalidHeaderFormat),
    };
    let name = trim(left.as_str());
    let value = trim(right.as_str());
    let lower = to_ascii_lower(name.as_str());
    if name.as_str().is_empty() || value.as_str().is_empty() || header_is_named(
        headers,
        lower.as_str(),
    ) || reserved_name(lower.as_str()) {
        return Err(DraftError::InvalidHeaders);
    }
    let ghost before = headers@;
    headers.push((name, value));
    assert(pair_views(headers@) =~= pair_views(before).push((name@, value@)));
    Ok(())
}

fn read_headers(text: &str) -> (r: Result<Vec<(String, String)>, DraftError>)
    ensures
        match r {
            Ok(headers) => typed_headers(text@) == Ok::<Seq<(Seq<char>, Seq<char>)>, DraftError>(
                pair_views(headers@),
            ),
            Err(e) => typed_headers(text@) == Err::<Seq<(Seq<char>, Seq<char>)>, DraftError>(e),
        },
{
    let lines = split(text, '\n');
    let ghost all = views(lines@);
    let mut headers: Vec<(String, String)> = Vec::new();
    assert(all.take(0) =~= Seq::empty());
    assert(pair_views(headers@) =~= Seq::empty());
    for i in 0..lines.len()
        invariant
            all == views(lines@),
            all == parts(text@, '\n'),
            headers_of(all.take(i as int)) == Ok::<Seq<(Seq<char>, Seq<char>)>, DraftError>(
                pair_views(headers@),
            ),
    {
        assert(all.take(i as int + 1).drop_last() =~= all.take(i as int));
        assert(all.take(i as int + 1).last() == lines@[i as int]@);
        match add_header(&mut headers, lines[i].as_str()) {
            Ok(()) => {},
            Err(e) => {
                proof {
                    errors_stay(all, i as int + 1, e);
                }
                return Err(e);
            },
        }
    }
    assert(all.take(all.len() as int) =~= all);
    Ok(headers)
}

proof fn errors_stay(lines: Seq<Seq<char>>, n: int, e: DraftError)
    requires
        0 <= n <= lines.len(),
        headers_of(lines.take(n)) == Err::<Seq<(Seq<char>, Seq<char>)>, DraftError>(e),
    ensures
        headers_of(lines) == Err::<Seq<(Seq<char>, Seq<char>)>, DraftError>(e),
    decreases lines.len(),
{
    if n == lines.len() {
        assert(lines.take(n) =~= lines);
    } else {
        assert(lines.drop_last().take(n) =~= lines.take(n));
        errors_stay(lines.drop_last(), n, e);
    }
}

// ---------------------------------------------------------------------------
// The provider
// ---------------------------------------------------------------------------
/// The provider that was typed, or why it cannot be used. The first reason decides.
pub open spec fn drafted(d: ProviderDraft, api_format: Seq<char>) -> Result<ProviderView, DraftError> {
    let models = typed_models(d.models@);
    let context = parsed(trimmed(d.context_window@), u64::MAX as nat);
    let output = parsed(trimmed(d.max_output_tokens@), u64::MAX as nat);
    if has_duplicates(models) {
        Err(DraftError::DuplicateModels)
    } else if context is None {
        Err(DraftError::InvalidContextWindow)
    } else if output is None {
        Err(DraftError::InvalidMaxOutputTokens)
    } else {
        match typed_headers(d.headers@) {
            Err(e) => Err(e),
            Ok(headers) => Ok(
                ProviderView {
                    id: trimmed(d.id@),
                    name: trimmed(d.name@),
                    base_url: trimmed(d.base_url@),
                    api_format,
                    api_key_env: if trimmed(d.api_key_env@).len() > 0 {
                        Some(trimmed(d.api_key_env@))
                    } else {
                        None
                    },
                    headers,
                    models,
                    default_model: trimmed(d.default_model@),
                    context_window: context->0 as u64,
                    max_output_tokens: output->0 as u64,
                },
            ),
        }
    }
}

/// The provider that was typed, or why it cannot be used. `api_format` is the protocol that was chosen.
pub fn parse_provider_draft_policy(d: &ProviderDraft, api_format: &str) -> (r: Result<
    ExternalProvider,
    DraftError,
>)
    ensures
        match r {
            Ok(p) => drafted(*d, api_format@) == Ok::<ProviderView, DraftError>(p@),
            Err(e) => drafted(*d, api_format@) == Err::<ProviderView, DraftError>(e),
        },
{
    let models = keep_filled(&split(d.models.as_str(), ','));
    if stands_twice(&models) {
        return Err(DraftError::DuplicateModels);
    }
    let context_window: u64 = match parse_decimal(
        trim(d.context_window.as_str()).as_str(),
        u64::MAX,
    ) {
        Some(n) => n,
        None => return Err(DraftError::InvalidContextWindow),
    };
    let max_output_tokens: u64 = match parse_decimal(
        trim(d.max_output_tokens.as_str()).as_str(),
        u64::MAX,
    ) {
        Some(n) => n,
        None => return Err(DraftError::InvalidMaxOutputTokens),
    };
    let headers = match read_headers(d.headers.as_str()) {
        Ok(headers) => headers,
        Err(e) => return Err(e),
    };
    let env = trim(d.api_key_env.as_str());
    let api_key_env = if env.as_str().is_empty() {
        None
    } else {
        Some(env)
    };
    Ok(
        ExternalProvider {
            id: trim(d.id.as_str()),
            name: trim(d.name.as_str()),
            base_url: trim(d.base_url.as_str()),
            api_format: api_format.to_string(),
            api_key_env,
            headers,
            models,
            default_model: trim(d.default_model.as_str()),
            context_window,
            max_output_tokens,
        },
    )
}

/// What the daemon's rules say of a provider that was typed.
#[derive(Debug)]
pub struct ProviderChecks {
    /// Why the provider is not one, as it was typed.
    pub draft_error: Option<String>,
    /// Its id is one.
    pub id_valid: bool,
    /// The id of the provider that is edited is one.
    pub editing_valid: bool,
    /// Why the provider is not one, in the end.
    pub provider_error: Option<String>,
}

/// Why a provider is not saved.
#[derive(Debug)]
pub enum SaveError {
    Draft(DraftError),
    /// The daemon's rules refuse it, for this reason.
    Rejected(String),
    InvalidConfiguration,
    DuplicateId,
}

/// What the user is told of a provider that is not saved.
pub open spec fn save_error_label(e: SaveError) -> LabelView {
    match e {
        SaveError::Draft(d) => LabelView::Message(draft_error_key(d)),
        SaveError::Rejected(text) => LabelView::Plain(text@),
        SaveError::InvalidConfiguration => LabelView::Message("providers.invalid_configuration"@),
        SaveError::DuplicateId => LabelView::Message("providers.duplicate_id"@),
    }
}

impl SaveError {
    /// What the user is told of it.
    pub fn label(&self) -> (r: Label)
        ensures
            r@ == save_error_label(*self),
    {
        match self {
            SaveError::Draft(d) => Label::Message(d.key()),
            SaveError::Rejected(text) => Label::Plain(text.clone()),
            SaveError::InvalidConfiguration => Label::Message("providers.invalid_configuration"),
            SaveError::DuplicateId => Label::Message("providers.duplicate_id"),
        }
    }
}

/// The providers of the user, and the one that is being edited.
#[derive(Debug)]
pub struct ProviderSettings {
    pub providers: Vec<ExternalProvider>,
    pub last_provider: String,
    /// The provider whose fields are shown.
    pub expanded: Option<String>,
    /// The protocol that is chosen in the fields.
    pub api_format: String,
}

/// Tells whether a provider is complete, and is the one that is edited.
pub open spec fn is_complete(p: ProviderView, editing: Seq<char>, checks: ProviderChecks) -> bool {
    &&& checks.id_valid
    &&& checks.editing_valid ==> p.id == editing
    &&& p.name.len() > 0
    &&& p.base_url.len() > 0
    &&& p.models.len() > 0
    &&& p.models.contains(p.default_model)
}

/// Tells whether another provider than the one that is edited has an id.
pub open spec fn taken_by_another(list: Seq<ProviderView>, id: Seq<char>, editing: Seq<char>) -> bool {
    id != editing && exists|i: int| 0 <= i < list.len() && (#[trigger] list[i]).id == id
}

/// Why a provider is not saved, if it is not.
pub open spec fn save_refusal(
    list: Seq<ProviderView>,
    p: ProviderView,
    editing: Seq<char>,
    checks: ProviderChecks,
) -> Option<LabelView> {
    if checks.draft_error is Some {
        Some(LabelView::Plain(checks.draft_error->0@))
    } else if !is_complete(p, editing, checks) {
        Some(LabelView::Message("providers.invalid_configuration"@))
    } else if checks.provider_error is Some {
        Some(LabelView::Plain(checks.provider_error->0@))
    } else if taken_by_another(list, p.id, editing) {
        Some(LabelView::Message("providers.duplicate_id"@))
    } else {
        None
    }
}

/// The providers with one that was saved: in the place of the one that was edited, else at the end.
pub open spec fn saved(list: Seq<ProviderView>, editing: Seq<char>, p: ProviderView) -> Seq<
    ProviderView,
> {
    let at = provider_position(list, editing, 0);
    if at < list.len() {
        list.update(at, p)
    } else {
        list.push(p)
    }
}

/// Tells whether what was typed was saved, or was not for the right reason.
pub open spec fn save_done(
    before: ProviderSettings,
    after: ProviderSettings,
    editing: Seq<char>,
    d: ProviderDraft,
    checks: ProviderChecks,
    r: Result<(), SaveError>,
) -> bool {
    let list = provider_views(before.providers@);
    match drafted(d, before.api_format@) {
        Err(e) => r is Err && save_error_label(r->Err_0) == LabelView::Message(draft_error_key(e))
            && after == before,
        Ok(p) => match save_refusal(list, p, editing, checks) {
            Some(why) => r is Err && save_error_label(r->Err_0) == why && after == before,
            None => {
                &&& r is Ok
                &&& provider_views(after.providers@) == saved(list, editing, p)
                &&& opt_view(after.expanded) == Some(p.id)
                &&& after.last_provider@ == (if before.last_provider@.len() == 0
                    || before.last_provider@ == editing {
                    p.id
                } else {
                    before.last_provider@
                })
                &&& after.api_format == before.api_format
            },
        },
    }
}

fn id_is_taken(list: &Vec<ExternalProvider>, id: &str, editing: &str) -> (r: bool)
    ensures
        r == taken_by_another(provider_views(list@), id@, editing@),
{
    if same_text(id, editing) {
        return false;
    }
    let ghost all = provider_views(list@);
    for i in 0..list.len()
        invariant
            all == provider_views(list@),
            id@ != editing@,
            forall|k: int| 0 <= k < i ==> (#[trigger] all[k]).id != id@,
    {
        assert(all[i as int].id == list@[i as int].id@);
        if same_text(list[i].id.as_str(), id) {
            return true;
        }
    }
    false
}

impl ProviderSettings {
    /// Saves what was typed for a provider, or says why not. `checks` is what the daemon's rules say.
    pub fn save_provider(&mut self, editing: &str, d: &ProviderDraft, checks: &ProviderChecks) -> (r:
        Result<(), SaveError>)
        ensures
            save_done(*old(self), *final(self), editing@, *d, *checks, r),
    {
        let provider = match parse_provider_draft_policy(d, self.api_format.as_str()) {
            Ok(p) => p,
            Err(e) => return Err(SaveError::Draft(e)),
        };
        if let Some(text) = &checks.draft_error {
            return Err(SaveError::Rejected(text.clone()));
        }
        let ghost p = provider@;
        let complete = checks.id_valid && (!checks.editing_valid || same_text(
            provider.id.as_str(),
            editing,
        )) && !provider.name.as_str().is_empty() && !provider.base_url.as_str().is_empty()
            && provider.models.len() > 0 && contains_text(
            provider.models.as_slice(),
            provider.default_model.as_str(),
        );
        assert(views(provider.models@).len() == provider.models@.len());
        if !complete {
            return Err(SaveError::InvalidConfiguration);
        }
        if let Some(text) = &checks.provider_error {
            return Err(SaveError::Rejected(text.clone()));
        }
        if id_is_taken(&self.providers, provider.id.as_str(), editing) {
            return Err(SaveError::DuplicateId);
        }
        let id = provider.id.clone();
        let ghost list = provider_views(self.providers@);
        let at: usize = find_provider(self.providers.as_slice(), editing);
        if at < self.providers.len() {
            self.providers.set(at, provider);
            assert(provider_views(self.providers@) =~= list.update(at as int, p));
        } else {
            self.providers.push(provider);
            assert(provider_views(self.providers@) =~= list.push(p));
        }
        self.expanded = Some(id.clone());
        if self.last_provider.as_str().is_empty() || same_text(
            self.last_provider.as_str(),
            editing,
        ) {
            self.last_provider = id;
        }
        Ok(())
    }

    /// Deletes a provider, or tells that it is in use: as the one chosen last, in a task, or as a mark.
    pub fn delete_provider(
        &mut self,
        id: &str,
        sessions: &Vec<AgentSession>,
        favorites: &Vec<FavoriteModel>,
    ) -> (r: bool)
        ensures
            r == !in_use(old(self).last_provider@, sessions@, favorites@, id@),
            if r {
                &&& provider_views(final(self).providers@) == without_provider(
                    provider_views(old(self).providers@),
                    id@,
                )
                &&& final(self).expanded == (if opt_view(old(self).expanded) == Some(id@) {
                    None
                } else {
                    old(self).expanded
                })
                &&& final(self).last_provider == old(self).last_provider
                &&& final(self).api_format == old(self).api_format
            } else {
                *final(self) == *old(self)
            },
    {
        if same_text(self.last_provider.as_str(), id) || task_uses(sessions, id) || mark_uses(
            favorites,
            id,
        ) {
            return false;
        }
        let ghost items = self.providers@;
        let ghost all = provider_views(items);
        let mut list: Vec<ExternalProvider> = Vec::new();
        std::mem::swap(&mut list, &mut self.providers);
        let mut rest: Vec<ExternalProvider> = Vec::new();
        assert(all.take(0) =~= Seq::empty());
        assert(provider_views(rest@) =~= Seq::empty());
        for p in it: list.into_iter()
            invariant
                it.seq() == items,
                all == provider_views(items),
                provider_views(rest@) == without_provider(all.take(it.index()), id@),
        {
            assert(all.take(it.index() + 1).drop_last() =~= all.take(it.index()));
            assert(all.take(it.index() + 1).last() == p@);
            let ghost before = rest@;
            if !same_text(p.id.as_str(), id) {
                rest.push(p);
                assert(provider_views(rest@) =~= provider_views(before).push(p@));
            }
        }
        assert(all.take(all.len() as int) =~= all);
        self.providers = rest;
        if is_some_text(&self.expanded, id) {
            self.expanded = None;
        }
        true
    }
}

/// The providers without those with an id.
pub open spec fn without_provider(list: Seq<ProviderView>, id: Seq<char>) -> Seq<ProviderView>
    decreases list.len(),
{
    if list.len() == 0 {
        list
    } else if list.last().id == id {
        without_provider(list.drop_last(), id)
    } else {
        without_provider(list.drop_last(), id).push(list.last())
    }
}

/// Tells whether a provider is in use: as the one chosen last, in a task, or as a mark.
pub open spec fn in_use(
    last: Seq<char>,
    sessions: Seq<AgentSession>,
    favorites: Seq<FavoriteModel>,
    id: Seq<char>,
) -> bool {
    ||| last == id
    ||| exists|i: int| 0 <= i < sessions.len() && (#[trigger] sessions[i]).provider@ == id
    ||| exists|i: int| 0 <= i < favorites.len() && (#[trigger] favorites[i]).provider@ == id
}

fn task_uses(sessions: &Vec<AgentSession>, id: &str) -> (r: bool)
    ensures
        r == exists|i: int|
            0 <= i < sessions@.len() && (#[trigger] sessions@[i]).provider@ == id@,
{
    for i in 0..sessions.len()
        invariant
            forall|k: int| 0 <= k < i ==> (#[trigger] sessions@[k]).provider@ != id@,
    {
        if same_text(sessions[i].provider.as_str(), id) {
            assert(sessions@[i as int].provider@ == id@);
            return true;
        }
    }
    false
}

fn mark_uses(favorites: &Vec<FavoriteModel>, id: &str) -> (r: bool)
    ensures
        r == exists|i: int|
            0 <= i < favorites@.len() && (#[trigger] favorites@[i]).provider@ == id@,
{
    for i in 0..favorites.len()
        invariant
            forall|k: int| 0 <= k < i ==> (#[trigger] favorites@[k]).provider@ != id@,
    {
        if same_text(favorites[i].provider.as_str(), id) {
            assert(favorites@[i as int].provider@ == id@);
            return true;
        }
    }
    false
}

// ---------------------------------------------------------------------------
// The fields
// ---------------------------------------------------------------------------
/// The contents of the fields for a provider.
pub ghost struct DraftView {
    pub id: Seq<char>,
    pub name: Seq<char>,
    pub base_url: Seq<char>,
    pub api_key_env: Seq<char>,
    pub headers: Seq<char>,
    pub models: Seq<char>,
    pub default_model: Seq<char>,
    pub context_window: Seq<char>,
    pub max_output_tokens: Seq<char>,
}

impl View for ProviderDraft {
    type V = DraftView;

    open spec fn view(&self) -> DraftView {
        DraftView {
            id: self.id@,
            name: self.name@,
            base_url: self.base_url@,
            api_key_env: self.api_key_env@,
            headers: self.headers@,
            models: self.models@,
            default_model: self.default_model@,
            context_window: self.context_window@,
            max_output_tokens: self.max_output_tokens@,
        }
    }
}

/// The lines for some headers.
pub open spec fn header_lines(headers: Seq<(Seq<char>, Seq<char>)>) -> Seq<Seq<char>> {
    Seq::new(headers.len(), |i: int| headers[i].0 + ": "@ + headers[i].1)
}

/// What the fields hold of a provider; those of a new one hold its id and some numbers.
pub open spec fn fields_of(id: Seq<char>, existing: Option<ProviderView>) -> DraftView {
    match existing {
        Some(p) => DraftView {
            id: p.id,
            name: p.name,
            base_url: p.base_url,
            api_key_env: match p.api_key_env {
                Some(env) => env,
                None => Seq::empty(),
            },
            headers: joined(header_lines(p.headers), "\n"@),
            models: joined(
                if p.models.len() == 0 {
                    seq![p.default_model]
                } else {
                    p.models
                },
                ", "@,
            ),
            default_model: p.default_model,
            context_window: decimal(p.context_window as nat),
            max_output_tokens: decimal(p.max_output_tokens as nat),
        },
        None => DraftView {
            id,
            name: Seq::empty(),
            base_url: Seq::empty(),
            api_key_env: Seq::empty(),
            headers: Seq::empty(),
            models: Seq::empty(),
            default_model: Seq::empty(),
            context_window: "128000"@,
            max_output_tokens: "16384"@,
        },
    }
}

/// The provider with an id, if there is one.
pub open spec fn provider_with(list: Seq<ProviderView>, id: Seq<char>) -> Option<ProviderView> {
    let at = provider_position(list, id, 0);
    if at < list.len() {
        Some(list[at])
    } else {
        None
    }
}

fn nothing() -> (r: String)
    ensures
        r@ == Seq::<char>::empty(),
{
    let r = String::new();
    assert(r@ =~= Seq::<char>::empty());
    r
}

fn fill_fields(p: &ExternalProvider) -> (r: ProviderDraft)
    ensures
        r@ == fields_of(p@.id, Some(p@)),
{
    let mut lines: Vec<String> = Vec::new();
    for i in 0..p.headers.len()
        invariant
            lines@.len() == i,
            forall|k: int|
                0 <= k < i ==> (#[trigger] lines@[k])@ == p.headers@[k].0@ + ": "@ + p.headers@[k].1@,
    {
        lines.push(concat3(p.headers[i].0.as_str(), ": ", p.headers[i].1.as_str()));
    }
    assert(views(lines@) =~= header_lines(p@.headers));
    let models = if p.models.len() == 0 {
        let only = vec![p.default_model.clone()];
        assert(views(only@) =~= seq![p@.default_model]);
        only
    } else {
        copy_texts(&p.models)
    };
    assert(p@.models.len() == p.models@.len());
    ProviderDraft {
        id: p.id.clone(),
        name: p.name.clone(),
        base_url: p.base_url.clone(),
        api_key_env: match &p.api_key_env {
            Some(env) => env.clone(),
            None => nothing(),
        },
        headers: join(lines.as_slice(), "\n"),
        models: join(models.as_slice(), ", "),
        default_model: p.default_model.clone(),
        context_window: decimal_text(p.context_window),
        max_output_tokens: decimal_text(p.max_output_tokens),
    }
}

impl ProviderDraft {
    /// Fields that hold nothing.
    pub fn empty() -> (r: Self)
        ensures
            r@ == (DraftView {
                context_window: Seq::empty(),
                max_output_tokens: Seq::empty(),
                ..fields_of(Seq::empty(), None)
            }),
    {
        ProviderDraft {
            id: nothing(),
            name: nothing(),
            base_url: nothing(),
            api_key_env: nothing(),
            headers: nothing(),
            models: nothing(),
            default_model: nothing(),
            context_window: nothing(),
            max_output_tokens: nothing(),
        }
    }
}

impl ProviderSettings {
    /// Opens the fields for a provider. `default_format` is the protocol of a new one.
    pub fn open_provider_form(&mut self, id: &String, default_format: &str) -> (r: ProviderDraft)
        ensures
            final(self).providers == old(self).providers,
            final(self).last_provider == old(self).last_provider,
            final(self).expanded == Some(*id),
            ({
                let existing = provider_with(provider_views(old(self).providers@), id@);
                &&& final(self).api_format@ == (match existing {
                    Some(p) => p.api_format,
                    None => default_format@,
                })
                &&& r@ == fields_of(id@, existing)
            }),
    {
        self.expanded = Some(id.clone());
        let at: usize = find_provider(self.providers.as_slice(), id.as_str());
        if at < self.providers.len() {
            proof {
                assert(provider_views(self.providers@)[at as int] == self.providers@[at as int]@);
                provider_position_finds(provider_views(self.providers@), id@, 0);
            }
            self.api_format = self.providers[at].api_format.clone();
            fill_fields(&self.providers[at])
        } else {
            self.api_format = default_format.to_string();
            ProviderDraft {
                id: id.clone(),
                name: nothing(),
                base_url: nothing(),
                api_key_env: nothing(),
                headers: nothing(),
                models: nothing(),
                default_model: nothing(),
                context_window: "128000".to_string(),
                max_output_tokens: "16384".to_string(),
            }
        }
    }

    /// Opens the fields for a provider, or for a new one, whose id is made up.
    pub fn begin_provider_edit(&mut self, provider: &Option<String>, default_format: &str) -> (r:
        ProviderDraft)
        ensures
            final(self).providers == old(self).providers,
            final(self).last_provider == old(self).last_provider,
            final(self).expanded is Some,
            ({
                let id = final(self).expanded->0@;
                let existing = provider_with(provider_views(old(self).providers@), id);
                &&& match *provider {
                    Some(p) => id == p@,
                    None => exists|n: u128| #[trigger] is_v4(n) && id == "provider-"@ + simple(n),
                }
                &&& final(self).api_format@ == (match existing {
                    Some(p) => p.api_format,
                    None => default_format@,
                })
                &&& r@ == fields_of(id, existing)
            }),
    {
        let id = match provider {
            Some(p) => p.clone(),
            None => {
                let n: u128 = new_v4();
                let id = concat("provider-", simple_text(n).as_str());
                assert(is_v4(n) && id@ == "provider-"@ + simple(n));
                id
            },
        };
        self.open_provider_form(&id, default_format)
    }

    /// Closes the fields.
    pub fn cancel_provider_edit(&mut self) -> (r: ProviderDraft)
        ensures
            *final(self) == (ProviderSettings { expanded: None, ..*old(self) }),
            r@ == (DraftView {
                context_window: Seq::empty(),
                max_output_tokens: Seq::empty(),
                ..fields_of(Seq::empty(), None)
            }),
    {
        self.expanded = None;
        ProviderDraft::empty()
    }

    /// Goes on to the next protocol of a list, round its end.
    pub fn next_api_format(&mut self, formats: &Vec<String>)
        requires
            formats@.len() > 0,
        ensures
            final(self).providers == old(self).providers,
            final(self).last_provider == old(self).last_provider,
            final(self).expanded == old(self).expanded,
            final(self).api_format@ == next_format(views(formats@), old(self).api_format@),
    {
        let at: usize = position_of(formats, self.api_format.as_str());
        let next: usize = if at < formats.len() - 1 {
            at + 1
        } else if at == formats.len() - 1 {
            0
        } else if formats.len() > 1 {
            1
        } else {
            0
        };
        self.api_format = formats[next].clone();
    }
}

/// Where a text stands in a list, from `i` on, or the length of the list.
pub open spec fn text_position(list: Seq<Seq<char>>, text: Seq<char>, i: int) -> int
    decreases list.len() - i,
{
    if i < 0 || i >= list.len() {
        list.len() as int
    } else if list[i] == text {
        i
    } else {
        text_position(list, text, i + 1)
    }
}

fn position_of(list: &Vec<String>, text: &str) -> (at: usize)
    ensures
        at == text_position(views(list@), text@, 0),
        at <= list@.len(),
{
    let ghost all = views(list@);
    let mut i: usize = 0;
    while i < list.len()
        invariant
            i <= list@.len(),
            all == views(list@),
            text_position(all, text@, 0) == text_position(all, text@, i as int),
        decreases list@.len() - i,
    {
        assert(all[i as int] == list@[i as int]@);
        if same_text(list[i].as_str(), text) {
            return i;
        }
        i = i + 1;
    }
    i
}

/// The protocol behind another one in a list, round its end; one that is not in the list counts as the
/// first.
pub open spec fn next_format(formats: Seq<Seq<char>>, current: Seq<char>) -> Seq<char> {
    let found = text_position(formats, current, 0);
    let at = if found < formats.len() {
        found
    } else {
        0
    };
    if at + 1 < formats.len() {
        formats[at + 1]
    } else {
        formats[0]
    }
}

// ---------------------------------------------------------------------------
// The page
// ---------------------------------------------------------------------------
/// A provider of the user, as it is listed.
#[derive(Debug)]
pub struct ProviderRow {
    pub label: String,
    pub detail: String,
    pub base_url: String,
    pub edit_id: String,
    pub delete_id: String,
    /// Its fields are shown.
    pub editing: bool,
}

/// Tells whether a row is that of a provider.
pub open spec fn is_row(r: ProviderRow, p: ProviderView, expanded: Option<Seq<char>>) -> bool {
    &&& r.label@ == p.name + " · "@ + p.default_model
    &&& r.detail@ == p.id + " · "@ + p.api_format
    &&& r.base_url@ == p.base_url
    &&& r.edit_id@ == "edit-provider-"@ + p.id
    &&& r.delete_id@ == "delete-provider-"@ + p.id
    &&& r.editing == (expanded == Some(p.id))
}

/// A field, as it is shown.
#[derive(Debug)]
pub struct FormField {
    pub id: &'static str,
    /// The key of its name.
    pub label_key: &'static str,
    /// A number behind its name.
    pub count: Option<usize>,
}

/// The contents of a field, as it is shown.
pub ghost struct FormFieldView {
    pub id: Seq<char>,
    pub label_key: Seq<char>,
    pub count: Option<nat>,
}

impl View for FormField {
    type V = FormFieldView;

    open spec fn view(&self) -> FormFieldView {
        FormFieldView {
            id: self.id@,
            label_key: self.label_key@,
            count: match self.count {
                Some(n) => Some(n as nat),
                None => None,
            },
        }
    }
}

/// A field without a number behind its name.
pub open spec fn plain_field(id: Seq<char>, label_key: Seq<char>) -> FormFieldView {
    FormFieldView { id, label_key, count: None }
}

/// The fields for a provider with some models. Only a new one has a field for its id.
pub open spec fn shown_fields(is_new: bool, models: nat) -> Seq<FormFieldView> {
    let rest = seq![
        plain_field("provider-name"@, "providers.name"@),
        plain_field("provider-base-url"@, "providers.base_url"@),
        plain_field("provider-api-key-env"@, "providers.api_key_env"@),
        FormFieldView {
            id: "provider-models"@,
            label_key: "providers.models"@,
            count: Some(models),
        },
        plain_field("provider-default-model"@, "providers.default_model"@),
        plain_field("provider-limits-context"@, "providers.context_window"@),
        plain_field("provider-limits-output"@, "providers.max_output_tokens"@),
        plain_field("provider-headers"@, "providers.headers"@),
    ];
    if is_new {
        seq![plain_field("provider-id"@, "providers.id"@)] + rest
    } else {
        rest
    }
}

/// The contents of some fields.
pub open spec fn field_views(list: Seq<FormField>) -> Seq<FormFieldView> {
    Seq::new(list.len(), |i: int| list[i]@)
}

fn list_fields(is_new: bool, models: usize) -> (r: Vec<FormField>)
    ensures
        field_views(r@) == shown_fields(is_new, models as nat),
{
    let mut r: Vec<FormField> = Vec::new();
    if is_new {
        r.push(FormField { id: "provider-id", label_key: "providers.id", count: None });
    }
    r.push(FormField { id: "provider-name", label_key: "providers.name", count: None });
    r.push(FormField { id: "provider-base-url", label_key: "providers.base_url", count: None });
    r.push(
        FormField { id: "provider-api-key-env", label_key: "providers.api_key_env", count: None },
    );
    r.push(
        FormField { id: "provider-models", label_key: "providers.models", count: Some(models) },
    );
    r.push(
        FormField {
            id: "provider-default-model",
            label_key: "providers.default_model",
            count: None,
        },
    );
    r.push(
        FormField {
            id: "provider-limits-context",
            label_key: "providers.context_window",
            count: None,
        },
    );
    r.push(
        FormField {
            id: "provider-limits-output",
            label_key: "providers.max_output_tokens",
            count: None,
        },
    );
    r.push(FormField { id: "provider-headers", label_key: "providers.headers", count: None });
    assert(field_views(r@) =~= shown_fields(is_new, models as nat));
    r
}

/// The fields of a provider, as they are shown.
#[derive(Debug)]
pub struct ProviderForm {
    /// The id is shown and cannot be changed: the provider is there already.
    pub fixed_id: Option<String>,
    pub fields: Vec<FormField>,
    /// What the button says that goes on to the next protocol.
    pub api_format: String,
}

/// The page for the providers.
#[derive(Debug)]
pub struct ProvidersPage {
    /// The user has none: that is said.
    pub none: bool,
    pub rows: Vec<ProviderRow>,
    pub form: Option<ProviderForm>,
}

/// Tells whether a form is that for the provider with an id.
pub open spec fn is_form(f: ProviderForm, settings: ProviderSettings, id: Seq<char>) -> bool {
    let existing = provider_with(provider_views(settings.providers@), id);
    &&& opt_view(f.fixed_id) == (if existing is Some {
        Some(id)
    } else {
        None
    })
    &&& field_views(f.fields@) == shown_fields(
        existing is None,
        match existing {
            Some(p) => p.models.len(),
            None => 0,
        },
    )
    &&& f.api_format@ == settings.api_format@
}

/// The fields of a provider, as they are shown.
pub fn render_provider_form(settings: &ProviderSettings, id: &str) -> (r: ProviderForm)
    ensures
        is_form(r, *settings, id@),
{
    let at: usize = find_provider(settings.providers.as_slice(), id);
    if at < settings.providers.len() {
        assert(provider_views(settings.providers@)[at as int] == settings.providers@[at as int]@);
        let models: usize = settings.providers[at].models.len();
        ProviderForm {
            fixed_id: Some(id.to_string()),
            fields: list_fields(false, models),
            api_format: settings.api_format.clone(),
        }
    } else {
        ProviderForm {
            fixed_id: None,
            fields: list_fields(true, 0),
            api_format: settings.api_format.clone(),
        }
    }
}

/// The page for the providers.
pub fn render_providers_settings(settings: &ProviderSettings) -> (r: ProvidersPage)
    ensures
        r.none == (settings.providers@.len() == 0),
        r.rows@.len() == settings.providers@.len(),
        forall|i: int|
            0 <= i < settings.providers@.len() ==> is_row(
                #[trigger] r.rows@[i],
                settings.providers@[i]@,
                opt_view(settings.expanded),
            ),
        match settings.expanded {
            Some(id) => r.form is Some && is_form(r.form->0, *settings, id@),
            None => r.form is None,
        },
{
    let mut rows: Vec<ProviderRow> = Vec::new();
    for i in 0..settings.providers.len()
        invariant
            rows@.len() == i,
            forall|k: int|
                0 <= k < i ==> is_row(
                    #[trigger] rows@[k],
                    settings.providers@[k]@,
                    opt_view(settings.expanded),
                ),
    {
        let p = &settings.providers[i];
        rows.push(
            ProviderRow {
                label: concat3(p.name.as_str(), " · ", p.default_model.as_str()),
                detail: concat3(p.id.as_str(), " · ", p.api_format.as_str()),
                base_url: p.base_url.clone(),
                edit_id: concat("edit-provider-", p.id.as_str()),
                delete_id: concat("delete-provider-", p.id.as_str()),
                editing: is_some_text(&settings.expanded, p.id.as_str()),
            },
        );
    }
    let form = match &settings.expanded {
        Some(id) => Some(render_provider_form(settings, id.as_str())),
        None => None,
    };
    ProvidersPage { none: settings.providers.len() == 0, rows, form }
}

// ---------------------------------------------------------------------------
// Laws
// ---------------------------------------------------------------------------
/// No two headers that were typed have the same name, capitals or not, and none is one that the program
/// sets itself.
pub proof fn typed_headers_are_sound(lines: Seq<Seq<char>>)
    ensures
        match headers_of(lines) {
            Ok(headers) => {
                &&& forall|i: int, j: int|
                    0 <= i < j < headers.len() ==> ascii_lowered((#[trigger] headers[i]).0)
                        != ascii_lowered((#[trigger] headers[j]).0)
                &&& forall|i: int|
                    0 <= i < headers.len() ==> (#[trigger] headers[i]).0.len() > 0
                        && headers[i].1.len() > 0 && !is_reserved(ascii_lowered(headers[i].0))
            },
            Err(e) => e == DraftError::InvalidHeaderFormat || e == DraftError::InvalidHeaders,
        },
    decreases lines.len(),
{
    if lines.len() > 0 {
        typed_headers_are_sound(lines.drop_last());
        if headers_of(lines) is Ok {
            let before = headers_of(lines.drop_last())->Ok_0;
            let headers = headers_of(lines)->Ok_0;
            let line = lines.last();
            assert forall|i: int, j: int| 0 <= i < j < headers.len() implies ascii_lowered(
                (#[trigger] headers[i]).0,
            ) != ascii_lowered((#[trigger] headers[j]).0) by {
                if j < before.len() {
                    assert(ascii_lowered(before[i].0) != ascii_lowered(before[j].0));
                } else if i < before.len() {
                    assert(headers[i] == before[i]);
                }
            }
            assert forall|i: int| 0 <= i < headers.len() implies (#[trigger] headers[i]).0.len() > 0
                && headers[i].1.len() > 0 && !is_reserved(ascii_lowered(headers[i].0)) by {
                if i < before.len() {
                    assert(before[i].0.len() > 0);
                }
            }
        }
    }
}

/// A provider that is saved can be found under its id, and the others stay as they were.
pub proof fn saved_provider_is_found(list: Seq<ProviderView>, editing: Seq<char>, p: ProviderView)
    requires
        !taken_by_another(list, p.id, editing),
    ensures
        provider_with(saved(list, editing, p), p.id) is Some,
        forall|i: int|
            0 <= i < list.len() && i != provider_position(list, editing, 0) ==> saved(
                list,
                editing,
                p,
            )[i] == #[trigger] list[i],
{
    let at = provider_position(list, editing, 0);
    let after = saved(list, editing, p);
    provider_position_finds(list, editing, 0);
    let k = if at < list.len() {
        at
    } else {
        list.len() as int
    };
    assert(after[k] == p);
    found_by(after, p.id, k, 0);
}

proof fn found_by(list: Seq<ProviderView>, id: Seq<char>, k: int, i: int)
    requires
        0 <= i <= k < list.len(),
        list[k].id == id,
    ensures
        provider_position(list, id, i) < list.len(),
    decreases k - i,
{
    if list[i].id != id {
        found_by(list, id, k, i + 1);
    }
}

/// A provider that was deleted is gone.
pub proof fn deleted_provider_is_gone(list: Seq<ProviderView>, id: Seq<char>)
    ensures
        forall|i: int|
            0 <= i < without_provider(list, id).len() ==> (
            #[trigger] without_provider(list, id)[i]).id != id,
    decreases list.len(),
{
    if list.len() > 0 {
        let before = without_provider(list.drop_last(), id);
        deleted_provider_is_gone(list.drop_last(), id);
        assert forall|i: int| 0 <= i < without_provider(list, id).len() implies (
        #[trigger] without_provider(list, id)[i]).id != id by {
            if i < before.len() {
                assert(before[i].id != id);
            }
        }
    }
}

/// Going on through the protocols comes back to the first behind the last.
pub proof fn formats_go_round(formats: Seq<Seq<char>>)
    requires
        formats.len() > 0,
        forall|i: int, j: int|
            0 <= i < j < formats.len() ==> #[trigger] formats[i] != #[trigger] formats[j],
    ensures
        next_format(formats, formats.last()) == formats[0],
        forall|i: int|
            0 <= i < formats.len() - 1 ==> next_format(formats, #[trigger] formats[i]) == formats[i
                + 1],
{
    assert forall|i: int| 0 <= i < formats.len() implies text_position(
        formats,
        #[trigger] formats[i],
        0,
    ) == i by {
        text_stands_at(formats, i, 0);
    }
    assert(formats.last() == formats[formats.len() - 1]);
}

proof fn text_stands_at(formats: Seq<Seq<char>>, i: int, from: int)
    requires
        0 <= from <= i < formats.len(),
        forall|a: int, b: int|
            0 <= a < b < formats.len() ==> #[trigger] formats[a] != #[trigger] formats[b],
    ensures
        text_position(formats, formats[i], from) == i,
    decreases i - from,
{
    if from < i {
        assert(formats[from] != formats[i]);
        text_stands_at(formats, i, from + 1);
    }
}

} // verus!
