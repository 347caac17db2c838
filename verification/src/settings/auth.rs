//! Accounts: how the user signs in to a provider, and what is known of it. Answers that were asked for
//! before a later question are dropped.
use crate::key_map::KeyMap;
use crate::label::{opt_label, Label, LabelView};
use crate::providers::{ExternalProvider, ModelCatalog, ProviderAuthStatus};
use crate::text::{
    concat, concat3, decimal, decimal_text, opt_view, same_text, str_view, trim, trimmed, views,
};
use crate::text_set::TextSet;
use vstd::prelude::*;

verus! {

// ---------------------------------------------------------------------------
// Signing in
// ---------------------------------------------------------------------------
/// A way to sign in.
#[derive(Clone, Copy, Debug, PartialEq, Eq, Structural)]
pub enum LoginMethod {
    ApiKey,
    OauthBrowser,
    OauthDevice,
}

/// The ways to sign in to a provider that is built in.
pub open spec fn login_methods(preset: Seq<char>) -> Seq<LoginMethod> {
    if preset == "openai-codex"@ {
        seq![LoginMethod::OauthBrowser, LoginMethod::OauthDevice]
    } else if preset == "xai-oauth"@ {
        seq![LoginMethod::OauthDevice]
    } else {
        seq![LoginMethod::ApiKey]
    }
}

/// The ways to sign in to a provider that is built in.
pub fn preset_login_methods(preset_id: &str) -> (r: Vec<LoginMethod>)
    ensures
        r@ == login_methods(preset_id@),
{
    let r = if same_text(preset_id, "openai-codex") {
        vec![LoginMethod::OauthBrowser, LoginMethod::OauthDevice]
    } else if same_text(preset_id, "xai-oauth") {
        vec![LoginMethod::OauthDevice]
    } else {
        vec![LoginMethod::ApiKey]
    };
    assert(r@ =~= login_methods(preset_id@));
    r
}

/// What the button for a way to sign in says.
pub open spec fn method_label(method: LoginMethod) -> LabelView {
    LabelView::Message(
        match method {
            LoginMethod::ApiKey => "providers.connect"@,
            LoginMethod::OauthBrowser => "providers.sign_in"@,
            LoginMethod::OauthDevice => "providers.use_device_code"@,
        },
    )
}

/// What the button for a way to sign in says.
pub fn login_method_label(method: LoginMethod) -> (r: Label)
    ensures
        r@ == method_label(method),
{
    match method {
        LoginMethod::ApiKey => Label::Message("providers.connect"),
        LoginMethod::OauthBrowser => Label::Message("providers.sign_in"),
        LoginMethod::OauthDevice => Label::Message("providers.use_device_code"),
    }
}

/// The numbers that the daemon's client gives to the ways to sign in.
#[derive(Clone, Copy, Debug, PartialEq, Eq, Structural)]
pub struct MethodNumbers {
    pub api_key: u8,
    pub oauth_browser: u8,
    pub oauth_device: u8,
}

/// The number of a way to sign in.
pub open spec fn method_number(numbers: MethodNumbers, method: LoginMethod) -> u8 {
    match method {
        LoginMethod::ApiKey => numbers.api_key,
        LoginMethod::OauthBrowser => numbers.oauth_browser,
        LoginMethod::OauthDevice => numbers.oauth_device,
    }
}

/// How far the user has come with signing in.
#[derive(Debug)]
pub enum AuthPhase {
    Idle,
    AwaitingBrowser { login_id: u128, provider: String, url: String },
    AwaitingDevice {
        login_id: u128,
        provider: String,
        user_code: String,
        verification_url: String,
        instructions: String,
    },
    AwaitingApiKey { login_id: u128, provider: String, instructions: String },
    Completed { login_id: u128, provider: String },
    Failed { login_id: u128, provider: String, message: String },
}

/// The provider that the user signs in to.
pub open spec fn phase_provider(phase: AuthPhase) -> Option<Seq<char>> {
    match phase {
        AuthPhase::Idle => None,
        AuthPhase::AwaitingBrowser { provider, .. } => Some(provider@),
        AuthPhase::AwaitingDevice { provider, .. } => Some(provider@),
        AuthPhase::AwaitingApiKey { provider, .. } => Some(provider@),
        AuthPhase::Completed { provider, .. } => Some(provider@),
        AuthPhase::Failed { provider, .. } => Some(provider@),
    }
}

/// The number of the attempt to sign in.
pub open spec fn phase_login(phase: AuthPhase) -> Option<u128> {
    match phase {
        AuthPhase::Idle => None,
        AuthPhase::AwaitingBrowser { login_id, .. } => Some(login_id),
        AuthPhase::AwaitingDevice { login_id, .. } => Some(login_id),
        AuthPhase::AwaitingApiKey { login_id, .. } => Some(login_id),
        AuthPhase::Completed { login_id, .. } => Some(login_id),
        AuthPhase::Failed { login_id, .. } => Some(login_id),
    }
}

/// The page that the user has to visit.
pub open spec fn phase_url(phase: AuthPhase) -> Option<Seq<char>> {
    match phase {
        AuthPhase::AwaitingBrowser { url, .. } => Some(url@),
        AuthPhase::AwaitingDevice { verification_url, .. } => Some(verification_url@),
        _ => None,
    }
}

/// Tells whether the attempt waits for the user, who can give it up.
pub open spec fn awaits_user(phase: AuthPhase) -> bool {
    phase is AwaitingBrowser || phase is AwaitingDevice || phase is AwaitingApiKey
}

impl AuthPhase {
    /// The provider that the user signs in to.
    pub fn provider(&self) -> (r: Option<&str>)
        ensures
            str_view(r) == phase_provider(*self),
    {
        match self {
            AuthPhase::Idle => None,
            AuthPhase::AwaitingBrowser { provider, .. } => Some(provider.as_str()),
            AuthPhase::AwaitingDevice { provider, .. } => Some(provider.as_str()),
            AuthPhase::AwaitingApiKey { provider, .. } => Some(provider.as_str()),
            AuthPhase::Completed { provider, .. } => Some(provider.as_str()),
            AuthPhase::Failed { provider, .. } => Some(provider.as_str()),
        }
    }

    /// The number of the attempt to sign in.
    pub fn login_id(&self) -> (r: Option<u128>)
        ensures
            r == phase_login(*self),
    {
        match self {
            AuthPhase::Idle => None,
            AuthPhase::AwaitingBrowser { login_id, .. } => Some(*login_id),
            AuthPhase::AwaitingDevice { login_id, .. } => Some(*login_id),
            AuthPhase::AwaitingApiKey { login_id, .. } => Some(*login_id),
            AuthPhase::Completed { login_id, .. } => Some(*login_id),
            AuthPhase::Failed { login_id, .. } => Some(*login_id),
        }
    }
}

/// The page that the user has to visit.
pub fn auth_phase_url(phase: &AuthPhase) -> (r: Option<&str>)
    ensures
        str_view(r) == phase_url(*phase),
{
    match phase {
        AuthPhase::AwaitingBrowser { url, .. } => Some(url.as_str()),
        AuthPhase::AwaitingDevice { verification_url, .. } => Some(verification_url.as_str()),
        _ => None,
    }
}

/// What is said of an attempt to sign in.
pub open spec fn phase_summary(phase: AuthPhase) -> LabelView {
    match phase {
        AuthPhase::AwaitingBrowser { url, .. } => LabelView::Plain("Opening browser: "@ + url@),
        AuthPhase::AwaitingDevice { user_code, verification_url, .. } => LabelView::Plain(
            "Code "@ + user_code@ + " at "@ + verification_url@,
        ),
        AuthPhase::AwaitingApiKey { instructions, .. } => LabelView::Plain(instructions@),
        AuthPhase::Completed { .. } => LabelView::Message("providers.connected"@),
        AuthPhase::Failed { message, .. } => LabelView::Plain(message@),
        AuthPhase::Idle => LabelView::Plain(Seq::empty()),
    }
}

/// What is said of an attempt to sign in.
pub fn auth_phase_summary(phase: &AuthPhase) -> (r: Label)
    ensures
        r@ == phase_summary(*phase),
{
    match phase {
        AuthPhase::AwaitingBrowser { url, .. } => Label::Plain(
            concat("Opening browser: ", url.as_str()),
        ),
        AuthPhase::AwaitingDevice { user_code, verification_url, .. } => {
            let code = concat3("Code ", user_code.as_str(), " at ");
            Label::Plain(concat(code.as_str(), verification_url.as_str()))
        },
        AuthPhase::AwaitingApiKey { instructions, .. } => Label::Plain(instructions.clone()),
        AuthPhase::Completed { .. } => Label::Message("providers.connected"),
        AuthPhase::Failed { message, .. } => Label::Plain(message.clone()),
        AuthPhase::Idle => {
            let nothing = String::new();
            assert(nothing@ =~= Seq::<char>::empty());
            Label::Plain(nothing)
        },
    }
}

// ---------------------------------------------------------------------------
// Answers
// ---------------------------------------------------------------------------
/// Tells whether an answer is one to the question that was asked last.
pub fn accepts_generation(current: u64, response: u64) -> (r: bool)
    ensures
        r == (current == response),
{
    current == response
}

/// What is known of the user's accounts.
#[derive(Debug)]
pub struct AuthState {
    /// How many questions have been asked.
    pub generation: u64,
    /// The providers that an answer is awaited for.
    pub pending: TextSet,
    pub statuses: KeyMap<String, ProviderAuthStatus>,
    pub phases: Vec<AuthPhase>,
    pub errors: KeyMap<String, String>,
}

/// An answer of the daemon about accounts.
#[derive(Debug)]
pub enum AuthAnswer {
    Status { statuses: Vec<ProviderAuthStatus>, phases: Vec<AuthPhase> },
    /// Another one than was asked for.
    Invalid,
    Failed(String),
}

/// What is known of each account, by its provider; of several for one provider, the last.
pub open spec fn by_provider(statuses: Seq<ProviderAuthStatus>) -> Map<
    Seq<char>,
    ProviderAuthStatus,
>
    decreases statuses.len(),
{
    if statuses.len() == 0 {
        Map::empty()
    } else {
        by_provider(statuses.drop_last()).insert(statuses.last().provider@, statuses.last())
    }
}

/// Tells whether errors are others with one more that concerns every provider.
pub open spec fn with_error(
    before: Map<Seq<char>, String>,
    after: Map<Seq<char>, String>,
    text: Seq<char>,
) -> bool {
    &&& after.contains_key("all"@)
    &&& after == before.insert("all"@, after["all"@])
    &&& after["all"@]@ == text
}

/// Tells whether what is known of the accounts is what an answer makes of it.
pub open spec fn status_answered(before: AuthState, after: AuthState, answer: AuthAnswer) -> bool {
    &&& after.generation == before.generation
    &&& after.pending@ == Set::<Seq<char>>::empty()
    &&& match answer {
        AuthAnswer::Status { statuses, phases } => {
            &&& after.statuses@ == by_provider(statuses@)
            &&& after.phases == phases
            &&& after.errors@ == Map::<Seq<char>, String>::empty()
        },
        AuthAnswer::Invalid => {
            &&& after.statuses == before.statuses
            &&& after.phases == before.phases
            &&& with_error(before.errors@, after.errors@, "invalid auth status response"@)
        },
        AuthAnswer::Failed(error) => {
            &&& after.statuses == before.statuses
            &&& after.phases == before.phases
            &&& with_error(before.errors@, after.errors@, error@)
        },
    }
}

/// An answer of the daemon to an attempt to sign in.
#[derive(Debug)]
pub enum LoginAnswer {
    Phase(AuthPhase),
    /// Another one than was asked for.
    Invalid,
    Failed(String),
}

/// Tells whether what is known of the accounts is what an answer to an attempt to sign in makes of it.
pub open spec fn login_answered(
    before: AuthState,
    after: AuthState,
    provider: Seq<char>,
    answer: LoginAnswer,
) -> bool {
    &&& after.generation == before.generation
    &&& after.statuses == before.statuses
    &&& after.pending@ == before.pending@.remove(provider)
    &&& match answer {
        LoginAnswer::Phase(phase) => after.phases@ == before.phases@.push(phase) && after.errors
            == before.errors,
        LoginAnswer::Invalid => after.phases == before.phases && with_error(
            before.errors@,
            after.errors@,
            "invalid login response"@,
        ),
        LoginAnswer::Failed(error) => after.phases == before.phases && with_error(
            before.errors@,
            after.errors@,
            error@,
        ),
    }
}

/// Where the first attempt that waits for a key to a provider stands, from `i` on.
pub open spec fn awaited_login(phases: Seq<AuthPhase>, provider: Seq<char>, i: int) -> Option<u128>
    decreases phases.len() - i,
{
    if i < 0 || i >= phases.len() {
        None
    } else if phases[i] is AwaitingApiKey && phase_provider(phases[i]) == Some(provider) {
        phase_login(phases[i])
    } else {
        awaited_login(phases, provider, i + 1)
    }
}

/// Where the first attempt to sign in to a provider stands, from `i` on, or the number of attempts.
pub open spec fn phase_position(phases: Seq<AuthPhase>, provider: Seq<char>, i: int) -> int
    decreases phases.len() - i,
{
    if i < 0 || i >= phases.len() {
        phases.len() as int
    } else if phase_provider(phases[i]) == Some(provider) {
        i
    } else {
        phase_position(phases, provider, i + 1)
    }
}

fn find_phase(phases: &Vec<AuthPhase>, provider: &str) -> (at: usize)
    ensures
        at == phase_position(phases@, provider@, 0),
        at <= phases@.len(),
{
    let mut i: usize = 0;
    while i < phases.len()
        invariant
            i <= phases@.len(),
            phase_position(phases@, provider@, 0) == phase_position(phases@, provider@, i as int),
        decreases phases@.len() - i,
    {
        let same = match phases[i].provider() {
            Some(p) => same_text(p, provider),
            None => false,
        };
        if same {
            return i;
        }
        i = i + 1;
    }
    i
}

impl AuthState {
    /// Asks about the accounts. Gives the number of the question.
    pub fn begin_refresh(&mut self) -> (r: u64)
        ensures
            r == old(self).generation.wrapping_add(1),
            *final(self) == (AuthState { generation: r, ..*old(self) }),
    {
        self.generation = self.generation.wrapping_add(1);
        self.generation
    }

    fn note_error(&mut self, text: String)
        ensures
            *final(self) == (AuthState { errors: final(self).errors, ..*old(self) }),
            with_error(old(self).errors@, final(self).errors@, text@),
    {
        let ghost before = self.errors@;
        self.errors.insert("all".to_string(), text);
        assert(self.errors@ =~= before.insert("all"@, text));
    }

    /// Takes an answer about the accounts, unless another question has been asked since. Tells whether it
    /// was taken.
    pub fn finish_refresh(&mut self, generation: u64, answer: AuthAnswer) -> (r: bool)
        ensures
            r == (old(self).generation == generation),
            if r {
                status_answered(*old(self), *final(self), answer)
            } else {
                *final(self) == *old(self)
            },
    {
        if !accepts_generation(self.generation, generation) {
            return false;
        }
        self.pending.clear();
        match answer {
            AuthAnswer::Status { statuses, phases } => {
                let ghost all = statuses@;
                let mut map: KeyMap<String, ProviderAuthStatus> = KeyMap::new();
                assert(all.take(0) =~= Seq::empty());
                assert(map@ =~= by_provider(all.take(0)));
                for status in it: statuses.into_iter()
                    invariant
                        it.seq() == all,
                        map@ == by_provider(all.take(it.index())),
                {
                    assert(all.take(it.index() + 1).drop_last() =~= all.take(it.index()));
                    let key = status.provider.clone();
                    map.insert(key, status);
                }
                assert(all.take(all.len() as int) =~= all);
                self.statuses = map;
                self.phases = phases;
                self.errors.clear();
            },
            AuthAnswer::Invalid => {
                self.note_error("invalid auth status response".to_string());
            },
            AuthAnswer::Failed(error) => {
                self.note_error(error);
            },
        }
        true
    }

    /// Begins to sign in to a provider. Gives the number of the question.
    pub fn start_provider_login(&mut self, provider: &String) -> (r: u64)
        ensures
            r == old(self).generation.wrapping_add(1),
            *final(self) == (AuthState {
                generation: r,
                pending: final(self).pending,
                ..*old(self)
            }),
            final(self).pending@ == old(self).pending@.insert(provider@),
    {
        self.generation = self.generation.wrapping_add(1);
        self.pending.insert(provider.clone());
        self.generation
    }

    /// Takes an answer to an attempt to sign in, unless another question has been asked since. Gives the
    /// page that the user has to visit, if there is one.
    pub fn finish_provider_login(&mut self, provider: &str, generation: u64, answer: LoginAnswer) -> (r:
        Option<String>)
        ensures
            if old(self).generation == generation {
                &&& login_answered(*old(self), *final(self), provider@, answer)
                &&& opt_view(r) == (match answer {
                    LoginAnswer::Phase(phase) => phase_url(phase),
                    _ => None,
                })
            } else {
                &&& *final(self) == *old(self)
                &&& r is None
            },
    {
        if !accepts_generation(self.generation, generation) {
            return None;
        }
        self.pending.remove(provider);
        match answer {
            LoginAnswer::Phase(phase) => {
                let url = match auth_phase_url(&phase) {
                    Some(u) => Some(u.to_string()),
                    None => None,
                };
                self.phases.push(phase);
                url
            },
            LoginAnswer::Invalid => {
                self.note_error("invalid login response".to_string());
                None
            },
            LoginAnswer::Failed(error) => {
                self.note_error(error);
                None
            },
        }
    }

    /// Notes that the daemon could not do what it was asked about an account.
    pub fn account_request_failed(&mut self, error: String)
        ensures
            *final(self) == (AuthState { errors: final(self).errors, ..*old(self) }),
            with_error(old(self).errors@, final(self).errors@, error@),
    {
        self.note_error(error);
    }

    /// The attempt that a key belongs to, and the key, without white space around it. `None` where there
    /// is no key, or no attempt waits for one.
    pub fn complete_api_key_login(&self, provider: &str, input: &str) -> (r: Option<(u128, String)>)
        ensures
            ({
                let login = awaited_login(self.phases@, provider@, 0);
                if trimmed(input@).len() > 0 && login is Some {
                    r is Some && (r->0).0 == login->0 && (r->0).1@ == trimmed(input@)
                } else {
                    r is None
                }
            }),
    {
        let key = trim(input);
        if key.as_str().is_empty() {
            return None;
        }
        let mut i: usize = 0;
        while i < self.phases.len()
            invariant
                i <= self.phases@.len(),
                key@ == trimmed(input@),
                key@.len() > 0,
                awaited_login(self.phases@, provider@, 0) == awaited_login(
                    self.phases@,
                    provider@,
                    i as int,
                ),
            decreases self.phases@.len() - i,
        {
            if let AuthPhase::AwaitingApiKey { login_id, provider: owner, .. } = &self.phases[i] {
                if same_text(owner.as_str(), provider) {
                    return Some((*login_id, key));
                }
            }
            i = i + 1;
        }
        None
    }
}

// ---------------------------------------------------------------------------
// Models
// ---------------------------------------------------------------------------
/// What is known of the models of the providers.
#[derive(Debug)]
pub struct CatalogState {
    /// How many questions have been asked.
    pub generation: u64,
    /// The providers that an answer is awaited for.
    pub pending: TextSet,
    pub catalogs: KeyMap<String, ModelCatalog>,
    pub errors: KeyMap<String, String>,
}

/// What is known of the models with some answers, by their providers; of several for one provider, the
/// last.
pub open spec fn with_catalogs(
    before: Map<Seq<char>, ModelCatalog>,
    catalogs: Seq<ModelCatalog>,
) -> Map<Seq<char>, ModelCatalog>
    decreases catalogs.len(),
{
    if catalogs.len() == 0 {
        before
    } else {
        with_catalogs(before, catalogs.drop_last()).insert(
            catalogs.last().provider@,
            catalogs.last(),
        )
    }
}

impl CatalogState {
    /// Asks for the models of some providers. Gives the number of the question.
    pub fn begin_refresh(&mut self, providers: &Vec<String>) -> (r: u64)
        ensures
            r == old(self).generation.wrapping_add(1),
            *final(self) == (CatalogState {
                generation: r,
                pending: final(self).pending,
                ..*old(self)
            }),
            final(self).pending@ == old(self).pending@.union(views(providers@).to_set()),
    {
        self.generation = self.generation.wrapping_add(1);
        let ghost start = *self;
        let ghost all = views(providers@);
        assert(all.take(0).to_set() =~= Set::empty());
        assert(start.pending@ =~= start.pending@.union(all.take(0).to_set()));
        for i in 0..providers.len()
            invariant
                all == views(providers@),
                *self == (CatalogState { pending: self.pending, ..start }),
                self.pending@ == start.pending@.union(all.take(i as int).to_set()),
        {
            let ghost before = all.take(i as int);
            let ghost next = all.take(i as int + 1);
            proof {
                assert(next =~= before.push(all[i as int]));
                assert forall|t: Seq<char>|
                    next.contains(t) <==> before.contains(t) || t == all[i as int] by {
                    if before.contains(t) {
                        let k = before.index_of(t);
                        assert(next[k] == t);
                    }
                    assert(next[i as int] == all[i as int]);
                    if next.contains(t) && t != all[i as int] {
                        let k = next.index_of(t);
                        assert(before[k] == t);
                    }
                }
            }
            self.pending.insert(providers[i].clone());
            assert(self.pending@ =~= start.pending@.union(next.to_set()));
        }
        assert(all.take(all.len() as int) =~= all);
        self.generation
    }

    /// Takes the models that the daemon knows, or why it could not be asked, unless another question has
    /// been asked since. Tells whether they were taken.
    pub fn finish_refresh(&mut self, generation: u64, answer: Result<Vec<ModelCatalog>, String>) -> (r:
        bool)
        ensures
            r == (old(self).generation == generation),
            if r {
                &&& final(self).generation == old(self).generation
                &&& final(self).pending@ == Set::<Seq<char>>::empty()
                &&& match answer {
                    Ok(catalogs) => {
                        &&& final(self).catalogs@ == with_catalogs(
                            old(self).catalogs@,
                            catalogs@,
                        )
                        &&& final(self).errors@ == Map::<Seq<char>, String>::empty()
                    },
                    Err(error) => {
                        &&& final(self).catalogs == old(self).catalogs
                        &&& with_error(old(self).errors@, final(self).errors@, error@)
                    },
                }
            } else {
                *final(self) == *old(self)
            },
    {
        if !accepts_generation(self.generation, generation) {
            return false;
        }
        self.pending.clear();
        match answer {
            Ok(catalogs) => {
                let ghost all = catalogs@;
                let ghost start = self.catalogs@;
                let ghost generation_now = self.generation;
                let ghost none = self.pending@;
                assert(all.take(0) =~= Seq::empty());
                for catalog in it: catalogs.into_iter()
                    invariant
                        it.seq() == all,
                        self.generation == generation_now,
                        self.pending@ == none,
                        self.catalogs@ == with_catalogs(start, all.take(it.index())),
                {
                    assert(all.take(it.index() + 1).drop_last() =~= all.take(it.index()));
                    let key = catalog.provider.clone();
                    self.catalogs.insert(key, catalog);
                }
                assert(all.take(all.len() as int) =~= all);
                self.errors.clear();
            },
            Err(error) => {
                let ghost before = self.errors@;
                self.errors.insert("all".to_string(), error);
                assert(self.errors@ =~= before.insert("all"@, error));
            },
        }
        true
    }
}

// ---------------------------------------------------------------------------
// Cards
// ---------------------------------------------------------------------------
/// A button to sign in.
#[derive(Debug)]
pub struct LoginButton {
    pub id: String,
    pub method: LoginMethod,
    pub label: Label,
}

/// The contents of a button to sign in.
pub ghost struct LoginButtonView {
    pub id: Seq<char>,
    pub method: LoginMethod,
    pub label: LabelView,
}

impl View for LoginButton {
    type V = LoginButtonView;

    open spec fn view(&self) -> LoginButtonView {
        LoginButtonView { id: self.id@, method: self.method, label: self.label@ }
    }
}

/// The contents of some buttons.
pub open spec fn login_button_views(list: Seq<LoginButton>) -> Seq<LoginButtonView> {
    Seq::new(list.len(), |i: int| list[i]@)
}

/// The buttons to sign in to a provider that is built in.
pub open spec fn login_buttons(preset: Seq<char>, numbers: MethodNumbers) -> Seq<LoginButtonView> {
    login_methods(preset).map_values(
        |m: LoginMethod|
            LoginButtonView {
                id: "login-provider-"@ + preset + "-"@ + decimal(method_number(numbers, m) as nat),
                method: m,
                label: method_label(m),
            },
    )
}

fn make_login_buttons(preset: &str, numbers: MethodNumbers) -> (r: Vec<LoginButton>)
    ensures
        login_button_views(r@) == login_buttons(preset@, numbers),
{
    let methods = preset_login_methods(preset);
    let mut r: Vec<LoginButton> = Vec::new();
    for i in 0..methods.len()
        invariant
            methods@ == login_methods(preset@),
            r@.len() == i,
            forall|k: int| 0 <= k < i ==> (#[trigger] r@[k])@ == login_buttons(preset@, numbers)[k],
    {
        let number: u8 = match methods[i] {
            LoginMethod::ApiKey => numbers.api_key,
            LoginMethod::OauthBrowser => numbers.oauth_browser,
            LoginMethod::OauthDevice => numbers.oauth_device,
        };
        let prefix = concat3("login-provider-", preset, "-");
        r.push(
            LoginButton {
                id: concat(prefix.as_str(), decimal_text(number as u64).as_str()),
                method: methods[i],
                label: login_method_label(methods[i]),
            },
        );
    }
    assert(login_button_views(r@) =~= login_buttons(preset@, numbers));
    r
}

/// The card of a provider that is built in.
#[derive(Debug)]
pub struct ProviderCard {
    pub name: String,
    pub status: Label,
    pub logins: Vec<LoginButton>,
    pub logout_id: String,
    /// A field for a key is shown.
    pub wants_key: bool,
    /// The attempt that can be given up.
    pub cancel: Option<u128>,
    /// What is said of the attempt.
    pub summary: Option<Label>,
}

/// Tells whether a card is that of a provider that is built in.
pub open spec fn is_card(
    card: ProviderCard,
    preset: ExternalProvider,
    auth: AuthState,
    numbers: MethodNumbers,
) -> bool {
    let id = preset.id@;
    let at = phase_position(auth.phases@, id, 0);
    let phase = if at < auth.phases@.len() {
        Some(auth.phases@[at])
    } else {
        None
    };
    &&& card.name@ == preset.name@
    &&& card.status@ == (if auth.statuses@.contains_key(id) {
        LabelView::Plain(auth.statuses@[id].method@)
    } else {
        LabelView::Message("providers.not_authenticated"@)
    })
    &&& login_button_views(card.logins@) == login_buttons(id, numbers)
    &&& card.logout_id@ == "logout-provider-"@ + id
    &&& card.wants_key == (phase is Some && phase->0 is AwaitingApiKey)
    &&& card.cancel == (if phase is Some && awaits_user(phase->0) {
        phase_login(phase->0)
    } else {
        None
    })
    &&& opt_label(card.summary) == (match phase {
        Some(p) => Some(phase_summary(p)),
        None => None,
    })
}

/// The card of a provider that is built in.
pub fn render_builtin_provider_card(
    preset: &ExternalProvider,
    auth: &AuthState,
    numbers: MethodNumbers,
) -> (r: ProviderCard)
    ensures
        is_card(r, *preset, *auth, numbers),
{
    let status = match auth.statuses.get(&preset.id) {
        Some(s) => Label::Plain(s.method.clone()),
        None => Label::Message("providers.not_authenticated"),
    };
    let at: usize = find_phase(&auth.phases, preset.id.as_str());
    let (wants_key, cancel, summary) = if at < auth.phases.len() {
        let phase = &auth.phases[at];
        let wants_key = match phase {
            AuthPhase::AwaitingApiKey { .. } => true,
            _ => false,
        };
        let cancel: Option<u128> = match phase {
            AuthPhase::AwaitingBrowser { .. } => phase.login_id(),
            AuthPhase::AwaitingDevice { .. } => phase.login_id(),
            AuthPhase::AwaitingApiKey { .. } => phase.login_id(),
            _ => None,
        };
        (wants_key, cancel, Some(auth_phase_summary(phase)))
    } else {
        (false, None, None)
    };
    ProviderCard {
        name: preset.name.clone(),
        status,
        logins: make_login_buttons(preset.id.as_str(), numbers),
        logout_id: concat("logout-provider-", preset.id.as_str()),
        wants_key,
        cancel,
        summary,
    }
}

/// The cards of the providers that are built in.
pub fn render_builtin_provider_cards(
    presets: &Vec<ExternalProvider>,
    auth: &AuthState,
    numbers: MethodNumbers,
) -> (r: Vec<ProviderCard>)
    ensures
        r@.len() == presets@.len(),
        forall|i: int| 0 <= i < presets@.len() ==> is_card(
                #[trigger] r@[i],
                presets@[i],
                *auth,
                numbers,
            ),
{
    let mut r: Vec<ProviderCard> = Vec::new();
    for i in 0..presets.len()
        invariant
            r@.len() == i,
            forall|k: int| 0 <= k < i ==> is_card(
                    #[trigger] r@[k],
                    presets@[k],
                    *auth,
                    numbers,
                ),
    {
        r.push(render_builtin_provider_card(&presets[i], auth, numbers));
    }
    r
}

// ---------------------------------------------------------------------------
// Laws
// ---------------------------------------------------------------------------
/// Every attempt to sign in, also one that failed, says which one it is and for which provider.
pub proof fn attempts_know_their_owner(phase: AuthPhase)
    requires
        !(phase is Idle),
    ensures
        phase_login(phase) is Some,
        phase_provider(phase) is Some,
{
}

/// A page is to be visited exactly where the user signs in with a browser or with a code.
pub proof fn pages_to_visit(phase: AuthPhase)
    ensures
        phase_url(phase) is Some <==> phase is AwaitingBrowser || phase is AwaitingDevice,
{
}

/// A question has another number than the one before it, so that the answer to that one is dropped.
pub proof fn questions_are_told_apart(generation: u64)
    ensures
        generation.wrapping_add(1) != generation,
{
}

/// What is known of the models of a provider is replaced only by an answer about that provider.
pub proof fn catalogs_stay_apart(
    before: Map<Seq<char>, ModelCatalog>,
    catalogs: Seq<ModelCatalog>,
    id: Seq<char>,
)
    requires
        forall|i: int| 0 <= i < catalogs.len() ==> (#[trigger] catalogs[i]).provider@ != id,
    ensures
        with_catalogs(before, catalogs).contains_key(id) == before.contains_key(id),
        before.contains_key(id) ==> with_catalogs(before, catalogs)[id] == before[id],
    decreases catalogs.len(),
{
    if catalogs.len() > 0 {
        let head = catalogs.drop_last();
        assert forall|i: int| 0 <= i < head.len() implies (#[trigger] head[i]).provider@ != id by {
            assert(catalogs[i].provider@ != id);
        }
        assert(catalogs[catalogs.len() - 1].provider@ != id);
        catalogs_stay_apart(before, head, id);
    }
}

} // verus!
