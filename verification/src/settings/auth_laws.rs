//! What accounts promise: late answers are dropped, answers are kept as they came, a key goes to the attempt that
//! waits for it, and the card of a provider shows its own account.
use crate::label::{opt_label, Label, LabelView};
use crate::providers::{ExternalProvider, ModelCatalog, ProviderAuthStatus};
use crate::settings::auth::{
    accepts_generation, auth_phase_summary, auth_phase_url, awaited_login, by_provider,
    login_button_views, login_buttons, phase_position,
    preset_login_methods, render_builtin_provider_card, render_builtin_provider_cards, with_catalogs, AuthAnswer, AuthPhase,
    AuthState, CatalogState, LoginAnswer, LoginMethod, MethodNumbers, ProviderCard,
};
use crate::text::{opt_view, str_view, trimmed, views};
use vstd::prelude::*;

verus! {

/// Tells whether an attempt to sign in is one at a provider.
pub open spec fn is_at(phase: AuthPhase, provider: Seq<char>) -> bool {
    match phase {
        AuthPhase::Idle => false,
        AuthPhase::AwaitingBrowser { login_id, provider: p, url } => p@ == provider,
        AuthPhase::AwaitingDevice {
            login_id,
            provider: p,
            user_code,
            verification_url,
            instructions,
        } => p@ == provider,
        AuthPhase::AwaitingApiKey { login_id, provider: p, instructions } => p@ == provider,
        AuthPhase::Completed { login_id, provider: p } => p@ == provider,
        AuthPhase::Failed { login_id, provider: p, message } => p@ == provider,
    }
}

/// The answer to the last question counts; the answer to an earlier one changes nothing.
pub proof fn only_the_last_question_counts(
    s: &mut AuthState,
    first: u64,
    t: &mut AuthState,
    second: u64,
    u: &mut AuthState,
    answer: AuthAnswer,
    r: bool,
    v: &mut AuthState,
    later: AuthAnswer,
    q: bool,
)
    requires
        call_ensures(AuthState::begin_refresh, (s,), first),
        *old(t) == *final(s),
        call_ensures(AuthState::begin_refresh, (t,), second),
        *old(u) == *final(t),
        call_ensures(AuthState::finish_refresh, (u, first, answer), r),
        *old(v) == *final(t),
        call_ensures(AuthState::finish_refresh, (v, second, later), q),
    ensures
        first != second,
        !r,
        *final(u) == *old(u),
        q,
{
}

proof fn last_status_is_kept(statuses: Seq<ProviderAuthStatus>, i: int)
    requires
        0 <= i < statuses.len(),
        forall|j: int|
            i < j < statuses.len() ==> (#[trigger] statuses[j]).provider@ != statuses[i].provider@,
    ensures
        by_provider(statuses).contains_key(statuses[i].provider@),
        by_provider(statuses)[statuses[i].provider@] == statuses[i],
    decreases statuses.len(),
{
    if i < statuses.len() - 1 {
        let head = statuses.drop_last();
        assert(head[i] == statuses[i]);
        assert forall|j: int| i < j < head.len() implies (#[trigger] head[j]).provider@
            != head[i].provider@ by {
            assert(head[j] == statuses[j]);
        }
        last_status_is_kept(head, i);
        assert(statuses[statuses.len() - 1].provider@ != statuses[i].provider@);
    }
}

proof fn only_given_statuses(statuses: Seq<ProviderAuthStatus>, id: Seq<char>)
    requires
        by_provider(statuses).contains_key(id),
    ensures
        exists|i: int| 0 <= i < statuses.len() && (#[trigger] statuses[i]).provider@ == id,
    decreases statuses.len(),
{
    if statuses.len() > 0 {
        if statuses.last().provider@ == id {
            assert(statuses[statuses.len() - 1].provider@ == id);
        } else {
            let head = statuses.drop_last();
            only_given_statuses(head, id);
            let i = choose|i: int| 0 <= i < head.len() && (#[trigger] head[i]).provider@ == id;
            assert(statuses[i] == head[i]);
        }
    }
}

/// The accounts are those of the answer, each under its provider, and nothing waits or is in error any more.
pub proof fn accounts_are_those_of_the_answer(
    s: &mut AuthState,
    generation: u64,
    statuses: Vec<ProviderAuthStatus>,
    phases: Vec<AuthPhase>,
    r: bool,
    i: int,
    id: Seq<char>,
)
    requires
        call_ensures(
            AuthState::finish_refresh,
            (s, generation, AuthAnswer::Status { statuses, phases }),
            r,
        ),
        generation == old(s).generation,
        0 <= i < statuses@.len(),
        forall|j: int|
            i < j < statuses@.len() ==> (#[trigger] statuses@[j]).provider@
                != statuses@[i].provider@,
    ensures
        r,
        final(s).statuses@.contains_key(statuses@[i].provider@),
        final(s).statuses@[statuses@[i].provider@] == statuses@[i],
        final(s).statuses@.contains_key(id) ==> exists|j: int|
            0 <= j < statuses@.len() && (#[trigger] statuses@[j]).provider@ == id,
        final(s).phases == phases,
        !final(s).pending@.contains(id),
        !final(s).errors@.contains_key(id),
{
    last_status_is_kept(statuses@, i);
    if final(s).statuses@.contains_key(id) {
        only_given_statuses(statuses@, id);
    }
}

/// A question that failed leaves the accounts as they are and is told of.
pub proof fn a_failed_question_is_told(
    s: &mut AuthState,
    error: String,
    r: bool,
    id: Seq<char>,
    t: &mut AuthState,
    other: String,
)
    requires
        call_ensures(AuthState::finish_refresh, (s, old(s).generation, AuthAnswer::Failed(error)), r),
        call_ensures(AuthState::account_request_failed, (t, other), ()),
    ensures
        r,
        final(s).statuses == old(s).statuses,
        final(s).phases == old(s).phases,
        final(s).errors@.contains_key("all"@),
        final(s).errors@["all"@]@ == error@,
        !final(s).pending@.contains(id),
        final(t).statuses == old(t).statuses,
        final(t).phases == old(t).phases,
        final(t).pending == old(t).pending,
        final(t).errors@.contains_key("all"@),
        final(t).errors@["all"@]@ == other@,
{
}

/// Signing in waits until its answer comes, and no other provider waits for it. What was answered stands last
/// among the attempts, and the page to visit is the one that the answer gives.
pub proof fn signing_in_waits_for_its_answer(
    s: &mut AuthState,
    provider: &String,
    generation: u64,
    t: &mut AuthState,
    again: &str,
    phase: AuthPhase,
    r: Option<String>,
    id: Seq<char>,
)
    requires
        call_ensures(AuthState::start_provider_login, (s, provider), generation),
        *old(t) == *final(s),
        again@ == provider@,
        call_ensures(
            AuthState::finish_provider_login,
            (t, again, generation, LoginAnswer::Phase(phase)),
            r,
        ),
    ensures
        final(s).pending@.contains(provider@),
        id != provider@ ==> (final(s).pending@.contains(id) <==> old(s).pending@.contains(id)),
        final(s).phases == old(s).phases,
        !final(t).pending@.contains(provider@),
        id != provider@ ==> (final(t).pending@.contains(id) <==> old(s).pending@.contains(id)),
        final(t).phases@.len() == old(s).phases@.len() + 1,
        final(t).phases@.last() == phase,
        forall|k: int|
            0 <= k < old(s).phases@.len() ==> #[trigger] final(t).phases@[k] == old(s).phases@[k],
        r is Some <==> phase is AwaitingBrowser || phase is AwaitingDevice,
        phase matches AuthPhase::AwaitingBrowser { login_id, provider, url } ==> (r->0)@ == url@,
        phase matches AuthPhase::AwaitingDevice {
            login_id,
            provider,
            user_code,
            verification_url,
            instructions,
        } ==> (r->0)@ == verification_url@,
{
    assert(opt_view(r) is Some <==> r is Some);
}

/// An answer to an attempt that was overtaken by another question changes nothing.
pub proof fn overtaken_attempts_are_dropped(
    s: &mut AuthState,
    provider: &str,
    generation: u64,
    answer: LoginAnswer,
    r: Option<String>,
    accepted: bool,
)
    requires
        call_ensures(AuthState::finish_provider_login, (s, provider, generation, answer), r),
        generation != old(s).generation,
        call_ensures(accepts_generation, (old(s).generation, generation), accepted),
    ensures
        r is None,
        *final(s) == *old(s),
        !accepted,
{
}

proof fn key_wait_is_found(phases: Seq<AuthPhase>, provider: Seq<char>, i: int, from: int)
    requires
        0 <= from <= i < phases.len(),
        phases[i] is AwaitingApiKey,
        is_at(phases[i], provider),
        forall|j: int|
            0 <= j < i ==> !(#[trigger] phases[j] is AwaitingApiKey && is_at(phases[j], provider)),
    ensures
        awaited_login(phases, provider, from) == Some(phases[i]->AwaitingApiKey_login_id),
    decreases i - from,
{
    if from < i {
        assert(!(phases[from] is AwaitingApiKey && is_at(phases[from], provider)));
        key_wait_is_found(phases, provider, i, from + 1);
    }
}

proof fn no_key_wait(phases: Seq<AuthPhase>, provider: Seq<char>, from: int)
    requires
        0 <= from <= phases.len(),
        forall|j: int|
            0 <= j < phases.len() ==> !(#[trigger] phases[j] is AwaitingApiKey && is_at(
                phases[j],
                provider,
            )),
    ensures
        awaited_login(phases, provider, from) is None,
    decreases phases.len() - from,
{
    if from < phases.len() {
        assert(!(phases[from] is AwaitingApiKey && is_at(phases[from], provider)));
        no_key_wait(phases, provider, from + 1);
    }
}

/// A key that was typed goes, without white space around it, to the first attempt of its provider that waits for
/// one; without such an attempt, or without a key, nothing is sent.
pub proof fn a_key_goes_to_the_attempt_that_waits(
    s: &AuthState,
    provider: &str,
    input: &str,
    r: Option<(u128, String)>,
    i: int,
)
    requires
        call_ensures(AuthState::complete_api_key_login, (s, provider, input), r),
    ensures
        trimmed(input@).len() == 0 ==> r is None,
        trimmed(input@).len() > 0 && 0 <= i < s.phases@.len() && s.phases@[i] is AwaitingApiKey
            && is_at(s.phases@[i], provider@) && (forall|j: int|
            0 <= j < i ==> !(#[trigger] s.phases@[j] is AwaitingApiKey && is_at(
                s.phases@[j],
                provider@,
            ))) ==> r is Some && (r->0).0 == s.phases@[i]->AwaitingApiKey_login_id && (r->0).1@
            == trimmed(input@),
        (forall|j: int|
            0 <= j < s.phases@.len() ==> !(#[trigger] s.phases@[j] is AwaitingApiKey && is_at(
                s.phases@[j],
                provider@,
            ))) ==> r is None,
{
    if 0 <= i < s.phases@.len() && s.phases@[i] is AwaitingApiKey && is_at(s.phases@[i], provider@)
        && (forall|j: int|
        0 <= j < i ==> !(#[trigger] s.phases@[j] is AwaitingApiKey && is_at(
            s.phases@[j],
            provider@,
        ))) {
        key_wait_is_found(s.phases@, provider@, i, 0);
    }
    if forall|j: int|
        0 <= j < s.phases@.len() ==> !(#[trigger] s.phases@[j] is AwaitingApiKey && is_at(
            s.phases@[j],
            provider@,
        )) {
        no_key_wait(s.phases@, provider@, 0);
    }
}

proof fn last_catalog_is_kept(
    before: Map<Seq<char>, ModelCatalog>,
    catalogs: Seq<ModelCatalog>,
    i: int,
)
    requires
        0 <= i < catalogs.len(),
        forall|j: int|
            i < j < catalogs.len() ==> (#[trigger] catalogs[j]).provider@ != catalogs[i].provider@,
    ensures
        with_catalogs(before, catalogs).contains_key(catalogs[i].provider@),
        with_catalogs(before, catalogs)[catalogs[i].provider@] == catalogs[i],
    decreases catalogs.len(),
{
    if i < catalogs.len() - 1 {
        let head = catalogs.drop_last();
        assert(head[i] == catalogs[i]);
        assert forall|j: int| i < j < head.len() implies (#[trigger] head[j]).provider@
            != head[i].provider@ by {
            assert(head[j] == catalogs[j]);
        }
        last_catalog_is_kept(before, head, i);
        assert(catalogs[catalogs.len() - 1].provider@ != catalogs[i].provider@);
    }
}

proof fn other_catalogs_stay(
    before: Map<Seq<char>, ModelCatalog>,
    catalogs: Seq<ModelCatalog>,
    id: Seq<char>,
)
    requires
        forall|j: int| 0 <= j < catalogs.len() ==> (#[trigger] catalogs[j]).provider@ != id,
    ensures
        with_catalogs(before, catalogs).contains_key(id) <==> before.contains_key(id),
        before.contains_key(id) ==> with_catalogs(before, catalogs)[id] == before[id],
    decreases catalogs.len(),
{
    if catalogs.len() > 0 {
        let head = catalogs.drop_last();
        assert forall|j: int| 0 <= j < head.len() implies (#[trigger] head[j]).provider@ != id by {
            assert(catalogs[j].provider@ != id);
        }
        other_catalogs_stay(before, head, id);
        assert(catalogs[catalogs.len() - 1].provider@ != id);
    }
}

/// The models of a provider are those of the last catalog that came for it; a provider that nothing came for keeps
/// its own.
pub proof fn catalogs_are_those_that_came(
    s: &mut CatalogState,
    providers: &Vec<String>,
    generation: u64,
    t: &mut CatalogState,
    catalogs: Vec<ModelCatalog>,
    r: bool,
    i: int,
    id: Seq<char>,
)
    requires
        call_ensures(CatalogState::begin_refresh, (s, providers), generation),
        *old(t) == *final(s),
        call_ensures(CatalogState::finish_refresh, (t, generation, Ok(catalogs)), r),
    ensures
        r,
        0 <= i < providers@.len() ==> final(s).pending@.contains(providers@[i]@),
        !final(t).pending@.contains(id),
        !final(t).errors@.contains_key(id),
        0 <= i < catalogs@.len() && (forall|j: int|
            i < j < catalogs@.len() ==> (#[trigger] catalogs@[j]).provider@
                != catalogs@[i].provider@) ==> final(t).catalogs@.contains_key(
            catalogs@[i].provider@,
        ) && final(t).catalogs@[catalogs@[i].provider@] == catalogs@[i],
        (forall|j: int| 0 <= j < catalogs@.len() ==> (#[trigger] catalogs@[j]).provider@ != id) ==> (
        final(t).catalogs@.contains_key(id) <==> old(s).catalogs@.contains_key(id)) && (old(
            s,
        ).catalogs@.contains_key(id) ==> final(t).catalogs@[id] == old(s).catalogs@[id]),
{
    if 0 <= i < providers@.len() {
        assert(views(providers@)[i] == providers@[i]@);
        assert(views(providers@).contains(providers@[i]@));
    }
    if 0 <= i < catalogs@.len() && (forall|j: int|
        i < j < catalogs@.len() ==> (#[trigger] catalogs@[j]).provider@ != catalogs@[i].provider@) {
        last_catalog_is_kept(old(s).catalogs@, catalogs@, i);
    }
    if forall|j: int| 0 <= j < catalogs@.len() ==> (#[trigger] catalogs@[j]).provider@ != id {
        other_catalogs_stay(old(s).catalogs@, catalogs@, id);
    }
}

/// A refresh that failed keeps every catalog, and one that was overtaken changes nothing.
pub proof fn catalogs_survive_a_failure(
    s: &mut CatalogState,
    generation: u64,
    error: String,
    r: bool,
)
    requires
        call_ensures(CatalogState::finish_refresh, (s, generation, Err(error)), r),
    ensures
        final(s).catalogs == old(s).catalogs,
        r <==> generation == old(s).generation,
        !r ==> *final(s) == *old(s),
        r ==> final(s).errors@.contains_key("all"@) && final(s).errors@["all"@]@ == error@,
{
}

proof fn first_phase_is_found(phases: Seq<AuthPhase>, provider: Seq<char>, i: int, from: int)
    requires
        0 <= from <= i < phases.len(),
        is_at(phases[i], provider),
        forall|j: int| 0 <= j < i ==> !is_at(#[trigger] phases[j], provider),
    ensures
        phase_position(phases, provider, from) == i,
    decreases i - from,
{
    if from < i {
        assert(!is_at(phases[from], provider));
        first_phase_is_found(phases, provider, i, from + 1);
    }
}

proof fn no_phase_is_found(phases: Seq<AuthPhase>, provider: Seq<char>, from: int)
    requires
        0 <= from <= phases.len(),
        forall|j: int| 0 <= j < phases.len() ==> !is_at(#[trigger] phases[j], provider),
    ensures
        phase_position(phases, provider, from) == phases.len(),
    decreases phases.len() - from,
{
    if from < phases.len() {
        assert(!is_at(phases[from], provider));
        no_phase_is_found(phases, provider, from + 1);
    }
}

/// Every provider has its card, in their order, with its own name, its own account, and the first attempt to sign
/// in at it: a key is asked for where that attempt waits for one.
pub proof fn every_provider_has_its_card(
    presets: &Vec<ExternalProvider>,
    auth: &AuthState,
    numbers: MethodNumbers,
    r: Vec<ProviderCard>,
    k: int,
    i: int,
)
    requires
        call_ensures(render_builtin_provider_cards, (presets, auth, numbers), r),
        0 <= k < presets@.len(),
    ensures
        r@.len() == presets@.len(),
        r@[k].name@ == presets@[k].name@,
        r@[k].logout_id@ == "logout-provider-"@ + presets@[k].id@,
        0 <= i < auth.phases@.len() && is_at(auth.phases@[i], presets@[k].id@) && (forall|j: int|
            0 <= j < i ==> !is_at(#[trigger] auth.phases@[j], presets@[k].id@)) ==> r@[k].wants_key
            == (auth.phases@[i] is AwaitingApiKey) && (r@[k].cancel is Some
            <==> auth.phases@[i] is AwaitingApiKey || auth.phases@[i] is AwaitingBrowser
            || auth.phases@[i] is AwaitingDevice) && r@[k].summary is Some,
        (forall|j: int|
            0 <= j < auth.phases@.len() ==> !is_at(#[trigger] auth.phases@[j], presets@[k].id@))
            ==> !r@[k].wants_key && r@[k].cancel is None && r@[k].summary is None,
{
    let id = presets@[k].id@;
    assert(crate::settings::auth::is_card(r@[k], presets@[k], *auth, numbers));
    assert(opt_label(r@[k].summary) is Some <==> r@[k].summary is Some);
    if 0 <= i < auth.phases@.len() && is_at(auth.phases@[i], id) && (forall|j: int|
        0 <= j < i ==> !is_at(#[trigger] auth.phases@[j], id)) {
        first_phase_is_found(auth.phases@, id, i, 0);
    }
    if forall|j: int| 0 <= j < auth.phases@.len() ==> !is_at(#[trigger] auth.phases@[j], id) {
        no_phase_is_found(auth.phases@, id, 0);
    }
}

/// There is always a way to sign in, and none is offered twice; a key is asked for unless the provider signs in by
/// the browser or by a code.
pub proof fn there_is_a_way_to_sign_in(preset: &str, r: Vec<LoginMethod>)
    requires
        call_ensures(preset_login_methods, (preset,), r),
    ensures
        r@.len() > 0,
        forall|i: int, j: int| 0 <= i < j < r@.len() ==> r@[i] != r@[j],
        r@.contains(LoginMethod::ApiKey) <==> preset@ != "openai-codex"@ && preset@ != "xai-oauth"@,
        r@.contains(LoginMethod::OauthBrowser) <==> preset@ == "openai-codex"@,
        r@.contains(LoginMethod::OauthDevice) <==> preset@ == "openai-codex"@ || preset@
            == "xai-oauth"@,
{
    if preset@ == "openai-codex"@ {
        assert(r@[0] == LoginMethod::OauthBrowser && r@[1] == LoginMethod::OauthDevice);
    } else {
        assert(r@.len() == 1);
        if preset@ == "xai-oauth"@ {
            assert(r@[0] == LoginMethod::OauthDevice);
        } else {
            assert(r@[0] == LoginMethod::ApiKey);
        }
    }
}

/// An attempt tells at which provider it is and which one it is; it has a page to visit while it waits for the
/// browser or for a code.
pub proof fn attempts_tell_of_themselves(
    phase: &AuthPhase,
    at: Option<&str>,
    login: Option<u128>,
    url: Option<&str>,
    told: Label,
)
    requires
        call_ensures(AuthPhase::provider, (phase,), at),
        call_ensures(AuthPhase::login_id, (phase,), login),
        call_ensures(auth_phase_url, (phase,), url),
        call_ensures(auth_phase_summary, (phase,), told),
    ensures
        at is None <==> *phase is Idle,
        at is Some ==> is_at(*phase, (at->0)@),
        login is None <==> *phase is Idle,
        url is Some <==> *phase is AwaitingBrowser || *phase is AwaitingDevice,
        *phase matches AuthPhase::AwaitingBrowser { login_id, provider, url: page } ==> login
            == Some(login_id) && (url->0)@ == page@ && told@ == LabelView::Plain(
            "Opening browser: "@ + page@,
        ),
        *phase matches AuthPhase::AwaitingDevice {
            login_id,
            provider,
            user_code,
            verification_url,
            instructions,
        } ==> login == Some(login_id) && (url->0)@ == verification_url@ && told@
            == LabelView::Plain("Code "@ + user_code@ + " at "@ + verification_url@),
        *phase matches AuthPhase::AwaitingApiKey { login_id, provider, instructions } ==> login
            == Some(login_id) && told@ == LabelView::Plain(instructions@),
        *phase matches AuthPhase::Completed { login_id, provider } ==> login == Some(login_id)
            && told@ == LabelView::Message("providers.connected"@),
        *phase matches AuthPhase::Failed { login_id, provider, message } ==> login == Some(login_id)
            && told@ == LabelView::Plain(message@),
{
    assert(str_view(at) is Some <==> at is Some);
    assert(str_view(url) is Some <==> url is Some);
}

/// The card of a provider offers every way to sign in at it, and shows the account where there is one.
pub proof fn a_card_offers_every_way_to_sign_in(
    preset: &ExternalProvider,
    auth: &AuthState,
    numbers: MethodNumbers,
    card: ProviderCard,
    id: &str,
    ways: Vec<LoginMethod>,
    i: int,
)
    requires
        call_ensures(render_builtin_provider_card, (preset, auth, numbers), card),
        id@ == preset.id@,
        call_ensures(preset_login_methods, (id,), ways),
    ensures
        card.logins@.len() == ways@.len(),
        0 <= i < ways@.len() ==> card.logins@[i].method == ways@[i],
        auth.statuses@.contains_key(preset.id@) ==> card.status@ == LabelView::Plain(
            auth.statuses@[preset.id@].method@,
        ),
        !auth.statuses@.contains_key(preset.id@) ==> card.status@ == LabelView::Message(
            "providers.not_authenticated"@,
        ),
{
    let v = login_button_views(card.logins@);
    let w = login_buttons(preset.id@, numbers);
    assert(v == w);
    assert(v.len() == card.logins@.len());
    assert(w.len() == ways@.len());
    if 0 <= i < ways@.len() {
        assert(v[i] == card.logins@[i]@);
        assert(w[i].method == ways@[i]);
    }
}

} // verus!
