//! What the form of a provider promises: what it opens with, what it shows, and how the format goes round.
use crate::providers::{provider_position, provider_views, ExternalProvider, ProviderView};
use crate::settings::provider_form::{
    field_views, render_provider_form, render_providers_settings, text_position, ProviderDraft,
    ProviderForm, ProviderSettings, ProvidersPage,
};
use crate::text::{decimal, opt_view, views};
use vstd::prelude::*;

verus! {

proof fn text_found(list: Seq<Seq<char>>, text: Seq<char>, i: int)
    requires
        0 <= i <= list.len(),
    ensures
        i <= text_position(list, text, i) <= list.len(),
        text_position(list, text, i) < list.len() ==> list[text_position(list, text, i)] == text,
        forall|k: int| i <= k < text_position(list, text, i) ==> #[trigger] list[k] != text,
    decreases list.len() - i,
{
    if i < list.len() && list[i] != text {
        text_found(list, text, i + 1);
    }
}

/// The next format is the one behind the current one, and the first behind the last; the providers stay.
pub proof fn formats_come_one_after_another(
    s: &mut ProviderSettings,
    formats: &Vec<String>,
    i: int,
)
    requires
        formats@.len() > 0,
        call_ensures(ProviderSettings::next_api_format, (s, formats), ()),
        0 <= i < formats@.len(),
        formats@[i]@ == old(s).api_format@,
        forall|k: int| 0 <= k < i ==> (#[trigger] formats@[k])@ != old(s).api_format@,
    ensures
        i + 1 < formats@.len() ==> final(s).api_format@ == formats@[i + 1]@,
        i + 1 == formats@.len() ==> final(s).api_format@ == formats@[0]@,
        final(s).providers == old(s).providers,
        final(s).expanded == old(s).expanded,
{
    let v = views(formats@);
    assert(v.len() == formats@.len());
    assert forall|k: int| 0 <= k < v.len() implies #[trigger] v[k] == formats@[k]@ by {}
    text_found(v, old(s).api_format@, 0);
    let at = text_position(v, old(s).api_format@, 0);
    assert(v[i] == old(s).api_format@);
    if at < i {
        assert(v[at] == formats@[at]@);
    }
}

/// A form that is opened for a provider shows its fields and its format; for one that is new it shows the format
/// that is usual and leaves the fields of its own empty. Nothing is saved by it.
pub proof fn a_form_opens_with_its_provider(
    s: &mut ProviderSettings,
    id: &String,
    format: &str,
    r: ProviderDraft,
    i: int,
)
    requires
        call_ensures(ProviderSettings::open_provider_form, (s, id, format), r),
        0 <= i < old(s).providers@.len(),
        old(s).providers@[i].id@ == id@,
        forall|k: int| 0 <= k < i ==> (#[trigger] old(s).providers@[k]).id@ != id@,
    ensures
        final(s).providers == old(s).providers,
        final(s).expanded is Some,
        (final(s).expanded->0)@ == id@,
        final(s).api_format@ == old(s).providers@[i].api_format@,
        r.id@ == old(s).providers@[i].id@,
        r.name@ == old(s).providers@[i].name@,
        r.base_url@ == old(s).providers@[i].base_url@,
        r.default_model@ == old(s).providers@[i].default_model@,
        r.context_window@ == decimal(old(s).providers@[i].context_window as nat),
        r.max_output_tokens@ == decimal(old(s).providers@[i].max_output_tokens as nat),
        old(s).providers@[i].api_key_env matches Some(key) ==> r.api_key_env@ == key@,
{
    let list = old(s).providers@;
    provider_stands_there(list, id@, i);
    assert(opt_view(list[i].api_key_env) is Some <==> list[i].api_key_env is Some);
}

proof fn provider_stands_there(list: Seq<ExternalProvider>, id: Seq<char>, i: int)
    requires
        0 <= i < list.len(),
        list[i].id@ == id,
        forall|k: int| 0 <= k < i ==> (#[trigger] list[k]).id@ != id,
    ensures
        provider_position(provider_views(list), id, 0) == i,
        provider_views(list).len() == list.len(),
        provider_views(list)[i] == list[i]@,
{
    let v = provider_views(list);
    assert forall|k: int| 0 <= k < v.len() implies (#[trigger] v[k]).id == list[k].id@ by {}
    position_walks(v, id, i, 0);
}

proof fn position_walks(v: Seq<ProviderView>, id: Seq<char>, i: int, from: int)
    requires
        0 <= from <= i < v.len(),
        v[i].id == id,
        forall|k: int| 0 <= k < i ==> (#[trigger] v[k]).id != id,
    ensures
        provider_position(v, id, from) == i,
    decreases i - from,
{
    if from < i {
        assert(v[from].id != id);
        position_walks(v, id, i, from + 1);
    }
}

/// Leaving a form closes it, empties its fields and keeps the providers.
pub proof fn leaving_a_form_keeps_the_providers(s: &mut ProviderSettings, r: ProviderDraft)
    requires
        call_ensures(ProviderSettings::cancel_provider_edit, (s,), r),
    ensures
        final(s).expanded is None,
        final(s).providers == old(s).providers,
        final(s).last_provider == old(s).last_provider,
        r.id@.len() == 0,
        r.name@.len() == 0,
        r.base_url@.len() == 0,
        r.context_window@.len() == 0,
{
}

/// The page lists every provider in its order, with its name, its model and its address, and marks the one whose
/// form is open; the form is shown below.
pub proof fn every_provider_is_listed(
    s: &ProviderSettings,
    r: ProvidersPage,
    i: int,
)
    requires
        call_ensures(render_providers_settings, (s,), r),
        0 <= i < s.providers@.len(),
    ensures
        !r.none,
        r.rows@.len() == s.providers@.len(),
        r.rows@[i].label@ == s.providers@[i].name@ + " · "@ + s.providers@[i].default_model@,
        r.rows@[i].detail@ == s.providers@[i].id@ + " · "@ + s.providers@[i].api_format@,
        r.rows@[i].base_url@ == s.providers@[i].base_url@,
        r.rows@[i].edit_id@ == "edit-provider-"@ + s.providers@[i].id@,
        r.rows@[i].delete_id@ == "delete-provider-"@ + s.providers@[i].id@,
        r.rows@[i].editing <==> s.expanded is Some && (s.expanded->0)@ == s.providers@[i].id@,
        r.form is Some <==> s.expanded is Some,
{
    assert(r.rows@[i].base_url@ == s.providers@[i]@.base_url);
    assert(opt_view(s.expanded) is Some <==> s.expanded is Some);
}

/// The form asks for an id only where the provider is new, and shows the format that is chosen.
pub proof fn only_a_new_provider_is_asked_for_its_id(
    s: &ProviderSettings,
    id: &str,
    r: ProviderForm,
    i: int,
)
    requires
        call_ensures(render_provider_form, (s, id), r),
    ensures
        r.api_format@ == s.api_format@,
        0 <= i < s.providers@.len() && s.providers@[i].id@ == id@ && (forall|k: int|
            0 <= k < i ==> (#[trigger] s.providers@[k]).id@ != id@) ==> r.fixed_id is Some && (
        r.fixed_id->0)@ == id@ && r.fields@.len() == 8 && r.fields@[0].id@ == "provider-name"@,
        (forall|k: int| 0 <= k < s.providers@.len() ==> (#[trigger] s.providers@[k]).id@ != id@)
            ==> r.fixed_id is None && r.fields@.len() == 9 && r.fields@[0].id@ == "provider-id"@,
{
    let list = s.providers@;
    let v = field_views(r.fields@);
    assert(v.len() == r.fields@.len());
    assert(opt_view(r.fixed_id) is Some <==> r.fixed_id is Some);
    if 0 <= i < list.len() && list[i].id@ == id@ && (forall|k: int|
        0 <= k < i ==> (#[trigger] list[k]).id@ != id@) {
        provider_stands_there(list, id@, i);
        assert(v[0] == r.fields@[0]@);
    }
    if forall|k: int| 0 <= k < list.len() ==> (#[trigger] list[k]).id@ != id@ {
        let p = provider_views(list);
        crate::providers::provider_position_finds(p, id@, 0);
        let at = provider_position(p, id@, 0);
        if at < p.len() {
            assert(p[at].id == list[at].id@);
        }
        assert(v[0] == r.fields@[0]@);
    }
}

} // verus!
