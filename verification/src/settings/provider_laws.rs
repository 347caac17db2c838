//! What typing, saving, editing and deleting a provider promise.
use crate::composer::picker_rows::FavoriteModel;
use crate::providers::{
    pair_views, provider_position, provider_position_finds, provider_views, ExternalProvider,
    ProviderView,
};
use crate::session::AgentSession;
use crate::settings::provider_form::{
    drafted, fields_of, filled, has_duplicates, header_lines, header_name, header_value,
    headers_of, is_complete, names_header, parse_provider_draft_policy, provider_with, save_done,
    saved, typed_headers, typed_models, with_header, without_provider, DraftError, ProviderChecks,
    ProviderDraft, ProviderSettings, SaveError,
};
use crate::text::{
    ascii_lowered, decimal, first_index, first_index_finds, joined, opt_view, parsed, parts,
    trimmed,
};
use crate::text_laws::{
    cutting_undoes_joining, digits_stand_for_their_number, is_tight, only_white_space_around_goes,
    spaced_list_is_cut,
};
use vstd::prelude::*;

verus! {

proof fn tight_stays(s: Seq<char>)
    requires
        is_tight(s),
    ensures
        trimmed(s) == s,
        trimmed(seq![' '] + s) == s,
{
    let none = Seq::<char>::empty();
    only_white_space_around_goes(none, s, none);
    assert(none + s + none =~= s);
    only_white_space_around_goes(seq![' '], s, none);
    assert(seq![' '] + s + none =~= seq![' '] + s);
}

/// A provider has what was typed for it: every field, without the white space around it, and the protocol that
/// was chosen. The variable for the key is there where one was typed.
pub proof fn a_provider_has_what_was_typed(
    d: &ProviderDraft,
    api_format: &str,
    r: Result<ExternalProvider, DraftError>,
)
    requires
        call_ensures(parse_provider_draft_policy, (d, api_format), r),
        r is Ok,
    ensures
        ({
            let p = r->Ok_0;
            &&& p.id@ == trimmed(d.id@)
            &&& p.name@ == trimmed(d.name@)
            &&& p.base_url@ == trimmed(d.base_url@)
            &&& p.api_format@ == api_format@
            &&& p.default_model@ == trimmed(d.default_model@)
            &&& p.api_key_env is Some <==> trimmed(d.api_key_env@).len() > 0
            &&& p.api_key_env is Some ==> (p.api_key_env->0)@ == trimmed(d.api_key_env@)
            &&& forall|n: nat|
                trimmed(d.context_window@) == #[trigger] decimal(n) ==> p.context_window == n
            &&& forall|n: nat|
                trimmed(d.max_output_tokens@) == #[trigger] decimal(n) ==> p.max_output_tokens == n
        }),
{
    let p = r->Ok_0;
    assert(p@.id == p.id@);
    assert(opt_view(p.api_key_env) == p@.api_key_env);
    assert forall|n: nat| trimmed(d.context_window@) == #[trigger] decimal(n) implies
        p.context_window == n by {
        digits_stand_for_their_number(n);
        assert(parsed(decimal(n), u64::MAX as nat) is Some);
    }
    assert forall|n: nat| trimmed(d.max_output_tokens@) == #[trigger] decimal(n) implies
        p.max_output_tokens == n by {
        digits_stand_for_their_number(n);
        assert(parsed(decimal(n), u64::MAX as nat) is Some);
    }
}

/// Tells whether a text can stand in a list with commas between its items.
pub open spec fn is_item(s: Seq<char>) -> bool {
    s.len() > 0 && is_tight(s) && !s.contains(',')
}

proof fn filled_adds(a: Seq<char>, list: Seq<Seq<char>>)
    requires
        trimmed(a).len() > 0,
    ensures
        filled(seq![a] + list) == seq![trimmed(a)] + filled(list),
    decreases list.len(),
{
    let all = seq![a] + list;
    if list.len() == 0 {
        assert(all.drop_last() =~= Seq::<Seq<char>>::empty());
        assert(filled(all.drop_last()) =~= Seq::<Seq<char>>::empty());
        assert(filled(all) =~= seq![trimmed(a)] + filled(list));
    } else {
        assert(all.drop_last() =~= seq![a] + list.drop_last());
        filled_adds(a, list.drop_last());
        assert(filled(all) =~= seq![trimmed(a)] + filled(list));
    }
}

proof fn filled_items(list: Seq<Seq<char>>, items: Seq<Seq<char>>)
    requires
        list.len() == items.len(),
        forall|i: int|
            0 <= i < items.len() ==> trimmed(#[trigger] list[i]) == items[i] && items[i].len() > 0,
    ensures
        filled(list) == items,
    decreases list.len(),
{
    if list.len() > 0 {
        filled_items(list.drop_last(), items.drop_last());
        assert(trimmed(list[list.len() - 1]) == items[items.len() - 1]);
        assert(filled(list) =~= items);
    } else {
        assert(filled(list) =~= items);
    }
}

/// A list of models that is typed with commas between them is that list.
pub proof fn listed_models_are_read(models: Seq<Seq<char>>)
    requires
        models.len() > 0,
        forall|i: int| 0 <= i < models.len() ==> is_item(#[trigger] models[i]),
    ensures
        typed_models(joined(models, ", "@)) == models,
{
    reveal_strlit(", ");
    assert(", "@ =~= seq![',', ' ']);
    let none = Seq::<char>::empty();
    assert forall|i: int| 0 <= i < models.len() implies !(#[trigger] models[i]).contains(',') by {
        assert(is_item(models[i]));
    }
    spaced_list_is_cut(none, models, ',');
    assert(none + joined(models, ", "@) =~= joined(models, ", "@));
    let cut = parts(joined(models, ", "@), ',');
    assert forall|i: int| 0 <= i < models.len() implies trimmed(#[trigger] cut[i]) == models[i]
        && models[i].len() > 0 by {
        assert(is_item(models[i]));
        tight_stays(models[i]);
        if i == 0 {
            assert(none + models[0] =~= models[0]);
        }
    }
    filled_items(cut, models);
}

/// Tells whether a header can be typed on a line.
pub open spec fn is_header(h: (Seq<char>, Seq<char>)) -> bool {
    &&& h.0.len() > 0 && is_tight(h.0) && !h.0.contains(':') && !h.0.contains('\n')
    &&& h.1.len() > 0 && is_tight(h.1) && !h.1.contains('\n')
    &&& ascii_lowered(h.0) != "authorization"@
    &&& ascii_lowered(h.0) != "x-api-key"@
    &&& ascii_lowered(h.0) != "host"@
    &&& ascii_lowered(h.0) != "content-length"@
    &&& ascii_lowered(h.0) != "content-type"@
    &&& ascii_lowered(h.0) != "anthropic-version"@
}

/// Tells whether some headers can be typed, a line for each.
pub open spec fn are_headers(list: Seq<(Seq<char>, Seq<char>)>) -> bool {
    &&& forall|i: int| 0 <= i < list.len() ==> is_header(#[trigger] list[i])
    &&& forall|i: int, j: int|
        0 <= i < j < list.len() ==> ascii_lowered((#[trigger] list[i]).0) != ascii_lowered(
            (#[trigger] list[j]).0,
        )
}

proof fn header_line_is_read(h: (Seq<char>, Seq<char>))
    requires
        is_header(h),
    ensures
        header_name(h.0 + ": "@ + h.1) == h.0,
        header_value(h.0 + ": "@ + h.1) == h.1,
        trimmed(h.0 + ": "@ + h.1).len() > 0,
        (h.0 + ": "@ + h.1).contains(':'),
        !(h.0 + ": "@ + h.1).contains('\n'),
{
    reveal_strlit(": ");
    let line = h.0 + ": "@ + h.1;
    let n = h.0.len() as int;
    assert(": "@ =~= seq![':', ' ']);
    assert(line[n] == ':');
    first_index_finds(line, ':', 0);
    let f = first_index(line, ':', 0);
    if f < n {
        assert(h.0[f] == ':');
    }
    assert(f == n);
    assert(line.take(n) =~= h.0);
    assert(line.skip(n + 1) =~= seq![' '] + h.1);
    tight_stays(h.0);
    tight_stays(h.1);
    assert(is_tight(line)) by {
        assert(line[0] == h.0[0]);
        assert(line.last() == h.1.last());
    }
    tight_stays(line);
    if line.contains('\n') {
        let i = line.index_of('\n');
        if i < n {
            assert(h.0[i] == '\n');
        } else if i >= n + 2 {
            assert(h.1[i - n - 2] == '\n');
        }
    }
}

proof fn header_lines_are_read(headers: Seq<(Seq<char>, Seq<char>)>)
    requires
        are_headers(headers),
    ensures
        headers_of(header_lines(headers)) == Ok::<Seq<(Seq<char>, Seq<char>)>, DraftError>(headers),
    decreases headers.len(),
{
    let lines = header_lines(headers);
    if headers.len() > 0 {
        let head = headers.drop_last();
        let h = headers.last();
        assert forall|i: int| 0 <= i < head.len() implies is_header(#[trigger] head[i]) by {
            assert(is_header(headers[i]));
        }
        header_lines_are_read(head);
        assert(lines.drop_last() =~= header_lines(head));
        assert(is_header(headers[headers.len() - 1]));
        header_line_is_read(h);
        assert(lines.last() == h.0 + ": "@ + h.1);
        assert(!names_header(head, h.0)) by {
            if names_header(head, h.0) {
                let i = choose|i: int|
                    0 <= i < head.len() && ascii_lowered((#[trigger] head[i]).0) == ascii_lowered(
                        h.0,
                    );
                assert(ascii_lowered(headers[i].0) != ascii_lowered(
                    headers[headers.len() - 1].0,
                ));
            }
        }
        assert(with_header(head, lines.last()) == Ok::<Seq<(Seq<char>, Seq<char>)>, DraftError>(
            head.push((h.0, h.1)),
        ));
        assert(head.push((h.0, h.1)) =~= headers);
    } else {
        assert(lines =~= Seq::<Seq<char>>::empty());
        assert(headers =~= Seq::<(Seq<char>, Seq<char>)>::empty());
    }
}

/// Headers that are typed, a line for each with a colon behind the name, are those headers.
pub proof fn listed_headers_are_read(headers: Seq<(Seq<char>, Seq<char>)>)
    requires
        are_headers(headers),
    ensures
        typed_headers(joined(header_lines(headers), "\n"@)) == Ok::<
            Seq<(Seq<char>, Seq<char>)>,
            DraftError,
        >(headers),
{
    reveal_strlit("\n");
    assert("\n"@ =~= seq!['\n']);
    let lines = header_lines(headers);
    if headers.len() == 0 {
        let none = Seq::<char>::empty();
        assert(joined(lines, "\n"@) =~= none);
        first_index_finds(none, '\n', 0);
        assert(parts(none, '\n') =~= seq![none]);
        assert(seq![none].drop_last() =~= Seq::<Seq<char>>::empty());
        tight_stays(none);
        assert(headers =~= Seq::<(Seq<char>, Seq<char>)>::empty());
        assert(headers_of(seq![none].drop_last()) == Ok::<Seq<(Seq<char>, Seq<char>)>, DraftError>(
            Seq::empty(),
        ));
    } else {
        assert forall|i: int| 0 <= i < lines.len() implies !(#[trigger] lines[i]).contains('\n') by {
            assert(is_header(headers[i]));
            header_line_is_read(headers[i]);
        }
        cutting_undoes_joining(lines, '\n');
        header_lines_are_read(headers);
    }
}

/// Tells whether a provider is one that can be typed: no text has white space around it, the models can stand in
/// a list and differ, and the headers can stand on lines.
pub open spec fn can_be_typed(p: ExternalProvider) -> bool {
    &&& is_tight(p.id@) && is_tight(p.name@) && is_tight(p.base_url@) && is_tight(p.default_model@)
    &&& p.api_key_env matches Some(env) ==> env@.len() > 0 && is_tight(env@)
    &&& p.models@.len() > 0
    &&& forall|i: int| 0 <= i < p.models@.len() ==> is_item((#[trigger] p.models@[i])@)
    &&& forall|i: int, j: int|
        0 <= i < j < p.models@.len() ==> ascii_lowered((#[trigger] p.models@[i])@) != ascii_lowered(
            (#[trigger] p.models@[j])@,
        )
    &&& are_headers(pair_views(p.headers@))
}

/// Tells whether two providers are the same in every field.
pub open spec fn same_provider(a: ExternalProvider, b: ExternalProvider) -> bool {
    &&& a.id@ == b.id@
    &&& a.name@ == b.name@
    &&& a.base_url@ == b.base_url@
    &&& a.api_format@ == b.api_format@
    &&& a.api_key_env is Some <==> b.api_key_env is Some
    &&& a.api_key_env is Some ==> (a.api_key_env->0)@ == (b.api_key_env->0)@
    &&& a.default_model@ == b.default_model@
    &&& a.context_window == b.context_window
    &&& a.max_output_tokens == b.max_output_tokens
    &&& a.models@.len() == b.models@.len()
    &&& forall|i: int| 0 <= i < a.models@.len() ==> (#[trigger] a.models@[i])@ == b.models@[i]@
    &&& a.headers@.len() == b.headers@.len()
    &&& forall|i: int|
        0 <= i < a.headers@.len() ==> (#[trigger] a.headers@[i]).0@ == b.headers@[i].0@
            && a.headers@[i].1@ == b.headers@[i].1@
}

proof fn same_views_same_provider(a: ExternalProvider, b: ExternalProvider)
    requires
        a@ == b@,
    ensures
        same_provider(a, b),
{
    assert(a@.models.len() == a.models@.len() && b@.models.len() == b.models@.len());
    assert(a@.headers.len() == a.headers@.len() && b@.headers.len() == b.headers@.len());
    assert(opt_view(a.api_key_env) == opt_view(b.api_key_env));
    assert forall|i: int| 0 <= i < a.models@.len() implies (#[trigger] a.models@[i])@
        == b.models@[i]@ by {
        assert(a@.models[i] == b@.models[i]);
    }
    assert forall|i: int| 0 <= i < a.headers@.len() implies (#[trigger] a.headers@[i]).0@
        == b.headers@[i].0@ && a.headers@[i].1@ == b.headers@[i].1@ by {
        assert(a@.headers[i] == b@.headers[i]);
    }
}

/// Editing a provider and saving it as it stands changes nothing: what the fields hold of a provider reads as
/// that provider again, its variable for the key, its headers and its models included.
pub proof fn the_fields_of_a_provider_read_as_it(
    settings: &mut ProviderSettings,
    k: int,
    id: Option<String>,
    default_format: &str,
    draft: ProviderDraft,
    chosen: &str,
    r: Result<ExternalProvider, DraftError>,
)
    requires
        0 <= k < old(settings).providers@.len(),
        forall|j: int|
            0 <= j < k ==> (#[trigger] old(settings).providers@[j]).id@ != old(
                settings,
            ).providers@[k].id@,
        can_be_typed(old(settings).providers@[k]),
        id is Some,
        (id->0)@ == old(settings).providers@[k].id@,
        call_ensures(ProviderSettings::begin_provider_edit, (settings, &id, default_format), draft),
        chosen@ == final(settings).api_format@,
        call_ensures(parse_provider_draft_policy, (&draft, chosen), r),
    ensures
        r is Ok,
        same_provider(r->Ok_0, old(settings).providers@[k]),
        final(settings).providers == old(settings).providers,
{
    let list = provider_views(old(settings).providers@);
    let p = old(settings).providers@[k];
    provider_position_finds(list, p.id@, 0);
    let at = provider_position(list, p.id@, 0);
    found_at_first(list, p.id@, k, 0);
    assert(list[k] == p@);
    assert(at == k) by {
        if at < k {
            assert(list[at] == old(settings).providers@[at]@);
            assert(old(settings).providers@[at].id@ != p.id@);
        }
    }
    assert(provider_with(list, p.id@) == Some(p@));
    let d = draft;
    assert(d@ == fields_of(p.id@, Some(p@)));
    let v = p@;
    assert(v.models.len() > 0);
    assert forall|i: int| 0 <= i < v.models.len() implies is_item(#[trigger] v.models[i]) by {
        assert(is_item(p.models@[i]@));
    }
    listed_models_are_read(v.models);
    listed_headers_are_read(v.headers);
    tight_stays(v.id);
    tight_stays(v.name);
    tight_stays(v.base_url);
    tight_stays(v.default_model);
    let none = Seq::<char>::empty();
    tight_stays(none);
    if v.api_key_env is Some {
        tight_stays(v.api_key_env->0);
    }
    digits_stand_for_their_number(v.context_window as nat);
    digits_stand_for_their_number(v.max_output_tokens as nat);
    digits_are_tight(v.context_window as nat);
    digits_are_tight(v.max_output_tokens as nat);
    assert(!has_duplicates(v.models)) by {
        if has_duplicates(v.models) {
            let (i, j) = choose|i: int, j: int|
                0 <= i < j < v.models.len() && ascii_lowered(#[trigger] v.models[i])
                    == ascii_lowered(#[trigger] v.models[j]);
            assert(ascii_lowered(p.models@[i]@) != ascii_lowered(p.models@[j]@));
        }
    }
    assert(d.models@ == joined(v.models, ", "@));
    assert(d.headers@ == joined(header_lines(v.headers), "\n"@));
    assert(parsed(decimal(v.context_window as nat), u64::MAX as nat) == Some(
        v.context_window as nat,
    ));
    assert(parsed(decimal(v.max_output_tokens as nat), u64::MAX as nat) == Some(
        v.max_output_tokens as nat,
    ));
    assert(drafted(d, chosen@) == Ok::<ProviderView, DraftError>(v));
    same_views_same_provider(r->Ok_0, p);
}

proof fn digits_are_tight(n: nat)
    ensures
        trimmed(decimal(n)) == decimal(n),
{
    digits_stand_for_their_number(n);
    assert(crate::text::is_digit(decimal(n)[0]));
    assert(crate::text::is_digit(decimal(n)[decimal(n).len() - 1]));
    tight_stays(decimal(n));
}

proof fn found_at_first(list: Seq<ProviderView>, id: Seq<char>, k: int, i: int)
    requires
        0 <= i <= k < list.len(),
        list[k].id == id,
    ensures
        i <= provider_position(list, id, i) <= k,
        list[provider_position(list, id, i)].id == id,
    decreases k - i,
{
    if list[i].id != id {
        found_at_first(list, id, k, i + 1);
    }
}

/// A new provider is refused where a model stands in its list twice, where a limit is no number, or where a
/// header cannot be used; what is refused is refused for the first of these reasons.
pub proof fn a_draft_is_refused_for_a_reason(
    d: &ProviderDraft,
    api_format: &str,
    r: Result<ExternalProvider, DraftError>,
)
    requires
        call_ensures(parse_provider_draft_policy, (d, api_format), r),
    ensures
        trimmed(d.context_window@).len() == 0 ==> r is Err,
        trimmed(d.max_output_tokens@).len() == 0 ==> r is Err,
        r is Ok ==> forall|i: int, j: int|
            0 <= i < j < (r->Ok_0).models@.len() ==> ascii_lowered(
                (#[trigger] (r->Ok_0).models@[i])@,
            ) != ascii_lowered((#[trigger] (r->Ok_0).models@[j])@),
        r is Err && r->Err_0 == DraftError::InvalidMaxOutputTokens ==> parsed(
            trimmed(d.context_window@),
            u64::MAX as nat,
        ) is Some,
{
    if r is Ok {
        let p = r->Ok_0;
        assert forall|i: int, j: int| 0 <= i < j < p.models@.len() implies ascii_lowered(
            (#[trigger] p.models@[i])@,
        ) != ascii_lowered((#[trigger] p.models@[j])@) by {
            assert(p@.models[i] == p.models@[i]@ && p@.models[j] == p.models@[j]@);
            assert(!has_duplicates(p@.models));
        }
    }
}

/// A provider that is saved is the one that was typed: it stands where the one that was edited stood, or at the
/// end, its fields stay open, and every other provider stays.
pub proof fn saving_keeps_what_was_typed(
    settings: &mut ProviderSettings,
    editing: &str,
    d: &ProviderDraft,
    checks: &ProviderChecks,
    r: Result<(), SaveError>,
    chosen: &str,
    typed: Result<ExternalProvider, DraftError>,
)
    requires
        call_ensures(ProviderSettings::save_provider, (settings, editing, d, checks), r),
        chosen@ == old(settings).api_format@,
        call_ensures(parse_provider_draft_policy, (d, chosen), typed),
    ensures
        r is Err ==> *final(settings) == *old(settings),
        typed is Err ==> r is Err,
        r is Ok ==> ({
            let before = old(settings).providers@;
            let after = final(settings).providers@;
            &&& exists|k: int|
                0 <= k < after.len() && same_provider(#[trigger] after[k], typed->Ok_0) && (
                before.len() == after.len() && before[k].id@ == editing@ || k == before.len()
                    && after.len() == before.len() + 1) && forall|j: int|
                    0 <= j < before.len() && j != k ==> (#[trigger] after[j])@ == before[j]@
            &&& final(settings).expanded is Some
            &&& (final(settings).expanded->0)@ == (typed->Ok_0).id@
            &&& (typed->Ok_0).name@.len() > 0
            &&& (typed->Ok_0).base_url@.len() > 0
            &&& (typed->Ok_0).models@.len() > 0
            &&& exists|m: int|
                0 <= m < (typed->Ok_0).models@.len() && (#[trigger] (typed->Ok_0).models@[m])@ == (
                typed->Ok_0).default_model@
        }),
{
    let before = old(settings).providers@;
    let after = final(settings).providers@;
    let list = provider_views(before);
    assert(save_done(*old(settings), *final(settings), editing@, *d, *checks, r));
    if r is Ok {
        let p = typed->Ok_0;
        provider_position_finds(list, editing@, 0);
        let at = provider_position(list, editing@, 0);
        let k: int = if at < list.len() {
            at
        } else {
            list.len() as int
        };
        assert(provider_views(after) == saved(list, editing@, p@));
        assert(provider_views(after).len() == after.len());
        assert(list.len() == before.len());
        assert(after[k]@ == provider_views(after)[k]);
        assert(saved(list, editing@, p@)[k] == p@);
        same_views_same_provider(after[k], p);
        if at < list.len() {
            assert(list[at] == before[at]@);
        }
        assert forall|j: int| 0 <= j < before.len() && j != k implies (#[trigger] after[j])@
            == before[j]@ by {
            assert(after[j]@ == provider_views(after)[j]);
            assert(list[j] == before[j]@);
        }
        assert(is_complete(p@, editing@, *checks));
        let m = p@.models.index_of(p@.default_model);
        assert(p@.models[m] == p.models@[m]@);
        assert(p@.models.len() == p.models@.len());
    }
}

/// A provider is deleted where nothing uses it: then it is gone, and every other one stays, in the same order.
/// One that is in use stays.
pub proof fn only_unused_providers_are_deleted(
    settings: &mut ProviderSettings,
    id: &str,
    sessions: &Vec<AgentSession>,
    favorites: &Vec<FavoriteModel>,
    r: bool,
)
    requires
        call_ensures(ProviderSettings::delete_provider, (settings, id, sessions, favorites), r),
    ensures
        old(settings).last_provider@ == id@ ==> !r,
        forall|i: int|
            0 <= i < sessions@.len() && (#[trigger] sessions@[i]).provider@ == id@ ==> !r,
        forall|i: int|
            0 <= i < favorites@.len() && (#[trigger] favorites@[i]).provider@ == id@ ==> !r,
        old(settings).last_provider@ != id@ && (forall|i: int|
            0 <= i < sessions@.len() ==> (#[trigger] sessions@[i]).provider@ != id@) && (forall|
            i: int,
        |
            0 <= i < favorites@.len() ==> (#[trigger] favorites@[i]).provider@ != id@) ==> r,
        !r ==> *final(settings) == *old(settings),
        r ==> forall|i: int|
            0 <= i < final(settings).providers@.len() ==> (#[trigger] final(settings).providers@[i]).id@ != id@,
        r ==> forall|j: int|
            0 <= j < old(settings).providers@.len() && (#[trigger] old(settings).providers@[j]).id@
                != id@ ==> exists|i: int|
                0 <= i < final(settings).providers@.len() && (#[trigger] final(settings).providers@[i])@ == old(settings).providers@[j]@,
        r ==> final(settings).last_provider == old(settings).last_provider,
{
    if r {
        let before = provider_views(old(settings).providers@);
        let after = provider_views(final(settings).providers@);
        assert(after.len() == final(settings).providers@.len());
        without_keeps_others(before, id@);
        assert forall|i: int| 0 <= i < final(settings).providers@.len() implies (#[trigger] final(settings).providers@[i]).id@ != id@ by {
            assert(after[i] == final(settings).providers@[i]@);
            assert(after[i].id != id@);
        }
        assert forall|j: int|
            0 <= j < old(settings).providers@.len() && (#[trigger] old(settings).providers@[j]).id@
                != id@ implies exists|i: int|
            0 <= i < final(settings).providers@.len() && (#[trigger] final(settings).providers@[i])@ == old(settings).providers@[j]@ by {
            assert(before[j] == old(settings).providers@[j]@);
            let i = choose|i: int| 0 <= i < after.len() && after[i] == before[j];
            assert(final(settings).providers@[i]@ == after[i]);
        }
    }
}

proof fn without_keeps_others(list: Seq<ProviderView>, id: Seq<char>)
    ensures
        forall|i: int|
            0 <= i < without_provider(list, id).len() ==> (
            #[trigger] without_provider(list, id)[i]).id != id,
        forall|j: int|
            0 <= j < list.len() && (#[trigger] list[j]).id != id ==> exists|i: int|
                0 <= i < without_provider(list, id).len() && without_provider(list, id)[i]
                    == list[j],
    decreases list.len(),
{
    if list.len() > 0 {
        let head = list.drop_last();
        let before = without_provider(head, id);
        let all = without_provider(list, id);
        without_keeps_others(head, id);
        assert forall|i: int| 0 <= i < all.len() implies (#[trigger] all[i]).id != id by {
            if i < before.len() {
                assert(before[i].id != id);
            }
        }
        assert forall|j: int| 0 <= j < list.len() && (#[trigger] list[j]).id != id implies exists|
            i: int,
        | 0 <= i < all.len() && all[i] == list[j] by {
            if j < head.len() {
                assert(head[j] == list[j]);
                let i = choose|i: int| 0 <= i < before.len() && before[i] == head[j];
                assert(all[i] == list[j]);
            } else {
                assert(all[all.len() - 1] == list[j]);
            }
        }
    }
}

} // verus!
