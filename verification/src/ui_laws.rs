//! What the looks promise: providers can be told apart, statuses are marked, and chips look as they were set; and
//! what is told of how full a task is.
use crate::protocol::{ActivityKind, SessionStatus};
use crate::runtime::state::Waku;
use crate::runtime::task_laws::{absent_task_is_not_found, first_task_is_found, is_absent, stands_first};
use crate::session::ContextUsage;
use crate::settings::pages::SettingsPage;
use crate::text::{ascii_lowered, decimal};
use crate::ui::{
    activity_icon, activity_noun, fnv1a, palette, presses, presses_alone, provider_color,
    provider_series_palette, provider_series_rgb, status_color, MenuChip, MenuChipLook,
    ProjectNameSelector, Theme,
};
use crate::usage_meter::toggle_usage_panel_action;
use vstd::prelude::*;
use vstd::utf8::encode_utf8;

verus! {

/// The colour of a provider is one of the palette and does not hang on the case of its name.
pub proof fn colours_come_from_the_palette(
    theme: &Theme,
    a: &str,
    b: &str,
    r: u32,
    s: u32,
    t: u32,
    colours: Vec<u32>,
)
    requires
        call_ensures(provider_series_rgb, (a,), r),
        call_ensures(provider_series_rgb, (b,), s),
        call_ensures(provider_color, (theme, a), t),
        call_ensures(provider_series_palette, (), colours),
    ensures
        colours@.contains(r),
        t == r,
        ascii_lowered(a@) == ascii_lowered(b@) ==> r == s,
{
    let k = match crate::ui::own_slot(ascii_lowered(a@)) {
        Some(slot) => slot,
        None => fnv1a(encode_utf8(ascii_lowered(a@))) as int % 8,
    };
    assert(0 <= k < 8);
    assert(colours@[k] == r);
}

/// Tells whether a text, in whatever case, is the name of a provider with a colour of its own.
pub open spec fn is_known(lower: Seq<char>) -> bool {
    lower == "anthropic"@ || lower == "openai"@ || lower == "xai"@ || lower == "opencode-zen"@
        || lower == "opencode-go"@ || lower == "xai-oauth"@ || lower == "openai-chat"@ || lower
        == "openai-codex"@
}

/// No two of the providers that are known have the same colour, and no two colours of the palette are the same.
pub proof fn known_providers_differ(a: &str, b: &str, r: u32, s: u32, colours: Vec<u32>)
    requires
        call_ensures(provider_series_rgb, (a,), r),
        call_ensures(provider_series_rgb, (b,), s),
        is_known(ascii_lowered(a@)),
        is_known(ascii_lowered(b@)),
        call_ensures(provider_series_palette, (), colours),
    ensures
        r == s ==> ascii_lowered(a@) == ascii_lowered(b@),
        forall|i: int, j: int| 0 <= i < j < colours@.len() ==> colours@[i] != colours@[j],
        colours@.len() == 8,
        ascii_lowered(a@) == "anthropic"@ ==> r == 0xD97757,
        ascii_lowered(a@) == "openai"@ ==> r == 0x10A37F,
        ascii_lowered(a@) == "xai"@ ==> r == 0x0EA5E9,
{
    reveal_strlit("anthropic");
    reveal_strlit("openai-responses");
    reveal_strlit("openai");
    reveal_strlit("xai");
    reveal_strlit("opencode-zen");
    reveal_strlit("opencode-go");
    reveal_strlit("xai-oauth");
    reveal_strlit("openai-chat");
    reveal_strlit("openai-codex");
    assert("anthropic"@.len() == 9 && "openai-responses"@.len() == 16 && "openai"@.len() == 6
        && "xai"@.len() == 3 && "opencode-zen"@.len() == 12 && "opencode-go"@.len() == 11
        && "xai-oauth"@.len() == 9 && "openai-chat"@.len() == 11 && "openai-codex"@.len() == 12);
    assert("anthropic"@[0] == 'a' && "xai-oauth"@[0] == 'x');
    assert("opencode-zen"@[3] == 'n' && "openai-codex"@[3] == 'n');
    assert("opencode-zen"@[4] == 'c' && "openai-codex"@[4] == 'a');
    assert("opencode-go"@[4] == 'c' && "openai-chat"@[4] == 'a');
}

/// One step of the hash that spreads names over the palette: the byte is mixed in, and the whole is multiplied.
pub open spec fn hash_step(h: u32, b: u8) -> u32 {
    (((h ^ (b as u32)) * 16777619) % 0x1_0000_0000) as u32
}

proof fn hash_folds(bytes: Seq<u8>)
    ensures
        fnv1a(bytes) == bytes.fold_left(2166136261u32, |h: u32, b: u8| hash_step(h, b)),
    decreases bytes.len(),
{
    if bytes.len() > 0 {
        hash_folds(bytes.drop_last());
    }
}

/// Any other provider has the colour at which the hash of its name points.
pub proof fn other_providers_are_spread(name: &str, r: u32, colours: Vec<u32>)
    requires
        call_ensures(provider_series_rgb, (name,), r),
        call_ensures(provider_series_palette, (), colours),
        !is_known(ascii_lowered(name@)),
        ascii_lowered(name@) != "openai-responses"@,
    ensures
        r == colours@[encode_utf8(ascii_lowered(name@)).fold_left(
            2166136261u32,
            |h: u32, b: u8| hash_step(h, b),
        ) as int % 8],
{
    hash_folds(encode_utf8(ascii_lowered(name@)));
}

/// A task that works is marked by the accent, one that waits by the warning, one that failed by the danger, and an
/// idle one by none of these.
pub proof fn statuses_are_marked(theme: &Theme, status: SessionStatus, r: u32)
    requires
        call_ensures(status_color, (theme, status), r),
    ensures
        status is Working || status is Connecting ==> r == theme.accent,
        status is Waiting ==> r == theme.warning,
        status is Failed ==> r == theme.danger,
        status is Idle ==> r == theme.text_ghost,
{
}

/// What an agent did is named by one word for one of it and by its plural for more.
pub proof fn activities_are_named(kind: ActivityKind, r: (&'static str, &'static str))
    requires
        call_ensures(activity_noun, (kind,), r),
    ensures
        kind is Reasoning ==> r.0@ == "activity.thought"@ && r.1@ == "activity.thoughts"@,
        kind is Command ==> r.0@ == "activity.command"@ && r.1@ == "activity.commands"@,
        kind is FileChange ==> r.0@ == "activity.file_edit"@ && r.1@ == "activity.file_edits"@,
        kind is FileRead ==> r.0@ == "activity.file_read"@ && r.1@ == "activity.file_reads"@,
        kind is FileSearch ==> r.0@ == "activity.file_search"@ && r.1@ == "activity.file_searches"@,
        kind is FileList ==> r.0@ == "activity.file_list"@ && r.1@ == "activity.file_lists"@,
        kind is Search ==> r.0@ == "activity.search"@ && r.1@ == "activity.searches"@,
        kind is Plan ==> r.0@ == "activity.plan_step"@ && r.1@ == "activity.plan_steps"@,
        kind is Tool ==> r.0@ == "activity.tool_call"@ && r.1@ == "activity.tool_calls"@,
{
}

/// What changes files, runs commands and thinks has an icon of its own; both kinds of searches share one.
pub proof fn activities_have_their_icons(
    kind: ActivityKind,
    other: ActivityKind,
    r: &'static str,
    s: &'static str,
)
    requires
        call_ensures(activity_icon, (kind,), r),
        call_ensures(activity_icon, (other,), s),
    ensures
        kind is Reasoning ==> r@ == "icons/sparkle.svg"@,
        kind is Command ==> r@ == "icons/terminal.svg"@,
        kind is FileChange ==> r@ == "icons/pencil.svg"@,
        kind is FileRead ==> r@ == "icons/file.svg"@,
        kind is FileSearch && other is Search ==> r@ == s@ && r@ == "icons/search.svg"@,
        kind is FileList ==> r@ == "icons/folder.svg"@,
        kind is Plan ==> r@ == "icons/list.svg"@,
        kind is Tool ==> r@ == "icons/wrench.svg"@,
{
}

/// The enter key and the space bar press a control, but not together with another key where that matters.
pub proof fn keys_press_controls(key: &str, modified: bool, r: bool, s: bool)
    requires
        call_ensures(presses, (key,), r),
        call_ensures(presses_alone, (key, modified), s),
    ensures
        r <==> key@ == "enter"@ || key@ == "space"@,
        s <==> r && !modified,
{
}

/// A chip looks as it was set: a disabled one is faint and does not answer to the pointer, a selected one is
/// lit, and it has a caret unless it was taken away.
pub proof fn chips_look_as_they_were_set(chip: MenuChip, theme: &Theme, r: MenuChipLook)
    requires
        call_ensures(MenuChip::render, (chip, theme), r),
    ensures
        r.hover is None <==> chip.disabled,
        chip.disabled ==> r.opacity < 100,
        !chip.disabled ==> r.opacity == 100,
        chip.selected ==> r.background == Some(theme.overlay),
        !chip.selected && !chip.outlined ==> r.background is None,
        !chip.selected && chip.outlined ==> r.background == Some(
            match chip.background {
                Some(color) => color,
                None => theme.raised,
            },
        ),
        r.border is Some <==> chip.outlined,
        r.caret is Some <==> chip.caret,
        r.icon is Some <==> chip.icon is Some,
        chip.icon matches Some((path, color)) ==> (r.icon->0).path == path && (r.icon->0).color
            == Some(color),
        chip.height matches Some(h) ==> r.height == h,
        r.label == chip.label,
{
}

/// The last setting of a chip counts, and each setting leaves the others.
pub proof fn settings_of_a_chip_stay_apart(
    chip: MenuChip,
    on: bool,
    a: MenuChip,
    b: MenuChip,
    c: MenuChip,
)
    requires
        call_ensures(MenuChip::disabled, (chip, on), a),
        call_ensures(MenuChip::selected, (a, !on), b),
        call_ensures(MenuChip::caret, (b, on), c),
    ensures
        c.disabled == on,
        c.selected == !on,
        c.caret == on,
        c.label == chip.label,
        c.icon == chip.icon,
        c.outlined == chip.outlined,
        c.height == chip.height,
        c.background == chip.background,
        c.id == chip.id,
{
}

/// The name of a project is underlined more strongly while it is selected.
pub proof fn the_selected_project_is_underlined(
    selector: ProjectNameSelector,
    on: bool,
    chosen: ProjectNameSelector,
    held: &ProjectNameSelector,
    theme: &Theme,
    r: u32,
)
    requires
        call_ensures(ProjectNameSelector::selected, (selector, on), chosen),
        *held == chosen,
        call_ensures(ProjectNameSelector::underline_color, (held, theme), r),
    ensures
        on ==> r == theme.text_secondary,
        !on ==> r == theme.text_tertiary,
        chosen.label == selector.label,
        chosen.id == selector.id,
{
}

/// What the shown task uses is told where it is known: with the share of the window where the window is known, and
/// by the count of tokens where it is not.
pub proof fn what_the_shown_task_uses_is_told(
    waku: &Waku,
    percent: u64,
    r: Option<String>,
    usage: Option<ContextUsage>,
    available: bool,
    i: int,
)
    requires
        call_ensures(Waku::render_usage_meter, (waku, percent), r),
        call_ensures(Waku::usage_meter, (waku,), usage),
        call_ensures(Waku::usage_meter_available, (waku,), available),
        stands_first(waku.tasks.sessions@, i),
        waku.tasks.selected_session == Some(waku.tasks.sessions@[i].id),
    ensures
        usage == waku.tasks.sessions@[i].context_usage,
        available <==> waku.tasks.sessions@[i].context_usage is Some,
        r is Some <==> available,
        waku.tasks.sessions@[i].context_usage matches Some(u) ==> {
            &&& u.window is None || u.window == Some(0u64) ==> (r->0)@ == decimal(u.tokens as nat)
                + " tokens"@
            &&& u.window is Some && u.window->0 > 0 ==> (r->0)@ == decimal(percent as nat)
                + "% · "@ + decimal(u.tokens as nat) + " / "@ + decimal(u.window->0 as nat)
        },
{
    first_task_is_found(waku.tasks.sessions@, i);
}

/// Without a task that is shown nothing is told; and what is used is looked up on its own page of the settings.
pub proof fn without_a_task_nothing_is_told(
    waku: &Waku,
    percent: u64,
    r: Option<String>,
    page: &mut Option<SettingsPage>,
)
    requires
        call_ensures(Waku::render_usage_meter, (waku, percent), r),
        waku.tasks.selected_session matches Some(id) ==> is_absent(waku.tasks.sessions@, id),
        call_ensures(toggle_usage_panel_action, (page,), ()),
    ensures
        r is None,
        *final(page) == Some(SettingsPage::Usage),
{
    if let Some(id) = waku.tasks.selected_session {
        absent_task_is_not_found(waku.tasks.sessions@, id);
    }
}

} // verus!
