//! What the pages of the settings promise: which are found, where the arrows lead, and what the switches show.
use crate::settings::pages::{
    cycle_settings_page, escape_search, page_position, page_views, render_settings_content,
    render_settings_sidebar, search_query, settings_pages, settings_search_query, shown_page,
    visible_pages, visible_settings_pages, AppearancePage,
    AppearanceSettings, EscapeSearch, GeneralPage, GeneralSettings, PageLayout, PageRow,
    PageRowView, PageText, SettingsPage, UsageViewMode,
};
use crate::text::{lowered, occurs_in, trimmed};
use vstd::prelude::*;

verus! {

/// Tells whether the user's search finds a page: there is nothing to search for, or it stands somewhere in the
/// keywords. Neither case nor white space around it matters.
pub open spec fn search_finds(search: Seq<char>, t: PageText) -> bool {
    lowered(trimmed(search)).len() == 0 || occurs_in(lowered(t.keywords@), lowered(trimmed(search)))
}

proof fn row_of_page(texts: Seq<PageText>, query: Seq<char>, current: SettingsPage, k: int)
    requires
        0 <= k < visible_pages(texts, query, current).len(),
    ensures
        exists|i: int|
            0 <= i < texts.len() && crate::settings::pages::finds(query, #[trigger] texts[i])
                && visible_pages(texts, query, current)[k].page == texts[i].page && visible_pages(
                texts,
                query,
                current,
            )[k].label == texts[i].label@ && visible_pages(texts, query, current)[k].selected == (
            texts[i].page == current),
    decreases texts.len(),
{
    if texts.len() > 0 {
        let head = texts.drop_last();
        let before = visible_pages(head, query, current);
        if k < before.len() {
            row_of_page(head, query, current, k);
            let i = choose|i: int|
                0 <= i < head.len() && crate::settings::pages::finds(query, #[trigger] head[i])
                    && before[k].page == head[i].page && before[k].label == head[i].label@
                    && before[k].selected == (head[i].page == current);
            assert(texts[i] == head[i]);
        } else {
            assert(texts[texts.len() - 1] == texts.last());
        }
    }
}

proof fn page_has_row(texts: Seq<PageText>, query: Seq<char>, current: SettingsPage, i: int)
    requires
        0 <= i < texts.len(),
        crate::settings::pages::finds(query, texts[i]),
    ensures
        exists|k: int|
            0 <= k < visible_pages(texts, query, current).len() && (#[trigger] visible_pages(
                texts,
                query,
                current,
            )[k]).page == texts[i].page && visible_pages(texts, query, current)[k].label
                == texts[i].label@,
    decreases texts.len(),
{
    let head = texts.drop_last();
    let before = visible_pages(head, query, current);
    let all = visible_pages(texts, query, current);
    if i < head.len() {
        assert(head[i] == texts[i]);
        page_has_row(head, query, current, i);
        let k = choose|k: int|
            0 <= k < before.len() && (#[trigger] before[k]).page == head[i].page && before[k].label
                == head[i].label@;
        assert(all[k] == before[k]);
    } else {
        assert(texts[i] == texts.last());
        let k = before.len() as int;
        assert(all[k].page == texts[i].page && all[k].label == texts[i].label@);
    }
}

/// The side bar shows the pages that the search finds and no others; the one that is open is marked, and no other.
pub proof fn the_side_bar_shows_what_is_found(
    texts: &Vec<PageText>,
    search: &str,
    current: Option<SettingsPage>,
    r: Vec<PageRow>,
    i: int,
    k: int,
)
    requires
        call_ensures(render_settings_sidebar, (texts, search, current), r),
    ensures
        0 <= i < texts@.len() && search_finds(search@, texts@[i]) ==> exists|j: int|
            0 <= j < r@.len() && (#[trigger] r@[j]).page == texts@[i].page && r@[j].label@
                == texts@[i].label@,
        0 <= k < r@.len() ==> exists|j: int|
            0 <= j < texts@.len() && search_finds(search@, #[trigger] texts@[j]) && r@[k].page
                == texts@[j].page && r@[k].label@ == texts@[j].label@,
        0 <= k < r@.len() ==> (r@[k].selected <==> match current {
            Some(p) => r@[k].page == p,
            None => r@[k].page == SettingsPage::General,
        }),
{
    let query = search_query(search@);
    let open = shown_page(current);
    let rows = visible_pages(texts@, query, open);
    let v = page_views(r@);
    assert(v == rows);
    assert(v.len() == r@.len());
    if 0 <= i < texts@.len() && search_finds(search@, texts@[i]) {
        page_has_row(texts@, query, open, i);
        let j = choose|j: int|
            0 <= j < rows.len() && (#[trigger] rows[j]).page == texts@[i].page && rows[j].label
                == texts@[i].label@;
        assert(v[j] == r@[j]@);
        assert(r@[j].page == texts@[i].page);
    }
    if 0 <= k < r@.len() {
        row_of_page(texts@, query, open, k);
        let j = choose|j: int|
            0 <= j < texts@.len() && crate::settings::pages::finds(query, #[trigger] texts@[j])
                && rows[k].page == texts@[j].page && rows[k].label == texts@[j].label@
                && rows[k].selected == (texts@[j].page == open);
        assert(v[k] == r@[k]@);
        assert(search_finds(search@, texts@[j]));
    }
}

proof fn position_found(rows: Seq<PageRowView>, page: SettingsPage, i: int, from: int)
    requires
        0 <= from <= i < rows.len(),
        rows[i].page == page,
        forall|j: int| 0 <= j < i ==> (#[trigger] rows[j]).page != page,
    ensures
        page_position(rows, page, from) == Some(i),
    decreases i - from,
{
    if from < i {
        assert(rows[from].page != page);
        position_found(rows, page, i, from + 1);
    }
}

/// The arrows lead from a page to the next one that is shown, and round at the ends.
pub proof fn arrows_lead_to_the_next_page(
    texts: &Vec<PageText>,
    search: &str,
    current: SettingsPage,
    rows: Vec<PageRow>,
    key: &str,
    r: Option<SettingsPage>,
    i: int,
)
    requires
        call_ensures(render_settings_sidebar, (texts, search, Some(current)), rows),
        call_ensures(cycle_settings_page, (texts, search, Some(current), key), r),
        texts@.len() <= isize::MAX,
        0 <= i < rows@.len(),
        rows@[i].page == current,
        forall|j: int| 0 <= j < i ==> (#[trigger] rows@[j]).page != current,
    ensures
        key@ == "down"@ ==> r == Some(
            rows@[if i + 1 < rows@.len() {
                i + 1
            } else {
                0
            }].page,
        ),
        key@ == "up"@ ==> r == Some(
            rows@[if i > 0 {
                i - 1
            } else {
                rows@.len() - 1
            }].page,
        ),
{
    let v = page_views(rows@);
    let n = rows@.len() as int;
    assert(v.len() == n);
    assert forall|j: int| 0 <= j < i implies (#[trigger] v[j]).page != current by {
        assert(v[j] == rows@[j]@);
        assert(rows@[j].page != current);
    }
    assert(v[i] == rows@[i]@);
    position_found(v, current, i, 0);
    reveal_strlit("down");
    reveal_strlit("up");
    assert("down"@.len() != "up"@.len());
    if key@ == "down"@ {
        let t = if i + 1 < n {
            i + 1
        } else {
            0
        };
        assert((i + 1) % n == t) by (nonlinear_arith)
            requires
                0 <= i < n,
                t == (if i + 1 < n {
                    i + 1
                } else {
                    0
                }),
        ;
        assert(v[t] == rows@[t]@);
    }
    if key@ == "up"@ {
        let t = if i > 0 {
            i - 1
        } else {
            n - 1
        };
        assert((i + n - 1) % n == t) by (nonlinear_arith)
            requires
                0 <= i < n,
                t == (if i > 0 {
                    i - 1
                } else {
                    n - 1
                }),
        ;
        assert(v[t] == rows@[t]@);
    }
}

/// Every page is listed once, the general one first.
pub proof fn every_page_is_listed(r: Vec<SettingsPage>, page: SettingsPage)
    requires
        call_ensures(settings_pages, (), r),
    ensures
        r@.contains(page),
        forall|i: int, j: int| 0 <= i < j < r@.len() ==> r@[i] != r@[j],
        r@.len() > 0,
        r@[0] == SettingsPage::General,
{
    assert(r@.len() == 6);
    assert(r@[0] == SettingsPage::General && r@[1] == SettingsPage::Appearance && r@[2]
        == SettingsPage::Providers && r@[3] == SettingsPage::Skills && r@[4]
        == SettingsPage::Usage && r@[5] == SettingsPage::Daemon);
}

/// The escape key clears a search first, and leaves only from an empty one.
pub proof fn escape_clears_first(text: &str, r: EscapeSearch)
    requires
        call_ensures(escape_search, (text,), r),
    ensures
        r is Leave <==> text@.len() == 0,
{
}

/// A page that fills the view or stands bare marks no scrolling; one that does not marks it where it is scrolled.
pub proof fn scrolling_is_marked(
    page: Option<SettingsPage>,
    usage: UsageViewMode,
    scrolled: bool,
    r: PageLayout,
)
    requires
        call_ensures(render_settings_content, (page, usage, scrolled), r),
    ensures
        r.marks_scroll <==> scrolled && !r.bare && !r.fills_viewport,
        r.bare <==> page == Some(SettingsPage::Skills),
        r.wide <==> page == Some(SettingsPage::Usage),
        r.fills_viewport <==> r.wide && !(usage is Overview),
{
}

/// The switches show what is set, and what is set by them is shown; updates can be switched only where there is
/// something to update with.
pub proof fn switches_show_what_is_set(
    s: &mut GeneralSettings,
    analytics: bool,
    t: &mut GeneralSettings,
    updates: bool,
    told: bool,
    page: GeneralPage,
)
    requires
        call_ensures(GeneralSettings::set_analytics_enabled, (s, analytics), ()),
        *old(t) == *final(s),
        call_ensures(GeneralSettings::set_automatic_updates_enabled, (t, updates), told),
        call_ensures(GeneralSettings::render_general_settings, (*final(t),), page),
    ensures
        page.analytics.on == analytics,
        page.updates is Some <==> old(s).updater_available,
        page.updates matches Some(u) ==> u.on == updates,
        told == old(s).updater_available,
{
}

/// The menus show the chosen theme and language, marked among all of them; choosing what was chosen changes
/// nothing.
pub proof fn menus_show_what_is_chosen(
    s: &mut AppearanceSettings,
    theme: usize,
    changed: bool,
    t: &mut AppearanceSettings,
    language: usize,
    other: bool,
    themes: &Vec<String>,
    languages: &Vec<String>,
    page: AppearancePage,
    i: int,
)
    requires
        call_ensures(AppearanceSettings::set_theme_preference, (s, theme), changed),
        *old(t) == *final(s),
        call_ensures(AppearanceSettings::set_language, (t, language), other),
        theme < themes@.len(),
        language < languages@.len(),
        call_ensures(
            AppearanceSettings::render_appearance_settings,
            (*final(t), themes, languages),
            page,
        ),
    ensures
        changed <==> old(s).theme != theme,
        other <==> old(s).language != language,
        page.theme.label == themes@[theme as int],
        page.language.label == languages@[language as int],
        page.theme.items@.len() == themes@.len(),
        page.language.items@.len() == languages@.len(),
        0 <= i < themes@.len() ==> page.theme.items@[i].label == themes@[i] && (
        page.theme.items@[i].selected <==> i == theme),
        0 <= i < languages@.len() ==> page.language.items@[i].label == languages@[i] && (
        page.language.items@[i].selected <==> i == language),
{
}

/// What is searched for is the text without white space around it, whatever its case; the side bar shows what a
/// search for it finds.
pub proof fn the_side_bar_shows_the_search(
    texts: &Vec<PageText>,
    search: &str,
    current: Option<SettingsPage>,
    query: String,
    again: &str,
    r: Vec<PageRow>,
    s: Vec<PageRow>,
)
    requires
        call_ensures(settings_search_query, (search,), query),
        again@ == query@,
        call_ensures(visible_settings_pages, (texts, again, current), r),
        call_ensures(render_settings_sidebar, (texts, search, current), s),
    ensures
        query@ == lowered(trimmed(search@)),
        page_views(r@) == page_views(s@),
{
}

} // verus!
