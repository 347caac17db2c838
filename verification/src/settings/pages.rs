//! The pages of the settings, and the switches that stand on them.
use crate::composer::picker_rows::{next_picker_highlight, stepped};
use crate::text::{concat, contains, lowered, occurs_in, to_lower, trim, trimmed};
use vstd::prelude::*;

verus! {

// ---------------------------------------------------------------------------
// Pages
// ---------------------------------------------------------------------------
/// A page of the settings.
#[derive(Clone, Copy, Debug, PartialEq, Eq, Structural)]
pub enum SettingsPage {
    General,
    Appearance,
    Providers,
    Skills,
    Usage,
    Daemon,
}

/// The pages in the order of the list beside them.
pub open spec fn page_order() -> Seq<SettingsPage> {
    seq![
        SettingsPage::General,
        SettingsPage::Appearance,
        SettingsPage::Providers,
        SettingsPage::Skills,
        SettingsPage::Usage,
        SettingsPage::Daemon,
    ]
}

/// The pages in the order of the list beside them.
pub fn settings_pages() -> (r: Vec<SettingsPage>)
    ensures
        r@ == page_order(),
{
    let r = vec![
        SettingsPage::General,
        SettingsPage::Appearance,
        SettingsPage::Providers,
        SettingsPage::Skills,
        SettingsPage::Usage,
        SettingsPage::Daemon,
    ];
    assert(r@ =~= page_order());
    r
}

impl SettingsPage {
    /// The key of the page's name.
    pub fn label_key(self) -> (r: &'static str)
        ensures
            r@ == (match self {
                SettingsPage::General => "settings.general"@,
                SettingsPage::Appearance => "settings.appearance"@,
                SettingsPage::Providers => "settings.providers"@,
                SettingsPage::Skills => "settings.skills"@,
                SettingsPage::Usage => "settings.usage"@,
                SettingsPage::Daemon => "settings.daemon"@,
            }),
    {
        match self {
            SettingsPage::General => "settings.general",
            SettingsPage::Appearance => "settings.appearance",
            SettingsPage::Providers => "settings.providers",
            SettingsPage::Skills => "settings.skills",
            SettingsPage::Usage => "settings.usage",
            SettingsPage::Daemon => "settings.daemon",
        }
    }

    /// The key of what a search for the page looks through.
    pub fn keywords_key(self) -> (r: &'static str)
        ensures
            r@ == (match self {
                SettingsPage::General => "settings.general_keywords"@,
                SettingsPage::Appearance => "settings.appearance_keywords"@,
                SettingsPage::Providers => "settings.providers_keywords"@,
                SettingsPage::Skills => "settings.skills_keywords"@,
                SettingsPage::Usage => "settings.usage_keywords"@,
                SettingsPage::Daemon => "settings.daemon_keywords"@,
            }),
    {
        match self {
            SettingsPage::General => "settings.general_keywords",
            SettingsPage::Appearance => "settings.appearance_keywords",
            SettingsPage::Providers => "settings.providers_keywords",
            SettingsPage::Skills => "settings.skills_keywords",
            SettingsPage::Usage => "settings.usage_keywords",
            SettingsPage::Daemon => "settings.daemon_keywords",
        }
    }

    /// The page's icon.
    pub fn icon(self) -> (r: &'static str)
        ensures
            r@ == page_icon(self),
    {
        match self {
            SettingsPage::General => "icons/settings.svg",
            SettingsPage::Appearance => "icons/appearance.svg",
            SettingsPage::Providers => "icons/bot.svg",
            SettingsPage::Skills => "icons/package.svg",
            SettingsPage::Usage => "icons/chart-column.svg",
            SettingsPage::Daemon => "icons/server.svg",
        }
    }
}

/// The icon of a page.
pub open spec fn page_icon(page: SettingsPage) -> Seq<char> {
    match page {
        SettingsPage::General => "icons/settings.svg"@,
        SettingsPage::Appearance => "icons/appearance.svg"@,
        SettingsPage::Providers => "icons/bot.svg"@,
        SettingsPage::Skills => "icons/package.svg"@,
        SettingsPage::Usage => "icons/chart-column.svg"@,
        SettingsPage::Daemon => "icons/server.svg"@,
    }
}

/// A page that is in the list, in the user's language.
#[derive(Debug)]
pub struct PageText {
    pub page: SettingsPage,
    pub label: String,
    pub keywords: String,
}

/// A page that a search leaves in the list.
#[derive(Debug)]
pub struct PageRow {
    /// The name of the row.
    pub id: String,
    pub page: SettingsPage,
    pub label: String,
    /// The page is shown.
    pub selected: bool,
}

/// The contents of a page that a search leaves in the list.
pub ghost struct PageRowView {
    pub id: Seq<char>,
    pub page: SettingsPage,
    pub label: Seq<char>,
    pub selected: bool,
}

impl View for PageRow {
    type V = PageRowView;

    open spec fn view(&self) -> PageRowView {
        PageRowView {
            id: self.id@,
            page: self.page,
            label: self.label@,
            selected: self.selected,
        }
    }
}

/// What a search looks for: what was typed, without white space around it and in small letters.
pub open spec fn search_query(text: Seq<char>) -> Seq<char> {
    lowered(trimmed(text))
}

/// What a search looks for.
pub fn settings_search_query(text: &str) -> (r: String)
    ensures
        r@ == search_query(text@),
{
    to_lower(trim(text).as_str())
}

/// Tells whether a search leaves a page in the list. The query is in small letters.
pub open spec fn finds(query: Seq<char>, t: PageText) -> bool {
    query.len() == 0 || occurs_in(lowered(t.keywords@), query)
}

/// The pages that a search leaves in the list.
pub open spec fn visible_pages(
    texts: Seq<PageText>,
    query: Seq<char>,
    current: SettingsPage,
) -> Seq<PageRowView>
    decreases texts.len(),
{
    if texts.len() == 0 {
        Seq::empty()
    } else {
        let before = visible_pages(texts.drop_last(), query, current);
        let t = texts.last();
        if finds(query, t) {
            before.push(
                PageRowView {
                    id: "settings-tab-"@ + lowered(t.label@),
                    page: t.page,
                    label: t.label@,
                    selected: t.page == current,
                },
            )
        } else {
            before
        }
    }
}

/// The contents of some pages of the list.
pub open spec fn page_views(list: Seq<PageRow>) -> Seq<PageRowView> {
    Seq::new(list.len(), |i: int| list[i]@)
}

/// The page that is shown: the general one, where none was chosen.
pub open spec fn shown_page(page: Option<SettingsPage>) -> SettingsPage {
    match page {
        Some(p) => p,
        None => SettingsPage::General,
    }
}

/// The pages that a search leaves in the list. `texts` are the pages that are in it, in their order.
pub fn visible_settings_pages(texts: &Vec<PageText>, query: &str, current: Option<SettingsPage>) -> (r:
    Vec<PageRow>)
    ensures
        page_views(r@) == visible_pages(texts@, query@, shown_page(current)),
        r@.len() <= texts@.len(),
{
    let shown = match current {
        Some(p) => p,
        None => SettingsPage::General,
    };
    let mut r: Vec<PageRow> = Vec::new();
    assert(texts@.take(0) =~= Seq::empty());
    assert(page_views(r@) =~= Seq::empty());
    for i in 0..texts.len()
        invariant
            page_views(r@) == visible_pages(texts@.take(i as int), query@, shown),
            r@.len() <= i,
    {
        assert(texts@.take(i as int + 1).drop_last() =~= texts@.take(i as int));
        let ghost before = r@;
        let t = &texts[i];
        if query.is_empty() || contains(to_lower(t.keywords.as_str()).as_str(), query) {
            let row = PageRow {
                id: concat("settings-tab-", to_lower(t.label.as_str()).as_str()),
                page: t.page,
                label: t.label.clone(),
                selected: t.page == shown,
            };
            r.push(row);
            assert(page_views(r@) =~= page_views(before).push(row@));
        }
    }
    assert(texts@.take(texts@.len() as int) =~= texts@);
    r
}

/// The list of pages: those that the search in the field above it finds.
pub fn render_settings_sidebar(texts: &Vec<PageText>, search: &str, current: Option<SettingsPage>) -> (r:
    Vec<PageRow>)
    ensures
        page_views(r@) == visible_pages(texts@, search_query(search@), shown_page(current)),
        r@.len() <= texts@.len(),
{
    let query = settings_search_query(search);
    visible_settings_pages(texts, query.as_str(), current)
}

/// Where a page stands in the list, from `i` on, if it does.
pub open spec fn page_position(rows: Seq<PageRowView>, page: SettingsPage, i: int) -> Option<int>
    decreases rows.len() - i,
{
    if i < 0 || i >= rows.len() {
        None
    } else if rows[i].page == page {
        Some(i)
    } else {
        page_position(rows, page, i + 1)
    }
}

fn find_page(rows: &Vec<PageRow>, page: SettingsPage) -> (r: Option<usize>)
    ensures
        match r {
            Some(i) => page_position(page_views(rows@), page, 0) == Some(i as int) && i < rows@.len(),
            None => page_position(page_views(rows@), page, 0) is None,
        },
{
    let ghost all = page_views(rows@);
    let mut i: usize = 0;
    while i < rows.len()
        invariant
            i <= rows@.len(),
            all == page_views(rows@),
            page_position(all, page, 0) == page_position(all, page, i as int),
        decreases rows@.len() - i,
    {
        assert(all[i as int] == rows@[i as int]@);
        if rows[i].page == page {
            return Some(i);
        }
        i = i + 1;
    }
    None
}

/// A position as a number that a machine holds.
pub open spec fn as_cursor(p: Option<int>) -> Option<usize> {
    match p {
        Some(i) => Some(i as usize),
        None => None,
    }
}

/// The page that a key goes to in the list, round both ends. Where the page that is shown is not in the
/// list, the key begins at the end that it comes from.
pub open spec fn next_page(rows: Seq<PageRowView>, page: SettingsPage, key: Seq<char>) -> Option<
    SettingsPage,
> {
    match stepped(as_cursor(page_position(rows, page, 0)), rows.len() as usize, key) {
        Some(i) => Some(rows[i].page),
        None => None,
    }
}

/// The page that a key goes to, of those that a search leaves in the list. `None` where it goes nowhere.
pub fn cycle_settings_page(
    texts: &Vec<PageText>,
    search: &str,
    current: Option<SettingsPage>,
    key: &str,
) -> (r: Option<SettingsPage>)
    requires
        texts@.len() <= isize::MAX,
    ensures
        r == next_page(
            visible_pages(texts@, search_query(search@), shown_page(current)),
            shown_page(current),
            key@,
        ),
{
    let rows = render_settings_sidebar(texts, search, current);
    let shown = match current {
        Some(p) => p,
        None => SettingsPage::General,
    };
    let at = find_page(&rows, shown);
    let ghost all = page_views(rows@);
    proof {
        crate::composer::picker_rows::cursor_stays_in_list(at, rows@.len() as usize, key@);
        if rows@.len() > 0 {
            if let Some(i) = at {
                vstd::arithmetic::div_mod::lemma_mod_bound(i + 1, rows@.len() as int);
                vstd::arithmetic::div_mod::lemma_mod_bound(
                    i + rows@.len() - 1,
                    rows@.len() as int,
                );
            }
        }
    }
    match next_picker_highlight(at, rows.len(), key) {
        Some(next) => {
            assert(all[next as int] == rows@[next as int]@);
            Some(rows[next].page)
        },
        None => None,
    }
}

/// What the escape key does in the field that searches the pages.
#[derive(Clone, Copy, Debug, PartialEq, Eq, Structural)]
pub enum EscapeSearch {
    /// It empties the field.
    Clear,
    /// It leaves the settings.
    Leave,
}

/// What the escape key does in the field that searches the pages: it empties the field first.
pub fn escape_search(text: &str) -> (r: EscapeSearch)
    ensures
        r == (if text@.len() == 0 {
            EscapeSearch::Leave
        } else {
            EscapeSearch::Clear
        }),
{
    if text.is_empty() {
        EscapeSearch::Leave
    } else {
        EscapeSearch::Clear
    }
}

// ---------------------------------------------------------------------------
// What a page is laid out as
// ---------------------------------------------------------------------------
/// What is shown of the usage.
#[derive(Clone, Copy, Debug, PartialEq, Eq, Structural)]
pub enum UsageViewMode {
    Overview,
    Monthly,
    Projects,
}

/// How a page is laid out.
#[derive(Clone, Copy, Debug, PartialEq, Eq, Structural)]
pub struct PageLayout {
    /// The page fills its place, without a title.
    pub bare: bool,
    /// The page scrolls by itself.
    pub fills_viewport: bool,
    /// The page is a wide one.
    pub wide: bool,
    /// A line marks that content has gone under the title.
    pub marks_scroll: bool,
}

/// How a page is laid out. `scrolled` is set where content has gone under the title.
pub open spec fn layout_of(page: SettingsPage, usage: UsageViewMode, scrolled: bool) -> PageLayout {
    let fills = page == SettingsPage::Usage && (usage == UsageViewMode::Monthly || usage
        == UsageViewMode::Projects);
    let bare = page == SettingsPage::Skills;
    PageLayout {
        bare,
        fills_viewport: fills,
        wide: page == SettingsPage::Usage,
        marks_scroll: !bare && !fills && scrolled,
    }
}

/// How the page that is shown is laid out.
pub fn render_settings_content(
    page: Option<SettingsPage>,
    usage: UsageViewMode,
    scrolled: bool,
) -> (r: PageLayout)
    ensures
        r == layout_of(shown_page(page), usage, scrolled),
{
    let shown = match page {
        Some(p) => p,
        None => SettingsPage::General,
    };
    let on_usage = match shown {
        SettingsPage::Usage => true,
        _ => false,
    };
    let lists = match usage {
        UsageViewMode::Monthly => true,
        UsageViewMode::Projects => true,
        UsageViewMode::Overview => false,
    };
    let bare = match shown {
        SettingsPage::Skills => true,
        _ => false,
    };
    let fills = on_usage && lists;
    PageLayout {
        bare,
        fills_viewport: fills,
        wide: on_usage,
        marks_scroll: !bare && !fills && scrolled,
    }
}

/// The switches of the general page.
#[derive(Clone, Copy, Debug, PartialEq, Eq, Structural)]
pub struct GeneralSettings {
    pub analytics_enabled: bool,
    pub automatic_updates_enabled: bool,
    /// The program can update itself.
    pub updater_available: bool,
}

/// A switch.
#[derive(Clone, Copy, Debug, PartialEq, Eq)]
pub struct Switch {
    pub id: &'static str,
    pub label: &'static str,
    pub on: bool,
}

/// The general page.
#[derive(Clone, Copy, Debug, PartialEq, Eq)]
pub struct GeneralPage {
    pub analytics: Switch,
    /// The switch for updates, where the program can update itself.
    pub updates: Option<Switch>,
}

impl GeneralSettings {
    /// The general page.
    pub fn render_general_settings(self) -> (r: GeneralPage)
        ensures
            r == (GeneralPage {
                analytics: Switch {
                    id: "anonymous-analytics-toggle",
                    label: "settings.share_anonymous_usage_data",
                    on: self.analytics_enabled,
                },
                updates: if self.updater_available {
                    Some(
                        Switch {
                            id: "automatic-updates-toggle",
                            label: "settings.automatic_updates",
                            on: self.automatic_updates_enabled,
                        },
                    )
                } else {
                    None
                },
            }),
    {
        let analytics = Switch {
            id: "anonymous-analytics-toggle",
            label: "settings.share_anonymous_usage_data",
            on: self.analytics_enabled,
        };
        let updates = if self.updater_available {
            Some(
                Switch {
                    id: "automatic-updates-toggle",
                    label: "settings.automatic_updates",
                    on: self.automatic_updates_enabled,
                },
            )
        } else {
            None
        };
        GeneralPage { analytics, updates }
    }

    /// Switches whether anonymous figures are sent.
    pub fn set_analytics_enabled(&mut self, enabled: bool)
        ensures
            *final(self) == (GeneralSettings { analytics_enabled: enabled, ..*old(self) }),
    {
        self.analytics_enabled = enabled;
    }

    /// Switches whether the program looks for updates, and tells whether the updater is to be told.
    pub fn set_automatic_updates_enabled(&mut self, enabled: bool) -> (r: bool)
        ensures
            *final(self) == (GeneralSettings { automatic_updates_enabled: enabled, ..*old(self) }),
            r == old(self).updater_available,
    {
        self.automatic_updates_enabled = enabled;
        self.updater_available
    }
}

/// What can be chosen on the page for the appearance: places in the lists of themes and of languages.
#[derive(Clone, Copy, Debug, PartialEq, Eq, Structural)]
pub struct AppearanceSettings {
    pub theme: usize,
    pub language: usize,
}

/// Something that can be chosen.
#[derive(Debug)]
pub struct ChoiceItem {
    pub label: String,
    pub selected: bool,
}

/// A list to choose from.
#[derive(Debug)]
pub struct ChoiceMenu {
    /// What is chosen.
    pub label: String,
    pub items: Vec<ChoiceItem>,
}

/// The page for the appearance.
#[derive(Debug)]
pub struct AppearancePage {
    pub theme: ChoiceMenu,
    pub language: ChoiceMenu,
}

/// Some things to choose from, of which one is chosen.
pub open spec fn choice_items(labels: Seq<String>, chosen: usize) -> Seq<ChoiceItem> {
    Seq::new(labels.len(), |i: int| ChoiceItem { label: labels[i], selected: i == chosen })
}

/// Tells whether a menu offers some things, of which one is chosen.
pub open spec fn offers(menu: ChoiceMenu, labels: Seq<String>, chosen: usize) -> bool {
    &&& menu.label == labels[chosen as int]
    &&& menu.items@ == choice_items(labels, chosen)
}

fn choice_menu(labels: &Vec<String>, chosen: usize) -> (r: ChoiceMenu)
    requires
        chosen < labels@.len(),
    ensures
        offers(r, labels@, chosen),
{
    let mut items: Vec<ChoiceItem> = Vec::new();
    for i in 0..labels.len()
        invariant
            items@.len() == i,
            chosen < labels@.len(),
            forall|k: int|
                0 <= k < i ==> #[trigger] items@[k] == choice_items(labels@, chosen)[k],
    {
        items.push(ChoiceItem { label: labels[i].clone(), selected: i == chosen });
    }
    assert(items@ =~= choice_items(labels@, chosen));
    ChoiceMenu { label: labels[chosen].clone(), items }
}

impl AppearanceSettings {
    /// The page for the appearance, of the themes and the languages that there are.
    pub fn render_appearance_settings(self, themes: &Vec<String>, languages: &Vec<String>) -> (r:
        AppearancePage)
        requires
            self.theme < themes@.len(),
            self.language < languages@.len(),
        ensures
            offers(r.theme, themes@, self.theme),
            offers(r.language, languages@, self.language),
    {
        AppearancePage {
            theme: choice_menu(themes, self.theme),
            language: choice_menu(languages, self.language),
        }
    }

    /// Chooses a theme, and tells whether another one was chosen: only then is it applied and saved.
    pub fn set_theme_preference(&mut self, theme: usize) -> (r: bool)
        ensures
            *final(self) == (AppearanceSettings { theme, ..*old(self) }),
            r == (old(self).theme != theme),
    {
        let changed = self.theme != theme;
        self.theme = theme;
        changed
    }

    /// Chooses a language, and tells whether another one was chosen: only then are the texts made anew
    /// and the choice saved.
    pub fn set_language(&mut self, language: usize) -> (r: bool)
        ensures
            *final(self) == (AppearanceSettings { language, ..*old(self) }),
            r == (old(self).language != language),
    {
        let changed = self.language != language;
        self.language = language;
        changed
    }
}

// ---------------------------------------------------------------------------
// Laws
// ---------------------------------------------------------------------------
/// Without a search every page is in the list, in its order.
pub proof fn empty_search_shows_all(texts: Seq<PageText>, current: SettingsPage)
    ensures
        visible_pages(texts, Seq::empty(), current).len() == texts.len(),
        forall|i: int|
            0 <= i < texts.len() ==> (#[trigger] visible_pages(texts, Seq::empty(), current)[i]).page
                == texts[i].page,
    decreases texts.len(),
{
    if texts.len() > 0 {
        let head = texts.drop_last();
        let before = visible_pages(head, Seq::empty(), current);
        empty_search_shows_all(head, current);
        assert forall|i: int| 0 <= i < texts.len() implies (
        #[trigger] visible_pages(texts, Seq::empty(), current)[i]).page == texts[i].page by {
            if i < before.len() {
                assert(before[i].page == head[i].page);
            }
        }
    }
}

} // verus!
