//! Looks: colours, icons and the small controls that the views share. A length is held in tenths of a
//! pixel, a colour as the number `0xRRGGBB`.
use crate::label::Label;
use crate::protocol::{ActivityKind, SessionStatus};
use crate::text::{ascii_lowered, same_text, to_ascii_lower};
use vstd::prelude::*;
use vstd::utf8::encode_utf8;

verus! {

/// The colours of the window.
#[derive(Clone, Copy, Debug, PartialEq, Eq, Structural)]
pub struct Theme {
    pub text_secondary: u32,
    pub text_tertiary: u32,
    pub text_ghost: u32,
    pub accent: u32,
    pub warning: u32,
    pub danger: u32,
    pub raised: u32,
    pub overlay: u32,
    pub overlay_strong: u32,
    pub border_strong: u32,
}

// ---------------------------------------------------------------------------
// Providers
// ---------------------------------------------------------------------------
/// The colours that the providers have in charts.
pub open spec fn palette() -> Seq<u32> {
    seq![0xD97757, 0x10A37F, 0x0EA5E9, 0xA855F7, 0xF59E0B, 0xEF4444, 0x14B8A6, 0x6366F1]
}

/// The colour that a provider has of its own, by its place in the palette.
pub open spec fn own_slot(lower: Seq<char>) -> Option<int> {
    if lower == "anthropic"@ {
        Some(0)
    } else if lower == "openai-responses"@ || lower == "openai"@ {
        Some(1)
    } else if lower == "xai"@ {
        Some(2)
    } else if lower == "opencode-zen"@ {
        Some(3)
    } else if lower == "opencode-go"@ {
        Some(4)
    } else if lower == "xai-oauth"@ {
        Some(5)
    } else if lower == "openai-chat"@ {
        Some(6)
    } else if lower == "openai-codex"@ {
        Some(7)
    } else {
        None
    }
}

/// The FNV-1a hash of some bytes, in 32 bits.
pub open spec fn fnv1a(bytes: Seq<u8>) -> u32
    decreases bytes.len(),
{
    if bytes.len() == 0 {
        2166136261
    } else {
        let mixed = fnv1a(bytes.drop_last()) ^ (bytes.last() as u32);
        ((mixed * 16777619) % 0x1_0000_0000) as u32
    }
}

/// The colour of a provider in charts: its own, else the one that the hash of its id picks. Capitals
/// make no difference.
pub open spec fn series_rgb(provider: Seq<char>) -> u32 {
    let lower = ascii_lowered(provider);
    match own_slot(lower) {
        Some(slot) => palette()[slot],
        None => palette()[fnv1a(encode_utf8(lower)) as int % 8],
    }
}

fn hash_of(bytes: &[u8]) -> (r: u32)
    ensures
        r == fnv1a(bytes@),
{
    let mut hash: u32 = 2166136261;
    assert(bytes@.take(0) =~= Seq::empty());
    for i in 0..bytes.len()
        invariant
            hash == fnv1a(bytes@.take(i as int)),
    {
        assert(bytes@.take(i as int + 1).drop_last() =~= bytes@.take(i as int));
        let mixed: u32 = hash ^ (bytes[i] as u32);
        hash = mixed.wrapping_mul(16777619);
    }
    assert(bytes@.take(bytes@.len() as int) =~= bytes@);
    hash
}

fn find_own_slot(lower: &str) -> (r: Option<usize>)
    ensures
        match own_slot(lower@) {
            Some(slot) => r is Some && r->0 == slot,
            None => r is None,
        },
        r is Some ==> r->0 < 8,
{
    if same_text(lower, "anthropic") {
        Some(0)
    } else if same_text(lower, "openai-responses") || same_text(lower, "openai") {
        Some(1)
    } else if same_text(lower, "xai") {
        Some(2)
    } else if same_text(lower, "opencode-zen") {
        Some(3)
    } else if same_text(lower, "opencode-go") {
        Some(4)
    } else if same_text(lower, "xai-oauth") {
        Some(5)
    } else if same_text(lower, "openai-chat") {
        Some(6)
    } else if same_text(lower, "openai-codex") {
        Some(7)
    } else {
        None
    }
}

/// The colours that the providers have in charts.
pub fn provider_series_palette() -> (r: Vec<u32>)
    ensures
        r@ == palette(),
{
    vec![0xD97757, 0x10A37F, 0x0EA5E9, 0xA855F7, 0xF59E0B, 0xEF4444, 0x14B8A6, 0x6366F1]
}

/// The colour of a provider in charts.
pub fn provider_series_rgb(provider: &str) -> (r: u32)
    ensures
        r == series_rgb(provider@),
{
    let colors = provider_series_palette();
    let lower = to_ascii_lower(provider);
    match find_own_slot(lower.as_str()) {
        Some(slot) => colors[slot],
        None => {
            let hash: u32 = hash_of(lower.as_str().as_bytes());
            colors[(hash % 8) as usize]
        },
    }
}

/// The colour of a provider on the page on usage. It is the same in every theme.
pub fn provider_color(_theme: &Theme, provider: &str) -> (r: u32)
    ensures
        r == series_rgb(provider@),
{
    provider_series_rgb(provider)
}

/// The mark of a provider. The user sets up the endpoints, so they all share one.
pub fn provider_icon(_provider: &str) -> (r: &'static str)
    ensures
        r@ == "icons/bot.svg"@,
{
    "icons/bot.svg"
}

// ---------------------------------------------------------------------------
// Tasks and what agents do
// ---------------------------------------------------------------------------
/// The colour of how a task stands.
pub open spec fn status_rgb(theme: Theme, status: SessionStatus) -> u32 {
    match status {
        SessionStatus::Idle => theme.text_ghost,
        SessionStatus::Connecting => theme.accent,
        SessionStatus::Working => theme.accent,
        SessionStatus::Waiting => theme.warning,
        SessionStatus::Failed => theme.danger,
    }
}

/// The colour of how a task stands.
pub fn status_color(theme: &Theme, status: SessionStatus) -> (r: u32)
    ensures
        r == status_rgb(*theme, status),
{
    match status {
        SessionStatus::Idle => theme.text_ghost,
        SessionStatus::Connecting => theme.accent,
        SessionStatus::Working => theme.accent,
        SessionStatus::Waiting => theme.warning,
        SessionStatus::Failed => theme.danger,
    }
}

/// The icon of something that an agent did.
pub open spec fn activity_icon_path(kind: ActivityKind) -> Seq<char> {
    match kind {
        ActivityKind::Reasoning => "icons/sparkle.svg"@,
        ActivityKind::Command => "icons/terminal.svg"@,
        ActivityKind::FileChange => "icons/pencil.svg"@,
        ActivityKind::FileRead => "icons/file.svg"@,
        ActivityKind::FileSearch => "icons/search.svg"@,
        ActivityKind::FileList => "icons/folder.svg"@,
        ActivityKind::Search => "icons/search.svg"@,
        ActivityKind::Plan => "icons/list.svg"@,
        ActivityKind::Tool => "icons/wrench.svg"@,
    }
}

/// The icon of something that an agent did.
pub fn activity_icon(kind: ActivityKind) -> (r: &'static str)
    ensures
        r@ == activity_icon_path(kind),
{
    match kind {
        ActivityKind::Reasoning => "icons/sparkle.svg",
        ActivityKind::Command => "icons/terminal.svg",
        ActivityKind::FileChange => "icons/pencil.svg",
        ActivityKind::FileRead => "icons/file.svg",
        ActivityKind::FileSearch => "icons/search.svg",
        ActivityKind::FileList => "icons/folder.svg",
        ActivityKind::Search => "icons/search.svg",
        ActivityKind::Plan => "icons/list.svg",
        ActivityKind::Tool => "icons/wrench.svg",
    }
}

/// The keys of the words for one and for more of what an agent did.
pub open spec fn activity_noun_keys(kind: ActivityKind) -> (Seq<char>, Seq<char>) {
    match kind {
        ActivityKind::Reasoning => ("activity.thought"@, "activity.thoughts"@),
        ActivityKind::Command => ("activity.command"@, "activity.commands"@),
        ActivityKind::FileChange => ("activity.file_edit"@, "activity.file_edits"@),
        ActivityKind::FileRead => ("activity.file_read"@, "activity.file_reads"@),
        ActivityKind::FileSearch => ("activity.file_search"@, "activity.file_searches"@),
        ActivityKind::FileList => ("activity.file_list"@, "activity.file_lists"@),
        ActivityKind::Search => ("activity.search"@, "activity.searches"@),
        ActivityKind::Plan => ("activity.plan_step"@, "activity.plan_steps"@),
        ActivityKind::Tool => ("activity.tool_call"@, "activity.tool_calls"@),
    }
}

/// The keys of the words for one and for more of what an agent did.
pub fn activity_noun(kind: ActivityKind) -> (r: (&'static str, &'static str))
    ensures
        (r.0@, r.1@) == activity_noun_keys(kind),
{
    match kind {
        ActivityKind::Reasoning => ("activity.thought", "activity.thoughts"),
        ActivityKind::Command => ("activity.command", "activity.commands"),
        ActivityKind::FileChange => ("activity.file_edit", "activity.file_edits"),
        ActivityKind::FileRead => ("activity.file_read", "activity.file_reads"),
        ActivityKind::FileSearch => ("activity.file_search", "activity.file_searches"),
        ActivityKind::FileList => ("activity.file_list", "activity.file_lists"),
        ActivityKind::Search => ("activity.search", "activity.searches"),
        ActivityKind::Plan => ("activity.plan_step", "activity.plan_steps"),
        ActivityKind::Tool => ("activity.tool_call", "activity.tool_calls"),
    }
}

/// Tells whether a key presses the control that has the keyboard.
pub fn presses(key: &str) -> (r: bool)
    ensures
        r == (key@ == "enter"@ || key@ == "space"@),
{
    same_text(key, "enter") || same_text(key, "space")
}

/// Tells whether a key presses the control that has the keyboard: only on its own.
pub fn presses_alone(key: &str, modified: bool) -> (r: bool)
    ensures
        r == (!modified && (key@ == "enter"@ || key@ == "space"@)),
{
    !modified && presses(key)
}

// ---------------------------------------------------------------------------
// Icons
// ---------------------------------------------------------------------------
/// An icon, as it is drawn.
#[derive(Clone, Copy, Debug)]
pub struct Icon {
    pub path: &'static str,
    pub size: u32,
    /// The one colour that it is drawn in, or none where it has colours of its own.
    pub color: Option<u32>,
}

/// An icon in one colour.
pub fn icon(path: &'static str, size: u32, color: u32) -> (r: Icon)
    ensures
        r == (Icon { path, size, color: Some(color) }),
{
    Icon { path, size, color: Some(color) }
}

/// The icon of a file, in its own colours.
pub fn file_icon(path: &'static str, size: u32) -> (r: Icon)
    ensures
        r == (Icon { path, size, color: None }),
{
    Icon { path, size, color: None }
}

/// A small button with nothing but an icon.
#[derive(Debug)]
pub struct IconButton {
    pub id: String,
    pub side: u32,
    pub icon: Icon,
    /// Behind the icon, where the pointer is on the button.
    pub hover: u32,
    /// Behind the icon, where the button is held down.
    pub active: u32,
}

/// A small button with nothing but an icon.
pub fn icon_button(id: String, path: &'static str, theme: &Theme) -> (r: IconButton)
    ensures
        r == (IconButton {
            id,
            side: 220,
            icon: Icon { path, size: 130, color: Some(theme.text_tertiary) },
            hover: theme.overlay,
            active: theme.overlay_strong,
        }),
{
    IconButton {
        id,
        side: 220,
        icon: icon(path, 130, theme.text_tertiary),
        hover: theme.overlay,
        active: theme.overlay_strong,
    }
}

// ---------------------------------------------------------------------------
// The chip that opens a menu
// ---------------------------------------------------------------------------
/// A chip that opens a menu.
#[derive(Debug)]
pub struct MenuChip {
    pub id: String,
    pub icon: Option<(&'static str, u32)>,
    pub label: Label,
    pub caret: bool,
    pub outlined: bool,
    /// Its menu is open.
    pub selected: bool,
    pub disabled: bool,
    pub height: Option<u32>,
    pub background: Option<u32>,
}

/// A chip, as it is drawn.
#[derive(Debug)]
pub struct MenuChipLook {
    pub height: u32,
    pub padding: u32,
    pub radius: u32,
    pub border: Option<u32>,
    pub background: Option<u32>,
    /// Behind the chip, where the pointer is on it.
    pub hover: Option<u32>,
    /// How much of it shines through, in hundredths.
    pub opacity: u32,
    pub icon: Option<Icon>,
    pub label: Label,
    pub label_color: u32,
    pub caret: Option<Icon>,
}

/// A chip, as it is drawn.
pub open spec fn chip_look(c: MenuChip, theme: Theme) -> MenuChipLook {
    MenuChipLook {
        height: match c.height {
            Some(h) => h,
            None => if c.outlined {
                300
            } else {
                240
            },
        },
        padding: if c.outlined {
            100
        } else {
            70
        },
        radius: if c.outlined {
            70
        } else {
            60
        },
        border: if c.outlined {
            Some(theme.border_strong)
        } else {
            None
        },
        background: if c.selected {
            Some(theme.overlay)
        } else if c.outlined {
            match c.background {
                Some(color) => Some(color),
                None => Some(theme.raised),
            }
        } else {
            None
        },
        hover: if c.disabled {
            None
        } else {
            Some(theme.overlay)
        },
        opacity: if c.disabled {
            70
        } else {
            100
        },
        icon: match c.icon {
            Some((path, color)) => Some(Icon { path, size: 105, color: Some(color) }),
            None => None,
        },
        label: c.label,
        label_color: theme.text_secondary,
        caret: if c.caret {
            Some(Icon { path: "icons/chevron-down.svg", size: 90, color: Some(theme.text_ghost) })
        } else {
            None
        },
    }
}

impl MenuChip {
    /// A chip with a caret and nothing else.
    pub fn new(id: String) -> (r: Self)
        ensures
            r.id == id,
            r.icon is None,
            r.label@ == crate::label::LabelView::Plain(Seq::empty()),
            r.caret,
            !r.outlined,
            !r.selected,
            !r.disabled,
            r.height is None,
            r.background is None,
    {
        let label = String::new();
        assert(label@ =~= Seq::<char>::empty());
        MenuChip {
            id,
            icon: None,
            label: Label::Plain(label),
            caret: true,
            outlined: false,
            selected: false,
            disabled: false,
            height: None,
            background: None,
        }
    }

    /// Sets its height, for rows whose controls share another one.
    pub fn height(self, height: u32) -> (r: Self)
        ensures
            r == (MenuChip { height: Some(height), ..self }),
    {
        MenuChip { height: Some(height), ..self }
    }

    /// Sets what is behind it where it has an outline.
    pub fn background(self, background: u32) -> (r: Self)
        ensures
            r == (MenuChip { background: Some(background), ..self }),
    {
        MenuChip { background: Some(background), ..self }
    }

    /// Sets its icon.
    pub fn icon(self, path: &'static str, color: u32) -> (r: Self)
        ensures
            r == (MenuChip { icon: Some((path, color)), ..self }),
    {
        MenuChip { icon: Some((path, color)), ..self }
    }

    /// Sets what it says.
    pub fn label(self, label: Label) -> (r: Self)
        ensures
            r == (MenuChip { label, ..self }),
    {
        MenuChip { label, ..self }
    }

    /// Gives it an outline.
    pub fn outlined(self) -> (r: Self)
        ensures
            r == (MenuChip { outlined: true, ..self }),
    {
        MenuChip { outlined: true, ..self }
    }

    /// Sets whether it has a caret.
    pub fn caret(self, caret: bool) -> (r: Self)
        ensures
            r == (MenuChip { caret, ..self }),
    {
        MenuChip { caret, ..self }
    }

    /// Sets whether it can be used.
    pub fn disabled(self, disabled: bool) -> (r: Self)
        ensures
            r == (MenuChip { disabled, ..self }),
    {
        MenuChip { disabled, ..self }
    }

    /// Marks it while its menu is open.
    pub fn selected(self, selected: bool) -> (r: Self)
        ensures
            r == (MenuChip { selected, ..self }),
    {
        MenuChip { selected, ..self }
    }

    /// The chip, as it is drawn.
    pub fn render(self, theme: &Theme) -> (r: MenuChipLook)
        ensures
            r == chip_look(self, *theme),
    {
        let plain: Option<u32> = if self.outlined {
            match self.background {
                Some(color) => Some(color),
                None => Some(theme.raised),
            }
        } else {
            None
        };
        MenuChipLook {
            height: match self.height {
                Some(h) => h,
                None => if self.outlined {
                    300
                } else {
                    240
                },
            },
            padding: if self.outlined {
                100
            } else {
                70
            },
            radius: if self.outlined {
                70
            } else {
                60
            },
            border: if self.outlined {
                Some(theme.border_strong)
            } else {
                None
            },
            background: if self.selected {
                Some(theme.overlay)
            } else {
                plain
            },
            hover: if self.disabled {
                None
            } else {
                Some(theme.overlay)
            },
            opacity: if self.disabled {
                70
            } else {
                100
            },
            icon: match self.icon {
                Some((path, color)) => Some(icon(path, 105, color)),
                None => None,
            },
            label: self.label,
            label_color: theme.text_secondary,
            caret: if self.caret {
                Some(icon("icons/chevron-down.svg", 90, theme.text_ghost))
            } else {
                None
            },
        }
    }
}

/// The name of a project in a headline, which opens a menu.
#[derive(Debug)]
pub struct ProjectNameSelector {
    pub id: String,
    pub label: Label,
    /// Its menu is open.
    pub selected: bool,
}

impl ProjectNameSelector {
    /// The name of a project, with its menu closed.
    pub fn new(id: String, label: Label) -> (r: Self)
        ensures
            r == (ProjectNameSelector { id, label, selected: false }),
    {
        ProjectNameSelector { id, label, selected: false }
    }

    /// Marks it while its menu is open.
    pub fn selected(self, selected: bool) -> (r: Self)
        ensures
            r == (ProjectNameSelector { selected, ..self }),
    {
        ProjectNameSelector { selected, ..self }
    }

    /// The colour of the line below it: a stronger one while its menu is open.
    pub fn underline_color(&self, theme: &Theme) -> (r: u32)
        ensures
            r == (if self.selected {
                theme.text_secondary
            } else {
                theme.text_tertiary
            }),
    {
        if self.selected {
            theme.text_secondary
        } else {
            theme.text_tertiary
        }
    }
}

// ---------------------------------------------------------------------------
// Laws
// ---------------------------------------------------------------------------
/// The colour of a provider is one of the palette, whatever its id.
pub proof fn series_color_is_in_palette(provider: Seq<char>)
    ensures
        palette().contains(series_rgb(provider)),
{
    let lower = ascii_lowered(provider);
    let at = match own_slot(lower) {
        Some(slot) => slot,
        None => fnv1a(encode_utf8(lower)) as int % 8,
    };
    assert(palette()[at] == series_rgb(provider));
}

/// Two spellings of an id that differ in capitals alone have one colour.
pub proof fn capitals_make_no_difference(a: Seq<char>, b: Seq<char>)
    requires
        ascii_lowered(a) == ascii_lowered(b),
    ensures
        series_rgb(a) == series_rgb(b),
{
}

/// Two providers with colours of their own have different ones, unless they share a place.
pub proof fn own_colors_differ(a: Seq<char>, b: Seq<char>)
    requires
        own_slot(ascii_lowered(a)) is Some,
        own_slot(ascii_lowered(b)) is Some,
        own_slot(ascii_lowered(a)) != own_slot(ascii_lowered(b)),
    ensures
        series_rgb(a) != series_rgb(b),
{
}

/// A chip that cannot be used does not answer to the pointer, and one whose menu is open looks so,
/// outlined or not.
pub proof fn chips_show_their_state(c: MenuChip, theme: Theme)
    ensures
        c.disabled <==> chip_look(c, theme).hover is None,
        c.selected ==> chip_look(c, theme).background == Some(theme.overlay),
{
}

} // verus!
