use std::collections::BTreeSet;
use waku::label::Label;
use waku::protocol::{ActivityKind, SessionStatus};
use waku::ui::{
    activity_icon, activity_noun, file_icon, icon, icon_button, presses, presses_alone,
    provider_color, provider_icon, provider_series_palette, provider_series_rgb, status_color,
    MenuChip, ProjectNameSelector, Theme,
};

fn theme() -> Theme {
    Theme {
        text_secondary: 1,
        text_tertiary: 2,
        text_ghost: 3,
        accent: 4,
        warning: 5,
        danger: 6,
        raised: 7,
        overlay: 8,
        overlay_strong: 9,
        border_strong: 10,
    }
}

#[test]
fn builtin_provider_series_colors_are_stable_and_distinct() {
    let ids = [
        "anthropic",
        "openai-responses",
        "openai-chat",
        "openai-codex",
        "xai",
        "xai-oauth",
        "opencode-zen",
        "opencode-go",
    ];
    let colors: Vec<u32> = ids.iter().map(|id| provider_series_rgb(id)).collect();
    assert_eq!(provider_series_rgb("Anthropic"), provider_series_rgb("anthropic"));
    let unique = colors.iter().copied().collect::<BTreeSet<_>>();
    assert_eq!(unique.len(), ids.len());
    assert!(colors.iter().all(|color| provider_series_palette().contains(color)));
}

#[test]
fn custom_provider_series_color_stays_inside_the_palette() {
    let color = provider_series_rgb("my-gateway");
    assert!(provider_series_palette().contains(&color));
}

#[test]
fn ids_without_a_color_of_their_own_are_hashed() {
    for id in ["my-gateway", "", "ÄÖ", "a", "foobar"] {
        let mut hash: u32 = 2_166_136_261;
        for byte in id.to_ascii_lowercase().bytes() {
            hash ^= u32::from(byte);
            hash = hash.wrapping_mul(16_777_619);
        }
        assert_eq!(provider_series_rgb(id), provider_series_palette()[hash as usize % 8]);
    }
    assert_eq!(provider_series_rgb("xai"), 0x000E_A5E9);
    assert_eq!(provider_series_rgb("openai"), 0x0010_A37F);
    assert_eq!(provider_color(&theme(), "xai"), 0x000E_A5E9);
    assert_eq!(provider_icon("xai"), "icons/bot.svg");
}

#[test]
fn states_and_activities_have_looks() {
    assert_eq!(status_color(&theme(), SessionStatus::Idle), 3);
    assert_eq!(status_color(&theme(), SessionStatus::Connecting), 4);
    assert_eq!(status_color(&theme(), SessionStatus::Working), 4);
    assert_eq!(status_color(&theme(), SessionStatus::Waiting), 5);
    assert_eq!(status_color(&theme(), SessionStatus::Failed), 6);
    assert_eq!(activity_icon(ActivityKind::Plan), "icons/list.svg");
    assert_eq!(activity_icon(ActivityKind::Search), activity_icon(ActivityKind::FileSearch));
    assert_eq!(
        activity_noun(ActivityKind::FileChange),
        ("activity.file_edit", "activity.file_edits")
    );
}

#[test]
fn icons_are_drawn_in_one_color_or_their_own() {
    assert_eq!(icon("icons/x.svg", 105, 7).color, Some(7));
    assert_eq!(file_icon("icons/rust.svg", 130).color, None);
    let button = icon_button("close".to_string(), "icons/x.svg", &theme());
    assert_eq!(button.side, 220);
    assert_eq!((button.icon.size, button.icon.color), (130, Some(2)));
    assert_eq!((button.hover, button.active), (8, 9));
}

#[test]
fn chips_show_how_they_stand() {
    let chip = MenuChip::new("model".to_string())
        .icon("icons/bot.svg", 11)
        .label(Label::Plain("Model".into()));
    let look = chip.render(&theme());
    assert_eq!((look.height, look.padding, look.radius), (240, 70, 60));
    assert_eq!((look.border, look.background), (None, None));
    assert_eq!(look.hover, Some(8));
    assert_eq!(look.opacity, 100);
    assert_eq!(look.icon.unwrap().size, 105);
    assert_eq!(look.caret.unwrap().path, "icons/chevron-down.svg");

    let outlined = || MenuChip::new("branch".to_string()).outlined();
    let look = outlined().render(&theme());
    assert_eq!((look.height, look.border, look.background), (300, Some(10), Some(7)));
    let look = outlined().background(12).height(260).caret(false).render(&theme());
    assert_eq!((look.height, look.background), (260, Some(12)));
    assert!(look.caret.is_none());
    let look = outlined().background(12).selected(true).disabled(true).render(&theme());
    assert_eq!(look.background, Some(8));
    assert_eq!((look.hover, look.opacity), (None, 70));
}

#[test]
fn names_of_projects_are_underlined() {
    let name = ProjectNameSelector::new("project".to_string(), Label::Plain("Waku".into()));
    assert_eq!(name.underline_color(&theme()), 2);
    assert_eq!(name.selected(true).underline_color(&theme()), 1);
}

#[test]
fn two_keys_press() {
    assert!(presses("enter") && presses("space") && !presses("tab"));
    assert!(presses_alone("enter", false) && !presses_alone("enter", true));
}
