//! How much of what a model can take in the selected task uses.
use crate::runtime::state::Waku;
use crate::session::ContextUsage;
use crate::settings::pages::SettingsPage;
use crate::text::{concat, concat3, decimal, decimal_text};
use vstd::prelude::*;

verus! {

/// How much a model can take in, where that is known and more than nothing.
pub open spec fn known_window(usage: ContextUsage) -> Option<u64> {
    match usage.window {
        Some(n) => if n > 0 {
            Some(n)
        } else {
            None
        },
        None => None,
    }
}

/// What the meter says. `percent` is the used part, in hundredths, as it is rounded for the eye.
pub open spec fn meter_label(usage: ContextUsage, percent: u64) -> Seq<char> {
    match known_window(usage) {
        Some(n) => decimal(percent as nat) + "% · "@ + decimal(usage.tokens as nat) + " / "@
            + decimal(n as nat),
        None => decimal(usage.tokens as nat) + " tokens"@,
    }
}

impl ContextUsage {
    /// How much the model can take in, where that is known and more than nothing.
    pub fn meter_window(&self) -> (r: Option<u64>)
        ensures
            r == known_window(*self),
    {
        match self.window {
            Some(n) => if n > 0 {
                Some(n)
            } else {
                None
            },
            None => None,
        }
    }

    /// What the meter says.
    pub fn meter_text(&self, percent: u64) -> (r: String)
        ensures
            r@ == meter_label(*self, percent),
    {
        let tokens = decimal_text(self.tokens);
        match self.meter_window() {
            Some(n) => {
                let part = concat3(decimal_text(percent).as_str(), "% · ", tokens.as_str());
                concat3(part.as_str(), " / ", decimal_text(n).as_str())
            },
            None => concat(tokens.as_str(), " tokens"),
        }
    }
}

/// What the selected task uses, if one is selected and it is known.
pub open spec fn selected_usage(w: Waku) -> Option<ContextUsage> {
    match w.tasks.selected_session {
        Some(id) => if w.tasks.lists(id) {
            w.tasks.task(id).context_usage
        } else {
            None
        },
        None => None,
    }
}

impl Waku {
    /// What the selected task uses, if one is selected and it is known.
    pub fn usage_meter(&self) -> (r: Option<ContextUsage>)
        ensures
            r == selected_usage(*self),
    {
        match self.selected_session() {
            Some(session) => session.context_usage,
            None => None,
        }
    }

    /// Tells whether there is something for the meter to show.
    pub fn usage_meter_available(&self) -> (r: bool)
        ensures
            r == selected_usage(*self) is Some,
    {
        self.usage_meter().is_some()
    }

    /// What the meter says, if it is shown.
    pub fn render_usage_meter(&self, percent: u64) -> (r: Option<String>)
        ensures
            match selected_usage(*self) {
                Some(usage) => r is Some && r->0@ == meter_label(usage, percent),
                None => r is None,
            },
    {
        match self.usage_meter() {
            Some(usage) => Some(usage.meter_text(percent)),
            None => None,
        }
    }
}

/// Opens the page on usage.
pub fn toggle_usage_panel_action(page: &mut Option<SettingsPage>)
    ensures
        *final(page) == Some(SettingsPage::Usage),
{
    *page = Some(SettingsPage::Usage);
}

} // verus!
