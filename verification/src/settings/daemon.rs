//! The daemon, and how it can be reached from elsewhere.
use crate::label::{Label, LabelView};
use crate::protocol::SessionStatus;
use crate::runtime::rewind::rests;
use crate::session::AgentSession;
use crate::text::{
    concat, concat3, copy_texts, decimal, decimal_text, parse_decimal, parsed, same_text, trim,
    trimmed, views,
};
use vstd::prelude::*;

verus! {

// ---------------------------------------------------------------------------
// Settings
// ---------------------------------------------------------------------------
/// How the daemon can be reached from elsewhere.
#[derive(Debug)]
pub struct DaemonExposureSettings {
    pub enabled: bool,
    pub port: u16,
    pub token: String,
    /// The origins whose pages may reach it.
    pub allowed_origins: Vec<String>,
}

/// The contents of how the daemon can be reached.
pub ghost struct ExposureView {
    pub enabled: bool,
    pub port: u16,
    pub token: Seq<char>,
    pub allowed_origins: Seq<Seq<char>>,
}

impl View for DaemonExposureSettings {
    type V = ExposureView;

    open spec fn view(&self) -> ExposureView {
        ExposureView {
            enabled: self.enabled,
            port: self.port,
            token: self.token@,
            allowed_origins: views(self.allowed_origins@),
        }
    }
}

impl Clone for DaemonExposureSettings {
    fn clone(&self) -> (r: Self)
        ensures
            r@ == self@,
    {
        DaemonExposureSettings {
            enabled: self.enabled,
            port: self.port,
            token: self.token.clone(),
            allowed_origins: copy_texts(&self.allowed_origins),
        }
    }
}

fn same_texts(a: &Vec<String>, b: &Vec<String>) -> (r: bool)
    ensures
        r == (views(a@) == views(b@)),
{
    if a.len() != b.len() {
        assert(views(a@).len() != views(b@).len());
        return false;
    }
    for i in 0..a.len()
        invariant
            a@.len() == b@.len(),
            forall|k: int| 0 <= k < i ==> views(a@)[k] == views(b@)[k],
    {
        if !same_text(a[i].as_str(), b[i].as_str()) {
            assert(views(a@)[i as int] != views(b@)[i as int]);
            return false;
        }
    }
    assert(views(a@) =~= views(b@));
    true
}

fn same_settings(a: &DaemonExposureSettings, b: &DaemonExposureSettings) -> (r: bool)
    ensures
        r == (a@ == b@),
{
    a.enabled == b.enabled && a.port == b.port && same_text(a.token.as_str(), b.token.as_str())
        && same_texts(&a.allowed_origins, &b.allowed_origins)
}

/// What the user typed into the fields for the daemon. `origins` is what was made of the origins: a list,
/// or why there is none.
#[derive(Debug)]
pub struct DaemonFields {
    pub port: String,
    pub origins: Result<Vec<String>, String>,
}

/// Why what the user typed cannot be used.
#[derive(Debug)]
pub enum FieldError {
    InvalidPort,
    Invalid(String),
}

/// What the user is told of a field that cannot be used.
pub open spec fn field_error_label(e: FieldError) -> LabelView {
    match e {
        FieldError::InvalidPort => LabelView::Message("daemon.invalid_port"@),
        FieldError::Invalid(text) => LabelView::Plain(text@),
    }
}

impl FieldError {
    /// What the user is told of it.
    pub fn label(&self) -> (r: Label)
        ensures
            r@ == field_error_label(*self),
    {
        match self {
            FieldError::InvalidPort => Label::Message("daemon.invalid_port"),
            FieldError::Invalid(text) => Label::Plain(text.clone()),
        }
    }
}

/// What the user is told where the settings stay as they are for an error in the fields: `error` is what
/// is said of that error, in the user's language.
pub fn invalid_settings(error: String) -> (r: Label)
    ensures
        r@ == (LabelView::MessageWith {
            key: "daemon.invalid_settings"@,
            name: "error"@,
            value: error@,
        }),
{
    Label::MessageWith { key: "daemon.invalid_settings", name: "error", value: error }
}

/// The port that the user typed: a number from 1 to 65535.
pub open spec fn port_of(text: Seq<char>) -> Option<nat> {
    match parsed(trimmed(text), 65535) {
        Some(n) => if n == 0 {
            None
        } else {
            Some(n)
        },
        None => None,
    }
}

/// What the settings become with what the user typed.
pub open spec fn from_fields(current: ExposureView, fields: DaemonFields) -> Result<
    ExposureView,
    LabelView,
> {
    match port_of(fields.port@) {
        None => Err(LabelView::Message("daemon.invalid_port"@)),
        Some(port) => match fields.origins {
            Ok(origins) => Ok(
                ExposureView {
                    port: port as u16,
                    allowed_origins: views(origins@),
                    ..current
                },
            ),
            Err(text) => Err(LabelView::Plain(text@)),
        },
    }
}

/// What the settings become with what the user typed, or why it cannot be used.
pub fn daemon_exposure_from_fields(current: &DaemonExposureSettings, fields: &DaemonFields) -> (r:
    Result<DaemonExposureSettings, FieldError>)
    ensures
        match r {
            Ok(s) => from_fields(current@, *fields) == Ok::<ExposureView, LabelView>(s@),
            Err(e) => from_fields(current@, *fields) == Err::<ExposureView, LabelView>(
                field_error_label(e),
            ),
        },
{
    let port: u16 = match parse_decimal(trim(fields.port.as_str()).as_str(), 65535) {
        Some(n) => if n == 0 {
            return Err(FieldError::InvalidPort);
        } else {
            n as u16
        },
        None => return Err(FieldError::InvalidPort),
    };
    match &fields.origins {
        Ok(origins) => {
            let mut settings = current.clone();
            settings.port = port;
            settings.allowed_origins = copy_texts(origins);
            Ok(settings)
        },
        Err(text) => Err(FieldError::Invalid(text.clone())),
    }
}

/// Tells whether the fields hold something else than the settings: also where it cannot be used.
pub open spec fn is_dirty(current: ExposureView, fields: DaemonFields) -> bool {
    match from_fields(current, fields) {
        Ok(s) => s.port != current.port || s.allowed_origins != current.allowed_origins,
        Err(_) => true,
    }
}

/// Tells whether the fields hold something else than the settings.
pub fn daemon_exposure_fields_dirty(current: &DaemonExposureSettings, fields: &DaemonFields) -> (r:
    bool)
    ensures
        r == is_dirty(current@, *fields),
{
    match daemon_exposure_from_fields(current, fields) {
        Ok(s) => s.port != current.port || !same_texts(
            &s.allowed_origins,
            &current.allowed_origins,
        ),
        Err(_) => true,
    }
}

// ---------------------------------------------------------------------------
// Changing them
// ---------------------------------------------------------------------------
/// What is known of the daemon.
#[derive(Debug)]
pub struct DaemonState {
    pub exposure: DaemonExposureSettings,
    /// The daemon is another one than this program's own.
    pub remote: bool,
    /// The daemon is being started anew.
    pub reconfigure_pending: bool,
    /// The token is shown.
    pub token_revealed: bool,
}

/// What is done to change the settings.
#[derive(Debug)]
pub enum ExposureAction {
    /// Nothing.
    Nothing,
    /// The user is told why not.
    Refuse(&'static str),
    /// The settings have been changed, and are saved.
    Save,
    /// The daemon is started anew with these settings.
    Restart(DaemonExposureSettings),
}

/// Tells whether every task is at rest.
pub open spec fn all_rest(sessions: Seq<AgentSession>) -> bool {
    forall|i: int| 0 <= i < sessions.len() ==> rests((#[trigger] sessions[i]).status)
}

fn every_task_rests(sessions: &Vec<AgentSession>) -> (r: bool)
    ensures
        r == all_rest(sessions@),
{
    for i in 0..sessions.len()
        invariant
            forall|k: int| 0 <= k < i ==> rests((#[trigger] sessions@[k]).status),
    {
        let at_rest = match sessions[i].status {
            SessionStatus::Idle => true,
            SessionStatus::Failed => true,
            _ => false,
        };
        if !at_rest {
            assert(!rests(sessions@[i as int].status));
            return false;
        }
    }
    true
}

/// Tells whether a change of the settings was dealt with as it should be.
pub open spec fn exposure_applied(
    before: DaemonState,
    after: DaemonState,
    sessions: Seq<AgentSession>,
    settings: ExposureView,
    r: ExposureAction,
) -> bool {
    if before.reconfigure_pending || settings == before.exposure@ {
        r is Nothing && after == before
    } else if before.remote {
        r is Refuse && r->Refuse_0@ == "daemon.external_description"@ && after == before
    } else if !all_rest(sessions) {
        r is Refuse && r->Refuse_0@ == "daemon.stop_active_tasks"@ && after == before
    } else if !before.exposure.enabled && !settings.enabled {
        &&& r is Save
        &&& after == (DaemonState { exposure: after.exposure, ..before })
        &&& after.exposure@ == settings
    } else {
        &&& r is Restart
        &&& r->Restart_0@ == settings
        &&& after == (DaemonState { reconfigure_pending: true, ..before })
    }
}

/// What came of starting the daemon anew.
#[derive(Debug)]
pub struct RestartOutcome {
    /// The agents are gone, and the fields hold these texts.
    pub fields: Option<(String, Vec<String>)>,
    pub told: Label,
}

/// What the user typed, were the daemon to be reached or not.
pub open spec fn toggled(current: ExposureView, fields: DaemonFields, enabled: bool) -> Result<
    ExposureView,
    LabelView,
> {
    if enabled {
        match from_fields(current, fields) {
            Ok(s) => Ok(ExposureView { enabled: true, ..s }),
            Err(e) => Err(e),
        }
    } else {
        Ok(ExposureView { enabled: false, ..current })
    }
}

/// The result of a change of the settings: what is done, or why the fields cannot be used.
pub open spec fn change_made(
    before: DaemonState,
    after: DaemonState,
    sessions: Seq<AgentSession>,
    wanted: Result<ExposureView, LabelView>,
    hide_token: bool,
    r: Result<ExposureAction, FieldError>,
) -> bool {
    let hidden = if hide_token {
        DaemonState { token_revealed: false, ..before }
    } else {
        before
    };
    match wanted {
        Ok(settings) => r is Ok && exposure_applied(hidden, after, sessions, settings, r->Ok_0),
        Err(e) => r is Err && field_error_label(r->Err_0) == e && after == before,
    }
}

impl DaemonState {
    /// Changes the settings, or says what is to be done for it. The daemon is started anew only where it
    /// can be reached before or after, and only while every task is at rest.
    pub fn apply_daemon_exposure(
        &mut self,
        settings: DaemonExposureSettings,
        sessions: &Vec<AgentSession>,
    ) -> (r: ExposureAction)
        ensures
            exposure_applied(*old(self), *final(self), sessions@, settings@, r),
    {
        if self.reconfigure_pending || same_settings(&settings, &self.exposure) {
            return ExposureAction::Nothing;
        }
        if self.remote {
            return ExposureAction::Refuse("daemon.external_description");
        }
        if !every_task_rests(sessions) {
            return ExposureAction::Refuse("daemon.stop_active_tasks");
        }
        if !self.exposure.enabled && !settings.enabled {
            self.exposure = settings;
            return ExposureAction::Save;
        }
        self.reconfigure_pending = true;
        ExposureAction::Restart(settings)
    }

    /// Lets the daemon be reached from elsewhere, with what the user typed, or no longer.
    pub fn set_daemon_exposure_enabled(
        &mut self,
        enabled: bool,
        fields: &DaemonFields,
        sessions: &Vec<AgentSession>,
    ) -> (r: Result<ExposureAction, FieldError>)
        ensures
            change_made(
                *old(self),
                *final(self),
                sessions@,
                toggled(old(self).exposure@, *fields, enabled),
                !enabled,
                r,
            ),
    {
        if !enabled {
            self.token_revealed = false;
            let mut settings = self.exposure.clone();
            settings.enabled = false;
            return Ok(self.apply_daemon_exposure(settings, sessions));
        }
        match daemon_exposure_from_fields(&self.exposure, fields) {
            Ok(s) => {
                let mut settings = s;
                settings.enabled = true;
                Ok(self.apply_daemon_exposure(settings, sessions))
            },
            Err(e) => Err(e),
        }
    }

    /// Takes over what the user typed.
    pub fn apply_daemon_exposure_fields(
        &mut self,
        fields: &DaemonFields,
        sessions: &Vec<AgentSession>,
    ) -> (r: Result<ExposureAction, FieldError>)
        ensures
            change_made(
                *old(self),
                *final(self),
                sessions@,
                from_fields(old(self).exposure@, *fields),
                false,
                r,
            ),
    {
        match daemon_exposure_from_fields(&self.exposure, fields) {
            Ok(settings) => Ok(self.apply_daemon_exposure(settings, sessions)),
            Err(e) => Err(e),
        }
    }

    /// Takes over what the user typed, with a new token, which is not shown.
    pub fn regenerate_daemon_token(
        &mut self,
        fields: &DaemonFields,
        token: String,
        sessions: &Vec<AgentSession>,
    ) -> (r: Result<ExposureAction, FieldError>)
        ensures
            change_made(
                *old(self),
                *final(self),
                sessions@,
                (match from_fields(old(self).exposure@, *fields) {
                    Ok(s) => Ok(ExposureView { token: token@, ..s }),
                    Err(e) => Err(e),
                }),
                true,
                r,
            ),
    {
        match daemon_exposure_from_fields(&self.exposure, fields) {
            Ok(s) => {
                let mut settings = s;
                settings.token = token;
                self.token_revealed = false;
                Ok(self.apply_daemon_exposure(settings, sessions))
            },
            Err(e) => Err(e),
        }
    }

    /// Takes what came of starting the daemon anew. On success the settings are saved, and the agents are
    /// gone.
    pub fn finish_daemon_reconfigure(
        &mut self,
        applied: DaemonExposureSettings,
        failed: Option<String>,
    ) -> (r: RestartOutcome)
        ensures
            final(self).remote == old(self).remote,
            final(self).token_revealed == old(self).token_revealed,
            !final(self).reconfigure_pending,
            match failed {
                None => {
                    &&& final(self).exposure@ == applied@
                    &&& r.fields is Some
                    &&& (r.fields->0).0@ == decimal(applied@.port as nat)
                    &&& views((r.fields->0).1@) == applied@.allowed_origins
                    &&& r.told@ == LabelView::Message("daemon.settings_applied"@)
                },
                Some(error) => {
                    &&& final(self).exposure == old(self).exposure
                    &&& r.fields is None
                    &&& r.told@ == (LabelView::MessageWith {
                        key: "daemon.restart_failed"@,
                        name: "error"@,
                        value: error@,
                    })
                },
            },
    {
        self.reconfigure_pending = false;
        match failed {
            None => {
                let port = decimal_text(applied.port as u64);
                let origins = copy_texts(&applied.allowed_origins);
                self.exposure = applied;
                RestartOutcome {
                    fields: Some((port, origins)),
                    told: Label::Message("daemon.settings_applied"),
                }
            },
            Some(error) => RestartOutcome {
                fields: None,
                told: Label::MessageWith {
                    key: "daemon.restart_failed",
                    name: "error",
                    value: error,
                },
            },
        }
    }

    /// Shows the token, or hides it.
    pub fn toggle_token(&mut self)
        ensures
            *final(self) == (DaemonState {
                token_revealed: !old(self).token_revealed,
                ..*old(self)
            }),
    {
        self.token_revealed = !self.token_revealed;
    }
}

// ---------------------------------------------------------------------------
// The page
// ---------------------------------------------------------------------------
/// A button that copies something.
#[derive(Debug)]
pub struct CopyButton {
    /// What is copied.
    pub text: String,
    pub icon: &'static str,
    pub label: &'static str,
}

/// Tells whether a button copies a text. `copied` is set shortly after it was pressed.
pub open spec fn copies(b: CopyButton, text: Seq<char>, copied: bool) -> bool {
    &&& b.text@ == text
    &&& b.icon@ == (if copied {
        "icons/check.svg"@
    } else {
        "icons/copy.svg"@
    })
    &&& b.label@ == (if copied {
        "common.copied"@
    } else {
        "common.copy"@
    })
}

fn copy_button(text: String, copied: bool) -> (r: CopyButton)
    ensures
        copies(r, text@, copied),
{
    CopyButton {
        text,
        icon: if copied {
            "icons/check.svg"
        } else {
            "icons/copy.svg"
        },
        label: if copied {
            "common.copied"
        } else {
            "common.copy"
        },
    }
}

/// How the daemon is reached, as it is shown.
#[derive(Debug)]
pub struct ConnectionCard {
    pub url: CopyButton,
    pub token: CopyButton,
    /// What stands in place of the token.
    pub token_text: String,
    pub reveal_icon: &'static str,
    pub reveal_tooltip: &'static str,
    pub can_apply: bool,
    pub apply_label: &'static str,
    pub can_regenerate: bool,
}

/// The page for the daemon.
#[derive(Debug)]
pub enum DaemonPage {
    /// The daemon is another one than this program's own.
    External,
    Own {
        enabled: bool,
        /// The switch can be used.
        can_toggle: bool,
        status: &'static str,
        /// How the daemon is reached, where it can be.
        connection: Option<ConnectionCard>,
    },
}

/// The address of the daemon.
pub open spec fn websocket_url(hostname: Seq<char>, port: u16) -> Seq<char> {
    "ws://"@ + hostname + ":"@ + decimal(port as nat)
}

/// What stands in place of a token that is not shown.
pub open spec fn hidden_token() -> Seq<char> {
    "••••••••••••••••••••••••••••••••"@
}

/// Tells whether a card shows how the daemon is reached.
pub open spec fn shows_connection(
    c: ConnectionCard,
    state: DaemonState,
    dirty: bool,
    hostname: Seq<char>,
    url_copied: bool,
    token_copied: bool,
) -> bool {
    &&& copies(c.url, websocket_url(hostname, state.exposure.port), url_copied)
    &&& copies(c.token, state.exposure.token@, token_copied)
    &&& c.token_text@ == (if state.token_revealed {
        state.exposure.token@
    } else {
        hidden_token()
    })
    &&& c.reveal_icon@ == (if state.token_revealed {
        "icons/eye-off.svg"@
    } else {
        "icons/eye.svg"@
    })
    &&& c.reveal_tooltip@ == (if state.token_revealed {
        "daemon.hide_token"@
    } else {
        "daemon.reveal_token"@
    })
    &&& c.can_apply == (!state.reconfigure_pending && dirty)
    &&& c.apply_label@ == (if state.reconfigure_pending {
        "daemon.restarting"@
    } else {
        "daemon.apply"@
    })
    &&& c.can_regenerate == !state.reconfigure_pending
}

/// The page for the daemon. `url_copied` and `token_copied` are set shortly after the address or the token
/// was copied.
pub fn render_daemon_settings(
    state: &DaemonState,
    fields: &DaemonFields,
    hostname: &str,
    url_copied: bool,
    token_copied: bool,
) -> (r: DaemonPage)
    ensures
        if state.remote {
            r is External
        } else {
            &&& r is Own
            &&& r->enabled == state.exposure.enabled
            &&& r->can_toggle == !state.reconfigure_pending
            &&& r->status@ == (if state.reconfigure_pending {
                "daemon.status_restarting"@
            } else if state.exposure.enabled {
                "daemon.status_exposed"@
            } else {
                "daemon.status_local"@
            })
            &&& r->connection is Some <==> state.exposure.enabled
            &&& r->connection is Some ==> shows_connection(
                r->connection->0,
                *state,
                is_dirty(state.exposure@, *fields),
                hostname@,
                url_copied,
                token_copied,
            )
        },
{
    if state.remote {
        return DaemonPage::External;
    }
    let enabled = state.exposure.enabled;
    let pending = state.reconfigure_pending;
    let revealed = state.token_revealed;
    let connection = if enabled {
        let prefix = concat3("ws://", hostname, ":");
        let url = concat(prefix.as_str(), decimal_text(state.exposure.port as u64).as_str());
        let dirty = daemon_exposure_fields_dirty(&state.exposure, fields);
        Some(
            ConnectionCard {
                url: copy_button(url, url_copied),
                token: copy_button(state.exposure.token.clone(), token_copied),
                token_text: if revealed {
                    state.exposure.token.clone()
                } else {
                    "••••••••••••••••••••••••••••••••".to_string()
                },
                reveal_icon: if revealed {
                    "icons/eye-off.svg"
                } else {
                    "icons/eye.svg"
                },
                reveal_tooltip: if revealed {
                    "daemon.hide_token"
                } else {
                    "daemon.reveal_token"
                },
                can_apply: !pending && dirty,
                apply_label: if pending {
                    "daemon.restarting"
                } else {
                    "daemon.apply"
                },
                can_regenerate: !pending,
            },
        )
    } else {
        None
    };
    DaemonPage::Own {
        enabled,
        can_toggle: !pending,
        status: if pending {
            "daemon.status_restarting"
        } else if enabled {
            "daemon.status_exposed"
        } else {
            "daemon.status_local"
        },
        connection,
    }
}

// ---------------------------------------------------------------------------
// Laws
// ---------------------------------------------------------------------------
/// A token that the user did not ask to see does not stand on the page.
pub proof fn token_stays_hidden(
    c: ConnectionCard,
    state: DaemonState,
    dirty: bool,
    hostname: Seq<char>,
    url_copied: bool,
    token_copied: bool,
)
    requires
        shows_connection(c, state, dirty, hostname, url_copied, token_copied),
        !state.token_revealed,
    ensures
        c.token_text@ == hidden_token(),
{
}

/// The daemon is started anew only while every task is at rest, and never another program's.
pub proof fn restarts_disturb_no_task(
    before: DaemonState,
    after: DaemonState,
    sessions: Seq<AgentSession>,
    settings: ExposureView,
    r: ExposureAction,
)
    requires
        exposure_applied(before, after, sessions, settings, r),
        r is Restart,
    ensures
        all_rest(sessions),
        !before.remote,
        !before.reconfigure_pending,
        before.exposure.enabled || settings.enabled,
{
}

/// Settings that were just taken over leave nothing to apply: the fields that hold them are not dirty.
pub proof fn applied_fields_are_clean(current: ExposureView, fields: DaemonFields)
    requires
        port_of(fields.port@) == Some(current.port as nat),
        fields.origins is Ok,
        views(fields.origins->Ok_0@) == current.allowed_origins,
    ensures
        !is_dirty(current, fields),
{
}

} // verus!
