//! What the settings of the daemon promise: what was typed is what is applied, no task is disturbed, and the
//! token is shown only to who asks for it.
use crate::protocol::SessionStatus;
use crate::session::AgentSession;
use crate::settings::daemon::{
    daemon_exposure_fields_dirty, daemon_exposure_from_fields, render_daemon_settings,
    DaemonExposureSettings, DaemonFields, DaemonPage, DaemonState, ExposureAction, FieldError,
    RestartOutcome,
};
use crate::text::{all_digits, decimal, parsed, trimmed, views};
use crate::text_laws::{digits_stand_for_their_number, is_tight, only_white_space_around_goes};
use vstd::prelude::*;

verus! {

/// Tells whether no task is at work.
pub open spec fn nobody_works(sessions: Seq<AgentSession>) -> bool {
    forall|i: int|
        0 <= i < sessions.len() ==> (#[trigger] sessions[i]).status == SessionStatus::Idle
            || sessions[i].status == SessionStatus::Failed
}

/// Tells whether two lists hold the same texts.
pub open spec fn same_texts(a: Seq<String>, b: Seq<String>) -> bool {
    a.len() == b.len() && forall|i: int| 0 <= i < a.len() ==> (#[trigger] a[i])@ == b[i]@
}

proof fn same_texts_views(a: Seq<String>, b: Seq<String>)
    ensures
        same_texts(a, b) <==> views(a) == views(b),
{
    assert(views(a).len() == a.len() && views(b).len() == b.len());
    assert forall|i: int| 0 <= i < a.len() implies #[trigger] views(a)[i] == a[i]@ by {}
    assert forall|i: int| 0 <= i < b.len() implies #[trigger] views(b)[i] == b[i]@ by {}
    if views(a) == views(b) {
        assert forall|i: int| 0 <= i < a.len() implies (#[trigger] a[i])@ == b[i]@ by {
            assert(views(a)[i] == views(b)[i]);
        }
    }
    if same_texts(a, b) {
        assert forall|i: int| 0 <= i < a.len() implies views(a)[i] == views(b)[i] by {
            assert(a[i]@ == b[i]@);
        }
        assert(views(a) =~= views(b));
    }
}

proof fn digits_are_tight(n: nat)
    ensures
        is_tight(decimal(n)),
        trimmed(decimal(n)) == decimal(n),
{
    digits_stand_for_their_number(n);
    let s = decimal(n);
    let none = Seq::<char>::empty();
    assert(all_digits(s));
    only_white_space_around_goes(none, s, none);
    assert(none + s + none =~= s);
}

/// A port that was typed as its number is the port that is set, unless it is no port at all; the origins are those
/// that were typed, and whether the daemon is exposed and its token stay.
pub proof fn typed_settings_are_set(
    current: &DaemonExposureSettings,
    fields: &DaemonFields,
    n: nat,
    r: Result<DaemonExposureSettings, FieldError>,
)
    requires
        call_ensures(daemon_exposure_from_fields, (current, fields), r),
        fields.port@ == decimal(n),
    ensures
        r is Ok <==> 1 <= n <= 65535 && fields.origins is Ok,
        r matches Ok(s) ==> s.port == n && s.enabled == current.enabled && s.token@
            == current.token@ && same_texts(s.allowed_origins@, fields.origins->Ok_0@),
        !(1 <= n <= 65535) ==> r == Err::<DaemonExposureSettings, FieldError>(
            FieldError::InvalidPort,
        ),
        1 <= n <= 65535 && fields.origins is Err ==> (r->Err_0) is Invalid && (
        r->Err_0)->Invalid_0@ == (fields.origins->Err_0)@,
{
    digits_are_tight(n);
    digits_stand_for_their_number(n);
    reveal_strlit("daemon.invalid_port");
    if let Ok(s) = r {
        same_texts_views(s.allowed_origins@, fields.origins->Ok_0@);
    }
}

/// A port without a number in it is refused, whatever else was typed.
pub proof fn a_port_is_a_number(
    current: &DaemonExposureSettings,
    fields: &DaemonFields,
    r: Result<DaemonExposureSettings, FieldError>,
)
    requires
        call_ensures(daemon_exposure_from_fields, (current, fields), r),
        trimmed(fields.port@).len() == 0 || exists|i: int|
            1 <= i < trimmed(fields.port@).len() && !('0' <= #[trigger] trimmed(fields.port@)[i]
                <= '9'),
    ensures
        r == Err::<DaemonExposureSettings, FieldError>(FieldError::InvalidPort),
{
    let s = trimmed(fields.port@);
    if s.len() > 0 {
        let i = choose|i: int| 1 <= i < s.len() && !('0' <= #[trigger] s[i] <= '9');
        if s[0] == '+' {
            assert(s.drop_first()[i - 1] == s[i]);
        }
    }
    assert(parsed(s, 65535) is None);
}

/// The fields differ from the settings exactly where applying them would change the port or the origins; what was
/// just applied differs in nothing.
pub proof fn fields_differ_where_they_change_something(
    current: &DaemonExposureSettings,
    fields: &DaemonFields,
    r: bool,
)
    requires
        call_ensures(daemon_exposure_fields_dirty, (current, fields), r),
        fields.port@ == decimal(current.port as nat),
        current.port > 0,
        fields.origins is Ok,
    ensures
        r <==> !same_texts(fields.origins->Ok_0@, current.allowed_origins@),
{
    digits_are_tight(current.port as nat);
    digits_stand_for_their_number(current.port as nat);
    same_texts_views(fields.origins->Ok_0@, current.allowed_origins@);
}

/// Tells whether two settings say the same.
pub open spec fn same_settings(a: DaemonExposureSettings, b: DaemonExposureSettings) -> bool {
    a.enabled == b.enabled && a.port == b.port && a.token@ == b.token@ && same_texts(
        a.allowed_origins@,
        b.allowed_origins@,
    )
}

proof fn same_settings_views(a: DaemonExposureSettings, b: DaemonExposureSettings)
    ensures
        same_settings(a, b) <==> a@ == b@,
{
    same_texts_views(a.allowed_origins@, b.allowed_origins@);
}

/// New settings take effect while nobody works and no change is on its way: a daemon that only listens here and
/// goes on so just saves them, any other is restarted with them. A daemon elsewhere is left alone.
pub proof fn settings_take_effect_at_rest(
    state: &mut DaemonState,
    settings: DaemonExposureSettings,
    sessions: &Vec<AgentSession>,
    r: ExposureAction,
)
    requires
        call_ensures(DaemonState::apply_daemon_exposure, (state, settings, sessions), r),
    ensures
        ({
            let asked = !old(state).reconfigure_pending && !same_settings(
                settings,
                old(state).exposure,
            );
            let free = asked && !old(state).remote && nobody_works(sessions@);
            let local = !old(state).exposure.enabled && !settings.enabled;
            &&& r is Nothing <==> !asked
            &&& r is Refuse <==> asked && !free
            &&& r is Save <==> free && local
            &&& r is Restart <==> free && !local
            &&& !free ==> *final(state) == *old(state)
            &&& r is Save ==> same_settings(final(state).exposure, settings)
                && !final(state).reconfigure_pending
            &&& r matches ExposureAction::Restart(s) ==> same_settings(s, settings) && final(state).reconfigure_pending && final(state).exposure == old(state).exposure
            &&& final(state).token_revealed == old(state).token_revealed
            &&& final(state).remote == old(state).remote
        }),
{
    same_settings_views(settings, old(state).exposure);
    same_settings_views(final(state).exposure, settings);
    if let ExposureAction::Restart(s) = r {
        same_settings_views(s, settings);
    }
    assert(crate::settings::daemon::all_rest(sessions@) <==> nobody_works(sessions@));
}

/// Switching the daemon off needs no sound fields, hides the token and keeps the rest; switching it on takes the
/// fields.
pub proof fn the_switch_takes_effect(
    state: &mut DaemonState,
    enabled: bool,
    fields: &DaemonFields,
    sessions: &Vec<AgentSession>,
    r: Result<ExposureAction, FieldError>,
)
    requires
        call_ensures(DaemonState::set_daemon_exposure_enabled, (state, enabled, fields, sessions), r),
        !old(state).remote,
        !old(state).reconfigure_pending,
        nobody_works(sessions@),
    ensures
        !enabled && old(state).exposure.enabled ==> r is Ok && r->Ok_0 is Restart && ({
            let s = r->Ok_0->Restart_0;
            !s.enabled && s.port == old(state).exposure.port && s.token@ == old(
                state,
            ).exposure.token@ && same_texts(s.allowed_origins@, old(state).exposure.allowed_origins@)
        }) && !final(state).token_revealed,
        !enabled && !old(state).exposure.enabled ==> r is Ok && r->Ok_0 is Nothing,
        enabled && !old(state).exposure.enabled && r is Ok ==> r->Ok_0 is Restart && (
        r->Ok_0->Restart_0).enabled && (r->Ok_0->Restart_0).token@ == old(state).exposure.token@,
        r is Err ==> enabled && *final(state) == *old(state),
{
    assert(crate::settings::daemon::all_rest(sessions@) <==> nobody_works(sessions@));
    if !enabled && old(state).exposure.enabled {
        same_texts_views(
            (r->Ok_0->Restart_0).allowed_origins@,
            old(state).exposure.allowed_origins@,
        );
    }
}

/// A new token takes the place of the old one and is hidden.
pub proof fn a_new_token_takes_effect(
    state: &mut DaemonState,
    fields: &DaemonFields,
    token: String,
    sessions: &Vec<AgentSession>,
    r: Result<ExposureAction, FieldError>,
)
    requires
        call_ensures(DaemonState::regenerate_daemon_token, (state, fields, token, sessions), r),
        old(state).exposure.enabled,
        token@ != old(state).exposure.token@,
        r is Ok,
    ensures
        r->Ok_0 is Restart <==> !old(state).remote && !old(state).reconfigure_pending
            && nobody_works(sessions@),
        r->Ok_0 is Restart ==> (r->Ok_0->Restart_0).token@ == token@ && (r->Ok_0->Restart_0).enabled,
        !final(state).token_revealed,
{
    assert(crate::settings::daemon::all_rest(sessions@) <==> nobody_works(sessions@));
}

/// A restart that went well leaves the settings that were asked for, and fields that say so; one that failed leaves
/// what was there and is told.
pub proof fn a_restart_ends(
    state: &mut DaemonState,
    applied: DaemonExposureSettings,
    failed: Option<String>,
    r: RestartOutcome,
)
    requires
        call_ensures(DaemonState::finish_daemon_reconfigure, (state, applied, failed), r),
    ensures
        !final(state).reconfigure_pending,
        failed is None ==> same_settings(final(state).exposure, applied) && r.fields is Some && (
        r.fields->0).0@ == decimal(applied.port as nat) && same_texts(
            (r.fields->0).1@,
            applied.allowed_origins@,
        ),
        failed is Some ==> final(state).exposure == old(state).exposure && r.fields is None,
{
    same_settings_views(final(state).exposure, applied);
    if failed is None {
        same_texts_views((r.fields->0).1@, applied.allowed_origins@);
    }
}

/// The page shows the token exactly where it was asked for, and copies it either way; the address is that of the
/// host and the port.
pub proof fn the_token_is_shown_on_demand(
    state: &DaemonState,
    fields: &DaemonFields,
    hostname: &str,
    url_copied: bool,
    token_copied: bool,
    r: DaemonPage,
)
    requires
        call_ensures(
            render_daemon_settings,
            (state, fields, hostname, url_copied, token_copied),
            r,
        ),
    ensures
        r is External <==> state.remote,
        !state.remote ==> r->enabled == state.exposure.enabled && r->can_toggle
            == !state.reconfigure_pending && (r->connection is Some <==> state.exposure.enabled),
        !state.remote && state.exposure.enabled ==> ({
            let c = r->connection->0;
            &&& c.token.text@ == state.exposure.token@
            &&& c.url.text@ == "ws://"@ + hostname@ + ":"@ + decimal(state.exposure.port as nat)
            &&& state.token_revealed ==> c.token_text@ == state.exposure.token@
            &&& !state.token_revealed ==> forall|i: int|
                0 <= i < c.token_text@.len() ==> #[trigger] c.token_text@[i] == '•'
            &&& c.can_regenerate == !state.reconfigure_pending
        }),
{
    reveal_strlit("••••••••••••••••••••••••••••••••");
}

/// Who asks for the token twice hides it again, and changes nothing else.
pub proof fn asking_twice_hides_the_token(state: &mut DaemonState, later: &mut DaemonState)
    requires
        call_ensures(DaemonState::toggle_token, (state,), ()),
        *old(later) == *final(state),
        call_ensures(DaemonState::toggle_token, (later,), ()),
    ensures
        final(state).token_revealed != old(state).token_revealed,
        final(state).exposure == old(state).exposure,
        *final(later) == *old(state),
{
}

/// Applying the fields applies what they say and leaves the token and the switch; fields that say nothing sound
/// change nothing.
pub proof fn applied_fields_take_effect(
    state: &mut DaemonState,
    fields: &DaemonFields,
    sessions: &Vec<AgentSession>,
    r: Result<ExposureAction, FieldError>,
    held: &DaemonExposureSettings,
    wanted: Result<DaemonExposureSettings, FieldError>,
)
    requires
        call_ensures(DaemonState::apply_daemon_exposure_fields, (state, fields, sessions), r),
        *held == old(state).exposure,
        call_ensures(daemon_exposure_from_fields, (held, fields), wanted),
    ensures
        r is Ok <==> wanted is Ok,
        r is Err ==> *final(state) == *old(state),
        r is Ok && r->Ok_0 is Restart ==> same_settings(r->Ok_0->Restart_0, wanted->Ok_0) && final(state).reconfigure_pending,
        r is Ok && r->Ok_0 is Save ==> same_settings(final(state).exposure, wanted->Ok_0),
        r is Ok && old(state).exposure.enabled && !old(state).remote && !old(
            state,
        ).reconfigure_pending && nobody_works(sessions@) && !same_settings(
            wanted->Ok_0,
            old(state).exposure,
        ) ==> r->Ok_0 is Restart,
{
    assert(crate::settings::daemon::all_rest(sessions@) <==> nobody_works(sessions@));
    if r is Ok {
        same_settings_views(final(state).exposure, wanted->Ok_0);
        same_settings_views(wanted->Ok_0, old(state).exposure);
        if r->Ok_0 is Restart {
            same_settings_views(r->Ok_0->Restart_0, wanted->Ok_0);
        }
    }
}

} // verus!
