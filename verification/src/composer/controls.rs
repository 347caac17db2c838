//! The controls under the composer's field: effort, service tier, what the agent may do and is to do, and
//! the button that sends.
use crate::key_map::KeyMap;
use crate::protocol::{busy, InteractionMode, RuntimeMode, ServiceTier, SessionStatus};
use crate::providers::{deref, ModelCatalog, ModelCatalogEntry, ReasoningEffortOption};
use crate::runtime::options::{
    allows_effort, allows_tier, catalog_allows_reasoning_effort, catalog_allows_service_tier,
    catalog_entry_for, effort_position, find_effort, gated_reasoning_effort, model_for_session,
    offers_effort, session_entry,
};
use crate::composer::workspace::shown_task;
use crate::runtime::state::Waku;
use crate::session::AgentSession;
use crate::text::{opt_view, same_text, trim, trimmed};
use vstd::prelude::*;

verus! {

broadcast use vstd::std_specs::hash::group_hash_axioms;

// ---------------------------------------------------------------------------
// Sending
// ---------------------------------------------------------------------------
/// What the button that sends does.
#[derive(Clone, Copy, Debug, PartialEq, Eq, Structural)]
pub enum ComposerSubmitAction {
    Send,
    /// Nothing: a prompt is being made ready.
    Preparing,
    /// It stops the agent.
    Stop,
}

/// What the button that sends does.
pub open spec fn submit_action(status: Option<SessionStatus>, preparing: bool) -> ComposerSubmitAction {
    if preparing {
        ComposerSubmitAction::Preparing
    } else if status is Some && busy(status->0) {
        ComposerSubmitAction::Stop
    } else {
        ComposerSubmitAction::Send
    }
}

/// What the button that sends does.
pub fn composer_submit_action(status: Option<SessionStatus>, preparing: bool) -> (r:
    ComposerSubmitAction)
    ensures
        r == submit_action(status, preparing),
{
    if preparing {
        return ComposerSubmitAction::Preparing;
    }
    match status {
        Some(s) => if s.is_busy() {
            ComposerSubmitAction::Stop
        } else {
            ComposerSubmitAction::Send
        },
        None => ComposerSubmitAction::Send,
    }
}

/// The button that sends, and what stands beside it.
#[derive(Clone, Copy, Debug, PartialEq, Eq, Structural)]
pub struct SubmitControl {
    pub action: ComposerSubmitAction,
    /// There is something to send.
    pub has_draft: bool,
    /// A button puts the draft into the queue.
    pub queue_button: bool,
    /// The button shows that the escape key stops the agent.
    pub escape_hint: bool,
    /// The staged files are shown.
    pub shows_attachments: bool,
}

/// The button that sends, and what stands beside it. `escape_armed` is set where the escape key has been
/// pressed once.
pub fn render_submit(
    status: Option<SessionStatus>,
    preparing: bool,
    text: &str,
    attachment_count: usize,
    escape_armed: bool,
) -> (r: SubmitControl)
    ensures
        r.action == submit_action(status, preparing),
        r.has_draft == (trimmed(text@).len() > 0 || attachment_count > 0),
        r.queue_button == (r.action == ComposerSubmitAction::Stop && r.has_draft),
        r.escape_hint == (r.action == ComposerSubmitAction::Stop && status is Some && escape_armed),
        r.shows_attachments == (attachment_count > 0),
{
    let action = composer_submit_action(status, preparing);
    let has_draft = !trim(text).as_str().is_empty() || attachment_count > 0;
    let stops = match action {
        ComposerSubmitAction::Stop => true,
        _ => false,
    };
    SubmitControl {
        action,
        has_draft,
        queue_button: stops && has_draft,
        escape_hint: stops && status.is_some() && escape_armed,
        shows_attachments: attachment_count > 0,
    }
}

/// Tells whether something is made ready for a task: a prompt, or a fork.
pub open spec fn is_preparing(waku: Waku, id: u128) -> bool {
    waku.submission_preparations@.contains(id) || waku.response_fork_preparations@.contains_key(id)
}

/// The button of the composer that sends, and what stands beside it, for the task that is shown.
pub fn render_composer(waku: &Waku, text: &str, escape_armed: bool) -> (r: SubmitControl)
    ensures
        ({
            let task = shown_task(*waku);
            let preparing = task is Some && is_preparing(*waku, task->0.id);
            let status = match task {
                Some(t) => Some(t.status),
                None => None,
            };
            &&& r.action == submit_action(status, preparing)
            &&& r.has_draft == (trimmed(text@).len() > 0 || waku.composer_attachments@.len() > 0)
            &&& r.queue_button == (r.action == ComposerSubmitAction::Stop && r.has_draft)
            &&& r.escape_hint == (r.action == ComposerSubmitAction::Stop && task is Some
                && escape_armed)
            &&& r.shows_attachments == (waku.composer_attachments@.len() > 0)
        }),
{
    let session = waku.selected_session();
    let (status, preparing) = match session {
        Some(s) => (
            Some(s.status),
            waku.submission_preparations.contains(&s.id)
                || waku.response_fork_preparations.contains_key(&s.id),
        ),
        None => (None, false),
    };
    render_submit(status, preparing, text, waku.composer_attachments.len(), escape_armed)
}

// ---------------------------------------------------------------------------
// Effort
// ---------------------------------------------------------------------------
/// An effort that can be chosen.
#[derive(Debug)]
pub struct EffortItem {
    pub id: String,
    pub label: String,
    pub selected: bool,
}

/// The choice of an effort.
#[derive(Debug)]
pub struct EffortControl {
    pub label: String,
    pub items: Vec<EffortItem>,
}

/// The effort that is shown as chosen: the one that was chosen, where the model offers it, else the
/// model's default, where the model offers that, else the first.
pub open spec fn shown_effort(effort: Option<Seq<char>>, entry: ModelCatalogEntry) -> Seq<char> {
    let efforts = entry.reasoning_efforts@;
    let default = opt_view(entry.default_reasoning_effort);
    if effort is Some && offers_effort(Some(entry), effort->0) {
        effort->0
    } else if default is Some && effort_position(efforts, default->0, 0) < efforts.len() {
        default->0
    } else {
        efforts[0].id@
    }
}

/// Tells whether a control shows the choice of an effort.
pub open spec fn shows_efforts(c: EffortControl, entry: ModelCatalogEntry, selected: Seq<char>) -> bool {
    let efforts = entry.reasoning_efforts@;
    let at = effort_position(efforts, selected, 0);
    &&& c.label@ == (if at < efforts.len() {
        efforts[at].label@
    } else {
        selected
    })
    &&& c.items@.len() == efforts.len()
    &&& forall|i: int|
        0 <= i < efforts.len() ==> (#[trigger] c.items@[i]).id == efforts[i].id && c.items@[i].label
            == efforts[i].label && c.items@[i].selected == (efforts[i].id@ == selected)
}

fn effort_items(efforts: &Vec<ReasoningEffortOption>, selected: &str) -> (r: Vec<EffortItem>)
    ensures
        r@.len() == efforts@.len(),
        forall|i: int|
            0 <= i < efforts@.len() ==> (#[trigger] r@[i]).id == efforts@[i].id && r@[i].label
                == efforts@[i].label && r@[i].selected == (efforts@[i].id@ == selected@),
{
    let mut r: Vec<EffortItem> = Vec::new();
    for i in 0..efforts.len()
        invariant
            r@.len() == i,
            forall|k: int|
                0 <= k < i ==> (#[trigger] r@[k]).id == efforts@[k].id && r@[k].label
                    == efforts@[k].label && r@[k].selected == (efforts@[k].id@ == selected@),
    {
        r.push(
            EffortItem {
                id: efforts[i].id.clone(),
                label: efforts[i].label.clone(),
                selected: same_text(efforts[i].id.as_str(), selected),
            },
        );
    }
    r
}

fn choose_effort(effort: &Option<String>, entry: &ModelCatalogEntry) -> (r: String)
    requires
        allows_effort(Some(*entry)),
    ensures
        r@ == shown_effort(opt_view(*effort), *entry),
{
    let chosen = match effort {
        Some(e) => Some(e.as_str()),
        None => None,
    };
    if let Some(id) = gated_reasoning_effort(chosen, Some(entry)) {
        return id.to_string();
    }
    if let Some(id) = &entry.default_reasoning_effort {
        if find_effort(&entry.reasoning_efforts, id.as_str()) < entry.reasoning_efforts.len() {
            return id.clone();
        }
    }
    entry.reasoning_efforts[0].id.clone()
}

fn entry_of_session<'a>(session: &AgentSession, catalogs: &'a KeyMap<String, ModelCatalog>) -> (r:
    Option<&'a ModelCatalogEntry>)
    ensures
        deref(r) == session_entry(session.provider@, opt_view(session.model), catalogs@),
{
    match model_for_session(session, catalogs) {
        Some(model) => catalog_entry_for(catalogs, &session.provider, model),
        None => None,
    }
}

/// The choice of an effort, where the model of the task that is shown offers one.
pub fn render_reasoning_effort_control(
    session: Option<&AgentSession>,
    catalogs: &KeyMap<String, ModelCatalog>,
) -> (r: Option<EffortControl>)
    ensures
        ({
            let entry = match session {
                Some(s) => session_entry(s.provider@, opt_view(s.model), catalogs@),
                None => None,
            };
            if allows_effort(entry) {
                r is Some && shows_efforts(
                    r->0,
                    entry->0,
                    shown_effort(opt_view(session->0.reasoning_effort), entry->0),
                )
            } else {
                r is None
            }
        }),
{
    let session: &AgentSession = match session {
        Some(s) => s,
        None => return None,
    };
    let entry = entry_of_session(session, catalogs);
    if !catalog_allows_reasoning_effort(entry) {
        return None;
    }
    match entry {
        Some(e) => {
            let selected = choose_effort(&session.reasoning_effort, e);
            let at: usize = find_effort(&e.reasoning_efforts, selected.as_str());
            let label = if at < e.reasoning_efforts.len() {
                e.reasoning_efforts[at].label.clone()
            } else {
                selected.clone()
            };
            let items = effort_items(&e.reasoning_efforts, selected.as_str());
            Some(EffortControl { label, items })
        },
        None => None,
    }
}

// ---------------------------------------------------------------------------
// Service tier
// ---------------------------------------------------------------------------
/// The switch for the fast service tier.
#[derive(Clone, Copy, Debug, PartialEq, Eq, Structural)]
pub struct FastModeControl {
    pub enabled: bool,
    /// What the switch sets.
    pub next: Option<ServiceTier>,
}

/// The switch for the fast service tier.
pub open spec fn fast_mode(tier: Option<ServiceTier>) -> FastModeControl {
    let enabled = tier == Some(ServiceTier::Priority);
    FastModeControl {
        enabled,
        next: if enabled {
            None
        } else {
            Some(ServiceTier::Priority)
        },
    }
}

/// The switch for the fast service tier, where the model of the task that is shown has one.
pub fn render_fast_mode_control(
    session: Option<&AgentSession>,
    catalogs: &KeyMap<String, ModelCatalog>,
) -> (r: Option<FastModeControl>)
    ensures
        r == (match session {
            Some(s) => if allows_tier(session_entry(s.provider@, opt_view(s.model), catalogs@)) {
                Some(fast_mode(s.service_tier))
            } else {
                None
            },
            None => None,
        }),
{
    let session: &AgentSession = match session {
        Some(s) => s,
        None => return None,
    };
    if !catalog_allows_service_tier(entry_of_session(session, catalogs)) {
        return None;
    }
    let enabled = match session.service_tier {
        Some(ServiceTier::Priority) => true,
        _ => false,
    };
    let next = if enabled {
        None
    } else {
        Some(ServiceTier::Priority)
    };
    Some(FastModeControl { enabled, next })
}

// ---------------------------------------------------------------------------
// Modes
// ---------------------------------------------------------------------------
/// What the agent of a task may do; it asks where there is no task.
pub open spec fn access_mode(session: Option<AgentSession>) -> RuntimeMode {
    match session {
        Some(s) => s.runtime_mode,
        None => RuntimeMode::Ask,
    }
}

/// What an agent may do, as it is chosen.
#[derive(Debug)]
pub struct AccessControl {
    pub selected: RuntimeMode,
    /// What can be chosen, and whether it is.
    pub items: Vec<(RuntimeMode, bool)>,
}

/// What an agent may do, as it is chosen among `options`.
pub fn render_access_control(session: Option<&AgentSession>, options: &Vec<RuntimeMode>) -> (r:
    AccessControl)
    ensures
        r.selected == access_mode(deref(session)),
        r.items@ == Seq::new(
            options@.len(),
            |i: int| (options@[i], options@[i] == access_mode(deref(session))),
        ),
{
    let selected = match session {
        Some(s) => s.runtime_mode,
        None => RuntimeMode::Ask,
    };
    let mut items: Vec<(RuntimeMode, bool)> = Vec::new();
    for i in 0..options.len()
        invariant
            items@.len() == i,
            forall|k: int|
                0 <= k < i ==> #[trigger] items@[k] == (options@[k], options@[k] == selected),
    {
        items.push((options[i], options[i] == selected));
    }
    assert(items@ =~= Seq::new(options@.len(), |i: int| (options@[i], options@[i] == selected)));
    AccessControl { selected, items }
}

/// What an agent is asked to do, as it is switched.
#[derive(Clone, Copy, Debug, PartialEq, Eq, Structural)]
pub struct InteractionControl {
    pub mode: InteractionMode,
    /// What the switch sets.
    pub next: InteractionMode,
}

/// What the switch sets: the other one.
pub open spec fn other_mode(mode: InteractionMode) -> InteractionMode {
    match mode {
        InteractionMode::Plan => InteractionMode::Build,
        InteractionMode::Build => InteractionMode::Plan,
    }
}

impl InteractionControl {
    /// The icon of the switch.
    pub fn icon(self) -> (r: &'static str)
        ensures
            r@ == (match self.mode {
                InteractionMode::Plan => "icons/list.svg"@,
                InteractionMode::Build => "icons/wrench.svg"@,
            }),
    {
        match self.mode {
            InteractionMode::Plan => "icons/list.svg",
            InteractionMode::Build => "icons/wrench.svg",
        }
    }
}

/// What an agent is asked to do, as it is switched. Without a task it is to build.
pub fn render_interaction_mode_control(session: Option<&AgentSession>) -> (r: InteractionControl)
    ensures
        r.mode == (match session {
            Some(s) => s.interaction_mode,
            None => InteractionMode::Build,
        }),
        r.next == other_mode(r.mode),
{
    let mode = match session {
        Some(s) => s.interaction_mode,
        None => InteractionMode::Build,
    };
    let next = match mode {
        InteractionMode::Plan => InteractionMode::Build,
        InteractionMode::Build => InteractionMode::Plan,
    };
    InteractionControl { mode, next }
}

// ---------------------------------------------------------------------------
// Laws
// ---------------------------------------------------------------------------
/// The switch for what an agent is asked to do goes back and forth.
pub proof fn mode_switch_goes_back(mode: InteractionMode)
    ensures
        other_mode(other_mode(mode)) == mode,
        other_mode(mode) != mode,
{
}

/// The switch for the fast service tier goes back and forth between that tier and none.
pub proof fn fast_mode_switch_goes_back(tier: Option<ServiceTier>)
    ensures
        fast_mode(fast_mode(tier).next).enabled == !fast_mode(tier).enabled,
        fast_mode(fast_mode(fast_mode(tier).next).next).enabled == fast_mode(tier).enabled,
{
}

/// The effort that is shown as chosen is one of the model's.
pub proof fn shown_effort_is_offered(effort: Option<Seq<char>>, entry: ModelCatalogEntry)
    requires
        allows_effort(Some(entry)),
    ensures
        effort_position(entry.reasoning_efforts@, shown_effort(effort, entry), 0)
            < entry.reasoning_efforts@.len(),
{
}

} // verus!
