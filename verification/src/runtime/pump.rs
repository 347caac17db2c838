//! What agents report: which reports change something, when what is known is saved, and when to look
//! again.
use crate::label::{opt_label, Label, LabelView};
use crate::protocol::DriverEvent;
use crate::runtime::checkpoints::ending_under_way;
use crate::runtime::options::{options_of, session_options, SessionOptions};
use crate::runtime::state::{SessionRuntime, Waku};
use vstd::prelude::*;

verus! {

broadcast use vstd::std_specs::hash::group_hash_axioms;

// ---------------------------------------------------------------------------
// Reports
// ---------------------------------------------------------------------------
/// Tells whether what is known is saved at once after a report.
pub open spec fn forces_save(event: DriverEvent) -> bool {
    match event {
        DriverEvent::Connected => true,
        DriverEvent::AutoTitleUpdated(_) => true,
        DriverEvent::Permission => true,
        DriverEvent::SteerAccepted => true,
        DriverEvent::SteerRejected => true,
        DriverEvent::TurnFinished { .. } => true,
        DriverEvent::Error(_) => true,
        DriverEvent::ProcessExited => true,
        _ => false,
    }
}

/// Tells whether a report is a piece of text that is set out.
pub open spec fn is_markdown(event: DriverEvent) -> bool {
    event is TextDelta || event is ReasoningDelta
}

/// What the reports of an agent have changed.
#[derive(Clone, Copy, Debug, PartialEq, Eq, Structural)]
pub struct DrainFlags {
    /// The task.
    pub runtime_changed: bool,
    /// The work in the background.
    pub background_changed: bool,
    /// Text that is set out.
    pub markdown_changed: bool,
    /// What is known is saved at once.
    pub force_save: bool,
}

/// Nothing has changed.
pub open spec fn no_changes() -> DrainFlags {
    DrainFlags {
        runtime_changed: false,
        background_changed: false,
        markdown_changed: false,
        force_save: false,
    }
}

/// What has changed with one more report. A piece of the output of a command changes nothing yet: such
/// pieces are collected first.
pub open spec fn noted(flags: DrainFlags, event: DriverEvent) -> DrainFlags {
    let output = event is BackgroundWork && event->output_delta;
    DrainFlags {
        runtime_changed: flags.runtime_changed || !(event is BackgroundWork),
        background_changed: flags.background_changed || (event is BackgroundWork && !output),
        markdown_changed: flags.markdown_changed || is_markdown(event),
        force_save: flags.force_save || forces_save(event),
    }
}

/// What some reports have changed.
pub open spec fn noted_all(flags: DrainFlags, events: Seq<DriverEvent>) -> DrainFlags
    decreases events.len(),
{
    if events.len() == 0 {
        flags
    } else {
        noted(noted_all(flags, events.drop_last()), events.last())
    }
}

impl DrainFlags {
    /// Nothing has changed.
    pub fn new() -> (r: Self)
        ensures
            r == no_changes(),
    {
        DrainFlags {
            runtime_changed: false,
            background_changed: false,
            markdown_changed: false,
            force_save: false,
        }
    }

    /// Notes what a report changes.
    pub fn note(&mut self, event: &DriverEvent)
        ensures
            *final(self) == noted(*old(self), *event),
    {
        let (background, output) = match event {
            DriverEvent::BackgroundWork { output_delta } => (true, *output_delta),
            _ => (false, false),
        };
        let markdown = match event {
            DriverEvent::TextDelta(_) => true,
            DriverEvent::ReasoningDelta(_) => true,
            _ => false,
        };
        let force = match event {
            DriverEvent::Connected => true,
            DriverEvent::AutoTitleUpdated(_) => true,
            DriverEvent::Permission => true,
            DriverEvent::SteerAccepted => true,
            DriverEvent::SteerRejected => true,
            DriverEvent::TurnFinished { .. } => true,
            DriverEvent::Error(_) => true,
            DriverEvent::ProcessExited => true,
            _ => false,
        };
        if !background {
            self.runtime_changed = true;
        } else if !output {
            self.background_changed = true;
        }
        self.markdown_changed = self.markdown_changed || markdown;
        self.force_save = self.force_save || force;
    }

    /// Notes what some reports change, one behind the other.
    pub fn note_all(&mut self, events: &Vec<DriverEvent>)
        ensures
            *final(self) == noted_all(*old(self), events@),
    {
        let ghost start = *self;
        assert(events@.take(0) =~= Seq::empty());
        for i in 0..events.len()
            invariant
                *self == noted_all(start, events@.take(i as int)),
        {
            assert(events@.take(i as int + 1).drop_last() =~= events@.take(i as int));
            self.note(&events[i]);
        }
        assert(events@.take(events@.len() as int) =~= events@);
    }
}

// ---------------------------------------------------------------------------
// A round over all agents
// ---------------------------------------------------------------------------
/// What a round over the agents has changed.
#[derive(Clone, Copy, Debug, PartialEq, Eq, Structural)]
pub struct DrainTotals {
    /// Something is to be drawn anew.
    pub changed: bool,
    /// Something is to be saved.
    pub persisted_state_changed: bool,
    pub force_save: bool,
    /// The transcript that is shown is to be measured anew.
    pub selected_changed: bool,
}

/// What a round has changed with the reports of one more agent. `follow_up` is set where the transcript
/// was to be measured once more.
pub open spec fn totalled(
    totals: DrainTotals,
    flags: DrainFlags,
    shown: bool,
    follow_up: bool,
) -> DrainTotals {
    DrainTotals {
        changed: totals.changed || flags.runtime_changed || flags.background_changed,
        persisted_state_changed: totals.persisted_state_changed || flags.runtime_changed,
        force_save: totals.force_save || flags.force_save,
        selected_changed: totals.selected_changed || (shown && (flags.runtime_changed
            || follow_up)),
    }
}

impl DrainTotals {
    /// Nothing has changed.
    pub fn new() -> (r: Self)
        ensures
            r == (DrainTotals {
                changed: false,
                persisted_state_changed: false,
                force_save: false,
                selected_changed: false,
            }),
    {
        DrainTotals {
            changed: false,
            persisted_state_changed: false,
            force_save: false,
            selected_changed: false,
        }
    }

    /// Adds what the reports of an agent have changed.
    pub fn total(&mut self, flags: DrainFlags, shown: bool, follow_up: bool)
        ensures
            *final(self) == totalled(*old(self), flags, shown, follow_up),
    {
        self.changed = self.changed || flags.runtime_changed || flags.background_changed;
        self.persisted_state_changed = self.persisted_state_changed || flags.runtime_changed;
        self.force_save = self.force_save || flags.force_save;
        self.selected_changed = self.selected_changed || (shown && (flags.runtime_changed
            || follow_up));
    }

    /// Tells whether something is to be drawn anew.
    pub fn redraws(self) -> (r: bool)
        ensures
            r == (self.changed || self.selected_changed),
    {
        self.changed || self.selected_changed
    }
}

/// What was reported in a task: the reports up to the one behind which its agent was let go of, if any.
#[derive(Debug)]
pub struct RuntimeReports {
    pub session_id: u128,
    pub handled: Vec<DriverEvent>,
    /// The agent was not let go of.
    pub kept: bool,
}

/// Tells whether no two of some reports are of the same agent.
pub open spec fn of_different_agents(reports: Seq<RuntimeReports>) -> bool {
    forall|i: int, j: int|
        0 <= i < j < reports.len() ==> (#[trigger] reports[i]).session_id != (
        #[trigger] reports[j]).session_id
}

/// What a round over some agents has changed. `selected` is the task that is shown. An agent that is gone
/// is passed over.
pub open spec fn drained(
    runtimes: Map<u128, SessionRuntime>,
    reports: Seq<RuntimeReports>,
    selected: Option<u128>,
) -> DrainTotals
    decreases reports.len(),
{
    if reports.len() == 0 {
        DrainTotals {
            changed: false,
            persisted_state_changed: false,
            force_save: false,
            selected_changed: false,
        }
    } else {
        let last = reports.last();
        let before = drained(runtimes, reports.drop_last(), selected);
        if runtimes.contains_key(last.session_id) {
            totalled(
                before,
                noted_all(no_changes(), last.handled@),
                selected == Some(last.session_id),
                runtimes[last.session_id].stream_remeasure_pending,
            )
        } else {
            before
        }
    }
}

/// Tells whether the reports of an agent were dealt with: an agent that was let go of is gone, and of
/// another nothing is left to look at; its transcript is measured once more where text came in that is set
/// out, and only there.
pub open spec fn settled(
    before: Map<u128, SessionRuntime>,
    after: Map<u128, SessionRuntime>,
    report: RuntimeReports,
) -> bool {
    let id = report.session_id;
    if before.contains_key(id) && report.kept {
        &&& after.contains_key(id)
        &&& after[id] == (SessionRuntime {
            pending_events: after[id].pending_events,
            stream_remeasure_pending: noted_all(no_changes(), report.handled@).markdown_changed,
            ..before[id]
        })
        &&& after[id].pending_events@.len() == 0
    } else {
        !after.contains_key(id)
    }
}

/// Tells whether an agent is the same before and after.
pub open spec fn same_agent(
    before: Map<u128, SessionRuntime>,
    after: Map<u128, SessionRuntime>,
    id: u128,
) -> bool {
    &&& after.contains_key(id) == before.contains_key(id)
    &&& after.contains_key(id) ==> after[id] == before[id]
}

impl Waku {
    /// Takes what some agents have reported, and gives what that has changed. Where queues are to go on,
    /// something is drawn anew in any case.
    pub fn drain_driver_events(&mut self, reports: &Vec<RuntimeReports>, queues_go_on: bool) -> (r:
        DrainTotals)
        requires
            of_different_agents(reports@),
        ensures
            ({
                let totals = drained(
                    old(self).runtimes@,
                    reports@,
                    old(self).tasks.selected_session,
                );
                r == (DrainTotals { changed: totals.changed || queues_go_on, ..totals })
            }),
            *final(self) == (Waku { runtimes: final(self).runtimes, ..*old(self) }),
            forall|i: int|
                0 <= i < reports@.len() ==> settled(
                    old(self).runtimes@,
                    final(self).runtimes@,
                    #[trigger] reports@[i],
                ),
            forall|id: u128|
                (forall|i: int| 0 <= i < reports@.len() ==> (#[trigger] reports@[i]).session_id != id)
                    ==> #[trigger] same_agent(old(self).runtimes@, final(self).runtimes@, id),
    {
        let mut totals = DrainTotals::new();
        let ghost start = *self;
        assert(reports@.take(0) =~= Seq::empty());
        for i in 0..reports.len()
            invariant
                of_different_agents(reports@),
                *self == (Waku { runtimes: self.runtimes, ..start }),
                totals == drained(
                    start.runtimes@,
                    reports@.take(i as int),
                    start.tasks.selected_session,
                ),
                forall|k: int|
                    0 <= k < i ==> settled(
                        start.runtimes@,
                        self.runtimes@,
                        #[trigger] reports@[k],
                    ),
                forall|id: u128|
                    (forall|k: int| 0 <= k < i ==> (#[trigger] reports@[k]).session_id != id)
                        ==> #[trigger] same_agent(start.runtimes@, self.runtimes@, id),
        {
            let ghost before = self.runtimes@;
            let id: u128 = reports[i].session_id;
            assert(reports@.take(i as int + 1).drop_last() =~= reports@.take(i as int));
            assert(same_agent(start.runtimes@, before, id));
            let known = self.runtimes.remove(&id);
            if let Some(agent) = known {
                let mut agent = agent;
                let mut flags = DrainFlags::new();
                flags.note_all(&reports[i].handled);
                let shown = match self.tasks.selected_session {
                    Some(s) => s == id,
                    None => false,
                };
                totals.total(flags, shown, agent.stream_remeasure_pending);
                if reports[i].kept {
                    agent.stream_remeasure_pending = flags.markdown_changed;
                    agent.pending_events = Vec::new();
                    self.runtimes.insert(id, agent);
                }
            }
            proof {
                let after = self.runtimes@;
                assert forall|n: u128| n != id implies #[trigger] same_agent(before, after, n) by {}
                assert forall|k: int| 0 <= k < i + 1 implies settled(
                    start.runtimes@,
                    after,
                    #[trigger] reports@[k],
                ) by {
                    if k < i {
                        assert(reports@[k].session_id != reports@[i as int].session_id);
                        assert(same_agent(before, after, reports@[k].session_id));
                        assert(settled(start.runtimes@, before, reports@[k]));
                    }
                }
                assert forall|n: u128|
                    (forall|k: int|
                        0 <= k < i + 1 ==> (#[trigger] reports@[k]).session_id
                            != n) implies #[trigger] same_agent(start.runtimes@, after, n) by {
                    assert(reports@[i as int].session_id != n);
                    assert(same_agent(before, after, n));
                    assert(same_agent(start.runtimes@, before, n));
                }
            }
        }
        assert(reports@.take(reports@.len() as int) =~= reports@);
        totals.changed = totals.changed || queues_go_on;
        totals
    }
}

/// What the user is told after an attempt to save what is known, at the daemon and here. `dirty` is set
/// while something is not saved.
pub fn save(dirty: &mut bool, daemon_error: Option<String>, app_error: Option<String>) -> (r: Option<
    Label,
>)
    ensures
        *final(dirty) == (*old(dirty) && (daemon_error is Some || app_error is Some)),
        opt_label(r) == (match (daemon_error, app_error) {
            (Some(error), _) => Some(not_saved(error@)),
            (None, Some(error)) => Some(not_saved(error@)),
            (None, None) => None,
        }),
{
    let error = match daemon_error {
        Some(error) => Some(error),
        None => app_error,
    };
    match error {
        Some(value) => Some(
            Label::MessageWith { key: "errors.save_local_state", name: "error", value },
        ),
        None => {
            *dirty = false;
            None
        },
    }
}

/// What the user is told where what is known was not saved.
pub open spec fn not_saved(error: Seq<char>) -> LabelView {
    LabelView::MessageWith { key: "errors.save_local_state"@, name: "error"@, value: error }
}

/// Tells whether what is known is saved: where it has changed, at once after some reports, and else not
/// too often.
pub fn saves_now(dirty: bool, force_save: bool, since_save_ms: u64, interval_ms: u64) -> (r: bool)
    ensures
        r == (dirty && (force_save || since_save_ms >= interval_ms)),
{
    dirty && (force_save || since_save_ms >= interval_ms)
}

/// When to look at the agents again.
#[derive(Clone, Copy, Debug, PartialEq, Eq, Structural)]
pub enum EventPumpSchedule {
    /// At the next frame of a transcript that is being written.
    StreamFrame,
    /// After this many milliseconds, for the output of work in the background.
    BackgroundOutput(u64),
    /// When an agent reports something.
    Idle,
}

/// When to look at the agents again. `pending` is set where reports are left or a transcript is to be
/// measured once more; `output_delay` is when output of work in the background is due.
pub fn next_schedule(pending: bool, output_delay: Option<u64>) -> (r: EventPumpSchedule)
    ensures
        r == (if pending {
            EventPumpSchedule::StreamFrame
        } else if output_delay is Some {
            EventPumpSchedule::BackgroundOutput(output_delay->0)
        } else {
            EventPumpSchedule::Idle
        }),
{
    if pending {
        EventPumpSchedule::StreamFrame
    } else {
        match output_delay {
            Some(delay) => EventPumpSchedule::BackgroundOutput(delay),
            None => EventPumpSchedule::Idle,
        }
    }
}

/// Tells whether something is left to do for an agent: it has reported what has not been looked at, or its
/// transcript is to be measured once more.
pub open spec fn is_behind(runtime: SessionRuntime) -> bool {
    runtime.pending_events@.len() > 0 || runtime.stream_remeasure_pending
}

proof fn none_left_behind(runtimes: Map<u128, SessionRuntime>, ids: Seq<u128>, n: int)
    requires
        ids.to_set() == runtimes.dom(),
        0 <= n <= ids.len(),
        forall|k: int| 0 <= k < n ==> !is_behind(runtimes[#[trigger] ids[k]]),
    ensures
        n == ids.len() ==> forall|id: u128|
            runtimes.contains_key(id) ==> !is_behind(#[trigger] runtimes[id]),
{
    if n == ids.len() {
        assert forall|id: u128| runtimes.contains_key(id) implies !is_behind(
            #[trigger] runtimes[id],
        ) by {
            assert(ids.to_set().contains(id));
            let k = ids.index_of(id);
            assert(ids[k] == id);
        }
    }
}

impl Waku {
    fn any_is_behind(&self) -> (r: bool)
        ensures
            r == exists|id: u128|
                self.runtimes@.contains_key(id) && is_behind(#[trigger] self.runtimes@[id]),
    {
        let mut found = false;
        for id in it: self.runtimes.keys()
            invariant
                it.seq().unref().to_set() == self.runtimes@.dom(),
                found ==> exists|n: u128|
                    self.runtimes@.contains_key(n) && is_behind(#[trigger] self.runtimes@[n]),
                !found ==> forall|k: int|
                    0 <= k < it.index() ==> !is_behind(
                        self.runtimes@[#[trigger] it.seq().unref()[k]],
                    ),
                it.index() == it.seq().len() ==> (found <==> exists|n: u128|
                    self.runtimes@.contains_key(n) && is_behind(#[trigger] self.runtimes@[n])),
        {
            proof {
                let all = it.seq().unref();
                assert(all[it.index()] == *id);
                assert(all.to_set().contains(all[it.index()]));
            }
            match self.runtimes.get(id) {
                Some(runtime) => {
                    if runtime.pending_events.len() > 0 || runtime.stream_remeasure_pending {
                        found = true;
                        assert(is_behind(self.runtimes@[*id]));
                    }
                },
                None => {},
            }
            proof {
                if !found {
                    let all = it.seq().unref();
                    none_left_behind(self.runtimes@, all, it.index() + 1);
                }
            }
        }
        found
    }

    /// When to look at the agents again. `output_delay` is when output of work in the background is due.
    pub fn drain_event_pump(&self, output_delay: Option<u64>) -> (r: EventPumpSchedule)
        ensures
            r == (if exists|id: u128|
                self.runtimes@.contains_key(id) && is_behind(#[trigger] self.runtimes@[id]) {
                EventPumpSchedule::StreamFrame
            } else if output_delay is Some {
                EventPumpSchedule::BackgroundOutput(output_delay->0)
            } else {
                EventPumpSchedule::Idle
            }),
    {
        next_schedule(self.any_is_behind(), output_delay)
    }
}

/// Of several answers the one that came last, if there is one: the others are out of date.
pub fn latest_of<T>(results: Vec<T>) -> (r: Option<T>)
    ensures
        r == (if results@.len() > 0 {
            Some(results@.last())
        } else {
            None
        }),
{
    let mut all = results;
    all.pop()
}

// ---------------------------------------------------------------------------
// Queues that go on
// ---------------------------------------------------------------------------
/// The tasks of a list whose last checkpoint is there, or those where it is not.
pub open spec fn due(waku: Waku, ids: Seq<u128>, waiting: bool) -> Seq<u128>
    decreases ids.len(),
{
    if ids.len() == 0 {
        Seq::empty()
    } else if ending_under_way(waku, ids.last()) == waiting {
        due(waku, ids.drop_last(), waiting).push(ids.last())
    } else {
        due(waku, ids.drop_last(), waiting)
    }
}

/// Each id of a list once, where it stood first.
pub open spec fn once(ids: Seq<u128>) -> Seq<u128>
    decreases ids.len(),
{
    if ids.len() == 0 {
        ids
    } else if once(ids.drop_last()).contains(ids.last()) {
        once(ids.drop_last())
    } else {
        once(ids.drop_last()).push(ids.last())
    }
}

impl Waku {
    /// The tasks whose queues go on now, of those that are to. The others wait for their checkpoints.
    pub fn take_due_queue_drains(&mut self) -> (r: Vec<u128>)
        ensures
            *final(self) == (Waku {
                pending_queue_drains: final(self).pending_queue_drains,
                ..*old(self)
            }),
            r@ == due(*old(self), old(self).pending_queue_drains@, false),
            final(self).pending_queue_drains@ == once(
                due(*old(self), old(self).pending_queue_drains@, true),
            ),
    {
        let mut drains: Vec<u128> = Vec::new();
        std::mem::swap(&mut drains, &mut self.pending_queue_drains);
        let ghost all = drains@;
        let ghost start = *old(self);
        let mut r: Vec<u128> = Vec::new();
        assert(all.take(0) =~= Seq::empty());
        for i in 0..drains.len()
            invariant
                drains@ == all,
                *self == (Waku { pending_queue_drains: self.pending_queue_drains, ..start }),
                r@ == due(start, all.take(i as int), false),
                self.pending_queue_drains@ == once(due(start, all.take(i as int), true)),
        {
            assert(all.take(i as int + 1).drop_last() =~= all.take(i as int));
            let id: u128 = drains[i];
            let ghost now = *self;
            let waits = self.ending_checkpoint_pending(id);
            assert(ending_under_way(now, id) == ending_under_way(start, id));
            if waits {
                self.defer_queue_drain(id);
                proof {
                    let before = due(start, all.take(i as int), true);
                    assert(before.push(id).drop_last() =~= before);
                }
            } else {
                r.push(id);
            }
        }
        assert(all.take(all.len() as int) =~= all);
        r
    }
}

// ---------------------------------------------------------------------------
// Options
// ---------------------------------------------------------------------------
impl Waku {
    /// What is asked of the agent of a task from now on, with the number of that change. `None` where
    /// the task has no agent.
    pub fn apply_session_options(&mut self, id: u128) -> (r: Option<(SessionOptions, u64)>)
        ensures
            *final(self) == (Waku { runtimes: final(self).runtimes, ..*old(self) }),
            if old(self).tasks.lists(id) && old(self).runtimes@.contains_key(id) {
                let before = old(self).runtimes@[id];
                let generation = before.options_generation.wrapping_add(1);
                &&& r is Some
                &&& (r->0).0@ == options_of(old(self).tasks.task(id), old(self).model_catalogs@)
                &&& (r->0).1 == generation
                &&& final(self).runtimes@ == old(self).runtimes@.insert(
                    id,
                    SessionRuntime { options_generation: generation, ..before },
                )
            } else {
                &&& r is None
                &&& final(self).runtimes@ == old(self).runtimes@
            },
    {
        let options = match self.session(id) {
            Some(session) => session_options(session, &self.model_catalogs),
            None => return None,
        };
        let ghost runtimes = self.runtimes@;
        match self.runtimes.remove(&id) {
            Some(runtime) => {
                let mut runtime = runtime;
                let generation: u64 = runtime.options_generation.wrapping_add(1);
                runtime.options_generation = generation;
                self.runtimes.insert(id, runtime);
                assert(self.runtimes@ =~= runtimes.insert(id, runtime));
                Some((options, generation))
            },
            None => {
                assert(self.runtimes@ =~= runtimes);
                None
            },
        }
    }

    /// Tells whether the agent of a task is to be started anew: it did not take the options that it was
    /// asked for last. What it says of earlier ones no longer counts.
    pub fn restarts_after_options(&self, id: u128, generation: u64, applied: bool) -> (r: bool)
        ensures
            r == (self.runtimes@.contains_key(id) && self.runtimes@[id].options_generation
                == generation && !applied),
    {
        match self.runtimes.get(&id) {
            Some(runtime) => runtime.options_generation == generation && !applied,
            None => false,
        }
    }

    /// Lets go of the agents of tasks that have long been idle, and gives the tasks whose agents are to
    /// be closed.
    pub fn reap_idle_sessions(&mut self, idle: &Vec<u128>) -> (r: Vec<u128>)
        ensures
            *final(self) == (Waku { runtimes: final(self).runtimes, ..*old(self) }),
            final(self).runtimes@ == old(self).runtimes@.remove_keys(idle@.to_set()),
            r@ == closed(old(self).runtimes@.dom(), idle@),
    {
        let ghost runtimes = self.runtimes@;
        let ghost start = *self;
        let mut r: Vec<u128> = Vec::new();
        assert(idle@.take(0) =~= Seq::empty());
        assert(runtimes.remove_keys(idle@.take(0).to_set()) =~= runtimes);
        for i in 0..idle.len()
            invariant
                *self == (Waku { runtimes: self.runtimes, ..start }),
                self.runtimes@ == runtimes.remove_keys(idle@.take(i as int).to_set()),
                r@ == closed(runtimes.dom(), idle@.take(i as int)),
        {
            let id: u128 = idle[i];
            let ghost so_far = idle@.take(i as int);
            let ghost next = idle@.take(i as int + 1);
            proof {
                assert(next.drop_last() =~= so_far);
                assert forall|k: u128| next.contains(k) <==> so_far.contains(k) || k == id by {
                    if next.contains(k) && k != id {
                        let j = next.index_of(k);
                        assert(so_far[j] == k);
                    }
                    if so_far.contains(k) {
                        let j = so_far.index_of(k);
                        assert(next[j] == k);
                    }
                    assert(next[i as int] == id);
                }
            }
            let ghost before = self.runtimes@;
            if self.runtimes.contains_key(&id) {
                self.runtimes.remove(&id);
                r.push(id);
            } else {
                assert(before.remove(id) =~= before);
            }
            assert(self.runtimes@ =~= runtimes.remove_keys(next.to_set()));
        }
        assert(idle@.take(idle@.len() as int) =~= idle@);
        r
    }
}

/// The tasks of a list that have an agent, each once.
pub open spec fn closed(known: Set<u128>, idle: Seq<u128>) -> Seq<u128>
    decreases idle.len(),
{
    if idle.len() == 0 {
        Seq::empty()
    } else {
        let before = closed(known, idle.drop_last());
        if known.contains(idle.last()) && !idle.drop_last().contains(idle.last()) {
            before.push(idle.last())
        } else {
            before
        }
    }
}

/// Tells whether it is time to look for tasks that have long been idle.
pub fn sweep_is_due(since_sweep_ms: u64, interval_ms: u64) -> (r: bool)
    ensures
        r == (since_sweep_ms >= interval_ms),
{
    since_sweep_ms >= interval_ms
}

// ---------------------------------------------------------------------------
// Laws
// ---------------------------------------------------------------------------
/// The order of two reports makes no difference to what they change.
pub proof fn order_of_reports_is_irrelevant(flags: DrainFlags, a: DriverEvent, b: DriverEvent)
    ensures
        noted(noted(flags, a), b) == noted(noted(flags, b), a),
{
}

/// Pieces of the output of commands, however many, cause nothing to be drawn or saved.
pub proof fn command_output_alone_changes_nothing(events: Seq<DriverEvent>)
    requires
        forall|i: int|
            0 <= i < events.len() ==> (#[trigger] events[i]) == (DriverEvent::BackgroundWork {
                output_delta: true,
            }),
    ensures
        noted_all(no_changes(), events) == no_changes(),
    decreases events.len(),
{
    if events.len() > 0 {
        let head = events.drop_last();
        assert forall|i: int| 0 <= i < head.len() implies (#[trigger] head[i]) == (
        DriverEvent::BackgroundWork { output_delta: true }) by {
            assert(events[i] == head[i]);
        }
        command_output_alone_changes_nothing(head);
        assert(events[events.len() - 1] == events.last());
    }
}

/// What has changed stays changed, whatever is reported then.
pub proof fn changes_stay(flags: DrainFlags, event: DriverEvent)
    ensures
        flags.runtime_changed ==> noted(flags, event).runtime_changed,
        flags.background_changed ==> noted(flags, event).background_changed,
        flags.markdown_changed ==> noted(flags, event).markdown_changed,
        flags.force_save ==> noted(flags, event).force_save,
{
}

/// The order in which the agents are looked at makes no difference to what a round has changed.
pub proof fn order_of_agents_is_irrelevant(
    runtimes: Map<u128, SessionRuntime>,
    reports: Seq<RuntimeReports>,
    a: RuntimeReports,
    b: RuntimeReports,
    selected: Option<u128>,
)
    ensures
        drained(runtimes, reports.push(a).push(b), selected) == drained(
            runtimes,
            reports.push(b).push(a),
            selected,
        ),
{
    reveal_with_fuel(drained, 3);
    assert(reports.push(a).push(b).drop_last() =~= reports.push(a));
    assert(reports.push(b).push(a).drop_last() =~= reports.push(b));
    assert(reports.push(a).drop_last() =~= reports);
    assert(reports.push(b).drop_last() =~= reports);
}

/// Of the tasks whose queues are to go on, each goes on now or waits for its checkpoint: none is
/// forgotten.
pub proof fn no_queue_is_forgotten(waku: Waku, ids: Seq<u128>, id: u128)
    requires
        ids.contains(id),
    ensures
        due(waku, ids, false).contains(id) || once(due(waku, ids, true)).contains(id),
{
    due_holds(waku, ids, id);
    once_holds(due(waku, ids, true), id);
}

proof fn due_holds(waku: Waku, ids: Seq<u128>, id: u128)
    ensures
        ids.contains(id) ==> due(waku, ids, ending_under_way(waku, id)).contains(id),
    decreases ids.len(),
{
    if ids.len() > 0 {
        let head = ids.drop_last();
        let waiting = ending_under_way(waku, id);
        due_holds(waku, head, id);
        let all = due(waku, ids, waiting);
        if ids.last() == id {
            assert(all[all.len() - 1] == id);
        } else if ids.contains(id) {
            let k = ids.index_of(id);
            assert(head[k] == id);
            let before = due(waku, head, waiting);
            let j = before.index_of(id);
            assert(all[j] == id);
        }
    }
}

proof fn once_holds(ids: Seq<u128>, id: u128)
    ensures
        ids.contains(id) ==> once(ids).contains(id),
    decreases ids.len(),
{
    if ids.len() > 0 {
        let head = ids.drop_last();
        let before = once(head);
        once_holds(head, id);
        if ids.last() == id {
            if !before.contains(id) {
                assert(before.push(id)[before.len() as int] == id);
            }
        } else if ids.contains(id) {
            let k = ids.index_of(id);
            assert(head[k] == id);
            let j = before.index_of(id);
            assert(once(ids)[j] == id);
        }
    }
}

} // verus!
