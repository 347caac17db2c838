//! Sending: what becomes of a submission, and of those that wait in a task's queue.
use crate::composer::attachments::{restore_composer_submission, restored_text};
use crate::protocol::{busy, SessionStatus};
use crate::runtime::checkpoints::ending_under_way;
use crate::runtime::prompt::{is_prompt_input, prompt_input_from_submission, PromptInput};
use crate::runtime::state::{place_stays, SessionRuntime, Waku};
use crate::runtime::sync::TaskState;
use crate::session::{
    find_session, session_position_finds, AgentSession, ComposerSubmission, QueuedMessage,
    SubmissionView,
};
use crate::text::{opt_view, trim, trimmed};
use vstd::prelude::*;

verus! {

broadcast use vstd::std_specs::hash::group_hash_axioms;

// ---------------------------------------------------------------------------
// The queue of a task
// ---------------------------------------------------------------------------
/// Tells whether a task is another one with a submission at the end of its queue.
pub open spec fn queued_behind(
    before: AgentSession,
    after: AgentSession,
    submission: SubmissionView,
    message_id: u128,
    now: u64,
) -> bool {
    &&& after == (AgentSession {
        queued_messages: after.queued_messages,
        updated_at: now,
        ..before
    })
    &&& after.queued_messages@.len() == before.queued_messages@.len() + 1
    &&& after.queued_messages@.drop_last() == before.queued_messages@
    &&& after.queued_messages@.last().id == message_id
    &&& after.queued_messages@.last().content@ == trimmed(submission.prompt)
    &&& opt_view(after.queued_messages@.last().display_content) == submission.display_content
    &&& after.queued_messages@.last().attachments@ == submission.attachments
}

/// Tells whether the tasks are others with a submission at the end of the queue of one of them. A
/// submission without text is dropped.
pub open spec fn enqueued(
    before: TaskState,
    after: TaskState,
    id: u128,
    submission: SubmissionView,
    message_id: u128,
    now: u64,
) -> bool {
    if trimmed(submission.prompt).len() > 0 && before.lists(id) {
        &&& before.with_task(id, after.task(id), after)
        &&& queued_behind(before.task(id), after.task(id), submission, message_id, now)
    } else {
        after == before
    }
}

/// The messages of a queue without those with an id.
pub open spec fn queue_without(queue: Seq<QueuedMessage>, message_id: u128) -> Seq<QueuedMessage>
    decreases queue.len(),
{
    if queue.len() == 0 {
        queue
    } else if queue.last().id == message_id {
        queue_without(queue.drop_last(), message_id)
    } else {
        queue_without(queue.drop_last(), message_id).push(queue.last())
    }
}

/// Where the first message with an id stands in a queue, from `i` on, or the length of the queue.
pub open spec fn queue_position(queue: Seq<QueuedMessage>, message_id: u128, i: int) -> int
    decreases queue.len() - i,
{
    if i < 0 || i >= queue.len() {
        queue.len() as int
    } else if queue[i].id == message_id {
        i
    } else {
        queue_position(queue, message_id, i + 1)
    }
}

fn find_queued(queue: &Vec<QueuedMessage>, message_id: u128) -> (at: usize)
    ensures
        at == queue_position(queue@, message_id, 0),
        at <= queue@.len(),
{
    let mut i: usize = 0;
    while i < queue.len()
        invariant
            i <= queue@.len(),
            queue_position(queue@, message_id, 0) == queue_position(queue@, message_id, i as int),
        decreases queue@.len() - i,
    {
        if queue[i].id == message_id {
            return i;
        }
        i = i + 1;
    }
    i
}

/// Tells whether a task is another one with another queue.
pub open spec fn with_queue(before: AgentSession, after: AgentSession, queue: Seq<QueuedMessage>) -> bool {
    &&& after == (AgentSession { queued_messages: after.queued_messages, ..before })
    &&& after.queued_messages@ == queue
}

/// What a task's queue gives up, where it holds the message: the tasks without it.
pub open spec fn taken(
    before: TaskState,
    after: TaskState,
    id: u128,
    message_id: u128,
    r: Option<QueuedMessage>,
) -> bool {
    let queue = before.task(id).queued_messages@;
    let at = queue_position(queue, message_id, 0);
    if before.lists(id) && at < queue.len() {
        &&& r == Some(queue[at])
        &&& before.with_task(id, after.task(id), after)
        &&& with_queue(before.task(id), after.task(id), queue.remove(at))
    } else {
        &&& r is None
        &&& after == before
    }
}

impl TaskState {
    /// Puts a submission at the end of the queue of a task, and tells whether there is something to
    /// save: a submission without text is dropped.
    pub fn enqueue_follow_up_submission(
        &mut self,
        id: u128,
        submission: ComposerSubmission,
        message_id: u128,
        now: u64,
    ) -> (r: bool)
        ensures
            r == (trimmed(submission@.prompt).len() > 0),
            enqueued(*old(self), *final(self), id, submission@, message_id, now),
    {
        let text = trim(submission.prompt.as_str());
        if text.as_str().is_empty() {
            return false;
        }
        let ghost tasks = self.sessions@;
        let at: usize = find_session(&self.sessions, id);
        if at < self.sessions.len() {
            let mut session = self.sessions.remove(at);
            let ghost before = session;
            let whole = ComposerSubmission { prompt: text, ..submission };
            session.queued_messages.push(whole.into_queued_message(message_id));
            session.updated_at = now;
            assert(session.queued_messages@.drop_last() =~= before.queued_messages@);
            self.sessions.insert(at, session);
            proof {
                assert(self.sessions@ =~= tasks.update(at as int, session));
                place_stays(tasks, id, session, 0);
            }
        }
        true
    }

    /// Takes a message out of the queue of a task for good.
    pub fn remove_queued_message(&mut self, id: u128, message_id: u128)
        ensures
            if old(self).lists(id) {
                &&& old(self).with_task(id, final(self).task(id), *final(self))
                &&& with_queue(
                    old(self).task(id),
                    final(self).task(id),
                    queue_without(old(self).task(id).queued_messages@, message_id),
                )
            } else {
                *final(self) == *old(self)
            },
    {
        let ghost tasks = self.sessions@;
        let at: usize = find_session(&self.sessions, id);
        if at >= self.sessions.len() {
            return;
        }
        let mut session = self.sessions.remove(at);
        let ghost before = session;
        let mut queue: Vec<QueuedMessage> = Vec::new();
        std::mem::swap(&mut queue, &mut session.queued_messages);
        let ghost all = queue@;
        let mut rest: Vec<QueuedMessage> = Vec::new();
        assert(all.take(0) =~= Seq::empty());
        for message in it: queue.into_iter()
            invariant
                it.seq() == all,
                rest@ == queue_without(all.take(it.index()), message_id),
        {
            assert(all.take(it.index() + 1).drop_last() =~= all.take(it.index()));
            if message.id != message_id {
                rest.push(message);
            }
        }
        assert(all.take(all.len() as int) =~= all);
        session.queued_messages = rest;
        self.sessions.insert(at, session);
        proof {
            assert(self.sessions@ =~= tasks.update(at as int, session));
            place_stays(tasks, id, session, 0);
        }
    }

    /// Takes a message out of the queue of a task.
    pub fn take_queued_message(&mut self, id: u128, message_id: u128) -> (r: Option<QueuedMessage>)
        ensures
            taken(*old(self), *final(self), id, message_id, r),
    {
        let ghost tasks = self.sessions@;
        let place: usize = find_session(&self.sessions, id);
        if place >= self.sessions.len() {
            return None;
        }
        let at: usize = find_queued(&self.sessions[place].queued_messages, message_id);
        if at >= self.sessions[place].queued_messages.len() {
            return None;
        }
        let mut session = self.sessions.remove(place);
        let message = session.queued_messages.remove(at);
        self.sessions.insert(place, session);
        proof {
            assert(self.sessions@ =~= tasks.update(place as int, session));
            place_stays(tasks, id, session, 0);
        }
        Some(message)
    }
}

/// The contents of a message in a queue, as a submission.
pub open spec fn as_submission(message: QueuedMessage) -> SubmissionView {
    SubmissionView {
        prompt: message.content@,
        display_content: opt_view(message.display_content),
        attachments: message.attachments@,
    }
}

impl Waku {
    /// Takes a message out of the queue of a task and back into the composer. Gives the text that the
    /// composer's field holds then.
    pub fn edit_queued_message(&mut self, id: u128, message_id: u128) -> (r: Option<String>)
        ensures
            *final(self) == (Waku {
                tasks: final(self).tasks,
                composer_attachments: final(self).composer_attachments,
                ..*old(self)
            }),
            ({
                let queue = old(self).tasks.task(id).queued_messages@;
                let at = queue_position(queue, message_id, 0);
                if old(self).tasks.lists(id) && at < queue.len() {
                    &&& taken(
                        old(self).tasks,
                        final(self).tasks,
                        id,
                        message_id,
                        Some(queue[at]),
                    )
                    &&& opt_view(r) == Some(restored_text(as_submission(queue[at])))
                    &&& final(self).composer_attachments@ == queue[at].attachments@
                } else {
                    &&& r is None
                    &&& final(self).tasks == old(self).tasks
                    &&& final(self).composer_attachments == old(self).composer_attachments
                }
            }),
    {
        match self.tasks.take_queued_message(id, message_id) {
            Some(message) => {
                let submission = ComposerSubmission::from_queued_message(message);
                Some(restore_composer_submission(submission, &mut self.composer_attachments))
            },
            None => None,
        }
    }
}

// ---------------------------------------------------------------------------
// Where a submission goes
// ---------------------------------------------------------------------------
/// Where a submission goes.
#[derive(Clone, Copy, Debug, PartialEq, Eq, Structural)]
pub enum SubmitRoute {
    /// Nowhere.
    Nowhere,
    /// To the end of the queue of the task with this id.
    Queue(u128),
    /// To the agent of the task with this id, in the middle of its turn.
    Steer(u128),
    /// It begins a turn of the task with this id.
    Submit(u128),
}

/// Where a submission from the composer goes: to the task that is shown, and into its queue while the
/// agent is at work.
pub open spec fn submit_route(waku: Waku) -> SubmitRoute {
    match waku.tasks.selected_session {
        Some(id) => if !waku.tasks.lists(id) || waku.response_fork_preparations@.contains_key(id) {
            SubmitRoute::Nowhere
        } else if busy(waku.tasks.task(id).status) {
            SubmitRoute::Queue(id)
        } else {
            SubmitRoute::Submit(id)
        },
        None => SubmitRoute::Nowhere,
    }
}

/// Tells whether the agent of a task takes messages now: its turn has reached it, and it takes messages
/// in the middle of one.
pub open spec fn takes_messages(waku: Waku, session: AgentSession) -> bool {
    session.status != SessionStatus::Connecting && waku.runtimes@.contains_key(session.id)
        && waku.runtimes@[session.id].supports_steer
}

/// Where a submission goes that is meant for the turn that is running.
pub open spec fn steer_route(waku: Waku) -> SubmitRoute {
    match waku.tasks.selected_session {
        Some(id) => if !waku.tasks.lists(id) {
            SubmitRoute::Nowhere
        } else if !busy(waku.tasks.task(id).status) {
            submit_route(waku)
        } else if takes_messages(waku, waku.tasks.task(id)) {
            SubmitRoute::Steer(id)
        } else {
            SubmitRoute::Queue(id)
        },
        None => SubmitRoute::Nowhere,
    }
}

/// What is done with a submission.
#[derive(Debug)]
pub enum SubmitAction {
    /// Nothing.
    Ignored,
    /// It waits in the queue of the task. `save` is not set where it held no text and was dropped.
    Queued { save: bool },
    /// It goes to the agent of the task, in the middle of its turn.
    Steered { session_id: u128, input: PromptInput },
    /// It begins a turn of the task.
    Begin { session_id: u128, submission: ComposerSubmission },
}

/// The agents with a message behind those that one of them has not answered for.
pub open spec fn with_steer(
    before: Map<u128, SessionRuntime>,
    after: Map<u128, SessionRuntime>,
    id: u128,
    submission: SubmissionView,
) -> bool {
    &&& after.contains_key(id)
    &&& after == before.insert(id, after[id])
    &&& after[id] == (SessionRuntime { pending_steers: after[id].pending_steers, ..before[id] })
    &&& after[id].pending_steers@.len() == before[id].pending_steers@.len() + 1
    &&& after[id].pending_steers@.drop_last() == before[id].pending_steers@
    &&& after[id].pending_steers@.last()@ == submission
}

/// Tells whether a submission went where it was to go, with what was done then.
pub open spec fn routed(
    before: Waku,
    after: Waku,
    route: SubmitRoute,
    submission: SubmissionView,
    message_id: u128,
    now: u64,
    r: SubmitAction,
) -> bool {
    match route {
        SubmitRoute::Nowhere => r is Ignored && after == before,
        SubmitRoute::Queue(id) => {
            &&& r == (SubmitAction::Queued { save: trimmed(submission.prompt).len() > 0 })
            &&& after == (Waku { tasks: after.tasks, ..before })
            &&& enqueued(before.tasks, after.tasks, id, submission, message_id, now)
        },
        SubmitRoute::Steer(id) => {
            &&& r is Steered
            &&& r->Steered_session_id == id
            &&& is_prompt_input(submission, submission.prompt, r->input@)
            &&& after == (Waku { runtimes: after.runtimes, ..before })
            &&& with_steer(before.runtimes@, after.runtimes@, id, submission)
        },
        SubmitRoute::Submit(id) => {
            &&& r is Begin
            &&& r->Begin_session_id == id
            &&& r->submission@ == submission
            &&& after == before
        },
    }
}

impl Waku {
    fn choose_submit_route(&self) -> (r: SubmitRoute)
        ensures
            r == submit_route(*self),
    {
        let id: u128 = match self.tasks.selected_session {
            Some(id) => id,
            None => return SubmitRoute::Nowhere,
        };
        match self.session(id) {
            Some(session) => {
                if self.response_fork_preparations.contains_key(&id) {
                    SubmitRoute::Nowhere
                } else if session.is_busy() {
                    SubmitRoute::Queue(id)
                } else {
                    SubmitRoute::Submit(id)
                }
            },
            None => SubmitRoute::Nowhere,
        }
    }

    /// Tells whether the agent of a task takes messages now.
    pub fn can_steer(&self, session: &AgentSession) -> (r: bool)
        ensures
            r == takes_messages(*self, *session),
    {
        if session.status == SessionStatus::Connecting {
            return false;
        }
        match self.runtimes.get(&session.id) {
            Some(runtime) => runtime.supports_steer,
            None => false,
        }
    }

    fn choose_steer_route(&self) -> (r: SubmitRoute)
        ensures
            r == steer_route(*self),
    {
        let id: u128 = match self.tasks.selected_session {
            Some(id) => id,
            None => return SubmitRoute::Nowhere,
        };
        match self.session(id) {
            Some(session) => {
                if !session.is_busy() {
                    self.choose_submit_route()
                } else if self.can_steer(session) {
                    SubmitRoute::Steer(id)
                } else {
                    SubmitRoute::Queue(id)
                }
            },
            None => SubmitRoute::Nowhere,
        }
    }

    fn send_along(
        &mut self,
        route: SubmitRoute,
        submission: ComposerSubmission,
        message_id: u128,
        now: u64,
    ) -> (r: SubmitAction)
        requires
            match route {
                SubmitRoute::Steer(id) => old(self).runtimes@.contains_key(id),
                _ => true,
            },
        ensures
            routed(*old(self), *final(self), route, submission@, message_id, now, r),
    {
        match route {
            SubmitRoute::Nowhere => SubmitAction::Ignored,
            SubmitRoute::Queue(id) => {
                let save = self.tasks.enqueue_follow_up_submission(id, submission, message_id, now);
                SubmitAction::Queued { save }
            },
            SubmitRoute::Steer(id) => {
                let input = prompt_input_from_submission(&submission);
                let ghost runtimes = self.runtimes@;
                if let Some(runtime) = self.runtimes.remove(&id) {
                    let mut runtime = runtime;
                    let ghost steers = runtime.pending_steers@;
                    runtime.pending_steers.push(submission);
                    assert(runtime.pending_steers@.drop_last() =~= steers);
                    self.runtimes.insert(id, runtime);
                    assert(self.runtimes@ =~= runtimes.insert(id, runtime));
                }
                SubmitAction::Steered { session_id: id, input }
            },
            SubmitRoute::Submit(id) => SubmitAction::Begin { session_id: id, submission },
        }
    }

    /// Sends a submission from the composer. `message_id` is the id that it has in a queue.
    pub fn submit_composer_submission(
        &mut self,
        submission: ComposerSubmission,
        message_id: u128,
        now: u64,
    ) -> (r: SubmitAction)
        ensures
            routed(
                *old(self),
                *final(self),
                submit_route(*old(self)),
                submission@,
                message_id,
                now,
                r,
            ),
    {
        let route = self.choose_submit_route();
        self.send_along(route, submission, message_id, now)
    }

    /// Sends a submission that is meant for the turn that is running.
    pub fn steer_composer_submission(
        &mut self,
        submission: ComposerSubmission,
        message_id: u128,
        now: u64,
    ) -> (r: SubmitAction)
        ensures
            routed(
                *old(self),
                *final(self),
                steer_route(*old(self)),
                submission@,
                message_id,
                now,
                r,
            ),
    {
        let route = self.choose_steer_route();
        proof {
            if route is Steer {
                let id = route->Steer_0;
                session_position_finds(self.tasks.sessions@, id, 0);
            }
        }
        self.send_along(route, submission, message_id, now)
    }

    /// Takes a message out of the queue of a task and sends it right away.
    pub fn steer_queued_message(&mut self, id: u128, message_id: u128, new_id: u128, now: u64) -> (r:
        SubmitAction)
        ensures
            exists|mid: Waku, message: Option<QueuedMessage>|
                {
                    &&& mid == (Waku { tasks: mid.tasks, ..*old(self) })
                    &&& #[trigger] taken(old(self).tasks, mid.tasks, id, message_id, message)
                    &&& match message {
                        Some(m) => routed(
                            mid,
                            *final(self),
                            steer_route(mid),
                            as_submission(m),
                            new_id,
                            now,
                            r,
                        ),
                        None => r is Ignored && *final(self) == mid,
                    }
                },
    {
        let message = self.tasks.take_queued_message(id, message_id);
        let ghost mid = *self;
        let ghost was = message;
        assert(taken(old(self).tasks, mid.tasks, id, message_id, was));
        match message {
            Some(m) => {
                let submission = ComposerSubmission::from_queued_message(m);
                assert(submission@ == as_submission(m));
                self.steer_composer_submission(submission, new_id, now)
            },
            None => SubmitAction::Ignored,
        }
    }

    /// The next message of the queue of a task, to begin a turn with: not while the task is at work or
    /// is being forked, nor before the checkpoint behind its last turn is there.
    pub fn drain_queued_message(&mut self, id: u128) -> (r: Option<ComposerSubmission>)
        ensures
            *final(self) == (Waku { tasks: final(self).tasks, ..*old(self) }),
            ({
                let task = old(self).tasks.task(id);
                if queue_goes_on(*old(self), id) {
                    &&& r is Some
                    &&& r->0@ == as_submission(task.queued_messages@[0])
                    &&& old(self).tasks.with_task(id, final(self).tasks.task(id), final(self).tasks)
                    &&& with_queue(
                        task,
                        final(self).tasks.task(id),
                        task.queued_messages@.skip(1),
                    )
                } else {
                    &&& r is None
                    &&& final(self).tasks == old(self).tasks
                }
            }),
    {
        if self.response_fork_preparations.contains_key(&id) {
            return None;
        }
        let place: usize = find_session(&self.tasks.sessions, id);
        if place >= self.tasks.sessions.len() {
            return None;
        }
        if self.tasks.sessions[place].is_busy() || self.tasks.sessions[place].queued_messages.len()
            == 0 || self.ending_checkpoint_pending(id) {
            return None;
        }
        let ghost tasks = self.tasks.sessions@;
        let mut session = self.tasks.sessions.remove(place);
        let ghost queue = session.queued_messages@;
        let message = session.queued_messages.remove(0);
        assert(session.queued_messages@ =~= queue.skip(1));
        self.tasks.sessions.insert(place, session);
        proof {
            assert(self.tasks.sessions@ =~= tasks.update(place as int, session));
            place_stays(tasks, id, session, 0);
        }
        Some(ComposerSubmission::from_queued_message(message))
    }
}

/// Tells whether the queue of a task goes on.
pub open spec fn queue_goes_on(waku: Waku, id: u128) -> bool {
    &&& !waku.response_fork_preparations@.contains_key(id)
    &&& waku.tasks.lists(id)
    &&& !busy(waku.tasks.task(id).status)
    &&& waku.tasks.task(id).queued_messages@.len() > 0
    &&& !ending_under_way(waku, id)
}

// ---------------------------------------------------------------------------
// Laws
// ---------------------------------------------------------------------------
/// A message that is taken back from the end of a queue leaves the queue as it was.
pub proof fn taking_undoes_queueing(
    before: AgentSession,
    after: AgentSession,
    submission: SubmissionView,
    message_id: u128,
    now: u64,
)
    requires
        queued_behind(before, after, submission, message_id, now),
        queue_position(before.queued_messages@, message_id, 0) == before.queued_messages@.len(),
    ensures
        queue_position(after.queued_messages@, message_id, 0) == before.queued_messages@.len(),
        after.queued_messages@.remove(before.queued_messages@.len() as int)
            == before.queued_messages@,
        queue_without(after.queued_messages@, message_id) == before.queued_messages@,
{
    let queue = after.queued_messages@;
    let n = before.queued_messages@.len() as int;
    assert(queue.drop_last() =~= before.queued_messages@);
    absent_before(queue, message_id, 0, n);
    assert(queue.remove(n) =~= queue.drop_last());
    absent_stays(queue.drop_last(), message_id);
}

proof fn absent_before(queue: Seq<QueuedMessage>, message_id: u128, i: int, n: int)
    requires
        0 <= i <= n == queue.len() - 1,
        queue.last().id == message_id,
        queue_position(queue.drop_last(), message_id, i) == n,
    ensures
        queue_position(queue, message_id, i) == n,
    decreases n - i,
{
    if i < n {
        assert(queue.drop_last()[i] == queue[i]);
        absent_before(queue, message_id, i + 1, n);
    }
}

proof fn absent_stays(queue: Seq<QueuedMessage>, message_id: u128)
    requires
        queue_position(queue, message_id, 0) == queue.len(),
    ensures
        queue_without(queue, message_id) == queue,
    decreases queue.len(),
{
    if queue.len() > 0 {
        absent_in_head(queue, message_id, 0);
        absent_stays(queue.drop_last(), message_id);
        assert(queue.drop_last().push(queue.last()) =~= queue);
    }
}

proof fn absent_in_head(queue: Seq<QueuedMessage>, message_id: u128, i: int)
    requires
        0 <= i < queue.len(),
        queue_position(queue, message_id, i) == queue.len(),
    ensures
        queue.last().id != message_id,
        queue_position(queue.drop_last(), message_id, i) == queue.len() - 1,
    decreases queue.len() - i,
{
    if i < queue.len() - 1 {
        assert(queue.drop_last()[i] == queue[i]);
        absent_in_head(queue, message_id, i + 1);
    }
}

/// The queue is served in its order: of two messages that were queued, the first comes out first.
pub proof fn first_queued_first_served(
    before: AgentSession,
    once: AgentSession,
    twice: AgentSession,
    first: SubmissionView,
    second: SubmissionView,
    first_id: u128,
    second_id: u128,
    now: u64,
    later: u64,
)
    requires
        before.queued_messages@.len() == 0,
        queued_behind(before, once, first, first_id, now),
        queued_behind(once, twice, second, second_id, later),
    ensures
        twice.queued_messages@[0].id == first_id,
        twice.queued_messages@[0].content@ == trimmed(first.prompt),
        twice.queued_messages@.skip(1)[0].id == second_id,
{
    assert(twice.queued_messages@[0] == twice.queued_messages@.drop_last()[0]);
}

/// A task that is at work takes no submission of the composer but into its queue, or into the turn that
/// is running.
pub proof fn tasks_at_work_are_not_interrupted(waku: Waku)
    requires
        waku.tasks.selected_session is Some,
        busy(waku.tasks.task(waku.tasks.selected_session->0).status),
    ensures
        !(submit_route(waku) is Submit),
        !(steer_route(waku) is Submit),
{
}

} // verus!
