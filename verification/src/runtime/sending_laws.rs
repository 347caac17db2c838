//! What sending promises: where a submission goes, how a queue is served, and what becomes of a turn that is
//! made ready.
use crate::protocol::{DriverEvent, SessionStatus};
use crate::runtime::checkpoints::ending_under_way;
use crate::runtime::queue::{
    as_submission, queue_position, queue_without, queued_behind, routed, steer_route, taken,
    SubmitAction,
};
use crate::runtime::state::Waku;
use crate::runtime::submit::{
    is_planned, FailedPreparation, FailedTurn, PreparedAgent, PreparedSubmission, StartAction,
    StartFailure, SubmitDecision,
};
use crate::runtime::sync::TaskState;
use crate::runtime::task_laws::{
    absent_task_is_not_found, at_rest, first_task_is_found, is_absent, only_task_changed,
    stands_first,
};
use crate::session::{
    project_position, AgentSession, ComposerSubmission, Project, QueuedMessage, TurnStatus,
};
use crate::text::{opt_view, trimmed};
use vstd::prelude::*;

verus! {

broadcast use vstd::std_specs::hash::group_hash_axioms;

/// Tells whether a task is another one with a submission behind its queue: all that waited before waits still,
/// in the same order, and the submission is last, with its text trimmed.
pub open spec fn waits_last(
    before: AgentSession,
    after: AgentSession,
    submission: ComposerSubmission,
    message_id: u128,
) -> bool {
    let n = before.queued_messages@.len() as int;
    &&& after.queued_messages@.len() == n + 1
    &&& forall|k: int|
        0 <= k < n ==> #[trigger] after.queued_messages@[k] == before.queued_messages@[k]
    &&& after.queued_messages@[n].id == message_id
    &&& after.queued_messages@[n].content@ == trimmed(submission.prompt@)
    &&& after.queued_messages@[n].display_content is Some <==> submission.display_content is Some
    &&& submission.display_content is Some ==> (after.queued_messages@[n].display_content->0)@ == (
    submission.display_content->0)@
    &&& after.queued_messages@[n].attachments@ == submission.attachments@
    &&& after.id == before.id
    &&& after.status == before.status
    &&& after.messages == before.messages
    &&& after.turns == before.turns
}

/// Tells whether the checkpoint behind the last turn of a task is being made, or is to be.
pub open spec fn awaits_checkpoint(waku: Waku, i: int) -> bool {
    let task = waku.tasks.sessions@[i];
    &&& task.turns@.len() > 0
    &&& task.turns@.last().status != TurnStatus::Running
    &&& (waku.checkpoint_captures_in_flight@.contains((task.id, task.turns@.last().turn_count))
        || exists|k: int|
        0 <= k < waku.pending_checkpoint_captures@.len() && (
        #[trigger] waku.pending_checkpoint_captures@[k]).session_id == task.id
            && waku.pending_checkpoint_captures@[k].turn_count == task.turns@.last().turn_count)
}

proof fn awaiting_is_under_way(waku: Waku, i: int)
    requires
        stands_first(waku.tasks.sessions@, i),
    ensures
        ending_under_way(waku, waku.tasks.sessions@[i].id) <==> awaits_checkpoint(waku, i),
{
    first_task_is_found(waku.tasks.sessions@, i);
}

proof fn behind_is_last(
    before: AgentSession,
    after: AgentSession,
    submission: ComposerSubmission,
    message_id: u128,
    now: u64,
)
    requires
        queued_behind(before, after, submission@, message_id, now),
    ensures
        waits_last(before, after, submission, message_id),
        after.updated_at == now,
{
    let n = before.queued_messages@.len() as int;
    assert forall|k: int| 0 <= k < n implies #[trigger] after.queued_messages@[k]
        == before.queued_messages@[k] by {
        assert(after.queued_messages@.drop_last()[k] == before.queued_messages@[k]);
    }
    assert(opt_view(after.queued_messages@[n].display_content) == opt_view(
        submission.display_content,
    ));
}

proof fn task_in_place(before: TaskState, after: TaskState, i: int)
    requires
        stands_first(before.sessions@, i),
        before.with_task(before.sessions@[i].id, after.task(before.sessions@[i].id), after),
    ensures
        only_task_changed(before.sessions@, after.sessions@, i),
        after.sessions@[i] == after.task(before.sessions@[i].id),
{
    first_task_is_found(before.sessions@, i);
}

// ---------------------------------------------------------------------------
// The queue
// ---------------------------------------------------------------------------
/// A submission with text waits behind the queue of its task, and one without is dropped.
pub proof fn a_submission_waits_behind_the_queue(
    tasks: &mut TaskState,
    i: int,
    submission: ComposerSubmission,
    message_id: u128,
    now: u64,
    r: bool,
)
    requires
        stands_first(old(tasks).sessions@, i),
        call_ensures(
            TaskState::enqueue_follow_up_submission,
            (tasks, old(tasks).sessions@[i].id, submission, message_id, now),
            r,
        ),
    ensures
        r <==> trimmed(submission.prompt@).len() > 0,
        !r ==> *final(tasks) == *old(tasks),
        r ==> only_task_changed(old(tasks).sessions@, final(tasks).sessions@, i),
        r ==> waits_last(old(tasks).sessions@[i], final(tasks).sessions@[i], submission, message_id),
{
    first_task_is_found(old(tasks).sessions@, i);
    if r {
        task_in_place(*old(tasks), *final(tasks), i);
        behind_is_last(
            old(tasks).sessions@[i],
            final(tasks).sessions@[i],
            submission,
            message_id,
            now,
        );
    }
}

proof fn queue_is_searched(queue: Seq<QueuedMessage>, message_id: u128, i: int)
    requires
        0 <= i <= queue.len(),
    ensures
        i <= queue_position(queue, message_id, i) <= queue.len(),
        queue_position(queue, message_id, i) < queue.len() ==> queue[queue_position(
            queue,
            message_id,
            i,
        )].id == message_id,
        forall|k: int|
            i <= k < queue_position(queue, message_id, i) ==> (#[trigger] queue[k]).id
                != message_id,
    decreases queue.len() - i,
{
    if i < queue.len() && queue[i].id != message_id {
        queue_is_searched(queue, message_id, i + 1);
    }
}

proof fn queue_without_holds(queue: Seq<QueuedMessage>, message_id: u128, m: QueuedMessage)
    ensures
        queue_without(queue, message_id).contains(m) <==> queue.contains(m) && m.id != message_id,
    decreases queue.len(),
{
    if queue.len() > 0 {
        let head = queue.drop_last();
        let rest = queue_without(head, message_id);
        queue_without_holds(head, message_id, m);
        assert(queue.contains(m) <==> head.contains(m) || m == queue.last()) by {
            if queue.contains(m) {
                let k = queue.index_of(m);
                if k < head.len() {
                    assert(head[k] == m);
                }
            }
            if head.contains(m) {
                let k = head.index_of(m);
                assert(queue[k] == m);
            }
            assert(queue[queue.len() - 1] == queue.last());
        }
        if queue.last().id != message_id {
            let all = rest.push(queue.last());
            if all.contains(m) {
                let k = all.index_of(m);
                if k < rest.len() {
                    assert(rest[k] == m);
                }
            }
            if rest.contains(m) {
                let k = rest.index_of(m);
                assert(all[k] == m);
            }
            assert(all[rest.len() as int] == queue.last());
        }
    }
}

/// A message that is removed from a queue is gone, and every other one of it stays.
pub proof fn a_removed_message_is_gone(
    tasks: &mut TaskState,
    i: int,
    message_id: u128,
    m: QueuedMessage,
)
    requires
        stands_first(old(tasks).sessions@, i),
        call_ensures(
            TaskState::remove_queued_message,
            (tasks, old(tasks).sessions@[i].id, message_id),
            (),
        ),
    ensures
        only_task_changed(old(tasks).sessions@, final(tasks).sessions@, i),
        final(tasks).sessions@[i].queued_messages@.contains(m) <==> old(
            tasks,
        ).sessions@[i].queued_messages@.contains(m) && m.id != message_id,
        final(tasks).sessions@[i].messages == old(tasks).sessions@[i].messages,
{
    first_task_is_found(old(tasks).sessions@, i);
    task_in_place(*old(tasks), *final(tasks), i);
    queue_without_holds(old(tasks).sessions@[i].queued_messages@, message_id, m);
}

/// A message that is taken out of a queue is the first with its id; the rest of the queue stays as it is.
pub proof fn a_message_is_taken_by_its_id(
    tasks: &mut TaskState,
    i: int,
    at: int,
    r: Option<QueuedMessage>,
)
    requires
        stands_first(old(tasks).sessions@, i),
        0 <= at < old(tasks).sessions@[i].queued_messages@.len(),
        forall|k: int|
            0 <= k < at ==> (#[trigger] old(tasks).sessions@[i].queued_messages@[k]).id != old(
                tasks,
            ).sessions@[i].queued_messages@[at].id,
        call_ensures(
            TaskState::take_queued_message,
            (
                tasks,
                old(tasks).sessions@[i].id,
                old(tasks).sessions@[i].queued_messages@[at].id,
            ),
            r,
        ),
    ensures
        r == Some(old(tasks).sessions@[i].queued_messages@[at]),
        only_task_changed(old(tasks).sessions@, final(tasks).sessions@, i),
        ({
            let before = old(tasks).sessions@[i].queued_messages@;
            let after = final(tasks).sessions@[i].queued_messages@;
            &&& after.len() == before.len() - 1
            &&& forall|k: int| 0 <= k < at ==> #[trigger] after[k] == before[k]
            &&& forall|k: int| at <= k < after.len() ==> #[trigger] after[k] == before[k + 1]
        }),
{
    let queue = old(tasks).sessions@[i].queued_messages@;
    first_task_is_found(old(tasks).sessions@, i);
    queue_is_searched(queue, queue[at].id, 0);
    let p = queue_position(queue, queue[at].id, 0);
    if at < p {
        assert(queue[at].id != queue[at].id);
    }
    assert(p == at);
    task_in_place(*old(tasks), *final(tasks), i);
}

/// A message that goes back into the composer leaves the queue; its files are staged again.
pub proof fn an_edited_message_leaves_the_queue(
    waku: &mut Waku,
    i: int,
    at: int,
    r: Option<String>,
)
    requires
        stands_first(old(waku).tasks.sessions@, i),
        0 <= at < old(waku).tasks.sessions@[i].queued_messages@.len(),
        forall|k: int|
            0 <= k < at ==> (#[trigger] old(waku).tasks.sessions@[i].queued_messages@[k]).id != old(
                waku,
            ).tasks.sessions@[i].queued_messages@[at].id,
        call_ensures(
            Waku::edit_queued_message,
            (
                waku,
                old(waku).tasks.sessions@[i].id,
                old(waku).tasks.sessions@[i].queued_messages@[at].id,
            ),
            r,
        ),
    ensures
        r is Some,
        final(waku).composer_attachments@ == old(
            waku,
        ).tasks.sessions@[i].queued_messages@[at].attachments@,
        only_task_changed(old(waku).tasks.sessions@, final(waku).tasks.sessions@, i),
        final(waku).tasks.sessions@[i].queued_messages@ == old(
            waku,
        ).tasks.sessions@[i].queued_messages@.remove(at),
        old(waku).tasks.sessions@[i].queued_messages@[at].display_content is Some ==> (r->0)@ == (
        old(waku).tasks.sessions@[i].queued_messages@[at].display_content->0)@,
        old(waku).tasks.sessions@[i].queued_messages@[at].display_content is None ==> (r->0)@ == old(
            waku,
        ).tasks.sessions@[i].queued_messages@[at].content@,
{
    let queue = old(waku).tasks.sessions@[i].queued_messages@;
    first_task_is_found(old(waku).tasks.sessions@, i);
    queue_is_searched(queue, queue[at].id, 0);
    let p = queue_position(queue, queue[at].id, 0);
    if at < p {
        assert(queue[at].id != queue[at].id);
    }
    assert(p == at);
    task_in_place(old(waku).tasks, final(waku).tasks, i);
}

/// The queue of a task at rest gives its first message, and keeps the others in their order: not while the task
/// is being forked, nor before the checkpoint behind its last turn is there.
pub proof fn the_queue_is_served_from_its_front(
    waku: &mut Waku,
    i: int,
    r: Option<ComposerSubmission>,
)
    requires
        stands_first(old(waku).tasks.sessions@, i),
        call_ensures(Waku::drain_queued_message, (waku, old(waku).tasks.sessions@[i].id), r),
    ensures
        ({
            let task = old(waku).tasks.sessions@[i];
            let queue = task.queued_messages@;
            let goes_on = at_rest(task.status) && queue.len() > 0 && !old(
                waku,
            ).response_fork_preparations@.contains_key(task.id) && !awaits_checkpoint(
                *old(waku),
                i,
            );
            &&& r is Some <==> goes_on
            &&& r is None ==> final(waku).tasks == old(waku).tasks
            &&& r is Some ==> {
                &&& (r->0).prompt@ == queue[0].content@
                &&& (r->0).attachments@ == queue[0].attachments@
                &&& (r->0).display_content is Some <==> queue[0].display_content is Some
                &&& only_task_changed(old(waku).tasks.sessions@, final(waku).tasks.sessions@, i)
                &&& final(waku).tasks.sessions@[i].queued_messages@.len() == queue.len() - 1
                &&& forall|k: int|
                    0 <= k < queue.len() - 1 ==> #[trigger] final(waku).tasks.sessions@[i].queued_messages@[k] == queue[k + 1]
            }
        }),
{
    first_task_is_found(old(waku).tasks.sessions@, i);
    awaiting_is_under_way(*old(waku), i);
    if r is Some {
        task_in_place(old(waku).tasks, final(waku).tasks, i);
        assert((r->0)@.display_content == opt_view((r->0).display_content));
    }
}

// ---------------------------------------------------------------------------
// Where a submission goes
// ---------------------------------------------------------------------------
/// A submission of the composer goes to the task that is shown: it begins a turn of a task at rest, and waits
/// behind the queue of one at work. While the task is being forked it goes nowhere.
pub proof fn a_submission_goes_to_the_task_that_is_shown(
    waku: &mut Waku,
    i: int,
    submission: ComposerSubmission,
    message_id: u128,
    now: u64,
    r: SubmitAction,
)
    requires
        stands_first(old(waku).tasks.sessions@, i),
        old(waku).tasks.selected_session == Some(old(waku).tasks.sessions@[i].id),
        call_ensures(Waku::submit_composer_submission, (waku, submission, message_id, now), r),
    ensures
        ({
            let task = old(waku).tasks.sessions@[i];
            let forked = old(waku).response_fork_preparations@.contains_key(task.id);
            &&& forked ==> r is Ignored && *final(waku) == *old(waku)
            &&& !forked && at_rest(task.status) ==> {
                &&& r is Begin
                &&& r->Begin_session_id == task.id
                &&& (r->submission).prompt@ == submission.prompt@
                &&& (r->submission).attachments@ == submission.attachments@
                &&& *final(waku) == *old(waku)
            }
            &&& !forked && !at_rest(task.status) && trimmed(submission.prompt@).len() > 0 ==> {
                &&& r == (SubmitAction::Queued { save: true })
                &&& only_task_changed(old(waku).tasks.sessions@, final(waku).tasks.sessions@, i)
                &&& waits_last(task, final(waku).tasks.sessions@[i], submission, message_id)
            }
            &&& !forked && !at_rest(task.status) && trimmed(submission.prompt@).len() == 0 ==> r == (
            SubmitAction::Queued { save: false }) && final(waku).tasks == old(waku).tasks
        }),
{
    let task = old(waku).tasks.sessions@[i];
    first_task_is_found(old(waku).tasks.sessions@, i);
    if !old(waku).response_fork_preparations@.contains_key(task.id) && !at_rest(task.status)
        && trimmed(submission.prompt@).len() > 0 {
        task_in_place(old(waku).tasks, final(waku).tasks, i);
        behind_is_last(task, final(waku).tasks.sessions@[i], submission, message_id, now);
    }
}

/// Without a task that is shown nothing is sent.
pub proof fn without_a_task_nothing_is_sent(
    waku: &mut Waku,
    submission: ComposerSubmission,
    message_id: u128,
    now: u64,
    r: SubmitAction,
)
    requires
        old(waku).tasks.selected_session matches Some(id) ==> is_absent(
            old(waku).tasks.sessions@,
            id,
        ),
        call_ensures(Waku::submit_composer_submission, (waku, submission, message_id, now), r)
            || call_ensures(Waku::steer_composer_submission, (waku, submission, message_id, now), r),
    ensures
        r is Ignored,
        *final(waku) == *old(waku),
{
    if let Some(id) = old(waku).tasks.selected_session {
        absent_task_is_not_found(old(waku).tasks.sessions@, id);
    }
}

/// A submission that is meant for the turn that is running goes to the agent, where the agent takes messages and
/// the turn has reached it; it is kept until the agent answers for it. Else it waits in the queue.
pub proof fn a_message_goes_into_the_running_turn(
    waku: &mut Waku,
    i: int,
    submission: ComposerSubmission,
    message_id: u128,
    now: u64,
    r: SubmitAction,
)
    requires
        stands_first(old(waku).tasks.sessions@, i),
        old(waku).tasks.selected_session == Some(old(waku).tasks.sessions@[i].id),
        !at_rest(old(waku).tasks.sessions@[i].status),
        call_ensures(Waku::steer_composer_submission, (waku, submission, message_id, now), r),
    ensures
        ({
            let task = old(waku).tasks.sessions@[i];
            let takes = task.status != SessionStatus::Connecting && old(
                waku,
            ).runtimes@.contains_key(task.id) && old(waku).runtimes@[task.id].supports_steer;
            &&& takes ==> {
                let before = old(waku).runtimes@[task.id].pending_steers@;
                let after = final(waku).runtimes@[task.id].pending_steers@;
                &&& r is Steered
                &&& r->Steered_session_id == task.id
                &&& (r->input).text@ == submission.prompt@
                &&& final(waku).tasks == old(waku).tasks
                &&& after.len() == before.len() + 1
                &&& after.last()@ == submission@
                &&& forall|k: int| 0 <= k < before.len() ==> #[trigger] after[k] == before[k]
            }
            &&& !takes && trimmed(submission.prompt@).len() > 0 ==> r == (SubmitAction::Queued {
                save: true,
            }) && only_task_changed(
                old(waku).tasks.sessions@,
                final(waku).tasks.sessions@,
                i,
            ) && waits_last(task, final(waku).tasks.sessions@[i], submission, message_id)
        }),
{
    let task = old(waku).tasks.sessions@[i];
    first_task_is_found(old(waku).tasks.sessions@, i);
    let takes = task.status != SessionStatus::Connecting && old(waku).runtimes@.contains_key(
        task.id,
    ) && old(waku).runtimes@[task.id].supports_steer;
    if takes {
        let before = old(waku).runtimes@[task.id].pending_steers@;
        let after = final(waku).runtimes@[task.id].pending_steers@;
        assert((r->input)@.text == (r->input).text@);
        assert forall|k: int| 0 <= k < before.len() implies #[trigger] after[k] == before[k] by {
            assert(after.drop_last()[k] == before[k]);
        }
    } else if trimmed(submission.prompt@).len() > 0 {
        task_in_place(old(waku).tasks, final(waku).tasks, i);
        behind_is_last(task, final(waku).tasks.sessions@[i], submission, message_id, now);
    }
}

/// A message that waits is put into the running turn of the shown task where its agent takes messages: it leaves
/// the queue, the others stay in their order, and the agent gets it last.
pub proof fn a_waiting_message_is_put_into_the_turn(
    waku: &mut Waku,
    i: int,
    at: int,
    new_id: u128,
    now: u64,
    r: SubmitAction,
)
    requires
        stands_first(old(waku).tasks.sessions@, i),
        old(waku).tasks.selected_session == Some(old(waku).tasks.sessions@[i].id),
        !at_rest(old(waku).tasks.sessions@[i].status),
        old(waku).tasks.sessions@[i].status != SessionStatus::Connecting,
        old(waku).runtimes@.contains_key(old(waku).tasks.sessions@[i].id),
        old(waku).runtimes@[old(waku).tasks.sessions@[i].id].supports_steer,
        0 <= at < old(waku).tasks.sessions@[i].queued_messages@.len(),
        forall|k: int|
            0 <= k < at ==> (#[trigger] old(waku).tasks.sessions@[i].queued_messages@[k]).id != old(
                waku,
            ).tasks.sessions@[i].queued_messages@[at].id,
        call_ensures(
            Waku::steer_queued_message,
            (
                waku,
                old(waku).tasks.sessions@[i].id,
                old(waku).tasks.sessions@[i].queued_messages@[at].id,
                new_id,
                now,
            ),
            r,
        ),
    ensures
        ({
            let task = old(waku).tasks.sessions@[i];
            let m = task.queued_messages@[at];
            let queue = final(waku).tasks.sessions@[i].queued_messages@;
            &&& r is Steered
            &&& r->Steered_session_id == task.id
            &&& (r->input).text@ == m.content@
            &&& only_task_changed(old(waku).tasks.sessions@, final(waku).tasks.sessions@, i)
            &&& queue.len() == task.queued_messages@.len() - 1
            &&& forall|k: int| 0 <= k < at ==> #[trigger] queue[k] == task.queued_messages@[k]
            &&& forall|k: int|
                at <= k < queue.len() ==> #[trigger] queue[k] == task.queued_messages@[k + 1]
            &&& final(waku).runtimes@[task.id].pending_steers@.last()@.prompt == m.content@
        }),
{
    let task = old(waku).tasks.sessions@[i];
    let queue = task.queued_messages@;
    let id = queue[at].id;
    first_task_is_found(old(waku).tasks.sessions@, i);
    queue_is_searched(queue, id, 0);
    let p = queue_position(queue, id, 0);
    if at < p {
        assert(queue[at].id != id);
    }
    assert(p == at);
    let (mid, message) = choose|mid: Waku, message: Option<QueuedMessage>|
        {
            &&& mid == (Waku { tasks: mid.tasks, ..*old(waku) })
            &&& #[trigger] taken(old(waku).tasks, mid.tasks, task.id, id, message)
            &&& match message {
                Some(m) => routed(
                    mid,
                    *final(waku),
                    steer_route(mid),
                    as_submission(m),
                    new_id,
                    now,
                    r,
                ),
                None => r is Ignored && *final(waku) == mid,
            }
        };
    task_in_place(old(waku).tasks, mid.tasks, i);
    assert(stands_first(mid.tasks.sessions@, i));
    first_task_is_found(mid.tasks.sessions@, i);
    assert((r->input)@.text == (r->input).text@);
}

// ---------------------------------------------------------------------------
// Turns
// ---------------------------------------------------------------------------
proof fn first_project_is_found(projects: Seq<Project>, id: u128, p: int, i: int)
    requires
        0 <= i <= p < projects.len(),
        projects[p].id == id,
        forall|k: int| 0 <= k < p ==> (#[trigger] projects[k]).id != id,
    ensures
        project_position(projects, id, i) == p,
    decreases p - i,
{
    if i < p {
        assert(projects[i].id != id);
        first_project_is_found(projects, id, p, i + 1);
    }
}

/// A submission for a task at rest whose project is known begins the next turn of the task, with what was
/// written and where the task works. An agent is started exactly where the task has none.
pub proof fn a_submission_begins_the_next_turn(
    waku: &mut Waku,
    i: int,
    p: int,
    submission: ComposerSubmission,
    invalid: Option<String>,
    message_id: u128,
    now: u64,
    r: SubmitDecision,
)
    requires
        stands_first(old(waku).tasks.sessions@, i),
        at_rest(old(waku).tasks.sessions@[i].status),
        !awaits_checkpoint(*old(waku), i),
        !old(waku).response_fork_preparations@.contains_key(old(waku).tasks.sessions@[i].id),
        0 <= p < old(waku).tasks.projects@.len(),
        old(waku).tasks.projects@[p].id == old(waku).tasks.sessions@[i].project_id,
        forall|k: int|
            0 <= k < p ==> (#[trigger] old(waku).tasks.projects@[k]).id != old(
                waku,
            ).tasks.sessions@[i].project_id,
        call_ensures(
            Waku::submit_submission_for_session,
            (waku, old(waku).tasks.sessions@[i].id, submission, &invalid, message_id, now),
            r,
        ),
    ensures
        r is Begin,
        ({
            let task = old(waku).tasks.sessions@[i];
            let turn = r->Begin_0;
            &&& turn.session_id == task.id
            &&& turn.submission.prompt@ == submission.prompt@
            &&& turn.submission.attachments@ == submission.attachments@
            &&& turn.turn_number == task.turns@.len() + 1
            &&& turn.provider@ == task.provider@
            &&& turn.project == old(waku).tasks.projects@[p]
            &&& turn.workspace == task.workspace
            &&& turn.attachment_count == submission.attachments@.len()
            &&& turn.shown <==> old(waku).tasks.selected_session == Some(task.id)
            &&& turn.start is None <==> old(waku).runtimes@.contains_key(task.id)
            &&& turn.workspace_kind@ == (if task.workspace is Local {
                "local"@
            } else {
                "worktree"@
            })
        }),
        final(waku).tasks == old(waku).tasks,
{
    first_task_is_found(old(waku).tasks.sessions@, i);
    awaiting_is_under_way(*old(waku), i);
    first_project_is_found(
        old(waku).tasks.projects@,
        old(waku).tasks.sessions@[i].project_id,
        p,
        0,
    );
    assert(is_planned(
        *old(waku),
        old(waku).tasks.sessions@[i].id,
        submission@,
        opt_view(invalid),
        r->Begin_0,
    ));
}

/// A submission for a task at work, or one whose last checkpoint is still to come, waits behind its queue; for
/// the latter the queue is noted to go on.
pub proof fn a_submission_waits_for_a_busy_task(
    waku: &mut Waku,
    i: int,
    submission: ComposerSubmission,
    invalid: Option<String>,
    message_id: u128,
    now: u64,
    r: SubmitDecision,
)
    requires
        stands_first(old(waku).tasks.sessions@, i),
        !at_rest(old(waku).tasks.sessions@[i].status) || awaits_checkpoint(*old(waku), i),
        !old(waku).response_fork_preparations@.contains_key(old(waku).tasks.sessions@[i].id),
        trimmed(submission.prompt@).len() > 0,
        call_ensures(
            Waku::submit_submission_for_session,
            (waku, old(waku).tasks.sessions@[i].id, submission, &invalid, message_id, now),
            r,
        ),
    ensures
        r == (SubmitDecision::Queued { save: true }),
        only_task_changed(old(waku).tasks.sessions@, final(waku).tasks.sessions@, i),
        waits_last(
            old(waku).tasks.sessions@[i],
            final(waku).tasks.sessions@[i],
            submission,
            message_id,
        ),
        awaits_checkpoint(*old(waku), i) ==> final(waku).pending_queue_drains@.contains(
            old(waku).tasks.sessions@[i].id,
        ),
        forall|k: int|
            0 <= k < old(waku).pending_queue_drains@.len() ==> #[trigger] final(waku).pending_queue_drains@[k] == old(waku).pending_queue_drains@[k],
{
    let id = old(waku).tasks.sessions@[i].id;
    first_task_is_found(old(waku).tasks.sessions@, i);
    awaiting_is_under_way(*old(waku), i);
    task_in_place(old(waku).tasks, final(waku).tasks, i);
    behind_is_last(
        old(waku).tasks.sessions@[i],
        final(waku).tasks.sessions@[i],
        submission,
        message_id,
        now,
    );
    if awaits_checkpoint(*old(waku), i) && !old(waku).pending_queue_drains@.contains(id) {
        assert(final(waku).pending_queue_drains@.last() == id);
        assert(final(waku).pending_queue_drains@[old(waku).pending_queue_drains@.len() as int]
            == id);
    }
}

/// A turn that begins replaces its task by the one with the turn, which is made ready from then on; no other task
/// changes.
pub proof fn a_turn_begins_with_its_task_made_ready(
    waku: &mut Waku,
    i: int,
    session: AgentSession,
    now: u64,
)
    requires
        stands_first(old(waku).tasks.sessions@, i),
        call_ensures(
            Waku::begin_submission,
            (waku, old(waku).tasks.sessions@[i].id, session, now),
            (),
        ),
    ensures
        only_task_changed(old(waku).tasks.sessions@, final(waku).tasks.sessions@, i),
        final(waku).tasks.sessions@[i].status == SessionStatus::Connecting,
        final(waku).tasks.sessions@[i].updated_at == now,
        final(waku).tasks.sessions@[i].messages == session.messages,
        final(waku).tasks.sessions@[i].turns == session.turns,
        final(waku).tasks.sessions@[i].title == session.title,
        forall|k: u128| #[trigger]
            final(waku).submission_preparations@.contains(k) <==> old(
                waku,
            ).submission_preparations@.contains(k) || k == old(waku).tasks.sessions@[i].id,
        old(waku).tasks.selected_session == Some(old(waku).tasks.sessions@[i].id) ==> final(waku).message_edit is None,
{
    first_task_is_found(old(waku).tasks.sessions@, i);
}

/// A turn that is ready goes to its agent: to the one that the task has, or to the one that was started. The
/// task works where was made ready for it, and nothing of the last turn is left with the agent.
pub proof fn a_ready_turn_goes_to_its_agent(
    waku: &mut Waku,
    i: int,
    ready: PreparedSubmission,
    failed: Option<FailedTurn>,
    now: u64,
    r: StartAction,
)
    requires
        stands_first(old(waku).tasks.sessions@, i),
        old(waku).submission_preparations@.contains(old(waku).tasks.sessions@[i].id),
        old(waku).tasks.sessions@[i].status == SessionStatus::Connecting,
        old(waku).tasks.sessions@[i].turns@.len() > 0,
        old(waku).tasks.sessions@[i].turns@.last().status == TurnStatus::Running,
        !old(waku).tasks.sessions@[i].turns@.last().provider_turn_started,
        ready.agent is Started || (ready.agent is Existing && old(waku).runtimes@.contains_key(
            old(waku).tasks.sessions@[i].id,
        )),
        call_ensures(
            Waku::finish_submission_preparation,
            (waku, old(waku).tasks.sessions@[i].id, ready, failed, now),
            r,
        ),
    ensures
        r is Prompt,
        r->Prompt_warning is Some ==> old(waku).tasks.selected_session == Some(
            old(waku).tasks.sessions@[i].id,
        ),
        old(waku).tasks.selected_session == Some(old(waku).tasks.sessions@[i].id)
            ==> r->Prompt_warning == ready.checkpoint_warning,
        only_task_changed(old(waku).tasks.sessions@, final(waku).tasks.sessions@, i),
        ({
            let id = old(waku).tasks.sessions@[i].id;
            let before = old(waku).tasks.sessions@[i];
            let after = final(waku).tasks.sessions@[i];
            &&& after.workspace == ready.workspace
            &&& after.status == before.status
            &&& after.messages == before.messages
            &&& after.turns == before.turns
            &&& final(waku).runtimes@.contains_key(id)
            &&& final(waku).runtimes@[id].pending_steers@.len() == 0
            &&& !final(waku).runtimes@[id].waits_for_user
            &&& ready.agent matches PreparedAgent::Started { supports_steer } ==> final(waku).runtimes@[id].supports_steer == supports_steer && final(waku).runtimes@[id].pending_events@.len() == 0
            &&& ready.agent is Existing ==> final(waku).runtimes@[id].supports_steer == old(
                waku,
            ).runtimes@[id].supports_steer && final(waku).runtimes@[id].options_generation == old(
                waku,
            ).runtimes@[id].options_generation
            &&& forall|k: u128|
                k != id && #[trigger] old(waku).runtimes@.contains_key(k) ==> final(waku).runtimes@.contains_key(k) && final(waku).runtimes@[k] == old(waku).runtimes@[k]
            &&& !final(waku).submission_preparations@.contains(id)
        }),
{
    first_task_is_found(old(waku).tasks.sessions@, i);
}

/// Of what an agent reported before a turn, what is about work in the background is kept, and nothing else.
pub proof fn only_background_work_is_kept(
    waku: &mut Waku,
    i: int,
    ready: PreparedSubmission,
    failed: Option<FailedTurn>,
    now: u64,
    r: StartAction,
    event: DriverEvent,
)
    requires
        stands_first(old(waku).tasks.sessions@, i),
        call_ensures(
            Waku::finish_submission_preparation,
            (waku, old(waku).tasks.sessions@[i].id, ready, failed, now),
            r,
        ),
        r is Prompt,
        ready.agent is Existing,
        old(waku).runtimes@.contains_key(old(waku).tasks.sessions@[i].id),
    ensures
        final(waku).runtimes@[old(waku).tasks.sessions@[i].id].pending_events@.contains(event)
            <==> event is BackgroundWork && old(
            waku,
        ).runtimes@[old(waku).tasks.sessions@[i].id].pending_events@.contains(event),
{
    let id = old(waku).tasks.sessions@[i].id;
    first_task_is_found(old(waku).tasks.sessions@, i);
    let before = old(waku).runtimes@[id].pending_events@;
    let after = final(waku).runtimes@[id].pending_events@;
    let pred = |e: DriverEvent| e is BackgroundWork;
    assert(after == before.filter(pred));
    if after.contains(event) {
        let k = after.index_of(event);
        before.lemma_filter_pred(pred, k);
        before.lemma_filter_contains_rev(pred, event);
    }
    if event is BackgroundWork && before.contains(event) {
        let k = before.index_of(event);
        before.lemma_filter_contains(pred, k);
    }
}

/// A turn without an agent fails: the task has failed, with the turn as it was ended, and the user is told why.
pub proof fn a_turn_without_an_agent_fails(
    waku: &mut Waku,
    i: int,
    ready: PreparedSubmission,
    failed: FailedTurn,
    now: u64,
    r: StartAction,
)
    requires
        stands_first(old(waku).tasks.sessions@, i),
        old(waku).submission_preparations@.contains(old(waku).tasks.sessions@[i].id),
        old(waku).tasks.sessions@[i].status == SessionStatus::Connecting,
        old(waku).tasks.sessions@[i].turns@.len() > 0,
        old(waku).tasks.sessions@[i].turns@.last().status == TurnStatus::Running,
        !old(waku).tasks.sessions@[i].turns@.last().provider_turn_started,
        ready.agent is Failed || (ready.agent is Existing && !old(waku).runtimes@.contains_key(
            old(waku).tasks.sessions@[i].id,
        )),
        call_ensures(
            Waku::finish_submission_preparation,
            (waku, old(waku).tasks.sessions@[i].id, ready, Some(failed), now),
            r,
        ),
    ensures
        r is Failed,
        ready.agent matches PreparedAgent::Failed(reason) ==> r->failure
            == StartFailure::NotStarted(reason),
        ready.agent is Existing ==> r->failure == StartFailure::AgentGone,
        r->event is Some <==> failed.ended,
        only_task_changed(old(waku).tasks.sessions@, final(waku).tasks.sessions@, i),
        final(waku).tasks.sessions@[i].status == SessionStatus::Failed,
        final(waku).tasks.sessions@[i].workspace == ready.workspace,
        final(waku).tasks.sessions@[i].messages == failed.session.messages,
        final(waku).tasks.sessions@[i].turns == failed.session.turns,
        !final(waku).submission_preparations@.contains(old(waku).tasks.sessions@[i].id),
{
    first_task_is_found(old(waku).tasks.sessions@, i);
}

/// A turn that is no longer wanted changes no task and no agent: it is not being made ready, or the agent has
/// begun another one.
pub proof fn an_unwanted_turn_is_dropped(
    waku: &mut Waku,
    i: int,
    ready: PreparedSubmission,
    failed: Option<FailedTurn>,
    now: u64,
    r: StartAction,
)
    requires
        stands_first(old(waku).tasks.sessions@, i),
        !old(waku).submission_preparations@.contains(old(waku).tasks.sessions@[i].id) || old(
            waku,
        ).tasks.sessions@[i].status != SessionStatus::Connecting || old(
            waku,
        ).tasks.sessions@[i].turns@.len() == 0 || old(
            waku,
        ).tasks.sessions@[i].turns@.last().status != TurnStatus::Running || old(
            waku,
        ).tasks.sessions@[i].turns@.last().provider_turn_started,
        call_ensures(
            Waku::finish_submission_preparation,
            (waku, old(waku).tasks.sessions@[i].id, ready, failed, now),
            r,
        ),
    ensures
        r is Dropped,
        final(waku).tasks == old(waku).tasks,
        final(waku).runtimes == old(waku).runtimes,
        !final(waku).submission_preparations@.contains(old(waku).tasks.sessions@[i].id),
{
    first_task_is_found(old(waku).tasks.sessions@, i);
}

/// A turn that could not be made ready is taken back: the task is the one without it, and idle. What was written
/// goes back into the composer, with its files, where the task is shown, and the user is told.
pub proof fn a_turn_that_is_not_ready_is_taken_back(
    waku: &mut Waku,
    i: int,
    unwound: AgentSession,
    submission: ComposerSubmission,
    error: String,
    now: u64,
    r: FailedPreparation,
)
    requires
        stands_first(old(waku).tasks.sessions@, i),
        old(waku).submission_preparations@.contains(old(waku).tasks.sessions@[i].id),
        old(waku).tasks.sessions@[i].status == SessionStatus::Connecting,
        call_ensures(
            Waku::fail_submission_preparation,
            (waku, old(waku).tasks.sessions@[i].id, Some(unwound), submission, error, now),
            r,
        ),
    ensures
        only_task_changed(old(waku).tasks.sessions@, final(waku).tasks.sessions@, i),
        final(waku).tasks.sessions@[i].status == SessionStatus::Idle,
        final(waku).tasks.sessions@[i].messages == unwound.messages,
        final(waku).tasks.sessions@[i].turns == unwound.turns,
        !final(waku).submission_preparations@.contains(old(waku).tasks.sessions@[i].id),
        ({
            let shown = old(waku).tasks.selected_session == Some(old(waku).tasks.sessions@[i].id);
            &&& r.told is Some <==> shown
            &&& r.restored is Some <==> shown
            &&& shown ==> final(waku).composer_attachments@ == submission.attachments@
            &&& shown && submission.display_content is None ==> (r.restored->0)@
                == submission.prompt@
            &&& shown && submission.display_content is Some ==> (r.restored->0)@ == (
            submission.display_content->0)@
            &&& !shown ==> final(waku).composer_attachments == old(waku).composer_attachments
        }),
{
    first_task_is_found(old(waku).tasks.sessions@, i);
    assert(opt_view(r.restored) is Some <==> r.restored is Some);
    assert(crate::label::opt_label(r.told) is Some <==> r.told is Some);
}

} // verus!
