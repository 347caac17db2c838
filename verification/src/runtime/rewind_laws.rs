//! What forking a task and taking it back to a message promise.
use crate::protocol::{MessageRole, SessionStatus};
use crate::runtime::checkpoints::turn_position;
use crate::runtime::rewind::{
    being_rewound, message_place, message_position, restored, rewind_begun, users_position,
    EditCancel, EditStart, ForkAction, ForkRefusal, ForkResult, RewindAction, RewindRefusal,
    RewindStart,
};
use crate::runtime::state::{MessageEdit, Waku};
use crate::runtime::task_laws::{
    absent_task_is_not_found, at_rest, first_task_is_found, found_task_stands_first, is_absent,
    only_task_changed, stands_first,
};
use crate::session::{session_position, AgentSession, ComposerSubmission, Message, Turn};
use vstd::prelude::*;

verus! {

broadcast use vstd::std_specs::hash::group_hash_axioms;

/// Every response of a task that is shown and at rest can be forked, the earlier ones as well as the last:
/// where nothing is under way for the task, the fork of that turn is begun.
pub proof fn every_response_can_be_forked(
    waku: &mut Waku,
    i: int,
    turn: usize,
    r: Result<(), ForkRefusal>,
)
    requires
        stands_first(old(waku).tasks.sessions@, i),
        call_ensures(
            Waku::fork_session_from_response,
            (waku, old(waku).tasks.sessions@[i].id, turn),
            r,
        ),
        old(waku).tasks.selected_session == Some(old(waku).tasks.sessions@[i].id),
        at_rest(old(waku).tasks.sessions@[i].status),
        !old(waku).response_fork_preparations@.contains_key(old(waku).tasks.sessions@[i].id),
        !old(waku).submission_preparations@.contains(old(waku).tasks.sessions@[i].id),
        forall|k: int|
            0 <= k < old(waku).tasks.sessions@[i].turns@.len() ==> (#[trigger] old(
                waku,
            ).tasks.sessions@[i].turns@[k]).turn_count == k + 1,
        1 <= turn <= old(waku).tasks.sessions@[i].turns@.len(),
    ensures
        r is Ok,
        final(waku).response_fork_preparations@.contains_key(old(waku).tasks.sessions@[i].id),
        final(waku).response_fork_preparations@[old(waku).tasks.sessions@[i].id] == turn,
        forall|k: u128|
            k != old(waku).tasks.sessions@[i].id ==> (#[trigger] final(waku).response_fork_preparations@.contains_key(k) <==> old(
                waku,
            ).response_fork_preparations@.contains_key(k)),
        final(waku).tasks == old(waku).tasks,
{
    first_task_is_found(old(waku).tasks.sessions@, i);
    assert(old(waku).tasks.sessions@[i].turns@[turn - 1].turn_count == turn);
}

/// A fork is begun only of a task that is listed, shown and at rest, with nothing under way for it, and only
/// from a turn that it has. A refused one changes nothing; where the task is gone, that is what is said.
pub proof fn a_fork_is_refused_for_a_reason(
    waku: &mut Waku,
    id: u128,
    turn: usize,
    r: Result<(), ForkRefusal>,
)
    requires
        call_ensures(Waku::fork_session_from_response, (waku, id, turn), r),
    ensures
        r is Ok ==> old(waku).tasks.selected_session == Some(id),
        r is Ok ==> !old(waku).response_fork_preparations@.contains_key(id),
        r is Ok ==> !old(waku).submission_preparations@.contains(id),
        r is Ok ==> exists|i: int, k: int|
            stands_first(old(waku).tasks.sessions@, i) && old(waku).tasks.sessions@[i].id == id
                && at_rest(old(waku).tasks.sessions@[i].status) && 0 <= k < old(
                waku,
            ).tasks.sessions@[i].turns@.len() && (#[trigger] old(
                waku,
            ).tasks.sessions@[i].turns@[k]).turn_count == turn,
        r is Err ==> *final(waku) == (Waku {
            response_fork_preparations: final(waku).response_fork_preparations,
            ..*old(waku)
        }) && final(waku).response_fork_preparations@ == old(waku).response_fork_preparations@,
        r is Err ==> (r->Err_0 == ForkRefusal::Unavailable <==> is_absent(
            old(waku).tasks.sessions@,
            id,
        ) && !old(waku).response_fork_preparations@.contains_key(id) && !old(
            waku,
        ).submission_preparations@.contains(id)),
{
    found_task_stands_first(old(waku).tasks.sessions@, id);
    let p = session_position(old(waku).tasks.sessions@, id, 0);
    if is_absent(old(waku).tasks.sessions@, id) {
        absent_task_is_not_found(old(waku).tasks.sessions@, id);
    }
    if r is Ok {
        let at: int = if turn == 0 {
            0
        } else {
            turn - 1
        };
        assert(old(waku).tasks.sessions@[p].turns@[at].turn_count == turn);
        assert(stands_first(old(waku).tasks.sessions@, p));
    }
}

/// A fork that was begun ends with the new task at the end of the list and shown, or with the failure told. No
/// other task changes, and the task can be forked again.
pub proof fn a_fork_that_was_begun_ends(
    waku: &mut Waku,
    id: u128,
    turn: usize,
    begun: Result<(), ForkRefusal>,
    later: &mut Waku,
    result: ForkResult,
    r: ForkAction,
)
    requires
        call_ensures(Waku::fork_session_from_response, (waku, id, turn), begun),
        begun is Ok,
        *old(later) == *final(waku),
        call_ensures(Waku::finish_response_fork, (later, id, turn, result), r),
    ensures
        final(later).response_fork_preparations@ == old(waku).response_fork_preparations@,
        result matches ForkResult::Forked { session, .. } ==> {
            &&& r is Show
            &&& r->session_id == session.id
            &&& final(later).tasks.sessions@.len() == old(waku).tasks.sessions@.len() + 1
            &&& final(later).tasks.sessions@.last() == session
            &&& forall|k: int|
                0 <= k < old(waku).tasks.sessions@.len() ==> #[trigger] final(later).tasks.sessions@[k] == old(waku).tasks.sessions@[k]
        },
        result matches ForkResult::Failed(error) ==> r == ForkAction::Failed(error) && final(later).tasks == old(waku).tasks,
{
    assert(final(later).response_fork_preparations@ =~= old(waku).response_fork_preparations@);
}

/// What comes of a fork that was not begun, or of another turn, is dropped.
pub proof fn an_unasked_fork_is_dropped(
    waku: &mut Waku,
    id: u128,
    turn: usize,
    result: ForkResult,
    r: ForkAction,
)
    requires
        call_ensures(Waku::finish_response_fork, (waku, id, turn, result), r),
        !(old(waku).response_fork_preparations@.contains_key(id) && old(
            waku,
        ).response_fork_preparations@[id] == turn),
    ensures
        r is Dropped,
        *final(waku) == *old(waku),
{
}

proof fn turn_is_found(turns: Seq<Turn>, turn: usize, i: int)
    requires
        0 <= i <= turns.len(),
    ensures
        i <= turn_position(turns, turn, i) <= turns.len(),
        turn_position(turns, turn, i) < turns.len() ==> turns[turn_position(
            turns,
            turn,
            i,
        )].turn_count == turn,
        forall|k: int|
            i <= k < turn_position(turns, turn, i) ==> (#[trigger] turns[k]).turn_count != turn,
    decreases turns.len() - i,
{
    if i < turns.len() && turns[i].turn_count != turn {
        turn_is_found(turns, turn, i + 1);
    }
}

proof fn message_is_found(messages: Seq<Message>, message_id: u128, i: int)
    requires
        0 <= i <= messages.len(),
    ensures
        i <= message_position(messages, message_id, i) <= messages.len(),
        message_position(messages, message_id, i) < messages.len() ==> messages[message_position(
            messages,
            message_id,
            i,
        )].id == message_id,
        forall|k: int|
            i <= k < message_position(messages, message_id, i) ==> (#[trigger] messages[k]).id
                != message_id,
    decreases messages.len() - i,
{
    if i < messages.len() && messages[i].id != message_id {
        message_is_found(messages, message_id, i + 1);
    }
}

proof fn users_message_stands(messages: Seq<Message>, message_id: u128, turn_id: u128, i: int)
    requires
        0 <= i <= messages.len(),
    ensures
        i <= users_position(messages, message_id, turn_id, i) <= messages.len(),
        ({
            let p = users_position(messages, message_id, turn_id, i);
            p < messages.len() ==> messages[p].id == message_id && messages[p].turn_id == Some(
                turn_id,
            ) && messages[p].role == MessageRole::User
        }),
        forall|k: int|
            i <= k < users_position(messages, message_id, turn_id, i) ==> !((
            #[trigger] messages[k]).id == message_id && messages[k].turn_id == Some(turn_id)
                && messages[k].role == MessageRole::User),
    decreases messages.len() - i,
{
    if i < messages.len() && !(messages[i].id == message_id && messages[i].turn_id == Some(turn_id)
        && messages[i].role == MessageRole::User) {
        users_message_stands(messages, message_id, turn_id, i + 1);
    }
}

/// Tells whether the ids of some messages, and the numbers of some turns, are all different.
pub open spec fn told_apart(task: AgentSession) -> bool {
    &&& forall|a: int, b: int|
        0 <= a < b < task.messages@.len() ==> (#[trigger] task.messages@[a]).id != (
        #[trigger] task.messages@[b]).id
    &&& forall|a: int, b: int|
        0 <= a < b < task.turns@.len() ==> (#[trigger] task.turns@[a]).turn_count != (
        #[trigger] task.turns@[b]).turn_count
}

/// Tells whether a message of a task is one that the user wrote in a turn of it.
pub open spec fn users_message(task: AgentSession, t: int, m: int) -> bool {
    &&& 0 <= t < task.turns@.len()
    &&& 0 <= m < task.messages@.len()
    &&& task.messages@[m].role == MessageRole::User
    &&& task.messages@[m].turn_id == Some(task.turns@[t].id)
}

proof fn users_message_is_placed(task: AgentSession, t: int, m: int)
    requires
        told_apart(task),
        users_message(task, t, m),
    ensures
        turn_position(task.turns@, task.turns@[t].turn_count, 0) == t,
        message_place(task, task.messages@[m].id, task.turns@[t].turn_count) == Some(m),
        message_position(task.messages@, task.messages@[m].id, 0) == m,
{
    turn_is_found(task.turns@, task.turns@[t].turn_count, 0);
    message_is_found(task.messages@, task.messages@[m].id, 0);
    users_message_stands(task.messages@, task.messages@[m].id, task.turns@[t].id, 0);
    let p = turn_position(task.turns@, task.turns@[t].turn_count, 0);
    if p < t {
        assert(task.turns@[p].turn_count != task.turns@[t].turn_count);
    } else if t < p {
        assert(task.turns@[t].turn_count != task.turns@[t].turn_count);
    }
    let q = users_position(task.messages@, task.messages@[m].id, task.turns@[t].id, 0);
    if q < m {
        assert(task.messages@[q].id != task.messages@[m].id);
    }
    let s = message_position(task.messages@, task.messages@[m].id, 0);
    if s < m {
        assert(task.messages@[s].id != task.messages@[m].id);
    }
}

/// Any message that the user wrote in any turn of a task at rest can be edited. The field holds the text that
/// the transcript shows of it, and its files go with the edit.
pub proof fn every_message_of_the_user_can_be_edited(
    waku: &mut Waku,
    i: int,
    t: int,
    m: int,
    r: Option<EditStart>,
)
    requires
        stands_first(old(waku).tasks.sessions@, i),
        told_apart(old(waku).tasks.sessions@[i]),
        users_message(old(waku).tasks.sessions@[i], t, m),
        at_rest(old(waku).tasks.sessions@[i].status),
        call_ensures(
            Waku::begin_message_edit,
            (
                waku,
                old(waku).tasks.sessions@[i].id,
                old(waku).tasks.sessions@[i].messages@[m].id,
                old(waku).tasks.sessions@[i].turns@[t].turn_count,
            ),
            r,
        ),
    ensures
        r is Some,
        ({
            let message = old(waku).tasks.sessions@[i].messages@[m];
            let edit = final(waku).message_edit;
            &&& (r->0).message_index == m
            &&& message.display_content is None ==> (r->0).text@ == message.content@
            &&& message.display_content is Some ==> (r->0).text@ == (message.display_content->0)@
            &&& edit is Some
            &&& (edit->0).session_id == old(waku).tasks.sessions@[i].id
            &&& (edit->0).message_id == message.id
            &&& (edit->0).turn_count == old(waku).tasks.sessions@[i].turns@[t].turn_count
            &&& (edit->0).attachments@ == message.attachments@
        }),
        final(waku).tasks == old(waku).tasks,
{
    first_task_is_found(old(waku).tasks.sessions@, i);
    users_message_is_placed(old(waku).tasks.sessions@[i], t, m);
}

/// A message is not edited while its task is at work, nor one that the user did not write.
pub proof fn only_the_users_messages_are_edited(
    waku: &mut Waku,
    id: u128,
    message_id: u128,
    turn: usize,
    r: Option<EditStart>,
)
    requires
        call_ensures(Waku::begin_message_edit, (waku, id, message_id, turn), r),
    ensures
        r is Some ==> exists|i: int, m: int|
            stands_first(old(waku).tasks.sessions@, i) && old(waku).tasks.sessions@[i].id == id
                && at_rest(old(waku).tasks.sessions@[i].status) && 0 <= m < old(
                waku,
            ).tasks.sessions@[i].messages@.len() && (#[trigger] old(
                waku,
            ).tasks.sessions@[i].messages@[m]).id == message_id && old(
                waku,
            ).tasks.sessions@[i].messages@[m].role == MessageRole::User,
        r is None ==> final(waku).message_edit == old(waku).message_edit,
{
    let sessions = old(waku).tasks.sessions@;
    found_task_stands_first(sessions, id);
    let p = session_position(sessions, id, 0);
    if r is Some {
        let task = sessions[p];
        turn_is_found(task.turns@, turn, 0);
        let t = turn_position(task.turns@, turn, 0);
        users_message_stands(task.messages@, message_id, task.turns@[t].id, 0);
        let m = users_position(task.messages@, message_id, task.turns@[t].id, 0);
        assert(sessions[p].messages@[m].id == message_id);
        assert(stands_first(sessions, p));
    }
}

/// An edit can be left, unless it is being sent.
pub proof fn an_edit_can_be_left(waku: &mut Waku, r: EditCancel)
    requires
        call_ensures(Waku::cancel_message_edit, (waku,), r),
    ensures
        old(waku).message_edit is None ==> r == EditCancel::Nothing && final(waku).message_edit is None,
        old(waku).message_edit is Some && old(waku).submission_preparations@.contains(
            (old(waku).message_edit->0).session_id,
        ) ==> r == EditCancel::Nothing && final(waku).message_edit == old(waku).message_edit,
        old(waku).message_edit is Some && !old(waku).submission_preparations@.contains(
            (old(waku).message_edit->0).session_id,
        ) ==> r is Cancelled && final(waku).message_edit is None,
        final(waku).tasks == old(waku).tasks,
{
}

/// A task that is shown and at rest is taken back to any message that the user wrote in it: that message says
/// what was sent, every other stays, the task is made ready, and the message as it was is kept.
pub proof fn a_task_is_taken_back_to_a_message(
    waku: &mut Waku,
    i: int,
    t: int,
    m: int,
    edit: &MessageEdit,
    submission: &ComposerSubmission,
    now: u64,
    r: Result<RewindStart, RewindRefusal>,
)
    requires
        stands_first(old(waku).tasks.sessions@, i),
        told_apart(old(waku).tasks.sessions@[i]),
        users_message(old(waku).tasks.sessions@[i], t, m),
        at_rest(old(waku).tasks.sessions@[i].status),
        old(waku).tasks.selected_session == Some(old(waku).tasks.sessions@[i].id),
        edit.session_id == old(waku).tasks.sessions@[i].id,
        edit.message_id == old(waku).tasks.sessions@[i].messages@[m].id,
        edit.turn_count == old(waku).tasks.sessions@[i].turns@[t].turn_count,
        call_ensures(Waku::start_message_rewind, (waku, edit, submission, now), r),
    ensures
        r is Ok,
        ({
            let before = old(waku).tasks.sessions@[i];
            let after = final(waku).tasks.sessions@[i];
            &&& only_task_changed(old(waku).tasks.sessions@, final(waku).tasks.sessions@, i)
            &&& (r->Ok_0).message_index == m
            &&& (r->Ok_0).original == before.messages@[m]
            &&& (r->Ok_0).previous_status == before.status
            &&& after.id == before.id
            &&& after.status == SessionStatus::Connecting
            &&& after.updated_at == now
            &&& after.turns == before.turns
            &&& after.messages@.len() == before.messages@.len()
            &&& after.messages@[m].content@ == submission.prompt@
            &&& after.messages@[m].attachments@ == submission.attachments@
            &&& after.messages@[m].id == before.messages@[m].id
            &&& after.messages@[m].role == before.messages@[m].role
            &&& after.messages@[m].turn_id == before.messages@[m].turn_id
            &&& forall|k: int|
                0 <= k < before.messages@.len() && k != m ==> #[trigger] after.messages@[k]
                    == before.messages@[k]
        }),
        final(waku).message_edit is None,
        forall|k: u128| #[trigger]
            final(waku).submission_preparations@.contains(k) <==> old(
                waku,
            ).submission_preparations@.contains(k) || k == edit.session_id,
{
    let sessions = old(waku).tasks.sessions@;
    first_task_is_found(sessions, i);
    users_message_is_placed(sessions[i], t, m);
    let after = final(waku).tasks.task(edit.session_id);
    assert(rewind_begun(*old(waku), *final(waku), *edit, submission@, now, r->Ok_0));
    assert(final(waku).tasks.sessions@ == sessions.update(i, after));
    assert(final(waku).tasks.sessions@[i] == after);
    assert(being_rewound(sessions[i], after, m, after.messages@[m], now));
}

/// A task is taken back only where it is listed, shown and at rest. What is refused changes nothing.
pub proof fn only_a_resting_task_is_taken_back(
    waku: &mut Waku,
    edit: &MessageEdit,
    submission: &ComposerSubmission,
    now: u64,
    r: Result<RewindStart, RewindRefusal>,
)
    requires
        call_ensures(Waku::start_message_rewind, (waku, edit, submission, now), r),
    ensures
        r is Err ==> *final(waku) == *old(waku),
        r is Ok ==> old(waku).tasks.selected_session == Some(edit.session_id),
        is_absent(old(waku).tasks.sessions@, edit.session_id) ==> r is Err && r->Err_0
            == RewindRefusal::Unavailable,
        forall|i: int|
            #[trigger] stands_first(old(waku).tasks.sessions@, i) && old(waku).tasks.sessions@[i].id
                == edit.session_id && (!at_rest(old(waku).tasks.sessions@[i].status) || old(
                waku,
            ).tasks.selected_session != Some(edit.session_id)) ==> r is Err && r->Err_0
                == RewindRefusal::SelectFirst,
{
    let sessions = old(waku).tasks.sessions@;
    found_task_stands_first(sessions, edit.session_id);
    if is_absent(sessions, edit.session_id) {
        absent_task_is_not_found(sessions, edit.session_id);
    }
    assert forall|i: int|
        #[trigger] stands_first(sessions, i) && sessions[i].id == edit.session_id && (!at_rest(
            sessions[i].status,
        ) || old(waku).tasks.selected_session != Some(edit.session_id)) implies r is Err && r->Err_0
        == RewindRefusal::SelectFirst by {
        first_task_is_found(sessions, i);
    }
}

/// Where a task could not be taken back after all, it is as it was: its messages and its status are those from
/// before, it is no longer made ready, and the user goes on editing.
pub proof fn a_failed_rewind_is_undone(
    waku: &mut Waku,
    i: int,
    t: int,
    m: int,
    edit: MessageEdit,
    submission: &ComposerSubmission,
    now: u64,
    begun: Result<RewindStart, RewindRefusal>,
    later: &mut Waku,
    error: String,
    r: RewindAction,
)
    requires
        stands_first(old(waku).tasks.sessions@, i),
        told_apart(old(waku).tasks.sessions@[i]),
        users_message(old(waku).tasks.sessions@[i], t, m),
        at_rest(old(waku).tasks.sessions@[i].status),
        old(waku).tasks.selected_session == Some(old(waku).tasks.sessions@[i].id),
        edit.session_id == old(waku).tasks.sessions@[i].id,
        edit.message_id == old(waku).tasks.sessions@[i].messages@[m].id,
        edit.turn_count == old(waku).tasks.sessions@[i].turns@[t].turn_count,
        call_ensures(Waku::start_message_rewind, (waku, &edit, submission, now), begun),
        *old(later) == *final(waku),
        call_ensures(
            Waku::fail_message_rewind,
            (later, edit, (begun->Ok_0).original, (begun->Ok_0).previous_status, error),
            r,
        ),
    ensures
        r == (RewindAction::Failed { error, message_index: Some(m as usize) }),
        only_task_changed(old(waku).tasks.sessions@, final(later).tasks.sessions@, i),
        final(later).tasks.sessions@[i].messages@ == old(waku).tasks.sessions@[i].messages@,
        final(later).tasks.sessions@[i].status == old(waku).tasks.sessions@[i].status,
        final(later).tasks.sessions@[i].turns == old(waku).tasks.sessions@[i].turns,
        final(later).message_edit == Some(edit),
        !final(later).submission_preparations@.contains(edit.session_id),
{
    a_task_is_taken_back_to_a_message(waku, i, t, m, &edit, submission, now, begun);
    let sessions = old(waku).tasks.sessions@;
    let during = final(waku).tasks.sessions@;
    let before = sessions[i];
    assert(stands_first(during, i)) by {
        assert forall|k: int| 0 <= k < i implies (#[trigger] during[k]).id != during[i].id by {
            assert(during[k] == sessions[k]);
        }
    }
    first_task_is_found(during, i);
    let after = final(later).tasks.task(edit.session_id);
    assert(final(later).tasks.sessions@ == during.update(i, after));
    assert(final(later).tasks.sessions@[i] == after);
    message_is_found(during[i].messages@, edit.message_id, 0);
    let s = message_position(during[i].messages@, edit.message_id, 0);
    assert(during[i].messages@[m].id == edit.message_id);
    assert(s <= m);
    if s < m {
        assert(during[i].messages@[s] == before.messages@[s]);
        assert(before.messages@[s].id != before.messages@[m].id);
    }
    assert(restored(
        during[i],
        after,
        edit.message_id,
        (begun->Ok_0).original,
        (begun->Ok_0).previous_status,
    ));
    assert(after.messages@ =~= before.messages@);
    assert forall|k: int| 0 <= k < sessions.len() && k != i implies #[trigger] final(later).tasks.sessions@[k] == sessions[k] by {
        assert(during[k] == sessions[k]);
    }
}

/// A task that was taken back is the one that was made of it; its agent is let go, the edit is over, and the
/// submission begins a turn. No other task and no other agent changes.
pub proof fn a_rewound_task_begins_again(
    waku: &mut Waku,
    i: int,
    turn: usize,
    session: AgentSession,
    cleanup_error: Option<String>,
    r: RewindAction,
)
    requires
        stands_first(old(waku).tasks.sessions@, i),
        old(waku).submission_preparations@.contains(old(waku).tasks.sessions@[i].id),
        call_ensures(
            Waku::finish_message_rewind,
            (waku, old(waku).tasks.sessions@[i].id, turn, session, cleanup_error),
            r,
        ),
    ensures
        r is Resubmit,
        r->warning == cleanup_error,
        r->told is Some <==> old(waku).tasks.selected_session == Some(
            old(waku).tasks.sessions@[i].id,
        ),
        only_task_changed(old(waku).tasks.sessions@, final(waku).tasks.sessions@, i),
        final(waku).tasks.sessions@[i] == session,
        !final(waku).runtimes@.contains_key(old(waku).tasks.sessions@[i].id),
        forall|k: u128|
            k != old(waku).tasks.sessions@[i].id && #[trigger] old(waku).runtimes@.contains_key(k)
                ==> final(waku).runtimes@.contains_key(k) && final(waku).runtimes@[k] == old(
                waku,
            ).runtimes@[k],
        final(waku).message_edit is None,
        !final(waku).submission_preparations@.contains(old(waku).tasks.sessions@[i].id),
{
    first_task_is_found(old(waku).tasks.sessions@, i);
}

} // verus!
