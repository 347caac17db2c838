//! Going back: forking a task from one of its responses, and sending a message of the past once more.
use crate::composer::attachments::{submission, submission_with_attachments};
use crate::label::{opt_label, Label, LabelView};
use crate::protocol::{MessageRole, SessionStatus};
use crate::runtime::checkpoints::{find_turn, turn_position};
use crate::runtime::state::{place_stays, MessageEdit, Waku};
use crate::runtime::sync::TaskState;
use crate::session::{
    copy_attachments, find_session, visible_text, AgentSession, ComposerSubmission, Message,
    SubmissionView, Turn,
};
use crate::text::{copy_opt_text, decimal, decimal_text, opt_view};
use vstd::prelude::*;

verus! {

broadcast use vstd::std_specs::hash::group_hash_axioms;

/// Tells whether a task rests: it is not at work, and nothing is under way for it.
pub open spec fn rests(status: SessionStatus) -> bool {
    status == SessionStatus::Idle || status == SessionStatus::Failed
}

fn is_resting(status: SessionStatus) -> (r: bool)
    ensures
        r == rests(status),
{
    match status {
        SessionStatus::Idle => true,
        SessionStatus::Failed => true,
        _ => false,
    }
}

// ---------------------------------------------------------------------------
// Forking
// ---------------------------------------------------------------------------
/// Why a response cannot be forked.
#[derive(Clone, Copy, Debug, PartialEq, Eq, Structural)]
pub enum ForkRefusal {
    /// Not now.
    CannotFork,
    /// The task is gone.
    Unavailable,
}

impl ForkRefusal {
    /// What the user is told of it.
    pub fn label(self) -> (r: Label)
        ensures
            r@ == (match self {
                ForkRefusal::CannotFork => LabelView::Message("session.response_cannot_fork"@),
                ForkRefusal::Unavailable => LabelView::Message("session.response_unavailable"@),
            }),
    {
        match self {
            ForkRefusal::CannotFork => Label::Message("session.response_cannot_fork"),
            ForkRefusal::Unavailable => Label::Message("session.response_unavailable"),
        }
    }
}

/// Tells whether the turns of a task are numbered from one up to a turn, as far as that turn goes.
pub open spec fn stands_as_numbered(turns: Seq<Turn>, turn: usize) -> bool {
    let at = if turn == 0 {
        0
    } else {
        turn - 1
    };
    at < turns.len() && turns[at].turn_count == turn
}

/// Why a response of a task cannot be forked, if it cannot: the task has to be shown and at rest, and
/// nothing may be under way for it.
pub open spec fn fork_refusal(waku: Waku, id: u128, turn: usize) -> Option<ForkRefusal> {
    if waku.response_fork_preparations@.contains_key(id)
        || waku.submission_preparations@.contains(id) {
        Some(ForkRefusal::CannotFork)
    } else if !waku.tasks.lists(id) {
        Some(ForkRefusal::Unavailable)
    } else if waku.tasks.selected_session != Some(id) || !rests(waku.tasks.task(id).status)
        || !stands_as_numbered(waku.tasks.task(id).turns@, turn) {
        Some(ForkRefusal::CannotFork)
    } else {
        None
    }
}

/// What came of forking a task.
#[derive(Debug)]
pub enum ForkResult {
    /// The new task, and what went wrong with its checkpoints.
    Forked { session: AgentSession, checkpoint_warning: Option<String> },
    Failed(String),
}

/// What is done with what came of forking a task.
#[derive(Debug)]
pub enum ForkAction {
    /// Nothing: it was not asked for, or no longer.
    Dropped,
    /// The new task is shown, and the user is told.
    Show { session_id: u128, told: Label },
    /// The user is told that it failed.
    Failed(String),
}

impl Waku {
    /// Begins to fork a task from one of its responses, or says why not.
    pub fn fork_session_from_response(&mut self, id: u128, turn: usize) -> (r: Result<(), ForkRefusal>)
        ensures
            *final(self) == (Waku {
                response_fork_preparations: final(self).response_fork_preparations,
                ..*old(self)
            }),
            match fork_refusal(*old(self), id, turn) {
                Some(why) => r == Err::<(), ForkRefusal>(why)
                    && final(self).response_fork_preparations@ == old(
                    self,
                ).response_fork_preparations@,
                None => r is Ok && final(self).response_fork_preparations@ == old(
                    self,
                ).response_fork_preparations@.insert(id, turn),
            },
    {
        if self.response_fork_preparations.contains_key(&id)
            || self.submission_preparations.contains(&id) {
            return Err(ForkRefusal::CannotFork);
        }
        let allowed = match self.session(id) {
            Some(source) => {
                let shown = match self.tasks.selected_session {
                    Some(s) => s == id,
                    None => false,
                };
                let at: usize = turn.saturating_sub(1);
                shown && is_resting(source.status) && at < source.turns.len()
                    && source.turns[at].turn_count == turn
            },
            None => return Err(ForkRefusal::Unavailable),
        };
        if !allowed {
            return Err(ForkRefusal::CannotFork);
        }
        self.response_fork_preparations.insert(id, turn);
        Ok(())
    }

    /// Takes what came of forking a task. A fork that was not asked for, or no longer, changes nothing.
    pub fn finish_response_fork(&mut self, id: u128, turn: usize, result: ForkResult) -> (r: ForkAction)
        ensures
            *final(self) == (Waku {
                tasks: final(self).tasks,
                response_fork_preparations: final(self).response_fork_preparations,
                ..*old(self)
            }),
            if old(self).response_fork_preparations@.contains_key(id) && old(
                self,
            ).response_fork_preparations@[id] == turn {
                &&& final(self).response_fork_preparations@ == old(
                    self,
                ).response_fork_preparations@.remove(id)
                &&& match result {
                    ForkResult::Forked { session, checkpoint_warning } => {
                        &&& final(self).tasks == (TaskState {
                            sessions: final(self).tasks.sessions,
                            ..old(self).tasks
                        })
                        &&& final(self).tasks.sessions@ == old(self).tasks.sessions@.push(session)
                        &&& r is Show
                        &&& r->session_id == session.id
                        &&& r->told@ == (match checkpoint_warning {
                            Some(error) => LabelView::MessageWith {
                                key: "session.forked_with_checkpoint_warning"@,
                                name: "error"@,
                                value: error@,
                            },
                            None => LabelView::Message("session.forked_from_response"@),
                        })
                    },
                    ForkResult::Failed(error) => final(self).tasks == old(self).tasks && r
                        == ForkAction::Failed(error),
                }
            } else {
                &&& r is Dropped
                &&& *final(self) == *old(self)
            },
    {
        let wanted = match self.response_fork_preparations.get(&id) {
            Some(t) => *t == turn,
            None => false,
        };
        if !wanted {
            return ForkAction::Dropped;
        }
        self.response_fork_preparations.remove(&id);
        match result {
            ForkResult::Forked { session, checkpoint_warning } => {
                let session_id: u128 = session.id;
                self.tasks.sessions.push(session);
                let told = match checkpoint_warning {
                    Some(error) => Label::MessageWith {
                        key: "session.forked_with_checkpoint_warning",
                        name: "error",
                        value: error,
                    },
                    None => Label::Message("session.forked_from_response"),
                };
                ForkAction::Show { session_id, told }
            },
            ForkResult::Failed(error) => ForkAction::Failed(error),
        }
    }
}

// ---------------------------------------------------------------------------
// Editing a message of the past
// ---------------------------------------------------------------------------
/// Tells whether a message is the one that the user wrote under an id in a turn.
pub open spec fn is_users(message: Message, message_id: u128, turn_id: u128) -> bool {
    message.id == message_id && message.turn_id == Some(turn_id) && message.role
        == MessageRole::User
}

/// Where the message that the user wrote stands, from `i` on, or the number of messages.
pub open spec fn users_position(
    messages: Seq<Message>,
    message_id: u128,
    turn_id: u128,
    i: int,
) -> int
    decreases messages.len() - i,
{
    if i < 0 || i >= messages.len() {
        messages.len() as int
    } else if is_users(messages[i], message_id, turn_id) {
        i
    } else {
        users_position(messages, message_id, turn_id, i + 1)
    }
}

fn find_users(messages: &Vec<Message>, message_id: u128, turn_id: u128) -> (at: usize)
    ensures
        at == users_position(messages@, message_id, turn_id, 0),
        at <= messages@.len(),
        at < messages@.len() ==> is_users(messages@[at as int], message_id, turn_id),
{
    let mut i: usize = 0;
    while i < messages.len()
        invariant
            i <= messages@.len(),
            users_position(messages@, message_id, turn_id, 0) == users_position(
                messages@,
                message_id,
                turn_id,
                i as int,
            ),
        decreases messages@.len() - i,
    {
        let m = &messages[i];
        let in_turn = match m.turn_id {
            Some(t) => t == turn_id,
            None => false,
        };
        if m.id == message_id && in_turn && m.role == MessageRole::User {
            return i;
        }
        i = i + 1;
    }
    i
}

/// Where the message that the user wrote in a turn of a task stands, if it is there.
pub open spec fn message_place(task: AgentSession, message_id: u128, turn: usize) -> Option<int> {
    let t = turn_position(task.turns@, turn, 0);
    if t >= task.turns@.len() {
        None
    } else {
        let at = users_position(task.messages@, message_id, task.turns@[t].id, 0);
        if at < task.messages@.len() {
            Some(at)
        } else {
            None
        }
    }
}

fn find_message_place(task: &AgentSession, message_id: u128, turn: usize) -> (r: Option<usize>)
    ensures
        match r {
            Some(at) => message_place(*task, message_id, turn) == Some(at as int) && at
                < task.messages@.len(),
            None => message_place(*task, message_id, turn) is None,
        },
{
    let t: usize = find_turn(&task.turns, turn);
    if t >= task.turns.len() {
        return None;
    }
    let at: usize = find_users(&task.messages, message_id, task.turns[t].id);
    if at < task.messages.len() {
        Some(at)
    } else {
        None
    }
}

/// A message that the user is about to edit: where it stands, and the text that the field holds.
#[derive(Debug)]
pub struct EditStart {
    pub message_index: usize,
    pub text: String,
}

/// What is done when the user leaves an edit.
#[derive(Clone, Copy, Debug, PartialEq, Eq, Structural)]
pub enum EditCancel {
    /// Nothing: there is none, or it is on its way.
    Nothing,
    /// It is over. The message stands here in the task that is shown, if it does.
    Cancelled { message_index: Option<usize> },
}

/// What becomes of an edit that the user sends.
#[derive(Debug)]
pub enum EditSubmit {
    /// Nothing: there is none, or it is on its way.
    Ignored,
    /// There is nothing in it. The user is told.
    Empty,
    /// It is sent.
    Send(ComposerSubmission),
}

/// Where the first message with an id stands, from `i` on, or the number of messages.
pub open spec fn message_position(messages: Seq<Message>, message_id: u128, i: int) -> int
    decreases messages.len() - i,
{
    if i < 0 || i >= messages.len() {
        messages.len() as int
    } else if messages[i].id == message_id {
        i
    } else {
        message_position(messages, message_id, i + 1)
    }
}

fn find_message(messages: &Vec<Message>, message_id: u128) -> (at: usize)
    ensures
        at == message_position(messages@, message_id, 0),
        at <= messages@.len(),
{
    let mut i: usize = 0;
    while i < messages.len()
        invariant
            i <= messages@.len(),
            message_position(messages@, message_id, 0) == message_position(
                messages@,
                message_id,
                i as int,
            ),
        decreases messages@.len() - i,
    {
        if messages[i].id == message_id {
            return i;
        }
        i = i + 1;
    }
    i
}

/// A number as a position, if it is one.
pub open spec fn as_index(at: int, len: nat) -> Option<usize> {
    if 0 <= at < len {
        Some(at as usize)
    } else {
        None
    }
}

impl Waku {
    /// Begins to edit a message that the user wrote, where the task is at rest. `None` where it cannot
    /// be edited.
    pub fn begin_message_edit(&mut self, id: u128, message_id: u128, turn: usize) -> (r: Option<
        EditStart,
    >)
        ensures
            *final(self) == (Waku { message_edit: final(self).message_edit, ..*old(self) }),
            ({
                let task = old(self).tasks.task(id);
                let place = message_place(task, message_id, turn);
                if old(self).tasks.lists(id) && rests(task.status) && place is Some {
                    let message = task.messages@[place->0];
                    &&& r is Some
                    &&& r->0.message_index == place->0
                    &&& r->0.text@ == visible_text(
                        message.content@,
                        opt_view(message.display_content),
                    )
                    &&& final(self).message_edit is Some
                    &&& final(self).message_edit->0.session_id == id
                    &&& final(self).message_edit->0.message_id == message_id
                    &&& final(self).message_edit->0.turn_count == turn
                    &&& final(self).message_edit->0.attachments@ == message.attachments@
                } else {
                    &&& r is None
                    &&& final(self).message_edit == old(self).message_edit
                }
            }),
    {
        let (message_index, text, attachments) = match self.session(id) {
            Some(session) => {
                if !is_resting(session.status) {
                    return None;
                }
                match find_message_place(session, message_id, turn) {
                    Some(at) => (
                        at,
                        session.messages[at].visible_content().to_string(),
                        copy_attachments(&session.messages[at].attachments),
                    ),
                    None => return None,
                }
            },
            None => return None,
        };
        self.message_edit = Some(
            MessageEdit { session_id: id, message_id, turn_count: turn, attachments },
        );
        Some(EditStart { message_index, text })
    }

    /// Leaves an edit, unless it is on its way.
    pub fn cancel_message_edit(&mut self) -> (r: EditCancel)
        ensures
            *final(self) == (Waku { message_edit: final(self).message_edit, ..*old(self) }),
            match old(self).message_edit {
                Some(edit) => if old(self).submission_preparations@.contains(edit.session_id) {
                    r == EditCancel::Nothing && final(self).message_edit == old(self).message_edit
                } else {
                    &&& final(self).message_edit is None
                    &&& r == (EditCancel::Cancelled {
                        message_index: if old(self).tasks.selected_session is Some && old(
                            self,
                        ).tasks.lists(old(self).tasks.selected_session->0) {
                            let messages = old(self).tasks.task(
                                old(self).tasks.selected_session->0,
                            ).messages@;
                            as_index(
                                message_position(messages, edit.message_id, 0),
                                messages.len(),
                            )
                        } else {
                            None
                        },
                    })
                },
                None => r == EditCancel::Nothing && final(self).message_edit is None,
            },
    {
        let message_id: u128 = match &self.message_edit {
            Some(edit) => {
                if self.submission_preparations.contains(&edit.session_id) {
                    return EditCancel::Nothing;
                }
                edit.message_id
            },
            None => return EditCancel::Nothing,
        };
        self.message_edit = None;
        let message_index: Option<usize> = match self.selected_session() {
            Some(session) => {
                let at: usize = find_message(&session.messages, message_id);
                if at < session.messages.len() {
                    Some(at)
                } else {
                    None
                }
            },
            None => None,
        };
        EditCancel::Cancelled { message_index }
    }

    /// What is sent of an edit: its text, with the files that went with the message.
    pub fn submit_message_edit_prompt(&self, prompt: &str) -> (r: EditSubmit)
        ensures
            match self.message_edit {
                Some(edit) => if self.submission_preparations@.contains(edit.session_id) {
                    r is Ignored
                } else {
                    match submission(prompt@, edit.attachments@) {
                        Some(s) => r is Send && r->Send_0@ == s,
                        None => r is Empty,
                    }
                },
                None => r is Ignored,
            },
    {
        match &self.message_edit {
            Some(edit) => {
                if self.submission_preparations.contains(&edit.session_id) {
                    return EditSubmit::Ignored;
                }
                let mut files = copy_attachments(&edit.attachments);
                match submission_with_attachments(prompt, &mut files) {
                    Some(s) => EditSubmit::Send(s),
                    None => EditSubmit::Empty,
                }
            },
            None => EditSubmit::Ignored,
        }
    }
}

// ---------------------------------------------------------------------------
// Rewinding
// ---------------------------------------------------------------------------
/// Why a task cannot be taken back to a message.
#[derive(Clone, Copy, Debug, PartialEq, Eq, Structural)]
pub enum RewindRefusal {
    /// The task or the message is gone.
    Unavailable,
    /// The task has to be shown and at rest.
    SelectFirst,
}

impl RewindRefusal {
    /// What the user is told of it.
    pub fn label(self) -> (r: Label)
        ensures
            r@ == (match self {
                RewindRefusal::Unavailable => LabelView::Message("session.message_unavailable"@),
                RewindRefusal::SelectFirst => LabelView::Message("session.select_before_rewind"@),
            }),
    {
        match self {
            RewindRefusal::Unavailable => Label::Message("session.message_unavailable"),
            RewindRefusal::SelectFirst => Label::Message("session.select_before_rewind"),
        }
    }
}

/// Why a task cannot be taken back to a message, if it cannot.
pub open spec fn rewind_refusal(waku: Waku, edit: MessageEdit) -> Option<RewindRefusal> {
    let id = edit.session_id;
    let task = waku.tasks.task(id);
    if !waku.tasks.lists(id) {
        Some(RewindRefusal::Unavailable)
    } else if waku.tasks.selected_session != Some(id) || !rests(task.status) || turn_position(
        task.turns@,
        edit.turn_count,
        0,
    ) >= task.turns@.len() {
        Some(RewindRefusal::SelectFirst)
    } else if message_place(task, edit.message_id, edit.turn_count) is None {
        Some(RewindRefusal::Unavailable)
    } else {
        None
    }
}

/// A task that is being taken back to a message.
#[derive(Debug)]
pub struct RewindStart {
    /// Where the message stands.
    pub message_index: usize,
    /// The message as it was.
    pub original: Message,
    pub previous_status: SessionStatus,
}

/// Tells whether a message is another one that says what a submission does.
pub open spec fn says(before: Message, after: Message, s: SubmissionView) -> bool {
    &&& after == (Message {
        content: after.content,
        display_content: after.display_content,
        attachments: after.attachments,
        ..before
    })
    &&& after.content@ == s.prompt
    &&& opt_view(after.display_content) == s.display_content
    &&& after.attachments@ == s.attachments
}

/// Tells whether a task is another one with one of its messages replaced and that is made ready.
pub open spec fn being_rewound(
    before: AgentSession,
    after: AgentSession,
    at: int,
    message: Message,
    now: u64,
) -> bool {
    &&& after == (AgentSession {
        messages: after.messages,
        status: SessionStatus::Connecting,
        updated_at: now,
        ..before
    })
    &&& after.messages@ == before.messages@.update(at, message)
}

/// Tells whether a task was begun to be taken back to a message, as it should be.
pub open spec fn rewind_begun(
    before: Waku,
    after: Waku,
    edit: MessageEdit,
    s: SubmissionView,
    now: u64,
    r: RewindStart,
) -> bool {
    let id = edit.session_id;
    let task = before.tasks.task(id);
    let at = message_position(task.messages@, edit.message_id, 0);
    &&& Some(r.message_index as int) == message_place(task, edit.message_id, edit.turn_count)
    &&& r.original == task.messages@[at]
    &&& r.previous_status == task.status
    &&& before.tasks.with_task(id, after.tasks.task(id), after.tasks)
    &&& after.tasks.task(id).messages@.len() == task.messages@.len()
    &&& being_rewound(task, after.tasks.task(id), at, after.tasks.task(id).messages@[at], now)
    &&& says(task.messages@[at], after.tasks.task(id).messages@[at], s)
    &&& after.message_edit is None
    &&& after.submission_preparations@ == before.submission_preparations@.insert(id)
}

proof fn users_message_is_found(messages: Seq<Message>, message_id: u128, turn_id: u128, i: int)
    requires
        0 <= i,
        users_position(messages, message_id, turn_id, i) < messages.len(),
    ensures
        i <= message_position(messages, message_id, i) < messages.len(),
        messages[message_position(messages, message_id, i)].id == message_id,
    decreases messages.len() - i,
{
    if i < messages.len() && messages[i].id != message_id {
        users_message_is_found(messages, message_id, turn_id, i + 1);
    }
}

impl Waku {
    /// Begins to take a task back to a message that the user edited: the message says what was sent, and
    /// the task is made ready. Or says why not.
    pub fn start_message_rewind(
        &mut self,
        edit: &MessageEdit,
        submission: &ComposerSubmission,
        now: u64,
    ) -> (r: Result<RewindStart, RewindRefusal>)
        ensures
            match rewind_refusal(*old(self), *edit) {
                Some(why) => r is Err && r->Err_0 == why && *final(self) == *old(self),
                None => {
                    &&& r is Ok
                    &&& *final(self) == (Waku {
                        tasks: final(self).tasks,
                        message_edit: final(self).message_edit,
                        submission_preparations: final(self).submission_preparations,
                        ..*old(self)
                    })
                    &&& rewind_begun(*old(self), *final(self), *edit, submission@, now, r->Ok_0)
                },
            },
    {
        let id: u128 = edit.session_id;
        let place: usize = find_session(&self.tasks.sessions, id);
        if place >= self.tasks.sessions.len() {
            return Err(RewindRefusal::Unavailable);
        }
        let shown = match self.tasks.selected_session {
            Some(s) => s == id,
            None => false,
        };
        if !shown || !is_resting(self.tasks.sessions[place].status) || find_turn(
            &self.tasks.sessions[place].turns,
            edit.turn_count,
        ) >= self.tasks.sessions[place].turns.len() {
            return Err(RewindRefusal::SelectFirst);
        }
        let message_index: usize = match find_message_place(
            &self.tasks.sessions[place],
            edit.message_id,
            edit.turn_count,
        ) {
            Some(at) => at,
            None => return Err(RewindRefusal::Unavailable),
        };
        let ghost tasks = self.tasks.sessions@;
        let mut session = self.tasks.sessions.remove(place);
        let ghost before = session;
        let at: usize = find_message(&session.messages, edit.message_id);
        proof {
            let t = turn_position(before.turns@, edit.turn_count, 0);
            users_message_is_found(before.messages@, edit.message_id, before.turns@[t].id, 0);
        }
        let original = session.messages.remove(at);
        let message = Message {
            id: original.id,
            turn_id: original.turn_id,
            role: original.role,
            content: submission.prompt.clone(),
            display_content: copy_opt_text(&submission.display_content),
            attachments: copy_attachments(&submission.attachments),
            streaming: original.streaming,
        };
        session.messages.insert(at, message);
        assert(session.messages@ =~= before.messages@.update(at as int, message));
        let previous_status = session.status;
        session.status = SessionStatus::Connecting;
        session.updated_at = now;
        self.tasks.sessions.insert(place, session);
        proof {
            assert(self.tasks.sessions@ =~= tasks.update(place as int, session));
            place_stays(tasks, id, session, 0);
        }
        self.message_edit = None;
        self.submission_preparations.insert(id);
        Ok(RewindStart { message_index, original, previous_status })
    }
}

/// What is done with what came of taking a task back to a message.
#[derive(Debug)]
pub enum RewindAction {
    /// Nothing: it was not asked for, or no longer.
    Dropped,
    /// The user is told that it failed. The message stands here in the task that is shown.
    Failed { error: String, message_index: Option<usize> },
    /// The agent of the task is let go, the user is told, where the task is shown, and the submission
    /// begins a turn.
    Resubmit { told: Option<Label>, turn_text: String, warning: Option<String> },
}

/// Tells whether a task is another one whose message is as it was, and that is no longer made ready.
pub open spec fn restored(
    before: AgentSession,
    after: AgentSession,
    message_id: u128,
    original: Message,
    previous: SessionStatus,
) -> bool {
    let at = message_position(before.messages@, message_id, 0);
    &&& after == (AgentSession {
        messages: after.messages,
        status: if before.status == SessionStatus::Connecting {
            previous
        } else {
            before.status
        },
        ..before
    })
    &&& after.messages@ == (if at < before.messages@.len() {
        before.messages@.update(at, original)
    } else {
        before.messages@
    })
}

impl Waku {
    /// Takes it that a task could not be taken back to a message: everything is as it was before, and the
    /// edit goes on, where the task is shown.
    pub fn fail_message_rewind(
        &mut self,
        edit: MessageEdit,
        original: Message,
        previous_status: SessionStatus,
        error: String,
    ) -> (r: RewindAction)
        ensures
            *final(self) == (Waku {
                tasks: final(self).tasks,
                message_edit: final(self).message_edit,
                submission_preparations: final(self).submission_preparations,
                ..*old(self)
            }),
            final(self).submission_preparations@ == old(self).submission_preparations@.remove(
                edit.session_id,
            ),
            ({
                let id = edit.session_id;
                let shown = old(self).tasks.selected_session == Some(id);
                if old(self).submission_preparations@.contains(id) {
                    &&& if old(self).tasks.lists(id) {
                        &&& old(self).tasks.with_task(id, final(self).tasks.task(id), final(self).tasks)
                        &&& restored(
                            old(self).tasks.task(id),
                            final(self).tasks.task(id),
                            edit.message_id,
                            original,
                            previous_status,
                        )
                    } else {
                        final(self).tasks == old(self).tasks
                    }
                    &&& final(self).message_edit == (if shown && old(self).message_edit is None {
                        Some(edit)
                    } else {
                        old(self).message_edit
                    })
                    &&& r == (RewindAction::Failed {
                        error,
                        message_index: if shown && old(self).tasks.lists(id) {
                            let messages = old(self).tasks.task(id).messages@;
                            as_index(
                                message_position(messages, edit.message_id, 0),
                                messages.len(),
                            )
                        } else {
                            None
                        },
                    })
                } else {
                    &&& r is Dropped
                    &&& final(self).tasks == old(self).tasks
                    &&& final(self).message_edit == old(self).message_edit
                }
            }),
    {
        let id: u128 = edit.session_id;
        let wanted = self.submission_preparations.contains(&id);
        self.submission_preparations.remove(&id);
        assert(self.submission_preparations@ =~= old(self).submission_preparations@.remove(id));
        if !wanted {
            return RewindAction::Dropped;
        }
        let shown = match self.tasks.selected_session {
            Some(s) => s == id,
            None => false,
        };
        let mut message_index: Option<usize> = None;
        let place: usize = find_session(&self.tasks.sessions, id);
        if place < self.tasks.sessions.len() {
            let ghost tasks = self.tasks.sessions@;
            let mut session = self.tasks.sessions.remove(place);
            let ghost before = session;
            let at: usize = find_message(&session.messages, edit.message_id);
            if at < session.messages.len() {
                session.messages.set(at, original);
                if shown {
                    message_index = Some(at);
                }
            }
            if session.status == SessionStatus::Connecting {
                session.status = previous_status;
            }
            self.tasks.sessions.insert(place, session);
            proof {
                assert(self.tasks.sessions@ =~= tasks.update(place as int, session));
                place_stays(tasks, id, session, 0);
            }
        }
        if shown && self.message_edit.is_none() {
            self.message_edit = Some(edit);
        }
        RewindAction::Failed { error, message_index }
    }

    /// Takes a task that was taken back to a message. Its agent is let go, and the submission is to begin
    /// a turn.
    pub fn finish_message_rewind(
        &mut self,
        id: u128,
        turn: usize,
        session: AgentSession,
        cleanup_error: Option<String>,
    ) -> (r: RewindAction)
        ensures
            *final(self) == (Waku {
                tasks: final(self).tasks,
                runtimes: final(self).runtimes,
                message_edit: final(self).message_edit,
                submission_preparations: final(self).submission_preparations,
                ..*old(self)
            }),
            final(self).submission_preparations@ == old(self).submission_preparations@.remove(id),
            if old(self).submission_preparations@.contains(id) {
                &&& final(self).runtimes@ == old(self).runtimes@.remove(id)
                &&& final(self).message_edit is None
                &&& if old(self).tasks.lists(id) {
                    old(self).tasks.with_task(id, session, final(self).tasks)
                } else {
                    final(self).tasks == old(self).tasks
                }
                &&& r is Resubmit
                &&& r->turn_text@ == decimal(turn as nat)
                &&& r->warning == cleanup_error
                &&& opt_label(r->told) == (if old(self).tasks.selected_session == Some(
                    id,
                ) {
                    Some(
                        LabelView::MessageWith {
                            key: if cleanup_error is None {
                                "session.rewound"@
                            } else {
                                "session.rewound_with_stale_refs"@
                            },
                            name: "turn"@,
                            value: decimal(turn as nat),
                        },
                    )
                } else {
                    None
                })
            } else {
                &&& r is Dropped
                &&& final(self).tasks == old(self).tasks
                &&& final(self).runtimes == old(self).runtimes
                &&& final(self).message_edit == old(self).message_edit
            },
    {
        let wanted = self.submission_preparations.contains(&id);
        self.submission_preparations.remove(&id);
        assert(self.submission_preparations@ =~= old(self).submission_preparations@.remove(id));
        if !wanted {
            return RewindAction::Dropped;
        }
        self.runtimes.remove(&id);
        let place: usize = find_session(&self.tasks.sessions, id);
        if place < self.tasks.sessions.len() {
            self.tasks.sessions.set(place, session);
        }
        self.message_edit = None;
        let shown = match self.tasks.selected_session {
            Some(s) => s == id,
            None => false,
        };
        let turn_text = decimal_text(turn as u64);
        let told = if shown {
            let key = match &cleanup_error {
                None => "session.rewound",
                Some(_) => "session.rewound_with_stale_refs",
            };
            Some(Label::MessageWith { key, name: "turn", value: turn_text.clone() })
        } else {
            None
        };
        RewindAction::Resubmit { told, turn_text, warning: cleanup_error }
    }
}

// ---------------------------------------------------------------------------
// Laws
// ---------------------------------------------------------------------------
proof fn position_after_update(messages: Seq<Message>, message_id: u128, m: Message, i: int)
    requires
        0 <= i <= message_position(messages, message_id, 0) < messages.len(),
        message_position(messages, message_id, 0) == message_position(messages, message_id, i),
        m.id == message_id,
    ensures
        message_position(
            messages.update(message_position(messages, message_id, 0), m),
            message_id,
            i,
        ) == message_position(messages, message_id, 0),
    decreases messages.len() - i,
{
    if i < message_position(messages, message_id, 0) {
        position_after_update(messages, message_id, m, i + 1);
    }
}

/// Where a task could not be taken back to a message, its messages and its status are what they were
/// before that was begun.
pub proof fn a_failed_rewind_changes_nothing(
    before: AgentSession,
    during: AgentSession,
    after: AgentSession,
    message_id: u128,
    edited: Message,
    now: u64,
)
    requires
        0 <= message_position(before.messages@, message_id, 0) < before.messages@.len(),
        edited.id == message_id,
        being_rewound(
            before,
            during,
            message_position(before.messages@, message_id, 0),
            edited,
            now,
        ),
        restored(
            during,
            after,
            message_id,
            before.messages@[message_position(before.messages@, message_id, 0)],
            before.status,
        ),
    ensures
        after.messages@ == before.messages@,
        after.status == before.status,
        after.turns == before.turns,
        after.queued_messages == before.queued_messages,
{
    let at = message_position(before.messages@, message_id, 0);
    position_after_update(before.messages@, message_id, edited, 0);
    assert(before.messages@.update(at, edited).update(at, before.messages@[at])
        =~= before.messages@);
}

/// A task cannot be forked twice at a time, nor while a prompt is made ready for it.
pub proof fn one_fork_at_a_time(waku: Waku, id: u128, turn: usize)
    requires
        waku.response_fork_preparations@.contains_key(id)
            || waku.submission_preparations@.contains(id),
    ensures
        fork_refusal(waku, id, turn) is Some,
{
}

} // verus!
