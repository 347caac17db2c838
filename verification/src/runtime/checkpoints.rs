//! Checkpoints: the state of a task's files behind each of its turns. Making one takes long, so they are
//! listed here and made elsewhere.
use crate::runtime::state::{place_stays, PendingCheckpointCapture, Waku};
use crate::session::{find_session, AgentSession, Checkpoint, CheckpointStatus, Turn, TurnStatus};
use vstd::prelude::*;

verus! {

// ---------------------------------------------------------------------------
// What is under way
// ---------------------------------------------------------------------------
/// Tells whether a checkpoint is listed to be made.
pub open spec fn listed(captures: Seq<PendingCheckpointCapture>, id: u128, turn: usize) -> bool {
    exists|i: int|
        0 <= i < captures.len() && (#[trigger] captures[i]).session_id == id
            && captures[i].turn_count == turn
}

/// Tells whether a checkpoint is being made, or is listed to be.
pub open spec fn capture_under_way(waku: Waku, id: u128, turn: usize) -> bool {
    waku.checkpoint_captures_in_flight@.contains((id, turn)) || listed(
        waku.pending_checkpoint_captures@,
        id,
        turn,
    )
}

/// The number of the last turn of a task, where it is over.
pub open spec fn finished_turn(waku: Waku, id: u128) -> Option<usize> {
    if waku.tasks.lists(id) {
        let turns = waku.tasks.task(id).turns@;
        if turns.len() > 0 && turns.last().status != TurnStatus::Running {
            Some(turns.last().turn_count)
        } else {
            None
        }
    } else {
        None
    }
}

/// Tells whether the checkpoint behind the last turn of a task is still to come.
pub open spec fn ending_under_way(waku: Waku, id: u128) -> bool {
    finished_turn(waku, id) is Some && capture_under_way(waku, id, finished_turn(waku, id)->0)
}

fn in_flight(list: &Vec<(u128, usize)>, id: u128, turn: usize) -> (r: bool)
    ensures
        r == list@.contains((id, turn)),
{
    for i in 0..list.len()
        invariant
            forall|k: int| 0 <= k < i ==> list@[k] != (id, turn),
    {
        if list[i].0 == id && list[i].1 == turn {
            assert(list@[i as int] == (id, turn));
            return true;
        }
    }
    false
}

fn finished_turn_of(session: &AgentSession) -> (r: Option<usize>)
    ensures
        r == (if session.turns@.len() > 0 && session.turns@.last().status != TurnStatus::Running {
            Some(session.turns@.last().turn_count)
        } else {
            None
        }),
{
    let n: usize = session.turns.len();
    if n > 0 && session.turns[n - 1].status != TurnStatus::Running {
        Some(session.turns[n - 1].turn_count)
    } else {
        None
    }
}

/// Tells whether a list is that of the checkpoints to be made with the one behind the last turn of a task in
/// it: it is added where the turn is over, the checkpoint is not under way and the task's directory is known.
pub open spec fn latest_listed(
    waku: Waku,
    id: u128,
    after: Seq<PendingCheckpointCapture>,
) -> bool {
    let before = waku.pending_checkpoint_captures@;
    let turn = finished_turn(waku, id);
    let path = waku.tasks.workspace_path(waku.tasks.task(id));
    if turn is Some && !capture_under_way(waku, id, turn->0) && path is Some {
        &&& after.len() == before.len() + 1
        &&& after.drop_last() == before
        &&& after.last().session_id == id
        &&& after.last().turn_count == turn->0
        &&& after.last().project_path@ == path->0
    } else {
        after == before
    }
}

impl Waku {
    /// Tells whether a checkpoint is being made, or is listed to be.
    pub fn checkpoint_capture_pending(&self, id: u128, turn: usize) -> (r: bool)
        ensures
            r == capture_under_way(*self, id, turn),
    {
        if in_flight(&self.checkpoint_captures_in_flight, id, turn) {
            return true;
        }
        for i in 0..self.pending_checkpoint_captures.len()
            invariant
                forall|k: int|
                    0 <= k < i ==> !((#[trigger] self.pending_checkpoint_captures@[k]).session_id
                        == id && self.pending_checkpoint_captures@[k].turn_count == turn),
        {
            if self.pending_checkpoint_captures[i].session_id == id
                && self.pending_checkpoint_captures[i].turn_count == turn {
                assert(self.pending_checkpoint_captures@[i as int].session_id == id);
                return true;
            }
        }
        false
    }

    /// Tells whether the checkpoint behind the last turn of a task is still to come.
    pub fn ending_checkpoint_pending(&self, id: u128) -> (r: bool)
        ensures
            r == ending_under_way(*self, id),
    {
        match self.session(id) {
            Some(session) => match finished_turn_of(session) {
                Some(turn) => self.checkpoint_capture_pending(id, turn),
                None => false,
            },
            None => false,
        }
    }

    /// Notes that the queue of a task is to go on later.
    pub fn defer_queue_drain(&mut self, id: u128)
        ensures
            *final(self) == (Waku {
                pending_queue_drains: final(self).pending_queue_drains,
                ..*old(self)
            }),
            final(self).pending_queue_drains@ == (if old(self).pending_queue_drains@.contains(id) {
                old(self).pending_queue_drains@
            } else {
                old(self).pending_queue_drains@.push(id)
            }),
    {
        for i in 0..self.pending_queue_drains.len()
            invariant
                *self == *old(self),
                forall|k: int| 0 <= k < i ==> self.pending_queue_drains@[k] != id,
        {
            if self.pending_queue_drains[i] == id {
                assert(self.pending_queue_drains@.contains(id));
                return;
            }
        }
        self.pending_queue_drains.push(id);
    }

    /// Lists the checkpoint behind the last turn of a task to be made, where the turn is over, the
    /// checkpoint is not under way and the task's directory is known.
    pub fn capture_latest_turn_checkpoint_for(&mut self, id: u128)
        ensures
            *final(self) == (Waku {
                pending_checkpoint_captures: final(self).pending_checkpoint_captures,
                ..*old(self)
            }),
            latest_listed(*old(self), id, final(self).pending_checkpoint_captures@),
    {
        let (turn, path) = match self.session(id) {
            Some(session) => match finished_turn_of(session) {
                Some(turn) => (turn, self.tasks.workspace_path_for_session(session)),
                None => return,
            },
            None => return,
        };
        if self.checkpoint_capture_pending(id, turn) {
            return;
        }
        if let Some(project_path) = path {
            self.pending_checkpoint_captures.push(
                PendingCheckpointCapture { session_id: id, turn_count: turn, project_path },
            );
            assert(self.pending_checkpoint_captures@.drop_last() =~= old(
                self,
            ).pending_checkpoint_captures@);
        }
    }
}

// ---------------------------------------------------------------------------
// Making them
// ---------------------------------------------------------------------------
/// The checkpoints that are made of those that are listed: each turn's but once.
pub open spec fn to_make(
    flying: Seq<(u128, usize)>,
    captures: Seq<PendingCheckpointCapture>,
) -> Seq<PendingCheckpointCapture>
    decreases captures.len(),
{
    if captures.len() == 0 {
        Seq::empty()
    } else {
        let before = to_make(flying, captures.drop_last());
        let c = captures.last();
        if flying_after(flying, captures.drop_last()).contains((c.session_id, c.turn_count)) {
            before
        } else {
            before.push(c)
        }
    }
}

/// The checkpoints that are being made once those that are listed are.
pub open spec fn flying_after(
    flying: Seq<(u128, usize)>,
    captures: Seq<PendingCheckpointCapture>,
) -> Seq<(u128, usize)>
    decreases captures.len(),
{
    if captures.len() == 0 {
        flying
    } else {
        let before = flying_after(flying, captures.drop_last());
        let c = captures.last();
        if before.contains((c.session_id, c.turn_count)) {
            before
        } else {
            before.push((c.session_id, c.turn_count))
        }
    }
}

/// What has come of a checkpoint.
#[derive(Debug)]
pub enum CaptureResult {
    Captured(Checkpoint),
    /// It could not be made. `git_ref` is the name that it would have had.
    Failed { git_ref: String, now: u64 },
}

/// Tells whether a checkpoint stands for one that could not be made.
pub open spec fn is_failed_checkpoint(c: Checkpoint, turn: usize, git_ref: String, now: u64) -> bool {
    c == (Checkpoint {
        turn_count: turn,
        git_ref,
        status: CheckpointStatus::Error,
        files: c.files,
        additions: 0,
        deletions: 0,
        created_at: now,
    }) && c.files@.len() == 0
}

/// Where the first turn with a number stands, from `i` on, or the number of turns.
pub open spec fn turn_position(turns: Seq<Turn>, turn: usize, i: int) -> int
    decreases turns.len() - i,
{
    if i < 0 || i >= turns.len() {
        turns.len() as int
    } else if turns[i].turn_count == turn {
        i
    } else {
        turn_position(turns, turn, i + 1)
    }
}

/// Finds the first turn with a number.
pub fn find_turn(turns: &Vec<Turn>, turn: usize) -> (at: usize)
    ensures
        at == turn_position(turns@, turn, 0),
        at <= turns@.len(),
        at < turns@.len() ==> turns@[at as int].turn_count == turn,
{
    let mut i: usize = 0;
    while i < turns.len()
        invariant
            i <= turns@.len(),
            turn_position(turns@, turn, 0) == turn_position(turns@, turn, i as int),
        decreases turns@.len() - i,
    {
        if turns[i].turn_count == turn {
            return i;
        }
        i = i + 1;
    }
    i
}

/// What is to be done once a checkpoint has come.
#[derive(Clone, Copy, Debug, PartialEq, Eq, Structural)]
pub struct CaptureOutcome {
    /// The turn that the checkpoint went to. It is saved then.
    pub attached_turn: Option<u128>,
    /// The task is shown.
    pub shown: bool,
    /// The queue of the task goes on.
    pub resume_queue: bool,
}

/// A list without an item.
pub open spec fn without<T>(list: Seq<T>, item: T) -> Seq<T>
    decreases list.len(),
{
    if list.len() == 0 {
        list
    } else if list.last() == item {
        without(list.drop_last(), item)
    } else {
        without(list.drop_last(), item).push(list.last())
    }
}

fn remove_flight(list: &mut Vec<(u128, usize)>, id: u128, turn: usize)
    ensures
        final(list)@ == without(old(list)@, (id, turn)),
{
    let ghost all = list@;
    let mut r: Vec<(u128, usize)> = Vec::new();
    assert(all.take(0) =~= Seq::empty());
    for i in 0..list.len()
        invariant
            list@ == all,
            r@ == without(all.take(i as int), (id, turn)),
    {
        assert(all.take(i as int + 1).drop_last() =~= all.take(i as int));
        let pair = list[i];
        if !(pair.0 == id && pair.1 == turn) {
            r.push(pair);
        }
    }
    assert(all.take(all.len() as int) =~= all);
    *list = r;
}

/// Removes an id from a list, and tells whether it was there.
pub fn remove_id(list: &mut Vec<u128>, id: u128) -> (r: bool)
    ensures
        final(list)@ == without(old(list)@, id),
        r == old(list)@.contains(id),
{
    let ghost all = list@;
    let mut rest: Vec<u128> = Vec::new();
    let mut found = false;
    assert(all.take(0) =~= Seq::empty());
    for i in 0..list.len()
        invariant
            list@ == all,
            rest@ == without(all.take(i as int), id),
            found <==> exists|k: int| 0 <= k < i && all[k] == id,
    {
        assert(all.take(i as int + 1).drop_last() =~= all.take(i as int));
        if list[i] == id {
            found = true;
            assert(all[i as int] == id);
        } else {
            rest.push(list[i]);
        }
    }
    assert(all.take(all.len() as int) =~= all);
    *list = rest;
    found
}

/// Tells whether a task is another one with a checkpoint at one of its turns.
pub open spec fn with_checkpoint(
    before: AgentSession,
    after: AgentSession,
    at: int,
    checkpoint: Checkpoint,
) -> bool {
    &&& after == (AgentSession { turns: after.turns, ..before })
    &&& after.turns@ == before.turns@.update(
        at,
        Turn { checkpoint: Some(checkpoint), ..before.turns@[at] },
    )
}

/// Tells whether a checkpoint is what came of making it.
pub open spec fn came_of(result: CaptureResult, turn: usize, c: Checkpoint) -> bool {
    match result {
        CaptureResult::Captured(made) => c == made,
        CaptureResult::Failed { git_ref, now } => is_failed_checkpoint(c, turn, git_ref, now),
    }
}

impl Waku {
    /// The checkpoints that are listed, to be made now: each turn's but once.
    pub fn start_pending_checkpoint_captures(&mut self) -> (r: Vec<PendingCheckpointCapture>)
        ensures
            *final(self) == (Waku {
                pending_checkpoint_captures: final(self).pending_checkpoint_captures,
                checkpoint_captures_in_flight: final(self).checkpoint_captures_in_flight,
                ..*old(self)
            }),
            final(self).pending_checkpoint_captures@.len() == 0,
            final(self).checkpoint_captures_in_flight@ == flying_after(
                old(self).checkpoint_captures_in_flight@,
                old(self).pending_checkpoint_captures@,
            ),
            r@ == to_make(
                old(self).checkpoint_captures_in_flight@,
                old(self).pending_checkpoint_captures@,
            ),
    {
        let ghost flying = self.checkpoint_captures_in_flight@;
        let ghost all = self.pending_checkpoint_captures@;
        let mut requests: Vec<PendingCheckpointCapture> = Vec::new();
        std::mem::swap(&mut requests, &mut self.pending_checkpoint_captures);
        let ghost start = *self;
        let mut r: Vec<PendingCheckpointCapture> = Vec::new();
        assert(all.take(0) =~= Seq::empty());
        for request in it: requests.into_iter()
            invariant
                it.seq() == all,
                *self == (Waku {
                    checkpoint_captures_in_flight: self.checkpoint_captures_in_flight,
                    ..start
                }),
                self.checkpoint_captures_in_flight@ == flying_after(flying, all.take(it.index())),
                r@ == to_make(flying, all.take(it.index())),
        {
            assert(all.take(it.index() + 1).drop_last() =~= all.take(it.index()));
            if !in_flight(
                &self.checkpoint_captures_in_flight,
                request.session_id,
                request.turn_count,
            ) {
                self.checkpoint_captures_in_flight.push((request.session_id, request.turn_count));
                r.push(request);
            }
        }
        assert(all.take(all.len() as int) =~= all);
        r
    }

    /// Takes what has come of a checkpoint. It goes to the turn with its number, where that is still
    /// there, and says what is to be done then.
    pub fn finish_checkpoint_capture(&mut self, id: u128, turn: usize, result: CaptureResult) -> (r:
        CaptureOutcome)
        ensures
            *final(self) == (Waku {
                tasks: final(self).tasks,
                checkpoint_captures_in_flight: final(self).checkpoint_captures_in_flight,
                pending_queue_drains: final(self).pending_queue_drains,
                ..*old(self)
            }),
            final(self).checkpoint_captures_in_flight@ == without(
                old(self).checkpoint_captures_in_flight@,
                (id, turn),
            ),
            final(self).pending_queue_drains@ == without(old(self).pending_queue_drains@, id),
            r.resume_queue == old(self).pending_queue_drains@.contains(id),
            r.shown == (old(self).tasks.selected_session == Some(id)),
            ({
                let task = old(self).tasks.task(id);
                let at = turn_position(task.turns@, turn, 0);
                if old(self).tasks.lists(id) && at < task.turns@.len() {
                    &&& r.attached_turn == Some(task.turns@[at].id)
                    &&& old(self).tasks.with_task(id, final(self).tasks.task(id), final(self).tasks)
                    &&& exists|c: Checkpoint|
                        came_of(result, turn, c) && #[trigger] with_checkpoint(
                            task,
                            final(self).tasks.task(id),
                            at,
                            c,
                        )
                } else {
                    &&& r.attached_turn is None
                    &&& final(self).tasks == old(self).tasks
                }
            }),
    {
        remove_flight(&mut self.checkpoint_captures_in_flight, id, turn);
        let shown = match self.tasks.selected_session {
            Some(s) => s == id,
            None => false,
        };
        let resume_queue = remove_id(&mut self.pending_queue_drains, id);
        let checkpoint = match result {
            CaptureResult::Captured(c) => c,
            CaptureResult::Failed { git_ref, now } => Checkpoint {
                turn_count: turn,
                git_ref,
                status: CheckpointStatus::Error,
                files: Vec::new(),
                additions: 0,
                deletions: 0,
                created_at: now,
            },
        };
        let ghost made = checkpoint;
        assert(came_of(result, turn, made));
        let ghost tasks = self.tasks.sessions@;
        let mut attached_turn: Option<u128> = None;
        let place: usize = find_session(&self.tasks.sessions, id);
        if place < self.tasks.sessions.len() {
            let at: usize = find_turn(&self.tasks.sessions[place].turns, turn);
            if at < self.tasks.sessions[place].turns.len() {
                let mut session = self.tasks.sessions.remove(place);
                let ghost before = session;
                let mut t = session.turns.remove(at);
                attached_turn = Some(t.id);
                t.checkpoint = Some(checkpoint);
                session.turns.insert(at, t);
                assert(session.turns@ =~= before.turns@.update(at as int, t));
                assert(with_checkpoint(before, session, at as int, made));
                self.tasks.sessions.insert(place, session);
                proof {
                    assert(self.tasks.sessions@ =~= tasks.update(place as int, session));
                    place_stays(tasks, id, session, 0);
                }
            }
        }
        CaptureOutcome { attached_turn, shown, resume_queue }
    }
}

// ---------------------------------------------------------------------------
// What is told of a turn
// ---------------------------------------------------------------------------
/// How a turn ended.
#[derive(Clone, Copy, Debug, PartialEq, Eq, Structural)]
pub enum TurnOutcome {
    Completed,
    Failed,
    Cancelled,
    PreparationFailed,
    StartFailed,
}

/// What is told of a turn that ended.
#[derive(Debug, PartialEq, Eq)]
pub struct TurnFinished {
    pub provider: String,
    pub turn_number: usize,
    pub outcome: TurnOutcome,
    pub duration_seconds: u64,
}

/// What is told of the last turn of a task, were it to end now.
pub open spec fn turn_event(task: AgentSession, outcome: TurnOutcome, now: u64) -> TurnFinished {
    let started = task.turns@.last().started_at;
    TurnFinished {
        provider: task.provider,
        turn_number: task.turns@.last().turn_count,
        outcome,
        duration_seconds: if now >= started {
            (now - started) as u64
        } else {
            0
        },
    }
}

/// What is told of the running turn of a task, were it to end now.
pub open spec fn active_event(waku: Waku, id: u128, outcome: TurnOutcome, now: u64) -> Option<
    TurnFinished,
> {
    if waku.tasks.lists(id) && waku.tasks.task(id).turns@.len() > 0 && waku.tasks.task(
        id,
    ).turns@.last().status == TurnStatus::Running {
        Some(turn_event(waku.tasks.task(id), outcome, now))
    } else {
        None
    }
}

impl Waku {
    /// What is told of the running turn of a task, were it to end now.
    pub fn active_turn_finished_event(&self, id: u128, outcome: TurnOutcome, now: u64) -> (r: Option<
        TurnFinished,
    >)
        ensures
            r == active_event(*self, id, outcome, now),
    {
        match self.session(id) {
            Some(session) => {
                let n: usize = session.turns.len();
                if n > 0 && session.turns[n - 1].status == TurnStatus::Running {
                    let turn = &session.turns[n - 1];
                    Some(
                        TurnFinished {
                            provider: session.provider.clone(),
                            turn_number: turn.turn_count,
                            outcome,
                            duration_seconds: now.saturating_sub(turn.started_at),
                        },
                    )
                } else {
                    None
                }
            },
            None => None,
        }
    }
}

/// What is told of a turn that was to be ended: nothing, unless it was ended.
pub fn event_to_track(event: Option<TurnFinished>, ended: bool) -> (r: Option<TurnFinished>)
    ensures
        r == (if ended {
            event
        } else {
            None
        }),
{
    if ended {
        event
    } else {
        None
    }
}

// ---------------------------------------------------------------------------
// Laws
// ---------------------------------------------------------------------------
proof fn flying_holds(flying: Seq<(u128, usize)>, captures: Seq<PendingCheckpointCapture>, p: (u128, usize))
    ensures
        flying_after(flying, captures).contains(p) <==> flying.contains(p) || listed(
            captures,
            p.0,
            p.1,
        ),
    decreases captures.len(),
{
    if captures.len() > 0 {
        let head = captures.drop_last();
        let c = captures.last();
        let before = flying_after(flying, head);
        flying_holds(flying, head, p);
        if listed(head, p.0, p.1) {
            let i = choose|i: int|
                0 <= i < head.len() && (#[trigger] head[i]).session_id == p.0 && head[i].turn_count
                    == p.1;
            assert(captures[i].session_id == p.0);
        }
        if listed(captures, p.0, p.1) {
            let i = choose|i: int|
                0 <= i < captures.len() && (#[trigger] captures[i]).session_id == p.0
                    && captures[i].turn_count == p.1;
            if i < head.len() {
                assert(head[i].session_id == p.0);
            }
        }
        let key = (c.session_id, c.turn_count);
        if !before.contains(key) {
            assert(before.push(key)[before.len() as int] == key);
            if before.contains(p) {
                let k = before.index_of(p);
                assert(before.push(key)[k] == p);
            }
            if before.push(key).contains(p) && p != key {
                let k = before.push(key).index_of(p);
                assert(before[k] == p);
            }
        }
        if key == p {
            assert(captures[captures.len() - 1].session_id == p.0);
        }
    }
}

/// Once the making of what is listed has begun, the same checkpoints are under way as before: none is
/// lost, and none is begun twice.
pub proof fn beginning_loses_nothing(waku: Waku, after: Waku, id: u128, turn: usize)
    requires
        after.pending_checkpoint_captures@.len() == 0,
        after.checkpoint_captures_in_flight@ == flying_after(
            waku.checkpoint_captures_in_flight@,
            waku.pending_checkpoint_captures@,
        ),
    ensures
        capture_under_way(after, id, turn) == capture_under_way(waku, id, turn),
{
    flying_holds(
        waku.checkpoint_captures_in_flight@,
        waku.pending_checkpoint_captures@,
        (id, turn),
    );
}

/// A checkpoint that is being made already is not begun again.
pub proof fn each_is_made_once(
    flying: Seq<(u128, usize)>,
    captures: Seq<PendingCheckpointCapture>,
)
    ensures
        forall|i: int|
            0 <= i < to_make(flying, captures).len() ==> {
                let c = #[trigger] to_make(flying, captures)[i];
                !flying.contains((c.session_id, c.turn_count))
            },
    decreases captures.len(),
{
    if captures.len() > 0 {
        let head = captures.drop_last();
        let before = to_make(flying, head);
        each_is_made_once(flying, head);
        let last = captures.last();
        flying_holds(flying, head, (last.session_id, last.turn_count));
        assert forall|i: int| 0 <= i < to_make(flying, captures).len() implies {
            let c = #[trigger] to_make(flying, captures)[i];
            !flying.contains((c.session_id, c.turn_count))
        } by {
            if i < before.len() {
                let c = before[i];
                assert(to_make(flying, captures)[i] == c);
            }
        }
    }
}

/// An item is not in a list that it was taken out of, and every other item still is.
pub proof fn without_holds<T>(list: Seq<T>, item: T, other: T)
    ensures
        without(list, item).contains(other) <==> list.contains(other) && other != item,
    decreases list.len(),
{
    if list.len() > 0 {
        let head = list.drop_last();
        without_holds(head, item, other);
        if head.contains(other) {
            let k = head.index_of(other);
            assert(list[k] == other);
        }
        if list.contains(other) && list.last() != other {
            let k = list.index_of(other);
            assert(head[k] == other);
        }
        if list.last() == other {
            assert(list[list.len() - 1] == other);
        }
        if list.last() != item {
            let before = without(head, item);
            let all = before.push(list.last());
            assert(all[before.len() as int] == list.last());
            if before.contains(other) {
                let k = before.index_of(other);
                assert(all[k] == other);
            }
            if all.contains(other) && list.last() != other {
                let k = all.index_of(other);
                assert(before[k] == other);
            }
        }
    }
}

} // verus!
