//! Taking over the daemon's tasks: the client lets go of what belongs to tasks that are gone, and asks
//! for the agents of tasks that are at work.
use crate::runtime::pump::latest_of;
use crate::runtime::state::Waku;
use crate::runtime::sync::{
    attachable, dropped, kept, merged_all, next_selection, project_after, selected_after,
    RemoteTaskStateSnapshot, SyncOutcome, TaskState,
};
use std::collections::HashSet;
use vstd::prelude::*;

verus! {

broadcast use vstd::std_specs::hash::group_hash_axioms;

/// The tasks of a list whose agents are asked for: each once, and only where the agent is not known and
/// has not been asked for.
pub open spec fn asked_for(known: Set<u128>, pending: Set<u128>, ids: Seq<u128>) -> Seq<u128>
    decreases ids.len(),
{
    if ids.len() == 0 {
        Seq::empty()
    } else {
        let before = asked_for(known, pending, ids.drop_last());
        let id = ids.last();
        if known.contains(id) || pending.contains(id) || before.contains(id) {
            before
        } else {
            before.push(id)
        }
    }
}

/// What is to be done once the daemon's tasks have been taken over.
#[derive(Debug)]
pub struct RemoteSync {
    /// Nothing is known of the accounts yet: they are asked about.
    pub refresh_accounts: bool,
    pub outcome: SyncOutcome,
    /// The tasks whose agents are asked for.
    pub ask: Vec<u128>,
}

/// Tells whether the daemon's tasks have been taken over.
pub open spec fn remote_applied(
    before: Waku,
    after: Waku,
    snapshot: RemoteTaskStateSnapshot,
    r: RemoteSync,
) -> bool {
    let gone = r.outcome.removed@.to_set();
    let known = before.runtimes@.remove_keys(gone);
    let pending = before.runtime_attach_pending@.difference(gone);
    &&& after == (Waku {
        tasks: after.tasks,
        runtimes: after.runtimes,
        runtime_attach_pending: after.runtime_attach_pending,
        runtime_attach_misses: after.runtime_attach_misses,
        ..before
    })
    &&& r.refresh_accounts == (before.auth_statuses@ == Map::<
        Seq<char>,
        crate::providers::ProviderAuthStatus,
    >::empty())
    &&& tasks_taken_over(before.tasks, after.tasks, snapshot, before.runtimes@.dom(), r.outcome)
    &&& after.runtimes@ == known
    &&& after.runtime_attach_misses@ == before.runtime_attach_misses@.remove_keys(gone)
    &&& r.ask@ == asked_for(known.dom(), pending, r.outcome.attach@)
    &&& after.runtime_attach_pending@ == pending.union(r.ask@.to_set())
}

/// Tells whether the list of tasks has become like the daemon's. `running` are the tasks whose agents
/// this client drives.
pub open spec fn tasks_taken_over(
    before: TaskState,
    after: TaskState,
    snapshot: RemoteTaskStateSnapshot,
    running: Set<u128>,
    r: SyncOutcome,
) -> bool {
    &&& after.sessions@ == merged_all(
        kept(before.sessions@, snapshot.sessions@),
        snapshot.sessions@,
        running,
    )
    &&& after.projects == snapshot.projects
    &&& r.removed@ == dropped(before.sessions@, snapshot.sessions@)
    &&& r.attach@ == attachable(after.sessions@, before.selected_session)
    &&& r.next == next_selection(
        after.sessions@,
        snapshot.projects@,
        before.selected_session,
        before.selected_project,
    )
    &&& after.selected_session == selected_after(r.next, before.selected_session)
    &&& after.selected_project == project_after(r.next, before.selected_project)
}

proof fn one_more(ids: Seq<u128>, i: int)
    requires
        0 <= i < ids.len(),
    ensures
        ids.take(i + 1).to_set() == ids.take(i).to_set().insert(ids[i]),
{
    let so_far = ids.take(i);
    let next = ids.take(i + 1);
    assert forall|k: u128| next.contains(k) <==> so_far.contains(k) || k == ids[i] by {
        if next.contains(k) && k != ids[i] {
            let j = next.index_of(k);
            assert(so_far[j] == k);
        }
        if so_far.contains(k) {
            let j = so_far.index_of(k);
            assert(next[j] == k);
        }
        assert(next[i] == ids[i]);
    }
    assert(next.to_set() =~= so_far.to_set().insert(ids[i]));
}

impl Waku {
    fn running_tasks(&self) -> (r: HashSet<u128>)
        ensures
            r@ == self.runtimes@.dom(),
    {
        let mut r: HashSet<u128> = HashSet::new();
        for id in it: self.runtimes.keys()
            invariant
                it.seq().unref().to_set() == self.runtimes@.dom(),
                r@ == it.seq().unref().take(it.index()).to_set(),
                it.index() == it.seq().len() ==> r@ =~= self.runtimes@.dom(),
        {
            proof {
                let all = it.seq().unref();
                one_more(all, it.index());
                assert(all.take(all.len() as int) =~= all);
            }
            r.insert(*id);
        }
        r
    }

    fn forget_tasks(&mut self, ids: &Vec<u128>)
        ensures
            *final(self) == (Waku {
                runtimes: final(self).runtimes,
                runtime_attach_pending: final(self).runtime_attach_pending,
                runtime_attach_misses: final(self).runtime_attach_misses,
                ..*old(self)
            }),
            final(self).runtimes@ == old(self).runtimes@.remove_keys(ids@.to_set()),
            final(self).runtime_attach_misses@ == old(self).runtime_attach_misses@.remove_keys(
                ids@.to_set(),
            ),
            final(self).runtime_attach_pending@ == old(self).runtime_attach_pending@.difference(
                ids@.to_set(),
            ),
    {
        let ghost start = *self;
        assert(ids@.take(0).to_set() =~= Set::empty());
        assert(start.runtimes@.remove_keys(Set::empty()) =~= start.runtimes@);
        assert(start.runtime_attach_misses@.remove_keys(Set::empty())
            =~= start.runtime_attach_misses@);
        assert(start.runtime_attach_pending@.difference(Set::empty())
            =~= start.runtime_attach_pending@);
        for i in 0..ids.len()
            invariant
                *self == (Waku {
                    runtimes: self.runtimes,
                    runtime_attach_pending: self.runtime_attach_pending,
                    runtime_attach_misses: self.runtime_attach_misses,
                    ..start
                }),
                self.runtimes@ == start.runtimes@.remove_keys(ids@.take(i as int).to_set()),
                self.runtime_attach_misses@ == start.runtime_attach_misses@.remove_keys(
                    ids@.take(i as int).to_set(),
                ),
                self.runtime_attach_pending@ == start.runtime_attach_pending@.difference(
                    ids@.take(i as int).to_set(),
                ),
        {
            let ghost gone = ids@.take(i as int + 1).to_set();
            proof {
                one_more(ids@, i as int);
            }
            self.runtimes.remove(&ids[i]);
            self.runtime_attach_misses.remove(&ids[i]);
            self.runtime_attach_pending.remove(&ids[i]);
            assert(self.runtimes@ =~= start.runtimes@.remove_keys(gone));
            assert(self.runtime_attach_misses@ =~= start.runtime_attach_misses@.remove_keys(gone));
            assert(self.runtime_attach_pending@ =~= start.runtime_attach_pending@.difference(gone));
        }
        assert(ids@.take(ids@.len() as int) =~= ids@);
    }

    fn ask_for_agents(&mut self, ids: &Vec<u128>) -> (r: Vec<u128>)
        ensures
            *final(self) == (Waku {
                runtime_attach_pending: final(self).runtime_attach_pending,
                ..*old(self)
            }),
            r@ == asked_for(
                old(self).runtimes@.dom(),
                old(self).runtime_attach_pending@,
                ids@,
            ),
            final(self).runtime_attach_pending@ == old(self).runtime_attach_pending@.union(
                r@.to_set(),
            ),
    {
        let ghost start = *self;
        let mut r: Vec<u128> = Vec::new();
        assert(ids@.take(0) =~= Seq::empty());
        assert(self.runtime_attach_pending@ =~= start.runtime_attach_pending@.union(r@.to_set()));
        for i in 0..ids.len()
            invariant
                *self == (Waku { runtime_attach_pending: self.runtime_attach_pending, ..start }),
                r@ == asked_for(
                    start.runtimes@.dom(),
                    start.runtime_attach_pending@,
                    ids@.take(i as int),
                ),
                self.runtime_attach_pending@ == start.runtime_attach_pending@.union(r@.to_set()),
        {
            assert(ids@.take(i as int + 1).drop_last() =~= ids@.take(i as int));
            let ghost before = r@;
            if self.start_runtime_attachment(ids[i]) {
                r.push(ids[i]);
                proof {
                    assert(r@.take(before.len() as int) =~= before);
                    assert(r@.take(before.len() as int + 1) =~= r@);
                    one_more(r@, before.len() as int);
                }
                assert(self.runtime_attach_pending@ =~= start.runtime_attach_pending@.union(
                    r@.to_set(),
                ));
            }
        }
        assert(ids@.take(ids@.len() as int) =~= ids@);
        r
    }

    /// Takes over the daemon's tasks and projects, and says what is to be done then.
    pub fn apply_remote_task_state(&mut self, snapshot: RemoteTaskStateSnapshot) -> (r: RemoteSync)
        ensures
            remote_applied(*old(self), *final(self), snapshot, r),
    {
        let refresh_accounts = self.auth_statuses.is_empty();
        let running = self.running_tasks();
        let outcome = self.tasks.apply_remote_task_state(snapshot, &running);
        self.forget_tasks(&outcome.removed);
        let ask = self.ask_for_agents(&outcome.attach);
        RemoteSync { refresh_accounts, outcome, ask }
    }

    /// Takes over what the daemon answered last about its tasks, where it could be had. The earlier
    /// answers are out of date.
    pub fn drain_task_state_sync_events(
        &mut self,
        results: Vec<Result<RemoteTaskStateSnapshot, String>>,
    ) -> (r: Option<Result<RemoteSync, String>>)
        ensures
            if results@.len() == 0 {
                r is None && *final(self) == *old(self)
            } else {
                match results@.last() {
                    Ok(snapshot) => r is Some && r->0 is Ok && remote_applied(
                        *old(self),
                        *final(self),
                        snapshot,
                        (r->0)->Ok_0,
                    ),
                    Err(error) => r == Some(Err::<RemoteSync, String>(error)) && *final(self)
                        == *old(self),
                }
            },
    {
        match latest_of(results) {
            Some(Ok(snapshot)) => Some(Ok(self.apply_remote_task_state(snapshot))),
            Some(Err(error)) => Some(Err(error)),
            None => None,
        }
    }
}

// ---------------------------------------------------------------------------
// Laws
// ---------------------------------------------------------------------------
/// Nothing is left of a task that is gone: neither an agent, nor a question for one.
pub proof fn nothing_is_left_of_a_task_that_is_gone(
    before: Waku,
    after: Waku,
    snapshot: RemoteTaskStateSnapshot,
    r: RemoteSync,
    id: u128,
)
    requires
        remote_applied(before, after, snapshot, r),
        r.outcome.removed@.contains(id),
    ensures
        !after.runtimes@.contains_key(id),
        !after.runtime_attach_misses@.contains_key(id),
{
    assert(r.outcome.removed@.to_set().contains(id));
}

/// An agent that the client drives is not asked for.
pub proof fn known_agents_are_not_asked_for(known: Set<u128>, pending: Set<u128>, ids: Seq<u128>, id: u128)
    requires
        known.contains(id) || pending.contains(id),
    ensures
        !asked_for(known, pending, ids).contains(id),
    decreases ids.len(),
{
    if ids.len() > 0 {
        known_agents_are_not_asked_for(known, pending, ids.drop_last(), id);
        let before = asked_for(known, pending, ids.drop_last());
        let all = asked_for(known, pending, ids);
        if all.contains(id) {
            let k = all.index_of(id);
            if k < before.len() {
                assert(before[k] == id);
            }
        }
    }
}

} // verus!
