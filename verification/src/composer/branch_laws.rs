//! What the choice of a branch promises: which branches are listed and in which order, and what can be done with
//! each.
use crate::composer::branches::{
    action_views, actions_of, checkouts, found, render_branch_selector, selected_branch, text_le,
    visible_branch_entries, ActionView, BranchControl, BranchEntry, BranchPickerAction,
    BranchPickerOpened, BranchPickerState, BranchSnapshot, ListedBranch,
};
use crate::composer::workspace::shown_task;
use crate::runtime::state::Waku;
use crate::runtime::task_laws::{at_rest, first_task_is_found, stands_first};
use crate::session::SessionWorkspace;
use crate::sorting::{ranked, sorting_keeps_the_items};
use crate::text::{all_occur, ascii_lowered, occurs_in, trimmed, words};
use vstd::prelude::*;

verus! {

/// Tells whether a text comes before another, or is the same: at the first character where they differ its own is
/// the smaller, or it ends there.
pub open spec fn not_after(a: Seq<char>, b: Seq<char>) -> bool {
    exists|n: int|
        0 <= n <= a.len() && n <= b.len() && #[trigger] a.take(n) == b.take(n) && (n == a.len() || n
            < b.len() && a[n] < b[n])
}

proof fn text_order(a: Seq<char>, b: Seq<char>)
    requires
        text_le(a, b),
    ensures
        not_after(a, b),
    decreases a.len(),
{
    if a.len() == 0 || a[0] != b[0] {
        assert(a.take(0) =~= b.take(0));
    } else {
        let x = a.drop_first();
        let y = b.drop_first();
        text_order(x, y);
        let n = choose|n: int|
            0 <= n <= x.len() && n <= y.len() && #[trigger] x.take(n) == y.take(n) && (n == x.len()
                || n < y.len() && x[n] < y[n]);
        assert forall|k: int| 0 <= k < n + 1 implies a[k] == b[k] by {
            if k > 0 {
                assert(x.take(n)[k - 1] == y.take(n)[k - 1]);
            }
        }
        assert(a.take(n + 1) =~= b.take(n + 1));
        if n < x.len() {
            assert(a[n + 1] == x[n] && b[n + 1] == y[n]);
        }
    }
}

/// Tells whether a search finds a name: every word of it stands in the name, in whatever case.
pub open spec fn finds_name(query: Seq<char>, name: Seq<char>) -> bool {
    forall|k: int|
        0 <= k < words(ascii_lowered(query)).len() ==> occurs_in(
            ascii_lowered(name),
            #[trigger] words(ascii_lowered(query))[k],
        )
}

proof fn found_has(
    branches: Seq<BranchEntry>,
    selected: Seq<char>,
    query: Seq<char>,
    b: ListedBranch,
)
    ensures
        found(branches, selected, query).contains(b) <==> branches.contains(b.entry) && finds_name(
            query,
            b.entry.name@,
        ) && b.pinned == (b.entry.name@ == selected),
    decreases branches.len(),
{
    if branches.len() > 0 {
        let head = branches.drop_last();
        let last = branches.last();
        let before = found(head, selected, query);
        let all = found(branches, selected, query);
        let n = head.len() as int;
        found_has(head, selected, query, b);
        assert(branches[n] == last);
        assert(all_occur(ascii_lowered(last.name@), words(ascii_lowered(query))) <==> finds_name(
            query,
            last.name@,
        ));
        if all.contains(b) {
            let k = all.index_of(b);
            if k < before.len() {
                assert(before[k] == b);
                let i = head.index_of(b.entry);
                assert(branches[i] == b.entry);
            }
        }
        if branches.contains(b.entry) && finds_name(query, b.entry.name@) && b.pinned == (
        b.entry.name@ == selected) {
            let i = branches.index_of(b.entry);
            if i < n {
                assert(head[i] == b.entry);
                let k = before.index_of(b);
                assert(all[k] == b);
            } else {
                assert(all[before.len() as int] == b);
            }
        }
    }
}

proof fn ranked_has(s: Seq<ListedBranch>, b: ListedBranch)
    ensures
        ranked(s).contains(b) <==> s.contains(b),
{
    broadcast use vstd::seq_lib::group_to_multiset_ensures;

    sorting_keeps_the_items(s);
    assert(s.contains(b) <==> s.to_multiset().count(b) > 0);
    assert(ranked(s).contains(b) <==> ranked(s).to_multiset().count(b) > 0);
}

/// The list holds the branches that the search finds and no others. The chosen one comes first, and the others
/// stand by their names.
pub proof fn branches_that_are_found_are_listed(
    branches: &[BranchEntry],
    selected: &str,
    query: &str,
    r: Vec<BranchEntry>,
    b: BranchEntry,
    i: int,
    j: int,
)
    requires
        call_ensures(visible_branch_entries, (branches, selected, query), r),
    ensures
        r@.contains(b) <==> branches@.contains(b) && finds_name(query@, b.name@),
        0 <= i < j < r@.len() && r@[j].name@ == selected@ ==> r@[i].name@ == selected@,
        0 <= i < j < r@.len() && r@[i].name@ != selected@ ==> not_after(r@[i].name@, r@[j].name@),
        words(ascii_lowered(query@)).len() == 0 ==> r@.len() == branches@.len(),
{
    let all = found(branches@, selected@, query@);
    let sorted = ranked(all);
    let listed = ListedBranch { entry: b, pinned: b.name@ == selected@ };
    found_has(branches@, selected@, query@, listed);
    ranked_has(all, listed);
    if r@.contains(b) {
        let k = r@.index_of(b);
        assert(sorted[k].entry == b);
        assert(sorted.contains(sorted[k]));
        ranked_has(all, sorted[k]);
        found_has(branches@, selected@, query@, sorted[k]);
    }
    if sorted.contains(listed) {
        let k = sorted.index_of(listed);
        assert(r@[k] == b);
    }
    crate::composer::branches::branches_come_in_order(branches@, selected@, query@);
    if 0 <= i < j < r@.len() && r@[i].name@ != selected@ {
        assert(r@[j].name@ != selected@);
        text_order(r@[i].name@, r@[j].name@);
    }
    if words(ascii_lowered(query@)).len() == 0 {
        sorting_keeps_the_items(all);
        all_are_found(branches@, selected@, query@);
    }
}

proof fn all_are_found(branches: Seq<BranchEntry>, selected: Seq<char>, query: Seq<char>)
    requires
        words(ascii_lowered(query)).len() == 0,
    ensures
        found(branches, selected, query).len() == branches.len(),
    decreases branches.len(),
{
    if branches.len() > 0 {
        all_are_found(branches.drop_last(), selected, query);
    }
}

/// A task that works in place shows the branch that is checked out, one that is to get a worktree the branch it
/// starts from, and one that has its own the branch of it.
pub proof fn the_branch_of_a_task_is_shown(
    workspace: &SessionWorkspace,
    s: &BranchSnapshot,
    detached: &str,
    r: String,
)
    requires
        call_ensures(selected_branch, (workspace, s, detached), r),
    ensures
        *workspace is Local ==> (s.display matches Some(text) ==> r@ == text@) && (
        s.display is None ==> r@ == detached@),
        *workspace matches SessionWorkspace::NewWorktree { base_branch } ==> (
        base_branch matches Some(text) ==> r@ == text@) && (base_branch is None ==> (
        s.default_branch matches Some(text) ==> r@ == text@)),
        *workspace is Worktree ==> (s.current matches Some(text) ==> r@ == text@),
        *workspace matches SessionWorkspace::Worktree { branch, .. } ==> (s.current is None ==> r@
            == branch@),
{
}

/// Tells whether a list of actions lets a branch be checked out.
pub open spec fn can_check_out(actions: Seq<BranchPickerAction>, name: Seq<char>) -> bool {
    exists|k: int|
        0 <= k < actions.len() && (#[trigger] actions[k] matches BranchPickerAction::Checkout(n)
            && n@ == name)
}

proof fn checkouts_have(listed: Seq<BranchEntry>, planned: bool, name: Seq<char>)
    ensures
        checkouts(listed, planned).contains(ActionView::Checkout(name)) <==> exists|i: int|
            0 <= i < listed.len() && (#[trigger] listed[i]).name@ == name && (planned
                || !listed[i].checked_out_elsewhere),
        !checkouts(listed, planned).contains(ActionView::Create),
    decreases listed.len(),
{
    let all = checkouts(listed, planned);
    let action = ActionView::Checkout(name);
    if listed.len() > 0 {
        let head = listed.drop_last();
        let before = checkouts(head, planned);
        let n = head.len() as int;
        checkouts_have(head, planned, name);
        assert(listed[n] == listed.last());
        if all.contains(action) {
            let k = all.index_of(action);
            if k < before.len() {
                assert(before[k] == action);
                let i = choose|i: int|
                    0 <= i < head.len() && (#[trigger] head[i]).name@ == name && (planned
                        || !head[i].checked_out_elsewhere);
                assert(listed[i] == head[i]);
            }
        }
        if exists|i: int|
            0 <= i < listed.len() && (#[trigger] listed[i]).name@ == name && (planned
                || !listed[i].checked_out_elsewhere) {
            let i = choose|i: int|
                0 <= i < listed.len() && (#[trigger] listed[i]).name@ == name && (planned
                    || !listed[i].checked_out_elsewhere);
            if i < n {
                assert(head[i] == listed[i]);
                let k = before.index_of(action);
                assert(all[k] == action);
            } else {
                assert(all[before.len() as int] == action);
            }
        }
        if all.contains(ActionView::Create) {
            let k = all.index_of(ActionView::Create);
            if k < before.len() {
                assert(before[k] == ActionView::Create);
            }
        }
    }
}

/// While the list is open, it shows the branches that the search finds, marks the chosen one, and lets every
/// branch be checked out that is not taken elsewhere. A task that is to get a worktree may start from any branch,
/// and creates none.
pub proof fn every_free_branch_can_be_checked_out(
    waku: &Waku,
    snapshot: &BranchSnapshot,
    state: BranchPickerState,
    search: &str,
    detached: &str,
    r: Option<BranchControl>,
    at: int,
    workspace: &SessionWorkspace,
    chosen: String,
    branches: &[BranchEntry],
    selected: &str,
    query: &str,
    listed: Vec<BranchEntry>,
    i: int,
    name: Seq<char>,
)
    requires
        call_ensures(render_branch_selector, (waku, Some(snapshot), state, search, detached), r),
        stands_first(waku.tasks.sessions@, at),
        waku.tasks.selected_session == Some(waku.tasks.sessions@[at].id),
        *workspace == waku.tasks.sessions@[at].workspace,
        call_ensures(selected_branch, (workspace, snapshot, detached), chosen),
        branches@ == snapshot.branches@,
        selected@ == chosen@,
        query@ == ascii_lowered(trimmed(search@)),
        call_ensures(visible_branch_entries, (branches, selected, query), listed),
        r is Some,
        state.open,
        state.mode is Browse,
    ensures
        ({
            let c = r->0;
            let p = c.picker->0;
            let planned = *workspace is NewWorktree;
            &&& c.enabled <==> at_rest(waku.tasks.sessions@[at].status) && !state.operation_pending
            &&& c.picker is Some <==> c.enabled
            &&& c.enabled ==> {
                &&& p.rows@.len() == listed@.len()
                &&& 0 <= i < listed@.len() ==> p.rows@[i].entry == listed@[i] && (
                p.rows@[i].selected <==> listed@[i].name@ == chosen@) && (p.rows@[i].disabled
                    <==> listed@[i].checked_out_elsewhere && !planned)
                &&& can_check_out(p.actions@, name) <==> exists|k: int|
                    0 <= k < listed@.len() && (#[trigger] listed@[k]).name@ == name && (planned
                        || !listed@[k].checked_out_elsewhere)
                &&& p.allow_create <==> !planned
                &&& !planned ==> p.actions@.len() > 0 && p.actions@.last() is Create
                &&& planned ==> forall|k: int|
                    0 <= k < p.actions@.len() ==> !(#[trigger] p.actions@[k] is Create)
                &&& p.highlight is Some <==> state.highlight is Some && state.highlight->0
                    < p.actions@.len()
                &&& p.highlight is Some ==> p.highlight == state.highlight
                &&& p.create_highlighted <==> p.highlight is Some
                    && p.actions@[p.highlight->0 as int] is Create
                &&& 0 <= i < listed@.len() ==> (p.rows@[i].highlighted <==> p.highlight is Some && (
                p.actions@[p.highlight->0 as int] matches BranchPickerAction::Checkout(n) && n@
                    == listed@[i].name@))
            }
        }),
{
    first_task_is_found(waku.tasks.sessions@, at);
    assert(shown_task(*waku) == Some(waku.tasks.sessions@[at]));
    let c = r->0;
    if c.enabled {
        let p = c.picker->0;
        let planned = *workspace is NewWorktree;
        let v = action_views(p.actions@);
        let all = checkouts(listed@, planned);
        assert(v == actions_of(listed@, planned));
        assert(v.len() == p.actions@.len());
        assert forall|k: int| 0 <= k < v.len() implies #[trigger] v[k] == p.actions@[k]@ by {}
        checkouts_have(listed@, planned, name);
        let action = ActionView::Checkout(name);
        if can_check_out(p.actions@, name) {
            let k = choose|k: int|
                0 <= k < p.actions@.len() && (
                #[trigger] p.actions@[k] matches BranchPickerAction::Checkout(n) && n@ == name);
            assert(v[k] == action);
            if k < all.len() {
                assert(all[k] == action);
            }
        }
        if all.contains(action) {
            let k = all.index_of(action);
            assert(v[k] == action);
            assert(p.actions@[k] is Checkout);
        }
        if !planned {
            assert(v[v.len() - 1] == ActionView::Create);
        } else {
            assert forall|k: int| 0 <= k < p.actions@.len() implies !(
            #[trigger] p.actions@[k] is Create) by {
                if p.actions@[k] is Create {
                    assert(v[k] == ActionView::Create);
                    assert(all[k] == ActionView::Create);
                }
            }
        }
        if p.highlight is Some {
            let h = p.highlight->0 as int;
            assert(v[h] == p.actions@[h]@);
        }
    }
}

/// Opening the list starts a new search; closing it goes back to the composer and keeps what was typed.
pub proof fn opening_starts_a_new_search(
    state: &mut BranchPickerState,
    open: bool,
    search: &mut String,
    create: &mut String,
    project_name: String,
    r: BranchPickerOpened,
)
    requires
        call_ensures(
            BranchPickerState::toggle_branch_picker,
            (state, open, search, create, project_name),
            r,
        ),
    ensures
        final(state).open == open,
        final(state).mode is Browse,
        final(state).operation_pending == old(state).operation_pending,
        open ==> final(search)@.len() == 0 && final(create)@.len() == 0 && final(state).highlight is None && r.refresh && r.focus is Search && r.placeholder is Some,
        !open ==> final(search)@ == old(search)@ && final(create)@ == old(create)@ && !r.refresh
            && r.focus is Composer && r.placeholder is None,
{
    assert(crate::label::opt_label(r.placeholder) is Some <==> r.placeholder is Some);
}

} // verus!
