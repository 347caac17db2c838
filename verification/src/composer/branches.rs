//! The choice of a branch: which branches are listed, what can be done with them, and what is shown.
use crate::composer::workspace::{shown_project, shown_task};
use crate::label::{opt_label, Label, LabelView};
use crate::protocol::busy;
use crate::runtime::state::Waku;
use crate::session::{AgentSession, SessionWorkspace};
use crate::sorting::{
    ranked, ranks_in_line, sort_ranked, sorting_keeps_the_items, sorting_sorts, Ranked,
};
use crate::text::{
    all_occur, ascii_lowered, chars_of, contains_all, same_text, split_words,
    to_ascii_lower, trim, trimmed, views, words,
};
use vstd::prelude::*;

verus! {

// ---------------------------------------------------------------------------
// Order
// ---------------------------------------------------------------------------
/// Tells whether a text comes before another in the order of their characters, or is the same.
pub open spec fn text_le(a: Seq<char>, b: Seq<char>) -> bool
    decreases a.len(),
{
    if a.len() == 0 {
        true
    } else if b.len() == 0 {
        false
    } else if a[0] != b[0] {
        a[0] < b[0]
    } else {
        text_le(a.drop_first(), b.drop_first())
    }
}

fn precedes(a: &str, b: &str) -> (r: bool)
    ensures
        r == text_le(a@, b@),
{
    let x = chars_of(a);
    let y = chars_of(b);
    let mut i: usize = 0;
    assert(a@.skip(0) =~= a@);
    assert(b@.skip(0) =~= b@);
    while i < x.len() && i < y.len()
        invariant
            x@ == a@,
            y@ == b@,
            i <= x@.len(),
            i <= y@.len(),
            text_le(a@, b@) == text_le(a@.skip(i as int), b@.skip(i as int)),
        decreases x@.len() - i,
    {
        if x[i] != y[i] {
            return x[i] < y[i];
        }
        assert(a@.skip(i as int).drop_first() =~= a@.skip(i as int + 1));
        assert(b@.skip(i as int).drop_first() =~= b@.skip(i as int + 1));
        i = i + 1;
    }
    i == x.len()
}

proof fn text_le_total(a: Seq<char>, b: Seq<char>)
    ensures
        text_le(a, b) || text_le(b, a),
    decreases a.len(),
{
    if a.len() > 0 && b.len() > 0 && a[0] == b[0] {
        text_le_total(a.drop_first(), b.drop_first());
    }
}

proof fn text_le_transitive(a: Seq<char>, b: Seq<char>, c: Seq<char>)
    requires
        text_le(a, b),
        text_le(b, c),
    ensures
        text_le(a, c),
    decreases a.len(),
{
    if a.len() > 0 && b.len() > 0 && c.len() > 0 && a[0] == b[0] && b[0] == c[0] {
        text_le_transitive(a.drop_first(), b.drop_first(), c.drop_first());
    }
}

// ---------------------------------------------------------------------------
// Branches
// ---------------------------------------------------------------------------
/// A branch.
#[derive(Debug)]
pub struct BranchEntry {
    pub name: String,
    /// Another worktree has it checked out, so that this one cannot.
    pub checked_out_elsewhere: bool,
}

impl Clone for BranchEntry {
    fn clone(&self) -> (r: Self)
        ensures
            r == *self,
    {
        BranchEntry {
            name: self.name.clone(),
            checked_out_elsewhere: self.checked_out_elsewhere,
        }
    }
}

/// A branch on its way into the list. The branch that is chosen comes first.
#[derive(Debug)]
pub struct ListedBranch {
    pub entry: BranchEntry,
    pub pinned: bool,
}

impl Ranked for ListedBranch {
    open spec fn ranks_before(self, other: Self) -> bool {
        if self.pinned != other.pinned {
            self.pinned
        } else {
            text_le(self.entry.name@, other.entry.name@)
        }
    }

    fn may_precede(&self, other: &Self) -> (r: bool) {
        if self.pinned != other.pinned {
            self.pinned
        } else {
            precedes(self.entry.name.as_str(), other.entry.name.as_str())
        }
    }
}

/// The branches that a search finds.
pub open spec fn found(branches: Seq<BranchEntry>, selected: Seq<char>, query: Seq<char>) -> Seq<
    ListedBranch,
>
    decreases branches.len(),
{
    if branches.len() == 0 {
        Seq::empty()
    } else {
        let before = found(branches.drop_last(), selected, query);
        let b = branches.last();
        if all_occur(ascii_lowered(b.name@), words(ascii_lowered(query))) {
            before.push(ListedBranch { entry: b, pinned: b.name@ == selected })
        } else {
            before
        }
    }
}

/// The branches that are listed: those that the search finds, the chosen one first, then by name.
pub open spec fn visible_branches(
    branches: Seq<BranchEntry>,
    selected: Seq<char>,
    query: Seq<char>,
) -> Seq<BranchEntry> {
    ranked(found(branches, selected, query)).map_values(|b: ListedBranch| b.entry)
}

/// The branches that are listed. One that another worktree has checked out is listed too, so that the
/// user learns why it cannot be chosen.
pub fn visible_branch_entries(branches: &[BranchEntry], selected_branch: &str, query: &str) -> (r:
    Vec<BranchEntry>)
    ensures
        r@ == visible_branches(branches@, selected_branch@, query@),
{
    let tokens = split_words(to_ascii_lower(query).as_str());
    let mut listed: Vec<ListedBranch> = Vec::new();
    assert(branches@.take(0) =~= Seq::empty());
    for i in 0..branches.len()
        invariant
            views(tokens@) == words(ascii_lowered(query@)),
            listed@ == found(branches@.take(i as int), selected_branch@, query@),
    {
        assert(branches@.take(i as int + 1).drop_last() =~= branches@.take(i as int));
        if contains_all(to_ascii_lower(branches[i].name.as_str()).as_str(), &tokens) {
            listed.push(
                ListedBranch {
                    entry: branches[i].clone(),
                    pinned: same_text(branches[i].name.as_str(), selected_branch),
                },
            );
        }
    }
    assert(branches@.take(branches@.len() as int) =~= branches@);
    sort_ranked(&mut listed);
    let ghost all = listed@;
    let mut r: Vec<BranchEntry> = Vec::new();
    for b in it: listed.into_iter()
        invariant
            it.seq() == all,
            r@.len() == it.index(),
            forall|k: int| 0 <= k < it.index() ==> #[trigger] r@[k] == all[k].entry,
    {
        r.push(b.entry);
    }
    assert(r@ =~= all.map_values(|b: ListedBranch| b.entry));
    r
}

// ---------------------------------------------------------------------------
// The choice
// ---------------------------------------------------------------------------
/// What is known of the branches of a directory.
#[derive(Debug)]
pub struct BranchSnapshot {
    pub current: Option<String>,
    /// What is shown of the branch or the commit that is checked out.
    pub display: Option<String>,
    pub default_branch: Option<String>,
    pub branches: Vec<BranchEntry>,
}

/// The branch that a task works on, as it is shown. `detached` is what is said where there is none.
pub open spec fn shown_branch(
    workspace: SessionWorkspace,
    s: BranchSnapshot,
    detached: Seq<char>,
) -> Seq<char> {
    let display = match s.display {
        Some(text) => text@,
        None => detached,
    };
    match workspace {
        SessionWorkspace::Local => display,
        SessionWorkspace::NewWorktree { base_branch } => match (base_branch, s.default_branch) {
            (Some(text), _) => text@,
            (None, Some(text)) => text@,
            (None, None) => display,
        },
        SessionWorkspace::Worktree { branch, .. } => match s.current {
            Some(text) => text@,
            None => branch@,
        },
    }
}

/// The branch that a task works on, as it is shown.
pub fn selected_branch(workspace: &SessionWorkspace, s: &BranchSnapshot, detached: &str) -> (r: String)
    ensures
        r@ == shown_branch(*workspace, *s, detached@),
{
    match workspace {
        SessionWorkspace::Local => match &s.display {
            Some(text) => text.clone(),
            None => detached.to_string(),
        },
        SessionWorkspace::NewWorktree { base_branch } => match base_branch {
            Some(text) => text.clone(),
            None => match &s.default_branch {
                Some(text) => text.clone(),
                None => match &s.display {
                    Some(text) => text.clone(),
                    None => detached.to_string(),
                },
            },
        },
        SessionWorkspace::Worktree { branch, .. } => match &s.current {
            Some(text) => text.clone(),
            None => branch.clone(),
        },
    }
}

/// What the picker of branches is used for.
#[derive(Clone, Copy, Debug, PartialEq, Eq, Structural)]
pub enum BranchPickerMode {
    Browse,
    Create,
}

/// What can be done in the picker of branches.
#[derive(Debug)]
pub enum BranchPickerAction {
    Checkout(String),
    Create,
}

/// The contents of what can be done.
pub ghost enum ActionView {
    Checkout(Seq<char>),
    Create,
}

impl View for BranchPickerAction {
    type V = ActionView;

    open spec fn view(&self) -> ActionView {
        match self {
            BranchPickerAction::Checkout(name) => ActionView::Checkout(name@),
            BranchPickerAction::Create => ActionView::Create,
        }
    }
}

/// The contents of a list of what can be done.
pub open spec fn action_views(list: Seq<BranchPickerAction>) -> Seq<ActionView> {
    Seq::new(list.len(), |i: int| list[i]@)
}

/// Tells whether a branch cannot be chosen: a worktree that is still to be made can start from any.
pub open spec fn is_disabled(b: BranchEntry, planned: bool) -> bool {
    b.checked_out_elsewhere && !planned
}

/// The branches that can be chosen.
pub open spec fn checkouts(listed: Seq<BranchEntry>, planned: bool) -> Seq<ActionView>
    decreases listed.len(),
{
    if listed.len() == 0 {
        Seq::empty()
    } else {
        let before = checkouts(listed.drop_last(), planned);
        if is_disabled(listed.last(), planned) {
            before
        } else {
            before.push(ActionView::Checkout(listed.last().name@))
        }
    }
}

/// What can be done: choosing a branch, and making one, but not for a worktree that is still to be made.
pub open spec fn actions_of(listed: Seq<BranchEntry>, planned: bool) -> Seq<ActionView> {
    if planned {
        checkouts(listed, planned)
    } else {
        checkouts(listed, planned).push(ActionView::Create)
    }
}

fn list_actions(listed: &Vec<BranchEntry>, planned: bool) -> (r: Vec<BranchPickerAction>)
    ensures
        action_views(r@) == actions_of(listed@, planned),
{
    let mut r: Vec<BranchPickerAction> = Vec::new();
    assert(listed@.take(0) =~= Seq::empty());
    assert(action_views(r@) =~= Seq::empty());
    for i in 0..listed.len()
        invariant
            action_views(r@) == checkouts(listed@.take(i as int), planned),
    {
        assert(listed@.take(i as int + 1).drop_last() =~= listed@.take(i as int));
        let ghost before = r@;
        if planned || !listed[i].checked_out_elsewhere {
            let action = BranchPickerAction::Checkout(listed[i].name.clone());
            r.push(action);
            assert(action_views(r@) =~= action_views(before).push(action@));
        }
    }
    assert(listed@.take(listed@.len() as int) =~= listed@);
    if !planned {
        let ghost before = r@;
        r.push(BranchPickerAction::Create);
        assert(action_views(r@) =~= action_views(before).push(ActionView::Create));
    }
    r
}

/// A row of the picker of branches.
#[derive(Debug)]
pub struct BranchRow {
    pub entry: BranchEntry,
    pub selected: bool,
    pub disabled: bool,
    pub highlighted: bool,
}

/// The row of a branch. `pointed` is what the keyboard's cursor is on.
pub open spec fn branch_row(
    b: BranchEntry,
    selected: Seq<char>,
    planned: bool,
    pointed: Option<ActionView>,
) -> BranchRow {
    BranchRow {
        entry: b,
        selected: b.name@ == selected,
        disabled: is_disabled(b, planned),
        highlighted: pointed == Some(ActionView::Checkout(b.name@)),
    }
}

/// The picker of branches.
#[derive(Debug)]
pub struct BranchPicker {
    pub rows: Vec<BranchRow>,
    pub actions: Vec<BranchPickerAction>,
    /// What the keyboard's cursor is on.
    pub highlight: Option<usize>,
    /// A branch can be made.
    pub allow_create: bool,
    /// The keyboard's cursor is on making one.
    pub create_highlighted: bool,
}

/// The control for the branch of a task.
#[derive(Debug)]
pub struct BranchControl {
    pub label: Label,
    pub enabled: bool,
    /// The picker, where a branch can be chosen.
    pub picker: Option<BranchPicker>,
}

/// What the keyboard's cursor is on.
pub open spec fn pointed_at(actions: Seq<ActionView>, highlight: Option<usize>) -> Option<ActionView> {
    if highlight is Some && highlight->0 < actions.len() {
        Some(actions[highlight->0 as int])
    } else {
        None
    }
}

/// Tells whether a picker of branches is the one for these branches.
pub open spec fn is_picker(
    p: BranchPicker,
    listed: Seq<BranchEntry>,
    selected: Seq<char>,
    planned: bool,
    highlight: Option<usize>,
) -> bool {
    let actions = actions_of(listed, planned);
    let pointed = pointed_at(actions, highlight);
    &&& p.rows@ == Seq::new(
        listed.len(),
        |i: int| branch_row(listed[i], selected, planned, pointed),
    )
    &&& action_views(p.actions@) == actions
    &&& p.highlight == (if pointed is Some {
        highlight
    } else {
        None
    })
    &&& p.allow_create == !planned
    &&& p.create_highlighted == (pointed == Some(ActionView::Create))
}

fn make_picker(
    listed: &Vec<BranchEntry>,
    selected: &str,
    planned: bool,
    highlight: Option<usize>,
) -> (r: BranchPicker)
    ensures
        is_picker(r, listed@, selected@, planned, highlight),
{
    let actions = list_actions(listed, planned);
    let ghost seen = actions_of(listed@, planned);
    let ghost pointed = pointed_at(seen, highlight);
    let shown: Option<usize> = match highlight {
        Some(at) => if at < actions.len() {
            assert(action_views(actions@)[at as int] == actions@[at as int]@);
            Some(at)
        } else {
            None
        },
        None => None,
    };
    let create_highlighted = match shown {
        Some(at) => match &actions[at] {
            BranchPickerAction::Create => true,
            BranchPickerAction::Checkout(_) => false,
        },
        None => false,
    };
    let mut rows: Vec<BranchRow> = Vec::new();
    for i in 0..listed.len()
        invariant
            seen == action_views(actions@),
            pointed == pointed_at(seen, highlight),
            match shown {
                Some(at) => at < actions@.len() && pointed == Some(actions@[at as int]@),
                None => pointed is None,
            },
            rows@.len() == i,
            forall|k: int|
                0 <= k < i ==> #[trigger] rows@[k] == branch_row(
                    listed@[k],
                    selected@,
                    planned,
                    pointed,
                ),
    {
        let highlighted = match shown {
            Some(at) => match &actions[at] {
                BranchPickerAction::Checkout(name) => same_text(
                    name.as_str(),
                    listed[i].name.as_str(),
                ),
                BranchPickerAction::Create => false,
            },
            None => false,
        };
        rows.push(
            BranchRow {
                entry: listed[i].clone(),
                selected: same_text(listed[i].name.as_str(), selected),
                disabled: listed[i].checked_out_elsewhere && !planned,
                highlighted,
            },
        );
    }
    assert(rows@ =~= Seq::new(
        listed@.len(),
        |i: int| branch_row(listed@[i], selected@, planned, pointed),
    ));
    BranchPicker { rows, actions, highlight: shown, allow_create: !planned, create_highlighted }
}

/// The state of the picker of branches.
#[derive(Clone, Copy, Debug, PartialEq, Eq, Structural)]
pub struct BranchPickerState {
    pub open: bool,
    pub mode: BranchPickerMode,
    pub highlight: Option<usize>,
    /// A branch is being checked out.
    pub operation_pending: bool,
}

/// Tells whether the branch of the task that is shown can be told: there is a task, in a known directory,
/// and the project that is shown is a real one.
pub open spec fn has_branch(waku: Waku) -> bool {
    &&& shown_task(waku) is Some
    &&& waku.tasks.workspace_path(shown_task(waku)->0) is Some
    &&& shown_project(waku) is Some
    &&& !shown_project(waku)->0.projectless
}

/// Tells whether a control is that for the branch of a task.
pub open spec fn is_branch_control(
    r: BranchControl,
    session: AgentSession,
    snapshot: BranchSnapshot,
    state: BranchPickerState,
    search: Seq<char>,
    detached: Seq<char>,
) -> bool {
    let selected = shown_branch(session.workspace, snapshot, detached);
    let planned = session.workspace is NewWorktree;
    let listed = if state.open && state.mode == BranchPickerMode::Browse {
        visible_branches(snapshot.branches@, selected, ascii_lowered(trimmed(search)))
    } else {
        Seq::empty()
    };
    &&& r.enabled == (!busy(session.status) && !state.operation_pending)
    &&& r.label@ == (if state.operation_pending {
        LabelView::Message("branches.switching"@)
    } else {
        LabelView::Plain(selected)
    })
    &&& r.picker is Some <==> r.enabled
    &&& r.enabled ==> is_picker(r.picker->0, listed, selected, planned, state.highlight)
}

/// The control for the branch of the task that is shown. There is none without a task, its directory, a real
/// project, and something known of the branches there. `detached` is what is said where no branch is checked
/// out, `search` what was typed.
pub fn render_branch_selector(
    waku: &Waku,
    snapshot: Option<&BranchSnapshot>,
    state: BranchPickerState,
    search: &str,
    detached: &str,
) -> (r: Option<BranchControl>)
    ensures
        r is Some <==> has_branch(*waku) && snapshot is Some,
        r is Some ==> is_branch_control(
            r->0,
            shown_task(*waku)->0,
            *snapshot->0,
            state,
            search@,
            detached@,
        ),
{
    let session: &AgentSession = match waku.selected_session() {
        Some(s) => s,
        None => return None,
    };
    if waku.tasks.workspace_path_for_session(session).is_none() {
        return None;
    }
    match waku.selected_project() {
        Some(project) => {
            if project.projectless {
                return None;
            }
        },
        None => return None,
    }
    match snapshot {
        Some(s) => Some(branch_control(session, s, state, search, detached)),
        None => None,
    }
}

fn branch_control(
    session: &AgentSession,
    snapshot: &BranchSnapshot,
    state: BranchPickerState,
    search: &str,
    detached: &str,
) -> (r: BranchControl)
    ensures
        is_branch_control(r, *session, *snapshot, state, search@, detached@),
{
    let selected = selected_branch(&session.workspace, snapshot, detached);
    let planned = match session.workspace {
        SessionWorkspace::NewWorktree { .. } => true,
        _ => false,
    };
    let enabled = !session.is_busy() && !state.operation_pending;
    let label = if state.operation_pending {
        Label::Message("branches.switching")
    } else {
        Label::Plain(selected.clone())
    };
    if !enabled {
        return BranchControl { label, enabled, picker: None };
    }
    let browsing = state.open && state.mode == BranchPickerMode::Browse;
    let listed = if browsing {
        let query = to_ascii_lower(trim(search).as_str());
        visible_branch_entries(snapshot.branches.as_slice(), selected.as_str(), query.as_str())
    } else {
        Vec::new()
    };
    let picker = make_picker(&listed, selected.as_str(), planned, state.highlight);
    BranchControl { label, enabled, picker: Some(picker) }
}

/// Where the keyboard goes when a picker opens or closes.
#[derive(Clone, Copy, Debug, PartialEq, Eq, Structural)]
pub enum PickerFocus {
    /// To the picker's field for a search.
    Search,
    /// Back to the composer.
    Composer,
}

/// What is done when the picker of branches opens or closes.
#[derive(Debug)]
pub struct BranchPickerOpened {
    pub focus: PickerFocus,
    /// What the empty field for a search says from now on.
    pub placeholder: Option<Label>,
    /// What is known of the branches is asked for anew.
    pub refresh: bool,
}

impl BranchPickerState {
    /// Opens or closes the picker of branches. Either way it is for browsing again; when it opens, nothing is
    /// pointed at, and the fields for a search and for a new branch are empty. `project_name` is the name of
    /// the project that is shown, or what is said where there is none.
    pub fn toggle_branch_picker(
        &mut self,
        open: bool,
        search: &mut String,
        create: &mut String,
        project_name: String,
    ) -> (r: BranchPickerOpened)
        ensures
            *final(self) == (BranchPickerState {
                open,
                mode: BranchPickerMode::Browse,
                highlight: if open {
                    None
                } else {
                    old(self).highlight
                },
                ..*old(self)
            }),
            final(search)@ == (if open {
                Seq::empty()
            } else {
                old(search)@
            }),
            final(create)@ == (if open {
                Seq::empty()
            } else {
                old(create)@
            }),
            r.focus == (if open {
                PickerFocus::Search
            } else {
                PickerFocus::Composer
            }),
            opt_label(r.placeholder) == (if open {
                Some(
                    (LabelView::MessageWith {
                        key: "branches.search_project"@,
                        name: "project"@,
                        value: project_name@,
                    }),
                )
            } else {
                None
            }),
            r.refresh == open,
    {
        self.open = open;
        self.mode = BranchPickerMode::Browse;
        if open {
            self.highlight = None;
            *search = String::new();
            *create = String::new();
            BranchPickerOpened {
                focus: PickerFocus::Search,
                placeholder: Some(
                    Label::MessageWith {
                        key: "branches.search_project",
                        name: "project",
                        value: project_name,
                    },
                ),
                refresh: true,
            }
        } else {
            BranchPickerOpened { focus: PickerFocus::Composer, placeholder: None, refresh: false }
        }
    }
}

// ---------------------------------------------------------------------------
// Laws
// ---------------------------------------------------------------------------
proof fn branches_rank_in_line()
    ensures
        ranks_in_line::<ListedBranch>(),
{
    assert forall|a: ListedBranch, b: ListedBranch| #[trigger]
        a.ranks_before(b) || b.ranks_before(a) by {
        text_le_total(a.entry.name@, b.entry.name@);
    }
    assert forall|a: ListedBranch, b: ListedBranch, c: ListedBranch| #[trigger]
        a.ranks_before(b) && #[trigger] b.ranks_before(c) implies a.ranks_before(c) by {
        if a.pinned == b.pinned && b.pinned == c.pinned {
            text_le_transitive(a.entry.name@, b.entry.name@, c.entry.name@);
        }
    }
}

proof fn found_knows_the_chosen(branches: Seq<BranchEntry>, selected: Seq<char>, query: Seq<char>)
    ensures
        forall|i: int|
            0 <= i < found(branches, selected, query).len() ==> (
            #[trigger] found(branches, selected, query)[i]).pinned == (found(
                branches,
                selected,
                query,
            )[i].entry.name@ == selected),
    decreases branches.len(),
{
    if branches.len() > 0 {
        let all = found(branches, selected, query);
        let before = found(branches.drop_last(), selected, query);
        found_knows_the_chosen(branches.drop_last(), selected, query);
        assert forall|i: int| 0 <= i < all.len() implies (#[trigger] all[i]).pinned == (
        all[i].entry.name@ == selected) by {
            if i < before.len() {
                assert(before[i].pinned == (before[i].entry.name@ == selected));
            }
        }
    }
}

/// The branches that are listed are sorted: the chosen one comes first, the others by name.
pub proof fn branches_come_in_order(
    branches: Seq<BranchEntry>,
    selected: Seq<char>,
    query: Seq<char>,
)
    ensures
        forall|i: int, j: int|
            0 <= i < j < visible_branches(branches, selected, query).len() ==> {
                let a = (#[trigger] visible_branches(branches, selected, query)[i]).name@;
                let b = (#[trigger] visible_branches(branches, selected, query)[j]).name@;
                (b == selected ==> a == selected) && ((a == selected) == (b == selected) ==> text_le(
                    a,
                    b,
                ))
            },
{
    let all = found(branches, selected, query);
    let sorted = ranked(all);
    branches_rank_in_line();
    sorting_sorts(all);
    found_knows_the_chosen(branches, selected, query);
    sorting_keeps_the_items(all);
    assert forall|k: int| 0 <= k < sorted.len() implies (#[trigger] sorted[k]).pinned == (
    sorted[k].entry.name@ == selected) by {
        same_items(all, sorted, k);
        let m = all.index_of(sorted[k]);
        assert(all[m].pinned == (all[m].entry.name@ == selected));
    }
    let shown = visible_branches(branches, selected, query);
    assert forall|i: int, j: int| 0 <= i < j < shown.len() implies {
        let a = (#[trigger] shown[i]).name@;
        let b = (#[trigger] shown[j]).name@;
        (b == selected ==> a == selected) && ((a == selected) == (b == selected) ==> text_le(a, b))
    } by {
        assert(sorted[i].ranks_before(sorted[j]));
    }
}

proof fn same_items(all: Seq<ListedBranch>, sorted: Seq<ListedBranch>, k: int)
    requires
        all.to_multiset() == sorted.to_multiset(),
        0 <= k < sorted.len(),
    ensures
        all.contains(sorted[k]),
{
    broadcast use vstd::seq_lib::group_to_multiset_ensures;

    assert(sorted.to_multiset().count(sorted[k]) > 0) by {
        assert(sorted.contains(sorted[k]));
    }
    assert(all.to_multiset().count(sorted[k]) > 0);
}

/// What can be done: nothing with a branch that cannot be chosen, and each of the others once.
pub proof fn every_free_branch_can_be_chosen(listed: Seq<BranchEntry>, planned: bool, i: int)
    requires
        0 <= i < listed.len(),
        !is_disabled(listed[i], planned),
    ensures
        actions_of(listed, planned).contains(ActionView::Checkout(listed[i].name@)),
{
    checkout_listed(listed, planned, i);
    let all = checkouts(listed, planned);
    let action = ActionView::Checkout(listed[i].name@);
    let k = all.index_of(action);
    if !planned {
        assert(all.push(ActionView::Create)[k] == action);
    }
}

proof fn checkout_listed(listed: Seq<BranchEntry>, planned: bool, i: int)
    requires
        0 <= i < listed.len(),
        !is_disabled(listed[i], planned),
    ensures
        checkouts(listed, planned).contains(ActionView::Checkout(listed[i].name@)),
    decreases listed.len(),
{
    let all = checkouts(listed, planned);
    if i == listed.len() - 1 {
        assert(all[all.len() - 1] == ActionView::Checkout(listed[i].name@));
    } else {
        checkout_listed(listed.drop_last(), planned, i);
        let before = checkouts(listed.drop_last(), planned);
        let k = before.index_of(ActionView::Checkout(listed[i].name@));
        assert(all[k] == before[k]);
    }
}

} // verus!
