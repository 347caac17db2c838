//! What stands round the composer's field: the messages that wait, the staged files, and the project and
//! the directory of the task.
use crate::ids::{hyphenated, uuid_text};
use crate::label::{Label, LabelView};
use crate::protocol::busy;
use crate::runtime::queue::takes_messages;
use crate::runtime::state::Waku;
use crate::session::{
    project_position, visible_text, AgentSession, MessageAttachment, Project, QueuedMessage,
    SessionWorkspace,
};
use crate::text::{
    concat, decimal, decimal_text, join, joined, opt_view, same_text, trim, trimmed, views,
};
use vstd::prelude::*;

verus! {

// ---------------------------------------------------------------------------
// Messages that wait
// ---------------------------------------------------------------------------
/// A message that waits, as it is shown.
#[derive(Debug)]
pub struct QueuedRow {
    pub message_id: u128,
    /// The name of the row.
    pub id: String,
    pub content: String,
    /// It can go to the agent right away.
    pub steerable: bool,
}

/// The contents of a message that waits, as it is shown.
pub ghost struct QueuedRowView {
    pub message_id: u128,
    pub id: Seq<char>,
    pub content: Seq<char>,
    pub steerable: bool,
}

impl View for QueuedRow {
    type V = QueuedRowView;

    open spec fn view(&self) -> QueuedRowView {
        QueuedRowView {
            message_id: self.message_id,
            id: self.id@,
            content: self.content@,
            steerable: self.steerable,
        }
    }
}

/// The names of some files.
pub open spec fn file_names(list: Seq<MessageAttachment>) -> Seq<Seq<char>> {
    Seq::new(list.len(), |i: int| list[i].name@)
}

/// What is shown of a message that waits: its text, or the names of its files, where it has none.
pub open spec fn queued_content(m: QueuedMessage) -> Seq<char> {
    let text = visible_text(m.content@, opt_view(m.display_content));
    if trimmed(text).len() == 0 {
        joined(file_names(m.attachments@), ", "@)
    } else {
        text
    }
}

/// The rows of the messages that wait.
pub open spec fn queued_rows(queue: Seq<QueuedMessage>, steerable: bool) -> Seq<QueuedRowView> {
    Seq::new(
        queue.len(),
        |i: int|
            QueuedRowView {
                message_id: queue[i].id,
                id: "queued-message-"@ + hyphenated(queue[i].id),
                content: queued_content(queue[i]),
                steerable,
            },
    )
}

/// The contents of some rows.
pub open spec fn queued_views(list: Seq<QueuedRow>) -> Seq<QueuedRowView> {
    Seq::new(list.len(), |i: int| list[i]@)
}

fn content_of(m: &QueuedMessage) -> (r: String)
    ensures
        r@ == queued_content(*m),
{
    let text = m.visible_content();
    if !trim(text).as_str().is_empty() {
        return text.to_string();
    }
    let mut names: Vec<String> = Vec::new();
    for i in 0..m.attachments.len()
        invariant
            names@.len() == i,
            forall|k: int| 0 <= k < i ==> (#[trigger] names@[k])@ == m.attachments@[k].name@,
    {
        names.push(m.attachments[i].name.clone());
    }
    assert(views(names@) =~= file_names(m.attachments@));
    join(names.as_slice(), ", ")
}

/// The messages that wait for the agent of the task that is shown. `None` where there are none.
pub fn render_queued_messages(waku: &Waku) -> (r: Option<Vec<QueuedRow>>)
    ensures
        ({
            let id = waku.tasks.selected_session->0;
            let task = waku.tasks.task(id);
            if waku.tasks.selected_session is Some && waku.tasks.lists(id)
                && task.queued_messages@.len() > 0 {
                &&& r is Some
                &&& queued_views(r->0@) == queued_rows(
                    task.queued_messages@,
                    busy(task.status) && takes_messages(*waku, task),
                )
            } else {
                r is None
            }
        }),
{
    let session: &AgentSession = match waku.selected_session() {
        Some(s) => s,
        None => return None,
    };
    if session.queued_messages.len() == 0 {
        return None;
    }
    let steerable = session.is_busy() && waku.can_steer(session);
    let mut rows: Vec<QueuedRow> = Vec::new();
    for i in 0..session.queued_messages.len()
        invariant
            rows@.len() == i,
            forall|k: int|
                0 <= k < i ==> (#[trigger] rows@[k])@ == queued_rows(
                    session.queued_messages@,
                    steerable,
                )[k],
    {
        let m = &session.queued_messages[i];
        rows.push(
            QueuedRow {
                message_id: m.id,
                id: concat("queued-message-", uuid_text(m.id).as_str()),
                content: content_of(m),
                steerable,
            },
        );
    }
    assert(queued_views(rows@) =~= queued_rows(session.queued_messages@, steerable));
    Some(rows)
}

// ---------------------------------------------------------------------------
// Staged files
// ---------------------------------------------------------------------------
/// What a staged file is shown as.
#[derive(Clone, Copy, Debug, PartialEq, Eq, Structural)]
pub enum TileKind {
    /// Its picture.
    Picture,
    /// The icon for images: the picture is not there.
    ImageIcon,
    /// The icon for directories, and the name.
    Folder,
    /// An icon by its kind, and the name.
    File,
}

/// A staged file, as it is shown.
#[derive(Debug)]
pub struct AttachmentTile {
    pub id: String,
    pub tooltip: String,
    pub kind: TileKind,
}

/// What a staged file is shown as. `pictured` is set where its picture is there.
pub open spec fn tile_kind(a: MessageAttachment, pictured: bool) -> TileKind {
    if a.is_image {
        if pictured {
            TileKind::Picture
        } else {
            TileKind::ImageIcon
        }
    } else if a.is_dir {
        TileKind::Folder
    } else {
        TileKind::File
    }
}

/// A staged file, as it is shown. `pictured` is set where its picture is there.
pub fn attachment_tile(a: &MessageAttachment, index: usize, pictured: bool) -> (r: AttachmentTile)
    ensures
        r.id@ == "composer-attachment-"@ + decimal(index as nat),
        r.tooltip@ == "@"@ + a.mention@,
        r.kind == tile_kind(*a, pictured),
{
    let kind = if a.is_image {
        if pictured {
            TileKind::Picture
        } else {
            TileKind::ImageIcon
        }
    } else if a.is_dir {
        TileKind::Folder
    } else {
        TileKind::File
    };
    AttachmentTile {
        id: concat("composer-attachment-", decimal_text(index as u64).as_str()),
        tooltip: concat("@", a.mention.as_str()),
        kind,
    }
}

/// Tells whether tiles show the staged files. `pictured` tells of each whether its picture is there.
pub open spec fn shows_tiles(
    tiles: Seq<AttachmentTile>,
    files: Seq<MessageAttachment>,
    pictured: Seq<bool>,
) -> bool {
    &&& tiles.len() == files.len()
    &&& forall|i: int|
        0 <= i < tiles.len() ==> {
            &&& (#[trigger] tiles[i]).id@ == "composer-attachment-"@ + decimal(i as nat)
            &&& tiles[i].tooltip@ == "@"@ + files[i].mention@
            &&& tiles[i].kind == tile_kind(files[i], pictured[i])
        }
}

/// The staged files, as they are shown. `pictured` tells of each whether its picture is there.
pub fn render_composer_attachments(files: &Vec<MessageAttachment>, pictured: &Vec<bool>) -> (r: Vec<
    AttachmentTile,
>)
    requires
        pictured@.len() == files@.len(),
    ensures
        shows_tiles(r@, files@, pictured@),
{
    let mut r: Vec<AttachmentTile> = Vec::new();
    for i in 0..files.len()
        invariant
            pictured@.len() == files@.len(),
            i <= files@.len(),
            shows_tiles(r@, files@.take(i as int), pictured@),
    {
        r.push(attachment_tile(&files[i], i, pictured[i]));
    }
    assert(files@.take(files@.len() as int) =~= files@);
    r
}

/// What a key does on the tile of a staged file.
#[derive(Clone, Copy, Debug, PartialEq, Eq, Structural)]
pub enum TileKey {
    Nothing,
    /// It shows the picture in full.
    Preview,
    /// It opens the menu.
    Menu,
}

/// What a key does on the tile of a staged file: Enter and Space show a picture that is there, F10 with
/// Shift opens the menu.
pub fn tile_key(kind: TileKind, key: &str, shift: bool) -> (r: TileKey)
    ensures
        r == (if kind == TileKind::Picture && (key@ == "enter"@ || key@ == "space"@) {
            TileKey::Preview
        } else if key@ == "f10"@ && shift {
            TileKey::Menu
        } else {
            TileKey::Nothing
        }),
{
    let pictured = match kind {
        TileKind::Picture => true,
        _ => false,
    };
    if pictured && (same_text(key, "enter") || same_text(key, "space")) {
        TileKey::Preview
    } else if same_text(key, "f10") && shift {
        TileKey::Menu
    } else {
        TileKey::Nothing
    }
}

/// Takes a file off the staged ones, and tells whether it was there.
pub fn remove_attachment(files: &mut Vec<MessageAttachment>, index: usize) -> (r: bool)
    ensures
        r == (index < old(files)@.len()),
        final(files)@ == (if r {
            old(files)@.remove(index as int)
        } else {
            old(files)@
        }),
{
    if index < files.len() {
        files.remove(index);
        true
    } else {
        false
    }
}

// ---------------------------------------------------------------------------
// Project and directory
// ---------------------------------------------------------------------------
/// A project that can be chosen.
#[derive(Debug)]
pub struct ProjectItem {
    pub id: u128,
    pub name: String,
    pub selected: bool,
}

/// The projects of a list that can be chosen: those that are the chosen one, or those that are not.
pub open spec fn project_items(
    projects: Seq<Project>,
    selected: Option<u128>,
    chosen: bool,
) -> Seq<ProjectItem>
    decreases projects.len(),
{
    if projects.len() == 0 {
        Seq::empty()
    } else {
        let before = project_items(projects.drop_last(), selected, chosen);
        let p = projects.last();
        if !p.projectless && (selected == Some(p.id)) == chosen {
            before.push(ProjectItem { id: p.id, name: p.display_name, selected: chosen })
        } else {
            before
        }
    }
}

fn collect_projects(
    items: &mut Vec<ProjectItem>,
    projects: &Vec<Project>,
    selected: Option<u128>,
    chosen: bool,
)
    ensures
        final(items)@ == old(items)@ + project_items(projects@, selected, chosen),
{
    let ghost start = items@;
    assert(projects@.take(0) =~= Seq::empty());
    assert(start + Seq::<ProjectItem>::empty() =~= start);
    for i in 0..projects.len()
        invariant
            items@ == start + project_items(projects@.take(i as int), selected, chosen),
    {
        assert(projects@.take(i as int + 1).drop_last() =~= projects@.take(i as int));
        let ghost so_far = project_items(projects@.take(i as int), selected, chosen);
        let p = &projects[i];
        let is_chosen = match selected {
            Some(id) => id == p.id,
            None => false,
        };
        if !p.projectless && is_chosen == chosen {
            let item = ProjectItem { id: p.id, name: p.display_name.clone(), selected: chosen };
            items.push(item);
            assert(start + so_far.push(item) =~= (start + so_far).push(item));
        }
    }
    assert(projects@.take(projects@.len() as int) =~= projects@);
}

/// The project and the directory of the task that is shown.
#[derive(Debug)]
pub struct WorkspaceFooter {
    pub project_label: Label,
    /// They can be chosen: nothing has been sent in the task yet, and its agent is not at work.
    pub can_configure: bool,
    /// The projects that can be chosen, where they can be.
    pub projects: Vec<ProjectItem>,
    /// The task has no project.
    pub projectless: bool,
    pub workspace_label: Label,
    pub workspace_icon: &'static str,
    pub local_selected: bool,
    pub worktree_selected: bool,
}

/// What is said of where a task works.
pub open spec fn workspace_label(w: SessionWorkspace) -> LabelView {
    match w {
        SessionWorkspace::Local => LabelView::Message("workspace.local"@),
        SessionWorkspace::NewWorktree { .. } => LabelView::Message("workspace.new_worktree"@),
        SessionWorkspace::Worktree { branch, .. } => LabelView::Plain(branch@),
    }
}

/// The project that is shown.
pub open spec fn shown_project(waku: Waku) -> Option<Project> {
    if waku.tasks.selected_project is Some && project_position(
        waku.tasks.projects@,
        waku.tasks.selected_project->0,
        0,
    ) < waku.tasks.projects@.len() {
        Some(
            waku.tasks.projects@[project_position(
                waku.tasks.projects@,
                waku.tasks.selected_project->0,
                0,
            )],
        )
    } else {
        None
    }
}

/// The task that is shown.
pub open spec fn shown_task(waku: Waku) -> Option<AgentSession> {
    if waku.tasks.selected_session is Some && waku.tasks.lists(waku.tasks.selected_session->0) {
        Some(waku.tasks.task(waku.tasks.selected_session->0))
    } else {
        None
    }
}

/// The project and the directory of the task that is shown.
pub fn render_workspace_footer(waku: &Waku) -> (r: WorkspaceFooter)
    ensures
        ({
            let project = shown_project(*waku);
            let task = shown_task(*waku);
            let workspace = match task {
                Some(t) => t.workspace,
                None => SessionWorkspace::Local,
            };
            let selected = waku.tasks.selected_project;
            &&& r.project_label@ == (if project is Some && !project->0.projectless {
                LabelView::Plain(project->0.display_name@)
            } else {
                LabelView::Message("project.choose_project"@)
            })
            &&& r.projectless == (project is Some && project->0.projectless)
            &&& r.can_configure == (task is Some && !task->0.started && !busy(task->0.status))
            &&& r.projects@ == (if r.can_configure {
                project_items(waku.tasks.projects@, selected, true) + project_items(
                    waku.tasks.projects@,
                    selected,
                    false,
                )
            } else {
                Seq::empty()
            })
            &&& r.workspace_label@ == workspace_label(workspace)
            &&& r.workspace_icon@ == (if workspace is Local {
                "icons/laptop.svg"@
            } else {
                "icons/fork.svg"@
            })
            &&& r.local_selected == (workspace is Local)
            &&& r.worktree_selected == !(workspace is Local)
        }),
{
    let project = waku.selected_project();
    let (project_label, projectless) = match project {
        Some(p) => if p.projectless {
            (Label::Message("project.choose_project"), true)
        } else {
            (Label::Plain(p.display_name.clone()), false)
        },
        None => (Label::Message("project.choose_project"), false),
    };
    let session = waku.selected_session();
    let can_configure = match session {
        Some(s) => !s.has_started() && !s.is_busy(),
        None => false,
    };
    let mut projects: Vec<ProjectItem> = Vec::new();
    if can_configure {
        collect_projects(&mut projects, &waku.tasks.projects, waku.tasks.selected_project, true);
        assert(projects@ =~= project_items(
            waku.tasks.projects@,
            waku.tasks.selected_project,
            true,
        ));
        collect_projects(&mut projects, &waku.tasks.projects, waku.tasks.selected_project, false);
    }
    let workspace_label = match session {
        Some(s) => match &s.workspace {
            SessionWorkspace::Local => Label::Message("workspace.local"),
            SessionWorkspace::NewWorktree { .. } => Label::Message("workspace.new_worktree"),
            SessionWorkspace::Worktree { branch, .. } => Label::Plain(branch.clone()),
        },
        None => Label::Message("workspace.local"),
    };
    let local = match session {
        Some(s) => s.workspace.is_local(),
        None => true,
    };
    WorkspaceFooter {
        project_label,
        can_configure,
        projects,
        projectless,
        workspace_label,
        workspace_icon: if local {
            "icons/laptop.svg"
        } else {
            "icons/fork.svg"
        },
        local_selected: local,
        worktree_selected: !local,
    }
}

// ---------------------------------------------------------------------------
// Laws
// ---------------------------------------------------------------------------
/// Tells whether a project can be chosen.
pub open spec fn lists_item(items: Seq<ProjectItem>, id: u128) -> bool {
    exists|k: int| 0 <= k < items.len() && (#[trigger] items[k]).id == id
}

/// Every project can be chosen, but for the one that stands for tasks without a project.
pub proof fn every_project_can_be_chosen(projects: Seq<Project>, selected: Option<u128>, i: int)
    requires
        0 <= i < projects.len(),
        !projects[i].projectless,
    ensures
        lists_item(
            project_items(projects, selected, selected == Some(projects[i].id)),
            projects[i].id,
        ),
    decreases projects.len(),
{
    let chosen = selected == Some(projects[i].id);
    let all = project_items(projects, selected, chosen);
    if i == projects.len() - 1 {
        assert(all[all.len() - 1].id == projects[i].id);
    } else {
        let head = projects.drop_last();
        every_project_can_be_chosen(head, selected, i);
        let before = project_items(head, selected, chosen);
        let k = choose|k: int|
            0 <= k < before.len() && (#[trigger] before[k]).id == projects[i].id;
        assert(all[k] == before[k]);
    }
}

} // verus!
