//! What the controls round the composer promise: what the button does, which efforts and modes are offered, what
//! waits, what is staged, and what an agent's question shows.
use crate::composer::controls::{
    composer_submit_action, render_access_control, render_composer, render_fast_mode_control,
    render_interaction_mode_control, render_reasoning_effort_control, render_submit, AccessControl,
    ComposerSubmitAction, EffortControl, FastModeControl, InteractionControl, SubmitControl,
};
use crate::composer::questions::{
    answer_views, answers_of, button_views, card_of, chosen, render_permission, render_user_input,
    PendingPermission, PendingUserInput, RequestCard, UserInputCard,
};
use crate::composer::workspace::{
    file_names, project_items, queued_views, remove_attachment, render_composer_attachments,
    render_queued_messages, render_workspace_footer, tile_key, AttachmentTile, QueuedRow, TileKey,
    TileKind, WorkspaceFooter,
};
use crate::key_map::KeyMap;
use crate::protocol::{InteractionMode, RuntimeMode, ServiceTier, SessionStatus};
use crate::providers::{ModelCatalog, ReasoningEffortOption};
use crate::runtime::options::{effort_position, session_entry};
use crate::runtime::state::Waku;
use crate::runtime::task_laws::{at_rest, first_task_is_found, stands_first};
use crate::session::{AgentSession, MessageAttachment, Project};
use crate::text::{joined, opt_view, trimmed, views};
use vstd::prelude::*;

verus! {

broadcast use vstd::std_specs::hash::group_hash_axioms;

/// The button stops a task at work, sends to one at rest or to none, and waits while a message is being prepared.
pub proof fn the_button_stops_what_works(
    status: Option<SessionStatus>,
    preparing: bool,
    r: ComposerSubmitAction,
)
    requires
        call_ensures(composer_submit_action, (status, preparing), r),
    ensures
        r is Preparing <==> preparing,
        r is Stop <==> !preparing && status is Some && !at_rest(status->0),
        r is Send <==> !preparing && (status is None || at_rest(status->0)),
{
}

/// There is a draft where there is text or a file; it can be queued while the task works, and the hint about the
/// escape key is shown only then.
pub proof fn a_draft_can_be_queued_while_the_task_works(
    status: Option<SessionStatus>,
    preparing: bool,
    text: &str,
    attachments: usize,
    armed: bool,
    r: SubmitControl,
)
    requires
        call_ensures(render_submit, (status, preparing, text, attachments, armed), r),
    ensures
        r.has_draft <==> trimmed(text@).len() > 0 || attachments > 0,
        r.queue_button <==> r.has_draft && !preparing && status is Some && !at_rest(status->0),
        r.escape_hint <==> armed && !preparing && status is Some && !at_rest(status->0),
        r.shows_attachments <==> attachments > 0,
{
}

/// The composer follows the task that is shown: its status, and whether a message or a fork of it is being
/// prepared.
pub proof fn the_composer_follows_the_shown_task(
    waku: &Waku,
    text: &str,
    armed: bool,
    r: SubmitControl,
    i: int,
)
    requires
        call_ensures(render_composer, (waku, text, armed), r),
        stands_first(waku.tasks.sessions@, i),
        waku.tasks.selected_session == Some(waku.tasks.sessions@[i].id),
    ensures
        ({
            let task = waku.tasks.sessions@[i];
            let preparing = waku.submission_preparations@.contains(task.id)
                || waku.response_fork_preparations@.contains_key(task.id);
            &&& r.action is Preparing <==> preparing
            &&& r.action is Stop <==> !preparing && !at_rest(task.status)
            &&& r.action is Send <==> !preparing && at_rest(task.status)
            &&& r.has_draft <==> trimmed(text@).len() > 0 || waku.composer_attachments@.len() > 0
        }),
{
    first_task_is_found(waku.tasks.sessions@, i);
}

/// The efforts of a model are offered as its catalog lists them. The one that the task asks for is marked; where
/// the model has none such, its default is, and failing that its first.
pub proof fn the_effort_of_a_task_is_marked(
    session: &AgentSession,
    catalogs: &KeyMap<String, ModelCatalog>,
    r: Option<EffortControl>,
    i: int,
    k: int,
)
    requires
        call_ensures(render_reasoning_effort_control, (Some(session), catalogs), r),
    ensures
        ({
            let found = session_entry(session.provider@, opt_view(session.model), catalogs@);
            r is Some <==> found is Some && (found->0).supported && (
            found->0).capabilities.reasoning_effort && (found->0).reasoning_efforts@.len() > 0
        }),
        r is Some ==> ({
            let entry = session_entry(session.provider@, opt_view(session.model), catalogs@)->0;
            let efforts = entry.reasoning_efforts@;
            let c = r->0;
            &&& c.items@.len() == efforts.len()
            &&& 0 <= i < efforts.len() ==> c.items@[i].id == efforts[i].id && c.items@[i].label
                == efforts[i].label
            &&& 0 <= k < efforts.len() && session.reasoning_effort is Some && (
            session.reasoning_effort->0)@ == efforts[k].id@ && 0 <= i < efforts.len() ==> (
            c.items@[i].selected <==> efforts[i].id@ == efforts[k].id@)
            &&& (forall|j: int|
                0 <= j < efforts.len() ==> (session.reasoning_effort is None || (
                #[trigger] efforts[j]).id@ != (session.reasoning_effort->0)@)) && 0 <= k
                < efforts.len() && entry.default_reasoning_effort is Some && (
            entry.default_reasoning_effort->0)@ == efforts[k].id@ && 0 <= i < efforts.len() ==> (
            c.items@[i].selected <==> efforts[i].id@ == efforts[k].id@)
        }),
{
    let entry = session_entry(session.provider@, opt_view(session.model), catalogs@)->0;
    let efforts = entry.reasoning_efforts@;
    if 0 <= k < efforts.len() {
        effort_found(efforts, efforts[k].id@, 0);
    }
    if session.reasoning_effort is Some {
        effort_found(efforts, (session.reasoning_effort->0)@, 0);
    }
    assert(opt_view(session.reasoning_effort) is Some <==> session.reasoning_effort is Some);
    assert(opt_view(entry.default_reasoning_effort) is Some
        <==> entry.default_reasoning_effort is Some);
}

proof fn effort_found(
    efforts: Seq<ReasoningEffortOption>,
    id: Seq<char>,
    i: int,
)
    requires
        0 <= i <= efforts.len(),
    ensures
        i <= effort_position(efforts, id, i) <= efforts.len(),
        effort_position(efforts, id, i) < efforts.len() ==> efforts[effort_position(
            efforts,
            id,
            i,
        )].id@ == id,
        effort_position(efforts, id, i) >= efforts.len() ==> forall|k: int|
            i <= k < efforts.len() ==> (#[trigger] efforts[k]).id@ != id,
    decreases efforts.len() - i,
{
    if i < efforts.len() && efforts[i].id@ != id {
        effort_found(efforts, id, i + 1);
    }
}

/// The switch for speed is on where the task asks for it, and turns it over.
pub proof fn the_switch_for_speed_turns_over(
    session: &AgentSession,
    catalogs: &KeyMap<String, ModelCatalog>,
    r: Option<FastModeControl>,
)
    requires
        call_ensures(render_fast_mode_control, (Some(session), catalogs), r),
        r is Some,
    ensures
        (r->0).enabled <==> session.service_tier == Some(ServiceTier::Priority),
        (r->0).enabled ==> (r->0).next is None,
        !(r->0).enabled ==> (r->0).next == Some(ServiceTier::Priority),
{
}

/// The modes of the task that is shown are marked, and without a task the agent asks and builds.
pub proof fn the_modes_of_a_task_are_shown(
    session: Option<&AgentSession>,
    options: &Vec<RuntimeMode>,
    access: AccessControl,
    interaction: InteractionControl,
    i: int,
)
    requires
        call_ensures(render_access_control, (session, options), access),
        call_ensures(render_interaction_mode_control, (session,), interaction),
    ensures
        session matches Some(s) ==> access.selected == s.runtime_mode && interaction.mode
            == s.interaction_mode,
        session is None ==> access.selected == RuntimeMode::Ask && interaction.mode
            == InteractionMode::Build,
        interaction.next != interaction.mode,
        access.items@.len() == options@.len(),
        0 <= i < options@.len() ==> access.items@[i].0 == options@[i] && (access.items@[i].1
            <==> options@[i] == access.selected),
{
}

/// The messages that wait are shown in their order, each with its text, or with the names of its files where it
/// has none.
pub proof fn waiting_messages_are_shown(
    waku: &Waku,
    r: Option<Vec<QueuedRow>>,
    i: int,
    k: int,
)
    requires
        call_ensures(render_queued_messages, (waku,), r),
        stands_first(waku.tasks.sessions@, i),
        waku.tasks.selected_session == Some(waku.tasks.sessions@[i].id),
    ensures
        r is Some <==> waku.tasks.sessions@[i].queued_messages@.len() > 0,
        r is Some ==> (r->0)@.len() == waku.tasks.sessions@[i].queued_messages@.len(),
        0 <= k < waku.tasks.sessions@[i].queued_messages@.len() ==> ({
            let m = waku.tasks.sessions@[i].queued_messages@[k];
            let row = (r->0)@[k];
            &&& row.message_id == m.id
            &&& m.display_content is None && trimmed(m.content@).len() > 0 ==> row.content@
                == m.content@
            &&& m.display_content is Some && trimmed((m.display_content->0)@).len() > 0
                ==> row.content@ == (m.display_content->0)@
            &&& m.display_content is None && trimmed(m.content@).len() == 0 && m.attachments@.len()
                == 1 ==> row.content@ == m.attachments@[0].name@
            &&& row.steerable ==> !at_rest(waku.tasks.sessions@[i].status)
        }),
{
    first_task_is_found(waku.tasks.sessions@, i);
    let queue = waku.tasks.sessions@[i].queued_messages@;
    if queue.len() > 0 {
        let v = queued_views((r->0)@);
        assert(v.len() == (r->0)@.len());
        if 0 <= k < queue.len() {
            assert(v[k] == (r->0)@[k]@);
            let names = file_names(queue[k].attachments@);
            assert(opt_view(queue[k].display_content) is Some
                <==> queue[k].display_content is Some);
            if queue[k].attachments@.len() == 1 {
                assert(names.len() == 1 && names[0] == queue[k].attachments@[0].name@);
                reveal_with_fuel(joined, 2);
            }
        }
    }
}

/// Every staged file has its tile, in their order: a picture or an icon for an image, a folder for a directory, and
/// a file for any other.
pub proof fn every_staged_file_has_its_tile(
    files: &Vec<MessageAttachment>,
    pictured: &Vec<bool>,
    r: Vec<AttachmentTile>,
    i: int,
)
    requires
        pictured@.len() == files@.len(),
        call_ensures(render_composer_attachments, (files, pictured), r),
        0 <= i < files@.len(),
    ensures
        r@.len() == files@.len(),
        r@[i].tooltip@ == "@"@ + files@[i].mention@,
        r@[i].kind is Picture <==> files@[i].is_image && pictured@[i],
        r@[i].kind is ImageIcon <==> files@[i].is_image && !pictured@[i],
        r@[i].kind is Folder <==> !files@[i].is_image && files@[i].is_dir,
        r@[i].kind is File <==> !files@[i].is_image && !files@[i].is_dir,
{
    assert(r@[i].tooltip@ == "@"@ + files@[i].mention@);
}

/// Taking a file off leaves the others as they stood; a file that is not there changes nothing. A key previews
/// pictures only.
pub proof fn one_file_is_taken_off(
    files: &mut Vec<MessageAttachment>,
    index: usize,
    r: bool,
    k: int,
    kind: TileKind,
    key: &str,
    shift: bool,
    pressed: TileKey,
)
    requires
        call_ensures(remove_attachment, (files, index), r),
        call_ensures(tile_key, (kind, key, shift), pressed),
    ensures
        r <==> index < old(files)@.len(),
        !r ==> final(files)@ == old(files)@,
        r ==> final(files)@.len() == old(files)@.len() - 1,
        r && 0 <= k < index ==> final(files)@[k] == old(files)@[k],
        r && index <= k < final(files)@.len() ==> final(files)@[k] == old(files)@[k + 1],
        pressed is Preview ==> kind is Picture,
        kind is Picture && (key@ == "enter"@ || key@ == "space"@) ==> pressed is Preview,
        pressed is Menu ==> shift && key@ == "f10"@,
        shift && key@ == "f10"@ ==> pressed is Menu,
{
    reveal_strlit("enter");
    reveal_strlit("space");
    reveal_strlit("f10");
    assert("f10"@.len() == 3 && "enter"@.len() == 5 && "space"@.len() == 5);
}

proof fn items_have(projects: Seq<Project>, selected: Option<u128>, chosen: bool, id: u128)
    ensures
        (exists|k: int|
            0 <= k < project_items(projects, selected, chosen).len() && (
            #[trigger] project_items(projects, selected, chosen)[k]).id == id) <==> (exists|i: int|
            0 <= i < projects.len() && (#[trigger] projects[i]).id == id && !projects[i].projectless
                && (selected == Some(id)) == chosen),
        forall|k: int|
            0 <= k < project_items(projects, selected, chosen).len() ==> (
            #[trigger] project_items(projects, selected, chosen)[k]).selected == chosen && (selected
                == Some(project_items(projects, selected, chosen)[k].id)) == chosen,
    decreases projects.len(),
{
    if projects.len() > 0 {
        let head = projects.drop_last();
        let last = projects.last();
        let n = head.len() as int;
        let before = project_items(head, selected, chosen);
        let all = project_items(projects, selected, chosen);
        items_have(head, selected, chosen, id);
        assert(projects[n] == last);
        assert forall|k: int| 0 <= k < all.len() implies (#[trigger] all[k]).selected == chosen && (
        selected == Some(all[k].id)) == chosen by {
            if k < before.len() {
                assert(all[k] == before[k]);
            }
        }
        if exists|k: int| 0 <= k < all.len() && (#[trigger] all[k]).id == id {
            let k = choose|k: int| 0 <= k < all.len() && (#[trigger] all[k]).id == id;
            if k < before.len() {
                assert(before[k].id == id);
                let i = choose|i: int|
                    0 <= i < head.len() && (#[trigger] head[i]).id == id && !head[i].projectless && (
                    selected == Some(id)) == chosen;
                assert(projects[i] == head[i]);
            }
        }
        if exists|i: int|
            0 <= i < projects.len() && (#[trigger] projects[i]).id == id && !projects[i].projectless
                && (selected == Some(id)) == chosen {
            let i = choose|i: int|
                0 <= i < projects.len() && (#[trigger] projects[i]).id == id
                    && !projects[i].projectless && (selected == Some(id)) == chosen;
            if i < n {
                assert(head[i].id == id);
                let k = choose|k: int| 0 <= k < before.len() && (#[trigger] before[k]).id == id;
                assert(all[k].id == id);
            } else {
                assert(all[before.len() as int].id == id);
            }
        }
    }
}

/// A task that has not begun can be put into any project and any place of work; the project that it is in is marked
/// and comes first.
pub proof fn a_task_can_be_placed_before_it_begins(
    waku: &Waku,
    r: WorkspaceFooter,
    i: int,
    id: u128,
    k: int,
    l: int,
)
    requires
        call_ensures(render_workspace_footer, (waku,), r),
        stands_first(waku.tasks.sessions@, i),
        waku.tasks.selected_session == Some(waku.tasks.sessions@[i].id),
    ensures
        ({
            let task = waku.tasks.sessions@[i];
            &&& r.can_configure <==> !task.started && at_rest(task.status)
            &&& r.can_configure ==> ((exists|j: int|
                0 <= j < r.projects@.len() && (#[trigger] r.projects@[j]).id == id) <==> (exists|
                j: int,
            |
                0 <= j < waku.tasks.projects@.len() && (#[trigger] waku.tasks.projects@[j]).id == id
                    && !waku.tasks.projects@[j].projectless))
            &&& !r.can_configure ==> r.projects@.len() == 0
            &&& 0 <= k < r.projects@.len() ==> (r.projects@[k].selected
                <==> waku.tasks.selected_project == Some(r.projects@[k].id))
            &&& 0 <= k < l < r.projects@.len() && r.projects@[l].selected
                ==> r.projects@[k].selected
            &&& r.local_selected <==> task.workspace is Local
            &&& r.worktree_selected <==> !(task.workspace is Local)
        }),
{
    first_task_is_found(waku.tasks.sessions@, i);
    let projects = waku.tasks.projects@;
    let selected = waku.tasks.selected_project;
    if r.can_configure {
        let a = project_items(projects, selected, true);
        let b = project_items(projects, selected, false);
        items_have(projects, selected, true, id);
        items_have(projects, selected, false, id);
        assert(r.projects@ == a + b);
        if exists|j: int| 0 <= j < r.projects@.len() && (#[trigger] r.projects@[j]).id == id {
            let j = choose|j: int|
                0 <= j < r.projects@.len() && (#[trigger] r.projects@[j]).id == id;
            if j < a.len() {
                assert(a[j].id == id);
            } else {
                assert(b[j - a.len()].id == id);
            }
        }
        if exists|j: int|
            0 <= j < projects.len() && (#[trigger] projects[j]).id == id
                && !projects[j].projectless {
            if selected == Some(id) {
                let j = choose|j: int| 0 <= j < a.len() && (#[trigger] a[j]).id == id;
                assert(r.projects@[j].id == id);
            } else {
                let j = choose|j: int| 0 <= j < b.len() && (#[trigger] b[j]).id == id;
                assert(r.projects@[a.len() + j].id == id);
            }
        }
        if 0 <= k < r.projects@.len() {
            if k < a.len() {
                assert(r.projects@[k] == a[k]);
            } else {
                assert(r.projects@[k] == b[k - a.len()]);
            }
        }
        if 0 <= l < r.projects@.len() {
            if l < a.len() {
                assert(r.projects@[l] == a[l]);
            } else {
                assert(r.projects@[l] == b[l - a.len()]);
            }
        }
    }
}

/// An agent's question is shown with every answer that it offers, those that were chosen marked. It can be gone on
/// from once something was chosen or written, and back from all but the first.
pub proof fn a_question_shows_its_answers(
    p: &PendingUserInput,
    r: Option<UserInputCard>,
    i: int,
)
    requires
        call_ensures(render_user_input, (p,), r),
    ensures
        r is Some <==> p.question_index < p.questions@.len(),
        r matches Some(card) ==> ({
            let q = p.questions@[p.question_index as int];
            let wrote = p.custom_answers@.contains_key(q.id@) && trimmed(
                p.custom_answers@[q.id@]@,
            ).len() > 0;
            let chose = p.selections@.contains_key(q.id@) && p.selections@[q.id@]@.len() > 0;
            &&& card.question@ == q.question@
            &&& card.header@ == q.header@
            &&& card.answers@.len() == q.options@.len()
            &&& 0 <= i < q.options@.len() ==> card.answers@[i].label@ == q.options@[i].label@ && (
            card.answers@[i].selected <==> p.selections@.contains_key(q.id@) && exists|j: int|
                0 <= j < p.selections@[q.id@]@.len() && (#[trigger] p.selections@[q.id@]@[j])@
                    == q.options@[i].label@)
            &&& card.can_continue <==> wrote || chose
            &&& card.has_custom <==> wrote
            &&& card.back_id is Some <==> p.question_index > 0
            &&& card.progress is Some <==> p.questions@.len() > 1
            &&& card.progress matches Some((at, of)) ==> at == p.question_index + 1 && of
                == p.questions@.len()
        }),
{
    if let Some(card) = r {
        let q = p.questions@[p.question_index as int];
        let v = answer_views(card.answers@);
        assert(card@ == card_of(*p));
        assert(v == answers_of(*p));
        assert(v.len() == card.answers@.len());
        assert(opt_view(card.back_id) is Some <==> card.back_id is Some);
        if p.selections@.contains_key(q.id@) {
            let list = p.selections@[q.id@]@;
            assert(views(list).len() == list.len());
            if 0 <= i < q.options@.len() {
                let label = q.options@[i].label@;
                if views(list).contains(label) {
                    let j = views(list).index_of(label);
                    assert(list[j]@ == label);
                }
                if exists|j: int| 0 <= j < list.len() && (#[trigger] list[j])@ == label {
                    let j = choose|j: int| 0 <= j < list.len() && (#[trigger] list[j])@ == label;
                    assert(views(list)[j] == label);
                }
            }
        }
        if 0 <= i < q.options@.len() {
            assert(v[i] == card.answers@[i]@);
        }
        assert(p.questions.len() <= usize::MAX);
    }
}

/// A question goes before a permission, and a permission shows its options in their order, each as it allows or
/// not.
pub proof fn questions_go_before_permissions(
    input: &Option<PendingUserInput>,
    permission: &Option<PendingPermission>,
    r: Option<RequestCard>,
    i: int,
)
    requires
        call_ensures(render_permission, (input, permission), r),
    ensures
        r is None <==> input is None && permission is None,
        *input is Some ==> r->0 is Question,
        *input is None ==> (*permission matches Some(p) ==> {
            &&& r->0 is Permission
            &&& (r->0)->title@ == p.title@
            &&& (r->0)->detail@ == p.detail@
            &&& (r->0)->buttons@.len() == p.options@.len()
            &&& 0 <= i < p.options@.len() ==> (r->0)->buttons@[i].option_id@ == p.options@[i].id@
                && (r->0)->buttons@[i].label@ == p.options@[i].label@ && (r->0)->buttons@[i].allow
                == p.options@[i].allow
        }),
{
    if *input is None {
        if let Some(p) = *permission {
            let v = button_views((r->0)->buttons@);
            assert(v.len() == (r->0)->buttons@.len());
            if 0 <= i < p.options@.len() {
                assert(v[i] == (r->0)->buttons@[i]@);
            }
        }
    }
}

} // verus!
