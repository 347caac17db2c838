//! The details of a record: the tabs of its sections and what each holds.
use crate::label::{Label, LabelView};
use crate::text::same_text;
use crate::trajectory::duration::{duration_words, format_duration_or};
use crate::trajectory::record::{
    allowed_sections, default_section_is_allowed, TrajectoryDetailSection, TrajectoryKind,
    TrajectoryRowSummary, TrajectoryStatus,
};
use crate::trajectory::state::{
    inspector_closed, record_position, DetailKey, StateView, TrajectorySessionState,
};
use vstd::prelude::*;

verus! {

/// The key of the message that names a section.
pub open spec fn section_key(section: TrajectoryDetailSection) -> Seq<char> {
    match section {
        TrajectoryDetailSection::Summary => "trajectory.tab_summary"@,
        TrajectoryDetailSection::Preview => "trajectory.tab_preview"@,
        TrajectoryDetailSection::Raw => "trajectory.tab_raw"@,
        TrajectoryDetailSection::Source => "trajectory.tab_source"@,
        TrajectoryDetailSection::SystemPrompt => "trajectory.tab_system_prompt"@,
        TrajectoryDetailSection::Tools => "trajectory.tab_tools"@,
        TrajectoryDetailSection::Diff => "trajectory.tab_diff"@,
        TrajectoryDetailSection::Options => "trajectory.tab_options"@,
        TrajectoryDetailSection::Usage => "trajectory.tab_usage"@,
        TrajectoryDetailSection::Timing => "trajectory.tab_timing"@,
        TrajectoryDetailSection::Payload => "trajectory.tab_payload"@,
        TrajectoryDetailSection::Result => "trajectory.tab_result"@,
        TrajectoryDetailSection::Schema => "trajectory.tab_schema"@,
    }
}

/// The name of a section.
pub fn localized_section_name(section: TrajectoryDetailSection) -> (r: Label)
    ensures
        r@ == LabelView::Message(section_key(section)),
{
    Label::Message(
        match section {
            TrajectoryDetailSection::Summary => "trajectory.tab_summary",
            TrajectoryDetailSection::Preview => "trajectory.tab_preview",
            TrajectoryDetailSection::Raw => "trajectory.tab_raw",
            TrajectoryDetailSection::Source => "trajectory.tab_source",
            TrajectoryDetailSection::SystemPrompt => "trajectory.tab_system_prompt",
            TrajectoryDetailSection::Tools => "trajectory.tab_tools",
            TrajectoryDetailSection::Diff => "trajectory.tab_diff",
            TrajectoryDetailSection::Options => "trajectory.tab_options",
            TrajectoryDetailSection::Usage => "trajectory.tab_usage",
            TrajectoryDetailSection::Timing => "trajectory.tab_timing",
            TrajectoryDetailSection::Payload => "trajectory.tab_payload",
            TrajectoryDetailSection::Result => "trajectory.tab_result",
            TrajectoryDetailSection::Schema => "trajectory.tab_schema",
        },
    )
}

/// The tab of a section.
pub struct InspectorTab {
    pub section: TrajectoryDetailSection,
    pub label: Label,
    pub selected: bool,
}

/// The details of a record, before what they hold is loaded.
pub struct InspectorModel {
    pub record: TrajectoryRowSummary,
    pub tabs: Vec<InspectorTab>,
    pub section: TrajectoryDetailSection,
    /// Where in the section to read from.
    pub cursor: u64,
}

/// Where in a section of a record to read from.
pub open spec fn cursor_of(s: StateView, id: u128, section: TrajectoryDetailSection) -> u64 {
    let key = DetailKey { record_id: id, section };
    if s.detail_cursors.contains_key(key) {
        s.detail_cursors[key]
    } else {
        0
    }
}

/// Tells whether a model shows the details of a record: one tab for each section that the record
/// offers, in their order, the selected one marked.
pub open spec fn shows_details(s: StateView, id: u128, m: InspectorModel) -> bool {
    let at = record_position(s.records, id, 0);
    let sections = allowed_sections(s.records[at].kind);
    &&& at < s.records.len()
    &&& m.record == s.records[at]
    &&& m.section == s.selected_section
    &&& m.cursor == cursor_of(s, id, s.selected_section)
    &&& m.tabs@.len() == sections.len()
    &&& forall|i: int|
        0 <= i < sections.len() ==> {
            &&& (#[trigger] m.tabs@[i]).section == sections[i]
            &&& m.tabs@[i].label@ == LabelView::Message(section_key(sections[i]))
            &&& m.tabs@[i].selected == (sections[i] == s.selected_section)
        }
}

/// What a key does that was pressed on a tab.
#[derive(Clone, Copy, Debug, PartialEq, Eq, Structural)]
pub enum TabKey {
    /// The key means nothing to the tab.
    Ignored,
    /// The key is answered without a change.
    Consumed,
    /// The key selects a section.
    Select(TrajectoryDetailSection),
}

/// What a key does that was pressed on the tab of `section`. `stepped` is the section that the key
/// moves to, if it does.
pub fn handle_tab_key(
    section: TrajectoryDetailSection,
    key: &str,
    stepped: Option<TrajectoryDetailSection>,
) -> (r: TabKey)
    ensures
        r == (if key@ == "enter"@ || key@ == "space"@ {
            TabKey::Select(section)
        } else if key@ == "left"@ || key@ == "right"@ || key@ == "home"@ || key@ == "end"@ {
            match stepped {
                Some(next) => TabKey::Select(next),
                None => TabKey::Consumed,
            }
        } else {
            TabKey::Ignored
        }),
{
    if same_text(key, "enter") || same_text(key, "space") {
        TabKey::Select(section)
    } else if same_text(key, "left") || same_text(key, "right") || same_text(key, "home")
        || same_text(key, "end") {
        match stepped {
            Some(next) => TabKey::Select(next),
            None => TabKey::Consumed,
        }
    } else {
        TabKey::Ignored
    }
}

impl TrajectorySessionState {
    /// The details of a record, where it is known.
    pub fn render_trajectory_inspector(&self, record_id: u128) -> (r: Option<InspectorModel>)
        ensures
            match r {
                Some(m) => shows_details(self@, record_id, m),
                None => record_position(self@.records, record_id, 0) == self@.records.len(),
            },
    {
        let mut at: usize = 0;
        while at < self.records.len() && self.records[at].record_id != record_id
            invariant
                at <= self.records@.len(),
                record_position(self.records@, record_id, 0) == record_position(
                    self.records@,
                    record_id,
                    at as int,
                ),
            decreases self.records@.len() - at,
        {
            at = at + 1;
        }
        if at == self.records.len() {
            return None;
        }
        let sections = self.allowed_sections_for_record(record_id);
        let mut tabs: Vec<InspectorTab> = Vec::new();
        for i in 0..sections.len()
            invariant
                tabs@.len() == i,
                forall|k: int|
                    0 <= k < i ==> {
                        &&& (#[trigger] tabs@[k]).section == sections@[k]
                        &&& tabs@[k].label@ == LabelView::Message(section_key(sections@[k]))
                        &&& tabs@[k].selected == (sections@[k] == self.selected_section)
                    },
        {
            let section = sections[i];
            tabs.push(
                InspectorTab {
                    section,
                    label: localized_section_name(section),
                    selected: section == self.selected_section,
                },
            );
        }
        let cursor: u64 = match self.detail_cursors.get(
            &DetailKey { record_id, section: self.selected_section },
        ) {
            Some(n) => *n,
            None => 0,
        };
        Some(
            InspectorModel {
                record: self.records[at].clone(),
                tabs,
                section: self.selected_section,
                cursor,
            },
        )
    }

    /// Selects a section.
    pub fn select_trajectory_inspector_section(&mut self, section: TrajectoryDetailSection)
        ensures
            final(self)@ == (StateView { selected_section: section, ..old(self)@ }),
    {
        self.selected_section = section;
    }

    /// Closes the details.
    pub fn close_trajectory_inspector(&mut self)
        ensures
            final(self)@ == inspector_closed(old(self)@),
    {
        self.close_inspector();
    }

    /// Answers a key that was pressed in the details, and tells whether it closed them.
    pub fn handle_inspector_key(&mut self, key: &str) -> (r: bool)
        ensures
            r == (key@ == "escape"@),
            final(self)@ == (if r {
                inspector_closed(old(self)@)
            } else {
                old(self)@
            }),
    {
        if same_text(key, "escape") {
            self.close_inspector();
            true
        } else {
            false
        }
    }

    /// Reads a section of a record from `next_offset` on.
    pub fn advance_trajectory_detail(
        &mut self,
        record_id: u128,
        section: TrajectoryDetailSection,
        next_offset: u64,
    )
        ensures
            final(self)@ == (StateView {
                detail_cursors: old(self)@.detail_cursors.insert(
                    (DetailKey { record_id, section }),
                    next_offset,
                ),
                ..old(self)@
            }),
    {
        self.detail_cursors.insert(DetailKey { record_id, section }, next_offset);
    }
}

/// How much of a section was loaded.
#[derive(Clone, Copy, Debug, PartialEq, Eq, Structural)]
pub struct DetailExtent {
    pub offset: u64,
    pub byte_length: u64,
    pub total_bytes: u64,
}

/// What a section holds.
#[derive(Clone, Copy, Debug, PartialEq, Eq, Structural)]
pub enum DetailBody {
    Tree,
    Text,
    Nothing,
}

/// The offer to load more of a section.
#[derive(Clone, Copy, Debug, PartialEq, Eq, Structural)]
pub struct LoadMore {
    pub loaded: u64,
    pub total: u64,
    pub next_offset: u64,
}

/// What a section is shown as: a tree where it holds JSON, else as text, else as nothing.
pub fn detail_body(has_json: bool, has_text: bool) -> (r: DetailBody)
    ensures
        r == (if has_json {
            DetailBody::Tree
        } else if has_text {
            DetailBody::Text
        } else {
            DetailBody::Nothing
        }),
{
    if has_json {
        DetailBody::Tree
    } else if has_text {
        DetailBody::Text
    } else {
        DetailBody::Nothing
    }
}

/// The offer to load more, where less was loaded than there is. The bytes that were loaded must end
/// at an offset that can be asked for.
pub fn detail_load_more(extent: DetailExtent) -> (r: Option<LoadMore>)
    requires
        extent.byte_length < extent.total_bytes ==> extent.offset + extent.byte_length <= u64::MAX,
    ensures
        match r {
            Some(more) => extent.byte_length < extent.total_bytes && more.loaded
                == extent.byte_length && more.total == extent.total_bytes && more.next_offset
                == extent.offset + extent.byte_length,
            None => extent.byte_length >= extent.total_bytes,
        },
{
    if extent.byte_length < extent.total_bytes {
        Some(
            LoadMore {
                loaded: extent.byte_length,
                total: extent.total_bytes,
                next_offset: extent.offset + extent.byte_length,
            },
        )
    } else {
        None
    }
}

/// What a section of a record's details shows.
#[derive(Debug)]
pub struct InspectorContent {
    pub kind: TrajectoryKind,
    pub status: TrajectoryStatus,
    pub duration: String,
    pub body: DetailBody,
    /// The offer to load more, where less was loaded than there is.
    pub more: Option<LoadMore>,
}

/// Tells whether a section of a record's details is shown as it should be: what the record is, what the
/// section holds, and the offer to load more of it where less was loaded than there is.
pub open spec fn shows_content(
    c: InspectorContent,
    record: TrajectoryRowSummary,
    loaded: DetailLoaded,
    no_timing: Seq<char>,
) -> bool {
    let extent = loaded.extent;
    &&& c.kind == record.kind
    &&& c.status == record.status
    &&& c.duration@ == duration_words(record.duration_ms, no_timing)
    &&& c.body == (if loaded.has_json {
        DetailBody::Tree
    } else if loaded.has_text {
        DetailBody::Text
    } else {
        DetailBody::Nothing
    })
    &&& c.more == (if extent.byte_length < extent.total_bytes {
        Some(
            LoadMore {
                loaded: extent.byte_length,
                total: extent.total_bytes,
                next_offset: (extent.offset + extent.byte_length) as u64,
            },
        )
    } else {
        None
    })
}

/// What a section of a record's details shows. `no_timing` is said of a duration that is not known.
pub fn render_inspector_content(
    record: &TrajectoryRowSummary,
    loaded: DetailLoaded,
    no_timing: &str,
) -> (r: InspectorContent)
    requires
        can_read_on(loaded.extent),
    ensures
        shows_content(r, *record, loaded, no_timing@),
{
    InspectorContent {
        kind: record.kind,
        status: record.status,
        duration: format_duration_or(record.duration_ms, no_timing),
        body: detail_body(loaded.has_json, loaded.has_text),
        more: detail_load_more(loaded.extent),
    }
}

/// What was loaded of a section.
#[derive(Clone, Copy, Debug, PartialEq, Eq, Structural)]
pub struct DetailLoaded {
    pub has_json: bool,
    pub has_text: bool,
    pub extent: DetailExtent,
}

/// How far the part of a section that is wanted has come.
#[derive(Clone, Copy, Debug, PartialEq, Eq, Structural)]
pub enum DetailQuery {
    Ready(DetailLoaded),
    /// It is not there, and nobody has asked for it.
    Missing,
    /// It has been asked for.
    Pending,
}

/// A question to the daemon for a part of a section.
#[derive(Clone, Copy, Debug, PartialEq, Eq, Structural)]
pub struct DetailRequest {
    pub record_id: u128,
    pub section: TrajectoryDetailSection,
    /// Where in the section to read from.
    pub offset: u64,
}

/// What stands below the tabs of a record's details.
#[derive(Debug)]
pub enum DetailPane {
    Content(InspectorContent),
    /// It says that the section is being loaded. The daemon is asked for it, where nobody has.
    Loading { fetch: Option<DetailRequest> },
}

/// Tells whether the bytes that were loaded end at an offset that can be asked for.
pub open spec fn can_read_on(extent: DetailExtent) -> bool {
    extent.byte_length < extent.total_bytes ==> extent.offset + extent.byte_length <= u64::MAX
}

impl InspectorModel {
    /// What the part of the section is kept under that is wanted.
    pub open spec fn wanted(&self) -> DetailRequest {
        DetailRequest {
            record_id: self.record.record_id,
            section: self.section,
            offset: self.cursor,
        }
    }

    /// What the part of the section is kept under that is wanted, and asked for.
    pub fn detail_request(&self) -> (r: DetailRequest)
        ensures
            r == self.wanted(),
    {
        DetailRequest {
            record_id: self.record.record_id,
            section: self.section,
            offset: self.cursor,
        }
    }

    /// What stands below the tabs, given how far the part of the section that is wanted has come.
    /// `no_timing` is said of a duration that is not known.
    pub fn render_detail(&self, query: DetailQuery, no_timing: &str) -> (r: DetailPane)
        requires
            query matches DetailQuery::Ready(loaded) ==> can_read_on(loaded.extent),
        ensures
            match query {
                DetailQuery::Ready(loaded) => r is Content && shows_content(
                    r->Content_0,
                    self.record,
                    loaded,
                    no_timing@,
                ),
                DetailQuery::Missing => r == (DetailPane::Loading { fetch: Some(self.wanted()) }),
                DetailQuery::Pending => r == (DetailPane::Loading { fetch: None }),
            },
    {
        match query {
            DetailQuery::Ready(loaded) => DetailPane::Content(
                render_inspector_content(&self.record, loaded, no_timing),
            ),
            DetailQuery::Missing => DetailPane::Loading { fetch: Some(self.detail_request()) },
            DetailQuery::Pending => DetailPane::Loading { fetch: None },
        }
    }
}

/// What becomes of a question for a part of a section.
#[derive(Clone, Copy, Debug, PartialEq, Eq, Structural)]
pub enum DetailSettled {
    /// The part is kept, and the details are drawn anew.
    Kept,
    /// The question is given up, so that it can be asked again.
    GivenUp,
}

/// What becomes of a question for a part of a section. `answered` is set where the daemon sent the part,
/// and not where it failed or sent something else.
pub fn settle_detail(answered: bool) -> (r: DetailSettled)
    ensures
        r == (if answered {
            DetailSettled::Kept
        } else {
            DetailSettled::GivenUp
        }),
{
    if answered {
        DetailSettled::Kept
    } else {
        DetailSettled::GivenUp
    }
}

/// After a section was read on, it is read from there; the other sections are read as before.
pub proof fn advancing_moves_one_cursor(
    s: StateView,
    id: u128,
    section: TrajectoryDetailSection,
    next: u64,
    other_id: u128,
    other: TrajectoryDetailSection,
)
    ensures
        ({
            let t = StateView {
                detail_cursors: s.detail_cursors.insert(
                    (DetailKey { record_id: id, section }),
                    next,
                ),
                ..s
            };
            &&& cursor_of(t, id, section) == next
            &&& (other_id, other) != (id, section) ==> cursor_of(t, other_id, other) == cursor_of(
                s,
                other_id,
                other,
            )
        }),
{
}

/// A selected record opens with a section that its details have a tab for.
pub proof fn selected_record_has_its_tab(s: StateView, id: u128)
    requires
        record_position(s.records, id, 0) < s.records.len(),
    ensures
        allowed_sections(s.records[record_position(s.records, id, 0)].kind).contains(
            crate::trajectory::state::record_selected(s, id).selected_section,
        ),
{
    default_section_is_allowed(s.records[record_position(s.records, id, 0)].kind);
}

} // verus!
