//! The records of a trajectory, their kinds, and the detail sections that each
//! kind offers.
use vstd::prelude::*;

verus! {

/// What a record stands for.
#[derive(Clone, Copy, Debug, PartialEq, Eq, Structural)]
pub enum TrajectoryKind {
    System,
    User,
    Context,
    Request,
    Assistant,
    Tool,
}

/// The lane of the timeline that a record is drawn in.
#[derive(Clone, Copy, Debug, PartialEq, Eq, Structural)]
pub enum TrajectoryLane {
    Input,
    Model,
    Tools,
}

/// How far a record has come.
#[derive(Clone, Copy, Debug, PartialEq, Eq, Structural)]
pub enum TrajectoryStatus {
    Pending,
    Running,
    Completed,
    Failed,
    Cancelled,
    Unavailable,
}

/// A section of a record's details.
#[derive(Clone, Copy, Debug, PartialEq, Eq, Structural)]
pub enum TrajectoryDetailSection {
    Summary,
    Preview,
    SystemPrompt,
    Tools,
    Options,
    Usage,
    Timing,
    Payload,
    Result,
    Diff,
    Schema,
    Source,
    Raw,
}

/// How much of a trajectory the daemon can give.
#[derive(Clone, Copy, Debug, PartialEq, Eq, Structural)]
pub enum TrajectoryAvailability {
    Exact,
    Legacy,
    LegacyPartialMissingSnapshot,
    Error,
}

/// How far the loading of a trajectory has come.
#[derive(Clone, Copy, Debug, PartialEq, Eq, Structural)]
pub enum TrajectoryLoadingStatus {
    Initial,
    Loading,
    Ready,
    Error,
}

impl Default for TrajectoryLoadingStatus {
    fn default() -> (r: Self)
        ensures
            r == TrajectoryLoadingStatus::Initial,
    {
        TrajectoryLoadingStatus::Initial
    }
}

/// A position in a trajectory that the daemon handed out, to be handed back to it.
#[derive(Clone, Copy, Debug, PartialEq, Eq, Structural)]
pub struct TrajectoryCursor {
    pub sequence: u64,
    pub record_id: u128,
}

/// One record of a trajectory, as the ledger and the timeline show it.
#[derive(Debug)]
pub struct TrajectoryRowSummary {
    pub record_id: u128,
    pub sequence: u64,
    pub revision: u64,
    pub request_id: Option<u128>,
    pub parent_record_id: Option<u128>,
    pub prompt_id: Option<u128>,
    pub turn_count: u32,
    pub step: u32,
    pub kind: TrajectoryKind,
    pub lane: TrajectoryLane,
    pub status: TrajectoryStatus,
    pub title: String,
    pub preview: String,
    pub search_text: String,
    pub started_at_ms: Option<i64>,
    pub first_token_at_ms: Option<i64>,
    pub completed_at_ms: Option<i64>,
    pub duration_ms: Option<i64>,
    pub ttft_ms: Option<i64>,
}

impl Clone for TrajectoryRowSummary {
    fn clone(&self) -> (r: Self)
        ensures
            r == *self,
    {
        TrajectoryRowSummary {
            record_id: self.record_id,
            sequence: self.sequence,
            revision: self.revision,
            request_id: self.request_id,
            parent_record_id: self.parent_record_id,
            prompt_id: self.prompt_id,
            turn_count: self.turn_count,
            step: self.step,
            kind: self.kind,
            lane: self.lane,
            status: self.status,
            title: self.title.clone(),
            preview: self.preview.clone(),
            search_text: self.search_text.clone(),
            started_at_ms: self.started_at_ms,
            first_token_at_ms: self.first_token_at_ms,
            completed_at_ms: self.completed_at_ms,
            duration_ms: self.duration_ms,
            ttft_ms: self.ttft_ms,
        }
    }
}

/// The name of a kind.
pub open spec fn kind_name(kind: TrajectoryKind) -> Seq<char> {
    match kind {
        TrajectoryKind::System => "system"@,
        TrajectoryKind::User => "user"@,
        TrajectoryKind::Context => "context"@,
        TrajectoryKind::Request => "request"@,
        TrajectoryKind::Assistant => "assistant"@,
        TrajectoryKind::Tool => "tool"@,
    }
}

/// The name of a kind, as the search index holds it.
pub fn kind_display_name(kind: TrajectoryKind) -> (r: &'static str)
    ensures
        r@ == kind_name(kind),
{
    match kind {
        TrajectoryKind::System => "system",
        TrajectoryKind::User => "user",
        TrajectoryKind::Context => "context",
        TrajectoryKind::Request => "request",
        TrajectoryKind::Assistant => "assistant",
        TrajectoryKind::Tool => "tool",
    }
}

/// The name of a status.
pub open spec fn status_name(status: TrajectoryStatus) -> Seq<char> {
    match status {
        TrajectoryStatus::Pending => "pending"@,
        TrajectoryStatus::Running => "running"@,
        TrajectoryStatus::Completed => "completed"@,
        TrajectoryStatus::Failed => "failed"@,
        TrajectoryStatus::Cancelled => "cancelled"@,
        TrajectoryStatus::Unavailable => "unavailable"@,
    }
}

/// The name of a status, as the search index holds it.
pub fn status_display_name(status: TrajectoryStatus) -> (r: &'static str)
    ensures
        r@ == status_name(status),
{
    match status {
        TrajectoryStatus::Pending => "pending",
        TrajectoryStatus::Running => "running",
        TrajectoryStatus::Completed => "completed",
        TrajectoryStatus::Failed => "failed",
        TrajectoryStatus::Cancelled => "cancelled",
        TrajectoryStatus::Unavailable => "unavailable",
    }
}

/// The name of a lane.
pub open spec fn lane_name(lane: TrajectoryLane) -> Seq<char> {
    match lane {
        TrajectoryLane::Input => "input"@,
        TrajectoryLane::Model => "model"@,
        TrajectoryLane::Tools => "tools"@,
    }
}

/// The name of a lane, as the search index holds it.
pub fn lane_display_name(lane: TrajectoryLane) -> (r: &'static str)
    ensures
        r@ == lane_name(lane),
{
    match lane {
        TrajectoryLane::Input => "input",
        TrajectoryLane::Model => "model",
        TrajectoryLane::Tools => "tools",
    }
}

/// The section that a record of this kind opens with.
pub open spec fn default_section(kind: TrajectoryKind) -> TrajectoryDetailSection {
    match kind {
        TrajectoryKind::User => TrajectoryDetailSection::Preview,
        _ => TrajectoryDetailSection::Summary,
    }
}

/// The section that a record of this kind opens with.
pub fn default_section_for_kind(kind: TrajectoryKind) -> (r: TrajectoryDetailSection)
    ensures
        r == default_section(kind),
{
    match kind {
        TrajectoryKind::System => TrajectoryDetailSection::Summary,
        TrajectoryKind::User => TrajectoryDetailSection::Preview,
        TrajectoryKind::Context => TrajectoryDetailSection::Summary,
        TrajectoryKind::Request => TrajectoryDetailSection::Summary,
        TrajectoryKind::Assistant => TrajectoryDetailSection::Summary,
        TrajectoryKind::Tool => TrajectoryDetailSection::Summary,
    }
}

/// The sections that a record of this kind offers, in the order of their tabs.
pub open spec fn allowed_sections(kind: TrajectoryKind) -> Seq<TrajectoryDetailSection> {
    match kind {
        TrajectoryKind::System => seq![
            TrajectoryDetailSection::Summary,
            TrajectoryDetailSection::SystemPrompt,
            TrajectoryDetailSection::Source,
            TrajectoryDetailSection::Raw,
        ],
        TrajectoryKind::User => seq![
            TrajectoryDetailSection::Summary,
            TrajectoryDetailSection::Preview,
            TrajectoryDetailSection::Source,
            TrajectoryDetailSection::Raw,
        ],
        TrajectoryKind::Context => seq![
            TrajectoryDetailSection::Summary,
            TrajectoryDetailSection::Preview,
            TrajectoryDetailSection::Diff,
            TrajectoryDetailSection::Source,
            TrajectoryDetailSection::Raw,
        ],
        TrajectoryKind::Request => seq![
            TrajectoryDetailSection::Summary,
            TrajectoryDetailSection::SystemPrompt,
            TrajectoryDetailSection::Tools,
            TrajectoryDetailSection::Options,
            TrajectoryDetailSection::Usage,
            TrajectoryDetailSection::Timing,
            TrajectoryDetailSection::Source,
            TrajectoryDetailSection::Raw,
        ],
        TrajectoryKind::Assistant => seq![
            TrajectoryDetailSection::Summary,
            TrajectoryDetailSection::Preview,
            TrajectoryDetailSection::Usage,
            TrajectoryDetailSection::Timing,
            TrajectoryDetailSection::Source,
            TrajectoryDetailSection::Raw,
        ],
        TrajectoryKind::Tool => seq![
            TrajectoryDetailSection::Summary,
            TrajectoryDetailSection::Payload,
            TrajectoryDetailSection::Result,
            TrajectoryDetailSection::Diff,
            TrajectoryDetailSection::Schema,
            TrajectoryDetailSection::Timing,
            TrajectoryDetailSection::Source,
            TrajectoryDetailSection::Raw,
        ],
    }
}

/// The sections that a record of this kind offers, in the order of their tabs.
pub fn allowed_sections_for_kind(kind: TrajectoryKind) -> (r: Vec<TrajectoryDetailSection>)
    ensures
        r@ == allowed_sections(kind),
{
    match kind {
        TrajectoryKind::System => vec![
            TrajectoryDetailSection::Summary,
            TrajectoryDetailSection::SystemPrompt,
            TrajectoryDetailSection::Source,
            TrajectoryDetailSection::Raw,
        ],
        TrajectoryKind::User => vec![
            TrajectoryDetailSection::Summary,
            TrajectoryDetailSection::Preview,
            TrajectoryDetailSection::Source,
            TrajectoryDetailSection::Raw,
        ],
        TrajectoryKind::Context => vec![
            TrajectoryDetailSection::Summary,
            TrajectoryDetailSection::Preview,
            TrajectoryDetailSection::Diff,
            TrajectoryDetailSection::Source,
            TrajectoryDetailSection::Raw,
        ],
        TrajectoryKind::Request => vec![
            TrajectoryDetailSection::Summary,
            TrajectoryDetailSection::SystemPrompt,
            TrajectoryDetailSection::Tools,
            TrajectoryDetailSection::Options,
            TrajectoryDetailSection::Usage,
            TrajectoryDetailSection::Timing,
            TrajectoryDetailSection::Source,
            TrajectoryDetailSection::Raw,
        ],
        TrajectoryKind::Assistant => vec![
            TrajectoryDetailSection::Summary,
            TrajectoryDetailSection::Preview,
            TrajectoryDetailSection::Usage,
            TrajectoryDetailSection::Timing,
            TrajectoryDetailSection::Source,
            TrajectoryDetailSection::Raw,
        ],
        TrajectoryKind::Tool => vec![
            TrajectoryDetailSection::Summary,
            TrajectoryDetailSection::Payload,
            TrajectoryDetailSection::Result,
            TrajectoryDetailSection::Diff,
            TrajectoryDetailSection::Schema,
            TrajectoryDetailSection::Timing,
            TrajectoryDetailSection::Source,
            TrajectoryDetailSection::Raw,
        ],
    }
}

/// Every kind opens with a section that it offers, and offers the summary first
/// and the source and the raw record last.
pub proof fn default_section_is_allowed(kind: TrajectoryKind)
    ensures
        allowed_sections(kind).contains(default_section(kind)),
        allowed_sections(kind).first() == TrajectoryDetailSection::Summary,
        allowed_sections(kind)[allowed_sections(kind).len() - 2] == TrajectoryDetailSection::Source,
        allowed_sections(kind).last() == TrajectoryDetailSection::Raw,
        allowed_sections(kind).no_duplicates(),
{
    assert(allowed_sections(kind)[0] == TrajectoryDetailSection::Summary);
    assert(kind == TrajectoryKind::User ==> allowed_sections(kind)[1]
        == TrajectoryDetailSection::Preview);
}

} // verus!
