//! What the daemon and its clients speak of.
use vstd::prelude::*;

verus! {

/// What a session is doing.
#[derive(Clone, Copy, Debug, PartialEq, Eq, Structural)]
pub enum SessionStatus {
    Idle,
    Connecting,
    Working,
    Waiting,
    Failed,
}

/// Tells whether a session is in the middle of a turn.
pub open spec fn busy(status: SessionStatus) -> bool {
    status == SessionStatus::Connecting || status == SessionStatus::Working || status
        == SessionStatus::Waiting
}

/// What an agent did.
#[derive(Clone, Copy, Debug, PartialEq, Eq, Structural)]
pub enum ActivityKind {
    Reasoning,
    Command,
    FileChange,
    FileRead,
    FileSearch,
    FileList,
    Search,
    Plan,
    Tool,
}

impl SessionStatus {
    /// Tells whether a session is in the middle of a turn.
    pub fn is_busy(self) -> (r: bool)
        ensures
            r == busy(self),
    {
        match self {
            SessionStatus::Connecting => true,
            SessionStatus::Working => true,
            SessionStatus::Waiting => true,
            SessionStatus::Idle => false,
            SessionStatus::Failed => false,
        }
    }
}

/// Who a message is from.
#[derive(Clone, Copy, Debug, PartialEq, Eq, Structural)]
pub enum MessageRole {
    User,
    Assistant,
    System,
}

/// What an agent may do without asking.
#[derive(Clone, Copy, Debug, PartialEq, Eq, Structural)]
pub enum RuntimeMode {
    Ask,
    AutoAcceptEdits,
    FullAccess,
}

/// What an agent is asked to do.
#[derive(Clone, Copy, Debug, PartialEq, Eq, Structural)]
pub enum InteractionMode {
    Build,
    Plan,
}

/// How urgently a provider serves a request.
#[derive(Clone, Copy, Debug, PartialEq, Eq, Structural)]
pub enum ServiceTier {
    Flex,
    Priority,
}

/// What an agent reports.
#[derive(Debug)]
pub enum DriverEvent {
    Connected,
    AutoTitleUpdated(Option<String>),
    TurnStarted,
    TextDelta(String),
    ReasoningDelta(String),
    TurnFinished { success: bool, summary: Option<String> },
    Error(String),
    Permission,
    SteerAccepted,
    SteerRejected,
    ProcessExited,
    /// Work in the background; `output_delta` is set where it is a piece of a command's output.
    BackgroundWork { output_delta: bool },
    /// Anything else.
    Other,
}

impl Clone for DriverEvent {
    fn clone(&self) -> (r: Self)
        ensures
            r == *self,
    {
        match self {
            DriverEvent::Connected => DriverEvent::Connected,
            DriverEvent::AutoTitleUpdated(title) => DriverEvent::AutoTitleUpdated(title.clone()),
            DriverEvent::TurnStarted => DriverEvent::TurnStarted,
            DriverEvent::TextDelta(text) => DriverEvent::TextDelta(text.clone()),
            DriverEvent::ReasoningDelta(text) => DriverEvent::ReasoningDelta(text.clone()),
            DriverEvent::TurnFinished { success, summary } => DriverEvent::TurnFinished {
                success: *success,
                summary: summary.clone(),
            },
            DriverEvent::Error(error) => DriverEvent::Error(error.clone()),
            DriverEvent::Permission => DriverEvent::Permission,
            DriverEvent::SteerAccepted => DriverEvent::SteerAccepted,
            DriverEvent::SteerRejected => DriverEvent::SteerRejected,
            DriverEvent::ProcessExited => DriverEvent::ProcessExited,
            DriverEvent::BackgroundWork { output_delta } => DriverEvent::BackgroundWork {
                output_delta: *output_delta,
            },
            DriverEvent::Other => DriverEvent::Other,
        }
    }
}

/// What a numbered event carries: an event of an agent, `None` where it could not be understood, or
/// one of a trajectory.
#[derive(Debug)]
pub enum SequencedPayload {
    Driver { event: Option<DriverEvent> },
    Trajectory,
}

/// An event of a session, with its number.
#[derive(Debug)]
pub struct SequencedEvent {
    pub session_id: u128,
    pub runtime_id: u128,
    pub epoch: u128,
    pub sequence: u64,
    pub payload: SequencedPayload,
}

impl Clone for SequencedEvent {
    fn clone(&self) -> (r: Self)
        ensures
            r == *self,
    {
        SequencedEvent {
            session_id: self.session_id,
            runtime_id: self.runtime_id,
            epoch: self.epoch,
            sequence: self.sequence,
            payload: match &self.payload {
                SequencedPayload::Driver { event } => SequencedPayload::Driver {
                    event: match event {
                        Some(e) => Some(e.clone()),
                        None => None,
                    },
                },
                SequencedPayload::Trajectory => SequencedPayload::Trajectory,
            },
        }
    }
}

} // verus!
