//! The transcript that the browser shows: the few events of the daemon that it needs, and what they
//! do to it. An event that it does not know changes nothing.
use crate::protocol::{
    busy, DriverEvent, MessageRole, SequencedEvent, SequencedPayload, SessionStatus,
};
use crate::text::opt_view;
use vstd::prelude::*;

verus! {

/// An event that the transcript understands.
#[derive(Debug)]
pub enum WebEvent {
    Connected,
    AutoTitleUpdated(Option<String>),
    TurnStarted,
    TextDelta(String),
    ReasoningDelta(String),
    TurnFinished { success: bool, summary: Option<String> },
    Error(String),
}

/// The event of the transcript that an event of an agent stands for, if any.
pub open spec fn web_event(event: DriverEvent) -> Option<WebEvent> {
    match event {
        DriverEvent::Connected => Some(WebEvent::Connected),
        DriverEvent::AutoTitleUpdated(title) => Some(WebEvent::AutoTitleUpdated(title)),
        DriverEvent::TurnStarted => Some(WebEvent::TurnStarted),
        DriverEvent::TextDelta(text) => Some(WebEvent::TextDelta(text)),
        DriverEvent::ReasoningDelta(text) => Some(WebEvent::ReasoningDelta(text)),
        DriverEvent::TurnFinished { success, summary } => Some(
            WebEvent::TurnFinished { success, summary },
        ),
        DriverEvent::Error(error) => Some(WebEvent::Error(error)),
        _ => None,
    }
}

/// The event of the transcript that a numbered event stands for. Events of trajectories, events that
/// could not be understood, and events that the transcript has no use for stand for none.
pub fn reduce_event(event: &SequencedEvent) -> (r: Option<WebEvent>)
    ensures
        r == (match event.payload {
            SequencedPayload::Driver { event: Some(driver) } => web_event(driver),
            _ => None,
        }),
{
    let driver = match &event.payload {
        SequencedPayload::Driver { event: Some(driver) } => driver,
        _ => return None,
    };
    match driver {
        DriverEvent::Connected => Some(WebEvent::Connected),
        DriverEvent::AutoTitleUpdated(title) => Some(WebEvent::AutoTitleUpdated(title.clone())),
        DriverEvent::TurnStarted => Some(WebEvent::TurnStarted),
        DriverEvent::TextDelta(text) => Some(WebEvent::TextDelta(text.clone())),
        DriverEvent::ReasoningDelta(text) => Some(WebEvent::ReasoningDelta(text.clone())),
        DriverEvent::TurnFinished { success, summary } => Some(
            WebEvent::TurnFinished { success: *success, summary: summary.clone() },
        ),
        DriverEvent::Error(error) => Some(WebEvent::Error(error.clone())),
        _ => None,
    }
}

/// A message of the transcript.
#[derive(Debug)]
pub struct WebMessage {
    pub role: MessageRole,
    pub content: String,
}

impl WebMessage {
    /// A message.
    pub fn new(role: MessageRole, content: String) -> (r: Self)
        ensures
            r == (WebMessage { role, content }),
    {
        WebMessage { role, content }
    }
}

impl Clone for WebMessage {
    fn clone(&self) -> (r: Self)
        ensures
            r == *self,
    {
        WebMessage { role: self.role, content: self.content.clone() }
    }
}

/// The contents of a message.
pub ghost struct MessageView {
    pub role: MessageRole,
    pub content: Seq<char>,
}

impl View for WebMessage {
    type V = MessageView;

    open spec fn view(&self) -> MessageView {
        MessageView { role: self.role, content: self.content@ }
    }
}

/// The contents of the messages.
pub open spec fn message_views(messages: Seq<WebMessage>) -> Seq<MessageView> {
    Seq::new(messages.len(), |i: int| messages[i]@)
}

/// How the last turn ended.
#[derive(Debug)]
pub struct TurnResult {
    pub success: bool,
    pub summary: Option<String>,
}

/// What the transcript reads of a session.
#[derive(Debug)]
pub struct SessionSnapshot {
    pub title: String,
    pub status: SessionStatus,
    /// The messages, each with the text that the user is to see.
    pub messages: Vec<WebMessage>,
}

/// The transcript of the session that is shown.
#[derive(Debug)]
pub struct TranscriptState {
    pub connected: bool,
    pub title: Option<String>,
    pub messages: Vec<WebMessage>,
    pub reasoning: String,
    pub turn_in_progress: bool,
    pub last_result: Option<TurnResult>,
    pub error: Option<String>,
}

/// The contents of the transcript.
#[verifier::ext_equal]
pub ghost struct TranscriptView {
    pub connected: bool,
    pub title: Option<Seq<char>>,
    pub messages: Seq<MessageView>,
    pub reasoning: Seq<char>,
    pub turn_in_progress: bool,
    pub last_result: Option<(bool, Option<Seq<char>>)>,
    pub error: Option<Seq<char>>,
}

impl View for TranscriptState {
    type V = TranscriptView;

    open spec fn view(&self) -> TranscriptView {
        TranscriptView {
            connected: self.connected,
            title: opt_view(self.title),
            messages: message_views(self.messages@),
            reasoning: self.reasoning@,
            turn_in_progress: self.turn_in_progress,
            last_result: match self.last_result {
                Some(result) => Some((result.success, opt_view(result.summary))),
                None => None,
            },
            error: opt_view(self.error),
        }
    }
}

/// A transcript of nothing.
pub open spec fn fresh_transcript() -> TranscriptView {
    TranscriptView {
        connected: false,
        title: None,
        messages: Seq::empty(),
        reasoning: Seq::empty(),
        turn_in_progress: false,
        last_result: None,
        error: None,
    }
}

/// The transcript of a session that was just loaded.
pub open spec fn hydrated(session: SessionSnapshot) -> TranscriptView {
    TranscriptView {
        connected: true,
        title: Some(session.title@),
        messages: message_views(session.messages@),
        reasoning: Seq::empty(),
        turn_in_progress: busy(session.status),
        last_result: None,
        error: None,
    }
}

/// The messages with an answer at their end: an empty one is put there where the last is none.
pub open spec fn with_answer(messages: Seq<MessageView>) -> Seq<MessageView> {
    if messages.len() > 0 && messages.last().role == MessageRole::Assistant {
        messages
    } else {
        messages.push(MessageView { role: MessageRole::Assistant, content: Seq::empty() })
    }
}

/// The messages with text added to the answer at their end.
pub open spec fn answer_extended(messages: Seq<MessageView>, text: Seq<char>) -> Seq<MessageView> {
    let all = with_answer(messages);
    all.update(
        all.len() - 1,
        MessageView { role: MessageRole::Assistant, content: all.last().content + text },
    )
}

/// The transcript after an event.
pub open spec fn applied(t: TranscriptView, event: WebEvent) -> TranscriptView {
    match event {
        WebEvent::Connected => TranscriptView { connected: true, error: None, ..t },
        WebEvent::AutoTitleUpdated(title) => TranscriptView { title: opt_view(title), ..t },
        WebEvent::TurnStarted => TranscriptView {
            turn_in_progress: true,
            reasoning: Seq::empty(),
            last_result: None,
            error: None,
            messages: with_answer(t.messages),
            ..t
        },
        WebEvent::TextDelta(text) => TranscriptView {
            messages: answer_extended(t.messages, text@),
            ..t
        },
        WebEvent::ReasoningDelta(text) => TranscriptView {
            turn_in_progress: true,
            reasoning: t.reasoning + text@,
            ..t
        },
        WebEvent::TurnFinished { success, summary } => TranscriptView {
            turn_in_progress: false,
            last_result: Some((success, opt_view(summary))),
            ..t
        },
        WebEvent::Error(error) => TranscriptView {
            turn_in_progress: false,
            error: Some(error@),
            ..t
        },
    }
}

impl Default for TranscriptState {
    /// A transcript of nothing.
    fn default() -> (r: Self)
        ensures
            r@ == fresh_transcript(),
    {
        let r = TranscriptState {
            connected: false,
            title: None,
            messages: Vec::new(),
            reasoning: String::new(),
            turn_in_progress: false,
            last_result: None,
            error: None,
        };
        assert(r@ =~= fresh_transcript());
        r
    }
}

impl TranscriptState {
    /// Shows a session that was just loaded.
    pub fn hydrate(&mut self, session: &SessionSnapshot)
        ensures
            final(self)@ == hydrated(*session),
    {
        self.connected = true;
        self.title = Some(session.title.clone());
        let mut messages: Vec<WebMessage> = Vec::new();
        for i in 0..session.messages.len()
            invariant
                messages@ == session.messages@.take(i as int),
        {
            messages.push(session.messages[i].clone());
            assert(session.messages@.take(i as int + 1) =~= session.messages@.take(i as int).push(
                session.messages@[i as int],
            ));
        }
        assert(messages@ =~= session.messages@);
        self.messages = messages;
        self.reasoning = String::new();
        self.turn_in_progress = session.status.is_busy();
        self.last_result = None;
        self.error = None;
        assert(self@ =~= hydrated(*session));
    }

    /// Follows an event.
    pub fn apply(&mut self, event: WebEvent)
        ensures
            final(self)@ == applied(old(self)@, event),
    {
        match event {
            WebEvent::Connected => {
                self.connected = true;
                self.error = None;
            },
            WebEvent::AutoTitleUpdated(title) => {
                self.title = title;
            },
            WebEvent::TurnStarted => {
                self.turn_in_progress = true;
                self.reasoning = String::new();
                self.last_result = None;
                self.error = None;
                self.ensure_assistant_message();
                assert(self@ =~= applied(old(self)@, event));
            },
            WebEvent::TextDelta(delta) => {
                self.ensure_assistant_message();
                let ghost all = self.messages@;
                let last: usize = self.messages.len() - 1;
                let mut message = self.messages[last].clone();
                message.content.append(delta.as_str());
                assert(message_views(all).last() == all.last()@);
                self.messages[last] = message;
                assert(message_views(self.messages@) =~= answer_extended(
                    old(self)@.messages,
                    delta@,
                ));
                assert(self@ =~= applied(old(self)@, event));
            },
            WebEvent::ReasoningDelta(delta) => {
                self.turn_in_progress = true;
                self.reasoning.append(delta.as_str());
            },
            WebEvent::TurnFinished { success, summary } => {
                self.turn_in_progress = false;
                self.last_result = Some(TurnResult { success, summary });
            },
            WebEvent::Error(error) => {
                self.turn_in_progress = false;
                self.error = Some(error);
            },
        }
    }

    fn ensure_assistant_message(&mut self)
        ensures
            final(self)@ == (TranscriptView {
                messages: with_answer(old(self)@.messages),
                ..old(self)@
            }),
            final(self).messages@.len() > 0,
    {
        let len: usize = self.messages.len();
        if len > 0 {
            assert(self@.messages.last() == self.messages@.last()@);
        }
        if len == 0 || self.messages[len - 1].role != MessageRole::Assistant {
            self.messages.push(WebMessage::new(MessageRole::Assistant, String::new()));
            assert(self@.messages =~= with_answer(old(self)@.messages));
        }
    }
}

// ---------------------------------------------------------------------------
// Laws
// ---------------------------------------------------------------------------
/// Text that comes in pieces adds up to the text that comes whole.
pub proof fn pieces_of_text_add_up(t: TranscriptView, a: String, b: String, whole: String)
    requires
        whole@ == a@ + b@,
    ensures
        applied(applied(t, WebEvent::TextDelta(a)), WebEvent::TextDelta(b)) == applied(
            t,
            WebEvent::TextDelta(whole),
        ),
{
    let once = applied(t, WebEvent::TextDelta(a)).messages;
    assert(with_answer(once) == once);
    assert(once.last().content + b@ =~= with_answer(t.messages).last().content + whole@);
    assert(applied(applied(t, WebEvent::TextDelta(a)), WebEvent::TextDelta(b)) =~= applied(
        t,
        WebEvent::TextDelta(whole),
    ));
}

/// Reasoning that comes in pieces adds up to the reasoning that comes whole.
pub proof fn pieces_of_reasoning_add_up(t: TranscriptView, a: String, b: String, whole: String)
    requires
        whole@ == a@ + b@,
    ensures
        applied(applied(t, WebEvent::ReasoningDelta(a)), WebEvent::ReasoningDelta(b)) == applied(
            t,
            WebEvent::ReasoningDelta(whole),
        ),
{
    assert(t.reasoning + a@ + b@ =~= t.reasoning + whole@);
}

/// No event takes a message away or changes one other than the answer at the end, and once a turn
/// has started or text has come in, there is such an answer.
pub proof fn events_touch_the_last_answer_only(t: TranscriptView, event: WebEvent, i: int)
    requires
        0 <= i < t.messages.len(),
    ensures
        applied(t, event).messages.len() >= t.messages.len(),
        applied(t, event).messages[i].role == t.messages[i].role,
        i < t.messages.len() - 1 || t.messages[i].role != MessageRole::Assistant ==> applied(
            t,
            event,
        ).messages[i] == t.messages[i],
        event is TurnStarted || event is TextDelta ==> applied(t, event).messages.last().role
            == MessageRole::Assistant,
{
}

/// A turn that ended is no longer in progress, and its end is the last result.
pub proof fn finished_turns_are_over(t: TranscriptView, success: bool, summary: Option<String>)
    ensures
        !applied(t, WebEvent::TurnFinished { success, summary }).turn_in_progress,
        applied(t, WebEvent::TurnFinished { success, summary }).last_result == Some(
            (success, opt_view(summary)),
        ),
        applied(t, WebEvent::TurnFinished { success, summary }).messages == t.messages,
{
}

} // verus!
