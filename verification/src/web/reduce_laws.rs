//! What the transcript promises of every session that is opened and of every event that comes in.
use crate::protocol::{
    DriverEvent, MessageRole, SequencedEvent, SequencedPayload, SessionStatus,
};
use crate::web::reduce::{
    message_views, reduce_event, SessionSnapshot, TranscriptState, WebEvent, WebMessage,
};
use vstd::prelude::*;

verus! {

/// A transcript that shows the messages of another shows them one for one.
proof fn same_views_same_messages(a: Seq<WebMessage>, b: Seq<WebMessage>)
    requires
        message_views(a) == message_views(b),
    ensures
        a.len() == b.len(),
        forall|i: int|
            0 <= i < a.len() ==> (#[trigger] a[i]).role == b[i].role && a[i].content@
                == b[i].content@,
{
    assert(message_views(a).len() == a.len());
    assert(message_views(b).len() == b.len());
    assert forall|i: int| 0 <= i < a.len() implies (#[trigger] a[i]).role == b[i].role
        && a[i].content@ == b[i].content@ by {
        assert(message_views(a)[i] == a[i]@);
        assert(message_views(b)[i] == b[i]@);
    }
}

/// Opening a task shows its conversation as it was held: every message of the session, in the session's
/// order, with its role and its text, under the session's title.
pub proof fn opening_shows_the_conversation(t: &mut TranscriptState, session: &SessionSnapshot)
    requires
        call_ensures(TranscriptState::hydrate, (t, session), ()),
    ensures
        final(t).messages@.len() == session.messages@.len(),
        forall|i: int|
            0 <= i < session.messages@.len() ==> (#[trigger] final(t).messages@[i]).role
                == session.messages@[i].role && final(t).messages@[i].content@
                == session.messages@[i].content@,
        final(t).title is Some,
        (final(t).title->0)@ == session.title@,
{
    assert(final(t)@.messages == message_views(session.messages@));
    same_views_same_messages(final(t).messages@, session.messages@);
}

/// Opening a task leaves nothing of the one shown before: no error, no result and no reasoning. A turn is
/// in progress where the session is neither idle nor failed.
pub proof fn opening_starts_afresh(t: &mut TranscriptState, session: &SessionSnapshot)
    requires
        call_ensures(TranscriptState::hydrate, (t, session), ()),
    ensures
        final(t).connected,
        final(t).error is None,
        final(t).last_result is None,
        final(t).reasoning@.len() == 0,
        final(t).turn_in_progress <==> session.status != SessionStatus::Idle && session.status
            != SessionStatus::Failed,
{
}

/// What was shown before makes no difference to a task that is opened.
pub proof fn opening_forgets_what_was_shown(
    a: &mut TranscriptState,
    b: &mut TranscriptState,
    session: &SessionSnapshot,
)
    requires
        call_ensures(TranscriptState::hydrate, (a, session), ()),
        call_ensures(TranscriptState::hydrate, (b, session), ()),
    ensures
        final(a)@ == final(b)@,
{
}

/// Text that comes in is added at the end of the answer that is last, or begins a new answer at the end.
/// Nothing else that was said changes.
pub proof fn text_goes_to_the_last_answer(t: &mut TranscriptState, text: String)
    requires
        call_ensures(TranscriptState::apply, (t, WebEvent::TextDelta(text)), ()),
    ensures
        ({
            let before = old(t).messages@;
            let after = final(t).messages@;
            let n = before.len() as int;
            if n > 0 && before[n - 1].role == MessageRole::Assistant {
                &&& after.len() == n
                &&& after[n - 1].role == MessageRole::Assistant
                &&& after[n - 1].content@ == before[n - 1].content@ + text@
                &&& forall|i: int|
                    0 <= i < n - 1 ==> (#[trigger] after[i]).role == before[i].role
                        && after[i].content@ == before[i].content@
            } else {
                &&& after.len() == n + 1
                &&& after[n].role == MessageRole::Assistant
                &&& after[n].content@ == text@
                &&& forall|i: int|
                    0 <= i < n ==> (#[trigger] after[i]).role == before[i].role
                        && after[i].content@ == before[i].content@
            }
        }),
        final(t).reasoning@ == old(t).reasoning@,
        final(t).turn_in_progress == old(t).turn_in_progress,
        final(t)@.title == old(t)@.title,
        final(t)@.error == old(t)@.error,
{
    let before = old(t).messages@;
    let after = final(t).messages@;
    let n = before.len() as int;
    let shown = final(t)@.messages;
    assert(old(t)@.messages.len() == n);
    assert(shown.len() == after.len());
    if n > 0 {
        assert(old(t)@.messages.last() == before[n - 1]@);
    }
    assert forall|i: int| 0 <= i < after.len() implies shown[i].role == (#[trigger] after[i]).role
        && shown[i].content == after[i].content@ by {}
    if n > 0 && before[n - 1].role == MessageRole::Assistant {
        assert(shown[n - 1].content == before[n - 1].content@ + text@);
        assert(after[n - 1].role == MessageRole::Assistant);
    } else {
        assert(shown[n].content == Seq::<char>::empty() + text@);
        assert(Seq::<char>::empty() + text@ =~= text@);
        assert(after[n].role == MessageRole::Assistant);
    }
    assert forall|i: int| 0 <= i < n - 1 implies (#[trigger] after[i]).role == before[i].role
        && after[i].content@ == before[i].content@ by {
        assert(shown[i] == old(t)@.messages[i]);
    }
    if !(n > 0 && before[n - 1].role == MessageRole::Assistant) {
        assert forall|i: int| 0 <= i < n implies (#[trigger] after[i]).role == before[i].role
            && after[i].content@ == before[i].content@ by {
            assert(shown[i] == old(t)@.messages[i]);
        }
    }
}

/// Reasoning that comes in is added at the end of the reasoning that is shown, and the turn is in progress.
/// What was said stays.
pub proof fn reasoning_grows_at_its_end(t: &mut TranscriptState, text: String)
    requires
        call_ensures(TranscriptState::apply, (t, WebEvent::ReasoningDelta(text)), ()),
    ensures
        final(t).reasoning@ == old(t).reasoning@ + text@,
        final(t).turn_in_progress,
        final(t)@.messages == old(t)@.messages,
{
}

/// A turn that starts is in progress, and clears what is left of the one before: its reasoning, its result
/// and its error. Everything that was said stays, and an answer stands at the end.
pub proof fn a_turn_starts_afresh(t: &mut TranscriptState)
    requires
        call_ensures(TranscriptState::apply, (t, WebEvent::TurnStarted), ()),
    ensures
        final(t).turn_in_progress,
        final(t).reasoning@.len() == 0,
        final(t).last_result is None,
        final(t).error is None,
        final(t).messages@.len() > 0,
        final(t).messages@.last().role == MessageRole::Assistant,
        final(t).messages@.len() <= old(t).messages@.len() + 1,
        final(t).messages@.len() >= old(t).messages@.len(),
        forall|i: int|
            0 <= i < old(t).messages@.len() ==> (#[trigger] final(t).messages@[i]).role == old(
                t,
            ).messages@[i].role && final(t).messages@[i].content@ == old(t).messages@[i].content@,
        final(t).messages@.len() > old(t).messages@.len() ==> final(t).messages@.last().content@.len()
            == 0,
{
    let shown = final(t)@.messages;
    assert(shown.len() == final(t).messages@.len());
    assert(old(t)@.messages.len() == old(t).messages@.len());
    assert(shown.last() == final(t).messages@.last()@);
    assert forall|i: int| 0 <= i < old(t).messages@.len() implies (
    #[trigger] final(t).messages@[i]).role == old(t).messages@[i].role
        && final(t).messages@[i].content@ == old(t).messages@[i].content@ by {
        assert(shown[i] == old(t)@.messages[i]);
    }
}

/// A turn that finished is over, with its result; an error ends it too, with what went wrong. Neither takes
/// anything away of what was said.
pub proof fn a_turn_ends_with_its_result(
    a: &mut TranscriptState,
    success: bool,
    summary: Option<String>,
    b: &mut TranscriptState,
    error: String,
)
    requires
        call_ensures(TranscriptState::apply, (a, WebEvent::TurnFinished { success, summary }), ()),
        call_ensures(TranscriptState::apply, (b, WebEvent::Error(error)), ()),
    ensures
        !final(a).turn_in_progress,
        final(a).last_result is Some,
        (final(a).last_result->0).success == success,
        (final(a).last_result->0).summary is Some <==> summary is Some,
        summary is Some ==> ((final(a).last_result->0).summary->0)@ == (summary->0)@,
        final(a)@.messages == old(a)@.messages,
        final(a).reasoning@ == old(a).reasoning@,
        !final(b).turn_in_progress,
        final(b).error is Some,
        (final(b).error->0)@ == error@,
        final(b)@.messages == old(b)@.messages,
        final(b)@.last_result == old(b)@.last_result,
{
    assert(final(a)@.last_result is Some);
    assert(final(b)@.error is Some);
}

/// A connection takes the error away; a title replaces the one before. Neither touches what was said nor the
/// turn.
pub proof fn titles_and_connections_change_no_message(
    a: &mut TranscriptState,
    title: Option<String>,
    b: &mut TranscriptState,
)
    requires
        call_ensures(TranscriptState::apply, (a, WebEvent::AutoTitleUpdated(title)), ()),
        call_ensures(TranscriptState::apply, (b, WebEvent::Connected), ()),
    ensures
        final(a).title is Some <==> title is Some,
        title is Some ==> (final(a).title->0)@ == (title->0)@,
        final(a)@.messages == old(a)@.messages,
        final(a).turn_in_progress == old(a).turn_in_progress,
        final(b).connected,
        final(b).error is None,
        final(b)@.messages == old(b)@.messages,
        final(b).turn_in_progress == old(b).turn_in_progress,
        final(b)@.title == old(b)@.title,
{
}

/// An event of an agent comes to the transcript as what it is, with all that it holds. Other events do not
/// come to it.
pub proof fn events_come_through_as_they_are(event: &SequencedEvent, r: Option<WebEvent>)
    requires
        call_ensures(reduce_event, (event,), r),
    ensures
        event.payload is Trajectory ==> r is None,
        event.payload matches SequencedPayload::Driver { event: inner } ==> match inner {
            Some(DriverEvent::Connected) => r == Some(WebEvent::Connected),
            Some(DriverEvent::TurnStarted) => r == Some(WebEvent::TurnStarted),
            Some(DriverEvent::TextDelta(text)) => r == Some(WebEvent::TextDelta(text)),
            Some(DriverEvent::ReasoningDelta(text)) => r == Some(WebEvent::ReasoningDelta(text)),
            Some(DriverEvent::AutoTitleUpdated(title)) => r == Some(
                WebEvent::AutoTitleUpdated(title),
            ),
            Some(DriverEvent::TurnFinished { success, summary }) => r == Some(
                WebEvent::TurnFinished { success, summary },
            ),
            Some(DriverEvent::Error(error)) => r == Some(WebEvent::Error(error)),
            _ => r is None,
        },
{
}

} // verus!
