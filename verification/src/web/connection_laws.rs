//! What the browser's connection promises: each event is handed on once and to the right listeners, requests
//! are answered for, and a connection that ended stays ended.
use crate::protocol::SequencedEvent;
use crate::web::client::{
    connect_outcome, cursor_key, held, listeners, resumed, without, ClientAction, HandshakeEnd, LastSequence,
    ReplayCursor, RuntimeKey, ServerMessage, SocketFault, WebDaemonClient,
};
use vstd::prelude::*;

verus! {

/// The agent whose event this is.
pub open spec fn agent_of(e: SequencedEvent) -> RuntimeKey {
    RuntimeKey { session_id: e.session_id, runtime_id: e.runtime_id }
}

/// Tells whether an event is one that has been seen: it is no later than the last one of its agent, in the same
/// epoch.
pub open spec fn is_seen(c: WebDaemonClient, e: SequencedEvent) -> bool {
    let last = c.last_sequences@;
    last.contains_key(agent_of(e)) && last[agent_of(e)].epoch == e.epoch && e.sequence <= last[agent_of(
        e,
    )].sequence
}

/// Tells whether a connection is up.
pub open spec fn is_up(c: WebDaemonClient) -> bool {
    c.connected && !c.closed && !c.handshaking
}

/// An event that has not been seen is handed on, as it is, to those who listen to its agent, and has been seen
/// from then on; one that has been seen is dropped.
pub proof fn every_event_is_handed_on_once(
    c: &mut WebDaemonClient,
    event: SequencedEvent,
    r: ClientAction,
)
    requires
        call_ensures(WebDaemonClient::handle_message, (c, ServerMessage::Event(event)), r)
            || call_ensures(WebDaemonClient::accept_event, (c, event), r),
        !old(c).handshaking,
        !old(c).closed,
    ensures
        is_seen(*old(c), event) ==> r is Nothing && final(c)@ == old(c)@,
        !is_seen(*old(c), event) ==> {
            &&& r is Deliver
            &&& r->Deliver_0 == event
            &&& !old(c).subscribers@.contains_key(agent_of(event)) ==> (r->Deliver_1)@.len() == 0
            &&& old(c).subscribers@.contains_key(agent_of(event)) ==> (r->Deliver_1)@ == old(
                c,
            ).subscribers@[agent_of(event)]@
            &&& is_seen(*final(c), event)
            &&& final(c)@.pending == old(c)@.pending
            &&& final(c)@.subscribers == old(c)@.subscribers
            &&& forall|k: RuntimeKey|
                k != agent_of(event) && #[trigger] old(c).last_sequences@.contains_key(k) ==> final(c).last_sequences@.contains_key(k) && final(c).last_sequences@[k] == old(
                    c,
                ).last_sequences@[k]
        },
{
    let key = agent_of(event);
    assert(old(c)@.last_sequences == old(c).last_sequences@);
    assert(final(c)@.last_sequences == final(c).last_sequences@);
    assert(old(c)@.subscribers.contains_key(key) <==> old(c).subscribers@.contains_key(key));
}

/// A later event of the same agent and epoch is handed on after an earlier one, and the earlier one not again.
pub proof fn later_events_come_through(
    c: &mut WebDaemonClient,
    first: SequencedEvent,
    r: ClientAction,
    d: &mut WebDaemonClient,
    second: SequencedEvent,
    s: ClientAction,
)
    requires
        call_ensures(WebDaemonClient::accept_event, (c, first), r),
        r is Deliver,
        *old(d) == *final(c),
        call_ensures(WebDaemonClient::accept_event, (d, second), s),
        agent_of(second) == agent_of(first),
    ensures
        second.epoch == first.epoch && second.sequence > first.sequence ==> s is Deliver,
        second.epoch == first.epoch && second.sequence <= first.sequence ==> s is Nothing,
        second.epoch != first.epoch ==> s is Deliver,
{
    assert(old(c)@.last_sequences == old(c).last_sequences@);
    assert(final(c)@.last_sequences == final(c).last_sequences@);
    assert(old(d)@.last_sequences == old(d).last_sequences@);
}

/// A response answers the request that it names, once; another one is dropped.
pub proof fn responses_answer_their_request(
    c: &mut WebDaemonClient,
    request_id: u128,
    r: ClientAction,
)
    requires
        call_ensures(
            WebDaemonClient::handle_message,
            (c, ServerMessage::Response { request_id }),
            r,
        ),
        !old(c).handshaking,
        !old(c).closed,
    ensures
        old(c).pending@.contains(request_id) ==> r == ClientAction::Resolve(request_id),
        !old(c).pending@.contains(request_id) ==> r is Nothing,
        !final(c).pending@.contains(request_id),
        forall|k: u128|
            k != request_id ==> (#[trigger] final(c).pending@.contains(k) <==> old(
                c,
            ).pending@.contains(k)),
        final(c)@.last_sequences == old(c)@.last_sequences,
        !final(c).closed,
{
    let before = old(c)@.pending;
    let after = final(c)@.pending;
    assert(before == old(c).pending@ && after == final(c).pending@);
    filter_drops(before, request_id);
    assert(after == without(before, request_id));
    assert(final(c)@.closed == old(c)@.closed);
}

proof fn filter_drops(list: Seq<u128>, item: u128)
    ensures
        forall|k: u128| #[trigger] without(list, item).contains(k) <==> list.contains(k) && k != item,
    decreases list.len(),
{
    reveal(Seq::filter);
    if list.len() > 0 {
        let head = list.drop_last();
        let last = list.last();
        let kept = without(head, item);
        filter_drops(head, item);
        assert(without(list, item) == if last != item {
            kept.push(last)
        } else {
            kept
        });
        assert forall|k: u128| #[trigger]
            without(list, item).contains(k) <==> list.contains(k) && k != item by {
            assert(kept.contains(k) <==> head.contains(k) && k != item);
            assert(list =~= head.push(last));
            has_pushed(head, last, k);
            has_pushed(kept, last, k);
        }
    } else {
        assert(without(list, item).len() == 0);
    }
}

proof fn has_pushed(list: Seq<u128>, last: u128, k: u128)
    ensures
        list.push(last).contains(k) <==> list.contains(k) || k == last,
{
    let all = list.push(last);
    if all.contains(k) {
        let i = all.index_of(k);
        if i < list.len() {
            assert(list[i] == k);
        }
    }
    if list.contains(k) {
        let i = list.index_of(k);
        assert(all[i] == k);
    }
    assert(all[list.len() as int] == last);
}

/// A request goes out exactly while the connection is up, and waits for its response from then on.
pub proof fn requests_wait_for_their_response(
    c: &mut WebDaemonClient,
    request_id: u128,
    socket_open: bool,
    r: Result<(), &'static str>,
)
    requires
        call_ensures(WebDaemonClient::request, (c, request_id, socket_open), r),
    ensures
        r is Ok <==> old(c).connected && !old(c).closed && socket_open,
        r is Ok ==> forall|k: u128| #[trigger]
            final(c).pending@.contains(k) <==> old(c).pending@.contains(k) || k == request_id,
        r is Err ==> final(c)@ == old(c)@,
{
    if r is Ok {
        let before = old(c)@.pending;
        let after = final(c)@.pending;
        assert(before == old(c).pending@ && after == final(c).pending@);
        assert forall|k: u128| #[trigger] after.contains(k) <==> before.contains(k) || k
            == request_id by {
            if !before.contains(request_id) {
                assert(after == before.push(request_id));
                if after.contains(k) {
                    let i = after.index_of(k);
                    if i < before.len() {
                        assert(before[i] == k);
                    }
                }
                if before.contains(k) {
                    let i = before.index_of(k);
                    assert(after[i] == k);
                }
                assert(after[before.len() as int] == request_id);
            }
        }
    }
}

/// Who subscribes to an agent gets what was held for it, in the order in which it came, and hears it from then on
/// beside those who listen already.
pub proof fn a_subscriber_gets_what_was_held(
    c: &mut WebDaemonClient,
    session_id: u128,
    runtime_id: u128,
    subscriber: u64,
    r: Vec<SequencedEvent>,
)
    requires
        call_ensures(
            WebDaemonClient::subscribe,
            (c, session_id, runtime_id, subscriber),
            r,
        ),
    ensures
        ({
            let key = RuntimeKey { session_id, runtime_id };
            &&& old(c).buffered@.contains_key(key) ==> r@ == old(c).buffered@[key]@
            &&& !old(c).buffered@.contains_key(key) ==> r@.len() == 0
            &&& !final(c).buffered@.contains_key(key)
            &&& final(c).subscribers@.contains_key(key)
            &&& final(c).subscribers@[key]@.last() == subscriber
            &&& old(c).subscribers@.contains_key(key) ==> final(c).subscribers@[key]@.drop_last() == old(c).subscribers@[key]@
            &&& !old(c).subscribers@.contains_key(key) ==> final(c).subscribers@[key]@.len() == 1
        }),
        final(c)@.pending == old(c)@.pending,
        final(c)@.last_sequences == old(c)@.last_sequences,
{
    let key = RuntimeKey { session_id, runtime_id };
    assert(old(c)@.buffered.contains_key(key) <==> old(c).buffered@.contains_key(key));
    assert(final(c)@.buffered.contains_key(key) <==> final(c).buffered@.contains_key(key));
    assert(old(c)@.subscribers.contains_key(key) <==> old(c).subscribers@.contains_key(key));
    assert(final(c)@.subscribers.contains_key(key) <==> final(c).subscribers@.contains_key(key));
    assert(final(c)@.subscribers[key] == final(c).subscribers@[key]@);
    let heard = listeners(old(c)@, key);
    assert(heard.push(subscriber).drop_last() =~= heard);
}

/// An event that nobody took is held for whoever subscribes next, as the newest; those who took it listen on.
pub proof fn an_untaken_event_is_held(
    c: &mut WebDaemonClient,
    event: SequencedEvent,
    took: Vec<u64>,
)
    requires
        call_ensures(WebDaemonClient::settle_event, (c, event, took), ()),
    ensures
        took@.len() == 0 ==> final(c).buffered@.contains_key(agent_of(event)) && final(c).buffered@[agent_of(event)]@.len() > 0 && final(c).buffered@[agent_of(event)]@.last() == event && final(c).buffered@[agent_of(event)]@.len() <= 4096,
        took@.len() > 0 ==> final(c).subscribers@.contains_key(agent_of(event)) && final(c).subscribers@[agent_of(event)]@ == took@ && final(c)@.buffered == old(c)@.buffered,
        final(c)@.last_sequences == old(c)@.last_sequences,
        final(c)@.pending == old(c)@.pending,
{
    let key = agent_of(event);
    assert(final(c)@.buffered.contains_key(key) <==> final(c).buffered@.contains_key(key));
    assert(final(c)@.subscribers.contains_key(key) <==> final(c).subscribers@.contains_key(key));
    if took@.len() == 0 {
        assert(final(c)@.buffered[key] == final(c).buffered@[key]@);
        let all = held(old(c)@, key).push(event);
        assert(all.last() == event);
    } else {
        assert(final(c)@.subscribers[key] == final(c).subscribers@[key]@);
    }
}

/// The handshake succeeds where the daemon speaks the same protocol, and ends the connection where it does not, or
/// where it refuses or says anything else. Those who wait are told.
pub proof fn a_handshake_needs_the_same_protocol(
    c: &mut WebDaemonClient,
    message: ServerMessage,
    r: ClientAction,
)
    requires
        call_ensures(WebDaemonClient::handle_message, (c, message), r),
        old(c).handshaking,
        !old(c).closed,
    ensures
        ({
            let same = message matches ServerMessage::Hello { protocol_version }
                && protocol_version == old(c).protocol_version;
            &&& same ==> r is HandshakeDone && is_up(*final(c)) && final(c)@.pending == old(
                c,
            )@.pending
            &&& !same ==> r is Fail && final(c).closed && !final(c).connected && (
            r->Fail_0).handshake && (r->Fail_0).requests@ == old(c).pending@ && (
            r->Fail_0).close is Some && final(c).pending@.len() == 0
        }),
{
    assert(final(c)@.closed == final(c).closed && final(c)@.connected == final(c).connected);
    assert(final(c)@.handshaking == final(c).handshaking);
    assert(old(c)@.closed == old(c).closed && old(c)@.handshaking == old(c).handshaking);
    assert(final(c)@.pending == final(c).pending@);
    assert(old(c)@.protocol_version == old(c).protocol_version);
}

/// A connection that fails ends: every request that waits is told, once. One that ended stays so, whatever comes.
pub proof fn a_failed_connection_stays_ended(
    c: &mut WebDaemonClient,
    message: String,
    close: Option<(u16, &'static str)>,
    r: ClientAction,
    d: &mut WebDaemonClient,
    later: ServerMessage,
    s: ClientAction,
)
    requires
        call_ensures(WebDaemonClient::fail_connection, (c, message, close), r),
        *old(d) == *final(c),
        !old(c).closed,
        call_ensures(WebDaemonClient::handle_message, (d, later), s),
    ensures
        r is Fail,
        (r->Fail_0).message@ == message@,
        (r->Fail_0).close == close,
        (r->Fail_0).requests@ == old(c).pending@,
        (r->Fail_0).handshake == old(c).handshaking,
        final(c).closed,
        !final(c).connected,
        final(c).pending@.len() == 0,
        s is Nothing,
        final(d)@ == old(d)@,
{
    assert(old(c)@.closed == old(c).closed && final(c)@.closed == final(c).closed);
    assert(old(c)@.pending == old(c).pending@ && final(c)@.pending == final(c).pending@);
    assert(final(c)@.connected == final(c).connected);
    assert(old(d)@.closed && !old(d)@.handshaking);
    assert(final(d)@.closed == old(d)@.closed);
}

/// A daemon that shuts down ends the connection, and so does one that speaks out of turn; a change of its tasks
/// does not.
pub proof fn a_daemon_that_shuts_down_ends_the_connection(
    c: &mut WebDaemonClient,
    message: ServerMessage,
    r: ClientAction,
)
    requires
        call_ensures(WebDaemonClient::handle_message, (c, message), r),
        !old(c).handshaking,
        !old(c).closed,
    ensures
        message is ShuttingDown || message is Hello || message is Rejected ==> r is Fail && final(c).closed && (r->Fail_0).requests@ == old(c).pending@,
        message is TaskStateChanged ==> r is Nothing && final(c)@ == old(c)@,
        message is Response || message is Event || message is TaskStateChanged ==> final(c).closed
            == old(c).closed,
{
    assert(old(c)@.closed == old(c).closed && final(c)@.closed == final(c).closed);
    assert(old(c)@.handshaking == old(c).handshaking);
    assert(old(c)@.pending == old(c).pending@);
}

proof fn resumed_holds(cursors: Seq<ReplayCursor>, i: int)
    requires
        0 <= i < cursors.len(),
        forall|j: int|
            i < j < cursors.len() ==> cursor_key(#[trigger] cursors[j]) != cursor_key(cursors[i]),
    ensures
        resumed(cursors).contains_key(cursor_key(cursors[i])),
        resumed(cursors)[cursor_key(cursors[i])] == (LastSequence {
            epoch: cursors[i].epoch,
            sequence: cursors[i].sequence,
        }),
    decreases cursors.len(),
{
    if i < cursors.len() - 1 {
        let head = cursors.drop_last();
        assert(head[i] == cursors[i]);
        assert forall|j: int| i < j < head.len() implies cursor_key(#[trigger] head[j])
            != cursor_key(head[i]) by {
            assert(head[j] == cursors[j]);
        }
        resumed_holds(head, i);
        assert(cursor_key(cursors[cursors.len() - 1]) != cursor_key(cursors[i]));
    }
}

/// A new connection is not up yet and goes on where each cursor stands: what the cursor has seen is not handed on
/// again.
pub proof fn a_connection_goes_on_at_its_cursors(
    protocol_version: u32,
    cursors: &Vec<ReplayCursor>,
    r: WebDaemonClient,
    i: int,
    event: SequencedEvent,
)
    requires
        call_ensures(WebDaemonClient::connect, (protocol_version, cursors), r),
        0 <= i < cursors@.len(),
        forall|j: int|
            i < j < cursors@.len() ==> ((#[trigger] cursors@[j]).session_id, cursors@[j].runtime_id)
                != (cursors@[i].session_id, cursors@[i].runtime_id),
        event.session_id == cursors@[i].session_id,
        event.runtime_id == cursors@[i].runtime_id,
    ensures
        r.handshaking,
        !r.connected,
        !r.closed,
        r.protocol_version == protocol_version,
        r.pending@.len() == 0,
        is_seen(r, event) <==> event.epoch == cursors@[i].epoch && event.sequence
            <= cursors@[i].sequence,
{
    assert forall|j: int| i < j < cursors@.len() implies cursor_key(#[trigger] cursors@[j])
        != cursor_key(cursors@[i]) by {}
    resumed_holds(cursors@, i);
    assert(r@.last_sequences == r.last_sequences@);
    assert(r@.pending == r.pending@);
    assert(r@.handshaking == r.handshaking && r@.connected == r.connected && r@.closed == r.closed);
    assert(r@.protocol_version == r.protocol_version);
    assert(agent_of(event) == cursor_key(cursors@[i]));
}

/// Connecting succeeds where the handshake is done and the connection is up.
pub proof fn connecting_needs_a_handshake(end: HandshakeEnd, connected: bool, r: Result<(), String>)
    requires
        call_ensures(connect_outcome, (end, connected), r),
    ensures
        r is Ok <==> end is Done && connected,
        end matches HandshakeEnd::Failed(error) ==> r is Err && (r->Err_0)@ == error@,
{
}

/// A socket that fails ends the connection and tells every request that waits; a connection that ended is not told
/// of again.
pub proof fn a_broken_socket_ends_the_connection(
    c: &mut WebDaemonClient,
    fault: SocketFault,
    r: ClientAction,
    d: &mut WebDaemonClient,
    error: &str,
    s: ClientAction,
)
    requires
        call_ensures(WebDaemonClient::socket_failed, (c, fault), r),
        call_ensures(WebDaemonClient::handle_unreadable, (d, error), s),
    ensures
        old(c).closed ==> r is Nothing,
        !old(c).closed ==> r is Fail && (r->Fail_0).requests@ == old(c).pending@ && (
        r->Fail_0).handshake == old(c).handshaking && ((r->Fail_0).close is None
            <==> fault is Broken || fault is Closed),
        final(c).closed,
        old(d).closed ==> s is Nothing,
        !old(d).closed ==> s is Fail && (s->Fail_0).requests@ == old(d).pending@ && (
        s->Fail_0).close is Some,
        final(d).closed,
{
    assert(old(c)@.closed == old(c).closed && final(c)@.closed == final(c).closed);
    assert(old(d)@.closed == old(d).closed && final(d)@.closed == final(d).closed);
    assert(old(c)@.pending == old(c).pending@ && old(d)@.pending == old(d).pending@);
    assert(old(c)@.handshaking == old(c).handshaking);
}

/// The connection is up while it was made, did not end and its socket is open; a request that is given up no longer
/// waits, and the others do.
pub proof fn given_up_requests_wait_no_longer(
    held: &WebDaemonClient,
    socket_open: bool,
    up: bool,
    c: &mut WebDaemonClient,
    request_id: u128,
    other: u128,
)
    requires
        call_ensures(WebDaemonClient::connected, (held, socket_open), up),
        call_ensures(WebDaemonClient::remove_pending, (c, request_id), ()),
    ensures
        up <==> held.connected && !held.closed && socket_open,
        !final(c).pending@.contains(request_id),
        other != request_id ==> (final(c).pending@.contains(other) <==> old(c).pending@.contains(
            other,
        )),
        final(c).closed == old(c).closed,
{
    assert(held@.connected == held.connected && held@.closed == held.closed);
    assert(old(c)@.pending == old(c).pending@ && final(c)@.pending == final(c).pending@);
    assert(old(c)@.closed == old(c).closed && final(c)@.closed == final(c).closed);
    filter_drops(old(c)@.pending, request_id);
    assert(final(c)@.pending == without(old(c)@.pending, request_id));
}

} // verus!
