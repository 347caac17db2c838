//! The connection of the browser to the daemon: its handshake, its requests, and the events that it
//! hands on. Each event is handed on once, however often the daemon sends it.
use crate::key_map::{KeyMap, MapKey};
use crate::protocol::SequencedEvent;
use crate::text::{concat, decimal, decimal_text};
use vstd::prelude::*;

verus! {

/// The number of events that are held for a runtime that nobody listens to.
pub const MAX_BUFFERED_EVENTS_PER_RUNTIME: usize = 4096;

/// A runtime of a session.
#[derive(Clone, Copy, Debug, PartialEq, Eq, Structural)]
pub struct RuntimeKey {
    pub session_id: u128,
    pub runtime_id: u128,
}

impl MapKey for RuntimeKey {
    type Id = RuntimeKey;

    open spec fn id(&self) -> RuntimeKey {
        *self
    }

    fn same_key(&self, other: &Self) -> (r: bool) {
        *self == *other
    }
}

/// The last event of a runtime that was handed on.
#[derive(Clone, Copy, Debug, PartialEq, Eq, Structural)]
pub struct LastSequence {
    pub epoch: u128,
    pub sequence: u64,
}

/// Where the events of a runtime are to be taken up again.
#[derive(Clone, Copy, Debug, PartialEq, Eq, Structural)]
pub struct ReplayCursor {
    pub session_id: u128,
    pub runtime_id: u128,
    pub epoch: u128,
    pub sequence: u64,
}

/// A message of the daemon.
pub enum ServerMessage {
    Hello { protocol_version: u32 },
    Rejected { message: String },
    /// An answer; what it holds stays with the caller.
    Response { request_id: u128 },
    Event(SequencedEvent),
    TaskStateChanged,
    ShuttingDown,
}

/// How a connection is given up: what everybody who waits is told, who that is, and how the socket is
/// closed, if it is.
pub struct ConnectionFailure {
    pub message: String,
    pub close: Option<(u16, &'static str)>,
    /// The handshake is told.
    pub handshake: bool,
    /// These requests are told.
    pub requests: Vec<u128>,
}

/// What is to be done about a message of the daemon.
pub enum ClientAction {
    Nothing,
    /// Tell the handshake that it succeeded.
    HandshakeDone,
    /// Hand the answer to the request with this id.
    Resolve(u128),
    /// Hand the event to these subscribers, and report who took it.
    Deliver(SequencedEvent, Vec<u64>),
    /// Give the connection up.
    Fail(ConnectionFailure),
}

/// The connection of the browser to the daemon.
pub struct WebDaemonClient {
    pub protocol_version: u32,
    pub connected: bool,
    pub closed: bool,
    /// The handshake is not over yet.
    pub handshaking: bool,
    /// The requests that wait for an answer.
    pub pending: Vec<u128>,
    pub subscribers: KeyMap<RuntimeKey, Vec<u64>>,
    pub buffered: KeyMap<RuntimeKey, Vec<SequencedEvent>>,
    pub last_sequences: KeyMap<RuntimeKey, LastSequence>,
}

/// The contents of the connection.
#[verifier::ext_equal]
pub ghost struct ClientView {
    pub protocol_version: u32,
    pub connected: bool,
    pub closed: bool,
    pub handshaking: bool,
    pub pending: Seq<u128>,
    pub subscribers: Map<RuntimeKey, Seq<u64>>,
    pub buffered: Map<RuntimeKey, Seq<SequencedEvent>>,
    pub last_sequences: Map<RuntimeKey, LastSequence>,
}

/// The lists of a map of lists.
pub open spec fn lists<T>(m: Map<RuntimeKey, Vec<T>>) -> Map<RuntimeKey, Seq<T>> {
    Map::new(|k: RuntimeKey| m.contains_key(k), |k: RuntimeKey| m[k]@)
}

impl View for WebDaemonClient {
    type V = ClientView;

    open spec fn view(&self) -> ClientView {
        ClientView {
            protocol_version: self.protocol_version,
            connected: self.connected,
            closed: self.closed,
            handshaking: self.handshaking,
            pending: self.pending@,
            subscribers: lists(self.subscribers@),
            buffered: lists(self.buffered@),
            last_sequences: self.last_sequences@,
        }
    }
}

// ---------------------------------------------------------------------------
// What happens to a connection
// ---------------------------------------------------------------------------
/// The key of a cursor.
pub open spec fn cursor_key(c: ReplayCursor) -> RuntimeKey {
    RuntimeKey { session_id: c.session_id, runtime_id: c.runtime_id }
}

/// The last events that a list of cursors speaks of; a later cursor replaces an earlier one.
pub open spec fn resumed(cursors: Seq<ReplayCursor>) -> Map<RuntimeKey, LastSequence>
    decreases cursors.len(),
{
    if cursors.len() == 0 {
        Map::empty()
    } else {
        let c = cursors.last();
        resumed(cursors.drop_last()).insert(
            cursor_key(c),
            LastSequence { epoch: c.epoch, sequence: c.sequence },
        )
    }
}

/// A connection that was just opened.
pub open spec fn opened(protocol_version: u32, cursors: Seq<ReplayCursor>) -> ClientView {
    ClientView {
        protocol_version,
        connected: false,
        closed: false,
        handshaking: true,
        pending: Seq::empty(),
        subscribers: Map::empty(),
        buffered: Map::empty(),
        last_sequences: resumed(cursors),
    }
}

/// A connection that was given up. One that was given up before stays as it is.
pub open spec fn failed(c: ClientView) -> ClientView {
    if c.closed {
        c
    } else {
        ClientView {
            closed: true,
            connected: false,
            handshaking: false,
            pending: Seq::empty(),
            subscribers: Map::empty(),
            ..c
        }
    }
}

/// Tells whether a failure tells everybody who waits.
pub open spec fn tells_all(
    c: ClientView,
    f: ConnectionFailure,
    message: Seq<char>,
    close: Option<(u16, &'static str)>,
) -> bool {
    f.message@ == message && f.close == close && f.handshake == c.handshaking && f.requests@
        == c.pending
}

/// Tells whether an action gives the connection up, where it was not given up before.
pub open spec fn gives_up(
    c: ClientView,
    a: ClientAction,
    message: Seq<char>,
    close: Option<(u16, &'static str)>,
) -> bool {
    if c.closed {
        a is Nothing
    } else {
        a matches ClientAction::Fail(f) && tells_all(c, f, message, close)
    }
}

/// A list without an item.
pub open spec fn without<T>(list: Seq<T>, item: T) -> Seq<T> {
    list.filter(|x: T| x != item)
}

/// Where a list is with an item at its end, unless it held the item before.
pub open spec fn with_item(list: Seq<u128>, item: u128) -> Seq<u128> {
    if list.contains(item) {
        list
    } else {
        list.push(item)
    }
}

/// The key of an event.
pub open spec fn event_key(e: SequencedEvent) -> RuntimeKey {
    RuntimeKey { session_id: e.session_id, runtime_id: e.runtime_id }
}

/// Tells whether an event was not handed on before: its number is higher than the last of its epoch.
pub open spec fn is_new(c: ClientView, e: SequencedEvent) -> bool {
    !(c.last_sequences.contains_key(event_key(e)) && c.last_sequences[event_key(e)].epoch
        == e.epoch && e.sequence <= c.last_sequences[event_key(e)].sequence)
}

/// The connection after an event came in that was not handed on before.
pub open spec fn noted(c: ClientView, e: SequencedEvent) -> ClientView {
    ClientView {
        last_sequences: c.last_sequences.insert(
            event_key(e),
            LastSequence { epoch: e.epoch, sequence: e.sequence },
        ),
        ..c
    }
}

/// The subscribers of a runtime.
pub open spec fn listeners(c: ClientView, key: RuntimeKey) -> Seq<u64> {
    if c.subscribers.contains_key(key) {
        c.subscribers[key]
    } else {
        Seq::empty()
    }
}

/// The events that are held for a runtime.
pub open spec fn held(c: ClientView, key: RuntimeKey) -> Seq<SequencedEvent> {
    if c.buffered.contains_key(key) {
        c.buffered[key]
    } else {
        Seq::empty()
    }
}

/// The last `max` items of a list.
pub open spec fn newest<T>(list: Seq<T>, max: nat) -> Seq<T> {
    if list.len() > max {
        list.skip(list.len() - max)
    } else {
        list
    }
}

/// The connection after an event was offered to the subscribers of its runtime, given those who took
/// it: they stay subscribed, and where there are none the event is held, and the oldest are given up
/// where too many are.
pub open spec fn delivered(c: ClientView, e: SequencedEvent, took: Seq<u64>) -> ClientView {
    let key = event_key(e);
    if took.len() > 0 {
        ClientView { subscribers: c.subscribers.insert(key, took), ..c }
    } else {
        ClientView {
            subscribers: c.subscribers.remove(key),
            buffered: c.buffered.insert(
                key,
                newest(held(c, key).push(e), MAX_BUFFERED_EVENTS_PER_RUNTIME as nat),
            ),
            ..c
        }
    }
}

/// The connection after a subscriber joined: it is given the events that are held.
pub open spec fn subscribed(c: ClientView, key: RuntimeKey, subscriber: u64) -> ClientView {
    ClientView {
        buffered: c.buffered.remove(key),
        subscribers: c.subscribers.insert(key, listeners(c, key).push(subscriber)),
        ..c
    }
}

/// Tells whether a connection after a message, and what is to be done about it, are right.
pub open spec fn answers(
    c: ClientView,
    next: ClientView,
    m: ServerMessage,
    a: ClientAction,
) -> bool {
    if c.handshaking {
        match m {
            ServerMessage::Hello { protocol_version } => if protocol_version
                != c.protocol_version {
                &&& next == failed(c)
                &&& gives_up(
                    c,
                    a,
                    "daemon protocol "@ + decimal(protocol_version as nat)
                        + " does not match client protocol "@ + decimal(c.protocol_version as nat),
                    Some((1002, "protocol version mismatch")),
                )
            } else if c.closed {
                next == c && a is Nothing
            } else {
                &&& next == (ClientView { connected: true, handshaking: false, ..c })
                &&& a is HandshakeDone
            },
            ServerMessage::Rejected { message } => {
                &&& next == failed(c)
                &&& gives_up(
                    c,
                    a,
                    "daemon rejected connection: "@ + message@,
                    Some((1008, "handshake rejected")),
                )
            },
            _ => {
                &&& next == failed(c)
                &&& gives_up(
                    c,
                    a,
                    "WakuWaku daemon sent an invalid handshake response"@,
                    Some((1002, "invalid handshake")),
                )
            },
        }
    } else if c.closed {
        next == c && a is Nothing
    } else {
        match m {
            ServerMessage::Response { request_id } => {
                &&& next == (ClientView { pending: without(c.pending, request_id), ..c })
                &&& (if c.pending.contains(request_id) {
                    a matches ClientAction::Resolve(id) && id == request_id
                } else {
                    a is Nothing
                })
            },
            ServerMessage::Event(event) => if is_new(c, event) {
                &&& next == noted(c, event)
                &&& a matches ClientAction::Deliver(e, to) && e == event && to@ == listeners(
                    c,
                    event_key(event),
                )
            } else {
                next == c && a is Nothing
            },
            ServerMessage::TaskStateChanged => next == c && a is Nothing,
            ServerMessage::ShuttingDown => {
                &&& next == failed(c)
                &&& gives_up(
                    c,
                    a,
                    "WakuWaku daemon is shutting down"@,
                    Some((1000, "daemon shutting down")),
                )
            },
            _ => {
                &&& next == failed(c)
                &&& gives_up(
                    c,
                    a,
                    "WakuWaku daemon sent an invalid post-handshake message"@,
                    Some((1002, "invalid post-handshake message")),
                )
            },
        }
    }
}

// ---------------------------------------------------------------------------
// The operations
// ---------------------------------------------------------------------------
fn copy_ids(list: &Vec<u64>) -> (r: Vec<u64>)
    ensures
        r@ == list@,
{
    let mut r: Vec<u64> = Vec::new();
    for i in 0..list.len()
        invariant
            r@ == list@.take(i as int),
    {
        r.push(list[i]);
        assert(list@.take(i as int + 1) =~= list@.take(i as int).push(list@[i as int]));
    }
    assert(list@.take(list@.len() as int) =~= list@);
    r
}

fn drop_id(list: &Vec<u128>, id: u128) -> (r: (Vec<u128>, bool))
    ensures
        r.0@ == without(list@, id),
        r.1 == list@.contains(id),
{
    let mut kept: Vec<u128> = Vec::new();
    let mut found = false;
    proof {
        reveal(Seq::filter);
    }
    for i in 0..list.len()
        invariant
            kept@ == without(list@.take(i as int), id),
            found <==> exists|k: int| 0 <= k < i && list@[k] == id,
    {
        proof {
            reveal(Seq::filter);
            assert(list@.take(i as int + 1).drop_last() =~= list@.take(i as int));
        }
        if list[i] == id {
            found = true;
        } else {
            kept.push(list[i]);
        }
    }
    assert(list@.take(list@.len() as int) =~= list@);
    (kept, found)
}

impl WebDaemonClient {
    /// A connection that was just opened, with the events that are to be taken up again.
    pub fn connect(protocol_version: u32, resume_from: &Vec<ReplayCursor>) -> (r: Self)
        ensures
            r@ == opened(protocol_version, resume_from@),
    {
        let mut last_sequences: KeyMap<RuntimeKey, LastSequence> = KeyMap::new();
        for i in 0..resume_from.len()
            invariant
                last_sequences@ == resumed(resume_from@.take(i as int)),
        {
            let c = resume_from[i];
            assert(resume_from@.take(i as int + 1).drop_last() =~= resume_from@.take(i as int));
            last_sequences.insert(
                RuntimeKey { session_id: c.session_id, runtime_id: c.runtime_id },
                LastSequence { epoch: c.epoch, sequence: c.sequence },
            );
        }
        assert(resume_from@.take(resume_from@.len() as int) =~= resume_from@);
        let r = WebDaemonClient {
            protocol_version,
            connected: false,
            closed: false,
            handshaking: true,
            pending: Vec::new(),
            subscribers: KeyMap::new(),
            buffered: KeyMap::new(),
            last_sequences,
        };
        assert(r@ =~= opened(protocol_version, resume_from@));
        r
    }

    /// Tells whether the handshake succeeded and the connection was not given up, given whether the
    /// socket is open.
    pub fn connected(&self, socket_open: bool) -> (r: bool)
        ensures
            r == (self@.connected && !self@.closed && socket_open),
    {
        self.connected && !self.closed && socket_open
    }

    /// Admits a request, given whether the socket is open. Where the connection is not, it is refused.
    pub fn request(&mut self, request_id: u128, socket_open: bool) -> (r: Result<
        (),
        &'static str,
    >)
        ensures
            match r {
                Ok(_) => old(self)@.connected && !old(self)@.closed && socket_open && final(self)@
                    == (ClientView {
                    pending: with_item(old(self)@.pending, request_id),
                    ..old(self)@
                }),
                Err(message) => !(old(self)@.connected && !old(self)@.closed && socket_open)
                    && message@ == "WakuWaku daemon is disconnected"@ && final(self)@
                    == old(self)@,
            },
    {
        if !self.connected(socket_open) {
            return Err("WakuWaku daemon is disconnected");
        }
        let mut i: usize = 0;
        while i < self.pending.len()
            invariant
                i <= self.pending@.len(),
                self@ == old(self)@,
                old(self)@.connected && !old(self)@.closed && socket_open,
                forall|k: int| 0 <= k < i ==> self.pending@[k] != request_id,
            decreases self.pending@.len() - i,
        {
            if self.pending[i] == request_id {
                assert(self@.pending.contains(request_id));
                return Ok(());
            }
            i = i + 1;
        }
        self.pending.push(request_id);
        assert(self@ =~= (ClientView {
            pending: with_item(old(self)@.pending, request_id),
            ..old(self)@
        }));
        Ok(())
    }

    /// Forgets a request, such as one that was not answered in time.
    pub fn remove_pending(&mut self, request_id: u128)
        ensures
            final(self)@ == (ClientView {
                pending: without(old(self)@.pending, request_id),
                ..old(self)@
            }),
    {
        let (kept, _) = drop_id(&self.pending, request_id);
        self.pending = kept;
        assert(self@ =~= (ClientView {
            pending: without(old(self)@.pending, request_id),
            ..old(self)@
        }));
    }

    /// Adds a subscriber to a runtime, and gives it the events that are held.
    pub fn subscribe(&mut self, session_id: u128, runtime_id: u128, subscriber: u64) -> (r: Vec<
        SequencedEvent,
    >)
        ensures
            ({
                let key = RuntimeKey { session_id, runtime_id };
                &&& r@ == held(old(self)@, key)
                &&& final(self)@ == subscribed(old(self)@, key, subscriber)
            }),
    {
        let key = RuntimeKey { session_id, runtime_id };
        let waiting: Vec<SequencedEvent> = match self.buffered.remove(&key) {
            Some(events) => events,
            None => Vec::new(),
        };
        let mut list: Vec<u64> = match self.subscribers.remove(&key) {
            Some(list) => list,
            None => Vec::new(),
        };
        list.push(subscriber);
        self.subscribers.insert(key, list);
        assert(self@ =~= subscribed(old(self)@, key, subscriber));
        waiting
    }

    /// Gives the connection up: whoever waits is told, and nobody is subscribed any longer. A
    /// connection that was given up before is left as it is.
    pub fn fail_connection(&mut self, message: String, close: Option<(u16, &'static str)>) -> (r:
        ClientAction)
        ensures
            final(self)@ == failed(old(self)@),
            gives_up(old(self)@, r, message@, close),
    {
        if self.closed {
            return ClientAction::Nothing;
        }
        self.closed = true;
        self.connected = false;
        let handshake = self.handshaking;
        self.handshaking = false;
        let mut requests: Vec<u128> = Vec::new();
        std::mem::swap(&mut requests, &mut self.pending);
        self.subscribers.clear();
        assert(self@ =~= failed(old(self)@));
        ClientAction::Fail(ConnectionFailure { message, close, handshake, requests })
    }

    /// Answers a message of the daemon.
    pub fn handle_message(&mut self, message: ServerMessage) -> (r: ClientAction)
        ensures
            answers(old(self)@, final(self)@, message, r),
    {
        if self.handshaking {
            self.handle_handshake(message)
        } else if !self.closed {
            self.dispatch_message(message)
        } else {
            ClientAction::Nothing
        }
    }

    /// Answers a message that could not be read; `error` says why.
    pub fn handle_unreadable(&mut self, error: &str) -> (r: ClientAction)
        ensures
            final(self)@ == failed(old(self)@),
            gives_up(
                old(self)@,
                r,
                "WakuWaku daemon sent invalid JSON: "@ + error@,
                Some((1002, "invalid JSON")),
            ),
    {
        self.fail_connection(
            concat("WakuWaku daemon sent invalid JSON: ", error),
            Some((1002, "invalid JSON")),
        )
    }

    fn handle_handshake(&mut self, message: ServerMessage) -> (r: ClientAction)
        requires
            old(self)@.handshaking,
        ensures
            answers(old(self)@, final(self)@, message, r),
    {
        match message {
            ServerMessage::Hello { protocol_version } => {
                if protocol_version != self.protocol_version {
                    let mut text = concat(
                        "daemon protocol ",
                        decimal_text(protocol_version as u64).as_str(),
                    );
                    text.append(" does not match client protocol ");
                    text.append(decimal_text(self.protocol_version as u64).as_str());
                    return self.fail_connection(text, Some((1002, "protocol version mismatch")));
                }
                if self.closed {
                    return ClientAction::Nothing;
                }
                self.connected = true;
                self.handshaking = false;
                ClientAction::HandshakeDone
            },
            ServerMessage::Rejected { message } => self.fail_connection(
                concat("daemon rejected connection: ", message.as_str()),
                Some((1008, "handshake rejected")),
            ),
            _ => self.fail_connection(
                "WakuWaku daemon sent an invalid handshake response".to_string(),
                Some((1002, "invalid handshake")),
            ),
        }
    }

    fn dispatch_message(&mut self, message: ServerMessage) -> (r: ClientAction)
        requires
            !old(self)@.handshaking,
            !old(self)@.closed,
        ensures
            answers(old(self)@, final(self)@, message, r),
    {
        match message {
            ServerMessage::Response { request_id } => {
                let (kept, found) = drop_id(&self.pending, request_id);
                self.pending = kept;
                assert(self@ =~= (ClientView {
                    pending: without(old(self)@.pending, request_id),
                    ..old(self)@
                }));
                if found {
                    ClientAction::Resolve(request_id)
                } else {
                    ClientAction::Nothing
                }
            },
            ServerMessage::Event(event) => self.accept_event(event),
            ServerMessage::TaskStateChanged => ClientAction::Nothing,
            ServerMessage::ShuttingDown => self.fail_connection(
                "WakuWaku daemon is shutting down".to_string(),
                Some((1000, "daemon shutting down")),
            ),
            _ => self.fail_connection(
                "WakuWaku daemon sent an invalid post-handshake message".to_string(),
                Some((1002, "invalid post-handshake message")),
            ),
        }
    }

    /// Takes an event in. One that was handed on before is dropped; another is to be handed to the
    /// subscribers of its runtime.
    pub fn accept_event(&mut self, event: SequencedEvent) -> (r: ClientAction)
        ensures
            if is_new(old(self)@, event) {
                &&& final(self)@ == noted(old(self)@, event)
                &&& r matches ClientAction::Deliver(e, to) && e == event && to@ == listeners(
                    old(self)@,
                    event_key(event),
                )
            } else {
                final(self)@ == old(self)@ && r is Nothing
            },
    {
        let key = RuntimeKey { session_id: event.session_id, runtime_id: event.runtime_id };
        if let Some(last) = self.last_sequences.get(&key) {
            if last.epoch == event.epoch && event.sequence <= last.sequence {
                return ClientAction::Nothing;
            }
        }
        self.last_sequences.insert(
            key,
            LastSequence { epoch: event.epoch, sequence: event.sequence },
        );
        let to: Vec<u64> = match self.subscribers.get(&key) {
            Some(list) => copy_ids(list),
            None => Vec::new(),
        };
        assert(self@ =~= noted(old(self)@, event));
        ClientAction::Deliver(event, to)
    }

    /// Settles an event that was offered to the subscribers of its runtime, given those who took it.
    pub fn settle_event(&mut self, event: SequencedEvent, took: Vec<u64>)
        ensures
            final(self)@ == delivered(old(self)@, event, took@),
    {
        let key = RuntimeKey { session_id: event.session_id, runtime_id: event.runtime_id };
        if took.len() > 0 {
            self.subscribers.insert(key, took);
            assert(self@ =~= delivered(old(self)@, event, took@));
            return ;
        }
        let _ = self.subscribers.remove(&key);
        let mut events: Vec<SequencedEvent> = match self.buffered.remove(&key) {
            Some(events) => events,
            None => Vec::new(),
        };
        let ghost before = events@;
        events.push(event);
        let ghost all = events@;
        while events.len() > MAX_BUFFERED_EVENTS_PER_RUNTIME
            invariant
                events@.len() <= all.len(),
                newest(events@, MAX_BUFFERED_EVENTS_PER_RUNTIME as nat) == newest(
                    all,
                    MAX_BUFFERED_EVENTS_PER_RUNTIME as nat,
                ),
            decreases events@.len(),
        {
            let ghost list = events@;
            let _ = events.remove(0);
            assert(newest(events@, MAX_BUFFERED_EVENTS_PER_RUNTIME as nat) =~= newest(
                list,
                MAX_BUFFERED_EVENTS_PER_RUNTIME as nat,
            ));
        }
        self.buffered.insert(key, events);
        assert(self@ =~= delivered(old(self)@, event, took@));
    }
}

/// How a handshake ended.
pub enum HandshakeEnd {
    Done,
    Failed(String),
    Cancelled,
}

/// What came of opening a connection, given how the handshake ended and whether the connection stands.
pub fn connect_outcome(end: HandshakeEnd, connected: bool) -> (r: Result<(), String>)
    ensures
        match end {
            HandshakeEnd::Done => if connected {
                r is Ok
            } else {
                r matches Err(e) && e@ == "WakuWaku daemon disconnected during handshake"@
            },
            HandshakeEnd::Failed(error) => r matches Err(e) && e == error,
            HandshakeEnd::Cancelled => r matches Err(e) && e@
                == "WakuWaku daemon handshake was cancelled"@,
        },
{
    match end {
        HandshakeEnd::Done => if connected {
            Ok(())
        } else {
            Err("WakuWaku daemon disconnected during handshake".to_string())
        },
        HandshakeEnd::Failed(error) => Err(error),
        HandshakeEnd::Cancelled => Err("WakuWaku daemon handshake was cancelled".to_string()),
    }
}

/// How the socket failed.
pub enum SocketFault {
    /// The handshake could not be sent.
    Hello(String),
    /// A request could not be sent.
    Request(String),
    /// The daemon sent something other than text.
    NotText,
    /// The socket reported an error.
    Broken,
    /// The socket was closed.
    Closed,
}

/// What whoever waits is told about a fault of the socket.
pub open spec fn fault_message(fault: SocketFault) -> Seq<char> {
    match fault {
        SocketFault::Hello(error) => "could not send WakuWaku handshake: "@ + error@,
        SocketFault::Request(error) => "could not send WakuWaku request: "@ + error@,
        SocketFault::NotText => "WakuWaku daemon sent a non-text WebSocket message"@,
        SocketFault::Broken => "WakuWaku daemon WebSocket connection failed"@,
        SocketFault::Closed => "WakuWaku daemon WebSocket closed"@,
    }
}

/// How the socket is closed after a fault, if it is.
pub open spec fn fault_close(fault: SocketFault) -> Option<(u16, &'static str)> {
    match fault {
        SocketFault::Hello(_) => Some((1002, "handshake failed")),
        SocketFault::Request(_) => Some((1011, "send failed")),
        SocketFault::NotText => Some((1002, "text messages required")),
        SocketFault::Broken => None,
        SocketFault::Closed => None,
    }
}

impl WebDaemonClient {
    /// Gives the connection up over a fault of the socket.
    pub fn socket_failed(&mut self, fault: SocketFault) -> (r: ClientAction)
        ensures
            final(self)@ == failed(old(self)@),
            gives_up(old(self)@, r, fault_message(fault), fault_close(fault)),
    {
        match fault {
            SocketFault::Hello(error) => self.fail_connection(
                concat("could not send WakuWaku handshake: ", error.as_str()),
                Some((1002, "handshake failed")),
            ),
            SocketFault::Request(error) => self.fail_connection(
                concat("could not send WakuWaku request: ", error.as_str()),
                Some((1011, "send failed")),
            ),
            SocketFault::NotText => self.fail_connection(
                "WakuWaku daemon sent a non-text WebSocket message".to_string(),
                Some((1002, "text messages required")),
            ),
            SocketFault::Broken => self.fail_connection(
                "WakuWaku daemon WebSocket connection failed".to_string(),
                None,
            ),
            SocketFault::Closed => self.fail_connection(
                "WakuWaku daemon WebSocket closed".to_string(),
                None,
            ),
        }
    }
}

// ---------------------------------------------------------------------------
// Laws
// ---------------------------------------------------------------------------
/// An event that comes again is dropped, as is any of its epoch with a lower number.
pub proof fn events_are_handed_on_once(c: ClientView, e: SequencedEvent, again: SequencedEvent)
    requires
        event_key(again) == event_key(e),
        again.epoch == e.epoch,
        again.sequence <= e.sequence,
    ensures
        !is_new(noted(c, e), again),
{
}

/// Within an epoch the numbers of the events that are handed on rise.
pub proof fn numbers_rise_within_an_epoch(c: ClientView, e: SequencedEvent)
    requires
        is_new(c, e),
        c.last_sequences.contains_key(event_key(e)),
        c.last_sequences[event_key(e)].epoch == e.epoch,
    ensures
        noted(c, e).last_sequences[event_key(e)].sequence > c.last_sequences[event_key(e)].sequence,
{
}

/// The events of one runtime do not touch those of another.
pub proof fn runtimes_are_independent(
    c: ClientView,
    e: SequencedEvent,
    took: Seq<u64>,
    other: RuntimeKey,
)
    requires
        other != event_key(e),
    ensures
        held(delivered(noted(c, e), e, took), other) == held(c, other),
        listeners(delivered(noted(c, e), e, took), other) == listeners(c, other),
        noted(c, e).last_sequences.contains_key(other) == c.last_sequences.contains_key(other),
        c.last_sequences.contains_key(other) ==> noted(c, e).last_sequences[other]
            == c.last_sequences[other],
{
}

/// Tells whether no runtime has more events held than may be.
pub open spec fn buffers_bounded(c: ClientView) -> bool {
    forall|key: RuntimeKey| #[trigger]
        c.buffered.contains_key(key) ==> c.buffered[key].len() <= MAX_BUFFERED_EVENTS_PER_RUNTIME
}

/// Never are more events held than may be, and the event that came last is among those held.
pub proof fn buffers_stay_bounded(
    c: ClientView,
    e: SequencedEvent,
    took: Seq<u64>,
    key: RuntimeKey,
    subscriber: u64,
    version: u32,
    cursors: Seq<ReplayCursor>,
)
    requires
        buffers_bounded(c),
    ensures
        buffers_bounded(opened(version, cursors)),
        buffers_bounded(delivered(c, e, took)),
        buffers_bounded(subscribed(c, key, subscriber)),
        buffers_bounded(failed(c)),
        buffers_bounded(noted(c, e)),
        took.len() == 0 ==> held(delivered(c, e, took), event_key(e)).last() == e,
{
    let after = delivered(c, e, took);
    assert forall|k: RuntimeKey| #[trigger] after.buffered.contains_key(k) implies after.buffered[k].len()
        <= MAX_BUFFERED_EVENTS_PER_RUNTIME by {
        if k != event_key(e) {
            assert(c.buffered.contains_key(k));
        }
    }
    let joined = subscribed(c, key, subscriber);
    assert forall|k: RuntimeKey| #[trigger] joined.buffered.contains_key(k) implies joined.buffered[k].len()
        <= MAX_BUFFERED_EVENTS_PER_RUNTIME by {
        assert(c.buffered.contains_key(k));
    }
    assert forall|k: RuntimeKey| #[trigger] failed(c).buffered.contains_key(k) implies failed(
        c,
    ).buffered[k].len() <= MAX_BUFFERED_EVENTS_PER_RUNTIME by {
        assert(c.buffered.contains_key(k));
    }
    assert forall|k: RuntimeKey| #[trigger] noted(c, e).buffered.contains_key(k) implies noted(
        c,
        e,
    ).buffered[k].len() <= MAX_BUFFERED_EVENTS_PER_RUNTIME by {
        assert(c.buffered.contains_key(k));
    }
}

/// What is held for a runtime that nobody listens to is given to the first who does, in the order in
/// which it came, and is not held any longer.
pub proof fn held_events_go_to_the_first_subscriber(
    c: ClientView,
    e: SequencedEvent,
    subscriber: u64,
)
    requires
        held(c, event_key(e)).len() < MAX_BUFFERED_EVENTS_PER_RUNTIME,
    ensures
        held(delivered(c, e, Seq::empty()), event_key(e)) == held(c, event_key(e)).push(e),
        held(
            subscribed(delivered(c, e, Seq::empty()), event_key(e), subscriber),
            event_key(e),
        ).len() == 0,
        listeners(
            subscribed(delivered(c, e, Seq::empty()), event_key(e), subscriber),
            event_key(e),
        ) == seq![subscriber],
{
    assert(Seq::<u64>::empty().push(subscriber) =~= seq![subscriber]);
}

/// A connection that was given up stays so: nobody waits on it, nobody is subscribed, it is not
/// connected, and giving it up again changes nothing.
pub proof fn failures_are_final(c: ClientView)
    ensures
        failed(c).closed,
        failed(failed(c)) == failed(c),
        !c.closed ==> !failed(c).connected && failed(c).pending.len() == 0 && failed(
            c,
        ).subscribers == Map::<RuntimeKey, Seq<u64>>::empty() && !failed(c).handshaking,
{
}

/// Once a connection was given up after its handshake, no message changes it or calls for anything.
pub proof fn closed_connections_stay_quiet(
    c: ClientView,
    next: ClientView,
    m: ServerMessage,
    a: ClientAction,
)
    requires
        c.closed,
        !c.handshaking,
        answers(c, next, m, a),
    ensures
        next == c,
        a is Nothing,
{
}

} // verus!
