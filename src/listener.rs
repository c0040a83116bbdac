//! The listener side: one session per TCP connection, or one for the whole
//! lifetime of a UDP socket, and the TCP accept loop around the sessions.
use vstd::prelude::*;

use crate::{Transport, BUFFER_CAPACITY};

verus! {

/// How many receive events a session may take in: the bound when one is
/// given, otherwise as many as a `usize` counts.
pub open spec fn limit_of(bound: Option<usize>) -> usize {
    match bound {
        Some(n) => n,
        None => usize::MAX,
    }
}

/// The limit of receive events for an optional bound.
pub fn read_limit(bound: Option<usize>) -> (r: usize)
    ensures
        r == limit_of(bound),
{
    match bound {
        Some(n) => n,
        None => usize::MAX,
    }
}

/// Why a session stopped reading.
#[derive(Clone, Copy, Debug, PartialEq, Eq, Structural)]
pub enum CloseReason {
    /// The peer shut its side of the stream down (a zero-length TCP read).
    EndOfStream,
    /// A read, receive, write or send failed.
    Failure,
    /// The session took in as many messages as its bound allows.
    BoundReached,
}

impl CloseReason {
    /// Whether the connection is given up when a session closes for this
    /// reason. A session that reached its bound stops reading but keeps the
    /// connection open, so that the peer's later writes still succeed.
    pub fn releases_connection(self) -> (r: bool)
        ensures
            r == (self != CloseReason::BoundReached),
    {
        !matches!(self, CloseReason::BoundReached)
    }
}

/// Where a session stands.
#[derive(Clone, Copy, Debug, PartialEq, Eq, Structural)]
pub enum Phase {
    /// Waiting for one read or receive call to complete.
    Receiving,
    /// The last read took in this many bytes, which are being sent back.
    Replying(usize),
    /// The last read took in this many bytes, which are being logged.
    Logging(usize),
    /// The session is over.
    Closed(CloseReason),
}

/// What the caller reports back after performing an action.
#[derive(Clone, Copy, Debug, PartialEq, Eq, Structural)]
pub enum ListenerEvent {
    /// A read or receive call returned this many bytes.
    Received(usize),
    /// A read or receive call failed.
    ReceiveFailed,
    /// The reply was sent, or the log line written.
    Handled,
    /// Sending the reply failed.
    HandleFailed,
}

/// What the caller is to do next.
#[derive(Clone, Copy, Debug, PartialEq, Eq, Structural)]
pub enum ListenerAction {
    /// Make one read or receive call into the buffer.
    Receive,
    /// Send the first this many bytes of the buffer back to the peer.
    Reply(usize),
    /// Log that this many bytes were read, and send nothing back.
    Log(usize),
    /// Stop: the session is over.
    Stop,
}

/// The state of one listening session.
#[derive(Clone, Copy, Debug, PartialEq, Eq, Structural)]
pub struct Session {
    pub transport: Transport,
    /// Whether what is read is echoed back (otherwise it is only logged).
    pub reply: bool,
    /// How many receive events the session may take in.
    pub limit: usize,
    /// How many messages the session has taken in so far.
    pub received: usize,
    pub phase: Phase,
}

/// The action that belongs to a phase.
pub open spec fn action_of(phase: Phase) -> ListenerAction {
    match phase {
        Phase::Receiving => ListenerAction::Receive,
        Phase::Replying(n) => ListenerAction::Reply(n),
        Phase::Logging(n) => ListenerAction::Log(n),
        Phase::Closed(_) => ListenerAction::Stop,
    }
}

impl Session {
    /// A fresh session with the given bound: it reads unless the bound is zero.
    pub open spec fn opened(transport: Transport, bound: Option<usize>, reply: bool) -> Session {
        Session {
            transport,
            reply,
            limit: limit_of(bound),
            received: 0,
            phase: if limit_of(bound) == 0 {
                Phase::Closed(CloseReason::BoundReached)
            } else {
                Phase::Receiving
            },
        }
    }

    /// The counter stays within the limit, and a session waiting for a read
    /// has room for one more message.
    pub open spec fn wf(self) -> bool {
        &&& self.received <= self.limit
        &&& self.phase == Phase::Receiving ==> self.received < self.limit
    }

    pub open spec fn action(self) -> ListenerAction {
        action_of(self.phase)
    }

    pub open spec fn with_phase(self, phase: Phase) -> Session {
        Session { phase, ..self }
    }

    /// Whether an event is a read that this session takes in.
    pub open spec fn reads(self, e: ListenerEvent) -> bool {
        &&& self.phase == Phase::Receiving
        &&& self.received < self.limit
        &&& e is Received
    }

    /// The session after one event. An event that does not answer the
    /// pending action leaves the session as it is.
    pub open spec fn after(self, e: ListenerEvent) -> Session {
        match self.phase {
            Phase::Closed(_) => self,
            Phase::Receiving => match e {
                ListenerEvent::Received(n) => {
                    if self.received >= self.limit {
                        self.with_phase(Phase::Closed(CloseReason::BoundReached))
                    } else if self.transport == Transport::Tcp && n == 0 {
                        self.with_phase(Phase::Closed(CloseReason::EndOfStream))
                    } else {
                        Session {
                            received: (self.received + 1) as usize,
                            phase: if self.reply {
                                Phase::Replying(n)
                            } else {
                                Phase::Logging(n)
                            },
                            ..self
                        }
                    }
                },
                ListenerEvent::ReceiveFailed => self.with_phase(
                    Phase::Closed(CloseReason::Failure),
                ),
                _ => self,
            },
            Phase::Replying(_) | Phase::Logging(_) => match e {
                ListenerEvent::Handled => {
                    if self.received < self.limit {
                        self.with_phase(Phase::Receiving)
                    } else {
                        self.with_phase(Phase::Closed(CloseReason::BoundReached))
                    }
                },
                ListenerEvent::HandleFailed => self.with_phase(
                    Phase::Closed(CloseReason::Failure),
                ),
                _ => self,
            },
        }
    }

    /// Opens a session for a new TCP connection, or for a bound UDP socket.
    pub fn open(transport: Transport, bound: Option<usize>, reply: bool) -> (s: Session)
        ensures
            s == Session::opened(transport, bound, reply),
            s.wf(),
    {
        let limit = read_limit(bound);
        let phase = if limit == 0 {
            Phase::Closed(CloseReason::BoundReached)
        } else {
            Phase::Receiving
        };
        Session { transport, reply, limit, received: 0, phase }
    }

    /// The action that the caller is to perform now.
    pub fn current_action(&self) -> (r: ListenerAction)
        ensures
            r == self.action(),
    {
        match self.phase {
            Phase::Receiving => ListenerAction::Receive,
            Phase::Replying(n) => ListenerAction::Reply(n),
            Phase::Logging(n) => ListenerAction::Log(n),
            Phase::Closed(_) => ListenerAction::Stop,
        }
    }

    /// Takes in what came of the last action and returns the next one.
    pub fn step(&mut self, event: ListenerEvent) -> (r: ListenerAction)
        ensures
            *final(self) == old(self).after(event),
            r == final(self).action(),
            old(self).wf() ==> final(self).wf(),
    {
        match self.phase {
            Phase::Closed(_) => {},
            Phase::Receiving => match event {
                ListenerEvent::Received(n) => {
                    if self.received >= self.limit {
                        self.phase = Phase::Closed(CloseReason::BoundReached);
                    } else if self.transport == Transport::Tcp && n == 0 {
                        self.phase = Phase::Closed(CloseReason::EndOfStream);
                    } else {
                        self.received = self.received + 1;
                        self.phase = if self.reply {
                            Phase::Replying(n)
                        } else {
                            Phase::Logging(n)
                        };
                    }
                },
                ListenerEvent::ReceiveFailed => {
                    self.phase = Phase::Closed(CloseReason::Failure);
                },
                _ => {},
            },
            Phase::Replying(_) | Phase::Logging(_) => match event {
                ListenerEvent::Handled => {
                    if self.received < self.limit {
                        self.phase = Phase::Receiving;
                    } else {
                        self.phase = Phase::Closed(CloseReason::BoundReached);
                    }
                },
                ListenerEvent::HandleFailed => {
                    self.phase = Phase::Closed(CloseReason::Failure);
                },
                _ => {},
            },
        }
        self.current_action()
    }
}

/// The session after a sequence of events, taken in order.
pub open spec fn run(s: Session, events: Seq<ListenerEvent>) -> Session
    decreases events.len(),
{
    if events.len() == 0 {
        s
    } else {
        run(s.after(events[0]), events.drop_first())
    }
}

/// How many of the events are reads that the session takes in, one after
/// the other from `s`.
pub open spec fn reads_taken(s: Session, events: Seq<ListenerEvent>) -> nat
    decreases events.len(),
{
    if events.len() == 0 {
        0
    } else {
        (if s.reads(events[0]) {
            1nat
        } else {
            0nat
        }) + reads_taken(s.after(events[0]), events.drop_first())
    }
}

/// The room for further reads that a session has left.
pub open spec fn room(s: Session) -> int {
    if s.phase is Closed {
        0
    } else {
        s.limit - s.received
    }
}

proof fn lemma_reads_within_room(s: Session, events: Seq<ListenerEvent>)
    requires
        s.received <= s.limit,
    ensures
        reads_taken(s, events) <= room(s),
        run(s, events).received <= run(s, events).limit,
        run(s, events).limit == s.limit,
    decreases events.len(),
{
    if events.len() > 0 {
        lemma_reads_within_room(s.after(events[0]), events.drop_first());
    }
}

/// Whatever the peer sends and however the calls turn out, a fresh session
/// takes in at most as many reads as its bound allows, and its counter never
/// passes the bound.
pub proof fn lemma_reads_bounded(
    transport: Transport,
    bound: Option<usize>,
    reply: bool,
    events: Seq<ListenerEvent>,
)
    ensures
        reads_taken(Session::opened(transport, bound, reply), events) <= limit_of(bound),
        run(Session::opened(transport, bound, reply), events).received <= limit_of(bound),
{
    lemma_reads_within_room(Session::opened(transport, bound, reply), events);
}

/// Once a session has taken in as many messages as its bound allows, no
/// later message is read, and the session asks for no further read.
pub proof fn lemma_no_read_past_bound(s: Session, events: Seq<ListenerEvent>)
    requires
        s.wf(),
        s.received == s.limit,
    ensures
        reads_taken(s, events) == 0,
        run(s, events).action() != ListenerAction::Receive,
    decreases events.len(),
{
    if events.len() > 0 {
        lemma_no_read_past_bound(s.after(events[0]), events.drop_first());
    }
}

/// What one read call leaves in the buffer when the peer sent `payload`:
/// the payload, cut at the buffer's capacity.
pub open spec fn delivered(payload: Seq<u8>) -> Seq<u8> {
    if payload.len() <= BUFFER_CAPACITY {
        payload
    } else {
        payload.take(BUFFER_CAPACITY as int)
    }
}

/// The bytes sent back for a read of `n` bytes into `buf`.
pub open spec fn echo_of(buf: Seq<u8>, n: int) -> Seq<u8> {
    buf.take(n)
}

/// The reply to a read of `n` bytes: exactly the bytes that were read.
pub fn echo_reply(buf: &Vec<u8>, n: usize) -> (r: Vec<u8>)
    requires
        n <= buf.len(),
    ensures
        r@ == echo_of(buf@, n as int),
{
    let mut r: Vec<u8> = Vec::with_capacity(n);
    let mut i: usize = 0;
    while i < n
        invariant
            n <= buf.len(),
            i <= n,
            r@ == buf@.take(i as int),
        decreases n - i,
    {
        r.push(buf[i]);
        i = i + 1;
        assert(r@ =~= buf@.take(i as int));
    }
    r
}

/// A reply sends back exactly what the peer sent, cut at the buffer's
/// capacity when the payload was longer.
pub proof fn lemma_echo_round_trip(payload: Seq<u8>, buf: Seq<u8>, n: int)
    requires
        buf.len() == BUFFER_CAPACITY,
        n == delivered(payload).len(),
        buf.take(n) == delivered(payload),
    ensures
        echo_of(buf, n) == delivered(payload),
        payload.len() <= BUFFER_CAPACITY ==> echo_of(buf, n) == payload,
        payload.len() > BUFFER_CAPACITY ==> echo_of(buf, n) == payload.take(BUFFER_CAPACITY as int),
{
}

/// The TCP accept loop: it serves one connection at a time, each with a
/// session of its own, and ends on the first failed accept.
#[derive(Clone, Copy, Debug, PartialEq, Eq, Structural)]
pub struct Acceptor {
    /// The bound on messages per connection.
    pub bound: Option<usize>,
    pub reply: bool,
    /// Whether an accept failed, which ends the loop.
    pub stopped: bool,
}

impl Acceptor {
    /// The acceptor and the session, if any, after an accept call that
    /// succeeded or failed.
    pub open spec fn after_accept(self, accepted: bool) -> (Acceptor, Option<Session>) {
        if self.stopped {
            (self, None)
        } else if accepted {
            (self, Some(Session::opened(Transport::Tcp, self.bound, self.reply)))
        } else {
            (Acceptor { stopped: true, ..self }, None)
        }
    }

    /// An accept loop that has not yet accepted anything.
    pub fn new(bound: Option<usize>, reply: bool) -> (a: Acceptor)
        ensures
            a == (Acceptor { bound, reply, stopped: false }),
    {
        Acceptor { bound, reply, stopped: false }
    }

    /// Whether the loop is to make another accept call.
    pub fn accepting(&self) -> (r: bool)
        ensures
            r == !self.stopped,
    {
        !self.stopped
    }

    /// Takes in the outcome of an accept call. A new connection gets a fresh
    /// session with its own counter; a failure ends the loop.
    pub fn on_accept(&mut self, accepted: bool) -> (r: Option<Session>)
        ensures
            (*final(self), r) == old(self).after_accept(accepted),
            r matches Some(s) ==> s.wf(),
    {
        if self.stopped {
            None
        } else if accepted {
            Some(Session::open(Transport::Tcp, self.bound, self.reply))
        } else {
            self.stopped = true;
            None
        }
    }
}

/// A zero-length TCP read closes the session as an end of stream, not as a
/// failure, having taken nothing in; the accept loop is untouched by it and
/// gives the next connection a fresh session.
pub proof fn lemma_end_of_stream_is_local(a: Acceptor, s: Session)
    requires
        !a.stopped,
        s.transport == Transport::Tcp,
        s.phase == Phase::Receiving,
        s.received < s.limit,
    ensures
        s.after(ListenerEvent::Received(0)).phase == Phase::Closed(CloseReason::EndOfStream),
        s.after(ListenerEvent::Received(0)).received == s.received,
        s.after(ListenerEvent::Received(0)).action() == ListenerAction::Stop,
        a.after_accept(true) == (a, Some(Session::opened(Transport::Tcp, a.bound, a.reply))),
{
}

} // verus!
