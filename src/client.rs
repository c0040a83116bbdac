//! The client side: once per interval it announces the iteration, sends the
//! fixed payload and, when the listener echoes, waits for one reply.
use vstd::prelude::*;

use crate::listener::{delivered, echo_of};
use crate::BUFFER_CAPACITY;

verus! {

/// The payload that the client sends each iteration: the four ASCII bytes
/// `ping`.
pub open spec fn ping_bytes() -> Seq<u8> {
    seq![112u8, 105u8, 110u8, 103u8]
}

/// The payload that the client sends each iteration.
pub fn ping_payload() -> (r: Vec<u8>)
    ensures
        r@ == ping_bytes(),
{
    let r: Vec<u8> = vec![112u8, 105u8, 110u8, 103u8];
    assert(r@ =~= ping_bytes());
    r
}

/// Where the client loop stands within an iteration.
#[derive(Clone, Copy, Debug, PartialEq, Eq, Structural)]
pub enum ClientPhase {
    Announcing,
    Sending,
    Awaiting,
    Pausing,
    /// An I/O call failed: the failure is fatal and the loop is over.
    Terminated,
}

/// What the caller is to do next.
#[derive(Clone, Copy, Debug, PartialEq, Eq, Structural)]
pub enum ClientAction {
    /// Log the number of this iteration.
    Announce(u64),
    /// Send the payload to the listener.
    Send,
    /// Wait for one reply from the listener.
    AwaitReply,
    /// Sleep for the interval between iterations.
    Pause,
    /// Give up: the last call failed.
    Stop,
}

/// How the last action turned out.
#[derive(Clone, Copy, Debug, PartialEq, Eq, Structural)]
pub enum ClientEvent {
    Done,
    Failed,
}

/// The state of the client loop.
#[derive(Clone, Copy, Debug, PartialEq, Eq, Structural)]
pub struct ClientLoop {
    /// Whether the listener echoes, so that each send waits for a reply.
    pub expect_reply: bool,
    /// The number of the current iteration, counted from zero. It stops
    /// growing at `u64::MAX`, which at one iteration per interval is never
    /// reached.
    pub iteration: u64,
    pub phase: ClientPhase,
}

impl ClientLoop {
    /// A loop about to announce its first iteration.
    pub open spec fn started(expect_reply: bool) -> ClientLoop {
        ClientLoop { expect_reply, iteration: 0, phase: ClientPhase::Announcing }
    }

    pub open spec fn action(self) -> ClientAction {
        match self.phase {
            ClientPhase::Announcing => ClientAction::Announce(self.iteration),
            ClientPhase::Sending => ClientAction::Send,
            ClientPhase::Awaiting => ClientAction::AwaitReply,
            ClientPhase::Pausing => ClientAction::Pause,
            ClientPhase::Terminated => ClientAction::Stop,
        }
    }

    pub open spec fn with_phase(self, phase: ClientPhase) -> ClientLoop {
        ClientLoop { phase, ..self }
    }

    /// The next iteration's number.
    pub open spec fn next_iteration(self) -> u64 {
        if self.iteration < u64::MAX {
            (self.iteration + 1) as u64
        } else {
            self.iteration
        }
    }

    /// The loop after the last action turned out as `e`. A failure ends the
    /// loop; there is no retry.
    pub open spec fn after(self, e: ClientEvent) -> ClientLoop {
        if self.phase == ClientPhase::Terminated || e == ClientEvent::Failed {
            self.with_phase(ClientPhase::Terminated)
        } else {
            match self.phase {
                ClientPhase::Announcing => self.with_phase(ClientPhase::Sending),
                ClientPhase::Sending => if self.expect_reply {
                    self.with_phase(ClientPhase::Awaiting)
                } else {
                    self.with_phase(ClientPhase::Pausing)
                },
                ClientPhase::Awaiting => self.with_phase(ClientPhase::Pausing),
                _ => ClientLoop {
                    iteration: self.next_iteration(),
                    phase: ClientPhase::Announcing,
                    ..self
                },
            }
        }
    }

    /// Starts the loop at iteration zero.
    pub fn start(expect_reply: bool) -> (c: ClientLoop)
        ensures
            c == ClientLoop::started(expect_reply),
    {
        ClientLoop { expect_reply, iteration: 0, phase: ClientPhase::Announcing }
    }

    /// The action that the caller is to perform now.
    pub fn current_action(&self) -> (r: ClientAction)
        ensures
            r == self.action(),
    {
        match self.phase {
            ClientPhase::Announcing => ClientAction::Announce(self.iteration),
            ClientPhase::Sending => ClientAction::Send,
            ClientPhase::Awaiting => ClientAction::AwaitReply,
            ClientPhase::Pausing => ClientAction::Pause,
            ClientPhase::Terminated => ClientAction::Stop,
        }
    }

    /// Takes in how the last action turned out and returns the next one.
    pub fn step(&mut self, event: ClientEvent) -> (r: ClientAction)
        ensures
            *final(self) == old(self).after(event),
            r == final(self).action(),
    {
        if matches!(self.phase, ClientPhase::Terminated) || matches!(event, ClientEvent::Failed) {
            self.phase = ClientPhase::Terminated;
        } else {
            match self.phase {
                ClientPhase::Announcing => {
                    self.phase = ClientPhase::Sending;
                },
                ClientPhase::Sending => {
                    self.phase = if self.expect_reply {
                        ClientPhase::Awaiting
                    } else {
                        ClientPhase::Pausing
                    };
                },
                ClientPhase::Awaiting => {
                    self.phase = ClientPhase::Pausing;
                },
                _ => {
                    if self.iteration < u64::MAX {
                        self.iteration = self.iteration + 1;
                    }
                    self.phase = ClientPhase::Announcing;
                },
            }
        }
        self.current_action()
    }
}

/// The client loop after a sequence of outcomes, taken in order.
pub open spec fn client_run(c: ClientLoop, events: Seq<ClientEvent>) -> ClientLoop
    decreases events.len(),
{
    if events.len() == 0 {
        c
    } else {
        client_run(c.after(events[0]), events.drop_first())
    }
}

/// A client whose listener only logs never waits for a reply, however its
/// calls turn out: no state that it reaches asks for one.
pub proof fn lemma_log_only_never_waits(c: ClientLoop, events: Seq<ClientEvent>)
    requires
        !c.expect_reply,
        c.phase != ClientPhase::Awaiting,
    ensures
        client_run(c, events).phase != ClientPhase::Awaiting,
        client_run(c, events).action() != ClientAction::AwaitReply,
        !client_run(c, events).expect_reply,
    decreases events.len(),
{
    if events.len() > 0 {
        lemma_log_only_never_waits(c.after(events[0]), events.drop_first());
    }
}

/// Against a listener that only logs, an iteration that goes well is
/// announce, send and pause, and then the next iteration begins; against one
/// that echoes, a wait for the reply comes between send and pause.
pub proof fn lemma_iteration_cycle(c: ClientLoop)
    requires
        c.phase == ClientPhase::Announcing,
        c.iteration < u64::MAX,
    ensures
        !c.expect_reply ==> client_run(c, seq![ClientEvent::Done, ClientEvent::Done, ClientEvent::Done])
            == (ClientLoop { iteration: (c.iteration + 1) as u64, ..c }),
        c.expect_reply ==> client_run(
            c,
            seq![ClientEvent::Done, ClientEvent::Done, ClientEvent::Done, ClientEvent::Done],
        ) == (ClientLoop { iteration: (c.iteration + 1) as u64, ..c }),
{
    let d = ClientEvent::Done;
    reveal_with_fuel(client_run, 5);
    assert(seq![d, d, d].drop_first() =~= seq![d, d]);
    assert(seq![d, d].drop_first() =~= seq![d]);
    assert(seq![d].drop_first() =~= Seq::<ClientEvent>::empty());
    assert(seq![d, d, d, d].drop_first() =~= seq![d, d, d]);
}

/// A listener that echoes hands the client back exactly the payload it sent.
pub proof fn lemma_ping_echoed(buf: Seq<u8>, n: int)
    requires
        buf.len() == BUFFER_CAPACITY,
        n == delivered(ping_bytes()).len(),
        buf.take(n) == delivered(ping_bytes()),
    ensures
        echo_of(buf, n) == ping_bytes(),
        n == 4,
{
}

} // verus!
