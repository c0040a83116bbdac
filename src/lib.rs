//! Decision logic for a loopback connectivity probe: a listener that takes in
//! a bounded number of messages and echoes or logs them, and a client that
//! sends a fixed payload once per interval. The sockets, the timer and the
//! command line live with the caller; this library decides, step by step,
//! what each side does next.
use vstd::prelude::*;

pub mod client;
pub mod listener;

verus! {

/// The transport that both sides of the probe use.
#[derive(Clone, Copy, Debug, PartialEq, Eq, Structural)]
pub enum Transport {
    /// A stream connection; a zero-length read means the peer closed it.
    Tcp,
    /// Connectionless datagrams; a zero-length datagram is an ordinary message.
    Udp,
}

/// Capacity in bytes of the buffer that every read or receive call fills.
pub const BUFFER_CAPACITY: usize = 1024;

} // verus!
