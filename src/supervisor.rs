//! Shutdown of a connection's concurrent duties: the first duty to finish
//! ends the session, and cleanup runs once.
use vstd::prelude::*;
use crate::registry::{no_binding_to, without_handle, Registry};
use crate::session::Session;

verus! {

/// The concurrent duties of one connection.
#[derive(Clone, Copy, Debug, PartialEq, Eq)]
pub enum Duty {
    /// Writes queued frames to the socket.
    Writer,
    /// Queues a ping on a fixed period.
    Keepalive,
    /// Moves frames relayed by peers onto the outbound queue.
    Forwarder,
    /// Reads and routes inbound frames.
    Reader,
}

/// Tracks whether a connection has been torn down.
pub struct Supervisor {
    torn_down: bool,
}

/// How many of `n` successive exits, starting from state `torn_down`, tear
/// the session down.
pub open spec fn teardowns(torn_down: bool, n: nat) -> nat
    decreases n,
{
    if n == 0 {
        0
    } else {
        (if torn_down { 0nat } else { 1nat }) + teardowns(true, (n - 1) as nat)
    }
}

impl Supervisor {
    pub closed spec fn torn_down(&self) -> bool {
        self.torn_down
    }

    pub fn new() -> (r: Supervisor)
        ensures
            !r.torn_down(),
    {
        Supervisor { torn_down: false }
    }

    /// Reports that `duty` has finished. The first report, whichever duty it
    /// comes from, unbinds every identifier of `session` and returns `true`;
    /// later ones change nothing and return `false`.
    pub fn duty_exited(&mut self, duty: Duty, session: &Session, registry: &mut Registry) -> (r: bool)
        requires
            old(registry).wf(),
        ensures
            r == !old(self).torn_down(),
            final(self).torn_down(),
            final(registry).wf(),
            final(registry).next() == old(registry).next(),
            r ==> final(registry)@ == without_handle(old(registry)@, session@.handle),
            !r ==> final(registry)@ == old(registry)@,
            r ==> no_binding_to(final(registry)@, session@.handle),
    {
        if self.torn_down {
            false
        } else {
            session.close(registry);
            self.torn_down = true;
            true
        }
    }
}

} // verus!
