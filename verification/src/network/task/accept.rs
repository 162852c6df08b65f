//! The accept task: established streams, each with a fresh id, onto the queue
//! of new connections.

use crossbeam_channel::Sender;
use vstd::prelude::*;
use crate::network::connection::{id_after, Connection, ConnectionIds};

verus! {

/// What the caller observed while it waited for the acceptor and the
/// shutdown signal.
pub enum AcceptEvent<C> {
    /// The acceptor produced a stream.
    Accepted(C),
    /// The acceptor failed, or will produce nothing more.
    Failed,
    /// The shutdown signal fired.
    Shutdown,
}

/// What the caller is to do next.
#[derive(Clone, Copy, Debug, PartialEq, Eq, Structural)]
pub enum AcceptAction {
    /// Wait for the next stream.
    Continue,
    /// End.
    Stop,
}

/// What forwarding a connection led to: a queue that nobody reads ends the
/// task.
pub fn forwarded<T>(sent: core::result::Result<(), crossbeam_channel::SendError<T>>) -> (action:
    AcceptAction)
    ensures
        sent is Ok ==> action == AcceptAction::Continue,
        sent is Err ==> action == AcceptAction::Stop,
{
    match sent {
        Ok(()) => AcceptAction::Continue,
        Err(_) => AcceptAction::Stop,
    }
}

/// The task that takes new connections in.
#[verifier::reject_recursive_types(C)]
pub struct AcceptConnectionsTask<C> {
    new_connections: Sender<Connection<C>>,
    stopped: bool,
}

impl<C> AcceptConnectionsTask<C> {
    /// Whether the task has ended.
    pub closed spec fn stopped(&self) -> bool {
        self.stopped
    }

    pub fn new(new_connections: Sender<Connection<C>>) -> (task: Self)
        ensures
            !task.stopped(),
    {
        AcceptConnectionsTask { new_connections, stopped: false }
    }

    pub fn is_stopped(&self) -> (stopped: bool)
        ensures
            stopped == self.stopped(),
    {
        self.stopped
    }

    /// What the task does with what was observed. A stream is given the next
    /// id of `ids` and forwarded; the task goes on unless the queue of new
    /// connections has no reader left. A failure of the acceptor and the
    /// shutdown signal end the task, and a task that has ended stays so and
    /// draws no id.
    pub fn step(&mut self, event: AcceptEvent<C>, ids: &mut ConnectionIds) -> (action: AcceptAction)
        ensures
            final(self).stopped() == (action == AcceptAction::Stop),
            old(self).stopped() || !(event is Accepted) ==> action == AcceptAction::Stop,
            final(ids)@ == if !old(self).stopped() && event is Accepted {
                id_after(old(ids)@, 1)
            } else {
                old(ids)@
            },
    {
        let action = if self.stopped {
            AcceptAction::Stop
        } else {
            match event {
                AcceptEvent::Accepted(stream) => {
                    forwarded(self.new_connections.send(Connection::new(stream, ids)))
                },
                AcceptEvent::Failed => AcceptAction::Stop,
                AcceptEvent::Shutdown => AcceptAction::Stop,
            }
        };
        self.stopped = match action {
            AcceptAction::Stop => true,
            AcceptAction::Continue => false,
        };
        action
    }
}

} // verus!
