//! What follows from the disconnect signal that the two tasks of a connection
//! share: the watch that turns it into the connection's one lifecycle event,
//! and the end of both tasks.

use vstd::prelude::*;
use crate::id::NetworkId;
use crate::network::mediator::NetworkEvent;
use crate::network::task::recv::{receive_expects, ReceiveEvent, ReceiveState};
use crate::network::task::send::{send_step, SendActionView, SendEventView, SendState};

verus! {

/// The watch of one connection: it reports the connection as disconnected
/// when it first sees the signal, and never again.
pub struct DisconnectWatch {
    connection_id: NetworkId,
    reported: bool,
}

/// What a watch reports when it sees the signal.
pub open spec fn watch_step(connection_id: NetworkId, reported: bool) -> Option<NetworkEvent> {
    if reported {
        None
    } else {
        Some(NetworkEvent::Disconnected { connection_id })
    }
}

impl DisconnectWatch {
    pub closed spec fn spec_connection_id(&self) -> NetworkId {
        self.connection_id
    }

    pub closed spec fn reported(&self) -> bool {
        self.reported
    }

    pub fn new(connection_id: NetworkId) -> (watch: Self)
        ensures
            watch.spec_connection_id() == connection_id,
            !watch.reported(),
    {
        DisconnectWatch { connection_id, reported: false }
    }

    /// The event to emit now that the signal was seen: the connection's
    /// `Disconnected`, the first time, and nothing after that.
    pub fn on_signal(&mut self) -> (event: Option<NetworkEvent>)
        ensures
            event == watch_step(old(self).spec_connection_id(), old(self).reported()),
            final(self).reported(),
            final(self).spec_connection_id() == old(self).spec_connection_id(),
    {
        if self.reported {
            None
        } else {
            self.reported = true;
            Some(NetworkEvent::Disconnected { connection_id: self.connection_id })
        }
    }
}

/// The events that a watch has emitted after it saw the signal `sightings`
/// times.
pub open spec fn watch_reports(connection_id: NetworkId, reported: bool, sightings: nat) -> Seq<
    NetworkEvent,
>
    decreases sightings,
{
    if sightings == 0 {
        Seq::empty()
    } else {
        match watch_step(connection_id, reported) {
            Some(event) => seq![event] + watch_reports(connection_id, true, (sightings - 1) as nat),
            None => watch_reports(connection_id, true, (sightings - 1) as nat),
        }
    }
}

/// A watch that has reported reports nothing more, however often it sees the
/// signal.
pub proof fn lemma_watch_silent_after_report(connection_id: NetworkId, sightings: nat)
    ensures
        watch_reports(connection_id, true, sightings) == Seq::<NetworkEvent>::empty(),
    decreases sightings,
{
    if sightings > 0 {
        lemma_watch_silent_after_report(connection_id, (sightings - 1) as nat);
    }
}

/// However often the signal is seen, a fresh watch emits exactly one event,
/// and that event names its connection.
pub proof fn lemma_exactly_one_disconnected(connection_id: NetworkId, sightings: nat)
    requires
        sightings > 0,
    ensures
        watch_reports(connection_id, false, sightings) == seq![
            NetworkEvent::Disconnected { connection_id },
        ],
{
    lemma_watch_silent_after_report(connection_id, (sightings - 1) as nat);
    assert(watch_reports(connection_id, false, sightings) =~= seq![
        NetworkEvent::Disconnected { connection_id },
    ]);
}

/// A connection whose stream fails comes down as a whole. The receive task
/// ends on the failed read, whatever it was waiting for; the send task ends
/// on the signal that the receive task then publishes, whatever it was doing;
/// the same holds with the roles exchanged, for a failed write; and the watch
/// emits the connection's `Disconnected` once.
pub proof fn lemma_disconnect_propagates(
    receive: ReceiveState,
    send: SendState,
    connection_id: NetworkId,
    now: u64,
    heartbeat: Seq<u8>,
)
    ensures
        !receive_expects(receive, ReceiveEvent::ReadFailed),
        !receive_expects(receive, ReceiveEvent::Disconnect),
        !receive_expects(receive, ReceiveEvent::Shutdown),
        send_step(send, SendEventView::Disconnect, now, heartbeat) == (
            SendState::Stopped,
            SendActionView::Stop,
        ),
        send_step(send, SendEventView::WriteFailed, now, heartbeat) == (
            SendState::Stopped,
            SendActionView::Stop,
        ),
        send_step(send, SendEventView::Shutdown, now, heartbeat) == (
            SendState::Stopped,
            SendActionView::Stop,
        ),
        watch_step(connection_id, false) == Some(NetworkEvent::Disconnected { connection_id }),
        watch_step(connection_id, true) == None::<NetworkEvent>,
{
}

} // verus!
