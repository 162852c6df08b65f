//! The server's register of clients: who is connected, and the queue that
//! leads to each of them.

use std::collections::HashMap;
use crossbeam_channel::Receiver;
use tokio::sync::mpsc::UnboundedSender;
use vstd::prelude::*;
use vstd::std_specs::convert::FromSpec;
use crate::channel::queue_outcome;
use crate::id::NetworkId;
use crate::network::error::{Error, Result, WireError};
use crate::network::mediator::NetworkEvent;
use crate::network::packet::{
    encodable, frame, AcceptConnection, EncodedPacket, ServerPacket, ServerPacketView,
};
use crate::network::wire::Wire;

verus! {

broadcast use vstd::std_specs::hash::group_hash_axioms;

/// `ids` without `id`.
pub open spec fn without(ids: Seq<u64>, id: u64) -> Seq<u64> {
    if ids.contains(id) {
        ids.remove(ids.index_of(id))
    } else {
        ids
    }
}

/// The test that picks the connected clients out of a list of ids.
pub open spec fn connected(clients: Seq<u64>) -> spec_fn(u64) -> bool {
    |id: u64| clients.contains(id)
}

/// The frame that tells a client the id of its connection.
pub open spec fn greeting_frame(connection_id: u64) -> Seq<u8> {
    frame(
        ServerPacket::wire(
            ServerPacketView::AcceptConnection(
                AcceptConnection { connection_id: NetworkId(connection_id) },
            ),
        ),
    )
}

/// The frame that tells a client the id of its connection.
pub fn greeting(connection_id: u64) -> (packet: EncodedPacket)
    ensures
        packet@ == greeting_frame(connection_id),
{
    proof {
        crate::network::wire::lemma_u64_le_round_trip(connection_id);
        crate::network::wire::lemma_u32_le_round_trip(1);
    }
    match EncodedPacket::try_encode::<AcceptConnection, ServerPacket>(
        AcceptConnection { connection_id: NetworkId(connection_id) },
    ) {
        Ok(encoded) => encoded,
        Err(_) => vstd::pervasive::unreached(),
    }
}

/// The clients of a server, in the order in which they connected.
pub struct NetworkServer {
    events: Receiver<NetworkEvent>,
    clients: HashMap<u64, UnboundedSender<EncodedPacket>>,
    order: Vec<u64>,
}

impl View for NetworkServer {
    type V = Seq<u64>;

    /// The ids of the connected clients, oldest connection first.
    closed spec fn view(&self) -> Seq<u64> {
        self.order@
    }
}

impl NetworkServer {
    /// The queue that leads to the client `connection_id`.
    pub closed spec fn queue(&self, connection_id: u64) -> UnboundedSender<EncodedPacket> {
        self.clients@[connection_id]
    }

    /// No client stands twice in the register, and each has its queue.
    pub closed spec fn wf(&self) -> bool {
        &&& self.order@.no_duplicates()
        &&& forall|id: u64| self.order@.contains(id) <==> #[trigger] self.clients@.contains_key(id)
    }

    /// A server without clients that learns of disconnections from `events`.
    pub fn new(events: Receiver<NetworkEvent>) -> (server: Self)
        ensures
            server.wf(),
            server@ == Seq::<u64>::empty(),
            server.spec_events() == events,
    {
        NetworkServer { events, clients: HashMap::new(), order: Vec::new() }
    }

    /// The queue of lifecycle events.
    pub closed spec fn spec_events(&self) -> Receiver<NetworkEvent> {
        self.events
    }

    /// The queue of lifecycle events.
    pub fn events(&self) -> (events: &Receiver<NetworkEvent>)
        ensures
            *events == self.spec_events(),
    {
        &self.events
    }

    /// Encodes `packet` and queues it for the client `connection_id`. Fails
    /// with `UnknownClient` when no such client is connected, else with
    /// `TooLong` for a packet that cannot be framed, else with
    /// `ChannelClosed` when the client's send task is gone.
    pub fn send<T>(&self, packet: T, connection_id: u64) -> (sent: Result<()>) where
        ServerPacket: From<T>,

        requires
            self.wf(),
            <ServerPacket as FromSpec<T>>::obeys_from_spec(),
        ensures
            !self@.contains(connection_id) ==> sent == Err::<(), Error>(
                Error::UnknownClient(connection_id),
            ),
            self@.contains(connection_id) && !encodable::<ServerPacket>(
                <ServerPacket as FromSpec<T>>::from_spec(packet)@,
            ) ==> sent == Err::<(), Error>(Error::Wire(WireError::TooLong)),
            self@.contains(connection_id) && encodable::<ServerPacket>(
                <ServerPacket as FromSpec<T>>::from_spec(packet)@,
            ) ==> sent is Ok || sent == Err::<(), Error>(Error::ChannelClosed),
    {
        let sender = match self.clients.get(&connection_id) {
            Some(sender) => sender,
            None => return Err(Error::UnknownClient(connection_id)),
        };
        let encoded_packet = match EncodedPacket::try_encode::<T, ServerPacket>(packet) {
            Ok(encoded) => encoded,
            Err(error) => return Err(error),
        };
        queue_outcome(sender.send(encoded_packet))
    }

    /// The ids among `connection_ids` that name a connected client, in their
    /// order: those that a broadcast goes to.
    pub fn recipients(&self, connection_ids: &[u64]) -> (ids: Vec<u64>)
        requires
            self.wf(),
        ensures
            ids@ == connection_ids@.filter(connected(self@)),
    {
        let mut ids: Vec<u64> = Vec::new();
        let mut i: usize = 0;
        proof {
            reveal(Seq::filter);
            assert(connection_ids@.take(0) =~= Seq::<u64>::empty());
        }
        while i < connection_ids.len()
            invariant
                self.wf(),
                i <= connection_ids@.len(),
                ids@ == connection_ids@.take(i as int).filter(connected(self@)),
            decreases connection_ids@.len() - i,
        {
            proof {
                reveal(Seq::filter);
                assert(connection_ids@.take(i + 1).drop_last() =~= connection_ids@.take(i as int));
            }
            let id = connection_ids[i];
            if self.clients.contains_key(&id) {
                ids.push(id);
            }
            i = i + 1;
        }
        proof {
            assert(connection_ids@.take(i as int) =~= connection_ids@);
        }
        ids
    }

    /// Queues a copy of `packet` for each of `recipients`, in their order,
    /// and returns the answer of each queue: `ChannelClosed` for a client
    /// whose send task is gone.
    pub fn send_to_each(&self, recipients: &[u64], packet: &EncodedPacket) -> (answers: Vec<
        Result<()>,
    >)
        requires
            self.wf(),
            forall|i: int| 0 <= i < recipients@.len() ==> self@.contains(#[trigger] recipients@[i]),
        ensures
            answers@.len() == recipients@.len(),
            forall|i: int|
                0 <= i < answers@.len() ==> (#[trigger] answers@[i]) is Ok || answers@[i] == Err::<
                    (),
                    Error,
                >(Error::ChannelClosed),
    {
        let mut answers: Vec<Result<()>> = Vec::new();
        let mut i: usize = 0;
        while i < recipients.len()
            invariant
                self.wf(),
                i <= recipients@.len(),
                forall|i: int|
                    0 <= i < recipients@.len() ==> self@.contains(#[trigger] recipients@[i]),
                answers@.len() == i,
                forall|j: int|
                    0 <= j < answers@.len() ==> (#[trigger] answers@[j]) is Ok || answers@[j]
                        == Err::<(), Error>(Error::ChannelClosed),
            decreases recipients@.len() - i,
        {
            assert(self@.contains(recipients@[i as int]));
            let answer = match self.clients.get(&recipients[i]) {
                Some(sender) => queue_outcome(sender.send(packet.clone())),
                None => vstd::pervasive::unreached(),
            };
            answers.push(answer);
            i = i + 1;
        }
        answers
    }

    /// Encodes `packet` once and queues a copy for each client among
    /// `connection_ids`, in their order: for the `recipients`, by
    /// `send_to_each`. Fails, with `TooLong`, exactly for a packet that
    /// cannot be framed; unknown ids and clients whose send task is gone are
    /// passed over.
    pub fn broadcast<T>(&self, packet: T, connection_ids: &[u64]) -> (sent: Result<()>) where
        ServerPacket: From<T>,

        requires
            self.wf(),
            <ServerPacket as FromSpec<T>>::obeys_from_spec(),
        ensures
            sent is Ok <==> encodable::<ServerPacket>(
                <ServerPacket as FromSpec<T>>::from_spec(packet)@,
            ),
            sent is Err ==> sent == Err::<(), Error>(Error::Wire(WireError::TooLong)),
    {
        let encoded_packet = match EncodedPacket::try_encode::<T, ServerPacket>(packet) {
            Ok(encoded) => encoded,
            Err(error) => return Err(error),
        };
        let recipients = self.recipients(connection_ids);
        proof {
            assert forall|i: int| 0 <= i < recipients@.len() implies self@.contains(
                #[trigger] recipients@[i],
            ) by {
                connection_ids@.lemma_filter_pred(connected(self@), i);
            }
        }
        let _ = self.send_to_each(recipients.as_slice(), &encoded_packet);
        Ok(())
    }

    /// The ids of the connected clients, oldest connection first.
    pub fn clients(&self) -> (ids: Vec<u64>)
        ensures
            ids@ == self@,
    {
        self.order.clone()
    }

    /// Whether the client `connection_id` is connected.
    pub fn is_connected(&self, connection_id: u64) -> (connected: bool)
        requires
            self.wf(),
        ensures
            connected == self@.contains(connection_id),
    {
        self.clients.contains_key(&connection_id)
    }

    /// Takes a new connection in: tells the client its id with the
    /// `greeting`, and registers it as `register` says. A connection whose
    /// send task is already gone is not registered.
    pub fn welcome(&mut self, connection_id: u64, conn: UnboundedSender<EncodedPacket>) -> (welcomed:
        Result<()>)
        requires
            old(self).wf(),
        ensures
            final(self).wf(),
            welcomed is Ok ==> {
                &&& final(self)@ == without(old(self)@, connection_id).push(connection_id)
                &&& final(self).queue(connection_id) == conn
            },
            welcomed is Err ==> welcomed == Err::<(), Error>(Error::ChannelClosed) && final(self)@
                == old(self)@,
            forall|other: u64|
                other != connection_id && old(self)@.contains(other)
                    ==> (#[trigger] final(self).queue(other)) == old(self).queue(other),
    {
        let greeted = queue_outcome(conn.send(greeting(connection_id)));
        self.register(connection_id, conn, greeted)
    }

    /// Registers a connection whose greeting was taken: `conn` becomes the
    /// queue of `connection_id`, which goes behind the other clients. After a
    /// greeting that failed nothing changes, and the failure is the answer.
    pub fn register(
        &mut self,
        connection_id: u64,
        conn: UnboundedSender<EncodedPacket>,
        greeted: Result<()>,
    ) -> (registered: Result<()>)
        requires
            old(self).wf(),
        ensures
            final(self).wf(),
            registered == greeted,
            greeted is Ok ==> {
                &&& final(self)@ == without(old(self)@, connection_id).push(connection_id)
                &&& final(self).queue(connection_id) == conn
            },
            greeted is Err ==> final(self)@ == old(self)@,
            forall|other: u64|
                other != connection_id && old(self)@.contains(other)
                    ==> (#[trigger] final(self).queue(other)) == old(self).queue(other),
    {
        if greeted.is_err() {
            return greeted;
        }
        self.forget(connection_id);
        let ghost forgotten = *self;
        self.clients.insert(connection_id, conn);
        self.order.push(connection_id);
        proof {
            assert forall|other: u64|
                other != connection_id && old(self)@.contains(other) implies self.queue(other)
                == old(self).queue(other) by {
                assert(forgotten.queue(other) == old(self).queue(other));
            }
            let before = without(old(self)@, connection_id);
            assert forall|id: u64| self.order@.contains(id) <==> #[trigger] self.clients@.contains_key(
                id,
            ) by {
                if id != connection_id {
                    if before.contains(id) {
                        let at = choose|at: int| 0 <= at < before.len() && before[at] == id;
                        assert(self.order@[at] == id);
                    }
                    if self.order@.contains(id) {
                        let at = choose|at: int| 0 <= at < self.order@.len() && self.order@[at] == id;
                        assert(before[at] == id);
                    }
                } else {
                    assert(self.order@[before.len() as int] == id);
                }
            }
        }
        greeted
    }

    /// Takes the client `connection_id` out of the register.
    pub fn forget(&mut self, connection_id: u64)
        requires
            old(self).wf(),
        ensures
            final(self).wf(),
            final(self)@ == without(old(self)@, connection_id),
            !final(self)@.contains(connection_id),
            forall|other: u64|
                other != connection_id && old(self)@.contains(other)
                    ==> (#[trigger] final(self).queue(other)) == old(self).queue(other),
    {
        let mut i: usize = 0;
        while i < self.order.len()
            invariant
                old(self).wf(),
                i <= self.order@.len(),
                self.order@ == old(self).order@,
                self.clients@ == old(self).clients@,
                forall|j: int| 0 <= j < i ==> self.order@[j] != connection_id,
            decreases self.order@.len() - i,
        {
            if self.order[i] == connection_id {
                proof {
                    assert(old(self).order@.contains(connection_id));
                    let found = old(self).order@.index_of(connection_id);
                    assert(old(self).order@[found] == connection_id);
                    assert(found == i);
                }
                self.order.remove(i);
                self.clients.remove(&connection_id);
                proof {
                    let before = old(self).order@;
                    let after = self.order@;
                    assert forall|a: int, b: int|
                        0 <= a < after.len() && 0 <= b < after.len() && a != b implies after[a]
                        != after[b] by {
                        let from_a = if a < i { a } else { a + 1 };
                        let from_b = if b < i { b } else { b + 1 };
                        assert(after[a] == before[from_a]);
                        assert(after[b] == before[from_b]);
                    }
                    assert forall|id: u64| after.contains(id) <==> #[trigger] self.clients@.contains_key(
                        id,
                    ) by {
                        if after.contains(id) {
                            let at = choose|at: int| 0 <= at < after.len() && after[at] == id;
                            let from = if at < i { at } else { at + 1 };
                            assert(before[from] == id);
                            assert(id != connection_id);
                        }
                        if self.clients@.contains_key(id) {
                            assert(before.contains(id));
                            let at = choose|at: int| 0 <= at < before.len() && before[at] == id;
                            let to = if at < i { at } else { at - 1 };
                            assert(after[to] == id);
                        }
                    }
                }
                return ;
            }
            i = i + 1;
        }
        proof {
            if self.order@.contains(connection_id) {
                let at = choose|at: int| 0 <= at < self.order@.len() && self.order@[at]
                    == connection_id;
                assert(false);
            }
        }
    }

    /// What a lifecycle event does to the register: a client that
    /// disconnected is taken out.
    pub fn handle_event(&mut self, event: NetworkEvent)
        requires
            old(self).wf(),
        ensures
            final(self).wf(),
            final(self)@ == match event {
                NetworkEvent::Disconnected { connection_id } => without(old(self)@, connection_id@),
            },
            forall|other: u64|
                other != event->connection_id@ && old(self)@.contains(other)
                    ==> (#[trigger] final(self).queue(other)) == old(self).queue(other),
    {
        match event {
            NetworkEvent::Disconnected { connection_id } => {
                self.forget(connection_id.0);
            },
        }
    }

    /// Handles the lifecycle events that are pending, at most `usize::MAX` of
    /// them, each as `handle_event` says. Whatever they are, no client is
    /// added.
    pub fn handle_disconnections(&mut self)
        requires
            old(self).wf(),
        ensures
            final(self).wf(),
            forall|id: u64| final(self)@.contains(id) ==> old(self)@.contains(id),
    {
        let mut budget: usize = usize::MAX;
        while budget > 0
            invariant
                self.wf(),
                forall|id: u64| self@.contains(id) ==> old(self)@.contains(id),
            decreases budget,
        {
            let event = match self.events.try_recv() {
                Ok(event) => event,
                Err(_) => break,
            };
            let ghost before = self@;
            self.handle_event(event);
            proof {
                assert forall|id: u64| self@.contains(id) implies before.contains(id) by {
                    let at = choose|at: int| 0 <= at < self@.len() && self@[at] == id;
                    if self@ != before {
                        let gone = before.index_of(event->connection_id@);
                        let from = if at < gone { at } else { at + 1 };
                        assert(before[from] == id);
                    }
                }
            }
            budget = budget - 1;
        }
    }
}

} // verus!
