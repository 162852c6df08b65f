//! What the simulation sees of the transport: the link to a peer, the two
//! sides, and the steps that keep the world in line with the connections.

use std::marker::PhantomData;
use crossbeam_channel::{Receiver, Sender};
use vstd::prelude::*;
use vstd::std_specs::convert::FromSpec;
use crate::ambit::packet::QueryEntity;
use crate::channel::queue_outcome;
use crate::id::{Entity, NetworkId, NetworkToWorld};
use crate::network::error::{Error, Result, WireError};
use crate::network::mediator::{AnyPacketHandler, PacketSenderMap, PacketWithConnId, RoutedPacket};
use crate::network::packet::{encodable, ClientPacket, EncodedPacket, Packet, ServerPacket};
use crate::network::wire::Wire;

verus! {

/// One side of the transport. `Packet` is the union that this side takes in,
/// `Other` the side across the wire.
pub trait Service {
    type Packet: Packet;

    type Other;
}

/// The side that listens.
#[derive(Clone, Copy, Debug, Default)]
pub struct Server;

/// The side that connects.
#[derive(Clone, Copy, Debug, Default)]
pub struct Client;

impl Service for Server {
    type Packet = ClientPacket;

    type Other = Client;
}

impl Service for Client {
    type Packet = ServerPacket;

    type Other = Server;
}

/// A connection was established and given this id.
#[derive(Clone, Copy, Debug, PartialEq, Eq, Structural)]
pub struct NewConnection {
    pub id: NetworkId,
}

/// `querier` asks about `entity`.
#[derive(Clone, Copy, Debug, PartialEq, Eq, Structural)]
pub struct EntityQuery {
    pub entity: Entity,
    pub querier: Entity,
}

/// The queue on which the consumer of one kind of packet finds what the
/// mediator routed to it.
#[verifier::reject_recursive_types(P)]
pub struct Packets<P> {
    pub receiver: Receiver<P>,
}

impl<P> Packets<P> {
    pub fn new(receiver: Receiver<P>) -> (packets: Self)
        ensures
            packets.receiver == receiver,
    {
        Packets { receiver }
    }

    /// Takes the packets that are pending off the queue, oldest first, at
    /// most `usize::MAX` of them.
    pub fn drain(&self) -> (pending: Vec<P>) {
        let mut pending: Vec<P> = Vec::new();
        let mut budget: usize = usize::MAX;
        while budget > 0
            decreases budget,
        {
            match self.receiver.try_recv() {
                Ok(packet) => pending.push(packet),
                Err(_) => break,
            }
            budget = budget - 1;
        }
        pending
    }
}

/// Gives the consumer of `T` a queue of its own: the sending half becomes the
/// handler of its kind in `map`, the receiving half is returned.
pub fn add_packet<T, P>(map: &mut PacketSenderMap<P>) -> (packets: Packets<T>) where
    P: RoutedPacket,
    P::Sender: From<Sender<T>>,

    requires
        <P::Sender as FromSpec<Sender<T>>>::obeys_from_spec(),
    ensures
        exists|queue: Sender<T>|
            final(map)@ == old(map)@.insert(
                P::spec_tag(
                    (#[trigger] <P::Sender as FromSpec<Sender<T>>>::from_spec(queue)).spec_kind(),
                ),
                <P::Sender as FromSpec<Sender<T>>>::from_spec(queue),
            ),
{
    let (tx, rx) = crossbeam_channel::unbounded::<T>();
    map.add(tx);
    Packets::new(rx)
}

/// The link to a peer of side `S`: the queue that the connection's send task
/// drains.
#[verifier::reject_recursive_types(S)]
pub struct Network<S> {
    sender: async_std::channel::Sender<EncodedPacket>,
    marker: PhantomData<S>,
}

impl<S: Service> Network<S> {
    /// The queue that leads to the peer.
    pub closed spec fn queue(&self) -> async_std::channel::Sender<EncodedPacket> {
        self.sender
    }

    pub fn new(sender: async_std::channel::Sender<EncodedPacket>) -> (network: Self)
        ensures
            network.queue() == sender,
    {
        Network { sender, marker: PhantomData }
    }

    /// Encodes `packet` for the peer and queues it. Fails with `TooLong` for
    /// a packet that cannot be framed, before anything is queued, and with
    /// `ChannelClosed` when the connection's send task is gone.
    pub fn send<T>(&self, packet: T) -> (sent: Result<()>) where S::Packet: From<T>
        requires
            <S::Packet as FromSpec<T>>::obeys_from_spec(),
        ensures
            !encodable::<S::Packet>(<S::Packet as FromSpec<T>>::from_spec(packet)@) ==> sent == Err::<
                (),
                Error,
            >(Error::Wire(WireError::TooLong)),
            encodable::<S::Packet>(<S::Packet as FromSpec<T>>::from_spec(packet)@) ==> sent is Ok
                || sent == Err::<(), Error>(Error::ChannelClosed),
    {
        let encoded_packet = match EncodedPacket::try_encode::<T, S::Packet>(packet) {
            Ok(encoded) => encoded,
            Err(error) => return Err(error),
        };
        self.send_encoded(encoded_packet)
    }

    /// Queues `packet` as it is, and returns the answer of the queue:
    /// `ChannelClosed` when the connection's send task is gone.
    pub fn send_encoded(&self, packet: EncodedPacket) -> (sent: Result<()>)
        ensures
            sent is Ok || sent == Err::<(), Error>(Error::ChannelClosed),
    {
        queue_outcome(self.sender.send_blocking(packet))
    }

    /// Queues a copy of `packet` for each of `targets`, in their order, and
    /// returns the answer of each queue.
    pub fn send_to_each(targets: &[&Self], packet: &EncodedPacket) -> (answers: Vec<Result<()>>)
        ensures
            answers@.len() == targets@.len(),
            forall|i: int|
                0 <= i < answers@.len() ==> (#[trigger] answers@[i]) is Ok || answers@[i] == Err::<
                    (),
                    Error,
                >(Error::ChannelClosed),
    {
        let mut answers: Vec<Result<()>> = Vec::new();
        let mut i: usize = 0;
        while i < targets.len()
            invariant
                i <= targets@.len(),
                answers@.len() == i,
                forall|j: int|
                    0 <= j < answers@.len() ==> (#[trigger] answers@[j]) is Ok || answers@[j]
                        == Err::<(), Error>(Error::ChannelClosed),
            decreases targets@.len() - i,
        {
            let answer = targets[i].send_encoded(packet.clone());
            answers.push(answer);
            i = i + 1;
        }
        answers
    }

    /// Encodes `packet` once and queues a copy for each of `targets`, by
    /// `send_to_each`. Fails, with `TooLong`, exactly for a packet that
    /// cannot be framed; a target whose send task is gone is passed over.
    pub fn send_all<T>(targets: &[&Self], packet: T) -> (sent: Result<()>) where S::Packet: From<T>
        requires
            <S::Packet as FromSpec<T>>::obeys_from_spec(),
        ensures
            sent is Ok <==> encodable::<S::Packet>(<S::Packet as FromSpec<T>>::from_spec(packet)@),
            sent is Err ==> sent == Err::<(), Error>(Error::Wire(WireError::TooLong)),
    {
        let encoded_packet = match EncodedPacket::try_encode::<T, S::Packet>(packet) {
            Ok(encoded) => encoded,
            Err(error) => return Err(error),
        };
        let _ = Self::send_to_each(targets, &encoded_packet);
        Ok(())
    }
}

/// Whether to ask for a connection to the server now. A client without a
/// connection asks once, and asks again only after a connection has come and
/// gone; `requested` remembers that it has asked.
pub fn connect_to_server(connected: bool, requested: &mut bool) -> (request: bool)
    ensures
        request == (!connected && !*old(requested)),
        *final(requested) == !connected,
{
    if !connected {
        if *requested {
            return false;
        }
        *requested = true;
        true
    } else {
        *requested = false;
        false
    }
}

/// The world and the entities to remove after `ids` were handled one by one:
/// an id that names an entity gives that entity up and is forgotten.
pub open spec fn despawned(world: Map<u64, Entity>, ids: Seq<NetworkId>) -> (
    Map<u64, Entity>,
    Seq<Entity>,
)
    decreases ids.len(),
{
    if ids.len() == 0 {
        (world, Seq::empty())
    } else {
        let (before, removed) = despawned(world, ids.drop_last());
        let id = ids.last()@;
        if before.contains_key(id) {
            (before.remove(id), removed.push(before[id]))
        } else {
            (before, removed)
        }
    }
}

/// Forgets the connections in `disconnections` and returns the entities that
/// they controlled, which are to be removed from the world.
pub fn despawn_disconnections<S>(
    disconnections: &[NetworkId],
    network_to_world: &mut NetworkToWorld<S>,
) -> (entities: Vec<Entity>)
    ensures
        (final(network_to_world)@, entities@) == despawned(
            old(network_to_world)@,
            disconnections@,
        ),
{
    let mut entities: Vec<Entity> = Vec::new();
    let mut i: usize = 0;
    while i < disconnections.len()
        invariant
            i <= disconnections@.len(),
            (network_to_world@, entities@) == despawned(
                old(network_to_world)@,
                disconnections@.take(i as int),
            ),
        decreases disconnections@.len() - i,
    {
        proof {
            assert(disconnections@.take(i + 1).drop_last() =~= disconnections@.take(i as int));
        }
        let ghost before = network_to_world@;
        match network_to_world.remove(&disconnections[i]) {
            Some(entity) => {
                entities.push(entity);
            },
            None => {
                assert(network_to_world@ =~= before);
            },
        }
        i = i + 1;
    }
    proof {
        assert(disconnections@.take(i as int) =~= disconnections@);
    }
    entities
}

/// The queries that `packets` raise in `world`: a packet whose connection
/// and whose queried id both name entities asks, for the first, about the
/// second.
pub open spec fn entity_queries(
    world: Map<u64, Entity>,
    packets: Seq<PacketWithConnId<QueryEntity>>,
) -> Seq<EntityQuery>
    decreases packets.len(),
{
    if packets.len() == 0 {
        Seq::empty()
    } else {
        let before = entity_queries(world, packets.drop_last());
        let packet = packets.last();
        if world.contains_key(packet.connection_id@) && world.contains_key(packet.packet.id@) {
            before.push(
                EntityQuery {
                    entity: world[packet.connection_id@],
                    querier: world[packet.packet.id@],
                },
            )
        } else {
            before
        }
    }
}

/// Turns the query packets that arrived into queries between entities.
/// Packets that name an unknown connection or an unknown entity are dropped.
pub fn raise_query_entity_events(
    packets: &[PacketWithConnId<QueryEntity>],
    network_to_world: &NetworkToWorld<Server>,
) -> (events: Vec<EntityQuery>)
    ensures
        events@ == entity_queries(network_to_world@, packets@),
{
    let mut events: Vec<EntityQuery> = Vec::new();
    let mut i: usize = 0;
    while i < packets.len()
        invariant
            i <= packets@.len(),
            events@ == entity_queries(network_to_world@, packets@.take(i as int)),
        decreases packets@.len() - i,
    {
        proof {
            assert(packets@.take(i + 1).drop_last() =~= packets@.take(i as int));
        }
        let packet = &packets[i];
        match network_to_world.get(&packet.connection_id) {
            Some(entity) => {
                match network_to_world.get(&packet.packet.id) {
                    Some(querier) => {
                        events.push(EntityQuery { entity, querier });
                    },
                    None => {},
                }
            },
            None => {},
        }
        i = i + 1;
    }
    proof {
        assert(packets@.take(i as int) =~= packets@);
    }
    events
}

} // verus!
