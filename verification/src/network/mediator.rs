//! Routing of decoded packets to the queues of their consumers.
//!
//! Each kind of a packet union has one handler: a queue that the consumer of
//! that kind reads, or a sink for a kind that nobody consumes. The mediator
//! looks the handler up by the packet's kind and hands over what
//! `delivery` says: the payload, and with it the id of the connection where
//! the consumer asked for it.

use std::collections::HashMap;
use std::marker::PhantomData;
use std::sync::Arc;
use crossbeam_channel::Sender;
use vstd::prelude::*;
use vstd::std_specs::convert::FromSpec;
use crate::ambit::packet::{DespawnEntity, QueryEntity, SpawnEntity};
use crate::channel::queue_outcome;
use crate::chat::packet::{MessageReceived, SendMessage};
use crate::id::NetworkId;
use crate::network::error::{Error, Result};
use crate::network::packet::{
    share, AcceptConnection, AnyPacketWithConnId, ClientPacket, ClientPacketKind, Heartbeat, Packet,
    ServerPacket, ServerPacketKind,
};
use crate::path::packet::{PathTarget, PathTargetRequest};

verus! {

broadcast use vstd::std_specs::hash::group_hash_axioms;

/// A payload together with the connection that it arrived on.
#[derive(Clone, Copy, Debug)]
pub struct PacketWithConnId<T> {
    pub packet: T,
    pub connection_id: NetworkId,
}

/// The one lifecycle signal that the transport raises.
#[derive(Clone, Copy, Debug, PartialEq, Eq, Structural)]
pub enum NetworkEvent {
    Disconnected { connection_id: NetworkId },
}

/// A handler of one kind of the union `P`.
pub trait AnyPacketHandler<P: Packet> {
    /// What the handlers of this union are handed for a packet.
    type Delivery;

    /// The kind that the handler takes.
    spec fn spec_kind(&self) -> P::Kind;

    /// Whether the handler drops what it is given.
    spec fn discards(&self) -> bool;

    /// The kind whose handler a delivery is meant for.
    spec fn queue(delivery: Self::Delivery) -> P::Kind;

    /// Whether a delivery holds the payload of the packet, and the id of its
    /// connection where the consumer is handed one.
    spec fn carries(delivery: Self::Delivery, any_packet: AnyPacketWithConnId<P>) -> bool;

    fn kind(&self) -> (kind: P::Kind)
        ensures
            kind == self.spec_kind(),
    ;

    /// What goes to the consumer of the packet's kind.
    fn delivery(any_packet: AnyPacketWithConnId<P>) -> (delivery: Self::Delivery)
        ensures
            Self::queue(delivery) == P::spec_kind(any_packet.packet@),
            Self::carries(delivery, any_packet),
    ;

    /// Puts a delivery on the handler's queue. A handler that discards never
    /// fails; a queue fails, with `ChannelClosed`, when nobody reads it any
    /// more.
    fn hand_over(&self, delivery: Self::Delivery) -> (handled: Result<()>)
        requires
            Self::queue(delivery) == self.spec_kind(),
        ensures
            handled matches Err(error) ==> error == Error::ChannelClosed,
            self.discards() ==> handled is Ok,
    ;

    /// Hands the packet to the consumer of its kind: makes the delivery and
    /// hands it over.
    fn handle(&self, any_packet: AnyPacketWithConnId<P>) -> (handled: Result<()>)
        requires
            P::spec_kind(any_packet.packet@) == self.spec_kind(),
        ensures
            handled matches Err(error) ==> error == Error::ChannelClosed,
            self.discards() ==> handled is Ok,
    ;
}

/// A union whose packets the mediator routes, with the handlers that take
/// them.
pub trait RoutedPacket: Packet {
    type Sender: AnyPacketHandler<Self>;
}

impl RoutedPacket for ClientPacket {
    type Sender = ClientPacketSender;
}

impl RoutedPacket for ServerPacket {
    type Sender = ServerPacketSender;
}

/// The handler of a kind that nobody consumes: it takes a packet and drops
/// it.
pub struct NullSink<P, T>(pub PhantomData<(P, T)>);

impl<P, T> Default for NullSink<P, T> {
    fn default() -> Self {
        NullSink(PhantomData)
    }
}

/// What the mediator puts on a queue for a packet that a client sent.
pub enum ClientDelivery {
    SendMessage(PacketWithConnId<SendMessage>),
    PathTargetRequest(PacketWithConnId<PathTargetRequest>),
    QueryEntity(PacketWithConnId<QueryEntity>),
    Nothing,
}

impl ClientDelivery {
    /// The kind whose queue the delivery goes to.
    pub open spec fn queue(self) -> ClientPacketKind {
        match self {
            ClientDelivery::SendMessage(_) => ClientPacketKind::SendMessage,
            ClientDelivery::PathTargetRequest(_) => ClientPacketKind::PathTargetRequest,
            ClientDelivery::QueryEntity(_) => ClientPacketKind::QueryEntity,
            ClientDelivery::Nothing => ClientPacketKind::Heartbeat,
        }
    }

    /// The packet and connection that the delivery carries.
    pub open spec fn carries(self, any_packet: AnyPacketWithConnId<ClientPacket>) -> bool {
        match self {
            ClientDelivery::SendMessage(message) => {
                &&& any_packet.packet == ClientPacket::SendMessage(message.packet)
                &&& any_packet.connection_id == message.connection_id
            },
            ClientDelivery::PathTargetRequest(message) => {
                &&& any_packet.packet == ClientPacket::PathTargetRequest(message.packet)
                &&& any_packet.connection_id == message.connection_id
            },
            ClientDelivery::QueryEntity(message) => {
                &&& any_packet.packet == ClientPacket::QueryEntity(message.packet)
                &&& any_packet.connection_id == message.connection_id
            },
            ClientDelivery::Nothing => any_packet.packet is Heartbeat,
        }
    }
}

/// What the mediator puts on a queue for a packet that the server sent.
pub enum ServerDelivery {
    MessageReceived(MessageReceived),
    AcceptConnection(AcceptConnection),
    PathTarget(PathTarget),
    SpawnEntity(SpawnEntity),
    DespawnEntity(DespawnEntity),
    Nothing,
}

impl ServerDelivery {
    /// The kind whose queue the delivery goes to.
    pub open spec fn queue(self) -> ServerPacketKind {
        match self {
            ServerDelivery::MessageReceived(_) => ServerPacketKind::MessageReceived,
            ServerDelivery::AcceptConnection(_) => ServerPacketKind::AcceptConnection,
            ServerDelivery::PathTarget(_) => ServerPacketKind::PathTarget,
            ServerDelivery::SpawnEntity(_) => ServerPacketKind::SpawnEntity,
            ServerDelivery::DespawnEntity(_) => ServerPacketKind::DespawnEntity,
            ServerDelivery::Nothing => ServerPacketKind::Heartbeat,
        }
    }

    /// The packet that the delivery carries.
    pub open spec fn carries(self, any_packet: AnyPacketWithConnId<ServerPacket>) -> bool {
        match self {
            ServerDelivery::MessageReceived(message) => any_packet.packet
                == ServerPacket::MessageReceived(message),
            ServerDelivery::AcceptConnection(message) => any_packet.packet
                == ServerPacket::AcceptConnection(message),
            ServerDelivery::PathTarget(message) => any_packet.packet == ServerPacket::PathTarget(
                message,
            ),
            ServerDelivery::SpawnEntity(message) => any_packet.packet == ServerPacket::SpawnEntity(
                message,
            ),
            ServerDelivery::DespawnEntity(message) => any_packet.packet
                == ServerPacket::DespawnEntity(message),
            ServerDelivery::Nothing => any_packet.packet is Heartbeat,
        }
    }
}

impl AnyPacketWithConnId<ClientPacket> {
    /// What goes to the consumer: the payload with the id of the connection
    /// that it arrived on, for the queue of the packet's kind. A heartbeat
    /// delivers nothing.
    pub fn delivery(self) -> (delivery: ClientDelivery)
        ensures
            delivery.queue() == self.packet@.kind(),
            delivery.carries(self),
    {
        let connection_id = self.connection_id;
        match self.packet {
            ClientPacket::SendMessage(packet) => ClientDelivery::SendMessage(
                PacketWithConnId { packet, connection_id },
            ),
            ClientPacket::PathTargetRequest(packet) => ClientDelivery::PathTargetRequest(
                PacketWithConnId { packet, connection_id },
            ),
            ClientPacket::QueryEntity(packet) => ClientDelivery::QueryEntity(
                PacketWithConnId { packet, connection_id },
            ),
            ClientPacket::Heartbeat(_) => ClientDelivery::Nothing,
        }
    }
}

impl AnyPacketWithConnId<ServerPacket> {
    /// What goes to the consumer: the payload, for the queue of the packet's
    /// kind. A heartbeat delivers nothing.
    pub fn delivery(self) -> (delivery: ServerDelivery)
        ensures
            delivery.queue() == self.packet@.kind(),
            delivery.carries(self),
    {
        match self.packet {
            ServerPacket::MessageReceived(packet) => ServerDelivery::MessageReceived(packet),
            ServerPacket::AcceptConnection(packet) => ServerDelivery::AcceptConnection(packet),
            ServerPacket::PathTarget(packet) => ServerDelivery::PathTarget(packet),
            ServerPacket::SpawnEntity(packet) => ServerDelivery::SpawnEntity(packet),
            ServerPacket::DespawnEntity(packet) => ServerDelivery::DespawnEntity(packet),
            ServerPacket::Heartbeat(_) => ServerDelivery::Nothing,
        }
    }
}

/// The handlers of the packets that clients send: each consumer is handed
/// the payload together with the connection that it came from.
pub enum ClientPacketSender {
    SendMessage(Sender<PacketWithConnId<SendMessage>>),
    PathTargetRequest(Sender<PacketWithConnId<PathTargetRequest>>),
    QueryEntity(Sender<PacketWithConnId<QueryEntity>>),
    Heartbeat(NullSink<ClientPacket, Heartbeat>),
}

impl AnyPacketHandler<ClientPacket> for ClientPacketSender {
    open spec fn spec_kind(&self) -> ClientPacketKind {
        match self {
            ClientPacketSender::SendMessage(_) => ClientPacketKind::SendMessage,
            ClientPacketSender::PathTargetRequest(_) => ClientPacketKind::PathTargetRequest,
            ClientPacketSender::QueryEntity(_) => ClientPacketKind::QueryEntity,
            ClientPacketSender::Heartbeat(_) => ClientPacketKind::Heartbeat,
        }
    }

    open spec fn discards(&self) -> bool {
        self is Heartbeat
    }

    fn kind(&self) -> (kind: ClientPacketKind) {
        match self {
            ClientPacketSender::SendMessage(_) => ClientPacketKind::SendMessage,
            ClientPacketSender::PathTargetRequest(_) => ClientPacketKind::PathTargetRequest,
            ClientPacketSender::QueryEntity(_) => ClientPacketKind::QueryEntity,
            ClientPacketSender::Heartbeat(_) => ClientPacketKind::Heartbeat,
        }
    }

    type Delivery = ClientDelivery;

    open spec fn queue(delivery: ClientDelivery) -> ClientPacketKind {
        delivery.queue()
    }

    open spec fn carries(delivery: ClientDelivery, any_packet: AnyPacketWithConnId<ClientPacket>) -> bool {
        delivery.carries(any_packet)
    }

    fn delivery(any_packet: AnyPacketWithConnId<ClientPacket>) -> (delivery: ClientDelivery) {
        any_packet.delivery()
    }

    fn handle(&self, any_packet: AnyPacketWithConnId<ClientPacket>) -> (handled: Result<()>) {
        self.hand_over(any_packet.delivery())
    }

    fn hand_over(&self, delivery: ClientDelivery) -> (handled: Result<()>) {
        match (self, delivery) {
            (ClientPacketSender::SendMessage(queue), ClientDelivery::SendMessage(message)) => {
                queue_outcome(queue.send(message))
            },
            (
                ClientPacketSender::PathTargetRequest(queue),
                ClientDelivery::PathTargetRequest(message),
            ) => queue_outcome(queue.send(message)),
            (ClientPacketSender::QueryEntity(queue), ClientDelivery::QueryEntity(message)) => {
                queue_outcome(queue.send(message))
            },
            (_, _) => Ok(()),
        }
    }
}

/// The handlers of the packets that the server sends.
pub enum ServerPacketSender {
    MessageReceived(Sender<MessageReceived>),
    AcceptConnection(Sender<AcceptConnection>),
    PathTarget(Sender<PathTarget>),
    SpawnEntity(Sender<SpawnEntity>),
    DespawnEntity(Sender<DespawnEntity>),
    Heartbeat(NullSink<ServerPacket, Heartbeat>),
}

impl AnyPacketHandler<ServerPacket> for ServerPacketSender {
    open spec fn spec_kind(&self) -> ServerPacketKind {
        match self {
            ServerPacketSender::MessageReceived(_) => ServerPacketKind::MessageReceived,
            ServerPacketSender::AcceptConnection(_) => ServerPacketKind::AcceptConnection,
            ServerPacketSender::PathTarget(_) => ServerPacketKind::PathTarget,
            ServerPacketSender::SpawnEntity(_) => ServerPacketKind::SpawnEntity,
            ServerPacketSender::DespawnEntity(_) => ServerPacketKind::DespawnEntity,
            ServerPacketSender::Heartbeat(_) => ServerPacketKind::Heartbeat,
        }
    }

    open spec fn discards(&self) -> bool {
        self is Heartbeat
    }

    fn kind(&self) -> (kind: ServerPacketKind) {
        match self {
            ServerPacketSender::MessageReceived(_) => ServerPacketKind::MessageReceived,
            ServerPacketSender::AcceptConnection(_) => ServerPacketKind::AcceptConnection,
            ServerPacketSender::PathTarget(_) => ServerPacketKind::PathTarget,
            ServerPacketSender::SpawnEntity(_) => ServerPacketKind::SpawnEntity,
            ServerPacketSender::DespawnEntity(_) => ServerPacketKind::DespawnEntity,
            ServerPacketSender::Heartbeat(_) => ServerPacketKind::Heartbeat,
        }
    }

    type Delivery = ServerDelivery;

    open spec fn queue(delivery: ServerDelivery) -> ServerPacketKind {
        delivery.queue()
    }

    open spec fn carries(delivery: ServerDelivery, any_packet: AnyPacketWithConnId<ServerPacket>) -> bool {
        delivery.carries(any_packet)
    }

    fn delivery(any_packet: AnyPacketWithConnId<ServerPacket>) -> (delivery: ServerDelivery) {
        any_packet.delivery()
    }

    fn handle(&self, any_packet: AnyPacketWithConnId<ServerPacket>) -> (handled: Result<()>) {
        self.hand_over(any_packet.delivery())
    }

    fn hand_over(&self, delivery: ServerDelivery) -> (handled: Result<()>) {
        match (self, delivery) {
            (ServerPacketSender::MessageReceived(queue), ServerDelivery::MessageReceived(message)) => {
                queue_outcome(queue.send(message))
            },
            (
                ServerPacketSender::AcceptConnection(queue),
                ServerDelivery::AcceptConnection(message),
            ) => queue_outcome(queue.send(message)),
            (ServerPacketSender::PathTarget(queue), ServerDelivery::PathTarget(message)) => {
                queue_outcome(queue.send(message))
            },
            (ServerPacketSender::SpawnEntity(queue), ServerDelivery::SpawnEntity(message)) => {
                queue_outcome(queue.send(message))
            },
            (ServerPacketSender::DespawnEntity(queue), ServerDelivery::DespawnEntity(message)) => {
                queue_outcome(queue.send(message))
            },
            (_, _) => Ok(()),
        }
    }
}

/// The routing table of one union: for each registered kind, under the
/// kind's tag, the handler of that kind.
pub struct PacketSenderMap<P: RoutedPacket> {
    senders: HashMap<u32, P::Sender>,
}

impl<P: RoutedPacket> View for PacketSenderMap<P> {
    type V = Map<u32, P::Sender>;

    /// The handlers by the tags of their kinds.
    closed spec fn view(&self) -> Map<u32, P::Sender> {
        self.senders@
    }
}

impl<P: RoutedPacket> PacketSenderMap<P> {
    /// Every handler stands under the tag of the kind that it takes. This
    /// holds of every table.
    pub closed spec fn valid(&self) -> bool {
        forall|tag: u32| #[trigger]
            self.senders@.contains_key(tag) ==> P::spec_tag(self.senders@[tag].spec_kind()) == tag
    }

    #[verifier::type_invariant]
    spec fn wf(self) -> bool {
        self.valid()
    }

    /// Whether packets of `kind` have a handler.
    pub open spec fn registered(&self, kind: P::Kind) -> bool {
        self@.contains_key(P::spec_tag(kind))
    }

    /// Whether packets of every kind have a handler.
    pub open spec fn complete(&self) -> bool {
        forall|kind: P::Kind| self.registered(kind)
    }

    /// The handler of `kind`.
    pub open spec fn handler(&self, kind: P::Kind) -> P::Sender
        recommends
            self.registered(kind),
    {
        self@[P::spec_tag(kind)]
    }

    /// A table without handlers.
    pub fn new() -> (map: Self)
        ensures
            map@ == Map::<u32, P::Sender>::empty(),
    {
        PacketSenderMap { senders: HashMap::new() }
    }

    /// Registers `sender` as the handler of its kind, in place of the one
    /// that the kind had.
    pub fn add<S>(&mut self, sender: S) where P::Sender: From<S>
        requires
            <P::Sender as FromSpec<S>>::obeys_from_spec(),
        ensures
            final(self)@ == old(self)@.insert(
                P::spec_tag(<P::Sender as FromSpec<S>>::from_spec(sender).spec_kind()),
                <P::Sender as FromSpec<S>>::from_spec(sender),
            ),
    {
        proof {
            use_type_invariant(&*self);
        }
        let handler = <P::Sender as From<S>>::from(sender);
        let tag = P::tag(handler.kind());
        let ghost added = handler;
        let mut senders: HashMap<u32, P::Sender> = HashMap::new();
        core::mem::swap(&mut self.senders, &mut senders);
        senders.insert(tag, handler);
        assert forall|other: u32| #[trigger] senders@.contains_key(other) implies P::spec_tag(
            senders@[other].spec_kind(),
        ) == other by {
            if other != tag {
                assert(old(self).senders@.contains_key(other));
            } else {
                assert(senders@[other] == added);
            }
        }
        core::mem::swap(&mut self.senders, &mut senders);
    }

    /// The handler of `kind`, if it has one. The handler that is found takes
    /// that kind and no other.
    pub fn get(&self, kind: P::Kind) -> (handler: Option<&P::Sender>)
        ensures
            self.valid(),
            handler is Some <==> self.registered(kind),
            handler matches Some(found) ==> *found == self.handler(kind) && found.spec_kind()
                == kind,
    {
        proof {
            use_type_invariant(self);
        }
        let tag = P::tag(kind);
        let handler = self.senders.get(&tag);
        proof {
            if let Some(found) = handler {
                P::lemma_tag_names_kind(found.spec_kind(), kind);
            }
        }
        handler
    }

    /// Whether packets of every kind have a handler: the test to make once,
    /// when the table has been filled.
    pub fn is_complete(&self) -> (complete: bool)
        ensures
            complete == self.complete(),
    {
        let kinds = P::kinds();
        let mut i: usize = 0;
        while i < kinds.len()
            invariant
                i <= kinds@.len(),
                kinds@ == P::spec_kinds(),
                forall|j: int| 0 <= j < i ==> self.registered(#[trigger] kinds@[j]),
            decreases kinds@.len() - i,
        {
            if self.get(kinds[i]).is_none() {
                return false;
            }
            i = i + 1;
        }
        proof {
            assert forall|kind: P::Kind| self.registered(kind) by {
                P::lemma_kinds_complete(kind);
            }
        }
        true
    }
}

/// Routing goes by the kind alone: the handler that is found for a kind takes
/// that kind, and another kind is another entry of the table. So a packet
/// reaches the queue that was registered for its kind, and no other queue.
pub proof fn lemma_routing<P: RoutedPacket>(map: &PacketSenderMap<P>, kind: P::Kind, other: P::Kind)
    requires
        map.valid(),
        map.registered(kind),
    ensures
        map.handler(kind).spec_kind() == kind,
        other != kind ==> P::spec_tag(other) != P::spec_tag(kind),
        other != kind && map.registered(other) ==> map.handler(other).spec_kind() != kind,
{
    P::lemma_tag_names_kind(map.handler(kind).spec_kind(), kind);
    if P::spec_tag(other) == P::spec_tag(kind) {
        P::lemma_tag_names_kind(other, kind);
    }
    if map.registered(other) {
        P::lemma_tag_names_kind(map.handler(other).spec_kind(), other);
    }
}

/// A handler that was added is the one that routing finds for its kind, and
/// the handlers of the other kinds stay as they were.
pub proof fn lemma_added_is_found<P: RoutedPacket>(
    before: &PacketSenderMap<P>,
    after: &PacketSenderMap<P>,
    added: P::Sender,
    other: P::Kind,
)
    requires
        after@ == before@.insert(P::spec_tag(added.spec_kind()), added),
    ensures
        after.registered(added.spec_kind()),
        after.handler(added.spec_kind()) == added,
        other != added.spec_kind() ==> after.registered(other) == before.registered(other),
        other != added.spec_kind() && before.registered(other) ==> after.handler(other)
            == before.handler(other),
{
    if P::spec_tag(other) == P::spec_tag(added.spec_kind()) {
        P::lemma_tag_names_kind(other, added.spec_kind());
    }
}

impl From<Sender<PacketWithConnId<SendMessage>>> for ClientPacketSender {
    fn from(queue: Sender<PacketWithConnId<SendMessage>>) -> (handler: Self) {
        ClientPacketSender::SendMessage(queue)
    }
}

impl vstd::std_specs::convert::FromSpecImpl<Sender<PacketWithConnId<SendMessage>>> for ClientPacketSender {
    open spec fn obeys_from_spec() -> bool {
        true
    }

    open spec fn from_spec(queue: Sender<PacketWithConnId<SendMessage>>) -> Self {
        ClientPacketSender::SendMessage(queue)
    }
}

impl From<Sender<PacketWithConnId<PathTargetRequest>>> for ClientPacketSender {
    fn from(queue: Sender<PacketWithConnId<PathTargetRequest>>) -> (handler: Self) {
        ClientPacketSender::PathTargetRequest(queue)
    }
}

impl vstd::std_specs::convert::FromSpecImpl<Sender<PacketWithConnId<PathTargetRequest>>> for ClientPacketSender {
    open spec fn obeys_from_spec() -> bool {
        true
    }

    open spec fn from_spec(queue: Sender<PacketWithConnId<PathTargetRequest>>) -> Self {
        ClientPacketSender::PathTargetRequest(queue)
    }
}

impl From<Sender<PacketWithConnId<QueryEntity>>> for ClientPacketSender {
    fn from(queue: Sender<PacketWithConnId<QueryEntity>>) -> (handler: Self) {
        ClientPacketSender::QueryEntity(queue)
    }
}

impl vstd::std_specs::convert::FromSpecImpl<Sender<PacketWithConnId<QueryEntity>>> for ClientPacketSender {
    open spec fn obeys_from_spec() -> bool {
        true
    }

    open spec fn from_spec(queue: Sender<PacketWithConnId<QueryEntity>>) -> Self {
        ClientPacketSender::QueryEntity(queue)
    }
}

impl From<NullSink<ClientPacket, Heartbeat>> for ClientPacketSender {
    fn from(sink: NullSink<ClientPacket, Heartbeat>) -> (handler: Self) {
        ClientPacketSender::Heartbeat(sink)
    }
}

impl vstd::std_specs::convert::FromSpecImpl<NullSink<ClientPacket, Heartbeat>> for ClientPacketSender {
    open spec fn obeys_from_spec() -> bool {
        true
    }

    open spec fn from_spec(sink: NullSink<ClientPacket, Heartbeat>) -> Self {
        ClientPacketSender::Heartbeat(sink)
    }
}

impl From<Sender<MessageReceived>> for ServerPacketSender {
    fn from(queue: Sender<MessageReceived>) -> (handler: Self) {
        ServerPacketSender::MessageReceived(queue)
    }
}

impl vstd::std_specs::convert::FromSpecImpl<Sender<MessageReceived>> for ServerPacketSender {
    open spec fn obeys_from_spec() -> bool {
        true
    }

    open spec fn from_spec(queue: Sender<MessageReceived>) -> Self {
        ServerPacketSender::MessageReceived(queue)
    }
}

impl From<Sender<AcceptConnection>> for ServerPacketSender {
    fn from(queue: Sender<AcceptConnection>) -> (handler: Self) {
        ServerPacketSender::AcceptConnection(queue)
    }
}

impl vstd::std_specs::convert::FromSpecImpl<Sender<AcceptConnection>> for ServerPacketSender {
    open spec fn obeys_from_spec() -> bool {
        true
    }

    open spec fn from_spec(queue: Sender<AcceptConnection>) -> Self {
        ServerPacketSender::AcceptConnection(queue)
    }
}

impl From<Sender<PathTarget>> for ServerPacketSender {
    fn from(queue: Sender<PathTarget>) -> (handler: Self) {
        ServerPacketSender::PathTarget(queue)
    }
}

impl vstd::std_specs::convert::FromSpecImpl<Sender<PathTarget>> for ServerPacketSender {
    open spec fn obeys_from_spec() -> bool {
        true
    }

    open spec fn from_spec(queue: Sender<PathTarget>) -> Self {
        ServerPacketSender::PathTarget(queue)
    }
}

impl From<Sender<SpawnEntity>> for ServerPacketSender {
    fn from(queue: Sender<SpawnEntity>) -> (handler: Self) {
        ServerPacketSender::SpawnEntity(queue)
    }
}

impl vstd::std_specs::convert::FromSpecImpl<Sender<SpawnEntity>> for ServerPacketSender {
    open spec fn obeys_from_spec() -> bool {
        true
    }

    open spec fn from_spec(queue: Sender<SpawnEntity>) -> Self {
        ServerPacketSender::SpawnEntity(queue)
    }
}

impl From<Sender<DespawnEntity>> for ServerPacketSender {
    fn from(queue: Sender<DespawnEntity>) -> (handler: Self) {
        ServerPacketSender::DespawnEntity(queue)
    }
}

impl vstd::std_specs::convert::FromSpecImpl<Sender<DespawnEntity>> for ServerPacketSender {
    open spec fn obeys_from_spec() -> bool {
        true
    }

    open spec fn from_spec(queue: Sender<DespawnEntity>) -> Self {
        ServerPacketSender::DespawnEntity(queue)
    }
}

impl From<NullSink<ServerPacket, Heartbeat>> for ServerPacketSender {
    fn from(sink: NullSink<ServerPacket, Heartbeat>) -> (handler: Self) {
        ServerPacketSender::Heartbeat(sink)
    }
}

impl vstd::std_specs::convert::FromSpecImpl<NullSink<ServerPacket, Heartbeat>> for ServerPacketSender {
    open spec fn obeys_from_spec() -> bool {
        true
    }

    open spec fn from_spec(sink: NullSink<ServerPacket, Heartbeat>) -> Self {
        ServerPacketSender::Heartbeat(sink)
    }
}

impl Default for PacketSenderMap<ClientPacket> {
    /// The table that drops heartbeats and knows no other kind.
    fn default() -> (map: Self)
        ensures
            map@.dom() == set![ClientPacketKind::Heartbeat.spec_tag()],
            map.handler(ClientPacketKind::Heartbeat) is Heartbeat,
    {
        let mut map = PacketSenderMap::new();
        map.add(NullSink::<ClientPacket, Heartbeat>::default());
        assert(map@.dom() =~= set![ClientPacketKind::Heartbeat.spec_tag()]);
        map
    }
}

impl Default for PacketSenderMap<ServerPacket> {
    /// The table that drops heartbeats and knows no other kind.
    fn default() -> (map: Self)
        ensures
            map@.dom() == set![ServerPacketKind::Heartbeat.spec_tag()],
            map.handler(ServerPacketKind::Heartbeat) is Heartbeat,
    {
        let mut map = PacketSenderMap::new();
        map.add(NullSink::<ServerPacket, Heartbeat>::default());
        assert(map@.dom() =~= set![ServerPacketKind::Heartbeat.spec_tag()]);
        map
    }
}

/// The shared, read-only routing table that every receive task of one role
/// sends its packets through.
pub struct AnyPacketMediator<P: RoutedPacket> {
    packet_senders: Arc<PacketSenderMap<P>>,
}

impl<P: RoutedPacket> View for AnyPacketMediator<P> {
    type V = PacketSenderMap<P>;

    closed spec fn view(&self) -> PacketSenderMap<P> {
        *self.packet_senders
    }
}

impl<P: RoutedPacket> Clone for AnyPacketMediator<P> {
    fn clone(&self) -> (copy: Self)
        ensures
            copy@ == self@,
    {
        AnyPacketMediator { packet_senders: share(&self.packet_senders) }
    }
}

impl<P: RoutedPacket> AnyPacketMediator<P> {
    pub fn new(packet_senders: Arc<PacketSenderMap<P>>) -> (mediator: Self)
        ensures
            mediator@ == *packet_senders,
    {
        AnyPacketMediator { packet_senders }
    }

    /// Whether packets of every kind have a handler.
    pub fn is_complete(&self) -> (complete: bool)
        ensures
            complete == self@.complete(),
    {
        self.packet_senders.is_complete()
    }

    /// Whether packets of `kind` have a handler.
    pub fn handles(&self, kind: P::Kind) -> (handled: bool)
        ensures
            handled == self@.registered(kind),
    {
        self.packet_senders.get(kind).is_some()
    }

    /// Where a packet goes, and what goes there: the handler that is
    /// registered for the packet's kind, and the delivery that carries the
    /// packet.
    pub fn route(&self, packet: AnyPacketWithConnId<P>) -> (routed: (
        &P::Sender,
        <P::Sender as AnyPacketHandler<P>>::Delivery,
    ))
        requires
            self@.registered(P::spec_kind(packet.packet@)),
        ensures
            *routed.0 == self@.handler(P::spec_kind(packet.packet@)),
            routed.0.spec_kind() == P::spec_kind(packet.packet@),
            <P::Sender as AnyPacketHandler<P>>::queue(routed.1) == P::spec_kind(packet.packet@),
            <P::Sender as AnyPacketHandler<P>>::carries(routed.1, packet),
    {
        let packet_kind = packet.packet_kind();
        match self.packet_senders.get(packet_kind) {
            Some(sender) => (sender, <P::Sender as AnyPacketHandler<P>>::delivery(packet)),
            None => vstd::pervasive::unreached(),
        }
    }

    /// Routes the packet: hands the delivery that `route` makes to the
    /// handler that `route` finds. That the kind has a handler is the
    /// caller's duty: a table without one was built incompletely.
    pub fn send(&self, packet: AnyPacketWithConnId<P>) -> (sent: Result<()>)
        requires
            self@.registered(P::spec_kind(packet.packet@)),
        ensures
            sent matches Err(error) ==> error == Error::ChannelClosed,
            self@.handler(P::spec_kind(packet.packet@)).discards() ==> sent is Ok,
    {
        let (handler, delivery) = self.route(packet);
        handler.hand_over(delivery)
    }
}

} // verus!
