//! The packets of both directions, their kinds, and the framed form in which
//! they travel.

use std::sync::Arc;
use vstd::prelude::*;
use vstd::std_specs::convert::FromSpec;
use crate::ambit::packet::{DespawnEntity, QueryEntity, SpawnEntity};
use crate::chat::packet::{MessageReceived, MessageReceivedView, SendMessage, SendMessageView};
use crate::id::NetworkId;
use crate::network::error::{Error, Result, WireError};
use crate::network::wire::{lemma_join_subrange, lemma_parse_tagged, lemma_u32_le_round_trip, u32_le, Wire};
use crate::path::packet::{PathTarget, PathTargetRequest};

verus! {

/// The error of taking a payload out of a packet of another kind.
#[derive(Clone, Copy, Debug, PartialEq, Eq, Structural)]
pub struct WrongKind;

/// A closed union of payloads that travels in one direction.
///
/// Every packet has a kind, every kind a tag that opens the packet's
/// encoding, and every union has its heartbeat.
pub trait Packet: Wire + From<Heartbeat> {
    /// The key by which packets of this union are routed.
    type Kind: Copy;

    /// The kind of a packet.
    spec fn spec_kind(value: Self::V) -> Self::Kind;

    /// The number that stands for a kind on the wire.
    spec fn spec_tag(kind: Self::Kind) -> u32;

    /// The union's heartbeat.
    spec fn spec_heartbeat() -> Self::V;

    fn packet_kind(&self) -> (kind: Self::Kind)
        ensures
            kind == Self::spec_kind(self@),
    ;

    fn tag(kind: Self::Kind) -> (tag: u32)
        ensures
            tag == Self::spec_tag(kind),
    ;

    /// Every kind of the union, in the order of the tags.
    spec fn spec_kinds() -> Seq<Self::Kind>;

    fn kinds() -> (kinds: Vec<Self::Kind>)
        ensures
            kinds@ == Self::spec_kinds(),
    ;

    /// Every kind stands in `spec_kinds`, at its tag.
    proof fn lemma_kinds_complete(kind: Self::Kind)
        ensures
            Self::spec_tag(kind) < Self::spec_kinds().len(),
            Self::spec_kinds()[Self::spec_tag(kind) as int] == kind,
    ;

    /// Two kinds with one tag are one kind.
    proof fn lemma_tag_names_kind(first: Self::Kind, second: Self::Kind)
        requires
            Self::spec_tag(first) == Self::spec_tag(second),
        ensures
            first == second,
    ;

    /// A packet's encoding opens with the tag of its kind.
    proof fn lemma_wire_opens_with_tag(value: Self::V)
        ensures
            Self::wire(value).len() >= 4,
            Self::wire(value).subrange(0, 4) == u32_le(Self::spec_tag(Self::spec_kind(value))),
    ;

    /// The heartbeat is made from `Heartbeat`, and its encoding is its tag
    /// alone.
    proof fn lemma_heartbeat()
        ensures
            <Self as FromSpec<Heartbeat>>::obeys_from_spec(),
            <Self as FromSpec<Heartbeat>>::from_spec(Heartbeat)@ == Self::spec_heartbeat(),
            Self::fits(Self::spec_heartbeat()),
            Self::wire(Self::spec_heartbeat()) == u32_le(
                Self::spec_tag(Self::spec_kind(Self::spec_heartbeat())),
            ),
    ;
}

/// The empty keepalive that is written when a connection has been idle.
#[derive(Clone, Copy, Debug, PartialEq, Eq, Structural, Default)]
pub struct Heartbeat;

impl View for Heartbeat {
    type V = Heartbeat;

    open spec fn view(&self) -> Heartbeat {
        *self
    }
}

impl Wire for Heartbeat {
    open spec fn wire(value: Heartbeat) -> Seq<u8> {
        Seq::empty()
    }

    open spec fn fits(value: Heartbeat) -> bool {
        true
    }

    open spec fn parse(bytes: Seq<u8>, at: int) -> core::result::Result<(Heartbeat, int), WireError> {
        Ok((Heartbeat, at))
    }

    proof fn lemma_parse_wire(bytes: Seq<u8>, at: int, value: Heartbeat) {
    }

    proof fn lemma_wire_parse(bytes: Seq<u8>, at: int) {
        assert(bytes.subrange(at, at) =~= Seq::<u8>::empty());
    }

    fn write_to(&self, out: &mut Vec<u8>) -> (done: core::result::Result<(), WireError>) {
        assert(out@ =~= old(out)@ + Self::wire(self@));
        Ok(())
    }

    fn read_from(bytes: &[u8], at: usize) -> (read: core::result::Result<(Heartbeat, usize), WireError>) {
        Ok((Heartbeat, at))
    }
}

/// Tells a client the id that the server gave its connection.
#[derive(Clone, Copy, Debug, PartialEq, Eq, Structural)]
pub struct AcceptConnection {
    pub connection_id: NetworkId,
}

impl View for AcceptConnection {
    type V = AcceptConnection;

    open spec fn view(&self) -> AcceptConnection {
        *self
    }
}

impl Wire for AcceptConnection {
    open spec fn wire(value: AcceptConnection) -> Seq<u8> {
        NetworkId::wire(value.connection_id@)
    }

    open spec fn fits(value: AcceptConnection) -> bool {
        true
    }

    open spec fn parse(bytes: Seq<u8>, at: int) -> core::result::Result<(AcceptConnection, int), WireError> {
        match NetworkId::parse(bytes, at) {
            Ok((connection_id, after_connection_id)) => {
                Ok((AcceptConnection { connection_id: NetworkId(connection_id) }, after_connection_id))
            },
            Err(error) => Err(error),
        }
    }

    proof fn lemma_parse_wire(bytes: Seq<u8>, at: int, value: AcceptConnection) {
        NetworkId::lemma_parse_wire(bytes, at, value.connection_id@);
    }

    proof fn lemma_wire_parse(bytes: Seq<u8>, at: int) {
        NetworkId::lemma_wire_parse(bytes, at);
    }

    fn write_to(&self, out: &mut Vec<u8>) -> (done: core::result::Result<(), WireError>) {
        let _ = self.connection_id.write_to(out);
        assert(out@ =~= old(out)@ + Self::wire(self@));
        Ok(())
    }

    fn read_from(bytes: &[u8], at: usize) -> (read: core::result::Result<(AcceptConnection, usize), WireError>) {
        let (connection_id, after_connection_id) = match NetworkId::read_from(bytes, at) {
            Ok(read) => read,
            Err(error) => return Err(error),
        };
        Ok((AcceptConnection { connection_id }, after_connection_id))
    }
}

/// Every packet that a client sends to the server.
#[derive(Clone, Debug, PartialEq, Eq)]
pub enum ClientPacket {
    SendMessage(SendMessage),
    QueryEntity(QueryEntity),
    PathTargetRequest(PathTargetRequest),
    Heartbeat(Heartbeat),
}

/// What a `ClientPacket` holds, by the views of its payloads.
pub enum ClientPacketView {
    SendMessage(SendMessageView),
    QueryEntity(QueryEntity),
    PathTargetRequest(PathTargetRequest),
    Heartbeat(Heartbeat),
}

/// Which variant a `ClientPacket` is: the key by which it is routed.
#[derive(Clone, Copy, Debug, PartialEq, Eq, Structural, Hash)]
pub enum ClientPacketKind {
    SendMessage,
    QueryEntity,
    PathTargetRequest,
    Heartbeat,
}

impl View for ClientPacket {
    type V = ClientPacketView;

    open spec fn view(&self) -> ClientPacketView {
        match self {
            ClientPacket::SendMessage(payload) => ClientPacketView::SendMessage(payload@),
            ClientPacket::QueryEntity(payload) => ClientPacketView::QueryEntity(payload@),
            ClientPacket::PathTargetRequest(payload) => ClientPacketView::PathTargetRequest(payload@),
            ClientPacket::Heartbeat(payload) => ClientPacketView::Heartbeat(payload@),
        }
    }
}

impl ClientPacketView {
    /// The variant that the value is.
    pub open spec fn kind(self) -> ClientPacketKind {
        match self {
            ClientPacketView::SendMessage(_) => ClientPacketKind::SendMessage,
            ClientPacketView::QueryEntity(_) => ClientPacketKind::QueryEntity,
            ClientPacketView::PathTargetRequest(_) => ClientPacketKind::PathTargetRequest,
            ClientPacketView::Heartbeat(_) => ClientPacketKind::Heartbeat,
        }
    }
}

impl ClientPacketKind {
    /// The number that stands for the variant on the wire.
    pub open spec fn spec_tag(self) -> u32 {
        match self {
            ClientPacketKind::SendMessage => 0,
            ClientPacketKind::QueryEntity => 1,
            ClientPacketKind::PathTargetRequest => 2,
            ClientPacketKind::Heartbeat => 3,
        }
    }

    #[verifier::when_used_as_spec(spec_tag)]
    pub fn tag(self) -> (tag: u32)
        ensures
            tag == self.spec_tag(),
    {
        match self {
            ClientPacketKind::SendMessage => 0,
            ClientPacketKind::QueryEntity => 1,
            ClientPacketKind::PathTargetRequest => 2,
            ClientPacketKind::Heartbeat => 3,
        }
    }
}

impl Wire for ClientPacket {
    open spec fn wire(value: ClientPacketView) -> Seq<u8> {
        match value {
            ClientPacketView::SendMessage(payload) => u32_le(0) + SendMessage::wire(payload),
            ClientPacketView::QueryEntity(payload) => u32_le(1) + QueryEntity::wire(payload),
            ClientPacketView::PathTargetRequest(payload) => u32_le(2) + PathTargetRequest::wire(payload),
            ClientPacketView::Heartbeat(payload) => u32_le(3) + Heartbeat::wire(payload),
        }
    }

    open spec fn fits(value: ClientPacketView) -> bool {
        match value {
            ClientPacketView::SendMessage(payload) => SendMessage::fits(payload),
            ClientPacketView::QueryEntity(payload) => QueryEntity::fits(payload),
            ClientPacketView::PathTargetRequest(payload) => PathTargetRequest::fits(payload),
            ClientPacketView::Heartbeat(payload) => Heartbeat::fits(payload),
        }
    }

    open spec fn parse(bytes: Seq<u8>, at: int) -> core::result::Result<(ClientPacketView, int), WireError> {
        match u32::parse(bytes, at) {
            Ok((tag, start)) => {
                if tag == 0 {
                    match SendMessage::parse(bytes, start) {
                        Ok((payload, next)) => Ok((ClientPacketView::SendMessage(payload), next)),
                        Err(error) => Err(error),
                    }
                } else if tag == 1 {
                    match QueryEntity::parse(bytes, start) {
                        Ok((payload, next)) => Ok((ClientPacketView::QueryEntity(payload), next)),
                        Err(error) => Err(error),
                    }
                } else if tag == 2 {
                    match PathTargetRequest::parse(bytes, start) {
                        Ok((payload, next)) => Ok((ClientPacketView::PathTargetRequest(payload), next)),
                        Err(error) => Err(error),
                    }
                } else if tag == 3 {
                    match Heartbeat::parse(bytes, start) {
                        Ok((payload, next)) => Ok((ClientPacketView::Heartbeat(payload), next)),
                        Err(error) => Err(error),
                    }
                } else {
                    Err(WireError::InvalidVariant)
                }
            },
            Err(error) => Err(error),
        }
    }

    proof fn lemma_parse_wire(bytes: Seq<u8>, at: int, value: ClientPacketView) {
        match value {
            ClientPacketView::SendMessage(payload) => {
                lemma_u32_le_round_trip(0);
                lemma_parse_tagged::<SendMessage>(bytes, at, 0, payload);
            },
            ClientPacketView::QueryEntity(payload) => {
                lemma_u32_le_round_trip(1);
                lemma_parse_tagged::<QueryEntity>(bytes, at, 1, payload);
            },
            ClientPacketView::PathTargetRequest(payload) => {
                lemma_u32_le_round_trip(2);
                lemma_parse_tagged::<PathTargetRequest>(bytes, at, 2, payload);
            },
            ClientPacketView::Heartbeat(payload) => {
                lemma_u32_le_round_trip(3);
                lemma_parse_tagged::<Heartbeat>(bytes, at, 3, payload);
            },
        }
    }

    proof fn lemma_wire_parse(bytes: Seq<u8>, at: int) {
        u32::lemma_wire_parse(bytes, at);
        if let Ok((tag, start)) = u32::parse(bytes, at) {
            SendMessage::lemma_wire_parse(bytes, start);
            QueryEntity::lemma_wire_parse(bytes, start);
            PathTargetRequest::lemma_wire_parse(bytes, start);
            Heartbeat::lemma_wire_parse(bytes, start);
            if let Ok((value, next)) = Self::parse(bytes, at) {
                lemma_join_subrange(bytes, at, start, next);
            }
        }
    }

    fn write_to(&self, out: &mut Vec<u8>) -> (done: core::result::Result<(), WireError>) {
        let _ = self.kind().tag().write_to(out);
        let done = match self {
            ClientPacket::SendMessage(payload) => payload.write_to(out),
            ClientPacket::QueryEntity(payload) => payload.write_to(out),
            ClientPacket::PathTargetRequest(payload) => payload.write_to(out),
            ClientPacket::Heartbeat(payload) => payload.write_to(out),
        };
        if done.is_ok() {
            assert(out@ =~= old(out)@ + Self::wire(self@));
        }
        done
    }

    fn read_from(bytes: &[u8], at: usize) -> (read: core::result::Result<(ClientPacket, usize), WireError>) {
        let (tag, start) = match u32::read_from(bytes, at) {
            Ok(read) => read,
            Err(error) => return Err(error),
        };
        if tag == 0 {
            match SendMessage::read_from(bytes, start) {
                Ok((payload, next)) => Ok((ClientPacket::SendMessage(payload), next)),
                Err(error) => Err(error),
            }
        } else if tag == 1 {
            match QueryEntity::read_from(bytes, start) {
                Ok((payload, next)) => Ok((ClientPacket::QueryEntity(payload), next)),
                Err(error) => Err(error),
            }
        } else if tag == 2 {
            match PathTargetRequest::read_from(bytes, start) {
                Ok((payload, next)) => Ok((ClientPacket::PathTargetRequest(payload), next)),
                Err(error) => Err(error),
            }
        } else if tag == 3 {
            match Heartbeat::read_from(bytes, start) {
                Ok((payload, next)) => Ok((ClientPacket::Heartbeat(payload), next)),
                Err(error) => Err(error),
            }
        } else {
            Err(WireError::InvalidVariant)
        }
    }
}

impl ClientPacket {
    /// The variant that the packet is.
    pub fn kind(&self) -> (kind: ClientPacketKind)
        ensures
            kind == self@.kind(),
    {
        match self {
            ClientPacket::SendMessage(_) => ClientPacketKind::SendMessage,
            ClientPacket::QueryEntity(_) => ClientPacketKind::QueryEntity,
            ClientPacket::PathTargetRequest(_) => ClientPacketKind::PathTargetRequest,
            ClientPacket::Heartbeat(_) => ClientPacketKind::Heartbeat,
        }
    }
}

impl From<SendMessage> for ClientPacket {
    fn from(payload: SendMessage) -> (packet: Self) {
        ClientPacket::SendMessage(payload)
    }
}

impl vstd::std_specs::convert::FromSpecImpl<SendMessage> for ClientPacket {
    open spec fn obeys_from_spec() -> bool {
        true
    }

    open spec fn from_spec(payload: SendMessage) -> Self {
        ClientPacket::SendMessage(payload)
    }
}

impl TryFrom<ClientPacket> for SendMessage {
    type Error = WrongKind;

    fn try_from(packet: ClientPacket) -> (payload: core::result::Result<Self, WrongKind>) {
        match packet {
            ClientPacket::SendMessage(payload) => Ok(payload),
            _ => Err(WrongKind),
        }
    }
}

impl vstd::std_specs::convert::TryFromSpecImpl<ClientPacket> for SendMessage {
    open spec fn obeys_try_from_spec() -> bool {
        true
    }

    open spec fn try_from_spec(packet: ClientPacket) -> core::result::Result<Self, WrongKind> {
        match packet {
            ClientPacket::SendMessage(payload) => Ok(payload),
            _ => Err(WrongKind),
        }
    }
}

impl From<QueryEntity> for ClientPacket {
    fn from(payload: QueryEntity) -> (packet: Self) {
        ClientPacket::QueryEntity(payload)
    }
}

impl vstd::std_specs::convert::FromSpecImpl<QueryEntity> for ClientPacket {
    open spec fn obeys_from_spec() -> bool {
        true
    }

    open spec fn from_spec(payload: QueryEntity) -> Self {
        ClientPacket::QueryEntity(payload)
    }
}

impl TryFrom<ClientPacket> for QueryEntity {
    type Error = WrongKind;

    fn try_from(packet: ClientPacket) -> (payload: core::result::Result<Self, WrongKind>) {
        match packet {
            ClientPacket::QueryEntity(payload) => Ok(payload),
            _ => Err(WrongKind),
        }
    }
}

impl vstd::std_specs::convert::TryFromSpecImpl<ClientPacket> for QueryEntity {
    open spec fn obeys_try_from_spec() -> bool {
        true
    }

    open spec fn try_from_spec(packet: ClientPacket) -> core::result::Result<Self, WrongKind> {
        match packet {
            ClientPacket::QueryEntity(payload) => Ok(payload),
            _ => Err(WrongKind),
        }
    }
}

impl From<PathTargetRequest> for ClientPacket {
    fn from(payload: PathTargetRequest) -> (packet: Self) {
        ClientPacket::PathTargetRequest(payload)
    }
}

impl vstd::std_specs::convert::FromSpecImpl<PathTargetRequest> for ClientPacket {
    open spec fn obeys_from_spec() -> bool {
        true
    }

    open spec fn from_spec(payload: PathTargetRequest) -> Self {
        ClientPacket::PathTargetRequest(payload)
    }
}

impl TryFrom<ClientPacket> for PathTargetRequest {
    type Error = WrongKind;

    fn try_from(packet: ClientPacket) -> (payload: core::result::Result<Self, WrongKind>) {
        match packet {
            ClientPacket::PathTargetRequest(payload) => Ok(payload),
            _ => Err(WrongKind),
        }
    }
}

impl vstd::std_specs::convert::TryFromSpecImpl<ClientPacket> for PathTargetRequest {
    open spec fn obeys_try_from_spec() -> bool {
        true
    }

    open spec fn try_from_spec(packet: ClientPacket) -> core::result::Result<Self, WrongKind> {
        match packet {
            ClientPacket::PathTargetRequest(payload) => Ok(payload),
            _ => Err(WrongKind),
        }
    }
}

impl From<Heartbeat> for ClientPacket {
    fn from(payload: Heartbeat) -> (packet: Self) {
        ClientPacket::Heartbeat(payload)
    }
}

impl vstd::std_specs::convert::FromSpecImpl<Heartbeat> for ClientPacket {
    open spec fn obeys_from_spec() -> bool {
        true
    }

    open spec fn from_spec(payload: Heartbeat) -> Self {
        ClientPacket::Heartbeat(payload)
    }
}

impl TryFrom<ClientPacket> for Heartbeat {
    type Error = WrongKind;

    fn try_from(packet: ClientPacket) -> (payload: core::result::Result<Self, WrongKind>) {
        match packet {
            ClientPacket::Heartbeat(payload) => Ok(payload),
            _ => Err(WrongKind),
        }
    }
}

impl vstd::std_specs::convert::TryFromSpecImpl<ClientPacket> for Heartbeat {
    open spec fn obeys_try_from_spec() -> bool {
        true
    }

    open spec fn try_from_spec(packet: ClientPacket) -> core::result::Result<Self, WrongKind> {
        match packet {
            ClientPacket::Heartbeat(payload) => Ok(payload),
            _ => Err(WrongKind),
        }
    }
}


/// Every packet that the server sends to a client.
#[derive(Clone, Debug, PartialEq, Eq)]
pub enum ServerPacket {
    MessageReceived(MessageReceived),
    AcceptConnection(AcceptConnection),
    PathTarget(PathTarget),
    SpawnEntity(SpawnEntity),
    DespawnEntity(DespawnEntity),
    Heartbeat(Heartbeat),
}

/// What a `ServerPacket` holds, by the views of its payloads.
pub enum ServerPacketView {
    MessageReceived(MessageReceivedView),
    AcceptConnection(AcceptConnection),
    PathTarget(PathTarget),
    SpawnEntity(SpawnEntity),
    DespawnEntity(DespawnEntity),
    Heartbeat(Heartbeat),
}

/// Which variant a `ServerPacket` is: the key by which it is routed.
#[derive(Clone, Copy, Debug, PartialEq, Eq, Structural, Hash)]
pub enum ServerPacketKind {
    MessageReceived,
    AcceptConnection,
    PathTarget,
    SpawnEntity,
    DespawnEntity,
    Heartbeat,
}

impl View for ServerPacket {
    type V = ServerPacketView;

    open spec fn view(&self) -> ServerPacketView {
        match self {
            ServerPacket::MessageReceived(payload) => ServerPacketView::MessageReceived(payload@),
            ServerPacket::AcceptConnection(payload) => ServerPacketView::AcceptConnection(payload@),
            ServerPacket::PathTarget(payload) => ServerPacketView::PathTarget(payload@),
            ServerPacket::SpawnEntity(payload) => ServerPacketView::SpawnEntity(payload@),
            ServerPacket::DespawnEntity(payload) => ServerPacketView::DespawnEntity(payload@),
            ServerPacket::Heartbeat(payload) => ServerPacketView::Heartbeat(payload@),
        }
    }
}

impl ServerPacketView {
    /// The variant that the value is.
    pub open spec fn kind(self) -> ServerPacketKind {
        match self {
            ServerPacketView::MessageReceived(_) => ServerPacketKind::MessageReceived,
            ServerPacketView::AcceptConnection(_) => ServerPacketKind::AcceptConnection,
            ServerPacketView::PathTarget(_) => ServerPacketKind::PathTarget,
            ServerPacketView::SpawnEntity(_) => ServerPacketKind::SpawnEntity,
            ServerPacketView::DespawnEntity(_) => ServerPacketKind::DespawnEntity,
            ServerPacketView::Heartbeat(_) => ServerPacketKind::Heartbeat,
        }
    }
}

impl ServerPacketKind {
    /// The number that stands for the variant on the wire.
    pub open spec fn spec_tag(self) -> u32 {
        match self {
            ServerPacketKind::MessageReceived => 0,
            ServerPacketKind::AcceptConnection => 1,
            ServerPacketKind::PathTarget => 2,
            ServerPacketKind::SpawnEntity => 3,
            ServerPacketKind::DespawnEntity => 4,
            ServerPacketKind::Heartbeat => 5,
        }
    }

    #[verifier::when_used_as_spec(spec_tag)]
    pub fn tag(self) -> (tag: u32)
        ensures
            tag == self.spec_tag(),
    {
        match self {
            ServerPacketKind::MessageReceived => 0,
            ServerPacketKind::AcceptConnection => 1,
            ServerPacketKind::PathTarget => 2,
            ServerPacketKind::SpawnEntity => 3,
            ServerPacketKind::DespawnEntity => 4,
            ServerPacketKind::Heartbeat => 5,
        }
    }
}

impl Wire for ServerPacket {
    open spec fn wire(value: ServerPacketView) -> Seq<u8> {
        match value {
            ServerPacketView::MessageReceived(payload) => u32_le(0) + MessageReceived::wire(payload),
            ServerPacketView::AcceptConnection(payload) => u32_le(1) + AcceptConnection::wire(payload),
            ServerPacketView::PathTarget(payload) => u32_le(2) + PathTarget::wire(payload),
            ServerPacketView::SpawnEntity(payload) => u32_le(3) + SpawnEntity::wire(payload),
            ServerPacketView::DespawnEntity(payload) => u32_le(4) + DespawnEntity::wire(payload),
            ServerPacketView::Heartbeat(payload) => u32_le(5) + Heartbeat::wire(payload),
        }
    }

    open spec fn fits(value: ServerPacketView) -> bool {
        match value {
            ServerPacketView::MessageReceived(payload) => MessageReceived::fits(payload),
            ServerPacketView::AcceptConnection(payload) => AcceptConnection::fits(payload),
            ServerPacketView::PathTarget(payload) => PathTarget::fits(payload),
            ServerPacketView::SpawnEntity(payload) => SpawnEntity::fits(payload),
            ServerPacketView::DespawnEntity(payload) => DespawnEntity::fits(payload),
            ServerPacketView::Heartbeat(payload) => Heartbeat::fits(payload),
        }
    }

    open spec fn parse(bytes: Seq<u8>, at: int) -> core::result::Result<(ServerPacketView, int), WireError> {
        match u32::parse(bytes, at) {
            Ok((tag, start)) => {
                if tag == 0 {
                    match MessageReceived::parse(bytes, start) {
                        Ok((payload, next)) => Ok((ServerPacketView::MessageReceived(payload), next)),
                        Err(error) => Err(error),
                    }
                } else if tag == 1 {
                    match AcceptConnection::parse(bytes, start) {
                        Ok((payload, next)) => Ok((ServerPacketView::AcceptConnection(payload), next)),
                        Err(error) => Err(error),
                    }
                } else if tag == 2 {
                    match PathTarget::parse(bytes, start) {
                        Ok((payload, next)) => Ok((ServerPacketView::PathTarget(payload), next)),
                        Err(error) => Err(error),
                    }
                } else if tag == 3 {
                    match SpawnEntity::parse(bytes, start) {
                        Ok((payload, next)) => Ok((ServerPacketView::SpawnEntity(payload), next)),
                        Err(error) => Err(error),
                    }
                } else if tag == 4 {
                    match DespawnEntity::parse(bytes, start) {
                        Ok((payload, next)) => Ok((ServerPacketView::DespawnEntity(payload), next)),
                        Err(error) => Err(error),
                    }
                } else if tag == 5 {
                    match Heartbeat::parse(bytes, start) {
                        Ok((payload, next)) => Ok((ServerPacketView::Heartbeat(payload), next)),
                        Err(error) => Err(error),
                    }
                } else {
                    Err(WireError::InvalidVariant)
                }
            },
            Err(error) => Err(error),
        }
    }

    proof fn lemma_parse_wire(bytes: Seq<u8>, at: int, value: ServerPacketView) {
        match value {
            ServerPacketView::MessageReceived(payload) => {
                lemma_u32_le_round_trip(0);
                lemma_parse_tagged::<MessageReceived>(bytes, at, 0, payload);
            },
            ServerPacketView::AcceptConnection(payload) => {
                lemma_u32_le_round_trip(1);
                lemma_parse_tagged::<AcceptConnection>(bytes, at, 1, payload);
            },
            ServerPacketView::PathTarget(payload) => {
                lemma_u32_le_round_trip(2);
                lemma_parse_tagged::<PathTarget>(bytes, at, 2, payload);
            },
            ServerPacketView::SpawnEntity(payload) => {
                lemma_u32_le_round_trip(3);
                lemma_parse_tagged::<SpawnEntity>(bytes, at, 3, payload);
            },
            ServerPacketView::DespawnEntity(payload) => {
                lemma_u32_le_round_trip(4);
                lemma_parse_tagged::<DespawnEntity>(bytes, at, 4, payload);
            },
            ServerPacketView::Heartbeat(payload) => {
                lemma_u32_le_round_trip(5);
                lemma_parse_tagged::<Heartbeat>(bytes, at, 5, payload);
            },
        }
    }

    proof fn lemma_wire_parse(bytes: Seq<u8>, at: int) {
        u32::lemma_wire_parse(bytes, at);
        if let Ok((tag, start)) = u32::parse(bytes, at) {
            MessageReceived::lemma_wire_parse(bytes, start);
            AcceptConnection::lemma_wire_parse(bytes, start);
            PathTarget::lemma_wire_parse(bytes, start);
            SpawnEntity::lemma_wire_parse(bytes, start);
            DespawnEntity::lemma_wire_parse(bytes, start);
            Heartbeat::lemma_wire_parse(bytes, start);
            if let Ok((value, next)) = Self::parse(bytes, at) {
                lemma_join_subrange(bytes, at, start, next);
            }
        }
    }

    fn write_to(&self, out: &mut Vec<u8>) -> (done: core::result::Result<(), WireError>) {
        let _ = self.kind().tag().write_to(out);
        let done = match self {
            ServerPacket::MessageReceived(payload) => payload.write_to(out),
            ServerPacket::AcceptConnection(payload) => payload.write_to(out),
            ServerPacket::PathTarget(payload) => payload.write_to(out),
            ServerPacket::SpawnEntity(payload) => payload.write_to(out),
            ServerPacket::DespawnEntity(payload) => payload.write_to(out),
            ServerPacket::Heartbeat(payload) => payload.write_to(out),
        };
        if done.is_ok() {
            assert(out@ =~= old(out)@ + Self::wire(self@));
        }
        done
    }

    fn read_from(bytes: &[u8], at: usize) -> (read: core::result::Result<(ServerPacket, usize), WireError>) {
        let (tag, start) = match u32::read_from(bytes, at) {
            Ok(read) => read,
            Err(error) => return Err(error),
        };
        if tag == 0 {
            match MessageReceived::read_from(bytes, start) {
                Ok((payload, next)) => Ok((ServerPacket::MessageReceived(payload), next)),
                Err(error) => Err(error),
            }
        } else if tag == 1 {
            match AcceptConnection::read_from(bytes, start) {
                Ok((payload, next)) => Ok((ServerPacket::AcceptConnection(payload), next)),
                Err(error) => Err(error),
            }
        } else if tag == 2 {
            match PathTarget::read_from(bytes, start) {
                Ok((payload, next)) => Ok((ServerPacket::PathTarget(payload), next)),
                Err(error) => Err(error),
            }
        } else if tag == 3 {
            match SpawnEntity::read_from(bytes, start) {
                Ok((payload, next)) => Ok((ServerPacket::SpawnEntity(payload), next)),
                Err(error) => Err(error),
            }
        } else if tag == 4 {
            match DespawnEntity::read_from(bytes, start) {
                Ok((payload, next)) => Ok((ServerPacket::DespawnEntity(payload), next)),
                Err(error) => Err(error),
            }
        } else if tag == 5 {
            match Heartbeat::read_from(bytes, start) {
                Ok((payload, next)) => Ok((ServerPacket::Heartbeat(payload), next)),
                Err(error) => Err(error),
            }
        } else {
            Err(WireError::InvalidVariant)
        }
    }
}

impl ServerPacket {
    /// The variant that the packet is.
    pub fn kind(&self) -> (kind: ServerPacketKind)
        ensures
            kind == self@.kind(),
    {
        match self {
            ServerPacket::MessageReceived(_) => ServerPacketKind::MessageReceived,
            ServerPacket::AcceptConnection(_) => ServerPacketKind::AcceptConnection,
            ServerPacket::PathTarget(_) => ServerPacketKind::PathTarget,
            ServerPacket::SpawnEntity(_) => ServerPacketKind::SpawnEntity,
            ServerPacket::DespawnEntity(_) => ServerPacketKind::DespawnEntity,
            ServerPacket::Heartbeat(_) => ServerPacketKind::Heartbeat,
        }
    }
}

impl From<MessageReceived> for ServerPacket {
    fn from(payload: MessageReceived) -> (packet: Self) {
        ServerPacket::MessageReceived(payload)
    }
}

impl vstd::std_specs::convert::FromSpecImpl<MessageReceived> for ServerPacket {
    open spec fn obeys_from_spec() -> bool {
        true
    }

    open spec fn from_spec(payload: MessageReceived) -> Self {
        ServerPacket::MessageReceived(payload)
    }
}

impl TryFrom<ServerPacket> for MessageReceived {
    type Error = WrongKind;

    fn try_from(packet: ServerPacket) -> (payload: core::result::Result<Self, WrongKind>) {
        match packet {
            ServerPacket::MessageReceived(payload) => Ok(payload),
            _ => Err(WrongKind),
        }
    }
}

impl vstd::std_specs::convert::TryFromSpecImpl<ServerPacket> for MessageReceived {
    open spec fn obeys_try_from_spec() -> bool {
        true
    }

    open spec fn try_from_spec(packet: ServerPacket) -> core::result::Result<Self, WrongKind> {
        match packet {
            ServerPacket::MessageReceived(payload) => Ok(payload),
            _ => Err(WrongKind),
        }
    }
}

impl From<AcceptConnection> for ServerPacket {
    fn from(payload: AcceptConnection) -> (packet: Self) {
        ServerPacket::AcceptConnection(payload)
    }
}

impl vstd::std_specs::convert::FromSpecImpl<AcceptConnection> for ServerPacket {
    open spec fn obeys_from_spec() -> bool {
        true
    }

    open spec fn from_spec(payload: AcceptConnection) -> Self {
        ServerPacket::AcceptConnection(payload)
    }
}

impl TryFrom<ServerPacket> for AcceptConnection {
    type Error = WrongKind;

    fn try_from(packet: ServerPacket) -> (payload: core::result::Result<Self, WrongKind>) {
        match packet {
            ServerPacket::AcceptConnection(payload) => Ok(payload),
            _ => Err(WrongKind),
        }
    }
}

impl vstd::std_specs::convert::TryFromSpecImpl<ServerPacket> for AcceptConnection {
    open spec fn obeys_try_from_spec() -> bool {
        true
    }

    open spec fn try_from_spec(packet: ServerPacket) -> core::result::Result<Self, WrongKind> {
        match packet {
            ServerPacket::AcceptConnection(payload) => Ok(payload),
            _ => Err(WrongKind),
        }
    }
}

impl From<PathTarget> for ServerPacket {
    fn from(payload: PathTarget) -> (packet: Self) {
        ServerPacket::PathTarget(payload)
    }
}

impl vstd::std_specs::convert::FromSpecImpl<PathTarget> for ServerPacket {
    open spec fn obeys_from_spec() -> bool {
        true
    }

    open spec fn from_spec(payload: PathTarget) -> Self {
        ServerPacket::PathTarget(payload)
    }
}

impl TryFrom<ServerPacket> for PathTarget {
    type Error = WrongKind;

    fn try_from(packet: ServerPacket) -> (payload: core::result::Result<Self, WrongKind>) {
        match packet {
            ServerPacket::PathTarget(payload) => Ok(payload),
            _ => Err(WrongKind),
        }
    }
}

impl vstd::std_specs::convert::TryFromSpecImpl<ServerPacket> for PathTarget {
    open spec fn obeys_try_from_spec() -> bool {
        true
    }

    open spec fn try_from_spec(packet: ServerPacket) -> core::result::Result<Self, WrongKind> {
        match packet {
            ServerPacket::PathTarget(payload) => Ok(payload),
            _ => Err(WrongKind),
        }
    }
}

impl From<SpawnEntity> for ServerPacket {
    fn from(payload: SpawnEntity) -> (packet: Self) {
        ServerPacket::SpawnEntity(payload)
    }
}

impl vstd::std_specs::convert::FromSpecImpl<SpawnEntity> for ServerPacket {
    open spec fn obeys_from_spec() -> bool {
        true
    }

    open spec fn from_spec(payload: SpawnEntity) -> Self {
        ServerPacket::SpawnEntity(payload)
    }
}

impl TryFrom<ServerPacket> for SpawnEntity {
    type Error = WrongKind;

    fn try_from(packet: ServerPacket) -> (payload: core::result::Result<Self, WrongKind>) {
        match packet {
            ServerPacket::SpawnEntity(payload) => Ok(payload),
            _ => Err(WrongKind),
        }
    }
}

impl vstd::std_specs::convert::TryFromSpecImpl<ServerPacket> for SpawnEntity {
    open spec fn obeys_try_from_spec() -> bool {
        true
    }

    open spec fn try_from_spec(packet: ServerPacket) -> core::result::Result<Self, WrongKind> {
        match packet {
            ServerPacket::SpawnEntity(payload) => Ok(payload),
            _ => Err(WrongKind),
        }
    }
}

impl From<DespawnEntity> for ServerPacket {
    fn from(payload: DespawnEntity) -> (packet: Self) {
        ServerPacket::DespawnEntity(payload)
    }
}

impl vstd::std_specs::convert::FromSpecImpl<DespawnEntity> for ServerPacket {
    open spec fn obeys_from_spec() -> bool {
        true
    }

    open spec fn from_spec(payload: DespawnEntity) -> Self {
        ServerPacket::DespawnEntity(payload)
    }
}

impl TryFrom<ServerPacket> for DespawnEntity {
    type Error = WrongKind;

    fn try_from(packet: ServerPacket) -> (payload: core::result::Result<Self, WrongKind>) {
        match packet {
            ServerPacket::DespawnEntity(payload) => Ok(payload),
            _ => Err(WrongKind),
        }
    }
}

impl vstd::std_specs::convert::TryFromSpecImpl<ServerPacket> for DespawnEntity {
    open spec fn obeys_try_from_spec() -> bool {
        true
    }

    open spec fn try_from_spec(packet: ServerPacket) -> core::result::Result<Self, WrongKind> {
        match packet {
            ServerPacket::DespawnEntity(payload) => Ok(payload),
            _ => Err(WrongKind),
        }
    }
}

impl From<Heartbeat> for ServerPacket {
    fn from(payload: Heartbeat) -> (packet: Self) {
        ServerPacket::Heartbeat(payload)
    }
}

impl vstd::std_specs::convert::FromSpecImpl<Heartbeat> for ServerPacket {
    open spec fn obeys_from_spec() -> bool {
        true
    }

    open spec fn from_spec(payload: Heartbeat) -> Self {
        ServerPacket::Heartbeat(payload)
    }
}

impl TryFrom<ServerPacket> for Heartbeat {
    type Error = WrongKind;

    fn try_from(packet: ServerPacket) -> (payload: core::result::Result<Self, WrongKind>) {
        match packet {
            ServerPacket::Heartbeat(payload) => Ok(payload),
            _ => Err(WrongKind),
        }
    }
}

impl vstd::std_specs::convert::TryFromSpecImpl<ServerPacket> for Heartbeat {
    open spec fn obeys_try_from_spec() -> bool {
        true
    }

    open spec fn try_from_spec(packet: ServerPacket) -> core::result::Result<Self, WrongKind> {
        match packet {
            ServerPacket::Heartbeat(payload) => Ok(payload),
            _ => Err(WrongKind),
        }
    }
}


impl Packet for ClientPacket {
    type Kind = ClientPacketKind;

    open spec fn spec_kinds() -> Seq<ClientPacketKind> {
        seq![
            ClientPacketKind::SendMessage,
            ClientPacketKind::QueryEntity,
            ClientPacketKind::PathTargetRequest,
            ClientPacketKind::Heartbeat,
        ]
    }

    fn kinds() -> (kinds: Vec<ClientPacketKind>) {
        let kinds = vec![
            ClientPacketKind::SendMessage,
            ClientPacketKind::QueryEntity,
            ClientPacketKind::PathTargetRequest,
            ClientPacketKind::Heartbeat,
        ];
        assert(kinds@ =~= Self::spec_kinds());
        kinds
    }

    proof fn lemma_kinds_complete(kind: ClientPacketKind) {
    }

    proof fn lemma_tag_names_kind(first: ClientPacketKind, second: ClientPacketKind) {
    }

    open spec fn spec_kind(value: ClientPacketView) -> ClientPacketKind {
        value.kind()
    }

    open spec fn spec_tag(kind: ClientPacketKind) -> u32 {
        kind.spec_tag()
    }

    open spec fn spec_heartbeat() -> ClientPacketView {
        ClientPacketView::Heartbeat(Heartbeat)
    }

    fn packet_kind(&self) -> (kind: ClientPacketKind) {
        self.kind()
    }

    fn tag(kind: ClientPacketKind) -> (tag: u32) {
        kind.tag()
    }

    proof fn lemma_wire_opens_with_tag(value: ClientPacketView) {
        let tag = u32_le(value.kind().spec_tag());
        assert(Self::wire(value).subrange(0, 4) =~= tag);
    }

    proof fn lemma_heartbeat() {
        assert(Self::wire(Self::spec_heartbeat()) =~= u32_le(3));
    }
}

impl Packet for ServerPacket {
    type Kind = ServerPacketKind;

    open spec fn spec_kinds() -> Seq<ServerPacketKind> {
        seq![
            ServerPacketKind::MessageReceived,
            ServerPacketKind::AcceptConnection,
            ServerPacketKind::PathTarget,
            ServerPacketKind::SpawnEntity,
            ServerPacketKind::DespawnEntity,
            ServerPacketKind::Heartbeat,
        ]
    }

    fn kinds() -> (kinds: Vec<ServerPacketKind>) {
        let kinds = vec![
            ServerPacketKind::MessageReceived,
            ServerPacketKind::AcceptConnection,
            ServerPacketKind::PathTarget,
            ServerPacketKind::SpawnEntity,
            ServerPacketKind::DespawnEntity,
            ServerPacketKind::Heartbeat,
        ];
        assert(kinds@ =~= Self::spec_kinds());
        kinds
    }

    proof fn lemma_kinds_complete(kind: ServerPacketKind) {
    }

    proof fn lemma_tag_names_kind(first: ServerPacketKind, second: ServerPacketKind) {
    }

    open spec fn spec_kind(value: ServerPacketView) -> ServerPacketKind {
        value.kind()
    }

    open spec fn spec_tag(kind: ServerPacketKind) -> u32 {
        kind.spec_tag()
    }

    open spec fn spec_heartbeat() -> ServerPacketView {
        ServerPacketView::Heartbeat(Heartbeat)
    }

    fn packet_kind(&self) -> (kind: ServerPacketKind) {
        self.kind()
    }

    fn tag(kind: ServerPacketKind) -> (tag: u32) {
        kind.tag()
    }

    proof fn lemma_wire_opens_with_tag(value: ServerPacketView) {
        let tag = u32_le(value.kind().spec_tag());
        assert(Self::wire(value).subrange(0, 4) =~= tag);
    }

    proof fn lemma_heartbeat() {
        assert(Self::wire(Self::spec_heartbeat()) =~= u32_le(5));
    }
}

/// A decoded packet of some union together with the connection that it
/// arrived on.
pub struct AnyPacketWithConnId<T> {
    pub connection_id: NetworkId,
    pub packet: T,
}

impl<T: Packet> AnyPacketWithConnId<T> {
    pub fn packet_kind(&self) -> (kind: T::Kind)
        ensures
            kind == T::spec_kind(self.packet@),
    {
        self.packet.packet_kind()
    }
}


/// The framed form of a packet body: its length in four bytes, least
/// significant first, and then the body.
pub open spec fn frame(body: Seq<u8>) -> Seq<u8> {
    u32_le(body.len() as u32) + body
}

/// Whether a packet can be framed: its texts fit their prefixes and its
/// encoding fits the frame's.
pub open spec fn encodable<P: Packet>(value: P::V) -> bool {
    P::fits(value) && P::wire(value).len() <= u32::MAX
}

/// `Arc::clone`: another handle to the same value.
#[verifier::external_body]
pub(crate) fn share<T>(value: &Arc<T>) -> (shared: Arc<T>)
    ensures
        shared == *value,
{
    Arc::clone(value)
}

/// A packet in the form in which it is written to a stream. The bytes are
/// built once and shared by every clone.
#[derive(Debug)]
pub struct EncodedPacket {
    bytes: Arc<Vec<u8>>,
}

impl View for EncodedPacket {
    type V = Seq<u8>;

    closed spec fn view(&self) -> Seq<u8> {
        self.bytes@
    }
}

impl Clone for EncodedPacket {
    fn clone(&self) -> (copy: Self)
        ensures
            copy@ == self@,
    {
        EncodedPacket { bytes: share(&self.bytes) }
    }
}

impl EncodedPacket {
    /// Wraps `packet` into the union `P` and frames its encoding. Fails, with
    /// `TooLong`, exactly when a length in the packet, or that of the whole
    /// encoding, does not fit 32 bits.
    pub fn try_encode<T, P>(packet: T) -> (encoded: Result<Self>) where P: Packet + From<T>
        requires
            <P as FromSpec<T>>::obeys_from_spec(),
        ensures
            encoded is Ok <==> encodable::<P>(<P as FromSpec<T>>::from_spec(packet)@),
            encoded matches Ok(framed) ==> framed@ == frame(
                P::wire(<P as FromSpec<T>>::from_spec(packet)@),
            ),
            encoded matches Err(error) ==> error == Error::Wire(WireError::TooLong),
    {
        let wrapped = P::from(packet);
        let mut body: Vec<u8> = Vec::new();
        match wrapped.write_to(&mut body) {
            Ok(()) => {},
            Err(_) => return Err(Error::Wire(WireError::TooLong)),
        }
        if body.len() > u32::MAX as usize {
            return Err(Error::Wire(WireError::TooLong));
        }
        let mut bytes: Vec<u8> = Vec::new();
        let _ = (body.len() as u32).write_to(&mut bytes);
        crate::network::wire::append_bytes(&mut bytes, body.as_slice());
        assert(body@ =~= P::wire(wrapped@));
        assert(bytes@ =~= frame(body@));
        Ok(EncodedPacket { bytes: Arc::new(bytes) })
    }

    /// The frame, as it goes onto the stream.
    pub fn bytes(&self) -> (bytes: &[u8])
        ensures
            bytes@ == self@,
    {
        self.bytes.as_slice()
    }
}

/// A payload that was wrapped into the union of the clients' packets comes
/// out of it as it went in.
pub proof fn lemma_client_payload_unwraps(
    message: SendMessage,
    query: QueryEntity,
    request: PathTargetRequest,
)
    ensures
        <SendMessage as vstd::std_specs::convert::TryFromSpec<ClientPacket>>::try_from_spec(
            <ClientPacket as FromSpec<SendMessage>>::from_spec(message),
        ) == Ok::<SendMessage, WrongKind>(message),
        <QueryEntity as vstd::std_specs::convert::TryFromSpec<ClientPacket>>::try_from_spec(
            <ClientPacket as FromSpec<QueryEntity>>::from_spec(query),
        ) == Ok::<QueryEntity, WrongKind>(query),
        <PathTargetRequest as vstd::std_specs::convert::TryFromSpec<ClientPacket>>::try_from_spec(
            <ClientPacket as FromSpec<PathTargetRequest>>::from_spec(request),
        ) == Ok::<PathTargetRequest, WrongKind>(request),
        <Heartbeat as vstd::std_specs::convert::TryFromSpec<ClientPacket>>::try_from_spec(
            <ClientPacket as FromSpec<Heartbeat>>::from_spec(Heartbeat),
        ) == Ok::<Heartbeat, WrongKind>(Heartbeat),
{
}

/// A payload that was wrapped into the union of the server's packets comes
/// out of it as it went in.
pub proof fn lemma_server_payload_unwraps(
    message: MessageReceived,
    accepted: AcceptConnection,
    target: PathTarget,
    spawned: SpawnEntity,
    despawned: DespawnEntity,
)
    ensures
        <MessageReceived as vstd::std_specs::convert::TryFromSpec<ServerPacket>>::try_from_spec(
            <ServerPacket as FromSpec<MessageReceived>>::from_spec(message),
        ) == Ok::<MessageReceived, WrongKind>(message),
        <AcceptConnection as vstd::std_specs::convert::TryFromSpec<ServerPacket>>::try_from_spec(
            <ServerPacket as FromSpec<AcceptConnection>>::from_spec(accepted),
        ) == Ok::<AcceptConnection, WrongKind>(accepted),
        <PathTarget as vstd::std_specs::convert::TryFromSpec<ServerPacket>>::try_from_spec(
            <ServerPacket as FromSpec<PathTarget>>::from_spec(target),
        ) == Ok::<PathTarget, WrongKind>(target),
        <SpawnEntity as vstd::std_specs::convert::TryFromSpec<ServerPacket>>::try_from_spec(
            <ServerPacket as FromSpec<SpawnEntity>>::from_spec(spawned),
        ) == Ok::<SpawnEntity, WrongKind>(spawned),
        <DespawnEntity as vstd::std_specs::convert::TryFromSpec<ServerPacket>>::try_from_spec(
            <ServerPacket as FromSpec<DespawnEntity>>::from_spec(despawned),
        ) == Ok::<DespawnEntity, WrongKind>(despawned),
        <Heartbeat as vstd::std_specs::convert::TryFromSpec<ServerPacket>>::try_from_spec(
            <ServerPacket as FromSpec<Heartbeat>>::from_spec(Heartbeat),
        ) == Ok::<Heartbeat, WrongKind>(Heartbeat),
{
}

/// Every packet that is written is read back: the bytes of a packet, whatever
/// follows them, parse to that packet.
pub proof fn lemma_packet_round_trip<P: Packet>(value: P::V, rest: Seq<u8>)
    requires
        P::fits(value),
    ensures
        P::parse(P::wire(value) + rest, 0) == Ok::<(P::V, int), WireError>(
            (value, P::wire(value).len() as int),
        ),
{
    let bytes = P::wire(value) + rest;
    assert(bytes.subrange(0, P::wire(value).len() as int) =~= P::wire(value));
    P::lemma_parse_wire(bytes, 0, value);
}


} // verus!
