use std::sync::Arc;

use animus_lib::ambit::packet::{QueryEntity, SpawnEntity};
use animus_lib::chat::entity::MessageKind;
use animus_lib::chat::packet::{MessageReceived, SendMessage};
use animus_lib::id::NetworkId;
use animus_lib::network::error::Error;
use animus_lib::network::mediator::{
    AnyPacketHandler, AnyPacketMediator, ClientDelivery, ClientPacketSender, NullSink,
    PacketSenderMap, PacketWithConnId, ServerDelivery, ServerPacketSender,
};
use animus_lib::network::packet::{
    AcceptConnection, AnyPacketWithConnId, ClientPacket, ClientPacketKind, EncodedPacket,
    Heartbeat, ServerPacket, ServerPacketKind,
};
use animus_lib::network::task::recv::{
    routed, ReceiveAction, ReceiveEvent, ReceivePacketsTask,
};
use animus_lib::path::packet::PathTargetRequest;

fn shout(contents: &str) -> SendMessage {
    SendMessage { kind: MessageKind::Shout, contents: contents.to_owned() }
}

fn with_id(packet: ClientPacket, connection_id: u64) -> AnyPacketWithConnId<ClientPacket> {
    AnyPacketWithConnId { connection_id: NetworkId(connection_id), packet }
}

struct ServerSide {
    map: PacketSenderMap<ClientPacket>,
    messages: crossbeam_channel::Receiver<PacketWithConnId<SendMessage>>,
    paths: crossbeam_channel::Receiver<PacketWithConnId<PathTargetRequest>>,
    queries: crossbeam_channel::Receiver<PacketWithConnId<QueryEntity>>,
}

fn server_side() -> ServerSide {
    let mut map = PacketSenderMap::<ClientPacket>::default();
    let (tx, messages) = crossbeam_channel::unbounded::<PacketWithConnId<SendMessage>>();
    map.add(tx);
    let (tx, paths) = crossbeam_channel::unbounded::<PacketWithConnId<PathTargetRequest>>();
    map.add(tx);
    let (tx, queries) = crossbeam_channel::unbounded::<PacketWithConnId<QueryEntity>>();
    map.add(tx);
    ServerSide { map, messages, paths, queries }
}

#[test]
fn a_packet_reaches_the_queue_of_its_kind_and_no_other() {
    let side = server_side();
    let mediator = AnyPacketMediator::new(Arc::new(side.map));

    mediator.send(with_id(ClientPacket::from(shout("hi")), 7)).unwrap();
    let received = side.messages.try_recv().unwrap();
    assert_eq!(received.packet, shout("hi"));
    assert_eq!(received.connection_id, NetworkId(7));
    assert!(side.messages.try_recv().is_err());
    assert!(side.paths.try_recv().is_err());
    assert!(side.queries.try_recv().is_err());

    mediator.send(with_id(ClientPacket::from(PathTargetRequest { x: 1, y: 2 }), 8)).unwrap();
    let received = side.paths.try_recv().unwrap();
    assert_eq!(received.packet, PathTargetRequest { x: 1, y: 2 });
    assert_eq!(received.connection_id, NetworkId(8));
    assert!(side.messages.try_recv().is_err());
    assert!(side.queries.try_recv().is_err());

    mediator.clone().send(with_id(ClientPacket::from(QueryEntity { id: NetworkId(3) }), 9)).unwrap();
    let received = side.queries.try_recv().unwrap();
    assert_eq!(received.packet, QueryEntity { id: NetworkId(3) });
    assert_eq!(received.connection_id, NetworkId(9));
    assert!(side.messages.try_recv().is_err());
    assert!(side.paths.try_recv().is_err());
}

#[test]
fn a_heartbeat_is_dropped() {
    let side = server_side();
    let mediator = AnyPacketMediator::new(Arc::new(side.map));
    assert_eq!(mediator.send(with_id(ClientPacket::from(Heartbeat), 1)), Ok(()));
    assert!(side.messages.try_recv().is_err());
    assert!(side.paths.try_recv().is_err());
    assert!(side.queries.try_recv().is_err());
}

#[test]
fn a_queue_without_reader_is_reported_as_closed() {
    let side = server_side();
    drop(side.messages);
    let mediator = AnyPacketMediator::new(Arc::new(side.map));
    assert_eq!(
        mediator.send(with_id(ClientPacket::from(shout("hi")), 1)),
        Err(Error::ChannelClosed)
    );
    assert_eq!(
        mediator.send(with_id(ClientPacket::from(QueryEntity { id: NetworkId(1) }), 1)),
        Ok(())
    );
}

#[test]
fn the_default_table_knows_the_heartbeat_alone() {
    let map = PacketSenderMap::<ClientPacket>::default();
    assert!(!map.is_complete());
    assert!(map.get(ClientPacketKind::Heartbeat).is_some());
    assert!(map.get(ClientPacketKind::SendMessage).is_none());
    assert!(PacketSenderMap::<ClientPacket>::new().get(ClientPacketKind::Heartbeat).is_none());

    let map = PacketSenderMap::<ServerPacket>::default();
    assert!(!map.is_complete());
    assert!(map.get(ServerPacketKind::Heartbeat).is_some());
    assert!(map.get(ServerPacketKind::PathTarget).is_none());
}

#[test]
fn a_table_is_complete_once_every_kind_has_a_handler() {
    let side = server_side();
    assert!(side.map.is_complete());
    for kind in [
        ClientPacketKind::SendMessage,
        ClientPacketKind::QueryEntity,
        ClientPacketKind::PathTargetRequest,
        ClientPacketKind::Heartbeat,
    ] {
        assert_eq!(side.map.get(kind).unwrap().kind(), kind);
    }

    let mut map = PacketSenderMap::<ServerPacket>::default();
    let (tx, _rx) = crossbeam_channel::unbounded::<MessageReceived>();
    map.add(tx);
    let (tx, _rx) = crossbeam_channel::unbounded::<AcceptConnection>();
    map.add(tx);
    let (tx, _rx) = crossbeam_channel::unbounded::<animus_lib::path::packet::PathTarget>();
    map.add(tx);
    let (tx, _rx) = crossbeam_channel::unbounded::<SpawnEntity>();
    map.add(tx);
    assert!(!map.is_complete());
    let (tx, _rx) = crossbeam_channel::unbounded::<animus_lib::ambit::packet::DespawnEntity>();
    map.add(tx);
    assert!(map.is_complete());
}

#[test]
fn a_handler_that_is_added_again_takes_the_place_of_the_first() {
    let mut map = PacketSenderMap::<ClientPacket>::default();
    let (first, first_rx) = crossbeam_channel::unbounded::<PacketWithConnId<SendMessage>>();
    let (second, second_rx) = crossbeam_channel::unbounded::<PacketWithConnId<SendMessage>>();
    map.add(first);
    map.add(second);
    let handler = map.get(ClientPacketKind::SendMessage).unwrap();
    handler.handle(with_id(ClientPacket::from(shout("hi")), 1)).unwrap();
    assert!(first_rx.try_recv().is_err());
    assert_eq!(second_rx.try_recv().unwrap().packet, shout("hi"));
}

#[test]
fn the_server_side_packets_are_handed_over_as_they_are() {
    let (tx, rx) = crossbeam_channel::unbounded::<SpawnEntity>();
    let handler = ServerPacketSender::from(tx);
    assert_eq!(handler.kind(), ServerPacketKind::SpawnEntity);
    handler
        .handle(AnyPacketWithConnId {
            connection_id: NetworkId(1),
            packet: ServerPacket::from(SpawnEntity { id: NetworkId(5) }),
        })
        .unwrap();
    assert_eq!(rx.try_recv(), Ok(SpawnEntity { id: NetworkId(5) }));

    let sink = ServerPacketSender::from(NullSink::<ServerPacket, Heartbeat>::default());
    assert_eq!(sink.kind(), ServerPacketKind::Heartbeat);
    assert_eq!(
        sink.handle(AnyPacketWithConnId {
            connection_id: NetworkId(1),
            packet: ServerPacket::from(Heartbeat),
        }),
        Ok(())
    );
    let sink = ClientPacketSender::from(NullSink::<ClientPacket, Heartbeat>::default());
    assert_eq!(sink.kind(), ClientPacketKind::Heartbeat);
}

#[test]
fn a_delivery_carries_the_payload_and_the_connection() {
    match with_id(ClientPacket::from(shout("hi")), 4).delivery() {
        ClientDelivery::SendMessage(message) => {
            assert_eq!(message.packet, shout("hi"));
            assert_eq!(message.connection_id, NetworkId(4));
        }
        _ => panic!("a message is delivered as a message"),
    }
    assert!(matches!(
        with_id(ClientPacket::from(Heartbeat), 4).delivery(),
        ClientDelivery::Nothing
    ));
    let packet = AnyPacketWithConnId {
        connection_id: NetworkId(2),
        packet: ServerPacket::from(AcceptConnection { connection_id: NetworkId(2) }),
    };
    assert_eq!(packet.packet_kind(), ServerPacketKind::AcceptConnection);
    assert!(matches!(
        packet.delivery(),
        ServerDelivery::AcceptConnection(AcceptConnection { connection_id: NetworkId(2) })
    ));
}

fn receive_task() -> (
    ReceivePacketsTask<(), ClientPacket>,
    crossbeam_channel::Receiver<PacketWithConnId<SendMessage>>,
) {
    let side = server_side();
    assert!(side.map.is_complete());
    let mediator = AnyPacketMediator::new(Arc::new(side.map));
    (ReceivePacketsTask::new((), mediator, 0), side.messages)
}

fn feed(task: &mut ReceivePacketsTask<(), ClientPacket>, frame: &[u8]) -> ReceiveAction {
    let action = task.step(ReceiveEvent::Header([frame[0], frame[1], frame[2], frame[3]]));
    match action {
        ReceiveAction::ReadBody(length) => {
            let (_, buffer) = task.parts_mut();
            assert_eq!(buffer.len(), length);
            buffer.copy_from_slice(&frame[4..4 + length]);
            task.step(ReceiveEvent::Body)
        }
        other => other,
    }
}

#[test]
fn recv_should_receive_packet() {
    let packet = shout("message");
    let (mut receive_packets_task, packets) = receive_task();
    let frame = EncodedPacket::try_encode::<SendMessage, ClientPacket>(packet.clone()).unwrap();

    assert_eq!(feed(&mut receive_packets_task, frame.bytes()), ReceiveAction::ReadHeader);

    let recv_packet = packets.try_recv().unwrap().packet;
    assert_eq!(packet, recv_packet);

    assert_eq!(receive_packets_task.step(ReceiveEvent::Shutdown), ReceiveAction::Stop);
    assert!(receive_packets_task.is_stopped());
}

#[test]
fn task_should_receive_packet() {
    let packet = shout("message");
    let (mut receive_packets_task, packets) = receive_task();
    let frame = EncodedPacket::try_encode::<SendMessage, ClientPacket>(packet.clone()).unwrap();

    assert_eq!(feed(&mut receive_packets_task, frame.bytes()), ReceiveAction::ReadHeader);
    assert_eq!(feed(&mut receive_packets_task, frame.bytes()), ReceiveAction::ReadHeader);

    let first = packets.try_recv().unwrap();
    assert_eq!(packet, first.packet);
    assert_eq!(first.connection_id, receive_packets_task.connection_id());
    assert_eq!(packet, packets.try_recv().unwrap().packet);

    assert_eq!(receive_packets_task.step(ReceiveEvent::Disconnect), ReceiveAction::Stop);
}

#[test]
fn the_receive_task_ends_on_what_it_cannot_take() {
    let (mut task, _packets) = receive_task();
    assert_eq!(task.step(ReceiveEvent::Header([0x89, 0x13, 0, 0])), ReceiveAction::Stop);
    assert_eq!(task.step(ReceiveEvent::Header([4, 0, 0, 0])), ReceiveAction::Stop);

    let (mut task, _packets) = receive_task();
    assert_eq!(feed(&mut task, &[4, 0, 0, 0, 9, 9, 9, 9]), ReceiveAction::Stop);
    assert!(task.is_stopped());

    let (mut task, _packets) = receive_task();
    assert_eq!(task.step(ReceiveEvent::Body), ReceiveAction::Stop);

    let (mut task, _packets) = receive_task();
    assert_eq!(task.step(ReceiveEvent::Header([4, 0, 0, 0])), ReceiveAction::ReadBody(4));
    assert_eq!(task.step(ReceiveEvent::Header([4, 0, 0, 0])), ReceiveAction::Stop);

    let (mut task, _packets) = receive_task();
    assert_eq!(task.step(ReceiveEvent::ReadFailed), ReceiveAction::Stop);
    assert_eq!(task.step(ReceiveEvent::Header([4, 0, 0, 0])), ReceiveAction::Stop);

    let (mut task, packets) = receive_task();
    drop(packets);
    let frame = EncodedPacket::try_encode::<SendMessage, ClientPacket>(shout("hi")).unwrap();
    assert_eq!(feed(&mut task, frame.bytes()), ReceiveAction::Stop);
}

#[test]
fn the_receive_task_goes_on_after_a_heartbeat() {
    let (mut task, packets) = receive_task();
    assert!(!task.is_stopped());
    assert_eq!(feed(&mut task, &[4, 0, 0, 0, 3, 0, 0, 0]), ReceiveAction::ReadHeader);
    assert!(packets.try_recv().is_err());
    assert_eq!(feed(&mut task, &[4, 0, 0, 0, 3, 0, 0, 0]), ReceiveAction::ReadHeader);
}

#[test]
fn a_message_of_a_client_reaches_the_servers_queue() {
    let (link_tx, link) = async_std::channel::unbounded::<EncodedPacket>();
    let client = animus_lib::network::plugin::Network::<animus_lib::network::plugin::Server>::new(
        link_tx,
    );
    client.send(shout("hi")).unwrap();
    let frame = link.try_recv().unwrap();

    let side = server_side();
    let mediator = AnyPacketMediator::new(Arc::new(side.map));
    let mut task = ReceivePacketsTask::<(), ClientPacket>::new((), mediator, 31);
    assert_eq!(feed(&mut task, frame.bytes()), ReceiveAction::ReadHeader);

    let received = side.messages.try_recv().unwrap();
    assert_eq!(received.packet, shout("hi"));
    assert_eq!(received.connection_id, NetworkId(31));
    assert!(side.messages.try_recv().is_err());
}

#[test]
fn a_consumer_finds_its_packets_on_its_own_queue() {
    let mut map = PacketSenderMap::<ClientPacket>::default();
    let messages = animus_lib::network::plugin::add_packet::<PacketWithConnId<SendMessage>, _>(
        &mut map,
    );
    let paths = animus_lib::network::plugin::add_packet::<PacketWithConnId<PathTargetRequest>, _>(
        &mut map,
    );
    assert!(!map.is_complete());
    let queries =
        animus_lib::network::plugin::add_packet::<PacketWithConnId<QueryEntity>, _>(&mut map);
    assert!(map.is_complete());
    let mediator = AnyPacketMediator::new(Arc::new(map));
    assert!(mediator.is_complete());
    assert!(mediator.handles(ClientPacketKind::QueryEntity));

    mediator.send(with_id(ClientPacket::from(shout("one")), 1)).unwrap();
    mediator.send(with_id(ClientPacket::from(QueryEntity { id: NetworkId(4) }), 2)).unwrap();
    mediator.send(with_id(ClientPacket::from(shout("two")), 3)).unwrap();

    let pending = messages.drain();
    assert_eq!(pending.len(), 2);
    assert_eq!(pending[0].packet, shout("one"));
    assert_eq!(pending[0].connection_id, NetworkId(1));
    assert_eq!(pending[1].packet, shout("two"));
    assert_eq!(pending[1].connection_id, NetworkId(3));
    assert_eq!(messages.drain().len(), 0);
    assert_eq!(paths.drain().len(), 0);
    let pending = queries.drain();
    assert_eq!(pending.len(), 1);
    assert_eq!(pending[0].packet, QueryEntity { id: NetworkId(4) });
}

#[test]
fn routing_finds_the_handler_and_makes_the_delivery() {
    let side = server_side();
    let mediator = AnyPacketMediator::new(Arc::new(side.map));
    let (handler, delivery) = mediator.route(with_id(ClientPacket::from(shout("hi")), 5));
    assert_eq!(handler.kind(), ClientPacketKind::SendMessage);
    match &delivery {
        ClientDelivery::SendMessage(message) => {
            assert_eq!(message.packet, shout("hi"));
            assert_eq!(message.connection_id, NetworkId(5));
        }
        _ => panic!("a message is delivered as a message"),
    }
    assert_eq!(handler.hand_over(delivery), Ok(()));
    let received = side.messages.try_recv().unwrap();
    assert_eq!(received.packet, shout("hi"));
    assert_eq!(received.connection_id, NetworkId(5));

    let (handler, delivery) = mediator.route(with_id(ClientPacket::from(Heartbeat), 5));
    assert_eq!(handler.kind(), ClientPacketKind::Heartbeat);
    assert!(matches!(delivery, ClientDelivery::Nothing));
    assert_eq!(handler.hand_over(delivery), Ok(()));

    let delivery = <ClientPacketSender as AnyPacketHandler<ClientPacket>>::delivery(with_id(
        ClientPacket::from(QueryEntity { id: NetworkId(2) }),
        9,
    ));
    assert!(matches!(
        delivery,
        ClientDelivery::QueryEntity(PacketWithConnId {
            packet: QueryEntity { id: NetworkId(2) },
            connection_id: NetworkId(9),
        })
    ));
}

#[test]
fn what_arrived_carries_the_id_of_the_tasks_connection() {
    let (mut task, _packets) = receive_task();
    let frame = EncodedPacket::try_encode::<SendMessage, ClientPacket>(shout("a")).unwrap();
    let bytes = frame.bytes();
    let action = task.step(ReceiveEvent::Header([bytes[0], bytes[1], bytes[2], bytes[3]]));
    assert_eq!(action, ReceiveAction::ReadBody(bytes.len() - 4));
    assert!(matches!(
        task.arrived(),
        Err(Error::Io(animus_lib::network::error::IoErrorKind::UnexpectedEof))
    ));
    {
        let (_, buffer) = task.parts_mut();
        buffer.copy_from_slice(&bytes[4..]);
    }
    assert_eq!(task.step(ReceiveEvent::Body), ReceiveAction::ReadHeader);
    let arrived = task.arrived().unwrap();
    assert_eq!(arrived.connection_id, NetworkId(0));
    assert_eq!(arrived.packet, ClientPacket::from(shout("a")));

    assert_eq!(routed(Ok(())), ReceiveAction::ReadHeader);
    assert_eq!(routed(Err(Error::ChannelClosed)), ReceiveAction::Stop);
}

#[test]
fn two_frames_are_routed_in_order_under_the_tasks_id() {
    let side = server_side();
    let mediator = AnyPacketMediator::new(Arc::new(side.map));
    let mut task = ReceivePacketsTask::<(), ClientPacket>::new((), mediator, 7);
    for contents in ["a", "b"] {
        let frame =
            EncodedPacket::try_encode::<SendMessage, ClientPacket>(shout(contents)).unwrap();
        assert_eq!(feed(&mut task, frame.bytes()), ReceiveAction::ReadHeader);
    }
    let first = side.messages.try_recv().unwrap();
    let second = side.messages.try_recv().unwrap();
    assert_eq!((first.packet, first.connection_id), (shout("a"), NetworkId(7)));
    assert_eq!((second.packet, second.connection_id), (shout("b"), NetworkId(7)));
    assert!(side.messages.try_recv().is_err());
    assert!(!task.is_stopped());
}
