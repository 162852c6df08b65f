use animus_lib::ambit::packet::SpawnEntity;
use animus_lib::ambit::plugin::{
    collision_kind, notify_visibility_change_to_clients, raise_events_on_collisions,
    VisibilityCollision, VisibilityCollisionKind, VisibilityNotice,
};
use animus_lib::ambit::packet::DespawnEntity;
use animus_lib::chat::entity::{Chat, ChatInput, Message, MessageKind};
use animus_lib::chat::packet::{MessageReceived, SendMessage};
use animus_lib::chat::system::{
    add_messages_to_chats, broadcast_shouts_to_all_clients, send_message, shout,
};
use animus_lib::ambit::packet::QueryEntity;
use animus_lib::id::{Entity, NetworkId, NetworkToWorld};
use animus_lib::network::error::Error;
use animus_lib::network::mediator::{NetworkEvent, PacketWithConnId};
use animus_lib::network::packet::{ClientPacket, EncodedPacket, ServerPacket};
use animus_lib::network::plugin::{
    connect_to_server, despawn_disconnections, raise_query_entity_events, Client, EntityQuery,
    Network, NewConnection, Server,
};
use animus_lib::network::server::{greeting, NetworkServer};
use animus_lib::network::socket::read_frame;
use animus_lib::network::wire::Wire;
use animus_lib::path::plugin::{MaybeNextPosition, NextPosition, Position};

fn decoded_server(frame: &EncodedPacket) -> ServerPacket {
    let (packet, taken) = read_frame::<ServerPacket>(frame.bytes()).unwrap();
    assert_eq!(taken, frame.bytes().len());
    packet
}

fn too_long() -> String {
    "a".repeat(70_000)
}

#[test]
fn a_new_client_is_told_its_id_and_registered() {
    let (_events_tx, events) = crossbeam_channel::unbounded::<NetworkEvent>();
    let mut server = NetworkServer::new(events);
    assert_eq!(server.clients(), vec![]);
    let (tx, mut rx) = tokio::sync::mpsc::unbounded_channel::<EncodedPacket>();
    assert_eq!(server.welcome(5, tx), Ok(()));
    assert_eq!(server.clients(), vec![5]);
    assert!(server.is_connected(5));
    assert!(!server.is_connected(6));
    let packet = decoded_server(&rx.try_recv().unwrap());
    assert_eq!(
        animus_lib::network::packet::AcceptConnection::try_from(packet),
        Ok(animus_lib::network::packet::AcceptConnection { connection_id: NetworkId(5) })
    );

    let (tx, rx) = tokio::sync::mpsc::unbounded_channel::<EncodedPacket>();
    drop(rx);
    assert_eq!(server.welcome(6, tx), Err(Error::ChannelClosed));
    assert_eq!(server.clients(), vec![5]);
}

#[test]
fn a_packet_is_sent_to_the_client_that_is_named() {
    let (_events_tx, events) = crossbeam_channel::unbounded::<NetworkEvent>();
    let mut server = NetworkServer::new(events);
    let (tx, mut first) = tokio::sync::mpsc::unbounded_channel::<EncodedPacket>();
    server.welcome(1, tx).unwrap();
    let (tx, mut second) = tokio::sync::mpsc::unbounded_channel::<EncodedPacket>();
    server.welcome(2, tx).unwrap();
    let _ = first.try_recv().unwrap();
    let _ = second.try_recv().unwrap();

    assert_eq!(server.send(SpawnEntity { id: NetworkId(9) }, 2), Ok(()));
    assert!(first.try_recv().is_err());
    let packet = decoded_server(&second.try_recv().unwrap());
    assert_eq!(SpawnEntity::try_from(packet), Ok(SpawnEntity { id: NetworkId(9) }));

    assert_eq!(server.send(SpawnEntity { id: NetworkId(9) }, 3), Err(Error::UnknownClient(3)));
    drop(first);
    assert_eq!(server.send(SpawnEntity { id: NetworkId(9) }, 1), Err(Error::ChannelClosed));
}

#[test]
fn a_broadcast_reaches_the_named_clients_that_are_connected() {
    let (_events_tx, events) = crossbeam_channel::unbounded::<NetworkEvent>();
    let mut server = NetworkServer::new(events);
    let mut queues = Vec::new();
    for id in 1..=3u64 {
        let (tx, mut rx) = tokio::sync::mpsc::unbounded_channel::<EncodedPacket>();
        server.welcome(id, tx).unwrap();
        let _ = rx.try_recv().unwrap();
        queues.push(rx);
    }
    assert_eq!(server.broadcast(DespawnEntity { id: NetworkId(4) }, &[3, 8, 1]), Ok(()));
    let packet = decoded_server(&queues[0].try_recv().unwrap());
    assert_eq!(DespawnEntity::try_from(packet), Ok(DespawnEntity { id: NetworkId(4) }));
    assert!(queues[1].try_recv().is_err());
    let packet = decoded_server(&queues[2].try_recv().unwrap());
    assert_eq!(DespawnEntity::try_from(packet), Ok(DespawnEntity { id: NetworkId(4) }));
    assert_eq!(server.broadcast(DespawnEntity { id: NetworkId(4) }, &[]), Ok(()));
}

#[test]
fn disconnected_clients_leave_the_register() {
    let (events_tx, events) = crossbeam_channel::unbounded::<NetworkEvent>();
    let mut server = NetworkServer::new(events);
    let mut queues = Vec::new();
    for id in [4u64, 2, 9, 7] {
        let (tx, rx) = tokio::sync::mpsc::unbounded_channel::<EncodedPacket>();
        server.welcome(id, tx).unwrap();
        queues.push(rx);
    }
    assert_eq!(server.clients(), vec![4, 2, 9, 7]);
    server.handle_disconnections();
    assert_eq!(server.clients(), vec![4, 2, 9, 7]);
    events_tx.send(NetworkEvent::Disconnected { connection_id: NetworkId(2) }).unwrap();
    events_tx.send(NetworkEvent::Disconnected { connection_id: NetworkId(5) }).unwrap();
    events_tx.send(NetworkEvent::Disconnected { connection_id: NetworkId(7) }).unwrap();
    server.handle_disconnections();
    assert_eq!(server.clients(), vec![4, 9]);
    assert_eq!(server.send(SpawnEntity { id: NetworkId(1) }, 2), Err(Error::UnknownClient(2)));
    server.handle_event(NetworkEvent::Disconnected { connection_id: NetworkId(4) });
    assert_eq!(server.clients(), vec![9]);
    server.forget(9);
    server.forget(9);
    assert_eq!(server.clients(), vec![]);
    assert!(server.events().is_empty());
}

#[test]
fn a_client_that_connects_again_goes_to_the_back() {
    let (_events_tx, events) = crossbeam_channel::unbounded::<NetworkEvent>();
    let mut server = NetworkServer::new(events);
    let (tx, _first) = tokio::sync::mpsc::unbounded_channel::<EncodedPacket>();
    server.welcome(1, tx).unwrap();
    let (tx, _second) = tokio::sync::mpsc::unbounded_channel::<EncodedPacket>();
    server.welcome(2, tx).unwrap();
    let (tx, mut again) = tokio::sync::mpsc::unbounded_channel::<EncodedPacket>();
    server.welcome(1, tx).unwrap();
    assert_eq!(server.clients(), vec![2, 1]);
    let _ = again.try_recv().unwrap();
    server.send(SpawnEntity { id: NetworkId(3) }, 1).unwrap();
    assert!(again.try_recv().is_ok());
}

#[test]
fn a_packet_that_cannot_be_framed_is_refused_before_it_is_queued() {
    let (tx, rx) = async_std::channel::unbounded::<EncodedPacket>();
    let network = Network::<Server>::new(tx);
    assert_eq!(network.send(shout("hi".to_owned())), Ok(()));
    let frame = rx.try_recv().unwrap();
    let (packet, _) = read_frame::<ClientPacket>(frame.bytes()).unwrap();
    assert_eq!(SendMessage::try_from(packet), Ok(shout("hi".to_owned())));
    // A text of 70 000 bytes is framed: only the reader refuses it.
    assert_eq!(network.send(shout(too_long())), Ok(()));
    assert_eq!(rx.try_recv().unwrap().bytes().len(), 70_000 + 16);
    drop(rx);
    assert_eq!(network.send(shout("hi".to_owned())), Err(Error::ChannelClosed));
}

#[test]
fn send_all_queues_one_frame_for_each_target() {
    let (tx, first) = async_std::channel::unbounded::<EncodedPacket>();
    let one = Network::<Client>::new(tx);
    let (tx, second) = async_std::channel::unbounded::<EncodedPacket>();
    let two = Network::<Client>::new(tx);
    let (tx, gone) = async_std::channel::unbounded::<EncodedPacket>();
    let three = Network::<Client>::new(tx);
    drop(gone);
    assert_eq!(
        Network::<Client>::send_all(&[&one, &three, &two], SpawnEntity { id: NetworkId(2) }),
        Ok(())
    );
    for queue in [first, second] {
        let frame = queue.try_recv().unwrap();
        assert_eq!(frame.bytes(), &[12, 0, 0, 0, 3, 0, 0, 0, 2, 0, 0, 0, 0, 0, 0, 0][..]);
        assert!(queue.try_recv().is_err());
    }
    assert_eq!(Network::<Client>::send_all(&[], SpawnEntity { id: NetworkId(2) }), Ok(()));
}

#[test]
fn the_input_line_is_sent_as_a_shout_and_cleared() {
    let (tx, rx) = async_std::channel::unbounded::<EncodedPacket>();
    let network = Network::<Server>::new(tx);
    let mut line = ChatInput { input: "message from 1".to_owned() };
    send_message(&mut line, &network);
    assert_eq!(line.input, "");
    let (packet, _) = read_frame::<ClientPacket>(rx.try_recv().unwrap().bytes()).unwrap();
    assert_eq!(
        SendMessage::try_from(packet),
        Ok(SendMessage { kind: MessageKind::Shout, contents: "message from 1".to_owned() })
    );
    drop(rx);
    let mut line = ChatInput { input: "lost".to_owned() };
    send_message(&mut line, &network);
    assert_eq!(line.input, "");
    assert_eq!(ChatInput::default().input, "");
}

#[test]
fn shouts_go_to_every_client_under_the_senders_id() {
    let (_events_tx, events) = crossbeam_channel::unbounded::<NetworkEvent>();
    let mut server = NetworkServer::new(events);
    let (tx, mut first) = tokio::sync::mpsc::unbounded_channel::<EncodedPacket>();
    server.welcome(1, tx).unwrap();
    let (tx, mut second) = tokio::sync::mpsc::unbounded_channel::<EncodedPacket>();
    server.welcome(2, tx).unwrap();
    let _ = first.try_recv().unwrap();
    let _ = second.try_recv().unwrap();

    let (sent_tx, sent) = crossbeam_channel::unbounded::<PacketWithConnId<SendMessage>>();
    sent_tx
        .send(PacketWithConnId { packet: shout("hello".to_owned()), connection_id: NetworkId(1) })
        .unwrap();
    broadcast_shouts_to_all_clients(&sent, &server);
    assert!(sent.is_empty());

    let (log_tx, log) = crossbeam_channel::unbounded::<MessageReceived>();
    for queue in [&mut first, &mut second] {
        let packet = decoded_server(&queue.try_recv().unwrap());
        let received = MessageReceived::try_from(packet).unwrap();
        assert_eq!(
            received,
            MessageReceived {
                sender: NetworkId(1),
                kind: MessageKind::Shout,
                contents: "hello".to_owned(),
            }
        );
        log_tx.send(received).unwrap();
    }

    let mut chat = Chat::default();
    add_messages_to_chats(&log, &mut chat);
    assert_eq!(chat.messages.len(), 2);
    assert_eq!(chat.messages[0].sender(), NetworkId(1));
    assert_eq!(chat.messages[0].contents(), "hello");
    assert_eq!(chat.messages[0].kind(), MessageKind::Shout);
    add_messages_to_chats(&log, &mut chat);
    assert_eq!(chat.messages.len(), 2);
    chat.push(MessageReceived {
        sender: NetworkId(2),
        kind: MessageKind::Shout,
        contents: "bye".to_owned(),
    });
    assert_eq!(chat.messages.len(), 3);
    assert_eq!(
        chat.messages[2],
        Message::from(MessageReceived {
            sender: NetworkId(2),
            kind: MessageKind::Shout,
            contents: "bye".to_owned(),
        })
    );
}

#[test]
fn a_client_asks_for_a_connection_once() {
    let mut requested = false;
    assert!(connect_to_server(false, &mut requested));
    assert!(requested);
    assert!(!connect_to_server(false, &mut requested));
    assert!(requested);
    assert!(!connect_to_server(true, &mut requested));
    assert!(!requested);
    assert!(connect_to_server(false, &mut requested));
}

#[test]
fn the_world_forgets_the_entities_of_lost_connections() {
    let mut world = NetworkToWorld::<Server>::default();
    assert_eq!(world.insert(NetworkId(1), Entity::from_raw(10)), None);
    assert_eq!(world.insert(NetworkId(2), Entity::from_raw(20)), None);
    assert_eq!(world.insert(NetworkId(3), Entity::from_raw(30)), None);
    assert_eq!(world.insert(NetworkId(3), Entity::from_raw(31)), Some(Entity::from_raw(30)));
    assert_eq!(world.get(&NetworkId(3)), Some(Entity::from_raw(31)));
    assert_eq!(world.get(&NetworkId(4)), None);

    let entities =
        despawn_disconnections(&[NetworkId(3), NetworkId(9), NetworkId(1), NetworkId(3)], &mut world);
    assert_eq!(entities, vec![Entity::from_raw(31), Entity::from_raw(10)]);
    assert_eq!(world.get(&NetworkId(1)), None);
    assert_eq!(world.get(&NetworkId(2)), Some(Entity::from_raw(20)));
    assert_eq!(world.remove(&NetworkId(2)), Some(Entity::from_raw(20)));
    assert_eq!(world.remove(&NetworkId(2)), None);
    assert_eq!(NetworkToWorld::<Client>::new().get(&NetworkId(2)), None);
}

#[test]
fn queries_between_known_entities_are_raised() {
    let mut world = NetworkToWorld::<Server>::new();
    world.insert(NetworkId(1), Entity::from_raw(10));
    world.insert(NetworkId(2), Entity::from_raw(20));
    let query = |from: u64, about: u64| PacketWithConnId {
        packet: QueryEntity { id: NetworkId(about) },
        connection_id: NetworkId(from),
    };
    let events =
        raise_query_entity_events(&[query(1, 2), query(3, 1), query(2, 3), query(2, 2)], &world);
    assert_eq!(
        events,
        vec![
            EntityQuery { entity: Entity::from_raw(10), querier: Entity::from_raw(20) },
            EntityQuery { entity: Entity::from_raw(20), querier: Entity::from_raw(20) },
        ]
    );
    assert_eq!(NewConnection { id: NetworkId(1) }.id, NetworkId::from(1));
    assert_eq!(NetworkId(8).value(), 8);
}

fn at(x: i32, y: i32) -> Position {
    Position { x, y }
}

fn stepping_to(x: i32, y: i32) -> Option<MaybeNextPosition> {
    Some(MaybeNextPosition { next_position: Some(NextPosition::new(at(x, y), 1, 0)) })
}

#[test]
fn sight_changes_at_the_two_distances() {
    let still = Some(MaybeNextPosition { next_position: None });
    assert_eq!(collision_kind(at(0, 0), stepping_to(1, 0), at(12, 0)), None);
    assert_eq!(
        collision_kind(at(0, 0), stepping_to(-1, 0), at(11, 0)),
        Some(VisibilityCollisionKind::Leave)
    );
    assert_eq!(collision_kind(at(0, 0), stepping_to(1, 0), at(11, 0)), None);
    assert_eq!(
        collision_kind(at(0, 0), stepping_to(1, 0), at(10, 0)),
        Some(VisibilityCollisionKind::Enter)
    );
    assert_eq!(collision_kind(at(0, 0), stepping_to(1, 0), at(9, 0)), None);
    assert_eq!(collision_kind(at(0, 0), still, at(10, 0)), Some(VisibilityCollisionKind::Enter));
    assert_eq!(collision_kind(at(0, 0), None, at(5, 5)), Some(VisibilityCollisionKind::Enter));
    assert_eq!(collision_kind(at(0, 0), None, at(5, 4)), None);
    assert_eq!(collision_kind(at(0, 0), stepping_to(0, 1), at(20, 0)), None);
}

#[test]
fn a_mover_meets_the_others_but_not_itself() {
    let others = [
        (at(10, 0), NetworkId(1)),
        (at(0, 0), NetworkId(7)),
        (at(3, 0), NetworkId(2)),
        (at(-11, 0), NetworkId(3)),
        (at(10, 0), NetworkId(7)),
    ];
    let collisions = raise_events_on_collisions(NetworkId(7), at(0, 0), stepping_to(1, 0), &others);
    assert_eq!(
        collisions,
        vec![
            VisibilityCollision {
                ids: [NetworkId(7), NetworkId(1)],
                kind: VisibilityCollisionKind::Enter,
            },
            VisibilityCollision {
                ids: [NetworkId(7), NetworkId(3)],
                kind: VisibilityCollisionKind::Leave,
            },
        ]
    );
    assert_eq!(raise_events_on_collisions(NetworkId(7), at(0, 0), None, &[]), vec![]);
}

#[test]
fn a_client_is_told_who_came_and_who_went() {
    assert_eq!(
        notify_visibility_change_to_clients(NetworkId(1), NetworkId(2), VisibilityCollisionKind::Enter),
        Some(VisibilityNotice::Spawn(SpawnEntity { id: NetworkId(2) }))
    );
    assert_eq!(
        notify_visibility_change_to_clients(NetworkId(2), NetworkId(1), VisibilityCollisionKind::Leave),
        Some(VisibilityNotice::Despawn(DespawnEntity { id: NetworkId(1) }))
    );
    assert_eq!(
        notify_visibility_change_to_clients(NetworkId(2), NetworkId(2), VisibilityCollisionKind::Enter),
        None
    );
}

#[test]
fn a_payload_is_encoded_alone_as_inside_a_packet() {
    let mut alone = Vec::new();
    SpawnEntity { id: NetworkId(5) }.write_to(&mut alone).unwrap();
    let mut inside = Vec::new();
    ServerPacket::from(SpawnEntity { id: NetworkId(5) }).write_to(&mut inside).unwrap();
    assert_eq!(&inside[4..], &alone[..]);
    assert_eq!(SpawnEntity::read_from(&alone, 0), Ok((SpawnEntity { id: NetworkId(5) }, 8)));
}

#[test]
fn a_broadcast_goes_to_the_connected_among_the_named() {
    let (_events_tx, events) = crossbeam_channel::unbounded::<NetworkEvent>();
    let mut server = NetworkServer::new(events);
    let mut queues = Vec::new();
    for id in [1u64, 2, 3] {
        let (tx, mut rx) = tokio::sync::mpsc::unbounded_channel::<EncodedPacket>();
        server.welcome(id, tx).unwrap();
        let _ = rx.try_recv().unwrap();
        queues.push(rx);
    }
    assert_eq!(server.recipients(&[3, 8, 1, 3, 9]), vec![3, 1, 3]);
    assert_eq!(server.recipients(&[]), vec![]);
    assert_eq!(server.recipients(&[7]), vec![]);

    drop(queues.remove(1));
    let packet = greeting(4);
    assert_eq!(
        server.send_to_each(&[1, 2, 3, 1], &packet),
        vec![Ok(()), Err(Error::ChannelClosed), Ok(()), Ok(())]
    );
    assert_eq!(queues[0].try_recv().unwrap().bytes(), packet.bytes());
    assert_eq!(queues[0].try_recv().unwrap().bytes(), packet.bytes());
    assert!(queues[0].try_recv().is_err());
    assert_eq!(queues[1].try_recv().unwrap().bytes(), packet.bytes());
    assert!(queues[1].try_recv().is_err());

    // An unknown id in the middle does not end the round.
    assert_eq!(server.broadcast(SpawnEntity { id: NetworkId(5) }, &[1, 8, 3]), Ok(()));
    assert!(queues[0].try_recv().is_ok());
    assert!(queues[1].try_recv().is_ok());
}

#[test]
fn the_greeting_names_the_connection() {
    assert_eq!(
        greeting(258).bytes(),
        &[12, 0, 0, 0, 1, 0, 0, 0, 2, 1, 0, 0, 0, 0, 0, 0][..]
    );
}

#[test]
fn a_connection_is_registered_when_its_greeting_was_taken() {
    let (_events_tx, events) = crossbeam_channel::unbounded::<NetworkEvent>();
    let mut server = NetworkServer::new(events);
    let (tx, mut first) = tokio::sync::mpsc::unbounded_channel::<EncodedPacket>();
    assert_eq!(server.register(1, tx, Err(Error::ChannelClosed)), Err(Error::ChannelClosed));
    assert_eq!(server.clients(), vec![]);
    let (tx, mut second) = tokio::sync::mpsc::unbounded_channel::<EncodedPacket>();
    assert_eq!(server.register(1, tx, Ok(())), Ok(()));
    assert_eq!(server.clients(), vec![1]);
    server.send(SpawnEntity { id: NetworkId(3) }, 1).unwrap();
    assert!(first.try_recv().is_err());
    assert!(second.try_recv().is_ok());
}

#[test]
fn each_target_of_a_link_gives_its_answer() {
    let (tx, first) = async_std::channel::unbounded::<EncodedPacket>();
    let one = Network::<Client>::new(tx);
    let (tx, gone) = async_std::channel::unbounded::<EncodedPacket>();
    let two = Network::<Client>::new(tx);
    drop(gone);
    let packet = greeting(1);
    assert_eq!(one.send_encoded(packet.clone()), Ok(()));
    assert_eq!(two.send_encoded(packet.clone()), Err(Error::ChannelClosed));
    assert_eq!(
        Network::<Client>::send_to_each(&[&two, &one, &one], &packet),
        vec![Err(Error::ChannelClosed), Ok(()), Ok(())]
    );
    for _ in 0..3 {
        assert_eq!(first.try_recv().unwrap().bytes(), packet.bytes());
    }
    assert!(first.try_recv().is_err());
}
