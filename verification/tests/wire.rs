use animus_lib::ambit::packet::{DespawnEntity, QueryEntity, SpawnEntity};
use animus_lib::chat::entity::MessageKind;
use animus_lib::chat::packet::{MessageReceived, SendMessage};
use animus_lib::id::NetworkId;
use animus_lib::network::error::{Error, IoErrorKind, WireError};
use animus_lib::network::packet::{
    AcceptConnection, ClientPacket, ClientPacketKind, EncodedPacket, Heartbeat, Packet,
    ServerPacket, ServerPacketKind, WrongKind,
};
use animus_lib::network::socket::{read_frame, Socket, MAX_PACKET_LENGTH};
use animus_lib::network::wire::{append_bytes, Wire};
use animus_lib::path::packet::{PathTarget, PathTargetRequest};
use animus_lib::time::packet::TickSync;

fn encoded<T: Wire>(value: &T) -> Vec<u8> {
    let mut out = Vec::new();
    value.write_to(&mut out).unwrap();
    out
}

fn as_speedy_writes<T: speedy::Writable<speedy::LittleEndian>>(value: &T) -> Vec<u8> {
    speedy::Writable::write_to_vec(value).unwrap()
}

fn shout(contents: &str) -> SendMessage {
    SendMessage { kind: MessageKind::Shout, contents: contents.to_owned() }
}

#[test]
fn back_and_forth() {
    let packet = shout("message");
    let any_packet = ClientPacket::from(packet.clone());

    let encoded_packet = encoded(&any_packet);

    let (decoded_any_packet, _) = ClientPacket::read_from(&encoded_packet, 0).unwrap();
    let decoded_packet = SendMessage::try_from(decoded_any_packet).unwrap();

    assert_eq!(decoded_packet, packet);
}

#[test]
fn integers_are_written_least_significant_byte_first() {
    assert_eq!(encoded(&0x0403_0201u32), vec![1, 2, 3, 4]);
    assert_eq!(encoded(&u32::MAX), vec![255, 255, 255, 255]);
    assert_eq!(encoded(&0x0807_0605_0403_0201u64), vec![1, 2, 3, 4, 5, 6, 7, 8]);
    assert_eq!(encoded(&-2i32), vec![254, 255, 255, 255]);
    assert_eq!(encoded(&i32::MIN), vec![0, 0, 0, 128]);
    assert_eq!(encoded(&NetworkId(258)), vec![2, 1, 0, 0, 0, 0, 0, 0]);
}

#[test]
fn integers_are_read_back() {
    assert_eq!(u32::read_from(&[9, 1, 2, 3, 4], 1), Ok((0x0403_0201, 5)));
    assert_eq!(u64::read_from(&[1, 2, 3, 4, 5, 6, 7, 8], 0), Ok((0x0807_0605_0403_0201, 8)));
    assert_eq!(i32::read_from(&[254, 255, 255, 255], 0), Ok((-2, 4)));
    assert_eq!(i32::read_from(&[0, 0, 0, 128], 0), Ok((i32::MIN, 4)));
    assert_eq!(i32::read_from(&[255, 255, 255, 127], 0), Ok((i32::MAX, 4)));
    assert_eq!(u32::read_from(&[1, 2, 3], 0), Err(WireError::UnexpectedEnd));
    assert_eq!(u64::read_from(&[1, 2, 3, 4, 5, 6, 7], 0), Err(WireError::UnexpectedEnd));
    assert_eq!(u32::read_from(&[1, 2, 3, 4], 4), Err(WireError::UnexpectedEnd));
}

#[test]
fn a_text_is_its_length_and_its_bytes() {
    assert_eq!(encoded(&"hi".to_owned()), vec![2, 0, 0, 0, b'h', b'i']);
    assert_eq!(encoded(&String::new()), vec![0, 0, 0, 0]);
    assert_eq!(encoded(&"é€".to_owned()), vec![5, 0, 0, 0, 0xc3, 0xa9, 0xe2, 0x82, 0xac]);
    assert_eq!(
        String::read_from(&[5, 0, 0, 0, 0xc3, 0xa9, 0xe2, 0x82, 0xac, 7], 0),
        Ok(("é€".to_owned(), 9))
    );
}

#[test]
fn a_text_that_is_cut_short_or_no_text_is_refused() {
    assert_eq!(String::read_from(&[3, 0, 0, 0, b'h', b'i'], 0), Err(WireError::UnexpectedEnd));
    assert_eq!(String::read_from(&[3, 0, 0], 0), Err(WireError::UnexpectedEnd));
    assert_eq!(String::read_from(&[2, 0, 0, 0, 0xc3, 0x28], 0), Err(WireError::InvalidUtf8));
    assert_eq!(String::read_from(&[1, 0, 0, 0, 0xff], 0), Err(WireError::InvalidUtf8));
    assert_eq!(
        String::read_from(&[3, 0, 0, 0, 0xed, 0xa0, 0x80], 0),
        Err(WireError::InvalidUtf8)
    );
}

#[test]
fn the_layout_is_the_one_that_speedy_writes() {
    assert_eq!(encoded(&0xdead_beefu32), as_speedy_writes(&0xdead_beefu32));
    assert_eq!(encoded(&0x0123_4567_89ab_cdefu64), as_speedy_writes(&0x0123_4567_89ab_cdefu64));
    assert_eq!(encoded(&-123_456i32), as_speedy_writes(&-123_456i32));
    assert_eq!(encoded(&"grüße".to_owned()), as_speedy_writes(&"grüße".to_owned()));
    assert_eq!(
        encoded(&ClientPacket::from(shout("message"))),
        as_speedy_writes(&(0u32, 0u32, "message".to_owned()))
    );
    assert_eq!(
        encoded(&ClientPacket::from(QueryEntity { id: NetworkId(77) })),
        as_speedy_writes(&(1u32, 77u64))
    );
    assert_eq!(
        encoded(&ClientPacket::from(PathTargetRequest { x: -4, y: 9 })),
        as_speedy_writes(&(2u32, -4i32, 9i32))
    );
    assert_eq!(encoded(&ClientPacket::from(Heartbeat)), as_speedy_writes(&3u32));
    assert_eq!(
        encoded(&ServerPacket::from(MessageReceived {
            sender: NetworkId(5),
            kind: MessageKind::Shout,
            contents: "hello".to_owned(),
        })),
        as_speedy_writes(&(0u32, 5u64, 0u32, "hello".to_owned()))
    );
    assert_eq!(
        encoded(&ServerPacket::from(AcceptConnection { connection_id: NetworkId(3) })),
        as_speedy_writes(&(1u32, 3u64))
    );
    assert_eq!(
        encoded(&ServerPacket::from(PathTarget {
            id: NetworkId(1),
            x: 2,
            y: -3,
            current_or_next_x: 4,
            current_or_next_y: -5,
        })),
        as_speedy_writes(&(2u32, 1u64, 2i32, -3i32, 4i32, -5i32))
    );
    assert_eq!(
        encoded(&ServerPacket::from(SpawnEntity { id: NetworkId(8) })),
        as_speedy_writes(&(3u32, 8u64))
    );
    assert_eq!(
        encoded(&ServerPacket::from(DespawnEntity { id: NetworkId(9) })),
        as_speedy_writes(&(4u32, 9u64))
    );
    assert_eq!(encoded(&ServerPacket::from(Heartbeat)), as_speedy_writes(&5u32));
}

#[test]
fn speedy_reads_what_was_written() {
    let bytes = encoded(&ServerPacket::from(MessageReceived {
        sender: NetworkId(5),
        kind: MessageKind::Shout,
        contents: "hello".to_owned(),
    }));
    let read: (u32, u64, u32, String) = speedy::Readable::read_from_buffer(&bytes).unwrap();
    assert_eq!(read, (0, 5, 0, "hello".to_owned()));
}

#[test]
fn every_client_packet_is_read_back() {
    let packets = vec![
        ClientPacket::from(shout("")),
        ClientPacket::from(shout("hi")),
        ClientPacket::from(QueryEntity { id: NetworkId(u64::MAX) }),
        ClientPacket::from(PathTargetRequest { x: i32::MIN, y: i32::MAX }),
        ClientPacket::from(Heartbeat),
    ];
    for packet in packets {
        let bytes = encoded(&packet);
        let (read, used) = ClientPacket::read_from(&bytes, 0).unwrap();
        assert_eq!(used, bytes.len());
        assert_eq!(read.kind(), packet.kind());
        assert_eq!(encoded(&read), bytes);
    }
}

#[test]
fn every_server_packet_is_read_back() {
    let packets = vec![
        ServerPacket::from(MessageReceived {
            sender: NetworkId(1),
            kind: MessageKind::Shout,
            contents: "über".to_owned(),
        }),
        ServerPacket::from(AcceptConnection { connection_id: NetworkId(0) }),
        ServerPacket::from(PathTarget {
            id: NetworkId(2),
            x: -1,
            y: 1,
            current_or_next_x: 0,
            current_or_next_y: -7,
        }),
        ServerPacket::from(SpawnEntity { id: NetworkId(3) }),
        ServerPacket::from(DespawnEntity { id: NetworkId(4) }),
        ServerPacket::from(Heartbeat),
    ];
    for packet in packets {
        let bytes = encoded(&packet);
        let (read, used) = ServerPacket::read_from(&bytes, 0).unwrap();
        assert_eq!(used, bytes.len());
        assert_eq!(read.kind(), packet.kind());
        assert_eq!(encoded(&read), bytes);
    }
}

#[test]
fn a_payload_comes_out_of_its_own_kind_only() {
    let packet = ClientPacket::from(QueryEntity { id: NetworkId(4) });
    assert!(matches!(SendMessage::try_from(packet), Err(WrongKind)));
    let packet = ClientPacket::from(QueryEntity { id: NetworkId(4) });
    assert_eq!(QueryEntity::try_from(packet), Ok(QueryEntity { id: NetworkId(4) }));
    let packet = ServerPacket::from(SpawnEntity { id: NetworkId(4) });
    assert_eq!(DespawnEntity::try_from(packet), Err(WrongKind));
    assert!(matches!(Heartbeat::try_from(ServerPacket::from(Heartbeat)), Ok(Heartbeat)));
}

#[test]
fn kinds_and_tags_go_by_the_order_of_the_variants() {
    assert_eq!(ClientPacket::kinds().len(), 4);
    assert_eq!(ServerPacket::kinds().len(), 6);
    for (tag, kind) in ClientPacket::kinds().into_iter().enumerate() {
        assert_eq!(kind.tag() as usize, tag);
        assert_eq!(ClientPacket::tag(kind) as usize, tag);
    }
    for (tag, kind) in ServerPacket::kinds().into_iter().enumerate() {
        assert_eq!(kind.tag() as usize, tag);
    }
    assert_eq!(ClientPacketKind::Heartbeat.tag(), 3);
    assert_eq!(ServerPacketKind::Heartbeat.tag(), 5);
    assert_eq!(ClientPacket::from(Heartbeat).packet_kind(), ClientPacketKind::Heartbeat);
    assert_eq!(
        ServerPacket::from(SpawnEntity { id: NetworkId(1) }).packet_kind(),
        ServerPacketKind::SpawnEntity
    );
}

#[test]
fn a_malformed_packet_is_refused_with_its_reason() {
    assert!(matches!(ClientPacket::read_from(&[1, 2, 3], 0), Err(WireError::UnexpectedEnd)));
    assert!(matches!(ClientPacket::read_from(&[4, 0, 0, 0], 0), Err(WireError::InvalidVariant)));
    assert!(matches!(ClientPacket::read_from(&[1, 2, 3, 4], 0), Err(WireError::InvalidVariant)));
    assert!(matches!(ServerPacket::read_from(&[6, 0, 0, 0], 0), Err(WireError::InvalidVariant)));
    assert!(matches!(
        ClientPacket::read_from(&[0, 0, 0, 0, 1, 0, 0, 0, 0, 0, 0, 0], 0),
        Err(WireError::InvalidVariant)
    ));
    assert!(matches!(
        ClientPacket::read_from(&[1, 0, 0, 0, 1, 2, 3], 0),
        Err(WireError::UnexpectedEnd)
    ));
    assert!(matches!(
        ClientPacket::read_from(&[0, 0, 0, 0, 0, 0, 0, 0, 1, 0, 0, 0, 0xff], 0),
        Err(WireError::InvalidUtf8)
    ));
}

#[test]
fn bytes_behind_a_packet_are_left_alone() {
    let (packet, used) = ClientPacket::read_from(&[3, 0, 0, 0, 9, 9], 0).unwrap();
    assert_eq!(packet.kind(), ClientPacketKind::Heartbeat);
    assert_eq!(used, 4);
}

#[test]
fn a_frame_is_the_length_and_the_packet() {
    let framed = EncodedPacket::try_encode::<SendMessage, ClientPacket>(shout("hi")).unwrap();
    assert_eq!(
        framed.bytes(),
        &[14, 0, 0, 0, 0, 0, 0, 0, 0, 0, 0, 0, 2, 0, 0, 0, b'h', b'i'][..]
    );
    assert_eq!(framed.clone().bytes(), framed.bytes());
    let heartbeat = EncodedPacket::try_encode::<Heartbeat, ServerPacket>(Heartbeat).unwrap();
    assert_eq!(heartbeat.bytes(), &[4, 0, 0, 0, 5, 0, 0, 0][..]);
    let wrapped =
        EncodedPacket::try_encode::<ClientPacket, ClientPacket>(ClientPacket::from(Heartbeat))
            .unwrap();
    assert_eq!(wrapped.bytes(), &[4, 0, 0, 0, 3, 0, 0, 0][..]);
}

#[test]
fn a_frame_is_read_back_whatever_follows_it() {
    let framed = EncodedPacket::try_encode::<SendMessage, ClientPacket>(shout("hi")).unwrap();
    let mut stream = framed.bytes().to_vec();
    stream.extend_from_slice(&[1, 2, 3]);
    let (packet, taken) = read_frame::<ClientPacket>(&stream).unwrap();
    assert_eq!(taken, framed.bytes().len());
    assert_eq!(SendMessage::try_from(packet), Ok(shout("hi")));
}

#[test]
fn a_frame_that_announces_too_much_is_refused_by_its_header() {
    assert_eq!(MAX_PACKET_LENGTH, 5000);
    let mut stream = vec![0x89, 0x13, 0, 0];
    assert!(matches!(
        read_frame::<ClientPacket>(&stream),
        Err(Error::Io(IoErrorKind::InvalidData))
    ));
    stream.extend_from_slice(&[0; 6000]);
    assert!(matches!(
        read_frame::<ClientPacket>(&stream),
        Err(Error::Io(IoErrorKind::InvalidData))
    ));
    let mut socket = Socket::new(());
    assert_eq!(socket.ready([0x89, 0x13, 0, 0]), Err(Error::Io(IoErrorKind::InvalidData)));
    assert_eq!(socket.ready([0x88, 0x13, 0, 0]), Ok(5000));
    assert_eq!(socket.ready([255, 255, 255, 255]), Err(Error::Io(IoErrorKind::InvalidData)));
}

#[test]
fn a_frame_of_the_greatest_length_is_taken() {
    let contents = "a".repeat(MAX_PACKET_LENGTH - 12);
    let framed = EncodedPacket::try_encode::<SendMessage, ClientPacket>(shout(&contents)).unwrap();
    assert_eq!(framed.bytes().len(), MAX_PACKET_LENGTH + 4);
    let (packet, taken) = read_frame::<ClientPacket>(framed.bytes()).unwrap();
    assert_eq!(taken, MAX_PACKET_LENGTH + 4);
    assert_eq!(SendMessage::try_from(packet), Ok(shout(&contents)));

    let contents = "a".repeat(MAX_PACKET_LENGTH - 11);
    let framed = EncodedPacket::try_encode::<SendMessage, ClientPacket>(shout(&contents)).unwrap();
    assert!(matches!(
        read_frame::<ClientPacket>(framed.bytes()),
        Err(Error::Io(IoErrorKind::InvalidData))
    ));
}

#[test]
fn a_stream_that_ends_inside_a_frame_is_a_read_error() {
    let framed = EncodedPacket::try_encode::<SendMessage, ClientPacket>(shout("hi")).unwrap();
    let bytes = framed.bytes();
    for cut in 0..bytes.len() {
        assert!(matches!(
            read_frame::<ClientPacket>(&bytes[..cut]),
            Err(Error::Io(IoErrorKind::UnexpectedEof))
        ));
    }
}

#[test]
fn a_frame_with_a_malformed_body_is_refused() {
    assert!(matches!(
        read_frame::<ClientPacket>(&[4, 0, 0, 0, 1, 2, 3, 4]),
        Err(Error::Wire(WireError::InvalidVariant))
    ));
    assert!(matches!(
        read_frame::<ClientPacket>(&[0, 0, 0, 0]),
        Err(Error::Wire(WireError::UnexpectedEnd))
    ));
    assert!(matches!(
        read_frame::<ClientPacket>(&[13, 0, 0, 0, 0, 0, 0, 0, 0, 0, 0, 0, 1, 0, 0, 0, 0x80]),
        Err(Error::Wire(WireError::InvalidUtf8))
    ));
}

#[test]
fn the_framer_reads_in_two_steps() {
    let framed = EncodedPacket::try_encode::<QueryEntity, ClientPacket>(QueryEntity {
        id: NetworkId(6),
    })
    .unwrap();
    let bytes = framed.bytes();
    let mut socket = Socket::new(());
    let length = socket.ready([bytes[0], bytes[1], bytes[2], bytes[3]]).unwrap();
    assert_eq!(length, 12);
    {
        let (_, buffer) = socket.parts_mut();
        assert_eq!(buffer, &[0u8; 12][..]);
        buffer.copy_from_slice(&bytes[4..]);
    }
    socket.received(12);
    let packet: ClientPacket = socket.next().unwrap();
    assert_eq!(QueryEntity::try_from(packet), Ok(QueryEntity { id: NetworkId(6) }));
}

#[test]
fn bytes_are_appended_behind_what_is_there() {
    let mut out = vec![1, 2];
    append_bytes(&mut out, &[3, 4, 5]);
    assert_eq!(out, vec![1, 2, 3, 4, 5]);
}

#[test]
fn a_body_that_was_not_read_in_full_is_a_read_error() {
    let framed = EncodedPacket::try_encode::<QueryEntity, ClientPacket>(QueryEntity {
        id: NetworkId(6),
    })
    .unwrap();
    let bytes = framed.bytes();
    let mut socket = Socket::new(());
    socket.ready([bytes[0], bytes[1], bytes[2], bytes[3]]).unwrap();
    assert!(matches!(
        socket.next::<ClientPacket>(),
        Err(Error::Io(IoErrorKind::UnexpectedEof))
    ));
    {
        let (_, buffer) = socket.parts_mut();
        buffer.copy_from_slice(&bytes[4..]);
    }
    socket.received(11);
    assert!(matches!(
        socket.next::<ClientPacket>(),
        Err(Error::Io(IoErrorKind::UnexpectedEof))
    ));
    socket.received(1);
    assert!(socket.next::<ClientPacket>().is_ok());
    socket.received(5);
    assert!(socket.next::<ClientPacket>().is_ok());

    socket.ready([4, 0, 0, 0]).unwrap();
    assert!(matches!(
        socket.next::<ClientPacket>(),
        Err(Error::Io(IoErrorKind::UnexpectedEof))
    ));
    socket.ready([0, 0, 0, 0]).unwrap();
    assert!(matches!(
        socket.next::<ClientPacket>(),
        Err(Error::Wire(WireError::UnexpectedEnd))
    ));
}

#[test]
fn a_tick_takes_eight_bytes() {
    let tick = TickSync { current: 0x0102_0304 };
    assert_eq!(encoded(&tick), vec![4, 3, 2, 1, 0, 0, 0, 0]);
    assert_eq!(encoded(&tick), as_speedy_writes(&0x0102_0304usize));
    assert_eq!(TickSync::read_from(&encoded(&tick), 0), Ok((tick, 8)));
    assert_eq!(
        TickSync::read_from(&encoded(&TickSync { current: usize::MAX }), 0),
        Ok((TickSync { current: usize::MAX }, 8))
    );
    assert_eq!(TickSync::read_from(&[1, 2, 3], 0), Err(WireError::UnexpectedEnd));
}
