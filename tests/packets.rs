use arrow_protocol::compound::InferredLenByteArray;
use arrow_protocol::error::DeserializeError;
use arrow_protocol::play::{Play, ServerboundPluginMessage};
use arrow_protocol::handshake::{Handshake, NextState};
use arrow_protocol::login::{Login, LoginDisconnect};
use arrow_protocol::status::{Status, StatusRequest};
use arrow_protocol::varint::VarInt;
use arrow_protocol::Codec;
use arrow_protocol::{Bound, PacketCompression, Protocol, State, StreamDecryptor, StreamEncryptor};

fn round_trip(protocol: &Protocol, bound: Bound, state: State, compression: PacketCompression) -> Protocol {
    let bytes = protocol.serialize(compression, &mut None).unwrap();
    let mut buf = bytes.clone();
    let decoded = Protocol::deserialize(bound, state, compression, &mut None, &mut buf).unwrap();
    assert!(buf.is_empty());
    decoded
}

#[test]
fn handshake() {
    let packet = Handshake {
        version: 759.into(),
        address: "localhost".to_string(),
        port: 25565,
        next_state: NextState::Login,
    };
    let compression = PacketCompression::default();
    let protocol = Protocol::Handshake(packet.clone());
    match round_trip(&protocol, Bound::Serverbound, State::Handshake, compression) {
        Protocol::Handshake(packet2) => {
            assert_eq!(packet.version, packet2.version);
            assert_eq!(packet.address, packet2.address);
            assert_eq!(packet.port, packet2.port);
            assert_eq!(packet.next_state, packet2.next_state);
        }
        _ => panic!("expected a handshake"),
    }
}

#[test]
fn login_disconnect() {
    // The JSON form of a default chat made bold.
    let chat = arrow_protocol::chat::Chat::default().with_bold(true);
    assert_eq!(chat.bold, Some(true));
    let packet = LoginDisconnect {
        reason: r#"{"text":"","bold":true}"#.to_string(),
    };
    let compression = PacketCompression::default();
    let protocol = Protocol::Login(Login::LoginDisconnect(packet.clone()));
    match round_trip(&protocol, Bound::Clientbound, State::Login, compression) {
        Protocol::Login(Login::LoginDisconnect(packet2)) => {
            assert_eq!(packet.reason, packet2.reason);
        }
        _ => panic!("expected a login disconnect"),
    }
}

#[test]
fn encryption() {
    let handshake = Handshake {
        version: VarInt(10),
        address: "foo".to_string(),
        port: 1337,
        next_state: NextState::Login,
    };
    let handshake2 = Handshake {
        version: VarInt(100),
        address: "foobar".to_string(),
        port: 42,
        next_state: NextState::Status,
    };

    let compression = PacketCompression::default();

    let protocol = Protocol::Handshake(handshake.clone());
    let protocol2 = Protocol::Handshake(handshake2.clone());

    let key = [0x42; 16];

    let mut encryptor = Some(StreamEncryptor::new(key));
    let mut decryptor = Some(StreamDecryptor::new(key));

    let mut bytes = protocol.serialize(compression, &mut encryptor).unwrap();
    bytes.extend_from_slice(&protocol2.serialize(compression, &mut encryptor).unwrap());

    let protocol1 =
        Protocol::deserialize(Bound::Serverbound, State::Handshake, compression, &mut decryptor, &mut bytes)
            .unwrap();
    let protocol2 =
        Protocol::deserialize(Bound::Serverbound, State::Handshake, compression, &mut decryptor, &mut bytes)
            .unwrap();

    match (protocol1, protocol2) {
        (Protocol::Handshake(packet1), Protocol::Handshake(packet2)) => {
            assert_eq!(packet1.version, handshake.version);
            assert_eq!(packet1.address, handshake.address);
            assert_eq!(packet1.port, handshake.port);
            assert_eq!(packet1.next_state, handshake.next_state);
            assert_eq!(packet2.version, handshake2.version);
            assert_eq!(packet2.address, handshake2.address);
            assert_eq!(packet2.port, handshake2.port);
            assert_eq!(packet2.next_state, handshake2.next_state);
        }
        _ => panic!("expected two handshakes"),
    }
    assert!(bytes.is_empty());
}

#[test]
fn compression() {
    let handshake = Handshake {
        version: VarInt(42),
        address: "foobarbaz".to_string(),
        port: 25565,
        next_state: NextState::Login,
    };

    let mut compression = PacketCompression::default();
    compression.enabled = true;
    compression.threshold = 5;

    let protocol = Protocol::Handshake(handshake.clone());

    let mut bytes = protocol.serialize(compression, &mut None).unwrap();

    let protocol =
        Protocol::deserialize(Bound::Serverbound, State::Handshake, compression, &mut None, &mut bytes)
            .unwrap();

    match protocol {
        Protocol::Handshake(packet) => {
            assert_eq!(packet.version, handshake.version);
            assert_eq!(packet.address, handshake.address);
            assert_eq!(packet.port, handshake.port);
            assert_eq!(packet.next_state, handshake.next_state);
        }
        _ => panic!("expected a handshake"),
    }
}

#[test]
fn status_handshake_is_sixteen_inner_bytes_under_compression() {
    // version 759, "localhost", 25565, Status: id 0, then 2 + 10 + 2 + 1 body bytes.
    let handshake = Handshake {
        version: VarInt(759),
        address: "localhost".to_string(),
        port: 25565,
        next_state: NextState::Status,
    };
    let compression = PacketCompression { enabled: true, threshold: 5 };
    let bytes = Protocol::Handshake(handshake).serialize(compression, &mut None).unwrap();
    let (frame_len, p) = VarInt::deserialize(&bytes, 0).unwrap();
    assert_eq!(frame_len.0 as usize, bytes.len() - p);
    let (data_len, _) = VarInt::deserialize(&bytes, p).unwrap();
    assert_eq!(data_len.0, 16);
}

#[test]
fn short_inner_bytes_carry_a_zero_length() {
    let handshake = Handshake {
        version: VarInt(1),
        address: "a".to_string(),
        port: 1,
        next_state: NextState::Status,
    };
    // id 0, version 1, "a" as 2 bytes, port 2 bytes, next state 1: 7 bytes.
    let below = PacketCompression { enabled: true, threshold: 8 };
    let bytes = Protocol::Handshake(handshake.clone()).serialize(below, &mut None).unwrap();
    assert_eq!(bytes, vec![8, 0, 0, 1, 1, b'a', 0, 1, 1]);
    let at = PacketCompression { enabled: true, threshold: 7 };
    let bytes = Protocol::Handshake(handshake).serialize(at, &mut None).unwrap();
    assert_eq!(bytes[1], 7);
    let mut buf = bytes.clone();
    let decoded = Protocol::deserialize(Bound::Serverbound, State::Handshake, at, &mut None, &mut buf).unwrap();
    assert!(matches!(decoded, Protocol::Handshake(_)));
}

#[test]
fn truncated_frames_wait_without_consuming() {
    let handshake = Handshake {
        version: VarInt(759),
        address: "localhost".to_string(),
        port: 25565,
        next_state: NextState::Status,
    };
    let full = Protocol::Handshake(handshake).serialize(PacketCompression::default(), &mut None).unwrap();
    for k in 0..full.len() {
        let mut buf = full[..k].to_vec();
        let r = Protocol::deserialize(
            Bound::Serverbound,
            State::Handshake,
            PacketCompression::default(),
            &mut None,
            &mut buf,
        );
        assert!(matches!(r, Err(DeserializeError::UnexpectedEof)));
        assert_eq!(buf, full[..k].to_vec());
    }
}

#[test]
fn truncated_encrypted_frames_leave_the_cipher_alone() {
    let key = [7u8; 16];
    let handshake = Handshake {
        version: VarInt(759),
        address: "localhost".to_string(),
        port: 25565,
        next_state: NextState::Login,
    };
    let mut encryptor = Some(StreamEncryptor::new(key));
    let full = Protocol::Handshake(handshake.clone())
        .serialize(PacketCompression::default(), &mut encryptor)
        .unwrap();
    let mut decryptor = Some(StreamDecryptor::new(key));
    let mut buf = full[..full.len() - 1].to_vec();
    let r = Protocol::deserialize(Bound::Serverbound, State::Handshake, PacketCompression::default(), &mut decryptor, &mut buf);
    assert!(matches!(r, Err(DeserializeError::UnexpectedEof)));
    buf.push(full[full.len() - 1]);
    let r = Protocol::deserialize(Bound::Serverbound, State::Handshake, PacketCompression::default(), &mut decryptor, &mut buf);
    match r {
        Ok(Protocol::Handshake(p)) => assert_eq!(p.address, "localhost"),
        _ => panic!("expected a handshake"),
    }
}

#[test]
fn ciphertext_differs_from_plaintext() {
    let handshake = Handshake {
        version: VarInt(759),
        address: "localhost".to_string(),
        port: 25565,
        next_state: NextState::Login,
    };
    let protocol = Protocol::Handshake(handshake);
    let plain = protocol.serialize(PacketCompression::default(), &mut None).unwrap();
    let mut encryptor = Some(StreamEncryptor::new([0x42; 16]));
    let cipher = protocol.serialize(PacketCompression::default(), &mut encryptor).unwrap();
    assert_eq!(plain.len(), cipher.len());
    assert_ne!(plain, cipher);
}

#[test]
fn unknown_id_consumes_its_frame() {
    let mut buf = vec![0x02, 0x05, 0x00, 0x01, 0x00];
    let r = Protocol::deserialize(
        Bound::Serverbound,
        State::Handshake,
        PacketCompression::default(),
        &mut None,
        &mut buf,
    );
    assert!(matches!(
        r,
        Err(DeserializeError::UnknownPacketId(Bound::Serverbound, State::Handshake, 5))
    ));
    assert_eq!(buf, vec![0x01, 0x00]);
}

#[test]
fn empty_body_frame_is_a_zero_field_packet() {
    let mut buf = vec![0x01, 0x00];
    let r = Protocol::deserialize(
        Bound::Serverbound,
        State::Status,
        PacketCompression::default(),
        &mut None,
        &mut buf,
    );
    assert!(matches!(
        r,
        Ok(Protocol::Status(Status::StatusRequest(_)))
    ));
    assert!(buf.is_empty());
    let mut buf = vec![0x01, 0x00];
    let r = Protocol::deserialize(
        Bound::Clientbound,
        State::Handshake,
        PacketCompression::default(),
        &mut None,
        &mut buf,
    );
    assert!(matches!(
        r,
        Err(DeserializeError::UnknownPacketId(Bound::Clientbound, State::Handshake, 0))
    ));
    let mut buf = vec![0x01, 0x00];
    let r = Protocol::deserialize(
        Bound::Serverbound,
        State::Handshake,
        PacketCompression::default(),
        &mut None,
        &mut buf,
    );
    assert!(matches!(r, Err(DeserializeError::BrokenPacket)));
}

#[test]
fn trailing_bytes_break_a_packet() {
    // A status request with one byte too many.
    let mut buf = vec![0x02, 0x00, 0x00];
    let r = Protocol::deserialize(Bound::Serverbound, State::Status, PacketCompression::default(), &mut None, &mut buf);
    assert!(matches!(r, Err(DeserializeError::BrokenPacket)));
    assert!(buf.is_empty());
}

#[test]
fn corrupt_zlib_body_is_a_zlib_error() {
    let compression = PacketCompression { enabled: true, threshold: 1 };
    let mut buf = vec![0x04, 0x05, 0x01, 0x02, 0x03];
    let r = Protocol::deserialize(Bound::Serverbound, State::Status, compression, &mut None, &mut buf);
    assert!(matches!(r, Err(DeserializeError::ZlibError)));
}

#[test]
fn negative_frame_length_is_broken() {
    let mut buf = vec![0xff, 0xff, 0xff, 0xff, 0x0f, 0x00];
    let r = Protocol::deserialize(Bound::Serverbound, State::Status, PacketCompression::default(), &mut None, &mut buf);
    assert!(matches!(r, Err(DeserializeError::BrokenPacket)));
}

#[test]
fn overlong_frame_length_is_too_long() {
    let mut buf = vec![0x80, 0x80, 0x80, 0x80, 0x80, 0x00];
    let r = Protocol::deserialize(Bound::Serverbound, State::Status, PacketCompression::default(), &mut None, &mut buf);
    assert!(matches!(r, Err(DeserializeError::VarIntTooLong)));
    assert_eq!(buf.len(), 6);
}

fn status_handshake() -> Handshake {
    Handshake {
        version: VarInt(759),
        address: "localhost".to_string(),
        port: 25565,
        next_state: NextState::Status,
    }
}

#[test]
fn plain_handshake_round_trips() {
    let packet = status_handshake();
    let bytes = Protocol::Handshake(packet.clone()).serialize(PacketCompression::default(), &mut None).unwrap();
    // length 16, id 0, version 759, "localhost", 25565, Status
    assert_eq!(
        bytes,
        vec![16, 0, 0xf7, 0x05, 9, b'l', b'o', b'c', b'a', b'l', b'h', b'o', b's', b't', 0x63, 0xdd, 1]
    );
    let mut buf = bytes;
    match Protocol::deserialize(Bound::Serverbound, State::Handshake, PacketCompression::default(), &mut None, &mut buf) {
        Ok(Protocol::Handshake(p)) => {
            assert_eq!(p.version, packet.version);
            assert_eq!(p.address, packet.address);
            assert_eq!(p.port, packet.port);
            assert_eq!(p.next_state, packet.next_state);
        }
        _ => panic!("expected a handshake"),
    }
}

#[test]
fn two_encrypted_handshakes_in_order() {
    let first = status_handshake();
    let second = Handshake {
        version: VarInt(100),
        address: "foobar".to_string(),
        port: 42,
        next_state: NextState::Login,
    };
    let key = [0x42; 16];
    let mut encryptor = Some(StreamEncryptor::new(key));
    let mut stream = Protocol::Handshake(first.clone()).serialize(PacketCompression::default(), &mut encryptor).unwrap();
    stream.extend(Protocol::Handshake(second.clone()).serialize(PacketCompression::default(), &mut encryptor).unwrap());
    let mut decryptor = Some(StreamDecryptor::new(key));
    for expected in [first, second] {
        match Protocol::deserialize(Bound::Serverbound, State::Handshake, PacketCompression::default(), &mut decryptor, &mut stream) {
            Ok(Protocol::Handshake(p)) => {
                assert_eq!(p.version, expected.version);
                assert_eq!(p.address, expected.address);
                assert_eq!(p.port, expected.port);
                assert_eq!(p.next_state, expected.next_state);
            }
            _ => panic!("expected a handshake"),
        }
    }
    assert!(stream.is_empty());
}

#[test]
fn codec_follows_the_host() {
    let mut client = Codec::new(Bound::Serverbound, State::Handshake);
    let mut server = Codec::new(Bound::Serverbound, State::Handshake);
    let mut wire = Vec::new();
    client.encode(Protocol::Handshake(status_handshake()), &mut wire).unwrap();
    let mut partial = wire[..3].to_vec();
    assert!(server.decode(&mut partial).unwrap().is_none());
    assert_eq!(partial.len(), 3);
    assert!(matches!(server.decode(&mut wire), Ok(Some(Protocol::Handshake(_)))));
    server.set_state(State::Status);
    client.enable_compression(1);
    server.enable_compression(1);
    client.enable_encyption([9; 16]);
    server.enable_encyption([9; 16]);
    client.encode(Protocol::Status(Status::StatusRequest(StatusRequest)), &mut wire).unwrap();
    assert!(matches!(
        server.decode(&mut wire),
        Ok(Some(Protocol::Status(Status::StatusRequest(_))))
    ));
    assert!(wire.is_empty());
}

#[test]
fn play_packets_round_trip() {
    use_play_packets();
}

fn use_play_packets() {
    let action = arrow_protocol::play::PlayerAction {
        status: arrow_protocol::play::PlayerActionStatus::FinishedDigging,
        position: arrow_protocol::position::Position { x: 10, y: -5, z: -300 },
        face: arrow_protocol::play::Face::West,
        sequence: VarInt(7),
    };
    let protocol = Protocol::Play(arrow_protocol::play::Play::PlayerAction(action.clone()));
    match round_trip(&protocol, Bound::Serverbound, State::Play, PacketCompression { enabled: true, threshold: 4 }) {
        Protocol::Play(arrow_protocol::play::Play::PlayerAction(back)) => {
            assert_eq!(back.status, action.status);
            assert_eq!(back.position, action.position);
            assert_eq!(back.face, action.face);
            assert_eq!(back.sequence, action.sequence);
        }
        _ => panic!("expected a player action"),
    }
    let book = arrow_protocol::play::EditBook {
        slot: VarInt(3),
        entries: vec!["one".to_string(), "two".to_string()],
        title: Some("Title".to_string()),
    };
    match round_trip(&Protocol::Play(arrow_protocol::play::Play::EditBook(book)), Bound::Serverbound, State::Play, PacketCompression::default()) {
        Protocol::Play(arrow_protocol::play::Play::EditBook(back)) => {
            assert_eq!(back.entries, vec!["one".to_string(), "two".to_string()]);
            assert_eq!(back.title.as_deref(), Some("Title"));
        }
        _ => panic!("expected an edit book"),
    }
    let animation = arrow_protocol::play::EntityAnimation {
        entity_id: VarInt(12),
        animation: arrow_protocol::play::EntityAnimationId::CriticalEffect,
    };
    match round_trip(&Protocol::Play(arrow_protocol::play::Play::EntityAnimation(animation)), Bound::Clientbound, State::Play, PacketCompression::default()) {
        Protocol::Play(arrow_protocol::play::Play::EntityAnimation(back)) => {
            assert_eq!(back.entity_id, VarInt(12));
            assert_eq!(back.animation, arrow_protocol::play::EntityAnimationId::CriticalEffect);
        }
        _ => panic!("expected an entity animation"),
    }
}

#[test]
fn plugin_message_data_runs_to_the_end_of_the_frame() {
    let message = ServerboundPluginMessage {
        channel: "minecraft:brand".to_string(),
        data: InferredLenByteArray(vec![7, b'v', b'a', b'n', b'i', b'l', b'l', b'a']),
    };
    let bytes = Protocol::Play(Play::ServerboundPluginMessage(message.clone()))
        .serialize(PacketCompression::default(), &mut None)
        .unwrap();
    assert_eq!(bytes[1], 0x0c);
    let mut buf = bytes.clone();
    buf.extend_from_slice(&[0x01, 0x00]);
    match Protocol::deserialize(Bound::Serverbound, State::Play, PacketCompression::default(), &mut None, &mut buf) {
        Ok(Protocol::Play(Play::ServerboundPluginMessage(back))) => {
            assert_eq!(back.channel, message.channel);
            assert_eq!(back.data.0, message.data.0);
        }
        _ => panic!("expected a plugin message"),
    }
    assert_eq!(buf, vec![0x01, 0x00]);
}
