use arrow_protocol::chat::{Chat, Color, Font, NormalColor, TextComponent, Component};
use arrow_protocol::compound::{Angle, Either, InferredLenByteArray};
use arrow_protocol::error::{DeserializeError, SerializeError};
use arrow_protocol::legacy::{LegacyRequest, LegacyResponse};
use arrow_protocol::login::{EncryptedVerifyToken, SharedSecret};
use arrow_protocol::play::{ChatMode, Difficulty};
use arrow_protocol::types::Serialize;
use arrow_protocol::versioned::{HeldItemChange, JoinGame, LevelType, ServerDifficulty, LengthPrefixedVec};
use arrow_protocol::varint::VarInt;
use arrow_protocol::handshake::NextState;

#[test]
fn strings_are_length_prefixed_utf8() {
    let mut buf = Vec::new();
    "héllo".to_string().serialize(&mut buf);
    assert_eq!(buf, vec![6, b'h', 0xc3, 0xa9, b'l', b'l', b'o']);
    let (s, p) = String::deserialize(&buf, 0).unwrap();
    assert_eq!(s, "héllo");
    assert_eq!(p, 7);
    assert!(matches!(String::deserialize(&buf[..4], 0), Err(DeserializeError::UnexpectedEof)));
    assert!(matches!(String::deserialize(&[2, 0xff, 0xfe], 0), Err(DeserializeError::InvalidUtf8)));
}

#[test]
fn options_sequences_and_alternatives() {
    let mut buf = Vec::new();
    Some(7u8).serialize(&mut buf);
    None::<u8>.serialize(&mut buf);
    vec![1u16, 2u16].serialize(&mut buf);
    Either::<u8, i64>::Left(9).serialize(&mut buf);
    Either::<u8, i64>::Right(-2).serialize(&mut buf);
    assert_eq!(&buf[..2], &[1, 7]);
    assert_eq!(buf[2], 0);
    assert_eq!(&buf[3..8], &[2, 0, 1, 0, 2]);
    assert_eq!(&buf[8..10], &[1, 9]);
    let (a, p) = Option::<u8>::deserialize(&buf, 0).unwrap();
    let (b, p) = Option::<u8>::deserialize(&buf, p).unwrap();
    let (c, p) = Vec::<u16>::deserialize(&buf, p).unwrap();
    let (d, p) = Either::<u8, i64>::deserialize(&buf, p).unwrap();
    let (e, p) = Either::<u8, i64>::deserialize(&buf, p).unwrap();
    assert_eq!(a, Some(7));
    assert_eq!(b, None);
    assert_eq!(c, vec![1, 2]);
    assert!(matches!(d, Either::Left(9)));
    assert!(matches!(e, Either::Right(-2)));
    assert_eq!(p, buf.len());
}

#[test]
fn integers_are_big_endian() {
    let mut buf = Vec::new();
    0x0102u16.serialize(&mut buf);
    (-2i32).serialize(&mut buf);
    0x0102030405060708u64.serialize(&mut buf);
    0x00112233445566778899aabbccddeeffu128.serialize(&mut buf);
    assert_eq!(&buf[..2], &[1, 2]);
    assert_eq!(&buf[2..6], &[0xff, 0xff, 0xff, 0xfe]);
    assert_eq!(&buf[6..14], &[1, 2, 3, 4, 5, 6, 7, 8]);
    let (u, _) = u128::deserialize(&buf, 14).unwrap();
    assert_eq!(u, 0x00112233445566778899aabbccddeeff);
    assert_eq!(buf[14], 0x00);
    assert_eq!(buf[29], 0xff);
    assert!(matches!(u64::deserialize(&buf, 25), Err(DeserializeError::UnexpectedEof)));
    let (t, _) = bool::deserialize(&[5], 0).unwrap();
    assert!(t);
}

#[test]
fn enums_refuse_unknown_tags() {
    assert!(matches!(
        NextState::deserialize(&[3], 0),
        Err(DeserializeError::InvalidEnumVariant("NextState", 3))
    ));
    assert!(matches!(Difficulty::deserialize(&[2], 0), Ok((Difficulty::Normal, 1))));
    assert!(matches!(ChatMode::deserialize(&[9], 0), Err(DeserializeError::InvalidEnumVariant("ChatMode", 9))));
}

#[test]
fn angles_and_trailing_bytes() {
    let mut buf = Vec::new();
    Angle(64).serialize(&mut buf);
    InferredLenByteArray(vec![1, 2, 3]).serialize(&mut buf);
    let (a, p) = Angle::deserialize(&buf, 0).unwrap();
    assert_eq!(a, Angle(64));
    let (rest, end) = InferredLenByteArray::deserialize(&buf, p);
    assert_eq!(rest.0, vec![1, 2, 3]);
    assert_eq!(end, 4);
    let lp = LengthPrefixedVec::new(vec![VarInt(300)]);
    let mut buf = Vec::new();
    lp.serialize(&mut buf);
    assert_eq!(buf, vec![1, 0xac, 0x02]);
}

#[test]
fn chat_builders_set_their_field() {
    let chat = Chat::default()
        .with_bold(true)
        .with_italic(false)
        .with_font(Font::Alt)
        .with_color(Color::NormalColor(NormalColor::Gold))
        .with_insertion("hi".to_string())
        .with_extra(Chat::default())
        .with_extra(Chat::default().with_underlined(true))
        .with_component(Component::String(TextComponent { text: "x".to_string() }));
    assert_eq!(chat.bold, Some(true));
    assert_eq!(chat.italic, Some(false));
    assert_eq!(chat.font, Some(Font::Alt));
    assert_eq!(chat.color, Some(Color::NormalColor(NormalColor::Gold)));
    assert_eq!(chat.insertion.as_deref(), Some("hi"));
    assert_eq!(chat.extra.as_ref().map(|e| e.len()), Some(2));
    assert!(matches!(&chat.component, Component::String(t) if t.text == "x"));
    assert_eq!(chat.underlined, None);
}

#[test]
fn web_colors() {
    assert_eq!(Color::parse_web("#ff8000"), Some(Color::WebColor(255, 128, 0)));
    assert_eq!(Color::parse_web("#F80"), Some(Color::WebColor(15, 8, 0)));
    assert_eq!(Color::parse_web("ff8000"), None);
    assert_eq!(Color::parse_web("#ff80"), None);
    assert_eq!(Color::parse_web("#gg8000"), None);
}

#[test]
fn legacy_request() {
    assert_eq!(LegacyRequest.serialize().unwrap(), vec![0xfe, 0x01, 0xfa]);
    assert!(LegacyRequest::deserialize(&[0xfe, 0x01, 0xfa]).is_ok());
    assert!(matches!(LegacyRequest::deserialize(&[0xfe, 0x01]), Err(DeserializeError::UnexpectedEof)));
    assert!(matches!(LegacyRequest::deserialize(&[0xfe, 0x02, 0xfa]), Err(DeserializeError::BrokenPacket)));
}

#[test]
fn legacy_response_round_trip() {
    let response = LegacyResponse {
        protocol_version: 127,
        minecraft_version: "1.19".to_string(),
        motd: "A server".to_string(),
        player_count: 3,
        max_players: -20,
    };
    let bytes = response.serialize().unwrap();
    let text: Vec<u16> = "§1\0127\01.19\0A server\03\0-20".encode_utf16().collect();
    assert_eq!(bytes[0], 0xff);
    assert_eq!(((bytes[1] as usize) << 8) | bytes[2] as usize, text.len());
    assert_eq!(bytes.len(), 3 + 2 * text.len());
    let back = LegacyResponse::deserialize(&bytes).unwrap();
    assert_eq!(back.protocol_version, 127);
    assert_eq!(back.minecraft_version, "1.19");
    assert_eq!(back.motd, "A server");
    assert_eq!(back.player_count, 3);
    assert_eq!(back.max_players, -20);
    assert!(matches!(LegacyResponse::deserialize(&bytes[..bytes.len() - 1]), Err(DeserializeError::UnexpectedEof)));
    assert!(matches!(LegacyResponse::deserialize(&[0xfe]), Err(DeserializeError::BrokenPacket)));
    assert!(matches!(LegacyResponse::deserialize(&[0xff, 0, 1, 0xd8, 0x00]), Err(DeserializeError::InvalidUtf16)));
    assert!(matches!(LegacyResponse::deserialize(&[0xff, 0, 1, 0, b'x']), Err(DeserializeError::BrokenPacket)));
}

#[test]
fn versioned_ids() {
    assert_eq!(HeldItemChange::id(47), 0x37);
    assert_eq!(HeldItemChange::id(340), 0x3a);
    assert_eq!(HeldItemChange::id(404), 0x3d);
    assert_eq!(HeldItemChange::id(498), 0x3f);
    assert_eq!(HeldItemChange::id(578), 0x40);
    assert_eq!(HeldItemChange::id(754), 0x3f);
    assert_eq!(HeldItemChange::id(756), 0x48);
    assert_eq!(JoinGame::id(573), 0x26);
    assert_eq!(JoinGame::id(498), 0x25);
    assert_eq!(ServerDifficulty::id(498), 0x0d);
    assert_eq!(ServerDifficulty::id(573), 0x0e);
    assert_eq!(HeldItemChange::new(4).slot, 4);
    let join = JoinGame::new(1, 0, 0, 20, LevelType::Default11, VarInt(10), false);
    assert_eq!(join.level_type, "default_1_1");
    let difficulty = ServerDifficulty::new(2, true);
    assert!(difficulty.difficulty_locked);
}

#[test]
fn shared_secret_round_trip() {
    let mut rng = rand::thread_rng();
    let private_key = rsa::RsaPrivateKey::new(&mut rng, 512).unwrap();
    let public_key = rsa::RsaPublicKey::from(&private_key);
    let secret = [0x42u8; 16];
    let encrypted = SharedSecret::encrypt(&secret, public_key.clone()).unwrap();
    assert_ne!(encrypted.encrypted_secret, secret.to_vec());
    assert_eq!(encrypted.decrypt(private_key.clone()).unwrap(), secret);
    let token = EncryptedVerifyToken::encrypt(&[1, 2, 3], public_key.clone()).unwrap();
    assert_eq!(token.decrypt(private_key.clone()).unwrap(), vec![1, 2, 3]);
    let short = EncryptedVerifyToken::encrypt(&[1, 2, 3], public_key.clone()).unwrap();
    let as_secret = SharedSecret { encrypted_secret: short.encrypted_token };
    assert!(matches!(as_secret.decrypt(private_key.clone()), Err(DeserializeError::InvalidSharedSecretLength)));
    let garbage = SharedSecret { encrypted_secret: vec![1, 2, 3] };
    assert!(matches!(garbage.decrypt(private_key), Err(DeserializeError::RsaError(_))));
    let too_long = [0u8; 100];
    assert!(matches!(EncryptedVerifyToken::encrypt(&too_long, public_key), Err(SerializeError::RsaError(_))));
}

#[test]
fn public_key_travels_as_der() {
    let mut rng = rand::thread_rng();
    let private_key = rsa::RsaPrivateKey::new(&mut rng, 512).unwrap();
    let public_key = rsa::RsaPublicKey::from(&private_key);
    let request = arrow_protocol::login::EncryptionRequest::with_public_key(
        "foo".to_string(),
        &public_key,
        arrow_protocol::login::VerifyToken { verify_token: vec![1, 2, 3, 4] },
    )
    .unwrap();
    assert_eq!(request.public_key().unwrap(), public_key);
    let broken = arrow_protocol::login::EncryptionRequest {
        server_id: String::new(),
        public_key: arrow_protocol::secret::PublicKeyDer(vec![0x30, 0x00]),
        verify_token: arrow_protocol::login::VerifyToken { verify_token: vec![] },
    };
    assert!(matches!(broken.public_key(), Err(DeserializeError::SpkiError)));
    // Decoding refuses the malformed key, and takes a well-formed one.
    let mut bytes = Vec::new();
    broken.serialize(&mut bytes);
    assert!(matches!(
        arrow_protocol::login::EncryptionRequest::deserialize(&bytes, 0),
        Err(DeserializeError::SpkiError)
    ));
    let mut bytes = Vec::new();
    request.serialize(&mut bytes);
    let (back, p) = arrow_protocol::login::EncryptionRequest::deserialize(&bytes, 0).unwrap();
    assert_eq!(p, bytes.len());
    assert_eq!(back.public_key().unwrap(), public_key);
}

#[test]
fn tiny_modulus_is_refused() {
    let key = rsa::RsaPublicKey::new(rsa::BigUint::from(3233u32), rsa::BigUint::from(17u32)).unwrap();
    assert!(matches!(SharedSecret::encrypt(&[1; 16], key.clone()), Err(SerializeError::KeyTooSmall)));
    assert!(matches!(EncryptedVerifyToken::encrypt(&[1], key), Err(SerializeError::KeyTooSmall)));
}

#[test]
fn decryption_outcomes() {
    assert_eq!(SharedSecret::secret_from_decryption(Ok(vec![7; 16])).unwrap(), [7; 16]);
    assert!(matches!(
        SharedSecret::secret_from_decryption(Ok(vec![7; 15])),
        Err(DeserializeError::InvalidSharedSecretLength)
    ));
    assert!(matches!(
        SharedSecret::secret_from_decryption(Err(rsa::errors::Error::Decryption)),
        Err(DeserializeError::RsaError(_))
    ));
    assert_eq!(EncryptedVerifyToken::token_from_decryption(Ok(vec![1, 2])).unwrap(), vec![1, 2]);
}

#[test]
fn modulus_length_travels_with_the_key() {
    let mut rng = rand::thread_rng();
    let private_key = rsa::RsaPrivateKey::new(&mut rng, 512).unwrap();
    let key = arrow_protocol::secret::RsaKey::new(rsa::RsaPublicKey::from(&private_key));
    assert_eq!(key.modulus_len(), 64);
    let sealed = SharedSecret::encrypt_with(&[3; 16], &key).unwrap();
    assert_eq!(sealed.decrypt(private_key.clone()).unwrap(), [3; 16]);
    let small = arrow_protocol::secret::RsaKey::new(
        rsa::RsaPublicKey::new(rsa::BigUint::from(3233u32), rsa::BigUint::from(17u32)).unwrap(),
    );
    assert_eq!(small.modulus_len(), 2);
    assert!(matches!(EncryptedVerifyToken::encrypt_with(&[1], &small), Err(SerializeError::KeyTooSmall)));
}
