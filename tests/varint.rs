use arrow_protocol::error::DeserializeError;
use arrow_protocol::varint::{VarInt, VarLong};

fn encode(v: i32) -> Vec<u8> {
    let mut buf = Vec::new();
    VarInt(v).serialize(&mut buf);
    buf
}

#[test]
fn varint_boundary_lengths() {
    let values = [0, 127, 128, 16383, 16384, 2097151, 2097152, i32::MAX, -1];
    let lengths = [1, 1, 2, 2, 3, 3, 4, 5, 5];
    for (v, n) in values.iter().zip(lengths.iter()) {
        assert_eq!(encode(*v).len(), *n, "length of {v}");
        assert_eq!(VarInt(*v).len(), *n, "reported length of {v}");
    }
}

#[test]
fn varint_round_trips() {
    for v in [0, 1, -1, 127, 128, 255, 300, 25565, i32::MAX, i32::MIN, -69420] {
        let bytes = encode(v);
        let (back, p) = VarInt::deserialize(&bytes, 0).unwrap();
        assert_eq!(back.0, v);
        assert_eq!(p, bytes.len());
    }
}

#[test]
fn varint_known_bytes() {
    assert_eq!(encode(300), vec![0xac, 0x02]);
    assert_eq!(encode(-1), vec![0xff, 0xff, 0xff, 0xff, 0x0f]);
    assert_eq!(encode(25565), vec![0xdd, 0xc7, 0x01]);
}

#[test]
fn varint_errors() {
    assert!(matches!(VarInt::deserialize(&[], 0), Err(DeserializeError::UnexpectedEof)));
    assert!(matches!(VarInt::deserialize(&[0x80, 0x80], 0), Err(DeserializeError::UnexpectedEof)));
    assert!(matches!(
        VarInt::deserialize(&[0x80, 0x80, 0x80, 0x80, 0x80, 0x01], 0),
        Err(DeserializeError::VarIntTooLong)
    ));
    // Five bytes that all say more follow: the sixth decides, so wait for it.
    assert!(matches!(
        VarInt::deserialize(&[0x80, 0x80, 0x80, 0x80, 0x80], 0),
        Err(DeserializeError::UnexpectedEof)
    ));
    let mut long = vec![0x80u8; 10];
    long.push(0);
    assert!(matches!(VarLong::deserialize(&long[..10], 0), Err(DeserializeError::UnexpectedEof)));
    assert!(matches!(VarLong::deserialize(&long, 0), Err(DeserializeError::VarIntTooLong)));
}

#[test]
fn varlong_round_trips() {
    for v in [0i64, 1, -1, i64::MAX, i64::MIN, 1 << 40] {
        let mut buf = Vec::new();
        VarLong(v).serialize(&mut buf);
        let (back, p) = VarLong::deserialize(&buf, 0).unwrap();
        assert_eq!(back.0, v);
        assert_eq!(p, buf.len());
    }
    let mut buf = Vec::new();
    VarLong(-1).serialize(&mut buf);
    assert_eq!(buf.len(), 10);
}
