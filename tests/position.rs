use arrow_protocol::position::Position;
use arrow_protocol::types::Serialize;

#[test]
fn position() {
    let pos = Position {
        x: -100,
        y: -10,
        z: -69420,
    };

    let mut buf = Vec::new();

    pos.serialize(&mut buf);

    let (pos2, _) = Position::deserialize(&buf, 0).unwrap();

    assert_eq!(pos, pos2);
}

#[test]
fn position_packed_word() {
    let pos = Position { x: -100, y: -10, z: -69420 };
    assert_eq!(pos.to_packed(), 0xffff_e73f_ef0d_4ff6u64);
    assert_eq!(Position::from_packed(pos.to_packed()), pos);
    let mut buf = Vec::new();
    pos.serialize(&mut buf);
    assert_eq!(buf, pos.to_packed().to_be_bytes().to_vec());
}

#[test]
fn position_extremes() {
    for pos in [
        Position { x: -(1 << 25), y: -(1 << 11), z: -(1 << 25) },
        Position { x: (1 << 25) - 1, y: (1 << 11) - 1, z: (1 << 25) - 1 },
        Position { x: 0, y: 0, z: 0 },
    ] {
        assert_eq!(Position::from_packed(pos.to_packed()), pos);
    }
}
