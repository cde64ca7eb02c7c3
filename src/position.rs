//! Block positions packed into one 64-bit word: `x` in the high 26 bits, then
//! `z` in 26 bits, then `y` in the low 12 bits, each two's complement.
use vstd::prelude::*;

use crate::error::DeserializeError;
use crate::types::{be64, fixed, from_be64, Serialize};

verus! {

/// A block position.
#[derive(Debug, Clone, Copy, PartialEq, Eq, Structural)]
pub struct Position {
    pub x: i32,
    pub y: i16,
    pub z: i32,
}

/// The low 26 bits of `v`, its two's complement in a 26-bit field.
pub open spec fn field26(v: i32) -> u64 {
    (v as u64) & 0x3ffffff
}

/// The low 12 bits of `v`, its two's complement in a 12-bit field.
pub open spec fn field12(v: i16) -> u64 {
    (v as u64) & 0xfff
}

/// The word that packs `p`.
pub open spec fn pack(p: Position) -> u64 {
    (field26(p.x) << 38u64) | (field26(p.z) << 12u64) | field12(p.y)
}

/// The signed value of a 26-bit two's complement field.
pub open spec fn signed26(f: u64) -> i32 {
    if f >= 0x2000000 {
        (f as i32 - 0x4000000) as i32
    } else {
        f as i32
    }
}

/// The signed value of a 12-bit two's complement field.
pub open spec fn signed12(f: u64) -> i16 {
    if f >= 0x800 {
        (f as i16 - 0x1000) as i16
    } else {
        f as i16
    }
}

/// The position that a word packs.
pub open spec fn unpack(w: u64) -> Position {
    Position {
        x: signed26(w >> 38u64),
        z: signed26((w >> 12u64) & 0x3ffffff),
        y: signed12(w & 0xfff),
    }
}

/// Positions whose fields fit their bit widths.
pub open spec fn in_range(p: Position) -> bool {
    -0x2000000 <= p.x < 0x2000000 && -0x2000000 <= p.z < 0x2000000 && -0x800 <= p.y < 0x800
}

proof fn lemma_fields(x: i32, y: i16, z: i32)
    by (bit_vector)
    ensures
        ((((x as u64) & 0x3ffffff) << 38u64) | (((z as u64) & 0x3ffffff) << 12u64) | ((y as u64)
            & 0xfff)) >> 38u64 == (x as u64) & 0x3ffffff,
        ((((((x as u64) & 0x3ffffff) << 38u64) | (((z as u64) & 0x3ffffff) << 12u64) | ((
        y as u64) & 0xfff)) >> 12u64) & 0x3ffffff) == (z as u64) & 0x3ffffff,
        ((((x as u64) & 0x3ffffff) << 38u64) | (((z as u64) & 0x3ffffff) << 12u64) | ((y as u64)
            & 0xfff)) & 0xfff == (y as u64) & 0xfff,
{
}

proof fn lemma_signed26(v: i32)
    by (bit_vector)
    requires
        -0x2000000 <= v < 0x2000000,
    ensures
        (if ((v as u64) & 0x3ffffff) >= 0x2000000 {
            (((v as u64) & 0x3ffffff) as i32 - 0x4000000) as i32
        } else {
            ((v as u64) & 0x3ffffff) as i32
        }) == v,
{
}

proof fn lemma_signed12(v: i16)
    by (bit_vector)
    requires
        -0x800 <= v < 0x800,
    ensures
        (if ((v as u64) & 0xfff) >= 0x800 {
            (((v as u64) & 0xfff) as i16 - 0x1000) as i16
        } else {
            ((v as u64) & 0xfff) as i16
        }) == v,
{
}

proof fn lemma_field_bounds(w: u64)
    by (bit_vector)
    ensures
        w >> 38u64 < 0x4000000,
        (w >> 12u64) & 0x3ffffff < 0x4000000,
        w & 0xfff < 0x1000,
{
}

/// Unpacking the packed word of a position whose fields fit their widths
/// gives the position back.
pub proof fn lemma_pack_unpack(p: Position)
    requires
        in_range(p),
    ensures
        unpack(pack(p)) == p,
{
    lemma_fields(p.x, p.y, p.z);
    lemma_signed26(p.x);
    lemma_signed26(p.z);
    lemma_signed12(p.y);
}

impl Position {
    /// The word that packs this position.
    pub fn to_packed(&self) -> (r: u64)
        ensures
            r == pack(*self),
    {
        let x = (self.x as u64) & 0x3ffffff;
        let z = (self.z as u64) & 0x3ffffff;
        let y = (self.y as u64) & 0xfff;
        (x << 38u64) | (z << 12u64) | y
    }

    /// The position that `w` packs; every word is some position.
    pub fn from_packed(w: u64) -> (r: Position)
        ensures
            r == unpack(w),
    {
        proof {
            lemma_field_bounds(w);
        }
        let xf = w >> 38u64;
        let zf = (w >> 12u64) & 0x3ffffff;
        let yf = w & 0xfff;
        let x = if xf >= 0x2000000 {
            xf as i32 - 0x4000000
        } else {
            xf as i32
        };
        let z = if zf >= 0x2000000 {
            zf as i32 - 0x4000000
        } else {
            zf as i32
        };
        let y = if yf >= 0x800 {
            yf as i16 - 0x1000
        } else {
            yf as i16
        };
        Position { x, y, z }
    }
}

/// Positions: the packed word, big-endian.
impl Serialize for Position {
    type Model = Position;

    open spec fn self_delimited() -> bool {
        true
    }

    open spec fn model(&self) -> Position {
        *self
    }

    open spec fn valid(m: Position) -> bool {
        in_range(m)
    }

    open spec fn encode(m: Position) -> Seq<u8> {
        be64(pack(m))
    }

    open spec fn parse(s: Seq<u8>) -> Result<(Position, nat), DeserializeError> {
        fixed(s, 8, unpack(from_be64(s)))
    }

    fn serialize(&self, buf: &mut Vec<u8>) {
        let w = self.to_packed();
        w.serialize(buf);
    }

    fn deserialize(buf: &[u8], pos: usize) -> (r: Result<(Position, usize), DeserializeError>) {
        match u64::deserialize(buf, pos) {
            Ok((w, p)) => Ok((Position::from_packed(w), p)),
            Err(e) => Err(e),
        }
    }

    proof fn lemma_round_trip(m: Position, rest: Seq<u8>) {
        u64::lemma_round_trip(pack(m), rest);
        lemma_pack_unpack(m);
    }

    proof fn lemma_parse_len(s: Seq<u8>) {
    }
}

} // verus!
