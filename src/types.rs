//! The value codec: how each value type is written to and read from bytes.
use vstd::prelude::*;

use crate::error::DeserializeError;
use crate::varint::{
    lemma_parse_varint_len, lemma_varint_round_trip, lemma_varlong_round_trip, parse_varint,
    parse_varlong, rest_of, varint_bytes, varlong_bytes, VarInt, VarLong,
};

verus! {

/// A value with a byte encoding.
///
/// `Model` is the mathematical value that the contracts speak of; `encode`
/// gives its bytes, and `parse` reads one from the front of a byte sequence,
/// giving the value and the number of bytes it took.
pub trait Serialize: Sized {
    type Model;

    spec fn model(&self) -> Self::Model;

    /// Whether a read finds the end of the encoding by itself. A value that is
    /// not, such as bytes that run to the end of a packet, reads back only
    /// when nothing follows it.
    spec fn self_delimited() -> bool;

    /// Values that the codec can write, such as strings whose length fits a `VarInt`.
    spec fn valid(m: Self::Model) -> bool;

    spec fn encode(m: Self::Model) -> Seq<u8>;

    spec fn parse(s: Seq<u8>) -> Result<(Self::Model, nat), DeserializeError>;

    /// Appends the encoding of this value to `buf`.
    fn serialize(&self, buf: &mut Vec<u8>)
        requires
            Self::valid(self.model()),
        ensures
            final(buf)@ == old(buf)@ + Self::encode(self.model()),
    ;

    /// Reads a value at `buf[pos..]`: the value and the position after it.
    fn deserialize(buf: &[u8], pos: usize) -> (r: Result<(Self, usize), DeserializeError>)
        requires
            pos <= buf@.len(),
        ensures
            match r {
                Ok((v, p)) => pos <= p <= buf@.len() && Self::parse(rest_of(buf@, pos)) == Ok::<
                    (Self::Model, nat),
                    DeserializeError,
                >((v.model(), (p - pos) as nat)),
                Err(e) => Self::parse(rest_of(buf@, pos)) == Err::<
                    (Self::Model, nat),
                    DeserializeError,
                >(e),
            },
    ;

    /// Reading the encoding of a valid value, whatever follows it, gives the
    /// value back and takes exactly the encoding's bytes.
    proof fn lemma_round_trip(m: Self::Model, rest: Seq<u8>)
        requires
            Self::valid(m),
            Self::self_delimited() || rest.len() == 0,
        ensures
            Self::parse(Self::encode(m) + rest) == Ok::<(Self::Model, nat), DeserializeError>(
                (m, Self::encode(m).len()),
            ),
    ;

    /// A read never takes more bytes than it was given.
    proof fn lemma_parse_len(s: Seq<u8>)
        ensures
            Self::parse(s) matches Ok((_, n)) ==> n <= s.len(),
    ;
}

/// `r` with its length shifted by `k` bytes, for a value read after `k` bytes of header.
pub open spec fn after<M>(r: Result<(M, nat), DeserializeError>, k: nat) -> Result<
    (M, nat),
    DeserializeError,
> {
    match r {
        Ok((m, n)) => Ok((m, n + k)),
        Err(e) => Err(e),
    }
}

proof fn lemma_rest_skip(buf: Seq<u8>, pos: usize, k: usize)
    requires
        pos + k <= buf.len(),
        buf.len() <= usize::MAX,
    ensures
        rest_of(buf, pos).subrange(k as int, rest_of(buf, pos).len() as int) =~= rest_of(
            buf,
            (pos + k) as usize,
        ),
{
    assert(rest_of(buf, pos).subrange(k as int, rest_of(buf, pos).len() as int) =~= rest_of(
        buf,
        (pos + k) as usize,
    ));
}

// ---------------------------------------------------------------- integers

/// Big-endian bytes of a 16-bit value.
pub open spec fn be16(v: u16) -> Seq<u8> {
    seq![(v >> 8u16) as u8, v as u8]
}

/// Big-endian bytes of a 32-bit value.
pub open spec fn be32(v: u32) -> Seq<u8> {
    seq![(v >> 24u32) as u8, (v >> 16u32) as u8, (v >> 8u32) as u8, v as u8]
}

/// Big-endian bytes of a 64-bit value.
pub open spec fn be64(v: u64) -> Seq<u8> {
    seq![
        (v >> 56u64) as u8,
        (v >> 48u64) as u8,
        (v >> 40u64) as u8,
        (v >> 32u64) as u8,
        (v >> 24u64) as u8,
        (v >> 16u64) as u8,
        (v >> 8u64) as u8,
        v as u8,
    ]
}

/// The 16-bit value of two big-endian bytes.
pub open spec fn from_be16(a: u8, b: u8) -> u16 {
    ((a as u16) << 8u16) | (b as u16)
}

/// The 32-bit value of four big-endian bytes.
pub open spec fn from_be32(s: Seq<u8>) -> u32 {
    ((s[0] as u32) << 24u32) | ((s[1] as u32) << 16u32) | ((s[2] as u32) << 8u32) | (s[3] as u32)
}

/// The 64-bit value of eight big-endian bytes.
pub open spec fn from_be64(s: Seq<u8>) -> u64 {
    ((s[0] as u64) << 56u64) | ((s[1] as u64) << 48u64) | ((s[2] as u64) << 40u64) | ((
    s[3] as u64) << 32u64) | ((s[4] as u64) << 24u64) | ((s[5] as u64) << 16u64) | ((s[6] as u64)
        << 8u64) | (s[7] as u64)
}

/// Reads `n` fixed bytes: end of input if fewer are left.
pub open spec fn fixed<M>(s: Seq<u8>, n: nat, m: M) -> Result<(M, nat), DeserializeError> {
    if s.len() < n {
        Err(DeserializeError::UnexpectedEof)
    } else {
        Ok((m, n))
    }
}

proof fn lemma_be16(v: u16)
    ensures
        from_be16((v >> 8u16) as u8, v as u8) == v,
{
    assert(((((v >> 8u16) as u8) as u16) << 8u16) | ((v as u8) as u16) == v) by (bit_vector);
}

proof fn lemma_be32(v: u32)
    ensures
        from_be32(be32(v)) == v,
{
    let s = be32(v);
    let (a, b, c, d) = ((v >> 24u32) as u8, (v >> 16u32) as u8, (v >> 8u32) as u8, v as u8);
    assert(s[0] == a && s[1] == b && s[2] == c && s[3] == d);
    assert(((a as u32) << 24u32) | ((b as u32) << 16u32) | ((c as u32) << 8u32) | (d as u32) == v)
        by (bit_vector)
        requires
            a == (v >> 24u32) as u8,
            b == (v >> 16u32) as u8,
            c == (v >> 8u32) as u8,
            d == v as u8,
    ;
}

proof fn lemma_be64(v: u64)
    ensures
        from_be64(be64(v)) == v,
{
    let s = be64(v);
    let a0 = (v >> 56u64) as u8;
    let a1 = (v >> 48u64) as u8;
    let a2 = (v >> 40u64) as u8;
    let a3 = (v >> 32u64) as u8;
    let a4 = (v >> 24u64) as u8;
    let a5 = (v >> 16u64) as u8;
    let a6 = (v >> 8u64) as u8;
    let a7 = v as u8;
    assert(s[0] == a0 && s[1] == a1 && s[2] == a2 && s[3] == a3);
    assert(s[4] == a4 && s[5] == a5 && s[6] == a6 && s[7] == a7);
    assert(((a0 as u64) << 56u64) | ((a1 as u64) << 48u64) | ((a2 as u64) << 40u64) | ((
    a3 as u64) << 32u64) | ((a4 as u64) << 24u64) | ((a5 as u64) << 16u64) | ((a6 as u64)
        << 8u64) | (a7 as u64) == v) by (bit_vector)
        requires
            a0 == (v >> 56u64) as u8,
            a1 == (v >> 48u64) as u8,
            a2 == (v >> 40u64) as u8,
            a3 == (v >> 32u64) as u8,
            a4 == (v >> 24u64) as u8,
            a5 == (v >> 16u64) as u8,
            a6 == (v >> 8u64) as u8,
            a7 == v as u8,
    ;
}

fn put_u16(v: u16, buf: &mut Vec<u8>)
    ensures
        final(buf)@ == old(buf)@ + be16(v),
{
    buf.push((v >> 8u16) as u8);
    buf.push(v as u8);
    assert(final(buf)@ =~= old(buf)@ + be16(v));
}

fn put_u32(v: u32, buf: &mut Vec<u8>)
    ensures
        final(buf)@ == old(buf)@ + be32(v),
{
    buf.push((v >> 24u32) as u8);
    buf.push((v >> 16u32) as u8);
    buf.push((v >> 8u32) as u8);
    buf.push(v as u8);
    assert(final(buf)@ =~= old(buf)@ + be32(v));
}

fn put_u64(v: u64, buf: &mut Vec<u8>)
    ensures
        final(buf)@ == old(buf)@ + be64(v),
{
    buf.push((v >> 56u64) as u8);
    buf.push((v >> 48u64) as u8);
    buf.push((v >> 40u64) as u8);
    buf.push((v >> 32u64) as u8);
    buf.push((v >> 24u64) as u8);
    buf.push((v >> 16u64) as u8);
    buf.push((v >> 8u64) as u8);
    buf.push(v as u8);
    assert(final(buf)@ =~= old(buf)@ + be64(v));
}

fn get_u32(buf: &[u8], pos: usize) -> (r: u32)
    requires
        pos + 4 <= buf@.len(),
    ensures
        r == from_be32(rest_of(buf@, pos)),
{
    ((buf[pos] as u32) << 24u32) | ((buf[pos + 1] as u32) << 16u32) | ((buf[pos + 2] as u32)
        << 8u32) | (buf[pos + 3] as u32)
}

fn get_u64(buf: &[u8], pos: usize) -> (r: u64)
    requires
        pos + 8 <= buf@.len(),
    ensures
        r == from_be64(rest_of(buf@, pos)),
{
    ((buf[pos] as u64) << 56u64) | ((buf[pos + 1] as u64) << 48u64) | ((buf[pos + 2] as u64)
        << 40u64) | ((buf[pos + 3] as u64) << 32u64) | ((buf[pos + 4] as u64) << 24u64) | ((buf[pos
        + 5] as u64) << 16u64) | ((buf[pos + 6] as u64) << 8u64) | (buf[pos + 7] as u64)
}

impl Serialize for u8 {
    type Model = u8;

    open spec fn self_delimited() -> bool {
        true
    }

    open spec fn model(&self) -> u8 {
        *self
    }

    open spec fn valid(m: u8) -> bool {
        true
    }

    open spec fn encode(m: u8) -> Seq<u8> {
        seq![m]
    }

    open spec fn parse(s: Seq<u8>) -> Result<(u8, nat), DeserializeError> {
        if s.len() < 1 {
            Err(DeserializeError::UnexpectedEof)
        } else {
            Ok((s[0], 1))
        }
    }

    fn serialize(&self, buf: &mut Vec<u8>) {
        buf.push(*self);
        assert(final(buf)@ =~= old(buf)@ + seq![*self]);
    }

    fn deserialize(buf: &[u8], pos: usize) -> (r: Result<(u8, usize), DeserializeError>) {
        if buf.len() - pos < 1 {
            Err(DeserializeError::UnexpectedEof)
        } else {
            Ok((buf[pos], pos + 1))
        }
    }

    proof fn lemma_round_trip(m: u8, rest: Seq<u8>) {
        assert((seq![m] + rest)[0] == m);
    }

    proof fn lemma_parse_len(s: Seq<u8>) {
    }
}

impl Serialize for i8 {
    type Model = i8;

    open spec fn self_delimited() -> bool {
        true
    }

    open spec fn model(&self) -> i8 {
        *self
    }

    open spec fn valid(m: i8) -> bool {
        true
    }

    open spec fn encode(m: i8) -> Seq<u8> {
        seq![m as u8]
    }

    open spec fn parse(s: Seq<u8>) -> Result<(i8, nat), DeserializeError> {
        if s.len() < 1 {
            Err(DeserializeError::UnexpectedEof)
        } else {
            Ok((s[0] as i8, 1))
        }
    }

    fn serialize(&self, buf: &mut Vec<u8>) {
        buf.push(*self as u8);
        assert(final(buf)@ =~= old(buf)@ + seq![*self as u8]);
    }

    fn deserialize(buf: &[u8], pos: usize) -> (r: Result<(i8, usize), DeserializeError>) {
        if buf.len() - pos < 1 {
            Err(DeserializeError::UnexpectedEof)
        } else {
            Ok((buf[pos] as i8, pos + 1))
        }
    }

    proof fn lemma_round_trip(m: i8, rest: Seq<u8>) {
        assert((seq![m as u8] + rest)[0] == m as u8);
        assert(m as u8 as i8 == m) by (bit_vector);
    }

    proof fn lemma_parse_len(s: Seq<u8>) {
    }
}

/// Booleans are one byte; any non-zero byte reads as true.
impl Serialize for bool {
    type Model = bool;

    open spec fn self_delimited() -> bool {
        true
    }

    open spec fn model(&self) -> bool {
        *self
    }

    open spec fn valid(m: bool) -> bool {
        true
    }

    open spec fn encode(m: bool) -> Seq<u8> {
        seq![if m { 1u8 } else { 0u8 }]
    }

    open spec fn parse(s: Seq<u8>) -> Result<(bool, nat), DeserializeError> {
        if s.len() < 1 {
            Err(DeserializeError::UnexpectedEof)
        } else {
            Ok((s[0] != 0, 1))
        }
    }

    fn serialize(&self, buf: &mut Vec<u8>) {
        let b: u8 = if *self { 1 } else { 0 };
        buf.push(b);
        assert(final(buf)@ =~= old(buf)@ + Self::encode(*self));
    }

    fn deserialize(buf: &[u8], pos: usize) -> (r: Result<(bool, usize), DeserializeError>) {
        if buf.len() - pos < 1 {
            Err(DeserializeError::UnexpectedEof)
        } else {
            Ok((buf[pos] != 0, pos + 1))
        }
    }

    proof fn lemma_round_trip(m: bool, rest: Seq<u8>) {
        assert((Self::encode(m) + rest)[0] == Self::encode(m)[0]);
    }

    proof fn lemma_parse_len(s: Seq<u8>) {
    }
}

impl Serialize for u16 {
    type Model = u16;

    open spec fn self_delimited() -> bool {
        true
    }

    open spec fn model(&self) -> u16 {
        *self
    }

    open spec fn valid(m: u16) -> bool {
        true
    }

    open spec fn encode(m: u16) -> Seq<u8> {
        be16(m)
    }

    open spec fn parse(s: Seq<u8>) -> Result<(u16, nat), DeserializeError> {
        if s.len() < 2 {
            Err(DeserializeError::UnexpectedEof)
        } else {
            Ok((from_be16(s[0], s[1]), 2))
        }
    }

    fn serialize(&self, buf: &mut Vec<u8>) {
        put_u16(*self, buf);
        assert(Self::encode(self.model()) == be16(*self));
    }

    fn deserialize(buf: &[u8], pos: usize) -> (r: Result<(u16, usize), DeserializeError>) {
        if buf.len() - pos < 2 {
            Err(DeserializeError::UnexpectedEof)
        } else {
            Ok((((buf[pos] as u16) << 8u16) | (buf[pos + 1] as u16), pos + 2))
        }
    }

    proof fn lemma_round_trip(m: u16, rest: Seq<u8>) {
        let s = be16(m) + rest;
        assert(s[0] == (m >> 8u16) as u8 && s[1] == m as u8);
        lemma_be16(m);
    }

    proof fn lemma_parse_len(s: Seq<u8>) {
    }
}

impl Serialize for i16 {
    type Model = i16;

    open spec fn self_delimited() -> bool {
        true
    }

    open spec fn model(&self) -> i16 {
        *self
    }

    open spec fn valid(m: i16) -> bool {
        true
    }

    open spec fn encode(m: i16) -> Seq<u8> {
        be16(m as u16)
    }

    open spec fn parse(s: Seq<u8>) -> Result<(i16, nat), DeserializeError> {
        if s.len() < 2 {
            Err(DeserializeError::UnexpectedEof)
        } else {
            Ok((from_be16(s[0], s[1]) as i16, 2))
        }
    }

    fn serialize(&self, buf: &mut Vec<u8>) {
        put_u16(*self as u16, buf);
        assert(Self::encode(self.model()) == be16(*self as u16));
    }

    fn deserialize(buf: &[u8], pos: usize) -> (r: Result<(i16, usize), DeserializeError>) {
        if buf.len() - pos < 2 {
            Err(DeserializeError::UnexpectedEof)
        } else {
            Ok(((((buf[pos] as u16) << 8u16) | (buf[pos + 1] as u16)) as i16, pos + 2))
        }
    }

    proof fn lemma_round_trip(m: i16, rest: Seq<u8>) {
        let u = m as u16;
        let s = be16(u) + rest;
        assert(s[0] == (u >> 8u16) as u8 && s[1] == u as u8);
        lemma_be16(u);
        assert(u as i16 == m) by (bit_vector)
            requires
                u == m as u16,
        ;
    }

    proof fn lemma_parse_len(s: Seq<u8>) {
    }
}

impl Serialize for u32 {
    type Model = u32;

    open spec fn self_delimited() -> bool {
        true
    }

    open spec fn model(&self) -> u32 {
        *self
    }

    open spec fn valid(m: u32) -> bool {
        true
    }

    open spec fn encode(m: u32) -> Seq<u8> {
        be32(m)
    }

    open spec fn parse(s: Seq<u8>) -> Result<(u32, nat), DeserializeError> {
        fixed(s, 4, from_be32(s))
    }

    fn serialize(&self, buf: &mut Vec<u8>) {
        put_u32(*self, buf);
        assert(Self::encode(self.model()) == be32(*self));
    }

    fn deserialize(buf: &[u8], pos: usize) -> (r: Result<(u32, usize), DeserializeError>) {
        if buf.len() - pos < 4 {
            Err(DeserializeError::UnexpectedEof)
        } else {
            Ok((get_u32(buf, pos), pos + 4))
        }
    }

    proof fn lemma_round_trip(m: u32, rest: Seq<u8>) {
        lemma_be32(m);
        assert(from_be32(be32(m) + rest) == from_be32(be32(m)));
    }

    proof fn lemma_parse_len(s: Seq<u8>) {
    }
}

impl Serialize for i32 {
    type Model = i32;

    open spec fn self_delimited() -> bool {
        true
    }

    open spec fn model(&self) -> i32 {
        *self
    }

    open spec fn valid(m: i32) -> bool {
        true
    }

    open spec fn encode(m: i32) -> Seq<u8> {
        be32(m as u32)
    }

    open spec fn parse(s: Seq<u8>) -> Result<(i32, nat), DeserializeError> {
        fixed(s, 4, from_be32(s) as i32)
    }

    fn serialize(&self, buf: &mut Vec<u8>) {
        put_u32(*self as u32, buf);
        assert(Self::encode(self.model()) == be32(*self as u32));
    }

    fn deserialize(buf: &[u8], pos: usize) -> (r: Result<(i32, usize), DeserializeError>) {
        if buf.len() - pos < 4 {
            Err(DeserializeError::UnexpectedEof)
        } else {
            Ok((get_u32(buf, pos) as i32, pos + 4))
        }
    }

    proof fn lemma_round_trip(m: i32, rest: Seq<u8>) {
        let u = m as u32;
        lemma_be32(u);
        assert(from_be32(be32(u) + rest) == from_be32(be32(u)));
        assert(u as i32 == m) by (bit_vector)
            requires
                u == m as u32,
        ;
    }

    proof fn lemma_parse_len(s: Seq<u8>) {
    }
}

impl Serialize for u64 {
    type Model = u64;

    open spec fn self_delimited() -> bool {
        true
    }

    open spec fn model(&self) -> u64 {
        *self
    }

    open spec fn valid(m: u64) -> bool {
        true
    }

    open spec fn encode(m: u64) -> Seq<u8> {
        be64(m)
    }

    open spec fn parse(s: Seq<u8>) -> Result<(u64, nat), DeserializeError> {
        fixed(s, 8, from_be64(s))
    }

    fn serialize(&self, buf: &mut Vec<u8>) {
        put_u64(*self, buf);
        assert(Self::encode(self.model()) == be64(*self));
    }

    fn deserialize(buf: &[u8], pos: usize) -> (r: Result<(u64, usize), DeserializeError>) {
        if buf.len() - pos < 8 {
            Err(DeserializeError::UnexpectedEof)
        } else {
            Ok((get_u64(buf, pos), pos + 8))
        }
    }

    proof fn lemma_round_trip(m: u64, rest: Seq<u8>) {
        lemma_be64(m);
        assert(from_be64(be64(m) + rest) == from_be64(be64(m)));
    }

    proof fn lemma_parse_len(s: Seq<u8>) {
    }
}

impl Serialize for i64 {
    type Model = i64;

    open spec fn self_delimited() -> bool {
        true
    }

    open spec fn model(&self) -> i64 {
        *self
    }

    open spec fn valid(m: i64) -> bool {
        true
    }

    open spec fn encode(m: i64) -> Seq<u8> {
        be64(m as u64)
    }

    open spec fn parse(s: Seq<u8>) -> Result<(i64, nat), DeserializeError> {
        fixed(s, 8, from_be64(s) as i64)
    }

    fn serialize(&self, buf: &mut Vec<u8>) {
        put_u64(*self as u64, buf);
        assert(Self::encode(self.model()) == be64(*self as u64));
    }

    fn deserialize(buf: &[u8], pos: usize) -> (r: Result<(i64, usize), DeserializeError>) {
        if buf.len() - pos < 8 {
            Err(DeserializeError::UnexpectedEof)
        } else {
            Ok((get_u64(buf, pos) as i64, pos + 8))
        }
    }

    proof fn lemma_round_trip(m: i64, rest: Seq<u8>) {
        let u = m as u64;
        lemma_be64(u);
        assert(from_be64(be64(u) + rest) == from_be64(be64(u)));
        assert(u as i64 == m) by (bit_vector)
            requires
                u == m as u64,
        ;
    }

    proof fn lemma_parse_len(s: Seq<u8>) {
    }
}

impl Serialize for VarInt {
    type Model = i32;

    open spec fn self_delimited() -> bool {
        true
    }

    open spec fn model(&self) -> i32 {
        self.0
    }

    open spec fn valid(m: i32) -> bool {
        true
    }

    open spec fn encode(m: i32) -> Seq<u8> {
        varint_bytes(m)
    }

    open spec fn parse(s: Seq<u8>) -> Result<(i32, nat), DeserializeError> {
        parse_varint(s)
    }

    fn serialize(&self, buf: &mut Vec<u8>) {
        VarInt::serialize(self, buf);
    }

    fn deserialize(buf: &[u8], pos: usize) -> (r: Result<(VarInt, usize), DeserializeError>) {
        let _len = buf.len();
        let r = VarInt::deserialize(buf, pos);
        proof {
            lemma_parse_varint_len(rest_of(buf@, pos));
            assert(rest_of(buf@, pos).len() == buf@.len() - pos);
        }
        r
    }

    proof fn lemma_round_trip(m: i32, rest: Seq<u8>) {
        lemma_varint_round_trip(m, rest);
    }

    proof fn lemma_parse_len(s: Seq<u8>) {
        lemma_parse_varint_len(s);
    }
}

impl Serialize for VarLong {
    type Model = i64;

    open spec fn self_delimited() -> bool {
        true
    }

    open spec fn model(&self) -> i64 {
        self.0
    }

    open spec fn valid(m: i64) -> bool {
        true
    }

    open spec fn encode(m: i64) -> Seq<u8> {
        varlong_bytes(m)
    }

    open spec fn parse(s: Seq<u8>) -> Result<(i64, nat), DeserializeError> {
        parse_varlong(s)
    }

    fn serialize(&self, buf: &mut Vec<u8>) {
        VarLong::serialize(self, buf);
    }

    fn deserialize(buf: &[u8], pos: usize) -> (r: Result<(VarLong, usize), DeserializeError>) {
        let _len = buf.len();
        let r = VarLong::deserialize(buf, pos);
        proof {
            lemma_parse_varint_len(rest_of(buf@, pos));
            assert(rest_of(buf@, pos).len() == buf@.len() - pos);
        }
        r
    }

    proof fn lemma_round_trip(m: i64, rest: Seq<u8>) {
        lemma_varlong_round_trip(m, rest);
    }

    proof fn lemma_parse_len(s: Seq<u8>) {
        lemma_parse_varint_len(s);
    }
}

} // verus!

verus! {

/// The 128-bit value of sixteen big-endian bytes.
pub open spec fn from_be128(s: Seq<u8>) -> u128 {
    ((from_be64(s) as u128) << 64u128) | (from_be64(s.subrange(8, 16)) as u128)
}

proof fn lemma_u128_halves(v: u128)
    by (bit_vector)
    ensures
        ((((v >> 64u128) as u64) as u128) << 64u128) | ((v as u64) as u128) == v,
{
}

/// 128-bit values, such as UUIDs: sixteen bytes, big-endian.
impl Serialize for u128 {
    type Model = u128;

    open spec fn self_delimited() -> bool {
        true
    }

    open spec fn model(&self) -> u128 {
        *self
    }

    open spec fn valid(m: u128) -> bool {
        true
    }

    open spec fn encode(m: u128) -> Seq<u8> {
        be64((m >> 64u128) as u64) + be64(m as u64)
    }

    open spec fn parse(s: Seq<u8>) -> Result<(u128, nat), DeserializeError> {
        fixed(s, 16, from_be128(s))
    }

    fn serialize(&self, buf: &mut Vec<u8>) {
        let hi = (*self >> 64u128) as u64;
        let lo = *self as u64;
        put_u64(hi, buf);
        put_u64(lo, buf);
        assert(Self::encode(*self) == be64(hi) + be64(lo));
        assert(final(buf)@ =~= old(buf)@ + (be64(hi) + be64(lo)));
    }

    fn deserialize(buf: &[u8], pos: usize) -> (r: Result<(u128, usize), DeserializeError>) {
        if buf.len() - pos < 16 {
            Err(DeserializeError::UnexpectedEof)
        } else {
            let hi = get_u64(buf, pos);
            let lo = get_u64(buf, pos + 8);
            assert(rest_of(buf@, (pos + 8) as usize) =~= rest_of(buf@, pos).subrange(
                8,
                rest_of(buf@, pos).len() as int,
            ));
            assert(from_be64(rest_of(buf@, pos).subrange(8, 16)) == from_be64(
                rest_of(buf@, (pos + 8) as usize),
            ));
            Ok((((hi as u128) << 64u128) | (lo as u128), pos + 16))
        }
    }

    proof fn lemma_round_trip(m: u128, rest: Seq<u8>) {
        let hi = (m >> 64u128) as u64;
        let lo = m as u64;
        let s = be64(hi) + be64(lo) + rest;
        lemma_be64(hi);
        lemma_be64(lo);
        assert(from_be64(s) == from_be64(be64(hi)));
        assert(s.subrange(8, 16) =~= be64(lo));
        lemma_u128_halves(m);
    }

    proof fn lemma_parse_len(s: Seq<u8>) {
    }
}

} // verus!
